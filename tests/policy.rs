use nexus_native::agent::plan;
use nexus_native::safety::{check_thermal_throttle, determine_safe_threads, threads_for_cores};
use nexus_native::tools::{Tool, ToolRegistry, ToolRequest};

#[test]
fn thread_policy_by_core_count() {
    assert_eq!(threads_for_cores(0), 2);
    assert_eq!(threads_for_cores(1), 2);
    assert_eq!(threads_for_cores(4), 2);
    assert_eq!(threads_for_cores(5), 3);
    assert_eq!(threads_for_cores(6), 3);
    assert_eq!(threads_for_cores(7), 4);
    assert_eq!(threads_for_cores(64), 4);
}

#[test]
fn safe_threads_within_cap() {
    let t = determine_safe_threads();
    assert!((2..=4).contains(&t));
}

#[test]
fn no_thermal_throttle_reported() {
    assert!(!check_thermal_throttle());
}

#[test]
fn plan_has_four_steps() {
    let p = plan("write a poem");
    assert_eq!(
        p.steps,
        vec![
            "Understand the request",
            "Break into subtasks",
            "Execute each subtask",
            "Produce final response"
        ]
    );
}

#[test]
fn registry_resolves_tools() {
    let r = ToolRegistry::new();
    assert_eq!(r.lookup("write_file"), Some(Tool::WriteFile));
    assert_eq!(r.lookup("read_file"), Some(Tool::ReadFile));
    assert_eq!(r.lookup("list_workspace"), Some(Tool::ListWorkspace));
    assert_eq!(r.lookup("delete_file"), None);
}

#[test]
fn call_unknown_tool_is_none() {
    let r = ToolRegistry::new();
    assert_eq!(r.call("rm", "x".to_string()), None);
}

#[test]
fn call_write_splits_at_first_bar() {
    let r = ToolRegistry::new();
    assert_eq!(
        r.call("write_file", "notes.txt|a|b".to_string()),
        Some(ToolRequest::Write { file: "notes.txt".to_string(), content: "a|b".to_string() })
    );
    assert_eq!(
        r.call("write_file", "|".to_string()),
        Some(ToolRequest::Write { file: String::new(), content: String::new() })
    );
}

#[test]
fn call_write_without_bar_is_invalid() {
    let r = ToolRegistry::new();
    assert_eq!(r.call("write_file", "notes.txt".to_string()), Some(ToolRequest::InvalidFormat));
}

#[test]
fn call_read_and_list() {
    let r = ToolRegistry::new();
    assert_eq!(
        r.call("read_file", "a.md".to_string()),
        Some(ToolRequest::Read { file: "a.md".to_string() })
    );
    assert_eq!(r.call("list_workspace", String::new()), Some(ToolRequest::List));
}
