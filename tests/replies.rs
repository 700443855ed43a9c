use nexus_native::tools::{invalid_format_reply, list_reply, read_reply, workspace_path, write_reply};

#[test]
fn workspace_path_prefixes_dir() {
    assert_eq!(workspace_path("a.txt"), "workspace/a.txt");
}

#[test]
fn invalid_format_message() {
    assert_eq!(invalid_format_reply(), "Error: Invalid format. Use 'filename|content'");
}

#[test]
fn write_reply_success_and_failure() {
    assert_eq!(write_reply("a.txt", &Ok(())), "Success: 'a.txt' written to workspace.");
    assert_eq!(
        write_reply("a.txt", &Err("disk full".to_string())),
        "Error: Failed to write file: disk full"
    );
}

#[test]
fn read_reply_content_or_error() {
    assert_eq!(read_reply("a.txt", Ok("hello".to_string())), "hello");
    assert_eq!(
        read_reply("a.txt", Err("not found".to_string())),
        "Error: Could not read 'a.txt': not found"
    );
}

#[test]
fn list_reply_cases() {
    assert_eq!(list_reply(&Ok(Vec::new())), "Workspace is empty.");
    assert_eq!(list_reply(&Ok(vec!["a".to_string()])), "Workspace files: a");
    assert_eq!(
        list_reply(&Ok(vec!["a".to_string(), "b".to_string(), "c".to_string()])),
        "Workspace files: a, b, c"
    );
    assert_eq!(
        list_reply(&Err("denied".to_string())),
        "Error: Could not access workspace: denied"
    );
}
