use vstd::prelude::*;

verus! {

/// An ordered list of steps that a request is broken into.
pub struct Plan {
    pub steps: Vec<String>,
}

/// The steps of the fixed plan, in order.
pub open spec fn plan_steps() -> Seq<Seq<char>> {
    seq![
        "Understand the request"@,
        "Break into subtasks"@,
        "Execute each subtask"@,
        "Produce final response"@,
    ]
}

/// Breaks a request into steps. Every request gets the same four-step plan.
pub fn plan(prompt: &str) -> (r: Plan)
    ensures
        r.steps@.map_values(|s: String| s@) == plan_steps(),
{
    proof {
        reveal_strlit("Understand the request");
        reveal_strlit("Break into subtasks");
        reveal_strlit("Execute each subtask");
        reveal_strlit("Produce final response");
    }
    let steps = vec![
        "Understand the request".to_owned(),
        "Break into subtasks".to_owned(),
        "Execute each subtask".to_owned(),
        "Produce final response".to_owned(),
    ];
    assert(steps@.map_values(|s: String| s@) =~= plan_steps());
    Plan { steps }
}

} // verus!
