use vstd::prelude::*;

use crate::text::same_text;

verus! {

/// The task states that a client may ask to list.
#[derive(Clone, Copy, Debug, PartialEq, Eq, Structural)]
pub enum TaskState {
    Pending,
    Active,
    Scheduled,
    Retry,
    Archived,
    Completed,
}

/// The name under which a task state is requested.
pub open spec fn state_name(state: TaskState) -> Seq<char> {
    match state {
        TaskState::Pending => "pending"@,
        TaskState::Active => "active"@,
        TaskState::Scheduled => "scheduled"@,
        TaskState::Retry => "retry"@,
        TaskState::Archived => "archived"@,
        TaskState::Completed => "completed"@,
    }
}

/// The task state that a requested name selects, if any.
pub open spec fn state_named(name: Seq<char>) -> Option<TaskState> {
    if name == "pending"@ {
        Some(TaskState::Pending)
    } else if name == "active"@ {
        Some(TaskState::Active)
    } else if name == "scheduled"@ {
        Some(TaskState::Scheduled)
    } else if name == "retry"@ {
        Some(TaskState::Retry)
    } else if name == "archived"@ {
        Some(TaskState::Archived)
    } else if name == "completed"@ {
        Some(TaskState::Completed)
    } else {
        None
    }
}

/// Reads a task state from its name; any other text selects none.
pub fn parse_task_state(name: &str) -> (state: Option<TaskState>)
    ensures
        state == state_named(name@),
{
    if same_text(name, "pending") {
        Some(TaskState::Pending)
    } else if same_text(name, "active") {
        Some(TaskState::Active)
    } else if same_text(name, "scheduled") {
        Some(TaskState::Scheduled)
    } else if same_text(name, "retry") {
        Some(TaskState::Retry)
    } else if same_text(name, "archived") {
        Some(TaskState::Archived)
    } else if same_text(name, "completed") {
        Some(TaskState::Completed)
    } else {
        None
    }
}

/// A name selects a state exactly when it is that state's name: every state
/// is reached by its own name, and by no other text.
pub proof fn lemma_state_names_round_trip(name: Seq<char>, state: TaskState)
    ensures
        state_named(state_name(state)) == Some(state),
        state_named(name) == Some(state) <==> name == state_name(state),
{
    reveal_strlit("pending");
    reveal_strlit("active");
    reveal_strlit("scheduled");
    reveal_strlit("retry");
    reveal_strlit("archived");
    reveal_strlit("completed");
    assert("pending"@.len() == 7);
    assert("active"@.len() == 6);
    assert("scheduled"@.len() == 9);
    assert("retry"@.len() == 5);
    assert("archived"@.len() == 8);
    assert("completed"@.len() == 9);
    assert("scheduled"@[0] != "completed"@[0]);
}

} // verus!
