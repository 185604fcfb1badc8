//! Task status, its lifecycle, and task origin.
use vstd::prelude::*;

use crate::error::CrewError;
use crate::task::TaskId;

verus! {

/// Where a task sits in its lifecycle.
#[derive(Debug, Clone, Copy, PartialEq, Eq, Hash, Structural)]
pub enum TaskStatus {
    Todo,
    HandedOff,
    Done,
    Cancelled,
}

/// The legal transitions of the status lifecycle, and nothing else.
///
/// | from         | to           |
/// |--------------|--------------|
/// | `todo`       | `handed_off`, `done`, `cancelled` |
/// | `handed_off` | `todo`, `done`, `cancelled` |
/// | `done`       | `todo` |
/// | `cancelled`  | none: terminal |
pub open spec fn is_legal_transition(from: TaskStatus, to: TaskStatus) -> bool {
    match from {
        TaskStatus::Todo => to == TaskStatus::HandedOff || to == TaskStatus::Done
            || to == TaskStatus::Cancelled,
        TaskStatus::HandedOff => to == TaskStatus::Todo || to == TaskStatus::Done
            || to == TaskStatus::Cancelled,
        TaskStatus::Done => to == TaskStatus::Todo,
        TaskStatus::Cancelled => false,
    }
}

impl TaskStatus {
    /// The snake_case name used on the wire and in messages.
    pub open spec fn wire_name(self) -> Seq<char> {
        match self {
            TaskStatus::Todo => "todo"@,
            TaskStatus::HandedOff => "handed_off"@,
            TaskStatus::Done => "done"@,
            TaskStatus::Cancelled => "cancelled"@,
        }
    }

    pub fn as_str(self) -> (s: &'static str)
        ensures
            s@ == self.wire_name(),
    {
        match self {
            TaskStatus::Todo => "todo",
            TaskStatus::HandedOff => "handed_off",
            TaskStatus::Done => "done",
            TaskStatus::Cancelled => "cancelled",
        }
    }

    /// Whether the lifecycle allows moving from `self` to `to`.
    pub fn can_transition_to(self, to: TaskStatus) -> (b: bool)
        ensures
            b == is_legal_transition(self, to),
    {
        match self {
            TaskStatus::Todo => to != TaskStatus::Todo,
            TaskStatus::HandedOff => to != TaskStatus::HandedOff,
            TaskStatus::Done => to == TaskStatus::Todo,
            TaskStatus::Cancelled => false,
        }
    }

    /// Moves from `self` to `to` if the lifecycle allows it; otherwise names
    /// the task, both states, and the refused action.
    pub fn transition(self, id: TaskId, to: TaskStatus, action: &'static str) -> (r: Result<
        TaskStatus,
        CrewError,
    >)
        ensures
            r == (if is_legal_transition(self, to) {
                Ok::<TaskStatus, CrewError>(to)
            } else {
                Err::<TaskStatus, CrewError>(
                    CrewError::IllegalTransition { id, from: self, to, action },
                )
            }),
    {
        if self.can_transition_to(to) {
            Ok(to)
        } else {
            Err(CrewError::IllegalTransition { id, from: self, to, action })
        }
    }
}

/// `cancelled` is terminal: it accepts no outgoing transition.
pub proof fn lemma_cancelled_is_terminal(to: TaskStatus)
    ensures
        !is_legal_transition(TaskStatus::Cancelled, to),
{
}

/// No status transitions to itself: a second hand-off of a handed-off task,
/// or a skip of a task that is already `todo`, is refused.
pub proof fn lemma_no_self_transition(s: TaskStatus)
    ensures
        !is_legal_transition(s, s),
{
}

/// Only open work (`todo`, `handed_off`) can be cancelled.
pub proof fn lemma_cancel_only_open_work(from: TaskStatus)
    ensures
        is_legal_transition(from, TaskStatus::Cancelled) <==> (from == TaskStatus::Todo || from
            == TaskStatus::HandedOff),
{
}

/// A `done` task can only be reopened: its one way out is back to `todo`.
pub proof fn lemma_done_only_reopens(to: TaskStatus)
    ensures
        is_legal_transition(TaskStatus::Done, to) <==> to == TaskStatus::Todo,
{
}

/// Only a `todo` task can be handed off.
pub proof fn lemma_handoff_only_from_todo(from: TaskStatus)
    ensures
        is_legal_transition(from, TaskStatus::HandedOff) <==> from == TaskStatus::Todo,
{
}

/// Distinct statuses have distinct wire names.
pub proof fn lemma_status_names_distinct(a: TaskStatus, b: TaskStatus)
    ensures
        a.wire_name() == b.wire_name() ==> a == b,
{
    reveal_strlit("todo");
    reveal_strlit("handed_off");
    reveal_strlit("done");
    reveal_strlit("cancelled");
    if a != b && a.wire_name() == b.wire_name() {
        assert(a.wire_name()[0] == b.wire_name()[0]);
    }
}

/// Who created a task. The agent queue admits only human-created tasks, so
/// agent-created action items never re-enter it.
#[derive(Debug, Clone, Copy, PartialEq, Eq, Hash, Structural)]
pub enum TaskOrigin {
    Human,
    Agent,
}

impl TaskOrigin {
    /// The snake_case name used on the wire.
    pub open spec fn wire_name(self) -> Seq<char> {
        match self {
            TaskOrigin::Human => "human"@,
            TaskOrigin::Agent => "agent"@,
        }
    }

    pub fn as_str(self) -> (s: &'static str)
        ensures
            s@ == self.wire_name(),
    {
        match self {
            TaskOrigin::Human => "human",
            TaskOrigin::Agent => "agent",
        }
    }
}

/// Distinct origins have distinct wire names.
pub proof fn lemma_origin_names_distinct(a: TaskOrigin, b: TaskOrigin)
    ensures
        a.wire_name() == b.wire_name() ==> a == b,
{
    reveal_strlit("human");
    reveal_strlit("agent");
    if a != b && a.wire_name() == b.wire_name() {
        assert(a.wire_name()[0] == b.wire_name()[0]);
    }
}

} // verus!
