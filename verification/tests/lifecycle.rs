use crewlist::error::{CrewError, ErrorCode};
use crewlist::status::{TaskOrigin, TaskStatus};
use crewlist::task::{check_delete, check_parent, Task, Timestamp};

const ALL: [TaskStatus; 4] = [
    TaskStatus::Todo,
    TaskStatus::HandedOff,
    TaskStatus::Done,
    TaskStatus::Cancelled,
];

const LEGAL: [(TaskStatus, TaskStatus); 7] = [
    (TaskStatus::Todo, TaskStatus::HandedOff),
    (TaskStatus::Todo, TaskStatus::Done),
    (TaskStatus::Todo, TaskStatus::Cancelled),
    (TaskStatus::HandedOff, TaskStatus::Todo),
    (TaskStatus::HandedOff, TaskStatus::Done),
    (TaskStatus::HandedOff, TaskStatus::Cancelled),
    (TaskStatus::Done, TaskStatus::Todo),
];

fn at(secs: i64) -> Timestamp {
    Timestamp { secs, nanos: 0 }
}

fn root(id: i64, status: TaskStatus) -> Task {
    Task {
        id,
        title: format!("task {id}"),
        status,
        origin: TaskOrigin::Human,
        parent_id: None,
        agent_eligible: true,
        summary: None,
        created_at: at(100),
        updated_at: at(100),
        handed_off_at: None,
        completed_at: None,
    }
}

#[test]
fn unit_legal_transitions_accepted() {
    for (from, to) in LEGAL {
        assert!(from.can_transition_to(to), "{from:?} -> {to:?}");
        assert_eq!(from.transition(1, to, "move").unwrap(), to);
    }
}

#[test]
fn unit_illegal_transitions_rejected() {
    for from in ALL {
        for to in ALL {
            if LEGAL.contains(&(from, to)) {
                continue;
            }
            assert!(!from.can_transition_to(to), "{from:?} -> {to:?}");
            assert!(from.transition(1, to, "move").is_err());
        }
    }
}

#[test]
fn unit_cancelled_is_terminal() {
    for to in ALL {
        assert!(!TaskStatus::Cancelled.can_transition_to(to));
    }
}

#[test]
fn unit_rejection_names_both_states() {
    let err = TaskStatus::Done
        .transition(1, TaskStatus::HandedOff, "hand off")
        .unwrap_err();
    match &err {
        CrewError::IllegalTransition { id, from, to, action } => {
            assert_eq!(*id, 1);
            assert_eq!(*from, TaskStatus::Done);
            assert_eq!(*to, TaskStatus::HandedOff);
            assert_eq!(*action, "hand off");
        }
        other => panic!("expected an illegal transition, got {other:?}"),
    }
    assert_eq!(
        err.to_string(),
        "task 1 is 'done'; cannot hand off (would be 'handed_off')"
    );
    assert_eq!(err.code(), ErrorCode::IllegalTransition);
    assert_eq!(err.exit_code(), 4);
}

#[test]
fn status_and_origin_wire_names() {
    assert_eq!(TaskStatus::Todo.as_str(), "todo");
    assert_eq!(TaskStatus::HandedOff.as_str(), "handed_off");
    assert_eq!(TaskStatus::Done.as_str(), "done");
    assert_eq!(TaskStatus::Cancelled.as_str(), "cancelled");
    assert_eq!(TaskOrigin::Human.as_str(), "human");
    assert_eq!(TaskOrigin::Agent.as_str(), "agent");
}

#[test]
fn handoff_stamps_handed_off_at_and_leaves_the_queue() {
    let mut task = root(1, TaskStatus::Todo);
    assert!(task.in_agent_queue());
    task.apply_transition(TaskStatus::HandedOff, "hand off", at(200)).unwrap();
    assert_eq!(task.status, TaskStatus::HandedOff);
    assert_eq!(task.handed_off_at, Some(at(200)));
    assert_eq!(task.updated_at, at(200));
    assert_eq!(task.created_at, at(100));
    assert!(!task.in_agent_queue());
}

#[test]
fn skip_requeues_the_task() {
    let mut task = root(1, TaskStatus::Todo);
    task.apply_transition(TaskStatus::HandedOff, "hand off", at(200)).unwrap();
    task.apply_transition(TaskStatus::Todo, "skip", at(300)).unwrap();
    assert_eq!(task.status, TaskStatus::Todo);
    assert!(task.in_agent_queue());
}

#[test]
fn done_stamps_completed_at_and_reopen_clears_it() {
    let mut task = root(1, TaskStatus::HandedOff);
    task.apply_transition(TaskStatus::Done, "complete", at(400)).unwrap();
    assert_eq!(task.completed_at, Some(at(400)));
    task.apply_transition(TaskStatus::Todo, "reopen", at(500)).unwrap();
    assert_eq!(task.status, TaskStatus::Todo);
    assert_eq!(task.completed_at, None);
    assert_eq!(task.updated_at, at(500));
}

#[test]
fn rejected_transition_mutates_nothing() {
    let mut task = root(7, TaskStatus::Done);
    let before = task.clone();
    let err = task
        .apply_transition(TaskStatus::HandedOff, "hand off", at(900))
        .unwrap_err();
    assert_eq!(task, before);
    assert_eq!(err.exit_code(), 4);
    assert_eq!(
        err.to_string(),
        "task 7 is 'done'; cannot hand off (would be 'handed_off')"
    );
}

#[test]
fn second_handoff_is_rejected() {
    let mut task = root(1, TaskStatus::Todo);
    task.apply_transition(TaskStatus::HandedOff, "hand off", at(1)).unwrap();
    assert!(task.apply_transition(TaskStatus::HandedOff, "hand off", at(2)).is_err());
    assert_eq!(task.handed_off_at, Some(at(1)));
}

#[test]
fn skip_of_a_todo_task_is_rejected() {
    let mut task = root(1, TaskStatus::Todo);
    let err = task.apply_transition(TaskStatus::Todo, "skip", at(2)).unwrap_err();
    assert_eq!(err.code(), ErrorCode::IllegalTransition);
}

#[test]
fn agent_queue_filter() {
    let open_root = root(1, TaskStatus::Todo);
    assert!(open_root.in_agent_queue());

    let mut child = root(2, TaskStatus::Todo);
    child.origin = TaskOrigin::Agent;
    child.parent_id = Some(1);
    assert!(!child.in_agent_queue());
    assert!(!child.is_root());
    assert!(open_root.is_root());

    let mut kept_for_self = root(3, TaskStatus::Todo);
    kept_for_self.agent_eligible = false;
    assert!(!kept_for_self.in_agent_queue());

    let mut agent_root = root(4, TaskStatus::Todo);
    agent_root.origin = TaskOrigin::Agent;
    assert!(!agent_root.in_agent_queue());

    for status in [TaskStatus::HandedOff, TaskStatus::Done, TaskStatus::Cancelled] {
        assert!(!root(5, status).in_agent_queue());
    }
}

#[test]
fn done_parent_keeps_open_children() {
    let mut parent = root(1, TaskStatus::HandedOff);
    let mut child = root(2, TaskStatus::Todo);
    child.origin = TaskOrigin::Agent;
    child.parent_id = Some(1);
    parent.apply_transition(TaskStatus::Done, "complete", at(10)).unwrap();
    assert_eq!(parent.status, TaskStatus::Done);
    assert_eq!(child.status, TaskStatus::Todo);
}

#[test]
fn child_of_a_child_is_refused() {
    let parent = root(1, TaskStatus::Todo);
    assert!(check_parent(1, Some(&parent)).is_ok());

    let mut child = root(2, TaskStatus::Todo);
    child.parent_id = Some(1);
    let err = check_parent(2, Some(&child)).unwrap_err();
    assert_eq!(err.code(), ErrorCode::Validation);
    assert_eq!(err.exit_code(), 6);
    assert_eq!(err.to_string(), "task 2 is already a child");

    let err = check_parent(99, None).unwrap_err();
    assert_eq!(err.code(), ErrorCode::NotFound);
    assert_eq!(err.exit_code(), 3);
    assert_eq!(err.to_string(), "task 99 not found");
}

#[test]
fn deleting_a_parent_needs_force() {
    let err = check_delete(1, 2, false).unwrap_err();
    assert_eq!(err.code(), ErrorCode::Validation);
    assert_eq!(err.to_string(), "task 1 has 2 children; pass --force");
    assert!(check_delete(1, 2, true).is_ok());
    assert!(check_delete(1, 0, false).is_ok());
}
