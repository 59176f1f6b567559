use mio_egal::executor::{after_poll, all_tasks_done, AfterPoll, IdleTasks, PollAction};
use mio_egal::{RunTimeDead, Task, TaskId, TaskIdSource};
use std::sync::Arc;

fn task(id: usize, fut: u32) -> Task<u32> {
    Task { id: TaskId(id), fut, counter: Arc::new(()) }
}

#[test]
fn fresh_source_counts_from_one() {
    let mut source = TaskIdSource::new();
    assert_eq!(TaskId::next(&mut source), TaskId(1));
    assert_eq!(TaskId::next(&mut source), TaskId(2));
    assert_eq!(TaskId::next(&mut source), TaskId(3));
}

#[test]
fn fresh_ids_are_never_none() {
    let mut source = TaskIdSource::new();
    for _ in 0..1000 {
        assert_ne!(TaskId::next(&mut source), TaskId::none());
    }
}

#[test]
fn none_is_zero() {
    assert_eq!(TaskId::none(), TaskId(0));
    assert_eq!(TaskId::none().0, 0);
}

#[test]
fn wake_without_task_does_nothing() {
    let mut idle: IdleTasks<u32> = IdleTasks::new();
    let action = idle.poll_step(TaskId::none(), vec![]);
    assert!(matches!(action, PollAction::Nothing));
}

#[test]
fn wake_of_unknown_task_is_reported() {
    let mut idle: IdleTasks<u32> = IdleTasks::new();
    let action = idle.poll_step(TaskId(7), vec![task(3, 30)]);
    assert!(matches!(action, PollAction::Missing(TaskId(7))));
    // The task that came back pending is still parked.
    let again = idle.poll_step(TaskId(3), vec![]);
    match again {
        PollAction::Resume(t) => {
            assert_eq!(t.id, TaskId(3));
            assert_eq!(t.fut, 30);
        }
        _ => panic!("task 3 should have been resumed"),
    }
}

#[test]
fn pending_task_is_resumed_when_woken() {
    let mut idle: IdleTasks<u32> = IdleTasks::new();
    let action = idle.poll_step(TaskId(2), vec![task(1, 10), task(2, 20)]);
    match action {
        PollAction::Resume(t) => {
            assert_eq!(t.id, TaskId(2));
            assert_eq!(t.fut, 20);
        }
        _ => panic!("task 2 should have been resumed"),
    }
}

#[test]
fn task_is_resumed_at_most_once() {
    let mut idle: IdleTasks<u32> = IdleTasks::new();
    assert!(matches!(idle.poll_step(TaskId(4), vec![task(4, 40)]), PollAction::Resume(_)));
    assert!(matches!(idle.poll_step(TaskId(4), vec![]), PollAction::Missing(TaskId(4))));
}

#[test]
fn later_task_with_same_id_replaces_earlier() {
    let mut idle: IdleTasks<u32> = IdleTasks::new();
    match idle.poll_step(TaskId(5), vec![task(5, 1), task(5, 2)]) {
        PollAction::Resume(t) => assert_eq!(t.fut, 2),
        _ => panic!("task 5 should have been resumed"),
    }
}

#[test]
fn park_and_take() {
    let mut idle: IdleTasks<u32> = IdleTasks::new();
    idle.park(task(9, 90));
    idle.park_all(vec![task(8, 80)]);
    assert!(idle.take(TaskId(1)).is_none());
    assert_eq!(idle.take(TaskId(9)).map(|t| t.fut), Some(90));
    assert_eq!(idle.take(TaskId(8)).map(|t| t.fut), Some(80));
    assert!(idle.take(TaskId(9)).is_none());
}

#[test]
fn finished_last_task_wakes_main() {
    assert_eq!(after_poll(true, 2), AfterPoll::Finished { wake_main: true });
    assert_eq!(after_poll(true, 3), AfterPoll::Finished { wake_main: false });
    assert_eq!(after_poll(true, 1), AfterPoll::Finished { wake_main: false });
}

#[test]
fn pending_task_goes_back_to_runtime() {
    assert_eq!(after_poll(false, 2), AfterPoll::Park);
    assert_eq!(after_poll(false, 5), AfterPoll::Park);
}

#[test]
fn runtime_done_when_only_its_handle_is_left() {
    assert!(all_tasks_done(1));
    assert!(!all_tasks_done(2));
    assert!(!all_tasks_done(0));
    // Dropping the last task's handle after it woke the main loop leaves the runtime done.
    assert_eq!(after_poll(true, 2), AfterPoll::Finished { wake_main: all_tasks_done(1) });
}

#[test]
fn runtime_dead_displays_its_name() {
    assert_eq!(RunTimeDead.to_string(), "RunTimeDead");
}
