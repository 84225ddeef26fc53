use naui_core::task::{TaskState, WakeStep};

#[test]
fn wakes_before_a_poll_ask_for_one_poll() {
    let mut task = TaskState::new();
    assert_eq!(task.wake(), WakeStep::Post);
    assert_eq!(task.wake(), WakeStep::AlreadyScheduled);
    assert_eq!(task.wake(), WakeStep::AlreadyScheduled);
    assert!(task.begin_pump());
    assert!(!task.end_poll(true));
    assert_eq!(task.wake(), WakeStep::Post);
}

#[test]
fn a_wake_from_inside_the_poll_is_kept() {
    let mut task = TaskState::new();
    task.wake();
    assert!(task.begin_pump());
    assert_eq!(task.wake(), WakeStep::Post);
    assert!(!task.end_poll(true));
    assert!(task.begin_pump());
    assert!(task.end_poll(false));
    assert!(task.is_finished());
}

#[test]
fn a_finished_task_ignores_old_wakers() {
    let mut task = TaskState::new();
    task.wake();
    assert!(task.begin_pump());
    assert!(task.end_poll(false));
    assert_eq!(task.wake(), WakeStep::Ignored);
    assert!(!task.begin_pump());
    assert!(task.is_finished());
}

#[test]
fn a_cancelled_task_is_not_polled() {
    let mut task = TaskState::new();
    task.wake();
    assert!(task.cancel());
    assert!(task.is_finished());
    assert!(!task.begin_pump());
    assert_eq!(task.wake(), WakeStep::Ignored);
    assert!(!task.cancel());
}

#[test]
fn cancelling_from_inside_the_poll_ends_it_when_the_poll_returns() {
    let mut task = TaskState::new();
    task.wake();
    assert!(task.begin_pump());
    assert!(!task.cancel());
    assert!(!task.is_finished());
    assert!(task.end_poll(true));
    assert!(task.is_finished());
}

#[test]
fn a_pump_inside_the_poll_does_not_poll_again() {
    let mut task = TaskState::new();
    task.wake();
    assert!(task.begin_pump());
    assert!(!task.begin_pump());
    assert!(!task.end_poll(true));
}

#[test]
fn a_refused_first_poll_ends_the_task() {
    let mut task = TaskState::new();
    assert_eq!(task.wake(), WakeStep::Post);
    task.post_refused();
    task.finish();
    assert!(task.is_finished());
    assert_eq!(task.wake(), WakeStep::Ignored);
}
