use concurrency::task::{JoinError, TaskSlot};

#[test]
fn join_running_task_waits() {
    let mut t: TaskSlot<u32> = TaskSlot::new();
    assert!(!t.is_finished());
    assert_eq!(t.try_join(), None);
    t.complete(42);
    assert!(t.is_finished());
    assert_eq!(t.try_join(), Some(Ok(42)));
}

#[test]
fn join_panicked_task_reports_it() {
    let mut t: TaskSlot<String> = TaskSlot::new();
    t.fail();
    assert!(t.is_finished());
    assert_eq!(t.try_join(), Some(Err(JoinError::TaskPanicked)));
}

#[test]
fn join_returns_the_value_once() {
    let mut t: TaskSlot<Vec<i32>> = TaskSlot::new();
    t.complete(vec![1, 2, 3]);
    assert_eq!(t.try_join(), Some(Ok(vec![1, 2, 3])));
    // the slot is empty now: it reports a finished task but holds no value
    assert!(t.is_finished());
}
