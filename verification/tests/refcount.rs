use worker_pool::refcount::OwnerCount;

#[test]
fn value_lives_while_any_handle_does() {
    let mut rc = OwnerCount::new();
    assert_eq!(rc.strong_count(), 1);
    rc.clone_handle();
    rc.clone_handle();
    assert_eq!(rc.strong_count(), 3);
    rc.drop_handle();
    rc.drop_handle();
    assert!(!rc.freed);
    assert_eq!(rc.strong_count(), 1);
}

#[test]
fn value_released_exactly_at_last_drop() {
    let mut rc = OwnerCount::new();
    rc.clone_handle();
    rc.drop_handle();
    assert!(!rc.freed);
    rc.drop_handle();
    assert!(rc.freed);
    assert_eq!(rc.strong_count(), 0);
}
