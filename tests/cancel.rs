use revw::Coordinator;

#[test]
fn interrupt_takes_the_running_child() {
    let mut c = Coordinator::new();
    assert!(!c.is_shutdown());
    assert!(!c.child_started(42));
    assert_eq!(c.running_child, Some(42));
    assert_eq!(c.request_shutdown(), Some(42));
    assert!(c.is_shutdown());
    assert_eq!(c.running_child, None);
    assert_eq!(c.request_shutdown(), None);
    assert!(c.is_shutdown());
}

#[test]
fn finished_child_is_never_signalled() {
    let mut c = Coordinator::new();
    assert!(!c.child_started(7));
    c.child_finished();
    assert_eq!(c.request_shutdown(), None);
}

#[test]
fn child_spawned_after_interrupt_is_handed_back() {
    let mut c = Coordinator::new();
    c.request_shutdown();
    assert!(c.child_started(9));
    assert_eq!(c.running_child, None);
    assert!(c.is_shutdown());
}
