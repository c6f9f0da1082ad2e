use scpsl_wrapper::signal::ShutdownCoordinator;

#[test]
fn shutdown_notice_reaches_the_receiver_once() {
    let (mut coordinator, mut receiver) = ShutdownCoordinator::new();
    assert!(!receiver.is_shutdown());
    coordinator.shutdown();
    coordinator.shutdown();
    let mut rx = receiver.take_receiver().expect("first take hands out the receiver");
    assert!(receiver.is_shutdown());
    assert!(receiver.take_receiver().is_none());
    assert_eq!(rx.try_recv(), Ok(()));
}

#[test]
fn dropped_receiver_does_not_stop_shutdown() {
    let (mut coordinator, mut receiver) = ShutdownCoordinator::new();
    drop(receiver.take_receiver());
    coordinator.shutdown();
    assert!(receiver.is_shutdown());
}
