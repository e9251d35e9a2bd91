use io_service::timer::SystemTimer;
use io_service::timer::Timer;

#[test]
fn test_system_timer() {
    let mut system_timer = SystemTimer::default();
    let now = system_timer.now_ms();

    assert!(0 < now);
}
