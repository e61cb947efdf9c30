use basins::progress::{MonitorAction, ProgressMonitor};

#[test]
fn monitor_starts_at_zero() {
    let m = ProgressMonitor::new(100);
    assert_eq!(m.total(), 100);
    assert_eq!(m.position(), 0);
    assert!(!m.is_stopped());
}

#[test]
fn monitor_waits_without_signal() {
    let mut m = ProgressMonitor::new(100);
    assert_eq!(m.poll(10, false), MonitorAction::Wait);
    assert_eq!(m.position(), 10);
    assert_eq!(m.poll(55, false), MonitorAction::Wait);
    assert_eq!(m.position(), 55);
    assert!(!m.is_stopped());
}

#[test]
fn monitor_stops_on_first_signalled_poll() {
    let mut m = ProgressMonitor::new(100);
    assert_eq!(m.poll(40, false), MonitorAction::Wait);
    assert_eq!(m.poll(100, true), MonitorAction::Stop);
    assert_eq!(m.position(), 100);
    assert!(m.is_stopped());
}

#[test]
fn monitor_stays_stopped() {
    let mut m = ProgressMonitor::new(4);
    assert_eq!(m.poll(4, true), MonitorAction::Stop);
    assert_eq!(m.poll(2, false), MonitorAction::Stop);
    assert_eq!(m.position(), 4);
    assert_eq!(m.poll(3, true), MonitorAction::Stop);
    assert_eq!(m.position(), 4);
}
