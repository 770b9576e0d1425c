use cpu_watchdog::timer::TimerValue;
use cpu_watchdog::watchdog::{ArmRequest, WatchError, WatchOptions, Watchdog, WatchdogStatus};
use std::time::Duration;

fn opts(ms: u64) -> WatchOptions {
    WatchOptions { cpu_timeout: Duration::from_millis(ms) }
}

#[test]
fn initial_watchdog_is_not_ready() {
    let wd = Watchdog::initial();
    assert_eq!(wd.status(), WatchdogStatus::Initial);
    assert!(!wd.is_ready());
    assert_eq!(wd.watcher_tid(), 0);
}

#[test]
fn start_up_moves_forward_once() {
    let mut wd = Watchdog::initial();
    assert!(wd.claim_start());
    assert_eq!(wd.status(), WatchdogStatus::Starting);
    assert!(!wd.claim_start());
    assert_eq!(wd.status(), WatchdogStatus::Starting);
    wd.publish_watcher(4242);
    assert_eq!(wd.status(), WatchdogStatus::Started);
    assert_eq!(wd.watcher_tid(), 4242);
    assert!(!wd.claim_start());
    assert_eq!(wd.status(), WatchdogStatus::Started);
    assert_eq!(wd.watcher_tid(), 4242);
}

#[test]
fn new_watchdog_is_ready() {
    let wd = Watchdog::new(17);
    assert!(wd.is_ready());
    assert_eq!(wd.status(), WatchdogStatus::Started);
    assert_eq!(wd.watcher_tid(), 17);
}

#[test]
fn watch_before_ready_is_refused() {
    let wd = Watchdog::initial();
    assert_eq!(wd.try_watch(0x1000, opts(20)), Err(WatchError::NotReady));
    let mut wd = Watchdog::initial();
    wd.claim_start();
    assert_eq!(wd.try_watch(0x1000, opts(20)), Err(WatchError::NotReady));
}

#[test]
fn watch_after_ready_always_succeeds() {
    let wd = Watchdog::new(99);
    for i in 0..100usize {
        let r = wd.try_watch(0x1000 + i, opts(20));
        assert_eq!(
            r,
            Ok(ArmRequest {
                notify_tid: 99,
                payload: 0x1000 + i,
                value: TimerValue { sec: 0, nsec: 20_000_000 },
            })
        );
    }
    assert!(wd.is_ready());
}

#[test]
fn watch_targets_watcher_with_payload() {
    let wd = Watchdog::new(321);
    let r = wd.watch(0xdead0, opts(500));
    assert_eq!(r.notify_tid, 321);
    assert_eq!(r.payload, 0xdead0);
    assert_eq!(r.value, TimerValue { sec: 0, nsec: 500_000_000 });
}

#[test]
fn two_watches_keep_their_own_payloads() {
    let wd = Watchdog::new(55);
    let a = wd.watch(0xaaa0, opts(20));
    let b = wd.watch(0xbbb0, opts(500));
    assert_eq!(a.notify_tid, 55);
    assert_eq!(b.notify_tid, 55);
    assert_eq!(a.payload, 0xaaa0);
    assert_eq!(b.payload, 0xbbb0);
    assert_eq!(a.value, TimerValue { sec: 0, nsec: 20_000_000 });
    assert_eq!(b.value, TimerValue { sec: 0, nsec: 500_000_000 });
}
