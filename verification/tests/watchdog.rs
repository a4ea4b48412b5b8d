use gray_mirror::gateway::Interval;
use gray_mirror::watchdog::{Watchdog, BOT_RESEND_INTERVAL_MS, BOT_RESP_TIMEOUT_MS};

#[test]
fn no_resend_before_timeout() {
    let mut wd = Watchdog::new(String::from("keyword"), 100, 0);
    let mut gate = Interval::from_millis(60);
    assert!(!wd.check(&mut gate, 50));
    assert!(!wd.check(&mut gate, 100));
    assert_eq!(wd.last_update, 0);
}

#[test]
fn one_resend_per_timeout_window() {
    let mut wd = Watchdog::new(String::from("keyword"), 100, 0);
    let mut gate = Interval::from_millis(60);
    assert!(wd.check(&mut gate, 101));
    assert_eq!(wd.last_update, 101);
    // within the new window nothing fires
    assert!(!wd.check(&mut gate, 150));
    assert!(!wd.check(&mut gate, 201));
    // the next window elapsed: exactly one more resend
    assert!(wd.check(&mut gate, 210));
    assert!(210 - 101 > 100);
}

#[test]
fn resends_respect_the_gate_interval() {
    // timeout far shorter than the resend interval: windows elapse
    // back-to-back but the limiter spaces the resends
    let mut wd = Watchdog::new(String::from("keyword"), 10, 0);
    let mut gate = Interval::from_millis(1000);
    assert!(wd.check(&mut gate, 20));
    // a full timeout window has elapsed, but the limiter is not ready
    assert!(!wd.check(&mut gate, 40));
    assert!(!wd.check(&mut gate, 900));
    assert!(wd.check(&mut gate, 1020));
    assert!(1020 - 20 >= 1000);
}

#[test]
fn activity_postpones_resend() {
    let mut wd = Watchdog::new(String::from("keyword"), 100, 0);
    let mut gate = Interval::from_millis(10);
    wd.on_activity(90);
    assert!(!wd.check(&mut gate, 150));
    assert!(wd.check(&mut gate, 191));
}

#[test]
fn default_watchdog_constants() {
    assert_eq!(BOT_RESP_TIMEOUT_MS, 60_000);
    assert_eq!(BOT_RESEND_INTERVAL_MS, 60_000);
}
