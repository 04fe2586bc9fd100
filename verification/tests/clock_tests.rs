use std::time::{SystemTime, UNIX_EPOCH};
use uptime_monitor::clock::current_time_seconds;

#[test]
fn clock_reads_seconds_since_the_epoch() {
    let before = SystemTime::now().duration_since(UNIX_EPOCH).unwrap().as_secs();
    let now = current_time_seconds().unwrap();
    let after = SystemTime::now().duration_since(UNIX_EPOCH).unwrap().as_secs();
    assert!(before <= now && now <= after);
    assert!(now > 1_600_000_000);
}

#[test]
fn clock_does_not_run_back_between_two_readings() {
    let first = current_time_seconds().unwrap();
    let second = current_time_seconds().unwrap();
    assert!(second >= first);
    assert!(second - first < 60);
}
