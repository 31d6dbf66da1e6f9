use theater_mcp_server::theater::heartbeat::{Beat, Heartbeat, DEFAULT_HEARTBEAT_INTERVAL_MS};

#[test]
fn the_default_interval_is_thirty_seconds() {
    assert_eq!(DEFAULT_HEARTBEAT_INTERVAL_MS, 30_000);
}

#[test]
fn the_first_ping_is_due_at_once() {
    let mut heartbeat = Heartbeat::start(30_000, 1_000);
    assert_eq!(heartbeat.poll(1_000), Beat::Ping);
    assert_eq!(heartbeat.poll(1_000), Beat::Wait(30_000));
    assert_eq!(heartbeat.pings(), 1);
}

#[test]
fn each_interval_brings_exactly_one_more_ping() {
    let mut heartbeat = Heartbeat::start(30_000, 0);
    let mut now: u64 = 0;
    let mut pings: u64 = 0;
    for _tick in 0..10 {
        let mut due = 0;
        while heartbeat.poll(now) == Beat::Ping {
            due += 1;
        }
        assert_eq!(due, 1);
        pings += due;
        assert_eq!(heartbeat.pings(), pings);
        assert_eq!(heartbeat.poll(now + 29_999), Beat::Wait(1));
        now += 30_000;
    }
    assert_eq!(pings, 10);
}

#[test]
fn a_failed_ping_is_counted_and_changes_nothing_else() {
    let mut heartbeat = Heartbeat::start(100, 0);
    assert_eq!(heartbeat.poll(0), Beat::Ping);
    heartbeat.ping_finished(false);
    assert_eq!(heartbeat.failures(), 1);
    assert!(!heartbeat.is_cancelled());
    assert_eq!(heartbeat.poll(50), Beat::Wait(50));
    assert_eq!(heartbeat.poll(100), Beat::Ping);
    heartbeat.ping_finished(true);
    assert_eq!(heartbeat.failures(), 1);
    assert_eq!(heartbeat.pings(), 2);
    assert_eq!(heartbeat.interval_ms(), 100);
}

#[test]
fn missed_ticks_are_caught_up_one_by_one() {
    let mut heartbeat = Heartbeat::start(10, 0);
    assert_eq!(heartbeat.poll(35), Beat::Ping);
    assert_eq!(heartbeat.poll(35), Beat::Ping);
    assert_eq!(heartbeat.poll(35), Beat::Ping);
    assert_eq!(heartbeat.poll(35), Beat::Ping);
    assert_eq!(heartbeat.poll(35), Beat::Wait(5));
}

#[test]
fn a_cancelled_heartbeat_stops() {
    let mut heartbeat = Heartbeat::start(10, 0);
    heartbeat.cancel();
    assert!(heartbeat.is_cancelled());
    assert_eq!(heartbeat.poll(0), Beat::Stop);
    assert_eq!(heartbeat.poll(1_000), Beat::Stop);
    assert_eq!(heartbeat.pings(), 0);
}

#[test]
fn the_schedule_does_not_overflow() {
    let mut heartbeat = Heartbeat::start(u64::MAX, 5);
    assert_eq!(heartbeat.poll(5), Beat::Ping);
    assert_eq!(heartbeat.poll(6), Beat::Wait(u64::MAX - 6));
}
