use std::time::{SystemTime, UNIX_EPOCH};
use stpc::{fetch_step, ntp_to_unix, ClockState, FetchStep, NtpServers, TimeManager};

#[test]
fn test_time_manager_initialization() {
    let time_manager = TimeManager::new();
    let initial_time = time_manager.get_time();

    let system_time = SystemTime::now().duration_since(UNIX_EPOCH).unwrap().as_secs();

    assert!((system_time as i64 - initial_time as i64).abs() < 30);
}

#[test]
fn test_ntp_servers_enum() {
    for server in NtpServers::all() {
        let address = server.address();
        assert!(!address.is_empty());
        assert!(address.contains(':'));
        assert!(address.ends_with(":123"));
    }

    assert!(NtpServers::all().len() >= 3);
}

#[test]
fn servers_are_tried_in_catalogue_order() {
    let addresses: Vec<&str> = NtpServers::all().iter().map(|s| s.address()).collect();
    assert_eq!(
        addresses,
        vec![
            "time.google.com:123",
            "pool.ntp.org:123",
            "time.windows.com:123",
            "time.apple.com:123",
            "time.cloudflare.com:123",
        ]
    );
}

#[test]
fn ntp_seconds_convert_to_unix_seconds() {
    assert_eq!(ntp_to_unix(2_208_988_800), Some(0));
    assert_eq!(ntp_to_unix(3_913_056_000), Some(1_704_067_200));
    assert_eq!(ntp_to_unix(2_208_988_799), None);
}

#[test]
fn stop_and_set_time_act_on_the_shared_clock() {
    let tm = TimeManager::new();
    let handle = tm.share();
    assert!(!handle.stop_requested());
    handle.set_time(42);
    assert_eq!(tm.get_time(), 42);
    tm.stop();
    assert!(handle.stop_requested());
}

#[test]
fn dropping_the_manager_stops_the_task() {
    let tm = TimeManager::new();
    let handle = tm.share();
    drop(tm);
    assert!(handle.stop_requested());
}

#[test]
fn clock_ticks_once_per_second() {
    let s = ClockState::start(100, 0);
    assert_eq!(s.after_tick(999), s);
    let t = s.after_tick(1000);
    assert_eq!((t.current, t.last_tick_ms), (101, 1000));
    assert_eq!(t.after_tick(1500).current, 101);
    assert_eq!(t.after_tick(2000).current, 102);
}

#[test]
fn sync_is_due_every_ten_minutes() {
    let s = ClockState::start(100, 0);
    assert!(!s.sync_due(599_999));
    assert!(s.sync_due(600_000));
}

#[test]
fn failed_sync_retries_after_a_minute() {
    let s = ClockState::start(100, 0);
    let failed = s.after_sync(600_000, None);
    assert_eq!(failed.current, 100);
    assert_eq!(failed.last_sync_ms, 60_000);
    assert!(!failed.sync_due(659_999));
    assert!(failed.sync_due(660_000));
}

#[test]
fn successful_sync_replaces_the_clock() {
    let s = ClockState::start(100, 0);
    let synced = s.after_sync(600_000, Some(90));
    assert_eq!((synced.current, synced.last_sync_ms), (90, 600_000));
}

#[test]
fn clock_never_goes_back_without_a_sync() {
    let mut s = ClockState::start(u64::MAX - 1, 0);
    for now in [1000u64, 2000, 3000] {
        let next = s.after_tick(now);
        assert!(next.current >= s.current);
        s = next;
    }
    assert_eq!(s.current, u64::MAX);
}

#[test]
fn only_the_first_start_is_granted() {
    let tm = TimeManager::new();
    assert!(tm.claim_start());
    assert!(!tm.claim_start());
}

#[test]
fn fetch_takes_the_first_usable_answer_in_order() {
    assert_eq!(fetch_step(0, Some(2_208_988_800 + 5)), FetchStep::Done(5));
    assert_eq!(fetch_step(0, None), FetchStep::Ask(1));
    assert_eq!(fetch_step(2, Some(7)), FetchStep::Ask(3));
    assert_eq!(fetch_step(4, None), FetchStep::GiveUp);
    assert_eq!(fetch_step(4, Some(2_208_988_800)), FetchStep::Done(0));
}
