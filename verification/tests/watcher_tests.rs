use server_booter::status::ServerStatus;
use server_booter::watcher::{watcher_tick, InactivityWatcher};

#[test]
fn idle_run_stops_exactly_once_on_the_last_tick() {
    let max = 5u32;
    let mut w = InactivityWatcher::new(max);
    let mut stops = 0u32;
    for tick in 1..=max {
        let stop = w.tick(ServerStatus::Online, 0);
        if stop {
            stops += 1;
            assert_eq!(tick, max, "the stop must come on the last tick of the run");
        }
    }
    assert_eq!(stops, 1);
    assert_eq!(w.counter, 0, "the counter is reset right after the stop");
}

#[test]
fn shortest_timeout_stops_on_the_first_idle_tick() {
    let mut w = InactivityWatcher::new(1);
    assert!(w.tick(ServerStatus::Online, 0));
    assert_eq!(w.counter, 0);
}

#[test]
fn non_online_tick_resets_the_counter() {
    for status in [
        ServerStatus::Offline,
        ServerStatus::StartingEC2,
        ServerStatus::StartingUp,
        ServerStatus::ShuttingDown,
        ServerStatus::Unknown,
    ] {
        let (counter, stop) = watcher_tick(4, status, 0, 10);
        assert_eq!(counter, 0);
        assert!(!stop);
    }
}

#[test]
fn players_present_reset_the_counter() {
    let (counter, stop) = watcher_tick(4, ServerStatus::Online, 3, 10);
    assert_eq!(counter, 0);
    assert!(!stop);
}

#[test]
fn a_failed_resolution_tick_behaves_like_not_online() {
    // A tick whose resolution failed is fed in as Unknown/0: it resets an
    // in-progress streak and never triggers a shutdown.
    let mut w = InactivityWatcher::new(3);
    assert!(!w.tick(ServerStatus::Online, 0));
    assert!(!w.tick(ServerStatus::Online, 0));
    assert_eq!(w.counter, 2);
    assert!(!w.tick(ServerStatus::Unknown, 0));
    assert_eq!(w.counter, 0);
}

#[test]
fn counter_saturates_at_the_maximum() {
    let (counter, stop) = watcher_tick(10, ServerStatus::Online, 0, 3);
    assert_eq!((counter, stop), (0, true));
    let (counter, stop) = watcher_tick(1, ServerStatus::Online, 0, 3);
    assert_eq!((counter, stop), (2, false));
}

#[test]
fn streak_interrupted_by_players_starts_over() {
    let mut w = InactivityWatcher::new(3);
    assert!(!w.tick(ServerStatus::Online, 0));
    assert!(!w.tick(ServerStatus::Online, 0));
    assert!(!w.tick(ServerStatus::Online, 2));
    assert!(!w.tick(ServerStatus::Online, 0));
    assert!(!w.tick(ServerStatus::Online, 0));
    assert!(w.tick(ServerStatus::Online, 0));
    assert_eq!(w.counter, 0);
}
