use ingest::config::{find_feed, load_app_config, AppConfig, FeedDescriptor, FeedType};
use ingest::errors::ProcessError;
use ingest::supervisor::{CycleEnd, Phase, PollAction, Supervisor};

fn feed(url: &str, rate: u64) -> FeedDescriptor {
    FeedDescriptor {
        url: url.to_string(),
        feed_type: FeedType::Trades,
        symbols: vec!["AAPL".to_string()],
        max_reads_per_sec: rate,
    }
}

#[test]
fn config_with_positive_rates_loads() {
    let feeds = vec![feed("wss://a", 5), feed("wss://b", 1)];
    let cfg = load_app_config(feeds.clone()).expect("valid configuration");
    assert_eq!(cfg.feeds, feeds);
}

#[test]
fn config_with_zero_rate_is_rejected() {
    let feeds = vec![feed("wss://a", 5), feed("wss://b", 0)];
    match load_app_config(feeds) {
        Err(ProcessError::ConfigError(_)) => {},
        other => panic!("expected a configuration error, got {:?}", other),
    }
}

#[test]
fn find_feed_returns_first_match() {
    let cfg = AppConfig { feeds: vec![feed("wss://a", 5), feed("wss://b", 7), feed("wss://b", 9)] };
    let url = "wss://b".to_string();
    let f = find_feed(&cfg, &url).expect("feed present");
    assert_eq!(f.max_reads_per_sec, 7);
    let missing = "wss://c".to_string();
    assert!(find_feed(&cfg, &missing).is_none());
}

#[test]
fn supervisor_polls_and_sleeps_while_feeds_live() {
    let mut s = Supervisor::new();
    assert_eq!(s.phase, Phase::Starting);
    s.on_spawned(3);
    assert_eq!(s.phase, Phase::Running);
    assert_eq!(s.on_poll(3), PollAction::Sleep(5));
    assert_eq!(s.on_poll(2), PollAction::Sleep(5));
    assert_eq!(s.live, 2);
}

#[test]
fn all_feeds_stopped_clears_flag_and_cycle_shuts_down() {
    let mut s = Supervisor::new();
    s.on_spawned(1);
    // The only feed's loop has ended: the supervisor logs that all feeds
    // stopped and clears the running flag...
    assert_eq!(s.on_poll(0), PollAction::AllStopped);
    assert!(!s.keep_running);
    assert_eq!(s.phase, Phase::Draining);
    // ...and with the flag cleared the cycle ends in shutdown.
    assert_eq!(s.on_drained(), CycleEnd::Shutdown);
    assert_eq!(s.phase, Phase::Stopped);
}

#[test]
fn termination_signal_drains_and_shuts_down() {
    let mut s = Supervisor::new();
    s.on_spawned(2);
    s.on_signal();
    assert_eq!(s.on_poll(2), PollAction::Drain);
    assert_eq!(s.phase, Phase::Draining);
    assert_eq!(s.on_drained(), CycleEnd::Shutdown);
    assert_eq!(s.phase, Phase::Stopped);
}

#[test]
fn cycle_restarts_from_starting_while_flag_holds() {
    let mut s = Supervisor::new();
    s.on_spawned(2);
    s.on_signal();
    assert_eq!(s.on_poll(1), PollAction::Drain);
    // Force the flag back on to exercise the restart decision in
    // isolation: draining with the flag held re-enters Starting.
    s.keep_running = true;
    assert_eq!(s.on_drained(), CycleEnd::Restart);
    assert_eq!(s.phase, Phase::Starting);
    assert_eq!(s.live, 0);
}
