use ingest::acquire::{acquire_protocol, on_connect_success, AcquireOutcome, ControlMessage};
use ingest::classify::Route;
use ingest::config::{load_app_config, FeedDescriptor, FeedType};
use ingest::consumer::{consume_step, throttle_delay_ms, LoopStep};
use ingest::errors::ProcessError;
use ingest::reading::{read_after_reacquire, read_begin, read_on_event, Frame, ReadEvent,
    ReadProgress, ReadStep};
use ingest::registry::Registry;
use ingest::supervisor::{CycleEnd, Phase, PollAction, Supervisor};

fn the_feed() -> FeedDescriptor {
    FeedDescriptor {
        url: "wss://a".to_string(),
        feed_type: FeedType::Trades,
        symbols: vec!["AAPL".to_string()],
        max_reads_per_sec: 5,
    }
}

#[test]
fn feed_connects_after_two_failures_then_streams_at_cadence() {
    let cfg = load_app_config(vec![the_feed()]).expect("valid configuration");
    let feed = &cfg.feeds[0];
    let mut reg = Registry::new();

    // Connect fails twice (1 and 2 time-unit delays observed), then
    // succeeds.
    let outcomes = vec![false, false, true, true, true, true];
    let (delays, attempts, out) = acquire_protocol(&mut reg, &feed.url, feed.symbols.clone(), &outcomes);
    assert_eq!(delays, vec![1, 2]);
    assert_eq!(attempts, 3);
    assert!(matches!(out, AcquireOutcome::Connected));

    // Auth then Subscribe are planned in that order.
    let msgs = on_connect_success(&mut reg, &feed.url, feed.symbols.clone());
    assert_eq!(msgs[0], ControlMessage::Auth);
    assert!(matches!(&msgs[1], ControlMessage::Subscribe(_)));

    // The first read returns a single-object message, which is
    // dispatched to single-event processing.
    assert!(matches!(read_begin(&reg, &feed.url), ReadStep::AwaitFrame));
    let p = read_on_event(&mut reg, &feed.url, ReadEvent::Data(
        Frame::Text("{\"p\":187.2,\"s\":\"AAPL\"}".to_string()),
    ));
    let frame = match p {
        ReadProgress::Deliver(f) => f,
        other => panic!("expected a delivered frame, got {:?}", other),
    };
    assert_eq!(consume_step(Ok(Some(frame))), LoopStep::Dispatch(Route::Single));

    // The loop then sleeps 200 ms before the next read.
    assert_eq!(throttle_delay_ms(feed.max_reads_per_sec), 200);
}

#[test]
fn mid_stream_disconnect_reconnects_transparently_and_streaming_resumes() {
    let feed = the_feed();
    let mut reg = Registry::new();
    let ok = vec![true; 6];
    let (_, _, out) = acquire_protocol(&mut reg, &feed.url, feed.symbols.clone(), &ok);
    assert!(matches!(out, AcquireOutcome::Connected));

    // Mid-stream the transport closes; read reconnects transparently.
    let p = read_on_event(&mut reg, &feed.url, ReadEvent::Disconnected);
    assert_eq!(p, ReadProgress::Reacquire);
    let (_, _, re) = acquire_protocol(&mut reg, &feed.url, feed.symbols.clone(), &ok);
    assert!(matches!(re, AcquireOutcome::Connected));
    let r = read_after_reacquire(AcquireOutcome::Connected);

    // The consumption loop's very next call produces no dispatched
    // message...
    assert_eq!(consume_step(r), LoopStep::Continue);

    // ...and streaming resumes on the following call.
    let p2 = read_on_event(&mut reg, &feed.url, ReadEvent::Data(
        Frame::Text("[{\"a\":1},{\"b\":2}]".to_string()),
    ));
    let frame = match p2 {
        ReadProgress::Deliver(f) => f,
        other => panic!("expected a delivered frame, got {:?}", other),
    };
    assert_eq!(consume_step(Ok(Some(frame))), LoopStep::Dispatch(Route::Batch));
}

#[test]
fn only_feed_exhausts_retries_and_the_process_shuts_down() {
    let feed = the_feed();
    let mut reg = Registry::new();
    let mut sup = Supervisor::new();
    sup.on_spawned(1);

    // The feed's acquire exhausts its retries: its loop ends with an
    // error.
    let outcomes = vec![false; 6];
    let (_, _, out) = acquire_protocol(&mut reg, &feed.url, feed.symbols.clone(), &outcomes);
    let err = match out {
        AcquireOutcome::Failed(e) => e,
        other => panic!("expected exhausted retries, got {:?}", other),
    };
    assert!(matches!(err, ProcessError::MaxRetriesReached(_)));
    assert_eq!(consume_step(Err(err.clone())), LoopStep::Fail(err));

    // It was the only configured feed: the supervisor logs that all
    // feeds stopped and clears the running flag; the cleared flag ends
    // the outer cycle in shutdown, and the registry is drained with the
    // fixed grace period.
    assert_eq!(sup.on_poll(0), PollAction::AllStopped);
    assert!(!sup.keep_running);
    assert_eq!(sup.on_drained(), CycleEnd::Shutdown);
    assert_eq!(sup.phase, Phase::Stopped);
    let (ids, grace) = reg.close_all();
    assert!(ids.is_empty());
    assert_eq!(grace, 10);
}
