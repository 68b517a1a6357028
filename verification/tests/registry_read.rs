use ingest::acquire::{acquire_protocol, AcquireOutcome};
use ingest::errors::ProcessError;
use ingest::reading::{
    read_after_reacquire, read_begin, read_on_event, Frame, ReadEvent, ReadProgress, ReadStep,
};
use ingest::registry::Registry;

fn url_a() -> String {
    "wss://a".to_string()
}

fn url_b() -> String {
    "wss://b".to_string()
}

fn connect(reg: &mut Registry, id: &String) {
    let outcomes = vec![true; 6];
    let (_, _, out) = acquire_protocol(reg, id, Vec::new(), &outcomes);
    assert!(matches!(out, AcquireOutcome::Connected));
}

#[test]
fn read_without_acquire_fails_with_connection_not_found() {
    let reg = Registry::new();
    let id = url_a();
    match read_begin(&reg, &id) {
        ReadStep::NotFound(ProcessError::ConnectionNotFound(u)) => assert_eq!(u, id),
        other => panic!("expected connection not found, got {:?}", other),
    }
}

#[test]
fn read_after_acquire_awaits_a_frame() {
    let mut reg = Registry::new();
    let id = url_a();
    connect(&mut reg, &id);
    assert!(matches!(read_begin(&reg, &id), ReadStep::AwaitFrame));
}

#[test]
fn disconnect_drops_entry_and_successful_reacquire_yields_no_message() {
    let mut reg = Registry::new();
    let id = url_a();
    connect(&mut reg, &id);

    // Mid-stream the transport closes: the entry is removed...
    let p = read_on_event(&mut reg, &id, ReadEvent::Disconnected);
    assert!(matches!(p, ReadProgress::Reacquire));
    assert!(!reg.contains(&id));

    // ...the internal reacquire succeeds, and the original read reports
    // "no message this call" — not an error, not a frame.
    connect(&mut reg, &id);
    let r = read_after_reacquire(AcquireOutcome::Connected);
    assert_eq!(r, Ok(None));

    // The following read delivers data again.
    let p2 = read_on_event(&mut reg, &id, ReadEvent::Data(Frame::Text("{}".to_string())));
    assert_eq!(p2, ReadProgress::Deliver(Frame::Text("{}".to_string())));
    assert!(reg.contains(&id));
}

#[test]
fn failed_reacquire_propagates_its_error() {
    let e = ProcessError::MaxRetriesReached(url_a());
    let r = read_after_reacquire(AcquireOutcome::Failed(e.clone()));
    assert_eq!(r, Err(e));
}

#[test]
fn data_frame_leaves_registry_untouched() {
    let mut reg = Registry::new();
    let id = url_a();
    connect(&mut reg, &id);
    let p = read_on_event(&mut reg, &id, ReadEvent::Data(Frame::Ping));
    assert_eq!(p, ReadProgress::Deliver(Frame::Ping));
    assert!(reg.contains(&id));
}

#[test]
fn registry_tracks_entries_per_feed() {
    let mut reg = Registry::new();
    let a = url_a();
    let b = url_b();
    assert!(!reg.contains(&a));
    connect(&mut reg, &a);
    assert!(reg.contains(&a));
    assert!(!reg.contains(&b));
    connect(&mut reg, &b);
    reg.remove(&a);
    assert!(!reg.contains(&a));
    assert!(reg.contains(&b));
    reg.remove(&a);
    assert!(reg.contains(&b));
}

#[test]
fn close_all_waits_the_same_grace_period_for_any_entry_count() {
    let mut empty = Registry::new();
    let (ids0, grace0) = empty.close_all();
    assert!(ids0.is_empty());
    assert_eq!(grace0, 10);

    let mut reg = Registry::new();
    let a = url_a();
    let b = url_b();
    connect(&mut reg, &a);
    connect(&mut reg, &b);
    let (ids, grace) = reg.close_all();
    assert_eq!(ids, vec![a.clone(), b.clone()]);
    assert_eq!(grace, grace0);
    assert!(!reg.contains(&a));
    assert!(!reg.contains(&b));
}
