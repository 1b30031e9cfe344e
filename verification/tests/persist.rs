//! The event buffer, provisionals and the in-memory log.
use payjoin_session::persist::{ApiError, EventBuffer, InMemoryPersister, PersistAction, Provisional};
use payjoin_session::session::IntoUrlError;
use payjoin_session::text::Message;

#[test]
fn event_buffer_push_increments_committed_only_after_commit() {
    let mut buf: EventBuffer<&'static str> = EventBuffer::new();
    assert_eq!(buf.committed_count(), 0);
    assert!(buf.is_empty());

    let seq = buf.push("a");
    assert_eq!(seq, 1);
    assert_eq!(buf.len(), 1);
    assert_eq!(buf.committed_count(), 0, "push alone does not commit");

    buf.commit(1);
    assert_eq!(buf.committed_count(), 1);
    assert!(buf.is_empty());
}

#[test]
fn event_buffer_peek_is_non_destructive() {
    let mut buf: EventBuffer<&'static str> = EventBuffer::new();
    buf.push("a");
    buf.push("b");

    let first: Vec<&&'static str> = buf.peek().collect();
    let second: Vec<&&'static str> = buf.peek().collect();
    assert_eq!(first, second);
    assert_eq!(first.len(), 2);
    assert_eq!(buf.len(), 2, "peek does not mutate");
}

#[test]
fn event_buffer_commit_past_end_is_noop() {
    let mut buf: EventBuffer<&'static str> = EventBuffer::new();
    buf.push("a");
    buf.push("b");

    buf.commit(100);
    assert!(buf.is_empty());
    assert_eq!(buf.committed_count(), 2);

    // Committing again on an empty buffer is also a no-op, not a panic.
    buf.commit(5);
    assert!(buf.is_empty());
    assert_eq!(buf.committed_count(), 2);
}

#[test]
fn provisional_confirm_before_and_after_commit() {
    let mut buf: EventBuffer<&'static str> = EventBuffer::new();
    let seq = buf.push("create");
    let provisional = Provisional::new(42_u32, seq);

    // Before commit: returns self.
    let provisional = match provisional.confirm(&buf) {
        Ok(_) => panic!("confirmed before commit"),
        Err(p) => p,
    };

    buf.commit(1);

    // After commit: returns inner.
    let inner = provisional.confirm(&buf).unwrap_or_else(|_| panic!("not confirmed after commit"));
    assert_eq!(inner, 42);
}

#[test]
fn provisional_retry_loop_pattern() {
    let mut buf: EventBuffer<&'static str> = EventBuffer::new();
    let seq = buf.push("create");
    let mut p = Provisional::new(42_u32, seq);

    // Loop until confirm succeeds, persisting one event per iteration.
    let inner = loop {
        match p.confirm(&buf) {
            Ok(v) => break v,
            Err(returned) => {
                p = returned;
                buf.commit(1);
            }
        }
    };
    assert_eq!(inner, 42);
}

#[test]
fn after_replay_sets_committed_count() {
    let buf: EventBuffer<&'static str> = EventBuffer::after_replay(5);
    assert_eq!(buf.committed_count(), 5);
    assert_eq!(buf.len(), 0);
    assert!(buf.is_empty());
}

#[test]
fn after_replay_then_push_continues_sequence() {
    let mut buf: EventBuffer<&'static str> = EventBuffer::after_replay(3);
    let seq = buf.push("next");
    assert_eq!(seq, 4, "seq numbers continue from replayed count");
    assert_eq!(buf.committed_count(), 3);

    buf.commit(1);
    assert_eq!(buf.committed_count(), 4);
}

#[test]
fn provisional_peek_inner_does_not_consume() {
    let mut buf: EventBuffer<&'static str> = EventBuffer::new();
    let seq = buf.push("create");
    let p = Provisional::new("hidden".to_string(), seq);

    assert_eq!(p.peek_inner(), "hidden");
    assert_eq!(p.peek_inner(), "hidden");
}

/// An arbitrary drain loop works on the same buffer value: the buffer has no
/// storage of its own, callers own the drain.
#[test]
fn caller_owned_drain_loops_share_one_buffer_shape() {
    // Drain into a Vec: peek the front event, write it, commit one.
    let mut buf: EventBuffer<String> = EventBuffer::new();
    buf.push("a".to_string());
    let seq = buf.push("b".to_string());
    let provisional = Provisional::new("uri".to_string(), seq);

    let mut storage: Vec<String> = Vec::new();
    loop {
        let Some(event) = buf.peek().next().cloned() else { break };
        storage.push(event);
        buf.commit(1);
    }
    assert_eq!(storage, vec!["a".to_string(), "b".to_string()]);
    assert!(buf.is_empty());
    assert_eq!(buf.committed_count(), 2);
    let uri = provisional.confirm(&buf).unwrap_or_else(|_| panic!("confirmed"));
    assert_eq!(uri, "uri");

    // Drain into shared storage: identical shape, same buffer type.
    let mut buf: EventBuffer<String> = EventBuffer::new();
    let seq = buf.push("only".to_string());
    let provisional = Provisional::new(7_u32, seq);

    let storage = std::sync::Arc::new(std::sync::Mutex::new(Vec::<String>::new()));
    loop {
        let Some(event) = buf.peek().next().cloned() else { break };
        storage.lock().expect("not poisoned").push(event);
        buf.commit(1);
    }
    assert_eq!(storage.lock().expect("not poisoned").as_slice(), ["only"]);
    let inner = provisional.confirm(&buf).unwrap_or_else(|_| panic!("confirmed"));
    assert_eq!(inner, 7);
}

#[test]
fn drain_moves_the_queue_to_the_log_in_order() {
    let mut log: InMemoryPersister<u32> = InMemoryPersister::default();
    let mut buf: EventBuffer<u32> = EventBuffer::default();
    log.save_event(1).expect("infallible");
    buf.push(2);
    buf.push(3);
    log.drain(&mut buf).expect("infallible");
    assert_eq!(log.load().expect("infallible"), vec![1, 2, 3]);
    assert!(buf.is_empty());
    assert_eq!(buf.committed_count(), 2);
    log.drain(&mut buf).expect("infallible");
    assert_eq!(log.load().expect("infallible").len(), 3);
}

#[test]
fn partial_commits_compose() {
    let mut a: EventBuffer<u8> = EventBuffer::new();
    let mut b: EventBuffer<u8> = EventBuffer::new();
    for e in 0..5u8 {
        a.push(e);
        b.push(e);
    }
    a.commit(1);
    a.commit(2);
    b.commit(3);
    assert_eq!(a.peek().collect::<Vec<_>>(), b.peek().collect::<Vec<_>>());
    assert_eq!(a.committed_count(), b.committed_count());
}

#[test]
fn a_later_event_is_not_confirmed_by_an_earlier_commit() {
    let mut buf: EventBuffer<u8> = EventBuffer::new();
    buf.push(1);
    let p = Provisional::stage("inner", 2, &mut buf);
    buf.commit(1);
    let p = match p.confirm(&buf) {
        Ok(_) => panic!("its own event is still queued"),
        Err(p) => p,
    };
    buf.commit(1);
    assert_eq!(p.confirm(&buf).ok(), Some("inner"));
}

#[test]
fn record_queues_the_event_of_an_action() {
    let mut buf: EventBuffer<u8> = EventBuffer::new();
    buf.record(PersistAction::NoOp);
    assert!(buf.is_empty());
    buf.record(PersistAction::Save(1));
    buf.record(PersistAction::SaveAndClose(2));
    assert_eq!(buf.peek().copied().collect::<Vec<u8>>(), vec![1, 2]);
}

#[test]
fn api_errors_tell_whether_to_retry() {
    let e = || IntoUrlError { msg: "bad".to_string() };
    assert_eq!(ApiError::<_, ()>::Transient(e()).message(), "Transient error: bad");
    assert_eq!(ApiError::<_, ()>::Fatal(e()).message(), "Fatal error: bad");
    assert_eq!(ApiError::FatalWithState(e(), 7u8).message(), "Fatal error: bad");
}
