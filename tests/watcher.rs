use agger_node::types::{FetchError, NewQueryEvent, Query, VersionedQueryEvent};
use agger_node::watcher::{QueryWatcher, Request, Response, IDLE_POLL_SECS};

fn sample_query() -> Query {
    Query {
        module_address: vec![1; 32],
        module_name: b"coin".to_vec(),
        function_index: 0,
        ty_args: vec![],
        args: vec![b"u64:10".to_vec()],
    }
}

fn sample_event(version: u64, seq: u64, id: u64) -> VersionedQueryEvent {
    VersionedQueryEvent {
        version,
        sequence_number: seq,
        event: NewQueryEvent { id, user: [7; 32] },
    }
}

fn assert_event_request(r: Request, index: u64, delay: u64) {
    match r {
        Request::Event { index: i, limit, delay_secs } => {
            assert_eq!(i, index);
            assert_eq!(limit, 1);
            assert_eq!(delay_secs, delay);
        }
        other => panic!("unexpected request {:?}", other),
    }
}

#[test]
fn starts_at_cursor_zero() {
    let w = QueryWatcher::new();
    assert_eq!(w.cursor, 0);
    assert_event_request(w.pending_request(), 0, 0);
}

#[test]
fn empty_poll_keeps_cursor_and_waits() {
    let mut w = QueryWatcher::new();
    for _ in 0..3 {
        let step = w.handle(Response::Event(None));
        assert!(step.emitted.is_none());
        assert_eq!(w.cursor, 0);
        assert_event_request(step.next, 0, IDLE_POLL_SECS);
    }
    assert_eq!(IDLE_POLL_SECS, 30);
}

#[test]
fn event_resolves_to_one_query_then_advances() {
    let mut w = QueryWatcher::new();
    let step = w.handle(Response::Event(Some(sample_event(900, 0, 5))));
    assert!(step.emitted.is_none());
    match step.next {
        Request::QueriesResource { owner, version } => {
            assert_eq!(owner, [7; 32]);
            assert_eq!(version, 900);
        }
        other => panic!("unexpected request {:?}", other),
    }
    let step = w.handle(Response::QueriesResource([9; 32]));
    assert!(step.emitted.is_none());
    match step.next {
        Request::QueryItem { table, id, version } => {
            assert_eq!(table, [9; 32]);
            assert_eq!(id, 5);
            assert_eq!(version, 900);
        }
        other => panic!("unexpected request {:?}", other),
    }
    assert_eq!(w.cursor, 0);
    let step = w.handle(Response::QueryItem(sample_query()));
    let uq = match step.emitted {
        Some(Ok(uq)) => uq,
        other => panic!("unexpected emission {:?}", other),
    };
    assert_eq!(uq.version, 900);
    assert_eq!(uq.sequence_number, 0);
    assert_eq!(uq.id, 5);
    assert_eq!(uq.user, [7; 32]);
    assert_eq!(uq.query.args, vec![b"u64:10".to_vec()]);
    assert_eq!(w.cursor, 1);
    assert_event_request(step.next, 1, 0);
}

#[test]
fn failure_is_yielded_and_cursor_kept() {
    let mut w = QueryWatcher::new();
    w.handle(Response::Event(Some(sample_event(10, 0, 1))));
    let step = w.handle(Response::Failed(FetchError::Transport("down".to_string())));
    assert!(matches!(step.emitted, Some(Err(FetchError::Transport(_)))));
    assert_eq!(w.cursor, 0);
    assert_event_request(step.next, 0, 0);
}

#[test]
fn unexpected_response_restarts_same_cursor() {
    let mut w = QueryWatcher::new();
    let step = w.handle(Response::QueryItem(sample_query()));
    assert!(matches!(step.emitted, Some(Err(FetchError::UnexpectedResponse))));
    assert_eq!(w.cursor, 0);
    assert_event_request(step.next, 0, 0);
}

#[test]
fn run_yields_consecutive_indices() {
    let mut w = QueryWatcher::new();
    let mut served = Vec::new();
    let mut version = 100;
    for round in 0..4u64 {
        if round == 2 {
            w.handle(Response::Event(None));
            w.handle(Response::Failed(FetchError::Malformed("bad".to_string())));
        }
        let before = w.cursor;
        w.handle(Response::Event(Some(sample_event(version, round, round))));
        w.handle(Response::QueriesResource([3; 32]));
        let step = w.handle(Response::QueryItem(sample_query()));
        if let Some(Ok(uq)) = step.emitted {
            assert_eq!(uq.version, version);
            served.push(before);
        }
        version += 10;
    }
    assert_eq!(served, vec![0, 1, 2, 3]);
    assert_eq!(w.cursor, 4);
}
