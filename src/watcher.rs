use vstd::prelude::*;

use crate::types::{AccountAddress, FetchError, Query, UserQuery, VersionedQueryEvent};

verus! {

/// Seconds to wait before polling again after finding no event.
pub const IDLE_POLL_SECS: u64 = 30;

/// What the watcher waits for.
#[derive(Copy, Clone, Debug)]
pub enum Phase {
    /// The event at the cursor.
    AwaitEvent,
    /// The user's table of queries, read at the event's version.
    AwaitQueries { event: VersionedQueryEvent },
    /// The query itself, read from that table at the event's version.
    AwaitQuery { event: VersionedQueryEvent, table: AccountAddress },
}

/// The next remote read that the driver is to perform.
#[derive(Copy, Clone, Debug)]
pub enum Request {
    /// Fetch up to `limit` query events starting at `index`, after waiting `delay_secs`.
    Event { index: u64, limit: u64, delay_secs: u64 },
    /// Fetch the queries resource of `owner` at `version`; answered by the table's handle.
    QueriesResource { owner: AccountAddress, version: u64 },
    /// Fetch the query keyed by `id` in `table` at `version`.
    QueryItem { table: AccountAddress, id: u64, version: u64 },
}

/// The outcome of the last request.
#[derive(Clone, Debug)]
pub enum Response {
    Event(Option<VersionedQueryEvent>),
    QueriesResource(AccountAddress),
    QueryItem(Query),
    Failed(FetchError),
}

/// The result of handing one response to the watcher.
#[derive(Clone, Debug)]
pub struct Step {
    /// What the stream yields now, if anything.
    pub emitted: Option<Result<UserQuery, FetchError>>,
    /// The read to perform next.
    pub next: Request,
}

/// The decisions of the query-event watch: which event to fetch, how to
/// resolve it, and when to move on to the next one.
#[derive(Copy, Clone, Debug)]
pub struct QueryWatcher {
    /// Index of the next event to be turned into a query.
    pub cursor: u64,
    pub phase: Phase,
}

impl QueryWatcher {
    /// The read that answers the current phase.
    pub open spec fn request_spec(self, delay_secs: u64) -> Request {
        match self.phase {
            Phase::AwaitEvent => Request::Event { index: self.cursor, limit: 1, delay_secs },
            Phase::AwaitQueries { event } => Request::QueriesResource {
                owner: event.event.user,
                version: event.version,
            },
            Phase::AwaitQuery { event, table } => Request::QueryItem {
                table,
                id: event.event.id,
                version: event.version,
            },
        }
    }

    /// The state after `resp`, what is yielded, and the wait before the next read.
    pub open spec fn step_spec(self, resp: Response) -> (QueryWatcher, Option<Result<UserQuery, FetchError>>, u64) {
        let restart = QueryWatcher { cursor: self.cursor, phase: Phase::AwaitEvent };
        match resp {
            Response::Failed(e) => (restart, Some(Err(e)), 0),
            Response::Event(None) => match self.phase {
                Phase::AwaitEvent => (self, None, IDLE_POLL_SECS),
                _ => (restart, Some(Err(FetchError::UnexpectedResponse)), 0),
            },
            Response::Event(Some(event)) => match self.phase {
                Phase::AwaitEvent => (
                    QueryWatcher { cursor: self.cursor, phase: Phase::AwaitQueries { event } },
                    None,
                    0,
                ),
                _ => (restart, Some(Err(FetchError::UnexpectedResponse)), 0),
            },
            Response::QueriesResource(table) => match self.phase {
                Phase::AwaitQueries { event } => (
                    QueryWatcher { cursor: self.cursor, phase: Phase::AwaitQuery { event, table } },
                    None,
                    0,
                ),
                _ => (restart, Some(Err(FetchError::UnexpectedResponse)), 0),
            },
            Response::QueryItem(query) => match self.phase {
                Phase::AwaitQuery { event, table } => (
                    QueryWatcher { cursor: (self.cursor + 1) as u64, phase: Phase::AwaitEvent },
                    Some(Ok(UserQuery {
                        version: event.version,
                        sequence_number: event.sequence_number,
                        id: event.event.id,
                        user: event.event.user,
                        query,
                    })),
                    0,
                ),
                _ => (restart, Some(Err(FetchError::UnexpectedResponse)), 0),
            },
        }
    }

    /// A watcher at the first event, waiting for it.
    pub fn new() -> (r: QueryWatcher)
        ensures
            r.cursor == 0,
            r.phase is AwaitEvent,
    {
        QueryWatcher { cursor: 0, phase: Phase::AwaitEvent }
    }

    /// The read to perform first, with no wait before it.
    pub fn pending_request(&self) -> (r: Request)
        ensures
            r == self.request_spec(0),
    {
        self.request_with_delay(0)
    }

    fn request_with_delay(&self, delay_secs: u64) -> (r: Request)
        ensures
            r == self.request_spec(delay_secs),
    {
        match self.phase {
            Phase::AwaitEvent => Request::Event { index: self.cursor, limit: 1, delay_secs },
            Phase::AwaitQueries { event } => Request::QueriesResource {
                owner: event.event.user,
                version: event.version,
            },
            Phase::AwaitQuery { event, table } => Request::QueryItem {
                table,
                id: event.event.id,
                version: event.version,
            },
        }
    }

    /// Takes the response to the last request: yields a query once it is
    /// resolved, yields a failure and starts over at the same cursor on any
    /// error, and waits before polling the same cursor again when no event is
    /// there.
    pub fn handle(&mut self, resp: Response) -> (r: Step)
        requires
            old(self).cursor < u64::MAX,
        ensures
            ({
                let (w, e, d) = old(self).step_spec(resp);
                &&& *final(self) == w
                &&& r.emitted == e
                &&& r.next == w.request_spec(d)
            }),
    {
        let cursor = self.cursor;
        let phase = self.phase;
        let restart = QueryWatcher { cursor, phase: Phase::AwaitEvent };
        let (w, emitted, delay): (QueryWatcher, Option<Result<UserQuery, FetchError>>, u64) = match resp {
            Response::Failed(e) => (restart, Some(Err(e)), 0),
            Response::Event(None) => match phase {
                Phase::AwaitEvent => (*self, None, IDLE_POLL_SECS),
                _ => (restart, Some(Err(FetchError::UnexpectedResponse)), 0),
            },
            Response::Event(Some(event)) => match phase {
                Phase::AwaitEvent => (
                    QueryWatcher { cursor, phase: Phase::AwaitQueries { event } },
                    None,
                    0,
                ),
                _ => (restart, Some(Err(FetchError::UnexpectedResponse)), 0),
            },
            Response::QueriesResource(table) => match phase {
                Phase::AwaitQueries { event } => (
                    QueryWatcher { cursor, phase: Phase::AwaitQuery { event, table } },
                    None,
                    0,
                ),
                _ => (restart, Some(Err(FetchError::UnexpectedResponse)), 0),
            },
            Response::QueryItem(query) => match phase {
                Phase::AwaitQuery { event, table } => (
                    QueryWatcher { cursor: cursor + 1, phase: Phase::AwaitEvent },
                    Some(Ok(UserQuery {
                        version: event.version,
                        sequence_number: event.sequence_number,
                        id: event.event.id,
                        user: event.event.user,
                        query,
                    })),
                    0,
                ),
                _ => (restart, Some(Err(FetchError::UnexpectedResponse)), 0),
            },
        };
        *self = w;
        Step { emitted, next: w.request_with_delay(delay) }
    }
}

/// The watcher after a whole sequence of responses.
pub open spec fn run(w: QueryWatcher, rs: Seq<Response>) -> QueryWatcher
    decreases rs.len(),
{
    if rs.len() == 0 {
        w
    } else {
        run(w.step_spec(rs[0]).0, rs.drop_first())
    }
}

/// The cursor values at which a query was yielded, in the order yielded,
/// over a whole sequence of responses.
pub open spec fn served(w: QueryWatcher, rs: Seq<Response>) -> Seq<u64>
    decreases rs.len(),
{
    if rs.len() == 0 {
        Seq::empty()
    } else {
        let (next, emitted, _) = w.step_spec(rs[0]);
        let here = match emitted {
            Some(Ok(_)) => seq![w.cursor],
            _ => Seq::empty(),
        };
        here + served(next, rs.drop_first())
    }
}

/// Polling finds no event: nothing is yielded, the cursor stays, and the same
/// index is asked for again after the idle wait.
pub proof fn lemma_empty_poll_retries_same_cursor(w: QueryWatcher)
    requires
        w.phase is AwaitEvent,
    ensures
        ({
            let (next, emitted, delay) = w.step_spec(Response::Event(None));
            &&& next == w
            &&& emitted is None
            &&& next.request_spec(delay) == (Request::Event {
                index: w.cursor,
                limit: 1,
                delay_secs: IDLE_POLL_SECS,
            })
        }),
{
}

/// One step moves the cursor by one exactly when it yields a query, and
/// leaves it in place otherwise.
pub proof fn lemma_cursor_moves_only_on_query(w: QueryWatcher, resp: Response)
    requires
        w.cursor < u64::MAX,
    ensures
        ({
            let (next, emitted, _) = w.step_spec(resp);
            &&& (emitted matches Some(Ok(_))) ==> next.cursor == w.cursor + 1
            &&& !(emitted matches Some(Ok(_))) ==> next.cursor == w.cursor
        }),
{
}

/// Over any sequence of responses, the queries yielded are for the cursor
/// values `c, c + 1, ..., c' - 1` in that order, where `c` is the cursor at
/// the start and `c'` at the end: none is skipped and none is yielded twice.
pub proof fn lemma_served_without_gaps(w: QueryWatcher, rs: Seq<Response>)
    requires
        w.cursor + rs.len() < u64::MAX,
    ensures
        w.cursor <= run(w, rs).cursor,
        served(w, rs) =~= Seq::new(
            (run(w, rs).cursor - w.cursor) as nat,
            |i: int| (w.cursor + i) as u64,
        ),
    decreases rs.len(),
{
    if rs.len() > 0 {
        let (next, emitted, _) = w.step_spec(rs[0]);
        lemma_cursor_moves_only_on_query(w, rs[0]);
        lemma_served_without_gaps(next, rs.drop_first());
    }
}

/// The reads that resolve an event are pinned to its version: the resource
/// read and the table read that a step answers carry the version of the event
/// being resolved, the event carries over unchanged from one read to the
/// next, and a yielded query has that version, id and user.
pub proof fn lemma_reads_pinned_to_event_version(w: QueryWatcher, resp: Response, delay: u64)
    ensures
        ({
            let (next, emitted, _) = w.step_spec(resp);
            &&& (next.phase matches Phase::AwaitQueries { event } ==> {
                &&& w.phase is AwaitEvent
                &&& resp == Response::Event(Some(event))
                &&& next.request_spec(delay) == (Request::QueriesResource {
                    owner: event.event.user,
                    version: event.version,
                })
            })
            &&& (next.phase matches Phase::AwaitQuery { event, table } ==> {
                &&& w.phase == (Phase::AwaitQueries { event })
                &&& w.request_spec(delay) == (Request::QueriesResource {
                    owner: event.event.user,
                    version: event.version,
                })
                &&& next.request_spec(delay) == (Request::QueryItem {
                    table,
                    id: event.event.id,
                    version: event.version,
                })
            })
            &&& (emitted matches Some(Ok(uq)) ==> {
                &&& w.phase is AwaitQuery
                &&& w.request_spec(delay) == (Request::QueryItem {
                    table: w.phase->AwaitQuery_table,
                    id: uq.id,
                    version: uq.version,
                })
                &&& uq.version == w.phase->AwaitQuery_event.version
                &&& uq.id == w.phase->AwaitQuery_event.event.id
                &&& uq.user == w.phase->AwaitQuery_event.event.user
                &&& uq.sequence_number == w.phase->AwaitQuery_event.sequence_number
            })
        }),
{
}

} // verus!
