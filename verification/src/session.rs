//! The session actor: the single owner of the live connection handle,
//! modelled as a state machine over plain values.
//!
//! The actor consumes commands strictly in send order and performs each to
//! completion before the next. All wire work — connecting, closing,
//! executing, pinging, sleeping — happens outside the library; its report
//! arrives here as a [`DriverEvent`], and these functions decide every
//! state transition, every epoch change, and exactly what is posted to the
//! host's callback queue, in order.

use vstd::prelude::*;
use crate::error::{
    clone_opt_string, not_open_error, should_reconnect, spec_error_fields, spec_not_open_error,
    spec_transient, to_error_fields, DbError, DbErrorView, ErrorShape,
};
use crate::executor::{execute_query, spec_execute, success_matches, DriverSuccess};
use crate::query::{Query, QueryType, QueryView};
use crate::result::{row_view, rows_view, ColumnValue, QueryResult, QueryResultView};
use crate::state::State;

verus! {

/// Bound on connection attempts for one explicit connect.
pub const CONNECT_ATTEMPTS: usize = 3;

/// Bound, in seconds, on one connection attempt.
pub const CONNECT_TIMEOUT_SECS: u64 = 5;

/// Fixed pause, in seconds, between connection attempts.
pub const CONNECT_RETRY_DELAY_SECS: u64 = 2;

/// Bound on background reconnection rounds after a confirmed drop.
pub const RECONNECT_ROUNDS: usize = 7;

/// The pause before the first reconnection round; it grows by one second
/// each round.
pub const RECONNECT_BASE_DELAY_SECS: u64 = 2;

/// The actor's model of one session: the externally readable lifecycle
/// state, the connection epoch, and whether a live handle is installed.
#[derive(Clone, Copy, Debug, PartialEq, Eq, Structural)]
pub struct Session {
    pub state: State,
    pub epoch: u64,
    pub has_handle: bool,
}

impl Session {
    /// The state is never `Connected` while no handle exists.
    pub open spec fn wf(self) -> bool {
        self.state == State::Connected ==> self.has_handle
    }

    /// A fresh session: not connected, epoch zero, no handle.
    pub fn new() -> (s: Session)
        ensures
            s.state == State::NotConnected,
            s.epoch == 0,
            !s.has_handle,
            s.wf(),
    {
        Session { state: State::NotConnected, epoch: 0, has_handle: false }
    }

    /// The connection epoch, readable by anyone at any time. External
    /// transaction tracking compares it (together with the state) against
    /// the value it saw when the transaction began: a change means the
    /// transaction's connection is gone.
    pub fn id(&self) -> (r: u64)
        ensures
            r == self.epoch,
    {
        self.epoch
    }

    /// The lifecycle state, readable by anyone at any time.
    pub fn state(&self) -> (r: State)
        ensures
            r == self.state,
    {
        self.state
    }

    /// The one-line description the host shows for a session, given the
    /// host and port it was configured with.
    pub fn describe(&self, host: &str, port: u16) -> (r: String)
        ensures
            r@ == "Goobie MySQL Connection [ID: "@ + crate::text::spec_dec(self.epoch as nat)
                + " | IP: "@ + host@ + " | Port: "@ + crate::text::spec_dec(port as nat)
                + " | State: "@ + self.state.spec_name() + "]"@,
    {
        let mut out = "Goobie MySQL Connection [ID: ".to_owned();
        let id = crate::text::u64_to_dec(self.epoch);
        out.append(id.as_str());
        out.append(" | IP: ");
        out.append(host);
        out.append(" | Port: ");
        let port_dec = crate::text::u64_to_dec(port as u64);
        out.append(port_dec.as_str());
        out.append(" | State: ");
        let name = self.state.name();
        out.append(name.as_str());
        out.append("]");
        proof {
            assert(out@ =~= "Goobie MySQL Connection [ID: "@ + crate::text::spec_dec(
                self.epoch as nat,
            ) + " | IP: "@ + host@ + " | Port: "@ + crate::text::spec_dec(port as nat)
                + " | State: "@ + self.state.spec_name() + "]"@);
        }
        out
    }
}

/// Opens a session: validates the host's configuration once and sets up
/// the fresh state — not connected, epoch zero, no handle. It fails
/// exactly when the configuration's URI does not parse or no non-empty
/// database name is resolved; the returned configuration carries every
/// resolved setting, exactly as [`crate::options::parse`] fixes them.
pub fn open(input: &crate::options::OptionsInput) -> (r: Result<
    (Session, crate::options::ConnectionOptions),
    String,
>)
    ensures
        match r {
            Ok((s, o)) => {
                &&& crate::options::spec_uri_ok(*input)
                &&& crate::options::spec_has_database(*input)
                &&& s.state == State::NotConnected
                &&& s.epoch == 0
                &&& !s.has_handle
                &&& crate::error::opt_view(o.uri) == crate::error::opt_view(input.uri)
                &&& crate::error::opt_view(o.host) == crate::options::spec_pick(
                    crate::error::opt_view(input.host),
                    crate::error::opt_view(input.hostname),
                )
                &&& crate::error::opt_view(o.user) == crate::options::spec_pick(
                    crate::error::opt_view(input.user),
                    crate::error::opt_view(input.username),
                )
                &&& crate::error::opt_view(o.database) == crate::options::spec_database_of(*input)
                &&& crate::error::opt_view(o.password) == crate::options::spec_pick(
                    crate::error::opt_view(input.password),
                    crate::error::opt_view(input.pass),
                )
                &&& crate::error::opt_view(o.charset) == crate::error::opt_view(input.charset)
                &&& crate::error::opt_view(o.collation) == crate::error::opt_view(input.collation)
                &&& crate::error::opt_view(o.timezone) == crate::error::opt_view(input.timezone)
                &&& crate::error::opt_view(o.socket) == crate::error::opt_view(input.socket)
                &&& o.port == input.port
                &&& o.statement_cache_capacity == input.statement_cache_capacity
            },
            Err(m) => {
                &&& !(crate::options::spec_uri_ok(*input) && crate::options::spec_has_database(
                    *input,
                ))
                &&& (crate::options::spec_uri_ok(*input) ==> m@ == "Database name is required!"@)
            },
        },
{
    match crate::options::parse(input) {
        Ok(o) => Ok((Session::new(), o)),
        Err(m) => Err(m),
    }
}

/// What one completed query hands the result callback.
#[derive(Debug, PartialEq, Eq)]
pub enum QueryReply {
    /// Plain success with nothing to report (a run, or a fetch of one that
    /// matched no row).
    NoData,
    /// Execution metadata.
    Execute { rows_affected: u64, last_insert_id: u64 },
    /// Every matching row, in server order.
    Rows(Vec<Vec<ColumnValue>>),
    /// The one matching row.
    Row(Vec<ColumnValue>),
    /// The structured failure.
    Failure(DbError),
}

/// The mathematical value of a [`QueryReply`].
pub enum QueryReplyView {
    NoData,
    Execute { rows_affected: u64, last_insert_id: u64 },
    Rows(Seq<Seq<crate::result::ColumnValueView>>),
    Row(Seq<crate::result::ColumnValueView>),
    Failure(DbErrorView),
}

impl View for QueryReply {
    type V = QueryReplyView;

    open spec fn view(&self) -> QueryReplyView {
        match self {
            QueryReply::NoData => QueryReplyView::NoData,
            QueryReply::Execute { rows_affected, last_insert_id } => QueryReplyView::Execute {
                rows_affected: *rows_affected,
                last_insert_id: *last_insert_id,
            },
            QueryReply::Rows(rows) => QueryReplyView::Rows(rows_view(rows@)),
            QueryReply::Row(vals) => QueryReplyView::Row(row_view(vals@)),
            QueryReply::Failure(e) => QueryReplyView::Failure(e@),
        }
    }
}

/// One closure posted to the host's callback queue, as the model sees it:
/// which callback it is for and what it carries. Closures from one session
/// run later, on the host's thread, in exactly this order.
#[derive(Debug, PartialEq, Eq)]
pub enum Delivery {
    /// The connect callback: the failure, or nothing on success.
    Connect(Option<DbError>),
    /// The disconnect callback: disconnection always succeeds, but a close
    /// failure is still reported.
    Disconnect(Option<DbError>),
    /// The ping callback: round-trip latency in microseconds, or the
    /// failure.
    Ping(Result<u64, DbError>),
    /// The query's result callback.
    QueryReply(QueryReply),
    /// The query's error observer, with the opaque trace token.
    QueryError { error: DbError, trace: Option<String> },
}

/// The mathematical value of a [`Delivery`].
pub enum DeliveryView {
    Connect(Option<DbErrorView>),
    Disconnect(Option<DbErrorView>),
    Ping(Result<u64, DbErrorView>),
    QueryReply(QueryReplyView),
    QueryError { error: DbErrorView, trace: Option<Seq<char>> },
}

/// The view of an optional failure.
pub open spec fn opt_err_view(o: Option<DbError>) -> Option<DbErrorView> {
    match o {
        Some(e) => Some(e@),
        None => None,
    }
}

impl View for Delivery {
    type V = DeliveryView;

    open spec fn view(&self) -> DeliveryView {
        match self {
            Delivery::Connect(o) => DeliveryView::Connect(opt_err_view(*o)),
            Delivery::Disconnect(o) => DeliveryView::Disconnect(opt_err_view(*o)),
            Delivery::Ping(r) => DeliveryView::Ping(
                match r {
                    Ok(l) => Ok(*l),
                    Err(e) => Err(e@),
                },
            ),
            Delivery::QueryReply(q) => DeliveryView::QueryReply(q@),
            Delivery::QueryError { error, trace } => DeliveryView::QueryError {
                error: error@,
                trace: crate::error::opt_view(*trace),
            },
        }
    }
}

/// The view of a delivery list.
pub open spec fn deliveries_view(ds: Seq<Delivery>) -> Seq<DeliveryView> {
    ds.map_values(|d: Delivery| d@)
}

/// Begins one connect, as the actor publishes it: the stale handle, if
/// any, is given up (its graceful close is best-effort wire work) and the
/// state becomes `Connecting` while the attempts run. The epoch does not
/// move until an attempt succeeds.
pub fn begin_connect(s: &mut Session)
    requires
        old(s).wf(),
    ensures
        final(s).wf(),
        final(s).state == State::Connecting,
        final(s).epoch == old(s).epoch,
        !final(s).has_handle,
{
    s.has_handle = false;
    s.state = State::Connecting;
}

/// Installs or clears the handle for one finished connect: on success the
/// handle is installed, the epoch rises by exactly one and the state is
/// `Connected`; on failure there is no handle, the epoch is unchanged and
/// the state is `NotConnected`. Any stale handle is discarded either way.
pub fn apply_connect(s: &mut Session, ok: bool)
    requires
        old(s).wf(),
        old(s).epoch < u64::MAX,
    ensures
        final(s).wf(),
        ok ==> final(s).state == State::Connected && final(s).epoch == old(s).epoch + 1
            && final(s).has_handle,
        !ok ==> final(s).state == State::NotConnected && final(s).epoch == old(s).epoch
            && !final(s).has_handle,
{
    begin_connect(s);
    if ok {
        s.has_handle = true;
        s.epoch = s.epoch + 1;
        s.state = State::Connected;
    } else {
        s.state = State::NotConnected;
    }
}

/// What a finished connect posts to its callback, if one was given.
pub open spec fn spec_connect_deliveries(has_cb: bool, outcome: Result<(), ErrorShape>) -> Seq<
    DeliveryView,
> {
    if !has_cb {
        Seq::empty()
    } else {
        match outcome {
            Ok(_) => seq![DeliveryView::Connect(None)],
            Err(e) => seq![DeliveryView::Connect(Some(spec_error_fields(e@)))],
        }
    }
}

/// One explicit connect, applied to the session once the wire work is
/// done. Its report already folds in the retry policy and the best-effort
/// session-initialization statement (whose failure is ignored). Returns
/// the success flag and what to post.
pub fn connect(s: &mut Session, has_cb: bool, outcome: Result<(), ErrorShape>) -> (r: (
    bool,
    Vec<Delivery>,
))
    requires
        old(s).wf(),
        old(s).epoch < u64::MAX,
    ensures
        final(s).wf(),
        r.0 == (outcome is Ok),
        outcome is Ok ==> final(s).state == State::Connected && final(s).epoch == old(s).epoch + 1
            && final(s).has_handle,
        outcome is Err ==> final(s).state == State::NotConnected && final(s).epoch == old(s).epoch
            && !final(s).has_handle,
        deliveries_view(r.1@) == spec_connect_deliveries(has_cb, outcome),
{
    let ok = outcome.is_ok();
    apply_connect(s, ok);
    let mut ds: Vec<Delivery> = Vec::new();
    if has_cb {
        match outcome {
            Ok(_) => ds.push(Delivery::Connect(None)),
            Err(e) => ds.push(Delivery::Connect(Some(to_error_fields(&e)))),
        }
    }
    proof {
        assert(deliveries_view(ds@) =~= spec_connect_deliveries(has_cb, outcome));
    }
    (ok, ds)
}

/// What a disconnect posts to its callback, if one was given: the close
/// failure of a live handle is reported, but disconnection itself always
/// succeeds.
pub open spec fn spec_disconnect_deliveries(
    had_handle: bool,
    has_cb: bool,
    close_result: Result<(), ErrorShape>,
) -> Seq<DeliveryView> {
    if !has_cb {
        Seq::empty()
    } else if had_handle {
        match close_result {
            Ok(_) => seq![DeliveryView::Disconnect(None)],
            Err(e) => seq![DeliveryView::Disconnect(Some(spec_error_fields(e@)))],
        }
    } else {
        seq![DeliveryView::Disconnect(None)]
    }
}

/// Begins teardown, as the actor publishes it: the state becomes
/// `Disconnected` before any graceful close of the live handle runs, the
/// handle is given up and the epoch stands. Returns whether there was a
/// live handle to close.
pub fn begin_disconnect(s: &mut Session) -> (had: bool)
    requires
        old(s).wf(),
    ensures
        final(s).wf(),
        final(s).state == State::Disconnected,
        final(s).epoch == old(s).epoch,
        !final(s).has_handle,
        had == old(s).has_handle,
{
    let had = s.has_handle;
    s.state = State::Disconnected;
    s.has_handle = false;
    had
}

/// What a finished disconnect posts, once the graceful close (if a handle
/// was live) has run: disconnection always succeeds from the caller's
/// point of view, but a close failure is still reported.
pub fn disconnect_reply(had_handle: bool, has_cb: bool, close_result: Result<(), ErrorShape>) -> (
    ds: Vec<Delivery>
)
    ensures
        deliveries_view(ds@) == spec_disconnect_deliveries(had_handle, has_cb, close_result),
{
    let mut ds: Vec<Delivery> = Vec::new();
    if has_cb {
        if had_handle {
            match close_result {
                Ok(_) => ds.push(Delivery::Disconnect(None)),
                Err(e) => ds.push(Delivery::Disconnect(Some(to_error_fields(&e)))),
            }
        } else {
            ds.push(Delivery::Disconnect(None));
        }
    }
    proof {
        assert(deliveries_view(ds@) =~= spec_disconnect_deliveries(
            had_handle,
            has_cb,
            close_result,
        ));
    }
    ds
}

/// Tears the session down in one step: the state becomes `Disconnected`,
/// the handle is dropped, the epoch stands. `close_result` is the outcome
/// of gracefully closing the live handle; without one there was nothing to
/// close.
pub fn disconnect(s: &mut Session, has_cb: bool, close_result: Result<(), ErrorShape>) -> (ds: Vec<
    Delivery,
>)
    requires
        old(s).wf(),
    ensures
        final(s).wf(),
        final(s).state == State::Disconnected,
        !final(s).has_handle,
        final(s).epoch == old(s).epoch,
        deliveries_view(ds@) == spec_disconnect_deliveries(old(s).has_handle, has_cb, close_result),
{
    let had = begin_disconnect(s);
    disconnect_reply(had, has_cb, close_result)
}

/// What a ping posts to its callback, if one was given: without a live
/// handle, the "connection is not open" failure; otherwise the measured
/// round-trip latency or the driver's failure.
pub open spec fn spec_ping_deliveries(
    has_handle: bool,
    has_cb: bool,
    result: Result<u64, ErrorShape>,
) -> Seq<DeliveryView> {
    if !has_cb {
        Seq::empty()
    } else if !has_handle {
        seq![DeliveryView::Ping(Err(spec_not_open_error()))]
    } else {
        match result {
            Ok(latency) => seq![DeliveryView::Ping(Ok(latency))],
            Err(e) => seq![DeliveryView::Ping(Err(spec_error_fields(e@)))],
        }
    }
}

/// One ping. The session is only read: a ping neither alters the state nor
/// the epoch, whether or not a handle is live. `result` is the driver's
/// report for a live handle and is ignored without one.
pub fn ping(s: &Session, has_cb: bool, result: Result<u64, ErrorShape>) -> (ds: Vec<Delivery>)
    ensures
        deliveries_view(ds@) == spec_ping_deliveries(s.has_handle, has_cb, result),
{
    let mut ds: Vec<Delivery> = Vec::new();
    if has_cb {
        if !s.has_handle {
            ds.push(Delivery::Ping(Err(not_open_error())));
        } else {
            match result {
                Ok(latency) => ds.push(Delivery::Ping(Ok(latency))),
                Err(e) => ds.push(Delivery::Ping(Err(to_error_fields(&e)))),
            }
        }
    }
    proof {
        assert(deliveries_view(ds@) =~= spec_ping_deliveries(s.has_handle, has_cb, result));
    }
    ds
}

/// A conversion failure as the caller sees it: a bare message.
pub open spec fn spec_conversion_error(m: Seq<char>) -> DbErrorView {
    DbErrorView { message: m, sqlstate: None, code: None }
}

/// What one completed query posts, from its stored result: a success feeds
/// the result callback alone (nothing without one); a failure feeds the
/// error observer — with the trace token — and then the result callback,
/// whichever are registered.
pub open spec fn spec_query_deliveries(q: QueryView) -> Seq<DeliveryView> {
    match q.result {
        Ok(qr) => if !q.has_callback {
            Seq::empty()
        } else {
            match qr {
                QueryResultView::Run => seq![DeliveryView::QueryReply(QueryReplyView::NoData)],
                QueryResultView::Execute { rows_affected, last_insert_id } => seq![
                    DeliveryView::QueryReply(
                        QueryReplyView::Execute { rows_affected, last_insert_id },
                    ),
                ],
                QueryResultView::Rows(res) => match res {
                    Ok(rows) => seq![DeliveryView::QueryReply(QueryReplyView::Rows(rows))],
                    Err(m) => seq![
                        DeliveryView::QueryReply(
                            QueryReplyView::Failure(spec_conversion_error(m)),
                        ),
                    ],
                },
                QueryResultView::Row(res) => match res {
                    Ok(Some(vals)) => seq![DeliveryView::QueryReply(QueryReplyView::Row(vals))],
                    Ok(None) => seq![DeliveryView::QueryReply(QueryReplyView::NoData)],
                    Err(m) => seq![
                        DeliveryView::QueryReply(
                            QueryReplyView::Failure(spec_conversion_error(m)),
                        ),
                    ],
                },
            }
        },
        Err(e) => {
            let fields = spec_error_fields(e);
            (if q.has_on_error {
                seq![DeliveryView::QueryError { error: fields, trace: q.trace }]
            } else {
                Seq::empty()
            }) + (if q.has_callback {
                seq![DeliveryView::QueryReply(QueryReplyView::Failure(fields))]
            } else {
                Seq::empty()
            })
        },
    }
}

/// Posts one completed query's stored result, exact against
/// [`spec_query_deliveries`].
pub fn handle_query_result(q: Query) -> (ds: Vec<Delivery>)
    ensures
        deliveries_view(ds@) == spec_query_deliveries(q@),
{
    let mut ds: Vec<Delivery> = Vec::new();
    let has_callback = q.has_callback;
    let has_on_error = q.has_on_error;
    match q.result {
        Ok(qr) => {
            if has_callback {
                match qr {
                    QueryResult::Run => {
                        ds.push(Delivery::QueryReply(QueryReply::NoData));
                    },
                    QueryResult::Execute { rows_affected, last_insert_id } => {
                        ds.push(
                            Delivery::QueryReply(
                                QueryReply::Execute { rows_affected, last_insert_id },
                            ),
                        );
                    },
                    QueryResult::Rows(Ok(rows)) => {
                        ds.push(Delivery::QueryReply(QueryReply::Rows(rows)));
                    },
                    QueryResult::Rows(Err(m)) => {
                        ds.push(
                            Delivery::QueryReply(
                                QueryReply::Failure(
                                    DbError { message: m, sqlstate: None, code: None },
                                ),
                            ),
                        );
                    },
                    QueryResult::Row(Ok(Some(vals))) => {
                        ds.push(Delivery::QueryReply(QueryReply::Row(vals)));
                    },
                    QueryResult::Row(Ok(None)) => {
                        ds.push(Delivery::QueryReply(QueryReply::NoData));
                    },
                    QueryResult::Row(Err(m)) => {
                        ds.push(
                            Delivery::QueryReply(
                                QueryReply::Failure(
                                    DbError { message: m, sqlstate: None, code: None },
                                ),
                            ),
                        );
                    },
                }
            }
        },
        Err(e) => {
            if has_on_error {
                ds.push(Delivery::QueryError { error: to_error_fields(&e), trace: q.trace });
            }
            if has_callback {
                ds.push(Delivery::QueryReply(QueryReply::Failure(to_error_fields(&e))));
            }
        },
    }
    proof {
        assert(deliveries_view(ds@) =~= spec_query_deliveries(q@));
    }
    ds
}

/// What a query issued without a live handle posts: the "connection is not
/// open" failure, through the error observer and the result callback,
/// whichever are registered.
pub open spec fn spec_not_open_deliveries(q: QueryView) -> Seq<DeliveryView> {
    (if q.has_on_error {
        seq![
            DeliveryView::QueryError { error: spec_not_open_error(), trace: q.trace },
        ]
    } else {
        Seq::empty()
    }) + (if q.has_callback {
        seq![DeliveryView::QueryReply(QueryReplyView::Failure(spec_not_open_error()))]
    } else {
        Seq::empty()
    })
}

/// One query command. Without a live handle it completes immediately with
/// the "connection is not open" failure and touches nothing — no state
/// change, no epoch change, and the driver's report is ignored. With one,
/// the driver's report is shaped by the query kind and posted; a failure
/// classified transient and confirmed by a failed ping — the failure alone
/// is not conclusive — sets the state to `NotConnected` and asks for the
/// background reconnect, which begins only after the result is posted.
pub fn query(s: &mut Session, q: Query, driver: Result<DriverSuccess, ErrorShape>, ping_ok: bool)
    -> (r: (Vec<Delivery>, bool))
    requires
        old(s).wf(),
        driver matches Ok(d) ==> success_matches(q.qtype, d),
    ensures
        final(s).wf(),
        final(s).epoch == old(s).epoch,
        final(s).has_handle == old(s).has_handle,
        !old(s).has_handle ==> *final(s) == *old(s) && r.1 == false && deliveries_view(r.0@)
            == spec_not_open_deliveries(q@),
        old(s).has_handle ==> ({
            let res = spec_execute(q.qtype, driver);
            let confirmed = (res matches Err(e) && spec_transient(e)) && !ping_ok;
            &&& r.1 == confirmed
            &&& final(s).state == (if confirmed {
                State::NotConnected
            } else {
                old(s).state
            })
            &&& deliveries_view(r.0@) == spec_query_deliveries(QueryView { result: res, ..q@ })
        }),
{
    if !s.has_handle {
        let mut ds: Vec<Delivery> = Vec::new();
        if q.has_on_error {
            ds.push(
                Delivery::QueryError {
                    error: not_open_error(),
                    trace: clone_opt_string(&q.trace),
                },
            );
        }
        if q.has_callback {
            ds.push(Delivery::QueryReply(QueryReply::Failure(not_open_error())));
        }
        proof {
            assert(deliveries_view(ds@) =~= spec_not_open_deliveries(q@));
        }
        return (ds, false);
    }
    let result = execute_query(q.qtype, driver);
    let confirmed = match &result {
        Err(e) => should_reconnect(e) && !ping_ok,
        Ok(_) => false,
    };
    if confirmed {
        s.state = State::NotConnected;
    }
    let mut executed = q;
    executed.result = result;
    proof {
        assert(executed@ == (QueryView { result: spec_execute(q.qtype, driver), ..q@ }));
    }
    let ds = handle_query_result(executed);
    (ds, confirmed)
}

/// The outcome of one bounded connect: how many attempts were made, and
/// the first success or the last observed error. `attempts` reports, in
/// order, what each wire attempt would yield (a timeout arrives as a
/// connect error); only the first [`CONNECT_ATTEMPTS`] entries are
/// consulted, one per attempt, stopping at the first success.
pub fn connect_with_retry(attempts: &Vec<Result<(), ErrorShape>>) -> (r: (
    Result<(), ErrorShape>,
    usize,
))
    requires
        attempts@.len() >= CONNECT_ATTEMPTS,
    ensures
        1 <= r.1 <= CONNECT_ATTEMPTS,
        match r.0 {
            Ok(_) => attempts@[r.1 - 1] is Ok && forall|j: int|
                0 <= j < r.1 - 1 ==> (#[trigger] attempts@[j]) is Err,
            Err(e) => r.1 == CONNECT_ATTEMPTS && (forall|j: int|
                0 <= j < CONNECT_ATTEMPTS ==> (#[trigger] attempts@[j]) is Err) && (
            attempts@[CONNECT_ATTEMPTS - 1] matches Err(last) && e@ == last@),
        },
{
    let mut i: usize = 0;
    loop
        invariant
            attempts@.len() >= CONNECT_ATTEMPTS,
            i < CONNECT_ATTEMPTS,
            forall|j: int| 0 <= j < i ==> (#[trigger] attempts@[j]) is Err,
        decreases CONNECT_ATTEMPTS - i,
    {
        match &attempts[i] {
            Ok(_) => {
                return (Ok(()), i + 1);
            },
            Err(e) => {
                if i == CONNECT_ATTEMPTS - 1 {
                    return (Err(clone_error_shape(e)), CONNECT_ATTEMPTS);
                }
            },
        }
        i += 1;
    }
}

/// The decision after a failed connection attempt, `attempts_made`
/// counting the attempts already performed: pause for the fixed delay and
/// retry while attempts remain, else give up and surface the last
/// observed error.
pub fn connect_retry_decision(attempts_made: usize) -> (r: Option<u64>)
    ensures
        attempts_made < CONNECT_ATTEMPTS ==> r == Some(CONNECT_RETRY_DELAY_SECS),
        attempts_made >= CONNECT_ATTEMPTS ==> r is None,
{
    if attempts_made < CONNECT_ATTEMPTS {
        Some(CONNECT_RETRY_DELAY_SECS)
    } else {
        None
    }
}

/// The decision before background reconnection round `round` (counting
/// from zero): the pause to sleep before that round's attempt, while
/// rounds remain.
pub fn reconnect_round_decision(round: usize) -> (r: Option<u64>)
    ensures
        round < RECONNECT_ROUNDS ==> r == Some((RECONNECT_BASE_DELAY_SECS + round) as u64),
        round >= RECONNECT_ROUNDS ==> r is None,
{
    if round < RECONNECT_ROUNDS {
        Some(RECONNECT_BASE_DELAY_SECS + (round as u64))
    } else {
        None
    }
}

/// An exact copy of a failure's shape.
pub fn clone_error_shape(e: &ErrorShape) -> (r: ErrorShape)
    ensures
        r@ == e@,
{
    match e {
        ErrorShape::Io { kind, message } => ErrorShape::Io {
            kind: *kind,
            message: message.clone(),
        },
        ErrorShape::Tls { message } => ErrorShape::Tls { message: message.clone() },
        ErrorShape::MysqlDatabase { code, sqlstate, message } => ErrorShape::MysqlDatabase {
            code: *code,
            sqlstate: clone_opt_string(sqlstate),
            message: message.clone(),
        },
        ErrorShape::Other { message } => ErrorShape::Other { message: message.clone() },
    }
}

/// What one background recovery run did: how many rounds ran, the pause
/// that preceded each, and whether a round reconnected.
#[derive(Debug)]
pub struct ReconnectReport {
    pub rounds: usize,
    pub delays: Vec<u64>,
    pub reconnected: bool,
}

/// The background recovery loop after a confirmed dead connection: up to
/// [`RECONNECT_ROUNDS`] rounds, each preceded by a pause one second longer
/// than the last, each applying one connect with no callback, stopping at
/// the first success. No caller waits on it; queries issued meanwhile fail
/// immediately with "connection is not open". `outcomes` reports, in
/// order, whether each round's wire attempt would succeed.
///
/// Within the bounded rounds the session either returns to `Connected`
/// with the epoch risen by exactly one, or ends in `NotConnected` with the
/// epoch unchanged — failed rounds never move the epoch.
pub fn attempt_reconnect(s: &mut Session, outcomes: &Vec<bool>) -> (r: ReconnectReport)
    requires
        old(s).wf(),
        old(s).epoch < u64::MAX,
        outcomes@.len() >= RECONNECT_ROUNDS,
    ensures
        final(s).wf(),
        r.reconnected == (exists|i: int|
            0 <= i < RECONNECT_ROUNDS && (#[trigger] outcomes@[i]) == true),
        r.reconnected ==> {
            &&& final(s).state == State::Connected
            &&& final(s).epoch == old(s).epoch + 1
            &&& final(s).has_handle
            &&& 1 <= r.rounds <= RECONNECT_ROUNDS
            &&& outcomes@[r.rounds - 1] == true
            &&& forall|j: int| 0 <= j < r.rounds - 1 ==> (#[trigger] outcomes@[j]) == false
        },
        !r.reconnected ==> {
            &&& final(s).state == State::NotConnected
            &&& final(s).epoch == old(s).epoch
            &&& !final(s).has_handle
            &&& r.rounds == RECONNECT_ROUNDS
        },
        r.delays@.len() == r.rounds,
        forall|i: int|
            0 <= i < r.rounds ==> (#[trigger] r.delays@[i]) == RECONNECT_BASE_DELAY_SECS + i,
{
    let mut delays: Vec<u64> = Vec::new();
    let mut i: usize = 0;
    let mut done = false;
    while i < RECONNECT_ROUNDS && !done
        invariant
            outcomes@.len() >= RECONNECT_ROUNDS,
            i <= RECONNECT_ROUNDS,
            delays@.len() == i,
            forall|j: int|
                0 <= j < i ==> (#[trigger] delays@[j]) == RECONNECT_BASE_DELAY_SECS + j,
            s.wf(),
            old(s).epoch < u64::MAX,
            !done ==> forall|j: int| 0 <= j < i ==> (#[trigger] outcomes@[j]) == false,
            !done ==> s.epoch == old(s).epoch,
            !done && i == 0 ==> *s == *old(s),
            !done && i > 0 ==> s.state == State::NotConnected && !s.has_handle,
            done ==> {
                &&& i >= 1
                &&& outcomes@[i - 1] == true
                &&& forall|j: int| 0 <= j < i - 1 ==> (#[trigger] outcomes@[j]) == false
                &&& s.state == State::Connected
                &&& s.epoch == old(s).epoch + 1
                &&& s.has_handle
            },
        decreases RECONNECT_ROUNDS - i,
    {
        delays.push(RECONNECT_BASE_DELAY_SECS + (i as u64));
        let ok = outcomes[i];
        apply_connect(s, ok);
        if ok {
            done = true;
        }
        i += 1;
    }
    ReconnectReport { rounds: i, delays, reconnected: done }
}

/// One query handled to completion the way the actor runs it: the command
/// itself, then — only on a failure classified transient and confirmed by
/// a failed ping — the background recovery rounds. The result is posted
/// before any recovery begins: the caller retrieves its failed result and
/// must reissue afterwards.
///
/// For every transient failure confirmed dead, the state first becomes
/// `NotConnected`, and within the bounded rounds the session either
/// returns to `Connected` with the epoch risen by exactly one, or ends in
/// `NotConnected` with the epoch unchanged.
pub fn query_with_recovery(
    s: &mut Session,
    q: Query,
    driver: Result<DriverSuccess, ErrorShape>,
    ping_ok: bool,
    outcomes: &Vec<bool>,
) -> (r: (Vec<Delivery>, Option<ReconnectReport>))
    requires
        old(s).wf(),
        old(s).epoch < u64::MAX,
        driver matches Ok(d) ==> success_matches(q.qtype, d),
        outcomes@.len() >= RECONNECT_ROUNDS,
    ensures
        final(s).wf(),
        old(s).epoch <= final(s).epoch <= old(s).epoch + 1,
        ({
            let res = spec_execute(q.qtype, driver);
            let confirmed = old(s).has_handle && ((res matches Err(e) && spec_transient(e))
                && !ping_ok);
            &&& deliveries_view(r.0@) == (if old(s).has_handle {
                spec_query_deliveries(QueryView { result: res, ..q@ })
            } else {
                spec_not_open_deliveries(q@)
            })
            &&& (r.1 is Some) == confirmed
            &&& (confirmed ==> (r.1 matches Some(rep) && {
                &&& rep.reconnected == (exists|i: int|
                    0 <= i < RECONNECT_ROUNDS && (#[trigger] outcomes@[i]) == true)
                &&& rep.delays@.len() == rep.rounds
                &&& forall|i: int|
                    0 <= i < rep.rounds ==> (#[trigger] rep.delays@[i]) == RECONNECT_BASE_DELAY_SECS
                        + i
                &&& (rep.reconnected ==> {
                    &&& 1 <= rep.rounds <= RECONNECT_ROUNDS
                    &&& outcomes@[rep.rounds - 1] == true
                    &&& forall|j: int| 0 <= j < rep.rounds - 1 ==> (#[trigger] outcomes@[j]) == false
                    &&& final(s).state == State::Connected
                    &&& final(s).epoch == old(s).epoch + 1
                    &&& final(s).has_handle
                })
                &&& (!rep.reconnected ==> {
                    &&& rep.rounds == RECONNECT_ROUNDS
                    &&& final(s).state == State::NotConnected
                    &&& final(s).epoch == old(s).epoch
                    &&& !final(s).has_handle
                })
            }))
            &&& (!confirmed ==> final(s).epoch == old(s).epoch && final(s).state == old(s).state)
        }),
{
    let (ds, reconnect) = query(s, q, driver, ping_ok);
    if reconnect {
        let rep = attempt_reconnect(s, outcomes);
        (ds, Some(rep))
    } else {
        (ds, None)
    }
}

/// One command sent through the mailbox. A boolean field says whether a
/// callback is registered for the command. `Close` is the sentinel that
/// ends the loop; it is expected to follow a `Disconnect`.
pub enum ConnMessage {
    Connect(bool),
    Disconnect(bool),
    Query(Query),
    Ping(bool),
    Close,
}

/// The driver's report for the wire work one command needed: nothing for
/// `Close`; for a query, the execution outcome together with whether the
/// confirming ping found the connection alive.
pub enum DriverEvent {
    Connected(Result<(), ErrorShape>),
    Closed(Result<(), ErrorShape>),
    Executed(Result<DriverSuccess, ErrorShape>, bool),
    Pinged(Result<u64, ErrorShape>),
    Nothing,
}

/// The report fits the command it answers.
pub open spec fn event_matches(msg: ConnMessage, ev: DriverEvent) -> bool {
    match msg {
        ConnMessage::Connect(_) => ev is Connected,
        ConnMessage::Disconnect(_) => ev is Closed,
        ConnMessage::Query(q) => ev matches DriverEvent::Executed(outcome, _) && (outcome matches
            Ok(d) ==> success_matches(q.qtype, d)),
        ConnMessage::Ping(_) => ev is Pinged,
        ConnMessage::Close => ev is Nothing,
    }
}

/// A query's driver report is classified transient and the confirming
/// ping found the connection dead.
pub open spec fn spec_query_confirms_drop(
    qtype: QueryType,
    outcome: Result<DriverSuccess, ErrorShape>,
    ping_ok: bool,
) -> bool {
    (spec_execute(qtype, outcome) matches Err(e) && spec_transient(e)) && !ping_ok
}

/// The session after one handled command.
pub open spec fn spec_step_session(s: Session, msg: ConnMessage, ev: DriverEvent) -> Session {
    match (msg, ev) {
        (ConnMessage::Connect(_), DriverEvent::Connected(o)) => if o is Ok {
            Session { state: State::Connected, epoch: (s.epoch + 1) as u64, has_handle: true }
        } else {
            Session { state: State::NotConnected, epoch: s.epoch, has_handle: false }
        },
        (ConnMessage::Disconnect(_), DriverEvent::Closed(_)) => Session {
            state: State::Disconnected,
            epoch: s.epoch,
            has_handle: false,
        },
        (ConnMessage::Query(q), DriverEvent::Executed(outcome, ping_ok)) => if s.has_handle
            && spec_query_confirms_drop(q.qtype, outcome, ping_ok) {
            Session { state: State::NotConnected, ..s }
        } else {
            s
        },
        _ => s,
    }
}

/// What one handled command posts to the host queue, in order.
pub open spec fn spec_step_deliveries(s: Session, msg: ConnMessage, ev: DriverEvent) -> Seq<
    DeliveryView,
> {
    match (msg, ev) {
        (ConnMessage::Connect(cb), DriverEvent::Connected(o)) => spec_connect_deliveries(cb, o),
        (ConnMessage::Disconnect(cb), DriverEvent::Closed(c)) => spec_disconnect_deliveries(
            s.has_handle,
            cb,
            c,
        ),
        (ConnMessage::Query(q), DriverEvent::Executed(outcome, _ping_ok)) => if s.has_handle {
            spec_query_deliveries(QueryView { result: spec_execute(q.qtype, outcome), ..q@ })
        } else {
            spec_not_open_deliveries(q@)
        },
        (ConnMessage::Ping(cb), DriverEvent::Pinged(p)) => spec_ping_deliveries(s.has_handle, cb, p),
        _ => Seq::empty(),
    }
}

/// Whether one handled command asks for the background reconnect.
pub open spec fn spec_step_reconnect(s: Session, msg: ConnMessage, ev: DriverEvent) -> bool {
    match (msg, ev) {
        (ConnMessage::Query(q), DriverEvent::Executed(outcome, ping_ok)) => s.has_handle
            && spec_query_confirms_drop(q.qtype, outcome, ping_ok),
        _ => false,
    }
}

/// What one handled command asks of the surrounding loop: the closures to
/// post, in order; whether to run the background reconnect afterwards —
/// always after the deliveries, preserving partial-failure semantics; and
/// whether to exit.
#[derive(Debug)]
pub struct StepOutcome {
    pub deliveries: Vec<Delivery>,
    pub reconnect: bool,
    pub exit: bool,
}

/// Handles one command to completion: dispatches it to its handler and
/// decides the state transition, the epoch, the postings and whether the
/// loop ends — each pinned to its step function. The epoch never falls,
/// and rises — by exactly one — only when a connect succeeds.
pub fn handle_message(s: &mut Session, msg: ConnMessage, ev: DriverEvent) -> (out: StepOutcome)
    requires
        old(s).wf(),
        old(s).epoch < u64::MAX,
        event_matches(msg, ev),
    ensures
        final(s).wf(),
        *final(s) == spec_step_session(*old(s), msg, ev),
        deliveries_view(out.deliveries@) == spec_step_deliveries(*old(s), msg, ev),
        out.reconnect == spec_step_reconnect(*old(s), msg, ev),
        out.exit == (msg is Close),
        old(s).epoch <= final(s).epoch <= old(s).epoch + 1,
        (final(s).epoch == old(s).epoch + 1) <==> ((msg is Connect) && (ev matches
            DriverEvent::Connected(o) && o is Ok)),
        (msg is Ping || msg is Close) ==> *final(s) == *old(s),
{
    match (msg, ev) {
        (ConnMessage::Connect(cb), DriverEvent::Connected(o)) => {
            let (_ok, ds) = connect(s, cb, o);
            StepOutcome { deliveries: ds, reconnect: false, exit: false }
        },
        (ConnMessage::Disconnect(cb), DriverEvent::Closed(c)) => {
            let ds = disconnect(s, cb, c);
            StepOutcome { deliveries: ds, reconnect: false, exit: false }
        },
        (ConnMessage::Query(q), DriverEvent::Executed(outcome, ping_ok)) => {
            let (ds, rec) = query(s, q, outcome, ping_ok);
            StepOutcome { deliveries: ds, reconnect: rec, exit: false }
        },
        (ConnMessage::Ping(cb), DriverEvent::Pinged(p)) => {
            let ds = ping(s, cb, p);
            StepOutcome { deliveries: ds, reconnect: false, exit: false }
        },
        (ConnMessage::Close, _) => StepOutcome {
            deliveries: Vec::new(),
            reconnect: false,
            exit: true,
        },
        _ => {
            proof {
                assert(false);
            }
            StepOutcome { deliveries: Vec::new(), reconnect: false, exit: false }
        },
    }
}

/// The completion of one command: which position in the mailbox it held,
/// what it posted, and whether it asked for the background reconnect.
#[derive(Debug)]
pub struct Completion {
    pub index: usize,
    pub deliveries: Vec<Delivery>,
    pub reconnect: bool,
}

/// The session after the first `k` commands of the mailbox.
pub open spec fn spec_run_session(
    s: Session,
    inbox: Seq<(ConnMessage, DriverEvent)>,
    k: int,
) -> Session
    decreases k,
{
    if k <= 0 {
        s
    } else {
        spec_step_session(spec_run_session(s, inbox, k - 1), inbox[k - 1].0, inbox[k - 1].1)
    }
}

/// The actor loop over the mailbox: commands are handled strictly in send
/// order, one at a time to completion — the completion log carries the
/// commands' own positions, in order, with never two in flight, and each
/// completion's postings, state effect and reconnect request are those of
/// its command's step — and the loop ends at `Close`, which drains nothing
/// further, or when the mailbox is exhausted. The epoch never falls across
/// the whole run.
pub fn handle_messages(s: &mut Session, inbox: &mut Vec<(ConnMessage, DriverEvent)>) -> (log: Vec<
    Completion,
>)
    requires
        old(s).wf(),
        old(s).epoch + old(inbox)@.len() <= u64::MAX,
        forall|i: int|
            0 <= i < old(inbox)@.len() ==> event_matches(
                (#[trigger] old(inbox)@[i]).0,
                old(inbox)@[i].1,
            ),
    ensures
        final(s).wf(),
        final(s).epoch >= old(s).epoch,
        *final(s) == spec_run_session(*old(s), old(inbox)@, log@.len() as int),
        log@.len() <= old(inbox)@.len(),
        forall|i: int| 0 <= i < log@.len() ==> (#[trigger] log@[i]).index == i,
        forall|i: int|
            0 <= i < log@.len() ==> deliveries_view((#[trigger] log@[i]).deliveries@)
                == spec_step_deliveries(
                spec_run_session(*old(s), old(inbox)@, i),
                old(inbox)@[i].0,
                old(inbox)@[i].1,
            ),
        forall|i: int|
            0 <= i < log@.len() ==> (#[trigger] log@[i]).reconnect == spec_step_reconnect(
                spec_run_session(*old(s), old(inbox)@, i),
                old(inbox)@[i].0,
                old(inbox)@[i].1,
            ),
        forall|i: int| 0 <= i < log@.len() ==> !((#[trigger] old(inbox)@[i]).0 is Close),
        if log@.len() < old(inbox)@.len() {
            old(inbox)@[log@.len() as int].0 is Close && final(inbox)@ == old(inbox)@.subrange(
                log@.len() + 1 as int,
                old(inbox)@.len() as int,
            )
        } else {
            final(inbox)@.len() == 0
        },
{
    let ghost inbox0 = old(inbox)@;
    let ghost s0 = *s;
    let mut log: Vec<Completion> = Vec::new();
    let mut i: usize = 0;
    let n = inbox.len();
    while i < n
        invariant
            inbox0 == old(inbox)@,
            s0 == *old(s),
            n == inbox0.len(),
            inbox@ == inbox0.subrange(i as int, n as int),
            i <= n,
            log@.len() == i,
            s.wf(),
            old(s).epoch + inbox0.len() <= u64::MAX,
            old(s).epoch <= s.epoch <= old(s).epoch + i,
            *s == spec_run_session(s0, inbox0, i as int),
            forall|j: int|
                0 <= j < inbox0.len() ==> event_matches((#[trigger] inbox0[j]).0, inbox0[j].1),
            forall|j: int| 0 <= j < i ==> (#[trigger] log@[j]).index == j,
            forall|j: int|
                0 <= j < i ==> deliveries_view((#[trigger] log@[j]).deliveries@)
                    == spec_step_deliveries(
                    spec_run_session(s0, inbox0, j),
                    inbox0[j].0,
                    inbox0[j].1,
                ),
            forall|j: int|
                0 <= j < i ==> (#[trigger] log@[j]).reconnect == spec_step_reconnect(
                    spec_run_session(s0, inbox0, j),
                    inbox0[j].0,
                    inbox0[j].1,
                ),
            forall|j: int| 0 <= j < i ==> !((#[trigger] inbox0[j]).0 is Close),
        decreases n - i,
    {
        let (msg, ev) = inbox.remove(0);
        let is_close = match &msg {
            ConnMessage::Close => true,
            _ => false,
        };
        if is_close {
            return log;
        }
        let out = handle_message(s, msg, ev);
        log.push(Completion { index: i, deliveries: out.deliveries, reconnect: out.reconnect });
        proof {
            assert(spec_run_session(s0, inbox0, i + 1) == spec_step_session(
                spec_run_session(s0, inbox0, i as int),
                inbox0[i as int].0,
                inbox0[i as int].1,
            ));
        }
        i += 1;
    }
    log
}

} // verus!
