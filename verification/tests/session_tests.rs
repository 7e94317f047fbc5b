use goobie_mysql::error::{ErrorShape, IoKind};
use goobie_mysql::executor::DriverSuccess;
use goobie_mysql::query::{Query, QueryType};
use goobie_mysql::session::{
    attempt_reconnect, connect, connect_retry_decision, connect_with_retry, disconnect,
    handle_message, handle_messages, open, ping, query, query_with_recovery,
    reconnect_round_decision, ConnMessage, Delivery, DriverEvent, QueryReply, Session,
    CONNECT_ATTEMPTS, CONNECT_RETRY_DELAY_SECS, CONNECT_TIMEOUT_SECS, RECONNECT_BASE_DELAY_SECS,
    RECONNECT_ROUNDS,
};
use goobie_mysql::state::State;

fn fresh() -> Session {
    Session::new()
}

fn connected() -> Session {
    let mut s = fresh();
    let (ok, _) = connect(&mut s, false, Ok(()));
    assert!(ok);
    s
}

fn plain_query(qtype: QueryType) -> Query {
    let mut q = Query::new(String::from("SELECT 1"), qtype, false, None).unwrap();
    q.has_callback = true;
    q
}

fn dead_error() -> ErrorShape {
    ErrorShape::Io { kind: IoKind::ConnectionReset, message: String::from("reset") }
}

#[test]
fn a_fresh_session_is_not_connected() {
    let s = fresh();
    assert_eq!(s.state(), State::NotConnected);
    assert_eq!(s.id(), 0);
    assert!(!s.has_handle);
}

#[test]
fn a_successful_connect_bumps_the_epoch_once() {
    let mut s = fresh();
    let (ok, ds) = connect(&mut s, true, Ok(()));
    assert!(ok);
    assert_eq!(s.state(), State::Connected);
    assert_eq!(s.id(), 1);
    assert!(s.has_handle);
    assert_eq!(ds, vec![Delivery::Connect(None)]);
}

#[test]
fn a_failed_connect_keeps_the_epoch() {
    let mut s = fresh();
    let (ok, ds) = connect(&mut s, true, Err(dead_error()));
    assert!(!ok);
    assert_eq!(s.state(), State::NotConnected);
    assert_eq!(s.id(), 0);
    assert!(!s.has_handle);
    match &ds[..] {
        [Delivery::Connect(Some(e))] => assert_eq!(e.message, "reset"),
        other => panic!("unexpected deliveries: {:?}", other),
    }
}

#[test]
fn reconnecting_bumps_the_epoch_each_time() {
    let mut s = fresh();
    let _ = connect(&mut s, false, Ok(()));
    let _ = connect(&mut s, false, Err(dead_error()));
    assert_eq!(s.id(), 1);
    let _ = connect(&mut s, false, Ok(()));
    assert_eq!(s.id(), 2);
}

#[test]
fn disconnect_always_succeeds_but_reports_the_close_failure() {
    let mut s = connected();
    let ds = disconnect(&mut s, true, Err(dead_error()));
    assert_eq!(s.state(), State::Disconnected);
    assert!(!s.has_handle);
    assert_eq!(s.id(), 1);
    match &ds[..] {
        [Delivery::Disconnect(Some(e))] => assert_eq!(e.message, "reset"),
        other => panic!("unexpected deliveries: {:?}", other),
    }

    let mut s = fresh();
    let ds = disconnect(&mut s, true, Ok(()));
    assert_eq!(ds, vec![Delivery::Disconnect(None)]);
}

#[test]
fn ping_without_a_handle_reports_and_changes_nothing() {
    let s = fresh();
    let before = s;
    let ds = ping(&s, true, Ok(250));
    match &ds[..] {
        [Delivery::Ping(Err(e))] => assert_eq!(e.message, "connection is not open"),
        other => panic!("unexpected deliveries: {:?}", other),
    }
    assert_eq!(s, before);
}

#[test]
fn ping_with_a_handle_reports_the_latency() {
    let s = connected();
    let ds = ping(&s, true, Ok(250));
    assert_eq!(ds, vec![Delivery::Ping(Ok(250))]);
    assert_eq!(s.state(), State::Connected);
    assert_eq!(s.id(), 1);
}

#[test]
fn a_query_without_a_connection_fails_immediately() {
    let mut s = fresh();
    let mut q = plain_query(QueryType::Run);
    q.has_on_error = true;
    q.trace = Some(String::from("trace token"));
    let before = s;
    let (ds, reconnect) = query(
        &mut s,
        q,
        Ok(DriverSuccess::Info { rows_affected: 0, last_insert_id: 0 }),
        true,
    );
    assert!(!reconnect);
    assert_eq!(s, before);
    match &ds[..] {
        [Delivery::QueryError { error, trace }, Delivery::QueryReply(QueryReply::Failure(e))] => {
            assert_eq!(error.message, "connection is not open");
            assert_eq!(trace.as_deref(), Some("trace token"));
            assert_eq!(e.message, "connection is not open");
        },
        other => panic!("unexpected deliveries: {:?}", other),
    }
}

#[test]
fn fetch_one_of_zero_rows_succeeds_with_no_row() {
    let mut s = connected();
    let q = plain_query(QueryType::FetchOne);
    let (ds, reconnect) = query(&mut s, q, Ok(DriverSuccess::Row(None)), true);
    assert!(!reconnect);
    assert_eq!(ds, vec![Delivery::QueryReply(QueryReply::NoData)]);
}

#[test]
fn fetch_all_of_zero_rows_succeeds_with_an_empty_sequence() {
    let mut s = connected();
    let q = plain_query(QueryType::FetchAll);
    let (ds, reconnect) = query(&mut s, q, Ok(DriverSuccess::Rows(Vec::new())), true);
    assert!(!reconnect);
    assert_eq!(ds, vec![Delivery::QueryReply(QueryReply::Rows(Vec::new()))]);
}

#[test]
fn a_transient_failure_with_a_dead_ping_confirms_the_drop() {
    let mut s = connected();
    let mut q = plain_query(QueryType::Run);
    q.has_on_error = true;
    let (ds, reconnect) = query(&mut s, q, Err(dead_error()), false);
    assert!(reconnect);
    assert_eq!(s.state(), State::NotConnected);
    assert_eq!(s.id(), 1);
    assert!(s.has_handle);
    match &ds[..] {
        [Delivery::QueryError { error, trace }, Delivery::QueryReply(QueryReply::Failure(_))] => {
            assert_eq!(error.message, "reset");
            assert_eq!(*trace, None);
        },
        other => panic!("unexpected deliveries: {:?}", other),
    }
}

#[test]
fn a_transient_failure_with_a_live_ping_is_not_a_drop() {
    let mut s = connected();
    let q = plain_query(QueryType::Run);
    let (ds, reconnect) = query(&mut s, q, Err(dead_error()), true);
    assert!(!reconnect);
    assert_eq!(s.state(), State::Connected);
    match &ds[..] {
        [Delivery::QueryReply(QueryReply::Failure(e))] => assert_eq!(e.message, "reset"),
        other => panic!("unexpected deliveries: {:?}", other),
    }
}

#[test]
fn a_fatal_failure_never_reconnects() {
    let mut s = connected();
    let q = plain_query(QueryType::Run);
    let syntax = ErrorShape::MysqlDatabase {
        code: 1064,
        sqlstate: Some(String::from("42000")),
        message: String::from("You have an error in your SQL syntax"),
    };
    let (ds, reconnect) = query(&mut s, q, Err(syntax), false);
    assert!(!reconnect);
    assert_eq!(s.state(), State::Connected);
    match &ds[..] {
        [Delivery::QueryReply(QueryReply::Failure(e))] => {
            assert_eq!(e.code, Some(1064));
            assert_eq!(e.sqlstate.as_deref(), Some("42000"));
        },
        other => panic!("unexpected deliveries: {:?}", other),
    }
}

#[test]
fn recovery_runs_until_the_first_success() {
    let mut s = connected();
    let outcomes = vec![false, false, true, false, false, false, false];
    let rep = attempt_reconnect(&mut s, &outcomes);
    assert!(rep.reconnected);
    assert_eq!(rep.rounds, 3);
    assert_eq!(rep.delays, vec![2, 3, 4]);
    assert_eq!(s.state(), State::Connected);
    assert_eq!(s.id(), 2);
}

#[test]
fn recovery_gives_up_after_its_rounds() {
    let mut s = connected();
    let outcomes = vec![false; RECONNECT_ROUNDS];
    let rep = attempt_reconnect(&mut s, &outcomes);
    assert!(!rep.reconnected);
    assert_eq!(rep.rounds, RECONNECT_ROUNDS);
    assert_eq!(rep.delays, vec![2, 3, 4, 5, 6, 7, 8]);
    assert_eq!(s.state(), State::NotConnected);
    assert_eq!(s.id(), 1);
}

#[test]
fn a_confirmed_drop_recovers_or_ends_not_connected() {
    let mut s = connected();
    let q = plain_query(QueryType::Run);
    let outcomes = vec![false, true, false, false, false, false, false];
    let (ds, report) = query_with_recovery(&mut s, q, Err(dead_error()), false, &outcomes);
    assert!(!ds.is_empty());
    let rep = report.unwrap();
    assert!(rep.reconnected);
    assert_eq!(s.state(), State::Connected);
    assert_eq!(s.id(), 2);

    let mut s = connected();
    let q = plain_query(QueryType::Run);
    let outcomes = vec![false; RECONNECT_ROUNDS];
    let (_ds, report) = query_with_recovery(&mut s, q, Err(dead_error()), false, &outcomes);
    assert!(!report.unwrap().reconnected);
    assert_eq!(s.state(), State::NotConnected);
    assert_eq!(s.id(), 1);
}

#[test]
fn the_connecting_phase_is_published_before_the_attempts() {
    let mut s = connected();
    goobie_mysql::session::begin_connect(&mut s);
    assert_eq!(s.state(), State::Connecting);
    assert_eq!(s.id(), 1);
    assert!(!s.has_handle);
}

#[test]
fn teardown_sets_the_state_before_the_close_runs() {
    let mut s = connected();
    let had = goobie_mysql::session::begin_disconnect(&mut s);
    assert!(had);
    assert_eq!(s.state(), State::Disconnected);
    assert_eq!(s.id(), 1);
    let ds = goobie_mysql::session::disconnect_reply(had, true, Err(dead_error()));
    match &ds[..] {
        [Delivery::Disconnect(Some(e))] => assert_eq!(e.message, "reset"),
        other => panic!("unexpected deliveries: {:?}", other),
    }
}

#[test]
fn the_retry_and_round_decisions_follow_the_policy() {
    assert_eq!(connect_retry_decision(1), Some(2));
    assert_eq!(connect_retry_decision(2), Some(2));
    assert_eq!(connect_retry_decision(3), None);
    assert_eq!(reconnect_round_decision(0), Some(2));
    assert_eq!(reconnect_round_decision(6), Some(8));
    assert_eq!(reconnect_round_decision(7), None);
}

#[test]
fn bounded_connect_policy() {
    assert_eq!(CONNECT_ATTEMPTS, 3);
    assert_eq!(CONNECT_TIMEOUT_SECS, 5);
    assert_eq!(CONNECT_RETRY_DELAY_SECS, 2);
    assert_eq!(RECONNECT_BASE_DELAY_SECS, 2);

    let attempts = vec![Err(dead_error()), Ok(()), Ok(())];
    let (r, used) = connect_with_retry(&attempts);
    assert!(r.is_ok());
    assert_eq!(used, 2);

    let attempts = vec![
        Err(dead_error()),
        Err(dead_error()),
        Err(ErrorShape::Other { message: String::from("last error") }),
    ];
    let (r, used) = connect_with_retry(&attempts);
    assert_eq!(used, 3);
    match r {
        Err(ErrorShape::Other { message }) => assert_eq!(message, "last error"),
        other => panic!("unexpected outcome: {:?}", other),
    }
}

#[test]
fn commands_complete_strictly_in_send_order() {
    let mut s = fresh();
    let q = plain_query(QueryType::Run);
    let mut inbox = vec![
        (ConnMessage::Connect(true), DriverEvent::Connected(Ok(()))),
        (ConnMessage::Ping(true), DriverEvent::Pinged(Ok(9))),
        (
            ConnMessage::Query(q),
            DriverEvent::Executed(
                Ok(DriverSuccess::Info { rows_affected: 1, last_insert_id: 5 }),
                true,
            ),
        ),
        (ConnMessage::Disconnect(false), DriverEvent::Closed(Ok(()))),
        (ConnMessage::Close, DriverEvent::Nothing),
        (ConnMessage::Ping(true), DriverEvent::Pinged(Ok(9))),
    ];
    let log = handle_messages(&mut s, &mut inbox);
    assert_eq!(log.len(), 4);
    for (i, c) in log.iter().enumerate() {
        assert_eq!(c.index, i);
    }
    assert_eq!(log[0].deliveries, vec![Delivery::Connect(None)]);
    assert_eq!(log[1].deliveries, vec![Delivery::Ping(Ok(9))]);
    assert_eq!(log[3].deliveries, Vec::new());
    assert_eq!(s.state(), State::Disconnected);
    // nothing is drained past the sentinel
    assert_eq!(inbox.len(), 1);
}

#[test]
fn the_dispatcher_routes_each_command() {
    let mut s = fresh();
    let out = handle_message(&mut s, ConnMessage::Connect(false), DriverEvent::Connected(Ok(())));
    assert!(!out.exit);
    assert!(!out.reconnect);
    assert_eq!(s.state(), State::Connected);

    let out = handle_message(&mut s, ConnMessage::Close, DriverEvent::Nothing);
    assert!(out.exit);
    assert_eq!(s.state(), State::Connected);
}

#[test]
fn a_session_describes_itself() {
    let s = connected();
    assert_eq!(
        s.describe("db.example", 3307),
        "Goobie MySQL Connection [ID: 1 | IP: db.example | Port: 3307 | State: Connected]"
    );
}

#[test]
fn open_validates_the_configuration() {
    let input = goobie_mysql::options::OptionsInput {
        uri: None,
        host: Some(String::from("localhost")),
        hostname: None,
        user: None,
        username: None,
        database: Some(String::from("game")),
        db: None,
        password: None,
        pass: None,
        charset: None,
        collation: None,
        timezone: None,
        socket: None,
        port: None,
        statement_cache_capacity: None,
    };
    let (s, o) = open(&input).unwrap();
    assert_eq!(s.state(), State::NotConnected);
    assert_eq!(s.id(), 0);
    assert_eq!(o.database, Some(String::from("game")));

    let mut bad = input.clone();
    bad.database = None;
    assert_eq!(open(&bad).unwrap_err(), "Database name is required!");
}
