use goobie_mysql::error::{not_open_error, should_reconnect, to_error_fields, ErrorShape, IoKind};

fn io(kind: IoKind) -> ErrorShape {
    ErrorShape::Io { kind, message: String::from("io failure") }
}

#[test]
fn transient_io_kinds_trigger_reconnect() {
    assert!(should_reconnect(&io(IoKind::ConnectionRefused)));
    assert!(should_reconnect(&io(IoKind::ConnectionReset)));
    assert!(should_reconnect(&io(IoKind::ConnectionAborted)));
    assert!(should_reconnect(&io(IoKind::NotConnected)));
    assert!(should_reconnect(&io(IoKind::TimedOut)));
    assert!(should_reconnect(&io(IoKind::BrokenPipe)));
    assert!(should_reconnect(&io(IoKind::UnexpectedEof)));
}

#[test]
fn other_io_kinds_do_not_trigger_reconnect() {
    assert!(!should_reconnect(&io(IoKind::Other)));
}

#[test]
fn tls_messages_naming_a_broken_session_are_transient() {
    let tls = |m: &str| ErrorShape::Tls { message: String::from(m) };
    assert!(should_reconnect(&tls("the handshake failed badly")));
    assert!(should_reconnect(&tls("connection closed by peer")));
    assert!(should_reconnect(&tls("got unexpected EOF")));
    assert!(!should_reconnect(&tls("certificate expired")));
    assert!(!should_reconnect(&tls("")));
}

#[test]
fn gone_away_codes_are_transient() {
    let db = |code: u16| ErrorShape::MysqlDatabase {
        code,
        sqlstate: None,
        message: String::from("server says no"),
    };
    assert!(should_reconnect(&db(2002)));
    assert!(should_reconnect(&db(2003)));
    assert!(should_reconnect(&db(2006)));
    assert!(should_reconnect(&db(2013)));
    assert!(should_reconnect(&db(2055)));
    assert!(!should_reconnect(&db(1064)));
    assert!(!should_reconnect(&db(0)));
    assert!(!should_reconnect(&db(2004)));
}

#[test]
fn unstructured_failures_are_never_transient() {
    let e = ErrorShape::Other { message: String::from("connection closed") };
    assert!(!should_reconnect(&e));
}

#[test]
fn mysql_errors_carry_code_and_sqlstate() {
    let e = ErrorShape::MysqlDatabase {
        code: 1062,
        sqlstate: Some(String::from("23000")),
        message: String::from("Duplicate entry"),
    };
    let f = to_error_fields(&e);
    assert_eq!(f.message, "Duplicate entry");
    assert_eq!(f.sqlstate, Some(String::from("23000")));
    assert_eq!(f.code, Some(1062));
}

#[test]
fn other_errors_carry_only_the_message() {
    let e = ErrorShape::Other { message: String::from("boom") };
    let f = to_error_fields(&e);
    assert_eq!(f.message, "boom");
    assert_eq!(f.sqlstate, None);
    assert_eq!(f.code, None);

    let e = ErrorShape::Io { kind: IoKind::TimedOut, message: String::from("timed out") };
    let f = to_error_fields(&e);
    assert_eq!(f.message, "timed out");
    assert_eq!(f.code, None);
}

#[test]
fn the_not_open_failure() {
    let f = not_open_error();
    assert_eq!(f.message, "connection is not open");
    assert_eq!(f.sqlstate, None);
    assert_eq!(f.code, None);
}
