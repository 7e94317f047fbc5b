//! The shape of a failed operation, its classification into transient and
//! fatal, and the fields a failure carries back to the caller.

use vstd::prelude::*;
use crate::text::{spec_contains, str_contains};

verus! {

/// The view of an optional string.
pub open spec fn opt_view(o: Option<String>) -> Option<Seq<char>> {
    match o {
        Some(s) => Some(s@),
        None => None,
    }
}

/// Copies an optional string.
pub fn clone_opt_string(o: &Option<String>) -> (r: Option<String>)
    ensures
        opt_view(r) == opt_view(*o),
{
    match o {
        Some(s) => Some(s.clone()),
        None => None,
    }
}

/// The structured failure a caller receives: always a message and, when the
/// failure came from a structured server error, the vendor code and the
/// SQLSTATE.
#[derive(Clone, Debug, PartialEq, Eq)]
pub struct DbError {
    pub message: String,
    pub sqlstate: Option<String>,
    pub code: Option<u16>,
}

/// The mathematical value of a [`DbError`].
pub struct DbErrorView {
    pub message: Seq<char>,
    pub sqlstate: Option<Seq<char>>,
    pub code: Option<u16>,
}

impl View for DbError {
    type V = DbErrorView;

    open spec fn view(&self) -> DbErrorView {
        DbErrorView {
            message: self.message@,
            sqlstate: opt_view(self.sqlstate),
            code: self.code,
        }
    }
}

/// The transport error kinds the classification distinguishes. `Other`
/// stands for every remaining kind.
#[derive(Clone, Copy, Debug, PartialEq, Eq, Structural)]
pub enum IoKind {
    ConnectionRefused,
    ConnectionReset,
    ConnectionAborted,
    NotConnected,
    TimedOut,
    BrokenPipe,
    UnexpectedEof,
    Other,
}

/// What the session reads of a driver failure: the variant it came from and
/// the plain fields the logic consults. `message` is the rendered text of
/// the failure as the driver reports it.
#[derive(Debug, PartialEq, Eq)]
pub enum ErrorShape {
    /// A transport failure, with its error kind.
    Io { kind: IoKind, message: String },
    /// A secure-transport failure.
    Tls { message: String },
    /// A structured server-reported error with a vendor-specific code.
    MysqlDatabase { code: u16, sqlstate: Option<String>, message: String },
    /// Everything else: syntax errors, local failures, unstructured reports.
    Other { message: String },
}

/// The mathematical value of an [`ErrorShape`].
pub enum ErrorShapeView {
    Io { kind: IoKind, message: Seq<char> },
    Tls { message: Seq<char> },
    MysqlDatabase { code: u16, sqlstate: Option<Seq<char>>, message: Seq<char> },
    Other { message: Seq<char> },
}

impl View for ErrorShape {
    type V = ErrorShapeView;

    open spec fn view(&self) -> ErrorShapeView {
        match *self {
            ErrorShape::Io { kind, message } => ErrorShapeView::Io { kind, message: message@ },
            ErrorShape::Tls { message } => ErrorShapeView::Tls { message: message@ },
            ErrorShape::MysqlDatabase { code, sqlstate, message } => ErrorShapeView::MysqlDatabase {
                code,
                sqlstate: opt_view(sqlstate),
                message: message@,
            },
            ErrorShape::Other { message } => ErrorShapeView::Other { message: message@ },
        }
    }
}

impl ErrorShapeView {
    /// The rendered message of any shape.
    pub open spec fn message(self) -> Seq<char> {
        match self {
            ErrorShapeView::Io { message, .. } => message,
            ErrorShapeView::Tls { message } => message,
            ErrorShapeView::MysqlDatabase { message, .. } => message,
            ErrorShapeView::Other { message } => message,
        }
    }
}

/// A transport error kind that points at a lost connection.
pub open spec fn spec_transient_io(k: IoKind) -> bool {
    ||| k == IoKind::ConnectionRefused
    ||| k == IoKind::ConnectionReset
    ||| k == IoKind::ConnectionAborted
    ||| k == IoKind::NotConnected
    ||| k == IoKind::TimedOut
    ||| k == IoKind::BrokenPipe
    ||| k == IoKind::UnexpectedEof
}

/// A server-reported code of the client-side "gone away" class.
pub open spec fn spec_transient_code(code: u16) -> bool {
    code == 2002 || code == 2003 || code == 2006 || code == 2013 || code == 2055
}

/// The fixed classification of failures into transient (a lost connection,
/// eligible for the reconnect path) and fatal (surfaced as an ordinary
/// failure).
pub open spec fn spec_transient(e: ErrorShapeView) -> bool {
    match e {
        ErrorShapeView::Io { kind, .. } => spec_transient_io(kind),
        ErrorShapeView::Tls { message } => {
            ||| spec_contains(message, "handshake failed"@)
            ||| spec_contains(message, "connection closed"@)
            ||| spec_contains(message, "unexpected EOF"@)
        },
        ErrorShapeView::MysqlDatabase { code, .. } => spec_transient_code(code),
        ErrorShapeView::Other { .. } => false,
    }
}

/// Decides whether a failure is classified transient, exactly per
/// [`spec_transient`]: transport errors of a connection-loss kind,
/// secure-transport failures whose text names a broken session, and the
/// fixed set of server codes.
pub fn should_reconnect(e: &ErrorShape) -> (r: bool)
    ensures
        r == spec_transient(e@),
{
    match e {
        ErrorShape::Io { kind, .. } => match kind {
            IoKind::ConnectionRefused => true,
            IoKind::ConnectionReset => true,
            IoKind::ConnectionAborted => true,
            IoKind::NotConnected => true,
            IoKind::TimedOut => true,
            IoKind::BrokenPipe => true,
            IoKind::UnexpectedEof => true,
            IoKind::Other => false,
        },
        ErrorShape::Tls { message } => {
            str_contains(message.as_str(), "handshake failed") || str_contains(
                message.as_str(),
                "connection closed",
            ) || str_contains(message.as_str(), "unexpected EOF")
        },
        ErrorShape::MysqlDatabase { code, .. } => {
            *code == 2002 || *code == 2003 || *code == 2006 || *code == 2013 || *code == 2055
        },
        ErrorShape::Other { .. } => false,
    }
}

/// The failure value a shape turns into when it reaches the caller: the
/// message of any shape; the vendor code and the SQLSTATE only when the
/// server reported them.
pub open spec fn spec_error_fields(e: ErrorShapeView) -> DbErrorView {
    match e {
        ErrorShapeView::MysqlDatabase { code, sqlstate, message } => DbErrorView {
            message,
            sqlstate,
            code: Some(code),
        },
        _ => DbErrorView { message: e.message(), sqlstate: None, code: None },
    }
}

/// Builds the failure value delivered to the caller, exact against
/// [`spec_error_fields`].
pub fn to_error_fields(e: &ErrorShape) -> (r: DbError)
    ensures
        r@ == spec_error_fields(e@),
{
    match e {
        ErrorShape::MysqlDatabase { code, sqlstate, message } => {
            let ss = match sqlstate {
                Some(s) => Some(s.clone()),
                None => None,
            };
            DbError { message: message.clone(), sqlstate: ss, code: Some(*code) }
        },
        ErrorShape::Io { message, .. } => DbError {
            message: message.clone(),
            sqlstate: None,
            code: None,
        },
        ErrorShape::Tls { message } => DbError {
            message: message.clone(),
            sqlstate: None,
            code: None,
        },
        ErrorShape::Other { message } => DbError {
            message: message.clone(),
            sqlstate: None,
            code: None,
        },
    }
}

/// The failure reported when a command needs a live connection and none is
/// open.
pub open spec fn spec_not_open_error() -> DbErrorView {
    DbErrorView { message: "connection is not open"@, sqlstate: None, code: None }
}

/// Builds the "connection is not open" failure.
pub fn not_open_error() -> (r: DbError)
    ensures
        r@ == spec_not_open_error(),
{
    DbError { message: "connection is not open".to_owned(), sqlstate: None, code: None }
}

} // verus!
