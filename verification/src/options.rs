//! Connection options: the immutable, validated configuration a session is
//! created with, resolved once from what the host hands over.

use vstd::prelude::*;
use crate::error::{clone_opt_string, opt_view};

verus! {

/// What the host hands over: every recognized key, each optional, with the
/// alternate spellings some keys allow. A connection URI, when given, seeds
/// everything and the explicit keys override it.
#[derive(Debug, Clone)]
pub struct OptionsInput {
    pub uri: Option<String>,
    pub host: Option<String>,
    pub hostname: Option<String>,
    pub user: Option<String>,
    pub username: Option<String>,
    pub database: Option<String>,
    pub db: Option<String>,
    pub password: Option<String>,
    pub pass: Option<String>,
    pub charset: Option<String>,
    pub collation: Option<String>,
    pub timezone: Option<String>,
    pub socket: Option<String>,
    pub port: Option<u16>,
    pub statement_cache_capacity: Option<usize>,
}

/// The resolved configuration a session consumes: one value per setting,
/// alternate spellings folded in, validated once at construction.
#[derive(Debug, Clone)]
pub struct ConnectionOptions {
    pub uri: Option<String>,
    pub host: Option<String>,
    pub user: Option<String>,
    pub database: Option<String>,
    pub password: Option<String>,
    pub charset: Option<String>,
    pub collation: Option<String>,
    pub timezone: Option<String>,
    pub socket: Option<String>,
    pub port: Option<u16>,
    pub statement_cache_capacity: Option<usize>,
}

/// The primary key's value, or the fallback spelling's where the primary is
/// absent.
pub open spec fn spec_pick(
    primary: Option<Seq<char>>,
    fallback: Option<Seq<char>>,
) -> Option<Seq<char>> {
    if primary is Some {
        primary
    } else {
        fallback
    }
}

/// What the database component of a connection URI resolves to: `None`
/// when the text is not a connection URI the driver accepts; otherwise the
/// database it names, if any.
pub uninterp spec fn spec_uri_database(uri: Seq<char>) -> Option<Option<Seq<char>>>;

/// Relies on the driver's connection-URI parser (sqlx's `FromStr` impl for
/// `MySqlConnectOptions`) and its `get_database` accessor: whether a URI
/// parses, and which database it names, are functions of the URI text
/// alone.
#[verifier::external_body]
fn uri_database(uri: &str) -> (r: Result<Option<String>, String>)
    ensures
        match r {
            Ok(db) => spec_uri_database(uri@) == Some(opt_view(db)),
            Err(_) => spec_uri_database(uri@) is None,
        },
{
    match uri.parse::<sqlx::mysql::MySqlConnectOptions>() {
        Ok(o) => Ok(o.get_database().map(|d| d.to_string())),
        Err(e) => Err(e.to_string()),
    }
}

/// The database the input resolves: the explicit key under either
/// spelling, or else the one its URI names.
pub open spec fn spec_database_of(i: OptionsInput) -> Option<Seq<char>> {
    match spec_pick(opt_view(i.database), opt_view(i.db)) {
        Some(d) => Some(d),
        None => match opt_view(i.uri) {
            Some(u) => match spec_uri_database(u) {
                Some(db) => db,
                None => None,
            },
            None => None,
        },
    }
}

/// The input's URI, when one is given, is a URI the driver accepts.
pub open spec fn spec_uri_ok(i: OptionsInput) -> bool {
    match opt_view(i.uri) {
        Some(u) => !(spec_uri_database(u) is None),
        None => true,
    }
}

/// The input resolves a non-empty database name.
pub open spec fn spec_has_database(i: OptionsInput) -> bool {
    spec_database_of(i) matches Some(d) && d.len() > 0
}

/// Picks the primary spelling over the fallback.
fn pick(primary: &Option<String>, fallback: &Option<String>) -> (r: Option<String>)
    ensures
        opt_view(r) == spec_pick(opt_view(*primary), opt_view(*fallback)),
{
    match primary {
        Some(s) => Some(s.clone()),
        None => clone_opt_string(fallback),
    }
}

/// Resolves and validates the host's keys into the session's
/// configuration: each setting takes its primary spelling and falls back
/// to the alternate one; the database falls further back to the one the
/// URI names. Construction fails with the driver's message when the URI
/// does not parse, and with its own message exactly when no non-empty
/// database name is resolved anywhere.
pub fn parse(input: &OptionsInput) -> (r: Result<ConnectionOptions, String>)
    ensures
        match r {
            Ok(o) => {
                &&& spec_uri_ok(*input)
                &&& spec_has_database(*input)
                &&& opt_view(o.uri) == opt_view(input.uri)
                &&& opt_view(o.host) == spec_pick(opt_view(input.host), opt_view(input.hostname))
                &&& opt_view(o.user) == spec_pick(opt_view(input.user), opt_view(input.username))
                &&& opt_view(o.database) == spec_database_of(*input)
                &&& opt_view(o.password) == spec_pick(
                    opt_view(input.password),
                    opt_view(input.pass),
                )
                &&& opt_view(o.charset) == opt_view(input.charset)
                &&& opt_view(o.collation) == opt_view(input.collation)
                &&& opt_view(o.timezone) == opt_view(input.timezone)
                &&& opt_view(o.socket) == opt_view(input.socket)
                &&& o.port == input.port
                &&& o.statement_cache_capacity == input.statement_cache_capacity
            },
            Err(m) => {
                &&& !(spec_uri_ok(*input) && spec_has_database(*input))
                &&& (spec_uri_ok(*input) ==> m@ == "Database name is required!"@)
            },
        },
{
    let uri_db: Option<String> = match &input.uri {
        Some(u) => match uri_database(u.as_str()) {
            Ok(db) => db,
            Err(m) => {
                return Err(m);
            },
        },
        None => None,
    };
    let database = match pick(&input.database, &input.db) {
        Some(d) => Some(d),
        None => uri_db,
    };
    let database_ok = match &database {
        Some(d) => d.unicode_len() > 0,
        None => false,
    };
    if !database_ok {
        return Err("Database name is required!".to_owned());
    }
    Ok(
        ConnectionOptions {
            uri: clone_opt_string(&input.uri),
            host: pick(&input.host, &input.hostname),
            user: pick(&input.user, &input.username),
            database,
            password: pick(&input.password, &input.pass),
            charset: clone_opt_string(&input.charset),
            collation: clone_opt_string(&input.collation),
            timezone: clone_opt_string(&input.timezone),
            socket: clone_opt_string(&input.socket),
            port: input.port,
            statement_cache_capacity: input.statement_cache_capacity,
        },
    )
}

} // verus!
