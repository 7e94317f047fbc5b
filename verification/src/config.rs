//! Process-wide naming and timing constants, and the string helpers that
//! derive the global table name from a package version.

use vstd::prelude::*;
use crate::text::{spec_dec, u64_to_dec};

verus! {

/// How many worker threads the surrounding runtime is asked for.
pub const DEFAULT_WORKER_THREADS: u16 = 1;

/// How long, in seconds, a graceful shutdown may wait for pending work.
pub const DEFAULT_GRACEFUL_SHUTDOWN_TIMEOUT: u32 = 20;

/// The index of the first `.` in a string, or its length when it has none.
pub fn index_of_dot(s: &str) -> (r: usize)
    ensures
        r <= s@.len(),
        r < s@.len() ==> s@[r as int] == '.',
        forall|k: int| 0 <= k < r ==> s@[k] != '.',
{
    let len = s.unicode_len();
    let mut i: usize = 0;
    while i < len
        invariant
            len == s@.len(),
            i <= len,
            forall|k: int| 0 <= k < i ==> s@[k] != '.',
        decreases len - i,
    {
        if s.get_char(i) == '.' {
            return i;
        }
        i += 1;
    }
    len
}

/// The displayed version: a package version with its last two characters
/// removed.
pub fn version_tag(pkg_version: &str) -> (r: String)
    requires
        pkg_version@.len() >= 2,
    ensures
        r@ == pkg_version@.subrange(0, pkg_version@.len() - 2),
{
    let len = pkg_version.unicode_len();
    pkg_version.substring_char(0, len - 2).to_owned()
}

/// The major version: everything before the first `.` of a version string.
/// The result is characterized by its own length: it is a dot-free prefix,
/// and it is followed by a dot wherever the version goes on.
pub fn major_version(version: &str) -> (r: String)
    ensures
        r@.len() <= version@.len(),
        r@ == version@.subrange(0, r@.len() as int),
        forall|k: int| 0 <= k < r@.len() ==> version@[k] != '.',
        r@.len() < version@.len() ==> version@[r@.len() as int] == '.',
{
    let idx = index_of_dot(version);
    version.substring_char(0, idx).to_owned()
}

/// Every `.` replaced by `_`, character for character.
pub open spec fn spec_underscore(s: Seq<char>) -> Seq<char> {
    Seq::new(
        s.len(),
        |i: int|
            if s[i] == '.' {
                '_'
            } else {
                s[i]
            },
    )
}

/// Replaces each `.` with `_`, exact against [`spec_underscore`].
pub fn underscore_dots(s: &str) -> (r: String)
    ensures
        r@ == spec_underscore(s@),
{
    let len = s.unicode_len();
    let mut out = String::new();
    let mut i: usize = 0;
    while i < len
        invariant
            len == s@.len(),
            i <= len,
            out@.len() == i,
            forall|k: int| 0 <= k < i ==> out@[k] == spec_underscore(s@)[k],
        decreases len - i,
    {
        if s.get_char(i) == '.' {
            out.append("_");
            proof {
                reveal_strlit("_");
            }
        } else {
            out.append(s.substring_char(i, i + 1));
        }
        i += 1;
    }
    proof {
        assert(out@ =~= spec_underscore(s@));
    }
    out
}

/// The name of the global table this module registers itself under: a fixed
/// prefix followed by the version with dots replaced by underscores.
pub fn global_table_name(version: &str) -> (r: String)
    ensures
        r@ == "goobie_mysql_"@ + spec_underscore(version@),
{
    let mut out = "goobie_mysql_".to_owned();
    let suffix = underscore_dots(version);
    out.append(suffix.as_str());
    out
}

/// The prefix every host-observable notice carries.
pub fn notice_prefix(version: &str) -> (r: String)
    ensures
        r@ == "(Goobie MySQL v"@ + version@ + ") "@,
{
    let mut out = "(Goobie MySQL v".to_owned();
    out.append(version);
    out.append(") ");
    proof {
        assert(out@ =~= "(Goobie MySQL v"@ + version@ + ") "@);
    }
    out
}

/// A host-observable notice that names the host it concerns.
pub fn notice_with_host(version: &str, host: &str, message: &str) -> (r: String)
    ensures
        r@ == "(Goobie MySQL v"@ + version@ + ") |"@ + host@ + "| "@ + message@,
{
    let mut out = "(Goobie MySQL v".to_owned();
    out.append(version);
    out.append(") |");
    out.append(host);
    out.append("| ");
    out.append(message);
    proof {
        assert(out@ =~= "(Goobie MySQL v"@ + version@ + ") |"@ + host@ + "| "@ + message@);
    }
    out
}

/// The heartbeat period: half the server-side idle timeout, so a periodic
/// no-op ping always lands before the server gives the session up.
pub fn heartbeat_interval_secs() -> (r: u32)
    ensures
        r == crate::WAIT_TIMEOUT / 2,
{
    crate::WAIT_TIMEOUT / 2
}

/// The one administrative statement issued after every successful connect:
/// it extends the server-side idle timeout to [`crate::WAIT_TIMEOUT`].
pub fn init_statement() -> (r: String)
    ensures
        r@ == "SET SESSION wait_timeout = "@ + spec_dec(crate::WAIT_TIMEOUT as nat),
{
    let mut out = "SET SESSION wait_timeout = ".to_owned();
    let num = u64_to_dec(crate::WAIT_TIMEOUT as u64);
    out.append(num.as_str());
    out
}

} // verus!
