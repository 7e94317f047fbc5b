//! Queries as commands: their kind, their positionally bound parameters,
//! and their construction from what the host hands over.

use vstd::prelude::*;
use crate::error::ErrorShape;
use crate::result::QueryResult;
use crate::text::{spec_dec, u64_to_dec};

verus! {

/// How a query's result is to be shaped.
#[derive(Clone, Copy, Debug, PartialEq, Eq, Structural)]
pub enum QueryType {
    Run,
    Execute,
    FetchOne,
    FetchAll,
}

/// One bound statement parameter. Numbers are carried as the IEEE 754 bit
/// pattern of the host's numeric value; strings are byte strings.
#[derive(Clone, Debug, PartialEq, Eq)]
pub enum Param {
    Number(u64),
    String(Vec<u8>),
    Bool(bool),
}

/// The mathematical value of a [`Param`].
pub enum ParamView {
    Number(u64),
    String(Seq<u8>),
    Bool(bool),
}

impl View for Param {
    type V = ParamView;

    open spec fn view(&self) -> ParamView {
        match self {
            Param::Number(n) => ParamView::Number(*n),
            Param::String(s) => ParamView::String(s@),
            Param::Bool(b) => ParamView::Bool(*b),
        }
    }
}

/// One scalar as the host hands it over for binding: a boolean, a number
/// (as its bit pattern), a byte string, or any other host kind, carried
/// with that kind's name for the failure message.
#[derive(Clone, Debug, PartialEq, Eq)]
pub enum HostValue {
    Bool(bool),
    Number(u64),
    String(Vec<u8>),
    Other { kind_name: String },
}

/// The mathematical value of a [`HostValue`].
pub enum HostValueView {
    Bool(bool),
    Number(u64),
    String(Seq<u8>),
    Other { kind_name: Seq<char> },
}

impl View for HostValue {
    type V = HostValueView;

    open spec fn view(&self) -> HostValueView {
        match self {
            HostValue::Bool(b) => HostValueView::Bool(*b),
            HostValue::Number(n) => HostValueView::Number(*n),
            HostValue::String(s) => HostValueView::String(s@),
            HostValue::Other { kind_name } => HostValueView::Other { kind_name: kind_name@ },
        }
    }
}

/// The parameter a bindable host scalar maps to (immaterial for `Other`).
pub open spec fn spec_param_of(v: HostValueView) -> ParamView {
    match v {
        HostValueView::Bool(b) => ParamView::Bool(b),
        HostValueView::Number(n) => ParamView::Number(n),
        HostValueView::String(s) => ParamView::String(s),
        HostValueView::Other { .. } => ParamView::Bool(false),
    }
}

/// Some handed-over scalar is of a kind that cannot be bound.
pub open spec fn spec_params_have_error(vals: Seq<HostValue>) -> bool {
    exists|i: int| 0 <= i < vals.len() && (#[trigger] vals[i])@ is Other
}

/// The failure message for the first unbindable scalar, counting positions
/// from `pos` (the host counts from one).
pub open spec fn spec_params_error_msg(vals: Seq<HostValue>, pos: nat) -> Seq<char>
    decreases vals.len(),
{
    if vals.len() == 0 {
        Seq::empty()
    } else if vals[0]@ is Other {
        "unsupported parameter type "@ + spec_dec(pos) + ": "@ + vals[0]@->kind_name
    } else {
        spec_params_error_msg(vals.subrange(1, vals.len() as int), pos + 1)
    }
}

proof fn lemma_params_error_msg_at(vals: Seq<HostValue>, pos: nat, i: int)
    requires
        0 <= i < vals.len(),
        forall|j: int| 0 <= j < i ==> !((#[trigger] vals[j])@ is Other),
        vals[i]@ is Other,
    ensures
        spec_params_error_msg(vals, pos) == "unsupported parameter type "@ + spec_dec((pos + i) as nat)
            + ": "@ + vals[i]@->kind_name,
    decreases i,
{
    if i == 0 {
    } else {
        let tail = vals.subrange(1, vals.len() as int);
        assert(forall|j: int| 0 <= j < i - 1 ==> !((#[trigger] tail[j])@ is Other)) by {
            assert(forall|j: int| 0 <= j < i - 1 ==> tail[j] == vals[j + 1]);
        }
        assert(tail[i - 1] == vals[i]);
        lemma_params_error_msg_at(tail, pos + 1, i - 1);
    }
}

/// Turns the host's ordered list of scalars into bound parameters, in
/// declaration order; the first scalar of an unbindable kind fails the
/// whole list, naming its one-based position and its kind.
pub fn parse_params(values: &Vec<HostValue>) -> (r: Result<Vec<Param>, String>)
    ensures
        match r {
            Ok(out) => !spec_params_have_error(values@) && out@.len() == values@.len() && forall|
                i: int,
            | 0 <= i < values@.len() ==> (#[trigger] out@[i])@ == spec_param_of(values@[i]@),
            Err(m) => spec_params_have_error(values@) && m@ == spec_params_error_msg(values@, 1),
        },
{
    let mut out: Vec<Param> = Vec::new();
    let mut i: usize = 0;
    while i < values.len()
        invariant
            i <= values@.len(),
            out@.len() == i,
            forall|j: int| 0 <= j < i ==> !((#[trigger] values@[j])@ is Other),
            forall|j: int| 0 <= j < i ==> (#[trigger] out@[j])@ == spec_param_of(values@[j]@),
        decreases values@.len() - i,
    {
        match &values[i] {
            HostValue::Bool(b) => {
                out.push(Param::Bool(*b));
            },
            HostValue::Number(n) => {
                out.push(Param::Number(*n));
            },
            HostValue::String(s) => {
                out.push(Param::String(crate::result::clone_bytes(s)));
            },
            HostValue::Other { kind_name } => {
                let mut m = "unsupported parameter type ".to_owned();
                let pos = u64_to_dec((i as u64) + 1);
                m.append(pos.as_str());
                m.append(": ");
                m.append(kind_name.as_str());
                proof {
                    lemma_params_error_msg_at(values@, 1, i as int);
                }
                return Err(m);
            },
        }
        i += 1;
    }
    Ok(out)
}

/// The options a query is issued with: raw mode, whether a result callback
/// was registered, the opaque trace token, and the parameters to bind.
#[derive(Debug)]
pub struct QueryOpts {
    pub raw: Option<bool>,
    pub has_callback: bool,
    pub trace: Option<String>,
    pub params: Option<Vec<HostValue>>,
}

/// One query command: its text, its kind, its bound parameters, which
/// callbacks are registered, and the stored result once it has run.
#[derive(Debug)]
pub struct Query {
    pub query: String,
    pub qtype: QueryType,
    pub params: Vec<Param>,
    pub has_callback: bool,
    pub has_on_error: bool,
    pub raw: bool,
    pub result: Result<QueryResult, ErrorShape>,
    pub trace: Option<String>,
}

/// The mathematical value of a [`Query`].
pub struct QueryView {
    pub query: Seq<char>,
    pub qtype: QueryType,
    pub params: Seq<ParamView>,
    pub has_callback: bool,
    pub has_on_error: bool,
    pub raw: bool,
    pub result: Result<crate::result::QueryResultView, crate::error::ErrorShapeView>,
    pub trace: Option<Seq<char>>,
}

impl View for Query {
    type V = QueryView;

    open spec fn view(&self) -> QueryView {
        QueryView {
            query: self.query@,
            qtype: self.qtype,
            params: self.params@.map_values(|p: Param| p@),
            has_callback: self.has_callback,
            has_on_error: self.has_on_error,
            raw: self.raw,
            result: match &self.result {
                Ok(qr) => Ok(qr@),
                Err(e) => Err(e@),
            },
            trace: crate::error::opt_view(self.trace),
        }
    }
}

impl Query {
    /// Builds a query command from the host's inputs. Defaults: not raw, no
    /// callback, no trace, no parameters, and a placeholder success as the
    /// stored result. The only way construction fails is an unbindable
    /// parameter, with [`parse_params`]'s message.
    pub fn new(query: String, qtype: QueryType, has_on_error: bool, opts: Option<QueryOpts>) -> (r:
        Result<Query, String>)
        ensures
            match r {
                Ok(q) => {
                    &&& q.query@ == query@
                    &&& q.qtype == qtype
                    &&& q.has_on_error == has_on_error
                    &&& q@.result == Ok::<crate::result::QueryResultView,
                        crate::error::ErrorShapeView>(crate::result::QueryResultView::Run)
                    &&& match opts {
                        None => !q.has_callback && q.raw == false && q@.trace is None
                            && q.params@.len() == 0,
                        Some(o) => {
                            &&& q.has_callback == o.has_callback
                            &&& q.raw == (match o.raw {
                                Some(b) => b,
                                None => false,
                            })
                            &&& q@.trace == crate::error::opt_view(o.trace)
                            &&& match o.params {
                                None => q.params@.len() == 0,
                                Some(vals) => !spec_params_have_error(vals@) && q.params@.len()
                                    == vals@.len() && forall|i: int|
                                    0 <= i < vals@.len() ==> (#[trigger] q.params@[i])@
                                        == spec_param_of(vals@[i]@),
                            }
                        },
                    }
                },
                Err(m) => {
                    &&& opts matches Some(o)
                    &&& o.params matches Some(vals)
                    &&& spec_params_have_error(vals@)
                    &&& m@ == spec_params_error_msg(vals@, 1)
                },
            },
    {
        let mut this = Query {
            query,
            qtype,
            params: Vec::new(),
            has_callback: false,
            has_on_error,
            raw: false,
            result: Ok(QueryResult::Run),
            trace: None,
        };
        if let Some(o) = opts {
            this.raw = match o.raw {
                Some(b) => b,
                None => false,
            };
            this.has_callback = o.has_callback;
            this.trace = o.trace;
            if let Some(vals) = o.params {
                match parse_params(&vals) {
                    Ok(ps) => {
                        this.params = ps;
                    },
                    Err(m) => {
                        return Err(m);
                    },
                }
            }
        }
        Ok(this)
    }
}

} // verus!
