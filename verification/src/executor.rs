//! Shapes the driver's report of one executed command into the typed
//! result stored on the query.

use vstd::prelude::*;
use crate::error::{ErrorShape, ErrorShapeView};
use crate::query::QueryType;
use crate::result::{
    spec_row_wf, spec_rows_wf, spec_convert_row, spec_convert_rows, convert_row, convert_rows,
    QueryResult, QueryResultView, RawColumn,
};

verus! {

/// What the driver reports when a command's wire work succeeds: execution
/// metadata for a plain execution, the raw rows for a fetch of all rows,
/// or at most one raw row for a fetch of one.
pub enum DriverSuccess {
    Info { rows_affected: u64, last_insert_id: u64 },
    Rows(Vec<Vec<RawColumn>>),
    Row(Option<Vec<RawColumn>>),
}

/// The driver's report fits the query kind, and every reported cell agrees
/// with its column's declared type.
pub open spec fn success_matches(qtype: QueryType, s: DriverSuccess) -> bool {
    match qtype {
        QueryType::Run => s is Info,
        QueryType::Execute => s is Info,
        QueryType::FetchAll => s matches DriverSuccess::Rows(rows) && spec_rows_wf(rows@),
        QueryType::FetchOne => s matches DriverSuccess::Row(opt) && (opt matches Some(row)
            ==> spec_row_wf(row@)),
    }
}

/// The view of a stored execution result.
pub open spec fn result_view(r: Result<QueryResult, ErrorShape>) -> Result<
    QueryResultView,
    ErrorShapeView,
> {
    match r {
        Ok(qr) => Ok(qr@),
        Err(e) => Err(e@),
    }
}

/// What executing one command yields from the driver's report: a failure
/// passes through untouched for classification; a success is shaped by the
/// query kind, with fetched rows run through the row conversion. Zero
/// matching rows are a success — an empty sequence, or no row at all —
/// never an error.
pub open spec fn spec_execute(qtype: QueryType, outcome: Result<DriverSuccess, ErrorShape>) -> Result<
    QueryResultView,
    ErrorShapeView,
> {
    match outcome {
        Err(e) => Err(e@),
        Ok(s) => Ok(
            match qtype {
                QueryType::Run => QueryResultView::Run,
                QueryType::Execute => match s {
                    DriverSuccess::Info { rows_affected, last_insert_id } => {
                        QueryResultView::Execute { rows_affected, last_insert_id }
                    },
                    _ => QueryResultView::Run,
                },
                QueryType::FetchAll => match s {
                    DriverSuccess::Rows(rows) => QueryResultView::Rows(spec_convert_rows(rows@)),
                    _ => QueryResultView::Run,
                },
                QueryType::FetchOne => match s {
                    DriverSuccess::Row(opt) => QueryResultView::Row(
                        match opt {
                            None => Ok(None),
                            Some(row) => match spec_convert_row(row@) {
                                Ok(vals) => Ok(Some(vals)),
                                Err(m) => Err(m),
                            },
                        },
                    ),
                    _ => QueryResultView::Run,
                },
            },
        ),
    }
}

/// Dispatches one driver report by query kind, exact against
/// [`spec_execute`].
pub fn execute_query(qtype: QueryType, outcome: Result<DriverSuccess, ErrorShape>) -> (r: Result<
    QueryResult,
    ErrorShape,
>)
    requires
        outcome matches Ok(s) ==> success_matches(qtype, s),
    ensures
        result_view(r) == spec_execute(qtype, outcome),
{
    match outcome {
        Err(e) => Err(e),
        Ok(s) => match qtype {
            QueryType::Run => Ok(QueryResult::Run),
            QueryType::Execute => match s {
                DriverSuccess::Info { rows_affected, last_insert_id } => Ok(
                    QueryResult::Execute { rows_affected, last_insert_id },
                ),
                _ => {
                    proof {
                        assert(false);
                    }
                    Ok(QueryResult::Run)
                },
            },
            QueryType::FetchAll => match s {
                DriverSuccess::Rows(rows) => Ok(QueryResult::Rows(convert_rows(&rows))),
                _ => {
                    proof {
                        assert(false);
                    }
                    Ok(QueryResult::Run)
                },
            },
            QueryType::FetchOne => match s {
                DriverSuccess::Row(None) => Ok(QueryResult::Row(Ok(None))),
                DriverSuccess::Row(Some(row)) => match convert_row(&row) {
                    Ok(vals) => Ok(QueryResult::Row(Ok(Some(vals)))),
                    Err(m) => Ok(QueryResult::Row(Err(m))),
                },
                _ => {
                    proof {
                        assert(false);
                    }
                    Ok(QueryResult::Run)
                },
            },
        },
    }
}

} // verus!
