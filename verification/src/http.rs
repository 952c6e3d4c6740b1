//! The replies of the HTTP interface.
use std::collections::HashMap;
use vstd::prelude::*;

use crate::query_engine::{CallResult, QueryEngine, QueryEngineError};

verus! {

/// An HTTP reply: its status, whether its body is JSON, and the body.
pub struct Reply {
    pub status: u16,
    pub json: bool,
    pub body: String,
}

/// A reply as plain values: status, whether JSON, body.
pub open spec fn reply_view(r: Reply) -> (u16, bool, Seq<char>) {
    (r.status, r.json, r.body@)
}

/// The reply that a call's result gets: the result as JSON with status 200,
/// a failure of the engine with 500, a function that does not exist with
/// 404; failures carry their message as the body.
pub open spec fn reply_of(result: CallResult) -> (u16, bool, Seq<char>) {
    match result {
        Ok(data) => (200u16, true, data@),
        Err((k, m)) => (if k == QueryEngineError::Generic {
            500u16
        } else {
            404u16
        }, false, m@),
    }
}

/// The reply to a query: the result as JSON with status 200, a failure of
/// the engine with 500, a function that does not exist with 404; failures
/// carry their message as the body.
pub fn query_reply(result: CallResult) -> (r: Reply)
    ensures
        result matches Ok(data) ==> (r.status == 200 && r.json && r.body@ == data@),
        result matches Err((k, m)) ==> (!r.json && r.body@ == m@ && r.status == (
        if k == QueryEngineError::Generic {
            500u16
        } else {
            404u16
        })),
        reply_view(r) == reply_of(result),
{
    match result {
        Ok(data) => Reply { status: 200, json: true, body: data },
        Err((QueryEngineError::Generic, e)) => Reply { status: 500, json: false, body: e },
        Err((QueryEngineError::NotFound, e)) => Reply { status: 404, json: false, body: e },
    }
}

/// Answers a query of function `name` with `args` on an engine, or reports
/// the engine missing as a failure of the engine.
pub fn query_call(
    query_engine: Result<QueryEngine, String>,
    name: String,
    args: HashMap<String, String>,
) -> (r: Reply)
    ensures
        query_engine matches Err(m) ==> (r.status == 500 && !r.json && r.body@ == m@),
        query_engine is Ok ==> exists|result: CallResult| reply_view(r) == #[trigger] reply_of(
            result,
        ),
{
    let result = match query_engine {
        Ok(engine) => engine.call(name, args),
        Err(e) => Err((QueryEngineError::Generic, e)),
    };
    query_reply(result)
}

} // verus!
