//! The decision procedure of the method-override filter.
//!
//! Given the configuration, the request's method and its query string, the
//! filter produces an [`Outcome`]: pass the request through untouched,
//! rewrite its method and query, or reject it with a 400 status. The whole
//! decision is pinned down by the spec function [`decision`], which every
//! evaluation is proved to satisfy.

use crate::config::QueryMethod;
use crate::query::lookup_first;
use crate::query::parsed_query;
use crate::query::without_key;
use crate::token::is_method_token;
use vstd::prelude::*;
use vstd::string::StringExecFns;

verus! {

/// What the filter decided for one request.
#[derive(Debug, PartialEq, Eq)]
pub enum Outcome {
    /// The request proceeds with its original method and its original,
    /// unfiltered query string.
    Unchanged,
    /// The request proceeds under `method`, with `query` (the original pairs
    /// minus every pair under the override key) as its query string.
    Rewritten { method: String, query: Vec<(String, String)> },
    /// The request is answered directly with `status` and the plain-text
    /// `message`; it never reaches a handler.
    Rejected { status: u16, message: String },
}

/// The body of the response rejecting a syntactically invalid method name.
pub open spec fn bad_value_message(value: Seq<char>) -> Seq<char> {
    "Method query parameter value "@ + value + " is bad"@
}

/// The body of the response rejecting, in strict mode, a non-`POST` request
/// that carries the override parameter.
pub open spec fn non_reroutable_message(method: Seq<char>) -> Seq<char> {
    "Method "@ + method + " can not be rerouted with a query parameter"@
}

/// The filter's whole contract: which outcome `r` is the right one for a
/// request with the given `method` and query `pairs`, under the parameter
/// name `name` and the `strict` setting.
///
/// The first value under `name` selects the override. Without it the request
/// passes through untouched. With it, a `POST` request is rewritten to the
/// named method when that is a valid method token — the new query keeps all
/// pairs except those under `name`, in their original order — and rejected
/// with a 400 otherwise. A non-`POST` request carrying the parameter passes
/// through untouched by default and is rejected with a 400 in strict mode.
pub open spec fn decision(
    name: Seq<char>,
    strict: bool,
    method: Seq<char>,
    pairs: Seq<(Seq<char>, Seq<char>)>,
    r: Outcome,
) -> bool {
    match lookup_first(pairs, name) {
        None => r == Outcome::Unchanged,
        Some(value) => if method == "POST"@ {
            if is_method_token(value) {
                &&& r matches Outcome::Rewritten { method: m, query: q }
                &&& m@ == value
                &&& q.deep_view() == without_key(pairs, name)
            } else {
                &&& r matches Outcome::Rejected { status, message }
                &&& status == 400u16
                &&& message@ == bad_value_message(value)
            }
        } else if strict {
            &&& r matches Outcome::Rejected { status, message }
            &&& status == 400u16
            &&& message@ == non_reroutable_message(method)
        } else {
            r == Outcome::Unchanged
        },
    }
}

/// Evaluate one request against the configuration, over the query string
/// already parsed into pairs.
pub fn evaluate(cfg: &QueryMethod, method: &str, query: &Vec<(String, String)>) -> (r: Outcome)
    ensures
        decision(cfg.spec_parameter_name(), cfg.spec_strict_mode(), method@, query.deep_view(), r),
{
    let found = crate::query::first_value(query, cfg.override_key());
    match found {
        None => Outcome::Unchanged,
        Some(value) => {
            if crate::token::str_eq(method, "POST") {
                if crate::token::is_valid_method_token(value.as_str()) {
                    let stripped = crate::query::remove_key(query, cfg.override_key());
                    Outcome::Rewritten { method: value, query: stripped }
                } else {
                    let msg = String::from_str("Method query parameter value ").concat(
                        value.as_str(),
                    ).concat(" is bad");
                    proof {
                        assert(msg@ =~= bad_value_message(value@));
                    }
                    Outcome::Rejected { status: 400, message: msg }
                }
            } else if cfg.strict() {
                let msg = String::from_str("Method ").concat(method).concat(
                    " can not be rerouted with a query parameter",
                );
                proof {
                    assert(msg@ =~= non_reroutable_message(method@));
                }
                Outcome::Rejected { status: 400, message: msg }
            } else {
                Outcome::Unchanged
            }
        },
    }
}

/// Evaluate one request against the configuration, from the raw query
/// string as the transport handed it over. A request target is ASCII on the
/// wire, and only ASCII input is admitted here: the query parser is not
/// defined beyond it.
pub fn evaluate_query_string(cfg: &QueryMethod, method: &str, raw_query: &str) -> (r: Outcome)
    requires
        raw_query.is_ascii(),
    ensures
        decision(
            cfg.spec_parameter_name(),
            cfg.spec_strict_mode(),
            method@,
            parsed_query(raw_query@),
            r,
        ),
{
    let pairs = crate::query::parse_query_pairs(raw_query);
    evaluate(cfg, method, &pairs)
}

/// The override parameter's first value in the raw query string, if any pair
/// carries the configured key: what a warning event about a suspicious
/// request (a non-`POST` request carrying the parameter) records, in either
/// mode.
pub fn override_value(cfg: &QueryMethod, raw_query: &str) -> (r: Option<String>)
    requires
        raw_query.is_ascii(),
    ensures
        match r {
            None => lookup_first(parsed_query(raw_query@), cfg.spec_parameter_name()) is None,
            Some(v) => lookup_first(parsed_query(raw_query@), cfg.spec_parameter_name()) == Some(
                v@,
            ),
        },
{
    let pairs = crate::query::parse_query_pairs(raw_query);
    crate::query::first_value(&pairs, cfg.override_key())
}

} // verus!
