//! The filter evaluated over whole request scenarios.

use query_method::Outcome;
use query_method::QueryMethod;
use query_method::evaluate_query_string;
use query_method::rewritten_path_and_query;

fn rewritten(outcome: Outcome) -> (String, Vec<(String, String)>) {
    match outcome {
        Outcome::Rewritten { method, query } => (method, query),
        other => panic!("expected a rewrite, got {:?}", other),
    }
}

fn rejected(outcome: Outcome) -> (u16, String) {
    match outcome {
        Outcome::Rejected { status, message } => (status, message),
        other => panic!("expected a rejection, got {:?}", other),
    }
}

#[test]
fn test_post_rerouted() {
    let cfg = QueryMethod::new();
    let outcome = evaluate_query_string(&cfg, "POST", "_method=PUT");
    let (method, query) = rewritten(outcome);
    assert_eq!(method, "PUT", "POST request rerouted to PUT");
    assert!(query.is_empty());
    assert_eq!(rewritten_path_and_query("/", &query), "/");
}

#[test]
fn test_post_not_rerouted_with_query_missing() {
    let cfg = QueryMethod::new();
    let outcome = evaluate_query_string(&cfg, "POST", "");
    assert_eq!(outcome, Outcome::Unchanged, "not rerouted");
}

#[test]
fn test_post_not_rerouted_with_query_different() {
    let cfg = QueryMethod::new();
    // method instead of _method
    let outcome = evaluate_query_string(&cfg, "POST", "method=PUT");
    assert_eq!(outcome, Outcome::Unchanged, "not rerouted");
}

#[test]
fn test_get_request_not_rerouted() {
    let cfg = QueryMethod::new();
    let outcome = evaluate_query_string(&cfg, "GET", "_method=PUT");
    assert_eq!(outcome, Outcome::Unchanged, "not rerouted");
}

#[test]
fn test_get_request_failed_with_bad_method_value() {
    let cfg = QueryMethod::new();
    let outcome = evaluate_query_string(&cfg, "POST", "_method=NO:METHOD");
    let (status, _) = rejected(outcome);
    assert_eq!(status, 400, "Request failed due to bad method value");
}

#[test]
fn test_get_request_failed_in_strict_mode() {
    let cfg = QueryMethod::new().enable_strict_mode();
    let outcome = evaluate_query_string(&cfg, "GET", "_method=POST");
    let (status, _) = rejected(outcome);
    assert_eq!(status, 400, "Request failed in strict mode");
}

#[test]
fn test_post_rerouted_with_nondefault_parameter_name() {
    let cfg = QueryMethod::new().parameter_name("_my_hidden_method");
    let outcome = evaluate_query_string(&cfg, "POST", "_my_hidden_method=PUT");
    let (method, query) = rewritten(outcome);
    assert_eq!(method, "PUT", "POST request rerouted to PUT");
    assert!(query.is_empty());
}

#[test]
fn test_post_not_rerouted_with_nondefault_parameter_name_and_different_query() {
    let cfg = QueryMethod::new().parameter_name("_my_hidden_method");
    let outcome = evaluate_query_string(&cfg, "POST", "_some_other_method=PUT");
    assert_eq!(outcome, Outcome::Unchanged, "not rerouted");
}

#[test]
fn test_post_reroutes_with_custom_method() {
    let cfg = QueryMethod::new();
    let outcome = evaluate_query_string(&cfg, "POST", "_method=LIST");
    let (method, query) = rewritten(outcome);
    assert_eq!(method, "LIST", "POST request rerouted to LIST");
    assert!(query.is_empty());
}

#[test]
fn test_post_not_rerouted_with_bad_method_value() {
    let cfg = QueryMethod::new();
    let outcome = evaluate_query_string(&cfg, "POST", "_method=LIST:ITEMS");
    let (status, _) = rejected(outcome);
    assert_eq!(status, 400, "Bad method value is rejected");
}
