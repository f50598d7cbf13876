//! A method-override filter for HTTP pipelines.
//!
//! Clients that can only issue `POST` requests (HTML forms, for instance) may
//! name the method they actually want in a query parameter such as
//! `/path?_method=PUT`. This library holds the decision procedure: given the
//! configuration, the request's method and its query string, it decides
//! whether the request passes through untouched, is rewritten to the named
//! method with the override parameter stripped from the query, or is rejected
//! with a 400 status.
//!
//! Only `POST` requests are ever rewritten; the override parameter on any
//! other method is either ignored (the default) or rejected (strict mode).

mod config;
mod filter;
mod laws;
mod query;
mod token;

pub use config::QueryMethod;
pub use filter::Outcome;
pub use filter::bad_value_message;
pub use filter::decision;
pub use filter::evaluate;
pub use filter::evaluate_query_string;
pub use filter::non_reroutable_message;
pub use filter::override_value;
pub use laws::lemma_absent_parameter_untouched;
pub use laws::lemma_default_name_inert;
pub use laws::lemma_non_post_lenient_untouched;
pub use laws::lemma_non_post_strict_rejected;
pub use laws::lemma_post_bad_value_rejected;
pub use laws::lemma_post_valid_token_rewritten;
pub use laws::lemma_without_key_clean;
pub use laws::lemma_without_key_is_filter;
pub use query::encoded_query;
pub use query::first_value;
pub use query::lemma_lookup_none;
pub use query::lookup_first;
pub use query::parsed_query;
pub use query::remove_key;
pub use query::rewritten_path_and_query;
pub use query::without_key;
pub use token::is_method_token;
pub use token::is_token_char;
pub use token::is_valid_method_token;
