//! The laws of the method-override filter, stated over the decision
//! contract and proved once for all requests.

use crate::filter::Outcome;
use crate::filter::bad_value_message;
use crate::filter::decision;
use crate::filter::non_reroutable_message;
use crate::query::lemma_lookup_none;
use crate::query::lookup_first;
use crate::query::without_key;
use crate::token::is_method_token;
use crate::token::is_token_char;
use vstd::prelude::*;

verus! {

/// Law: a request that does not carry the override parameter passes through
/// untouched — method and query string keep their original bytes — whatever
/// its method and whatever the mode.
pub proof fn lemma_absent_parameter_untouched(
    name: Seq<char>,
    strict: bool,
    method: Seq<char>,
    pairs: Seq<(Seq<char>, Seq<char>)>,
    r: Outcome,
)
    requires
        lookup_first(pairs, name) is None,
        decision(name, strict, method, pairs, r),
    ensures
        r == Outcome::Unchanged,
{
}

/// Law: a `POST` request whose override value is a valid method token is
/// rewritten to exactly that method, and its new query holds exactly the
/// original pairs minus every pair under the override key.
pub proof fn lemma_post_valid_token_rewritten(
    name: Seq<char>,
    strict: bool,
    method: Seq<char>,
    pairs: Seq<(Seq<char>, Seq<char>)>,
    value: Seq<char>,
    r: Outcome,
)
    requires
        method == "POST"@,
        lookup_first(pairs, name) == Some(value),
        is_method_token(value),
        decision(name, strict, method, pairs, r),
    ensures
        r matches Outcome::Rewritten { method: m, query: q } && m@ == value && q.deep_view()
            == without_key(pairs, name),
{
}

/// Law: a `POST` request whose override value holds a character outside the
/// method-token set (a colon, a space) is rejected with a 400 response and
/// is never forwarded.
pub proof fn lemma_post_bad_value_rejected(
    name: Seq<char>,
    strict: bool,
    method: Seq<char>,
    pairs: Seq<(Seq<char>, Seq<char>)>,
    value: Seq<char>,
    i: int,
    r: Outcome,
)
    requires
        method == "POST"@,
        lookup_first(pairs, name) == Some(value),
        0 <= i < value.len(),
        !is_token_char(value[i]),
        decision(name, strict, method, pairs, r),
    ensures
        r matches Outcome::Rejected { status, message } && status == 400 && message@
            == bad_value_message(value),
{
    assert(!is_method_token(value));
}

/// Law: outside strict mode, a non-`POST` request that carries the override
/// parameter passes through untouched — the parameter is left in place as
/// inert data.
pub proof fn lemma_non_post_lenient_untouched(
    name: Seq<char>,
    method: Seq<char>,
    pairs: Seq<(Seq<char>, Seq<char>)>,
    r: Outcome,
)
    requires
        method != "POST"@,
        lookup_first(pairs, name) is Some,
        decision(name, false, method, pairs, r),
    ensures
        r == Outcome::Unchanged,
{
}

/// Law: in strict mode, a non-`POST` request that carries the override
/// parameter is rejected with a 400 response naming the original method.
pub proof fn lemma_non_post_strict_rejected(
    name: Seq<char>,
    method: Seq<char>,
    pairs: Seq<(Seq<char>, Seq<char>)>,
    r: Outcome,
)
    requires
        method != "POST"@,
        lookup_first(pairs, name) is Some,
        decision(name, true, method, pairs, r),
    ensures
        r matches Outcome::Rejected { status, message } && status == 400 && message@
            == non_reroutable_message(method),
{
}

/// Law: under a parameter name other than the default `_method`, pairs under
/// the default name are ordinary data: a request whose query carries them,
/// but no pair under the configured name, passes through untouched.
pub proof fn lemma_default_name_inert(
    name: Seq<char>,
    strict: bool,
    method: Seq<char>,
    pairs: Seq<(Seq<char>, Seq<char>)>,
    r: Outcome,
)
    requires
        name != "_method"@,
        forall|j: int| 0 <= j < pairs.len() ==> (#[trigger] pairs[j]).0 != name,
        decision(name, strict, method, pairs, r),
    ensures
        r == Outcome::Unchanged,
{
    lemma_lookup_none(pairs, name);
}

/// Law: after a rewrite, no pair under the override key remains in the
/// query.
pub proof fn lemma_without_key_clean(pairs: Seq<(Seq<char>, Seq<char>)>, key: Seq<char>)
    ensures
        forall|i: int|
            0 <= i < without_key(pairs, key).len() ==> (#[trigger] without_key(pairs, key)[i]).0
                != key,
    decreases pairs.len(),
{
    if pairs.len() > 0 {
        lemma_without_key_clean(pairs.drop_last(), key);
        let rest = without_key(pairs.drop_last(), key);
        if pairs.last().0 == key {
            assert(without_key(pairs, key) == rest);
        } else {
            assert(without_key(pairs, key) == rest.push(pairs.last()));
            assert forall|i: int| 0 <= i < without_key(pairs, key).len() implies (
            #[trigger] without_key(pairs, key)[i]).0 != key by {
                if i < rest.len() {
                    assert(without_key(pairs, key)[i] == rest[i]);
                } else {
                    assert(without_key(pairs, key)[i] == pairs.last());
                }
            }
        }
    }
}

/// Law: removing the override key is exactly filtering the pairs on their
/// key — every other pair stays, in its original relative order.
pub proof fn lemma_without_key_is_filter(pairs: Seq<(Seq<char>, Seq<char>)>, key: Seq<char>)
    ensures
        without_key(pairs, key) == pairs.filter(
            |p: (Seq<char>, Seq<char>)| p.0 != key,
        ),
    decreases pairs.len(),
{
    reveal(Seq::filter);
    let pred = |p: (Seq<char>, Seq<char>)| p.0 != key;
    if pairs.len() == 0 {
        assert(pairs.filter(pred) == pairs);
        assert(pairs =~= Seq::<(Seq<char>, Seq<char>)>::empty());
    } else {
        lemma_without_key_is_filter(pairs.drop_last(), key);
        assert(pairs.filter(pred) == if pred(pairs.last()) {
            pairs.drop_last().filter(pred).push(pairs.last())
        } else {
            pairs.drop_last().filter(pred)
        });
    }
}

} // verus!
