//! The query string as an ordered list of key-value pairs.
//!
//! The filter's decisions are made over this list: the first value under the
//! configured key selects the override, and a successful rewrite removes
//! every pair under that key while keeping all other pairs in their original
//! relative order.
//!
//! Parsing a raw query string into pairs, and writing pairs back out, is the
//! work of the `qstring` crate behind two trusted wrappers; everything done
//! with the pairs in between is verified.

use vstd::prelude::*;
use vstd::string::StringExecFns;

verus! {

/// The first value stored under `key`, if any pair carries that key.
pub open spec fn lookup_first(
    pairs: Seq<(Seq<char>, Seq<char>)>,
    key: Seq<char>,
) -> Option<Seq<char>>
    decreases pairs.len(),
{
    if pairs.len() == 0 {
        None
    } else if pairs[0].0 == key {
        Some(pairs[0].1)
    } else {
        lookup_first(pairs.drop_first(), key)
    }
}

/// The pairs with every pair keyed `key` removed, all others kept in their
/// original relative order.
pub open spec fn without_key(
    pairs: Seq<(Seq<char>, Seq<char>)>,
    key: Seq<char>,
) -> Seq<(Seq<char>, Seq<char>)>
    decreases pairs.len(),
{
    if pairs.len() == 0 {
        Seq::empty()
    } else {
        let rest = without_key(pairs.drop_last(), key);
        if pairs.last().0 == key {
            rest
        } else {
            rest.push(pairs.last())
        }
    }
}

/// `lookup_first` walks the pairs front to back: skipping a prefix in which
/// no pair carries `key` does not change the result.
proof fn lemma_lookup_skip(pairs: Seq<(Seq<char>, Seq<char>)>, key: Seq<char>, i: int)
    requires
        0 <= i <= pairs.len(),
        forall|j: int| 0 <= j < i ==> (#[trigger] pairs[j]).0 != key,
    ensures
        lookup_first(pairs, key) == lookup_first(pairs.skip(i), key),
    decreases i,
{
    if i > 0 {
        assert(pairs[0].0 != key);
        let rest = pairs.drop_first();
        assert(forall|j: int| 0 <= j < i - 1 ==> (#[trigger] rest[j]).0 != key) by {
            assert(forall|j: int| 0 <= j < i - 1 ==> rest[j] == pairs[j + 1]);
        }
        lemma_lookup_skip(rest, key, i - 1);
        assert(rest.skip(i - 1) =~= pairs.skip(i));
    } else {
        assert(pairs.skip(0) =~= pairs);
    }
}

/// If no pair carries `key`, the lookup finds nothing.
pub proof fn lemma_lookup_none(pairs: Seq<(Seq<char>, Seq<char>)>, key: Seq<char>)
    requires
        forall|j: int| 0 <= j < pairs.len() ==> (#[trigger] pairs[j]).0 != key,
    ensures
        lookup_first(pairs, key) is None,
{
    lemma_lookup_skip(pairs, key, pairs.len() as int);
    assert(pairs.skip(pairs.len() as int) =~= Seq::empty());
}

/// Find the first value stored under `key` in `query`.
pub fn first_value(query: &Vec<(String, String)>, key: &String) -> (r: Option<String>)
    ensures
        match r {
            None => lookup_first(query.deep_view(), key@) is None,
            Some(v) => lookup_first(query.deep_view(), key@) == Some(v@),
        },
{
    let ghost qs = query.deep_view();
    let mut i: usize = 0;
    while i < query.len()
        invariant
            qs == query.deep_view(),
            qs.len() == query@.len(),
            i <= query@.len(),
            forall|j: int| 0 <= j < i ==> (#[trigger] qs[j]).0 != key@,
        decreases query@.len() - i,
    {
        if crate::token::str_eq(query[i].0.as_str(), key.as_str()) {
            proof {
                lemma_lookup_skip(qs, key@, i as int);
                assert(qs.skip(i as int)[0] == qs[i as int]);
            }
            return Some(query[i].1.clone());
        }
        i = i + 1;
    }
    proof {
        lemma_lookup_none(qs, key@);
    }
    None
}

/// Copy `query` leaving out every pair keyed `key`.
pub fn remove_key(query: &Vec<(String, String)>, key: &String) -> (r: Vec<(String, String)>)
    ensures
        r.deep_view() == without_key(query.deep_view(), key@),
{
    let ghost qs = query.deep_view();
    let mut out: Vec<(String, String)> = Vec::new();
    let mut i: usize = 0;
    while i < query.len()
        invariant
            qs == query.deep_view(),
            qs.len() == query@.len(),
            i <= query@.len(),
            out.deep_view() == without_key(qs.take(i as int), key@),
        decreases query@.len() - i,
    {
        let ghost prefix = qs.take(i as int);
        let ghost next = qs.take(i + 1);
        proof {
            assert(next.drop_last() =~= prefix);
            assert(next.last() == qs[i as int]);
        }
        if crate::token::str_eq(query[i].0.as_str(), key.as_str()) {
            proof {
                assert(without_key(next, key@) == without_key(prefix, key@));
            }
        } else {
            out.push((query[i].0.clone(), query[i].1.clone()));
            proof {
                assert(out.deep_view() =~= without_key(prefix, key@).push(qs[i as int]));
                assert(without_key(next, key@) == without_key(prefix, key@).push(next.last()));
            }
        }
        i = i + 1;
    }
    proof {
        assert(qs.take(qs.len() as int) =~= qs);
    }
    out
}

/// The pairs that parsing a raw query string yields: the name stands for the
/// behaviour of `qstring::QString::from`, a pure function of the raw string.
pub uninterp spec fn parsed_query(raw: Seq<char>) -> Seq<(Seq<char>, Seq<char>)>;

/// The raw query string that writing a list of pairs yields: the name stands
/// for the behaviour of `qstring::QString`'s `Display`, a pure function of
/// the pairs.
pub uninterp spec fn encoded_query(pairs: Seq<(Seq<char>, Seq<char>)>) -> Seq<char>;

/// Relies on `qstring::QString::from` and `into_pairs`: parsing a raw query
/// string (with or without a leading `?`) into its ordered key-value pairs,
/// percent-decoding each component; the result depends on the raw string
/// alone. The parser slices the string byte by byte and can panic on a
/// multi-byte character, so only ASCII input is admitted — all a transport
/// layer ever hands over, since a request target is ASCII on the wire.
#[verifier::external_body]
pub(crate) fn parse_query_pairs(raw: &str) -> (r: Vec<(String, String)>)
    requires
        raw.is_ascii(),
    ensures
        r.deep_view() == parsed_query(raw@),
{
    qstring::QString::from(raw).into_pairs()
}

/// Relies on `qstring::QString`'s `Display`: writing the pairs as
/// `k=v&k2=v2`, percent-encoding each component; the result depends on the
/// pairs alone.
#[verifier::external_body]
pub(crate) fn encode_query_pairs(pairs: &Vec<(String, String)>) -> (r: String)
    ensures
        r@ == encoded_query(pairs.deep_view()),
{
    qstring::QString::new(pairs.clone()).to_string()
}

/// Rebuild the request target from the path and the remaining query pairs:
/// the path alone when no pair is left, otherwise the path, a `?`, and the
/// encoded pairs.
pub fn rewritten_path_and_query(path: &str, query: &Vec<(String, String)>) -> (r: String)
    ensures
        query.deep_view().len() == 0 ==> r@ == path@,
        query.deep_view().len() > 0 ==> r@ == path@ + "?"@ + encoded_query(query.deep_view()),
{
    if query.len() == 0 {
        path.to_owned()
    } else {
        let encoded = encode_query_pairs(query);
        let r = String::from_str(path).concat("?").concat(encoded.as_str());
        proof {
            assert(r@ =~= path@ + "?"@ + encoded_query(query.deep_view()));
        }
        r
    }
}

} // verus!
