//! The HTTP method-token grammar.
//!
//! A method name is a single run of token characters: letters, digits and the
//! punctuation listed in `is_token_char`, with no delimiters such as colons,
//! spaces or slashes. A deliberately unknown but well-formed verb (`LIST`) is
//! a valid token; `LIST:ITEMS` is not.

use vstd::prelude::*;
use vstd::string::StrSliceExecFns;

verus! {

/// Whether `c` may appear in an HTTP method token.
///
/// The set is: `!`, `*`, `+`, `-`, `.`, digits, ASCII letters, `^`, `_`,
/// backquote, `|` and `~`.
pub open spec fn is_token_char(c: char) -> bool {
    let u = c as u32;
    ||| u == 33  // '!'
    ||| u == 42  // '*'
    ||| u == 43  // '+'
    ||| u == 45  // '-'
    ||| u == 46  // '.'
    ||| (48 <= u && u <= 57)  // '0' ..= '9'
    ||| (65 <= u && u <= 90)  // 'A' ..= 'Z'
    ||| u == 94  // '^'
    ||| u == 95  // '_'
    ||| u == 96  // '`'
    ||| (97 <= u && u <= 122)  // 'a' ..= 'z'
    ||| u == 124  // '|'
    ||| u == 126  // '~'
}

/// Whether `s` is a syntactically valid HTTP method name: non-empty, and
/// every character is a token character.
pub open spec fn is_method_token(s: Seq<char>) -> bool {
    &&& s.len() > 0
    &&& forall|i: int| 0 <= i < s.len() ==> is_token_char(s[i])
}

/// Decide whether `s` is a syntactically valid HTTP method name.
pub fn is_valid_method_token(s: &str) -> (r: bool)
    ensures
        r == is_method_token(s@),
{
    let len = s.unicode_len();
    if len == 0 {
        return false;
    }
    let mut i: usize = 0;
    while i < len
        invariant
            len == s@.len(),
            i <= len,
            forall|j: int| 0 <= j < i ==> is_token_char(s@[j]),
        decreases len - i,
    {
        let c = s.get_char(i);
        if !token_char(c) {
            return false;
        }
        i = i + 1;
    }
    true
}

/// Decide `is_token_char` for a single character.
fn token_char(c: char) -> (r: bool)
    ensures
        r == is_token_char(c),
{
    let u = c as u32;
    u == 33 || u == 42 || u == 43 || u == 45 || u == 46 || (48 <= u && u <= 57) || (65 <= u
        && u <= 90) || u == 94 || u == 95 || u == 96 || (97 <= u && u <= 122) || u == 124 || u
        == 126
}

/// Compare two string slices; the result says whether their character
/// sequences are equal.
pub fn str_eq(a: &str, b: &str) -> (r: bool)
    ensures
        r == (a@ == b@),
{
    let alen = a.unicode_len();
    let blen = b.unicode_len();
    if alen != blen {
        return false;
    }
    let mut i: usize = 0;
    while i < alen
        invariant
            alen == a@.len(),
            blen == b@.len(),
            alen == blen,
            i <= alen,
            forall|j: int| 0 <= j < i ==> a@[j] == b@[j],
        decreases alen - i,
    {
        if a.get_char(i) != b.get_char(i) {
            proof {
                assert(a@[i as int] != b@[i as int]);
            }
            return false;
        }
        i = i + 1;
    }
    proof {
        assert(a@ =~= b@);
    }
    true
}

} // verus!
