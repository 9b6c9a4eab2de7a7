//! Reading the readiness token out of the side-channel auth file's text.
use vstd::prelude::*;

use crate::text::{
    chars_of, contains_seq, find_char, find_char_from, find_seq, find_seq_from, occurs_at, string_of, value_or,
};

verus! {

/// Home directory used when none is set.
pub const DEFAULT_HOME: &'static str = "/tmp";

/// Where the auth file lies below the home directory.
pub const AUTH_FILE_SUFFIX: &'static str = "/.terminai/web-remote-auth.json";

/// The path of the auth file for the home directory `home`, or for the
/// default one where none is set.
pub fn auth_file_path(home: Option<String>) -> (r: String)
    ensures
        r@ == match home {
            Some(h) => h@,
            None => DEFAULT_HOME@,
        } + AUTH_FILE_SUFFIX@,
{
    let mut r = value_or(home, DEFAULT_HOME);
    r.append(AUTH_FILE_SUFFIX);
    r
}

/// Why no token could be read.
#[derive(Debug, Clone, Copy, PartialEq, Eq, Structural)]
pub enum TokenError {
    /// The file was missing or unreadable, or lacked the `"token":` marker or
    /// the quotes around its value.
    TokenNotFound,
}

/// The key literal that introduces the token's value.
pub open spec fn token_marker() -> Seq<char> {
    seq!['"', 't', 'o', 'k', 'e', 'n', '"', ':']
}

/// The token named by `content`: after the first `"token":`, the text between
/// the next quote and the quote that follows it.
pub open spec fn token_of(content: Seq<char>) -> Option<Seq<char>> {
    match find_seq_from(content, token_marker(), 0) {
        Some(m) => match find_char_from(content, '"', m + token_marker().len()) {
            Some(open_q) => match find_char_from(content, '"', open_q + 1) {
                Some(close_q) => Some(content.subrange(open_q + 1, close_q)),
                None => None,
            },
            None => None,
        },
        None => None,
    }
}

/// Extracts the token from the auth file's text by a plain textual scan.
pub fn extract_token(content: &str) -> (r: Result<String, TokenError>)
    ensures
        match token_of(content@) {
            Some(t) => r matches Ok(s) && s@ == t,
            None => r == Err::<String, TokenError>(TokenError::TokenNotFound),
        },
{
    let s = chars_of(content);
    let marker_text = "\"token\":";
    proof {
        reveal_strlit("\"token\":");
    }
    let marker = chars_of(marker_text);
    assert(marker@ =~= token_marker());
    match find_seq(&s, &marker, 0) {
        Some(m) => {
            proof {
                crate::text::lemma_found_occurs(s@, marker@, 0);
                assert(find_seq_from(s@, marker@, 0) == Some(m as int));
                assert(occurs_at(s@, marker@, m as int));
                assert(m + marker@.len() <= s@.len());
            }
            let after = m + marker.len();
            match find_char(&s, '"', after) {
                Some(open_q) => {
                    assert(open_q < s.len()) by {
                        lemma_found_char_in_range(s@, '"', after as int);
                    }
                    match find_char(&s, '"', open_q + 1) {
                        Some(close_q) => {
                            proof {
                                lemma_found_char_in_range(s@, '"', open_q + 1);
                            }
                            Ok(string_of(&s, open_q + 1, close_q))
                        },
                        None => Err(TokenError::TokenNotFound),
                    }
                },
                None => Err(TokenError::TokenNotFound),
            }
        },
        None => Err(TokenError::TokenNotFound),
    }
}

/// For text of the shape `{"token":"<x>"` followed by anything, where `x`
/// holds no quote, the token read is exactly `x`.
pub proof fn lemma_token_of_well_formed(x: Seq<char>, rest: Seq<char>)
    requires
        forall|j: int| 0 <= j < x.len() ==> x[j] != '"',
    ensures
        token_of(seq!['{'] + token_marker() + seq!['"'] + x + seq!['"'] + rest) == Some(x),
{
    let c = seq!['{'] + token_marker() + seq!['"'] + x + seq!['"'] + rest;
    let m = token_marker();
    assert(c.subrange(0, 8)[0] == '{');
    assert(!occurs_at(c, m, 0));
    assert(c.subrange(1, 9) =~= m);
    assert(occurs_at(c, m, 1));
    assert(find_seq_from(c, m, 1) == Some(1int));
    assert(find_seq_from(c, m, 0) == Some(1int));
    assert(c[9] == '"');
    assert(find_char_from(c, '"', 9) == Some(9int));
    let close_q: int = 10 + x.len() as int;
    assert(c[close_q] == '"');
    assert forall|j: int| 10 <= j < close_q implies c[j] != '"' by {
        assert(c[j] == x[j - 10]);
    }
    lemma_find_char_skips(c, '"', 10, close_q);
    assert(c.subrange(10, close_q) =~= x);
}

/// Text without the `"token":` marker names no token, so extraction fails
/// with `TokenNotFound`.
pub proof fn lemma_no_marker_no_token(content: Seq<char>)
    requires
        !contains_seq(content, token_marker()),
    ensures
        token_of(content) is None,
{
    crate::text::lemma_found_occurs(content, token_marker(), 0);
    if let Some(i) = find_seq_from(content, token_marker(), 0) {
        assert(occurs_at(content, token_marker(), i));
    }
}

proof fn lemma_find_char_skips(s: Seq<char>, c: char, from: int, k: int)
    requires
        0 <= from <= k < s.len(),
        s[k] == c,
        forall|j: int| from <= j < k ==> s[j] != c,
    ensures
        find_char_from(s, c, from) == Some(k),
    decreases k - from,
{
    if from < k {
        lemma_find_char_skips(s, c, from + 1, k);
    }
}

proof fn lemma_found_char_in_range(s: Seq<char>, c: char, from: int)
    ensures
        find_char_from(s, c, from) matches Some(i) ==> from <= i < s.len() && s[i] == c,
    decreases s.len() - from,
{
    if !(from < 0 || from >= s.len()) && s[from] != c {
        lemma_found_char_in_range(s, c, from + 1);
    }
}

} // verus!
