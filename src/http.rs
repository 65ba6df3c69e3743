//! Decisions of the HTTP transport that depend on plain values only.
use vstd::prelude::*;
use vstd::string::*;
use crate::error::AgUiClientError;
use crate::text::push_char;

verus! {

/// The most characters of a response body that a status error carries.
pub const MAX_SNIPPET_CHARS: usize = 512;

/// A 2xx status.
pub fn status_is_success(status: u16) -> (r: bool)
    ensures
        r == (200 <= status && status <= 299),
{
    200 <= status && status <= 299
}

/// Only `http` and `https` base URLs are accepted.
pub fn supported_scheme(scheme: &str) -> (r: bool)
    ensures
        r == (scheme@ == seq!['h', 't', 't', 'p'] || scheme@ == seq!['h', 't', 't', 'p', 's']),
{
    let n = scheme.unicode_len();
    if n != 4 && n != 5 {
        return false;
    }
    let ok = scheme.get_char(0) == 'h' && scheme.get_char(1) == 't' && scheme.get_char(2) == 't'
        && scheme.get_char(3) == 'p' && (n == 4 || scheme.get_char(4) == 's');
    proof {
        if ok {
            if n == 4 {
                assert(scheme@ =~= seq!['h', 't', 't', 'p']);
            } else {
                assert(scheme@ =~= seq!['h', 't', 't', 'p', 's']);
            }
        }
    }
    ok
}

/// The first characters of a response body, at most `MAX_SNIPPET_CHARS` of them.
pub fn body_snippet(text: &str) -> (r: String)
    ensures
        r@ == text@.take(
            if text@.len() < MAX_SNIPPET_CHARS {
                text@.len() as int
            } else {
                MAX_SNIPPET_CHARS as int
            },
        ),
{
    let n = text.unicode_len();
    let k = if n < MAX_SNIPPET_CHARS {
        n
    } else {
        MAX_SNIPPET_CHARS
    };
    let mut r = String::new();
    let mut i: usize = 0;
    while i < k
        invariant
            k <= n == text@.len(),
            i <= k,
            r@ == text@.take(i as int),
        decreases k - i,
    {
        push_char(&mut r, text.get_char(i));
        assert(r@ =~= text@.take(i as int + 1));
        i = i + 1;
    }
    r
}

/// The error for a response that is not a success: its status and the start of
/// its body.
pub fn status_error(status: u16, body: &str) -> (r: AgUiClientError)
    ensures
        r matches AgUiClientError::HttpStatus { status: s, context } && s == status
            && context@ == body@.take(
            if body@.len() < MAX_SNIPPET_CHARS {
                body@.len() as int
            } else {
                MAX_SNIPPET_CHARS as int
            },
        ),
{
    AgUiClientError::HttpStatus { status, context: body_snippet(body) }
}

/// The value of an `Authorization` header for a bearer token.
pub fn bearer_value(token: &str) -> (r: String)
    ensures
        r@ == "Bearer "@ + token@,
{
    let mut r = String::from_str("Bearer ");
    r.append(token);
    r
}

} // verus!
