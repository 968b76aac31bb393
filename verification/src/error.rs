//! The error taxonomy of the library.
//!
//! Generation-time errors abort descriptor compilation; call-time errors
//! are returned to the caller of a generated method, one per failed call,
//! never retried internally.

use vstd::prelude::*;

verus! {

/// Everything that descriptor compilation or a dispatched call can
/// report.
#[derive(Debug, Clone)]
pub enum Error {
    /// A malformed attribute literal or group (generation time).
    ConfigSyntax(String),
    /// No resolvable verb or path after the merge (generation time).
    MissingRoute(String),
    /// A return type that is not a success/error wrapper (generation time).
    UnsupportedSignature(String),
    /// A parameter that cannot be bound to a simple name (generation time).
    UnsupportedParameterPattern(String),
    /// An endpoint or header the transport configuration rejects.
    ConfigBuild(String),
    /// A connection-level failure, passed through from the transport.
    Transport(String),
    /// A non-success status, with the request URL and a body excerpt.
    Http { url: String, status: u16, body_snippet: String },
    /// A body that did not decode, with the request URL, the underlying
    /// parse failure and a body excerpt.
    Decode { url: String, source: String, body_snippet: String },
    /// A request URL that could not be formed.
    UrlParse(String),
    /// A caller-supplied value rejected while building the request.
    InvalidArgument(String),
}

/// The first `limit` characters of `s`, with an ellipsis appended when
/// anything was cut off.
pub open spec fn snippet_of(s: Seq<char>, limit: int) -> Seq<char> {
    if s.len() <= limit {
        s
    } else {
        s.subrange(0, limit).push('\u{2026}')
    }
}

/// Truncates `s` to at most `limit` characters, appending an ellipsis
/// marker when truncation occurred.  Used to keep response-body excerpts
/// in error values short.
pub fn snippet(s: &str, limit: usize) -> (r: String)
    ensures
        r@ == snippet_of(s@, limit as int),
{
    let len = s.unicode_len();
    if len <= limit {
        s.to_owned()
    } else {
        let head = s.substring_char(0, limit);
        let r = head.to_owned().concat("\u{2026}");
        proof {
            reveal_strlit("\u{2026}");
            assert(r@ =~= s@.subrange(0, limit as int).push('\u{2026}'));
        }
        r
    }
}


/// A body excerpt stays within its limit: it keeps at most `limit`
/// characters of the body, ends with the ellipsis mark exactly when
/// something was cut off, and is the body itself otherwise.
pub proof fn lemma_snippet_bounded(s: Seq<char>, limit: int)
    requires
        0 <= limit,
    ensures
        snippet_of(s, limit).len() <= limit + 1,
        s.len() > limit ==> snippet_of(s, limit).len() == limit + 1 && snippet_of(s, limit).last()
            == '\u{2026}',
        s.len() <= limit ==> snippet_of(s, limit) == s,
{
}

} // verus!
