//! Checking that a news-search response is JSON before it is parsed.

use vstd::prelude::*;
use crate::ingest::senate_votes::{first_chars, trim_start_chars};
use crate::model::error::SenateSimError;
use crate::util::text::{chars_of, starts_with, starts_with_text, string_of, trim_start_seq};

verus! {

/// A body looks like JSON: after leading whitespace it starts with `{` or `[`.
pub open spec fn looks_like_json(body: Seq<char>) -> bool {
    let t = trim_start_seq(body);
    starts_with(t, "{"@) || starts_with(t, "["@)
}

/// The error for a body that is not the JSON expected from `url`: it carries
/// the first 200 characters of the body after leading whitespace.
pub open spec fn json_format_error(e: SenateSimError, url: Seq<char>, body: Seq<char>) -> bool {
    e matches SenateSimError::UnexpectedResponseFormat { url: u, expected: x, body_prefix: p } && u@ == url
        && x@ == "JSON"@ && p@ == first_chars(trim_start_seq(body), 200)
}

/// The error for a body that is not JSON.
pub fn json_format_failure(url: &str, body: &str) -> (e: SenateSimError)
    ensures
        json_format_error(e, url@, body@),
{
    let t = trim_start_chars(&chars_of(body));
    let limit: usize = if t.len() < 200 {
        t.len()
    } else {
        200
    };
    let mut prefix: Vec<char> = Vec::new();
    let mut i: usize = 0;
    while i < limit
        invariant
            i <= limit <= t@.len(),
            limit == (if t@.len() < 200 { t@.len() } else { 200 }),
            prefix@ == t@.subrange(0, i as int),
        decreases limit - i,
    {
        prefix.push(t[i]);
        proof {
            assert(t@.subrange(0, i + 1) =~= t@.subrange(0, i as int).push(t@[i as int]));
        }
        i = i + 1;
    }
    proof {
        assert(t@.subrange(0, t@.len() as int) =~= t@);
    }
    SenateSimError::UnexpectedResponseFormat {
        url: String::from_str(url),
        expected: String::from_str("JSON"),
        body_prefix: string_of(&prefix),
    }
}

/// Accepts a body that looks like JSON; otherwise the format error.
pub fn check_json_response(url: &str, body: &str) -> (r: Result<(), SenateSimError>)
    ensures
        r is Ok <==> looks_like_json(body@),
        r matches Err(e) ==> json_format_error(e, url@, body@),
{
    let t = trim_start_chars(&chars_of(body));
    if starts_with_text(&t, "{") || starts_with_text(&t, "[") {
        Ok(())
    } else {
        Err(json_format_failure(url, body))
    }
}

} // verus!
