//! What the Congress API's responses tell about its rate limit.

use vstd::prelude::*;
use crate::ingest::senate_votes::{parse_u32_text, u32_text_value};

verus! {

/// The request limit and the requests left, as the response headers give
/// them.
#[derive(Debug, Clone, Copy, PartialEq, Eq, Structural)]
pub struct RateLimitStatus {
    pub limit: Option<u32>,
    pub remaining: Option<u32>,
}

/// A header value read as a `u32`; none when the header is missing or is not
/// a number.
pub open spec fn header_number(text: Option<Seq<char>>) -> Option<int> {
    match text {
        Some(t) => u32_text_value(t),
        None => None,
    }
}

pub open spec fn opt_u32(o: Option<u32>) -> Option<int> {
    match o {
        Some(n) => Some(n as int),
        None => None,
    }
}

fn header_value(text: Option<&str>) -> (r: Option<u32>)
    ensures
        opt_u32(r) == header_number(
            match text {
                Some(t) => Some(t@),
                None => None,
            },
        ),
{
    match text {
        Some(t) => parse_u32_text(t),
        None => None,
    }
}

/// The rate limit from the texts of the `x-ratelimit-limit` and
/// `x-ratelimit-remaining` headers (none where a header is missing or its value
/// is not visible ASCII).
pub fn parse_rate_limit_headers(limit: Option<&str>, remaining: Option<&str>) -> (r: RateLimitStatus)
    ensures
        opt_u32(r.limit) == header_number(
            match limit {
                Some(t) => Some(t@),
                None => None,
            },
        ),
        opt_u32(r.remaining) == header_number(
            match remaining {
                Some(t) => Some(t@),
                None => None,
            },
        ),
{
    RateLimitStatus { limit: header_value(limit), remaining: header_value(remaining) }
}

} // verus!
