//! Throttling headers, read into snapshots.
//!
//! The snapshots are advisory: they are recorded for telemetry and nothing
//! here delays or pauses a fetch on their account.
use crate::headers::{
    contains_header, has_header, header_number, header_text, header_value, parse_usize, HeaderField,
};
use vstd::prelude::*;

verus! {

/// A numeric header, or 0 where it is missing, no text or no number.
pub fn get_usize_from_header(headers: &Vec<HeaderField>, key: &str) -> (r: usize)
    ensures
        r == header_number(headers@, key@),
{
    match header_value(headers, key) {
        Some(text) => match parse_usize(text.as_str()) {
            Some(n) => n,
            None => 0,
        },
        None => 0,
    }
}

/// Rate and concurrency limits that a response reports.
pub struct RateSnapshot {
    /// `X-RateLimit-Limit`
    pub limit: usize,
    /// `X-RateLimit-Window-Sec`
    pub window_seconds: usize,
    /// `X-RateLimit-Remaining`
    pub remaining: usize,
    /// `X-RateLimit-ToWait-Sec`
    pub retry_after_seconds: usize,
    /// `X-Concurrency-Limit-Limit`
    pub concurrency_limit: usize,
    /// `X-Concurrency-Limit-Running`
    pub concurrency_running: usize,
}

impl RateSnapshot {
    /// Reads each header on its own; none of them can fail the reading.
    pub fn from_headers(headers: &Vec<HeaderField>) -> (r: RateSnapshot)
        ensures
            r.limit == header_number(headers@, "X-RateLimit-Limit"@),
            r.window_seconds == header_number(headers@, "X-RateLimit-Window-Sec"@),
            r.remaining == header_number(headers@, "X-RateLimit-Remaining"@),
            r.retry_after_seconds == header_number(headers@, "X-RateLimit-ToWait-Sec"@),
            r.concurrency_limit == header_number(headers@, "X-Concurrency-Limit-Limit"@),
            r.concurrency_running == header_number(headers@, "X-Concurrency-Limit-Running"@),
    {
        RateSnapshot {
            limit: get_usize_from_header(headers, "X-RateLimit-Limit"),
            window_seconds: get_usize_from_header(headers, "X-RateLimit-Window-Sec"),
            remaining: get_usize_from_header(headers, "X-RateLimit-Remaining"),
            retry_after_seconds: get_usize_from_header(headers, "X-RateLimit-ToWait-Sec"),
            concurrency_limit: get_usize_from_header(headers, "X-Concurrency-Limit-Limit"),
            concurrency_running: get_usize_from_header(headers, "X-Concurrency-Limit-Running"),
        }
    }
}

/// Azure DevOps rate limits.
pub struct AdoRateLimiting {
    pub retry_after: usize,
    pub rate_limit_resource: String,
    pub rate_limit_delay: usize,
    pub rate_limit_limit: usize,
    pub rate_limit_remaining: usize,
    pub rate_limit_reset: usize,
}

/// A response asked for a pause with `Retry-After`, which this integration
/// does not honour yet: it needs updating.
pub struct UnhandledRetryAfter {
    pub retry_after: usize,
}

/// The resource that Azure DevOps names, or a placeholder.
pub open spec fn ado_resource(hs: Seq<HeaderField>) -> Seq<char> {
    match header_text(hs, "X-RateLimit-Resource"@) {
        Some(t) => t,
        None => "SSPHP:Unknown Resource"@,
    }
}

impl AdoRateLimiting {
    /// Reads the rate-limit headers of Azure DevOps. A `Retry-After` header, in
    /// any case, is an error rather than a value quietly recorded.
    pub fn from_headers(headers: &Vec<HeaderField>) -> (r: Result<AdoRateLimiting, UnhandledRetryAfter>)
        ensures
            has_header(headers@, "Retry-After"@) <==> r is Err,
            r is Err ==> r->Err_0.retry_after == header_number(headers@, "Retry-After"@),
            r is Ok ==> {
                let l = r->Ok_0;
                &&& l.retry_after == 0
                &&& l.rate_limit_resource@ == ado_resource(headers@)
                &&& l.rate_limit_delay == header_number(headers@, "X-RateLimit-Delay"@)
                &&& l.rate_limit_limit == header_number(headers@, "X-RateLimit-Limit"@)
                &&& l.rate_limit_remaining == header_number(headers@, "X-RateLimit-Remaining"@)
                &&& l.rate_limit_reset == header_number(headers@, "X-RateLimit-Reset"@)
            },
    {
        let retry_after = get_usize_from_header(headers, "Retry-After");
        if contains_header(headers, "Retry-After") {
            return Err(UnhandledRetryAfter { retry_after });
        }
        proof {
            assert(header_text(headers@, "Retry-After"@) is None);
        }
        let rate_limit_resource = match header_value(headers, "X-RateLimit-Resource") {
            Some(t) => t,
            None => String::from_str("SSPHP:Unknown Resource"),
        };
        Ok(AdoRateLimiting {
            retry_after,
            rate_limit_resource,
            rate_limit_delay: get_usize_from_header(headers, "X-RateLimit-Delay"),
            rate_limit_limit: get_usize_from_header(headers, "X-RateLimit-Limit"),
            rate_limit_remaining: get_usize_from_header(headers, "X-RateLimit-Remaining"),
            rate_limit_reset: get_usize_from_header(headers, "X-RateLimit-Reset"),
        })
    }
}

} // verus!
