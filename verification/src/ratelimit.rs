//! The decision core of the fixed-window rate limiter.
//!
//! The surrounding middleware owns the per-client store and the clock;
//! it hands the stored window state and the current instant in, and
//! applies the decided successor state.

use vstd::prelude::*;
use crate::strutil::push_str;

verus! {

/// How the limiter is tuned: the request budget, the window length in
/// seconds, and an optional header that identifies the client instead
/// of its address.
#[derive(Debug)]
pub struct RateLimiterConfig {
    pub max_requests: u32,
    pub window_secs: u64,
    pub identifier_header: Option<String>,
}

impl Default for RateLimiterConfig {
    /// One hundred requests per minute, identified by address.
    fn default() -> (r: Self)
        ensures
            r.max_requests == 100,
            r.window_secs == 60,
            r.identifier_header is None,
    {
        RateLimiterConfig { max_requests: 100, window_secs: 60, identifier_header: None }
    }
}

/// One client's window state: how many requests it has made since the
/// window opened.
#[derive(Clone, Copy, Debug, PartialEq, Eq, Structural)]
pub struct RateLimitInfo {
    pub count: u32,
    pub window_start: u64,
}

/// Decides one request: an unknown client opens a fresh window; an
/// expired window resets; a client within budget is counted and
/// allowed; one over budget is refused with its state unchanged.
pub fn rate_limit_decide(entry: Option<RateLimitInfo>, now: u64, config: &RateLimiterConfig) -> (r:
    (bool, RateLimitInfo))
    requires
        entry matches Some(i) ==> i.window_start <= now,
    ensures
        entry is None ==> r == (true, RateLimitInfo { count: 1, window_start: now }),
        entry matches Some(i) ==> r == (if now - i.window_start >= config.window_secs {
            (true, RateLimitInfo { count: 1, window_start: now })
        } else if i.count < config.max_requests {
            (true, RateLimitInfo { count: (i.count + 1) as u32, window_start: i.window_start })
        } else {
            (false, i)
        }),
{
    match entry {
        Some(info) => {
            if now - info.window_start >= config.window_secs {
                (true, RateLimitInfo { count: 1, window_start: now })
            } else if info.count < config.max_requests {
                (true, RateLimitInfo { count: info.count + 1, window_start: info.window_start })
            } else {
                (false, info)
            }
        },
        None => (true, RateLimitInfo { count: 1, window_start: now }),
    }
}

/// The identifier a request is limited under: the configured header's
/// value when one was read, else the peer address, else `unknown`.
pub fn client_identifier(header_value: Option<&str>, peer_addr: Option<&str>) -> (r: String)
    ensures
        header_value matches Some(v) ==> r@ == "header:"@ + v@,
        header_value is None ==> r@ == "ip:"@ + (match peer_addr {
            Some(p) => p@,
            None => "unknown"@,
        }),
{
    let mut out = String::new();
    match header_value {
        Some(v) => {
            push_str(&mut out, "header:");
            push_str(&mut out, v);
        },
        None => {
            push_str(&mut out, "ip:");
            match peer_addr {
                Some(p) => push_str(&mut out, p),
                None => push_str(&mut out, "unknown"),
            }
        },
    }
    out
}

} // verus!
