use vstd::prelude::*;
use crate::encode::{encode_object, members_view, object_text, required, required_member, Encode};
use crate::json::quote;
use crate::json::quoted;

verus! {

/// A snapshot of the rate limit status for a key.
#[derive(Debug, Clone, Copy, PartialEq, Eq, Structural)]
pub struct RatelimitState {
    /// The number of burstable requests allowed.
    pub limit: usize,
    /// The remaining requests in this burst window.
    pub remaining: usize,
    /// The unix timestamp in ms when the next window starts.
    pub reset: usize,
}

/// The rate limit kinds of the api.
#[derive(Debug, Clone, Copy, PartialEq, Eq, Structural)]
pub enum RatelimitType {
    /// Each edge location keeps its own count.
    Fast,
    /// All operations go through a single service.
    Consistent,
}

impl Encode for RatelimitType {
    open spec fn encoded(&self) -> Seq<char> {
        match *self {
            RatelimitType::Fast => quoted("fast"@),
            RatelimitType::Consistent => quoted("consistent"@),
        }
    }

    fn encode(&self) -> (r: String) {
        match self {
            RatelimitType::Fast => quote("fast"),
            RatelimitType::Consistent => quote("consistent"),
        }
    }
}

/// A rate limit imposed on an api key.
#[derive(Debug, Clone, Copy, PartialEq, Eq, Structural)]
pub struct Ratelimit {
    /// The type for this rate limit.
    pub ratelimit_type: RatelimitType,
    /// The rate at which the rate limit refills, per interval.
    pub refill_rate: usize,
    /// The interval at which to refill, in milliseconds.
    pub refill_interval: usize,
    /// Total number of burstable requests.
    pub limit: usize,
}

impl Ratelimit {
    /// Creates a new rate limit.
    pub fn new(ratelimit_type: RatelimitType, refill_rate: usize, refill_interval: usize, limit: usize) -> (r: Ratelimit)
        ensures
            r == (Ratelimit { ratelimit_type, refill_rate, refill_interval, limit }),
    {
        Ratelimit { ratelimit_type, refill_rate, refill_interval, limit }
    }
}

impl Encode for Ratelimit {
    open spec fn encoded(&self) -> Seq<char> {
        object_text(
            seq![
                required("type"@, self.ratelimit_type),
                required("refillRate"@, self.refill_rate),
                required("refillInterval"@, self.refill_interval),
                required("limit"@, self.limit),
            ],
        )
    }

    fn encode(&self) -> (r: String) {
        let ms = vec![
            required_member("type", &self.ratelimit_type),
            required_member("refillRate", &self.refill_rate),
            required_member("refillInterval", &self.refill_interval),
            required_member("limit", &self.limit),
        ];
        assert(members_view(ms@) =~= seq![
            required("type"@, self.ratelimit_type),
            required("refillRate"@, self.refill_rate),
            required("refillInterval"@, self.refill_interval),
            required("limit"@, self.limit),
        ]);
        encode_object(&ms)
    }
}

} // verus!
