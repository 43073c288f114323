//! Rate-limit descriptors and the limiters made from them.

use vstd::prelude::*;

verus! {

/// What one token bucket is made from.
#[derive(Clone, Copy, Debug, PartialEq, Eq, Structural)]
pub struct TokenBucketConfig {
    /// Capacity of the bucket, in tokens.
    pub size: u64,
    /// Extra tokens granted once, before the bucket starts to limit.
    pub one_time_burst: Option<u64>,
    /// Milliseconds in which an empty bucket fills up.
    pub refill_time: u64,
}

/// The declarative description of a rate limiter: a bucket for bytes and one
/// for operations, each of which may be absent.
#[derive(Clone, Copy, Debug, PartialEq, Eq, Structural)]
pub struct RateLimiterConfig {
    /// Limits the bytes per unit of time.
    pub bandwidth: Option<TokenBucketConfig>,
    /// Limits the operations per unit of time.
    pub ops: Option<TokenBucketConfig>,
}

/// The description without any bucket: it limits nothing.
pub open spec fn unlimited() -> RateLimiterConfig {
    RateLimiterConfig { bandwidth: None, ops: None }
}

/// A description as it appears in a configuration: absent when it limits nothing.
pub open spec fn config_option(cfg: RateLimiterConfig) -> Option<RateLimiterConfig> {
    if cfg.bandwidth is Some || cfg.ops is Some {
        Some(cfg)
    } else {
        None
    }
}

/// A bucket after a patch: replaced where the patch names one, kept where it does not.
pub open spec fn patched_bucket(
    current: Option<TokenBucketConfig>,
    update: Option<TokenBucketConfig>,
) -> Option<TokenBucketConfig> {
    if update is Some {
        update
    } else {
        current
    }
}

/// A limiter after a patch: an absent patch leaves it as it is, a present one
/// patches each bucket on its own.
pub open spec fn patched_limiter(
    current: RateLimiterConfig,
    update: Option<RateLimiterConfig>,
) -> RateLimiterConfig {
    match update {
        None => current,
        Some(u) => RateLimiterConfig {
            bandwidth: patched_bucket(current.bandwidth, u.bandwidth),
            ops: patched_bucket(current.ops, u.ops),
        },
    }
}

impl Default for RateLimiterConfig {
    fn default() -> (cfg: Self)
        ensures
            cfg == unlimited(),
    {
        RateLimiterConfig { bandwidth: None, ops: None }
    }
}

impl RateLimiterConfig {
    /// The description of a limiter as it stands now.
    pub fn from(limiter: &RateLimiter) -> (cfg: RateLimiterConfig)
        ensures
            cfg == limiter@,
    {
        RateLimiterConfig { bandwidth: limiter.bandwidth, ops: limiter.ops }
    }

    /// `None` for a description that limits nothing, else the description itself.
    pub fn into_option(self) -> (cfg: Option<RateLimiterConfig>)
        ensures
            cfg == config_option(self),
    {
        if self.bandwidth.is_some() || self.ops.is_some() {
            Some(self)
        } else {
            None
        }
    }
}

/// A rate limiter in use, known by the buckets it currently runs with.
#[derive(Clone, Copy, Debug, PartialEq, Eq)]
pub struct RateLimiter {
    bandwidth: Option<TokenBucketConfig>,
    ops: Option<TokenBucketConfig>,
}

impl View for RateLimiter {
    type V = RateLimiterConfig;

    closed spec fn view(&self) -> RateLimiterConfig {
        RateLimiterConfig { bandwidth: self.bandwidth, ops: self.ops }
    }
}

impl Default for RateLimiter {
    /// The limiter that limits nothing.
    fn default() -> (limiter: Self)
        ensures
            limiter@ == unlimited(),
    {
        RateLimiter { bandwidth: None, ops: None }
    }
}

impl RateLimiter {
    /// A limiter that runs with the given buckets.
    pub fn new(bandwidth: Option<TokenBucketConfig>, ops: Option<TokenBucketConfig>) -> (limiter:
        RateLimiter)
        ensures
            limiter@ == (RateLimiterConfig { bandwidth, ops }),
    {
        RateLimiter { bandwidth, ops }
    }

    /// The bucket that limits bytes, if any.
    pub fn bandwidth(&self) -> (bucket: Option<TokenBucketConfig>)
        ensures
            bucket == self@.bandwidth,
    {
        self.bandwidth
    }

    /// The bucket that limits operations, if any.
    pub fn ops(&self) -> (bucket: Option<TokenBucketConfig>)
        ensures
            bucket == self@.ops,
    {
        self.ops
    }

    /// Patches the limiter in place. Only what the patch names changes.
    pub fn update_buckets(&mut self, update: Option<RateLimiterConfig>)
        ensures
            final(self)@ == patched_limiter(old(self)@, update),
    {
        if let Some(u) = update {
            if u.bandwidth.is_some() {
                self.bandwidth = u.bandwidth;
            }
            if u.ops.is_some() {
                self.ops = u.ops;
            }
        }
    }
}

} // verus!
