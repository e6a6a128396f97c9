//! When and to what the D-term low-pass cutoff follows the throttle.
//!
//! The throttle is quantized into buckets; the cutoff is re-derived only when
//! the bucket changes, and no sooner than a minimum interval after the
//! previous change.
use vstd::prelude::*;

use crate::cycles::{cycles_between, wrap};

verus! {

/// The throttle-to-cutoff mapping and its update rate.
#[derive(Clone, Copy, Debug, PartialEq, Eq, Structural)]
pub struct DynLpfConfig {
    /// Cutoff at the lowest throttle bucket, in Hz.
    pub idle_cutoff_hz: u32,
    /// Cutoff at the highest throttle bucket, in Hz.
    pub full_cutoff_hz: u32,
    /// Index of the highest throttle bucket.
    pub throttle_buckets: u32,
    /// Least time between two updates, in microseconds.
    pub min_interval_us: u32,
}

impl DynLpfConfig {
    pub open spec fn valid(self) -> bool {
        self.throttle_buckets > 0
    }

    /// The cutoff for `bucket`: linear from the idle to the full-throttle
    /// cutoff, rounded toward the idle one; buckets past the highest count as
    /// the highest.
    pub open spec fn cutoff_at(self, bucket: u32) -> int {
        let n = self.throttle_buckets as int;
        let b = if bucket > self.throttle_buckets { n } else { bucket as int };
        let lo = self.idle_cutoff_hz as int;
        let hi = self.full_cutoff_hz as int;
        if hi >= lo {
            lo + (hi - lo) * b / n
        } else {
            lo - (lo - hi) * b / n
        }
    }

    /// The cutoff for `bucket`, in Hz.
    pub fn cutoff_for_bucket(&self, bucket: u32) -> (r: u32)
        requires
            self.valid(),
        ensures
            r as int == self.cutoff_at(bucket),
    {
        let n = self.throttle_buckets as u64;
        let b: u64 = if bucket > self.throttle_buckets { n } else { bucket as u64 };
        let lo = self.idle_cutoff_hz as u64;
        let hi = self.full_cutoff_hz as u64;
        proof {
            lemma_scaled_span(if hi >= lo { (hi - lo) as int } else { (lo - hi) as int }, b as int, n as int);
        }
        if hi >= lo {
            (lo + (hi - lo) * b / n) as u32
        } else {
            (lo - (lo - hi) * b / n) as u32
        }
    }
}

/// A span scaled by a fraction at most one stays within the span.
proof fn lemma_scaled_span(span: int, b: int, n: int)
    requires
        0 <= span <= u32::MAX,
        0 <= b <= n,
        0 < n <= u32::MAX,
    ensures
        0 <= span * b <= span * n,
        span * n <= u64::MAX,
        0 <= span * b / n <= span,
{
    assert(0 <= span * b <= span * n) by (nonlinear_arith)
        requires
            0 <= span,
            0 <= b <= n,
    ;
    assert(span * n <= u64::MAX) by (nonlinear_arith)
        requires
            0 <= span <= u32::MAX,
            0 < n <= u32::MAX,
    ;
    vstd::arithmetic::div_mod::lemma_div_is_ordered(span * b, span * n, n);
    vstd::arithmetic::div_mod::lemma_div_multiples_vanish(span, n);
    assert(n * span == span * n) by (nonlinear_arith);
    vstd::arithmetic::div_mod::lemma_div_pos_is_pos(span * b, n);
}

/// The state of the dynamic cutoff schedule.
#[derive(Clone, Copy, Debug, PartialEq, Eq, Structural)]
pub struct DynLpf {
    pub config: DynLpfConfig,
    /// Time of the latest cutoff change, in microseconds.
    pub last_update_us: u32,
    /// The bucket of the latest cutoff change; none before the first.
    pub previous_bucket: Option<u32>,
}

impl DynLpf {
    pub open spec fn wf(self) -> bool {
        self.config.valid()
    }

    /// A change of cutoff is owed at `now_us` for `bucket`: the minimum
    /// interval has passed since the latest change and the bucket differs
    /// from the one it was made for.
    pub open spec fn update_due(self, now_us: u32, bucket: u32) -> bool {
        &&& wrap(now_us - self.last_update_us) >= self.config.min_interval_us
        &&& self.previous_bucket != Some(bucket)
    }

    /// A schedule started at `now_us`, with no bucket seen yet; `None` when
    /// the configuration has no throttle buckets.
    pub fn new(config: DynLpfConfig, now_us: u32) -> (r: Option<DynLpf>)
        ensures
            r is Some <==> config.valid(),
            r matches Some(d) ==> d.wf() && d == (DynLpf {
                config,
                last_update_us: now_us,
                previous_bucket: None,
            }),
    {
        if config.throttle_buckets == 0 {
            None
        } else {
            Some(DynLpf { config, last_update_us: now_us, previous_bucket: None })
        }
    }

    /// The new cutoff in Hz when a change is owed at `now_us` for the
    /// quantized throttle `bucket`, which is then remembered; `None`, with the
    /// schedule unchanged, otherwise.
    pub fn update(&mut self, now_us: u32, bucket: u32) -> (r: Option<u32>)
        requires
            old(self).wf(),
        ensures
            final(self).wf(),
            r is Some <==> old(self).update_due(now_us, bucket),
            r matches Some(hz) ==> {
                &&& hz == old(self).config.cutoff_at(bucket)
                &&& *final(self) == (DynLpf {
                    last_update_us: now_us,
                    previous_bucket: Some(bucket),
                    ..*old(self)
                })
            },
            r is None ==> *final(self) == *old(self),
    {
        let elapsed = cycles_between(self.last_update_us, now_us);
        if elapsed < self.config.min_interval_us {
            return None;
        }
        let same = match self.previous_bucket {
            Some(p) => p == bucket,
            None => false,
        };
        if same {
            return None;
        }
        self.last_update_us = now_us;
        self.previous_bucket = Some(bucket);
        Some(self.config.cutoff_for_bucket(bucket))
    }
}

} // verus!
