//! Zero-safe usage ratios.
//!
//! A usage ratio is reported in hundredths of a percent (0 ..= 10_000 stands
//! for 0% ..= 100%), computed as `used / total * 100` and defined as 0 when
//! the total is 0, so that no reading can ever divide by zero.

use vstd::prelude::*;

verus! {

/// The usage ratio of `used` out of `total`, in hundredths of a percent:
/// 0 when `total` is 0, clamped to 100% when `used` exceeds `total`, and
/// otherwise the truncated quotient `used * 10000 / total`.
pub open spec fn usage_centi_pct(used: u64, total: u64) -> int {
    if total == 0 {
        0
    } else if used >= total {
        10000
    } else {
        (used as int * 10000) / (total as int)
    }
}

/// Computes the usage ratio of `used` out of `total` in hundredths of a
/// percent, with 0 substituted whenever `total` is 0.
pub fn usage_centi(used: u64, total: u64) -> (r: u64)
    ensures
        r == usage_centi_pct(used, total),
        r <= 10000,
{
    if total == 0 {
        0
    } else if used >= total {
        10000
    } else {
        let wide: u128 = (used as u128) * 10000;
        let q: u128 = wide / (total as u128);
        proof {
            assert((used as int * 10000) / (total as int) < 10000) by (nonlinear_arith)
                requires
                    0 <= used < total,
            ;
            assert((used as int * 10000) / (total as int) >= 0) by (nonlinear_arith)
                requires
                    0 <= used,
                    0 < total,
            ;
        }
        q as u64
    }
}

/// Law: the usage ratio is 0 whenever the total is 0, whatever the used
/// amount says, so a zero-sized memory, swap or disk reading never faults.
pub proof fn lemma_usage_zero_total(used: u64)
    ensures
        usage_centi_pct(used, 0) == 0,
{
}

/// Law: every usage ratio lies within [0%, 100%], i.e. within
/// [0, 10_000] hundredths of a percent, for all inputs.
pub proof fn lemma_usage_bounded(used: u64, total: u64)
    ensures
        0 <= usage_centi_pct(used, total) <= 10000,
{
    if total > 0 && used < total {
        assert((used as int * 10000) / (total as int) < 10000) by (nonlinear_arith)
            requires
                0 <= used < total,
        ;
        assert((used as int * 10000) / (total as int) >= 0) by (nonlinear_arith)
            requires
                0 <= used,
                0 < total,
        ;
    }
}

} // verus!
