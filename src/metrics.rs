//! Runtime metrics held as IEEE-754 double bit patterns (`f64::to_bits`).
//!
//! For patterns with the sign bit clear, the numeric order of the doubles is the
//! order of the patterns as unsigned integers, so clamping a non-negative double to
//! `[0, max]` is an integer comparison; a pattern with the sign bit set is negative
//! or negative zero and clamps to `0.0`, whose pattern is `0`.

use vstd::prelude::*;

verus! {

/// The sign bit of a double.
pub const SIGN_BIT: u64 = 0x8000_0000_0000_0000;

/// The exponent field of a double; all ones marks an infinity or a NaN.
pub const EXPONENT_MASK: u64 = 0x7FF0_0000_0000_0000;

/// The pattern of `1000.0`, the largest frame rate that is stored.
pub const FPS_MAX_BITS: u64 = 0x408F_4000_0000_0000;

/// The pattern of `600000.0`, the largest model load time in milliseconds that is stored.
pub const MODEL_LOAD_MS_MAX_BITS: u64 = 0x4122_4F80_0000_0000;

/// The pattern is that of a finite double (neither infinite nor NaN).
pub open spec fn spec_is_finite(bits: u64) -> bool {
    bits & EXPONENT_MASK != EXPONENT_MASK
}

/// The pattern of a finite double clamped to `[0.0, max]`, for a non-negative `max`.
pub open spec fn spec_clamped(bits: u64, max_bits: u64) -> u64 {
    if bits >= SIGN_BIT {
        0
    } else if bits > max_bits {
        max_bits
    } else {
        bits
    }
}

/// The stored value after a report: a finite reading replaces it, clamped; a missing
/// or non-finite reading leaves it as it was.
pub open spec fn spec_updated_metric(stored: Option<u64>, reading: Option<u64>, max_bits: u64) -> Option<u64> {
    match reading {
        Some(bits) => if spec_is_finite(bits) {
            Some(spec_clamped(bits, max_bits))
        } else {
            stored
        },
        None => stored,
    }
}

pub fn is_finite(bits: u64) -> (r: bool)
    ensures
        r == spec_is_finite(bits),
{
    bits & EXPONENT_MASK != EXPONENT_MASK
}

/// Clamps a finite double to `[0.0, max]`.
pub fn clamp_metric(bits: u64, max_bits: u64) -> (r: u64)
    requires
        max_bits < SIGN_BIT,
    ensures
        r == spec_clamped(bits, max_bits),
        r <= max_bits,
{
    if bits >= SIGN_BIT {
        0
    } else if bits > max_bits {
        max_bits
    } else {
        bits
    }
}

/// Applies one optional reading to a stored metric.
pub fn update_metric(stored: Option<u64>, reading: Option<u64>, max_bits: u64) -> (r: Option<u64>)
    requires
        max_bits < SIGN_BIT,
    ensures
        r == spec_updated_metric(stored, reading, max_bits),
{
    match reading {
        Some(bits) => {
            if is_finite(bits) {
                Some(clamp_metric(bits, max_bits))
            } else {
                stored
            }
        },
        None => stored,
    }
}

/// A finite reading above the bound is stored as the bound itself; a non-finite
/// reading (infinite or NaN) leaves the stored value as it was.
pub proof fn lemma_metric_report_clamps_or_keeps(stored: Option<u64>, bits: u64, max_bits: u64)
    requires
        max_bits < SIGN_BIT,
    ensures
        spec_is_finite(bits) && bits < SIGN_BIT && bits > max_bits ==> spec_updated_metric(stored, Some(bits), max_bits)
            == Some(max_bits),
        !spec_is_finite(bits) ==> spec_updated_metric(stored, Some(bits), max_bits) == stored,
        spec_updated_metric(stored, None, max_bits) == stored,
{
}

} // verus!
