//! Human-readable rendering of raw byte counts and of boot timestamps.
//!
//! The byte thresholds are deliberately non-uniform: the first scaled
//! band starts at 1024 but ends at 1_048_574 (two short of 2^20), and
//! counts below 1024 are printed unscaled yet labeled "KB". The table
//! mixes 1024-based and non-1024-based cutoffs; it is kept exactly as
//! observed behavior rather than corrected to true binary prefixes.
use vstd::prelude::*;

use crate::numfmt::{dec_digits, dec_digits_padded, two_dec, u64_to_dec, u64_to_dec_padded,
    two_dec_string};

verus! {

/// First threshold: counts below this are printed unscaled.
pub const SCALE_MB: u64 = 1024;

/// Second threshold (a quirk: two below 2^20).
pub const SCALE_GB: u64 = 1048574;

/// Third threshold: 2^30.
pub const SCALE_TB: u64 = 1073741824;

/// Fourth threshold: 2^40.
pub const SCALE_PB: u64 = 1099511627776;

/// Fifth threshold: 2^50.
pub const SCALE_EB: u64 = 1125899906842624;

/// Upper limit: ten times 2^50; at or above it no size is inferred.
pub const SCALE_LIMIT: u64 = 11258999068426240;

/// What `get_data_unit` returns for a byte count `b`: the unscaled
/// count labeled "KB" below 1024; otherwise the count divided by the
/// band's threshold, to two decimals, labeled "MB" through "EB"; at or
/// beyond ten times 2^50, a fixed sentinel sentence.
pub open spec fn data_unit_spec(b: nat) -> Seq<char> {
    if b < SCALE_MB {
        dec_digits(b) + "\tKB"@
    } else if b < SCALE_GB {
        two_dec(b, SCALE_MB as nat) + "\tMB"@
    } else if b < SCALE_TB {
        two_dec(b, SCALE_GB as nat) + "\tGB"@
    } else if b < SCALE_PB {
        two_dec(b, SCALE_TB as nat) + "\tTB"@
    } else if b < SCALE_EB {
        two_dec(b, SCALE_PB as nat) + "\tPB"@
    } else if b < SCALE_LIMIT {
        two_dec(b, SCALE_EB as nat) + "\tEB"@
    } else {
        "Cannot infer data size"@
    }
}

/// Renders a byte count with its data-size suffix.
pub fn get_data_unit(data: u64) -> (r: String)
    ensures
        r@ == data_unit_spec(data as nat),
{
    if data < SCALE_MB {
        let mut s = u64_to_dec(data);
        s.append("\tKB");
        s
    } else if data < SCALE_GB {
        let mut s = two_dec_string(data, SCALE_MB);
        s.append("\tMB");
        s
    } else if data < SCALE_TB {
        let mut s = two_dec_string(data, SCALE_GB);
        s.append("\tGB");
        s
    } else if data < SCALE_PB {
        let mut s = two_dec_string(data, SCALE_TB);
        s.append("\tTB");
        s
    } else if data < SCALE_EB {
        let mut s = two_dec_string(data, SCALE_PB);
        s.append("\tPB");
        s
    } else if data < SCALE_LIMIT {
        let mut s = two_dec_string(data, SCALE_EB);
        s.append("\tEB");
        s
    } else {
        "Cannot infer data size".to_owned()
    }
}

/// Below the first threshold the byte count is not scaled at all: the
/// output is the literal integer, labeled "KB".
pub proof fn lemma_small_counts_unscaled(b: nat)
    requires
        b < 1024,
    ensures
        data_unit_spec(b) == dec_digits(b) + "\tKB"@,
{
}

/// In the first scaled band the output is the count divided by 1024,
/// to two decimals, labeled "MB".
pub proof fn lemma_mb_band(b: nat)
    requires
        1024 <= b < 1048574,
    ensures
        data_unit_spec(b) == two_dec(b, 1024) + "\tMB"@,
{
}

/// At or beyond ten times 2^50 the formatter gives up and returns the
/// fixed sentinel sentence instead of a number.
pub proof fn lemma_limit_sentinel(b: nat)
    requires
        b >= 11258999068426240,
    ensures
        data_unit_spec(b) == "Cannot infer data size"@,
{
}

/// What `get_timeval` returns: whole seconds, a dot, and the
/// microseconds zero-padded to six digits.
pub open spec fn timeval_spec(tv_sec: nat, tv_usec: nat) -> Seq<char> {
    dec_digits(tv_sec) + "."@ + dec_digits_padded(tv_usec, 6)
}

/// Renders a boot timestamp of whole seconds plus microseconds as a
/// decimal number of seconds with six digits after the point.
pub fn get_timeval(tv_sec: u64, tv_usec: u64) -> (r: String)
    requires
        tv_usec < 1000000,
    ensures
        r@ == timeval_spec(tv_sec as nat, tv_usec as nat),
{
    let mut s = u64_to_dec(tv_sec);
    s.append(".");
    let frac = u64_to_dec_padded(tv_usec, 6);
    s.append(frac.as_str());
    proof {
        assert(s@ =~= timeval_spec(tv_sec as nat, tv_usec as nat));
    }
    s
}

} // verus!
