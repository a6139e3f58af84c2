//! Arithmetic of the wait between attempts: how a delay grows and how
//! jitter shortens it.
use vstd::prelude::*;

verus! {

/// The largest delay, in nanoseconds.
pub const MAX_DELAY: u64 = 0xffff_ffff_ffff_ffff;

/// One more than the largest random word: a word `w` stands for the
/// fraction `w / WORD_RANGE` of the interval `[0, 1)`.
pub const WORD_RANGE: u128 = 0x1_0000_0000_0000_0000;

/// `delay` multiplied by `numer / denom`, rounded down and capped at
/// `MAX_DELAY`.
pub open spec fn grown(delay: int, numer: int, denom: int) -> int {
    let d = delay * numer / denom;
    if d > MAX_DELAY {
        MAX_DELAY as int
    } else {
        d
    }
}

/// The wait for a scheduled `delay` when the random word is `draw`: the
/// upper half of the delay always, and of the lower half the fraction that
/// `draw` stands for.
pub open spec fn jittered(delay: int, draw: int) -> int {
    (delay - delay / 2) + (delay / 2) * draw / (WORD_RANGE as int)
}

/// The delay that follows `delay` when it grows by `numer / denom`.
pub fn grow_delay(delay: u64, numer: u64, denom: u64) -> (r: u64)
    requires
        denom >= 1,
    ensures
        r == grown(delay as int, numer as int, denom as int),
{
    assert((delay as int) * (numer as int) <= 0xffff_ffff_ffff_ffff_ffff_ffff_ffff_ffff)
        by (nonlinear_arith);
    let p: u128 = (delay as u128) * (numer as u128);
    let q: u128 = p / (denom as u128);
    if q > MAX_DELAY as u128 {
        MAX_DELAY
    } else {
        q as u64
    }
}

proof fn lemma_scaled_below(half: int, draw: int)
    requires
        0 <= half,
        0 <= draw < WORD_RANGE,
    ensures
        0 <= half * draw / (WORD_RANGE as int) <= half,
        half > 0 ==> half * draw / (WORD_RANGE as int) < half,
{
    let w = WORD_RANGE as int;
    assert(0 <= half * draw <= half * (w - 1)) by (nonlinear_arith)
        requires
            0 <= half,
            0 <= draw <= w - 1,
    ;
    assert(half * (w - 1) == half * w - half) by (nonlinear_arith);
    assert(half * draw / w <= half) by (nonlinear_arith)
        requires
            0 <= half * draw <= half * w - half,
            w > 0,
            half >= 0,
    ;
    if half > 0 {
        assert(half * draw / w < half) by (nonlinear_arith)
            requires
                0 <= half * draw <= half * w - half,
                w > 0,
                half > 0,
        ;
    }
}

/// A jittered wait lies in `[delay / 2, delay]`, and below `delay`
/// whenever `delay` is at least two nanoseconds.
pub proof fn lemma_jitter_bounds(delay: int, draw: int)
    requires
        0 <= delay,
        0 <= draw < WORD_RANGE,
    ensures
        0 <= jittered(delay, draw) <= delay,
        delay <= 2 * jittered(delay, draw),
        delay >= 2 ==> jittered(delay, draw) < delay,
{
    lemma_scaled_below(delay / 2, draw);
}

/// The jittered wait for `delay` under the random word `draw`. It lies in
/// `[delay / 2, delay]`, below `delay` whenever `delay` is at least two
/// nanoseconds.
pub fn jitter_delay(delay: u64, draw: u64) -> (r: u64)
    ensures
        r == jittered(delay as int, draw as int),
        delay <= 2 * r,
        r <= delay,
        delay >= 2 ==> r < delay,
{
    let half: u64 = delay / 2;
    let low: u64 = delay - half;
    proof {
        lemma_scaled_below(half as int, draw as int);
        lemma_jitter_bounds(delay as int, draw as int);
    }
    assert((half as int) * (draw as int) < WORD_RANGE * WORD_RANGE) by (nonlinear_arith)
        requires
            half < WORD_RANGE,
            draw < WORD_RANGE,
    ;
    let scaled: u128 = (half as u128) * (draw as u128) / WORD_RANGE;
    low + scaled as u64
}

/// Relies on fastrand::u64 over the full range `..`: a word from the
/// thread-local generator. Nothing is known of its value.
#[verifier::external_body]
pub(crate) fn random_word() -> (r: u64) {
    fastrand::u64(..)
}

} // verus!
