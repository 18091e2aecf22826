//! Fixed-point arithmetic shared by the key enhancement and the consensus
//! scorer: values are integers that stand for thousandths.

use vstd::prelude::*;

verus! {

/// The integer that stands for 1.0.
pub const SCALE: u64 = 1000;

/// A full turn in thousandths of a radian.
pub const FULL_TURN: u64 = 6283;

/// Half a turn in thousandths of a radian.
pub const HALF_TURN: u64 = 3142;

/// A quarter turn in thousandths of a radian.
pub const QUARTER_TURN: u64 = 1571;

/// Five factors, each in thousandths, whose product is the strength of a
/// state.
#[derive(Clone, Copy, Debug, PartialEq, Eq, Structural)]
pub struct LddComponents {
    pub stability: u32,
    pub resonance: u32,
    pub entropy: u32,
    pub coupling: u32,
    pub diffusion: u32,
}

/// `value` brought into the range from `low` to `high`.
pub open spec fn clamp(value: int, low: int, high: int) -> int {
    if value < low {
        low
    } else if value > high {
        high
    } else {
        value
    }
}

/// The product of two numbers, held at the largest 128-bit value where it
/// would pass it.
pub open spec fn saturating_product(a: nat, b: nat) -> nat {
    if a * b <= u128::MAX {
        a * b
    } else {
        u128::MAX as nat
    }
}

/// Sine of an angle between zero and a quarter turn, both in thousandths,
/// by the first three terms of its Taylor series, held between 0 and 1.
pub open spec fn sine_taylor(x: int) -> int {
    clamp(
        x - (x * x * x) / 6_000_000 + (x * x * x * x * x) / 120_000_000_000_000,
        0,
        SCALE as int,
    )
}

/// Sine of an angle in thousandths of a radian, in thousandths. The angle
/// is taken modulo a full turn and folded into the first quarter.
pub open spec fn sine_milli(angle: int) -> int {
    let a = angle % (FULL_TURN as int);
    if a <= QUARTER_TURN {
        sine_taylor(a)
    } else if a < HALF_TURN {
        sine_taylor(HALF_TURN - a)
    } else if a <= HALF_TURN + QUARTER_TURN {
        -sine_taylor(a - HALF_TURN)
    } else {
        -sine_taylor(FULL_TURN - a)
    }
}

/// The powers of an angle in the first quarter that the Taylor series
/// needs fit in 64 bits.
proof fn lemma_quarter_powers(x: int)
    requires
        0 <= x <= QUARTER_TURN,
    ensures
        0 <= x * x <= 2_468_041,
        0 <= x * x * x <= 3_877_292_411,
        0 <= x * x * x * x <= 6_091_226_377_681,
        0 <= x * x * x * x * x <= 9_569_316_639_336_851,
        (x * x * x) / 6_000_000 <= x,
{
    assert(0 <= x * x <= 2_468_041) by (nonlinear_arith)
        requires
            0 <= x <= 1571,
    ;
    let x2 = x * x;
    assert(0 <= x2 * x <= 3_877_292_411) by (nonlinear_arith)
        requires
            0 <= x <= 1571,
            0 <= x2 <= 2_468_041,
    ;
    let x3 = x * x * x;
    assert(0 <= x3 * x <= 6_091_226_377_681) by (nonlinear_arith)
        requires
            0 <= x <= 1571,
            0 <= x3 <= 3_877_292_411,
    ;
    let x4 = x * x * x * x;
    assert(0 <= x4 * x <= 9_569_316_639_336_851) by (nonlinear_arith)
        requires
            0 <= x <= 1571,
            0 <= x4 <= 6_091_226_377_681,
    ;
    assert(x2 * x <= 6_000_000 * x) by (nonlinear_arith)
        requires
            0 <= x,
            0 <= x2 <= 6_000_000,
    ;
}

/// The sine of any angle lies between -1 and 1.
pub proof fn lemma_sine_milli_bounds(angle: int)
    ensures
        -(SCALE as int) <= sine_milli(angle) <= SCALE as int,
{
}

/// Multiplies two 128-bit numbers and holds the result at the largest
/// 128-bit value where the product would pass it.
pub fn sat_mul(a: u128, b: u128) -> (product: u128)
    ensures
        product == saturating_product(a as nat, b as nat),
{
    match a.checked_mul(b) {
        Some(p) => p,
        None => u128::MAX,
    }
}

/// Sine of `x`, an angle between zero and a quarter turn.
fn sin_taylor(x: u64) -> (s: i64)
    requires
        x <= QUARTER_TURN,
    ensures
        s == sine_taylor(x as int),
        0 <= s <= SCALE,
{
    proof {
        lemma_quarter_powers(x as int);
    }
    let x2: u64 = x * x;
    let x3: u64 = x2 * x;
    let x4: u64 = x3 * x;
    let x5: u64 = x4 * x;
    let raw: u64 = x - x3 / 6_000_000 + x5 / 120_000_000_000_000;
    if raw > SCALE {
        SCALE as i64
    } else {
        raw as i64
    }
}

/// Sine of an angle in thousandths of a radian, in thousandths.
pub fn sin_milli(angle: u64) -> (s: i64)
    ensures
        s == sine_milli(angle as int),
        -(SCALE as int) <= s <= SCALE as int,
{
    let a: u64 = angle % FULL_TURN;
    if a <= QUARTER_TURN {
        sin_taylor(a)
    } else if a < HALF_TURN {
        sin_taylor(HALF_TURN - a)
    } else if a <= HALF_TURN + QUARTER_TURN {
        -sin_taylor(a - HALF_TURN)
    } else {
        -sin_taylor(FULL_TURN - a)
    }
}

impl LddComponents {
    /// The product of the five factors.
    pub open spec fn product(&self) -> nat {
        self.stability as nat * self.resonance as nat * self.entropy as nat
            * self.coupling as nat * self.diffusion as nat
    }

    /// The product of the five factors, held at the largest 128-bit value.
    pub open spec fn psi_value(&self) -> nat {
        if self.product() <= u128::MAX {
            self.product()
        } else {
            u128::MAX as nat
        }
    }

    /// Multiplies the five factors in 128 bits, saturating.
    pub fn psi(&self) -> (psi: u128)
        ensures
            psi == self.psi_value(),
    {
        let s: u128 = self.stability as u128;
        let r: u128 = self.resonance as u128;
        let e: u128 = self.entropy as u128;
        let c: u128 = self.coupling as u128;
        let d: u128 = self.diffusion as u128;
        assert(s * r <= 0xffff_ffff * 0xffff_ffff) by (nonlinear_arith)
            requires
                s <= 0xffff_ffff,
                r <= 0xffff_ffff,
        ;
        let sr: u128 = sat_mul(s, r);
        assert(sr * e <= 0xffff_ffff * 0xffff_ffff * 0xffff_ffff) by (nonlinear_arith)
            requires
                sr <= 0xffff_ffff * 0xffff_ffff,
                e <= 0xffff_ffff,
        ;
        let sre: u128 = sat_mul(sr, e);
        assert(sre * c <= 0xffff_ffff * 0xffff_ffff * 0xffff_ffff * 0xffff_ffff)
            by (nonlinear_arith)
            requires
                sre <= 0xffff_ffff * 0xffff_ffff * 0xffff_ffff,
                c <= 0xffff_ffff,
        ;
        let srec: u128 = sat_mul(sre, c);
        sat_mul(srec, d)
    }
}

} // verus!
