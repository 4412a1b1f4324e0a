//! Signed 32.32 fixed-point samples and their 64-bit integer form.

use vstd::prelude::*;

verus! {

/// A device sample in 32.32 fixed point: a signed integral part and an
/// unsigned fraction counted in units of 2^-32.
#[derive(Clone, Copy, Debug, PartialEq, Eq, Structural)]
pub struct Fp3232 {
    pub integral: i32,
    pub frac: u32,
}

/// The integer that a 32.32 pair stands for once both halves are laid side by
/// side: the integral part scaled by 2^32, plus the fraction.
pub open spec fn fp3232_value(v: Fp3232) -> int {
    v.integral * 0x1_0000_0000 + v.frac
}

/// The integral half of a 64-bit value: its upper 32 bits, read as signed.
pub open spec fn fp3232_integral(value: int) -> int {
    value / 0x1_0000_0000
}

/// The fractional half of a 64-bit value: its lower 32 bits.
pub open spec fn fp3232_frac(value: int) -> int {
    value % 0x1_0000_0000
}

/// Joins the two halves of a sample into one signed 64-bit integer. No scaling
/// takes place: the integral part lands in the upper 32 bits and the fraction in
/// the lower 32 bits.
pub fn fp3232_to_i64(v: &Fp3232) -> (r: i64)
    ensures
        r == fp3232_value(*v),
        fp3232_integral(r as int) == v.integral,
        fp3232_frac(r as int) == v.frac,
{
    let high: i64 = v.integral as i64;
    let low: i64 = v.frac as i64;
    high * 0x1_0000_0000 + low
}

/// Splits a signed 64-bit integer back into its two 32-bit halves: the inverse
/// of `fp3232_to_i64`.
pub fn i64_to_fp3232(value: i64) -> (r: Fp3232)
    ensures
        r.integral == fp3232_integral(value as int),
        r.frac == fp3232_frac(value as int),
        fp3232_value(r) == value,
{
    // Lift the value into the unsigned range first, so that the quotient and
    // the remainder below are those of non-negative numbers.
    let lifted: u64 = (value as i128 + 0x8000_0000_0000_0000) as u64;
    let high: u64 = lifted / 0x1_0000_0000;
    let low: u64 = lifted % 0x1_0000_0000;
    Fp3232 { integral: (high as i64 - 0x8000_0000) as i32, frac: low as u32 }
}

/// Joining the two halves of a sample and splitting the result again gives
/// back the same two halves: nothing is lost in the 64-bit form.
pub proof fn lemma_fp3232_round_trip(v: Fp3232)
    ensures
        i64::MIN <= fp3232_value(v) <= i64::MAX,
        fp3232_integral(fp3232_value(v)) == v.integral,
        fp3232_frac(fp3232_value(v)) == v.frac,
{
}

/// Two samples with the same 64-bit form are the same sample.
pub proof fn lemma_fp3232_value_injective(a: Fp3232, b: Fp3232)
    requires
        fp3232_value(a) == fp3232_value(b),
    ensures
        a == b,
{
    lemma_fp3232_round_trip(a);
    lemma_fp3232_round_trip(b);
}

/// Every signed 64-bit integer is the 64-bit form of exactly the sample that
/// its two halves make up.
pub proof fn lemma_fp3232_split_joins(value: i64)
    ensures
        i32::MIN <= fp3232_integral(value as int) <= i32::MAX,
        0 <= fp3232_frac(value as int) <= u32::MAX,
        fp3232_integral(value as int) * 0x1_0000_0000 + fp3232_frac(value as int) == value,
{
}

} // verus!
