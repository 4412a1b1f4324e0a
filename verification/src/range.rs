//! Linear rescaling of an axis value from a device's own range to another.

use vstd::prelude::*;
use vstd::arithmetic::div_mod::{lemma_div_by_multiple, lemma_div_is_ordered};

verus! {

/// The closed interval of raw values that a device reports for one axis.
///
/// Nothing is assumed of the two bounds: a device may report them reversed or
/// equal. A range whose bounds are equal has no span and cannot be rescaled.
#[derive(Clone, Copy, Debug, PartialEq, Eq, Structural)]
pub struct ValuatorRange {
    pub min: i64,
    pub max: i64,
}

/// The distance of `x` from zero.
pub open spec fn magnitude(x: int) -> int {
    if x < 0 {
        -x
    } else {
        x
    }
}

/// Integer division that rounds toward zero, for any signs of `n` and `d`.
pub open spec fn truncating_quotient(n: int, d: int) -> int
    recommends
        d != 0,
{
    let q = magnitude(n) / magnitude(d);
    if (n < 0) == (d < 0) {
        q
    } else {
        -q
    }
}

/// `value` carried from the source range to the destination range, over the
/// unbounded integers:
/// `dst_min + (value - src_min) * (dst_max - dst_min) / (src_max - src_min)`,
/// the division rounding toward zero.
pub open spec fn remap_exact(
    value: int,
    src_min: int,
    src_max: int,
    dst_min: int,
    dst_max: int,
) -> int
    recommends
        src_min != src_max,
{
    dst_min + truncating_quotient((value - src_min) * (dst_max - dst_min), src_max - src_min)
}

/// The 64-bit two's-complement reading of the low 64 bits of `x`.
pub open spec fn wrap_i64(x: int) -> int {
    (x + 0x8000_0000_0000_0000) % 0x1_0000_0000_0000_0000 - 0x8000_0000_0000_0000
}

/// Whether `value` lies between `a` and `b`, whichever of the two is larger.
pub open spec fn between(value: int, a: int, b: int) -> bool {
    (a <= value <= b) || (b <= value <= a)
}

impl ValuatorRange {
    /// A range that spans at least two values, so that it can be rescaled.
    pub open spec fn has_span(&self) -> bool {
        self.min != self.max
    }

    /// What `convert_range` returns: the exact rescaled value, reduced to 64
    /// bits.
    pub open spec fn spec_convert_range(&self, value: i64, new_min: i64, new_max: i64) -> int {
        wrap_i64(
            remap_exact(
                value as int,
                self.min as int,
                self.max as int,
                new_min as int,
                new_max as int,
            ),
        )
    }

    /// Rescales `value` linearly from this range to `[new_min, new_max]`.
    ///
    /// The product is formed at full width, so no intermediate step loses
    /// bits; only the final result is reduced to 64 bits. A value on a bound of
    /// this range lands exactly on the matching new bound, and a value inside
    /// the range never leaves the new one.
    pub fn convert_range(&self, value: i64, new_min: i64, new_max: i64) -> (r: i64)
        requires
            self.has_span(),
        ensures
            r == self.spec_convert_range(value, new_min, new_max),
            value == self.min ==> r == new_min,
            value == self.max ==> r == new_max,
            between(value as int, self.min as int, self.max as int) ==> r == remap_exact(
                value as int,
                self.min as int,
                self.max as int,
                new_min as int,
                new_max as int,
            ) && between(r as int, new_min as int, new_max as int),
    {
        let offset: i128 = value as i128 - self.min as i128;
        let old_size: i128 = self.max as i128 - self.min as i128;
        let new_size: i128 = new_max as i128 - new_min as i128;
        let (quotient, negative) = scaled_quotient(offset, new_size, old_size);
        let r: i64 = offset_wrapped(new_min, quotient, negative);
        proof {
            lemma_remap_endpoints(
                self.min as int,
                self.max as int,
                new_min as int,
                new_max as int,
            );
            if between(value as int, self.min as int, self.max as int) {
                lemma_remap_within(
                    value as int,
                    self.min as int,
                    self.max as int,
                    new_min as int,
                    new_max as int,
                );
            }
        }
        r
    }
}

/// The signed distance `amount` away from `base`, below it when `negative` is
/// set, as a magnitude and a direction.
spec fn displaced(base: int, amount: int, negative: bool) -> int {
    if negative {
        base - amount
    } else {
        base + amount
    }
}

/// Divides `offset * new_size` by `old_size`, rounding toward zero. The result
/// comes as a magnitude and a flag that says whether it is to be taken below
/// zero; the product is formed on the magnitudes, where it fits in 128 bits.
fn scaled_quotient(offset: i128, new_size: i128, old_size: i128) -> (r: (u128, bool))
    requires
        magnitude(offset as int) <= 0xffff_ffff_ffff_ffff,
        magnitude(new_size as int) <= 0xffff_ffff_ffff_ffff,
        0 < magnitude(old_size as int) <= 0xffff_ffff_ffff_ffff,
    ensures
        truncating_quotient(offset * new_size, old_size as int) == displaced(0, r.0 as int, r.1),
{
    let offset_abs: u128 = unsigned_magnitude(offset);
    let old_abs: u128 = unsigned_magnitude(old_size);
    let new_abs: u128 = unsigned_magnitude(new_size);
    proof {
        lemma_product_magnitude(offset as int, new_size as int);
        lemma_product_bound(offset_abs as int, new_abs as int);
    }
    let product: u128 = offset_abs * new_abs;
    let quotient: u128 = product / old_abs;
    let negative: bool = ((offset < 0) != (new_size < 0)) != (old_size < 0);
    proof {
        assert(magnitude(offset * new_size) == product);
        if product == 0 {
            assert(0int / (old_abs as int) == 0) by (nonlinear_arith)
                requires
                    old_abs > 0,
            ;
        }
    }
    (quotient, negative)
}

/// Moves `amount` away from `base`, downward when `negative` is set, and reduces
/// the result to 64 bits.
fn offset_wrapped(base: i64, amount: u128, negative: bool) -> (r: i64)
    ensures
        r == wrap_i64(displaced(base as int, amount as int, negative)),
{
    let low: u128 = amount % 0x1_0000_0000_0000_0000;
    let moved: i128 = if negative {
        base as i128 - low as i128
    } else {
        base as i128 + low as i128
    };
    let biased: u128 = (moved + 0x1_8000_0000_0000_0000) as u128;
    let reduced: u128 = biased % 0x1_0000_0000_0000_0000;
    proof {
        lemma_wrap_i64_ignores_high_bits(base as int, amount as int, negative);
    }
    (reduced as i128 - 0x8000_0000_0000_0000) as i64
}

/// The distance of a 128-bit value from zero, as an unsigned number.
fn unsigned_magnitude(x: i128) -> (m: u128)
    requires
        x > i128::MIN,
    ensures
        m == magnitude(x as int),
{
    if x < 0 {
        (-x) as u128
    } else {
        x as u128
    }
}

/// The magnitude of a product is the product of the magnitudes, and its sign
/// follows from the signs of the factors.
proof fn lemma_product_magnitude(a: int, b: int)
    ensures
        magnitude(a * b) == magnitude(a) * magnitude(b),
        (a * b < 0) <==> (a != 0 && b != 0 && ((a < 0) != (b < 0))),
        (a * b == 0) <==> (a == 0 || b == 0),
{
    assert(magnitude(a * b) == magnitude(a) * magnitude(b)) by (nonlinear_arith);
    assert((a * b < 0) <==> (a != 0 && b != 0 && ((a < 0) != (b < 0)))) by (nonlinear_arith);
    assert((a * b == 0) <==> (a == 0 || b == 0)) by (nonlinear_arith);
}

/// The product of two 64-bit magnitudes fits in 128 bits.
proof fn lemma_product_bound(a: int, b: int)
    requires
        0 <= a <= 0xffff_ffff_ffff_ffff,
        0 <= b <= 0xffff_ffff_ffff_ffff,
    ensures
        0 <= a * b <= 0xffff_ffff_ffff_fffe_0000_0000_0000_0001,
{
    assert(0 <= a * b <= 0xffff_ffff_ffff_ffff * 0xffff_ffff_ffff_ffff) by (nonlinear_arith)
        requires
            0 <= a <= 0xffff_ffff_ffff_ffff,
            0 <= b <= 0xffff_ffff_ffff_ffff,
    ;
}

/// Only the low 64 bits of the amount added to, or taken from, a base matter
/// once the sum is reduced to 64 bits.
proof fn lemma_wrap_i64_ignores_high_bits(base: int, amount: int, negative: bool)
    requires
        0 <= amount,
    ensures
        wrap_i64(displaced(base, amount, negative)) == wrap_i64(
            displaced(base, amount % 0x1_0000_0000_0000_0000, negative),
        ),
{
    let m = 0x1_0000_0000_0000_0000int;
    let k = amount / m;
    let low = amount % m;
    assert(amount == m * k + low);
    if negative {
        vstd::arithmetic::div_mod::lemma_mod_multiples_vanish(
            -k,
            base - low + 0x8000_0000_0000_0000,
            m,
        );
        assert(m * (-k) + (base - low + 0x8000_0000_0000_0000) == base - amount
            + 0x8000_0000_0000_0000) by (nonlinear_arith)
            requires
                amount == m * k + low,
        ;
    } else {
        vstd::arithmetic::div_mod::lemma_mod_multiples_vanish(
            k,
            base + low + 0x8000_0000_0000_0000,
            m,
        );
    }
}

/// A value that already fits in 64 bits is left alone by the reduction.
pub proof fn lemma_wrap_i64_identity(x: int)
    requires
        fits_i64(x),
    ensures
        wrap_i64(x) == x,
{
}

/// Rounding toward zero keeps the order of the dividends when the divisor is
/// positive.
pub proof fn lemma_truncating_quotient_ordered(n1: int, n2: int, d: int)
    requires
        n1 <= n2,
        0 < d,
    ensures
        truncating_quotient(n1, d) <= truncating_quotient(n2, d),
{
    if 0 <= n1 {
        lemma_div_is_ordered(n1, n2, d);
    } else if n2 < 0 {
        lemma_div_is_ordered(-n2, -n1, d);
    } else {
        lemma_div_is_ordered(0, -n1, d);
        lemma_div_is_ordered(0, n2, d);
    }
}

/// Negating both the dividend and the divisor leaves the quotient unchanged.
pub proof fn lemma_truncating_quotient_negated(n: int, d: int)
    requires
        d != 0,
    ensures
        truncating_quotient(-n, -d) == truncating_quotient(n, d),
{
    if n == 0 {
        assert(0int / magnitude(d) == 0) by (nonlinear_arith)
            requires
                magnitude(d) > 0,
        ;
    }
}

/// The two bounds of the source range map exactly onto the two bounds of the
/// destination range.
pub proof fn lemma_remap_endpoints(src_min: int, src_max: int, dst_min: int, dst_max: int)
    requires
        src_min != src_max,
    ensures
        remap_exact(src_min, src_min, src_max, dst_min, dst_max) == dst_min,
        remap_exact(src_max, src_min, src_max, dst_min, dst_max) == dst_max,
{
    let span = src_max - src_min;
    let width = dst_max - dst_min;
    assert((src_min - src_min) * width == 0) by (nonlinear_arith);
    assert(0int / magnitude(span) == 0) by (nonlinear_arith)
        requires
            magnitude(span) > 0,
    ;
    lemma_product_magnitude(span, width);
    lemma_div_by_multiple(magnitude(width), magnitude(span));
    assert(magnitude(width) * magnitude(span) == magnitude(span) * magnitude(width))
        by (nonlinear_arith);
}

/// Over a source range that runs upward, rescaling keeps the order of its
/// inputs when the destination runs upward too, and reverses it when the
/// destination runs downward.
pub proof fn lemma_remap_monotonic(
    v1: int,
    v2: int,
    src_min: int,
    src_max: int,
    dst_min: int,
    dst_max: int,
)
    requires
        src_min < src_max,
        v1 <= v2,
    ensures
        dst_min <= dst_max ==> remap_exact(v1, src_min, src_max, dst_min, dst_max) <= remap_exact(
            v2,
            src_min,
            src_max,
            dst_min,
            dst_max,
        ),
        dst_min >= dst_max ==> remap_exact(v1, src_min, src_max, dst_min, dst_max) >= remap_exact(
            v2,
            src_min,
            src_max,
            dst_min,
            dst_max,
        ),
{
    let span = src_max - src_min;
    let width = dst_max - dst_min;
    let n1 = (v1 - src_min) * width;
    let n2 = (v2 - src_min) * width;
    if width >= 0 {
        assert(n1 <= n2) by (nonlinear_arith)
            requires
                n1 == (v1 - src_min) * width,
                n2 == (v2 - src_min) * width,
                v1 <= v2,
                width >= 0,
        ;
        lemma_truncating_quotient_ordered(n1, n2, span);
    }
    if width <= 0 {
        assert(n2 <= n1) by (nonlinear_arith)
            requires
                n1 == (v1 - src_min) * width,
                n2 == (v2 - src_min) * width,
                v1 <= v2,
                width <= 0,
        ;
        lemma_truncating_quotient_ordered(n2, n1, span);
    }
}

/// A value between the bounds of the source range, in whichever order they
/// stand, lands between the bounds of the destination range.
pub proof fn lemma_remap_within(value: int, src_min: int, src_max: int, dst_min: int, dst_max: int)
    requires
        src_min != src_max,
        between(value, src_min, src_max),
    ensures
        between(remap_exact(value, src_min, src_max, dst_min, dst_max), dst_min, dst_max),
{
    lemma_remap_endpoints(src_min, src_max, dst_min, dst_max);
    if src_min < src_max {
        lemma_remap_monotonic(src_min, value, src_min, src_max, dst_min, dst_max);
        lemma_remap_monotonic(value, src_max, src_min, src_max, dst_min, dst_max);
    } else {
        // Mirror the source range about its lower bound: the offsets and the
        // span both change sign, which leaves every quotient as it was.
        let width = dst_max - dst_min;
        let mirrored = 2 * src_min - value;
        let mirrored_max = 2 * src_min - src_max;
        assert((mirrored - src_min) * width == -((value - src_min) * width))
            by (nonlinear_arith)
            requires
                mirrored == 2 * src_min - value,
        ;
        lemma_truncating_quotient_negated((value - src_min) * width, src_max - src_min);
        assert(remap_exact(mirrored, src_min, mirrored_max, dst_min, dst_max) == remap_exact(
            value,
            src_min,
            src_max,
            dst_min,
            dst_max,
        ));
        lemma_remap_endpoints(src_min, mirrored_max, dst_min, dst_max);
        lemma_remap_monotonic(src_min, mirrored, src_min, mirrored_max, dst_min, dst_max);
        lemma_remap_monotonic(mirrored, mirrored_max, src_min, mirrored_max, dst_min, dst_max);
    }
}

/// Whether `x` can be held in 64 bits, so that reducing it changes nothing.
pub open spec fn fits_i64(x: int) -> bool {
    i64::MIN <= x <= i64::MAX
}

impl ValuatorRange {
    /// The exact rescaled value, before it is reduced to 64 bits.
    pub open spec fn spec_remap(&self, value: i64, new_min: i64, new_max: i64) -> int {
        remap_exact(value as int, self.min as int, self.max as int, new_min as int, new_max as int)
    }
}

/// Rescaling from an upward source range is monotonic as long as its results
/// can be held in 64 bits: of two values the larger never maps below the
/// smaller when the destination runs upward, and never above it when the
/// destination runs downward.
pub proof fn lemma_convert_range_monotonic(
    range: ValuatorRange,
    v1: i64,
    v2: i64,
    new_min: i64,
    new_max: i64,
)
    requires
        range.min < range.max,
        v1 <= v2,
        fits_i64(range.spec_remap(v1, new_min, new_max)),
        fits_i64(range.spec_remap(v2, new_min, new_max)),
    ensures
        new_min <= new_max ==> range.spec_convert_range(v1, new_min, new_max)
            <= range.spec_convert_range(v2, new_min, new_max),
        new_min >= new_max ==> range.spec_convert_range(v1, new_min, new_max)
            >= range.spec_convert_range(v2, new_min, new_max),
{
    lemma_wrap_i64_identity(range.spec_remap(v1, new_min, new_max));
    lemma_wrap_i64_identity(range.spec_remap(v2, new_min, new_max));
    lemma_remap_monotonic(
        v1 as int,
        v2 as int,
        range.min as int,
        range.max as int,
        new_min as int,
        new_max as int,
    );
}

/// A value within the range is rescaled without loss: the result is the exact
/// rescaled value, and it lies within the new bounds.
pub proof fn lemma_convert_range_within(range: ValuatorRange, value: i64, new_min: i64, new_max: i64)
    requires
        range.has_span(),
        between(value as int, range.min as int, range.max as int),
    ensures
        fits_i64(range.spec_remap(value, new_min, new_max)),
        range.spec_convert_range(value, new_min, new_max) == range.spec_remap(
            value,
            new_min,
            new_max,
        ),
        between(
            range.spec_convert_range(value, new_min, new_max),
            new_min as int,
            new_max as int,
        ),
{
    lemma_remap_within(
        value as int,
        range.min as int,
        range.max as int,
        new_min as int,
        new_max as int,
    );
}

/// A value on a bound of the range is rescaled to the matching new bound,
/// exactly.
pub proof fn lemma_convert_range_endpoints(range: ValuatorRange, new_min: i64, new_max: i64)
    requires
        range.has_span(),
    ensures
        range.spec_convert_range(range.min, new_min, new_max) == new_min,
        range.spec_convert_range(range.max, new_min, new_max) == new_max,
{
    lemma_remap_endpoints(range.min as int, range.max as int, new_min as int, new_max as int);
}

} // verus!
