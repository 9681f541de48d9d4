//! Colour components as integers: their ranges, and how they are carried
//! from one bit depth and quantisation range to another.
//!
//! Rescaling is done in exact arithmetic. A quotient is rounded to the
//! nearest integer, halves away from zero, and kept within `u16`.

use vstd::prelude::*;
use vstd::arithmetic::div_mod::lemma_fundamental_div_mod_converse;
use vstd::arithmetic::power2::{lemma2_to64, lemma_pow2_strictly_increases, lemma_pow2_unfold, pow2};
use std::ops::RangeInclusive;
use crate::pgen::pattern_config::PGenPatternConfig;
use crate::pgen::BitDepth;

verus! {

/// A colour: red, green, blue.
pub type Rgb = [u16; 3];

/// Whether the range of a component of `depth` bits can be held in `u16`.
pub open spec fn range_is_computable(limited_range: bool, depth: u8) -> bool {
    if limited_range {
        8 <= depth <= 19
    } else {
        depth <= 15
    }
}

/// The least value of a component.
pub open spec fn rgb_range_min(limited_range: bool, depth: u8) -> int {
    if limited_range {
        16 * (pow2((depth - 8) as nat) as int)
    } else {
        0
    }
}

/// The greatest value of a component.
pub open spec fn rgb_range_max(limited_range: bool, depth: u8) -> int {
    if limited_range {
        (if depth == 10 {
            876int
        } else {
            219int
        }) + rgb_range_min(limited_range, depth)
    } else {
        pow2(depth as nat) - 1
    }
}

/// `num / den` rounded to the nearest integer, halves away from zero, and
/// kept within `0..=65535`; `den` is positive.
pub open spec fn round_saturating(num: int, den: int) -> int {
    if num <= 0 {
        0
    } else if (2 * num + den) / (2 * den) > 65535 {
        65535
    } else {
        (2 * num + den) / (2 * den)
    }
}

/// Black, white and the width of the limited range for components of `depth` bits.
pub open spec fn range_params(depth: u8) -> (int, int, int) {
    if depth == 8 {
        (16, 255, 219)
    } else {
        (64, 1023, 876)
    }
}

/// The value `num / den` carried from the previous quantisation range into
/// the new one, as a fraction with a positive denominator.
pub open spec fn into_range(
    num: int,
    den: int,
    depth: u8,
    limited_range: bool,
    prev_limited_range: bool,
) -> (int, int) {
    let (min, max, limited_max) = range_params(depth);
    if prev_limited_range == limited_range {
        (num, den)
    } else if prev_limited_range {
        ((num - min * den) * max, den * limited_max)
    } else {
        (num * limited_max + min * den * max, den * max)
    }
}

/// An 8-bit component `c` carried into the new range and, where `depth` is
/// above 8, widened by `diff` bits; the greatest 8-bit value goes to the
/// greatest value of `depth` bits before it is widened.
pub open spec fn widened(
    c: u16,
    diff: u8,
    depth: u8,
    limited_range: bool,
    prev_limited_range: bool,
) -> int {
    let (num, den) = into_range(c as int, 1, 8, limited_range, prev_limited_range);
    if depth > 8 {
        if c >= 255 {
            round_saturating((pow2(depth as nat) - 1) * pow2(diff as nat), 1)
        } else {
            round_saturating(num * pow2(diff as nat), den)
        }
    } else {
        round_saturating(num, den)
    }
}

/// A component `c` narrowed by `diff` bits and carried into the new range of
/// `depth` bits.
pub open spec fn narrowed(
    c: u16,
    diff: u8,
    depth: u8,
    limited_range: bool,
    prev_limited_range: bool,
) -> int {
    let (num, den) = into_range(
        c as int,
        pow2(diff as nat) as int,
        depth,
        limited_range,
        prev_limited_range,
    );
    round_saturating(num, den)
}

/// The distance between two bit depths.
pub open spec fn depth_diff(depth: u8, prev_depth: u8) -> u8 {
    if depth >= prev_depth {
        (depth - prev_depth) as u8
    } else {
        (prev_depth - depth) as u8
    }
}

/// What a component `c` of a pattern becomes when the output goes from
/// `prev_depth` bits to `depth` bits and from one range to the other.
pub open spec fn rescaled(
    c: u16,
    depth: u8,
    prev_depth: u8,
    limited_range: bool,
    prev_limited_range: bool,
) -> int {
    if prev_depth == 8 {
        widened(c, depth_diff(depth, prev_depth), depth, limited_range, prev_limited_range)
    } else {
        narrowed(c, depth_diff(depth, prev_depth), depth, limited_range, prev_limited_range)
    }
}

/// Two to the power `k`.
fn pow2_u64(k: u8) -> (r: u64)
    requires
        k <= 32,
    ensures
        r == pow2(k as nat),
        1 <= r <= 0x1_0000_0000,
{
    let mut p: u64 = 1;
    let mut i: u8 = 0;
    proof {
        lemma2_to64();
    }
    while i < k
        invariant
            i <= k <= 32,
            p == pow2(i as nat),
            1 <= p <= pow2(32),
            pow2(32) == 0x1_0000_0000,
        decreases k - i,
    {
        proof {
            lemma_pow2_unfold((i + 1) as nat);
            if i + 1 < 32 {
                lemma_pow2_strictly_increases((i + 1) as nat, 32);
            }
        }
        p = p * 2;
        i += 1;
    }
    p
}

/// The least and the greatest value of a component.
fn rgb_range_bounds(limited_range: bool, depth: u8) -> (r: (u16, u16))
    requires
        range_is_computable(limited_range, depth),
    ensures
        r.0 == rgb_range_min(limited_range, depth),
        r.1 == rgb_range_max(limited_range, depth),
        r.0 <= r.1,
{
    proof {
        lemma2_to64();
    }
    if limited_range {
        let p = pow2_u64(depth - 8);
        assert(p <= 2048) by {
            if depth - 8 < 11 {
                lemma_pow2_strictly_increases((depth - 8) as nat, 11);
            }
        }
        let min: u64 = 16 * p;
        let width: u64 = if depth == 10 {
            876
        } else {
            219
        };
        (min as u16, (width + min) as u16)
    } else {
        let p = pow2_u64(depth);
        assert(p <= 32768) by {
            if depth < 15 {
                lemma_pow2_strictly_increases(depth as nat, 15);
            }
        }
        (0, (p - 1) as u16)
    }
}

/// Whether the range of a component of `depth` bits can be held in `u16`.
pub fn range_is_computable_for(limited_range: bool, depth: u8) -> (r: bool)
    ensures
        r == range_is_computable(limited_range, depth),
{
    if limited_range {
        8 <= depth && depth <= 19
    } else {
        depth <= 15
    }
}

/// The values that a component of `depth` bits takes in the given range.
pub fn compute_rgb_range(limited_range: bool, depth: u8) -> (r: RangeInclusive<u16>)
    requires
        range_is_computable(limited_range, depth),
    ensures
        r@.start == rgb_range_min(limited_range, depth),
        r@.end == rgb_range_max(limited_range, depth),
        !r@.exhausted,
{
    let (min, max) = rgb_range_bounds(limited_range, depth);
    RangeInclusive::new(min, max)
}

/// The least value of a component, and how far the greatest lies above it.
pub fn get_rgb_real_range(limited_range: bool, bit_depth: u8) -> (r: (u16, u16))
    requires
        range_is_computable(limited_range, bit_depth),
    ensures
        r.0 == rgb_range_min(limited_range, bit_depth),
        r.1 == rgb_range_max(limited_range, bit_depth) - rgb_range_min(limited_range, bit_depth),
        r.0 + r.1 <= 65535,
{
    let (min, max) = rgb_range_bounds(limited_range, bit_depth);
    (min, max - min)
}

/// One component in eight bits: a quarter of it where `depth` is above 8,
/// and of that the low eight bits.
pub open spec fn to_8b(depth: u8, c: u16) -> int {
    if depth > 8 {
        ((c / 4) % 256) as int
    } else {
        (c % 256) as int
    }
}

/// A colour in eight bits per component.
pub fn rgb_10b_to_8b(depth: u8, rgb: Rgb) -> (r: [u8; 3])
    ensures
        forall|i: int| 0 <= i < 3 ==> r[i] == to_8b(depth, rgb[i]),
{
    if depth > 8 {
        [((rgb[0] / 4) % 256) as u8, ((rgb[1] / 4) % 256) as u8, ((rgb[2] / 4) % 256) as u8]
    } else {
        [(rgb[0] % 256) as u8, (rgb[1] % 256) as u8, (rgb[2] % 256) as u8]
    }
}

/// `num / den`, rounded and kept within `u16`.
fn round_to_u16(num: i64, den: i64) -> (r: u16)
    requires
        0 < den <= 0x1_0000_0000_0000,
        num <= 0x1000_0000_0000_0000,
    ensures
        r == round_saturating(num as int, den as int),
{
    if num <= 0 {
        0
    } else {
        let q: i64 = (2 * num + den) / (2 * den);
        if q > 65535 {
            65535
        } else {
            assert(q >= 0) by (nonlinear_arith)
                requires
                    q == (2 * num + den) / (2 * den),
                    num > 0,
                    den > 0,
            ;
            q as u16
        }
    }
}

/// The fraction `num / den` carried from the previous range into the new one.
fn carry_into_range(
    num: i64,
    den: i64,
    depth: u8,
    limited_range: bool,
    prev_limited_range: bool,
) -> (r: (i64, i64))
    requires
        0 <= num <= 65535,
        1 <= den <= 65536,
    ensures
        (r.0 as int, r.1 as int) == into_range(
            num as int,
            den as int,
            depth,
            limited_range,
            prev_limited_range,
        ),
        1 <= r.1 <= 0x1_0000_0000,
        -0x2_0000_0000 <= r.0 <= 0x2_0000_0000,
{
    let (min, max, limited_max): (i64, i64, i64) = if depth == 8 {
        (16, 255, 219)
    } else {
        (64, 1023, 876)
    };
    if prev_limited_range == limited_range {
        (num, den)
    } else if prev_limited_range {
        let shifted: i64 = num - min * den;
        assert(-0x2_0000_0000 <= shifted * max <= 0x2_0000_0000) by (nonlinear_arith)
            requires
                -64 * 65536 <= shifted <= 65535,
                0 < max <= 1023,
        ;
        assert(1 <= den * limited_max <= 0x1_0000_0000) by (nonlinear_arith)
            requires
                1 <= den <= 65536,
                1 <= limited_max <= 876,
        ;
        (shifted * max, den * limited_max)
    } else {
        assert(0 <= num * limited_max <= 65535 * 876) by (nonlinear_arith)
            requires
                0 <= num <= 65535,
                1 <= limited_max <= 876,
        ;
        assert(1 <= den * max <= 65536 * 1023) by (nonlinear_arith)
            requires
                1 <= den <= 65536,
                1 <= max <= 1023,
        ;
        assert(0 <= min * den * max <= 64 * 65536 * 1023) by (nonlinear_arith)
            requires
                1 <= den <= 65536,
                1 <= max <= 1023,
                1 <= min <= 64,
        ;
        (num * limited_max + min * den * max, den * max)
    }
}

/// A quotient that lies between `q` and `q + 1` is `q` when cut off.
proof fn lemma_quotient_between(a: int, b: int, q: int)
    requires
        b > 0,
        q * b <= a < (q + 1) * b,
    ensures
        a / b == q,
{
    assert((q + 1) * b == q * b + b) by (nonlinear_arith);
    lemma_fundamental_div_mod_converse(a, b, q, a - q * b);
}

/// A quotient is at least `q` when the dividend is at least `q` times the divisor.
proof fn lemma_quotient_at_least(a: int, b: int, q: int)
    requires
        b > 0,
        q * b <= a,
    ensures
        a / b >= q,
{
    assert(a / b >= q) by (nonlinear_arith)
        requires
            b > 0,
            q * b <= a,
    ;
}

/// From seventeen bits on, a power of two is beyond every `u16`.
proof fn lemma_pow2_large(k: nat)
    requires
        k >= 16,
    ensures
        pow2(k) >= 65536,
        k >= 17 ==> pow2(k) >= 131072,
{
    lemma2_to64();
    if k > 16 {
        lemma_pow2_strictly_increases(16, k);
    }
    if k > 17 {
        lemma_pow2_strictly_increases(17, k);
    }
}

/// An 8-bit component carried into the new range and widened to `depth` bits.
pub fn scale_8b_rgb_to_10b(
    c: u16,
    diff: u8,
    depth: u8,
    limited_range: bool,
    prev_limited_range: bool,
) -> (r: u16)
    ensures
        r == widened(c, diff, depth, limited_range, prev_limited_range),
{
    let (num, den) = carry_into_range(c as i64, 1, 8, limited_range, prev_limited_range);
    if depth <= 8 {
        return round_to_u16(num, den);
    }
    proof {
        lemma2_to64();
    }
    if c >= 255 {
        if depth >= 16 || diff >= 16 {
            proof {
                let top = pow2(depth as nat) - 1;
                let wide = pow2(diff as nat) as int;
                lemma_pow2_strictly_increases(8, depth as nat);
                lemma_pow2_strictly_increases(0, (diff + 1) as nat);
                lemma_pow2_unfold((diff + 1) as nat);
                if depth >= 16 {
                    lemma_pow2_large(depth as nat);
                }
                if diff >= 16 {
                    lemma_pow2_large(diff as nat);
                }
                assert(top * wide >= 65535) by (nonlinear_arith)
                    requires
                        (top >= 65535 && wide >= 1) || (top >= 256 && wide >= 65536),
                ;
                assert((2 * (top * wide) + 1) / 2 == top * wide);
            }
            65535
        } else {
            let top: u64 = pow2_u64(depth) - 1;
            let wide: u64 = pow2_u64(diff);
            proof {
                lemma_pow2_strictly_increases(depth as nat, 16);
                lemma_pow2_strictly_increases(diff as nat, 16);
            }
            assert(top * wide <= 65535 * 65535) by (nonlinear_arith)
                requires
                    top <= 65535,
                    wide <= 65535,
            ;
            round_to_u16((top * wide) as i64, 1)
        }
    } else if num <= 0 {
        proof {
            let wide = pow2(diff as nat) as int;
            assert(num * wide <= 0) by (nonlinear_arith)
                requires
                    num <= 0,
                    wide >= 0,
            ;
        }
        0
    } else if diff >= 17 {
        proof {
            let wide = pow2(diff as nat) as int;
            lemma_pow2_large(diff as nat);
            assert(num >= den);
            assert(65536 * (2 * den) <= 2 * (num * wide) + den) by (nonlinear_arith)
                requires
                    num >= den,
                    den >= 1,
                    wide >= 131072,
            ;
            assert(num * wide > 0) by (nonlinear_arith)
                requires
                    num > 0,
                    wide > 0,
            ;
            lemma_quotient_at_least(2 * (num * wide) + den, 2 * den, 65536);
        }
        65535
    } else {
        let wide: u64 = pow2_u64(diff);
        proof {
            if diff < 16 {
                lemma_pow2_strictly_increases(diff as nat, 16);
            }
        }
        assert(num * (wide as i64) <= 0x2_0000_0000 * 65536) by (nonlinear_arith)
            requires
                0 < num <= 0x2_0000_0000,
                0 < wide <= 65536,
        ;
        round_to_u16(num * (wide as i64), den)
    }
}

/// A component narrowed by `diff` bits and carried into the new range.
fn scale_rgb_down(
    c: u16,
    diff: u8,
    depth: u8,
    limited_range: bool,
    prev_limited_range: bool,
) -> (r: u16)
    ensures
        r == narrowed(c, diff, depth, limited_range, prev_limited_range),
{
    proof {
        lemma2_to64();
    }
    if diff <= 16 {
        let unit = pow2_u64(diff);
        proof {
            if diff < 16 {
                lemma_pow2_strictly_increases(diff as nat, 16);
            }
        }
        let (num, den) = carry_into_range(
            c as i64,
            unit as i64,
            depth,
            limited_range,
            prev_limited_range,
        );
        round_to_u16(num, den)
    } else {
        let ghost unit = pow2(diff as nat) as int;
        let ghost (min, max, limited_max) = range_params(depth);
        proof {
            lemma_pow2_large(diff as nat);
        }
        if prev_limited_range == limited_range {
            proof {
                if c > 0 {
                    lemma_quotient_between(2 * c + unit, 2 * unit, 0);
                }
            }
            0
        } else if prev_limited_range {
            proof {
                assert((c - min * unit) * max <= 0) by (nonlinear_arith)
                    requires
                        c <= 65535,
                        min >= 16,
                        unit >= 131072,
                        max > 0,
                ;
            }
            0
        } else {
            proof {
                let num = c * limited_max + min * unit * max;
                let den = unit * max;
                assert(2 * (c * limited_max) < den) by (nonlinear_arith)
                    requires
                        0 <= c <= 65535,
                        (limited_max == 219 && max == 255) || (limited_max == 876 && max == 1023),
                        den == unit * max,
                        unit >= 131072,
                ;
                assert(den > 0 && num > 0) by (nonlinear_arith)
                    requires
                        den == unit * max,
                        num == c * limited_max + min * unit * max,
                        unit > 0,
                        max > 0,
                        min > 0,
                        limited_max > 0,
                        c >= 0,
                ;
                assert(min * (2 * den) <= 2 * num + den < (min + 1) * (2 * den))
                    by (nonlinear_arith)
                    requires
                        num == c * limited_max + min * unit * max,
                        den == unit * max,
                        0 <= 2 * (c * limited_max) < den,
                ;
                lemma_quotient_between(2 * num + den, 2 * den, min);
            }
            if depth == 8 {
                16
            } else {
                64
            }
        }
    }
}

/// The colours of a pattern after the output went from `prev_depth` bits to
/// `depth` bits and from one quantisation range to the other.
pub open spec fn rescaled_colour(
    colour: [u16; 3],
    depth: u8,
    prev_depth: u8,
    limited_range: bool,
    prev_limited_range: bool,
) -> Seq<int> {
    Seq::new(
        3,
        |i: int| rescaled(colour[i], depth, prev_depth, limited_range, prev_limited_range),
    )
}

fn scale_colour(
    colour: [u16; 3],
    depth: u8,
    prev_depth: u8,
    limited_range: bool,
    prev_limited_range: bool,
) -> (r: [u16; 3])
    ensures
        forall|i: int|
            0 <= i < 3 ==> r[i] == rescaled(
                colour[i],
                depth,
                prev_depth,
                limited_range,
                prev_limited_range,
            ),
{
    let diff: u8 = if depth >= prev_depth {
        depth - prev_depth
    } else {
        prev_depth - depth
    };
    if prev_depth == 8 {
        [
            scale_8b_rgb_to_10b(colour[0], diff, depth, limited_range, prev_limited_range),
            scale_8b_rgb_to_10b(colour[1], diff, depth, limited_range, prev_limited_range),
            scale_8b_rgb_to_10b(colour[2], diff, depth, limited_range, prev_limited_range),
        ]
    } else {
        [
            scale_rgb_down(colour[0], diff, depth, limited_range, prev_limited_range),
            scale_rgb_down(colour[1], diff, depth, limited_range, prev_limited_range),
            scale_rgb_down(colour[2], diff, depth, limited_range, prev_limited_range),
        ]
    }
}

/// Carries the colours of a pattern over to an output of `depth` bits in the
/// given range, and records the new depth and range in the pattern. Nothing
/// changes where neither the depth nor the range does.
pub fn scale_pattern_config_rgb_values(
    pattern_config: &mut PGenPatternConfig,
    depth: u8,
    prev_depth: u8,
    limited_range: bool,
    prev_limited_range: bool,
)
    requires
        depth == 8 || depth == 10 || (depth == prev_depth && limited_range == prev_limited_range),
    ensures
        depth == prev_depth && limited_range == prev_limited_range ==> *final(pattern_config)
            == *old(pattern_config),
        !(depth == prev_depth && limited_range == prev_limited_range) ==> {
            &&& forall|i: int|
                0 <= i < 3 ==> final(pattern_config).patch_colour[i] == rescaled(
                    old(pattern_config).patch_colour[i],
                    depth,
                    prev_depth,
                    limited_range,
                    prev_limited_range,
                )
            &&& forall|i: int|
                0 <= i < 3 ==> final(pattern_config).background_colour[i] == rescaled(
                    old(pattern_config).background_colour[i],
                    depth,
                    prev_depth,
                    limited_range,
                    prev_limited_range,
                )
            &&& final(pattern_config).bit_depth.repr() == depth
            &&& final(pattern_config).limited_range == limited_range
            &&& final(pattern_config).position == old(pattern_config).position
            &&& final(pattern_config).patch_size == old(pattern_config).patch_size
            &&& final(pattern_config).preset_position == old(pattern_config).preset_position
            &&& final(pattern_config).preset_size == old(pattern_config).preset_size
        },
{
    if depth == prev_depth && limited_range == prev_limited_range {
        return ;
    }
    pattern_config.patch_colour = scale_colour(
        pattern_config.patch_colour,
        depth,
        prev_depth,
        limited_range,
        prev_limited_range,
    );
    pattern_config.background_colour = scale_colour(
        pattern_config.background_colour,
        depth,
        prev_depth,
        limited_range,
        prev_limited_range,
    );
    pattern_config.bit_depth = if depth == 8 {
        BitDepth::Eight
    } else {
        BitDepth::Ten
    };
    pattern_config.limited_range = limited_range;
}

} // verus!
