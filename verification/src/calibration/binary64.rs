//! Measured quantities as IEEE 754 binary64 values, carried by their bit
//! patterns. Nothing is computed with them here; they are compared, by the
//! order of the standard, and told apart.

use vstd::prelude::*;

verus! {

/// The bit that holds the sign.
pub const SIGN_BIT: u64 = 0x8000_0000_0000_0000;

/// The bits of positive infinity; above them, without the sign, stand the NaNs.
pub const INFINITY_BITS: u64 = 0x7ff0_0000_0000_0000;

/// The bits of `1.0`.
pub const ONE_BITS: u64 = 0x3ff0_0000_0000_0000;

/// The bits of the binary64 value nearest to `0.01`.
pub const HUNDREDTH_BITS: u64 = 0x3f84_7ae1_47ae_147b;

/// The bits of the binary64 value nearest to `1.0e-20`.
pub const TINY_BITS: u64 = 0x3bc7_9ca1_0c92_4223;

/// Whether the sign bit is set.
pub open spec fn is_negative(bits: u64) -> bool {
    bits >= SIGN_BIT
}

/// The bits without the sign.
pub open spec fn magnitude(bits: u64) -> int {
    if bits >= SIGN_BIT {
        bits - SIGN_BIT
    } else {
        bits as int
    }
}

/// Whether the bits are those of a NaN.
pub open spec fn is_nan(bits: u64) -> bool {
    magnitude(bits) > INFINITY_BITS
}

/// Whether the bits are those of a zero, positive or negative.
pub open spec fn is_zero(bits: u64) -> bool {
    magnitude(bits) == 0
}

/// The place of a value among all values: a number that grows with the
/// value. Negative values count down from zero, the two zeros share a place.
pub open spec fn place(bits: u64) -> int {
    if is_negative(bits) {
        -magnitude(bits)
    } else {
        magnitude(bits)
    }
}

/// Less than, as the standard compares: never true of a NaN.
pub open spec fn less(a: u64, b: u64) -> bool {
    !is_nan(a) && !is_nan(b) && place(a) < place(b)
}

/// Equal, as the standard compares: never true of a NaN, true of the two zeros.
pub open spec fn equal(a: u64, b: u64) -> bool {
    !is_nan(a) && !is_nan(b) && place(a) == place(b)
}

/// The place of a value in the total order of the standard, in which the
/// negative zero stands below the positive one and the NaNs at both ends.
pub open spec fn total_place(bits: u64) -> int {
    if is_negative(bits) {
        -magnitude(bits) - 1
    } else {
        magnitude(bits)
    }
}

/// Whether `a` is less than `b`.
pub fn is_less(a: u64, b: u64) -> (r: bool)
    ensures
        r == less(a, b),
{
    let ma: u64 = if a >= SIGN_BIT {
        a - SIGN_BIT
    } else {
        a
    };
    let mb: u64 = if b >= SIGN_BIT {
        b - SIGN_BIT
    } else {
        b
    };
    if ma > INFINITY_BITS || mb > INFINITY_BITS {
        false
    } else if a >= SIGN_BIT {
        if b >= SIGN_BIT {
            ma > mb
        } else {
            ma > 0 || mb > 0
        }
    } else {
        if b >= SIGN_BIT {
            false
        } else {
            ma < mb
        }
    }
}

/// Whether `a` stands before `b` in the total order.
pub fn total_less(a: u64, b: u64) -> (r: bool)
    ensures
        r == (total_place(a) < total_place(b)),
{
    if a >= SIGN_BIT {
        if b >= SIGN_BIT {
            a > b
        } else {
            true
        }
    } else {
        if b >= SIGN_BIT {
            false
        } else {
            a < b
        }
    }
}

/// Whether a value is below zero.
pub fn is_below_zero(a: u64) -> (r: bool)
    ensures
        r == less(a, 0),
{
    is_less(a, 0)
}

/// The least and the greatest of the values in the total order.
pub open spec fn is_minmax(values: Seq<u64>, min: u64, max: u64) -> bool {
    &&& values.contains(min)
    &&& values.contains(max)
    &&& forall|i: int| 0 <= i < values.len() ==> total_place(min) <= total_place(#[trigger] values[i])
    &&& forall|i: int| 0 <= i < values.len() ==> total_place(#[trigger] values[i]) <= total_place(max)
}

/// The least and the greatest of the values, by the total order; nothing
/// where there is no value.
pub fn minmax(values: &[u64]) -> (r: Option<(u64, u64)>)
    ensures
        match r {
            Some((min, max)) => is_minmax(values@, min, max),
            None => values@.len() == 0,
        },
{
    if values.len() == 0 {
        return None;
    }
    let mut min: u64 = values[0];
    let mut max: u64 = values[0];
    let mut i: usize = 1;
    while i < values.len()
        invariant
            1 <= i <= values.len(),
            exists|k: int| 0 <= k < i && values@[k] == min,
            exists|k: int| 0 <= k < i && values@[k] == max,
            forall|k: int| 0 <= k < i ==> total_place(min) <= total_place(#[trigger] values@[k]),
            forall|k: int| 0 <= k < i ==> total_place(#[trigger] values@[k]) <= total_place(max),
        decreases values.len() - i,
    {
        let v = values[i];
        if total_less(v, min) {
            min = v;
        }
        if !total_less(v, max) {
            max = v;
        }
        i += 1;
    }
    Some((min, max))
}

/// Equal places in the total order are equal bits: the least and the
/// greatest of a list are determined.
pub proof fn lemma_total_order_is_strict(a: u64, b: u64)
    ensures
        total_place(a) == total_place(b) <==> a == b,
{
}

/// The least and the greatest of a list are what they are: no two pairs pass for them.
pub proof fn lemma_minmax_unique(values: Seq<u64>, min1: u64, max1: u64, min2: u64, max2: u64)
    requires
        is_minmax(values, min1, max1),
        is_minmax(values, min2, max2),
    ensures
        min1 == min2,
        max1 == max2,
{
    let i1 = choose|i: int| 0 <= i < values.len() && values[i] == min1;
    let i2 = choose|i: int| 0 <= i < values.len() && values[i] == min2;
    assert(total_place(min1) <= total_place(values[i2]));
    assert(total_place(min2) <= total_place(values[i1]));
    let j1 = choose|i: int| 0 <= i < values.len() && values[i] == max1;
    let j2 = choose|i: int| 0 <= i < values.len() && values[i] == max2;
    assert(total_place(values[j2]) <= total_place(max1));
    assert(total_place(values[j1]) <= total_place(max2));
    lemma_total_order_is_strict(min1, min2);
    lemma_total_order_is_strict(max1, max2);
}

} // verus!
