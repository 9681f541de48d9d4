//! Where among the rows of the temperature table a colour lies.
//!
//! The correlated colour temperature of a colour is found between the two
//! neighbouring rows of the table on whose lines the colour lies on
//! different sides. The distances of the colour to the lines are computed
//! by the caller; which rows bound the colour is decided here.

use vstd::prelude::*;
use crate::calibration::binary64::{is_less, is_nan, less, INFINITY_BITS, SIGN_BIT, TINY_BITS};

verus! {

/// The number of rows in the table.
pub const TABLE_ROWS: usize = 31;

/// Whether a colour has no chromaticity to speak of: all three
/// tristimulus values are below the threshold.
pub open spec fn is_colourless(xyz: [u64; 3]) -> bool {
    less(xyz[0], TINY_BITS) && less(xyz[1], TINY_BITS) && less(xyz[2], TINY_BITS)
}

/// Whether a distance is not below zero: it is no NaN and not less than zero.
pub open spec fn not_below_zero(d: u64) -> bool {
    !is_nan(d) && !less(d, 0)
}

/// Whether the colour lies on different sides of two lines.
pub open spec fn changes_side(before: u64, after: u64) -> bool {
    (less(after, 0) && not_below_zero(before)) || (not_below_zero(after) && less(before, 0))
}

/// Whether the rows `i - 1` and `i` bound the colour.
pub open spec fn is_bracket(distances: Seq<u64>, i: int) -> bool {
    1 <= i < distances.len() && changes_side(distances[i - 1], distances[i])
}

/// Whether `i` is the first row that bounds the colour together with the row before it.
pub open spec fn is_first_bracket(distances: Seq<u64>, i: int) -> bool {
    is_bracket(distances, i) && forall|k: int| 1 <= k < i ==> !is_bracket(distances, k)
}

/// Whether a colour has no chromaticity to speak of.
pub fn is_too_dark(xyz: [u64; 3]) -> (r: bool)
    ensures
        r == is_colourless(xyz),
{
    is_less(xyz[0], TINY_BITS) && is_less(xyz[1], TINY_BITS) && is_less(xyz[2], TINY_BITS)
}

fn is_not_below_zero(d: u64) -> (r: bool)
    ensures
        r == not_below_zero(d),
{
    let m: u64 = if d >= SIGN_BIT {
        d - SIGN_BIT
    } else {
        d
    };
    m <= INFINITY_BITS && !is_less(d, 0)
}

/// The first row that bounds the colour together with the row before it,
/// by the distances of the colour to the lines of the rows; nothing where
/// the colour lies on one side of them all.
pub fn find_bracket(distances: &[u64]) -> (r: Option<usize>)
    ensures
        match r {
            Some(i) => is_first_bracket(distances@, i as int),
            None => forall|k: int| !is_bracket(distances@, k),
        },
{
    let mut i: usize = 1;
    while i < distances.len()
        invariant
            1 <= i,
            forall|k: int| 1 <= k < i ==> !is_bracket(distances@, k),
        decreases distances.len() - i,
    {
        let before = distances[i - 1];
        let after = distances[i];
        if (is_less(after, 0) && is_not_below_zero(before)) || (is_not_below_zero(after)
            && is_less(before, 0)) {
            return Some(i);
        }
        i += 1;
    }
    None
}

/// A colour on one side of every line is bounded by no rows: distances that
/// are all below zero, or all not below it, give no bracket.
pub proof fn lemma_one_side_no_bracket(distances: Seq<u64>)
    requires
        (forall|k: int| 0 <= k < distances.len() ==> less(#[trigger] distances[k], 0)) || (forall|
            k: int,
        |
            0 <= k < distances.len() ==> not_below_zero(#[trigger] distances[k])),
    ensures
        forall|i: int| !is_bracket(distances, i),
{
    assert forall|i: int| !is_bracket(distances, i) by {
        if 1 <= i < distances.len() {
            let a = distances[i - 1];
            let b = distances[i];
        }
    }
}

} // verus!
