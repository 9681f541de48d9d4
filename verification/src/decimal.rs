//! Non-negative decimal numbers, held exactly.

use vstd::prelude::*;
use vstd::slice::slice_subrange;
use crate::bytes::{all_digits, append_digits, decimal_append, decimal_value, find_byte, is_digit,
    offset_of};

verus! {

/// The number `mantissa / 10^scale`. A number read from text is kept in its
/// shortest form: with a scale above zero the mantissa does not end in zero.
#[derive(Debug, Clone, Copy, PartialEq, Eq, Structural)]
pub struct Decimal {
    pub mantissa: u64,
    pub scale: u8,
}

/// `s` without the zeros at its end.
pub open spec fn strip_zeros(s: Seq<u8>) -> Seq<u8>
    decreases s.len(),
{
    if s.len() > 0 && s.last() == 0x30 {
        strip_zeros(s.drop_last())
    } else {
        s
    }
}

/// Where the point of `s` stands: the offset of its first point, or its length.
pub open spec fn point_offset(s: Seq<u8>) -> int {
    offset_of(s, 0x2e)
}

/// The digits of `s` before its point.
pub open spec fn whole_digits(s: Seq<u8>) -> Seq<u8> {
    s.subrange(0, point_offset(s))
}

/// The digits of `s` behind its point, without the zeros at their end.
pub open spec fn fraction_digits(s: Seq<u8>) -> Seq<u8> {
    if point_offset(s) < s.len() {
        strip_zeros(s.subrange(point_offset(s) + 1, s.len() as int))
    } else {
        Seq::empty()
    }
}

/// Whether `s` writes a number: digits, then perhaps a point and digits,
/// with a digit on at least one side of the point.
pub open spec fn is_decimal_text(s: Seq<u8>) -> bool {
    &&& all_digits(whole_digits(s))
    &&& point_offset(s) < s.len() ==> all_digits(
        s.subrange(point_offset(s) + 1, s.len() as int),
    )
    &&& s.len() > if point_offset(s) < s.len() {
        1int
    } else {
        0int
    }
}

/// The number that `s` writes, if it writes one that can be held.
pub open spec fn decimal_of(s: Seq<u8>) -> Option<Decimal> {
    let mantissa = decimal_append(decimal_value(whole_digits(s)), fraction_digits(s));
    if is_decimal_text(s) && mantissa <= u64::MAX && fraction_digits(s).len() <= 255 {
        Some(Decimal { mantissa: mantissa as u64, scale: fraction_digits(s).len() as u8 })
    } else {
        None
    }
}

impl Decimal {
    /// Whether the number is the whole number `n`.
    pub open spec fn is_whole(self, n: u64) -> bool {
        self.scale == 0 && self.mantissa == n
    }

    /// Whether the number is the whole number `n`.
    pub fn equals_whole(&self, n: u64) -> (r: bool)
        ensures
            r == self.is_whole(n),
    {
        self.scale == 0 && self.mantissa == n
    }
}

/// Digits stay digits when zeros are taken off their end.
proof fn lemma_strip_zeros(s: Seq<u8>)
    ensures
        strip_zeros(s).len() <= s.len(),
        strip_zeros(s) == s.subrange(0, strip_zeros(s).len() as int),
        all_digits(s) ==> all_digits(strip_zeros(s)),
    decreases s.len(),
{
    if s.len() > 0 && s.last() == 0x30 {
        lemma_strip_zeros(s.drop_last());
        let t = strip_zeros(s.drop_last());
        assert(s.drop_last().subrange(0, t.len() as int) =~= s.subrange(0, t.len() as int));
        if all_digits(s) {
            assert forall|i: int| 0 <= i < s.drop_last().len() implies is_digit(
                #[trigger] s.drop_last()[i],
            ) by {
                assert(s.drop_last()[i] == s[i]);
            }
        }
    } else {
        assert(s.subrange(0, s.len() as int) =~= s);
    }
}

/// The number that `s` writes.
pub fn parse_decimal(s: &[u8]) -> (r: Option<Decimal>)
    ensures
        r == decimal_of(s@),
{
    let point = find_byte(s, 0x2e);
    let whole = slice_subrange(s, 0, point);
    if point == s.len() {
        if s.len() == 0 {
            return None;
        }
        return match append_digits(0, whole, u64::MAX) {
            Some(mantissa) => Some(Decimal { mantissa, scale: 0 }),
            None => None,
        };
    }
    if s.len() == 1 {
        return None;
    }
    let behind = slice_subrange(s, point + 1, s.len());
    let mut end: usize = behind.len();
    assert(behind@.subrange(0, end as int) =~= behind@);
    while end > 0 && behind[end - 1] == 0x30
        invariant
            end <= behind.len(),
            strip_zeros(behind@) == strip_zeros(behind@.subrange(0, end as int)),
        decreases end,
    {
        assert(behind@.subrange(0, end as int).drop_last() =~= behind@.subrange(0, end - 1));
        end -= 1;
    }
    let fraction = slice_subrange(behind, 0, end);
    assert(fraction@ == fraction_digits(s@));
    // Every byte behind the point has to be a digit, the zeros at the end too.
    let mut k: usize = 0;
    while k < behind.len()
        invariant
            k <= behind.len(),
            point < s.len(),
            point_offset(s@) == point,
            behind@ == s@.subrange(point + 1, s.len() as int),
            forall|i: int| 0 <= i < k ==> is_digit(#[trigger] behind@[i]),
        decreases behind.len() - k,
    {
        if !(0x30 <= behind[k] && behind[k] <= 0x39) {
            assert(!is_digit(behind@[k as int]));
            return None;
        }
        k += 1;
    }
    assert(all_digits(behind@));
    proof {
        lemma_strip_zeros(behind@);
    }
    let head = match append_digits(0, whole, u64::MAX) {
        Some(v) => v,
        None => {
            proof {
                if all_digits(whole@) {
                    lemma_append_not_below(decimal_value(whole@), fraction@);
                }
            }
            return None;
        },
    };
    match append_digits(head, fraction, u64::MAX) {
        Some(mantissa) => {
            if fraction.len() > 255 {
                None
            } else {
                Some(Decimal { mantissa, scale: fraction.len() as u8 })
            }
        },
        None => None,
    }
}

/// Digits written behind a number do not make it smaller.
proof fn lemma_append_not_below(acc: nat, s: Seq<u8>)
    requires
        all_digits(s),
    ensures
        decimal_append(acc, s) >= acc,
    decreases s.len(),
{
    if s.len() > 0 {
        assert forall|i: int| 0 <= i < s.drop_last().len() implies is_digit(
            #[trigger] s.drop_last()[i],
        ) by {
            assert(s.drop_last()[i] == s[i]);
        }
        lemma_append_not_below(acc, s.drop_last());
        assert(is_digit(s[s.len() - 1]));
    }
}

} // verus!
