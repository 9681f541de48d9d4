//! Byte strings: whitespace trimming, prefixes, suffixes and substring search.

use vstd::prelude::*;
use vstd::slice::slice_subrange;

verus! {

/// ASCII whitespace: space, tab, line feed, vertical tab, form feed, carriage return.
pub open spec fn is_space(b: u8) -> bool {
    b == 0x20 || (0x09 <= b && b <= 0x0d)
}

/// `s` without its leading whitespace.
pub open spec fn trim_start(s: Seq<u8>) -> Seq<u8>
    decreases s.len(),
{
    if s.len() > 0 && is_space(s[0]) {
        trim_start(s.drop_first())
    } else {
        s
    }
}

/// `s` without its trailing whitespace.
pub open spec fn trim_end(s: Seq<u8>) -> Seq<u8>
    decreases s.len(),
{
    if s.len() > 0 && is_space(s.last()) {
        trim_end(s.drop_last())
    } else {
        s
    }
}

/// `s` without leading and trailing whitespace.
pub open spec fn trimmed(s: Seq<u8>) -> Seq<u8> {
    trim_end(trim_start(s))
}

/// `needle` stands in `hay` at offset `at`.
pub open spec fn occurs_at(hay: Seq<u8>, needle: Seq<u8>, at: int) -> bool {
    0 <= at && at + needle.len() <= hay.len() && hay.subrange(at, at + needle.len()) == needle
}

/// `needle` stands somewhere in `hay`.
pub open spec fn contains(hay: Seq<u8>, needle: Seq<u8>) -> bool {
    exists|at: int| occurs_at(hay, needle, at)
}

/// `at` is the offset of the first occurrence of `needle` in `hay`.
pub open spec fn is_first_occurrence(hay: Seq<u8>, needle: Seq<u8>, at: int) -> bool {
    occurs_at(hay, needle, at) && forall|k: int| 0 <= k < at ==> !occurs_at(hay, needle, k)
}

/// The offset of the first occurrence of `needle` in `hay`.
pub open spec fn first_occurrence(hay: Seq<u8>, needle: Seq<u8>) -> Option<int> {
    if contains(hay, needle) {
        Some(choose|at: int| is_first_occurrence(hay, needle, at))
    } else {
        None
    }
}

/// There is one first occurrence at most.
pub proof fn lemma_first_occurrence(hay: Seq<u8>, needle: Seq<u8>, at: int)
    requires
        is_first_occurrence(hay, needle, at),
    ensures
        first_occurrence(hay, needle) == Some(at),
{
    let other = choose|k: int| is_first_occurrence(hay, needle, k);
    assert(is_first_occurrence(hay, needle, other));
    if other < at {
        assert(!occurs_at(hay, needle, other));
    }
    if at < other {
        assert(!occurs_at(hay, needle, at));
    }
}

/// A decimal digit.
pub open spec fn is_digit(b: u8) -> bool {
    0x30 <= b && b <= 0x39
}

/// Whether `s` holds digits only.
pub open spec fn all_digits(s: Seq<u8>) -> bool {
    forall|i: int| 0 <= i < s.len() ==> is_digit(#[trigger] s[i])
}

/// The number that is written when the digits of `s` are put behind the
/// digits of `acc`.
pub open spec fn decimal_append(acc: nat, s: Seq<u8>) -> nat
    decreases s.len(),
{
    if s.len() == 0 {
        acc
    } else {
        decimal_append(acc, s.drop_last()) * 10 + (s.last() - 0x30) as nat
    }
}

/// The number that the digits of `s` write in base ten.
pub open spec fn decimal_value(s: Seq<u8>) -> nat {
    decimal_append(0, s)
}

/// The number written by `s` behind `acc`, if `s` holds digits only and the
/// number is not above `max`.
pub open spec fn decimal_append_up_to(acc: nat, s: Seq<u8>, max: u64) -> Option<u64> {
    if all_digits(s) && decimal_append(acc, s) <= max {
        Some(decimal_append(acc, s) as u64)
    } else {
        None
    }
}

/// The number that `s` writes: an optional plus sign and at least one digit.
pub open spec fn unsigned_decimal(s: Seq<u8>) -> Option<nat> {
    let digits = if s.len() > 0 && s[0] == 0x2b {
        s.drop_first()
    } else {
        s
    };
    if digits.len() > 0 && all_digits(digits) {
        Some(decimal_value(digits))
    } else {
        None
    }
}

/// The number that `s` writes, if it is not above `max`.
pub open spec fn unsigned_decimal_up_to(s: Seq<u8>, max: u64) -> Option<u64> {
    match unsigned_decimal(s) {
        Some(v) => if v <= max {
            Some(v as u64)
        } else {
            None
        },
        None => None,
    }
}

/// The longest end of `s` that holds no whitespace.
pub open spec fn token_tail(s: Seq<u8>) -> Seq<u8>
    decreases s.len(),
{
    if s.len() > 0 && !is_space(s.last()) {
        token_tail(s.drop_last()).push(s.last())
    } else {
        Seq::empty()
    }
}

/// The last of the words that whitespace parts `s` into.
pub open spec fn last_token(s: Seq<u8>) -> Option<Seq<u8>> {
    let tail = token_tail(trim_end(s));
    if tail.len() > 0 {
        Some(tail)
    } else {
        None
    }
}

/// The offset of the first byte `b` in `s`, or the length of `s` where none stands.
pub open spec fn offset_of(s: Seq<u8>, b: u8) -> int
    decreases s.len(),
{
    if s.len() == 0 || s[0] == b {
        0
    } else {
        1 + offset_of(s.drop_first(), b)
    }
}

/// The offset of the first whitespace in `s`, or the length of `s` where none stands.
pub open spec fn space_offset(s: Seq<u8>) -> int
    decreases s.len(),
{
    if s.len() == 0 || is_space(s[0]) {
        0
    } else {
        1 + space_offset(s.drop_first())
    }
}

/// The digits that write `v` in base ten, without leading zeros.
pub open spec fn digits_of(v: nat) -> Seq<u8>
    decreases v,
{
    if v < 10 {
        seq![(0x30 + v) as u8]
    } else {
        digits_of(v / 10).push((0x30 + v % 10) as u8)
    }
}

pub fn is_space_byte(b: u8) -> (r: bool)
    ensures
        r == is_space(b),
{
    b == 0x20 || (0x09 <= b && b <= 0x0d)
}

/// Whether `needle` stands in `hay` at offset `at`.
pub fn matches_at(hay: &[u8], needle: &[u8], at: usize) -> (r: bool)
    ensures
        r == occurs_at(hay@, needle@, at as int),
{
    if needle.len() > hay.len() || at > hay.len() - needle.len() {
        return false;
    }
    let mut i: usize = 0;
    while i < needle.len()
        invariant
            i <= needle.len(),
            at + needle.len() <= hay.len(),
            forall|k: int| 0 <= k < i ==> hay@[at + k] == needle@[k],
        decreases needle.len() - i,
    {
        if hay[at + i] != needle[i] {
            assert(hay@.subrange(at as int, at + needle.len())[i as int] != needle@[i as int]);
            return false;
        }
        i += 1;
    }
    assert(hay@.subrange(at as int, at + needle.len()) =~= needle@);
    true
}

/// Whether `hay` begins with `prefix`.
pub fn starts_with(hay: &[u8], prefix: &[u8]) -> (r: bool)
    ensures
        r == prefix@.is_prefix_of(hay@),
{
    let r = matches_at(hay, prefix, 0);
    proof {
        if prefix@.len() <= hay@.len() {
            assert(hay@.subrange(0, prefix@.len() as int) =~= hay@.take(prefix@.len() as int));
        }
    }
    r
}

/// Whether `hay` ends with `suffix`.
pub fn ends_with(hay: &[u8], suffix: &[u8]) -> (r: bool)
    ensures
        r == suffix@.is_suffix_of(hay@),
{
    if suffix.len() > hay.len() {
        return false;
    }
    let at: usize = hay.len() - suffix.len();
    let r = matches_at(hay, suffix, at);
    proof {
        assert(hay@.subrange(at as int, at + suffix@.len()) =~= hay@.skip(at as int));
    }
    r
}

/// The offset of the first occurrence of `needle` in `hay`.
pub fn find(hay: &[u8], needle: &[u8]) -> (r: Option<usize>)
    ensures
        match r {
            Some(at) => first_occurrence(hay@, needle@) == Some(at as int) && at + needle@.len()
                <= hay@.len(),
            None => first_occurrence(hay@, needle@).is_none(),
        },
{
    if needle.len() > hay.len() {
        return None;
    }
    let last: usize = hay.len() - needle.len();
    let mut at: usize = 0;
    loop
        invariant
            at <= last,
            last == hay.len() - needle.len(),
            forall|k: int| 0 <= k < at ==> !occurs_at(hay@, needle@, k),
        decreases last - at,
    {
        if matches_at(hay, needle, at) {
            proof {
                lemma_first_occurrence(hay@, needle@, at as int);
            }
            return Some(at);
        }
        if at == last {
            return None;
        }
        at += 1;
    }
}

/// Whether `needle` stands somewhere in `hay`.
pub fn contains_bytes(hay: &[u8], needle: &[u8]) -> (r: bool)
    ensures
        r == contains(hay@, needle@),
{
    find(hay, needle).is_some()
}

/// The part of `s` between its leading and trailing whitespace.
pub fn trim(s: &[u8]) -> (r: &[u8])
    ensures
        r@ == trimmed(s@),
{
    let mut start: usize = 0;
    assert(s@.subrange(0, s.len() as int) =~= s@);
    while start < s.len() && is_space_byte(s[start])
        invariant
            start <= s.len(),
            trim_start(s@) == trim_start(s@.subrange(start as int, s.len() as int)),
        decreases s.len() - start,
    {
        proof {
            let t = s@.subrange(start as int, s.len() as int);
            assert(t.drop_first() =~= s@.subrange(start + 1, s.len() as int));
        }
        start += 1;
    }
    let mut end: usize = s.len();
    proof {
        let t = s@.subrange(start as int, s.len() as int);
        assert(trim_start(s@) == t);
    }
    while end > start && is_space_byte(s[end - 1])
        invariant
            start <= end <= s.len(),
            trimmed(s@) == trim_end(s@.subrange(start as int, end as int)),
        decreases end - start,
    {
        proof {
            let t = s@.subrange(start as int, end as int);
            assert(t.drop_last() =~= s@.subrange(start as int, end - 1));
        }
        end -= 1;
    }
    slice_subrange(s, start, end)
}

pub fn is_digit_byte(b: u8) -> (r: bool)
    ensures
        r == is_digit(b),
{
    0x30 <= b && b <= 0x39
}

/// A number does not get smaller when digits are written behind it.
proof fn lemma_decimal_append_grows(acc: nat, s: Seq<u8>, n: int)
    requires
        0 <= n <= s.len(),
    ensures
        decimal_append(acc, s.take(n)) <= decimal_append(acc, s),
    decreases s.len() - n,
{
    if n == s.len() {
        assert(s.take(n) =~= s);
    } else {
        lemma_decimal_append_grows(acc, s.drop_last(), n);
        assert(s.drop_last().take(n) =~= s.take(n));
    }
}

/// The number written by the digits of `s` behind `acc`, if it is not above `max`.
pub fn append_digits(acc: u64, s: &[u8], max: u64) -> (r: Option<u64>)
    requires
        acc <= max,
    ensures
        r == decimal_append_up_to(acc as nat, s@, max),
{
    let mut value: u64 = acc;
    let mut i: usize = 0;
    assert(s@.take(0) =~= Seq::<u8>::empty());
    while i < s.len()
        invariant
            i <= s.len(),
            all_digits(s@.take(i as int)),
            value == decimal_append(acc as nat, s@.take(i as int)),
            value <= max,
        decreases s.len() - i,
    {
        let b = s[i];
        if !is_digit_byte(b) {
            assert(!is_digit(s@[i as int]));
            return None;
        }
        let d: u64 = (b - 0x30) as u64;
        proof {
            let next = s@.take(i + 1);
            assert(next.drop_last() =~= s@.take(i as int));
            assert(next.last() == b);
            assert(all_digits(next)) by {
                assert forall|k: int| 0 <= k < next.len() implies is_digit(#[trigger] next[k]) by {
                    if k < next.len() - 1 {
                        assert(s@.take(i as int)[k] == next[k]);
                    }
                }
            }
            lemma_decimal_append_grows(acc as nat, s@, i + 1);
        }
        if d > max || value > (max - d) / 10 {
            return None;
        }
        value = value * 10 + d;
        i += 1;
    }
    assert(s@.take(i as int) =~= s@);
    Some(value)
}

/// The number that `s` writes, if it is not above `max`.
pub fn parse_unsigned(s: &[u8], max: u64) -> (r: Option<u64>)
    ensures
        r == unsigned_decimal_up_to(s@, max),
{
    let start: usize = if s.len() > 0 && s[0] == 0x2b {
        1
    } else {
        0
    };
    if start == s.len() {
        return None;
    }
    let digits = slice_subrange(s, start, s.len());
    assert(digits@ =~= if start == 1 {
        s@.drop_first()
    } else {
        s@
    });
    append_digits(0, digits, max)
}

/// The last of the words that whitespace parts `s` into.
pub fn last_word(s: &[u8]) -> (r: Option<&[u8]>)
    ensures
        match r {
            Some(word) => last_token(s@) == Some(word@),
            None => last_token(s@).is_none(),
        },
{
    let mut end: usize = s.len();
    assert(s@.subrange(0, end as int) =~= s@);
    while end > 0 && is_space_byte(s[end - 1])
        invariant
            end <= s.len(),
            trim_end(s@) == trim_end(s@.subrange(0, end as int)),
        decreases end,
    {
        assert(s@.subrange(0, end as int).drop_last() =~= s@.subrange(0, end - 1));
        end -= 1;
    }
    let ghost body = s@.subrange(0, end as int);
    assert(trim_end(s@) == body);
    let mut start: usize = end;
    assert(s@.subrange(start as int, end as int) =~= Seq::<u8>::empty());
    while start > 0 && !is_space_byte(s[start - 1])
        invariant
            start <= end <= s.len(),
            body == s@.subrange(0, end as int),
            token_tail(body) == token_tail(s@.subrange(0, start as int)) + s@.subrange(
                start as int,
                end as int,
            ),
        decreases start,
    {
        proof {
            let head = s@.subrange(0, start as int);
            assert(head.drop_last() =~= s@.subrange(0, start - 1));
            assert(token_tail(head) == token_tail(head.drop_last()).push(head.last()));
            assert(token_tail(head.drop_last()).push(head.last()) + s@.subrange(
                start as int,
                end as int,
            ) =~= token_tail(head.drop_last()) + s@.subrange(start - 1, end as int));
        }
        start -= 1;
    }
    assert(token_tail(s@.subrange(0, start as int)) =~= Seq::<u8>::empty());
    assert(token_tail(body) =~= s@.subrange(start as int, end as int));
    if start == end {
        None
    } else {
        Some(slice_subrange(s, start, end))
    }
}

/// Whether two byte strings are the same.
pub fn same_bytes(a: &[u8], b: &[u8]) -> (r: bool)
    ensures
        r == (a@ == b@),
{
    if a.len() != b.len() {
        return false;
    }
    let r = matches_at(a, b, 0);
    assert(a@.subrange(0, a@.len() as int) =~= a@);
    r
}

/// The offset of the first byte `b` in `s`, or the length of `s`.
pub fn find_byte(s: &[u8], b: u8) -> (r: usize)
    ensures
        r == offset_of(s@, b),
        r <= s.len(),
        r < s.len() ==> s@[r as int] == b,
{
    let mut i: usize = 0;
    assert(s@.subrange(0, s.len() as int) =~= s@);
    while i < s.len() && s[i] != b
        invariant
            i <= s.len(),
            offset_of(s@, b) == i + offset_of(s@.subrange(i as int, s.len() as int), b),
        decreases s.len() - i,
    {
        assert(s@.subrange(i as int, s.len() as int).drop_first() =~= s@.subrange(
            i + 1,
            s.len() as int,
        ));
        i += 1;
    }
    i
}

/// The offset of the first whitespace in `s`, or the length of `s`.
pub fn find_space(s: &[u8]) -> (r: usize)
    ensures
        r == space_offset(s@),
        r <= s.len(),
{
    let mut i: usize = 0;
    assert(s@.subrange(0, s.len() as int) =~= s@);
    while i < s.len() && !is_space_byte(s[i])
        invariant
            i <= s.len(),
            space_offset(s@) == i + space_offset(s@.subrange(i as int, s.len() as int)),
        decreases s.len() - i,
    {
        assert(s@.subrange(i as int, s.len() as int).drop_first() =~= s@.subrange(
            i + 1,
            s.len() as int,
        ));
        i += 1;
    }
    i
}

/// Writes `v` in base ten behind what `out` holds.
pub fn push_unsigned(out: &mut Vec<u8>, v: u64)
    ensures
        final(out)@ == old(out)@ + digits_of(v as nat),
    decreases v,
{
    if v >= 10 {
        push_unsigned(out, v / 10);
    }
    out.push(0x30 + (v % 10) as u8);
    assert(out@ =~= old(out)@ + digits_of(v as nat));
}

/// Writes `text` behind what `out` holds.
pub fn push_bytes(out: &mut Vec<u8>, text: &[u8])
    ensures
        final(out)@ == old(out)@ + text@,
{
    let mut i: usize = 0;
    while i < text.len()
        invariant
            i <= text.len(),
            out@ == old(out)@ + text@.subrange(0, i as int),
        decreases text.len() - i,
    {
        out.push(text[i]);
        assert(out@ =~= old(out)@ + text@.subrange(0, i + 1));
        i += 1;
    }
    assert(text@.subrange(0, text.len() as int) =~= text@);
}

/// What is written for a number is read back as that number.
pub proof fn lemma_digits_round_trip(v: nat)
    ensures
        all_digits(digits_of(v)),
        digits_of(v).len() > 0,
        decimal_value(digits_of(v)) == v,
    decreases v,
{
    let d = digits_of(v);
    if v >= 10 {
        lemma_digits_round_trip(v / 10);
        assert(d.drop_last() =~= digits_of(v / 10));
        assert(d.last() == (0x30 + v % 10) as u8);
        assert(d.last() - 0x30 == v % 10);
        assert(decimal_append(0, d) == decimal_append(0, d.drop_last()) * 10 + (d.last()
            - 0x30) as nat);
        assert forall|i: int| 0 <= i < d.len() implies is_digit(#[trigger] d[i]) by {
            if i < d.len() - 1 {
                assert(d[i] == digits_of(v / 10)[i]);
            }
        }
    } else {
        assert(d.len() == 1);
        assert(d.last() == (0x30 + v) as u8);
        assert(d.drop_last() =~= Seq::<u8>::empty());
        assert(decimal_append(0, d) == decimal_append(0, d.drop_last()) * 10 + (d.last()
            - 0x30) as nat);
        assert(decimal_append(0, d.drop_last()) == 0);
    }
}

} // verus!
