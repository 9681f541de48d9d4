//! What one line of the measurement tool's output means.
//!
//! All matching is made on the line without its leading and trailing
//! whitespace. A reading is reported as two tagged triples of decimal
//! literals, `XYZ: <f> <f> <f>` and `Lab: <f> <f> <f>`, where a literal is an
//! optional minus sign, digits, a point, and digits.

use vstd::prelude::*;
use vstd::slice::slice_subrange;
use vstd::string::StringSliceAdditionalSpecFns;
use crate::bytes::{contains, contains_bytes, ends_with, is_digit, is_digit_byte, is_space,
    is_space_byte, matches_at, occurs_at, starts_with, trim, trimmed};

verus! {

/// The banner that the tool prints once the instrument is set up.
pub const EXPECTED_INIT_LINE: &'static str = "Place instrument on spot to be measured";

/// The end of the prompt after which the tool takes a reading.
pub const READING_READY_SUBSTR: &'static str = "take a reading:";

/// The beginning of a line that reports a reading.
pub const READING_RESULT_SUBSTR: &'static str = "Result is XYZ";

/// The beginning of a line that reports a failed reading.
pub const READING_FAILED_SUBSTR: &'static str = "Spot read failed";

/// The beginning of a line on the error stream after which the tool is lost.
pub const DIAGNOSTIC_SUBSTR: &'static str = "Diagnostic";

/// The tag before the three tristimulus literals.
pub const XYZ_TAG: &'static str = "XYZ:";

/// The tag before the three Lab literals.
pub const LAB_TAG: &'static str = "Lab:";

/// The length of the longest run of digits in `s` that begins at `i`.
pub open spec fn digit_run(s: Seq<u8>, i: int) -> nat
    decreases s.len() - i,
{
    if 0 <= i < s.len() && is_digit(s[i]) {
        1 + digit_run(s, i + 1)
    } else {
        0
    }
}

/// Where the decimal literal that begins at `i` ends, if one begins there:
/// an optional minus sign, at least one digit, a point, and the longest run
/// of at least one digit.
pub open spec fn literal_end(s: Seq<u8>, i: int) -> Option<int> {
    let j = if 0 <= i < s.len() && s[i] == 0x2d {
        i + 1
    } else {
        i
    };
    let k = j + digit_run(s, j);
    if 0 <= i && k > j && k < s.len() && s[k] == 0x2e && digit_run(s, k + 1) > 0 {
        Some(k + 1 + digit_run(s, k + 1))
    } else {
        None
    }
}

/// The literal that begins one byte after `sep`, if `sep` holds whitespace:
/// the offsets of its first byte and of the byte after its last.
pub open spec fn spaced_literal(s: Seq<u8>, sep: int) -> Option<(int, int)> {
    if 0 <= sep < s.len() && is_space(s[sep]) {
        match literal_end(s, sep + 1) {
            Some(end) => Some((sep + 1, end)),
            None => None,
        }
    } else {
        None
    }
}

/// The three literals of the tagged triple whose tag begins at `at`: the tag,
/// then three times one whitespace byte and a literal.
pub open spec fn triple_at(s: Seq<u8>, tag: Seq<u8>, at: int) -> Option<Seq<(int, int)>> {
    if occurs_at(s, tag, at) {
        match spaced_literal(s, at + tag.len()) {
            Some(a) => match spaced_literal(s, a.1) {
                Some(b) => match spaced_literal(s, b.1) {
                    Some(c) => Some(seq![a, b, c]),
                    None => None,
                },
                None => None,
            },
            None => None,
        }
    } else {
        None
    }
}

/// The triple at the least offset not below `from` at which one stands.
pub open spec fn first_triple_from(s: Seq<u8>, tag: Seq<u8>, from: int) -> Option<Seq<(int, int)>>
    decreases s.len() - from,
{
    if from < 0 || from >= s.len() {
        None
    } else {
        match triple_at(s, tag, from) {
            Some(t) => Some(t),
            None => first_triple_from(s, tag, from + 1),
        }
    }
}

/// The leftmost triple tagged `tag` in `s`.
pub open spec fn first_triple(s: Seq<u8>, tag: Seq<u8>) -> Option<Seq<(int, int)>> {
    first_triple_from(s, tag, 0)
}

/// The texts that the three spans of `t` cut out of `s`.
pub open spec fn triple_texts(s: Seq<u8>, t: Seq<(int, int)>) -> Seq<Seq<u8>> {
    seq![s.subrange(t[0].0, t[0].1), s.subrange(t[1].0, t[1].1), s.subrange(t[2].0, t[2].1)]
}

/// Three decimal literals, as they stand in the line.
pub struct Triple<'a> {
    pub first: &'a [u8],
    pub second: &'a [u8],
    pub third: &'a [u8],
}

impl<'a> View for Triple<'a> {
    type V = Seq<Seq<u8>>;

    open spec fn view(&self) -> Seq<Seq<u8>> {
        seq![self.first@, self.second@, self.third@]
    }
}

/// The literals of one reported reading.
pub struct ReadingTexts<'a> {
    pub xyz: Triple<'a>,
    pub lab: Triple<'a>,
}

/// The texts of the leftmost triple tagged `tag` in `s`.
pub open spec fn tagged_texts(s: Seq<u8>, tag: Seq<u8>) -> Option<Seq<Seq<u8>>> {
    match first_triple(s, tag) {
        Some(t) => Some(triple_texts(s, t)),
        None => None,
    }
}

/// The offset after the longest run of digits that begins at `i`.
fn skip_digits(s: &[u8], i: usize) -> (r: usize)
    requires
        i <= s.len(),
    ensures
        r == i + digit_run(s@, i as int),
        r <= s.len(),
{
    let mut k: usize = i;
    while k < s.len() && is_digit_byte(s[k])
        invariant
            i <= k <= s.len(),
            i + digit_run(s@, i as int) == k + digit_run(s@, k as int),
        decreases s.len() - k,
    {
        k += 1;
    }
    k
}

/// The offset after the decimal literal that begins at `i`.
fn scan_literal(s: &[u8], i: usize) -> (r: Option<usize>)
    requires
        i <= s.len(),
    ensures
        match r {
            Some(end) => literal_end(s@, i as int) == Some(end as int) && i < end <= s.len(),
            None => literal_end(s@, i as int).is_none(),
        },
{
    let j: usize = if i < s.len() && s[i] == 0x2d {
        i + 1
    } else {
        i
    };
    let k = skip_digits(s, j);
    if k > j && k < s.len() && s[k] == 0x2e {
        let e = skip_digits(s, k + 1);
        if e > k + 1 {
            Some(e)
        } else {
            None
        }
    } else {
        None
    }
}

/// The span of the literal that begins one byte after `sep`.
fn scan_spaced_literal(s: &[u8], sep: usize) -> (r: Option<(usize, usize)>)
    requires
        sep <= s.len(),
    ensures
        match r {
            Some(span) => spaced_literal(s@, sep as int) == Some((span.0 as int, span.1 as int))
                && span.0 < span.1 <= s.len(),
            None => spaced_literal(s@, sep as int).is_none(),
        },
{
    if sep < s.len() && is_space_byte(s[sep]) {
        match scan_literal(s, sep + 1) {
            Some(end) => Some((sep + 1, end)),
            None => None,
        }
    } else {
        None
    }
}

/// The triple whose tag begins at `at`.
fn scan_triple_at<'a>(s: &'a [u8], tag: &[u8], at: usize) -> (r: Option<Triple<'a>>)
    ensures
        match r {
            Some(t) => triple_at(s@, tag@, at as int).is_some() && t@ == triple_texts(
                s@,
                triple_at(s@, tag@, at as int).unwrap(),
            ),
            None => triple_at(s@, tag@, at as int).is_none(),
        },
{
    if !matches_at(s, tag, at) {
        return None;
    }
    assert(at + tag.len() <= s.len());
    let a = match scan_spaced_literal(s, at + tag.len()) {
        Some(a) => a,
        None => { return None; },
    };
    let b = match scan_spaced_literal(s, a.1) {
        Some(b) => b,
        None => { return None; },
    };
    let c = match scan_spaced_literal(s, b.1) {
        Some(c) => c,
        None => { return None; },
    };
    Some(
        Triple {
            first: slice_subrange(s, a.0, a.1),
            second: slice_subrange(s, b.0, b.1),
            third: slice_subrange(s, c.0, c.1),
        },
    )
}

/// The three literals of the leftmost triple tagged `tag` in `s`.
pub fn find_triple<'a>(s: &'a [u8], tag: &[u8]) -> (r: Option<Triple<'a>>)
    ensures
        match r {
            Some(t) => tagged_texts(s@, tag@) == Some(t@),
            None => tagged_texts(s@, tag@).is_none(),
        },
{
    let mut at: usize = 0;
    while at < s.len()
        invariant
            at <= s.len(),
            first_triple(s@, tag@) == first_triple_from(s@, tag@, at as int),
        decreases s.len() - at,
    {
        match scan_triple_at(s, tag, at) {
            Some(t) => { return Some(t); },
            None => {},
        }
        at += 1;
    }
    None
}

/// The literals of the reading that `s` reports: the leftmost triple tagged
/// `XYZ:` and the leftmost triple tagged `Lab:`, each looked for in all of `s`.
pub open spec fn reading_texts(s: Seq<u8>) -> Option<(Seq<Seq<u8>>, Seq<Seq<u8>>)> {
    match (tagged_texts(s, XYZ_TAG.spec_bytes()), tagged_texts(s, LAB_TAG.spec_bytes())) {
        (Some(xyz), Some(lab)) => Some((xyz, lab)),
        _ => None,
    }
}

/// The literals of the reading that `line` reports, if it reports one.
pub fn parse_reading<'a>(line: &'a [u8]) -> (r: Option<ReadingTexts<'a>>)
    ensures
        match r {
            Some(t) => reading_texts(line@) == Some((t.xyz@, t.lab@)),
            None => reading_texts(line@).is_none(),
        },
{
    let xyz = match find_triple(line, XYZ_TAG.as_bytes()) {
        Some(t) => t,
        None => { return None; },
    };
    let lab = match find_triple(line, LAB_TAG.as_bytes()) {
        Some(t) => t,
        None => { return None; },
    };
    Some(ReadingTexts { xyz, lab })
}

/// What a line of the tool's standard output means while a reading is awaited.
pub enum OutputLine<'a> {
    /// Nothing but whitespace.
    Blank,
    /// A reading, with its literals.
    Reading(ReadingTexts<'a>),
    /// A line that announces a reading and does not hold its literals.
    Malformed,
    /// The tool could not take the reading.
    Failed,
    /// Anything else.
    Other,
}

/// The meaning of an output line, over the texts of its literals.
pub enum OutputLineView {
    Blank,
    Reading(Seq<Seq<u8>>, Seq<Seq<u8>>),
    Malformed,
    Failed,
    Other,
}

impl<'a> View for OutputLine<'a> {
    type V = OutputLineView;

    open spec fn view(&self) -> OutputLineView {
        match *self {
            OutputLine::Blank => OutputLineView::Blank,
            OutputLine::Reading(t) => OutputLineView::Reading(t.xyz@, t.lab@),
            OutputLine::Malformed => OutputLineView::Malformed,
            OutputLine::Failed => OutputLineView::Failed,
            OutputLine::Other => OutputLineView::Other,
        }
    }
}

/// What `line` means: by its trimmed text, blank if that is empty, a reading
/// if it begins with `Result is XYZ` (malformed if the literals are not
/// there), a failure if it begins with `Spot read failed`.
pub open spec fn output_line(line: Seq<u8>) -> OutputLineView {
    let t = trimmed(line);
    if t.len() == 0 {
        OutputLineView::Blank
    } else if READING_RESULT_SUBSTR.spec_bytes().is_prefix_of(t) {
        match reading_texts(t) {
            Some((xyz, lab)) => OutputLineView::Reading(xyz, lab),
            None => OutputLineView::Malformed,
        }
    } else if READING_FAILED_SUBSTR.spec_bytes().is_prefix_of(t) {
        OutputLineView::Failed
    } else {
        OutputLineView::Other
    }
}

/// Tells what a line of standard output means while a reading is awaited.
pub fn classify_output_line<'a>(line: &'a [u8]) -> (r: OutputLine<'a>)
    ensures
        r@ == output_line(line@),
{
    let t = trim(line);
    if t.len() == 0 {
        OutputLine::Blank
    } else if starts_with(t, READING_RESULT_SUBSTR.as_bytes()) {
        match parse_reading(t) {
            Some(texts) => OutputLine::Reading(texts),
            None => OutputLine::Malformed,
        }
    } else if starts_with(t, READING_FAILED_SUBSTR.as_bytes()) {
        OutputLine::Failed
    } else {
        OutputLine::Other
    }
}

/// Whether `text`, trimmed, holds the banner of the instrument being ready.
pub fn is_init_line(text: &[u8]) -> (r: bool)
    ensures
        r == contains(trimmed(text@), EXPECTED_INIT_LINE.spec_bytes()),
{
    contains_bytes(trim(text), EXPECTED_INIT_LINE.as_bytes())
}

/// Whether `text`, trimmed, ends with the prompt to take a reading.
pub fn is_reading_ready(text: &[u8]) -> (r: bool)
    ensures
        r == READING_READY_SUBSTR.spec_bytes().is_suffix_of(trimmed(text@)),
{
    ends_with(trim(text), READING_READY_SUBSTR.as_bytes())
}

/// Whether `line`, trimmed, begins a fatal diagnostic of the tool.
pub fn is_diagnostic(line: &[u8]) -> (r: bool)
    ensures
        r == DIAGNOSTIC_SUBSTR.spec_bytes().is_prefix_of(trimmed(line@)),
{
    starts_with(trim(line), DIAGNOSTIC_SUBSTR.as_bytes())
}

} // verus!
