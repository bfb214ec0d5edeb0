//! Output parser: extracts the average round-trip latency from the raw text
//! an echo probe printed.
//!
//! Two dialects of the summary line are accepted, one introduced by the
//! label `rtt` (min/avg/max/mdev style) and one introduced by `round-trip`
//! (min/avg/max/stddev style). Both share the shape `<label> = A/B/C/D ms`,
//! where the unit may or may not be preceded by a space, and each field is a
//! run of digits and decimal points. The second of the four slash-separated
//! fields is the average latency and is the only value extracted.
//!
//! The scan is a single pass over the whole text, not line-by-line: a
//! summary is a ` = ` separator preceded on its own line by one of the two
//! labels and followed by the four fields and the unit. The first such
//! separator wins. If none exists the text has no match; if the second
//! field of the winning separator is not a well-formed decimal number the
//! text has a numeric-format fault. Both failures are recoverable and the
//! measurement cycle treats them identically (latency absent).

use vstd::prelude::*;

verus! {

/// Why no average latency could be extracted from the raw text.
#[derive(Debug, PartialEq, Eq, Structural, Clone, Copy)]
pub enum ParseError {
    /// No summary line of either dialect occurs in the text.
    NoMatch,
    /// A summary line was found, but its second field is not a
    /// well-formed decimal number.
    NumericFormat,
}

/// Bytes that may occur inside a numeric field of the summary line:
/// ASCII digits and the decimal point.
pub open spec fn is_field_byte(b: u8) -> bool {
    b == 46 || (48 <= b && b <= 57)
}

/// An ASCII digit.
pub open spec fn is_digit(b: u8) -> bool {
    48 <= b && b <= 57
}

/// The label `rtt` starts at position `i`.
pub open spec fn rtt_at(s: Seq<u8>, i: int) -> bool {
    &&& 0 <= i
    &&& i + 3 <= s.len()
    &&& s[i] == 114  // 'r'
    &&& s[i + 1] == 116  // 't'
    &&& s[i + 2] == 116  // 't'
}

/// The label `round-trip` starts at position `i`.
pub open spec fn round_trip_at(s: Seq<u8>, i: int) -> bool {
    &&& 0 <= i
    &&& i + 10 <= s.len()
    &&& s[i] == 114  // 'r'
    &&& s[i + 1] == 111  // 'o'
    &&& s[i + 2] == 117  // 'u'
    &&& s[i + 3] == 110  // 'n'
    &&& s[i + 4] == 100  // 'd'
    &&& s[i + 5] == 45  // '-'
    &&& s[i + 6] == 116  // 't'
    &&& s[i + 7] == 114  // 'r'
    &&& s[i + 8] == 105  // 'i'
    &&& s[i + 9] == 112  // 'p'
}

/// One of the two dialect labels ends exactly at position `e`.
pub open spec fn label_ends_at(s: Seq<u8>, e: int) -> bool {
    rtt_at(s, e - 3) || round_trip_at(s, e - 10)
}

/// No line break occurs in `s[a..b)`.
pub open spec fn no_newline(s: Seq<u8>, a: int, b: int) -> bool {
    forall|k: int| a <= k < b ==> s[k] != 10
}

/// Some dialect label ends at or before `j` with no line break between the
/// label's end and `j`: position `j` sits on a line that carries a label.
pub open spec fn label_on_line_before(s: Seq<u8>, j: int) -> bool {
    exists|e: int| #![auto] label_ends_at(s, e) && e <= j && no_newline(s, e, j)
}

/// The three-byte separator ` = ` starts at position `j`.
pub open spec fn sep_at(s: Seq<u8>, j: int) -> bool {
    &&& 0 <= j
    &&& j + 3 <= s.len()
    &&& s[j] == 32  // ' '
    &&& s[j + 1] == 61  // '='
    &&& s[j + 2] == 32  // ' '
}

/// The unit `ms`, with or without one leading space, starts at position `d`.
pub open spec fn unit_from(s: Seq<u8>, d: int) -> bool {
    ||| (0 <= d && d + 2 <= s.len() && s[d] == 109 && s[d + 1] == 115)
    ||| (0 <= d && d + 3 <= s.len() && s[d] == 32 && s[d + 1] == 109 && s[d + 2] == 115)
}

/// End of the run of field bytes that starts at `p`: the first position at
/// or after `p` holding no digit and no decimal point.
pub open spec fn field_end(s: Seq<u8>, p: int) -> int
    decreases s.len() - p,
{
    if 0 <= p < s.len() && is_field_byte(s[p]) {
        field_end(s, p + 1)
    } else {
        p
    }
}

/// Four nonempty slash-separated numeric fields, then the unit, start at
/// position `p`.
pub open spec fn fields_at(s: Seq<u8>, p: int) -> bool {
    let a = field_end(s, p);
    let b = field_end(s, a + 1);
    let c = field_end(s, b + 1);
    let d = field_end(s, c + 1);
    &&& 0 <= p
    &&& p < a && a < s.len() && s[a] == 47  // '/'
    &&& a + 1 < b && b < s.len() && s[b] == 47  // '/'
    &&& b + 1 < c && c < s.len() && s[c] == 47  // '/'
    &&& c + 1 < d
    &&& unit_from(s, d)
}

/// The second of the four fields that start at `p`: the average latency.
pub open spec fn avg_text(s: Seq<u8>, p: int) -> Seq<u8> {
    s.subrange(field_end(s, p) + 1, field_end(s, field_end(s, p) + 1))
}

/// A complete summary occurrence anchored at its ` = ` separator: the
/// separator starts at `j` on a line that carries a dialect label, and the
/// four fields with their unit follow it.
pub open spec fn summary_at(s: Seq<u8>, j: int) -> bool {
    sep_at(s, j) && label_on_line_before(s, j) && fields_at(s, j + 3)
}

/// The text contains at least one summary occurrence.
pub open spec fn has_summary(s: Seq<u8>) -> bool {
    exists|j: int| summary_at(s, j)
}

/// `j` anchors the leftmost summary occurrence in the text.
pub open spec fn first_summary(s: Seq<u8>, j: int) -> bool {
    summary_at(s, j) && (forall|k: int| 0 <= k < j ==> !summary_at(s, k))
}

/// Number of decimal points in `f`.
pub open spec fn dot_count(f: Seq<u8>) -> int
    decreases f.len(),
{
    if f.len() == 0 {
        0
    } else {
        dot_count(f.drop_last()) + if f.last() == 46 { 1int } else { 0int }
    }
}

/// `f` holds at least one digit.
pub open spec fn has_digit(f: Seq<u8>) -> bool {
    exists|k: int| 0 <= k < f.len() && is_digit(f[k])
}

/// `f` is a well-formed decimal number: nonempty, only digits and decimal
/// points, at most one decimal point, at least one digit. Exactly these
/// digit-and-point strings are accepted by a 64-bit float reader.
pub open spec fn decimal_text(f: Seq<u8>) -> bool {
    &&& f.len() > 0
    &&& (forall|k: int| 0 <= k < f.len() ==> is_field_byte(f[k]))
    &&& dot_count(f) <= 1
    &&& has_digit(f)
}

/// The average latency extracted from a probe's output: the text of a
/// well-formed decimal number of milliseconds.
pub struct AvgLatency {
    text: Vec<u8>,
}

impl View for AvgLatency {
    type V = Seq<u8>;

    closed spec fn view(&self) -> Seq<u8> {
        self.text@
    }
}

impl AvgLatency {
    /// The invariant every value of this type carries: its text is a
    /// well-formed decimal number.
    pub open spec fn wf(&self) -> bool {
        decimal_text(self@)
    }

    /// The decimal text of the latency, in milliseconds.
    pub fn as_bytes(&self) -> (r: &[u8])
        ensures
            r@ == self@,
    {
        self.text.as_slice()
    }
}

/// How carrying a label across one position evolves: position `j + 1` sits
/// on a labelled line exactly when `j` does and `s[j]` is no line break, or
/// a label ends exactly at `j + 1`.
proof fn lemma_label_line_step(s: Seq<u8>, j: int)
    requires
        0 <= j < s.len(),
    ensures
        label_on_line_before(s, j + 1) == ((label_on_line_before(s, j) && s[j] != 10)
            || label_ends_at(s, j + 1)),
{
    if label_ends_at(s, j + 1) {
        assert(label_ends_at(s, j + 1) && j + 1 <= j + 1 && no_newline(s, j + 1, j + 1));
    }
    if label_on_line_before(s, j) && s[j] != 10 {
        let e = choose|e: int| #![auto] label_ends_at(s, e) && e <= j && no_newline(s, e, j);
        assert(no_newline(s, e, j + 1));
        assert(label_ends_at(s, e) && e <= j + 1 && no_newline(s, e, j + 1));
    }
    if label_on_line_before(s, j + 1) {
        let e = choose|e: int| #![auto] label_ends_at(s, e) && e <= j + 1 && no_newline(s, e, j + 1);
        if e <= j {
            assert(no_newline(s, e, j));
            assert(s[j] != 10);
            assert(label_ends_at(s, e) && e <= j && no_newline(s, e, j));
        }
    }
}

/// A text in which neither dialect label occurs at any position has no
/// summary at all, so parsing it must end in the no-match outcome.
pub proof fn lemma_no_label_no_summary(s: Seq<u8>)
    requires
        forall|i: int| !rtt_at(s, i) && !round_trip_at(s, i),
    ensures
        !has_summary(s),
{
    assert forall|j: int| !summary_at(s, j) by {
        if label_on_line_before(s, j) {
            let e = choose|e: int| #![auto] label_ends_at(s, e) && e <= j && no_newline(s, e, j);
            assert(!rtt_at(s, e - 3) && !round_trip_at(s, e - 10));
        }
    }
}

/// At most one position anchors the leftmost summary: the result the
/// parser's contract speaks of is uniquely determined.
pub proof fn lemma_first_summary_unique(s: Seq<u8>, j1: int, j2: int)
    requires
        first_summary(s, j1),
        first_summary(s, j2),
    ensures
        j1 == j2,
{
    assert(sep_at(s, j1) && sep_at(s, j2));
    if j1 < j2 {
        assert(!summary_at(s, j1));
    }
    if j2 < j1 {
        assert(!summary_at(s, j2));
    }
}

/// One of the two dialect labels ends exactly at position `e` of `raw`.
fn label_end_here(raw: &[u8], e: usize) -> (r: bool)
    requires
        e <= raw.len(),
    ensures
        r == label_ends_at(raw@, e as int),
{
    let rtt = e >= 3 && raw[e - 3] == 114 && raw[e - 2] == 116 && raw[e - 1] == 116;
    let round_trip = e >= 10 && raw[e - 10] == 114 && raw[e - 9] == 111 && raw[e - 8] == 117
        && raw[e - 7] == 110 && raw[e - 6] == 100 && raw[e - 5] == 45 && raw[e - 4] == 116
        && raw[e - 3] == 114 && raw[e - 2] == 105 && raw[e - 1] == 112;
    rtt || round_trip
}

/// Walks to the end of the run of field bytes that starts at `p`.
fn scan_field_end(raw: &[u8], p: usize) -> (e: usize)
    requires
        p <= raw.len(),
    ensures
        e as int == field_end(raw@, p as int),
        p <= e <= raw.len(),
{
    let mut i: usize = p;
    while i < raw.len() && (raw[i] == 46 || (48 <= raw[i] && raw[i] <= 57))
        invariant
            p <= i <= raw.len(),
            field_end(raw@, p as int) == field_end(raw@, i as int),
        decreases raw.len() - i,
    {
        i = i + 1;
    }
    i
}

/// Recognises the four slash-separated fields and the unit starting at `p`,
/// and hands back the bounds of the second field (the average).
fn match_fields(raw: &[u8], p: usize) -> (r: Option<(usize, usize)>)
    requires
        p <= raw.len(),
    ensures
        r is Some <==> fields_at(raw@, p as int),
        r matches Some(span) ==> {
            &&& span.0 as int == field_end(raw@, p as int) + 1
            &&& span.1 as int == field_end(raw@, span.0 as int)
            &&& span.0 <= span.1 <= raw.len()
        },
{
    let a = scan_field_end(raw, p);
    if a == p || a == raw.len() || raw[a] != 47 {
        return None;
    }
    let b = scan_field_end(raw, a + 1);
    if b == a + 1 || b == raw.len() || raw[b] != 47 {
        return None;
    }
    let c = scan_field_end(raw, b + 1);
    if c == b + 1 || c == raw.len() || raw[c] != 47 {
        return None;
    }
    let d = scan_field_end(raw, c + 1);
    if d == c + 1 {
        return None;
    }
    let unit_ok = (raw.len() - d >= 2 && raw[d] == 109 && raw[d + 1] == 115) || (raw.len() - d >= 3
        && raw[d] == 32 && raw[d + 1] == 109 && raw[d + 2] == 115);
    if unit_ok {
        Some((a + 1, b))
    } else {
        None
    }
}

/// Copies `raw[a..b)` out into a fresh vector.
fn copy_range(raw: &[u8], a: usize, b: usize) -> (v: Vec<u8>)
    requires
        a <= b <= raw.len(),
    ensures
        v@ == raw@.subrange(a as int, b as int),
{
    let mut v: Vec<u8> = Vec::new();
    let mut i: usize = a;
    while i < b
        invariant
            a <= i <= b <= raw.len(),
            v@ =~= raw@.subrange(a as int, i as int),
        decreases b - i,
    {
        v.push(raw[i]);
        i = i + 1;
        proof {
            assert(v@ =~= raw@.subrange(a as int, i as int));
        }
    }
    proof {
        assert(v@ =~= raw@.subrange(a as int, b as int));
    }
    v
}

/// Decides whether `f` is a well-formed decimal number.
fn is_decimal(f: &Vec<u8>) -> (r: bool)
    ensures
        r == decimal_text(f@),
{
    let mut dots: usize = 0;
    let mut digit_seen = false;
    let mut all_field = true;
    let mut i: usize = 0;
    while i < f.len()
        invariant
            0 <= i <= f.len(),
            dots <= i,
            dots == dot_count(f@.subrange(0, i as int)),
            digit_seen == exists|k: int| 0 <= k < i && is_digit(f@[k]),
            all_field == forall|k: int| 0 <= k < i ==> is_field_byte(f@[k]),
        decreases f.len() - i,
    {
        let byte = f[i];
        proof {
            let pre = f@.subrange(0, i as int);
            let pre1 = f@.subrange(0, i as int + 1);
            assert(pre1.drop_last() =~= pre);
            assert(pre1.last() == f@[i as int]);
        }
        let new_dots = if byte == 46 {
            dots + 1
        } else {
            dots
        };
        let new_digit = digit_seen || (48 <= byte && byte <= 57);
        let new_all = all_field && (byte == 46 || (48 <= byte && byte <= 57));
        proof {
            if !(digit_seen || (48 <= byte && byte <= 57)) {
                assert(forall|k: int| 0 <= k < i + 1 ==> !is_digit(f@[k]));
            }
            if all_field && (byte == 46 || (48 <= byte && byte <= 57)) {
                assert(forall|k: int| 0 <= k < i + 1 ==> is_field_byte(f@[k]));
            }
        }
        dots = new_dots;
        digit_seen = new_digit;
        all_field = new_all;
        i = i + 1;
    }
    proof {
        assert(f@.subrange(0, f@.len() as int) =~= f@);
    }
    f.len() > 0 && dots <= 1 && digit_seen && all_field
}

/// Extracts the average round-trip latency from the raw text of an echo
/// probe.
///
/// The text matches when it contains a ` = ` separator preceded on its line
/// by the label `rtt` or `round-trip` and followed by four nonempty
/// slash-separated runs of digits and decimal points and the unit `ms`
/// (with or without one leading space). The leftmost such separator is the
/// one read. The second field of that occurrence is the average latency: it
/// is returned when it is a well-formed decimal number, and the outcome is
/// `NumericFormat` when it is not. A text without any such occurrence is
/// `NoMatch`.
pub fn parse(raw: &[u8]) -> (r: Result<AvgLatency, ParseError>)
    ensures
        match r {
            Ok(avg) => exists|j: int|
                #![auto]
                first_summary(raw@, j) && decimal_text(avg_text(raw@, j + 3)) && avg@ == avg_text(
                    raw@,
                    j + 3,
                ),
            Err(ParseError::NoMatch) => !has_summary(raw@),
            Err(ParseError::NumericFormat) => exists|j: int|
                #![auto]
                first_summary(raw@, j) && !decimal_text(avg_text(raw@, j + 3)),
        },
{
    let n = raw.len();
    let mut live = false;
    let mut j: usize = 0;
    while j < n
        invariant
            n == raw@.len(),
            j <= n,
            live == label_on_line_before(raw@, j as int),
            forall|k: int| 0 <= k < j ==> !summary_at(raw@, k),
        decreases n - j,
    {
        if live && raw[j] == 32 && n - j >= 3 && raw[j + 1] == 61 && raw[j + 2] == 32 {
            match match_fields(raw, j + 3) {
                Some(span) => {
                    proof {
                        assert(sep_at(raw@, j as int));
                        assert(summary_at(raw@, j as int));
                        assert(first_summary(raw@, j as int));
                        assert(avg_text(raw@, j as int + 3) == raw@.subrange(
                            span.0 as int,
                            span.1 as int,
                        ));
                    }
                    let text = copy_range(raw, span.0, span.1);
                    if is_decimal(&text) {
                        return Ok(AvgLatency { text });
                    } else {
                        return Err(ParseError::NumericFormat);
                    }
                },
                None => {
                    proof {
                        assert(!fields_at(raw@, j as int + 3));
                        assert(!summary_at(raw@, j as int));
                    }
                },
            }
        } else {
            proof {
                assert(!summary_at(raw@, j as int));
            }
        }
        proof {
            lemma_label_line_step(raw@, j as int);
        }
        live = (live && raw[j] != 10) || label_end_here(raw, j + 1);
        j = j + 1;
    }
    proof {
        assert(forall|k: int| summary_at(raw@, k) ==> 0 <= k && k + 3 <= raw@.len());
        assert(forall|k: int| 0 <= k < n ==> !summary_at(raw@, k));
        assert(!has_summary(raw@));
    }
    Err(ParseError::NoMatch)
}

} // verus!
