//! The progress feed of a running export: typed events, and the reading of
//! one line of the encoder's status text.
//!
//! A line is `key=value`. A line without `=` is a fault of the stream and
//! ends the export; a `frame` whose value is no number, and any key that is
//! not known, is passed over.

use vstd::prelude::*;

verus! {

/// One event of an export, in the order the encoder produced them.
#[derive(Clone, Debug, PartialEq, Eq)]
pub enum Progress {
    /// The encoder runs.
    Started,
    /// The encoder has written this many frames.
    Frame(u64),
    /// The encoder reported the end; the export is complete.
    Done,
    /// The export failed; the text says why.
    Error(String),
}

/// Mathematical value of a [`Progress`].
pub enum ProgressView {
    Started,
    Frame(u64),
    Done,
    Error(Seq<char>),
}

impl View for Progress {
    type V = ProgressView;

    open spec fn view(&self) -> ProgressView {
        match self {
            Progress::Started => ProgressView::Started,
            Progress::Frame(count) => ProgressView::Frame(*count),
            Progress::Done => ProgressView::Done,
            Progress::Error(why) => ProgressView::Error(why@),
        }
    }
}

/// What one line of the encoder's status text says.
#[derive(Clone, Copy, Debug, PartialEq, Eq, Structural)]
pub enum Report {
    /// `frame=<count>`.
    Frame(u64),
    /// `progress=end`.
    End,
    /// A well-formed line that carries nothing of interest.
    Ignored,
    /// A line that is not of the form `key=value`.
    Malformed,
}

/// Whether `c` is white space: a character with the Unicode property
/// `White_Space`.
pub open spec fn is_space(c: char) -> bool {
    let code = c as u32;
    ||| 0x09 <= code <= 0x0d
    ||| code == 0x20
    ||| code == 0x85
    ||| code == 0xa0
    ||| code == 0x1680
    ||| 0x2000 <= code <= 0x200a
    ||| code == 0x2028
    ||| code == 0x2029
    ||| code == 0x202f
    ||| code == 0x205f
    ||| code == 0x3000
}

/// Length of `s` without the white space at its end.
pub open spec fn trimmed_len(s: Seq<char>) -> nat
    decreases s.len(),
{
    if s.len() > 0 && is_space(s.last()) {
        trimmed_len(s.drop_last())
    } else {
        s.len()
    }
}

/// `s` without the white space at its end.
pub open spec fn trim_end(s: Seq<char>) -> Seq<char> {
    s.take(trimmed_len(s) as int)
}

/// Position of the first `=` of `s` at or after `from`; the length of `s`
/// when there is none.
pub open spec fn next_equals(s: Seq<char>, from: int) -> int
    decreases s.len() - from,
{
    if from < 0 || from >= s.len() {
        s.len() as int
    } else if s[from] == '=' {
        from
    } else {
        next_equals(s, from + 1)
    }
}

/// Key and value of a line: the text before the first `=`, and the text
/// between it and the next `=` or the end. White space at the end of the
/// line belongs to neither. `None` for a line without `=`.
pub open spec fn key_value(line: Seq<char>) -> Option<(Seq<char>, Seq<char>)> {
    let text = trim_end(line);
    let first = next_equals(text, 0);
    if first == text.len() {
        None
    } else {
        Some((text.take(first), text.subrange(first + 1, next_equals(text, first + 1))))
    }
}

/// Whether `c` is one of the ten decimal digits.
pub open spec fn is_digit(c: char) -> bool {
    '0' <= c <= '9'
}

/// Whether `s` holds decimal digits only.
pub open spec fn all_digits(s: Seq<char>) -> bool {
    forall|i: int| 0 <= i < s.len() ==> is_digit(#[trigger] s[i])
}

/// The number that the digits of `s` write in base ten.
pub open spec fn digits_value(s: Seq<char>) -> nat
    decreases s.len(),
{
    if s.len() == 0 {
        0
    } else {
        (digits_value(s.drop_last()) * 10 + (s.last() as u32 - '0' as u32)) as nat
    }
}

/// The unsigned number that `s` writes: an optional `+`, then at least one
/// decimal digit and nothing else, with a value that fits in 64 bits.
pub open spec fn parse_u64(s: Seq<char>) -> Option<u64> {
    let digits = if s.len() > 0 && s[0] == '+' {
        s.skip(1)
    } else {
        s
    };
    if digits.len() > 0 && all_digits(digits) && digits_value(digits) <= u64::MAX {
        Some(digits_value(digits) as u64)
    } else {
        None
    }
}

/// What a line of status text says.
pub open spec fn classify(line: Seq<char>) -> Report {
    match key_value(line) {
        None => Report::Malformed,
        Some((key, value)) => if key == "frame"@ {
            match parse_u64(value) {
                Some(count) => Report::Frame(count),
                None => Report::Ignored,
            }
        } else if key == "progress"@ && value == "end"@ {
            Report::End
        } else {
            Report::Ignored
        },
    }
}

/// The characters of `s`.
pub fn chars_of(s: &str) -> (chars: Vec<char>)
    ensures
        chars@ == s@,
{
    let mut chars: Vec<char> = Vec::new();
    for c in it: s.chars()
        invariant
            chars@ == it.history(),
            it.seq() == s@,
    {
        chars.push(c);
    }
    assert(chars@ =~= s@);
    chars
}

/// Whether `c` is white space.
pub fn char_is_space(c: char) -> (space: bool)
    ensures
        space == is_space(c),
{
    let code: u32 = c as u32;
    (0x09 <= code && code <= 0x0d) || code == 0x20 || code == 0x85 || code == 0xa0 || code
        == 0x1680 || (0x2000 <= code && code <= 0x200a) || code == 0x2028 || code == 0x2029
        || code == 0x202f || code == 0x205f || code == 0x3000
}

/// Length of `chars` without the white space at its end.
fn trimmed_length(chars: &Vec<char>) -> (len: usize)
    ensures
        len == trimmed_len(chars@),
        len <= chars.len(),
{
    let mut len: usize = chars.len();
    assert(chars@.take(len as int) =~= chars@);
    while len > 0 && char_is_space(chars[len - 1])
        invariant
            len <= chars.len(),
            trimmed_len(chars@) == trimmed_len(chars@.take(len as int)),
        decreases len,
    {
        proof {
            let now = chars@.take(len as int);
            assert(now.last() == chars@[len - 1]);
            assert(now.drop_last() =~= chars@.take(len - 1));
        }
        len -= 1;
    }
    proof {
        let now = chars@.take(len as int);
        if len > 0 {
            assert(now.last() == chars@[len - 1]);
        }
    }
    len
}

/// Position of the first `=` among the first `end` characters, at or after
/// `from`; `end` when there is none.
fn find_equals(chars: &Vec<char>, from: usize, end: usize) -> (at: usize)
    requires
        from <= end <= chars.len(),
    ensures
        at == next_equals(chars@.take(end as int), from as int),
        from <= at <= end,
{
    let ghost text = chars@.take(end as int);
    let mut at: usize = from;
    while at < end && chars[at] != '='
        invariant
            from <= at <= end <= chars.len(),
            text == chars@.take(end as int),
            next_equals(text, from as int) == next_equals(text, at as int),
        decreases end - at,
    {
        assert(text[at as int] == chars@[at as int]);
        at += 1;
    }
    proof {
        if at < end {
            assert(text[at as int] == chars@[at as int]);
        }
    }
    at
}

/// Whether the characters of `chars` from `from` up to `to` spell `word`.
fn spells(chars: &Vec<char>, from: usize, to: usize, word: &str) -> (same: bool)
    requires
        from <= to <= chars.len(),
    ensures
        same == (chars@.subrange(from as int, to as int) == word@),
{
    let letters = chars_of(word);
    let ghost part = chars@.subrange(from as int, to as int);
    if letters.len() != to - from {
        return false;
    }
    let mut i: usize = 0;
    while i < letters.len()
        invariant
            i <= letters.len(),
            from <= to <= chars.len(),
            letters.len() == to - from,
            letters@ == word@,
            part == chars@.subrange(from as int, to as int),
            forall|k: int| 0 <= k < i ==> part[k] == letters@[k],
        decreases letters.len() - i,
    {
        assert(part[i as int] == chars@[from + i]);
        if chars[from + i] != letters[i] {
            assert(part[i as int] != word@[i as int]);
            return false;
        }
        i += 1;
    }
    assert(part =~= letters@);
    true
}

/// The decimal value of a digit, `None` for any other character.
fn digit_of(c: char) -> (d: Option<u64>)
    ensures
        d is Some <==> is_digit(c),
        d is Some ==> d->0 == c as u32 - '0' as u32,
{
    if '0' <= c && c <= '9' {
        Some((c as u32 - '0' as u32) as u64)
    } else {
        None
    }
}

/// The numerals are monotone: a numeral that continues another writes a
/// number at least ten times as large.
proof fn lemma_digits_grow(s: Seq<char>, k: int)
    requires
        0 <= k <= s.len(),
        all_digits(s),
    ensures
        digits_value(s.take(k)) <= digits_value(s),
    decreases s.len() - k,
{
    if k < s.len() {
        let longer = s.take(k + 1);
        assert(longer.drop_last() =~= s.take(k));
        assert(is_digit(s[k]));
        assert(longer.last() == s[k]);
        lemma_digits_grow(s, k + 1);
    } else {
        assert(s.take(k) =~= s);
    }
}

/// The unsigned number written by the characters of `chars` from `from` up
/// to `to`.
#[verifier::loop_isolation(false)]
fn read_u64(chars: &Vec<char>, from: usize, to: usize) -> (number: Option<u64>)
    requires
        from <= to <= chars.len(),
    ensures
        number == parse_u64(chars@.subrange(from as int, to as int)),
{
    let ghost text = chars@.subrange(from as int, to as int);
    let start: usize = if from < to && chars[from] == '+' {
        from + 1
    } else {
        from
    };
    let ghost digits = chars@.subrange(start as int, to as int);
    proof {
        if from < to {
            assert(text[0] == chars@[from as int]);
        }
        if start == from {
            assert(digits =~= text);
        } else {
            assert(digits =~= text.skip(1));
        }
    }
    if start == to {
        return None;
    }
    let mut value: u64 = 0;
    let mut i: usize = start;
    while i < to
        invariant
            start <= i <= to <= chars.len(),
            digits == chars@.subrange(start as int, to as int),
            all_digits(digits.take(i - start)),
            value == digits_value(digits.take(i - start)),
        decreases to - i,
    {
        let ghost read = digits.take(i - start);
        let ghost next = digits.take(i - start + 1);
        proof {
            assert(next.drop_last() =~= read);
            assert(next.last() == chars@[i as int]);
        }
        let digit = match digit_of(chars[i]) {
            Some(digit) => digit,
            None => {
                assert(digits[i - start] == chars@[i as int]);
                return None;
            },
        };
        proof {
            assert forall|k: int| 0 <= k < next.len() implies is_digit(#[trigger] next[k]) by {
                if k < read.len() {
                    assert(next[k] == read[k]);
                }
            }
        }
        if value > (u64::MAX - digit) / 10 {
            proof {
                assert(digits_value(next) > u64::MAX);
                if all_digits(digits) {
                    lemma_digits_grow(digits, i - start + 1);
                }
            }
            return None;
        }
        value = value * 10 + digit;
        i += 1;
    }
    assert(digits.take(i - start) =~= digits);
    Some(value)
}

/// The unsigned number that a text writes, if it writes one.
pub fn parse_number(text: &str) -> (number: Option<u64>)
    ensures
        number == parse_u64(text@),
{
    let chars = chars_of(text);
    assert(chars@.subrange(0, chars@.len() as int) =~= text@);
    read_u64(&chars, 0, chars.len())
}

/// Reads one line of the encoder's status text.
pub fn parse_line(line: &str) -> (report: Report)
    ensures
        report == classify(line@),
{
    let chars = chars_of(line);
    let end = trimmed_length(&chars);
    let ghost text = trim_end(line@);
    let first = find_equals(&chars, 0, end);
    if first == end {
        return Report::Malformed;
    }
    let second = find_equals(&chars, first + 1, end);
    proof {
        assert(chars@.subrange(0, first as int) =~= text.take(first as int));
        assert(chars@.subrange(first + 1, second as int) =~= text.subrange(
            first + 1,
            second as int,
        ));
    }
    if spells(&chars, 0, first, "frame") {
        match read_u64(&chars, first + 1, second) {
            Some(count) => Report::Frame(count),
            None => Report::Ignored,
        }
    } else if spells(&chars, 0, first, "progress") && spells(&chars, first + 1, second, "end") {
        Report::End
    } else {
        Report::Ignored
    }
}

} // verus!
