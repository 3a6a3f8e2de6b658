//! Character-level helpers over strings.

use vstd::prelude::*;
use vstd::string::StringSliceAdditionalSpecFns;
use vstd::utf8::encode_utf8_decode_utf8;

verus! {

/// The character sequences that a sequence of strings stands for.
pub open spec fn views(strings: Seq<String>) -> Seq<Seq<char>> {
    strings.map_values(|s: String| s@)
}

/// The characters of a string that may be absent.
pub open spec fn optional_string(s: Option<String>) -> Option<Seq<char>> {
    match s {
        Some(text) => Some(text@),
        None => None,
    }
}

/// The characters of a text that was had, or of the reason why it was not.
pub open spec fn fallible_str(s: Result<&str, &str>) -> Result<Seq<char>, Seq<char>> {
    match s {
        Ok(text) => Ok(text@),
        Err(cause) => Err(cause@),
    }
}

/// The characters of `s`, in order.
pub fn to_chars(s: &str) -> (out: Vec<char>)
    ensures
        out@ == s@,
{
    let mut out: Vec<char> = Vec::new();
    for c in it: s.chars()
        invariant
            it.seq() == s@,
            out@ == s@.take(it.index() as int),
    {
        out.push(c);
    }
    out
}

/// Whether two strings hold the same characters.
pub fn str_eq(a: &str, b: &str) -> (same: bool)
    ensures
        same == (a@ == b@),
{
    let x = a.as_bytes();
    let y = b.as_bytes();
    proof {
        encode_utf8_decode_utf8(a@);
        encode_utf8_decode_utf8(b@);
    }
    if x.len() != y.len() {
        return false;
    }
    let mut i: usize = 0;
    while i < x.len()
        invariant
            i <= x.len(),
            x.len() == y.len(),
            x@ == a.spec_bytes(),
            y@ == b.spec_bytes(),
            forall|k: int| 0 <= k < i ==> x@[k] == y@[k],
        decreases x.len() - i,
    {
        if x[i] != y[i] {
            return false;
        }
        i += 1;
    }
    assert(x@ =~= y@);
    true
}

/// Whether `c` counts as white space: the answer of `char::is_whitespace`,
/// which goes by the Unicode property White_Space.
pub uninterp spec fn is_whitespace(c: char) -> bool;

/// Calls `char::is_whitespace`. The contract only gives the answer its name:
/// it depends on the character alone.
#[verifier::external_body]
fn char_is_whitespace(c: char) -> (white: bool)
    ensures
        white == is_whitespace(c),
{
    c.is_whitespace()
}

/// `s` without the white space at its start.
pub open spec fn trim_start(s: Seq<char>) -> Seq<char>
    decreases s.len(),
{
    if s.len() > 0 && is_whitespace(s[0]) {
        trim_start(s.drop_first())
    } else {
        s
    }
}

/// `s` without the white space at its end.
pub open spec fn trim_end(s: Seq<char>) -> Seq<char>
    decreases s.len(),
{
    if s.len() > 0 && is_whitespace(s.last()) {
        trim_end(s.drop_last())
    } else {
        s
    }
}

/// `s` without the white space at either end.
pub open spec fn trim(s: Seq<char>) -> Seq<char> {
    trim_end(trim_start(s))
}

/// The position of the first line feed at or after `from`, or the length of
/// `s` where none follows.
pub open spec fn line_end(s: Seq<char>, from: int) -> int
    decreases s.len() - from,
{
    if from < 0 || from >= s.len() {
        s.len() as int
    } else if s[from] == '\n' {
        from
    } else {
        line_end(s, from + 1)
    }
}

/// A line's content once its line feed is gone: a carriage return that stood
/// directly before the line feed goes with it.
pub open spec fn strip_carriage_return(line: Seq<char>) -> Seq<char> {
    if line.len() > 0 && line.last() == '\r' {
        line.drop_last()
    } else {
        line
    }
}

/// The lines of `s` that begin at or after `from`, where `from` starts a line.
/// A line ends at a line feed or at the end of the text. A last line without a
/// line feed keeps a carriage return at its end, and no empty line follows a
/// final line feed.
pub open spec fn lines_from(s: Seq<char>, from: int) -> Seq<Seq<char>>
    decreases s.len() - from,
    via lines_from_decreases
{
    if from < 0 || from >= s.len() {
        Seq::empty()
    } else {
        let end = line_end(s, from);
        if end < s.len() {
            seq![strip_carriage_return(s.subrange(from, end))] + lines_from(s, end + 1)
        } else {
            seq![s.subrange(from, end)]
        }
    }
}

#[via_fn]
proof fn lines_from_decreases(s: Seq<char>, from: int) {
    if 0 <= from < s.len() {
        lemma_line_end_bounds(s, from);
    }
}

/// The lines of a text.
pub open spec fn lines(s: Seq<char>) -> Seq<Seq<char>> {
    lines_from(s, 0)
}

/// A line ends no earlier than it starts, no later than the text does, and
/// holds no line feed.
pub proof fn lemma_line_end_bounds(s: Seq<char>, from: int)
    requires
        0 <= from <= s.len(),
    ensures
        from <= line_end(s, from) <= s.len(),
        line_end(s, from) < s.len() ==> s[line_end(s, from)] == '\n',
        forall|k: int| from <= k < line_end(s, from) ==> s[k] != '\n',
    decreases s.len() - from,
{
    if from < s.len() && s[from] != '\n' {
        lemma_line_end_bounds(s, from + 1);
    }
}

/// The first of `lines` that begins with `prefix`.
pub open spec fn first_with_prefix(lines: Seq<Seq<char>>, prefix: Seq<char>) -> Option<Seq<char>>
    decreases lines.len(),
{
    if lines.len() == 0 {
        None
    } else if prefix.is_prefix_of(lines[0]) {
        Some(lines[0])
    } else {
        first_with_prefix(lines.drop_first(), prefix)
    }
}

/// The value of a field in a text of lines of the form "name value": what
/// follows `field` on the first line that begins with it, trimmed.
pub open spec fn field_value(text: Seq<char>, field: Seq<char>) -> Option<Seq<char>> {
    match first_with_prefix(lines(text), field) {
        Some(line) => Some(trim(line.skip(field.len() as int))),
        None => None,
    }
}

/// Whether `chars[from..to]` begins with `prefix`.
fn starts_with_at(chars: &Vec<char>, from: usize, to: usize, prefix: &Vec<char>) -> (found: bool)
    requires
        from <= to <= chars.len(),
    ensures
        found == prefix@.is_prefix_of(chars@.subrange(from as int, to as int)),
{
    if prefix.len() > to - from {
        return false;
    }
    let ghost line = chars@.subrange(from as int, to as int);
    let mut k: usize = 0;
    while k < prefix.len()
        invariant
            k <= prefix.len() <= to - from,
            from <= to <= chars.len(),
            line == chars@.subrange(from as int, to as int),
            forall|j: int| 0 <= j < k ==> prefix@[j] == line[j],
        decreases prefix.len() - k,
    {
        if chars[from + k] != prefix[k] {
            assert(line[k as int] != prefix@[k as int]);
            assert(line.subrange(0, prefix@.len() as int)[k as int] == line[k as int]);
            return false;
        }
        k += 1;
    }
    assert(prefix@ =~= line.subrange(0, prefix@.len() as int));
    true
}

/// The bounds of `chars[from..to]` once trimmed.
fn trim_bounds(chars: &Vec<char>, from: usize, to: usize) -> (bounds: (usize, usize))
    requires
        from <= to <= chars.len(),
    ensures
        from <= bounds.0 <= bounds.1 <= to,
        chars@.subrange(bounds.0 as int, bounds.1 as int) == trim(
            chars@.subrange(from as int, to as int),
        ),
{
    let mut lo = from;
    while lo < to && char_is_whitespace(chars[lo])
        invariant
            from <= lo <= to <= chars.len(),
            trim_start(chars@.subrange(from as int, to as int)) == trim_start(
                chars@.subrange(lo as int, to as int),
            ),
        decreases to - lo,
    {
        assert(chars@.subrange(lo as int, to as int).drop_first() =~= chars@.subrange(
            lo as int + 1,
            to as int,
        ));
        lo += 1;
    }
    assert(trim_start(chars@.subrange(from as int, to as int)) == chars@.subrange(
        lo as int,
        to as int,
    ));
    let mut hi = to;
    while hi > lo && char_is_whitespace(chars[hi - 1])
        invariant
            lo <= hi <= to <= chars.len(),
            trim_end(chars@.subrange(lo as int, to as int)) == trim_end(
                chars@.subrange(lo as int, hi as int),
            ),
        decreases hi - lo,
    {
        assert(chars@.subrange(lo as int, hi as int).drop_last() =~= chars@.subrange(
            lo as int,
            hi as int - 1,
        ));
        hi -= 1;
    }
    (lo, hi)
}

/// Looks a field up in a text of lines: finds the first line that begins with
/// `field` and returns the rest of that line, trimmed.
pub fn find_field(text: &str, field: &str) -> (value: Option<String>)
    ensures
        value.is_some() == field_value(text@, field@).is_some(),
        value.is_some() ==> value.unwrap()@ == field_value(text@, field@).unwrap(),
{
    let chars = to_chars(text);
    let prefix = to_chars(field);
    let n = chars.len();
    let mut from: usize = 0;
    while from < n
        invariant
            from <= n,
            n == chars.len(),
            chars@ == text@,
            prefix@ == field@,
            first_with_prefix(lines(text@), field@) == first_with_prefix(
                lines_from(text@, from as int),
                field@,
            ),
        decreases n - from,
    {
        let mut end = from;
        while end < n && chars[end] != '\n'
            invariant
                from <= end <= n,
                n == chars.len(),
                chars@ == text@,
                line_end(text@, from as int) == line_end(text@, end as int),
            decreases n - end,
        {
            end += 1;
        }
        let stop = if end < n && end > from && chars[end - 1] == '\r' {
            end - 1
        } else {
            end
        };
        let ghost rest = if end < n {
            lines_from(text@, end as int + 1)
        } else {
            Seq::empty()
        };
        let ghost line = chars@.subrange(from as int, stop as int);
        proof {
            let raw = text@.subrange(from as int, end as int);
            if end < n {
                if end > from && chars[end - 1] == '\r' {
                    assert(raw.drop_last() =~= line);
                } else {
                    assert(raw =~= line);
                }
            }
            assert(lines_from(text@, from as int) =~= seq![line] + rest);
            assert((seq![line] + rest).drop_first() =~= rest);
        }
        if starts_with_at(&chars, from, stop, &prefix) {
            let skip = from + prefix.len();
            let (lo, hi) = trim_bounds(&chars, skip, stop);
            assert(line.skip(field@.len() as int) =~= chars@.subrange(skip as int, stop as int));
            return Some(text.substring_char(lo, hi).to_owned());
        }
        if end < n {
            from = end + 1;
        } else {
            from = n;
        }
    }
    None
}

} // verus!
