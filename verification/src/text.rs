//! Verified text scanning: decimal number parsing as `str::parse` does it,
//! newline splitting as `str::lines` does it, and whitespace-delimited token
//! extraction.  Everything is specified over `Seq<char>` views.

use vstd::prelude::*;
use vstd::string::StrSliceExecFns;

verus! {

/// Ceiling for accumulated digit values: large enough that every caller's
/// own range check is decided, small enough that the accumulator cannot
/// overflow a `u64`.
pub const DIGIT_CAP: u64 = 0x1000_0000_0000;

pub open spec fn is_digit(c: char) -> bool {
    48 <= c as u32 && c as u32 <= 57
}

pub open spec fn digit_val(c: char) -> int {
    c as u32 - 48
}

pub open spec fn all_digits(s: Seq<char>) -> bool {
    forall|i: int| 0 <= i < s.len() ==> is_digit(s[i])
}

/// The value of a digit string read in base ten.
pub open spec fn digits_val(s: Seq<char>) -> int
    decreases s.len(),
{
    if s.len() == 0 {
        0
    } else {
        digits_val(s.drop_last()) * 10 + digit_val(s.last())
    }
}

pub proof fn lemma_digits_val_nonneg(s: Seq<char>)
    requires
        all_digits(s),
    ensures
        digits_val(s) >= 0,
    decreases s.len(),
{
    if s.len() > 0 {
        assert(all_digits(s.drop_last()));
        lemma_digits_val_nonneg(s.drop_last());
    }
}

/// A digit string is worth at least any of its prefixes.
pub proof fn lemma_digits_val_prefix(s: Seq<char>, i: int)
    requires
        all_digits(s),
        0 <= i <= s.len(),
    ensures
        digits_val(s.take(i)) <= digits_val(s),
    decreases s.len() - i,
{
    if i < s.len() {
        assert(s.take(i + 1).drop_last() =~= s.take(i));
        assert(s.take(i + 1).last() == s[i]);
        assert(all_digits(s.take(i)));
        lemma_digits_val_nonneg(s.take(i));
        assert(digits_val(s.take(i)) <= digits_val(s.take(i + 1)));
        lemma_digits_val_prefix(s, i + 1);
    } else {
        assert(s.take(i) =~= s);
    }
}

/// Reads the characters of `s` in `[from, to)` as a base-ten number.
/// Returns its value when the range is a nonempty run of digits worth at
/// most [`DIGIT_CAP`]; callers decide their own tighter range checks.
pub fn scan_digits(s: &str, from: usize, to: usize) -> (r: Option<u64>)
    requires
        from <= to <= s@.len(),
    ensures
        match r {
            Some(v) => {
                &&& from < to
                &&& all_digits(s@.subrange(from as int, to as int))
                &&& v == digits_val(s@.subrange(from as int, to as int))
                &&& v <= DIGIT_CAP
            },
            None => {
                ||| from == to
                ||| !all_digits(s@.subrange(from as int, to as int))
                ||| digits_val(s@.subrange(from as int, to as int)) > DIGIT_CAP
            },
        },
{
    if from == to {
        return None;
    }
    let ghost whole: Seq<char> = s@.subrange(from as int, to as int);
    let mut acc: u64 = 0;
    let mut i: usize = from;
    while i < to
        invariant
            from <= i <= to <= s@.len(),
            whole == s@.subrange(from as int, to as int),
            all_digits(s@.subrange(from as int, i as int)),
            acc == digits_val(s@.subrange(from as int, i as int)),
            acc <= DIGIT_CAP,
        decreases to - i,
    {
        let c = s.get_char(i);
        let w: u32 = c as u32;
        if w < 48 || w > 57 {
            proof {
                assert(whole[i - from] == s@[i as int]);
            }
            return None;
        }
        let d: u64 = (w - 48) as u64;
        let acc2: u64 = acc * 10 + d;
        proof {
            assert(s@.subrange(from as int, i + 1).drop_last() =~= s@.subrange(
                from as int,
                i as int,
            ));
            assert(s@.subrange(from as int, i + 1).last() == s@[i as int]);
        }
        if acc2 > DIGIT_CAP {
            proof {
                if all_digits(whole) {
                    assert(whole.take(i + 1 - from) =~= s@.subrange(from as int, i + 1));
                    lemma_digits_val_prefix(whole, i + 1 - from);
                }
            }
            return None;
        }
        acc = acc2;
        i = i + 1;
    }
    Some(acc)
}

/// The digit part of an unsigned number literal: everything after an
/// optional leading `+`.
pub open spec fn unsigned_body(s: Seq<char>) -> Seq<char> {
    if s.len() > 0 && s[0] == '+' {
        s.skip(1)
    } else {
        s
    }
}

/// What `str::parse::<u16>` accepts and returns.
pub open spec fn parse_u16_spec(s: Seq<char>) -> Option<u16> {
    let b = unsigned_body(s);
    if b.len() > 0 && all_digits(b) && digits_val(b) <= 0xFFFF {
        Some(digits_val(b) as u16)
    } else {
        None
    }
}

/// What `str::parse::<u8>` accepts and returns.
pub open spec fn parse_u8_spec(s: Seq<char>) -> Option<u8> {
    let b = unsigned_body(s);
    if b.len() > 0 && all_digits(b) && digits_val(b) <= 0xFF {
        Some(digits_val(b) as u8)
    } else {
        None
    }
}

/// What `str::parse::<i32>` accepts and returns.
pub open spec fn parse_i32_spec(s: Seq<char>) -> Option<i32> {
    if s.len() == 0 {
        None
    } else {
        let b = if s[0] == '-' || s[0] == '+' {
            s.skip(1)
        } else {
            s
        };
        if b.len() > 0 && all_digits(b) {
            if s[0] == '-' {
                if digits_val(b) <= 0x8000_0000 {
                    Some((-digits_val(b)) as i32)
                } else {
                    None
                }
            } else {
                if digits_val(b) <= 0x7FFF_FFFF {
                    Some(digits_val(b) as i32)
                } else {
                    None
                }
            }
        } else {
            None
        }
    }
}

/// Parses a base-ten `u16` exactly as `str::parse` does.
pub fn parse_u16(s: &str) -> (r: Option<u16>)
    ensures
        r == parse_u16_spec(s@),
{
    let n: usize = s.unicode_len();
    let start: usize = if n > 0 && s.get_char(0) == '+' {
        1
    } else {
        0
    };
    proof {
        assert(unsigned_body(s@) =~= s@.subrange(start as int, n as int));
    }
    match scan_digits(s, start, n) {
        Some(v) => {
            if v <= 0xFFFF {
                Some(v as u16)
            } else {
                None
            }
        },
        None => None,
    }
}

/// Parses a base-ten `u8` exactly as `str::parse` does.
pub fn parse_u8(s: &str) -> (r: Option<u8>)
    ensures
        r == parse_u8_spec(s@),
{
    let n: usize = s.unicode_len();
    let start: usize = if n > 0 && s.get_char(0) == '+' {
        1
    } else {
        0
    };
    proof {
        assert(unsigned_body(s@) =~= s@.subrange(start as int, n as int));
    }
    match scan_digits(s, start, n) {
        Some(v) => {
            if v <= 0xFF {
                Some(v as u8)
            } else {
                None
            }
        },
        None => None,
    }
}

/// Parses a base-ten `i32` exactly as `str::parse` does.
pub fn parse_i32(s: &str) -> (r: Option<i32>)
    ensures
        r == parse_i32_spec(s@),
{
    let n: usize = s.unicode_len();
    if n == 0 {
        return None;
    }
    let c0 = s.get_char(0);
    let neg: bool = c0 == '-';
    let start: usize = if c0 == '-' || c0 == '+' {
        1
    } else {
        0
    };
    let ghost b: Seq<char> = if s@[0] == '-' || s@[0] == '+' {
        s@.skip(1)
    } else {
        s@
    };
    proof {
        assert(b =~= s@.subrange(start as int, n as int));
    }
    match scan_digits(s, start, n) {
        Some(v) => {
            if neg {
                if v <= 0x8000_0000 {
                    Some((-(v as i64)) as i32)
                } else {
                    None
                }
            } else {
                if v <= 0x7FFF_FFFF {
                    Some(v as i32)
                } else {
                    None
                }
            }
        },
        None => None,
    }
}

/// ASCII whitespace, the delimiters recognised when a report line is
/// tokenised.
pub open spec fn is_wsp(c: char) -> bool {
    c == ' ' || c == '\t' || c == '\r' || c == '\n' || c == '\u{b}' || c == '\u{c}'
}

/// The first index at or after `i` holding a newline, or the length.
pub open spec fn find_nl(s: Seq<char>, i: int) -> int
    decreases s.len() - i,
{
    if i >= s.len() {
        s.len() as int
    } else if s[i] == '\n' {
        i
    } else {
        find_nl(s, i + 1)
    }
}

pub proof fn lemma_find_nl_char(s: Seq<char>, i: int, j: int)
    requires
        0 <= i <= j <= s.len(),
        forall|k: int| i <= k < j ==> s[k] != '\n',
        j == s.len() || s[j] == '\n',
    ensures
        find_nl(s, i) == j,
    decreases j - i,
{
    if i < j {
        lemma_find_nl_char(s, i + 1, j);
    }
}

/// A carriage return immediately before the newline is not part of the line.
pub open spec fn strip_cr(line: Seq<char>) -> Seq<char> {
    if line.len() > 0 && line.last() == '\r' {
        line.drop_last()
    } else {
        line
    }
}

/// The lines of `s`, split as `str::lines` splits them: at each newline,
/// with a carriage return before the newline dropped, and with no empty
/// trailing line.
pub open spec fn split_lines(s: Seq<char>) -> Seq<Seq<char>>
    decreases s.len(),
{
    if s.len() == 0 {
        Seq::empty()
    } else {
        let j = find_nl(s, 0);
        if j < 0 || j >= s.len() {
            seq![s]
        } else {
            seq![strip_cr(s.take(j))] + split_lines(s.skip(j + 1))
        }
    }
}

/// Splits text into its lines.
pub fn split_to_lines(text: &str) -> (r: Vec<String>)
    ensures
        r@.len() == split_lines(text@).len(),
        forall|i: int| 0 <= i < r@.len() ==> r@[i]@ == split_lines(text@)[i],
{
    let n: usize = text.unicode_len();
    let mut out: Vec<String> = Vec::new();
    let mut pos: usize = 0;
    proof {
        assert(text@.skip(0) =~= text@);
        assert(Seq::new(0, |i: int| out@[i]@) + split_lines(text@) =~= split_lines(text@));
    }
    while pos < n
        invariant
            n == text@.len(),
            pos <= n,
            split_lines(text@) == Seq::new(out@.len() as nat, |i: int| out@[i]@) + split_lines(
                text@.skip(pos as int),
            ),
        decreases n - pos,
    {
        let ghost out_before: Seq<String> = out@;
        let mut j: usize = pos;
        while j < n && text.get_char(j) != '\n'
            invariant
                n == text@.len(),
                pos <= j <= n,
                forall|k: int| pos <= k < j ==> text@[k] != '\n',
            decreases n - j,
        {
            j = j + 1;
        }
        let ghost t: Seq<char> = text@.skip(pos as int);
        proof {
            lemma_find_nl_char(t, 0, j - pos);
            assert(find_nl(t, 0) == j - pos);
        }
        if j < n {
            let end: usize = if j > pos && text.get_char(j - 1) == '\r' {
                j - 1
            } else {
                j
            };
            let piece = text.substring_char(pos, end).to_owned();
            proof {
                assert(t.take(j - pos) =~= text@.subrange(pos as int, j as int));
                assert(strip_cr(t.take(j - pos)) =~= text@.subrange(pos as int, end as int));
                assert(t.skip(j - pos + 1) =~= text@.skip(j + 1));
                assert(split_lines(t) == seq![strip_cr(t.take(j - pos))] + split_lines(
                    text@.skip(j + 1),
                ));
            }
            out.push(piece);
            pos = j + 1;
            proof {
                assert(Seq::new(out@.len() as nat, |i: int| out@[i]@) + split_lines(
                    text@.skip(pos as int),
                ) =~= Seq::new(out_before.len() as nat, |i: int| out_before[i]@) + split_lines(t));
            }
        } else {
            let piece = text.substring_char(pos, n).to_owned();
            proof {
                assert(t.take(n - pos) =~= t);
                assert(t.len() > 0);
                assert(split_lines(t) == seq![t]);
                assert(piece@ == t);
                assert(text@.skip(n as int).len() == 0);
            }
            out.push(piece);
            pos = n;
            proof {
                assert(Seq::new(out@.len() as nat, |i: int| out@[i]@) + split_lines(
                    text@.skip(pos as int),
                ) =~= Seq::new(out_before.len() as nat, |i: int| out_before[i]@) + split_lines(t));
            }
        }
    }
    proof {
        assert(text@.skip(pos as int).len() == 0);
        assert(split_lines(text@) =~= Seq::new(out@.len() as nat, |i: int| out@[i]@));
    }
    out
}

/// The first index at or after `i` holding the character `c`, or the
/// length.
pub open spec fn find_from(s: Seq<char>, i: int, c: char) -> int
    decreases s.len() - i,
{
    if i >= s.len() {
        s.len() as int
    } else if s[i] == c {
        i
    } else {
        find_from(s, i + 1, c)
    }
}

pub proof fn lemma_find_from_char(s: Seq<char>, i: int, j: int, c: char)
    requires
        0 <= i <= j <= s.len(),
        forall|k: int| i <= k < j ==> s[k] != c,
        j == s.len() || s[j] == c,
    ensures
        find_from(s, i, c) == j,
    decreases j - i,
{
    if i < j {
        lemma_find_from_char(s, i + 1, j, c);
    }
}

/// The start of the first whitespace-delimited token: the first
/// non-whitespace index at or after `i`, or the length.
pub open spec fn first_non_wsp(s: Seq<char>, i: int) -> int
    decreases s.len() - i,
{
    if i >= s.len() {
        s.len() as int
    } else if !is_wsp(s[i]) {
        i
    } else {
        first_non_wsp(s, i + 1)
    }
}

/// The first whitespace index at or after `i`, or the length.
pub open spec fn first_wsp(s: Seq<char>, i: int) -> int
    decreases s.len() - i,
{
    if i >= s.len() {
        s.len() as int
    } else if is_wsp(s[i]) {
        i
    } else {
        first_wsp(s, i + 1)
    }
}

pub proof fn lemma_first_non_wsp_char(s: Seq<char>, i: int, j: int)
    requires
        0 <= i <= j <= s.len(),
        forall|k: int| i <= k < j ==> is_wsp(s[k]),
        j == s.len() || !is_wsp(s[j]),
    ensures
        first_non_wsp(s, i) == j,
    decreases j - i,
{
    if i < j {
        lemma_first_non_wsp_char(s, i + 1, j);
    }
}

pub proof fn lemma_first_wsp_char(s: Seq<char>, i: int, j: int)
    requires
        0 <= i <= j <= s.len(),
        forall|k: int| i <= k < j ==> !is_wsp(s[k]),
        j == s.len() || is_wsp(s[j]),
    ensures
        first_wsp(s, i) == j,
    decreases j - i,
{
    if i < j {
        lemma_first_wsp_char(s, i + 1, j);
    }
}

/// The first whitespace-delimited token of a line.
pub open spec fn station_of(line: Seq<char>) -> Seq<char> {
    let a = first_non_wsp(line, 0);
    let b = first_wsp(line, a);
    line.subrange(a, b)
}

/// Whether a line yields a station id: a first token of at least four
/// characters.
pub open spec fn has_station(line: Seq<char>) -> bool {
    let a = first_non_wsp(line, 0);
    let b = first_wsp(line, a);
    a < line.len() && b - a >= 4
}

/// Extracts the station id of a report line, when the line has one.
pub fn station_token(line: &str) -> (r: Option<String>)
    ensures
        match r {
            Some(t) => has_station(line@) && t@ == station_of(line@),
            None => !has_station(line@),
        },
{
    let n: usize = line.unicode_len();
    let mut a: usize = 0;
    while a < n && is_wsp_exec(line.get_char(a))
        invariant
            n == line@.len(),
            a <= n,
            forall|k: int| 0 <= k < a ==> is_wsp(line@[k]),
        decreases n - a,
    {
        a = a + 1;
    }
    proof {
        lemma_first_non_wsp_char(line@, 0, a as int);
    }
    if a == n {
        return None;
    }
    let mut b: usize = a;
    while b < n && !is_wsp_exec(line.get_char(b))
        invariant
            n == line@.len(),
            a <= b <= n,
            forall|k: int| a <= k < b ==> !is_wsp(line@[k]),
        decreases n - b,
    {
        b = b + 1;
    }
    proof {
        lemma_first_wsp_char(line@, a as int, b as int);
    }
    if b - a < 4 {
        return None;
    }
    Some(line.substring_char(a, b).to_owned())
}

/// Whether a character is ASCII whitespace.
pub fn is_wsp_exec(c: char) -> (r: bool)
    ensures
        r == is_wsp(c),
{
    c == ' ' || c == '\t' || c == '\r' || c == '\n' || c == '\u{b}' || c == '\u{c}'
}

} // verus!
