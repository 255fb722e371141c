//! Small helpers shared by the GUI shell and the wire layer: packed-word
//! splitting, colour packing, and the lossy ASCII framing used on the socket.

use vstd::prelude::*;
use vstd::string::StrSliceExecFns;

verus! {

/// Relies on String::push: appends exactly the given character.
pub assume_specification[ String::push ](s: &mut String, ch: char)
    ensures
        final(s)@ == old(s)@.push(ch),
;

/// Packs an RGB triple into the 0x00BBGGRR layout used by the display layer.
pub fn solid_colour(r: u8, g: u8, b: u8) -> (c: u32)
    ensures
        c == (b as u32) * 0x10000 + (g as u32) * 0x100 + (r as u32),
{
    let bb: u32 = (b as u32) << 16;
    let gg: u32 = (g as u32) << 8;
    let rr: u32 = r as u32;
    let c: u32 = bb | gg | rr;
    proof {
        assert(c == (b as u32) * 0x10000 + (g as u32) * 0x100 + (r as u32)) by (bit_vector)
            requires
                bb == (b as u32) << 16,
                gg == (g as u32) << 8,
                rr == (r as u32),
                c == (bb | gg | rr),
        ;
    }
    c
}

/// Splits a 32-bit message parameter into its high and low 16-bit words.
pub fn split_words(wparam: u32) -> (r: (u16, u16))
    ensures
        r.0 == wparam / 0x10000,
        r.1 == wparam % 0x10000,
{
    let hi: u32 = wparam >> 16;
    let lo: u32 = wparam & 0xffff;
    proof {
        assert(hi == wparam / 0x10000 && lo == wparam % 0x10000 && hi < 0x10000 && lo < 0x10000)
            by (bit_vector)
            requires
                hi == (wparam >> 16),
                lo == (wparam & 0xffff),
        ;
    }
    (hi as u16, lo as u16)
}

/// What one byte becomes when the socket layer widens it to a character.
pub open spec fn byte_as_char(b: u8) -> char {
    b as char
}

/// What one character becomes when the socket layer narrows it to a byte:
/// the low eight bits of its code point.
pub open spec fn char_low_byte(c: char) -> u8 {
    (c as u32 % 0x100) as u8
}

/// Widens raw socket bytes into text, one character per byte.
pub fn byte_slice_to_string(slice: &[u8]) -> (s: String)
    ensures
        s@.len() == slice@.len(),
        forall|i: int| 0 <= i < slice@.len() ==> s@[i] == byte_as_char(slice@[i]),
{
    let mut s = String::new();
    let mut i: usize = 0;
    while i < slice.len()
        invariant
            i <= slice@.len(),
            s@.len() == i,
            forall|j: int| 0 <= j < i ==> s@[j] == byte_as_char(slice@[j]),
        decreases slice@.len() - i,
    {
        s.push(slice[i] as char);
        i = i + 1;
    }
    s
}

/// Narrows text into raw socket bytes, one byte per character; code points
/// above 0xFF are lossily truncated to their low byte.
pub fn string_to_byte_slice(string: &str) -> (v: Vec<u8>)
    ensures
        v@.len() == string@.len(),
        forall|i: int| 0 <= i < string@.len() ==> v@[i] == char_low_byte(string@[i]),
{
    let n: usize = string.unicode_len();
    let mut v: Vec<u8> = Vec::new();
    let mut i: usize = 0;
    while i < n
        invariant
            n == string@.len(),
            i <= n,
            v@.len() == i,
            forall|j: int| 0 <= j < i ==> v@[j] == char_low_byte(string@[j]),
        decreases n - i,
    {
        let c = string.get_char(i);
        let w: u32 = c as u32;
        #[verifier::truncate]
        let b = w as u8;
        proof {
            assert(w as u8 == (w % 0x100) as u8) by (bit_vector);
        }
        v.push(b);
        i = i + 1;
    }
    v
}

/// Narrowing undoes widening: a byte taken off the socket, widened to a
/// character, narrows back to the same byte.
pub proof fn lemma_widen_then_narrow(b: u8)
    ensures
        char_low_byte(byte_as_char(b)) == b,
{
    assert(byte_as_char(b) as u32 == b as u32);
    assert((b as u32 % 0x100) as u8 == b) by (bit_vector);
}

/// Frames one outbound line for the socket: the text narrowed to one byte
/// per character, terminated by CRLF.
pub fn frame_line(msg: &str) -> (v: Vec<u8>)
    ensures
        v@.len() == msg@.len() + 2,
        forall|i: int| 0 <= i < msg@.len() ==> v@[i] == char_low_byte(msg@[i]),
        v@[msg@.len() as int] == 13,
        v@[msg@.len() as int + 1] == 10,
{
    let mut v = string_to_byte_slice(msg);
    v.push(13);
    v.push(10);
    v
}

/// The UTF-16 code units of one character: one unit below 0x10000, a
/// surrogate pair above.
pub open spec fn utf16_units(c: char) -> Seq<u16> {
    if (c as u32) < 0x10000 {
        seq![(c as u32) as u16]
    } else {
        seq![
            (0xD800 + ((c as u32 - 0x10000) / 0x400)) as u16,
            (0xDC00 + ((c as u32 - 0x10000) % 0x400)) as u16,
        ]
    }
}

/// The UTF-16 encoding of text, closed by one NUL unit.
pub open spec fn wide_null_units(s: Seq<char>) -> Seq<u16>
    decreases s.len(),
{
    if s.len() == 0 {
        seq![0u16]
    } else {
        utf16_units(s[0]) + wide_null_units(s.skip(1))
    }
}

/// Encodes text as NUL-terminated UTF-16, the form the display layer's
/// wide-string calls take.
pub fn wide_null(s: &str) -> (v: Vec<u16>)
    ensures
        v@ == wide_null_units(s@),
{
    let n: usize = s.unicode_len();
    let mut v: Vec<u16> = Vec::new();
    let mut i: usize = 0;
    proof {
        assert(s@.skip(0) =~= s@);
        assert(v@ + wide_null_units(s@) =~= wide_null_units(s@));
    }
    while i < n
        invariant
            n == s@.len(),
            i <= n,
            v@ + wide_null_units(s@.skip(i as int)) == wide_null_units(s@),
        decreases n - i,
    {
        let ghost v_before: Seq<u16> = v@;
        let c = s.get_char(i);
        let w: u32 = c as u32;
        proof {
            assert(s@.skip(i as int)[0] == s@[i as int]);
            assert(s@.skip(i as int).skip(1) =~= s@.skip(i + 1));
        }
        if w < 0x10000 {
            v.push(w as u16);
            proof {
                assert(v@ =~= v_before + utf16_units(s@[i as int]));
            }
        } else {
            v.push((0xD800 + ((w - 0x10000) / 0x400)) as u16);
            v.push((0xDC00 + ((w - 0x10000) % 0x400)) as u16);
            proof {
                assert(v@ =~= v_before + utf16_units(s@[i as int]));
            }
        }
        proof {
            assert(v@ + wide_null_units(s@.skip(i + 1)) =~= v_before + wide_null_units(
                s@.skip(i as int),
            ));
        }
        i = i + 1;
    }
    proof {
        assert(s@.skip(n as int).len() == 0);
    }
    v.push(0);
    proof {
        assert(v@ =~= wide_null_units(s@));
    }
    v
}

} // verus!
