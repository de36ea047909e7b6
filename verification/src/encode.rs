use vstd::prelude::*;
use crate::text::{push_char, digit_char};

verus! {

/// The characters that URI component encoding leaves as they are: letters,
/// digits, and `- _ . ! ~ * ' ( )`.
pub open spec fn is_unreserved(c: char) -> bool {
    ||| 'A' as u32 <= c as u32 && c as u32 <= 'Z' as u32
    ||| 'a' as u32 <= c as u32 && c as u32 <= 'z' as u32
    ||| '0' as u32 <= c as u32 && c as u32 <= '9' as u32
    ||| c == '-' || c == '_' || c == '.' || c == '!'
    ||| c == '~' || c == '*' || c == '\'' || c == '(' || c == ')'
}

/// The UTF-8 encoding of one character, one to four bytes.
pub open spec fn utf8_bytes(c: char) -> Seq<u8> {
    let u = c as u32;
    if u < 0x80 {
        seq![u as u8]
    } else if u < 0x800 {
        seq![(0xC0u32 | (u >> 6)) as u8, (0x80u32 | (u & 0x3F)) as u8]
    } else if u < 0x10000 {
        seq![
            (0xE0u32 | (u >> 12)) as u8,
            (0x80u32 | ((u >> 6) & 0x3F)) as u8,
            (0x80u32 | (u & 0x3F)) as u8,
        ]
    } else {
        seq![
            (0xF0u32 | (u >> 18)) as u8,
            (0x80u32 | ((u >> 12) & 0x3F)) as u8,
            (0x80u32 | ((u >> 6) & 0x3F)) as u8,
            (0x80u32 | (u & 0x3F)) as u8,
        ]
    }
}

/// A percent escape of one byte, with upper-case hex digits.
pub open spec fn percent_byte(b: u8) -> Seq<char> {
    seq!['%', upper_hex_char(b as int / 16), upper_hex_char(b as int % 16)]
}

pub open spec fn upper_hex_char(d: int) -> char {
    if d < 10 { digit_char(d) }
    else if d == 10 { 'A' }
    else if d == 11 { 'B' }
    else if d == 12 { 'C' }
    else if d == 13 { 'D' }
    else if d == 14 { 'E' }
    else { 'F' }
}

pub open spec fn percent_bytes(bs: Seq<u8>) -> Seq<char>
    decreases bs.len(),
{
    if bs.len() == 0 {
        Seq::empty()
    } else {
        percent_bytes(bs.drop_last()) + percent_byte(bs.last())
    }
}

/// How URI component encoding writes one character: unreserved characters
/// stand as they are, every other character as the percent escapes of its
/// UTF-8 bytes.
pub open spec fn encode_char(c: char) -> Seq<char> {
    if is_unreserved(c) {
        seq![c]
    } else {
        percent_bytes(utf8_bytes(c))
    }
}

/// The URI component encoding of a whole string, character by character.
pub open spec fn spec_uri_encoded(s: Seq<char>) -> Seq<char>
    decreases s.len(),
{
    if s.len() == 0 {
        Seq::empty()
    } else {
        spec_uri_encoded(s.drop_last()) + encode_char(s.last())
    }
}

fn upper_hex_of(d: u32) -> (c: char)
    requires
        d < 16,
    ensures
        c == upper_hex_char(d as int),
{
    if d == 0 { '0' }
    else if d == 1 { '1' }
    else if d == 2 { '2' }
    else if d == 3 { '3' }
    else if d == 4 { '4' }
    else if d == 5 { '5' }
    else if d == 6 { '6' }
    else if d == 7 { '7' }
    else if d == 8 { '8' }
    else if d == 9 { '9' }
    else if d == 10 { 'A' }
    else if d == 11 { 'B' }
    else if d == 12 { 'C' }
    else if d == 13 { 'D' }
    else if d == 14 { 'E' }
    else { 'F' }
}

fn utf8_of(c: char) -> (v: Vec<u8>)
    ensures
        v@ == utf8_bytes(c),
{
    let u = c as u32;
    let mut v: Vec<u8> = Vec::new();
    if u < 0x80 {
        v.push(u as u8);
    } else if u < 0x800 {
        v.push((0xC0u32 | (u >> 6)) as u8);
        v.push((0x80u32 | (u & 0x3F)) as u8);
    } else if u < 0x10000 {
        v.push((0xE0u32 | (u >> 12)) as u8);
        v.push((0x80u32 | ((u >> 6) & 0x3F)) as u8);
        v.push((0x80u32 | (u & 0x3F)) as u8);
    } else {
        v.push((0xF0u32 | (u >> 18)) as u8);
        v.push((0x80u32 | ((u >> 12) & 0x3F)) as u8);
        v.push((0x80u32 | ((u >> 6) & 0x3F)) as u8);
        v.push((0x80u32 | (u & 0x3F)) as u8);
    }
    proof {
        assert(v@ =~= utf8_bytes(c));
    }
    v
}

fn is_unreserved_exec(c: char) -> (r: bool)
    ensures
        r == is_unreserved(c),
{
    let u = c as u32;
    (65 <= u && u <= 90) || (97 <= u && u <= 122) || (48 <= u && u <= 57)
        || c == '-' || c == '_' || c == '.' || c == '!'
        || c == '~' || c == '*' || c == '\'' || c == '(' || c == ')'
}

fn push_encoded_char(out: &mut String, c: char)
    ensures
        final(out)@ == old(out)@ + encode_char(c),
{
    let ghost pre = out@;
    if is_unreserved_exec(c) {
        push_char(out, c);
        proof {
            assert(out@ =~= pre + encode_char(c));
        }
    } else {
        let bytes = utf8_of(c);
        let n = bytes.len();
        let mut i: usize = 0;
        while i < n
            invariant
                i <= n,
                n == bytes@.len(),
                bytes@ == utf8_bytes(c),
                out@ == pre + percent_bytes(bytes@.subrange(0, i as int)),
            decreases n - i,
        {
            let b = bytes[i];
            push_char(out, '%');
            push_char(out, upper_hex_of((b as u32) / 16));
            push_char(out, upper_hex_of((b as u32) % 16));
            proof {
                let t = bytes@.subrange(0, i + 1);
                assert(t.drop_last() =~= bytes@.subrange(0, i as int));
                assert(t.last() == bytes@[i as int]);
                assert(out@ =~= pre + percent_bytes(t));
            }
            i += 1;
        }
        proof {
            assert(bytes@.subrange(0, n as int) =~= bytes@);
            assert(out@ =~= pre + encode_char(c));
        }
    }
}

/// The URI component encoding of `s`, as the request body for an expression
/// needs it.
pub fn uri_encode(s: &str) -> (r: String)
    ensures
        r@ == spec_uri_encoded(s@),
{
    let mut out = String::new();
    let n = s.unicode_len();
    let mut i: usize = 0;
    while i < n
        invariant
            i <= n,
            n == s@.len(),
            out@ == spec_uri_encoded(s@.subrange(0, i as int)),
        decreases n - i,
    {
        let c = s.get_char(i);
        push_encoded_char(&mut out, c);
        proof {
            let t = s@.subrange(0, i + 1);
            assert(t.drop_last() =~= s@.subrange(0, i as int));
            assert(t.last() == s@[i as int]);
        }
        i += 1;
    }
    proof {
        assert(s@.subrange(0, n as int) =~= s@);
    }
    out
}

} // verus!
