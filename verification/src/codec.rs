//! Byte-level encoding and decoding of typed registry values.
//!
//! A `REG_DWORD` value is stored as 4 bytes in little-endian order.  A
//! `REG_SZ` value is stored as UTF-16 little-endian code units followed by
//! one terminating NUL code unit; decoding is lossy on invalid sequences
//! (unpaired surrogates become U+FFFD) and strips all trailing NUL
//! characters.

use vstd::prelude::*;
use vstd::string::StrSliceExecFns;
use vstd::utf8::char_is_scalar;
use vstd::utf8::char_u32_cast;
use vstd::utf8::is_scalar;

use crate::text::push_char;

verus! {

/// The 4-byte little-endian encoding of a 32-bit value.
pub open spec fn spec_dword_bytes(n: u32) -> Seq<u8> {
    seq![
        (n % 0x100) as u8,
        ((n / 0x100) % 0x100) as u8,
        ((n / 0x10000) % 0x100) as u8,
        ((n / 0x1000000) % 0x100) as u8,
    ]
}

/// The 32-bit value read from 4 bytes in little-endian order.
pub open spec fn spec_dword_of_bytes(b: Seq<u8>) -> u32
    recommends
        b.len() == 4,
{
    (b[0] + b[1] * 0x100 + b[2] * 0x10000 + b[3] * 0x1000000) as u32
}

/// Encodes a 32-bit value as its 4-byte little-endian form.
pub fn encode_dword(n: u32) -> (r: Vec<u8>)
    ensures
        r@ == spec_dword_bytes(n),
{
    let mut r: Vec<u8> = Vec::with_capacity(4);
    r.push((n % 0x100) as u8);
    r.push(((n / 0x100) % 0x100) as u8);
    r.push(((n / 0x10000) % 0x100) as u8);
    r.push(((n / 0x1000000) % 0x100) as u8);
    proof {
        assert(r@ =~= spec_dword_bytes(n));
    }
    r
}

/// Reassembles the 32-bit value stored in a 4-byte little-endian buffer.
pub fn decode_dword(buf: &Vec<u8>) -> (r: u32)
    requires
        buf@.len() == 4,
    ensures
        r == spec_dword_of_bytes(buf@),
{
    let b0 = buf[0] as u32;
    let b1 = buf[1] as u32;
    let b2 = buf[2] as u32;
    let b3 = buf[3] as u32;
    b0 + b1 * 0x100 + b2 * 0x10000 + b3 * 0x1000000
}

/// Decoding the 4-byte little-endian encoding of a 32-bit value yields that
/// value again: encoding then decoding is the identity.
pub proof fn lemma_dword_round_trip(n: u32)
    ensures
        spec_dword_of_bytes(spec_dword_bytes(n)) == n,
{
    assert(n % 0x100 + (n / 0x100 % 0x100) * 0x100 + (n / 0x10000 % 0x100) * 0x10000 + (n
        / 0x1000000 % 0x100) * 0x1000000 == n) by (bit_vector);
}

/// A UTF-16 high (leading) surrogate code unit.
pub open spec fn is_high_surrogate(u: u16) -> bool {
    0xD800 <= u < 0xDC00
}

/// A UTF-16 low (trailing) surrogate code unit.
pub open spec fn is_low_surrogate(u: u16) -> bool {
    0xDC00 <= u < 0xE000
}

/// The UTF-16 code units encoding one character: one unit for a character
/// in the basic multilingual plane, a surrogate pair otherwise.
pub open spec fn spec_utf16_units_of_char(c: char) -> Seq<u16> {
    let v = c as u32;
    if v < 0x10000 {
        seq![v as u16]
    } else {
        seq![
            (0xD800 + (v - 0x10000) / 0x400) as u16,
            (0xDC00 + (v - 0x10000) % 0x400) as u16,
        ]
    }
}

/// The UTF-16 code units encoding a character sequence.
pub open spec fn spec_utf16_units(s: Seq<char>) -> Seq<u16>
    decreases s.len(),
{
    if s.len() == 0 {
        Seq::empty()
    } else {
        spec_utf16_units_of_char(s[0]) + spec_utf16_units(s.skip(1))
    }
}

/// The little-endian byte serialization of a code unit sequence.
pub open spec fn spec_le_bytes_of_units(us: Seq<u16>) -> Seq<u8>
    decreases us.len(),
{
    if us.len() == 0 {
        Seq::empty()
    } else {
        seq![(us[0] % 0x100) as u8, (us[0] / 0x100) as u8] + spec_le_bytes_of_units(us.skip(1))
    }
}

/// The code units read from a byte buffer, two bytes per unit in
/// little-endian order; a trailing odd byte is dropped.
pub open spec fn spec_units_of_le_bytes(b: Seq<u8>) -> Seq<u16>
    decreases b.len(),
{
    if b.len() < 2 {
        Seq::empty()
    } else {
        seq![(b[0] + b[1] * 0x100) as u16] + spec_units_of_le_bytes(b.skip(2))
    }
}

/// The characters read from a UTF-16 code unit sequence: a well-formed
/// surrogate pair combines into one supplementary character, an unpaired
/// surrogate becomes U+FFFD, and any other unit is its own character.
pub open spec fn spec_decode_utf16(us: Seq<u16>) -> Seq<char>
    decreases us.len(),
{
    if us.len() == 0 {
        Seq::empty()
    } else if is_high_surrogate(us[0]) && us.len() >= 2 && is_low_surrogate(us[1]) {
        seq![((0x10000 + (us[0] - 0xD800) * 0x400 + (us[1] - 0xDC00)) as u32) as char]
            + spec_decode_utf16(us.skip(2))
    } else if is_high_surrogate(us[0]) || is_low_surrogate(us[0]) {
        seq!['\u{FFFD}'] + spec_decode_utf16(us.skip(1))
    } else {
        seq![(us[0] as u32) as char] + spec_decode_utf16(us.skip(1))
    }
}

/// The sequence with every trailing NUL character removed.
pub open spec fn spec_trim_trailing_nul(s: Seq<char>) -> Seq<char>
    decreases s.len(),
{
    if s.len() > 0 && s.last() == '\0' {
        spec_trim_trailing_nul(s.drop_last())
    } else {
        s
    }
}

/// The wire encoding of a string value: its UTF-16 code units, one
/// terminating NUL unit appended, serialized as little-endian bytes.
pub open spec fn spec_string_bytes(s: Seq<char>) -> Seq<u8> {
    spec_le_bytes_of_units(spec_utf16_units(s) + seq![0u16])
}

/// The string read back from a string value's byte buffer: the bytes
/// reinterpreted as UTF-16 code units, decoded lossily, with all trailing
/// NUL characters stripped.
pub open spec fn spec_string_of_bytes(b: Seq<u8>) -> Seq<char> {
    spec_trim_trailing_nul(spec_decode_utf16(spec_units_of_le_bytes(b)))
}

proof fn lemma_utf16_units_concat(a: Seq<char>, b: Seq<char>)
    ensures
        spec_utf16_units(a + b) == spec_utf16_units(a) + spec_utf16_units(b),
    decreases a.len(),
{
    if a.len() == 0 {
        assert(a + b =~= b);
        assert(spec_utf16_units(a) =~= Seq::<u16>::empty());
    } else {
        assert((a + b).skip(1) =~= a.skip(1) + b);
        lemma_utf16_units_concat(a.skip(1), b);
    }
}

proof fn lemma_le_bytes_of_units_concat(a: Seq<u16>, b: Seq<u16>)
    ensures
        spec_le_bytes_of_units(a + b) == spec_le_bytes_of_units(a) + spec_le_bytes_of_units(b),
    decreases a.len(),
{
    if a.len() == 0 {
        assert(a + b =~= b);
        assert(spec_le_bytes_of_units(a) =~= Seq::<u8>::empty());
    } else {
        assert((a + b).skip(1) =~= a.skip(1) + b);
        lemma_le_bytes_of_units_concat(a.skip(1), b);
    }
}

proof fn lemma_utf16_units_of_single(c: char)
    ensures
        spec_utf16_units(seq![c]) == spec_utf16_units_of_char(c),
{
    assert(seq![c].skip(1) =~= Seq::<char>::empty());
    assert(spec_utf16_units(seq![c].skip(1)) =~= Seq::<u16>::empty());
    assert(spec_utf16_units(seq![c]) =~= spec_utf16_units_of_char(c));
}

proof fn lemma_le_bytes_of_single(u: u16)
    ensures
        spec_le_bytes_of_units(seq![u]) =~= seq![(u % 0x100) as u8, (u / 0x100) as u8],
{
    assert(seq![u].skip(1) =~= Seq::<u16>::empty());
    assert(spec_le_bytes_of_units(seq![u].skip(1)) =~= Seq::<u8>::empty());
}

/// Relies on char::from_u32 of the standard library: for a Unicode scalar
/// value it returns the character with exactly that value.
#[verifier::external_body]
fn char_from_u32(u: u32) -> (c: char)
    requires
        is_scalar(u),
    ensures
        c as u32 == u,
{
    match char::from_u32(u) {
        Some(c) => c,
        None => '\u{FFFD}',
    }
}

fn push_unit(out: &mut Vec<u8>, u: u16)
    ensures
        final(out)@ == old(out)@ + seq![(u % 0x100) as u8, (u / 0x100) as u8],
{
    out.push((u % 0x100) as u8);
    out.push((u / 0x100) as u8);
    proof {
        assert(out@ =~= old(out)@ + seq![(u % 0x100) as u8, (u / 0x100) as u8]);
    }
}

/// Encodes a string as UTF-16 little-endian bytes with one terminating NUL
/// code unit appended.
pub fn encode_string(s: &str) -> (r: Vec<u8>)
    ensures
        r@ == spec_string_bytes(s@),
{
    let len = s.unicode_len();
    let mut out: Vec<u8> = Vec::new();
    let mut i: usize = 0;
    while i < len
        invariant
            i <= len,
            len == s@.len(),
            out@ == spec_le_bytes_of_units(spec_utf16_units(s@.take(i as int))),
        decreases len - i,
    {
        let c = s.get_char(i);
        let v: u32 = c as u32;
        proof {
            char_is_scalar(c);
            assert(s@.take(i + 1 as int) =~= s@.take(i as int) + seq![c]);
            lemma_utf16_units_concat(s@.take(i as int), seq![c]);
            lemma_utf16_units_of_single(c);
            lemma_le_bytes_of_units_concat(
                spec_utf16_units(s@.take(i as int)),
                spec_utf16_units_of_char(c),
            );
        }
        if v < 0x10000 {
            proof {
                lemma_le_bytes_of_single(v as u16);
            }
            push_unit(&mut out, v as u16);
        } else {
            let hi: u32 = 0xD800 + (v - 0x10000) / 0x400;
            let lo: u32 = 0xDC00 + (v - 0x10000) % 0x400;
            proof {
                assert(spec_utf16_units_of_char(c) =~= seq![hi as u16] + seq![lo as u16]);
                lemma_le_bytes_of_units_concat(seq![hi as u16], seq![lo as u16]);
                lemma_le_bytes_of_single(hi as u16);
                lemma_le_bytes_of_single(lo as u16);
            }
            push_unit(&mut out, hi as u16);
            push_unit(&mut out, lo as u16);
        }
        i += 1;
    }
    proof {
        assert(s@.take(len as int) =~= s@);
        lemma_le_bytes_of_units_concat(spec_utf16_units(s@), seq![0u16]);
        lemma_le_bytes_of_single(0u16);
    }
    push_unit(&mut out, 0);
    out
}

/// Decodes a string value's byte buffer: UTF-16 little-endian, lossy on
/// invalid sequences, with all trailing NUL characters stripped.
pub fn decode_string(buf: &Vec<u8>) -> (r: String)
    ensures
        r@ == spec_string_of_bytes(buf@),
{
    let n = buf.len();
    let mut units: Vec<u16> = Vec::new();
    let mut i: usize = 0;
    proof {
        assert(buf@.skip(0) =~= buf@);
        assert(Seq::<u16>::empty() + spec_units_of_le_bytes(buf@) =~= spec_units_of_le_bytes(
            buf@,
        ));
    }
    while n - i >= 2
        invariant
            i <= n,
            n == buf@.len(),
            spec_units_of_le_bytes(buf@) == units@ + spec_units_of_le_bytes(buf@.skip(i as int)),
        decreases n - i,
    {
        let u: u16 = buf[i] as u16 + (buf[i + 1] as u16) * 0x100;
        proof {
            assert(buf@.skip(i as int)[0] == buf@[i as int]);
            assert(buf@.skip(i as int)[1] == buf@[i as int + 1]);
            assert(buf@.skip(i as int).skip(2) =~= buf@.skip(i + 2 as int));
            assert(units@.push(u) + spec_units_of_le_bytes(buf@.skip(i + 2 as int)) =~= units@
                + spec_units_of_le_bytes(buf@.skip(i as int)));
        }
        units.push(u);
        i += 2;
    }
    proof {
        assert(spec_units_of_le_bytes(buf@.skip(i as int)) =~= Seq::<u16>::empty());
        assert(units@ =~= spec_units_of_le_bytes(buf@));
    }
    let m = units.len();
    let mut out = String::new();
    let mut j: usize = 0;
    proof {
        assert(units@.skip(0) =~= units@);
        assert(Seq::<char>::empty() + spec_decode_utf16(units@) =~= spec_decode_utf16(units@));
    }
    while j < m
        invariant
            j <= m,
            m == units@.len(),
            spec_decode_utf16(units@) == out@ + spec_decode_utf16(units@.skip(j as int)),
        decreases m - j,
    {
        let u = units[j];
        proof {
            assert(units@.skip(j as int)[0] == units@[j as int]);
        }
        if 0xD800 <= u && u < 0xDC00 {
            if j + 1 < m && 0xDC00 <= units[j + 1] && units[j + 1] < 0xE000 {
                let ul = units[j + 1];
                let scalar: u32 = 0x10000 + (u as u32 - 0xD800) * 0x400 + (ul as u32 - 0xDC00);
                proof {
                    assert(units@.skip(j as int)[1] == units@[j as int + 1]);
                    assert(units@.skip(j as int).skip(2) =~= units@.skip(j + 2 as int));
                }
                let c = char_from_u32(scalar);
                proof {
                    char_u32_cast(c, scalar);
                    assert(out@ + seq![c] + spec_decode_utf16(units@.skip(j + 2 as int)) =~= out@
                        + spec_decode_utf16(units@.skip(j as int)));
                }
                push_char(&mut out, c);
                j += 2;
            } else {
                proof {
                    assert(units@.skip(j as int).skip(1) =~= units@.skip(j + 1 as int));
                    assert(out@ + seq!['\u{FFFD}'] + spec_decode_utf16(units@.skip(j + 1 as int))
                        =~= out@ + spec_decode_utf16(units@.skip(j as int)));
                }
                push_char(&mut out, '\u{FFFD}');
                j += 1;
            }
        } else if 0xDC00 <= u && u < 0xE000 {
            proof {
                assert(units@.skip(j as int).skip(1) =~= units@.skip(j + 1 as int));
                assert(out@ + seq!['\u{FFFD}'] + spec_decode_utf16(units@.skip(j + 1 as int)) =~=
                    out@ + spec_decode_utf16(units@.skip(j as int)));
            }
            push_char(&mut out, '\u{FFFD}');
            j += 1;
        } else {
            let c = char_from_u32(u as u32);
            proof {
                char_u32_cast(c, u as u32);
                assert(units@.skip(j as int).skip(1) =~= units@.skip(j + 1 as int));
                assert(out@ + seq![c] + spec_decode_utf16(units@.skip(j + 1 as int)) =~= out@
                    + spec_decode_utf16(units@.skip(j as int)));
            }
            push_char(&mut out, c);
            j += 1;
        }
    }
    proof {
        assert(spec_decode_utf16(units@.skip(j as int)) =~= Seq::<char>::empty());
        assert(out@ =~= spec_decode_utf16(units@));
    }
    let total = out.as_str().unicode_len();
    let mut k: usize = total;
    proof {
        assert(out@.take(total as int) =~= out@);
    }
    while k > 0
        invariant
            k <= total,
            total == out@.len(),
            spec_trim_trailing_nul(out@) == spec_trim_trailing_nul(out@.take(k as int)),
        ensures
            spec_trim_trailing_nul(out@) == out@.take(k as int),
        decreases k,
    {
        if out.as_str().get_char(k - 1) == '\0' {
            proof {
                assert(out@.take(k as int).last() == out@[k - 1 as int]);
                assert(out@.take(k as int).drop_last() =~= out@.take(k - 1 as int));
            }
            k -= 1;
        } else {
            proof {
                assert(out@.take(k as int).last() == out@[k - 1 as int]);
            }
            break;
        }
    }
    let trimmed = out.as_str().substring_char(0, k);
    let r = trimmed.to_owned();
    proof {
        assert(out@.subrange(0, k as int) =~= out@.take(k as int));
    }
    r
}

/// Round trip of the byte serialization of code units: reading back the
/// little-endian bytes of a unit sequence yields that sequence.
proof fn lemma_units_bytes_round_trip(us: Seq<u16>)
    ensures
        spec_units_of_le_bytes(spec_le_bytes_of_units(us)) == us,
    decreases us.len(),
{
    if us.len() == 0 {
    } else {
        let b = spec_le_bytes_of_units(us);
        let u = us[0];
        assert(u % 0x100 + (u / 0x100) * 0x100 == u) by (bit_vector);
        assert(b.skip(2) =~= spec_le_bytes_of_units(us.skip(1)));
        lemma_units_bytes_round_trip(us.skip(1));
        assert(spec_units_of_le_bytes(b) =~= us);
    }
}

/// Decoding the UTF-16 encoding of a character sequence, followed by any
/// unit sequence, yields the characters followed by the decoding of the
/// rest: the encoding of each character decodes to that character.
proof fn lemma_decode_of_encoded(s: Seq<char>, rest: Seq<u16>)
    ensures
        spec_decode_utf16(spec_utf16_units(s) + rest) == s + spec_decode_utf16(rest),
    decreases s.len(),
{
    if s.len() == 0 {
        assert(spec_utf16_units(s) + rest =~= rest);
        assert(s + spec_decode_utf16(rest) =~= spec_decode_utf16(rest));
    } else {
        let c = s[0];
        let v = c as u32;
        char_is_scalar(c);
        char_u32_cast(c, v);
        let tail = spec_utf16_units(s.skip(1)) + rest;
        lemma_decode_of_encoded(s.skip(1), rest);
        if v < 0x10000 {
            let u = (v as u16);
            assert(spec_utf16_units(s) + rest =~= seq![u] + tail);
            let us = seq![u] + tail;
            assert(us[0] == u);
            assert(!is_high_surrogate(u) && !is_low_surrogate(u));
            assert(us.skip(1) =~= tail);
            assert((u as u32) == v);
            assert(s + spec_decode_utf16(rest) =~= seq![c] + (s.skip(1) + spec_decode_utf16(
                rest,
            )));
        } else {
            let hi = (0xD800 + (v - 0x10000) / 0x400) as u16;
            let lo = (0xDC00 + (v - 0x10000) % 0x400) as u16;
            assert(v < 0x110000);
            assert((v - 0x10000) / 0x400 < 0x400) by (nonlinear_arith)
                requires
                    0x10000 <= v < 0x110000,
            ;
            assert((v - 0x10000) % 0x400 < 0x400);
            assert(is_high_surrogate(hi));
            assert(is_low_surrogate(lo));
            assert(spec_utf16_units(s) + rest =~= seq![hi, lo] + tail);
            let us = seq![hi, lo] + tail;
            assert(us[0] == hi && us[1] == lo);
            assert(us.skip(2) =~= tail);
            assert((v - 0x10000) == ((v - 0x10000) / 0x400) * 0x400 + (v - 0x10000) % 0x400)
                by (nonlinear_arith);
            assert((0x10000 + (hi - 0xD800) * 0x400 + (lo - 0xDC00)) as u32 == v);
            assert(s + spec_decode_utf16(rest) =~= seq![c] + (s.skip(1) + spec_decode_utf16(
                rest,
            )));
        }
    }
}

/// For a string with no NUL character, decoding its UTF-16-with-terminator
/// encoding yields the string again: encoding then decoding is the
/// identity.
pub proof fn lemma_string_round_trip(s: Seq<char>)
    requires
        forall|i: int| 0 <= i < s.len() ==> s[i] != '\0',
    ensures
        spec_string_of_bytes(spec_string_bytes(s)) == s,
{
    lemma_units_bytes_round_trip(spec_utf16_units(s) + seq![0u16]);
    lemma_decode_of_encoded(s, seq![0u16]);
    let z = seq![0u16];
    assert(!is_high_surrogate(z[0]) && !is_low_surrogate(z[0]));
    assert(z.skip(1) =~= Seq::<u16>::empty());
    assert(spec_decode_utf16(z.skip(1)) =~= Seq::<char>::empty());
    char_u32_cast('\0', 0);
    assert(spec_decode_utf16(z) =~= seq!['\0']);
    let d = s + seq!['\0'];
    assert(d.last() == '\0');
    assert(d.drop_last() =~= s);
    if s.len() > 0 {
        assert(s.last() == s[s.len() - 1]);
        assert(s.last() != '\0');
    }
    assert(spec_trim_trailing_nul(s) == s);
    assert(spec_trim_trailing_nul(d) == spec_trim_trailing_nul(s));
}

} // verus!
