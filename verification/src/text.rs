//! Decimal rendering and parsing of unsigned 32-bit values.

use vstd::prelude::*;

use crate::error::Error;

verus! {

/// The character for one decimal digit.
pub open spec fn spec_dec_digit(d: int) -> char
    recommends
        0 <= d < 10,
{
    ((48 + d) as u8) as char
}

/// The decimal digit string of a value, most significant digit first, with
/// no leading zero except for the value zero itself.
pub open spec fn spec_u32_dec(n: nat) -> Seq<char>
    decreases n,
{
    if n < 10 {
        seq![spec_dec_digit(n as int)]
    } else {
        spec_u32_dec(n / 10) + seq![spec_dec_digit((n % 10) as int)]
    }
}

/// A decimal digit character.
pub open spec fn spec_is_dec_digit(c: char) -> bool {
    48 <= c as u32 <= 57
}

/// The numeric value of one digit character.
pub open spec fn spec_digit_val(c: char) -> int {
    c as u32 - 48
}

/// The numeric value of a digit string, most significant digit first.
pub open spec fn spec_digits_value(s: Seq<char>) -> int
    decreases s.len(),
{
    if s.len() == 0 {
        0
    } else {
        spec_digits_value(s.drop_last()) * 10 + spec_digit_val(s.last())
    }
}

/// The digit part of a decimal numeral: the whole string, or what follows
/// one optional leading plus sign.
pub open spec fn spec_dec_digits_part(s: Seq<char>) -> Seq<char> {
    if s.len() > 0 && s[0] == '+' {
        s.skip(1)
    } else {
        s
    }
}

/// Whether a string is a well-formed decimal numeral for an unsigned
/// 32-bit value: an optional leading plus sign, then at least one decimal
/// digit and nothing else, with a value that fits in 32 bits.
pub open spec fn spec_parse_u32_ok(s: Seq<char>) -> bool {
    &&& spec_dec_digits_part(s).len() > 0
    &&& forall|i: int|
        0 <= i < spec_dec_digits_part(s).len() ==> spec_is_dec_digit(spec_dec_digits_part(s)[i])
    &&& spec_digits_value(spec_dec_digits_part(s)) <= u32::MAX
}

/// The value of a well-formed decimal numeral.
pub open spec fn spec_parse_u32_val(s: Seq<char>) -> int {
    spec_digits_value(spec_dec_digits_part(s))
}

proof fn lemma_digits_value_nonneg(s: Seq<char>)
    requires
        forall|i: int| 0 <= i < s.len() ==> spec_is_dec_digit(s[i]),
    ensures
        spec_digits_value(s) >= 0,
    decreases s.len(),
{
    if s.len() > 0 {
        lemma_digits_value_nonneg(s.drop_last());
        assert(s.last() == s[s.len() - 1]);
    }
}

proof fn lemma_digits_value_prefix_le(s: Seq<char>, k: int)
    requires
        0 <= k <= s.len(),
        forall|i: int| 0 <= i < s.len() ==> spec_is_dec_digit(s[i]),
    ensures
        spec_digits_value(s.take(k)) <= spec_digits_value(s),
    decreases s.len() - k,
{
    if k == s.len() {
        assert(s.take(k) =~= s);
    } else {
        lemma_digits_value_prefix_le(s, k + 1);
        let t = s.take(k + 1);
        assert(t.drop_last() =~= s.take(k));
        assert(t.last() == s[k]);
        lemma_digits_value_nonneg(s.take(k));
        assert(spec_digits_value(s.take(k)) <= spec_digits_value(t));
    }
}


proof fn lemma_numeral_digit(s: Seq<char>, q: int)
    requires
        spec_parse_u32_ok(s),
        0 <= q < spec_dec_digits_part(s).len(),
    ensures
        spec_is_dec_digit(spec_dec_digits_part(s)[q]),
{
}

proof fn lemma_numeral_prefix_value(s: Seq<char>, k: int)
    requires
        spec_parse_u32_ok(s),
        0 <= k <= spec_dec_digits_part(s).len(),
    ensures
        spec_digits_value(spec_dec_digits_part(s).take(k)) <= u32::MAX,
{
    lemma_digits_value_prefix_le(spec_dec_digits_part(s), k);
}

/// Relies on String::push of the standard library: appends exactly one
/// character at the end.
#[verifier::external_body]
pub(crate) fn push_char(s: &mut String, c: char)
    ensures
        final(s)@ == old(s)@ + seq![c],
{
    s.push(c);
}

/// Renders a 32-bit value as its decimal digit string.
#[verifier::rlimit(30)]
pub fn u32_to_decimal(n: u32) -> (r: String)
    ensures
        r@ == spec_u32_dec(n as nat),
{
    let mut m: u32 = n;
    let mut rev: Vec<char> = Vec::new();
    proof {
        assert(spec_u32_dec(n as nat) =~= spec_u32_dec(n as nat) + rev@.reverse());
    }
    loop
        invariant_except_break
            spec_u32_dec(n as nat) == spec_u32_dec(m as nat) + rev@.reverse(),
        ensures
            spec_u32_dec(n as nat) == rev@.reverse(),
        decreases m,
    {
        let d: u32 = m % 10;
        let c: char = (48 + d as u8) as char;
        proof {
            assert(c == spec_dec_digit(d as int));
            assert(rev@.push(c).reverse() =~= seq![c] + rev@.reverse());
            if m >= 10 {
                assert(spec_u32_dec(m as nat) == spec_u32_dec((m as nat) / 10) + seq![
                    spec_dec_digit(((m as nat) % 10) as int),
                ]);
                assert(spec_u32_dec((m / 10) as nat) + (seq![c] + rev@.reverse())
                    =~= spec_u32_dec(m as nat) + rev@.reverse());
            } else {
                assert(spec_u32_dec(m as nat) == seq![c]);
                assert(seq![c] + rev@.reverse() =~= spec_u32_dec(m as nat) + rev@.reverse());
            }
        }
        rev.push(c);
        if m < 10 {
            break ;
        }
        m = m / 10;
    }
    let len = rev.len();
    let mut r = String::new();
    let mut idx: usize = len;
    proof {
        assert(rev@.skip(len as int).reverse() =~= Seq::<char>::empty());
    }
    while idx > 0
        invariant
            idx <= len,
            len == rev@.len(),
            r@ == rev@.skip(idx as int).reverse(),
        decreases idx,
    {
        idx = idx - 1;
        let c = rev[idx];
        proof {
            assert(rev@.skip(idx as int).reverse() =~= rev@.skip(idx as int + 1).reverse()
                + seq![rev@[idx as int]]);
        }
        push_char(&mut r, c);
    }
    proof {
        assert(rev@.skip(0) =~= rev@);
    }
    r
}

/// Parses a decimal numeral into an unsigned 32-bit value, failing with
/// `ParseError` carrying the input when the input is not a well-formed
/// numeral or its value does not fit.
pub fn parse_u32(text: &str) -> (r: Result<u32, Error>)
    ensures
        match r {
            Ok(n) => spec_parse_u32_ok(text@) && n == spec_parse_u32_val(text@),
            Err(e) => !spec_parse_u32_ok(text@) && (e matches Error::ParseError(t) && t@
                == text@),
        },
{
    let len = text.unicode_len();
    let start: usize = if len > 0 && text.get_char(0) == '+' {
        1
    } else {
        0
    };
    let ghost digits = spec_dec_digits_part(text@);
    proof {
        assert(digits =~= text@.skip(start as int));
    }
    if len == start {
        return Err(Error::ParseError(text.to_owned()));
    }
    let mut acc: u64 = 0;
    let mut i: usize = start;
    while i < len
        invariant
            start <= i <= len,
            len == text@.len(),
            digits == spec_dec_digits_part(text@),
            digits == text@.skip(start as int),
            digits.len() == len - start,
            forall|q: int| 0 <= q < i - start ==> spec_is_dec_digit(digits[q]),
            acc == spec_digits_value(digits.take(i - start)),
            acc <= u32::MAX,
        decreases len - i,
    {
        let c = text.get_char(i);
        let v: u32 = c as u32;
        proof {
            assert(digits[i - start] == text@[i as int]);
        }
        if v < 48 || v > 57 {
            proof {
                if spec_parse_u32_ok(text@) {
                    lemma_numeral_digit(text@, i - start);
                    assert(false);
                }
            }
            return Err(Error::ParseError(text.to_owned()));
        }
        acc = acc * 10 + (v - 48) as u64;
        i = i + 1;
        proof {
            let t = digits.take(i - start);
            assert(t.drop_last() =~= digits.take(i - start - 1));
            assert(t.last() == digits[i - start - 1]);
        }
        if acc > 0xFFFF_FFFF {
            proof {
                if spec_parse_u32_ok(text@) {
                    lemma_numeral_prefix_value(text@, i - start);
                    assert(false);
                }
            }
            return Err(Error::ParseError(text.to_owned()));
        }
    }
    proof {
        assert(digits.take(i - start) =~= digits);
    }
    Ok(acc as u32)
}

} // verus!
