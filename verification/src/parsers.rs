//! Fixed-width ASCII numeric field parsers and their mathematical model.
//!
//! Every numeric field on the wire is a run of ASCII decimal digits, most
//! significant digit first, optionally preceded by a single sign byte.

use vstd::prelude::*;

verus! {

/// ASCII code of the digit `0`.
pub const ASCII_ZERO: u8 = 48;

/// ASCII code of the digit `9`.
pub const ASCII_NINE: u8 = 57;

/// ASCII code of `+`.
pub const ASCII_PLUS: u8 = 43;

/// ASCII code of `-`.
pub const ASCII_MINUS: u8 = 45;

/// A byte is an ASCII decimal digit.
pub open spec fn is_digit(b: u8) -> bool {
    ASCII_ZERO <= b && b <= ASCII_NINE
}

/// Numeric value of one ASCII digit byte.
pub open spec fn digit_val(b: u8) -> int {
    b - ASCII_ZERO
}

/// Every byte of the sequence is an ASCII decimal digit.
pub open spec fn all_digits(s: Seq<u8>) -> bool {
    forall|i: int| 0 <= i < s.len() ==> is_digit(#[trigger] s[i])
}

/// Value of a digit run, most significant digit first.
pub open spec fn digits_val(s: Seq<u8>) -> int
    decreases s.len(),
{
    if s.len() == 0 {
        0
    } else {
        10 * digits_val(s.drop_last()) + digit_val(s.last())
    }
}

/// Powers of ten.
pub open spec fn pow10(w: nat) -> int
    decreases w,
{
    if w == 0 {
        1
    } else {
        10 * pow10((w - 1) as nat)
    }
}

/// The zero-padded `w`-digit encoding of `v` (of `v % pow10(w)` when `v` is
/// wider than the field).
pub open spec fn digits_of(v: int, w: nat) -> Seq<u8>
    decreases w,
{
    if w == 0 {
        Seq::empty()
    } else {
        digits_of(v / 10, (w - 1) as nat).push((ASCII_ZERO + (v % 10)) as u8)
    }
}

/// Value of a signed field: one sign byte, then digits. Only `-` makes the
/// value negative; any other sign byte is read as positive.
pub open spec fn signed_val(s: Seq<u8>) -> int {
    if s[0] == ASCII_MINUS {
        -digits_val(s.skip(1))
    } else {
        digits_val(s.skip(1))
    }
}

/// Concrete values of the small powers of ten used by the fixed-width fields.
pub proof fn lemma_pow10_vals()
    ensures
        pow10(0) == 1,
        pow10(1) == 10,
        pow10(2) == 100,
        pow10(3) == 1000,
        pow10(4) == 10000,
        pow10(5) == 100000,
        pow10(9) == 1000000000,
{
    reveal_with_fuel(pow10, 10);
}

/// A digit run's value is non-negative and below `pow10` of its width.
pub proof fn lemma_digits_val_bound(s: Seq<u8>)
    requires
        all_digits(s),
    ensures
        0 <= digits_val(s) < pow10(s.len()),
    decreases s.len(),
{
    if s.len() > 0 {
        assert(all_digits(s.drop_last())) by {
            assert(forall|i: int|
                0 <= i < s.drop_last().len() ==> s.drop_last()[i] == #[trigger] s[i]);
        }
        lemma_digits_val_bound(s.drop_last());
        assert(is_digit(s.last()));
    }
}

/// A `w`-digit encoding is `w` digits long and all digits.
pub proof fn lemma_digits_of_wf(v: int, w: nat)
    requires
        v >= 0,
    ensures
        digits_of(v, w).len() == w,
        all_digits(digits_of(v, w)),
    decreases w,
{
    if w > 0 {
        lemma_digits_of_wf(v / 10, (w - 1) as nat);
    }
}

/// Encoding then decoding a value that fits the field gives the value back.
pub proof fn lemma_digits_of_val(v: int, w: nat)
    requires
        0 <= v < pow10(w),
    ensures
        digits_val(digits_of(v, w)) == v,
    decreases w,
{
    if w == 0 {
    } else {
        let s = digits_of(v, w);
        lemma_digits_of_wf(v / 10, (w - 1) as nat);
        assert(s.drop_last() =~= digits_of(v / 10, (w - 1) as nat));
        assert(v / 10 < pow10((w - 1) as nat)) by {
            assert(pow10(w) == 10 * pow10((w - 1) as nat));
        }
        lemma_digits_of_val(v / 10, (w - 1) as nat);
        assert(digit_val(s.last()) == v % 10);
        assert(10 * (v / 10) + v % 10 == v);
    }
}

/// A character is an ASCII decimal digit.
pub open spec fn is_digit_char(c: char) -> bool {
    ASCII_ZERO <= c as u32 && c as u32 <= ASCII_NINE
}

/// Numeric value of one ASCII digit character.
pub open spec fn char_val(c: char) -> int {
    c as u32 - ASCII_ZERO
}

/// The ASCII digit character of a value in `0..=9`.
pub open spec fn digit_char(d: int) -> char {
    ((ASCII_ZERO + d) as u8) as char
}

/// Every character of the sequence is an ASCII decimal digit.
pub open spec fn all_digit_chars(s: Seq<char>) -> bool {
    forall|i: int| 0 <= i < s.len() ==> is_digit_char(#[trigger] s[i])
}

/// Value of a digit-character run, most significant digit first.
pub open spec fn chars_val(s: Seq<char>) -> int
    decreases s.len(),
{
    if s.len() == 0 {
        0
    } else {
        10 * chars_val(s.drop_last()) + char_val(s.last())
    }
}

/// The zero-padded `w`-digit character encoding of `v`.
pub open spec fn char_digits_of(v: int, w: nat) -> Seq<char>
    decreases w,
{
    if w == 0 {
        Seq::empty()
    } else {
        char_digits_of(v / 10, (w - 1) as nat).push(digit_char(v % 10))
    }
}

/// A digit-character run's value is non-negative and below `pow10` of its
/// width.
pub proof fn lemma_chars_val_bound(s: Seq<char>)
    requires
        all_digit_chars(s),
    ensures
        0 <= chars_val(s) < pow10(s.len()),
    decreases s.len(),
{
    if s.len() > 0 {
        assert(all_digit_chars(s.drop_last())) by {
            assert(forall|i: int|
                0 <= i < s.drop_last().len() ==> s.drop_last()[i] == #[trigger] s[i]);
        }
        lemma_chars_val_bound(s.drop_last());
        assert(is_digit_char(s.last()));
    }
}

/// A `w`-digit character encoding is `w` digit characters.
pub proof fn lemma_char_digits_of_wf(v: int, w: nat)
    requires
        v >= 0,
    ensures
        char_digits_of(v, w).len() == w,
        all_digit_chars(char_digits_of(v, w)),
        forall|i: int|
            0 <= i < w ==> ((#[trigger] char_digits_of(v, w)[i]) as u32) < 128,
    decreases w,
{
    if w > 0 {
        lemma_char_digits_of_wf(v / 10, (w - 1) as nat);
        assert(is_digit_char(digit_char(v % 10)));
    }
}

/// Encoding then decoding a value that fits the field gives the value back.
pub proof fn lemma_char_digits_of_val(v: int, w: nat)
    requires
        0 <= v < pow10(w),
    ensures
        chars_val(char_digits_of(v, w)) == v,
    decreases w,
{
    if w == 0 {
    } else {
        let s = char_digits_of(v, w);
        lemma_char_digits_of_wf(v / 10, (w - 1) as nat);
        assert(s.drop_last() =~= char_digits_of(v / 10, (w - 1) as nat));
        assert(v / 10 < pow10((w - 1) as nat)) by {
            assert(pow10(w) == 10 * pow10((w - 1) as nat));
        }
        lemma_char_digits_of_val(v / 10, (w - 1) as nat);
        assert(char_val(s.last()) == v % 10);
        assert(10 * (v / 10) + v % 10 == v);
    }
}

/// A character encoding of a value that fits one digit fewer starts with the
/// zero character: the field is zero padded.
pub proof fn lemma_char_digits_of_leading_zero(v: int, w: nat)
    requires
        w >= 1,
        0 <= v < pow10((w - 1) as nat),
    ensures
        char_digits_of(v, w) =~= seq![digit_char(0)] + char_digits_of(v, (w - 1) as nat),
    decreases w,
{
    if w == 1 {
        assert(v == 0);
        assert(char_digits_of(0, 1) =~= seq![digit_char(0)] + char_digits_of(0, 0));
    } else {
        assert(v / 10 < pow10((w - 2) as nat)) by {
            assert(pow10((w - 1) as nat) == 10 * pow10((w - 2) as nat));
        }
        lemma_char_digits_of_leading_zero(v / 10, (w - 1) as nat);
    }
}

/// The character and the byte encodings of a value agree digit for digit.
pub proof fn lemma_char_digits_byte_digits(v: int, w: nat)
    requires
        v >= 0,
    ensures
        char_digits_of(v, w).map_values(|c: char| c as u8) =~= digits_of(v, w),
    decreases w,
{
    if w > 0 {
        lemma_char_digits_byte_digits(v / 10, (w - 1) as nat);
        assert(digit_char(v % 10) as u8 == (ASCII_ZERO + (v % 10)) as u8);
    }
}

/// The zero-padded `w`-digit character encoding of `v`, as executable code.
pub fn char_digits_vec(v: u32, w: usize) -> (r: Vec<char>)
    ensures
        r@ == char_digits_of(v as int, w as nat),
    decreases w,
{
    if w == 0 {
        let r: Vec<char> = Vec::new();
        proof {
            assert(r@ =~= char_digits_of(v as int, 0));
        }
        r
    } else {
        let mut r = char_digits_vec(v / 10, w - 1);
        let d: u8 = ASCII_ZERO + (v % 10) as u8;
        r.push(d as char);
        r
    }
}

/// The zero-padded `w`-digit byte encoding of `v`, as executable code.
pub fn byte_digits_vec(v: u32, w: usize) -> (r: Vec<u8>)
    ensures
        r@ == digits_of(v as int, w as nat),
    decreases w,
{
    if w == 0 {
        let r: Vec<u8> = Vec::new();
        proof {
            assert(r@ =~= digits_of(v as int, 0));
        }
        r
    } else {
        let mut r = byte_digits_vec(v / 10, w - 1);
        r.push(ASCII_ZERO + (v % 10) as u8);
        r
    }
}

/// Parse a single ASCII digit byte.
pub fn parse_digit(b: u8) -> (r: Option<u8>)
    ensures
        r is Some <==> is_digit(b),
        r is Some ==> r->0 as int == digit_val(b),
{
    if ASCII_ZERO <= b && b <= ASCII_NINE {
        Some(b - ASCII_ZERO)
    } else {
        None
    }
}

/// Parse a run of up to nine ASCII digits, most significant first.
pub fn parse_digits(buf: &[u8]) -> (r: Option<u64>)
    requires
        buf@.len() <= 9,
    ensures
        r is Some <==> all_digits(buf@),
        r is Some ==> r->0 as int == digits_val(buf@),
    decreases buf@.len(),
{
    if buf.len() == 0 {
        Some(0)
    } else {
        let prefix = parse_digits(&buf[0..buf.len() - 1]);
        let last = parse_digit(buf[buf.len() - 1]);
        proof {
            assert(buf@.drop_last() =~= buf@.subrange(0, buf@.len() - 1));
        }
        match (prefix, last) {
            (Some(hi), Some(d)) => {
                proof {
                    lemma_digits_val_bound(buf@.drop_last());
                    lemma_pow10_vals();
                    assert(pow10(buf@.drop_last().len()) <= pow10(8)) by {
                        reveal_with_fuel(pow10, 10);
                        assert(buf@.drop_last().len() <= 8);
                    }
                    assert forall|i: int| 0 <= i < buf@.len() implies is_digit(buf@[i]) by {
                        if i < buf@.len() - 1 {
                            assert(buf@[i] == buf@.drop_last()[i]);
                        } else {
                            assert(buf@[i] == buf@.last());
                        }
                    }
                }
                Some(hi * 10 + d as u64)
            },
            _ => {
                proof {
                    if all_digits(buf@) {
                        assert(is_digit(buf@.last()));
                        assert(forall|i: int|
                            0 <= i < buf@.drop_last().len() ==> buf@.drop_last()[i]
                                == #[trigger] buf@[i]);
                    }
                }
                None
            },
        }
    }
}

/// Parse a single ASCII digit character.
pub fn parse_digit_char(c: char) -> (r: Option<u8>)
    ensures
        r is Some <==> is_digit_char(c),
        r is Some ==> r->0 as int == char_val(c),
{
    let v = c as u32;
    if (ASCII_ZERO as u32) <= v && v <= (ASCII_NINE as u32) {
        Some((v - ASCII_ZERO as u32) as u8)
    } else {
        None
    }
}

/// Parse a 3-digit unsigned field whose value must fit one byte.
pub fn buf3_to_u8(buffer: &[u8]) -> (r: Result<u8, ()>)
    ensures
        r is Ok <==> buffer@.len() == 3 && all_digits(buffer@) && digits_val(buffer@) <= 255,
        r is Ok ==> r->Ok_0 as int == digits_val(buffer@),
{
    if buffer.len() != 3 {
        return Err(());
    }
    match parse_digits(buffer) {
        Some(v) => {
            if v > 255 {
                return Err(());
            }
            Ok(v as u8)
        },
        None => Err(()),
    }
}

/// Parse a 4-digit unsigned field.
pub fn buf4_to_u16(buffer: &[u8]) -> (r: Result<u16, ()>)
    ensures
        r is Ok <==> buffer@.len() == 4 && all_digits(buffer@),
        r is Ok ==> r->Ok_0 as int == digits_val(buffer@),
{
    if buffer.len() != 4 {
        return Err(());
    }
    match parse_digits(buffer) {
        Some(v) => {
            proof {
                lemma_digits_val_bound(buffer@);
                lemma_pow10_vals();
            }
            Ok(v as u16)
        },
        None => Err(()),
    }
}

/// Parse a 9-digit unsigned field.
pub fn buf9_to_u32(buffer: &[u8]) -> (r: Result<u32, ()>)
    ensures
        r is Ok <==> buffer@.len() == 9 && all_digits(buffer@),
        r is Ok ==> r->Ok_0 as int == digits_val(buffer@),
{
    if buffer.len() != 9 {
        return Err(());
    }
    match parse_digits(buffer) {
        Some(v) => {
            proof {
                lemma_digits_val_bound(buffer@);
                lemma_pow10_vals();
            }
            Ok(v as u32)
        },
        None => Err(()),
    }
}

/// Parse a signed field of one sign byte and 4 digits (5 bytes in all).
pub fn buf4_to_i16(buffer: &[u8]) -> (r: Result<i16, ()>)
    ensures
        r is Ok <==> buffer@.len() == 5 && all_digits(buffer@.skip(1)),
        r is Ok ==> r->Ok_0 as int == signed_val(buffer@),
{
    if buffer.len() != 5 {
        return Err(());
    }
    let neg = buffer[0] == ASCII_MINUS;
    proof {
        assert(buffer@.skip(1) =~= buffer@.subrange(1, 5));
    }
    match parse_digits(&buffer[1..5]) {
        Some(v) => {
            proof {
                lemma_digits_val_bound(buffer@.skip(1));
                lemma_pow10_vals();
            }
            let m = v as i16;
            if neg {
                Ok(-m)
            } else {
                Ok(m)
            }
        },
        None => Err(()),
    }
}

/// Parse a signed field of one sign byte and 5 digits (6 bytes in all),
/// bounded to the 16-bit signed range.
pub fn buf5_to_i16(buffer: &[u8]) -> (r: Result<i16, ()>)
    ensures
        r is Ok <==> buffer@.len() == 6 && all_digits(buffer@.skip(1)) && -32768 <= signed_val(
            buffer@,
        ) <= 32767,
        r is Ok ==> r->Ok_0 as int == signed_val(buffer@),
{
    if buffer.len() != 6 {
        return Err(());
    }
    let neg = buffer[0] == ASCII_MINUS;
    proof {
        assert(buffer@.skip(1) =~= buffer@.subrange(1, 6));
    }
    match parse_digits(&buffer[1..6]) {
        Some(v) => {
            proof {
                lemma_digits_val_bound(buffer@.skip(1));
                lemma_pow10_vals();
            }
            let signed: i32 = if neg {
                -(v as i32)
            } else {
                v as i32
            };
            if signed < -32768 || signed > 32767 {
                return Err(());
            }
            Ok(signed as i16)
        },
        None => Err(()),
    }
}

} // verus!
