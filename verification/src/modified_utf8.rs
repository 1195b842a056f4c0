//! [Java SE 7 &sect; 4.4.7](https://docs.oracle.com/javase/specs/jvms/se7/html/jvms-4.html#jvms-4.4.7):  decoding
//! the "Modified UTF-8" of `CONSTANT_Utf8_info`.  Which is not actually UTF-8:
//! "\u{0}" is encoded as *two bytes*, neither of which is 0, and "\u{10000}" and above is encoded as
//! *six bytes*, first encoded as UTF-16 surrogate pairs, then each surrogate encoded as UTF-8.

use vstd::prelude::*;
use crate::io_ext::ReadError;
use crate::text::push_char;

verus! {

/// A Unicode scalar value: a code point that is not a surrogate.
pub open spec fn is_scalar(v: u32) -> bool {
    v < 0xD800 || (0xE000 <= v && v <= 0x10FFFF)
}

/// `char::from_u32`: the `char` with this value, or `None` when the value is not a Unicode scalar
/// value.
#[verifier::external_body]
pub(crate) fn char_from_u32(v: u32) -> (r: Option<char>)
    ensures
        r is Some <==> is_scalar(v),
        r matches Some(c) ==> c as u32 == v,
{
    char::from_u32(v)
}

/// The character with a scalar value.
pub open spec fn char_of(v: u32) -> Option<char> {
    if is_scalar(v) {
        Some(v as char)
    } else {
        None
    }
}

fn char_from_value(v: u32) -> (r: Option<char>)
    ensures
        r == char_of(v),
{
    let r = char_from_u32(v);
    match r {
        Some(c) => {
            assert(c as u32 == v);
            proof { vstd::utf8::char_u32_cast(c, v); }
            assert(char_of(v) == Some(c));
            r
        },
        None => r,
    }
}

/// The byte at `index` must match `equal` under `mask`; its other bits are the result.
pub open spec fn expect_byte_spec(s: Seq<u8>, index: int, mask: u8, equal: u8) -> Result<u8, ReadError> {
    if 0 <= index < s.len() {
        if s[index] & mask == equal {
            Ok(s[index] & !mask)
        } else {
            Err(ReadError::Utf8UnexpectedByte(index as usize))
        }
    } else {
        Err(ReadError::Utf8Incomplete)
    }
}

/// Checks the byte at `index` against `mask` and `equal`, returning its remaining bits.
pub fn expect_byte(remaining: &[u8], index: usize, mask: u8, equal: u8) -> (r: Result<u8, ReadError>)
    ensures
        r == expect_byte_spec(remaining@, index as int, mask, equal),
{
    if index < remaining.len() {
        let value = remaining[index];
        if value & mask == equal {
            Ok(value & !mask)
        } else {
            Err(ReadError::Utf8UnexpectedByte(index))
        }
    } else {
        Err(ReadError::Utf8Incomplete)
    }
}

/// A character, or why there is none, and the bytes it takes.
pub open spec fn decoded(v: u32, n: int) -> Result<(char, int), ReadError> {
    match char_of(v) {
        Some(c) => Ok((c, n)),
        None => Err(ReadError::Utf8InvalidScalar(v)),
    }
}

/// The first character of a strict "Modified UTF-8" string: one, two or three bytes as in UTF-8
/// (a two byte zero included); a character above U+FFFF is a six byte surrogate pair
/// `0xED 0b1010aaaa 0b10bbbbbb 0xED 0b1011cccc 0b10dddddd`, the high surrogate's three bytes
/// followed by the low one's, which stands for `0x10000 + (aaaabbbbbb << 10 | ccccdddddd)`.
pub open spec fn decode_char(s: Seq<u8>) -> Result<(char, int), ReadError> {
    if s.len() == 0 {
        Err(ReadError::Utf8Empty)
    } else {
        let b0 = s[0];
        if b0 & 0x80 == 0 {
            Ok((b0 as char, 1))
        } else if b0 & 0xE0 == 0xC0 {
            match expect_byte_spec(s, 1, 0xC0, 0x80) {
                Ok(b1) => decoded(((b0 & 0x1F) as u32) << 6 | b1 as u32, 2),
                Err(e) => Err(e),
            }
        } else if b0 == 0xED && s.len() > 1 && s[1] & 0xF0 == 0xA0 {
            match expect_byte_spec(s, 1, 0xF0, 0xA0) {
                Ok(a) => match expect_byte_spec(s, 2, 0xC0, 0x80) {
                    Ok(b) => match expect_byte_spec(s, 3, 0xFF, 0xED) {
                        Ok(_) => match expect_byte_spec(s, 4, 0xF0, 0xB0) {
                            Ok(c) => match expect_byte_spec(s, 5, 0xC0, 0x80) {
                                Ok(d) => decoded((0x10000 + ((a as u32) << 16 | (b as u32) << 10 | (c as u32) << 6 | d as u32)) as u32, 6),
                                Err(e) => Err(e),
                            },
                            Err(e) => Err(e),
                        },
                        Err(e) => Err(e),
                    },
                    Err(e) => Err(e),
                },
                Err(e) => Err(e),
            }
        } else if b0 & 0xF0 == 0xE0 {
            match expect_byte_spec(s, 1, 0xC0, 0x80) {
                Ok(b1) => match expect_byte_spec(s, 2, 0xC0, 0x80) {
                    Ok(b2) => decoded(((b0 & 0x0F) as u32) << 12 | (b1 as u32) << 6 | b2 as u32, 3),
                    Err(e) => Err(e),
                },
                Err(e) => Err(e),
            }
        } else {
            Err(ReadError::Utf8InvalidStart(b0))
        }
    }
}

proof fn lemma_decode_char_len(s: Seq<u8>)
    ensures
        decode_char(s) matches Ok((_, n)) ==> 0 < n <= s.len(),
{
}

/// Decodes the first character of `remaining`; returns it and how many bytes it takes.
pub fn read_char(remaining: &[u8]) -> (r: Result<(char, usize), ReadError>)
    ensures
        match decode_char(remaining@) {
            Ok((c, n)) => r == Ok::<(char, usize), ReadError>((c, n as usize)),
            Err(e) => r == Err::<(char, usize), ReadError>(e),
        },
{
    if remaining.len() == 0 {
        return Err(ReadError::Utf8Empty);
    }
    let b0 = remaining[0];
    if b0 & 0x80 == 0 {
        Ok((b0 as char, 1))
    } else if b0 & 0xE0 == 0xC0 {
        let b1 = expect_byte(remaining, 1, 0xC0, 0x80)?;
        let v = ((b0 & 0x1F) as u32) << 6 | b1 as u32;
        match char_from_value(v) {
            Some(c) => Ok((c, 2)),
            None => Err(ReadError::Utf8InvalidScalar(v)),
        }
    } else if b0 == 0xED && remaining.len() > 1 && remaining[1] & 0xF0 == 0xA0 {
        let a = expect_byte(remaining, 1, 0xF0, 0xA0)?;
        let b = expect_byte(remaining, 2, 0xC0, 0x80)?;
        let _ = expect_byte(remaining, 3, 0xFF, 0xED)?;
        let c = expect_byte(remaining, 4, 0xF0, 0xB0)?;
        let d = expect_byte(remaining, 5, 0xC0, 0x80)?;
        let ghost (x1, x2, x4, x5) = (remaining@[1], remaining@[2], remaining@[4], remaining@[5]);
        assert((x1 & !0xF0u8) < 16 && (x2 & !0xC0u8) < 64 && (x4 & !0xF0u8) < 16 && (x5 & !0xC0u8) < 64) by (bit_vector);
        assert(a == remaining@[1] & !0xF0u8 && b == remaining@[2] & !0xC0u8);
        assert(c == remaining@[4] & !0xF0u8 && d == remaining@[5] & !0xC0u8);
        assert(a < 16 && b < 64 && c < 16 && d < 64);
        assert((a as u32) << 16 | (b as u32) << 10 | (c as u32) << 6 | d as u32 <= 0xFFFFF) by (bit_vector)
            requires a < 16 && b < 64 && c < 16 && d < 64;
        let v = 0x10000 + ((a as u32) << 16 | (b as u32) << 10 | (c as u32) << 6 | d as u32);
        match char_from_value(v) {
            Some(ch) => Ok((ch, 6)),
            None => Err(ReadError::Utf8InvalidScalar(v)),
        }
    } else if b0 & 0xF0 == 0xE0 {
        let b1 = expect_byte(remaining, 1, 0xC0, 0x80)?;
        let b2 = expect_byte(remaining, 2, 0xC0, 0x80)?;
        let v = ((b0 & 0x0F) as u32) << 12 | (b1 as u32) << 6 | b2 as u32;
        match char_from_value(v) {
            Some(c) => Ok((c, 3)),
            None => Err(ReadError::Utf8InvalidScalar(v)),
        }
    } else {
        Err(ReadError::Utf8InvalidStart(b0))
    }
}

/// The characters of a whole strict "Modified UTF-8" string, after those in `acc`.
pub open spec fn decode_all(s: Seq<u8>, acc: Seq<char>) -> Result<Seq<char>, ReadError>
    decreases s.len(),
{
    if s.len() == 0 {
        Ok(acc)
    } else {
        match decode_char(s) {
            Ok((c, n)) => if 0 < n <= s.len() {
                decode_all(s.skip(n), acc.push(c))
            } else {
                Err(ReadError::Utf8Empty)
            },
            Err(e) => Err(e),
        }
    }
}

/// Decodes a whole strict "Modified UTF-8" string.
pub fn decode_strict(buffer: &[u8]) -> (r: Result<String, ReadError>)
    ensures
        match decode_all(buffer@, Seq::empty()) {
            Ok(cs) => r is Ok && r->Ok_0@ == cs,
            Err(e) => r == Err::<String, ReadError>(e),
        },
{
    let mut output = String::new();
    let mut pos: usize = 0;
    proof { assert(buffer@.skip(0) =~= buffer@); }
    while pos < buffer.len()
        invariant
            pos <= buffer@.len(),
            decode_all(buffer@, Seq::empty()) == decode_all(buffer@.skip(pos as int), output@),
        decreases buffer@.len() - pos,
    {
        let rest = vstd::slice::slice_subrange(buffer, pos, buffer.len());
        assert(rest@ =~= buffer@.skip(pos as int));
        let (c, n) = read_char(rest)?;
        proof {
            lemma_decode_char_len(rest@);
            assert(rest@.skip(n as int) =~= buffer@.skip(pos + n));
        }
        push_char(&mut output, c);
        pos = pos + n;
    }
    proof { assert(buffer@.skip(pos as int) =~= Seq::<u8>::empty()); }
    Ok(output)
}

// ---------------------------------------------------------------------------------------------
// Lenient decoding, keeping surrogates as code points.

/// The first code point of a lenient "Modified UTF-8" string, and how many bytes it moves past.
/// One to four byte forms are as in UTF-8, and all of a form's bytes are moved past.
pub open spec fn decode_point(s: Seq<u8>) -> Result<(u32, int), ReadError> {
    if s.len() == 0 {
        Err(ReadError::Utf8Empty)
    } else {
        let b0 = s[0];
        if b0 & 0x80 == 0 {
            Ok((b0 as u32, 1))
        } else if b0 & 0xE0 == 0xC0 {
            match expect_byte_spec(s, 1, 0xC0, 0x80) {
                Ok(b1) => Ok((((b0 & 0x1F) as u32) << 6 | b1 as u32, 2)),
                Err(e) => Err(e),
            }
        } else if b0 & 0xF0 == 0xE0 {
            match expect_byte_spec(s, 1, 0xC0, 0x80) {
                Ok(b1) => match expect_byte_spec(s, 2, 0xC0, 0x80) {
                    Ok(b2) => Ok((((b0 & 0x0F) as u32) << 12 | (b1 as u32) << 6 | b2 as u32, 3)),
                    Err(e) => Err(e),
                },
                Err(e) => Err(e),
            }
        } else if b0 & 0xF8 == 0xF0 {
            match expect_byte_spec(s, 1, 0xC0, 0x80) {
                Ok(b1) => match expect_byte_spec(s, 2, 0xC0, 0x80) {
                    Ok(b2) => match expect_byte_spec(s, 3, 0xC0, 0x80) {
                        Ok(b3) => Ok((((b0 & 0x07) as u32) << 18 | (b1 as u32) << 12 | (b2 as u32) << 6 | b3 as u32, 4)),
                        Err(e) => Err(e),
                    },
                    Err(e) => Err(e),
                },
                Err(e) => Err(e),
            }
        } else {
            Err(ReadError::Utf8InvalidStart(b0))
        }
    }
}

/// Decodes the first code point of `remaining`; returns it and how many bytes to move past.
pub fn read_modified_utf8_point(remaining: &[u8]) -> (r: Result<(u32, usize), ReadError>)
    ensures
        match decode_point(remaining@) {
            Ok((p, n)) => r == Ok::<(u32, usize), ReadError>((p, n as usize)) && 0 < n <= remaining@.len(),
            Err(e) => r == Err::<(u32, usize), ReadError>(e),
        },
{
    if remaining.len() == 0 {
        return Err(ReadError::Utf8Empty);
    }
    let b0 = remaining[0];
    if b0 & 0x80 == 0 {
        Ok((b0 as u32, 1))
    } else if b0 & 0xE0 == 0xC0 {
        let b1 = expect_byte(remaining, 1, 0xC0, 0x80)?;
        Ok((((b0 & 0x1F) as u32) << 6 | b1 as u32, 2))
    } else if b0 & 0xF0 == 0xE0 {
        let b1 = expect_byte(remaining, 1, 0xC0, 0x80)?;
        let b2 = expect_byte(remaining, 2, 0xC0, 0x80)?;
        Ok((((b0 & 0x0F) as u32) << 12 | (b1 as u32) << 6 | b2 as u32, 3))
    } else if b0 & 0xF8 == 0xF0 {
        let b1 = expect_byte(remaining, 1, 0xC0, 0x80)?;
        let b2 = expect_byte(remaining, 2, 0xC0, 0x80)?;
        let b3 = expect_byte(remaining, 3, 0xC0, 0x80)?;
        Ok((((b0 & 0x07) as u32) << 18 | (b1 as u32) << 12 | (b2 as u32) << 6 | b3 as u32, 4))
    } else {
        Err(ReadError::Utf8InvalidStart(b0))
    }
}

/// The string a lenient "Modified UTF-8" buffer holds when every code point is a scalar value or
/// part of a well-formed surrogate pair; `None` otherwise.
pub open spec fn points_as_utf8(s: Seq<u8>, acc: Seq<char>) -> Option<Seq<char>>
    decreases s.len(),
{
    if s.len() == 0 {
        Some(acc)
    } else {
        match decode_point(s) {
            Ok((p, n)) => if !(0 < n <= s.len()) {
                None
            } else if 0xDC00 <= p && p <= 0xDFFF {
                None
            } else if 0xD800 <= p && p <= 0xDBFF {
                let t = s.skip(n);
                match decode_point(t) {
                    Ok((lo, m)) => if !(0 < m <= t.len()) {
                        None
                    } else if !(0xDC00 <= lo && lo <= 0xDFFF) {
                        None
                    } else {
                        match char_of((0x10000 + (p - 0xD800) * 1024 + (lo - 0xDC00)) as u32) {
                            Some(c) => points_as_utf8(t.skip(m), acc.push(c)),
                            None => None,
                        }
                    },
                    Err(_) => None,
                }
            } else {
                match char_of(p) {
                    Some(c) => points_as_utf8(s.skip(n), acc.push(c)),
                    None => None,
                }
            },
            Err(_) => None,
        }
    }
}

/// Decodes a buffer as a string, combining surrogate pairs.
pub fn read_modified_utf8_as_utf8(buffer: &[u8]) -> (r: Option<String>)
    ensures
        match points_as_utf8(buffer@, Seq::empty()) {
            Some(cs) => r is Some && r->Some_0@ == cs,
            None => r is None,
        },
{
    let mut output = String::new();
    let mut pos: usize = 0;
    proof { assert(buffer@.skip(0) =~= buffer@); }
    while pos < buffer.len()
        invariant
            pos <= buffer@.len(),
            points_as_utf8(buffer@, Seq::empty()) == points_as_utf8(buffer@.skip(pos as int), output@),
        decreases buffer@.len() - pos,
    {
        let rest = vstd::slice::slice_subrange(buffer, pos, buffer.len());
        assert(rest@ =~= buffer@.skip(pos as int));
        let (point, n) = match read_modified_utf8_point(rest) {
            Ok(pn) => pn,
            Err(_) => return None,
        };
        if 0xDC00 <= point && point <= 0xDFFF {
            return None;  // invalid leading low surrogate
        } else if 0xD800 <= point && point <= 0xDBFF {
            // valid leading high surrogate
            let rest2 = vstd::slice::slice_subrange(buffer, pos + n, buffer.len());
            assert(rest2@ =~= rest@.skip(n as int));
            let (lo, m) = match read_modified_utf8_point(rest2) {
                Ok(pn) => pn,
                Err(_) => return None,
            };
            if !(0xDC00 <= lo && lo <= 0xDFFF) {
                return None;  // expected a low surrogate to trail a high surrogate
            }
            let v = 0x10000 + (point - 0xD800) * 1024 + (lo - 0xDC00);
            let c = match char_from_value(v) {
                Some(c) => c,
                None => return None,
            };
            proof { assert(rest2@.skip(m as int) =~= buffer@.skip(pos + n + m)); }
            push_char(&mut output, c);
            pos = pos + n + m;
        } else {
            let c = match char_from_value(point) {
                Some(c) => c,
                None => return None,
            };
            proof { assert(rest@.skip(n as int) =~= buffer@.skip(pos + n)); }
            push_char(&mut output, c);
            pos = pos + n;
        }
    }
    proof { assert(buffer@.skip(pos as int) =~= Seq::<u8>::empty()); }
    Some(output)
}

/// The code points of a lenient "Modified UTF-8" buffer as UTF-16 units, when each fits in one.
pub open spec fn points_as_utf16(s: Seq<u8>, acc: Seq<u16>) -> Option<Seq<u16>>
    decreases s.len(),
{
    if s.len() == 0 {
        Some(acc)
    } else {
        match decode_point(s) {
            Ok((p, n)) => if !(0 < n <= s.len()) || p > 0xFFFF {
                None
            } else {
                points_as_utf16(s.skip(n), acc.push(p as u16))
            },
            Err(_) => None,
        }
    }
}

/// Decodes a buffer as UTF-16 units, keeping mispaired surrogates.
pub fn read_modified_utf8_as_mispaired_utf16(buffer: &[u8]) -> (r: Option<Vec<u16>>)
    ensures
        match points_as_utf16(buffer@, Seq::empty()) {
            Some(us) => r is Some && r->Some_0@ == us,
            None => r is None,
        },
{
    let mut output: Vec<u16> = Vec::new();
    let mut pos: usize = 0;
    proof { assert(buffer@.skip(0) =~= buffer@); }
    while pos < buffer.len()
        invariant
            pos <= buffer@.len(),
            points_as_utf16(buffer@, Seq::empty()) == points_as_utf16(buffer@.skip(pos as int), output@),
        decreases buffer@.len() - pos,
    {
        let rest = vstd::slice::slice_subrange(buffer, pos, buffer.len());
        assert(rest@ =~= buffer@.skip(pos as int));
        let (p, n) = match read_modified_utf8_point(rest) {
            Ok(pn) => pn,
            Err(_) => return None,
        };
        if p > 0xFFFF {
            return None;
        }
        proof { assert(rest@.skip(n as int) =~= buffer@.skip(pos + n)); }
        output.push(p as u16);
        pos = pos + n;
    }
    proof { assert(buffer@.skip(pos as int) =~= Seq::<u8>::empty()); }
    Some(output)
}


// ---------------------------------------------------------------------------------------------
// Encoding, and decoding what was encoded

/// The three bytes of a code point below U+10000 in the three byte form.
pub open spec fn enc3(v: u32) -> Seq<u8> {
    seq![(0xE0u32 | (v >> 12)) as u8, (0x80u32 | ((v >> 6) & 0x3F)) as u8, (0x80u32 | (v & 0x3F)) as u8]
}

/// A character in "Modified UTF-8": U+0001 to U+007F as one byte; U+0000 and up to U+07FF as two
/// bytes; up to U+FFFF as three bytes; above that, the UTF-16 surrogate pair, each surrogate as
/// three bytes.
pub open spec fn encode_char(c: char) -> Seq<u8> {
    let v = c as u32;
    if 1 <= v && v < 0x80 {
        seq![v as u8]
    } else if v < 0x800 {
        seq![(0xC0u32 | (v >> 6)) as u8, (0x80u32 | (v & 0x3F)) as u8]
    } else if v < 0x10000 {
        enc3(v)
    } else {
        let u = (v - 0x10000) as u32;
        enc3((0xD800u32 + (u >> 10)) as u32) + enc3((0xDC00u32 + (u & 0x3FF)) as u32)
    }
}

/// A string in "Modified UTF-8".
pub open spec fn encode_modified_utf8(s: Seq<char>) -> Seq<u8>
    decreases s.len(),
{
    if s.len() == 0 {
        Seq::empty()
    } else {
        encode_char(s[0]) + encode_modified_utf8(s.skip(1))
    }
}

proof fn lemma_bits_two(v: u32)
    by (bit_vector)
    requires
        v < 0x800,
    ensures
        ((0xC0u32 | (v >> 6)) as u8) & 0x80 != 0,
        ((0xC0u32 | (v >> 6)) as u8) & 0xE0 == 0xC0,
        ((0x80u32 | (v & 0x3F)) as u8) & 0xC0 == 0x80,
        ((((0xC0u32 | (v >> 6)) as u8) & 0x1F) as u32) << 6 | ((((0x80u32 | (v & 0x3F)) as u8) & !0xC0u8) as u32) == v,
{
}

proof fn lemma_bits_three(v: u32)
    by (bit_vector)
    requires
        0x800 <= v < 0x10000,
    ensures
        ((0xE0u32 | (v >> 12)) as u8) & 0x80 != 0,
        ((0xE0u32 | (v >> 12)) as u8) & 0xE0 != 0xC0,
        ((0xE0u32 | (v >> 12)) as u8) & 0xF0 == 0xE0,
        ((0x80u32 | ((v >> 6) & 0x3F)) as u8) & 0xC0 == 0x80,
        ((0x80u32 | (v & 0x3F)) as u8) & 0xC0 == 0x80,
        ((((0xE0u32 | (v >> 12)) as u8) & 0x0F) as u32) << 12
            | ((((0x80u32 | ((v >> 6) & 0x3F)) as u8) & !0xC0u8) as u32) << 6
            | ((((0x80u32 | (v & 0x3F)) as u8) & !0xC0u8) as u32) == v,
{
}

proof fn lemma_bits_pair(u: u32)
    by (bit_vector)
    requires
        u < 0x100000,
    ensures
        0xD800u32 <= 0xD800u32 + (u >> 10) <= 0xDBFFu32,
        0xDC00u32 <= 0xDC00u32 + (u & 0x3FF) <= 0xDFFFu32,
        (u >> 10) * 1024 + (u & 0x3FF) == u,
{
}

/// Decoding the bytes of a code point below U+10000 gives it back, and moves past them.
proof fn lemma_decode_enc3(v: u32, rest: Seq<u8>)
    requires
        0x800 <= v < 0x10000,
    ensures
        decode_point(enc3(v) + rest) == Ok::<(u32, int), ReadError>((v, 3)),
        (enc3(v) + rest).skip(3) == rest,
{
    lemma_bits_three(v);
    let s = enc3(v) + rest;
    assert(s[0] == enc3(v)[0] && s[1] == enc3(v)[1] && s[2] == enc3(v)[2]);
    assert(s.skip(3) =~= rest);
}

/// Decoding a character's bytes, followed by anything, gives the character back and moves past
/// its bytes.
proof fn lemma_decode_encoded_char(c: char, rest: Seq<u8>, acc: Seq<char>)
    ensures
        points_as_utf8(encode_char(c) + rest, acc) == points_as_utf8(rest, acc.push(c)),
{
    let v = c as u32;
    let s = encode_char(c) + rest;
    assert(is_scalar(v));
    vstd::utf8::char_u32_cast(c, v);
    if 1 <= v && v < 0x80 {
        assert(s[0] == v as u8);
        assert((v as u8) & 0x80 == 0 && ((v as u8) as u32) == v) by (bit_vector)
            requires 1 <= v && v < 0x80;
        assert(decode_point(s) == Ok::<(u32, int), ReadError>((v, 1)));
        assert(s.skip(1) =~= rest);
    } else if v < 0x800 {
        lemma_bits_two(v);
        assert(s[0] == encode_char(c)[0] && s[1] == encode_char(c)[1]);
        assert(decode_point(s) == Ok::<(u32, int), ReadError>((v, 2)));
        assert(s.skip(2) =~= rest);
    } else if v < 0x10000 {
        lemma_decode_enc3(v, rest);
    } else {
        let u = (v - 0x10000) as u32;
        let hi = (0xD800u32 + (u >> 10)) as u32;
        let lo = (0xDC00u32 + (u & 0x3FF)) as u32;
        lemma_bits_pair(u);
        assert(encode_char(c) + rest =~= enc3(hi) + (enc3(lo) + rest));
        lemma_decode_enc3(hi, enc3(lo) + rest);
        lemma_decode_enc3(lo, rest);
        assert(0x10000 + (hi - 0xD800) * 1024 + (lo - 0xDC00) == v);
    }
}

/// Decoding a string's "Modified UTF-8" gives the string back.
pub proof fn law_modified_utf8_round_trip(s: Seq<char>, acc: Seq<char>)
    ensures
        points_as_utf8(encode_modified_utf8(s), acc) == Some(acc + s),
    decreases s.len(),
{
    if s.len() == 0 {
        assert(acc + s =~= acc);
    } else {
        lemma_decode_encoded_char(s[0], encode_modified_utf8(s.skip(1)), acc);
        law_modified_utf8_round_trip(s.skip(1), acc.push(s[0]));
        assert(acc.push(s[0]) + s.skip(1) =~= acc + s);
    }
}

} // verus!
