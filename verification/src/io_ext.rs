//! Big-endian reads of the fixed-size integers that `.class` files are made of.

use vstd::prelude::*;

verus! {

/// Why reading a class file failed.
#[derive(Clone, Copy, Debug, PartialEq, Eq)]
pub enum ReadError {
    /// The input ended before a value was complete.
    UnexpectedEof,
    /// The class file does not start with `0xCAFEBABE`.
    InvalidMagic,
    /// A constant pool entry had a tag that names no `CONSTANT_*` kind.
    UnknownConstantTag(u8),
    /// A constant index points past the end of the constant pool.
    NoSuchConstant(u16),
    /// The constant at this index is not a `CONSTANT_Utf8_info`.
    ExpectedUtf8(u16),
    /// The `CONSTANT_Utf8_info` at this index holds mispaired UTF-16 surrogates.
    MispairedUtf16(u16),
    /// The `CONSTANT_Utf8_info` at this index holds invalid "Modified UTF-8".
    InvalidModifiedUtf8(u16),
    /// The constant at this index is not a `CONSTANT_Class_info`.
    ExpectedClass(u16),
    /// A `ConstantValue` attribute whose length is not 2.
    ConstantValueLength(u32),
    /// A `ConstantValue` attribute pointing at a constant of the wrong kind.
    ExpectedConstantValue(u16),
    /// "Modified UTF-8": the string ended inside a character.
    Utf8Incomplete,
    /// "Modified UTF-8": a byte at this offset does not have the expected bit pattern.
    Utf8UnexpectedByte(usize),
    /// "Modified UTF-8": a byte that cannot start a character.
    Utf8InvalidStart(u8),
    /// "Modified UTF-8": the decoded value is not a Unicode scalar value.
    Utf8InvalidScalar(u32),
    /// "Modified UTF-8": no bytes were left for a character.
    Utf8Empty,
    /// A field or method descriptor could not be parsed.
    InvalidDescriptor,
    /// The input continues after a complete class file.
    TrailingData,
}

/// A cursor over the bytes of a class file.
pub struct ByteReader {
    bytes: Vec<u8>,
    pos: usize,
}

impl ByteReader {
    #[verifier::type_invariant]
    spec fn inv(self) -> bool {
        self.pos <= self.bytes@.len()
    }

    /// The bytes that have not been read yet.
    pub closed spec fn rest(self) -> Seq<u8> {
        self.bytes@.subrange(self.pos as int, self.bytes@.len() as int)
    }

    /// A reader positioned at the first of `bytes`.
    pub fn new(bytes: Vec<u8>) -> (r: Self)
        ensures
            r.rest() == bytes@,
    {
        let r = ByteReader { bytes, pos: 0 };
        assert(r.rest() =~= r.bytes@);
        r
    }

    /// How many bytes are left.
    pub fn remaining(&self) -> (n: usize)
        ensures
            n == self.rest().len(),
    {
        proof { use_type_invariant(self); }
        self.bytes.len() - self.pos
    }

    /// Takes `n` bytes, or fails without moving when fewer are left.
    pub fn read_bytes(&mut self, n: usize) -> (r: Result<Vec<u8>, ReadError>)
        ensures
            n <= old(self).rest().len() ==> r is Ok && r->Ok_0@ == old(self).rest().subrange(
                0,
                n as int,
            ) && final(self).rest() == old(self).rest().skip(n as int),
            n > old(self).rest().len() ==> r == Err::<Vec<u8>, ReadError>(ReadError::UnexpectedEof)
                && final(self).rest() == old(self).rest(),
    {
        proof { use_type_invariant(&*self); }
        if n > self.bytes.len() - self.pos {
            return Err(ReadError::UnexpectedEof);
        }
        let len = self.bytes.len();
        let mut out: Vec<u8> = Vec::new();
        let mut i: usize = 0;
        while i < n
            invariant
                len == self.bytes@.len(),
                self.pos + n <= self.bytes@.len(),
                i <= n,
                out@ == self.bytes@.subrange(self.pos as int, self.pos + i),
            decreases n - i,
        {
            out.push(self.bytes[self.pos + i]);
            i = i + 1;
            assert(out@ =~= self.bytes@.subrange(self.pos as int, self.pos + i));
        }
        let ghost before = self.rest();
        self.pos = self.pos + n;
        assert(out@ =~= before.subrange(0, n as int));
        assert(self.rest() =~= before.skip(n as int));
        Ok(out)
    }

    /// Skips `n` bytes, or fails without moving when fewer are left.
    pub fn skip(&mut self, n: usize) -> (r: Result<(), ReadError>)
        ensures
            n <= old(self).rest().len() ==> r is Ok && final(self).rest() == old(self).rest().skip(
                n as int,
            ),
            n > old(self).rest().len() ==> r == Err::<(), ReadError>(ReadError::UnexpectedEof)
                && final(self).rest() == old(self).rest(),
    {
        proof { use_type_invariant(&*self); }
        if n > self.bytes.len() - self.pos {
            return Err(ReadError::UnexpectedEof);
        }
        let ghost before = self.rest();
        self.pos = self.pos + n;
        assert(self.rest() =~= before.skip(n as int));
        Ok(())
    }

    /// The next byte, without moving.
    fn peek_at(&self, k: usize) -> (b: u8)
        requires
            k < self.rest().len(),
        ensures
            b == self.rest()[k as int],
    {
        proof { use_type_invariant(self); }
        let len = self.bytes.len();
        self.bytes[self.pos + k]
    }

    /// Moves past `k` bytes that are known to be there.
    fn advance(&mut self, k: usize)
        requires
            k <= old(self).rest().len(),
        ensures
            final(self).rest() == old(self).rest().skip(k as int),
    {
        proof { use_type_invariant(&*self); }
        let len = self.bytes.len();
        let ghost before = self.rest();
        self.pos = self.pos + k;
        assert(self.rest() =~= before.skip(k as int));
    }
}

/// Skipping twice skips the sum.
pub broadcast proof fn lemma_skip_skip(s: Seq<u8>, a: int, b: int)
    requires
        0 <= a <= s.len(),
        0 <= b <= s.len() - a,
    ensures
        #[trigger] s.skip(a).skip(b) == s.skip(a + b),
{
    assert(s.skip(a).skip(b) =~= s.skip(a + b));
}

/// The value of two bytes, most significant first.
pub open spec fn be_u16(b: Seq<u8>) -> u16
    recommends
        b.len() >= 2,
{
    (b[0] as int * 0x100 + b[1] as int) as u16
}

/// The value of four bytes, most significant first.
pub open spec fn be_u32(b: Seq<u8>) -> u32
    recommends
        b.len() >= 4,
{
    (b[0] as int * 0x1000000 + b[1] as int * 0x10000 + b[2] as int * 0x100 + b[3] as int) as u32
}

/// The value of eight bytes, most significant first.
pub open spec fn be_u64(b: Seq<u8>) -> u64
    recommends
        b.len() >= 8,
{
    (be_u32(b) as int * 0x1_0000_0000 + be_u32(b.skip(4)) as int) as u64
}

/// Reads one byte.
pub fn read_u1(r: &mut ByteReader) -> (v: Result<u8, ReadError>)
    ensures
        old(r).rest().len() >= 1 ==> v == Ok::<u8, ReadError>(old(r).rest()[0])
            && final(r).rest() == old(r).rest().skip(1),
        old(r).rest().len() < 1 ==> v == Err::<u8, ReadError>(ReadError::UnexpectedEof)
            && final(r).rest() == old(r).rest(),
{
    if r.remaining() < 1 {
        return Err(ReadError::UnexpectedEof);
    }
    let b = r.peek_at(0);
    r.advance(1);
    Ok(b)
}

/// Reads a big-endian `u16`.
pub fn read_u2(r: &mut ByteReader) -> (v: Result<u16, ReadError>)
    ensures
        old(r).rest().len() >= 2 ==> v == Ok::<u16, ReadError>(be_u16(old(r).rest()))
            && final(r).rest() == old(r).rest().skip(2),
        old(r).rest().len() < 2 ==> v == Err::<u16, ReadError>(ReadError::UnexpectedEof)
            && final(r).rest() == old(r).rest(),
{
    if r.remaining() < 2 {
        return Err(ReadError::UnexpectedEof);
    }
    let b0 = r.peek_at(0) as u16;
    let b1 = r.peek_at(1) as u16;
    r.advance(2);
    Ok(b0 * 0x100 + b1)
}

/// Reads a big-endian `u32`.
pub fn read_u4(r: &mut ByteReader) -> (v: Result<u32, ReadError>)
    ensures
        old(r).rest().len() >= 4 ==> v == Ok::<u32, ReadError>(be_u32(old(r).rest()))
            && final(r).rest() == old(r).rest().skip(4),
        old(r).rest().len() < 4 ==> v == Err::<u32, ReadError>(ReadError::UnexpectedEof)
            && final(r).rest() == old(r).rest(),
{
    if r.remaining() < 4 {
        return Err(ReadError::UnexpectedEof);
    }
    let b0 = r.peek_at(0) as u32;
    let b1 = r.peek_at(1) as u32;
    let b2 = r.peek_at(2) as u32;
    let b3 = r.peek_at(3) as u32;
    r.advance(4);
    Ok(b0 * 0x1000000 + b1 * 0x10000 + b2 * 0x100 + b3)
}

/// Reads a big-endian `u64`.
pub fn read_u8(r: &mut ByteReader) -> (v: Result<u64, ReadError>)
    ensures
        old(r).rest().len() >= 8 ==> v == Ok::<u64, ReadError>(be_u64(old(r).rest()))
            && final(r).rest() == old(r).rest().skip(8),
        old(r).rest().len() < 8 ==> v == Err::<u64, ReadError>(ReadError::UnexpectedEof)
            && final(r).rest() == old(r).rest(),
{
    if r.remaining() < 8 {
        return Err(ReadError::UnexpectedEof);
    }
    let ghost s = r.rest();
    let hi = read_u4(r);
    let lo = read_u4(r);
    match (hi, lo) {
        (Ok(hi), Ok(lo)) => {
            assert(s.skip(4).skip(4) =~= s.skip(8));
            Ok((hi as u64) * 0x1_0000_0000 + lo as u64)
        },
        _ => Err(ReadError::UnexpectedEof),
    }
}

/// Reads a big-endian two's-complement `i32`.
pub fn read_i4(r: &mut ByteReader) -> (v: Result<i32, ReadError>)
    ensures
        old(r).rest().len() >= 4 ==> v == Ok::<i32, ReadError>(be_u32(old(r).rest()) as i32)
            && final(r).rest() == old(r).rest().skip(4),
        old(r).rest().len() < 4 ==> v == Err::<i32, ReadError>(ReadError::UnexpectedEof)
            && final(r).rest() == old(r).rest(),
{
    match read_u4(r) {
        Ok(u) => Ok(u as i32),
        Err(e) => Err(e),
    }
}

/// Reads a big-endian two's-complement `i64`.
pub fn read_i8(r: &mut ByteReader) -> (v: Result<i64, ReadError>)
    ensures
        old(r).rest().len() >= 8 ==> v == Ok::<i64, ReadError>(be_u64(old(r).rest()) as i64)
            && final(r).rest() == old(r).rest().skip(8),
        old(r).rest().len() < 8 ==> v == Err::<i64, ReadError>(ReadError::UnexpectedEof)
            && final(r).rest() == old(r).rest(),
{
    match read_u8(r) {
        Ok(u) => Ok(u as i64),
        Err(e) => Err(e),
    }
}

} // verus!
