//! [Java SE 7 &sect; 4.7](https://docs.oracle.com/javase/specs/jvms/se7/html/jvms-4.html#jvms-4.7):  attribute_info, as read.

use vstd::prelude::*;
use crate::io_ext::{be_u16, be_u32, read_u2, read_u4, ByteReader, ReadError};

verus! {

/// [Java SE 7 &sect; 4.7](https://docs.oracle.com/javase/specs/jvms/se7/html/jvms-4.html#jvms-4.7):  attribute_info,
/// with its name still an index into the constant pool.
#[derive(Clone, Debug)]
pub struct Attribute {
    pub attribute_name_index: u16,
    pub attribute_length: u32,
    pub info: Vec<u8>,
}

/// An attribute_info at the front of `s`: name index, length, then that many bytes.
pub open spec fn attribute_at(s: Seq<u8>) -> Result<(u16, Seq<u8>, Seq<u8>), ReadError> {
    if s.len() < 6 || s.len() - 6 < be_u32(s.skip(2)) {
        Err(ReadError::UnexpectedEof)
    } else {
        Ok((be_u16(s), s.skip(6).take(be_u32(s.skip(2)) as int), s.skip(6 + be_u32(s.skip(2)))))
    }
}

impl Attribute {
    /// Reads one attribute_info.
    pub fn read(r: &mut ByteReader) -> (a: Result<Self, ReadError>)
        ensures
            match attribute_at(old(r).rest()) {
                Ok((name, info, rest)) => a is Ok && a->Ok_0.attribute_name_index == name
                    && a->Ok_0.info@ == info && a->Ok_0.attribute_length == info.len()
                    && final(r).rest() == rest,
                Err(e) => a == Err::<Self, ReadError>(e),
            },
    {
        let ghost s = r.rest();
        let attribute_name_index = read_u2(r)?;
        let attribute_length = read_u4(r)?;
        assert(s.skip(2).skip(4) =~= s.skip(6));
        let info = r.read_bytes(attribute_length as usize)?;
        assert(s.skip(6).skip(attribute_length as int) =~= s.skip(6 + attribute_length));
        Ok(Self { attribute_name_index, attribute_length, info })
    }
}

} // verus!
