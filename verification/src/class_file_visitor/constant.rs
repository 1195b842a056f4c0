//! [Java SE 7 &sect; 4.4](https://docs.oracle.com/javase/specs/jvms/se7/html/jvms-4.html#jvms-4.4):  Parsing APIs and structures for the constants pool.

use vstd::prelude::*;
use crate::io_ext::{
    be_u16, be_u32, be_u64, lemma_skip_skip, read_i4, read_i8, read_u1, read_u2, read_u4, read_u8,
    ByteReader, ReadError,
};
use crate::modified_utf8::{decode_all, decode_strict};

verus! {

broadcast use lemma_skip_skip;

/// [Java SE 7 &sect; 4.4](https://docs.oracle.com/javase/specs/jvms/se7/html/jvms-4.html#jvms-4.4):  Constant pool tag types.
#[derive(Clone, Copy, Debug, PartialEq, Eq, Structural, PartialOrd, Ord, Hash)]
pub struct Type(pub u8);

impl From<u8> for Type {
    fn from(value: u8) -> (t: Self) {
        Self(value)
    }
}

impl vstd::std_specs::convert::FromSpecImpl<u8> for Type {
    open spec fn obeys_from_spec() -> bool {
        true
    }

    open spec fn from_spec(v: u8) -> Self {
        Type(v)
    }
}

/// The constants table (and *only* the constants table) is 1-indexed.  That's just confusing.  Even worse, `Long` and `Double` take up two slots.  So this is the placeholder for those slots.
#[derive(Clone, Debug)]
pub struct UnusedPlaceholder {}
/// [Java SE 7 &sect; 4.4.1](https://docs.oracle.com/javase/specs/jvms/se7/html/jvms-4.html#jvms-4.4.1):  A CONSTANT_Class_info, minus the tag.
#[derive(Clone, Debug)]
pub struct Class { pub name_index: u16 }
/// [Java SE 7 &sect; 4.4.2](https://docs.oracle.com/javase/specs/jvms/se7/html/jvms-4.html#jvms-4.4.2):  A CONSTANT_Fieldref_info, minus the tag.
#[derive(Clone, Debug)]
pub struct Fieldref { pub class_index: u16, pub name_and_type_index: u16 }
/// [Java SE 7 &sect; 4.4.2](https://docs.oracle.com/javase/specs/jvms/se7/html/jvms-4.html#jvms-4.4.2):  A CONSTANT_Methodref_info, minus the tag.
#[derive(Clone, Debug)]
pub struct Methodref { pub class_index: u16, pub name_and_type_index: u16 }
/// [Java SE 7 &sect; 4.4.2](https://docs.oracle.com/javase/specs/jvms/se7/html/jvms-4.html#jvms-4.4.2):  A CONSTANT_InterfaceMethodref_info, minus the tag.
#[derive(Clone, Debug)]
pub struct InterfaceMethodref { pub class_index: u16, pub name_and_type_index: u16 }
/// [Java SE 7 &sect; 4.4.3](https://docs.oracle.com/javase/specs/jvms/se7/html/jvms-4.html#jvms-4.4.3):  A CONSTANT_String_info, minus the tag.
#[derive(Clone, Debug)]
pub struct String { pub string_index: u16 }
/// [Java SE 7 &sect; 4.4.4](https://docs.oracle.com/javase/specs/jvms/se7/html/jvms-4.html#jvms-4.4.4):  A CONSTANT_Integer_info, minus the tag.
#[derive(Clone, Debug)]
pub struct Integer(pub i32);
/// [Java SE 7 &sect; 4.4.4](https://docs.oracle.com/javase/specs/jvms/se7/html/jvms-4.html#jvms-4.4.4):  A CONSTANT_Float_info, minus the tag: the IEEE 754 bit pattern.
#[derive(Clone, Debug)]
pub struct Float(pub u32);
/// [Java SE 7 &sect; 4.4.5](https://docs.oracle.com/javase/specs/jvms/se7/html/jvms-4.html#jvms-4.4.5):  A CONSTANT_Long_info, minus the tag.
#[derive(Clone, Debug)]
pub struct Long(pub i64);
/// [Java SE 7 &sect; 4.4.5](https://docs.oracle.com/javase/specs/jvms/se7/html/jvms-4.html#jvms-4.4.5):  A CONSTANT_Double_info, minus the tag: the IEEE 754 bit pattern.
#[derive(Clone, Debug)]
pub struct Double(pub u64);
/// [Java SE 7 &sect; 4.4.6](https://docs.oracle.com/javase/specs/jvms/se7/html/jvms-4.html#jvms-4.4.6):  A CONSTANT_NameAndType_info, minus the tag.
#[derive(Clone, Debug)]
pub struct NameAndType { pub name_index: u16, pub descriptor_index: u16 }
/// [Java SE 7 &sect; 4.4.7](https://docs.oracle.com/javase/specs/jvms/se7/html/jvms-4.html#jvms-4.4.7):  A CONSTANT_Utf8_info, minus the tag.
/// Not really UTF-8: "Modified UTF-8", with supplementary characters as surrogate pairs.
#[derive(Clone, Debug)]
pub struct Utf8(pub std::string::String);
/// [Java SE 7 &sect; 4.4.8](https://docs.oracle.com/javase/specs/jvms/se7/html/jvms-4.html#jvms-4.4.8):  A CONSTANT_MethodHandle_info, minus the tag.
#[derive(Clone, Debug)]
pub struct MethodHandle { pub reference_kind: u8, pub reference_index: u16 }
/// [Java SE 7 &sect; 4.4.9](https://docs.oracle.com/javase/specs/jvms/se7/html/jvms-4.html#jvms-4.4.9):  A CONSTANT_MethodType_info, minus the tag.
#[derive(Clone, Debug)]
pub struct MethodType { pub descriptor_index: u16 }
/// [Java SE 7 &sect; 4.4.10](https://docs.oracle.com/javase/specs/jvms/se7/html/jvms-4.html#jvms-4.4.10):  A CONSTANT_InvokeDynamic_info, minus the tag.
#[derive(Clone, Debug)]
pub struct InvokeDynamic { pub bootstrap_method_attr_index: u16, pub name_and_type_index: u16 }

impl Class {
    pub const TAG: u8 = 7;
    pub const ENTRIES: u8 = 1;

    pub fn read_after_tag(r: &mut ByteReader) -> (c: Result<Self, ReadError>)
        ensures
            old(r).rest().len() >= 2 ==> c is Ok && c->Ok_0.name_index == be_u16(old(r).rest())
                && final(r).rest() == old(r).rest().skip(2),
            old(r).rest().len() < 2 ==> c == Err::<Self, ReadError>(ReadError::UnexpectedEof),
    {
        Ok(Self { name_index: read_u2(r)? })
    }
}

/// Two big-endian `u16`s at the front of `s`.
pub open spec fn two_u16(s: Seq<u8>) -> (u16, u16) {
    (be_u16(s), be_u16(s.skip(2)))
}

impl Fieldref {
    pub const TAG: u8 = 9;
    pub const ENTRIES: u8 = 1;

    pub fn read_after_tag(r: &mut ByteReader) -> (c: Result<Self, ReadError>)
        ensures
            old(r).rest().len() >= 4 ==> c is Ok && (c->Ok_0.class_index, c->Ok_0.name_and_type_index) == two_u16(old(r).rest())
                && final(r).rest() == old(r).rest().skip(4),
            old(r).rest().len() < 4 ==> c == Err::<Self, ReadError>(ReadError::UnexpectedEof),
    {
        Ok(Self { class_index: read_u2(r)?, name_and_type_index: read_u2(r)? })
    }
}

impl Methodref {
    pub const TAG: u8 = 10;
    pub const ENTRIES: u8 = 1;

    pub fn read_after_tag(r: &mut ByteReader) -> (c: Result<Self, ReadError>)
        ensures
            old(r).rest().len() >= 4 ==> c is Ok && (c->Ok_0.class_index, c->Ok_0.name_and_type_index) == two_u16(old(r).rest())
                && final(r).rest() == old(r).rest().skip(4),
            old(r).rest().len() < 4 ==> c == Err::<Self, ReadError>(ReadError::UnexpectedEof),
    {
        Ok(Self { class_index: read_u2(r)?, name_and_type_index: read_u2(r)? })
    }
}

impl InterfaceMethodref {
    pub const TAG: u8 = 11;
    pub const ENTRIES: u8 = 1;

    pub fn read_after_tag(r: &mut ByteReader) -> (c: Result<Self, ReadError>)
        ensures
            old(r).rest().len() >= 4 ==> c is Ok && (c->Ok_0.class_index, c->Ok_0.name_and_type_index) == two_u16(old(r).rest())
                && final(r).rest() == old(r).rest().skip(4),
            old(r).rest().len() < 4 ==> c == Err::<Self, ReadError>(ReadError::UnexpectedEof),
    {
        Ok(Self { class_index: read_u2(r)?, name_and_type_index: read_u2(r)? })
    }
}

impl String {
    pub const TAG: u8 = 8;
    pub const ENTRIES: u8 = 1;

    pub fn read_after_tag(r: &mut ByteReader) -> (c: Result<Self, ReadError>)
        ensures
            old(r).rest().len() >= 2 ==> c is Ok && c->Ok_0.string_index == be_u16(old(r).rest())
                && final(r).rest() == old(r).rest().skip(2),
            old(r).rest().len() < 2 ==> c == Err::<Self, ReadError>(ReadError::UnexpectedEof),
    {
        Ok(Self { string_index: read_u2(r)? })
    }
}

impl Integer {
    pub const TAG: u8 = 3;
    pub const ENTRIES: u8 = 1;

    pub fn read_after_tag(r: &mut ByteReader) -> (c: Result<Self, ReadError>)
        ensures
            old(r).rest().len() >= 4 ==> c is Ok && c->Ok_0.0 == be_u32(old(r).rest()) as i32
                && final(r).rest() == old(r).rest().skip(4),
            old(r).rest().len() < 4 ==> c == Err::<Self, ReadError>(ReadError::UnexpectedEof),
    {
        Ok(Self(read_i4(r)?))
    }
}

impl Float {
    pub const TAG: u8 = 4;
    pub const ENTRIES: u8 = 1;

    pub fn read_after_tag(r: &mut ByteReader) -> (c: Result<Self, ReadError>)
        ensures
            old(r).rest().len() >= 4 ==> c is Ok && c->Ok_0.0 == be_u32(old(r).rest())
                && final(r).rest() == old(r).rest().skip(4),
            old(r).rest().len() < 4 ==> c == Err::<Self, ReadError>(ReadError::UnexpectedEof),
    {
        Ok(Self(read_u4(r)?))
    }
}

impl Long {
    pub const TAG: u8 = 5;
    pub const ENTRIES: u8 = 2;

    pub fn read_after_tag(r: &mut ByteReader) -> (c: Result<Self, ReadError>)
        ensures
            old(r).rest().len() >= 8 ==> c is Ok && c->Ok_0.0 == be_u64(old(r).rest()) as i64
                && final(r).rest() == old(r).rest().skip(8),
            old(r).rest().len() < 8 ==> c == Err::<Self, ReadError>(ReadError::UnexpectedEof),
    {
        Ok(Self(read_i8(r)?))
    }
}

impl Double {
    pub const TAG: u8 = 6;
    pub const ENTRIES: u8 = 2;

    pub fn read_after_tag(r: &mut ByteReader) -> (c: Result<Self, ReadError>)
        ensures
            old(r).rest().len() >= 8 ==> c is Ok && c->Ok_0.0 == be_u64(old(r).rest())
                && final(r).rest() == old(r).rest().skip(8),
            old(r).rest().len() < 8 ==> c == Err::<Self, ReadError>(ReadError::UnexpectedEof),
    {
        Ok(Self(read_u8(r)?))
    }
}

impl NameAndType {
    pub const TAG: u8 = 12;
    pub const ENTRIES: u8 = 2;

    pub fn read_after_tag(r: &mut ByteReader) -> (c: Result<Self, ReadError>)
        ensures
            old(r).rest().len() >= 4 ==> c is Ok && (c->Ok_0.name_index, c->Ok_0.descriptor_index) == two_u16(old(r).rest())
                && final(r).rest() == old(r).rest().skip(4),
            old(r).rest().len() < 4 ==> c == Err::<Self, ReadError>(ReadError::UnexpectedEof),
    {
        Ok(Self { name_index: read_u2(r)?, descriptor_index: read_u2(r)? })
    }
}

/// A `CONSTANT_Utf8_info` after its tag: the text of its `u2` length of bytes, decoded strictly,
/// and the bytes after it.
pub open spec fn utf8_after_tag(b: Seq<u8>) -> Result<(Seq<char>, Seq<u8>), ReadError> {
    if b.len() < 2 || b.len() - 2 < be_u16(b) {
        Err(ReadError::UnexpectedEof)
    } else {
        match decode_all(b.skip(2).take(be_u16(b) as int), Seq::empty()) {
            Ok(cs) => Ok((cs, b.skip(2 + be_u16(b)))),
            Err(e) => Err(e),
        }
    }
}

impl Utf8 {
    pub const TAG: u8 = 1;
    pub const ENTRIES: u8 = 1;

    pub fn read_after_tag(r: &mut ByteReader) -> (c: Result<Self, ReadError>)
        ensures
            match utf8_after_tag(old(r).rest()) {
                Ok((cs, rest)) => c is Ok && c->Ok_0.0@ == cs && final(r).rest() == rest,
                Err(e) => c == Err::<Self, ReadError>(e),
            },
    {
        let ghost b = r.rest();
        let bytes = read_u2(r)? as usize;
        let buffer = r.read_bytes(bytes)?;
        assert(buffer@ =~= b.skip(2).take(be_u16(b) as int));
        Ok(Self(decode_strict(buffer.as_slice())?))
    }
}

impl MethodHandle {
    pub const TAG: u8 = 15;
    pub const ENTRIES: u8 = 1;

    pub fn read_after_tag(r: &mut ByteReader) -> (c: Result<Self, ReadError>)
        ensures
            old(r).rest().len() >= 3 ==> c is Ok && c->Ok_0.reference_kind == old(r).rest()[0]
                && c->Ok_0.reference_index == be_u16(old(r).rest().skip(1))
                && final(r).rest() == old(r).rest().skip(3),
            old(r).rest().len() < 3 ==> c == Err::<Self, ReadError>(ReadError::UnexpectedEof),
    {
        Ok(Self { reference_kind: read_u1(r)?, reference_index: read_u2(r)? })
    }
}

impl MethodType {
    pub const TAG: u8 = 16;
    pub const ENTRIES: u8 = 1;

    pub fn read_after_tag(r: &mut ByteReader) -> (c: Result<Self, ReadError>)
        ensures
            old(r).rest().len() >= 2 ==> c is Ok && c->Ok_0.descriptor_index == be_u16(old(r).rest())
                && final(r).rest() == old(r).rest().skip(2),
            old(r).rest().len() < 2 ==> c == Err::<Self, ReadError>(ReadError::UnexpectedEof),
    {
        Ok(Self { descriptor_index: read_u2(r)? })
    }
}

impl InvokeDynamic {
    pub const TAG: u8 = 18;
    pub const ENTRIES: u8 = 1;

    pub fn read_after_tag(r: &mut ByteReader) -> (c: Result<Self, ReadError>)
        ensures
            old(r).rest().len() >= 4 ==> c is Ok && (c->Ok_0.bootstrap_method_attr_index, c->Ok_0.name_and_type_index) == two_u16(old(r).rest())
                && final(r).rest() == old(r).rest().skip(4),
            old(r).rest().len() < 4 ==> c == Err::<Self, ReadError>(ReadError::UnexpectedEof),
    {
        Ok(Self { bootstrap_method_attr_index: read_u2(r)?, name_and_type_index: read_u2(r)? })
    }
}

/// [Java SE 7 &sect; 4.4](https://docs.oracle.com/javase/specs/jvms/se7/html/jvms-4.html#jvms-4.4.1):  A CONSTANT_* value.  Not ABI compatible with the raw C ABIs but that's fine.
#[derive(Clone, Debug)]
pub enum Constant {
    /// The placeholder for the 0th slot, and for the slot after a `Long` or a `Double`.
    UnusedPlaceholder(UnusedPlaceholder),
    Class(Class),
    Fieldref(Fieldref),
    Methodref(Methodref),
    InterfaceMethodref(InterfaceMethodref),
    String(String),
    Integer(Integer),
    Float(Float),
    Long(Long),
    Double(Double),
    NameAndType(NameAndType),
    Utf8(Utf8),
    MethodHandle(MethodHandle),
    MethodType(MethodType),
    InvokeDynamic(InvokeDynamic),
}

/// A constant as plain values, with its text taken as characters.
pub enum ConstantModel {
    UnusedPlaceholder,
    Class { name_index: u16 },
    Fieldref { class_index: u16, name_and_type_index: u16 },
    Methodref { class_index: u16, name_and_type_index: u16 },
    InterfaceMethodref { class_index: u16, name_and_type_index: u16 },
    String { string_index: u16 },
    Integer(i32),
    Float(u32),
    Long(i64),
    Double(u64),
    NameAndType { name_index: u16, descriptor_index: u16 },
    Utf8(Seq<char>),
    MethodHandle { reference_kind: u8, reference_index: u16 },
    MethodType { descriptor_index: u16 },
    InvokeDynamic { bootstrap_method_attr_index: u16, name_and_type_index: u16 },
}

impl View for Constant {
    type V = ConstantModel;

    open spec fn view(&self) -> ConstantModel {
        match self {
            Constant::UnusedPlaceholder(_) => ConstantModel::UnusedPlaceholder,
            Constant::Class(c) => ConstantModel::Class { name_index: c.name_index },
            Constant::Fieldref(c) => ConstantModel::Fieldref { class_index: c.class_index, name_and_type_index: c.name_and_type_index },
            Constant::Methodref(c) => ConstantModel::Methodref { class_index: c.class_index, name_and_type_index: c.name_and_type_index },
            Constant::InterfaceMethodref(c) => ConstantModel::InterfaceMethodref { class_index: c.class_index, name_and_type_index: c.name_and_type_index },
            Constant::String(c) => ConstantModel::String { string_index: c.string_index },
            Constant::Integer(c) => ConstantModel::Integer(c.0),
            Constant::Float(c) => ConstantModel::Float(c.0),
            Constant::Long(c) => ConstantModel::Long(c.0),
            Constant::Double(c) => ConstantModel::Double(c.0),
            Constant::NameAndType(c) => ConstantModel::NameAndType { name_index: c.name_index, descriptor_index: c.descriptor_index },
            Constant::Utf8(c) => ConstantModel::Utf8(c.0@),
            Constant::MethodHandle(c) => ConstantModel::MethodHandle { reference_kind: c.reference_kind, reference_index: c.reference_index },
            Constant::MethodType(c) => ConstantModel::MethodType { descriptor_index: c.descriptor_index },
            Constant::InvokeDynamic(c) => ConstantModel::InvokeDynamic { bootstrap_method_attr_index: c.bootstrap_method_attr_index, name_and_type_index: c.name_and_type_index },
        }
    }
}

/// The models of a list of constants.
pub open spec fn pool_model(v: Seq<Constant>) -> Seq<ConstantModel> {
    v.map_values(|c: Constant| c@)
}

/// One entry at the front of `s` (tag byte, then its fields): the slots it fills (two for `Long`
/// and `Double`, the second a placeholder) and the bytes after it.
pub open spec fn pool_entry(s: Seq<u8>) -> Result<(Seq<ConstantModel>, Seq<u8>), ReadError> {
    if s.len() < 1 {
        Err(ReadError::UnexpectedEof)
    } else {
        let t = s[0];
        let b = s.skip(1);
        if t == 1 {
            match utf8_after_tag(b) {
                Ok((cs, rest)) => Ok((seq![ConstantModel::Utf8(cs)], rest)),
                Err(e) => Err(e),
            }
        } else if t == 3 || t == 4 || t == 9 || t == 10 || t == 11 || t == 12 || t == 18 {
            if b.len() < 4 {
                Err(ReadError::UnexpectedEof)
            } else {
                let (x, y) = two_u16(b);
                let e = if t == 3 {
                    ConstantModel::Integer(be_u32(b) as i32)
                } else if t == 4 {
                    ConstantModel::Float(be_u32(b))
                } else if t == 9 {
                    ConstantModel::Fieldref { class_index: x, name_and_type_index: y }
                } else if t == 10 {
                    ConstantModel::Methodref { class_index: x, name_and_type_index: y }
                } else if t == 11 {
                    ConstantModel::InterfaceMethodref { class_index: x, name_and_type_index: y }
                } else if t == 12 {
                    ConstantModel::NameAndType { name_index: x, descriptor_index: y }
                } else {
                    ConstantModel::InvokeDynamic { bootstrap_method_attr_index: x, name_and_type_index: y }
                };
                Ok((seq![e], b.skip(4)))
            }
        } else if t == 7 || t == 8 || t == 16 {
            if b.len() < 2 {
                Err(ReadError::UnexpectedEof)
            } else {
                let e = if t == 7 {
                    ConstantModel::Class { name_index: be_u16(b) }
                } else if t == 8 {
                    ConstantModel::String { string_index: be_u16(b) }
                } else {
                    ConstantModel::MethodType { descriptor_index: be_u16(b) }
                };
                Ok((seq![e], b.skip(2)))
            }
        } else if t == 5 || t == 6 {
            if b.len() < 8 {
                Err(ReadError::UnexpectedEof)
            } else if t == 5 {
                Ok((seq![ConstantModel::Long(be_u64(b) as i64), ConstantModel::UnusedPlaceholder], b.skip(8)))
            } else {
                Ok((seq![ConstantModel::Double(be_u64(b)), ConstantModel::UnusedPlaceholder], b.skip(8)))
            }
        } else if t == 15 {
            if b.len() < 3 {
                Err(ReadError::UnexpectedEof)
            } else {
                Ok((seq![ConstantModel::MethodHandle { reference_kind: b[0], reference_index: be_u16(b.skip(1)) }], b.skip(3)))
            }
        } else {
            Err(ReadError::UnknownConstantTag(t))
        }
    }
}

/// The entries from slot `index` up to `count`, after those in `acc`.
pub open spec fn pool_entries(s: Seq<u8>, index: int, count: int, acc: Seq<ConstantModel>) -> Result<(Seq<ConstantModel>, Seq<u8>), ReadError>
    decreases (if index < count { count - index } else { 0 }),
{
    if index >= count {
        Ok((acc, s))
    } else {
        match pool_entry(s) {
            Ok((es, rest)) => if es.len() >= 1 {
                pool_entries(rest, index + es.len(), count, acc + es)
            } else {
                Err(ReadError::UnexpectedEof)
            },
            Err(e) => Err(e),
        }
    }
}

/// A constant pool: a `u2` count, then the entries of slots `1..count`; slot 0 is a placeholder.
pub open spec fn parse_pool(s: Seq<u8>) -> Result<(Seq<ConstantModel>, Seq<u8>), ReadError> {
    if s.len() < 2 {
        Err(ReadError::UnexpectedEof)
    } else {
        pool_entries(s.skip(2), 1, be_u16(s) as int, seq![ConstantModel::UnusedPlaceholder])
    }
}

/// Reads one entry, tag included: one constant, or a `Long` or `Double` and the placeholder after it.
fn read_entry(r: &mut ByteReader) -> (c: Result<Vec<Constant>, ReadError>)
    ensures
        match pool_entry(old(r).rest()) {
            Ok((es, rest)) => c is Ok && pool_model(c->Ok_0@) == es && final(r).rest() == rest
                && 1 <= es.len() <= 2,
            Err(e) => c == Err::<Vec<Constant>, ReadError>(e),
        },
{
    let ghost s = r.rest();
    let tag = Type::from(read_u1(r)?);
    let mut out: Vec<Constant> = Vec::new();
    let t = tag.0;
    assert(t == s[0]);
    if t == Class::TAG {
        out.push(Constant::Class(Class::read_after_tag(r)?));
    } else if t == Fieldref::TAG {
        out.push(Constant::Fieldref(Fieldref::read_after_tag(r)?));
    } else if t == Methodref::TAG {
        out.push(Constant::Methodref(Methodref::read_after_tag(r)?));
    } else if t == InterfaceMethodref::TAG {
        out.push(Constant::InterfaceMethodref(InterfaceMethodref::read_after_tag(r)?));
    } else if t == String::TAG {
        out.push(Constant::String(String::read_after_tag(r)?));
    } else if t == Integer::TAG {
        out.push(Constant::Integer(Integer::read_after_tag(r)?));
    } else if t == Float::TAG {
        out.push(Constant::Float(Float::read_after_tag(r)?));
    } else if t == Long::TAG {
        out.push(Constant::Long(Long::read_after_tag(r)?));
        out.push(Constant::UnusedPlaceholder(UnusedPlaceholder {}));
    } else if t == Double::TAG {
        out.push(Constant::Double(Double::read_after_tag(r)?));
        out.push(Constant::UnusedPlaceholder(UnusedPlaceholder {}));
    } else if t == NameAndType::TAG {
        out.push(Constant::NameAndType(NameAndType::read_after_tag(r)?));
    } else if t == Utf8::TAG {
        out.push(Constant::Utf8(Utf8::read_after_tag(r)?));
    } else if t == MethodHandle::TAG {
        out.push(Constant::MethodHandle(MethodHandle::read_after_tag(r)?));
    } else if t == MethodType::TAG {
        out.push(Constant::MethodType(MethodType::read_after_tag(r)?));
    } else if t == InvokeDynamic::TAG {
        out.push(Constant::InvokeDynamic(InvokeDynamic::read_after_tag(r)?));
    } else {
        return Err(ReadError::UnknownConstantTag(t));
    }
    proof {
        let (es, rest) = pool_entry(s)->Ok_0;
        assert(pool_model(out@) =~= es);
    }
    Ok(out)
}

/// Reads a whole constant pool: a `u2` count, then the entries of slots `1..count`.
pub fn read_pool(read: &mut ByteReader) -> (r: Result<Vec<Constant>, ReadError>)
    ensures
        match parse_pool(old(read).rest()) {
            Ok((cs, rest)) => r is Ok && pool_model(r->Ok_0@) == cs && final(read).rest() == rest,
            Err(e) => r == Err::<Vec<Constant>, ReadError>(e),
        },
{
    let ghost s = read.rest();
    let count = read_u2(read)?;
    let mut pool: Vec<Constant> = Vec::new();
    pool.push(Constant::UnusedPlaceholder(UnusedPlaceholder {}));
    proof { assert(pool_model(pool@) =~= seq![ConstantModel::UnusedPlaceholder]); }

    let mut index: u32 = 1;  // "The constant_pool table is indexed from 1 to constant_pool_count-1."
    while index < count as u32
        invariant
            parse_pool(s) == pool_entries(read.rest(), index as int, count as int, pool_model(pool@)),
            s.len() >= 2,
            s == old(read).rest(),
            count == be_u16(s),
            1 <= index <= count as u32 + 1,
        decreases count as u32 + 1 - index,
    {
        let ghost prev = pool@;
        let mut entries = read_entry(read)?;
        let k = entries.len();
        let ghost added = entries@;
        pool.append(&mut entries);
        proof {
            assert(pool_model(pool@) =~= pool_model(prev) + pool_model(added));
        }
        index = index + k as u32;
    }
    Ok(pool)
}

/// [Java SE 7 &sect; 4.4](https://docs.oracle.com/javase/specs/jvms/se7/html/jvms-4.html#jvms-4.4.1):  Visits possible CONSTANT_* values in the constants table.
///
/// `events` is what the visitor has been handed so far: each call adds its slot index and
/// constant at the end.
pub trait Visitor {
    spec fn events(&self) -> Seq<(u16, ConstantModel)>;

    fn on_unused(&mut self, index: u16, unused: UnusedPlaceholder)
        ensures final(self).events() == old(self).events().push((index, Constant::UnusedPlaceholder(unused)@));
    fn on_class(&mut self, index: u16, class: Class)
        ensures final(self).events() == old(self).events().push((index, Constant::Class(class)@));
    fn on_field(&mut self, index: u16, field: Fieldref)
        ensures final(self).events() == old(self).events().push((index, Constant::Fieldref(field)@));
    fn on_method(&mut self, index: u16, method: Methodref)
        ensures final(self).events() == old(self).events().push((index, Constant::Methodref(method)@));
    fn on_interface_method(&mut self, index: u16, interface_method: InterfaceMethodref)
        ensures final(self).events() == old(self).events().push((index, Constant::InterfaceMethodref(interface_method)@));
    fn on_string(&mut self, index: u16, string: String)
        ensures final(self).events() == old(self).events().push((index, Constant::String(string)@));
    fn on_integer(&mut self, index: u16, integer: Integer)
        ensures final(self).events() == old(self).events().push((index, Constant::Integer(integer)@));
    fn on_float(&mut self, index: u16, float: Float)
        ensures final(self).events() == old(self).events().push((index, Constant::Float(float)@));
    fn on_long(&mut self, index: u16, long: Long)
        ensures final(self).events() == old(self).events().push((index, Constant::Long(long)@));
    fn on_double(&mut self, index: u16, double: Double)
        ensures final(self).events() == old(self).events().push((index, Constant::Double(double)@));
    fn on_name_and_tag(&mut self, index: u16, name_and_tag: NameAndType)
        ensures final(self).events() == old(self).events().push((index, Constant::NameAndType(name_and_tag)@));
    fn on_utf8(&mut self, index: u16, utf8: Utf8)
        ensures final(self).events() == old(self).events().push((index, Constant::Utf8(utf8)@));
    fn on_method_handle(&mut self, index: u16, method_handle: MethodHandle)
        ensures final(self).events() == old(self).events().push((index, Constant::MethodHandle(method_handle)@));
    fn on_method_type(&mut self, index: u16, method_type: MethodType)
        ensures final(self).events() == old(self).events().push((index, Constant::MethodType(method_type)@));
    fn on_invoke_dynamic(&mut self, index: u16, invoke_dynamic: InvokeDynamic)
        ensures final(self).events() == old(self).events().push((index, Constant::InvokeDynamic(invoke_dynamic)@));
}

/// The slots and constants of a list of visits.
pub open spec fn visits_model(v: Seq<(u16, Constant)>) -> Seq<(u16, ConstantModel)> {
    v.map_values(|e: (u16, Constant)| (e.0, e.1@))
}

/// A list that keeps every slot index and constant it is handed, in order.
impl Visitor for Vec<(u16, Constant)> {
    open spec fn events(&self) -> Seq<(u16, ConstantModel)> {
        visits_model(self@)
    }

    fn on_unused(&mut self, index: u16, unused: UnusedPlaceholder) {
        self.push((index, Constant::UnusedPlaceholder(unused)));
        assert(visits_model(self@) =~= visits_model(old(self)@).push((index, Constant::UnusedPlaceholder(unused)@)));
    }
    fn on_class(&mut self, index: u16, class: Class) {
        self.push((index, Constant::Class(class)));
        assert(visits_model(self@) =~= visits_model(old(self)@).push((index, Constant::Class(class)@)));
    }
    fn on_field(&mut self, index: u16, field: Fieldref) {
        self.push((index, Constant::Fieldref(field)));
        assert(visits_model(self@) =~= visits_model(old(self)@).push((index, Constant::Fieldref(field)@)));
    }
    fn on_method(&mut self, index: u16, method: Methodref) {
        self.push((index, Constant::Methodref(method)));
        assert(visits_model(self@) =~= visits_model(old(self)@).push((index, Constant::Methodref(method)@)));
    }
    fn on_interface_method(&mut self, index: u16, interface_method: InterfaceMethodref) {
        self.push((index, Constant::InterfaceMethodref(interface_method)));
        assert(visits_model(self@) =~= visits_model(old(self)@).push((index, Constant::InterfaceMethodref(interface_method)@)));
    }
    fn on_string(&mut self, index: u16, string: String) {
        self.push((index, Constant::String(string)));
        assert(visits_model(self@) =~= visits_model(old(self)@).push((index, Constant::String(string)@)));
    }
    fn on_integer(&mut self, index: u16, integer: Integer) {
        self.push((index, Constant::Integer(integer)));
        assert(visits_model(self@) =~= visits_model(old(self)@).push((index, Constant::Integer(integer)@)));
    }
    fn on_float(&mut self, index: u16, float: Float) {
        self.push((index, Constant::Float(float)));
        assert(visits_model(self@) =~= visits_model(old(self)@).push((index, Constant::Float(float)@)));
    }
    fn on_long(&mut self, index: u16, long: Long) {
        self.push((index, Constant::Long(long)));
        assert(visits_model(self@) =~= visits_model(old(self)@).push((index, Constant::Long(long)@)));
    }
    fn on_double(&mut self, index: u16, double: Double) {
        self.push((index, Constant::Double(double)));
        assert(visits_model(self@) =~= visits_model(old(self)@).push((index, Constant::Double(double)@)));
    }
    fn on_name_and_tag(&mut self, index: u16, name_and_tag: NameAndType) {
        self.push((index, Constant::NameAndType(name_and_tag)));
        assert(visits_model(self@) =~= visits_model(old(self)@).push((index, Constant::NameAndType(name_and_tag)@)));
    }
    fn on_utf8(&mut self, index: u16, utf8: Utf8) {
        let ghost m = Constant::Utf8(utf8)@;
        self.push((index, Constant::Utf8(utf8)));
        assert(visits_model(self@) =~= visits_model(old(self)@).push((index, m)));
    }
    fn on_method_handle(&mut self, index: u16, method_handle: MethodHandle) {
        self.push((index, Constant::MethodHandle(method_handle)));
        assert(visits_model(self@) =~= visits_model(old(self)@).push((index, Constant::MethodHandle(method_handle)@)));
    }
    fn on_method_type(&mut self, index: u16, method_type: MethodType) {
        self.push((index, Constant::MethodType(method_type)));
        assert(visits_model(self@) =~= visits_model(old(self)@).push((index, Constant::MethodType(method_type)@)));
    }
    fn on_invoke_dynamic(&mut self, index: u16, invoke_dynamic: InvokeDynamic) {
        self.push((index, Constant::InvokeDynamic(invoke_dynamic)));
        assert(visits_model(self@) =~= visits_model(old(self)@).push((index, Constant::InvokeDynamic(invoke_dynamic)@)));
    }
}

/// Hands one constant to the visitor method of its kind.
pub fn visit<V: Visitor>(visitor: &mut V, index: u16, constant: Constant)
    ensures
        final(visitor).events() == old(visitor).events().push((index, constant@)),
{
    match constant {
        Constant::UnusedPlaceholder(c) => visitor.on_unused(index, c),
        Constant::Class(c) => visitor.on_class(index, c),
        Constant::Fieldref(c) => visitor.on_field(index, c),
        Constant::Methodref(c) => visitor.on_method(index, c),
        Constant::InterfaceMethodref(c) => visitor.on_interface_method(index, c),
        Constant::String(c) => visitor.on_string(index, c),
        Constant::Integer(c) => visitor.on_integer(index, c),
        Constant::Float(c) => visitor.on_float(index, c),
        Constant::Long(c) => visitor.on_long(index, c),
        Constant::Double(c) => visitor.on_double(index, c),
        Constant::NameAndType(c) => visitor.on_name_and_tag(index, c),
        Constant::Utf8(c) => visitor.on_utf8(index, c),
        Constant::MethodHandle(c) => visitor.on_method_handle(index, c),
        Constant::MethodType(c) => visitor.on_method_type(index, c),
        Constant::InvokeDynamic(c) => visitor.on_invoke_dynamic(index, c),
    }
}

/// The visits for the slots of one entry, numbered from `index`.
pub open spec fn slot_events(index: int, es: Seq<ConstantModel>) -> Seq<(u16, ConstantModel)> {
    Seq::new(es.len(), |j: int| ((index + j) as u16, es[j]))
}

/// The visits while reading the entries from slot `index` up to `count`: each entry's slots, in
/// order, up to the entry that cannot be read, if there is one.
pub open spec fn pool_walk(s: Seq<u8>, index: int, count: int) -> Seq<(u16, ConstantModel)>
    decreases (if index < count { count - index } else { 0 }),
{
    if index >= count {
        Seq::empty()
    } else {
        match pool_entry(s) {
            Ok((es, rest)) => if es.len() >= 1 {
                slot_events(index, es) + pool_walk(rest, index + es.len(), count)
            } else {
                Seq::empty()
            },
            Err(_) => Seq::empty(),
        }
    }
}

/// The visits while reading a constant pool: once its count is read, slot 0 as unused, then the
/// slots of each entry that can be read, in order (a `Long` or `Double` followed by an unused
/// slot).
pub open spec fn pool_events(s: Seq<u8>) -> Seq<(u16, ConstantModel)> {
    if s.len() < 2 {
        Seq::empty()
    } else {
        seq![(0u16, ConstantModel::UnusedPlaceholder)] + pool_walk(s.skip(2), 1, be_u16(s) as int)
    }
}

/// Reads a constant pool, handing each slot to `visitor` as soon as it is read (slot 0 and the
/// slot after each `Long` or `Double` as unused); on an error, the slots read before it have
/// been visited.
pub fn read_pool_visitor<V: Visitor>(read: &mut ByteReader, visitor: &mut V) -> (r: Result<(), ReadError>)
    ensures
        match parse_pool(old(read).rest()) {
            Ok((cs, rest)) => r is Ok && final(read).rest() == rest,
            Err(e) => r == Err::<(), ReadError>(e),
        },
        final(visitor).events() == old(visitor).events() + pool_events(old(read).rest()),
{
    let ghost s = read.rest();
    let ghost ev0 = visitor.events();
    let count = match read_u2(read) {
        Ok(c) => c,
        Err(e) => {
            assert(ev0 + pool_events(s) =~= ev0);
            return Err(e);
        },
    };
    visit(visitor, 0, Constant::UnusedPlaceholder(UnusedPlaceholder {}));
    let ghost mut seen: Seq<ConstantModel> = seq![ConstantModel::UnusedPlaceholder];

    let mut index: u32 = 1;  // "The constant_pool table is indexed from 1 to constant_pool_count-1."
    assert(s.skip(2) == read.rest());
    assert(ev0 + pool_events(s) =~= visitor.events() + pool_walk(read.rest(), 1, count as int));
    while index < count as u32
        invariant
            parse_pool(s) == pool_entries(read.rest(), index as int, count as int, seen),
            ev0 + pool_events(s) == visitor.events() + pool_walk(read.rest(), index as int, count as int),
            s.len() >= 2,
            s == old(read).rest(),
            ev0 == old(visitor).events(),
            count == be_u16(s),
            1 <= index <= count as u32 + 1,
        decreases count as u32 + 1 - index,
    {
        let ghost before = read.rest();
        let ghost ev1 = visitor.events();
        let mut entries = match read_entry(read) {
            Ok(es) => es,
            Err(e) => {
                assert(pool_walk(before, index as int, count as int) == Seq::<(u16, ConstantModel)>::empty());
                assert(ev1 + Seq::<(u16, ConstantModel)>::empty() =~= ev1);
                return Err(e);
            },
        };
        let ghost es = pool_model(entries@);
        proof { seen = seen + es; }
        let k = entries.len();
        let mut j: usize = 0;
        while j < k
            invariant
                k == es.len(),
                1 <= k <= 2,
                j <= k,
                index < count as u32,
                count <= 0xFFFF,
                pool_model(entries@) == es.skip(j as int),
                entries@.len() == k - j,
                visitor.events() == ev1 + slot_events(index as int, es).take(j as int),
            decreases k - j,
        {
            let ghost rest_before = entries@;
            let c = entries.remove(0);
            proof {
                assert(pool_model(entries@) =~= pool_model(rest_before).skip(1));
                assert(es.skip(j as int).skip(1) =~= es.skip(j + 1));
                assert(c@ == es.skip(j as int)[0]);
            }
            visit(visitor, (index + j as u32) as u16, c);
            proof {
                assert(slot_events(index as int, es).take(j + 1) =~= slot_events(index as int, es).take(j as int).push(((index + j) as u16, es[j as int])));
            }
            j = j + 1;
        }
        proof {
            assert(slot_events(index as int, es).take(k as int) =~= slot_events(index as int, es));
            assert(ev1 + pool_walk(before, index as int, count as int)
                =~= (ev1 + slot_events(index as int, es)) + pool_walk(read.rest(), index + k, count as int));
        }
        index = index + k as u32;
    }
    assert(visitor.events() + Seq::<(u16, ConstantModel)>::empty() =~= visitor.events());
    Ok(())
}

} // verus!
