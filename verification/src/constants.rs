//! [Java SE 7 &sect; 4.4](https://docs.oracle.com/javase/specs/jvms/se7/html/jvms-4.html#jvms-4.4):  Parsing APIs and structures for the constants pool.

use vstd::prelude::*;
use crate::io_ext::{
    be_u16, be_u32, be_u64, lemma_skip_skip, read_i4, read_i8, read_u1, read_u2, read_u4, read_u8,
    ByteReader, ReadError,
};
use crate::modified_utf8::{
    encode_modified_utf8, law_modified_utf8_round_trip, points_as_utf16, points_as_utf8, read_modified_utf8_as_mispaired_utf16,
    read_modified_utf8_as_utf8,
};

verus! {

broadcast use lemma_skip_skip;

/// [Java SE 7 &sect; 4.4](https://docs.oracle.com/javase/specs/jvms/se7/html/jvms-4.html#jvms-4.4):  A CONSTANT_* value.  Not ABI compatible with the raw C ABIs but that's fine.
#[derive(Clone, Debug)]
pub enum Constant {
    /// The constants table (and *only* the constants table) is 1-indexed.  That's just confusing.  Even worse, `Long` and `Double` take up two slots.  So this is the placeholder for those slots.
    UnusedPlaceholder,
    /// [Java SE 7 &sect; 4.4.1](https://docs.oracle.com/javase/specs/jvms/se7/html/jvms-4.html#jvms-4.4.1):  A CONSTANT_Class_info, minus the tag.
    Class { name_index: u16 },
    /// [Java SE 7 &sect; 4.4.2](https://docs.oracle.com/javase/specs/jvms/se7/html/jvms-4.html#jvms-4.4.2):  A CONSTANT_Fieldref_info, minus the tag.
    Fieldref { class_index: u16, name_and_type_index: u16 },
    /// [Java SE 7 &sect; 4.4.2](https://docs.oracle.com/javase/specs/jvms/se7/html/jvms-4.html#jvms-4.4.2):  A CONSTANT_Methodref_info, minus the tag.
    Methodref { class_index: u16, name_and_type_index: u16 },
    /// [Java SE 7 &sect; 4.4.2](https://docs.oracle.com/javase/specs/jvms/se7/html/jvms-4.html#jvms-4.4.2):  A CONSTANT_InterfaceMethodref_info, minus the tag.
    InterfaceMethodref { class_index: u16, name_and_type_index: u16 },
    /// [Java SE 7 &sect; 4.4.3](https://docs.oracle.com/javase/specs/jvms/se7/html/jvms-4.html#jvms-4.4.3):  A CONSTANT_String_info, minus the tag.
    String { string_index: u16 },
    /// [Java SE 7 &sect; 4.4.4](https://docs.oracle.com/javase/specs/jvms/se7/html/jvms-4.html#jvms-4.4.4):  A CONSTANT_Integer_info, minus the tag.
    Integer(i32),
    /// [Java SE 7 &sect; 4.4.4](https://docs.oracle.com/javase/specs/jvms/se7/html/jvms-4.html#jvms-4.4.4):  A CONSTANT_Float_info, minus the tag: the IEEE 754 bit pattern.
    Float(u32),
    /// [Java SE 7 &sect; 4.4.5](https://docs.oracle.com/javase/specs/jvms/se7/html/jvms-4.html#jvms-4.4.5):  A CONSTANT_Long_info, minus the tag.
    Long(i64),
    /// [Java SE 7 &sect; 4.4.5](https://docs.oracle.com/javase/specs/jvms/se7/html/jvms-4.html#jvms-4.4.5):  A CONSTANT_Double_info, minus the tag: the IEEE 754 bit pattern.
    Double(u64),
    /// [Java SE 7 &sect; 4.4.6](https://docs.oracle.com/javase/specs/jvms/se7/html/jvms-4.html#jvms-4.4.6):  A CONSTANT_NameAndType_info, minus the tag.
    NameAndType { name_index: u16, descriptor_index: u16 },
    /// [Java SE 7 &sect; 4.4.7](https://docs.oracle.com/javase/specs/jvms/se7/html/jvms-4.html#jvms-4.4.7):  A CONSTANT_Utf8_info, minus the tag.
    Utf8(String),
    /// [Java SE 7 &sect; 4.4.7](https://docs.oracle.com/javase/specs/jvms/se7/html/jvms-4.html#jvms-4.4.7):  A CONSTANT_Utf8_info, minus the tag, but containing mispaired surrogate sequences, such as U+DBEC U+0
    MispairedUtf16(Vec<u16>),
    /// [Java SE 7 &sect; 4.4.7](https://docs.oracle.com/javase/specs/jvms/se7/html/jvms-4.html#jvms-4.4.7):  A CONSTANT_Utf8_info, minus the tag, but containing completely invalid "Modified UTF8"
    InvalidModifiedUtf8(Vec<u8>),
    /// [Java SE 7 &sect; 4.4.8](https://docs.oracle.com/javase/specs/jvms/se7/html/jvms-4.html#jvms-4.4.8):  A CONSTANT_MethodHandle_info, minus the tag.
    MethodHandle { reference_kind: u8, reference_index: u16 },
    /// [Java SE 7 &sect; 4.4.9](https://docs.oracle.com/javase/specs/jvms/se7/html/jvms-4.html#jvms-4.4.9):  A CONSTANT_MethodType_info, minus the tag.
    MethodType { descriptor_index: u16 },
    /// [Java SE 7 &sect; 4.4.10](https://docs.oracle.com/javase/specs/jvms/se7/html/jvms-4.html#jvms-4.4.10):  A CONSTANT_InvokeDynamic_info, minus the tag.
    InvokeDynamic { bootstrap_method_attr_index: u16, name_and_type_index: u16 },
}

/// A constant with its text taken as a sequence.
pub enum ConstantModel {
    UnusedPlaceholder,
    Class { name_index: u16 },
    Fieldref { class_index: u16, name_and_type_index: u16 },
    Methodref { class_index: u16, name_and_type_index: u16 },
    InterfaceMethodref { class_index: u16, name_and_type_index: u16 },
    String { string_index: u16 },
    Integer(i32),
    Float(u32),
    Long(i64),
    Double(u64),
    NameAndType { name_index: u16, descriptor_index: u16 },
    Utf8(Seq<char>),
    MispairedUtf16(Seq<u16>),
    InvalidModifiedUtf8(Seq<u8>),
    MethodHandle { reference_kind: u8, reference_index: u16 },
    MethodType { descriptor_index: u16 },
    InvokeDynamic { bootstrap_method_attr_index: u16, name_and_type_index: u16 },
}

impl View for Constant {
    type V = ConstantModel;

    open spec fn view(&self) -> ConstantModel {
        match self {
            Constant::UnusedPlaceholder => ConstantModel::UnusedPlaceholder,
            Constant::Class { name_index } => ConstantModel::Class { name_index: *name_index },
            Constant::Fieldref { class_index, name_and_type_index } => ConstantModel::Fieldref { class_index: *class_index, name_and_type_index: *name_and_type_index },
            Constant::Methodref { class_index, name_and_type_index } => ConstantModel::Methodref { class_index: *class_index, name_and_type_index: *name_and_type_index },
            Constant::InterfaceMethodref { class_index, name_and_type_index } => ConstantModel::InterfaceMethodref { class_index: *class_index, name_and_type_index: *name_and_type_index },
            Constant::String { string_index } => ConstantModel::String { string_index: *string_index },
            Constant::Integer(v) => ConstantModel::Integer(*v),
            Constant::Float(v) => ConstantModel::Float(*v),
            Constant::Long(v) => ConstantModel::Long(*v),
            Constant::Double(v) => ConstantModel::Double(*v),
            Constant::NameAndType { name_index, descriptor_index } => ConstantModel::NameAndType { name_index: *name_index, descriptor_index: *descriptor_index },
            Constant::Utf8(s) => ConstantModel::Utf8(s@),
            Constant::MispairedUtf16(v) => ConstantModel::MispairedUtf16(v@),
            Constant::InvalidModifiedUtf8(v) => ConstantModel::InvalidModifiedUtf8(v@),
            Constant::MethodHandle { reference_kind, reference_index } => ConstantModel::MethodHandle { reference_kind: *reference_kind, reference_index: *reference_index },
            Constant::MethodType { descriptor_index } => ConstantModel::MethodType { descriptor_index: *descriptor_index },
            Constant::InvokeDynamic { bootstrap_method_attr_index, name_and_type_index } => ConstantModel::InvokeDynamic { bootstrap_method_attr_index: *bootstrap_method_attr_index, name_and_type_index: *name_and_type_index },
        }
    }
}

/// The models of a list of constants.
pub open spec fn constants_model(v: Seq<Constant>) -> Seq<ConstantModel> {
    v.map_values(|c: Constant| c@)
}

/// [Java SE 7 &sect; 4.4](https://docs.oracle.com/javase/specs/jvms/se7/html/jvms-4.html#jvms-4.4):  A CONSTANT_* values.
#[derive(Clone, Debug, Default)]
pub struct Constants(pub Vec<Constant>);

impl View for Constants {
    type V = Seq<ConstantModel>;

    open spec fn view(&self) -> Seq<ConstantModel> {
        constants_model(self.0@)
    }
}

/// What a `CONSTANT_Utf8_info` holds: text when its bytes decode with well-formed surrogate pairs,
/// UTF-16 units when they decode with mispaired surrogates, and the raw bytes otherwise.
pub open spec fn utf8_constant(buf: Seq<u8>) -> ConstantModel {
    match points_as_utf8(buf, Seq::empty()) {
        Some(cs) => ConstantModel::Utf8(cs),
        None => match points_as_utf16(buf, Seq::empty()) {
            Some(us) => ConstantModel::MispairedUtf16(us),
            None => ConstantModel::InvalidModifiedUtf8(buf),
        },
    }
}

/// The constant pool entry at the front of `s` (tag byte, then its fields): the table slots it
/// fills (two for `Long` and `Double`) and the bytes after it.
pub open spec fn constant_entry(s: Seq<u8>) -> Result<(Seq<ConstantModel>, Seq<u8>), ReadError> {
    if s.len() < 1 {
        Err(ReadError::UnexpectedEof)
    } else {
        let t = s[0];
        let b = s.skip(1);
        if t == 7 {
            if b.len() >= 2 { Ok((seq![ConstantModel::Class { name_index: be_u16(b) }], s.skip(3))) } else { Err(ReadError::UnexpectedEof) }
        } else if t == 9 {
            if b.len() >= 4 { Ok((seq![ConstantModel::Fieldref { class_index: be_u16(b), name_and_type_index: be_u16(b.skip(2)) }], s.skip(5))) } else { Err(ReadError::UnexpectedEof) }
        } else if t == 10 {
            if b.len() >= 4 { Ok((seq![ConstantModel::Methodref { class_index: be_u16(b), name_and_type_index: be_u16(b.skip(2)) }], s.skip(5))) } else { Err(ReadError::UnexpectedEof) }
        } else if t == 11 {
            if b.len() >= 4 { Ok((seq![ConstantModel::InterfaceMethodref { class_index: be_u16(b), name_and_type_index: be_u16(b.skip(2)) }], s.skip(5))) } else { Err(ReadError::UnexpectedEof) }
        } else if t == 8 {
            if b.len() >= 2 { Ok((seq![ConstantModel::String { string_index: be_u16(b) }], s.skip(3))) } else { Err(ReadError::UnexpectedEof) }
        } else if t == 3 {
            if b.len() >= 4 { Ok((seq![ConstantModel::Integer(be_u32(b) as i32)], s.skip(5))) } else { Err(ReadError::UnexpectedEof) }
        } else if t == 4 {
            if b.len() >= 4 { Ok((seq![ConstantModel::Float(be_u32(b))], s.skip(5))) } else { Err(ReadError::UnexpectedEof) }
        } else if t == 5 {
            if b.len() >= 8 { Ok((seq![ConstantModel::Long(be_u64(b) as i64), ConstantModel::UnusedPlaceholder], s.skip(9))) } else { Err(ReadError::UnexpectedEof) }
        } else if t == 6 {
            if b.len() >= 8 { Ok((seq![ConstantModel::Double(be_u64(b)), ConstantModel::UnusedPlaceholder], s.skip(9))) } else { Err(ReadError::UnexpectedEof) }
        } else if t == 12 {
            if b.len() >= 4 { Ok((seq![ConstantModel::NameAndType { name_index: be_u16(b), descriptor_index: be_u16(b.skip(2)) }], s.skip(5))) } else { Err(ReadError::UnexpectedEof) }
        } else if t == 1 {
            if b.len() >= 2 && b.len() - 2 >= be_u16(b) {
                Ok((seq![utf8_constant(b.skip(2).take(be_u16(b) as int))], s.skip(3 + be_u16(b))))
            } else {
                Err(ReadError::UnexpectedEof)
            }
        } else if t == 15 {
            if b.len() >= 3 { Ok((seq![ConstantModel::MethodHandle { reference_kind: b[0], reference_index: be_u16(b.skip(1)) }], s.skip(4))) } else { Err(ReadError::UnexpectedEof) }
        } else if t == 16 {
            if b.len() >= 2 { Ok((seq![ConstantModel::MethodType { descriptor_index: be_u16(b) }], s.skip(3))) } else { Err(ReadError::UnexpectedEof) }
        } else if t == 18 {
            if b.len() >= 4 { Ok((seq![ConstantModel::InvokeDynamic { bootstrap_method_attr_index: be_u16(b), name_and_type_index: be_u16(b.skip(2)) }], s.skip(5))) } else { Err(ReadError::UnexpectedEof) }
        } else {
            Err(ReadError::UnknownConstantTag(t))
        }
    }
}

/// The entries from table index `index` up to `count`, after those in `acc`.
pub open spec fn pool_from(s: Seq<u8>, index: int, count: int, acc: Seq<ConstantModel>) -> Result<(Seq<ConstantModel>, Seq<u8>), ReadError>
    decreases (if index < count { count - index } else { 0 }),
{
    if index >= count {
        Ok((acc, s))
    } else {
        match constant_entry(s) {
            Ok((es, rest)) => if es.len() >= 1 {
                pool_from(rest, index + es.len(), count, acc + es)
            } else {
                Err(ReadError::UnexpectedEof)
            },
            Err(e) => Err(e),
        }
    }
}

/// A whole constant pool: its `u2` count, then the entries of indices `1..count`; index 0 is a
/// placeholder.
pub open spec fn parse_constants(s: Seq<u8>) -> Result<(Seq<ConstantModel>, Seq<u8>), ReadError> {
    if s.len() < 2 {
        Err(ReadError::UnexpectedEof)
    } else {
        pool_from(s.skip(2), 1, be_u16(s) as int, seq![ConstantModel::UnusedPlaceholder])
    }
}

/// Reads a `CONSTANT_Utf8_info` after its tag: a `u2` length, then that many bytes.
fn read_modified_utf8(r: &mut ByteReader) -> (c: Result<Constant, ReadError>)
    ensures
        ({
            let b = old(r).rest();
            if b.len() >= 2 && b.len() - 2 >= be_u16(b) {
                c is Ok && c->Ok_0@ == utf8_constant(b.skip(2).take(be_u16(b) as int))
                    && final(r).rest() == b.skip(2 + be_u16(b))
            } else {
                c == Err::<Constant, ReadError>(ReadError::UnexpectedEof)
            }
        }),
{
    let bytes = read_u2(r)? as usize;
    let buffer = r.read_bytes(bytes)?;
    if let Some(c) = read_modified_utf8_as_utf8(buffer.as_slice()) {
        return Ok(Constant::Utf8(c));
    }
    if let Some(c) = read_modified_utf8_as_mispaired_utf16(buffer.as_slice()) {
        return Ok(Constant::MispairedUtf16(c));
    }
    Ok(Constant::InvalidModifiedUtf8(buffer))
}

/// Reads one constant pool entry, tag included.
fn read_constant(r: &mut ByteReader) -> (c: Result<Vec<Constant>, ReadError>)
    ensures
        match constant_entry(old(r).rest()) {
            Ok((es, rest)) => c is Ok && constants_model(c->Ok_0@) == es && final(r).rest() == rest
                && 1 <= es.len() <= 2,
            Err(e) => c == Err::<Vec<Constant>, ReadError>(e),
        },
{
    let ghost s = r.rest();
    let tag = read_u1(r)?;
    let constant = match tag {
        7 => Constant::Class { name_index: read_u2(r)? },
        9 => {
            let class_index = read_u2(r)?;
            let name_and_type_index = read_u2(r)?;
            Constant::Fieldref { class_index, name_and_type_index }
        },
        10 => {
            let class_index = read_u2(r)?;
            let name_and_type_index = read_u2(r)?;
            Constant::Methodref { class_index, name_and_type_index }
        },
        11 => {
            let class_index = read_u2(r)?;
            let name_and_type_index = read_u2(r)?;
            Constant::InterfaceMethodref { class_index, name_and_type_index }
        },
        8 => Constant::String { string_index: read_u2(r)? },
        3 => Constant::Integer(read_i4(r)?),
        4 => Constant::Float(read_u4(r)?),
        5 => {
            let v = read_i8(r)?;
            let mut two: Vec<Constant> = Vec::new();
            two.push(Constant::Long(v));
            two.push(Constant::UnusedPlaceholder);
            proof { assert(constants_model(two@) =~= seq![ConstantModel::Long(v), ConstantModel::UnusedPlaceholder]); }
            return Ok(two);
        },
        6 => {
            let v = read_u8(r)?;
            let mut two: Vec<Constant> = Vec::new();
            two.push(Constant::Double(v));
            two.push(Constant::UnusedPlaceholder);
            proof { assert(constants_model(two@) =~= seq![ConstantModel::Double(v), ConstantModel::UnusedPlaceholder]); }
            return Ok(two);
        },
        12 => {
            let name_index = read_u2(r)?;
            let descriptor_index = read_u2(r)?;
            Constant::NameAndType { name_index, descriptor_index }
        },
        1 => read_modified_utf8(r)?,
        15 => {
            let reference_kind = read_u1(r)?;
            let reference_index = read_u2(r)?;
            Constant::MethodHandle { reference_kind, reference_index }
        },
        16 => Constant::MethodType { descriptor_index: read_u2(r)? },
        18 => {
            let bootstrap_method_attr_index = read_u2(r)?;
            let name_and_type_index = read_u2(r)?;
            Constant::InvokeDynamic { bootstrap_method_attr_index, name_and_type_index }
        },
        _ => {
            return Err(ReadError::UnknownConstantTag(tag));
        },
    };
    let mut one: Vec<Constant> = Vec::new();
    one.push(constant);
    proof { assert(constants_model(one@) =~= seq![constant@]); }
    Ok(one)
}

/// The text of the `CONSTANT_Utf8_info` at `index`, or why there is none.
pub open spec fn utf8_at(m: Seq<ConstantModel>, index: u16) -> Result<Seq<char>, ReadError> {
    if index as int >= m.len() {
        Err(ReadError::NoSuchConstant(index))
    } else {
        match m[index as int] {
            ConstantModel::Utf8(s) => Ok(s),
            ConstantModel::MispairedUtf16(_) => Err(ReadError::MispairedUtf16(index)),
            ConstantModel::InvalidModifiedUtf8(_) => Err(ReadError::InvalidModifiedUtf8(index)),
            _ => Err(ReadError::ExpectedUtf8(index)),
        }
    }
}

/// Like `utf8_at`, but a string that is not valid text is `None` rather than an error.
pub open spec fn utf8_possibly_invalid_at(m: Seq<ConstantModel>, index: u16) -> Result<Option<Seq<char>>, ReadError> {
    if index as int >= m.len() {
        Err(ReadError::NoSuchConstant(index))
    } else {
        match m[index as int] {
            ConstantModel::Utf8(s) => Ok(Some(s)),
            ConstantModel::MispairedUtf16(_) => Ok(None),
            ConstantModel::InvalidModifiedUtf8(_) => Ok(None),
            _ => Err(ReadError::ExpectedUtf8(index)),
        }
    }
}

/// The class name that the `CONSTANT_Class_info` at `index` refers to, or why there is none.
pub open spec fn class_at(m: Seq<ConstantModel>, index: u16) -> Result<Seq<char>, ReadError> {
    if index as int >= m.len() {
        Err(ReadError::NoSuchConstant(index))
    } else {
        match m[index as int] {
            ConstantModel::Class { name_index } => utf8_at(m, name_index),
            _ => Err(ReadError::ExpectedClass(index)),
        }
    }
}

/// Like `class_at`, but index 0 stands for no class.
pub open spec fn optional_class_at(m: Seq<ConstantModel>, index: u16) -> Result<Option<Seq<char>>, ReadError> {
    if index == 0 {
        Ok(None)
    } else {
        match class_at(m, index) {
            Ok(s) => Ok(Some(s)),
            Err(e) => Err(e),
        }
    }
}

/// A string result and its specification agree.
pub open spec fn str_result(r: Result<&str, ReadError>, m: Result<Seq<char>, ReadError>) -> bool {
    match (r, m) {
        (Ok(s), Ok(t)) => s@ == t,
        (Err(e), Err(f)) => e == f,
        _ => false,
    }
}

/// An optional string result and its specification agree.
pub open spec fn opt_str_result(r: Result<Option<&str>, ReadError>, m: Result<Option<Seq<char>>, ReadError>) -> bool {
    match (r, m) {
        (Ok(Some(s)), Ok(Some(t))) => s@ == t,
        (Ok(None), Ok(None)) => true,
        (Err(e), Err(f)) => e == f,
        _ => false,
    }
}

impl Constants {
    /// The constant at `index`.
    pub fn get(&self, index: u16) -> (r: Result<&Constant, ReadError>)
        ensures
            (index as int) < self@.len() ==> r is Ok && r->Ok_0@ == self@[index as int],
            (index as int) >= self@.len() ==> r == Err::<&Constant, ReadError>(ReadError::NoSuchConstant(index)),
    {
        let i = index as usize;
        if i < self.0.len() {
            Ok(&self.0[i])
        } else {
            Err(ReadError::NoSuchConstant(index))
        }
    }

    /// The text of a `CONSTANT_Utf8_info`, or `None` when it is not valid text.
    pub fn get_utf8_possibly_invalid(&self, index: u16) -> (r: Result<Option<&str>, ReadError>)
        ensures
            opt_str_result(r, utf8_possibly_invalid_at(self@, index)),
    {
        match self.get(index)? {
            Constant::Utf8(s) => Ok(Some(s.as_str())),
            Constant::MispairedUtf16(_) => Ok(None),
            Constant::InvalidModifiedUtf8(_) => Ok(None),
            _ => Err(ReadError::ExpectedUtf8(index)),
        }
    }

    /// The text of a `CONSTANT_Utf8_info`.
    pub fn get_utf8(&self, index: u16) -> (r: Result<&str, ReadError>)
        ensures
            str_result(r, utf8_at(self@, index)),
    {
        match self.get(index)? {
            Constant::Utf8(s) => Ok(s.as_str()),
            Constant::MispairedUtf16(_) => Err(ReadError::MispairedUtf16(index)),
            Constant::InvalidModifiedUtf8(_) => Err(ReadError::InvalidModifiedUtf8(index)),
            _ => Err(ReadError::ExpectedUtf8(index)),
        }
    }

    /// The class name a `CONSTANT_Class_info` refers to.
    pub fn get_class(&self, index: u16) -> (r: Result<&str, ReadError>)
        ensures
            str_result(r, class_at(self@, index)),
    {
        match self.get(index)? {
            Constant::Class { name_index } => Ok(self.get_utf8(*name_index)?),
            _ => Err(ReadError::ExpectedClass(index)),
        }
    }

    /// Like `get_class`, but index 0 stands for no class (as the super class of `java/lang/Object`).
    pub fn get_optional_class(&self, index: u16) -> (r: Result<Option<&str>, ReadError>)
        ensures
            opt_str_result(r, optional_class_at(self@, index)),
    {
        if index == 0 {
            return Ok(None);
        }
        match self.get(index)? {
            Constant::Class { name_index } => Ok(Some(self.get_utf8(*name_index)?)),
            _ => Err(ReadError::ExpectedClass(index)),
        }
    }

    /// Reads a constant pool: a `u2` count, then the entries of indices `1..count`.
    pub fn read(read: &mut ByteReader) -> (r: Result<Self, ReadError>)
        ensures
            match parse_constants(old(read).rest()) {
                Ok((cs, rest)) => r is Ok && r->Ok_0@ == cs && final(read).rest() == rest,
                Err(e) => r == Err::<Self, ReadError>(e),
            },
    {
        let ghost s = read.rest();
        let count = read_u2(read)?;
        let mut constants: Vec<Constant> = Vec::new();
        constants.push(Constant::UnusedPlaceholder);
        proof { assert(constants_model(constants@) =~= seq![ConstantModel::UnusedPlaceholder]); }

        let mut index: u32 = 1;  // "The constant_pool table is indexed from 1 to constant_pool_count-1."
        while index < count as u32
            invariant
                parse_constants(s) == pool_from(read.rest(), index as int, count as int, constants_model(constants@)),
                s.len() >= 2,
                s == old(read).rest(),
                count == be_u16(s),
                1 <= index <= count as u32 + 1,
            decreases count as u32 + 1 - index,
        {
            let ghost before = read.rest();
            let ghost prev = constants@;
            let mut entries = read_constant(read)?;
            let k = entries.len();
            let ghost added = entries@;
            constants.append(&mut entries);
            proof {
                assert(constants_model(constants@) =~= constants_model(prev) + constants_model(added));
            }
            index = index + k as u32;
        }
        Ok(Constants(constants))
    }
}


/// A `Long` or a `Double`, which take two slots of the pool.
pub open spec fn is_wide(c: ConstantModel) -> bool {
    c is Long || c is Double
}

/// Every wide constant is followed by a placeholder.
pub open spec fn wide_followed_by_placeholder(cs: Seq<ConstantModel>) -> bool {
    forall|i: int| 0 <= i < cs.len() && #[trigger] is_wide(cs[i]) ==> i + 1 < cs.len() && cs[i + 1] is UnusedPlaceholder
}

/// One entry fills one slot with a narrow constant, or two with a wide one and a placeholder.
proof fn lemma_entry_shape(s: Seq<u8>)
    ensures
        constant_entry(s) matches Ok((es, _)) ==> (es.len() == 1 && !is_wide(es[0]))
            || (es.len() == 2 && is_wide(es[0]) && es[1] is UnusedPlaceholder),
{
}

/// What reading entries from slot `index` on keeps: the size and the placeholders.
proof fn lemma_pool_from(s: Seq<u8>, index: int, count: int, acc: Seq<ConstantModel>)
    requires
        acc.len() == index,
        1 <= index,
        wide_followed_by_placeholder(acc),
    ensures
        pool_from(s, index, count, acc) matches Ok((cs, _)) ==> cs.len() >= count
            && cs.len() <= (if index >= count { index } else { count + 1 })
            && wide_followed_by_placeholder(cs)
            && cs.take(acc.len() as int) == acc,
    decreases (if index < count { count - index } else { 0 }),
{
    if index < count {
        lemma_entry_shape(s);
        match constant_entry(s) {
            Ok((es, rest)) => {
                if es.len() >= 1 {
                    let next = acc + es;
                    assert forall|i: int| 0 <= i < next.len() && #[trigger] is_wide(next[i]) implies i + 1 < next.len() && next[i + 1] is UnusedPlaceholder by {
                        if i < acc.len() {
                            assert(next[i] == acc[i]);
                            assert(is_wide(acc[i]));
                            assert(next[i + 1] == acc[i + 1]);
                        } else {
                            assert(next[i] == es[i - acc.len()]);
                        }
                    }
                    lemma_pool_from(rest, index + es.len(), count, next);
                    if let Ok((cs, _)) = pool_from(rest, index + es.len(), count, next) {
                        assert(cs.take(acc.len() as int) =~= cs.take(next.len() as int).take(acc.len() as int));
                        assert(next.take(acc.len() as int) =~= acc);
                    }
                }
            },
            Err(_) => {},
        }
    } else {
        assert(acc.take(acc.len() as int) =~= acc);
    }
}

/// A constant pool of count `n` has `n` slots, or one more when its last entry is wide (or `n`
/// is 0, as slot 0 is always there); slot 0 is a placeholder; and every `Long` and `Double` takes
/// two slots, the second a placeholder.
pub proof fn law_pool_slots(s: Seq<u8>)
    ensures
        parse_constants(s) matches Ok((cs, _)) ==> be_u16(s) <= cs.len() <= be_u16(s) + 1
            && cs[0] is UnusedPlaceholder
            && wide_followed_by_placeholder(cs),
{
    if s.len() >= 2 {
        let acc = seq![ConstantModel::UnusedPlaceholder];
        lemma_pool_from(s.skip(2), 1, be_u16(s) as int, acc);
        if let Ok((cs, _)) = parse_constants(s) {
            assert(cs.take(1)[0] == acc[0]);
        }
    }
}


/// A `CONSTANT_Utf8_info` that holds the "Modified UTF-8" of a string reads back as that string,
/// and the bytes after it are left.
pub proof fn law_utf8_entry_round_trip(text: Seq<char>, rest: Seq<u8>)
    requires
        encode_modified_utf8(text).len() <= 0xFFFF,
    ensures
        ({
            let e = encode_modified_utf8(text);
            let n = e.len();
            constant_entry(seq![1u8, (n / 0x100) as u8, (n % 0x100) as u8] + e + rest)
                == Ok::<(Seq<ConstantModel>, Seq<u8>), ReadError>((seq![ConstantModel::Utf8(text)], rest))
        }),
{
    let e = encode_modified_utf8(text);
    let n = e.len();
    let s = seq![1u8, (n / 0x100) as u8, (n % 0x100) as u8] + e + rest;
    let b = s.skip(1);
    assert(b[0] == (n / 0x100) as u8 && b[1] == (n % 0x100) as u8);
    assert(be_u16(b) == n);
    assert(b.skip(2).take(n as int) =~= e);
    assert(s.skip(3 + n as int) =~= rest);
    law_modified_utf8_round_trip(text, Seq::empty());
    assert(Seq::<char>::empty() + text =~= text);
}

} // verus!
