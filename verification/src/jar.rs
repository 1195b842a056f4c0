//! [Java SE 7 &sect; 4](https://docs.oracle.com/javase/specs/jvms/se7/html/jvms-4.html):  reading a `.class` file into
//! its class, fields and methods, with constant pool references resolved.

use vstd::prelude::*;
use crate::access_flags::{ClassAccessFlags, FieldAccessFlags, MethodAccessFlags};
use crate::constants::{
    class_at, optional_class_at, opt_str_result, parse_constants, str_result, utf8_at, Constant,
    ConstantModel, Constants,
};
use crate::descriptor::{parse_single_descriptor, Descriptor};
use crate::io_ext::{be_u16, be_u32, lemma_skip_skip, read_u2, read_u4, ByteReader, ReadError};
use crate::method;
use crate::version::Major;
use crate::text::{chars_eq, chars_of};

verus! {

broadcast use lemma_skip_skip;

/// A big-endian `u16` at the front of `s`, and the bytes after it.
pub open spec fn u2_at(s: Seq<u8>) -> Result<(u16, Seq<u8>), ReadError> {
    if s.len() >= 2 {
        Ok((be_u16(s), s.skip(2)))
    } else {
        Err(ReadError::UnexpectedEof)
    }
}

/// A big-endian `u32` at the front of `s`, and the bytes after it.
pub open spec fn u4_at(s: Seq<u8>) -> Result<(u32, Seq<u8>), ReadError> {
    if s.len() >= 4 {
        Ok((be_u32(s), s.skip(4)))
    } else {
        Err(ReadError::UnexpectedEof)
    }
}

fn is_literal(v: &Vec<char>, lit: &str) -> (r: bool)
    ensures
        r == (v@ == lit@),
{
    let l = chars_of(lit);
    chars_eq(v.as_slice(), l.as_slice())
}

// ---------------------------------------------------------------------------------------------
// Attributes

/// [Java SE 7 &sect; 4.7](https://docs.oracle.com/javase/specs/jvms/se7/html/jvms-4.html#jvms-4.7):  an attribute,
/// as far as this library reads it.
#[allow(non_camel_case_types)]
#[derive(Clone, Debug)]
pub enum Attribute {
    /// https://docs.oracle.com/javase/specs/jvms/se7/html/jvms-4.html#jvms-4.7.2
    ConstantValue_Long(i64),
    /// https://docs.oracle.com/javase/specs/jvms/se7/html/jvms-4.html#jvms-4.7.2 (the IEEE 754 bit pattern)
    ConstantValue_Float(u32),
    /// https://docs.oracle.com/javase/specs/jvms/se7/html/jvms-4.html#jvms-4.7.2 (the IEEE 754 bit pattern)
    ConstantValue_Double(u64),
    /// https://docs.oracle.com/javase/specs/jvms/se7/html/jvms-4.html#jvms-4.7.2
    ConstantValue_Integer(i32), // int, short, char, byte, boolean
    /// https://docs.oracle.com/javase/specs/jvms/se7/html/jvms-4.html#jvms-4.7.2
    ConstantValue_String(String),
    /// https://docs.oracle.com/javase/specs/jvms/se7/html/jvms-4.html#jvms-4.7.3
    Code,
    /// https://docs.oracle.com/javase/specs/jvms/se7/html/jvms-4.html#jvms-4.7.4
    StackMapTable,
    /// https://docs.oracle.com/javase/specs/jvms/se7/html/jvms-4.html#jvms-4.7.5
    Exceptions,
    /// https://docs.oracle.com/javase/specs/jvms/se7/html/jvms-4.html#jvms-4.7.6
    InnerClasses,
    /// https://docs.oracle.com/javase/specs/jvms/se7/html/jvms-4.html#jvms-4.7.7
    EnclosingMethod,
    /// https://docs.oracle.com/javase/specs/jvms/se7/html/jvms-4.html#jvms-4.7.8
    Synthetic,
    /// https://docs.oracle.com/javase/specs/jvms/se7/html/jvms-4.html#jvms-4.7.9
    Signature,
    /// https://docs.oracle.com/javase/specs/jvms/se7/html/jvms-4.html#jvms-4.7.10
    SourceFile,
    /// https://docs.oracle.com/javase/specs/jvms/se7/html/jvms-4.html#jvms-4.7.11
    SourceDebugExtension,
    /// https://docs.oracle.com/javase/specs/jvms/se7/html/jvms-4.html#jvms-4.7.12
    LineNumberTable,
    /// https://docs.oracle.com/javase/specs/jvms/se7/html/jvms-4.html#jvms-4.7.13
    LocalVariableTable,
    /// https://docs.oracle.com/javase/specs/jvms/se7/html/jvms-4.html#jvms-4.7.14
    LocalVariableTypeTable,
    /// https://docs.oracle.com/javase/specs/jvms/se7/html/jvms-4.html#jvms-4.7.15
    Deprecated,
    /// https://docs.oracle.com/javase/specs/jvms/se7/html/jvms-4.html#jvms-4.7.16
    RuntimeVisibleAnnotations,
    /// https://docs.oracle.com/javase/specs/jvms/se7/html/jvms-4.html#jvms-4.7.17
    RuntimeInvisibleAnnotations,
    /// https://docs.oracle.com/javase/specs/jvms/se7/html/jvms-4.html#jvms-4.7.18
    RuntimeVisibleParameterAnnotations,
    /// https://docs.oracle.com/javase/specs/jvms/se7/html/jvms-4.html#jvms-4.7.19
    RuntimeInvisibleParameterAnnotations,
    /// https://docs.oracle.com/javase/specs/jvms/se7/html/jvms-4.html#jvms-4.7.20
    AnnotationDefault,
    /// https://docs.oracle.com/javase/specs/jvms/se7/html/jvms-4.html#jvms-4.7.21
    BootstrapMethods,
    /// An unrecognized attribute was used!
    Unknown,
}

/// An attribute with its text taken as characters.
#[allow(non_camel_case_types)]
pub enum AttributeModel {
    ConstantValue_Long(i64),
    ConstantValue_Float(u32),
    ConstantValue_Double(u64),
    ConstantValue_Integer(i32),
    ConstantValue_String(Seq<char>),
    Code,
    StackMapTable,
    Exceptions,
    InnerClasses,
    EnclosingMethod,
    Synthetic,
    Signature,
    SourceFile,
    SourceDebugExtension,
    LineNumberTable,
    LocalVariableTable,
    LocalVariableTypeTable,
    Deprecated,
    RuntimeVisibleAnnotations,
    RuntimeInvisibleAnnotations,
    RuntimeVisibleParameterAnnotations,
    RuntimeInvisibleParameterAnnotations,
    AnnotationDefault,
    BootstrapMethods,
    Unknown,
}

impl View for Attribute {
    type V = AttributeModel;

    open spec fn view(&self) -> AttributeModel {
        match self {
            Attribute::ConstantValue_Long(v) => AttributeModel::ConstantValue_Long(*v),
            Attribute::ConstantValue_Float(v) => AttributeModel::ConstantValue_Float(*v),
            Attribute::ConstantValue_Double(v) => AttributeModel::ConstantValue_Double(*v),
            Attribute::ConstantValue_Integer(v) => AttributeModel::ConstantValue_Integer(*v),
            Attribute::ConstantValue_String(s) => AttributeModel::ConstantValue_String(s@),
            Attribute::Code => AttributeModel::Code,
            Attribute::StackMapTable => AttributeModel::StackMapTable,
            Attribute::Exceptions => AttributeModel::Exceptions,
            Attribute::InnerClasses => AttributeModel::InnerClasses,
            Attribute::EnclosingMethod => AttributeModel::EnclosingMethod,
            Attribute::Synthetic => AttributeModel::Synthetic,
            Attribute::Signature => AttributeModel::Signature,
            Attribute::SourceFile => AttributeModel::SourceFile,
            Attribute::SourceDebugExtension => AttributeModel::SourceDebugExtension,
            Attribute::LineNumberTable => AttributeModel::LineNumberTable,
            Attribute::LocalVariableTable => AttributeModel::LocalVariableTable,
            Attribute::LocalVariableTypeTable => AttributeModel::LocalVariableTypeTable,
            Attribute::Deprecated => AttributeModel::Deprecated,
            Attribute::RuntimeVisibleAnnotations => AttributeModel::RuntimeVisibleAnnotations,
            Attribute::RuntimeInvisibleAnnotations => AttributeModel::RuntimeInvisibleAnnotations,
            Attribute::RuntimeVisibleParameterAnnotations => AttributeModel::RuntimeVisibleParameterAnnotations,
            Attribute::RuntimeInvisibleParameterAnnotations => AttributeModel::RuntimeInvisibleParameterAnnotations,
            Attribute::AnnotationDefault => AttributeModel::AnnotationDefault,
            Attribute::BootstrapMethods => AttributeModel::BootstrapMethods,
            Attribute::Unknown => AttributeModel::Unknown,
        }
    }
}

/// The attribute kind an attribute name stands for (other than `ConstantValue`).
pub open spec fn named_attribute(name: Seq<char>) -> AttributeModel {
    if name == "Code"@ {
        AttributeModel::Code
    } else if name == "StackMapTable"@ {
        AttributeModel::StackMapTable
    } else if name == "Exceptions"@ {
        AttributeModel::Exceptions
    } else if name == "InnerClasses"@ {
        AttributeModel::InnerClasses
    } else if name == "EnclosingMethod"@ {
        AttributeModel::EnclosingMethod
    } else if name == "Synthetic"@ {
        AttributeModel::Synthetic
    } else if name == "Signature"@ {
        AttributeModel::Signature
    } else if name == "SourceFile"@ {
        AttributeModel::SourceFile
    } else if name == "SourceDebugExtension"@ {
        AttributeModel::SourceDebugExtension
    } else if name == "LineNumberTable"@ {
        AttributeModel::LineNumberTable
    } else if name == "LocalVariableTable"@ {
        AttributeModel::LocalVariableTable
    } else if name == "LocalVariableTypeTable"@ {
        AttributeModel::LocalVariableTypeTable
    } else if name == "Deprecated"@ {
        AttributeModel::Deprecated
    } else if name == "RuntimeVisibleAnnotations"@ {
        AttributeModel::RuntimeVisibleAnnotations
    } else if name == "RuntimeInvisibleAnnotations"@ {
        AttributeModel::RuntimeInvisibleAnnotations
    } else if name == "RuntimeVisibleParameterAnnotations"@ {
        AttributeModel::RuntimeVisibleParameterAnnotations
    } else if name == "RuntimeInvisibleParameterAnnotations"@ {
        AttributeModel::RuntimeInvisibleParameterAnnotations
    } else if name == "AnnotationDefault"@ {
        AttributeModel::AnnotationDefault
    } else if name == "BootstrapMethods"@ {
        AttributeModel::BootstrapMethods
    } else {
        AttributeModel::Unknown
    }
}

fn attribute_for_name(v: &Vec<char>) -> (a: Attribute)
    ensures
        a@ == named_attribute(v@),
{
        if is_literal(&v, "Code") {
            Attribute::Code
        } else if is_literal(&v, "StackMapTable") {
            Attribute::StackMapTable
        } else if is_literal(&v, "Exceptions") {
            Attribute::Exceptions
        } else if is_literal(&v, "InnerClasses") {
            Attribute::InnerClasses
        } else if is_literal(&v, "EnclosingMethod") {
            Attribute::EnclosingMethod
        } else if is_literal(&v, "Synthetic") {
            Attribute::Synthetic
        } else if is_literal(&v, "Signature") {
            Attribute::Signature
        } else if is_literal(&v, "SourceFile") {
            Attribute::SourceFile
        } else if is_literal(&v, "SourceDebugExtension") {
            Attribute::SourceDebugExtension
        } else if is_literal(&v, "LineNumberTable") {
            Attribute::LineNumberTable
        } else if is_literal(&v, "LocalVariableTable") {
            Attribute::LocalVariableTable
        } else if is_literal(&v, "LocalVariableTypeTable") {
            Attribute::LocalVariableTypeTable
        } else if is_literal(&v, "Deprecated") {
            Attribute::Deprecated
        } else if is_literal(&v, "RuntimeVisibleAnnotations") {
            Attribute::RuntimeVisibleAnnotations
        } else if is_literal(&v, "RuntimeInvisibleAnnotations") {
            Attribute::RuntimeInvisibleAnnotations
        } else if is_literal(&v, "RuntimeVisibleParameterAnnotations") {
            Attribute::RuntimeVisibleParameterAnnotations
        } else if is_literal(&v, "RuntimeInvisibleParameterAnnotations") {
            Attribute::RuntimeInvisibleParameterAnnotations
        } else if is_literal(&v, "AnnotationDefault") {
            Attribute::AnnotationDefault
        } else if is_literal(&v, "BootstrapMethods") {
            Attribute::BootstrapMethods
        } else {
            Attribute::Unknown
        }
}

/// The value of a `ConstantValue` attribute pointing at constant `index`.
pub open spec fn constant_value(m: Seq<ConstantModel>, index: u16) -> Result<AttributeModel, ReadError> {
    if index as int >= m.len() {
        Err(ReadError::NoSuchConstant(index))
    } else {
        match m[index as int] {
            ConstantModel::Long(v) => Ok(AttributeModel::ConstantValue_Long(v)),
            ConstantModel::Float(v) => Ok(AttributeModel::ConstantValue_Float(v)),
            ConstantModel::Double(v) => Ok(AttributeModel::ConstantValue_Double(v)),
            ConstantModel::Integer(v) => Ok(AttributeModel::ConstantValue_Integer(v)),
            ConstantModel::String { string_index } => match utf8_at(m, string_index) {
                Ok(t) => Ok(AttributeModel::ConstantValue_String(t)),
                Err(e) => Err(e),
            },
            _ => Err(ReadError::ExpectedConstantValue(index)),
        }
    }
}

/// An attribute at the front of `s`: its name index, its length, then its body, which is read
/// for `ConstantValue` and skipped otherwise.
pub open spec fn parse_attribute(s: Seq<u8>, m: Seq<ConstantModel>) -> Result<(AttributeModel, Seq<u8>), ReadError> {
    match u2_at(s) {
        Ok((idx, s1)) => match u4_at(s1) {
            Ok((len, s2)) => match utf8_at(m, idx) {
                Ok(name) => if name == "ConstantValue"@ {
                    if len != 2 {
                        Err(ReadError::ConstantValueLength(len))
                    } else {
                        match u2_at(s2) {
                            Ok((ci, s3)) => match constant_value(m, ci) {
                                Ok(a) => Ok((a, s3)),
                                Err(e) => Err(e),
                            },
                            Err(e) => Err(e),
                        }
                    }
                } else if s2.len() < len {
                    Err(ReadError::UnexpectedEof)
                } else {
                    Ok((named_attribute(name), s2.skip(len as int)))
                },
                Err(e) => Err(e),
            },
            Err(e) => Err(e),
        },
        Err(e) => Err(e),
    }
}

impl Attribute {
    /// Reads one attribute, resolving its name (and a `ConstantValue`) through `constants`.
    pub fn read(read: &mut ByteReader, constants: &Constants) -> (r: Result<Self, ReadError>)
        ensures
            match parse_attribute(old(read).rest(), constants@) {
                Ok((a, rest)) => r is Ok && r->Ok_0@ == a && final(read).rest() == rest,
                Err(e) => r == Err::<Self, ReadError>(e),
            },
    {
        let attribute_name_index = read_u2(read)?;
        let attribute_length = read_u4(read)?;

        let name = constants.get_utf8(attribute_name_index)?;
        let v = chars_of(name);
        if is_literal(&v, "ConstantValue") {
            // https://docs.oracle.com/javase/specs/jvms/se7/html/jvms-4.html#jvms-4.7.2
            if attribute_length != 2 {
                return Err(ReadError::ConstantValueLength(attribute_length));
            }
            let constantvalue_index = read_u2(read)?;
            let constant = constants.get(constantvalue_index)?;
            match constant {
                Constant::Long(value) => Ok(Attribute::ConstantValue_Long(*value)),
                Constant::Float(value) => Ok(Attribute::ConstantValue_Float(*value)),
                Constant::Double(value) => Ok(Attribute::ConstantValue_Double(*value)),
                Constant::Integer(value) => Ok(Attribute::ConstantValue_Integer(*value)),
                Constant::String { string_index } => Ok(Attribute::ConstantValue_String(constants.get_utf8(*string_index)?.to_owned())),
                _ => Err(ReadError::ExpectedConstantValue(constantvalue_index)),
            }
        } else {
            read.skip(attribute_length as usize)?;
            Ok(attribute_for_name(&v))
        }
    }
}

// ---------------------------------------------------------------------------------------------
// Fields

/// The value of a constant field.
#[derive(Clone, Debug)]
pub enum FieldConstant {
    Integer(i32),
    Long(i64),
    /// The IEEE 754 bit pattern of a `float`.
    Float(u32),
    /// The IEEE 754 bit pattern of a `double`.
    Double(u64),
    String(String),
}

/// A field constant with its text taken as characters.
pub enum FieldConstantModel {
    Integer(i32),
    Long(i64),
    Float(u32),
    Double(u64),
    String(Seq<char>),
}

impl View for FieldConstant {
    type V = FieldConstantModel;

    open spec fn view(&self) -> FieldConstantModel {
        match self {
            FieldConstant::Integer(v) => FieldConstantModel::Integer(*v),
            FieldConstant::Long(v) => FieldConstantModel::Long(*v),
            FieldConstant::Float(v) => FieldConstantModel::Float(*v),
            FieldConstant::Double(v) => FieldConstantModel::Double(*v),
            FieldConstant::String(s) => FieldConstantModel::String(s@),
        }
    }
}

/// The constant a field attribute gives it, if it gives one.
pub open spec fn attribute_constant(a: AttributeModel) -> Option<FieldConstantModel> {
    match a {
        AttributeModel::ConstantValue_Integer(v) => Some(FieldConstantModel::Integer(v)),
        AttributeModel::ConstantValue_Long(v) => Some(FieldConstantModel::Long(v)),
        AttributeModel::ConstantValue_Float(v) => Some(FieldConstantModel::Float(v)),
        AttributeModel::ConstantValue_Double(v) => Some(FieldConstantModel::Double(v)),
        AttributeModel::ConstantValue_String(t) => Some(FieldConstantModel::String(t)),
        _ => None,
    }
}

/// A field as read: access flags, name, descriptor, whether it is deprecated, and its constant.
pub struct FieldModel {
    pub flags: u16,
    pub name: Seq<char>,
    pub descriptor: Seq<char>,
    pub deprecated: bool,
    pub constant: Option<FieldConstantModel>,
}

/// [Java SE 7 &sect; 4.5](https://docs.oracle.com/javase/specs/jvms/se7/html/jvms-4.html#jvms-4.5):  field_info
#[derive(Clone, Debug)]
pub struct Field {
    pub flags: FieldAccessFlags,
    pub name: String,
    descriptor: String,
    pub deprecated: bool,
    pub constant: Option<FieldConstant>,
}

impl View for Field {
    type V = FieldModel;

    closed spec fn view(&self) -> FieldModel {
        FieldModel {
            flags: self.flags.bits_spec(),
            name: self.name@,
            descriptor: self.descriptor@,
            deprecated: self.deprecated,
            constant: match self.constant {
                Some(c) => Some(c@),
                None => None,
            },
        }
    }
}

/// The attributes of a field, `n` left to read, folded into whether it is deprecated and its
/// constant (the last `ConstantValue` wins).
pub open spec fn field_attributes(s: Seq<u8>, n: int, m: Seq<ConstantModel>, deprecated: bool, constant: Option<FieldConstantModel>) -> Result<(bool, Option<FieldConstantModel>, Seq<u8>), ReadError>
    decreases n,
{
    if n <= 0 {
        Ok((deprecated, constant, s))
    } else {
        match parse_attribute(s, m) {
            Ok((a, rest)) => field_attributes(
                rest,
                n - 1,
                m,
                deprecated || a is Deprecated,
                match attribute_constant(a) {
                    Some(c) => Some(c),
                    None => constant,
                },
            ),
            Err(e) => Err(e),
        }
    }
}

/// A field from its header and the outcome of reading its attributes.
pub open spec fn finish_field(
    flags: u16,
    name: Seq<char>,
    descriptor: Seq<char>,
    attributes: Result<(bool, Option<FieldConstantModel>, Seq<u8>), ReadError>,
) -> Result<(FieldModel, Seq<u8>), ReadError> {
    match attributes {
        Ok((deprecated, constant, rest)) => Ok((FieldModel { flags, name, descriptor, deprecated, constant }, rest)),
        Err(e) => Err(e),
    }
}

/// A field_info at the front of `s`.
pub open spec fn parse_field(s: Seq<u8>, m: Seq<ConstantModel>) -> Result<(FieldModel, Seq<u8>), ReadError> {
    match u2_at(s) {
        Ok((flags, s1)) => match u2_at(s1) {
            Ok((ni, s2)) => match utf8_at(m, ni) {
                Ok(name) => match u2_at(s2) {
                    Ok((di, s3)) => match utf8_at(m, di) {
                        Ok(descriptor) => match u2_at(s3) {
                            Ok((count, s4)) => if parse_single_descriptor(descriptor) is Err {
                                Err(ReadError::InvalidDescriptor)
                            } else {
                                finish_field(
                                    flags & FieldAccessFlags::known_bits(),
                                    name,
                                    descriptor,
                                    field_attributes(s4, count as int, m, false, None),
                                )
                            },
                            Err(e) => Err(e),
                        },
                        Err(e) => Err(e),
                    },
                    Err(e) => Err(e),
                },
                Err(e) => Err(e),
            },
            Err(e) => Err(e),
        },
        Err(e) => Err(e),
    }
}

/// A `u2` count of field_infos, then the fields, after those in `acc`.
pub open spec fn fields_from(s: Seq<u8>, n: int, m: Seq<ConstantModel>, acc: Seq<FieldModel>) -> Result<(Seq<FieldModel>, Seq<u8>), ReadError>
    decreases n,
{
    if n <= 0 {
        Ok((acc, s))
    } else {
        match parse_field(s, m) {
            Ok((f, rest)) => fields_from(rest, n - 1, m, acc.push(f)),
            Err(e) => Err(e),
        }
    }
}

/// A field list: a `u2` count, then that many field_infos.
pub open spec fn parse_fields(s: Seq<u8>, m: Seq<ConstantModel>) -> Result<(Seq<FieldModel>, Seq<u8>), ReadError> {
    match u2_at(s) {
        Ok((n, rest)) => fields_from(rest, n as int, m, Seq::empty()),
        Err(e) => Err(e),
    }
}

/// The models of a list of fields.
pub open spec fn fields_model(v: Seq<Field>) -> Seq<FieldModel> {
    v.map_values(|f: Field| f@)
}

impl Field {
    /// The descriptor is well formed.
    pub closed spec fn wf(&self) -> bool {
        parse_single_descriptor(self.descriptor@) is Ok
    }

    /// A field with no attributes; fails when `descriptor` is not one field descriptor.
    pub fn new(flags: FieldAccessFlags, name: String, descriptor: String) -> (r: Result<Self, ReadError>)
        ensures
            parse_single_descriptor(descriptor@) is Ok ==> r is Ok && r->Ok_0.wf() && r->Ok_0@ == (FieldModel {
                flags: flags.bits_spec(),
                name: name@,
                descriptor: descriptor@,
                deprecated: false,
                constant: None,
            }),
            parse_single_descriptor(descriptor@) is Err ==> r == Err::<Self, ReadError>(ReadError::InvalidDescriptor),
    {
        match Descriptor::from_str(descriptor.as_str()) {
            Ok(_) => {},
            Err(_) => {
                return Err(ReadError::InvalidDescriptor);
            },
        }
        Ok(Self { flags, name, descriptor, deprecated: false, constant: None })
    }

    /// The field's type.
    pub fn descriptor(&self) -> (d: Descriptor<'_>)
        requires
            self.wf(),
        ensures
            parse_single_descriptor(self@.descriptor) == Ok::<crate::descriptor::DescriptorModel, crate::descriptor::DescriptorError>(d@),
    {
        match Descriptor::from_str(self.descriptor.as_str()) {
            Ok(d) => d,
            Err(_) => Descriptor::Single(crate::descriptor::BasicType::Void),
        }
    }

    /// The field's descriptor as written.
    pub fn descriptor_str(&self) -> (s: &str)
        ensures
            s@ == self@.descriptor,
    {
        self.descriptor.as_str()
    }

    /// The field's name.
    pub fn name_str(&self) -> (s: &str)
        ensures
            s@ == self@.name,
    {
        self.name.as_str()
    }

    /// Whether the field is marked deprecated.
    pub fn is_deprecated(&self) -> (b: bool)
        ensures
            b == self@.deprecated,
    {
        self.deprecated
    }

    pub fn is_public(&self) -> (b: bool) ensures b == (self@.flags & FieldAccessFlags::PUBLIC == FieldAccessFlags::PUBLIC) { self.flags.contains(FieldAccessFlags::PUBLIC) }
    pub fn is_private(&self) -> (b: bool) ensures b == (self@.flags & FieldAccessFlags::PRIVATE == FieldAccessFlags::PRIVATE) { self.flags.contains(FieldAccessFlags::PRIVATE) }
    pub fn is_protected(&self) -> (b: bool) ensures b == (self@.flags & FieldAccessFlags::PROTECTED == FieldAccessFlags::PROTECTED) { self.flags.contains(FieldAccessFlags::PROTECTED) }
    pub fn is_static(&self) -> (b: bool) ensures b == (self@.flags & FieldAccessFlags::STATIC == FieldAccessFlags::STATIC) { self.flags.contains(FieldAccessFlags::STATIC) }
    pub fn is_final(&self) -> (b: bool) ensures b == (self@.flags & FieldAccessFlags::FINAL == FieldAccessFlags::FINAL) { self.flags.contains(FieldAccessFlags::FINAL) }
    pub fn is_volatile(&self) -> (b: bool) ensures b == (self@.flags & FieldAccessFlags::VOLATILE == FieldAccessFlags::VOLATILE) { self.flags.contains(FieldAccessFlags::VOLATILE) }
    pub fn is_transient(&self) -> (b: bool) ensures b == (self@.flags & FieldAccessFlags::TRANSIENT == FieldAccessFlags::TRANSIENT) { self.flags.contains(FieldAccessFlags::TRANSIENT) }
    pub fn is_synthetic(&self) -> (b: bool) ensures b == (self@.flags & FieldAccessFlags::SYNTHETIC == FieldAccessFlags::SYNTHETIC) { self.flags.contains(FieldAccessFlags::SYNTHETIC) }
    pub fn is_enum(&self) -> (b: bool) ensures b == (self@.flags & FieldAccessFlags::ENUM == FieldAccessFlags::ENUM) { self.flags.contains(FieldAccessFlags::ENUM) }

    /// A `static final` field with a constant value.
    pub fn is_constant(&self) -> (b: bool)
        ensures
            b == ((self@.flags & FieldAccessFlags::FINAL == FieldAccessFlags::FINAL)
                && (self@.flags & FieldAccessFlags::STATIC == FieldAccessFlags::STATIC)
                && self@.constant is Some),
    {
        self.is_final() && self.is_static() && self.constant.is_some()
    }

    /// The access keyword: `private`, `protected` or `public` (in that order of precedence), or
    /// none for package access.
    pub fn access(&self) -> (a: Option<&'static str>)
        ensures
            self@.flags & FieldAccessFlags::PRIVATE == FieldAccessFlags::PRIVATE ==> a == Some("private"),
            self@.flags & FieldAccessFlags::PRIVATE != FieldAccessFlags::PRIVATE && self@.flags & FieldAccessFlags::PROTECTED == FieldAccessFlags::PROTECTED ==> a == Some("protected"),
            self@.flags & FieldAccessFlags::PRIVATE != FieldAccessFlags::PRIVATE && self@.flags & FieldAccessFlags::PROTECTED != FieldAccessFlags::PROTECTED && self@.flags & FieldAccessFlags::PUBLIC == FieldAccessFlags::PUBLIC ==> a == Some("public"),
            self@.flags & FieldAccessFlags::PRIVATE != FieldAccessFlags::PRIVATE && self@.flags & FieldAccessFlags::PROTECTED != FieldAccessFlags::PROTECTED && self@.flags & FieldAccessFlags::PUBLIC != FieldAccessFlags::PUBLIC ==> a is None,
    {
        if self.is_private() {
            Some("private")
        } else if self.is_protected() {
            Some("protected")
        } else if self.is_public() {
            Some("public")
        } else {
            None
        }
    }

    /// Reads one field_info, resolving its name and descriptor through `constants`.
    pub fn read_one(read: &mut ByteReader, constants: &Constants) -> (r: Result<Self, ReadError>)
        ensures
            match parse_field(old(read).rest(), constants@) {
                Ok((f, rest)) => r is Ok && r->Ok_0@ == f && r->Ok_0.wf() && final(read).rest() == rest,
                Err(e) => r == Err::<Self, ReadError>(e),
            },
    {
        let ghost pre = read.rest();
        let flags = FieldAccessFlags::read(read)?;
        let name = constants.get_utf8(read_u2(read)?)?.to_owned();
        let descriptor = constants.get_utf8(read_u2(read)?)?.to_owned();
        let attributes_count = read_u2(read)?;

        match Descriptor::from_str(descriptor.as_str()) {
            Ok(_) => {},
            Err(_) => {
                return Err(ReadError::InvalidDescriptor);
            },
        }

        let ghost start = read.rest();
        assert(parse_field(pre, constants@) == finish_field(
            flags.bits_spec(), name@, descriptor@, field_attributes(start, attributes_count as int, constants@, false, None)));
        let mut deprecated = false;
        let mut constant: Option<FieldConstant> = None;
        let mut i: u16 = 0;
        while i < attributes_count
            invariant
                i <= attributes_count,
                pre == old(read).rest(),
                parse_field(pre, constants@) == finish_field(
                    flags.bits_spec(), name@, descriptor@, field_attributes(start, attributes_count as int, constants@, false, None)),
                field_attributes(start, attributes_count as int, constants@, false, None)
                    == field_attributes(read.rest(), attributes_count - i, constants@, deprecated, match constant { Some(c) => Some(c@), None => None }),
            decreases attributes_count - i,
        {
            let a = Attribute::read(read, constants)?;
            match a {
                Attribute::Deprecated => { deprecated = true; },
                Attribute::ConstantValue_Integer(value) => { constant = Some(FieldConstant::Integer(value)); },
                Attribute::ConstantValue_Long(value) => { constant = Some(FieldConstant::Long(value)); },
                Attribute::ConstantValue_Float(value) => { constant = Some(FieldConstant::Float(value)); },
                Attribute::ConstantValue_Double(value) => { constant = Some(FieldConstant::Double(value)); },
                Attribute::ConstantValue_String(value) => { constant = Some(FieldConstant::String(value)); },
                _ => {},
            }
            i = i + 1;
        }

        Ok(Self { flags, name, descriptor, deprecated, constant })
    }

    /// Reads a `u2` count, then that many field_infos.
    pub fn read_list(read: &mut ByteReader, constants: &Constants) -> (r: Result<Vec<Self>, ReadError>)
        ensures
            match parse_fields(old(read).rest(), constants@) {
                Ok((fs, rest)) => r is Ok && fields_model(r->Ok_0@) == fs && final(read).rest() == rest
                    && forall|i: int| 0 <= i < r->Ok_0@.len() ==> #[trigger] r->Ok_0@[i].wf(),
                Err(e) => r == Err::<Vec<Self>, ReadError>(e),
            },
    {
        let ghost pre = read.rest();
        let n = read_u2(read)?;
        let ghost start = read.rest();
        let mut fields: Vec<Self> = Vec::new();
        assert(fields_model(fields@) =~= Seq::empty());
        let mut i: u16 = 0;
        while i < n
            invariant
                i <= n,
                pre == old(read).rest(),
                parse_fields(pre, constants@) == fields_from(start, n as int, constants@, Seq::empty()),
                fields_from(start, n as int, constants@, Seq::empty())
                    == fields_from(read.rest(), n - i, constants@, fields_model(fields@)),
                forall|j: int| 0 <= j < fields@.len() ==> #[trigger] fields@[j].wf(),
            decreases n - i,
        {
            let f = Self::read_one(read, constants)?;
            proof { assert(fields_model(fields@.push(f)) =~= fields_model(fields@).push(f@)); }
            fields.push(f);
            i = i + 1;
        }
        Ok(fields)
    }
}

// ---------------------------------------------------------------------------------------------
// Methods

/// A method as read: access flags, name, descriptor, and whether it is deprecated.
pub struct MethodModel {
    pub flags: u16,
    pub name: Seq<char>,
    pub descriptor: Seq<char>,
    pub deprecated: bool,
}

/// [Java SE 7 &sect; 4.6](https://docs.oracle.com/javase/specs/jvms/se7/html/jvms-4.html#jvms-4.6):  method_info
#[derive(Clone, Debug)]
pub struct Method {
    pub flags: MethodAccessFlags,
    pub name: String,
    descriptor: String,
    pub deprecated: bool,
}

impl View for Method {
    type V = MethodModel;

    closed spec fn view(&self) -> MethodModel {
        MethodModel {
            flags: self.flags.bits_spec(),
            name: self.name@,
            descriptor: self.descriptor@,
            deprecated: self.deprecated,
        }
    }
}

/// The attributes of a method or a class, `n` left to read, folded into whether one marks it deprecated.
pub open spec fn deprecating_attributes(s: Seq<u8>, n: int, m: Seq<ConstantModel>, deprecated: bool) -> Result<(bool, Seq<u8>), ReadError>
    decreases n,
{
    if n <= 0 {
        Ok((deprecated, s))
    } else {
        match parse_attribute(s, m) {
            Ok((a, rest)) => deprecating_attributes(rest, n - 1, m, deprecated || a is Deprecated),
            Err(e) => Err(e),
        }
    }
}

/// A method from its header and the outcome of reading its attributes.
pub open spec fn finish_method(
    flags: u16,
    name: Seq<char>,
    descriptor: Seq<char>,
    attributes: Result<(bool, Seq<u8>), ReadError>,
) -> Result<(MethodModel, Seq<u8>), ReadError> {
    match attributes {
        Ok((deprecated, rest)) => Ok((MethodModel { flags, name, descriptor, deprecated }, rest)),
        Err(e) => Err(e),
    }
}

/// A method_info at the front of `s`.
pub open spec fn parse_method(s: Seq<u8>, m: Seq<ConstantModel>) -> Result<(MethodModel, Seq<u8>), ReadError> {
    match u2_at(s) {
        Ok((flags, s1)) => match u2_at(s1) {
            Ok((ni, s2)) => match utf8_at(m, ni) {
                Ok(name) => match u2_at(s2) {
                    Ok((di, s3)) => match utf8_at(m, di) {
                        Ok(descriptor) => match u2_at(s3) {
                            Ok((count, s4)) => if method::parse_method_descriptor(descriptor) is Err {
                                Err(ReadError::InvalidDescriptor)
                            } else {
                                finish_method(
                                    flags & MethodAccessFlags::known_bits(),
                                    name,
                                    descriptor,
                                    deprecating_attributes(s4, count as int, m, false),
                                )
                            },
                            Err(e) => Err(e),
                        },
                        Err(e) => Err(e),
                    },
                    Err(e) => Err(e),
                },
                Err(e) => Err(e),
            },
            Err(e) => Err(e),
        },
        Err(e) => Err(e),
    }
}

/// `n` method_infos, after those in `acc`.
pub open spec fn methods_from(s: Seq<u8>, n: int, m: Seq<ConstantModel>, acc: Seq<MethodModel>) -> Result<(Seq<MethodModel>, Seq<u8>), ReadError>
    decreases n,
{
    if n <= 0 {
        Ok((acc, s))
    } else {
        match parse_method(s, m) {
            Ok((f, rest)) => methods_from(rest, n - 1, m, acc.push(f)),
            Err(e) => Err(e),
        }
    }
}

/// A method list: a `u2` count, then that many method_infos.
pub open spec fn parse_methods(s: Seq<u8>, m: Seq<ConstantModel>) -> Result<(Seq<MethodModel>, Seq<u8>), ReadError> {
    match u2_at(s) {
        Ok((n, rest)) => methods_from(rest, n as int, m, Seq::empty()),
        Err(e) => Err(e),
    }
}

/// The models of a list of methods.
pub open spec fn methods_model(v: Seq<Method>) -> Seq<MethodModel> {
    v.map_values(|f: Method| f@)
}

impl Method {
    /// The descriptor is a well formed method descriptor.
    pub closed spec fn wf(&self) -> bool {
        method::parse_method_descriptor(self.descriptor@) is Ok
    }

    /// A method with no attributes; fails when `descriptor` is not a method descriptor.
    pub fn new(flags: MethodAccessFlags, name: String, descriptor: String) -> (r: Result<Self, ReadError>)
        ensures
            method::parse_method_descriptor(descriptor@) is Ok ==> r is Ok && r->Ok_0.wf() && r->Ok_0@ == (MethodModel {
                flags: flags.bits_spec(),
                name: name@,
                descriptor: descriptor@,
                deprecated: false,
            }),
            method::parse_method_descriptor(descriptor@) is Err ==> r == Err::<Self, ReadError>(ReadError::InvalidDescriptor),
    {
        match method::Descriptor::new(descriptor.as_str()) {
            Ok(_) => {},
            Err(_) => {
                return Err(ReadError::InvalidDescriptor);
            },
        }
        Ok(Self { flags, name, descriptor, deprecated: false })
    }

    /// The method's parameter and return types.
    pub fn descriptor(&self) -> (d: method::Descriptor<'_>)
        requires
            self.wf(),
        ensures
            d.text() == self@.descriptor,
            method::parse_method_descriptor(self@.descriptor) == Ok::<_, crate::descriptor::DescriptorError>(d.model()),
    {
        method::Descriptor::new(self.descriptor.as_str()).unwrap()
    }

    /// The method's descriptor as written.
    pub fn descriptor_str(&self) -> (s: &str)
        ensures
            s@ == self@.descriptor,
    {
        self.descriptor.as_str()
    }

    /// The method's name.
    pub fn name_str(&self) -> (s: &str)
        ensures
            s@ == self@.name,
    {
        self.name.as_str()
    }

    /// The access flags as bits.
    pub fn flag_bits(&self) -> (b: u16)
        ensures
            b == self@.flags,
    {
        self.flags.bits()
    }

    pub fn is_public(&self) -> (b: bool) ensures b == (self@.flags & MethodAccessFlags::PUBLIC == MethodAccessFlags::PUBLIC) { self.flags.contains(MethodAccessFlags::PUBLIC) }
    pub fn is_private(&self) -> (b: bool) ensures b == (self@.flags & MethodAccessFlags::PRIVATE == MethodAccessFlags::PRIVATE) { self.flags.contains(MethodAccessFlags::PRIVATE) }
    pub fn is_protected(&self) -> (b: bool) ensures b == (self@.flags & MethodAccessFlags::PROTECTED == MethodAccessFlags::PROTECTED) { self.flags.contains(MethodAccessFlags::PROTECTED) }
    pub fn is_static(&self) -> (b: bool) ensures b == (self@.flags & MethodAccessFlags::STATIC == MethodAccessFlags::STATIC) { self.flags.contains(MethodAccessFlags::STATIC) }
    pub fn is_final(&self) -> (b: bool) ensures b == (self@.flags & MethodAccessFlags::FINAL == MethodAccessFlags::FINAL) { self.flags.contains(MethodAccessFlags::FINAL) }
    pub fn is_synchronized(&self) -> (b: bool) ensures b == (self@.flags & MethodAccessFlags::SYNCHRONIZED == MethodAccessFlags::SYNCHRONIZED) { self.flags.contains(MethodAccessFlags::SYNCHRONIZED) }
    pub fn is_bridge(&self) -> (b: bool) ensures b == (self@.flags & MethodAccessFlags::BRIDGE == MethodAccessFlags::BRIDGE) { self.flags.contains(MethodAccessFlags::BRIDGE) }
    pub fn is_varargs(&self) -> (b: bool) ensures b == (self@.flags & MethodAccessFlags::VARARGS == MethodAccessFlags::VARARGS) { self.flags.contains(MethodAccessFlags::VARARGS) }
    pub fn is_native(&self) -> (b: bool) ensures b == (self@.flags & MethodAccessFlags::NATIVE == MethodAccessFlags::NATIVE) { self.flags.contains(MethodAccessFlags::NATIVE) }
    pub fn is_abstract(&self) -> (b: bool) ensures b == (self@.flags & MethodAccessFlags::ABSTRACT == MethodAccessFlags::ABSTRACT) { self.flags.contains(MethodAccessFlags::ABSTRACT) }
    pub fn is_strict(&self) -> (b: bool) ensures b == (self@.flags & MethodAccessFlags::STRICT == MethodAccessFlags::STRICT) { self.flags.contains(MethodAccessFlags::STRICT) }
    pub fn is_synthetic(&self) -> (b: bool) ensures b == (self@.flags & MethodAccessFlags::SYNTHETIC == MethodAccessFlags::SYNTHETIC) { self.flags.contains(MethodAccessFlags::SYNTHETIC) }

    /// An instance initializer (`<init>`).
    pub fn is_constructor(&self) -> (b: bool)
        ensures
            b == (self@.name == "<init>"@),
    {
        crate::text::str_eq(self.name.as_str(), "<init>")
    }

    /// A class initializer (`<clinit>`).
    pub fn is_static_init(&self) -> (b: bool)
        ensures
            b == (self@.name == "<clinit>"@),
    {
        crate::text::str_eq(self.name.as_str(), "<clinit>")
    }

    /// The access keyword: `private`, `protected` or `public` (in that order of precedence), or
    /// none for package access.
    pub fn access(&self) -> (a: Option<&'static str>)
        ensures
            self@.flags & MethodAccessFlags::PRIVATE == MethodAccessFlags::PRIVATE ==> a == Some("private"),
            self@.flags & MethodAccessFlags::PRIVATE != MethodAccessFlags::PRIVATE && self@.flags & MethodAccessFlags::PROTECTED == MethodAccessFlags::PROTECTED ==> a == Some("protected"),
            self@.flags & MethodAccessFlags::PRIVATE != MethodAccessFlags::PRIVATE && self@.flags & MethodAccessFlags::PROTECTED != MethodAccessFlags::PROTECTED && self@.flags & MethodAccessFlags::PUBLIC == MethodAccessFlags::PUBLIC ==> a == Some("public"),
            self@.flags & MethodAccessFlags::PRIVATE != MethodAccessFlags::PRIVATE && self@.flags & MethodAccessFlags::PROTECTED != MethodAccessFlags::PROTECTED && self@.flags & MethodAccessFlags::PUBLIC != MethodAccessFlags::PUBLIC ==> a is None,
    {
        if self.is_private() {
            Some("private")
        } else if self.is_protected() {
            Some("protected")
        } else if self.is_public() {
            Some("public")
        } else {
            None
        }
    }

    /// Reads one method_info, resolving its name and descriptor through `constants`.
    pub fn read_one(read: &mut ByteReader, constants: &Constants) -> (r: Result<Self, ReadError>)
        ensures
            match parse_method(old(read).rest(), constants@) {
                Ok((f, rest)) => r is Ok && r->Ok_0@ == f && r->Ok_0.wf() && final(read).rest() == rest,
                Err(e) => r == Err::<Self, ReadError>(e),
            },
    {
        let ghost pre = read.rest();
        let flags = MethodAccessFlags::read(read)?;
        let name = constants.get_utf8(read_u2(read)?)?.to_owned();
        let descriptor = constants.get_utf8(read_u2(read)?)?.to_owned();
        let attributes_count = read_u2(read)?;

        match method::Descriptor::new(descriptor.as_str()) {
            Ok(_) => {},
            Err(_) => {
                return Err(ReadError::InvalidDescriptor);
            },
        }

        let ghost start = read.rest();
        assert(parse_method(pre, constants@) == finish_method(
            flags.bits_spec(), name@, descriptor@, deprecating_attributes(start, attributes_count as int, constants@, false)));
        let mut deprecated = false;
        let mut i: u16 = 0;
        while i < attributes_count
            invariant
                i <= attributes_count,
                pre == old(read).rest(),
                parse_method(pre, constants@) == finish_method(
                    flags.bits_spec(), name@, descriptor@, deprecating_attributes(start, attributes_count as int, constants@, false)),
                deprecating_attributes(start, attributes_count as int, constants@, false)
                    == deprecating_attributes(read.rest(), attributes_count - i, constants@, deprecated),
            decreases attributes_count - i,
        {
            let a = Attribute::read(read, constants)?;
            match a {
                Attribute::Deprecated => { deprecated = true; },
                _ => {},
            }
            i = i + 1;
        }

        Ok(Self { flags, name, descriptor, deprecated })
    }

    /// Reads a `u2` count, then that many method_infos.
    pub fn read_list(read: &mut ByteReader, constants: &Constants) -> (r: Result<Vec<Self>, ReadError>)
        ensures
            match parse_methods(old(read).rest(), constants@) {
                Ok((fs, rest)) => r is Ok && methods_model(r->Ok_0@) == fs && final(read).rest() == rest
                    && forall|i: int| 0 <= i < r->Ok_0@.len() ==> #[trigger] r->Ok_0@[i].wf(),
                Err(e) => r == Err::<Vec<Self>, ReadError>(e),
            },
    {
        let ghost pre = read.rest();
        let n = read_u2(read)?;
        let ghost start = read.rest();
        let mut methods: Vec<Self> = Vec::new();
        assert(methods_model(methods@) =~= Seq::empty());
        let mut i: u16 = 0;
        while i < n
            invariant
                i <= n,
                pre == old(read).rest(),
                parse_methods(pre, constants@) == methods_from(start, n as int, constants@, Seq::empty()),
                methods_from(start, n as int, constants@, Seq::empty())
                    == methods_from(read.rest(), n - i, constants@, methods_model(methods@)),
                forall|j: int| 0 <= j < methods@.len() ==> #[trigger] methods@[j].wf(),
            decreases n - i,
        {
            let f = Self::read_one(read, constants)?;
            proof { assert(methods_model(methods@.push(f)) =~= methods_model(methods@).push(f@)); }
            methods.push(f);
            i = i + 1;
        }
        Ok(methods)
    }
}

// ---------------------------------------------------------------------------------------------
// Classes

/// Whether `s` begins with the class file magic `0xCAFEBABE`.
pub open spec fn has_magic(s: Seq<u8>) -> bool {
    s.len() >= 4 && s[0] == 0xCA && s[1] == 0xFE && s[2] == 0xBA && s[3] == 0xBE
}

/// The magic, minor and major version at the front of `s`, and the bytes after them.
pub open spec fn parse_header(s: Seq<u8>) -> Result<(u16, u16, Seq<u8>), ReadError> {
    if s.len() < 4 {
        Err(ReadError::UnexpectedEof)
    } else if !has_magic(s) {
        Err(ReadError::InvalidMagic)
    } else {
        match u2_at(s.skip(4)) {
            Ok((minor, s1)) => match u2_at(s1) {
                Ok((major, s2)) => Ok((minor, major, s2)),
                Err(e) => Err(e),
            },
            Err(e) => Err(e),
        }
    }
}

/// [Java SE 7 &sect; 4.1](https://docs.oracle.com/javase/specs/jvms/se7/html/jvms-4.html#jvms-4.1):  The first few fields of a given ClassFile.
#[derive(Clone, Copy, Debug)]
pub struct Header {
    pub magic: [u8; 4],
    pub minor_version: u16,
    pub major_version: Major,
}

impl Header {
    /// Reads the magic and the version; fails on a magic other than `0xCAFEBABE`.
    pub fn read(reader: &mut ByteReader) -> (r: Result<Header, ReadError>)
        ensures
            match parse_header(old(reader).rest()) {
                Ok((minor, major, rest)) => r is Ok && r->Ok_0.minor_version == minor
                    && r->Ok_0.major_version.0 == major && r->Ok_0.magic@ == seq![0xCAu8, 0xFE, 0xBA, 0xBE]
                    && final(reader).rest() == rest,
                Err(e) => r == Err::<Header, ReadError>(e),
            },
    {
        let ghost pre = reader.rest();
        let magic = reader.read_bytes(4)?;
        if !(magic[0] == 0xCA && magic[1] == 0xFE && magic[2] == 0xBA && magic[3] == 0xBE) {
            return Err(ReadError::InvalidMagic);
        }
        let minor_version = read_u2(reader)?;
        let major_version = Major(read_u2(reader)?);
        let h = Header { magic: [0xCA, 0xFE, 0xBA, 0xBE], minor_version, major_version };
        assert(h.magic@ =~= seq![0xCAu8, 0xFE, 0xBA, 0xBE]);
        Ok(h)
    }
}

/// A class as read.
pub struct ClassModel {
    pub flags: u16,
    pub path: Seq<char>,
    pub super_path: Option<Seq<char>>,
    pub interfaces: Seq<Seq<char>>,
    pub fields: Seq<FieldModel>,
    pub methods: Seq<MethodModel>,
    pub deprecated: bool,
}

/// `n` interface indices, each resolved to a class name, after those in `acc`.
pub open spec fn interfaces_from(s: Seq<u8>, n: int, m: Seq<ConstantModel>, acc: Seq<Seq<char>>) -> Result<(Seq<Seq<char>>, Seq<u8>), ReadError>
    decreases n,
{
    if n <= 0 {
        Ok((acc, s))
    } else {
        match u2_at(s) {
            Ok((i, rest)) => match class_at(m, i) {
                Ok(name) => interfaces_from(rest, n - 1, m, acc.push(name)),
                Err(e) => Err(e),
            },
            Err(e) => Err(e),
        }
    }
}

/// The fields, methods and attributes of a class, after its names.
pub open spec fn parse_class_members(
    s: Seq<u8>,
    m: Seq<ConstantModel>,
    flags: u16,
    path: Seq<char>,
    super_path: Option<Seq<char>>,
    interfaces: Seq<Seq<char>>,
) -> Result<(ClassModel, Seq<u8>), ReadError> {
    match parse_fields(s, m) {
        Ok((fields, s1)) => match parse_methods(s1, m) {
            Ok((methods, s2)) => match u2_at(s2) {
                Ok((n, s3)) => match deprecating_attributes(s3, n as int, m, false) {
                    Ok((deprecated, s4)) => Ok((ClassModel { flags, path, super_path, interfaces, fields, methods, deprecated }, s4)),
                    Err(e) => Err(e),
                },
                Err(e) => Err(e),
            },
            Err(e) => Err(e),
        },
        Err(e) => Err(e),
    }
}

/// A class after its constant pool `m`: access flags, this and super class, interfaces, members.
pub open spec fn parse_class_body(s: Seq<u8>, m: Seq<ConstantModel>) -> Result<(ClassModel, Seq<u8>), ReadError> {
    match u2_at(s) {
        Ok((flags, s1)) => match u2_at(s1) {
            Ok((ti, s2)) => match class_at(m, ti) {
                Ok(path) => match u2_at(s2) {
                    Ok((si, s3)) => match optional_class_at(m, si) {
                        Ok(super_path) => match u2_at(s3) {
                            Ok((n, s4)) => match interfaces_from(s4, n as int, m, Seq::empty()) {
                                Ok((interfaces, s5)) => parse_class_members(
                                    s5, m, flags & ClassAccessFlags::known_bits(), path, super_path, interfaces),
                                Err(e) => Err(e),
                            },
                            Err(e) => Err(e),
                        },
                        Err(e) => Err(e),
                    },
                    Err(e) => Err(e),
                },
                Err(e) => Err(e),
            },
            Err(e) => Err(e),
        },
        Err(e) => Err(e),
    }
}

/// A class file at the front of `s`: header, constant pool, then the class.
pub open spec fn parse_class(s: Seq<u8>) -> Result<(ClassModel, Seq<u8>), ReadError> {
    match parse_header(s) {
        Ok((_, _, s1)) => match parse_constants(s1) {
            Ok((m, s2)) => parse_class_body(s2, m),
            Err(e) => Err(e),
        },
        Err(e) => Err(e),
    }
}

/// The models of a list of strings.
pub open spec fn strings_model(v: Seq<String>) -> Seq<Seq<char>> {
    v.map_values(|s: String| s@)
}

/// [Java SE 7 &sect; 4.1](https://docs.oracle.com/javase/specs/jvms/se7/html/jvms-4.html#jvms-4.1):  a class, with its
/// names resolved through its constant pool.
#[derive(Clone, Debug)]
pub struct Class {
    pub flags: ClassAccessFlags,
    pub path: String,
    pub super_path: Option<String>,
    pub interfaces: Vec<String>,
    pub fields: Vec<Field>,
    pub methods: Vec<Method>,
    pub deprecated: bool,
}

impl View for Class {
    type V = ClassModel;

    open spec fn view(&self) -> ClassModel {
        ClassModel {
            flags: self.flags.bits_spec(),
            path: self.path@,
            super_path: match self.super_path {
                Some(s) => Some(s@),
                None => None,
            },
            interfaces: strings_model(self.interfaces@),
            fields: fields_model(self.fields@),
            methods: methods_model(self.methods@),
            deprecated: self.deprecated,
        }
    }
}

impl Class {
    /// Every field and method descriptor is well formed.
    pub open spec fn wf(&self) -> bool {
        &&& forall|i: int| 0 <= i < self.fields@.len() ==> #[trigger] self.fields@[i].wf()
        &&& forall|i: int| 0 <= i < self.methods@.len() ==> #[trigger] self.methods@[i].wf()
    }

    /// [Java SE 7 &sect; 4](https://docs.oracle.com/javase/specs/jvms/se7/html/jvms-4.html):  Read a class File.
    pub fn read(read: &mut ByteReader) -> (r: Result<Self, ReadError>)
        ensures
            match parse_class(old(read).rest()) {
                Ok((c, rest)) => r is Ok && r->Ok_0@ == c && r->Ok_0.wf() && final(read).rest() == rest,
                Err(e) => r == Err::<Self, ReadError>(e),
            },
    {
        let ghost pre = read.rest();
        let _header = Header::read(read)?;
        let ghost s1 = read.rest();
        let constants = Constants::read(read)?;
        let ghost s2 = read.rest();
        assert(parse_class(pre) == parse_class_body(s2, constants@));
        let flags = ClassAccessFlags::read(read)?;
        let path = constants.get_class(read_u2(read)?)?.to_owned();
        let super_path = match constants.get_optional_class(read_u2(read)?)? {
            Some(s) => Some(s.to_owned()),
            None => None,
        };

        let interfaces_count = read_u2(read)?;
        let ghost s4 = read.rest();
        let ghost sup = match &super_path { Some(s) => Some(s@), None => None::<Seq<char>> };
        assert(parse_class(pre) == match interfaces_from(s4, interfaces_count as int, constants@, Seq::empty()) {
            Ok((interfaces, s5)) => parse_class_members(s5, constants@, flags.bits_spec(), path@, sup, interfaces),
            Err(e) => Err(e),
        });
        let mut interfaces: Vec<String> = Vec::new();
        assert(strings_model(interfaces@) =~= Seq::empty());
        let mut i: u16 = 0;
        while i < interfaces_count
            invariant
                i <= interfaces_count,
                pre == old(read).rest(),
                parse_class(pre) == match interfaces_from(s4, interfaces_count as int, constants@, Seq::empty()) {
                    Ok((interfaces, s5)) => parse_class_members(s5, constants@, flags.bits_spec(), path@, sup, interfaces),
                    Err(e) => Err(e),
                },
                interfaces_from(s4, interfaces_count as int, constants@, Seq::empty())
                    == interfaces_from(read.rest(), interfaces_count - i, constants@, strings_model(interfaces@)),
            decreases interfaces_count - i,
        {
            let name = constants.get_class(read_u2(read)?)?.to_owned();
            proof { assert(strings_model(interfaces@.push(name)) =~= strings_model(interfaces@).push(name@)); }
            interfaces.push(name);
            i = i + 1;
        }

        let fields = Field::read_list(read, &constants)?;
        let methods = Method::read_list(read, &constants)?;

        let attributes_count = read_u2(read)?;
        let ghost start = read.rest();
        let ghost head = (flags.bits_spec(), path@, sup, strings_model(interfaces@), fields_model(fields@), methods_model(methods@));
        assert(parse_class(pre) == match deprecating_attributes(start, attributes_count as int, constants@, false) {
            Ok((deprecated, rest)) => Ok((ClassModel {
                flags: head.0, path: head.1, super_path: head.2, interfaces: head.3, fields: head.4, methods: head.5, deprecated,
            }, rest)),
            Err(e) => Err(e),
        });
        let mut deprecated = false;
        let mut j: u16 = 0;
        while j < attributes_count
            invariant
                j <= attributes_count,
                pre == old(read).rest(),
                parse_class(pre) == match deprecating_attributes(start, attributes_count as int, constants@, false) {
                    Ok((deprecated, rest)) => Ok((ClassModel {
                        flags: head.0, path: head.1, super_path: head.2, interfaces: head.3, fields: head.4, methods: head.5, deprecated,
                    }, rest)),
                    Err(e) => Err(e),
                },
                deprecating_attributes(start, attributes_count as int, constants@, false)
                    == deprecating_attributes(read.rest(), attributes_count - j, constants@, deprecated),
            decreases attributes_count - j,
        {
            match Attribute::read(read, &constants)? {
                Attribute::Deprecated => { deprecated = true; },
                _ => {},
            }
            j = j + 1;
        }

        Ok(Self { flags, path, super_path, interfaces, fields, methods, deprecated })
    }

    pub fn is_public(&self) -> (b: bool) ensures b == (self@.flags & ClassAccessFlags::PUBLIC == ClassAccessFlags::PUBLIC) { self.flags.contains(ClassAccessFlags::PUBLIC) }
    pub fn is_static(&self) -> (b: bool) ensures b == (self@.flags & ClassAccessFlags::STATIC == ClassAccessFlags::STATIC) { self.flags.contains(ClassAccessFlags::STATIC) }
    pub fn is_final(&self) -> (b: bool) ensures b == (self@.flags & ClassAccessFlags::FINAL == ClassAccessFlags::FINAL) { self.flags.contains(ClassAccessFlags::FINAL) }
    pub fn is_super(&self) -> (b: bool) ensures b == (self@.flags & ClassAccessFlags::SUPER == ClassAccessFlags::SUPER) { self.flags.contains(ClassAccessFlags::SUPER) }
    pub fn is_interface(&self) -> (b: bool) ensures b == (self@.flags & ClassAccessFlags::INTERFACE == ClassAccessFlags::INTERFACE) { self.flags.contains(ClassAccessFlags::INTERFACE) }
    pub fn is_abstract(&self) -> (b: bool) ensures b == (self@.flags & ClassAccessFlags::ABSTRACT == ClassAccessFlags::ABSTRACT) { self.flags.contains(ClassAccessFlags::ABSTRACT) }
    pub fn is_synthetic(&self) -> (b: bool) ensures b == (self@.flags & ClassAccessFlags::SYNTHETIC == ClassAccessFlags::SYNTHETIC) { self.flags.contains(ClassAccessFlags::SYNTHETIC) }
    pub fn is_annotation(&self) -> (b: bool) ensures b == (self@.flags & ClassAccessFlags::ANNOTATION == ClassAccessFlags::ANNOTATION) { self.flags.contains(ClassAccessFlags::ANNOTATION) }
    pub fn is_enum(&self) -> (b: bool) ensures b == (self@.flags & ClassAccessFlags::ENUM == ClassAccessFlags::ENUM) { self.flags.contains(ClassAccessFlags::ENUM) }
}

} // verus!
