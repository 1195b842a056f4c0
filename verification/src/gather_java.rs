//! A class's constant pool as the visitor reads it, looked up by index, and the attributes
//! whose names it knows.

use vstd::prelude::*;
use crate::class_file_visitor::constant::{
    pool_model, Class, Constant, ConstantModel, Fieldref, InterfaceMethodref, Methodref, NameAndType,
};
use crate::access_flags::FieldAccessFlags;
use crate::class_file_visitor::attribute::Attribute;
use crate::class_file_visitor::field::Field;
use crate::io_ext::be_u16;
use crate::text::{chars_of, chars_eq};

verus! {

/// The constants of a class, by index; index 0 is unused.
#[derive(Clone, Debug)]
pub struct ClassConstants(pub Vec<Constant>);

impl View for ClassConstants {
    type V = Seq<ConstantModel>;

    open spec fn view(&self) -> Seq<ConstantModel> {
        pool_model(self.0@)
    }
}

/// The text of the `CONSTANT_Utf8` at `index`, if that is one.
pub open spec fn try_utf8_at(m: Seq<ConstantModel>, index: u16) -> Option<Seq<char>> {
    if index == 0 || index >= m.len() {
        None
    } else {
        match m[index as int] {
            ConstantModel::Utf8(s) => Some(s),
            _ => None,
        }
    }
}

impl ClassConstants {
    /// Whether `index` is a slot other than 0.
    pub open spec fn in_range(&self, index: u16) -> bool {
        0 < index < self@.len()
    }

    /// The `CONSTANT_Class` at `index`; there must be one there.
    pub fn class(&self, index: u16) -> (c: &Class)
        requires
            self.in_range(index),
            self@[index as int] is Class,
        ensures
            self@[index as int] == (ConstantModel::Class { name_index: c.name_index }),
    {
        match &self.0[index as usize] {
            Constant::Class(c) => c,
            _ => vstd::pervasive::unreached(),
        }
    }

    /// The `CONSTANT_Fieldref` at `index`; there must be one there.
    pub fn field(&self, index: u16) -> (c: &Fieldref)
        requires
            self.in_range(index),
            self@[index as int] is Fieldref,
        ensures
            self@[index as int] == (ConstantModel::Fieldref { class_index: c.class_index, name_and_type_index: c.name_and_type_index }),
    {
        match &self.0[index as usize] {
            Constant::Fieldref(c) => c,
            _ => vstd::pervasive::unreached(),
        }
    }

    /// The `CONSTANT_Methodref` at `index`; there must be one there.
    pub fn method(&self, index: u16) -> (c: &Methodref)
        requires
            self.in_range(index),
            self@[index as int] is Methodref,
        ensures
            self@[index as int] == (ConstantModel::Methodref { class_index: c.class_index, name_and_type_index: c.name_and_type_index }),
    {
        match &self.0[index as usize] {
            Constant::Methodref(c) => c,
            _ => vstd::pervasive::unreached(),
        }
    }

    /// The `CONSTANT_InterfaceMethodref` at `index`; there must be one there.
    pub fn interface_method(&self, index: u16) -> (c: &InterfaceMethodref)
        requires
            self.in_range(index),
            self@[index as int] is InterfaceMethodref,
        ensures
            self@[index as int] == (ConstantModel::InterfaceMethodref { class_index: c.class_index, name_and_type_index: c.name_and_type_index }),
    {
        match &self.0[index as usize] {
            Constant::InterfaceMethodref(c) => c,
            _ => vstd::pervasive::unreached(),
        }
    }

    /// The `CONSTANT_NameAndType` at `index`; there must be one there.
    pub fn name_and_type(&self, index: u16) -> (c: &NameAndType)
        requires
            self.in_range(index),
            self@[index as int] is NameAndType,
        ensures
            self@[index as int] == (ConstantModel::NameAndType { name_index: c.name_index, descriptor_index: c.descriptor_index }),
    {
        match &self.0[index as usize] {
            Constant::NameAndType(c) => c,
            _ => vstd::pervasive::unreached(),
        }
    }

    /// The text of the `CONSTANT_Utf8` at `index`; there must be one there.
    pub fn utf8(&self, index: u16) -> (s: &String)
        requires
            self.in_range(index),
            self@[index as int] is Utf8,
        ensures
            self@[index as int] == ConstantModel::Utf8(s@),
    {
        match &self.0[index as usize] {
            Constant::Utf8(c) => &c.0,
            _ => vstd::pervasive::unreached(),
        }
    }

    /// The text of the `CONSTANT_Utf8` at `index`, if there is one there.
    pub fn try_utf8(&self, index: u16) -> (s: Option<&String>)
        ensures
            match try_utf8_at(self@, index) {
                Some(t) => s is Some && s->Some_0@ == t,
                None => s is None,
            },
    {
        let i = index as usize;
        if i == 0 || i >= self.0.len() {
            return None;
        }
        match &self.0[i] {
            Constant::Utf8(c) => Some(&c.0),
            _ => None,
        }
    }
}



/// A field of a class, read with the class's constants, which name it.
#[derive(Clone, Copy)]
pub struct FieldRef<'a> {
    pub constants: &'a ClassConstants,
    pub field: &'a Field,
}

impl<'a> FieldRef<'a> {
    /// The field's access flags.
    pub fn access_flags(&self) -> (f: FieldAccessFlags)
        ensures
            f == self.field.access_flags,
    {
        self.field.access_flags
    }

    /// The field's name; its index must hold a `CONSTANT_Utf8`.
    pub fn name(&self) -> (s: &'a String)
        requires
            self.constants.in_range(self.field.name_index),
            self.constants@[self.field.name_index as int] is Utf8,
        ensures
            self.constants@[self.field.name_index as int] == ConstantModel::Utf8(s@),
    {
        self.constants.utf8(self.field.name_index)
    }

    /// The field's descriptor; its index must hold a `CONSTANT_Utf8`.
    pub fn descriptor(&self) -> (s: &'a String)
        requires
            self.constants.in_range(self.field.descriptor_index),
            self.constants@[self.field.descriptor_index as int] is Utf8,
        ensures
            self.constants@[self.field.descriptor_index as int] == ConstantModel::Utf8(s@),
    {
        self.constants.utf8(self.field.descriptor_index)
    }
}

/// An attribute whose name this library knows, with a `ConstantValue` resolved.
#[allow(non_camel_case_types)]
#[derive(Clone, Debug)]
pub enum KnownAttribute<'a> {
    /// https://docs.oracle.com/javase/specs/jvms/se7/html/jvms-4.html#jvms-4.7.2
    ConstantValue_Long(i64),
    /// https://docs.oracle.com/javase/specs/jvms/se7/html/jvms-4.html#jvms-4.7.2 (the IEEE 754 bit pattern)
    ConstantValue_Float(u32),
    /// https://docs.oracle.com/javase/specs/jvms/se7/html/jvms-4.html#jvms-4.7.2 (the IEEE 754 bit pattern)
    ConstantValue_Double(u64),
    /// https://docs.oracle.com/javase/specs/jvms/se7/html/jvms-4.html#jvms-4.7.2
    ConstantValue_Integer(i32),
    /// https://docs.oracle.com/javase/specs/jvms/se7/html/jvms-4.html#jvms-4.7.2
    ConstantValue_String(&'a String),
    /// https://docs.oracle.com/javase/specs/jvms/se7/html/jvms-4.html#jvms-4.7.3
    Code,
    /// https://docs.oracle.com/javase/specs/jvms/se7/html/jvms-4.html#jvms-4.7.4
    StackMapTable,
    /// https://docs.oracle.com/javase/specs/jvms/se7/html/jvms-4.html#jvms-4.7.5
    Exceptions,
    /// https://docs.oracle.com/javase/specs/jvms/se7/html/jvms-4.html#jvms-4.7.6
    InnerClasses,
    /// https://docs.oracle.com/javase/specs/jvms/se7/html/jvms-4.html#jvms-4.7.7
    EnclosingMethod,
    /// https://docs.oracle.com/javase/specs/jvms/se7/html/jvms-4.html#jvms-4.7.8
    Synthetic,
    /// https://docs.oracle.com/javase/specs/jvms/se7/html/jvms-4.html#jvms-4.7.9
    Signature,
    /// https://docs.oracle.com/javase/specs/jvms/se7/html/jvms-4.html#jvms-4.7.10
    SourceFile,
    /// https://docs.oracle.com/javase/specs/jvms/se7/html/jvms-4.html#jvms-4.7.11
    SourceDebugExtension,
    /// https://docs.oracle.com/javase/specs/jvms/se7/html/jvms-4.html#jvms-4.7.12
    LineNumberTable,
    /// https://docs.oracle.com/javase/specs/jvms/se7/html/jvms-4.html#jvms-4.7.13
    LocalVariableTable,
    /// https://docs.oracle.com/javase/specs/jvms/se7/html/jvms-4.html#jvms-4.7.14
    LocalVariableTypeTable,
    /// https://docs.oracle.com/javase/specs/jvms/se7/html/jvms-4.html#jvms-4.7.15
    Deprecated,
    /// https://docs.oracle.com/javase/specs/jvms/se7/html/jvms-4.html#jvms-4.7.16
    RuntimeVisibleAnnotations,
    /// https://docs.oracle.com/javase/specs/jvms/se7/html/jvms-4.html#jvms-4.7.17
    RuntimeInvisibleAnnotations,
    /// https://docs.oracle.com/javase/specs/jvms/se7/html/jvms-4.html#jvms-4.7.18
    RuntimeVisibleParameterAnnotations,
    /// https://docs.oracle.com/javase/specs/jvms/se7/html/jvms-4.html#jvms-4.7.19
    RuntimeInvisibleParameterAnnotations,
    /// https://docs.oracle.com/javase/specs/jvms/se7/html/jvms-4.html#jvms-4.7.20
    AnnotationDefault,
    /// https://docs.oracle.com/javase/specs/jvms/se7/html/jvms-4.html#jvms-4.7.21
    BootstrapMethods,
}

/// A known attribute with its text taken as characters.
#[allow(non_camel_case_types)]
pub enum KnownAttributeModel {
    ConstantValue_Long(i64),
    ConstantValue_Float(u32),
    ConstantValue_Double(u64),
    ConstantValue_Integer(i32),
    ConstantValue_String(Seq<char>),
    Code,
    StackMapTable,
    Exceptions,
    InnerClasses,
    EnclosingMethod,
    Synthetic,
    Signature,
    SourceFile,
    SourceDebugExtension,
    LineNumberTable,
    LocalVariableTable,
    LocalVariableTypeTable,
    Deprecated,
    RuntimeVisibleAnnotations,
    RuntimeInvisibleAnnotations,
    RuntimeVisibleParameterAnnotations,
    RuntimeInvisibleParameterAnnotations,
    AnnotationDefault,
    BootstrapMethods,
}

impl<'a> View for KnownAttribute<'a> {
    type V = KnownAttributeModel;

    open spec fn view(&self) -> KnownAttributeModel {
        match *self {
            KnownAttribute::ConstantValue_Long(v) => KnownAttributeModel::ConstantValue_Long(v),
            KnownAttribute::ConstantValue_Float(v) => KnownAttributeModel::ConstantValue_Float(v),
            KnownAttribute::ConstantValue_Double(v) => KnownAttributeModel::ConstantValue_Double(v),
            KnownAttribute::ConstantValue_Integer(v) => KnownAttributeModel::ConstantValue_Integer(v),
            KnownAttribute::ConstantValue_String(s) => KnownAttributeModel::ConstantValue_String(s@),
            KnownAttribute::Code => KnownAttributeModel::Code,
            KnownAttribute::StackMapTable => KnownAttributeModel::StackMapTable,
            KnownAttribute::Exceptions => KnownAttributeModel::Exceptions,
            KnownAttribute::InnerClasses => KnownAttributeModel::InnerClasses,
            KnownAttribute::EnclosingMethod => KnownAttributeModel::EnclosingMethod,
            KnownAttribute::Synthetic => KnownAttributeModel::Synthetic,
            KnownAttribute::Signature => KnownAttributeModel::Signature,
            KnownAttribute::SourceFile => KnownAttributeModel::SourceFile,
            KnownAttribute::SourceDebugExtension => KnownAttributeModel::SourceDebugExtension,
            KnownAttribute::LineNumberTable => KnownAttributeModel::LineNumberTable,
            KnownAttribute::LocalVariableTable => KnownAttributeModel::LocalVariableTable,
            KnownAttribute::LocalVariableTypeTable => KnownAttributeModel::LocalVariableTypeTable,
            KnownAttribute::Deprecated => KnownAttributeModel::Deprecated,
            KnownAttribute::RuntimeVisibleAnnotations => KnownAttributeModel::RuntimeVisibleAnnotations,
            KnownAttribute::RuntimeInvisibleAnnotations => KnownAttributeModel::RuntimeInvisibleAnnotations,
            KnownAttribute::RuntimeVisibleParameterAnnotations => KnownAttributeModel::RuntimeVisibleParameterAnnotations,
            KnownAttribute::RuntimeInvisibleParameterAnnotations => KnownAttributeModel::RuntimeInvisibleParameterAnnotations,
            KnownAttribute::AnnotationDefault => KnownAttributeModel::AnnotationDefault,
            KnownAttribute::BootstrapMethods => KnownAttributeModel::BootstrapMethods,
        }
    }
}

/// The known attribute an attribute name stands for, other than `ConstantValue`.
pub open spec fn known_named(name: Seq<char>) -> Option<KnownAttributeModel> {
    if name == "Code"@ {
        Some(KnownAttributeModel::Code)
    } else if name == "StackMapTable"@ {
        Some(KnownAttributeModel::StackMapTable)
    } else if name == "Exceptions"@ {
        Some(KnownAttributeModel::Exceptions)
    } else if name == "InnerClasses"@ {
        Some(KnownAttributeModel::InnerClasses)
    } else if name == "EnclosingMethod"@ {
        Some(KnownAttributeModel::EnclosingMethod)
    } else if name == "Synthetic"@ {
        Some(KnownAttributeModel::Synthetic)
    } else if name == "Signature"@ {
        Some(KnownAttributeModel::Signature)
    } else if name == "SourceFile"@ {
        Some(KnownAttributeModel::SourceFile)
    } else if name == "SourceDebugExtension"@ {
        Some(KnownAttributeModel::SourceDebugExtension)
    } else if name == "LineNumberTable"@ {
        Some(KnownAttributeModel::LineNumberTable)
    } else if name == "LocalVariableTable"@ {
        Some(KnownAttributeModel::LocalVariableTable)
    } else if name == "LocalVariableTypeTable"@ {
        Some(KnownAttributeModel::LocalVariableTypeTable)
    } else if name == "Deprecated"@ {
        Some(KnownAttributeModel::Deprecated)
    } else if name == "RuntimeVisibleAnnotations"@ {
        Some(KnownAttributeModel::RuntimeVisibleAnnotations)
    } else if name == "RuntimeInvisibleAnnotations"@ {
        Some(KnownAttributeModel::RuntimeInvisibleAnnotations)
    } else if name == "RuntimeVisibleParameterAnnotations"@ {
        Some(KnownAttributeModel::RuntimeVisibleParameterAnnotations)
    } else if name == "RuntimeInvisibleParameterAnnotations"@ {
        Some(KnownAttributeModel::RuntimeInvisibleParameterAnnotations)
    } else if name == "AnnotationDefault"@ {
        Some(KnownAttributeModel::AnnotationDefault)
    } else if name == "BootstrapMethods"@ {
        Some(KnownAttributeModel::BootstrapMethods)
    } else {
        None
    }
}

/// What a `ConstantValue` attribute holds: a 2 byte index (its length must say 2 as well) of a
/// `Long`, `Float`, `Double`, `Integer` or `String` constant, the last resolved to its text.
pub open spec fn constant_value_of(m: Seq<ConstantModel>, length: u32, info: Seq<u8>) -> Option<KnownAttributeModel> {
    if length != 2 || info.len() != 2 || be_u16(info) >= m.len() {
        None
    } else {
        match m[be_u16(info) as int] {
            ConstantModel::Long(v) => Some(KnownAttributeModel::ConstantValue_Long(v)),
            ConstantModel::Float(v) => Some(KnownAttributeModel::ConstantValue_Float(v)),
            ConstantModel::Double(v) => Some(KnownAttributeModel::ConstantValue_Double(v)),
            ConstantModel::Integer(v) => Some(KnownAttributeModel::ConstantValue_Integer(v)),
            ConstantModel::String { string_index } => match try_utf8_at(m, string_index) {
                Some(s) => Some(KnownAttributeModel::ConstantValue_String(s)),
                None => None,
            },
            _ => None,
        }
    }
}

/// The known attribute an attribute is, if its name is a `CONSTANT_Utf8` this library knows.
pub open spec fn known_attribute(m: Seq<ConstantModel>, name_index: u16, length: u32, info: Seq<u8>) -> Option<KnownAttributeModel> {
    match try_utf8_at(m, name_index) {
        None => None,
        Some(name) => if name == "ConstantValue"@ {
            constant_value_of(m, length, info)
        } else {
            known_named(name)
        },
    }
}

/// Whether `v` holds exactly the characters of `lit`.
fn is_literal(v: &Vec<char>, lit: &str) -> (r: bool)
    ensures
        r == (v@ == lit@),
{
    let l = chars_of(lit);
    chars_eq(v.as_slice(), l.as_slice())
}

impl<'a> KnownAttribute<'a> {
    /// The known attribute an attribute is (see `known_attribute`); `Err` for an unknown name, a
    /// name that is no `CONSTANT_Utf8`, or a malformed `ConstantValue`.
    pub fn from(constants: &'a ClassConstants, attribute: &Attribute) -> (r: Result<Self, ()>)
        ensures
            match known_attribute(constants@, attribute.attribute_name_index, attribute.attribute_length, attribute.info@) {
                Some(k) => r is Ok && r->Ok_0@ == k,
                None => r is Err,
            },
    {
        let name = match constants.try_utf8(attribute.attribute_name_index) {
            Some(n) => n,
            None => { return Err(()); },
        };
        let v = chars_of(name.as_str());
        if is_literal(&v, "ConstantValue") {
            if attribute.attribute_length != 2 || attribute.info.len() != 2 {
                return Err(());
            }
            let index = attribute.info[0] as u16 * 0x100 + attribute.info[1] as u16;
            assert(index == be_u16(attribute.info@));
            if index as usize >= constants.0.len() {
                return Err(());
            }
            match &constants.0[index as usize] {
                Constant::Long(c) => Ok(KnownAttribute::ConstantValue_Long(c.0)),
                Constant::Float(c) => Ok(KnownAttribute::ConstantValue_Float(c.0)),
                Constant::Double(c) => Ok(KnownAttribute::ConstantValue_Double(c.0)),
                Constant::Integer(c) => Ok(KnownAttribute::ConstantValue_Integer(c.0)),
                Constant::String(c) => match constants.try_utf8(c.string_index) {
                    Some(s) => Ok(KnownAttribute::ConstantValue_String(s)),
                    None => Err(()),
                },
                _ => Err(()),
            }
        } else if is_literal(&v, "Code") {
            Ok(KnownAttribute::Code)
        } else if is_literal(&v, "StackMapTable") {
            Ok(KnownAttribute::StackMapTable)
        } else if is_literal(&v, "Exceptions") {
            Ok(KnownAttribute::Exceptions)
        } else if is_literal(&v, "InnerClasses") {
            Ok(KnownAttribute::InnerClasses)
        } else if is_literal(&v, "EnclosingMethod") {
            Ok(KnownAttribute::EnclosingMethod)
        } else if is_literal(&v, "Synthetic") {
            Ok(KnownAttribute::Synthetic)
        } else if is_literal(&v, "Signature") {
            Ok(KnownAttribute::Signature)
        } else if is_literal(&v, "SourceFile") {
            Ok(KnownAttribute::SourceFile)
        } else if is_literal(&v, "SourceDebugExtension") {
            Ok(KnownAttribute::SourceDebugExtension)
        } else if is_literal(&v, "LineNumberTable") {
            Ok(KnownAttribute::LineNumberTable)
        } else if is_literal(&v, "LocalVariableTable") {
            Ok(KnownAttribute::LocalVariableTable)
        } else if is_literal(&v, "LocalVariableTypeTable") {
            Ok(KnownAttribute::LocalVariableTypeTable)
        } else if is_literal(&v, "Deprecated") {
            Ok(KnownAttribute::Deprecated)
        } else if is_literal(&v, "RuntimeVisibleAnnotations") {
            Ok(KnownAttribute::RuntimeVisibleAnnotations)
        } else if is_literal(&v, "RuntimeInvisibleAnnotations") {
            Ok(KnownAttribute::RuntimeInvisibleAnnotations)
        } else if is_literal(&v, "RuntimeVisibleParameterAnnotations") {
            Ok(KnownAttribute::RuntimeVisibleParameterAnnotations)
        } else if is_literal(&v, "RuntimeInvisibleParameterAnnotations") {
            Ok(KnownAttribute::RuntimeInvisibleParameterAnnotations)
        } else if is_literal(&v, "AnnotationDefault") {
            Ok(KnownAttribute::AnnotationDefault)
        } else if is_literal(&v, "BootstrapMethods") {
            Ok(KnownAttribute::BootstrapMethods)
        } else {
            Err(())
        }
    }
}

} // verus!
