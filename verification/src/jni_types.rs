//! What Java's primitive types hold and what each name given to them stands for: the base-type
//! characters of descriptors, the Java keywords, and the Rust types they are passed as through
//! JNI.  The laws at the end tie the descriptor parser, the generated Rust types, the JNI calls
//! and the mangled names to these meanings.

use vstd::prelude::*;
use crate::descriptor::{basic_type_of, parse_descriptor_from, parse_single_descriptor, BasicTypeModel, DescriptorModel};
use crate::emit_rust::class_macro::{jni_arg_type, jni_call_kind, jni_ret_type};
use crate::emit_rust::fields::field_types;
use crate::emit_rust::methods::{arg_type, ret_fragment, ret_type};
use crate::method_mangling::primitive_suffix;
use crate::text::{ascii_lower, find_char};

verus! {

/// The kind of value a primitive type holds.
#[derive(PartialEq, Eq, Structural)]
pub enum ValueKind {
    /// `true` or `false`.
    Truth,
    /// A two's complement integer.
    SignedInteger,
    /// An unsigned UTF-16 code unit.
    CodeUnit,
    /// An IEEE 754 binary floating-point number.
    FloatingPoint,
}

/// The values of a Java primitive type (JVMS §2.3): their kind and width in bits.  `void` and
/// classes hold none.
pub open spec fn java_values(b: BasicTypeModel) -> Option<(ValueKind, nat)> {
    match b {
        BasicTypeModel::Boolean => Some((ValueKind::Truth, 1)),
        BasicTypeModel::Byte => Some((ValueKind::SignedInteger, 8)),
        BasicTypeModel::Short => Some((ValueKind::SignedInteger, 16)),
        BasicTypeModel::Int => Some((ValueKind::SignedInteger, 32)),
        BasicTypeModel::Long => Some((ValueKind::SignedInteger, 64)),
        BasicTypeModel::Char => Some((ValueKind::CodeUnit, 16)),
        BasicTypeModel::Float => Some((ValueKind::FloatingPoint, 32)),
        BasicTypeModel::Double => Some((ValueKind::FloatingPoint, 64)),
        _ => None,
    }
}

/// The values of the Rust type named `t`: `bool`, the signed integers, the floats, and JNI's
/// `jchar` (a `u16` code unit) as either generated crate names it.
pub open spec fn rust_values(t: Seq<char>) -> Option<(ValueKind, nat)> {
    if t == seq!['b', 'o', 'o', 'l'] {
        Some((ValueKind::Truth, 1))
    } else if t == seq!['i', '8'] {
        Some((ValueKind::SignedInteger, 8))
    } else if t == seq!['i', '1', '6'] {
        Some((ValueKind::SignedInteger, 16))
    } else if t == seq!['i', '3', '2'] {
        Some((ValueKind::SignedInteger, 32))
    } else if t == seq!['i', '6', '4'] {
        Some((ValueKind::SignedInteger, 64))
    } else if t == seq!['_', '_', 'j', 'n', 'i', '_', 'b', 'i', 'n', 'd', 'g', 'e', 'n', ':', ':', 'j', 'c', 'h', 'a', 'r'] || t == seq!['_', '_', 'b', 'i', 'n', 'd', 'g', 'e', 'n', '_', 'j', 'n', 'i', ':', ':', 'j', 'c', 'h', 'a', 'r'] {
        Some((ValueKind::CodeUnit, 16))
    } else if t == seq!['f', '3', '2'] {
        Some((ValueKind::FloatingPoint, 32))
    } else if t == seq!['f', '6', '4'] {
        Some((ValueKind::FloatingPoint, 64))
    } else {
        None
    }
}

/// The type a Java keyword names (JLS §4.2, and `void`).
pub open spec fn java_keyword_type(k: Seq<char>) -> Option<BasicTypeModel> {
    if k == seq!['b', 'o', 'o', 'l', 'e', 'a', 'n'] {
        Some(BasicTypeModel::Boolean)
    } else if k == seq!['b', 'y', 't', 'e'] {
        Some(BasicTypeModel::Byte)
    } else if k == seq!['s', 'h', 'o', 'r', 't'] {
        Some(BasicTypeModel::Short)
    } else if k == seq!['i', 'n', 't'] {
        Some(BasicTypeModel::Int)
    } else if k == seq!['l', 'o', 'n', 'g'] {
        Some(BasicTypeModel::Long)
    } else if k == seq!['c', 'h', 'a', 'r'] {
        Some(BasicTypeModel::Char)
    } else if k == seq!['f', 'l', 'o', 'a', 't'] {
        Some(BasicTypeModel::Float)
    } else if k == seq!['d', 'o', 'u', 'b', 'l', 'e'] {
        Some(BasicTypeModel::Double)
    } else if k == seq!['v', 'o', 'i', 'd'] {
        Some(BasicTypeModel::Void)
    } else {
        None
    }
}

/// The base-type character of a descriptor (JVMS §4.3.2, Table 4.3-A), and `V` for `void`.
pub open spec fn base_type_char(b: BasicTypeModel) -> Option<char> {
    match b {
        BasicTypeModel::Byte => Some('B'),
        BasicTypeModel::Char => Some('C'),
        BasicTypeModel::Double => Some('D'),
        BasicTypeModel::Float => Some('F'),
        BasicTypeModel::Int => Some('I'),
        BasicTypeModel::Long => Some('J'),
        BasicTypeModel::Short => Some('S'),
        BasicTypeModel::Boolean => Some('Z'),
        BasicTypeModel::Void => Some('V'),
        BasicTypeModel::Class(_) => None,
    }
}

/// A word with its first letter lowered (`Double` to `double`).
pub open spec fn lower_first(s: Seq<char>) -> Seq<char> {
    if s.len() == 0 { s } else { s.update(0, ascii_lower(s[0])) }
}

/// The names whose meanings the laws compare.
proof fn lemma_names()
    ensures
        "bool"@ == seq!['b', 'o', 'o', 'l'],
        "i8"@ == seq!['i', '8'],
        "i16"@ == seq!['i', '1', '6'],
        "i32"@ == seq!['i', '3', '2'],
        "i64"@ == seq!['i', '6', '4'],
        "__jni_bindgen::jchar"@ == seq!['_', '_', 'j', 'n', 'i', '_', 'b', 'i', 'n', 'd', 'g', 'e', 'n', ':', ':', 'j', 'c', 'h', 'a', 'r'],
        "__bindgen_jni::jchar"@ == seq!['_', '_', 'b', 'i', 'n', 'd', 'g', 'e', 'n', '_', 'j', 'n', 'i', ':', ':', 'j', 'c', 'h', 'a', 'r'],
        "f32"@ == seq!['f', '3', '2'],
        "f64"@ == seq!['f', '6', '4'],
        "boolean"@ == seq!['b', 'o', 'o', 'l', 'e', 'a', 'n'],
        "byte"@ == seq!['b', 'y', 't', 'e'],
        "short"@ == seq!['s', 'h', 'o', 'r', 't'],
        "int"@ == seq!['i', 'n', 't'],
        "long"@ == seq!['l', 'o', 'n', 'g'],
        "char"@ == seq!['c', 'h', 'a', 'r'],
        "float"@ == seq!['f', 'l', 'o', 'a', 't'],
        "double"@ == seq!['d', 'o', 'u', 'b', 'l', 'e'],
        "void"@ == seq!['v', 'o', 'i', 'd'],
{
    reveal_strlit("bool");
    assert("bool"@ =~= seq!['b', 'o', 'o', 'l']);
    reveal_strlit("i8");
    assert("i8"@ =~= seq!['i', '8']);
    reveal_strlit("i16");
    assert("i16"@ =~= seq!['i', '1', '6']);
    reveal_strlit("i32");
    assert("i32"@ =~= seq!['i', '3', '2']);
    reveal_strlit("i64");
    assert("i64"@ =~= seq!['i', '6', '4']);
    reveal_strlit("__jni_bindgen::jchar");
    assert("__jni_bindgen::jchar"@ =~= seq!['_', '_', 'j', 'n', 'i', '_', 'b', 'i', 'n', 'd', 'g', 'e', 'n', ':', ':', 'j', 'c', 'h', 'a', 'r']);
    reveal_strlit("__bindgen_jni::jchar");
    assert("__bindgen_jni::jchar"@ =~= seq!['_', '_', 'b', 'i', 'n', 'd', 'g', 'e', 'n', '_', 'j', 'n', 'i', ':', ':', 'j', 'c', 'h', 'a', 'r']);
    reveal_strlit("f32");
    assert("f32"@ =~= seq!['f', '3', '2']);
    reveal_strlit("f64");
    assert("f64"@ =~= seq!['f', '6', '4']);
    reveal_strlit("boolean");
    assert("boolean"@ =~= seq!['b', 'o', 'o', 'l', 'e', 'a', 'n']);
    reveal_strlit("byte");
    assert("byte"@ =~= seq!['b', 'y', 't', 'e']);
    reveal_strlit("short");
    assert("short"@ =~= seq!['s', 'h', 'o', 'r', 't']);
    reveal_strlit("int");
    assert("int"@ =~= seq!['i', 'n', 't']);
    reveal_strlit("long");
    assert("long"@ =~= seq!['l', 'o', 'n', 'g']);
    reveal_strlit("char");
    assert("char"@ =~= seq!['c', 'h', 'a', 'r']);
    reveal_strlit("float");
    assert("float"@ =~= seq!['f', 'l', 'o', 'a', 't']);
    reveal_strlit("double");
    assert("double"@ =~= seq!['d', 'o', 'u', 'b', 'l', 'e']);
    reveal_strlit("void");
    assert("void"@ =~= seq!['v', 'o', 'i', 'd']);
}

/// What each Rust name stands for.
proof fn lemma_rust_values()
    ensures
        rust_values("bool"@) == Some((ValueKind::Truth, 1nat)),
        rust_values("i8"@) == Some((ValueKind::SignedInteger, 8nat)),
        rust_values("i16"@) == Some((ValueKind::SignedInteger, 16nat)),
        rust_values("i32"@) == Some((ValueKind::SignedInteger, 32nat)),
        rust_values("i64"@) == Some((ValueKind::SignedInteger, 64nat)),
        rust_values("__jni_bindgen::jchar"@) == Some((ValueKind::CodeUnit, 16nat)),
        rust_values("__bindgen_jni::jchar"@) == Some((ValueKind::CodeUnit, 16nat)),
        rust_values("f32"@) == Some((ValueKind::FloatingPoint, 32nat)),
        rust_values("f64"@) == Some((ValueKind::FloatingPoint, 64nat)),
{
    lemma_names();
}

/// What each Java keyword names.
proof fn lemma_keywords()
    ensures
        java_keyword_type("boolean"@) == Some(BasicTypeModel::Boolean),
        java_keyword_type("byte"@) == Some(BasicTypeModel::Byte),
        java_keyword_type("short"@) == Some(BasicTypeModel::Short),
        java_keyword_type("int"@) == Some(BasicTypeModel::Int),
        java_keyword_type("long"@) == Some(BasicTypeModel::Long),
        java_keyword_type("char"@) == Some(BasicTypeModel::Char),
        java_keyword_type("float"@) == Some(BasicTypeModel::Float),
        java_keyword_type("double"@) == Some(BasicTypeModel::Double),
        java_keyword_type("void"@) == Some(BasicTypeModel::Void),
{
    lemma_names();
}

// ---------------------------------------------------------------------------------------------
// Laws

/// Each base-type character of a descriptor parses to its own type, and a one-character
/// descriptor that parses to a type is that type's base-type character: distinct characters
/// never give the same type.
pub proof fn law_base_type_descriptors(b: BasicTypeModel, c: char)
    ensures
        base_type_char(b) matches Some(k) ==> parse_single_descriptor(seq![k]) == Ok::<DescriptorModel, crate::descriptor::DescriptorError>(DescriptorModel::Single(b)),
        parse_single_descriptor(seq![c]) == Ok::<DescriptorModel, crate::descriptor::DescriptorError>(DescriptorModel::Single(b))
            ==> base_type_char(b) == Some(c),
{
    if let Some(k) = base_type_char(b) {
        let t = seq![k];
        assert(t.len() == 1 && t[0] == k);
        assert(basic_type_of(k) == Some(b));
        assert(parse_descriptor_from(t, 0) == Ok::<(DescriptorModel, int), crate::descriptor::DescriptorError>((DescriptorModel::Single(b), 1)));
    }
    let s = seq![c];
    assert(s.len() == 1 && s[0] == c);
    match basic_type_of(c) {
        Some(b2) => {
            assert(parse_descriptor_from(s, 0) == Ok::<(DescriptorModel, int), crate::descriptor::DescriptorError>((DescriptorModel::Single(b2), 1)));
            assert(base_type_char(b2) == Some(c));
        },
        None => {
            if c == 'L' {
                assert(s.skip(1) =~= Seq::<char>::empty());
                assert(find_char(s.skip(1), ';') is None);
            } else if c == '[' {
                assert(parse_descriptor_from(s, 1) is Err);
            }
            assert(parse_descriptor_from(s, 0) is Err);
        },
    }
}

/// A parameter or a result of a Java primitive type is passed as the Rust type that holds the
/// same values (same kind, same width), in the wrappers of both generated forms.
pub proof fn law_primitive_rust_types(stem: Option<String>, b: BasicTypeModel)
    requires
        java_values(b) is Some,
    ensures
        rust_values(arg_type(stem, DescriptorModel::Single(b)).0) == java_values(b),
        rust_values(ret_type(stem, DescriptorModel::Single(b)).0) == java_values(b),
        rust_values(jni_arg_type(stem, DescriptorModel::Single(b)).0) == java_values(b),
        rust_values(jni_ret_type(stem, DescriptorModel::Single(b)).0) == java_values(b),
{
    lemma_rust_values();
}

/// A field of a Java primitive type is read and set as the Rust type that holds the same values,
/// constant or not.
pub proof fn law_primitive_field_types(stem: Option<String>, is_constant: bool, b: BasicTypeModel)
    requires
        java_values(b) is Some,
    ensures
        rust_values(field_types(stem, is_constant, DescriptorModel::Single(b)).0) == java_values(b),
        rust_values(field_types(stem, is_constant, DescriptorModel::Single(b)).1) == java_values(b),
{
    lemma_rust_values();
}

/// The JNI calls that read a value of a primitive or `void` type are named after that type: the
/// `call_{kind}_method_a` and `get_{kind}_field` fragment is its Java keyword, and the
/// `Call{Kind}MethodA` kind is that keyword capitalized.
pub proof fn law_jni_call_names(b: BasicTypeModel)
    requires
        !(b is Class),
    ensures
        java_keyword_type(ret_fragment(DescriptorModel::Single(b))) == Some(b),
        java_keyword_type(lower_first(jni_call_kind(DescriptorModel::Single(b)))) == Some(b),
{
    lemma_keywords();
    let k = jni_call_kind(DescriptorModel::Single(b));
    match b {
        BasicTypeModel::Boolean => { reveal_strlit("Boolean"); reveal_strlit("boolean"); assert(lower_first(k) =~= "boolean"@); },
        BasicTypeModel::Byte => { reveal_strlit("Byte"); reveal_strlit("byte"); assert(lower_first(k) =~= "byte"@); },
        BasicTypeModel::Short => { reveal_strlit("Short"); reveal_strlit("short"); assert(lower_first(k) =~= "short"@); },
        BasicTypeModel::Int => { reveal_strlit("Int"); reveal_strlit("int"); assert(lower_first(k) =~= "int"@); },
        BasicTypeModel::Long => { reveal_strlit("Long"); reveal_strlit("long"); assert(lower_first(k) =~= "long"@); },
        BasicTypeModel::Char => { reveal_strlit("Char"); reveal_strlit("char"); assert(lower_first(k) =~= "char"@); },
        BasicTypeModel::Float => { reveal_strlit("Float"); reveal_strlit("float"); assert(lower_first(k) =~= "float"@); },
        BasicTypeModel::Double => { reveal_strlit("Double"); reveal_strlit("double"); assert(lower_first(k) =~= "double"@); },
        BasicTypeModel::Void => { reveal_strlit("Void"); reveal_strlit("void"); assert(lower_first(k) =~= "void"@); },
        BasicTypeModel::Class(_) => {},
    }
}

/// The suffix a parameter of a primitive or `void` type adds to a mangled name is `_` and the
/// Java keyword of that type, so overloads that differ in such a parameter get different names.
pub proof fn law_primitive_suffixes(b: BasicTypeModel, other: BasicTypeModel)
    requires
        !(b is Class),
    ensures
        primitive_suffix(b).len() > 0,
        primitive_suffix(b)[0] == '_',
        java_keyword_type(primitive_suffix(b).skip(1)) == Some(b),
        !(other is Class) && other != b ==> primitive_suffix(other) != primitive_suffix(b),
{
    lemma_names();
    reveal_strlit("_boolean");
    reveal_strlit("_byte");
    reveal_strlit("_short");
    reveal_strlit("_int");
    reveal_strlit("_long");
    reveal_strlit("_char");
    reveal_strlit("_float");
    reveal_strlit("_double");
    reveal_strlit("_void");
    assert(primitive_suffix(b).skip(1) =~= match b {
        BasicTypeModel::Boolean => "boolean"@,
        BasicTypeModel::Byte => "byte"@,
        BasicTypeModel::Short => "short"@,
        BasicTypeModel::Int => "int"@,
        BasicTypeModel::Long => "long"@,
        BasicTypeModel::Char => "char"@,
        BasicTypeModel::Float => "float"@,
        BasicTypeModel::Double => "double"@,
        _ => "void"@,
    });
    if !(other is Class) && other != b && primitive_suffix(other) == primitive_suffix(b) {
        assert(primitive_suffix(other).skip(1) =~= match other {
            BasicTypeModel::Boolean => "boolean"@,
            BasicTypeModel::Byte => "byte"@,
            BasicTypeModel::Short => "short"@,
            BasicTypeModel::Int => "int"@,
            BasicTypeModel::Long => "long"@,
            BasicTypeModel::Char => "char"@,
            BasicTypeModel::Float => "float"@,
            BasicTypeModel::Double => "double"@,
            _ => "void"@,
        });
    }
}


/// `n` spaces.
pub open spec fn spaces(n: nat) -> Seq<char> {
    Seq::new(n, |i: int| ' ')
}

/// The text of a JNI array type: after `prefix`, the element type's name, `Array`, padding, and
/// the closing brackets.
pub open spec fn array_type_text(prefix: Seq<char>, element: Seq<char>, pad: nat) -> Seq<char> {
    prefix + element + "Array"@ + spaces(pad) + ">>"@
}

/// How an array parameter's type starts.
pub open spec fn arg_prefix() -> Seq<char> {
    "impl __jni_bindgen::std::convert::Into<__jni_bindgen::std::option::Option<&'env __jni_bindgen::"@
}

/// How an array result's type starts.
pub open spec fn ret_prefix() -> Seq<char> {
    "__jni_bindgen::std::option::Option<__jni_bindgen::Local<'env, __jni_bindgen::"@
}

/// A one-dimensional array of a Java primitive type is passed and returned as the JNI array
/// class named after that type (`long[]` as `LongArray`).
pub proof fn law_primitive_array_types(stem: Option<String>, b: BasicTypeModel)
    requires
        java_values(b) is Some,
    ensures
        exists|w: Seq<char>, pad: nat| #[trigger] array_type_text(arg_prefix(), w, pad) == arg_type(stem, DescriptorModel::Array { levels: 1, inner: b }).0
            && java_keyword_type(lower_first(w)) == Some(b),
        exists|w: Seq<char>, pad: nat| #[trigger] array_type_text(ret_prefix(), w, pad) == ret_type(stem, DescriptorModel::Array { levels: 1, inner: b }).0
            && java_keyword_type(lower_first(w)) == Some(b),
{
    lemma_keywords();
    let d = DescriptorModel::Array { levels: 1, inner: b };
    reveal_strlit("impl __jni_bindgen::std::convert::Into<__jni_bindgen::std::option::Option<&'env __jni_bindgen::");
    reveal_strlit("__jni_bindgen::std::option::Option<__jni_bindgen::Local<'env, __jni_bindgen::");
    reveal_strlit("Array");
    reveal_strlit(">>");
    match b {
        BasicTypeModel::Boolean => {
            reveal_strlit("impl __jni_bindgen::std::convert::Into<__jni_bindgen::std::option::Option<&'env __jni_bindgen::BooleanArray>>");
            reveal_strlit("__jni_bindgen::std::option::Option<__jni_bindgen::Local<'env, __jni_bindgen::BooleanArray>>");
            reveal_strlit("Boolean");
            reveal_strlit("boolean");
            assert(lower_first("Boolean"@) =~= "boolean"@);
            assert(arg_type(stem, d).0 =~= array_type_text(arg_prefix(), "Boolean"@, 0));
            assert(ret_type(stem, d).0 =~= array_type_text(ret_prefix(), "Boolean"@, 0));
        },
        BasicTypeModel::Byte => {
            reveal_strlit("impl __jni_bindgen::std::convert::Into<__jni_bindgen::std::option::Option<&'env __jni_bindgen::ByteArray   >>");
            reveal_strlit("__jni_bindgen::std::option::Option<__jni_bindgen::Local<'env, __jni_bindgen::ByteArray   >>");
            reveal_strlit("Byte");
            reveal_strlit("byte");
            assert(lower_first("Byte"@) =~= "byte"@);
            assert(arg_type(stem, d).0 =~= array_type_text(arg_prefix(), "Byte"@, 3));
            assert(ret_type(stem, d).0 =~= array_type_text(ret_prefix(), "Byte"@, 3));
        },
        BasicTypeModel::Char => {
            reveal_strlit("impl __jni_bindgen::std::convert::Into<__jni_bindgen::std::option::Option<&'env __jni_bindgen::CharArray   >>");
            reveal_strlit("__jni_bindgen::std::option::Option<__jni_bindgen::Local<'env, __jni_bindgen::CharArray   >>");
            reveal_strlit("Char");
            reveal_strlit("char");
            assert(lower_first("Char"@) =~= "char"@);
            assert(arg_type(stem, d).0 =~= array_type_text(arg_prefix(), "Char"@, 3));
            assert(ret_type(stem, d).0 =~= array_type_text(ret_prefix(), "Char"@, 3));
        },
        BasicTypeModel::Short => {
            reveal_strlit("impl __jni_bindgen::std::convert::Into<__jni_bindgen::std::option::Option<&'env __jni_bindgen::ShortArray  >>");
            reveal_strlit("__jni_bindgen::std::option::Option<__jni_bindgen::Local<'env, __jni_bindgen::ShortArray  >>");
            reveal_strlit("Short");
            reveal_strlit("short");
            assert(lower_first("Short"@) =~= "short"@);
            assert(arg_type(stem, d).0 =~= array_type_text(arg_prefix(), "Short"@, 2));
            assert(ret_type(stem, d).0 =~= array_type_text(ret_prefix(), "Short"@, 2));
        },
        BasicTypeModel::Int => {
            reveal_strlit("impl __jni_bindgen::std::convert::Into<__jni_bindgen::std::option::Option<&'env __jni_bindgen::IntArray    >>");
            reveal_strlit("__jni_bindgen::std::option::Option<__jni_bindgen::Local<'env, __jni_bindgen::IntArray    >>");
            reveal_strlit("Int");
            reveal_strlit("int");
            assert(lower_first("Int"@) =~= "int"@);
            assert(arg_type(stem, d).0 =~= array_type_text(arg_prefix(), "Int"@, 4));
            assert(ret_type(stem, d).0 =~= array_type_text(ret_prefix(), "Int"@, 4));
        },
        BasicTypeModel::Long => {
            reveal_strlit("impl __jni_bindgen::std::convert::Into<__jni_bindgen::std::option::Option<&'env __jni_bindgen::LongArray   >>");
            reveal_strlit("__jni_bindgen::std::option::Option<__jni_bindgen::Local<'env, __jni_bindgen::LongArray   >>");
            reveal_strlit("Long");
            reveal_strlit("long");
            assert(lower_first("Long"@) =~= "long"@);
            assert(arg_type(stem, d).0 =~= array_type_text(arg_prefix(), "Long"@, 3));
            assert(ret_type(stem, d).0 =~= array_type_text(ret_prefix(), "Long"@, 3));
        },
        BasicTypeModel::Float => {
            reveal_strlit("impl __jni_bindgen::std::convert::Into<__jni_bindgen::std::option::Option<&'env __jni_bindgen::FloatArray  >>");
            reveal_strlit("__jni_bindgen::std::option::Option<__jni_bindgen::Local<'env, __jni_bindgen::FloatArray  >>");
            reveal_strlit("Float");
            reveal_strlit("float");
            assert(lower_first("Float"@) =~= "float"@);
            assert(arg_type(stem, d).0 =~= array_type_text(arg_prefix(), "Float"@, 2));
            assert(ret_type(stem, d).0 =~= array_type_text(ret_prefix(), "Float"@, 2));
        },
        BasicTypeModel::Double => {
            reveal_strlit("impl __jni_bindgen::std::convert::Into<__jni_bindgen::std::option::Option<&'env __jni_bindgen::DoubleArray >>");
            reveal_strlit("__jni_bindgen::std::option::Option<__jni_bindgen::Local<'env, __jni_bindgen::DoubleArray >>");
            reveal_strlit("Double");
            reveal_strlit("double");
            assert(lower_first("Double"@) =~= "double"@);
            assert(arg_type(stem, d).0 =~= array_type_text(arg_prefix(), "Double"@, 1));
            assert(ret_type(stem, d).0 =~= array_type_text(ret_prefix(), "Double"@, 1));
        },
        _ => {},
    }
}

} // verus!
