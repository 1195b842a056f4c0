//! The generated wrapper of one Java method: its Rust name, and the text of its function.

use vstd::prelude::*;
use vstd::seq_lib::lemma_concat_associative;
use crate::config::runtime::Config;
use crate::config::toml::StaticEnvStyle;
use crate::descriptor::{BasicType, BasicTypeModel, Descriptor, DescriptorModel};
use crate::emit_rust::context::Context;
use crate::emit_rust::known_docs_url::{method_link, KnownDocsUrl};
use crate::emit_rust::rust_text::{cstr_literal, debug_str, decimal, descriptor_debug, emit_cstr, id_debug, push_decimal, push_descriptor_debug, push_id_debug};
use crate::emit_rust::structs::struct_paths_spec;
use crate::jar::{Class, Method as JavaMethod, MethodModel};
use crate::method::{parse_method_descriptor, types_model};
use crate::method_mangling::{mangle_method, mangled, MethodManglingError, MethodManglingStyle};
use crate::text::{chars_of, push_chars, push_str_chars, string_from_chars};

verus! {

/// The Rust path of the struct for a class, when it has one.
pub open spec fn rust_path_of(stem: Option<String>, class: Seq<char>) -> Option<Seq<char>> {
    match struct_paths_spec(stem, class) {
        Ok(p) => Some(p.mod_prefix + p.struct_name),
        Err(_) => None,
    }
}

/// The Rust path of the struct for a class (see `rust_path_of`).
pub(crate) fn rust_path(context: &Context, class: &str) -> (r: Option<String>)
    ensures
        match rust_path_of(context.config_spec().output_file_stem, class@) {
            Some(p) => r is Some && r->Some_0@ == p,
            None => r is None,
        },
{
    match context.java_to_rust_path(crate::class::Id(class)) {
        Ok(p) => Some(p),
        Err(_) => None,
    }
}

/// The Rust type of a parameter, whether it is passed as an object, and why it cannot be
/// emitted, if it cannot.
pub open spec fn arg_type(stem: Option<String>, d: DescriptorModel) -> (Seq<char>, bool, Option<Seq<char>>) {
    match d {
        DescriptorModel::Single(b) => match b {
            BasicTypeModel::Void => ("???"@, false, Some("Void arguments aren't a thing"@)),
            BasicTypeModel::Boolean => ("bool"@, false, None),
            BasicTypeModel::Byte => ("i8"@, false, None),
            BasicTypeModel::Char => ("__jni_bindgen::jchar"@, false, None),
            BasicTypeModel::Short => ("i16"@, false, None),
            BasicTypeModel::Int => ("i32"@, false, None),
            BasicTypeModel::Long => ("i64"@, false, None),
            BasicTypeModel::Float => ("f32"@, false, None),
            BasicTypeModel::Double => ("f64"@, false, None),
            BasicTypeModel::Class(c) => match rust_path_of(stem, c) {
                Some(p) => ("impl __jni_bindgen::std::convert::Into<__jni_bindgen::std::option::Option<&'env "@ + p + ">>"@, true, None),
                None => (id_debug(c), true, Some("Failed to resolve JNI path to Rust path for argument type"@)),
            },
        },
        DescriptorModel::Array { levels, inner } => if levels == 1 {
            match inner {
                BasicTypeModel::Void => ("???"@, false, Some("Accepting arrays of void isn't a thing"@)),
                BasicTypeModel::Boolean => ("impl __jni_bindgen::std::convert::Into<__jni_bindgen::std::option::Option<&'env __jni_bindgen::BooleanArray>>"@, true, None),
                BasicTypeModel::Byte => ("impl __jni_bindgen::std::convert::Into<__jni_bindgen::std::option::Option<&'env __jni_bindgen::ByteArray   >>"@, true, None),
                BasicTypeModel::Char => ("impl __jni_bindgen::std::convert::Into<__jni_bindgen::std::option::Option<&'env __jni_bindgen::CharArray   >>"@, true, None),
                BasicTypeModel::Short => ("impl __jni_bindgen::std::convert::Into<__jni_bindgen::std::option::Option<&'env __jni_bindgen::ShortArray  >>"@, true, None),
                BasicTypeModel::Int => ("impl __jni_bindgen::std::convert::Into<__jni_bindgen::std::option::Option<&'env __jni_bindgen::IntArray    >>"@, true, None),
                BasicTypeModel::Long => ("impl __jni_bindgen::std::convert::Into<__jni_bindgen::std::option::Option<&'env __jni_bindgen::LongArray   >>"@, true, None),
                BasicTypeModel::Float => ("impl __jni_bindgen::std::convert::Into<__jni_bindgen::std::option::Option<&'env __jni_bindgen::FloatArray  >>"@, true, None),
                BasicTypeModel::Double => ("impl __jni_bindgen::std::convert::Into<__jni_bindgen::std::option::Option<&'env __jni_bindgen::DoubleArray >>"@, true, None),
                BasicTypeModel::Class(_) => (descriptor_debug(d), true, Some("Passing in arrays of arrays/objects is not yet supported"@)),
            }
        } else {
            (descriptor_debug(d), true, Some("Passing in arrays of arrays/objects is not yet supported"@))
        },
    }
}

/// The Rust type of the result, and why it cannot be emitted, if it cannot.
pub open spec fn ret_type(stem: Option<String>, d: DescriptorModel) -> (Seq<char>, Option<Seq<char>>) {
    match d {
        DescriptorModel::Single(b) => match b {
            BasicTypeModel::Void => ("()"@, None),
            BasicTypeModel::Boolean => ("bool"@, None),
            BasicTypeModel::Byte => ("i8"@, None),
            BasicTypeModel::Char => ("__jni_bindgen::jchar"@, None),
            BasicTypeModel::Short => ("i16"@, None),
            BasicTypeModel::Int => ("i32"@, None),
            BasicTypeModel::Long => ("i64"@, None),
            BasicTypeModel::Float => ("f32"@, None),
            BasicTypeModel::Double => ("f64"@, None),
            BasicTypeModel::Class(c) => match rust_path_of(stem, c) {
                Some(p) => ("__jni_bindgen::std::option::Option<__jni_bindgen::Local<'env, "@ + p + ">>"@, None),
                None => (id_debug(c), Some("Failed to resolve JNI path to Rust path for return type"@)),
            },
        },
        DescriptorModel::Array { levels, inner } => if levels == 1 {
            match inner {
                BasicTypeModel::Void => ("???"@, Some("Returning arrays of void isn't a thing"@)),
                BasicTypeModel::Boolean => ("__jni_bindgen::std::option::Option<__jni_bindgen::Local<'env, __jni_bindgen::BooleanArray>>"@, None),
                BasicTypeModel::Byte => ("__jni_bindgen::std::option::Option<__jni_bindgen::Local<'env, __jni_bindgen::ByteArray   >>"@, None),
                BasicTypeModel::Char => ("__jni_bindgen::std::option::Option<__jni_bindgen::Local<'env, __jni_bindgen::CharArray   >>"@, None),
                BasicTypeModel::Short => ("__jni_bindgen::std::option::Option<__jni_bindgen::Local<'env, __jni_bindgen::ShortArray  >>"@, None),
                BasicTypeModel::Int => ("__jni_bindgen::std::option::Option<__jni_bindgen::Local<'env, __jni_bindgen::IntArray    >>"@, None),
                BasicTypeModel::Long => ("__jni_bindgen::std::option::Option<__jni_bindgen::Local<'env, __jni_bindgen::LongArray   >>"@, None),
                BasicTypeModel::Float => ("__jni_bindgen::std::option::Option<__jni_bindgen::Local<'env, __jni_bindgen::FloatArray  >>"@, None),
                BasicTypeModel::Double => ("__jni_bindgen::std::option::Option<__jni_bindgen::Local<'env, __jni_bindgen::DoubleArray >>"@, None),
                BasicTypeModel::Class(_) => (descriptor_debug(d), Some("Returning arrays of objects or arrays not yet supported"@)),
            }
        } else {
            (descriptor_debug(d), Some("Returning arrays of objects or arrays not yet supported"@))
        },
    }
}

/// The kind of JNI call that returns this type: `call_{kind}_method_a`.
pub open spec fn ret_fragment(d: DescriptorModel) -> Seq<char> {
    match d {
        DescriptorModel::Single(b) => match b {
            BasicTypeModel::Void => "void"@,
            BasicTypeModel::Boolean => "boolean"@,
            BasicTypeModel::Byte => "byte"@,
            BasicTypeModel::Char => "char"@,
            BasicTypeModel::Short => "short"@,
            BasicTypeModel::Int => "int"@,
            BasicTypeModel::Long => "long"@,
            BasicTypeModel::Float => "float"@,
            BasicTypeModel::Double => "double"@,
            BasicTypeModel::Class(_) => "object"@,
        },
        DescriptorModel::Array { .. } => "object"@,
    }
}

/// The Rust type of a parameter (see `arg_type`).
fn arg_type_text(context: &Context, d: Descriptor) -> (r: (Vec<char>, bool, Option<&'static str>))
    ensures
        ({
            let (t, obj, reason) = arg_type(context.config_spec().output_file_stem, d@);
            &&& r.0@ == t
            &&& r.1 == obj
            &&& match reason { Some(x) => r.2 is Some && r.2->Some_0@ == x, None => r.2 is None }
        }),
{
    let mut out: Vec<char> = Vec::new();
    match d {
        Descriptor::Single(b) => match b {
            BasicType::Void => { push_str_chars(&mut out, "???"); (out, false, Some("Void arguments aren't a thing")) },
            BasicType::Boolean => { push_str_chars(&mut out, "bool"); (out, false, None) },
            BasicType::Byte => { push_str_chars(&mut out, "i8"); (out, false, None) },
            BasicType::Char => { push_str_chars(&mut out, "__jni_bindgen::jchar"); (out, false, None) },
            BasicType::Short => { push_str_chars(&mut out, "i16"); (out, false, None) },
            BasicType::Int => { push_str_chars(&mut out, "i32"); (out, false, None) },
            BasicType::Long => { push_str_chars(&mut out, "i64"); (out, false, None) },
            BasicType::Float => { push_str_chars(&mut out, "f32"); (out, false, None) },
            BasicType::Double => { push_str_chars(&mut out, "f64"); (out, false, None) },
            BasicType::Class(c) => match rust_path(context, c.0) {
                Some(p) => {
                    push_str_chars(&mut out, "impl __jni_bindgen::std::convert::Into<__jni_bindgen::std::option::Option<&'env ");
                    push_str_chars(&mut out, p.as_str());
                    push_str_chars(&mut out, ">>");
                    (out, true, None)
                },
                None => {
                    push_id_debug(&mut out, c.0);
                    (out, true, Some("Failed to resolve JNI path to Rust path for argument type"))
                },
            },
        },
        Descriptor::Array { levels, inner } => {
            if levels == 1 {
                match inner {
                    BasicType::Void => { push_str_chars(&mut out, "???"); return (out, false, Some("Accepting arrays of void isn't a thing")); },
                    BasicType::Boolean => { push_str_chars(&mut out, "impl __jni_bindgen::std::convert::Into<__jni_bindgen::std::option::Option<&'env __jni_bindgen::BooleanArray>>"); return (out, true, None); },
                    BasicType::Byte => { push_str_chars(&mut out, "impl __jni_bindgen::std::convert::Into<__jni_bindgen::std::option::Option<&'env __jni_bindgen::ByteArray   >>"); return (out, true, None); },
                    BasicType::Char => { push_str_chars(&mut out, "impl __jni_bindgen::std::convert::Into<__jni_bindgen::std::option::Option<&'env __jni_bindgen::CharArray   >>"); return (out, true, None); },
                    BasicType::Short => { push_str_chars(&mut out, "impl __jni_bindgen::std::convert::Into<__jni_bindgen::std::option::Option<&'env __jni_bindgen::ShortArray  >>"); return (out, true, None); },
                    BasicType::Int => { push_str_chars(&mut out, "impl __jni_bindgen::std::convert::Into<__jni_bindgen::std::option::Option<&'env __jni_bindgen::IntArray    >>"); return (out, true, None); },
                    BasicType::Long => { push_str_chars(&mut out, "impl __jni_bindgen::std::convert::Into<__jni_bindgen::std::option::Option<&'env __jni_bindgen::LongArray   >>"); return (out, true, None); },
                    BasicType::Float => { push_str_chars(&mut out, "impl __jni_bindgen::std::convert::Into<__jni_bindgen::std::option::Option<&'env __jni_bindgen::FloatArray  >>"); return (out, true, None); },
                    BasicType::Double => { push_str_chars(&mut out, "impl __jni_bindgen::std::convert::Into<__jni_bindgen::std::option::Option<&'env __jni_bindgen::DoubleArray >>"); return (out, true, None); },
                    BasicType::Class(_) => {},
                }
            }
            push_descriptor_debug(&mut out, d);
            (out, true, Some("Passing in arrays of arrays/objects is not yet supported"))
        },
    }
}

/// The Rust type of the result (see `ret_type`).
fn ret_type_text(context: &Context, d: Descriptor) -> (r: (Vec<char>, Option<&'static str>))
    ensures
        ({
            let (t, reason) = ret_type(context.config_spec().output_file_stem, d@);
            &&& r.0@ == t
            &&& match reason { Some(x) => r.1 is Some && r.1->Some_0@ == x, None => r.1 is None }
        }),
{
    let mut out: Vec<char> = Vec::new();
    match d {
        Descriptor::Single(b) => match b {
            BasicType::Void => { push_str_chars(&mut out, "()"); (out, None) },
            BasicType::Boolean => { push_str_chars(&mut out, "bool"); (out, None) },
            BasicType::Byte => { push_str_chars(&mut out, "i8"); (out, None) },
            BasicType::Char => { push_str_chars(&mut out, "__jni_bindgen::jchar"); (out, None) },
            BasicType::Short => { push_str_chars(&mut out, "i16"); (out, None) },
            BasicType::Int => { push_str_chars(&mut out, "i32"); (out, None) },
            BasicType::Long => { push_str_chars(&mut out, "i64"); (out, None) },
            BasicType::Float => { push_str_chars(&mut out, "f32"); (out, None) },
            BasicType::Double => { push_str_chars(&mut out, "f64"); (out, None) },
            BasicType::Class(c) => match rust_path(context, c.0) {
                Some(p) => {
                    push_str_chars(&mut out, "__jni_bindgen::std::option::Option<__jni_bindgen::Local<'env, ");
                    push_str_chars(&mut out, p.as_str());
                    push_str_chars(&mut out, ">>");
                    (out, None)
                },
                None => {
                    push_id_debug(&mut out, c.0);
                    (out, Some("Failed to resolve JNI path to Rust path for return type"))
                },
            },
        },
        Descriptor::Array { levels, inner } => {
            if levels == 1 {
                match inner {
                    BasicType::Void => { push_str_chars(&mut out, "???"); return (out, Some("Returning arrays of void isn't a thing")); },
                    BasicType::Boolean => { push_str_chars(&mut out, "__jni_bindgen::std::option::Option<__jni_bindgen::Local<'env, __jni_bindgen::BooleanArray>>"); return (out, None); },
                    BasicType::Byte => { push_str_chars(&mut out, "__jni_bindgen::std::option::Option<__jni_bindgen::Local<'env, __jni_bindgen::ByteArray   >>"); return (out, None); },
                    BasicType::Char => { push_str_chars(&mut out, "__jni_bindgen::std::option::Option<__jni_bindgen::Local<'env, __jni_bindgen::CharArray   >>"); return (out, None); },
                    BasicType::Short => { push_str_chars(&mut out, "__jni_bindgen::std::option::Option<__jni_bindgen::Local<'env, __jni_bindgen::ShortArray  >>"); return (out, None); },
                    BasicType::Int => { push_str_chars(&mut out, "__jni_bindgen::std::option::Option<__jni_bindgen::Local<'env, __jni_bindgen::IntArray    >>"); return (out, None); },
                    BasicType::Long => { push_str_chars(&mut out, "__jni_bindgen::std::option::Option<__jni_bindgen::Local<'env, __jni_bindgen::LongArray   >>"); return (out, None); },
                    BasicType::Float => { push_str_chars(&mut out, "__jni_bindgen::std::option::Option<__jni_bindgen::Local<'env, __jni_bindgen::FloatArray  >>"); return (out, None); },
                    BasicType::Double => { push_str_chars(&mut out, "__jni_bindgen::std::option::Option<__jni_bindgen::Local<'env, __jni_bindgen::DoubleArray >>"); return (out, None); },
                    BasicType::Class(_) => {},
                }
            }
            push_descriptor_debug(&mut out, d);
            (out, Some("Returning arrays of objects or arrays not yet supported"))
        },
    }
}

/// The kind of JNI call that returns this type (see `ret_fragment`).
pub(crate) fn ret_fragment_text(d: Descriptor) -> (r: &'static str)
    ensures
        r@ == ret_fragment(d@),
{
    match d {
        Descriptor::Single(b) => match b {
            BasicType::Void => "void",
            BasicType::Boolean => "boolean",
            BasicType::Byte => "byte",
            BasicType::Char => "char",
            BasicType::Short => "short",
            BasicType::Int => "int",
            BasicType::Long => "long",
            BasicType::Float => "float",
            BasicType::Double => "double",
            BasicType::Class(_) => "object",
        },
        Descriptor::Array { .. } => "object",
    }
}


/// The parameters after the `i`-th, as they appear in the call's argument array and in the
/// function's parameter list (after `decl0`), with the reasons some cannot be emitted.
pub open spec fn args_state(stem: Option<String>, args: Seq<DescriptorModel>, decl0: Seq<char>) -> (Seq<char>, Seq<char>, Seq<Seq<char>>)
    decreases args.len(),
{
    if args.len() == 0 {
        (Seq::empty(), decl0, Seq::empty())
    } else {
        let (a, d, rs) = args_state(stem, args.drop_last(), decl0);
        let name = "arg"@ + decimal((args.len() - 1) as nat);
        let (t, obj, reason) = arg_type(stem, args.last());
        let a2 = (if a.len() > 0 { a + ", "@ } else { a }) + "__jni_bindgen::AsJValue::as_jvalue(&"@ + name
            + (if obj { ".into()"@ } else { Seq::empty() }) + ")"@;
        let d2 = (if d.len() > 0 { d + ", "@ } else { d }) + name + ": "@ + t;
        (a2, d2, match reason { Some(x) => rs.push(x), None => rs })
    }
}

/// The names of the access flags that are set, in declaration order, joined by ` | `; `(empty)`
/// when none is.
pub open spec fn flags_debug(bits: u16) -> Seq<char> {
    let names = flag_names_from(bits, 0);
    if names.len() == 0 { "(empty)"@ } else { join_bar(names) }
}

/// The flags and their names, in declaration order.
pub open spec fn method_flag_table() -> Seq<(u16, Seq<char>)> {
    seq![(0x0001u16, "PUBLIC"@), (0x0002u16, "PRIVATE"@), (0x0004u16, "PROTECTED"@), (0x0008u16, "STATIC"@), (0x0010u16, "FINAL"@), (0x0020u16, "SYNCHRONIZED"@), (0x0040u16, "BRIDGE"@), (0x0080u16, "VARARGS"@), (0x0100u16, "NATIVE"@), (0x0400u16, "ABSTRACT"@), (0x0800u16, "STRICT"@), (0x1000u16, "SYNTHETIC"@)]
}

/// The names of the flags set in `bits`, from the `i`-th of the table on.
pub open spec fn flag_names_from(bits: u16, i: int) -> Seq<Seq<char>>
    decreases 12 - i,
{
    if i < 0 || i >= 12 {
        Seq::empty()
    } else {
        let (v, n) = method_flag_table()[i];
        (if bits & v == v { seq![n] } else { Seq::empty() }) + flag_names_from(bits, i + 1)
    }
}

/// Names joined by ` | `.
pub open spec fn join_bar(names: Seq<Seq<char>>) -> Seq<char>
    decreases names.len(),
{
    if names.len() == 0 {
        Seq::empty()
    } else if names.len() == 1 {
        names[0]
    } else {
        join_bar(names.drop_last()) + " | "@ + names.last()
    }
}

/// The parameters as they appear in the call and in the function (see `args_state`).
fn args_texts(context: &Context, args: &Vec<Descriptor>, decl0: Vec<char>) -> (r: (Vec<char>, Vec<char>, Vec<&'static str>))
    ensures
        ({
            let (a, d, rs) = args_state(context.config_spec().output_file_stem, types_model(args@), decl0@);
            &&& r.0@ == a
            &&& r.1@ == d
            &&& r.2@.map_values(|x: &'static str| x@) == rs
        }),
{
    let ghost stem = context.config_spec().output_file_stem;
    let ghost am = types_model(args@);
    let mut array: Vec<char> = Vec::new();
    let mut decl = decl0;
    let mut reasons: Vec<&'static str> = Vec::new();
    let mut i: usize = 0;
    proof {
        assert(am.take(0) =~= Seq::<DescriptorModel>::empty());
        assert(reasons@.map_values(|x: &'static str| x@) =~= Seq::<Seq<char>>::empty());
    }
    while i < args.len()
        invariant
            i <= args@.len(),
            am == types_model(args@),
            stem == context.config_spec().output_file_stem,
            ({
                let (a, d, rs) = args_state(stem, am.take(i as int), decl0@);
                &&& array@ == a
                &&& decl@ == d
                &&& reasons@.map_values(|x: &'static str| x@) == rs
            }),
        decreases args@.len() - i,
    {
        let ghost (a0, d0, r0) = (array@, decl@, reasons@.map_values(|x: &'static str| x@));
        let (t, obj, reason) = arg_type_text(context, args[i]);
        let mut name: Vec<char> = Vec::new();
        push_str_chars(&mut name, "arg");
        push_decimal(&mut name, i);
        if array.len() > 0 {
            push_str_chars(&mut array, ", ");
        }
        push_str_chars(&mut array, "__jni_bindgen::AsJValue::as_jvalue(&");
        push_chars(&mut array, name.as_slice());
        if obj {
            push_str_chars(&mut array, ".into()");
        }
        push_str_chars(&mut array, ")");
        if decl.len() > 0 {
            push_str_chars(&mut decl, ", ");
        }
        push_chars(&mut decl, name.as_slice());
        push_str_chars(&mut decl, ": ");
        push_chars(&mut decl, t.as_slice());
        match reason {
            Some(x) => reasons.push(x),
            None => {},
        }
        proof {
            let m = am.take(i + 1);
            assert(m.drop_last() =~= am.take(i as int));
            assert(m.last() == args@[i as int]@);
            let (a1, d1, r1) = args_state(stem, m, decl0@);
            assert(array@ =~= a1);
            assert(decl@ =~= d1);
            assert(reasons@.map_values(|x: &'static str| x@) =~= r1);
        }
        i = i + 1;
    }
    assert(am.take(args@.len() as int) =~= am);
    (array, decl, reasons)
}

/// The `Debug` form of method access flags (see `flags_debug`).
pub(crate) fn flags_debug_text(bits: u16) -> (r: Vec<char>)
    ensures
        r@ == flags_debug(bits),
{
    let values: [u16; 12] = [0x0001, 0x0002, 0x0004, 0x0008, 0x0010, 0x0020, 0x0040, 0x0080, 0x0100, 0x0400, 0x0800, 0x1000];
    let names: [&'static str; 12] = ["PUBLIC", "PRIVATE", "PROTECTED", "STATIC", "FINAL", "SYNCHRONIZED", "BRIDGE", "VARARGS", "NATIVE", "ABSTRACT", "STRICT", "SYNTHETIC"];
    assert(values@.len() == 12 && names@.len() == 12);
    let ghost table = method_flag_table();
    assert forall|k: int| 0 <= k < 12 implies #[trigger] table[k] == (values@[k], names@[k]@) by {
        reveal_strlit("PUBLIC");
    }
    let mut out: Vec<char> = Vec::new();
    let mut count: usize = 0;
    let mut i: usize = 0;
    let ghost mut seen: Seq<Seq<char>> = Seq::empty();
    while i < 12
        invariant
            i <= 12,
            values@.len() == 12 && names@.len() == 12,
            table == method_flag_table(),
            forall|k: int| 0 <= k < 12 ==> #[trigger] table[k] == (values@[k], names@[k]@),
            flag_names_from(bits, 0) == seen + flag_names_from(bits, i as int),
            count == seen.len(),
            count <= i,
            out@ == join_bar(seen),
        decreases 12 - i,
    {
        let ghost before = seen;
        if bits & values[i] == values[i] {
            if count > 0 {
                push_str_chars(&mut out, " | ");
            }
            push_str_chars(&mut out, names[i]);
            count = count + 1;
            proof {
                seen = seen.push(names@[i as int]@);
                assert(seen.drop_last() =~= before);
                assert(before.len() == 0 ==> out@ =~= names@[i as int]@);
            }
        }
        proof {
            assert(flag_names_from(bits, i as int) == (if bits & values@[i as int] == values@[i as int] { seq![names@[i as int]@] } else { Seq::empty() }) + flag_names_from(bits, i + 1));
            if bits & values@[i as int] == values@[i as int] {
                assert(before + (seq![names@[i as int]@] + flag_names_from(bits, i + 1)) =~= seen + flag_names_from(bits, i + 1));
            } else {
                assert(before + (Seq::<Seq<char>>::empty() + flag_names_from(bits, i + 1)) =~= seen + flag_names_from(bits, i + 1));
            }
        }
        i = i + 1;
    }
    proof {
        assert(seen + Seq::<Seq<char>>::empty() =~= seen);
    }
    if count == 0 {
        push_str_chars(&mut out, "(empty)");
        assert(out@ =~= "(empty)"@);
    }
    out
}


// ---------------------------------------------------------------------------------------------
// The method wrapper

/// The separator between the parts of a rule's key.
pub open spec fn unit_sep() -> Seq<char> {
    seq!['\x1f']
}

/// The name the configuration gives a method instead, if it gives one: a rename of its class
/// (which renames its methods too), of the method, or of the method with this descriptor, the
/// first that applies.
pub open spec fn renamed_to(c: Config, class: Seq<char>, name: Seq<char>, desc: Seq<char>) -> Option<Seq<char>> {
    let k1 = class;
    let k2 = class + unit_sep() + name;
    let k3 = class + unit_sep() + name + unit_sep() + desc;
    if c.rename_classes@.dom().contains(k1) {
        Some(c.rename_classes@[k1])
    } else if c.rename_class_methods@.dom().contains(k2) {
        Some(c.rename_class_methods@[k2])
    } else if c.rename_class_method_sigs@.dom().contains(k3) {
        Some(c.rename_class_method_sigs@[k3])
    } else {
        None
    }
}

/// Whether the configuration ignores a method: its class, the method, or the method with this descriptor.
pub open spec fn is_ignored(c: Config, class: Seq<char>, name: Seq<char>, desc: Seq<char>) -> bool {
    c.ignore_classes@.contains(class)
        || c.ignore_class_methods@.contains(class + unit_sep() + name)
        || c.ignore_class_method_sigs@.contains(class + unit_sep() + name + unit_sep() + desc)
}

/// One reason, when `cond` holds.
pub open spec fn reason_if(cond: bool, reason: Seq<char>) -> Seq<Seq<char>> {
    if cond { seq![reason] } else { Seq::empty() }
}

/// The Rust name of a method's wrapper, and the first reasons it cannot be emitted: a failed
/// name, and its flags, name and the configuration's ignore rules.
pub open spec fn method_head(c: Config, class: Seq<char>, m: MethodModel, rust_name: Option<Seq<char>>) -> (Seq<char>, Seq<Seq<char>>) {
    let (method_name, r0) = match renamed_to(c, class, m.name, m.descriptor) {
        Some(r) => (r, Seq::<Seq<char>>::empty()),
        None => match rust_name {
            Some(n) => (n, Seq::<Seq<char>>::empty()),
            None => (m.name, seq!["Failed to mangle method name"@]),
        },
    };
    (method_name, r0
        + reason_if(m.flags & 0x0001 != 0x0001, "Non-public method"@)
        + reason_if(m.flags & 0x0080 == 0x0080, "Marked as varargs - haven't decided on how I want to handle this."@)
        + reason_if(m.flags & 0x0040 == 0x0040, "Bridge method - type erasure"@)
        + reason_if(m.name == "<clinit>"@, "Static class constructor - never needs to be called by Rust."@)
        + reason_if(is_ignored(c, class, m.name, m.descriptor), "[[ignore]]d"@))
}

/// How the wrapper gets the JNI environment: the start of its parameter list, and a reason it
/// cannot be emitted, if there is one.
pub open spec fn method_env(c: Config, m: MethodModel) -> (Seq<char>, Seq<Seq<char>>) {
    if m.name == "<init>"@ || m.flags & 0x0008 == 0x0008 {
        if c.codegen.static_env == StaticEnvStyle::Explicit {
            ("__jni_env: &'env __jni_bindgen::Env"@, Seq::empty())
        } else {
            (Seq::<char>::empty(), seq!["StaticEnvStyle::Implicit not yet implemented"@])
        }
    } else {
        ("&'env self"@, Seq::empty())
    }
}

/// The result type of the wrapper and the kind of JNI call, with a reason it cannot be
/// emitted, if there is one: a constructor returns the struct of its class.
pub open spec fn method_ret(stem: Option<String>, class: Seq<char>, m: MethodModel) -> (Seq<char>, Seq<char>, Seq<Seq<char>>) {
    let ret = parse_method_descriptor(m.descriptor)->Ok_0.1;
    let (rd0, rr) = ret_type(stem, ret);
    let r = match rr { Some(x) => seq![x], None => Seq::<Seq<char>>::empty() };
    if m.name == "<init>"@ {
        if ret == DescriptorModel::Single(BasicTypeModel::Void) {
            match rust_path_of(stem, class) {
                Some(p) => ("__jni_bindgen::Local<'env, "@ + p + ">"@, "object"@, r),
                None => (debug_str(class), "object"@, r.push("Failed to resolve JNI path to Rust path for this type"@)),
            }
        } else {
            (rd0, ret_fragment(ret), r.push("Constructor should've returned void"@))
        }
    } else {
        (rd0, ret_fragment(ret), r)
    }
}

/// The parts of a method's wrapper: why it cannot be emitted (none when it can), its Rust name,
/// its parameter list, its call's argument array, its result type, and the kind of JNI call.
pub open spec fn method_parts(c: Config, class: Seq<char>, m: MethodModel, rust_name: Option<Seq<char>>)
    -> (Seq<Seq<char>>, Seq<char>, Seq<char>, Seq<char>, Seq<char>, Seq<char>)
{
    let stem = c.output_file_stem;
    let (method_name, r1) = method_head(c, class, m, rust_name);
    let (decl0, r2) = method_env(c, m);
    let (array, decl, ar) = args_state(stem, parse_method_descriptor(m.descriptor)->Ok_0.0, decl0);
    let (ret_decl, frag, r3) = method_ret(stem, class, m);
    (r1 + r2 + ar + r3, method_name, decl, array, ret_decl, frag)
}

/// A line of generated code.
pub open spec fn line(indent: Seq<char>, text: Seq<char>) -> Seq<char> {
    indent + text + seq!['\n']
}

/// A comment line for each reason.
pub open spec fn reason_lines(indent: Seq<char>, reasons: Seq<Seq<char>>) -> Seq<char>
    decreases reasons.len(),
{
    if reasons.len() == 0 {
        Seq::empty()
    } else {
        reason_lines(indent, reasons.drop_last()) + line(indent, "// Not emitting: "@ + reasons.last())
    }
}

/// Lines of generated code, each of the `texts` after `indent`.
pub open spec fn lines_after(indent: Seq<char>, texts: Seq<Seq<char>>) -> Seq<char>
    decreases texts.len(),
{
    if texts.len() == 0 {
        Seq::empty()
    } else {
        lines_after(indent, texts.drop_last()) + line(indent, texts.last())
    }
}

/// The lines of two lists of texts are the lines of the first, then those of the second.
pub proof fn lemma_lines_after_add(indent: Seq<char>, a: Seq<Seq<char>>, b: Seq<Seq<char>>)
    ensures
        lines_after(indent, a + b) == lines_after(indent, a) + lines_after(indent, b),
    decreases b.len(),
{
    if b.len() == 0 {
        assert(a + b =~= a);
        assert(lines_after(indent, a) + lines_after(indent, b) =~= lines_after(indent, a));
    } else {
        lemma_lines_after_add(indent, a, b.drop_last());
        assert((a + b).drop_last() =~= a + b.drop_last());
        assert(lines_after(indent, a + b) =~= lines_after(indent, a) + lines_after(indent, b));
    }
}

/// One line is the lines of a one-element list.
pub proof fn lemma_one_line(indent: Seq<char>, text: Seq<char>)
    ensures
        line(indent, text) == lines_after(indent, seq![text]),
{
    assert(seq![text].drop_last() =~= Seq::<Seq<char>>::empty());
    assert(lines_after(indent, Seq::<Seq<char>>::empty()) == Seq::<char>::empty());
    assert(seq![text].last() == text);
    assert(lines_after(indent, seq![text]) =~= line(indent, text));
}

/// The comment for each reason.
pub open spec fn reason_comments(reasons: Seq<Seq<char>>) -> Seq<Seq<char>> {
    reasons.map_values(|r: Seq<char>| "// Not emitting: "@ + r)
}

/// The reason lines are lines of their comments.
pub proof fn lemma_reason_lines(indent: Seq<char>, reasons: Seq<Seq<char>>)
    ensures
        reason_lines(indent, reasons) == lines_after(indent, reason_comments(reasons)),
    decreases reasons.len(),
{
    if reasons.len() > 0 {
        lemma_reason_lines(indent, reasons.drop_last());
        assert(reason_comments(reasons).drop_last() =~= reason_comments(reasons.drop_last()));
    } else {
        assert(reason_comments(reasons) =~= Seq::<Seq<char>>::empty());
    }
}

/// The indent of a wrapper's lines: eight spaces after `indent`, then `// ` when the wrapper
/// is commented out.
pub open spec fn wrapper_indent(indent: Seq<char>, commented: bool) -> Seq<char> {
    indent + if commented { "        // "@ } else { "        "@ }
}

/// The text of a method's wrapper: a blank line; a `// Not emitting:` comment for each reason
/// it cannot be emitted, in which case the wrapper itself is commented out; a link to its
/// documentation, if there is one; then the function, which finds the class and the method
/// through JNI and calls it.
pub open spec fn method_text(c: Config, class: Seq<char>, m: MethodModel, rust_name: Option<Seq<char>>, indent: Seq<char>) -> Seq<char> {
    let (reasons, method_name, decl, array, ret_decl, frag) = method_parts(c, class, m, rust_name);
    let ind = wrapper_indent(indent, reasons.len() > 0);
    let is_ctor = m.name == "<init>"@;
    let is_static = m.flags & 0x0008 == 0x0008;
    let access = if m.flags & 0x0001 == 0x0001 { "pub "@ } else { Seq::empty() };
    seq!['\n']
        + reason_lines(ind, reasons)
        + match method_link(c.doc_patterns@, class, m) {
            Some((label, url)) => line(ind, "/// ["@ + label + "]("@ + url + ")"@),
            None => Seq::empty(),
        }
        + line(ind, access + "fn "@ + method_name + "<'env>("@ + decl + ") -> __jni_bindgen::Result<"@ + ret_decl + "> {"@)
        + line(ind, "    // class.path == "@ + debug_str(class) + ", java.flags == "@ + flags_debug(m.flags)
            + ", .name == "@ + debug_str(m.name) + ", .descriptor == Descriptor { string: "@ + debug_str(m.descriptor) + " }"@)
        + line(ind, "    unsafe {"@)
        + line(ind, "        let __jni_args = ["@ + array + "];"@)
        + if is_ctor || is_static {
            if c.codegen.static_env == StaticEnvStyle::Explicit { Seq::empty() } else { line(ind, "    let __jni_env = ...?;"@) }
        } else {
            line(ind, "        let __jni_env = __jni_bindgen::Env::from_ptr(self.0.env);"@)
        }
        + line(ind, "        let (__jni_class, __jni_method) = __jni_env.require_class_"@ + (if is_static { "static_"@ } else { Seq::empty() })
            + "method("@ + cstr_literal(class) + ", "@ + cstr_literal(m.name) + ", "@ + cstr_literal(m.descriptor) + ");"@)
        + if is_ctor {
            line(ind, "        __jni_env.new_object_a(__jni_class, __jni_method, __jni_args.as_ptr())"@)
        } else if is_static {
            line(ind, "        __jni_env.call_static_"@ + frag + "_method_a(__jni_class, __jni_method, __jni_args.as_ptr())"@)
        } else {
            line(ind, "        __jni_env.call_"@ + frag + "_method_a(self.0.object, __jni_method, __jni_args.as_ptr())"@)
        }
        + line(ind, "    }"@)
        + line(ind, "}"@)
}

/// Whether a method's wrapper cannot be emitted, and is commented out: it has a reason.
pub open spec fn is_rejected(c: Config, class: Seq<char>, m: MethodModel, rust_name: Option<Seq<char>>) -> bool {
    method_parts(c, class, m, rust_name).0.len() > 0
}

/// `s` is lines of generated code, each after `indent`.
pub open spec fn is_lines_after(s: Seq<char>, indent: Seq<char>) -> bool {
    exists|texts: Seq<Seq<char>>| s == #[trigger] lines_after(indent, texts)
}

/// No text is no lines; one line is lines.
pub proof fn lemma_lines_base(indent: Seq<char>, text: Seq<char>)
    ensures
        is_lines_after(Seq::<char>::empty(), indent),
        is_lines_after(line(indent, text), indent),
{
    assert(Seq::<char>::empty() == lines_after(indent, Seq::<Seq<char>>::empty()));
    lemma_one_line(indent, text);
}

/// Lines followed by lines are lines.
pub proof fn lemma_lines_join(a: Seq<char>, b: Seq<char>, indent: Seq<char>)
    requires
        is_lines_after(a, indent),
        is_lines_after(b, indent),
    ensures
        is_lines_after(a + b, indent),
{
    let ta = choose|t: Seq<Seq<char>>| a == #[trigger] lines_after(indent, t);
    let tb = choose|t: Seq<Seq<char>>| b == #[trigger] lines_after(indent, t);
    lemma_lines_after_add(indent, ta, tb);
    assert(a + b == lines_after(indent, ta + tb));
}

/// A wrapper is written as lines after its indent: after its leading blank line, every line
/// of a method that cannot be emitted starts with the indent and `        // `, so that the
/// whole wrapper is commented out, and every line of one that can starts with the indent and
/// eight spaces.
pub proof fn law_method_text_lines(c: Config, class: Seq<char>, m: MethodModel, rust_name: Option<Seq<char>>, indent: Seq<char>)
    ensures
        exists|texts: Seq<Seq<char>>| method_text(c, class, m, rust_name, indent)
            == seq!['\n'] + #[trigger] lines_after(wrapper_indent(indent, is_rejected(c, class, m, rust_name)), texts),
{
    let (reasons, method_name, decl, array, ret_decl, frag) = method_parts(c, class, m, rust_name);
    let ind = wrapper_indent(indent, reasons.len() > 0);
    let is_ctor = m.name == "<init>"@;
    let is_static = m.flags & 0x0008 == 0x0008;
    let access = if m.flags & 0x0001 == 0x0001 { "pub "@ } else { Seq::<char>::empty() };
    let p1 = reason_lines(ind, reasons);
    let p2 = match method_link(c.doc_patterns@, class, m) {
        Some((label, url)) => line(ind, "/// ["@ + label + "]("@ + url + ")"@),
        None => Seq::<char>::empty(),
    };
    let p3 = line(ind, access + "fn "@ + method_name + "<'env>("@ + decl + ") -> __jni_bindgen::Result<"@ + ret_decl + "> {"@);
    let p4 = line(ind, "    // class.path == "@ + debug_str(class) + ", java.flags == "@ + flags_debug(m.flags)
        + ", .name == "@ + debug_str(m.name) + ", .descriptor == Descriptor { string: "@ + debug_str(m.descriptor) + " }"@);
    let p5 = line(ind, "    unsafe {"@);
    let p6 = line(ind, "        let __jni_args = ["@ + array + "];"@);
    let p7 = if is_ctor || is_static {
        if c.codegen.static_env == StaticEnvStyle::Explicit { Seq::<char>::empty() } else { line(ind, "    let __jni_env = ...?;"@) }
    } else {
        line(ind, "        let __jni_env = __jni_bindgen::Env::from_ptr(self.0.env);"@)
    };
    let p8 = line(ind, "        let (__jni_class, __jni_method) = __jni_env.require_class_"@ + (if is_static { "static_"@ } else { Seq::<char>::empty() })
        + "method("@ + cstr_literal(class) + ", "@ + cstr_literal(m.name) + ", "@ + cstr_literal(m.descriptor) + ");"@);
    let p9 = if is_ctor {
        line(ind, "        __jni_env.new_object_a(__jni_class, __jni_method, __jni_args.as_ptr())"@)
    } else if is_static {
        line(ind, "        __jni_env.call_static_"@ + frag + "_method_a(__jni_class, __jni_method, __jni_args.as_ptr())"@)
    } else {
        line(ind, "        __jni_env.call_"@ + frag + "_method_a(self.0.object, __jni_method, __jni_args.as_ptr())"@)
    };
    let p10 = line(ind, "    }"@);
    let p11 = line(ind, "}"@);

    lemma_reason_lines(ind, reasons);
    assert(is_lines_after(p1, ind));
    lemma_lines_base(ind, "    let __jni_env = ...?;"@);
    match method_link(c.doc_patterns@, class, m) {
        Some((label, url)) => lemma_lines_base(ind, "/// ["@ + label + "]("@ + url + ")"@),
        None => {},
    }
    lemma_lines_base(ind, access + "fn "@ + method_name + "<'env>("@ + decl + ") -> __jni_bindgen::Result<"@ + ret_decl + "> {"@);
    lemma_lines_base(ind, "    // class.path == "@ + debug_str(class) + ", java.flags == "@ + flags_debug(m.flags)
        + ", .name == "@ + debug_str(m.name) + ", .descriptor == Descriptor { string: "@ + debug_str(m.descriptor) + " }"@);
    lemma_lines_base(ind, "    unsafe {"@);
    lemma_lines_base(ind, "        let __jni_args = ["@ + array + "];"@);
    lemma_lines_base(ind, "        let __jni_env = __jni_bindgen::Env::from_ptr(self.0.env);"@);
    lemma_lines_base(ind, "        let (__jni_class, __jni_method) = __jni_env.require_class_"@ + (if is_static { "static_"@ } else { Seq::<char>::empty() })
        + "method("@ + cstr_literal(class) + ", "@ + cstr_literal(m.name) + ", "@ + cstr_literal(m.descriptor) + ");"@);
    lemma_lines_base(ind, "        __jni_env.new_object_a(__jni_class, __jni_method, __jni_args.as_ptr())"@);
    lemma_lines_base(ind, "        __jni_env.call_static_"@ + frag + "_method_a(__jni_class, __jni_method, __jni_args.as_ptr())"@);
    lemma_lines_base(ind, "        __jni_env.call_"@ + frag + "_method_a(self.0.object, __jni_method, __jni_args.as_ptr())"@);
    lemma_lines_base(ind, "    }"@);
    lemma_lines_base(ind, "}"@);

    let q = seq!['\n'];
    let b2 = p1 + p2;
    let b3 = b2 + p3;
    let b4 = b3 + p4;
    let b5 = b4 + p5;
    let b6 = b5 + p6;
    let b7 = b6 + p7;
    let b8 = b7 + p8;
    let b9 = b8 + p9;
    let b10 = b9 + p10;
    let body = b10 + p11;
    lemma_lines_join(p1, p2, ind);
    lemma_lines_join(b2, p3, ind);
    lemma_lines_join(b3, p4, ind);
    lemma_lines_join(b4, p5, ind);
    lemma_lines_join(b5, p6, ind);
    lemma_lines_join(b6, p7, ind);
    lemma_lines_join(b7, p8, ind);
    lemma_lines_join(b8, p9, ind);
    lemma_lines_join(b9, p10, ind);
    lemma_lines_join(b10, p11, ind);
    lemma_concat_associative(q, p1, p2);
    lemma_concat_associative(q, b2, p3);
    lemma_concat_associative(q, b3, p4);
    lemma_concat_associative(q, b4, p5);
    lemma_concat_associative(q, b5, p6);
    lemma_concat_associative(q, b6, p7);
    lemma_concat_associative(q, b7, p8);
    lemma_concat_associative(q, b8, p9);
    lemma_concat_associative(q, b9, p10);
    lemma_concat_associative(q, b10, p11);
    assert(method_text(c, class, m, rust_name, indent) == q + body);
    let texts = choose|t: Seq<Seq<char>>| body == #[trigger] lines_after(ind, t);
    assert(ind == wrapper_indent(indent, is_rejected(c, class, m, rust_name)));
    assert(method_text(c, class, m, rust_name, indent) == seq!['\n'] + lines_after(wrapper_indent(indent, is_rejected(c, class, m, rust_name)), texts));
}

/// The Rust name a naming style gives a method, if it gives one.
pub open spec fn mangled_name(style: MethodManglingStyle, m: MethodModel) -> Option<Seq<char>> {
    match mangle_method(style, m.name, parse_method_descriptor(m.descriptor)->Ok_0.0) {
        Ok(n) => Some(n),
        Err(_) => None,
    }
}

/// A Java method of a class, and the Rust name it is given.
pub struct Method<'a> {
    class: &'a Class,
    java: &'a JavaMethod,
    rust_name: Option<String>,
    mangling_style: MethodManglingStyle,
}

impl<'a> Method<'a> {
    #[verifier::type_invariant]
    spec fn inv(self) -> bool {
        self.java.wf()
    }

    /// The class the method is of.
    pub closed spec fn class_spec(self) -> Class {
        *self.class
    }

    /// The method.
    pub closed spec fn java_spec(self) -> JavaMethod {
        *self.java
    }

    /// The class the method is of.
    pub fn class(&self) -> (c: &'a Class)
        ensures
            *c == self.class_spec(),
    {
        self.class
    }

    /// The method.
    pub fn java(&self) -> (j: &'a JavaMethod)
        ensures
            *j == self.java_spec(),
            j.wf(),
    {
        proof { use_type_invariant(self); }
        self.java
    }

    /// The Rust name, if the naming style could give one.
    pub closed spec fn rust_name_spec(self) -> Option<Seq<char>> {
        match self.rust_name {
            Some(n) => Some(n@),
            None => None,
        }
    }

    /// The naming style.
    pub closed spec fn style(self) -> MethodManglingStyle {
        self.mangling_style
    }

    /// A method named in the configuration's naming style.
    pub fn new(context: &Context, class: &'a Class, java: &'a JavaMethod) -> (m: Self)
        requires
            java.wf(),
        ensures
            m.class_spec() == *class,
            m.java_spec() == *java,
            m.style() == context.config_spec().codegen.method_naming_style,
            m.rust_name_spec() == mangled_name(context.config_spec().codegen.method_naming_style, java@),
    {
        let mut result = Self { class, java, rust_name: None, mangling_style: MethodManglingStyle::Java };
        result.set_mangling_style(context.config().codegen.method_naming_style);
        result
    }

    /// The Rust name, if the naming style could give one.
    pub fn rust_name(&self) -> (r: Option<&str>)
        ensures
            match self.rust_name_spec() {
                Some(n) => r is Some && r->Some_0@ == n,
                None => r is None,
            },
    {
        match &self.rust_name {
            Some(n) => Some(n.as_str()),
            None => None,
        }
    }

    /// The naming style.
    pub fn mangling_style(&self) -> (s: MethodManglingStyle)
        ensures
            s == self.style(),
    {
        self.mangling_style
    }

    /// Names the method in another style.
    pub fn set_mangling_style(&mut self, style: MethodManglingStyle)
        ensures
            final(self).class_spec() == old(self).class_spec(),
            final(self).java_spec() == old(self).java_spec(),
            final(self).style() == style,
            final(self).rust_name_spec() == mangled_name(style, old(self).java_spec()@),
    {
        proof { use_type_invariant(&*self); }
        let name = match style.mangle(self.java.name_str(), self.java.descriptor()) {
            Ok(name) => Some(name),
            Err(_) => None,
        };
        self.rust_name = name;
        self.mangling_style = style;
    }
}


/// The keys of a method in the rules of the configuration: its class, the method, and the method
/// with its descriptor.
fn rule_keys(class: &str, name: &str, desc: &str) -> (r: (String, String, String))
    ensures
        r.0@ == class@,
        r.1@ == class@ + unit_sep() + name@,
        r.2@ == class@ + unit_sep() + name@ + unit_sep() + desc@,
{
    let mut k2: Vec<char> = Vec::new();
    push_str_chars(&mut k2, class);
    k2.push('\x1f');
    push_str_chars(&mut k2, name);
    let mut k3: Vec<char> = Vec::new();
    push_chars(&mut k3, k2.as_slice());
    k3.push('\x1f');
    push_str_chars(&mut k3, desc);
    assert(k2@ =~= class@ + unit_sep() + name@);
    assert(k3@ =~= class@ + unit_sep() + name@ + unit_sep() + desc@);
    (class.to_owned(), string_from_chars(k2.as_slice()), string_from_chars(k3.as_slice()))
}

/// The reasons as character sequences.
pub open spec fn reasons_model(v: Seq<&'static str>) -> Seq<Seq<char>> {
    v.map_values(|x: &'static str| x@)
}

/// Adds a reason.
pub(crate) fn add_reason(reasons: &mut Vec<&'static str>, reason: &'static str)
    ensures
        reasons_model(final(reasons)@) == reasons_model(old(reasons)@).push(reason@),
{
    reasons.push(reason);
    assert(reasons_model(final(reasons)@) =~= reasons_model(old(reasons)@).push(reason@));
}

/// Appends reasons.
pub(crate) fn add_reasons(reasons: &mut Vec<&'static str>, more: &Vec<&'static str>)
    ensures
        reasons_model(final(reasons)@) == reasons_model(old(reasons)@) + reasons_model(more@),
{
    let mut k: usize = 0;
    while k < more.len()
        invariant
            k <= more@.len(),
            reasons_model(reasons@) == reasons_model(old(reasons)@) + reasons_model(more@.take(k as int)),
        decreases more@.len() - k,
    {
        add_reason(reasons, more[k]);
        proof {
            assert(reasons_model(more@.take(k + 1)) =~= reasons_model(more@.take(k as int)).push(more@[k as int]@));
        }
        k = k + 1;
    }
    assert(more@.take(more@.len() as int) =~= more@);
}

impl<'a> Method<'a> {
    /// The Rust name and the first reasons (see `method_head`).
    fn head(&self, context: &Context) -> (r: (Vec<char>, Vec<&'static str>))
        ensures
            ({
                let (name, rs) = method_head(context.config_spec(), self.class_spec().path@, self.java_spec()@, self.rust_name_spec());
                r.0@ == name && reasons_model(r.1@) == rs
            }),
    {
        proof { use_type_invariant(self); reveal_strlit("<clinit>"); }
        let config = context.config();
        let java = self.java;
        let class_path = self.class.path.as_str();
        let (k1, k2, k3) = rule_keys(class_path, java.name_str(), java.descriptor_str());
        let mut reasons: Vec<&'static str> = Vec::new();
        assert(reasons_model(reasons@) =~= Seq::<Seq<char>>::empty());

        let renamed = match config.rename_classes.get(k1.as_str()) {
            Some(r) => Some(r),
            None => match config.rename_class_methods.get(k2.as_str()) {
                Some(r) => Some(r),
                None => config.rename_class_method_sigs.get(k3.as_str()),
            },
        };
        let mut method_name: Vec<char> = Vec::new();
        match renamed {
            Some(r) => push_str_chars(&mut method_name, r),
            None => match &self.rust_name {
                Some(n) => push_str_chars(&mut method_name, n.as_str()),
                None => {
                    add_reason(&mut reasons, "Failed to mangle method name");
                    push_str_chars(&mut method_name, java.name_str());
                },
            },
        }

        let ghost r0 = reasons_model(reasons@);
        if !java.is_public() { add_reason(&mut reasons, "Non-public method"); }
        let ghost ra = reasons_model(reasons@);
        assert(ra =~= r0 + reason_if(java@.flags & 0x0001 != 0x0001, "Non-public method"@));
        if java.is_varargs() { add_reason(&mut reasons, "Marked as varargs - haven't decided on how I want to handle this."); }
        let ghost rb = reasons_model(reasons@);
        assert(rb =~= ra + reason_if(java@.flags & 0x0080 == 0x0080, "Marked as varargs - haven't decided on how I want to handle this."@));
        if java.is_bridge() { add_reason(&mut reasons, "Bridge method - type erasure"); }
        let ghost rc = reasons_model(reasons@);
        assert(rc =~= rb + reason_if(java@.flags & 0x0040 == 0x0040, "Bridge method - type erasure"@));
        if java.is_static_init() { add_reason(&mut reasons, "Static class constructor - never needs to be called by Rust."); }
        let ghost rd = reasons_model(reasons@);
        assert(rd =~= rc + reason_if(java@.name == "<clinit>"@, "Static class constructor - never needs to be called by Rust."@));
        let ignored = config.ignore_classes.contains(k1.as_str())
            || config.ignore_class_methods.contains(k2.as_str())
            || config.ignore_class_method_sigs.contains(k3.as_str());
        if ignored { add_reason(&mut reasons, "[[ignore]]d"); }
        let ghost re = reasons_model(reasons@);
        assert(re =~= rd + reason_if(is_ignored(*config, class_path@, java@.name, java@.descriptor), "[[ignore]]d"@));
        (method_name, reasons)
    }

    /// How the wrapper gets the JNI environment (see `method_env`).
    fn env(&self, context: &Context) -> (r: (Vec<char>, Vec<&'static str>))
        ensures
            ({
                let (decl0, rs) = method_env(context.config_spec(), self.java_spec()@);
                r.0@ == decl0 && reasons_model(r.1@) == rs
            }),
    {
        proof { reveal_strlit("<init>"); }
        let mut reasons: Vec<&'static str> = Vec::new();
        let mut decl0: Vec<char> = Vec::new();
        if self.java.is_constructor() || self.java.is_static() {
            match context.config().codegen.static_env {
                StaticEnvStyle::Explicit => push_str_chars(&mut decl0, "__jni_env: &'env __jni_bindgen::Env"),
                StaticEnvStyle::Implicit => reasons.push("StaticEnvStyle::Implicit not yet implemented"),
            }
        } else {
            push_str_chars(&mut decl0, "&'env self");
        }
        assert(decl0@ =~= method_env(context.config_spec(), self.java_spec()@).0);
        assert(reasons_model(reasons@) =~= method_env(context.config_spec(), self.java_spec()@).1);
        (decl0, reasons)
    }

    /// The result type and the kind of call (see `method_ret`).
    fn ret(&self, context: &Context) -> (r: (Vec<char>, Vec<char>, Vec<&'static str>))
        ensures
            ({
                let (ret_decl, frag, rs) = method_ret(context.config_spec().output_file_stem, self.class_spec().path@, self.java_spec()@);
                r.0@ == ret_decl && r.1@ == frag && reasons_model(r.2@) == rs
            }),
    {
        proof { use_type_invariant(self); reveal_strlit("<init>"); }
        let class_path = self.class.path.as_str();
        let descriptor = self.java.descriptor();
        let ret = descriptor.return_type();
        let (ret_decl0, ret_reason) = ret_type_text(context, ret);
        let mut reasons: Vec<&'static str> = Vec::new();
        match ret_reason {
            Some(x) => reasons.push(x),
            None => {},
        }
        let mut frag: Vec<char> = Vec::new();
        let mut ret_decl: Vec<char> = Vec::new();
        if self.java.is_constructor() {
            if matches!(ret, Descriptor::Single(BasicType::Void)) {
                push_str_chars(&mut frag, "object");
                match rust_path(context, class_path) {
                    Some(p) => {
                        push_str_chars(&mut ret_decl, "__jni_bindgen::Local<'env, ");
                        push_str_chars(&mut ret_decl, p.as_str());
                        push_str_chars(&mut ret_decl, ">");
                    },
                    None => {
                        reasons.push("Failed to resolve JNI path to Rust path for this type");
                        push_str_chars(&mut ret_decl, crate::emit_rust::rust_text::debug_text(class_path).as_str());
                    },
                }
            } else {
                reasons.push("Constructor should've returned void");
                push_str_chars(&mut frag, ret_fragment_text(ret));
                ret_decl = ret_decl0;
            }
        } else {
            push_str_chars(&mut frag, ret_fragment_text(ret));
            ret_decl = ret_decl0;
        }
        let ghost want = method_ret(context.config_spec().output_file_stem, self.class_spec().path@, self.java_spec()@);
        assert(ret_decl@ =~= want.0);
        assert(frag@ =~= want.1);
        assert(reasons_model(reasons@) =~= want.2);
        (ret_decl, frag, reasons)
    }

    /// The parts of the wrapper (see `method_parts`).
    fn parts(&self, context: &Context) -> (r: (Vec<&'static str>, Vec<char>, Vec<char>, Vec<char>, Vec<char>, Vec<char>))
        ensures
            ({
                let (rs, name, decl, array, ret_decl, frag) = method_parts(context.config_spec(), self.class_spec().path@, self.java_spec()@, self.rust_name_spec());
                &&& reasons_model(r.0@) == rs
                &&& r.1@ == name
                &&& r.2@ == decl
                &&& r.3@ == array
                &&& r.4@ == ret_decl
                &&& r.5@ == frag
            }),
    {
        proof { use_type_invariant(self); }
        let (method_name, mut reasons) = self.head(context);
        let (decl0, env_reasons) = self.env(context);
        add_reasons(&mut reasons, &env_reasons);
        let descriptor = self.java.descriptor();
        let args = descriptor.arguments();
        let (array, decl, arg_reasons) = args_texts(context, &args, decl0);
        add_reasons(&mut reasons, &arg_reasons);
        let (ret_decl, frag, ret_reasons) = self.ret(context);
        add_reasons(&mut reasons, &ret_reasons);
        (reasons, method_name, decl, array, ret_decl, frag)
    }
}


/// Appends a line of generated code.
pub(crate) fn push_line(out: &mut Vec<char>, indent: &Vec<char>, text: &Vec<char>)
    ensures
        final(out)@ == old(out)@ + line(indent@, text@),
{
    let ghost start = out@;
    push_chars(out, indent.as_slice());
    push_chars(out, text.as_slice());
    out.push('\n');
    assert(out@ =~= start + line(indent@, text@));
}

/// Appends a `// Not emitting:` comment line for each reason.
pub(crate) fn push_reason_lines(out: &mut Vec<char>, indent: &Vec<char>, reasons: &Vec<&'static str>)
    ensures
        final(out)@ == old(out)@ + reason_lines(indent@, reasons_model(reasons@)),
{
    let ghost start = out@;
    let ghost rm = reasons_model(reasons@);
    let mut k: usize = 0;
    while k < reasons.len()
        invariant
            k <= reasons@.len(),
            rm == reasons_model(reasons@),
            out@ == start + reason_lines(indent@, rm.take(k as int)),
        decreases reasons@.len() - k,
    {
        let mut t: Vec<char> = Vec::new();
        push_str_chars(&mut t, "// Not emitting: ");
        push_str_chars(&mut t, reasons[k]);
        push_line(out, indent, &t);
        proof {
            let next = rm.take(k + 1);
            assert(next.drop_last() =~= rm.take(k as int));
            assert(next.last() == reasons@[k as int]@);
            assert(out@ =~= start + reason_lines(indent@, next));
        }
        k = k + 1;
    }
    assert(rm.take(reasons@.len() as int) =~= rm);
}

impl<'a> Method<'a> {
    /// The text of the method's wrapper (see `method_text`), each line after `indent`.
    pub fn emit(&self, context: &Context, indent: &str) -> (text: String)
        ensures
            text@ == method_text(context.config_spec(), self.class_spec().path@, self.java_spec()@, self.rust_name_spec(), indent@),
    {
        proof { use_type_invariant(self); }
        let ghost c = context.config_spec();
        let ghost class = self.class_spec().path@;
        let ghost m = self.java_spec()@;
        let java = self.java;
        let class_path = self.class.path.as_str();
        let (reasons, method_name, decl, array, ret_decl, frag) = self.parts(context);
        let is_ctor = java.is_constructor();
        let is_static = java.is_static();

        let mut ind: Vec<char> = Vec::new();
        push_str_chars(&mut ind, indent);
        if reasons.len() > 0 {
            push_str_chars(&mut ind, "        // ");
        } else {
            push_str_chars(&mut ind, "        ");
        }

        let mut out: Vec<char> = Vec::new();
        out.push('\n');
        push_reason_lines(&mut out, &ind, &reasons);
        let ghost p1 = out@;
        match KnownDocsUrl::from_method(context, class_path, java) {
            Some(url) => {
                let mut t: Vec<char> = Vec::new();
                push_str_chars(&mut t, "/// [");
                push_str_chars(&mut t, url.label.as_str());
                push_str_chars(&mut t, "](");
                push_str_chars(&mut t, url.url.as_str());
                push_str_chars(&mut t, ")");
                push_line(&mut out, &ind, &t);
            },
            None => {},
        }
        let ghost p2 = out@;
        assert(p2 =~= p1 + match method_link(c.doc_patterns@, class, m) {
            Some((label, url)) => line(ind@, "/// ["@ + label + "]("@ + url + ")"@),
            None => Seq::<char>::empty(),
        });

        let mut t: Vec<char> = Vec::new();
        if java.is_public() {
            push_str_chars(&mut t, "pub ");
        }
        push_str_chars(&mut t, "fn ");
        push_chars(&mut t, method_name.as_slice());
        push_str_chars(&mut t, "<'env>(");
        push_chars(&mut t, decl.as_slice());
        push_str_chars(&mut t, ") -> __jni_bindgen::Result<");
        push_chars(&mut t, ret_decl.as_slice());
        push_str_chars(&mut t, "> {");
        push_line(&mut out, &ind, &t);

        let mut t: Vec<char> = Vec::new();
        push_str_chars(&mut t, "    // class.path == ");
        push_str_chars(&mut t, crate::emit_rust::rust_text::debug_text(class_path).as_str());
        push_str_chars(&mut t, ", java.flags == ");
        let flags = flags_debug_text(java.flag_bits());
        push_chars(&mut t, flags.as_slice());
        push_str_chars(&mut t, ", .name == ");
        push_str_chars(&mut t, crate::emit_rust::rust_text::debug_text(java.name_str()).as_str());
        push_str_chars(&mut t, ", .descriptor == Descriptor { string: ");
        push_str_chars(&mut t, crate::emit_rust::rust_text::debug_text(java.descriptor_str()).as_str());
        push_str_chars(&mut t, " }");
        push_line(&mut out, &ind, &t);
        let ghost p3 = out@;

        let mut t: Vec<char> = Vec::new();
        push_str_chars(&mut t, "    unsafe {");
        push_line(&mut out, &ind, &t);

        let mut t: Vec<char> = Vec::new();
        push_str_chars(&mut t, "        let __jni_args = [");
        push_chars(&mut t, array.as_slice());
        push_str_chars(&mut t, "];");
        push_line(&mut out, &ind, &t);
        let ghost p4 = out@;

        if is_ctor || is_static {
            match context.config().codegen.static_env {
                StaticEnvStyle::Explicit => {},
                StaticEnvStyle::Implicit => {
                    let mut t: Vec<char> = Vec::new();
                    push_str_chars(&mut t, "    let __jni_env = ...?;");
                    push_line(&mut out, &ind, &t);
                },
            }
        } else {
            let mut t: Vec<char> = Vec::new();
            push_str_chars(&mut t, "        let __jni_env = __jni_bindgen::Env::from_ptr(self.0.env);");
            push_line(&mut out, &ind, &t);
        }
        let ghost p5 = out@;
        assert(p5 =~= p4 + if is_ctor || is_static {
            if c.codegen.static_env == StaticEnvStyle::Explicit { Seq::<char>::empty() } else { line(ind@, "    let __jni_env = ...?;"@) }
        } else {
            line(ind@, "        let __jni_env = __jni_bindgen::Env::from_ptr(self.0.env);"@)
        });

        let mut t: Vec<char> = Vec::new();
        push_str_chars(&mut t, "        let (__jni_class, __jni_method) = __jni_env.require_class_");
        if is_static {
            push_str_chars(&mut t, "static_");
        }
        push_str_chars(&mut t, "method(");
        push_chars(&mut t, emit_cstr(class_path).as_slice());
        push_str_chars(&mut t, ", ");
        push_chars(&mut t, emit_cstr(java.name_str()).as_slice());
        push_str_chars(&mut t, ", ");
        push_chars(&mut t, emit_cstr(java.descriptor_str()).as_slice());
        push_str_chars(&mut t, ");");
        push_line(&mut out, &ind, &t);

        let mut t: Vec<char> = Vec::new();
        if is_ctor {
            push_str_chars(&mut t, "        __jni_env.new_object_a(__jni_class, __jni_method, __jni_args.as_ptr())");
        } else if is_static {
            push_str_chars(&mut t, "        __jni_env.call_static_");
            push_chars(&mut t, frag.as_slice());
            push_str_chars(&mut t, "_method_a(__jni_class, __jni_method, __jni_args.as_ptr())");
        } else {
            push_str_chars(&mut t, "        __jni_env.call_");
            push_chars(&mut t, frag.as_slice());
            push_str_chars(&mut t, "_method_a(self.0.object, __jni_method, __jni_args.as_ptr())");
        }
        push_line(&mut out, &ind, &t);

        let mut t: Vec<char> = Vec::new();
        push_str_chars(&mut t, "    }");
        push_line(&mut out, &ind, &t);
        let mut t: Vec<char> = Vec::new();
        push_str_chars(&mut t, "}");
        push_line(&mut out, &ind, &t);
        proof {
            assert(out@ =~= method_text(c, class, m, self.rust_name_spec(), indent@));
        }
        string_from_chars(out.as_slice())
    }
}

} // verus!
