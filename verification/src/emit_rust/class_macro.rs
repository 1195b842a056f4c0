//! One Java class as a `__bindgen_jni!` declaration: a header naming the class it extends and
//! the interfaces it implements, then a function for each method that finds the class and the
//! method through raw JNI, calls it, and turns a pending Java exception into an `Err`.

use vstd::prelude::*;
use vstd::seq_lib::lemma_concat_associative;
use crate::descriptor::{BasicType, BasicTypeModel, Descriptor, DescriptorModel};
use crate::emit_rust::context::Context;
use crate::emit_rust::known_docs_url::KnownDocsUrl;
use crate::emit_rust::methods::{
    add_reason, add_reasons, flags_debug, flags_debug_text, is_lines_after, lemma_lines_base,
    lemma_lines_join, lemma_reason_lines, line, lines_after, push_line, push_reason_lines, reason_if,
    reason_lines, reasons_model, rust_path, rust_path_of, wrapper_indent,
};
use crate::emit_rust::rust_text::{cstr_literal, debug_str, debug_text, decimal, descriptor_debug, emit_cstr, id_debug, push_decimal, push_descriptor_debug, push_id_debug};
use crate::jar::{methods_model, Class, ClassModel, Method as JavaMethod, MethodModel};
use crate::method::{parse_method_descriptor, types_model};
use crate::method_mangling::{mangle_method_name, mangle_method_name_spec};
use crate::text::{push_chars, push_str_chars, str_eq, string_from_chars};

verus! {

// ---------------------------------------------------------------------------------------------
// Types

/// The Rust type of a parameter, whether it is passed as an object, and why it cannot be
/// emitted, if it cannot.
pub open spec fn jni_arg_type(stem: Option<String>, d: DescriptorModel) -> (Seq<char>, bool, Option<Seq<char>>) {
    match d {
        DescriptorModel::Single(b) => match b {
            BasicTypeModel::Void => ("()"@, false, None),
            BasicTypeModel::Boolean => ("bool"@, false, None),
            BasicTypeModel::Byte => ("i8"@, false, None),
            BasicTypeModel::Char => ("__bindgen_jni::jchar"@, false, None),
            BasicTypeModel::Short => ("i16"@, false, None),
            BasicTypeModel::Int => ("i32"@, false, None),
            BasicTypeModel::Long => ("i64"@, false, None),
            BasicTypeModel::Float => ("f32"@, false, None),
            BasicTypeModel::Double => ("f64"@, false, None),
            BasicTypeModel::Class(c) => match rust_path_of(stem, c) {
                Some(p) => ("&impl __bindgen_jni::std::convert::AsRef<"@ + p + ">"@, true, None),
                None => (id_debug(c), true, Some("Failed to resolve JNI path to Rust path for argument type"@)),
            },
        },
        DescriptorModel::Array { .. } => (descriptor_debug(d), false, Some("Passing in arrays not yet supported"@)),
    }
}

/// The Rust type of the result, whether it is an object, and why it cannot be emitted, if it cannot.
pub open spec fn jni_ret_type(stem: Option<String>, d: DescriptorModel) -> (Seq<char>, bool, Option<Seq<char>>) {
    match d {
        DescriptorModel::Single(b) => match b {
            BasicTypeModel::Void => ("()"@, false, None),
            BasicTypeModel::Boolean => ("bool"@, false, None),
            BasicTypeModel::Byte => ("i8"@, false, None),
            BasicTypeModel::Char => ("__bindgen_jni::jchar"@, false, None),
            BasicTypeModel::Short => ("i16"@, false, None),
            BasicTypeModel::Int => ("i32"@, false, None),
            BasicTypeModel::Long => ("i64"@, false, None),
            BasicTypeModel::Float => ("f32"@, false, None),
            BasicTypeModel::Double => ("f64"@, false, None),
            BasicTypeModel::Class(c) => match rust_path_of(stem, c) {
                Some(p) => ("__bindgen_jni::std::option::Option<__bindgen_jni::Local<'env, "@ + p + ">>"@, true, None),
                None => (id_debug(c), true, Some("Failed to resolve JNI path to Rust path for return type"@)),
            },
        },
        DescriptorModel::Array { .. } => (descriptor_debug(d), true, Some("Returning arrays not yet supported"@)),
    }
}

/// The JNI call for this result type: `Call{kind}MethodA`.
pub open spec fn jni_call_kind(d: DescriptorModel) -> Seq<char> {
    match d {
        DescriptorModel::Single(b) => match b {
            BasicTypeModel::Void => "Void"@,
            BasicTypeModel::Boolean => "Boolean"@,
            BasicTypeModel::Byte => "Byte"@,
            BasicTypeModel::Char => "Char"@,
            BasicTypeModel::Short => "Short"@,
            BasicTypeModel::Int => "Int"@,
            BasicTypeModel::Long => "Long"@,
            BasicTypeModel::Float => "Float"@,
            BasicTypeModel::Double => "Double"@,
            BasicTypeModel::Class(_) => "Object"@,
        },
        DescriptorModel::Array { .. } => "Object"@,
    }
}

/// The parameters, as they appear in the call's argument array and in the function's
/// parameter list (after `decl0`), with the reasons some cannot be emitted.
pub open spec fn jni_args_state(stem: Option<String>, args: Seq<DescriptorModel>, decl0: Seq<char>) -> (Seq<char>, Seq<char>, Seq<Seq<char>>)
    decreases args.len(),
{
    if args.len() == 0 {
        (Seq::empty(), decl0, Seq::empty())
    } else {
        let (a, d, rs) = jni_args_state(stem, args.drop_last(), decl0);
        let name = "arg"@ + decimal((args.len() - 1) as nat);
        let (t, obj, reason) = jni_arg_type(stem, args.last());
        let a2 = (if a.len() > 0 { a + ", "@ } else { a }) + "__bindgen_jni::AsJValue::as_jvalue("@
            + (if obj { Seq::empty() } else { "&"@ }) + name + (if obj { ".as_ref()"@ } else { Seq::empty() }) + ")"@;
        let d2 = (if d.len() > 0 { d + ", "@ } else { d }) + name + ": "@ + t;
        (a2, d2, match reason { Some(x) => rs.push(x), None => rs })
    }
}

// ---------------------------------------------------------------------------------------------
// Names

/// The Rust name of a public method, if it has one; overloads are found by these.
pub open spec fn public_name(m: MethodModel) -> Option<Seq<char>> {
    if m.flags & 0x0001 == 0x0001 {
        match mangle_method_name_spec(m.name) {
            Ok(n) => Some(n),
            Err(_) => None,
        }
    } else {
        None
    }
}

/// How many public methods have the Rust name `n`.
pub open spec fn name_count(ms: Seq<MethodModel>, n: Seq<char>) -> nat
    decreases ms.len(),
{
    if ms.len() == 0 {
        0
    } else {
        name_count(ms.drop_last(), n) + if public_name(ms.last()) == Some(n) { 1nat } else { 0nat }
    }
}

// ---------------------------------------------------------------------------------------------
// Methods

/// The descriptor walks from `(`; a descriptor without it is emitted as `()V`.
pub open spec fn starts_with_paren(s: Seq<char>) -> bool {
    s.len() > 0 && s[0] == '('
}

/// The parameter and result types that are emitted for a method descriptor.
pub open spec fn emitted_signature(s: Seq<char>) -> (Seq<DescriptorModel>, DescriptorModel) {
    if starts_with_paren(s) {
        parse_method_descriptor(s)->Ok_0
    } else {
        (Seq::empty(), DescriptorModel::Single(BasicTypeModel::Void))
    }
}

/// The Rust name of a method and why it cannot be emitted, up to its descriptor: a failed name,
/// then its flags, an overload of its name among `all`, and its kind.
pub open spec fn macro_method_head(all: Seq<MethodModel>, m: MethodModel) -> (Seq<char>, Seq<Seq<char>>) {
    let (name, r0) = match mangle_method_name_spec(m.name) {
        Ok(n) => (n, Seq::<Seq<char>>::empty()),
        Err(_) => (m.name, seq!["Failed to mangle method name"@]),
    };
    (name, r0
        + reason_if(m.flags & 0x0001 != 0x0001, "Non-public method"@)
        + reason_if(m.flags & 0x0080 == 0x0080, "Marked as varargs - haven't decided on how I want to handle this."@)
        + reason_if(name_count(all, name) > 1, "Overloaded - I haven't decided how I want to deconflict overloads."@)
        + reason_if(m.name == "<clinit>"@, "Static class constructor - never needs to be called by Rust."@)
        + reason_if(m.name == "<init>"@, "I haven't decided how to pass JNIEnv for constructors yet."@)
        + reason_if(m.flags & 0x0008 == 0x0008, "I haven't decided how to pass JNIEnv for static methods yet."@)
        + reason_if(!starts_with_paren(m.descriptor), "Invalid method descriptor"@))
}

/// The parts of a method's function: why it cannot be emitted (none when it can), its Rust
/// name, its parameter list, its call's argument array, its result type, whether the result is
/// an object, and the result's descriptor.
#[verifier::opaque]
pub open spec fn macro_method_parts(stem: Option<String>, all: Seq<MethodModel>, m: MethodModel)
    -> (Seq<Seq<char>>, Seq<char>, Seq<char>, Seq<char>, Seq<char>, bool, DescriptorModel)
{
    let (name, r1) = macro_method_head(all, m);
    let (args, ret) = emitted_signature(m.descriptor);
    let decl0 = if m.flags & 0x0008 == 0x0008 || m.name == "<init>"@ { Seq::<char>::empty() } else { "&'env self"@ };
    let (array, decl, ar) = jni_args_state(stem, args, decl0);
    let (ret_decl, ret_obj, rr) = jni_ret_type(stem, ret);
    let r2 = match rr { Some(x) => seq![x], None => Seq::<Seq<char>>::empty() };
    let r3 = reason_if(m.name == "<init>"@ && ret != DescriptorModel::Single(BasicTypeModel::Void), "Constructor should've returned void"@);
    (r1 + ar + r2 + r3, name, decl, array, ret_decl, ret_obj, ret)
}

/// A string literal for JNI: NUL-terminated, as a C string pointer.
pub open spec fn jni_cstr(s: Seq<char>) -> Seq<char> {
    cstr_literal(s) + ".as_ptr() as *const __bindgen_jni::std::os::raw::c_char"@
}

/// The lines that find the class and the method, and call it.
#[verifier::opaque]
pub open spec fn macro_call_lines(ind: Seq<char>, class: Seq<char>, m: MethodModel, kind: Seq<char>) -> Seq<char> {
    let find = line(ind, "    let __jni_class  = unsafe { (**__jni_env).FindClass.unwrap()(__jni_env, "@ + jni_cstr(class) + ") };"@);
    let class_ok = line(ind, "    assert_ne!(__jni_class, __bindgen_jni::std::ptr::null_mut());"@);
    let method_ok = line(ind, "    assert_ne!(__jni_method, __bindgen_jni::std::ptr::null_mut());"@);
    let ids = jni_cstr(m.name) + ", "@ + jni_cstr(m.descriptor) + ") };"@;
    if m.name == "<init>"@ {
        line(ind, "    let __jni_env = ...?"@) + find + class_ok
            + line(ind, "    let __jni_method = unsafe { (**__jni_env).GetMethodID.unwrap()(__jni_env, __jni_class, "@ + ids)
            + method_ok
            + line(ind, "    let result = unsafe { (**__jni_env).NewObjectA.unwrap()(__jni_env, __jni_class, __jni_method, __jni_args.as_ptr()) };"@)
    } else if m.flags & 0x0008 == 0x0008 {
        line(ind, "    let __jni_env = ...?"@) + find + class_ok
            + line(ind, "    let __jni_method = unsafe { (**__jni_env).GetStaticMethodID.unwrap()(__jni_env, __jni_class, "@ + ids)
            + method_ok
            + line(ind, "    let result = unsafe { (**__jni_env).CallStatic"@ + kind + "MethodA.unwrap()(__jni_env, __jni_class, __jni_method, __jni_args.as_ptr()) };"@)
    } else {
        line(ind, "    let __jni_this   = self.0.object;"@)
            + line(ind, "    let __jni_env    = self.0.env as *mut __bindgen_jni::jni_sys::JNIEnv;"@)
            + find + class_ok
            + line(ind, "    let __jni_method = unsafe { (**__jni_env).GetMethodID.unwrap()(__jni_env, __jni_class, "@ + ids)
            + method_ok
            + line(ind, "    let result = unsafe { (**__jni_env).Call"@ + kind + "MethodA.unwrap()(__jni_env, __jni_this, __jni_method, __jni_args.as_ptr()) };"@)
    }
}

/// The lines that turn a pending exception into `Err` and the call's result into `Ok`: an
/// object as `Option<Local>`, a `boolean` compared with `JNI_TRUE`, anything else as it is.
#[verifier::opaque]
pub open spec fn macro_result_lines(ind: Seq<char>, ret_obj: bool, ret_bool: bool) -> Seq<char> {
    line(ind, "    let __jni_exception = unsafe { (**__jni_env).ExceptionOccurred.unwrap()(__jni_env) };"@)
        + line(ind, "    if !__jni_exception.is_null() {"@)
        + line(ind, "        unsafe { (**__jni_env).ExceptionClear.unwrap()(__jni_env) };"@)
        + line(ind, "        Err(__jni_exception)"@)
        + if ret_obj {
            line(ind, "    } else if result.is_null() {"@)
                + line(ind, "        Ok(None)"@)
                + line(ind, "    } else {"@)
                + line(ind, "        let result = unsafe { __bindgen_jni::Local::from_object_lifetime_and_raw_env_obj(self, __jni_env as *const __bindgen_jni::jni_sys::JNIEnv, result) };"@)
                + line(ind, "        Ok(Some(result))"@)
        } else if ret_bool {
            line(ind, "    } else {"@) + line(ind, "        Ok(result == __bindgen_jni::jni_sys::JNI_TRUE)"@)
        } else {
            line(ind, "    } else {"@) + line(ind, "        Ok(result)"@)
        }
        + line(ind, "    }"@)
        + line(ind, "}"@)
}

/// The text of a method's function: a blank line; a `// Not emitting:` comment for each reason
/// it cannot be emitted, in which case the function itself is commented out; the function's
/// signature, its flags and descriptor as comments, and its body.
pub open spec fn macro_method_text(stem: Option<String>, class: Seq<char>, all: Seq<MethodModel>, m: MethodModel, indent: Seq<char>) -> Seq<char> {
    let (reasons, name, decl, array, ret_decl, ret_obj, ret) = macro_method_parts(stem, all, m);
    let ind = wrapper_indent(indent, reasons.len() > 0);
    let access = if m.flags & 0x0001 == 0x0001 { "pub "@ } else { Seq::empty() };
    seq!['\n']
        + reason_lines(ind, reasons)
        + line(ind, access + "fn "@ + name + "<'env>("@ + decl + ") -> __bindgen_jni::Result<"@ + ret_decl + "> {"@)
        + line(ind, "    // method.access_flags() == "@ + flags_debug(m.flags))
        + line(ind, "    // method.descriptor() == "@ + debug_str(m.descriptor))
        + line(ind, "    let __jni_args = ["@ + array + "];"@)
        + macro_call_lines(ind, class, m, jni_call_kind(ret))
        + macro_result_lines(ind, ret_obj, ret == DescriptorModel::Single(BasicTypeModel::Boolean))
}

/// Whether a method's function cannot be emitted, and is commented out: it has a reason.
pub open spec fn is_macro_rejected(stem: Option<String>, all: Seq<MethodModel>, m: MethodModel) -> bool {
    macro_method_parts(stem, all, m).0.len() > 0
}

/// The call lines are lines after their indent.
proof fn lemma_call_lines(ind: Seq<char>, class: Seq<char>, m: MethodModel, kind: Seq<char>)
    ensures
        is_lines_after(macro_call_lines(ind, class, m, kind), ind),
{
    reveal(macro_call_lines);
    let find = "    let __jni_class  = unsafe { (**__jni_env).FindClass.unwrap()(__jni_env, "@ + jni_cstr(class) + ") };"@;
    let class_ok = "    assert_ne!(__jni_class, __bindgen_jni::std::ptr::null_mut());"@;
    let method_ok = "    assert_ne!(__jni_method, __bindgen_jni::std::ptr::null_mut());"@;
    let ids = jni_cstr(m.name) + ", "@ + jni_cstr(m.descriptor) + ") };"@;
    let a = "    let __jni_env = ...?"@;
    lemma_lines_base(ind, find);
    lemma_lines_base(ind, class_ok);
    lemma_lines_base(ind, method_ok);
    lemma_lines_base(ind, a);
    if m.name == "<init>"@ {
        let b = "    let __jni_method = unsafe { (**__jni_env).GetMethodID.unwrap()(__jni_env, __jni_class, "@ + ids;
        let r = "    let result = unsafe { (**__jni_env).NewObjectA.unwrap()(__jni_env, __jni_class, __jni_method, __jni_args.as_ptr()) };"@;
        lemma_lines_base(ind, b);
        lemma_lines_base(ind, r);
        lemma_lines_join(line(ind, a), line(ind, find), ind);
        lemma_lines_join(line(ind, a) + line(ind, find), line(ind, class_ok), ind);
        lemma_lines_join(line(ind, a) + line(ind, find) + line(ind, class_ok), line(ind, b), ind);
        lemma_lines_join(line(ind, a) + line(ind, find) + line(ind, class_ok) + line(ind, b), line(ind, method_ok), ind);
        lemma_lines_join(line(ind, a) + line(ind, find) + line(ind, class_ok) + line(ind, b) + line(ind, method_ok), line(ind, r), ind);
    } else if m.flags & 0x0008 == 0x0008 {
        let b = "    let __jni_method = unsafe { (**__jni_env).GetStaticMethodID.unwrap()(__jni_env, __jni_class, "@ + ids;
        let r = "    let result = unsafe { (**__jni_env).CallStatic"@ + kind + "MethodA.unwrap()(__jni_env, __jni_class, __jni_method, __jni_args.as_ptr()) };"@;
        lemma_lines_base(ind, b);
        lemma_lines_base(ind, r);
        lemma_lines_join(line(ind, a), line(ind, find), ind);
        lemma_lines_join(line(ind, a) + line(ind, find), line(ind, class_ok), ind);
        lemma_lines_join(line(ind, a) + line(ind, find) + line(ind, class_ok), line(ind, b), ind);
        lemma_lines_join(line(ind, a) + line(ind, find) + line(ind, class_ok) + line(ind, b), line(ind, method_ok), ind);
        lemma_lines_join(line(ind, a) + line(ind, find) + line(ind, class_ok) + line(ind, b) + line(ind, method_ok), line(ind, r), ind);
    } else {
        let t = "    let __jni_this   = self.0.object;"@;
        let e = "    let __jni_env    = self.0.env as *mut __bindgen_jni::jni_sys::JNIEnv;"@;
        let b = "    let __jni_method = unsafe { (**__jni_env).GetMethodID.unwrap()(__jni_env, __jni_class, "@ + ids;
        let r = "    let result = unsafe { (**__jni_env).Call"@ + kind + "MethodA.unwrap()(__jni_env, __jni_this, __jni_method, __jni_args.as_ptr()) };"@;
        lemma_lines_base(ind, t);
        lemma_lines_base(ind, e);
        lemma_lines_base(ind, b);
        lemma_lines_base(ind, r);
        lemma_lines_join(line(ind, t), line(ind, e), ind);
        lemma_lines_join(line(ind, t) + line(ind, e), line(ind, find), ind);
        lemma_lines_join(line(ind, t) + line(ind, e) + line(ind, find), line(ind, class_ok), ind);
        lemma_lines_join(line(ind, t) + line(ind, e) + line(ind, find) + line(ind, class_ok), line(ind, b), ind);
        lemma_lines_join(line(ind, t) + line(ind, e) + line(ind, find) + line(ind, class_ok) + line(ind, b), line(ind, method_ok), ind);
        lemma_lines_join(line(ind, t) + line(ind, e) + line(ind, find) + line(ind, class_ok) + line(ind, b) + line(ind, method_ok), line(ind, r), ind);
    }
}

/// The result lines are lines after their indent.
proof fn lemma_result_lines(ind: Seq<char>, ret_obj: bool, ret_bool: bool)
    ensures
        is_lines_after(macro_result_lines(ind, ret_obj, ret_bool), ind),
{
    reveal(macro_result_lines);
    let t1 = "    let __jni_exception = unsafe { (**__jni_env).ExceptionOccurred.unwrap()(__jni_env) };"@;
    let t2 = "    if !__jni_exception.is_null() {"@;
    let t3 = "        unsafe { (**__jni_env).ExceptionClear.unwrap()(__jni_env) };"@;
    let t4 = "        Err(__jni_exception)"@;
    let o1 = "    } else if result.is_null() {"@;
    let o2 = "        Ok(None)"@;
    let o3 = "    } else {"@;
    let o4 = "        let result = unsafe { __bindgen_jni::Local::from_object_lifetime_and_raw_env_obj(self, __jni_env as *const __bindgen_jni::jni_sys::JNIEnv, result) };"@;
    let o5 = "        Ok(Some(result))"@;
    let b2 = "        Ok(result == __bindgen_jni::jni_sys::JNI_TRUE)"@;
    let p2 = "        Ok(result)"@;
    let c1 = "    }"@;
    let c2 = "}"@;
    lemma_lines_base(ind, t1);
    lemma_lines_base(ind, t2);
    lemma_lines_base(ind, t3);
    lemma_lines_base(ind, t4);
    lemma_lines_base(ind, o1);
    lemma_lines_base(ind, o2);
    lemma_lines_base(ind, o3);
    lemma_lines_base(ind, o4);
    lemma_lines_base(ind, o5);
    lemma_lines_base(ind, b2);
    lemma_lines_base(ind, p2);
    lemma_lines_base(ind, c1);
    lemma_lines_base(ind, c2);
    let head = line(ind, t1) + line(ind, t2) + line(ind, t3) + line(ind, t4);
    lemma_lines_join(line(ind, t1), line(ind, t2), ind);
    lemma_lines_join(line(ind, t1) + line(ind, t2), line(ind, t3), ind);
    lemma_lines_join(line(ind, t1) + line(ind, t2) + line(ind, t3), line(ind, t4), ind);
    let mid = if ret_obj {
        line(ind, o1) + line(ind, o2) + line(ind, o3) + line(ind, o4) + line(ind, o5)
    } else if ret_bool {
        line(ind, o3) + line(ind, b2)
    } else {
        line(ind, o3) + line(ind, p2)
    };
    if ret_obj {
        lemma_lines_join(line(ind, o1), line(ind, o2), ind);
        lemma_lines_join(line(ind, o1) + line(ind, o2), line(ind, o3), ind);
        lemma_lines_join(line(ind, o1) + line(ind, o2) + line(ind, o3), line(ind, o4), ind);
        lemma_lines_join(line(ind, o1) + line(ind, o2) + line(ind, o3) + line(ind, o4), line(ind, o5), ind);
    } else if ret_bool {
        lemma_lines_join(line(ind, o3), line(ind, b2), ind);
    } else {
        lemma_lines_join(line(ind, o3), line(ind, p2), ind);
    }
    lemma_lines_join(head, mid, ind);
    lemma_lines_join(head + mid, line(ind, c1), ind);
    lemma_lines_join(head + mid + line(ind, c1), line(ind, c2), ind);
}

/// A method's function is written as lines after its indent: after its leading blank line,
/// every line of a method that cannot be emitted starts with the indent and `        // `, so
/// that the whole function is commented out, and every line of one that can starts with the
/// indent and eight spaces.
pub proof fn law_macro_method_text_lines(stem: Option<String>, class: Seq<char>, all: Seq<MethodModel>, m: MethodModel, indent: Seq<char>)
    ensures
        exists|texts: Seq<Seq<char>>| macro_method_text(stem, class, all, m, indent)
            == seq!['\n'] + #[trigger] lines_after(wrapper_indent(indent, is_macro_rejected(stem, all, m)), texts),
{
    let (reasons, name, decl, array, ret_decl, ret_obj, ret) = macro_method_parts(stem, all, m);
    let ind = wrapper_indent(indent, reasons.len() > 0);
    let access = if m.flags & 0x0001 == 0x0001 { "pub "@ } else { Seq::<char>::empty() };
    let p1 = reason_lines(ind, reasons);
    let t2 = access + "fn "@ + name + "<'env>("@ + decl + ") -> __bindgen_jni::Result<"@ + ret_decl + "> {"@;
    let t3 = "    // method.access_flags() == "@ + flags_debug(m.flags);
    let t4 = "    // method.descriptor() == "@ + debug_str(m.descriptor);
    let t5 = "    let __jni_args = ["@ + array + "];"@;
    let p6 = macro_call_lines(ind, class, m, jni_call_kind(ret));
    let p7 = macro_result_lines(ind, ret_obj, ret == DescriptorModel::Single(BasicTypeModel::Boolean));
    lemma_reason_lines(ind, reasons);
    assert(is_lines_after(p1, ind));
    lemma_lines_base(ind, t2);
    lemma_lines_base(ind, t3);
    lemma_lines_base(ind, t4);
    lemma_lines_base(ind, t5);
    lemma_call_lines(ind, class, m, jni_call_kind(ret));
    lemma_result_lines(ind, ret_obj, ret == DescriptorModel::Single(BasicTypeModel::Boolean));
    let q = seq!['\n'];
    let b2 = p1 + line(ind, t2);
    let b3 = b2 + line(ind, t3);
    let b4 = b3 + line(ind, t4);
    let b5 = b4 + line(ind, t5);
    let b6 = b5 + p6;
    let body = b6 + p7;
    lemma_lines_join(p1, line(ind, t2), ind);
    lemma_lines_join(b2, line(ind, t3), ind);
    lemma_lines_join(b3, line(ind, t4), ind);
    lemma_lines_join(b4, line(ind, t5), ind);
    lemma_lines_join(b5, p6, ind);
    lemma_lines_join(b6, p7, ind);
    lemma_concat_associative(q, p1, line(ind, t2));
    lemma_concat_associative(q, b2, line(ind, t3));
    lemma_concat_associative(q, b3, line(ind, t4));
    lemma_concat_associative(q, b4, line(ind, t5));
    lemma_concat_associative(q, b5, p6);
    lemma_concat_associative(q, b6, p7);
    assert(macro_method_text(stem, class, all, m, indent) == q + body);
    let texts = choose|t: Seq<Seq<char>>| body == #[trigger] lines_after(ind, t);
    assert(ind == wrapper_indent(indent, is_macro_rejected(stem, all, m)));
    assert(macro_method_text(stem, class, all, m, indent) == q + lines_after(wrapper_indent(indent, is_macro_rejected(stem, all, m)), texts));
}

/// The functions of the methods `ms`, in order.
pub open spec fn macro_methods_text(stem: Option<String>, class: Seq<char>, all: Seq<MethodModel>, ms: Seq<MethodModel>, indent: Seq<char>) -> Seq<char>
    decreases ms.len(),
{
    if ms.len() == 0 {
        Seq::empty()
    } else {
        macro_methods_text(stem, class, all, ms.drop_last(), indent) + macro_method_text(stem, class, all, ms.last(), indent)
    }
}

// ---------------------------------------------------------------------------------------------
// The class

/// The kind of class, as the declaration names it.
pub open spec fn class_keyword(flags: u16) -> Seq<char> {
    if flags & 0x0200 == 0x0200 {
        "interface"@
    } else if flags & 0x4000 == 0x4000 {
        "enum"@
    } else if flags & 0x0008 == 0x0008 {
        "static class"@
    } else if flags & 0x0010 == 0x0010 {
        "final class"@
    } else {
        "class"@
    }
}

/// Who may use the class, as the declaration names it.
pub open spec fn class_visibility(flags: u16) -> Seq<char> {
    if flags & 0x0001 == 0x0001 { "public"@ } else { "private"@ }
}

/// The Rust path of a class that has one.
pub open spec fn resolved(stem: Option<String>, class: Seq<char>) -> Seq<char> {
    rust_path_of(stem, class)->Some_0
}

/// The class's super class and interfaces all have Rust paths.
pub open spec fn supertypes_resolve(stem: Option<String>, c: ClassModel) -> bool {
    &&& (c.super_path matches Some(s) ==> rust_path_of(stem, s) is Some)
    &&& forall|i: int| 0 <= i < c.interfaces.len() ==> #[trigger] rust_path_of(stem, c.interfaces[i]) is Some
}

/// `, implements A, B, ...` for the interfaces, or nothing when there are none.
pub open spec fn implements_text(stem: Option<String>, interfaces: Seq<Seq<char>>) -> Seq<char>
    decreases interfaces.len(),
{
    if interfaces.len() == 0 {
        Seq::empty()
    } else {
        implements_text(stem, interfaces.drop_last()) + ", "@
            + (if interfaces.len() == 1 { "implements "@ } else { Seq::empty() })
            + resolved(stem, interfaces.last())
    }
}

/// The header of a class's declaration: its visibility and kind, its Rust name, the class it
/// extends (`()` when none) and the interfaces it implements.
pub open spec fn struct_head(stem: Option<String>, name: Seq<char>, c: ClassModel) -> Seq<char> {
    let sup = match c.super_path { Some(s) => resolved(stem, s), None => "()"@ };
    "    "@ + class_visibility(c.flags) + " "@ + class_keyword(c.flags) + " "@ + name + " extends "@ + sup + implements_text(stem, c.interfaces) + " {"@
}

/// The line that links to a class's documentation, when it has a link.
pub open spec fn docs_line(indent: Seq<char>, c: ClassModel, docs: Option<(Seq<char>, Seq<char>)>) -> Seq<char> {
    match docs {
        Some((label, url)) => line(indent, "    /// "@ + class_visibility(c.flags) + " "@ + class_keyword(c.flags) + " ["@ + label + "]("@ + url + ")"@),
        None => Seq::empty(),
    }
}

/// The declaration of a class: `__bindgen_jni! {`, a link to its documentation when there is
/// one, its header (see `struct_head`), a function for each method, and the closing braces.
pub open spec fn struct_macro_text(stem: Option<String>, name: Seq<char>, c: ClassModel, docs: Option<(Seq<char>, Seq<char>)>, indent: Seq<char>) -> Seq<char> {
    line(indent, "__bindgen_jni! {"@)
        + docs_line(indent, c, docs)
        + line(indent, struct_head(stem, name, c))
        + macro_methods_text(stem, c.path, c.methods, c.methods, indent)
        + line(indent, "    }"@)
        + line(indent, "}"@)
}

// ---------------------------------------------------------------------------------------------
// Building the text

/// The Rust type of a parameter (see `jni_arg_type`).
fn jni_arg_type_text(context: &Context, d: Descriptor) -> (r: (Vec<char>, bool, Option<&'static str>))
    ensures
        ({
            let (t, obj, reason) = jni_arg_type(context.config_spec().output_file_stem, d@);
            &&& r.0@ == t
            &&& r.1 == obj
            &&& match reason { Some(x) => r.2 is Some && r.2->Some_0@ == x, None => r.2 is None }
        }),
{
    let mut out: Vec<char> = Vec::new();
    match d {
        Descriptor::Single(b) => match b {
            BasicType::Void => { push_str_chars(&mut out, "()"); (out, false, None) },
            BasicType::Boolean => { push_str_chars(&mut out, "bool"); (out, false, None) },
            BasicType::Byte => { push_str_chars(&mut out, "i8"); (out, false, None) },
            BasicType::Char => { push_str_chars(&mut out, "__bindgen_jni::jchar"); (out, false, None) },
            BasicType::Short => { push_str_chars(&mut out, "i16"); (out, false, None) },
            BasicType::Int => { push_str_chars(&mut out, "i32"); (out, false, None) },
            BasicType::Long => { push_str_chars(&mut out, "i64"); (out, false, None) },
            BasicType::Float => { push_str_chars(&mut out, "f32"); (out, false, None) },
            BasicType::Double => { push_str_chars(&mut out, "f64"); (out, false, None) },
            BasicType::Class(c) => match rust_path(context, c.0) {
                Some(p) => {
                    push_str_chars(&mut out, "&impl __bindgen_jni::std::convert::AsRef<");
                    push_str_chars(&mut out, p.as_str());
                    push_str_chars(&mut out, ">");
                    (out, true, None)
                },
                None => {
                    push_id_debug(&mut out, c.0);
                    (out, true, Some("Failed to resolve JNI path to Rust path for argument type"))
                },
            },
        },
        Descriptor::Array { .. } => {
            push_descriptor_debug(&mut out, d);
            (out, false, Some("Passing in arrays not yet supported"))
        },
    }
}

/// The Rust type of the result (see `jni_ret_type`).
fn jni_ret_type_text(context: &Context, d: Descriptor) -> (r: (Vec<char>, bool, Option<&'static str>))
    ensures
        ({
            let (t, obj, reason) = jni_ret_type(context.config_spec().output_file_stem, d@);
            &&& r.0@ == t
            &&& r.1 == obj
            &&& match reason { Some(x) => r.2 is Some && r.2->Some_0@ == x, None => r.2 is None }
        }),
{
    let mut out: Vec<char> = Vec::new();
    match d {
        Descriptor::Single(b) => match b {
            BasicType::Void => { push_str_chars(&mut out, "()"); (out, false, None) },
            BasicType::Boolean => { push_str_chars(&mut out, "bool"); (out, false, None) },
            BasicType::Byte => { push_str_chars(&mut out, "i8"); (out, false, None) },
            BasicType::Char => { push_str_chars(&mut out, "__bindgen_jni::jchar"); (out, false, None) },
            BasicType::Short => { push_str_chars(&mut out, "i16"); (out, false, None) },
            BasicType::Int => { push_str_chars(&mut out, "i32"); (out, false, None) },
            BasicType::Long => { push_str_chars(&mut out, "i64"); (out, false, None) },
            BasicType::Float => { push_str_chars(&mut out, "f32"); (out, false, None) },
            BasicType::Double => { push_str_chars(&mut out, "f64"); (out, false, None) },
            BasicType::Class(c) => match rust_path(context, c.0) {
                Some(p) => {
                    push_str_chars(&mut out, "__bindgen_jni::std::option::Option<__bindgen_jni::Local<'env, ");
                    push_str_chars(&mut out, p.as_str());
                    push_str_chars(&mut out, ">>");
                    (out, true, None)
                },
                None => {
                    push_id_debug(&mut out, c.0);
                    (out, true, Some("Failed to resolve JNI path to Rust path for return type"))
                },
            },
        },
        Descriptor::Array { .. } => {
            push_descriptor_debug(&mut out, d);
            (out, true, Some("Returning arrays not yet supported"))
        },
    }
}

/// The JNI call for this result type (see `jni_call_kind`).
fn jni_call_kind_text(d: Descriptor) -> (r: &'static str)
    ensures
        r@ == jni_call_kind(d@),
{
    match d {
        Descriptor::Single(b) => match b {
            BasicType::Void => "Void",
            BasicType::Boolean => "Boolean",
            BasicType::Byte => "Byte",
            BasicType::Char => "Char",
            BasicType::Short => "Short",
            BasicType::Int => "Int",
            BasicType::Long => "Long",
            BasicType::Float => "Float",
            BasicType::Double => "Double",
            BasicType::Class(_) => "Object",
        },
        Descriptor::Array { .. } => "Object",
    }
}

/// The parameters as they appear in the call and in the function (see `jni_args_state`).
fn jni_args_texts(context: &Context, args: &Vec<Descriptor>, decl0: Vec<char>) -> (r: (Vec<char>, Vec<char>, Vec<&'static str>))
    ensures
        ({
            let (a, d, rs) = jni_args_state(context.config_spec().output_file_stem, types_model(args@), decl0@);
            &&& r.0@ == a
            &&& r.1@ == d
            &&& reasons_model(r.2@) == rs
        }),
{
    let ghost stem = context.config_spec().output_file_stem;
    let ghost am = types_model(args@);
    let mut array: Vec<char> = Vec::new();
    let mut decl = decl0;
    let mut reasons: Vec<&'static str> = Vec::new();
    let mut i: usize = 0;
    proof {
        assert(am.take(0) =~= Seq::<DescriptorModel>::empty());
        assert(reasons_model(reasons@) =~= Seq::<Seq<char>>::empty());
    }
    while i < args.len()
        invariant
            i <= args@.len(),
            am == types_model(args@),
            stem == context.config_spec().output_file_stem,
            ({
                let (a, d, rs) = jni_args_state(stem, am.take(i as int), decl0@);
                &&& array@ == a
                &&& decl@ == d
                &&& reasons_model(reasons@) == rs
            }),
        decreases args@.len() - i,
    {
        let (t, obj, reason) = jni_arg_type_text(context, args[i]);
        let mut name: Vec<char> = Vec::new();
        push_str_chars(&mut name, "arg");
        push_decimal(&mut name, i);
        if array.len() > 0 {
            push_str_chars(&mut array, ", ");
        }
        push_str_chars(&mut array, "__bindgen_jni::AsJValue::as_jvalue(");
        if !obj {
            push_str_chars(&mut array, "&");
        }
        push_chars(&mut array, name.as_slice());
        if obj {
            push_str_chars(&mut array, ".as_ref()");
        }
        push_str_chars(&mut array, ")");
        if decl.len() > 0 {
            push_str_chars(&mut decl, ", ");
        }
        push_chars(&mut decl, name.as_slice());
        push_str_chars(&mut decl, ": ");
        push_chars(&mut decl, t.as_slice());
        match reason {
            Some(x) => add_reason(&mut reasons, x),
            None => {},
        }
        proof {
            let m = am.take(i + 1);
            assert(m.drop_last() =~= am.take(i as int));
            assert(m.last() == args@[i as int]@);
            let (a1, d1, r1) = jni_args_state(stem, m, decl0@);
            assert(array@ =~= a1);
            assert(decl@ =~= d1);
            assert(reasons_model(reasons@) =~= r1);
        }
        i = i + 1;
    }
    assert(am.take(args@.len() as int) =~= am);
    (array, decl, reasons)
}

/// An optional string as characters.
pub open spec fn opt_chars(o: Option<String>) -> Option<Seq<char>> {
    match o {
        Some(s) => Some(s@),
        None => None,
    }
}

/// `names` holds the Rust name of each public method of `all` (see `public_name`).
pub open spec fn names_of(all: Seq<JavaMethod>, names: Seq<Option<String>>) -> bool {
    &&& names.len() == all.len()
    &&& forall|i: int| 0 <= i < all.len() ==> #[trigger] opt_chars(names[i]) == public_name(all[i]@)
}

/// The Rust name of each public method (see `public_name`).
fn public_names(all: &Vec<JavaMethod>) -> (names: Vec<Option<String>>)
    ensures
        names_of(all@, names@),
{
    let mut names: Vec<Option<String>> = Vec::new();
    let mut i: usize = 0;
    while i < all.len()
        invariant
            i <= all@.len(),
            names@.len() == i,
            forall|j: int| 0 <= j < i ==> #[trigger] opt_chars(names@[j]) == public_name(all@[j]@),
        decreases all@.len() - i,
    {
        let m = &all[i];
        let name = if m.is_public() {
            match mangle_method_name(m.name_str()) {
                Ok(n) => Some(n),
                Err(_) => None,
            }
        } else {
            None
        };
        names.push(name);
        i = i + 1;
    }
    names
}

/// How many public methods have the Rust name `n` (see `name_count`).
fn count_name(all: &Vec<JavaMethod>, names: &Vec<Option<String>>, n: &str) -> (k: usize)
    requires
        names_of(all@, names@),
    ensures
        k == name_count(methods_model(all@), n@),
{
    let ghost ms = methods_model(all@);
    let mut k: usize = 0;
    let mut i: usize = 0;
    assert(ms.take(0) =~= Seq::<MethodModel>::empty());
    while i < names.len()
        invariant
            i <= names@.len(),
            names_of(all@, names@),
            ms == methods_model(all@),
            k <= i,
            k == name_count(ms.take(i as int), n@),
        decreases names@.len() - i,
    {
        let hit = match &names[i] {
            Some(x) => str_eq(x.as_str(), n),
            None => false,
        };
        if hit {
            k = k + 1;
        }
        proof {
            let t = ms.take(i + 1);
            assert(t.drop_last() =~= ms.take(i as int));
            assert(t.last() == all@[i as int]@);
            assert(opt_chars(names@[i as int]) == public_name(all@[i as int]@));
        }
        i = i + 1;
    }
    assert(ms.take(names@.len() as int) =~= ms);
    k
}

/// Whether a method descriptor starts with `(` (see `starts_with_paren`).
fn starts_with_paren_text(s: &str) -> (r: bool)
    ensures
        r == starts_with_paren(s@),
{
    let n = s.unicode_len();
    n > 0 && s.get_char(0) == '('
}

/// The Rust name and the reasons up to the descriptor (see `macro_method_head`).
fn macro_head(all: &Vec<JavaMethod>, names: &Vec<Option<String>>, java: &JavaMethod) -> (r: (Vec<char>, Vec<&'static str>))
    requires
        names_of(all@, names@),
    ensures
        ({
            let (name, rs) = macro_method_head(methods_model(all@), java@);
            r.0@ == name && reasons_model(r.1@) == rs
        }),
{
    let ghost all_m = methods_model(all@);
    let mut reasons: Vec<&'static str> = Vec::new();
    assert(reasons_model(reasons@) =~= Seq::<Seq<char>>::empty());
    let mut name: Vec<char> = Vec::new();
    match mangle_method_name(java.name_str()) {
        Ok(n) => push_str_chars(&mut name, n.as_str()),
        Err(_) => {
            add_reason(&mut reasons, "Failed to mangle method name");
            push_str_chars(&mut name, java.name_str());
        },
    }
    let name_text = string_from_chars(name.as_slice());
    let repeats = count_name(all, names, name_text.as_str());

    let ghost r0 = reasons_model(reasons@);
    if !java.is_public() { add_reason(&mut reasons, "Non-public method"); }
    let ghost ra = reasons_model(reasons@);
    assert(ra =~= r0 + reason_if(java@.flags & 0x0001 != 0x0001, "Non-public method"@));
    if java.is_varargs() { add_reason(&mut reasons, "Marked as varargs - haven't decided on how I want to handle this."); }
    let ghost rb = reasons_model(reasons@);
    assert(rb =~= ra + reason_if(java@.flags & 0x0080 == 0x0080, "Marked as varargs - haven't decided on how I want to handle this."@));
    if repeats > 1 { add_reason(&mut reasons, "Overloaded - I haven't decided how I want to deconflict overloads."); }
    let ghost rc = reasons_model(reasons@);
    assert(rc =~= rb + reason_if(name_count(all_m, name@) > 1, "Overloaded - I haven't decided how I want to deconflict overloads."@));
    if java.is_static_init() { add_reason(&mut reasons, "Static class constructor - never needs to be called by Rust."); }
    let ghost rd = reasons_model(reasons@);
    assert(rd =~= rc + reason_if(java@.name == "<clinit>"@, "Static class constructor - never needs to be called by Rust."@));
    if java.is_constructor() { add_reason(&mut reasons, "I haven't decided how to pass JNIEnv for constructors yet."); }
    let ghost re = reasons_model(reasons@);
    assert(re =~= rd + reason_if(java@.name == "<init>"@, "I haven't decided how to pass JNIEnv for constructors yet."@));
    if java.is_static() { add_reason(&mut reasons, "I haven't decided how to pass JNIEnv for static methods yet."); }
    let ghost rf = reasons_model(reasons@);
    assert(rf =~= re + reason_if(java@.flags & 0x0008 == 0x0008, "I haven't decided how to pass JNIEnv for static methods yet."@));
    if !starts_with_paren_text(java.descriptor_str()) { add_reason(&mut reasons, "Invalid method descriptor"); }
    let ghost rg = reasons_model(reasons@);
    assert(rg =~= rf + reason_if(!starts_with_paren(java@.descriptor), "Invalid method descriptor"@));
    (name, reasons)
}

/// The parts of a method's function (see `macro_method_parts`).
fn macro_parts<'b>(context: &Context, all: &Vec<JavaMethod>, names: &Vec<Option<String>>, java: &'b JavaMethod)
    -> (r: (Vec<&'static str>, Vec<char>, Vec<char>, Vec<char>, Vec<char>, bool, Descriptor<'b>))
    requires
        names_of(all@, names@),
        java.wf(),
    ensures
        ({
            let (rs, name, decl, array, ret_decl, ret_obj, ret) = macro_method_parts(context.config_spec().output_file_stem, methods_model(all@), java@);
            &&& reasons_model(r.0@) == rs
            &&& r.1@ == name
            &&& r.2@ == decl
            &&& r.3@ == array
            &&& r.4@ == ret_decl
            &&& r.5 == ret_obj
            &&& r.6@ == ret
        }),
{
    proof { reveal_strlit("<init>"); reveal(macro_method_parts); }
    let (name, mut reasons) = macro_head(all, names, java);
    let descriptor = java.descriptor();
    let (args, ret) = if starts_with_paren_text(java.descriptor_str()) {
        (descriptor.arguments(), descriptor.return_type())
    } else {
        (Vec::new(), Descriptor::Single(BasicType::Void))
    };
    assert(types_model(args@) == emitted_signature(java@.descriptor).0) by {
        if !starts_with_paren(java@.descriptor) {
            assert(types_model(args@) =~= Seq::<DescriptorModel>::empty());
        }
    }
    let mut decl0: Vec<char> = Vec::new();
    if !(java.is_static() || java.is_constructor()) {
        push_str_chars(&mut decl0, "&'env self");
    }
    assert(decl0@ =~= (if java@.flags & 0x0008 == 0x0008 || java@.name == "<init>"@ { Seq::<char>::empty() } else { "&'env self"@ }));
    let (array, decl, arg_reasons) = jni_args_texts(context, &args, decl0);
    add_reasons(&mut reasons, &arg_reasons);
    let (ret_decl, ret_obj, ret_reason) = jni_ret_type_text(context, ret);
    let ghost r1 = reasons_model(reasons@);
    match ret_reason {
        Some(x) => add_reason(&mut reasons, x),
        None => {},
    }
    let ghost r2 = reasons_model(reasons@);
    if java.is_constructor() && !matches!(ret, Descriptor::Single(BasicType::Void)) {
        add_reason(&mut reasons, "Constructor should've returned void");
    }
    proof {
        let want = macro_method_parts(context.config_spec().output_file_stem, methods_model(all@), java@);
        let rr = jni_ret_type(context.config_spec().output_file_stem, ret@).2;
        assert(r2 =~= r1 + match rr { Some(x) => seq![x], None => Seq::<Seq<char>>::empty() });
        assert(reasons_model(reasons@) =~= r2 + reason_if(java@.name == "<init>"@ && ret@ != DescriptorModel::Single(BasicTypeModel::Void), "Constructor should've returned void"@));
        assert(reasons_model(reasons@) =~= want.0);
    }
    (reasons, name, decl, array, ret_decl, ret_obj, ret)
}

/// Appends a string literal for JNI (see `jni_cstr`).
fn push_jni_cstr(out: &mut Vec<char>, s: &str)
    ensures
        final(out)@ == old(out)@ + jni_cstr(s@),
{
    let ghost start = out@;
    let lit = emit_cstr(s);
    push_chars(out, lit.as_slice());
    push_str_chars(out, ".as_ptr() as *const __bindgen_jni::std::os::raw::c_char");
    assert(out@ =~= start + jni_cstr(s@));
}

/// Appends one line of fixed text.
fn push_fixed_line(out: &mut Vec<char>, ind: &Vec<char>, text: &str)
    ensures
        final(out)@ == old(out)@ + line(ind@, text@),
{
    let mut t: Vec<char> = Vec::new();
    push_str_chars(&mut t, text);
    push_line(out, ind, &t);
}

/// Appends the lines that find the class and the method, and call it (see `macro_call_lines`).
fn push_call_lines(out: &mut Vec<char>, ind: &Vec<char>, class: &str, java: &JavaMethod, kind: &str)
    ensures
        final(out)@ == old(out)@ + macro_call_lines(ind@, class@, java@, kind@),
{
    let ghost start = out@;
    let mut find: Vec<char> = Vec::new();
    push_str_chars(&mut find, "    let __jni_class  = unsafe { (**__jni_env).FindClass.unwrap()(__jni_env, ");
    push_jni_cstr(&mut find, class);
    push_str_chars(&mut find, ") };");
    let mut ids: Vec<char> = Vec::new();
    push_jni_cstr(&mut ids, java.name_str());
    push_str_chars(&mut ids, ", ");
    push_jni_cstr(&mut ids, java.descriptor_str());
    push_str_chars(&mut ids, ") };");
    if java.is_constructor() {
        push_fixed_line(out, ind, "    let __jni_env = ...?");
        push_line(out, ind, &find);
        push_fixed_line(out, ind, "    assert_ne!(__jni_class, __bindgen_jni::std::ptr::null_mut());");
        let mut t: Vec<char> = Vec::new();
        push_str_chars(&mut t, "    let __jni_method = unsafe { (**__jni_env).GetMethodID.unwrap()(__jni_env, __jni_class, ");
        push_chars(&mut t, ids.as_slice());
        push_line(out, ind, &t);
        push_fixed_line(out, ind, "    assert_ne!(__jni_method, __bindgen_jni::std::ptr::null_mut());");
        push_fixed_line(out, ind, "    let result = unsafe { (**__jni_env).NewObjectA.unwrap()(__jni_env, __jni_class, __jni_method, __jni_args.as_ptr()) };");
    } else if java.is_static() {
        push_fixed_line(out, ind, "    let __jni_env = ...?");
        push_line(out, ind, &find);
        push_fixed_line(out, ind, "    assert_ne!(__jni_class, __bindgen_jni::std::ptr::null_mut());");
        let mut t: Vec<char> = Vec::new();
        push_str_chars(&mut t, "    let __jni_method = unsafe { (**__jni_env).GetStaticMethodID.unwrap()(__jni_env, __jni_class, ");
        push_chars(&mut t, ids.as_slice());
        push_line(out, ind, &t);
        push_fixed_line(out, ind, "    assert_ne!(__jni_method, __bindgen_jni::std::ptr::null_mut());");
        let mut t: Vec<char> = Vec::new();
        push_str_chars(&mut t, "    let result = unsafe { (**__jni_env).CallStatic");
        push_str_chars(&mut t, kind);
        push_str_chars(&mut t, "MethodA.unwrap()(__jni_env, __jni_class, __jni_method, __jni_args.as_ptr()) };");
        push_line(out, ind, &t);
    } else {
        push_fixed_line(out, ind, "    let __jni_this   = self.0.object;");
        push_fixed_line(out, ind, "    let __jni_env    = self.0.env as *mut __bindgen_jni::jni_sys::JNIEnv;");
        push_line(out, ind, &find);
        push_fixed_line(out, ind, "    assert_ne!(__jni_class, __bindgen_jni::std::ptr::null_mut());");
        let mut t: Vec<char> = Vec::new();
        push_str_chars(&mut t, "    let __jni_method = unsafe { (**__jni_env).GetMethodID.unwrap()(__jni_env, __jni_class, ");
        push_chars(&mut t, ids.as_slice());
        push_line(out, ind, &t);
        push_fixed_line(out, ind, "    assert_ne!(__jni_method, __bindgen_jni::std::ptr::null_mut());");
        let mut t: Vec<char> = Vec::new();
        push_str_chars(&mut t, "    let result = unsafe { (**__jni_env).Call");
        push_str_chars(&mut t, kind);
        push_str_chars(&mut t, "MethodA.unwrap()(__jni_env, __jni_this, __jni_method, __jni_args.as_ptr()) };");
        push_line(out, ind, &t);
    }
    proof { reveal(macro_call_lines); }
    assert(out@ =~= start + macro_call_lines(ind@, class@, java@, kind@));
}

/// Appends the lines that hand back the call's outcome (see `macro_result_lines`).
fn push_result_lines(out: &mut Vec<char>, ind: &Vec<char>, ret_obj: bool, ret_bool: bool)
    ensures
        final(out)@ == old(out)@ + macro_result_lines(ind@, ret_obj, ret_bool),
{
    let ghost start = out@;
    push_fixed_line(out, ind, "    let __jni_exception = unsafe { (**__jni_env).ExceptionOccurred.unwrap()(__jni_env) };");
    push_fixed_line(out, ind, "    if !__jni_exception.is_null() {");
    push_fixed_line(out, ind, "        unsafe { (**__jni_env).ExceptionClear.unwrap()(__jni_env) };");
    push_fixed_line(out, ind, "        Err(__jni_exception)");
    if ret_obj {
        push_fixed_line(out, ind, "    } else if result.is_null() {");
        push_fixed_line(out, ind, "        Ok(None)");
        push_fixed_line(out, ind, "    } else {");
        push_fixed_line(out, ind, "        let result = unsafe { __bindgen_jni::Local::from_object_lifetime_and_raw_env_obj(self, __jni_env as *const __bindgen_jni::jni_sys::JNIEnv, result) };");
        push_fixed_line(out, ind, "        Ok(Some(result))");
    } else if ret_bool {
        push_fixed_line(out, ind, "    } else {");
        push_fixed_line(out, ind, "        Ok(result == __bindgen_jni::jni_sys::JNI_TRUE)");
    } else {
        push_fixed_line(out, ind, "    } else {");
        push_fixed_line(out, ind, "        Ok(result)");
    }
    push_fixed_line(out, ind, "    }");
    push_fixed_line(out, ind, "}");
    proof { reveal(macro_result_lines); }
    assert(out@ =~= start + macro_result_lines(ind@, ret_obj, ret_bool));
}

/// Appends the function of one method (see `macro_method_text`).
fn push_method_text(out: &mut Vec<char>, context: &Context, class: &str, all: &Vec<JavaMethod>, names: &Vec<Option<String>>, java: &JavaMethod, indent: &str)
    requires
        names_of(all@, names@),
        java.wf(),
    ensures
        final(out)@ == old(out)@ + macro_method_text(context.config_spec().output_file_stem, class@, methods_model(all@), java@, indent@),
{
    let text = method_text(context, class, all, names, java, indent);
    push_chars(out, text.as_slice());
}

/// The function of one method (see `macro_method_text`).
fn method_text(context: &Context, class: &str, all: &Vec<JavaMethod>, names: &Vec<Option<String>>, java: &JavaMethod, indent: &str) -> (text: Vec<char>)
    requires
        names_of(all@, names@),
        java.wf(),
    ensures
        text@ == macro_method_text(context.config_spec().output_file_stem, class@, methods_model(all@), java@, indent@),
{
    let ghost parts = macro_method_parts(context.config_spec().output_file_stem, methods_model(all@), java@);
    let (reasons, name, decl, array, ret_decl, ret_obj, ret) = macro_parts(context, all, names, java);
    let mut ind: Vec<char> = Vec::new();
    push_str_chars(&mut ind, indent);
    if reasons.len() > 0 {
        push_str_chars(&mut ind, "        // ");
    } else {
        push_str_chars(&mut ind, "        ");
    }
    let mut out: Vec<char> = Vec::new();
    out.push('\n');
    push_reason_lines(&mut out, &ind, &reasons);

    let mut t: Vec<char> = Vec::new();
    if java.is_public() {
        push_str_chars(&mut t, "pub ");
    }
    push_str_chars(&mut t, "fn ");
    push_chars(&mut t, name.as_slice());
    push_str_chars(&mut t, "<'env>(");
    push_chars(&mut t, decl.as_slice());
    push_str_chars(&mut t, ") -> __bindgen_jni::Result<");
    push_chars(&mut t, ret_decl.as_slice());
    push_str_chars(&mut t, "> {");
    push_line(&mut out, &ind, &t);

    let mut t: Vec<char> = Vec::new();
    push_str_chars(&mut t, "    // method.access_flags() == ");
    let flags = flags_debug_text(java.flag_bits());
    push_chars(&mut t, flags.as_slice());
    push_line(&mut out, &ind, &t);

    let mut t: Vec<char> = Vec::new();
    push_str_chars(&mut t, "    // method.descriptor() == ");
    push_str_chars(&mut t, debug_text(java.descriptor_str()).as_str());
    push_line(&mut out, &ind, &t);

    let mut t: Vec<char> = Vec::new();
    push_str_chars(&mut t, "    let __jni_args = [");
    push_chars(&mut t, array.as_slice());
    push_str_chars(&mut t, "];");
    push_line(&mut out, &ind, &t);

    push_call_lines(&mut out, &ind, class, java, jni_call_kind_text(ret));
    let ret_bool = matches!(ret, Descriptor::Single(BasicType::Boolean));
    push_result_lines(&mut out, &ind, ret_obj, ret_bool);
    assert(out@ =~= macro_method_text(context.config_spec().output_file_stem, class@, methods_model(all@), java@, indent@));
    out
}

/// The documentation link as a label and a URL.
pub open spec fn docs_model(docs: Option<&KnownDocsUrl>) -> Option<(Seq<char>, Seq<char>)> {
    match docs {
        Some(u) => Some((u.label@, u.url@)),
        None => None,
    }
}

/// A Java class and the Rust struct it becomes.
pub struct Struct {
    pub rust_mod_prefix: String,
    pub rust_struct_name: String,
    pub java_class: Class,
}

impl Struct {
    /// A blank line, then the class's declaration (see `struct_macro_text`), each line after
    /// `indent`; `docs` is the link to the class's documentation, if it has one.  The class's
    /// super class and interfaces must have Rust paths.
    pub fn write(&self, context: &Context, indent: &str, docs: Option<&KnownDocsUrl>) -> (text: String)
        requires
            self.java_class.wf(),
            supertypes_resolve(context.config_spec().output_file_stem, self.java_class@),
        ensures
            text@ == seq!['\n'] + struct_macro_text(context.config_spec().output_file_stem, self.rust_struct_name@, self.java_class@, docs_model(docs), indent@),
    {
        let mut out: Vec<char> = Vec::new();
        out.push('\n');
        self.write_rust_struct(context, indent, docs, &mut out);
        string_from_chars(out.as_slice())
    }

    /// Appends the class's declaration (see `struct_macro_text`).
    fn write_rust_struct(&self, context: &Context, indent: &str, docs: Option<&KnownDocsUrl>, out: &mut Vec<char>)
        requires
            self.java_class.wf(),
            supertypes_resolve(context.config_spec().output_file_stem, self.java_class@),
        ensures
            final(out)@ == old(out)@ + struct_macro_text(context.config_spec().output_file_stem, self.rust_struct_name@, self.java_class@, docs_model(docs), indent@),
    {
        let ghost stem = context.config_spec().output_file_stem;
        let mut ind: Vec<char> = Vec::new();
        push_str_chars(&mut ind, indent);
        let mut text: Vec<char> = Vec::new();
        push_fixed_line(&mut text, &ind, "__bindgen_jni! {");
        push_docs_line(&mut text, &ind, &self.java_class, docs);
        let head = struct_head_text(context, self.rust_struct_name.as_str(), &self.java_class);
        push_line(&mut text, &ind, &head);
        push_methods_text(&mut text, context, &self.java_class, indent);
        push_fixed_line(&mut text, &ind, "    }");
        push_fixed_line(&mut text, &ind, "}");
        assert(text@ =~= struct_macro_text(stem, self.rust_struct_name@, self.java_class@, docs_model(docs), indent@));
        push_chars(out, text.as_slice());
    }
}

/// The class's visibility and kind (see `class_visibility` and `class_keyword`).
fn class_words(class: &Class) -> (r: (&'static str, &'static str))
    ensures
        r.0@ == class_visibility(class@.flags),
        r.1@ == class_keyword(class@.flags),
{
    let keyword = if class.is_interface() {
        "interface"
    } else if class.is_enum() {
        "enum"
    } else if class.is_static() {
        "static class"
    } else if class.is_final() {
        "final class"
    } else {
        "class"
    };
    let visibility = if class.is_public() { "public" } else { "private" };
    (visibility, keyword)
}

/// Appends the link to the class's documentation, if there is one (see `docs_line`).
fn push_docs_line(out: &mut Vec<char>, ind: &Vec<char>, class: &Class, docs: Option<&KnownDocsUrl>)
    ensures
        final(out)@ == old(out)@ + docs_line(ind@, class@, docs_model(docs)),
{
    match docs {
        Some(url) => {
            let (visibility, keyword) = class_words(class);
            let mut t: Vec<char> = Vec::new();
            push_str_chars(&mut t, "    /// ");
            push_str_chars(&mut t, visibility);
            push_str_chars(&mut t, " ");
            push_str_chars(&mut t, keyword);
            push_str_chars(&mut t, " [");
            push_str_chars(&mut t, url.label.as_str());
            push_str_chars(&mut t, "](");
            push_str_chars(&mut t, url.url.as_str());
            push_str_chars(&mut t, ")");
            push_line(out, ind, &t);
        },
        None => {
            assert(out@ =~= old(out)@ + Seq::<char>::empty());
        },
    }
}

/// The header of the class's declaration (see `struct_head`).
fn struct_head_text(context: &Context, name: &str, class: &Class) -> (t: Vec<char>)
    requires
        supertypes_resolve(context.config_spec().output_file_stem, class@),
    ensures
        t@ == struct_head(context.config_spec().output_file_stem, name@, class@),
{
    let ghost stem = context.config_spec().output_file_stem;
    let (visibility, keyword) = class_words(class);
    let mut t: Vec<char> = Vec::new();
    push_str_chars(&mut t, "    ");
    push_str_chars(&mut t, visibility);
    push_str_chars(&mut t, " ");
    push_str_chars(&mut t, keyword);
    push_str_chars(&mut t, " ");
    push_str_chars(&mut t, name);
    push_str_chars(&mut t, " extends ");
    match &class.super_path {
        Some(s) => {
            let p = rust_path(context, s.as_str()).unwrap();
            push_str_chars(&mut t, p.as_str());
        },
        None => push_str_chars(&mut t, "()"),
    }
    let ghost head = t@;
    let ghost ifaces = class@.interfaces;
    let mut i: usize = 0;
    assert(ifaces.take(0) =~= Seq::<Seq<char>>::empty());
    while i < class.interfaces.len()
        invariant
            i <= class.interfaces@.len(),
            ifaces == class@.interfaces,
            ifaces.len() == class.interfaces@.len(),
            stem == context.config_spec().output_file_stem,
            supertypes_resolve(stem, class@),
            t@ == head + implements_text(stem, ifaces.take(i as int)),
        decreases class.interfaces@.len() - i,
    {
        push_str_chars(&mut t, ", ");
        if i == 0 {
            push_str_chars(&mut t, "implements ");
        }
        assert(ifaces[i as int] == class.interfaces@[i as int]@);
        assert(rust_path_of(stem, ifaces[i as int]) is Some);
        let p = rust_path(context, class.interfaces[i].as_str()).unwrap();
        push_str_chars(&mut t, p.as_str());
        proof {
            let n = ifaces.take(i + 1);
            assert(n.drop_last() =~= ifaces.take(i as int));
            assert(t@ =~= head + implements_text(stem, n));
        }
        i = i + 1;
    }
    assert(ifaces.take(ifaces.len() as int) =~= ifaces);
    push_str_chars(&mut t, " {");
    assert(t@ =~= struct_head(stem, name@, class@));
    t
}

/// Appends the functions of all the class's methods (see `macro_methods_text`).
fn push_methods_text(out: &mut Vec<char>, context: &Context, class: &Class, indent: &str)
    requires
        class.wf(),
    ensures
        final(out)@ == old(out)@ + macro_methods_text(context.config_spec().output_file_stem, class@.path, class@.methods, class@.methods, indent@),
{
    let ghost stem = context.config_spec().output_file_stem;
    let ghost start = out@;
    let names = public_names(&class.methods);
    let ghost all = methods_model(class.methods@);
    let mut j: usize = 0;
    assert(all.take(0) =~= Seq::<MethodModel>::empty());
    assert(start + Seq::<char>::empty() =~= start);
    while j < class.methods.len()
        invariant
            j <= class.methods@.len(),
            class.wf(),
            names_of(class.methods@, names@),
            all == methods_model(class.methods@),
            all == class@.methods,
            stem == context.config_spec().output_file_stem,
            out@ == start + macro_methods_text(stem, class@.path, all, all.take(j as int), indent@),
        decreases class.methods@.len() - j,
    {
        assert(class.methods@[j as int].wf());
        push_method_text(out, context, class.path.as_str(), &class.methods, &names, &class.methods[j], indent);
        proof {
            let n = all.take(j + 1);
            assert(n.drop_last() =~= all.take(j as int));
            assert(n.last() == class.methods@[j as int]@);
            assert(out@ =~= start + macro_methods_text(stem, class@.path, all, n, indent@));
        }
        j = j + 1;
    }
    assert(all.take(all.len() as int) =~= all);
}

} // verus!
