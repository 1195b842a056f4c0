//! The generated accessors of one Java field: a constant, or a getter and a setter.

use vstd::prelude::*;
use crate::access_flags::FieldAccessFlags;
use crate::class::{id_parts, Id};
use crate::config::runtime::Config;
use crate::descriptor::{parse_single_descriptor, BasicType, BasicTypeModel, Descriptor, DescriptorModel};
use crate::emit_rust::context::Context;
use crate::emit_rust::known_docs_url::{field_link, KnownDocsUrl};
use crate::emit_rust::methods::{
    add_reason, add_reasons, line, push_line, push_reason_lines, reason_if, reason_lines, reasons_model, ret_fragment,
    ret_fragment_text, rust_path, rust_path_of, wrapper_indent,
};
use crate::emit_rust::rust_text::{cstr_literal, debug_str, debug_text, emit_cstr};
use crate::emit_rust::structs::{build_name, NameKind, Struct};
use crate::jar::{Class, Field as JavaField, FieldConstant, FieldConstantModel, FieldModel};
use crate::text::{chars_of, push_chars, push_str_chars, str_eq, string_from_chars};

verus! {

/// The Rust names of a field's accessors: a constant and its value, or a getter and a setter.
pub enum FieldMangling<'a> {
    ConstValue(String, &'a FieldConstant),
    GetSet(String, String),
}

/// The Rust names of a field's accessors, with the names taken as characters.
pub enum FieldManglingModel {
    ConstValue(Seq<char>, FieldConstantModel),
    GetSet(Seq<char>, Seq<char>),
}

impl<'a> View for FieldMangling<'a> {
    type V = FieldManglingModel;

    open spec fn view(&self) -> FieldManglingModel {
        match *self {
            FieldMangling::ConstValue(name, value) => FieldManglingModel::ConstValue(name@, value@),
            FieldMangling::GetSet(get, set) => FieldManglingModel::GetSet(get@, set@),
        }
    }
}

/// A field name of which no Rust identifier could be made.
pub struct IdentifierManglingError;

/// The Rust names of a field, when it has them.
pub open spec fn names_model<'a>(r: Result<FieldMangling<'a>, IdentifierManglingError>) -> Option<FieldManglingModel> {
    match r {
        Ok(m) => Some(m@),
        Err(_) => None,
    }
}

/// A Java field of a class, and the Rust names of its accessors.
pub struct Field<'a> {
    pub class: &'a Class,
    pub java: &'a JavaField,
    pub rust_names: Result<FieldMangling<'a>, IdentifierManglingError>,
}

// ---------------------------------------------------------------------------------------------
// The accessor's types

/// The Rust types a field of class type is set from and read as, the reasons they could not be
/// found, and the crate feature its class needs.
pub open spec fn class_field_types(stem: Option<String>, c: Seq<char>) -> (Seq<char>, Seq<char>, Seq<Seq<char>>, Option<Seq<char>>) {
    let (feature, r1) = match build_name(NameKind::Feature, id_parts(c), Seq::empty()) {
        Ok(f) => (Some(f), Seq::<Seq<char>>::empty()),
        Err(_) => (None, seq!["Unable to resolve class feature"@]),
    };
    match rust_path_of(stem, c) {
        Some(p) => (
            "impl __jni_bindgen::std::convert::Into<__jni_bindgen::std::option::Option<&'obj "@ + p + ">>"@,
            "__jni_bindgen::std::option::Option<__jni_bindgen::Local<'env, "@ + p + ">>"@,
            r1,
            feature,
        ),
        None => ("???"@, "???"@, r1.push("Unable to resolve class FQN"@), feature),
    }
}

/// The Rust types a field is set from and read as, the reasons it cannot be emitted on account
/// of its type, and the crate feature its type needs.  A `String` constant is a `&'static str`.
pub open spec fn field_types(stem: Option<String>, is_constant: bool, d: DescriptorModel) -> (Seq<char>, Seq<char>, Seq<Seq<char>>, Option<Seq<char>>) {
    match d {
        DescriptorModel::Single(b) => match b {
            BasicTypeModel::Boolean => ("bool"@, "bool"@, Seq::empty(), None),
            BasicTypeModel::Byte => ("i8"@, "i8"@, Seq::empty(), None),
            BasicTypeModel::Char => ("__jni_bindgen::jchar"@, "__jni_bindgen::jchar"@, Seq::empty(), None),
            BasicTypeModel::Double => ("f64"@, "f64"@, Seq::empty(), None),
            BasicTypeModel::Float => ("f32"@, "f32"@, Seq::empty(), None),
            BasicTypeModel::Int => ("i32"@, "i32"@, Seq::empty(), None),
            BasicTypeModel::Long => ("i64"@, "i64"@, Seq::empty(), None),
            BasicTypeModel::Short => ("i16"@, "i16"@, Seq::empty(), None),
            BasicTypeModel::Void => ("()"@, "()"@, seq!["void is not a valid field type"@], None),
            BasicTypeModel::Class(c) => if c == "java/lang/String"@ && is_constant {
                ("&'static str"@, "&'static str"@, Seq::empty(), None)
            } else {
                class_field_types(stem, c)
            },
        },
        DescriptorModel::Array { .. } => ("???"@, "???"@, seq!["Haven't yet implemented array field types"@], None),
    }
}

/// A `static final` field with a constant value.
pub open spec fn is_constant_field(f: FieldModel) -> bool {
    f.flags & FieldAccessFlags::FINAL == FieldAccessFlags::FINAL
        && f.flags & FieldAccessFlags::STATIC == FieldAccessFlags::STATIC
        && f.constant is Some
}

/// The field's type.
pub open spec fn field_descriptor(f: FieldModel) -> DescriptorModel {
    parse_single_descriptor(f.descriptor)->Ok_0
}

/// Why a field's accessors cannot be emitted: it is not public, its type, and its names.
pub open spec fn field_reasons(c: Config, f: FieldModel, names: Option<FieldManglingModel>) -> Seq<Seq<char>> {
    reason_if(f.flags & FieldAccessFlags::PUBLIC != FieldAccessFlags::PUBLIC, "Non-public method"@)
        + field_types(c.output_file_stem, is_constant_field(f), field_descriptor(f)).2
        + reason_if(names is None, "Failed to mangle field name(s)"@)
}

/// The access keyword of a field, `???` for package access, then ` static`, ` final` and
/// ` volatile` as they apply.
pub open spec fn field_keywords(flags: u16) -> Seq<char> {
    (if flags & FieldAccessFlags::PRIVATE == FieldAccessFlags::PRIVATE {
        "private"@
    } else if flags & FieldAccessFlags::PROTECTED == FieldAccessFlags::PROTECTED {
        "protected"@
    } else if flags & FieldAccessFlags::PUBLIC == FieldAccessFlags::PUBLIC {
        "public"@
    } else {
        "???"@
    })
        + (if flags & FieldAccessFlags::STATIC == FieldAccessFlags::STATIC { " static"@ } else { Seq::empty() })
        + (if flags & FieldAccessFlags::FINAL == FieldAccessFlags::FINAL { " final"@ } else { Seq::empty() })
        + (if flags & FieldAccessFlags::VOLATILE == FieldAccessFlags::VOLATILE { " volatile"@ } else { Seq::empty() })
}

// ---------------------------------------------------------------------------------------------
// The text

/// A documentation link as Markdown.
pub open spec fn link_text(label: Seq<char>, url: Seq<char>) -> Seq<char> {
    "["@ + label + "]("@ + url + ")"@
}

/// The lines naming the crate feature an accessor needs, and its `cfg` attribute.
pub open spec fn feature_lines(ind: Seq<char>, feature: Option<Seq<char>>) -> Seq<char> {
    match feature {
        Some(f) => line(ind, "///"@) + line(ind, "/// Required feature: "@ + f)
            + line(ind, "#[cfg(any(feature = \"all\", feature = "@ + debug_str(f) + "))]"@),
        None => Seq::empty(),
    }
}

/// `static_` for a static field.
pub open spec fn static_word(is_static: bool) -> Seq<char> {
    if is_static { "static_"@ } else { Seq::empty() }
}

/// The body of a getter or setter: it finds the class and the field through JNI and makes `call`.
pub open spec fn accessor_body(ind: Seq<char>, is_static: bool, class: Seq<char>, f: FieldModel, call: Seq<char>) -> Seq<char> {
    line(ind, "    unsafe {"@)
        + (if is_static { Seq::empty() } else { line(ind, "        let env = __jni_bindgen::Env::from_ptr(self.0.env);"@) })
        + line(ind, "        let (class, field) = env.require_class_"@ + static_word(is_static) + "field("@
            + cstr_literal(class) + ", "@ + cstr_literal(f.name) + ", "@ + cstr_literal(f.descriptor) + ");"@)
        + line(ind, "        env."@ + call)
        + line(ind, "    }"@)
        + line(ind, "}"@)
}

/// A constant: a link to its documentation, if there is one, the feature it needs, and
/// `pub const NAME : Type = value;`, where `value_text` is how the value is written (a `char`
/// is wrapped in its type, a `boolean` is `false` when its value is 0 and `true` otherwise).
pub open spec fn const_text(
    ind: Seq<char>,
    kw: Seq<char>,
    link: Option<(Seq<char>, Seq<char>)>,
    feature: Option<Seq<char>>,
    attributes: Seq<char>,
    constant: Seq<char>,
    get_type: Seq<char>,
    d: DescriptorModel,
    value: FieldConstantModel,
    value_text: Seq<char>,
) -> Seq<char> {
    (match link {
        Some((label, url)) => line(ind, "/// "@ + kw + " "@ + link_text(label, url)),
        None => Seq::<char>::empty(),
    })
    + feature_lines(ind, feature)
    + line(ind, attributes + "pub const "@ + constant + " : "@ + get_type + " = "@ + (match d {
        DescriptorModel::Single(BasicTypeModel::Char) => get_type + "("@ + value_text + ")"@,
        DescriptorModel::Single(BasicTypeModel::Boolean) =>
            if value == FieldConstantModel::Integer(0) { "false"@ } else { "true"@ },
        _ => value_text,
    }) + ";"@)
}

/// A getter: its documentation line (ending in `described`), the feature it needs, and the
/// function.
pub open spec fn getter_text(
    ind: Seq<char>,
    kw: Seq<char>,
    described: Seq<char>,
    feature: Option<Seq<char>>,
    attributes: Seq<char>,
    env_param: Seq<char>,
    get: Seq<char>,
    get_type: Seq<char>,
    frag: Seq<char>,
    is_static: bool,
    class: Seq<char>,
    f: FieldModel,
) -> Seq<char> {
    line(ind, "/// **get** "@ + kw + " "@ + described)
    + feature_lines(ind, feature)
    + line(ind, attributes + "pub fn "@ + get + "<'env>("@ + env_param + ") -> "@ + get_type + " {"@)
    + accessor_body(ind, is_static, class, f, "get_"@ + static_word(is_static) + frag + "_field(class, field)"@)
}

/// A setter: a blank line, its documentation line (ending in `described`), the feature it
/// needs, and the function, which takes an object for an object field.
pub open spec fn setter_text(
    ind: Seq<char>,
    kw: Seq<char>,
    described: Seq<char>,
    feature: Option<Seq<char>>,
    attributes: Seq<char>,
    env_param: Seq<char>,
    set: Seq<char>,
    set_type: Seq<char>,
    frag: Seq<char>,
    is_static: bool,
    class: Seq<char>,
    f: FieldModel,
) -> Seq<char> {
    seq!['\n']
    + line(ind, "/// **set** "@ + kw + " "@ + described)
    + feature_lines(ind, feature)
    + line(ind, attributes + "pub fn "@ + set + "<"@ + (if frag == "object"@ { "'env, 'obj"@ } else { "'env"@ })
        + ">("@ + env_param + ", value: "@ + set_type + ") {"@)
    + accessor_body(ind, is_static, class, f, "set_"@ + static_word(is_static) + frag + "_field(class, field, value)"@)
}

/// A getter and, for a field that is not `final`, a setter.
pub open spec fn getset_text(
    ind: Seq<char>,
    kw: Seq<char>,
    described: Seq<char>,
    feature: Option<Seq<char>>,
    attributes: Seq<char>,
    env_param: Seq<char>,
    get: Seq<char>,
    set: Seq<char>,
    get_type: Seq<char>,
    set_type: Seq<char>,
    frag: Seq<char>,
    is_static: bool,
    is_final: bool,
    class: Seq<char>,
    f: FieldModel,
) -> Seq<char> {
    getter_text(ind, kw, described, feature, attributes, env_param, get, get_type, frag, is_static, class, f)
    + (if is_final {
        Seq::<char>::empty()
    } else {
        setter_text(ind, kw, described, feature, attributes, env_param, set, set_type, frag, is_static, class, f)
    })
}

/// For a field whose names could not be made: the getter's and (unless the field is `final`)
/// the setter's headers, named after the `Debug` form of the field's name, with `{ ... }`.
pub open spec fn unmangled_text(
    ind: Seq<char>,
    attributes: Seq<char>,
    name: Seq<char>,
    env_param: Seq<char>,
    get_type: Seq<char>,
    set_type: Seq<char>,
    is_final: bool,
) -> Seq<char> {
    line(ind, attributes + "pub fn get_"@ + debug_str(name) + "<'env>("@ + env_param + ") -> "@ + get_type + " { ... }"@)
    + (if is_final {
        Seq::<char>::empty()
    } else {
        line(ind, attributes + "pub fn set_"@ + debug_str(name) + "<'env>("@ + env_param + ") -> "@ + set_type + " { ... }"@)
    })
}

/// What follows the reason comments of a field's accessors, each line after `ind`: a constant
/// (see `const_text`), a getter and a setter (see `getset_text`), or, when the field's names
/// could not be made, their headers alone (see `unmangled_text`).
pub open spec fn field_tail(c: Config, class: Seq<char>, f: FieldModel, names: Option<FieldManglingModel>, ind: Seq<char>, value_text: Seq<char>) -> Seq<char> {
    let d = field_descriptor(f);
    let (set_type, get_type, _r, feature) = field_types(c.output_file_stem, is_constant_field(f), d);
    let kw = field_keywords(f.flags);
    let attributes = if f.deprecated { "#[deprecated] "@ } else { Seq::<char>::empty() };
    let is_static = f.flags & FieldAccessFlags::STATIC == FieldAccessFlags::STATIC;
    let is_final = f.flags & FieldAccessFlags::FINAL == FieldAccessFlags::FINAL;
    let env_param = if is_static { "env: &'env __jni_bindgen::Env"@ } else { "&'env self"@ };
    let link = field_link(c.doc_patterns@, class, f.name);
    let described = match link {
        Some((label, url)) => link_text(label, url),
        None => f.name,
    };
    match names {
        Some(FieldManglingModel::ConstValue(constant, value)) =>
            const_text(ind, kw, link, feature, attributes, constant, get_type, d, value, value_text),
        Some(FieldManglingModel::GetSet(get, set)) =>
            getset_text(ind, kw, described, feature, attributes, env_param, get, set, get_type, set_type, ret_fragment(d), is_static, is_final, class, f),
        None => unmangled_text(ind, attributes, f.name, env_param, get_type, set_type, is_final),
    }
}

/// A field's accessors: a blank line; a `// Not emitting:` comment for each reason they cannot
/// be emitted, in which case they are commented out; then the accessors (see `field_tail`).
pub open spec fn field_text(c: Config, class: Seq<char>, f: FieldModel, names: Option<FieldManglingModel>, indent: Seq<char>, value_text: Seq<char>) -> Seq<char> {
    let reasons = field_reasons(c, f, names);
    let ind = wrapper_indent(indent, reasons.len() > 0);
    seq!['\n'] + reason_lines(ind, reasons) + field_tail(c, class, f, names, ind, value_text)
}

// ---------------------------------------------------------------------------------------------
// Building the text

/// The crate feature as characters, when there is one.
pub open spec fn feature_model(f: Option<String>) -> Option<Seq<char>> {
    match f {
        Some(s) => Some(s@),
        None => None,
    }
}

/// The label and address of a documentation link, when there is one.
pub open spec fn link_model(u: Option<KnownDocsUrl>) -> Option<(Seq<char>, Seq<char>)> {
    match u {
        Some(k) => Some((k.label@, k.url@)),
        None => None,
    }
}

/// A list of one reason.
fn one_reason(reason: &'static str) -> (r: Vec<&'static str>)
    ensures
        reasons_model(r@) == seq![reason@],
{
    let mut v: Vec<&'static str> = Vec::new();
    v.push(reason);
    assert(reasons_model(v@) =~= seq![reason@]);
    v
}

/// The types of a field of class type (see `class_field_types`).
fn class_types(context: &Context, c: &str) -> (r: (Vec<char>, Vec<char>, Vec<&'static str>, Option<String>))
    ensures
        ({
            let (s, g, rs, feat) = class_field_types(context.config_spec().output_file_stem, c@);
            r.0@ == s && r.1@ == g && reasons_model(r.2@) == rs && feature_model(r.3) == feat
        }),
{
    let mut reasons: Vec<&'static str> = Vec::new();
    let feature = match Struct::feature_for(context, Id(c)) {
        Ok(f) => Some(f),
        Err(_) => {
            reasons.push("Unable to resolve class feature");
            None
        },
    };
    let mut set_type: Vec<char> = Vec::new();
    let mut get_type: Vec<char> = Vec::new();
    match rust_path(context, c) {
        Some(p) => {
            push_str_chars(&mut set_type, "impl __jni_bindgen::std::convert::Into<__jni_bindgen::std::option::Option<&'obj ");
            push_str_chars(&mut set_type, p.as_str());
            push_str_chars(&mut set_type, ">>");
            push_str_chars(&mut get_type, "__jni_bindgen::std::option::Option<__jni_bindgen::Local<'env, ");
            push_str_chars(&mut get_type, p.as_str());
            push_str_chars(&mut get_type, ">>");
        },
        None => {
            push_str_chars(&mut set_type, "???");
            push_str_chars(&mut get_type, "???");
            add_reason(&mut reasons, "Unable to resolve class FQN");
        },
    }
    let ghost want = class_field_types(context.config_spec().output_file_stem, c@);
    assert(set_type@ =~= want.0);
    assert(get_type@ =~= want.1);
    assert(reasons_model(reasons@) =~= want.2);
    (set_type, get_type, reasons, feature)
}

/// The types of a field (see `field_types`).
fn types_of(context: &Context, is_constant: bool, d: Descriptor) -> (r: (Vec<char>, Vec<char>, Vec<&'static str>, Option<String>))
    ensures
        ({
            let (s, g, rs, feat) = field_types(context.config_spec().output_file_stem, is_constant, d@);
            r.0@ == s && r.1@ == g && reasons_model(r.2@) == rs && feature_model(r.3) == feat
        }),
{
    let none: Vec<&'static str> = Vec::new();
    assert(reasons_model(none@) =~= Seq::<Seq<char>>::empty());
    match d {
        Descriptor::Single(b) => match b {
            BasicType::Boolean => (chars_of("bool"), chars_of("bool"), none, None),
            BasicType::Byte => (chars_of("i8"), chars_of("i8"), none, None),
            BasicType::Char => (chars_of("__jni_bindgen::jchar"), chars_of("__jni_bindgen::jchar"), none, None),
            BasicType::Double => (chars_of("f64"), chars_of("f64"), none, None),
            BasicType::Float => (chars_of("f32"), chars_of("f32"), none, None),
            BasicType::Int => (chars_of("i32"), chars_of("i32"), none, None),
            BasicType::Long => (chars_of("i64"), chars_of("i64"), none, None),
            BasicType::Short => (chars_of("i16"), chars_of("i16"), none, None),
            BasicType::Void => (chars_of("()"), chars_of("()"), one_reason("void is not a valid field type"), None),
            BasicType::Class(id) => if is_constant && str_eq(id.0, "java/lang/String") {
                (chars_of("&'static str"), chars_of("&'static str"), none, None)
            } else {
                class_types(context, id.0)
            },
        },
        Descriptor::Array { .. } => (chars_of("???"), chars_of("???"), one_reason("Haven't yet implemented array field types"), None),
    }
}

/// The keywords of a field (see `field_keywords`).
fn keywords_text(java: &JavaField) -> (r: Vec<char>)
    ensures
        r@ == field_keywords(java@.flags),
{
    let mut out: Vec<char> = Vec::new();
    match java.access() {
        Some(a) => push_str_chars(&mut out, a),
        None => push_str_chars(&mut out, "???"),
    }
    if java.is_static() {
        push_str_chars(&mut out, " static");
    }
    if java.is_final() {
        push_str_chars(&mut out, " final");
    }
    if java.is_volatile() {
        push_str_chars(&mut out, " volatile");
    }
    assert(out@ =~= field_keywords(java@.flags));
    out
}

/// The pieces, one after another.
pub open spec fn joined(pieces: Seq<&str>) -> Seq<char>
    decreases pieces.len(),
{
    if pieces.len() == 0 {
        Seq::empty()
    } else {
        joined(pieces.drop_last()) + pieces.last()@
    }
}

/// Appends a line made of the pieces, one after another.
fn push_line_of(out: &mut Vec<char>, ind: &Vec<char>, pieces: &[&str])
    ensures
        final(out)@ == old(out)@ + line(ind@, joined(pieces@)),
{
    let mut t: Vec<char> = Vec::new();
    let mut k: usize = 0;
    while k < pieces.len()
        invariant
            k <= pieces@.len(),
            t@ == joined(pieces@.take(k as int)),
        decreases pieces@.len() - k,
    {
        push_str_chars(&mut t, pieces[k]);
        assert(pieces@.take(k + 1).drop_last() =~= pieces@.take(k as int));
        k = k + 1;
    }
    assert(pieces@.take(pieces@.len() as int) =~= pieces@);
    push_line(out, ind, &t);
}

/// Appends the lines of the feature an accessor needs (see `feature_lines`).
fn push_feature_lines(out: &mut Vec<char>, ind: &Vec<char>, feature: &Option<String>)
    ensures
        final(out)@ == old(out)@ + feature_lines(ind@, feature_model(*feature)),
{
    match feature {
        Some(f) => {
            let ghost start = out@;
            let d = debug_text(f.as_str());
            push_line_of(out, ind, &["///"]);
            push_line_of(out, ind, &["/// Required feature: ", f.as_str()]);
            push_line_of(out, ind, &["#[cfg(any(feature = \"all\", feature = ", d.as_str(), "))]"]);
            proof {
                reveal_with_fuel(joined, 4);
                assert(out@ =~= start + feature_lines(ind@, feature_model(*feature)));
            }
        },
        None => {
            assert(out@ =~= old(out)@ + feature_lines(ind@, feature_model(*feature)));
        },
    }
}

/// Appends the body of a getter or setter (see `accessor_body`).
fn push_accessor_body(out: &mut Vec<char>, ind: &Vec<char>, is_static: bool, class: &str, java: &JavaField, call: &Vec<char>)
    ensures
        final(out)@ == old(out)@ + accessor_body(ind@, is_static, class@, java@, call@),
{
    let ghost start = out@;
    push_line_of(out, ind, &["    unsafe {"]);
    if !is_static {
        push_line_of(out, ind, &["        let env = __jni_bindgen::Env::from_ptr(self.0.env);"]);
    }
    let st = if is_static { "static_" } else { "" };
    let c1 = string_from_chars(emit_cstr(class).as_slice());
    let c2 = string_from_chars(emit_cstr(java.name_str()).as_slice());
    let c3 = string_from_chars(emit_cstr(java.descriptor_str()).as_slice());
    let ghost p1 = out@;
    push_line_of(out, ind, &["        let (class, field) = env.require_class_", st, "field(", c1.as_str(), ", ", c2.as_str(), ", ", c3.as_str(), ");"]);
    proof {
        reveal_with_fuel(joined, 10);
        assert(st@ =~= static_word(is_static)) by { reveal_strlit(""); }
        assert(out@ =~= p1 + line(ind@, "        let (class, field) = env.require_class_"@ + static_word(is_static) + "field("@
            + cstr_literal(class@) + ", "@ + cstr_literal(java@.name) + ", "@ + cstr_literal(java@.descriptor) + ");"@));
    }
    let mut t: Vec<char> = Vec::new();
    push_str_chars(&mut t, "        env.");
    push_chars(&mut t, call.as_slice());
    push_line(out, ind, &t);
    push_line_of(out, ind, &["    }"]);
    push_line_of(out, ind, &["}"]);
    proof {
        reveal_with_fuel(joined, 2);
        assert(out@ =~= start + accessor_body(ind@, is_static, class@, java@, call@));
    }
}

/// Appends the documentation line of an accessor: `prefix`, its keywords, then its link or,
/// when there is none, `fallback`.
fn push_doc_line(out: &mut Vec<char>, ind: &Vec<char>, prefix: &str, kw: &Vec<char>, url: &Option<KnownDocsUrl>, fallback: &str)
    ensures
        final(out)@ == old(out)@ + line(ind@, prefix@ + kw@ + " "@ + match link_model(*url) {
            Some((label, u)) => link_text(label, u),
            None => fallback@,
        }),
{
    let mut t: Vec<char> = Vec::new();
    push_str_chars(&mut t, prefix);
    push_chars(&mut t, kw.as_slice());
    push_str_chars(&mut t, " ");
    match url {
        Some(u) => {
            push_str_chars(&mut t, "[");
            push_str_chars(&mut t, u.label.as_str());
            push_str_chars(&mut t, "](");
            push_str_chars(&mut t, u.url.as_str());
            push_str_chars(&mut t, ")");
        },
        None => push_str_chars(&mut t, fallback),
    }
    push_line(out, ind, &t);
}

/// Appends a constant (see `const_text`).
fn push_const(
    out: &mut Vec<char>,
    ind: &Vec<char>,
    kw: &Vec<char>,
    url: &Option<KnownDocsUrl>,
    feature: &Option<String>,
    attributes: &str,
    constant: &str,
    get_type: &Vec<char>,
    d: Descriptor,
    value: &FieldConstant,
    value_text: &str,
)
    ensures
        final(out)@ == old(out)@ + const_text(ind@, kw@, link_model(*url), feature_model(*feature), attributes@, constant@, get_type@, d@, value@, value_text@),
{
    let ghost start = out@;
    match url {
        Some(_) => push_doc_line(out, ind, "/// ", kw, url, ""),
        None => {},
    }
    let ghost p1 = out@;
    assert(p1 =~= start + match link_model(*url) {
        Some((label, u)) => line(ind@, "/// "@ + kw@ + " "@ + link_text(label, u)),
        None => Seq::<char>::empty(),
    });
    push_feature_lines(out, ind, feature);
    let mut t: Vec<char> = Vec::new();
    push_str_chars(&mut t, attributes);
    push_str_chars(&mut t, "pub const ");
    push_str_chars(&mut t, constant);
    push_str_chars(&mut t, " : ");
    push_chars(&mut t, get_type.as_slice());
    push_str_chars(&mut t, " = ");
    match d {
        Descriptor::Single(BasicType::Char) => {
            push_chars(&mut t, get_type.as_slice());
            push_str_chars(&mut t, "(");
            push_str_chars(&mut t, value_text);
            push_str_chars(&mut t, ")");
        },
        Descriptor::Single(BasicType::Boolean) => {
            let zero = match value {
                FieldConstant::Integer(v) => *v == 0,
                _ => false,
            };
            if zero {
                push_str_chars(&mut t, "false");
            } else {
                push_str_chars(&mut t, "true");
            }
        },
        _ => push_str_chars(&mut t, value_text),
    }
    push_str_chars(&mut t, ";");
    push_line(out, ind, &t);
    assert(out@ =~= start + const_text(ind@, kw@, link_model(*url), feature_model(*feature), attributes@, constant@, get_type@, d@, value@, value_text@));
}

/// The end of an accessor's documentation line: its link, or the field's name.
pub open spec fn described(url: Option<KnownDocsUrl>, f: FieldModel) -> Seq<char> {
    match link_model(url) {
        Some((label, u)) => link_text(label, u),
        None => f.name,
    }
}

/// Appends a getter (see `getter_text`).
fn push_getter(
    out: &mut Vec<char>,
    ind: &Vec<char>,
    kw: &Vec<char>,
    url: &Option<KnownDocsUrl>,
    feature: &Option<String>,
    attributes: &str,
    env_param: &str,
    get: &str,
    get_type: &Vec<char>,
    frag: &str,
    class: &str,
    java: &JavaField,
)
    ensures
        final(out)@ == old(out)@ + getter_text(ind@, kw@, described(*url, java@), feature_model(*feature), attributes@, env_param@,
            get@, get_type@, frag@, java@.flags & FieldAccessFlags::STATIC == FieldAccessFlags::STATIC, class@, java@),
{
    let ghost start = out@;
    let is_static = java.is_static();
    push_doc_line(out, ind, "/// **get** ", kw, url, java.name_str());
    push_feature_lines(out, ind, feature);
    let mut t: Vec<char> = Vec::new();
    push_str_chars(&mut t, attributes);
    push_str_chars(&mut t, "pub fn ");
    push_str_chars(&mut t, get);
    push_str_chars(&mut t, "<'env>(");
    push_str_chars(&mut t, env_param);
    push_str_chars(&mut t, ") -> ");
    push_chars(&mut t, get_type.as_slice());
    push_str_chars(&mut t, " {");
    push_line(out, ind, &t);
    let mut call: Vec<char> = Vec::new();
    push_str_chars(&mut call, "get_");
    if is_static {
        push_str_chars(&mut call, "static_");
    }
    push_str_chars(&mut call, frag);
    push_str_chars(&mut call, "_field(class, field)");
    assert(call@ =~= "get_"@ + static_word(is_static) + frag@ + "_field(class, field)"@);
    push_accessor_body(out, ind, is_static, class, java, &call);
    assert(out@ =~= start + getter_text(ind@, kw@, described(*url, java@), feature_model(*feature), attributes@, env_param@,
        get@, get_type@, frag@, is_static, class@, java@));
}

/// Appends a setter (see `setter_text`).
fn push_setter(
    out: &mut Vec<char>,
    ind: &Vec<char>,
    kw: &Vec<char>,
    url: &Option<KnownDocsUrl>,
    feature: &Option<String>,
    attributes: &str,
    env_param: &str,
    set: &str,
    set_type: &Vec<char>,
    frag: &str,
    class: &str,
    java: &JavaField,
)
    ensures
        final(out)@ == old(out)@ + setter_text(ind@, kw@, described(*url, java@), feature_model(*feature), attributes@, env_param@,
            set@, set_type@, frag@, java@.flags & FieldAccessFlags::STATIC == FieldAccessFlags::STATIC, class@, java@),
{
    let ghost start = out@;
    let is_static = java.is_static();
    out.push('\n');
    push_doc_line(out, ind, "/// **set** ", kw, url, java.name_str());
    push_feature_lines(out, ind, feature);
    let mut t: Vec<char> = Vec::new();
    push_str_chars(&mut t, attributes);
    push_str_chars(&mut t, "pub fn ");
    push_str_chars(&mut t, set);
    push_str_chars(&mut t, "<");
    if str_eq(frag, "object") {
        push_str_chars(&mut t, "'env, 'obj");
    } else {
        push_str_chars(&mut t, "'env");
    }
    push_str_chars(&mut t, ">(");
    push_str_chars(&mut t, env_param);
    push_str_chars(&mut t, ", value: ");
    push_chars(&mut t, set_type.as_slice());
    push_str_chars(&mut t, ") {");
    push_line(out, ind, &t);
    let mut call: Vec<char> = Vec::new();
    push_str_chars(&mut call, "set_");
    if is_static {
        push_str_chars(&mut call, "static_");
    }
    push_str_chars(&mut call, frag);
    push_str_chars(&mut call, "_field(class, field, value)");
    assert(call@ =~= "set_"@ + static_word(is_static) + frag@ + "_field(class, field, value)"@);
    push_accessor_body(out, ind, is_static, class, java, &call);
    assert(out@ =~= start + setter_text(ind@, kw@, described(*url, java@), feature_model(*feature), attributes@, env_param@,
        set@, set_type@, frag@, is_static, class@, java@));
}

/// Appends the headers of a field whose names could not be made (see `unmangled_text`).
fn push_unmangled(out: &mut Vec<char>, ind: &Vec<char>, attributes: &str, java: &JavaField, env_param: &str, get_type: &Vec<char>, set_type: &Vec<char>)
    ensures
        final(out)@ == old(out)@ + unmangled_text(ind@, attributes@, java@.name, env_param@, get_type@, set_type@,
            java@.flags & FieldAccessFlags::FINAL == FieldAccessFlags::FINAL),
{
    let ghost start = out@;
    let name = debug_text(java.name_str());
    let mut t: Vec<char> = Vec::new();
    push_str_chars(&mut t, attributes);
    push_str_chars(&mut t, "pub fn get_");
    push_str_chars(&mut t, name.as_str());
    push_str_chars(&mut t, "<'env>(");
    push_str_chars(&mut t, env_param);
    push_str_chars(&mut t, ") -> ");
    push_chars(&mut t, get_type.as_slice());
    push_str_chars(&mut t, " { ... }");
    push_line(out, ind, &t);
    if !java.is_final() {
        let mut t: Vec<char> = Vec::new();
        push_str_chars(&mut t, attributes);
        push_str_chars(&mut t, "pub fn set_");
        push_str_chars(&mut t, name.as_str());
        push_str_chars(&mut t, "<'env>(");
        push_str_chars(&mut t, env_param);
        push_str_chars(&mut t, ") -> ");
        push_chars(&mut t, set_type.as_slice());
        push_str_chars(&mut t, " { ... }");
        push_line(out, ind, &t);
    }
    assert(out@ =~= start + unmangled_text(ind@, attributes@, java@.name, env_param@, get_type@, set_type@,
        java@.flags & FieldAccessFlags::FINAL == FieldAccessFlags::FINAL));
}

impl<'a> Field<'a> {
    /// Why the field's accessors cannot be emitted (see `field_reasons`), with their types and
    /// the feature they need (see `field_types`).
    fn parts(&self, context: &Context) -> (r: (Vec<&'static str>, Vec<char>, Vec<char>, Option<String>))
        requires
            self.java.wf(),
        ensures
            ({
                let (s, g, _rs, feat) = field_types(context.config_spec().output_file_stem, is_constant_field(self.java@), field_descriptor(self.java@));
                &&& reasons_model(r.0@) == field_reasons(context.config_spec(), self.java@, names_model(self.rust_names))
                &&& r.1@ == s
                &&& r.2@ == g
                &&& feature_model(r.3) == feat
            }),
    {
        let java = self.java;
        let mut reasons: Vec<&'static str> = Vec::new();
        assert(reasons_model(reasons@) =~= Seq::<Seq<char>>::empty());
        if !java.is_public() {
            add_reason(&mut reasons, "Non-public method");
        }
        let ghost r0 = reasons_model(reasons@);
        assert(r0 =~= reason_if(java@.flags & FieldAccessFlags::PUBLIC != FieldAccessFlags::PUBLIC, "Non-public method"@));
        let (set_type, get_type, type_reasons, feature) = types_of(context, java.is_constant(), java.descriptor());
        add_reasons(&mut reasons, &type_reasons);
        let ghost r1 = reasons_model(reasons@);
        if self.rust_names.is_err() {
            add_reason(&mut reasons, "Failed to mangle field name(s)");
        }
        assert(reasons_model(reasons@) =~= r1 + reason_if(names_model(self.rust_names) is None, "Failed to mangle field name(s)"@));
        (reasons, set_type, get_type, feature)
    }

    /// Appends the accessors that follow the reason comments (see `field_tail`).
    #[verifier::rlimit(80)]
    #[verifier::spinoff_prover]
    fn push_tail(&self, context: &Context, out: &mut Vec<char>, ind: &Vec<char>, set_type: &Vec<char>, get_type: &Vec<char>, feature: &Option<String>, value_text: &str)
        requires
            self.java.wf(),
            ({
                let (s, g, _rs, feat) = field_types(context.config_spec().output_file_stem, is_constant_field(self.java@), field_descriptor(self.java@));
                set_type@ == s && get_type@ == g && feature_model(*feature) == feat
            }),
        ensures
            final(out)@ == old(out)@ + field_tail(context.config_spec(), self.class.path@, self.java@, names_model(self.rust_names), ind@, value_text@),
    {
        let java = self.java;
        let class_path = self.class.path.as_str();
        let d = java.descriptor();
        let kw = keywords_text(java);
        proof { reveal_strlit(""); }
        let attributes = if java.is_deprecated() { "#[deprecated] " } else { "" };
        let env_param = if java.is_static() { "env: &'env __jni_bindgen::Env" } else { "&'env self" };
        let url = KnownDocsUrl::from_field(context, class_path, java.name_str(), d);
        let frag = ret_fragment_text(d);
        let ghost start = out@;
        let ghost c = context.config_spec();
        let ghost f = java@;
        let ghost is_static = f.flags & FieldAccessFlags::STATIC == FieldAccessFlags::STATIC;
        let ghost is_final = f.flags & FieldAccessFlags::FINAL == FieldAccessFlags::FINAL;
        let ghost want = field_tail(c, class_path@, f, names_model(self.rust_names), ind@, value_text@);
        proof {
            assert(d@ == field_descriptor(f));
            assert(attributes@ == (if f.deprecated { "#[deprecated] "@ } else { Seq::<char>::empty() }));
            assert(env_param@ == (if is_static { "env: &'env __jni_bindgen::Env"@ } else { "&'env self"@ }));
            assert(link_model(url) == field_link(c.doc_patterns@, class_path@, f.name));
            assert(frag@ == ret_fragment(field_descriptor(f)));
        }
        match &self.rust_names {
            Ok(FieldMangling::ConstValue(constant, value)) => {
                push_const(out, ind, &kw, &url, feature, attributes, constant.as_str(), get_type, d, value, value_text);
                assert(out@ =~= start + want);
            },
            Ok(FieldMangling::GetSet(get, set)) => {
                push_getter(out, ind, &kw, &url, feature, attributes, env_param, get.as_str(), get_type, frag, class_path, java);
                let ghost mid = out@;
                if !java.is_final() {
                    push_setter(out, ind, &kw, &url, feature, attributes, env_param, set.as_str(), set_type, frag, class_path, java);
                }
                assert(out@ =~= start + getset_text(ind@, kw@, described(url, f), feature_model(*feature), attributes@, env_param@,
                    get@, set@, get_type@, set_type@, frag@, is_static, is_final, class_path@, f));
                assert(out@ =~= start + want);
            },
            Err(_) => {
                push_unmangled(out, ind, attributes, java, env_param, get_type, set_type);
                assert(out@ =~= start + want);
            },
        }
    }

    /// The text of the field's accessors (see `field_text`), each line after `indent`, with
    /// the value of a constant written as `value_text`.
    pub fn emit(&self, context: &Context, indent: &str, value_text: &str) -> (text: String)
        requires
            self.java.wf(),
        ensures
            text@ == field_text(context.config_spec(), self.class.path@, self.java@, names_model(self.rust_names), indent@, value_text@),
    {
        let (reasons, set_type, get_type, feature) = self.parts(context);
        let mut ind: Vec<char> = Vec::new();
        push_str_chars(&mut ind, indent);
        if reasons.len() > 0 {
            push_str_chars(&mut ind, "        // ");
        } else {
            push_str_chars(&mut ind, "        ");
        }
        let mut out: Vec<char> = Vec::new();
        out.push('\n');
        push_reason_lines(&mut out, &ind, &reasons);
        self.push_tail(context, &mut out, &ind, &set_type, &get_type, &feature, value_text);
        proof {
            assert(out@ =~= field_text(context.config_spec(), self.class.path@, self.java@, names_model(self.rust_names), indent@, value_text@));
        }
        string_from_chars(out.as_slice())
    }
}

} // verus!
