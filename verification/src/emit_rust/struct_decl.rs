//! The generated declaration of one Java class: its `__jni_bindgen!` block, with the wrappers of
//! its methods and the accessors of its fields.

use vstd::prelude::*;
use crate::class::{id_parts, Id};
use crate::config::runtime::Config;
use crate::emit_rust::class_macro::{class_visibility, implements_text, resolved, supertypes_resolve};
use crate::emit_rust::context::Context;
use crate::emit_rust::fields::{field_text, link_text, names_model, Field, FieldManglingModel};
use crate::emit_rust::known_docs_url::{class_link, KnownDocsUrl};
use crate::emit_rust::methods::{line, mangled_name, method_text, push_line, rust_path, rust_path_of, Method};
use crate::emit_rust::rust_text::{debug_str, debug_text};
use crate::emit_rust::structs::{build_name, NameKind, Struct};
use crate::jar::{Class, ClassModel, FieldModel, MethodModel};
use crate::method_mangling::MethodManglingStyle;
use crate::text::{push_str_chars, str_eq, string_from_chars};

verus! {

/// The kind of class, as the generated declaration names it.
pub open spec fn decl_keyword(flags: u16) -> Seq<char> {
    if flags & 0x0200 == 0x0200 {
        "interface"@
    } else if flags & 0x4000 == 0x4000 {
        "enum"@
    } else if flags & 0x0008 == 0x0008 {
        "static java"@
    } else if flags & 0x0010 == 0x0010 {
        "final class"@
    } else {
        "class"@
    }
}

/// How many of the public methods `ms`, named in `style`, are named `n`.
pub open spec fn method_name_count(style: MethodManglingStyle, ms: Seq<MethodModel>, n: Seq<char>) -> nat
    decreases ms.len(),
{
    if ms.len() == 0 {
        0
    } else {
        method_name_count(style, ms.drop_last(), n)
            + if ms.last().flags & 0x0001 == 0x0001 && mangled_name(style, ms.last()) == Some(n) { 1nat } else { 0nat }
    }
}

/// How many of the names of the public fields `fs` (named `names`) are `n`: a constant has one
/// name, a getter and a setter two.
pub open spec fn field_name_count(fs: Seq<FieldModel>, names: Seq<Option<FieldManglingModel>>, n: Seq<char>) -> nat
    decreases fs.len(),
{
    if fs.len() == 0 || names.len() == 0 {
        0
    } else {
        field_name_count(fs.drop_last(), names.drop_last(), n) + if fs.last().flags & 0x0001 == 0x0001 {
            match names.last() {
                Some(FieldManglingModel::ConstValue(k, _)) => if k == n { 1nat } else { 0nat },
                Some(FieldManglingModel::GetSet(g, s)) => (if g == n { 1nat } else { 0nat }) + (if s == n { 1nat } else { 0nat }),
                None => 0nat,
            }
        } else {
            0nat
        }
    }
}

/// The Rust name of a method's wrapper: its name in the configuration's style, or, when the
/// public methods and fields of its class use that name more than once, its name in the style
/// for collisions.
pub open spec fn decl_method_name(c: Config, cm: ClassModel, names: Seq<Option<FieldManglingModel>>, m: MethodModel) -> Option<Seq<char>> {
    let style = c.codegen.method_naming_style;
    match mangled_name(style, m) {
        Some(n) => if method_name_count(style, cm.methods, n) + field_name_count(cm.fields, names, n) > 1 {
            mangled_name(c.codegen.method_naming_style_collision, m)
        } else {
            Some(n)
        },
        None => None,
    }
}

/// The wrapper of a method `m` of class `cm` (see `method_text`), named as `decl_method_name`
/// says.
#[verifier::opaque]
pub open spec fn decl_method_text(c: Config, cm: ClassModel, names: Seq<Option<FieldManglingModel>>, m: MethodModel, indent: Seq<char>) -> Seq<char> {
    method_text(c, cm.path, m, decl_method_name(c, cm, names, m), indent)
}

/// The wrappers of the methods `ms` of class `cm`, in order.
pub open spec fn decl_methods_text(c: Config, cm: ClassModel, names: Seq<Option<FieldManglingModel>>, ms: Seq<MethodModel>, indent: Seq<char>) -> Seq<char>
    decreases ms.len(),
{
    if ms.len() == 0 {
        Seq::empty()
    } else {
        decl_methods_text(c, cm, names, ms.drop_last(), indent)
            + decl_method_text(c, cm, names, ms.last(), indent)
    }
}

/// The accessors of the fields `fs` of class `class`, named `names`, constants written as
/// `values`, in order.
pub open spec fn decl_fields_text(c: Config, class: Seq<char>, fs: Seq<FieldModel>, names: Seq<Option<FieldManglingModel>>, values: Seq<Seq<char>>, indent: Seq<char>) -> Seq<char>
    decreases fs.len(),
{
    if fs.len() == 0 || names.len() == 0 || values.len() == 0 {
        Seq::empty()
    } else {
        decl_fields_text(c, class, fs.drop_last(), names.drop_last(), values.drop_last(), indent)
            + field_text(c, class, fs.last(), names.last(), indent, values.last())
    }
}

/// The header of a class's declaration: `#[deprecated]` for a deprecated class, its visibility
/// and kind, its Rust name, its class path, the class it extends (`()` when none) and the
/// interfaces it implements.
pub open spec fn decl_head(c: Config, name: Seq<char>, cm: ClassModel) -> Seq<char> {
    let stem = c.output_file_stem;
    let sup = match cm.super_path { Some(s) => resolved(stem, s), None => "()"@ };
    "    "@ + (if cm.deprecated { "#[deprecated] "@ } else { Seq::<char>::empty() })
        + class_visibility(cm.flags) + " "@ + decl_keyword(cm.flags) + " "@ + name
        + " ("@ + debug_str(cm.path) + ") extends "@ + sup + implements_text(stem, cm.interfaces) + " {"@
}

/// The `cfg` attribute of the crate feature a class needs.
pub open spec fn decl_cfg_line(indent: Seq<char>, feature: Result<Seq<char>, Seq<char>>) -> Seq<char> {
    match feature {
        Ok(f) => line(indent, "#[cfg(any(feature = \"all\", feature = "@ + debug_str(f) + "))]"@),
        Err(_) => Seq::empty(),
    }
}

/// The documentation lines of a class's declaration: its visibility and kind with a link to its
/// documentation (its class path when there is none), then the crate feature it needs.
pub open spec fn decl_doc_lines(c: Config, cm: ClassModel, feature: Result<Seq<char>, Seq<char>>, indent: Seq<char>) -> Seq<char> {
    line(indent, "    /// "@ + class_visibility(cm.flags) + " "@ + decl_keyword(cm.flags) + " "@ + match class_link(c.doc_patterns@, cm.path) {
        Some((label, url)) => link_text(label, url),
        None => cm.path,
    }) + match feature {
        Ok(f) => line(indent, "    ///"@) + line(indent, "    /// Required feature: "@ + f),
        Err(_) => Seq::empty(),
    }
}

/// The declaration of a class named `name`: a blank line, the `cfg` of its feature, then
/// `__jni_bindgen! {` with its documentation lines, its header (see `decl_head`), the wrappers of
/// its methods, the accessors of its fields, and the closing braces; each line after `indent`.
pub open spec fn decl_text(c: Config, name: Seq<char>, cm: ClassModel, names: Seq<Option<FieldManglingModel>>, values: Seq<Seq<char>>, indent: Seq<char>) -> Seq<char> {
    let feature = build_name(NameKind::Feature, id_parts(cm.path), Seq::empty());
    seq!['\n']
        + decl_cfg_line(indent, feature)
        + line(indent, "__jni_bindgen! {"@)
        + decl_doc_lines(c, cm, feature, indent)
        + line(indent, decl_head(c, name, cm))
        + decl_methods_text(c, cm, names, cm.methods, indent)
        + decl_fields_text(c, cm.path, cm.fields, names, values, indent)
        + line(indent, "    }"@)
        + line(indent, "}"@)
}


// ---------------------------------------------------------------------------------------------
// Building the text

/// The names of the fields' accessors.
pub open spec fn field_names_model<'b>(fields: Seq<Field<'b>>) -> Seq<Option<FieldManglingModel>> {
    fields.map_values(|f: Field<'b>| names_model(f.rust_names))
}

/// The strings as characters.
pub open spec fn strings_model(v: Seq<String>) -> Seq<Seq<char>> {
    v.map_values(|s: String| s@)
}

/// A count, at most 2.
pub open spec fn capped(n: nat) -> nat {
    if n > 2 { 2 } else { n }
}

/// The name as characters, when there is one.
pub open spec fn name_model(o: Option<String>) -> Option<Seq<char>> {
    match o {
        Some(s) => Some(s@),
        None => None,
    }
}

/// The names of the class's methods in the configuration's style.
fn method_names(context: &Context, class: &Class) -> (r: Vec<Option<String>>)
    requires
        class.wf(),
    ensures
        r@.len() == class@.methods.len(),
        forall|i: int| 0 <= i < r@.len() ==> #[trigger] name_model(r@[i]) == mangled_name(context.config_spec().codegen.method_naming_style, class@.methods[i]),
{
    let ghost style = context.config_spec().codegen.method_naming_style;
    let mut r: Vec<Option<String>> = Vec::new();
    let mut i: usize = 0;
    while i < class.methods.len()
        invariant
            class.wf(),
            i <= class.methods@.len(),
            r@.len() == i,
            forall|j: int| 0 <= j < i ==> #[trigger] name_model(r@[j]) == mangled_name(style, class@.methods[j]),
            style == context.config_spec().codegen.method_naming_style,
        decreases class.methods@.len() - i,
    {
        assert(class.methods@[i as int].wf());
        let m = Method::new(context, class, &class.methods[i]);
        let n = match m.rust_name() {
            Some(n) => Some(n.to_owned()),
            None => None,
        };
        r.push(n);
        i = i + 1;
    }
    r
}

/// How many public methods are named `n` (at most 2).
fn count_methods_named(context: &Context, class: &Class, names: &Vec<Option<String>>, n: &str) -> (k: usize)
    requires
        names@.len() == class@.methods.len(),
        forall|i: int| 0 <= i < names@.len() ==> #[trigger] name_model(names@[i]) == mangled_name(context.config_spec().codegen.method_naming_style, class@.methods[i]),
    ensures
        k == capped(method_name_count(context.config_spec().codegen.method_naming_style, class@.methods, n@)),
{
    let ghost style = context.config_spec().codegen.method_naming_style;
    let ghost ms = class@.methods;
    let mut k: usize = 0;
    let mut i: usize = 0;
    assert(ms.take(0) =~= Seq::<MethodModel>::empty());
    while i < names.len()
        invariant
            names@.len() == ms.len(),
            ms == class@.methods,
            ms.len() == class.methods@.len(),
            forall|j: int| 0 <= j < names@.len() ==> #[trigger] name_model(names@[j]) == mangled_name(style, ms[j]),
            i <= names@.len(),
            k == capped(method_name_count(style, ms.take(i as int), n@)),
        decreases names@.len() - i,
    {
        let hit = match &names[i] {
            Some(s) => class.methods[i].is_public() && str_eq(s.as_str(), n),
            None => false,
        };
        proof {
            assert(name_model(names@[i as int]) == mangled_name(style, ms[i as int]));
            assert(ms.take(i + 1).drop_last() =~= ms.take(i as int));
            assert(ms.take(i + 1).last() == ms[i as int]);
            assert(ms[i as int] == class.methods@[i as int]@);
            assert(hit == (ms[i as int].flags & 0x0001 == 0x0001 && mangled_name(style, ms[i as int]) == Some(n@)));
        }
        if hit && k < 2 {
            k = k + 1;
        }
        i = i + 1;
    }
    assert(ms.take(ms.len() as int) =~= ms);
    k
}

/// How many names of public fields are `n` (at most 2).
fn count_fields_named(fields: &Vec<Field<'_>>, n: &str) -> (k: usize)
    ensures
        k == capped(field_name_count(fields@.map_values(|f: Field<'_>| f.java@), field_names_model(fields@), n@)),
{
    let ghost fs = fields@.map_values(|f: Field<'_>| f.java@);
    let ghost names = field_names_model(fields@);
    let mut k: usize = 0;
    let mut i: usize = 0;
    assert(fs.take(0) =~= Seq::<FieldModel>::empty());
    while i < fields.len()
        invariant
            fs == fields@.map_values(|f: Field<'_>| f.java@),
            names == field_names_model(fields@),
            i <= fields@.len(),
            k == capped(field_name_count(fs.take(i as int), names.take(i as int), n@)),
        decreases fields@.len() - i,
    {
        let f = &fields[i];
        let x: usize = if f.java.is_public() {
            match &f.rust_names {
                Ok(crate::emit_rust::fields::FieldMangling::ConstValue(name, _)) => if str_eq(name.as_str(), n) { 1 } else { 0 },
                Ok(crate::emit_rust::fields::FieldMangling::GetSet(g, s)) =>
                    (if str_eq(g.as_str(), n) { 1 } else { 0 }) + (if str_eq(s.as_str(), n) { 1 } else { 0 }),
                Err(_) => 0,
            }
        } else {
            0
        };
        proof {
            assert(fs.take(i + 1).drop_last() =~= fs.take(i as int));
            assert(names.take(i + 1).drop_last() =~= names.take(i as int));
            assert(fs.take(i + 1).last() == fs[i as int]);
            assert(names.take(i + 1).last() == names[i as int]);
        }
        k = if k + x > 2 { 2 } else { k + x };
        i = i + 1;
    }
    assert(fs.take(fields@.len() as int) =~= fs);
    assert(names.take(fields@.len() as int) =~= names);
    k
}


/// The class's visibility and kind (see `class_visibility` and `decl_keyword`).
fn decl_words(class: &Class) -> (r: (&'static str, &'static str))
    ensures
        r.0@ == class_visibility(class@.flags),
        r.1@ == decl_keyword(class@.flags),
{
    let keyword = if class.is_interface() {
        "interface"
    } else if class.is_enum() {
        "enum"
    } else if class.is_static() {
        "static java"
    } else if class.is_final() {
        "final class"
    } else {
        "class"
    };
    let visibility = if class.is_public() { "public" } else { "private" };
    (visibility, keyword)
}

/// The header of the class's declaration (see `decl_head`).
fn decl_head_text(context: &Context, name: &str, class: &Class) -> (t: Vec<char>)
    requires
        supertypes_resolve(context.config_spec().output_file_stem, class@),
    ensures
        t@ == decl_head(context.config_spec(), name@, class@),
{
    let ghost stem = context.config_spec().output_file_stem;
    let (visibility, keyword) = decl_words(class);
    let mut t: Vec<char> = Vec::new();
    push_str_chars(&mut t, "    ");
    if class.deprecated {
        push_str_chars(&mut t, "#[deprecated] ");
    }
    push_str_chars(&mut t, visibility);
    push_str_chars(&mut t, " ");
    push_str_chars(&mut t, keyword);
    push_str_chars(&mut t, " ");
    push_str_chars(&mut t, name);
    push_str_chars(&mut t, " (");
    push_str_chars(&mut t, debug_text(class.path.as_str()).as_str());
    push_str_chars(&mut t, ") extends ");
    match &class.super_path {
        Some(s) => {
            let p = rust_path(context, s.as_str()).unwrap();
            push_str_chars(&mut t, p.as_str());
        },
        None => push_str_chars(&mut t, "()"),
    }
    let ghost head = t@;
    let ghost ifaces = class@.interfaces;
    let mut i: usize = 0;
    assert(ifaces.take(0) =~= Seq::<Seq<char>>::empty());
    while i < class.interfaces.len()
        invariant
            i <= class.interfaces@.len(),
            ifaces == class@.interfaces,
            ifaces.len() == class.interfaces@.len(),
            stem == context.config_spec().output_file_stem,
            supertypes_resolve(stem, class@),
            t@ == head + implements_text(stem, ifaces.take(i as int)),
        decreases class.interfaces@.len() - i,
    {
        push_str_chars(&mut t, ", ");
        if i == 0 {
            push_str_chars(&mut t, "implements ");
        }
        assert(ifaces[i as int] == class.interfaces@[i as int]@);
        assert(rust_path_of(stem, ifaces[i as int]) is Some);
        let p = rust_path(context, class.interfaces[i].as_str()).unwrap();
        push_str_chars(&mut t, p.as_str());
        proof {
            let n = ifaces.take(i + 1);
            assert(n.drop_last() =~= ifaces.take(i as int));
            assert(t@ =~= head + implements_text(stem, n));
        }
        i = i + 1;
    }
    assert(ifaces.take(ifaces.len() as int) =~= ifaces);
    push_str_chars(&mut t, " {");
    assert(t@ =~= decl_head(context.config_spec(), name@, class@));
    t
}

/// Appends a line of fixed text.
fn push_text_line(out: &mut Vec<char>, ind: &Vec<char>, text: &str)
    ensures
        final(out)@ == old(out)@ + line(ind@, text@),
{
    let mut t: Vec<char> = Vec::new();
    push_str_chars(&mut t, text);
    push_line(out, ind, &t);
}

/// Appends the `cfg` line and the documentation lines (see `decl_cfg_line` and `decl_doc_lines`),
/// with the `__jni_bindgen! {` line between them.
fn push_decl_start(out: &mut Vec<char>, ind: &Vec<char>, context: &Context, class: &Class)
    ensures
        ({
            let feature = build_name(NameKind::Feature, id_parts(class@.path), Seq::empty());
            final(out)@ == old(out)@ + decl_cfg_line(ind@, feature) + line(ind@, "__jni_bindgen! {"@)
                + decl_doc_lines(context.config_spec(), class@, feature, ind@)
        }),
{
    let ghost start = out@;
    let ghost feature_m = build_name(NameKind::Feature, id_parts(class@.path), Seq::empty());
    let feature = Struct::feature_for(context, Id(class.path.as_str()));
    match &feature {
        Ok(f) => {
            let mut t: Vec<char> = Vec::new();
            push_str_chars(&mut t, "#[cfg(any(feature = \"all\", feature = ");
            push_str_chars(&mut t, debug_text(f.as_str()).as_str());
            push_str_chars(&mut t, "))]");
            push_line(out, ind, &t);
        },
        Err(_) => {},
    }
    assert(out@ =~= start + decl_cfg_line(ind@, feature_m));
    push_text_line(out, ind, "__jni_bindgen! {");
    let ghost p1 = out@;
    let (visibility, keyword) = decl_words(class);
    let mut t: Vec<char> = Vec::new();
    push_str_chars(&mut t, "    /// ");
    push_str_chars(&mut t, visibility);
    push_str_chars(&mut t, " ");
    push_str_chars(&mut t, keyword);
    push_str_chars(&mut t, " ");
    match KnownDocsUrl::from_class(context, Id(class.path.as_str())) {
        Some(url) => {
            push_str_chars(&mut t, "[");
            push_str_chars(&mut t, url.label.as_str());
            push_str_chars(&mut t, "](");
            push_str_chars(&mut t, url.url.as_str());
            push_str_chars(&mut t, ")");
        },
        None => push_str_chars(&mut t, class.path.as_str()),
    }
    push_line(out, ind, &t);
    match &feature {
        Ok(f) => {
            push_text_line(out, ind, "    ///");
            let mut t: Vec<char> = Vec::new();
            push_str_chars(&mut t, "    /// Required feature: ");
            push_str_chars(&mut t, f.as_str());
            push_line(out, ind, &t);
        },
        Err(_) => {},
    }
    assert(out@ =~= p1 + decl_doc_lines(context.config_spec(), class@, feature_m, ind@));
}


/// The types of the fields' Java fields.
pub open spec fn field_models<'b>(fields: Seq<Field<'b>>) -> Seq<FieldModel> {
    fields.map_values(|f: Field<'b>| f.java@)
}

/// The wrapper of the `i`-th method (see `decl_method_text`).
fn decl_method(context: &Context, class: &Class, fields: &Vec<Field<'_>>, names: &Vec<Option<String>>, i: usize, indent: &str) -> (text: String)
    requires
        class.wf(),
        i < class@.methods.len(),
        field_models(fields@) == class@.fields,
        names@.len() == class@.methods.len(),
        forall|j: int| 0 <= j < names@.len() ==> #[trigger] name_model(names@[j]) == mangled_name(context.config_spec().codegen.method_naming_style, class@.methods[j]),
    ensures
        text@ == decl_method_text(context.config_spec(), class@, field_names_model(fields@), class@.methods[i as int], indent@),
{
    let ghost c = context.config_spec();
    let ghost cm = class@;
    let ghost mm = cm.methods[i as int];
    assert(class.methods@[i as int].wf());
    assert(mm == class.methods@[i as int]@);
    let mut m = Method::new(context, class, &class.methods[i]);
    assert(name_model(names@[i as int]) == mangled_name(c.codegen.method_naming_style, mm));
    let many = match &names[i] {
        Some(n) => {
            let km = count_methods_named(context, class, names, n.as_str());
            let kf = count_fields_named(fields, n.as_str());
            km > 1 || kf > 1 || (km == 1 && kf == 1)
        },
        None => false,
    };
    if many {
        m.set_mangling_style(context.config().codegen.method_naming_style_collision);
    }
    assert(m.rust_name_spec() == decl_method_name(c, cm, field_names_model(fields@), mm));
    let text = m.emit(context, indent);
    proof { reveal(decl_method_text); }
    text
}

/// Appends the wrappers of the class's methods (see `decl_methods_text`).
fn push_decl_methods(out: &mut Vec<char>, context: &Context, class: &Class, fields: &Vec<Field<'_>>, indent: &str)
    requires
        class.wf(),
        field_models(fields@) == class@.fields,
    ensures
        final(out)@ == old(out)@ + decl_methods_text(context.config_spec(), class@, field_names_model(fields@), class@.methods, indent@),
{
    let ghost c = context.config_spec();
    let ghost cm = class@;
    let ghost fnames = field_names_model(fields@);
    let ghost start = out@;
    let names = method_names(context, class);
    let mut i: usize = 0;
    assert(cm.methods.take(0) =~= Seq::<MethodModel>::empty());
    while i < class.methods.len()
        invariant
            class.wf(),
            cm == class@,
            c == context.config_spec(),
            fnames == field_names_model(fields@),
            field_models(fields@) == cm.fields,
            names@.len() == cm.methods.len(),
            cm.methods.len() == class.methods@.len(),
            forall|j: int| 0 <= j < names@.len() ==> #[trigger] name_model(names@[j]) == mangled_name(c.codegen.method_naming_style, cm.methods[j]),
            i <= class.methods@.len(),
            out@ == start + decl_methods_text(c, cm, fnames, cm.methods.take(i as int), indent@),
        decreases class.methods@.len() - i,
    {
        let text = decl_method(context, class, fields, &names, i, indent);
        push_str_chars(out, text.as_str());
        let ghost mm = cm.methods[i as int];
        proof {
            let n = cm.methods.take(i + 1);
            assert(n.drop_last() =~= cm.methods.take(i as int));
            assert(n.last() == mm);
        }
        i = i + 1;
    }
    assert(cm.methods.take(cm.methods.len() as int) =~= cm.methods);
}

/// Appends the accessors of the fields (see `decl_fields_text`).
fn push_decl_fields(out: &mut Vec<char>, context: &Context, class: &Class, fields: &Vec<Field<'_>>, values: &Vec<String>, indent: &str)
    requires
        fields@.len() == values@.len(),
        forall|i: int| 0 <= i < fields@.len() ==> (#[trigger] fields@[i]).java.wf() && fields@[i].class.path@ == class@.path,
    ensures
        final(out)@ == old(out)@ + decl_fields_text(context.config_spec(), class@.path, field_models(fields@), field_names_model(fields@), strings_model(values@), indent@),
{
    let ghost c = context.config_spec();
    let ghost fs = field_models(fields@);
    let ghost fnames = field_names_model(fields@);
    let ghost vs = strings_model(values@);
    let ghost start = out@;
    let mut i: usize = 0;
    assert(fs.take(0) =~= Seq::<FieldModel>::empty());
    while i < fields.len()
        invariant
            fields@.len() == values@.len(),
            forall|j: int| 0 <= j < fields@.len() ==> (#[trigger] fields@[j]).java.wf() && fields@[j].class.path@ == class@.path,
            c == context.config_spec(),
            fs == field_models(fields@),
            fnames == field_names_model(fields@),
            vs == strings_model(values@),
            i <= fields@.len(),
            out@ == start + decl_fields_text(c, class@.path, fs.take(i as int), fnames.take(i as int), vs.take(i as int), indent@),
        decreases fields@.len() - i,
    {
        let f = &fields[i];
        assert(f.java.wf());
        let text = f.emit(context, indent, values[i].as_str());
        push_str_chars(out, text.as_str());
        proof {
            assert(fs.take(i + 1).drop_last() =~= fs.take(i as int));
            assert(fnames.take(i + 1).drop_last() =~= fnames.take(i as int));
            assert(vs.take(i + 1).drop_last() =~= vs.take(i as int));
            assert(fs.take(i + 1).last() == f.java@);
            assert(fnames.take(i + 1).last() == names_model(f.rust_names));
            assert(vs.take(i + 1).last() == values@[i as int]@);
        }
        i = i + 1;
    }
    assert(fs.take(fields@.len() as int) =~= fs);
    assert(fnames.take(fields@.len() as int) =~= fnames);
    assert(vs.take(fields@.len() as int) =~= vs);
}

impl Struct {
    /// The class's declaration (see `decl_text`), each line after `indent`.  `fields` are the
    /// accessors of the class's fields, in order, named as the caller's naming style names them,
    /// and `values` how the value of each constant among them is written.  The class's super
    /// class and interfaces must have Rust paths.
    pub fn write(&self, context: &Context, indent: &str, fields: &Vec<Field<'_>>, values: &Vec<String>) -> (text: String)
        requires
            self.java.wf(),
            supertypes_resolve(context.config_spec().output_file_stem, self.java@),
            fields@.len() == self.java@.fields.len(),
            values@.len() == self.java@.fields.len(),
            forall|i: int| 0 <= i < fields@.len() ==> (#[trigger] fields@[i]).java@ == self.java@.fields[i]
                && fields@[i].java.wf() && fields@[i].class.path@ == self.java@.path,
        ensures
            text@ == decl_text(context.config_spec(), self.rust.struct_name@, self.java@, field_names_model(fields@), strings_model(values@), indent@),
    {
        let class = &self.java;
        assert(field_models(fields@) =~= class@.fields);
        let mut ind: Vec<char> = Vec::new();
        push_str_chars(&mut ind, indent);
        let mut out: Vec<char> = Vec::new();
        out.push('\n');
        push_decl_start(&mut out, &ind, context, class);
        let head = decl_head_text(context, self.rust.struct_name.as_str(), class);
        push_line(&mut out, &ind, &head);
        push_decl_methods(&mut out, context, class, fields, indent);
        push_decl_fields(&mut out, context, class, fields, values, indent);
        push_text_line(&mut out, &ind, "    }");
        push_text_line(&mut out, &ind, "}");
        assert(out@ =~= decl_text(context.config_spec(), self.rust.struct_name@, self.java@, field_names_model(fields@), strings_model(values@), indent@));
        string_from_chars(out.as_slice())
    }
}

} // verus!
