//! Links from generated code to the documentation of Java classes, methods and fields, made from
//! the URL patterns of the configuration.

use vstd::prelude::*;
use crate::class::Id;
use crate::config::runtime::DocPattern;
use crate::descriptor::{BasicType, BasicTypeModel, Descriptor, DescriptorModel};
use crate::emit_rust::context::Context;
use crate::jar::{Method, MethodModel};
use crate::method::{parse_method_descriptor, types_model};
use crate::text::{
    chars_of, is_ascii_alnum, lower_all, push_chars, push_str_chars, replace_all, replace_chars,
    starts_with, starts_with_chars, str_eq, string_from_chars, to_lower_chars,
};

verus! {

/// A link: the text shown and where it goes.
pub struct KnownDocsUrl {
    pub label: String,
    pub url: String,
}

/// The first pattern whose JNI prefix the class path starts with.
pub open spec fn first_pattern(ps: Seq<DocPattern>, class: Seq<char>) -> Option<DocPattern>
    decreases ps.len(),
{
    if ps.len() == 0 {
        None
    } else if starts_with(class, ps[0].jni_prefix@) {
        Some(ps[0])
    } else {
        first_pattern(ps.skip(1), class)
    }
}

/// Only ASCII letters and digits, `_`, `$` and `/`.
pub open spec fn class_chars_ok(s: Seq<char>) -> bool {
    forall|i: int| 0 <= i < s.len() ==> is_ascii_alnum(#[trigger] s[i]) || s[i] == '_' || s[i] == '$' || s[i] == '/'
}

/// Only ASCII letters and digits and `_`.
pub open spec fn member_chars_ok(s: Seq<char>) -> bool {
    forall|i: int| 0 <= i < s.len() ==> is_ascii_alnum(#[trigger] s[i]) || s[i] == '_'
}

/// What follows the last `c` in `s`; all of `s` when there is none.
pub open spec fn after_last(s: Seq<char>, c: char) -> Seq<char>
    decreases s.len(),
{
    if s.len() == 0 {
        s
    } else if s.last() == c {
        Seq::empty()
    } else {
        after_last(s.drop_last(), c).push(s.last())
    }
}

/// A class path as the documentation writes it: what follows the pattern's JNI prefix, with
/// the pattern's separators for `/` and `$`.
pub open spec fn docs_class(p: DocPattern, class: Seq<char>) -> Seq<char> {
    replace_all(replace_all(class.skip(p.jni_prefix@.len() as int), "/"@, p.class_namespace_separator@), "$"@, p.class_inner_class_seperator@)
}

/// A URL pattern with `{CLASS}` and `{CLASS.LOWER}` filled in.
pub open spec fn class_url(pattern: Seq<char>, jc: Seq<char>) -> Seq<char> {
    replace_all(replace_all(pattern, "{CLASS}"@, jc), "{CLASS.LOWER}"@, lower_all(jc))
}

/// The link to a class's page: its name after the last `/` (with `.` for `$`), and the class
/// URL of the first pattern for it, with `{CLASS}` the part of the path after the pattern's JNI
/// prefix (see `docs_class`); none when no pattern is for it or its path has other
/// characters than ASCII letters, digits, `_`, `$` and `/`.
pub open spec fn class_link(ps: Seq<DocPattern>, class: Seq<char>) -> Option<(Seq<char>, Seq<char>)> {
    match first_pattern(ps, class) {
        None => None,
        Some(p) => if !class_chars_ok(class) {
            None
        } else {
            Some((replace_all(after_last(class, '/'), "$"@, "."@), class_url(p.class_url_pattern@, docs_class(p, class))))
        },
    }
}

/// The link to a field's documentation: the field's name, and the field URL of the first pattern
/// for its class with `{CLASS}`, `{CLASS.LOWER}` and `{FIELD}` filled in; none when no pattern is
/// for the class, it has no field URL, or the names have unexpected characters.
pub open spec fn field_link(ps: Seq<DocPattern>, class: Seq<char>, field: Seq<char>) -> Option<(Seq<char>, Seq<char>)> {
    match first_pattern(ps, class) {
        None => None,
        Some(p) => match p.field_url_pattern {
            None => None,
            Some(fup) => if !class_chars_ok(class) || !member_chars_ok(field) {
                None
            } else {
                Some((field, replace_all(class_url(fup@, docs_class(p, class)), "{FIELD}"@, field)))
            },
        },
    }
}

/// `[]`, as written in a URL.
pub open spec fn brackets() -> Seq<char> {
    "%5B%5D"@
}

/// `n` copies of `s`.
pub open spec fn repeat(s: Seq<char>, n: int) -> Seq<char>
    decreases n,
{
    if n <= 0 { Seq::empty() } else { repeat(s, n - 1) + s }
}

/// The documentation's name for an argument class.
pub open spec fn arg_class(p: DocPattern, class: Seq<char>) -> Seq<char> {
    replace_all(replace_all(class, "/"@, p.argument_namespace_separator@), "$"@, p.argument_inner_class_seperator@)
}

/// The documentation's name for a single argument type.
pub open spec fn single_arg(p: DocPattern, b: BasicTypeModel) -> Seq<char> {
    match b {
        BasicTypeModel::Void => "void"@,
        BasicTypeModel::Boolean => "boolean"@,
        BasicTypeModel::Byte => "byte"@,
        BasicTypeModel::Char => "char"@,
        BasicTypeModel::Short => "short"@,
        BasicTypeModel::Int => "int"@,
        BasicTypeModel::Long => "long"@,
        BasicTypeModel::Float => "float"@,
        BasicTypeModel::Double => "double"@,
        BasicTypeModel::Class(c) => arg_class(p, c),
    }
}

/// The documentation's name for the element type of an array argument (`bool` for booleans);
/// none for `void`.
pub open spec fn array_arg(p: DocPattern, b: BasicTypeModel) -> Option<Seq<char>> {
    match b {
        BasicTypeModel::Void => None,
        BasicTypeModel::Boolean => Some("bool"@),
        _ => Some(single_arg(p, b)),
    }
}

/// The arguments of a method as the documentation lists them, after `acc`: separated by the
/// pattern's separator, an array as its element type and one `[]` less than its dimensions, the
/// last `[]` of an array written before what follows it.  The result says whether the last
/// argument was an array, whose last `[]` is still to be written; none for an array of `void`.
pub open spec fn args_text(p: DocPattern, args: Seq<DescriptorModel>, acc: Seq<char>, prev_array: bool) -> Option<(Seq<char>, bool)>
    decreases args.len(),
{
    if args.len() == 0 {
        Some((acc, prev_array))
    } else {
        let acc1 = if prev_array { acc + brackets() } else { acc };
        let acc2 = if acc1.len() > 0 { acc1 + p.argument_seperator@ } else { acc1 };
        match args[0] {
            DescriptorModel::Single(b) => args_text(p, args.skip(1), acc2 + single_arg(p, b), false),
            DescriptorModel::Array { levels, inner } => match array_arg(p, inner) {
                None => None,
                Some(t) => args_text(p, args.skip(1), acc2 + t + repeat(brackets(), levels - 1), true),
            },
        }
    }
}

/// The text of all the arguments: a last array argument ends in `...` for a varargs method, else in `[]`.
pub open spec fn all_args(p: DocPattern, args: Seq<DescriptorModel>, varargs: bool) -> Option<Seq<char>> {
    match args_text(p, args, Seq::empty(), false) {
        None => None,
        Some((t, prev)) => Some(if prev { if varargs { t + "..."@ } else { t + brackets() } } else { t }),
    }
}

/// The link to a method's documentation.  The pattern is the first for the class; a constructor
/// (`<init>`) takes its constructor URL, or else its method URL, and is labelled by the class's
/// innermost name; another method takes the method URL and is labelled by its name.  The URL has
/// `{CLASS}`, `{CLASS.LOWER}`, `{CLASS.OUTER}` (the name after the last `/`, with the pattern's
/// separator for `$`), `{CLASS.INNER}`, `{METHOD}` and `{ARGUMENTS}` filled in.  None when no
/// pattern or URL applies, the names have unexpected characters, or an argument is an array of `void`.
pub open spec fn method_link(ps: Seq<DocPattern>, class: Seq<char>, m: MethodModel) -> Option<(Seq<char>, Seq<char>)> {
    let is_ctor = m.name == "<init>"@;
    match first_pattern(ps, class) {
        None => None,
        Some(p) => {
            let url_pattern = if is_ctor {
                match p.constructor_url_pattern { Some(u) => Some(u), None => p.method_url_pattern }
            } else {
                p.method_url_pattern
            };
            match url_pattern {
                None => None,
                Some(up) => if !class_chars_ok(class) {
                    None
                } else {
                    let jc = docs_class(p, class);
                    let outer = replace_all(after_last(class, '/'), "$"@, p.class_inner_class_seperator@);
                    let inner = after_last(after_last(class, '/'), '$');
                    if !is_ctor && !member_chars_ok(m.name) {
                        None
                    } else {
                        let label = if is_ctor { inner } else { m.name };
                        match all_args(p, parse_method_descriptor(m.descriptor)->Ok_0.0, m.flags & 0x0080 == 0x0080) {
                            None => None,
                            Some(args) => Some((label, replace_all(replace_all(replace_all(replace_all(
                                class_url(up@, jc), "{CLASS.OUTER}"@, outer), "{CLASS.INNER}"@, inner), "{METHOD}"@, label),
                                "{ARGUMENTS}"@, args))),
                        }
                    }
                },
            }
        },
    }
}

/// The first pattern for a class path.
fn find_pattern<'a>(ps: &'a Vec<DocPattern>, class: &[char]) -> (r: Option<&'a DocPattern>)
    ensures
        match first_pattern(ps@, class@) {
            Some(p) => r == Some(&p),
            None => r is None,
        },
        r matches Some(p) ==> starts_with(class@, p.jni_prefix@),
{
    let mut i: usize = 0;
    proof { assert(ps@.skip(0) =~= ps@); }
    while i < ps.len()
        invariant
            i <= ps@.len(),
            first_pattern(ps@, class@) == first_pattern(ps@.skip(i as int), class@),
        decreases ps@.len() - i,
    {
        let prefix = chars_of(ps[i].jni_prefix.as_str());
        proof { assert(ps@.skip(i as int)[0] == ps@[i as int]); }
        if starts_with_chars(class, prefix.as_slice()) {
            return Some(&ps[i]);
        }
        proof { assert(ps@.skip(i as int).skip(1) =~= ps@.skip(i + 1)); }
        i = i + 1;
    }
    None
}

/// Whether every character is allowed in a class path (see `class_chars_ok`).
fn class_chars_check(s: &[char]) -> (r: bool)
    ensures
        r == class_chars_ok(s@),
{
    let mut i: usize = 0;
    while i < s.len()
        invariant
            i <= s@.len(),
            forall|j: int| 0 <= j < i ==> is_ascii_alnum(#[trigger] s@[j]) || s@[j] == '_' || s@[j] == '$' || s@[j] == '/',
        decreases s@.len() - i,
    {
        let c = s[i];
        if !(('a' <= c && c <= 'z') || ('A' <= c && c <= 'Z') || ('0' <= c && c <= '9') || c == '_' || c == '$' || c == '/') {
            return false;
        }
        i = i + 1;
    }
    true
}

/// Whether every character is allowed in a member name (see `member_chars_ok`).
fn member_chars_check(s: &[char]) -> (r: bool)
    ensures
        r == member_chars_ok(s@),
{
    let mut i: usize = 0;
    while i < s.len()
        invariant
            i <= s@.len(),
            forall|j: int| 0 <= j < i ==> is_ascii_alnum(#[trigger] s@[j]) || s@[j] == '_',
        decreases s@.len() - i,
    {
        let c = s[i];
        if !(('a' <= c && c <= 'z') || ('A' <= c && c <= 'Z') || ('0' <= c && c <= '9') || c == '_') {
            return false;
        }
        i = i + 1;
    }
    true
}

/// What follows the last `c` in `s` (see `after_last`).
fn after_last_chars(s: &[char], c: char) -> (r: Vec<char>)
    ensures
        r@ == after_last(s@, c),
{
    let mut start: usize = 0;
    let mut i: usize = 0;
    while i < s.len()
        invariant
            start <= i <= s@.len(),
            after_last(s@.take(i as int), c) == s@.subrange(start as int, i as int),
        decreases s@.len() - i,
    {
        proof {
            assert(s@.take(i + 1).drop_last() =~= s@.take(i as int));
            assert(s@.take(i + 1).last() == s@[i as int]);
        }
        if s[i] == c {
            start = i + 1;
            assert(s@.subrange(start as int, i + 1) =~= Seq::<char>::empty());
        } else {
            assert(s@.subrange(start as int, i + 1) =~= s@.subrange(start as int, i as int).push(s@[i as int]));
        }
        i = i + 1;
    }
    assert(s@.take(s@.len() as int) =~= s@);
    let mut out: Vec<char> = Vec::new();
    push_chars(&mut out, vstd::slice::slice_subrange(s, start, s.len()));
    out
}

/// `s` with `from` replaced by `to`.
fn replace_lit(s: &[char], from: &str, to: &[char]) -> (r: Vec<char>)
    requires
        from@.len() > 0,
    ensures
        r@ == replace_all(s@, from@, to@),
{
    let f = chars_of(from);
    replace_chars(s, f.as_slice(), to)
}

/// A class path as the documentation writes it (see `docs_class`).
fn docs_class_chars(p: &DocPattern, class: &[char]) -> (r: Vec<char>)
    requires
        starts_with(class@, p.jni_prefix@),
    ensures
        r@ == docs_class(*p, class@),
{
    proof { reveal_strlit("/"); reveal_strlit("$"); }
    let prefix_len = chars_of(p.jni_prefix.as_str()).len();
    let rest = vstd::slice::slice_subrange(class, prefix_len, class.len());
    assert(rest@ =~= class@.skip(p.jni_prefix@.len() as int));
    let a = replace_lit(rest, "/", chars_of(p.class_namespace_separator.as_str()).as_slice());
    replace_lit(a.as_slice(), "$", chars_of(p.class_inner_class_seperator.as_str()).as_slice())
}

/// A URL pattern with `{CLASS}` and `{CLASS.LOWER}` filled in (see `class_url`).
fn class_url_chars(pattern: &str, jc: &[char]) -> (r: Vec<char>)
    ensures
        r@ == class_url(pattern@, jc@),
{
    proof { reveal_strlit("{CLASS}"); reveal_strlit("{CLASS.LOWER}"); }
    let p = chars_of(pattern);
    let a = replace_lit(p.as_slice(), "{CLASS}", jc);
    let lower = to_lower_chars(jc);
    replace_lit(a.as_slice(), "{CLASS.LOWER}", lower.as_slice())
}

/// The documentation's name for an argument class (see `arg_class`).
fn arg_class_chars(p: &DocPattern, class: &str) -> (r: Vec<char>)
    ensures
        r@ == arg_class(*p, class@),
{
    proof { reveal_strlit("/"); reveal_strlit("$"); }
    let c = chars_of(class);
    let a = replace_lit(c.as_slice(), "/", chars_of(p.argument_namespace_separator.as_str()).as_slice());
    replace_lit(a.as_slice(), "$", chars_of(p.argument_inner_class_seperator.as_str()).as_slice())
}

/// The documentation's name for a single argument type (see `single_arg`).
fn single_arg_chars(p: &DocPattern, b: BasicType) -> (r: Vec<char>)
    ensures
        r@ == single_arg(*p, b@),
{
    match b {
        BasicType::Void => chars_of("void"),
        BasicType::Boolean => chars_of("boolean"),
        BasicType::Byte => chars_of("byte"),
        BasicType::Char => chars_of("char"),
        BasicType::Short => chars_of("short"),
        BasicType::Int => chars_of("int"),
        BasicType::Long => chars_of("long"),
        BasicType::Float => chars_of("float"),
        BasicType::Double => chars_of("double"),
        BasicType::Class(c) => arg_class_chars(p, c.0),
    }
}

/// The documentation's name for the element type of an array argument (see `array_arg`).
fn array_arg_chars(p: &DocPattern, b: BasicType) -> (r: Option<Vec<char>>)
    ensures
        match array_arg(*p, b@) {
            Some(t) => r is Some && r->Some_0@ == t,
            None => r is None,
        },
{
    match b {
        BasicType::Void => None,
        BasicType::Boolean => Some(chars_of("bool")),
        _ => Some(single_arg_chars(p, b)),
    }
}

/// The arguments of a method as the documentation lists them (see `all_args`).
fn all_args_chars(p: &DocPattern, args: &Vec<Descriptor>, varargs: bool) -> (r: Option<Vec<char>>)
    ensures
        match all_args(*p, types_model(args@), varargs) {
            Some(t) => r is Some && r->Some_0@ == t,
            None => r is None,
        },
{
    proof { reveal_strlit("%5B%5D"); reveal_strlit("..."); }
    let ghost am = types_model(args@);
    let sep = chars_of(p.argument_seperator.as_str());
    let mut out: Vec<char> = Vec::new();
    let mut prev_was_array = false;
    let mut i: usize = 0;
    proof { assert(am.skip(0) =~= am); }
    while i < args.len()
        invariant
            i <= args@.len(),
            am == types_model(args@),
            sep@ == p.argument_seperator@,
            args_text(*p, am, Seq::empty(), false) == args_text(*p, am.skip(i as int), out@, prev_was_array),
        decreases args@.len() - i,
    {
        proof {
            assert(am.skip(i as int)[0] == args@[i as int]@);
            assert(am.skip(i as int).skip(1) =~= am.skip(i + 1));
        }
        if prev_was_array {
            prev_was_array = false;
            push_str_chars(&mut out, "%5B%5D");
        }
        if out.len() > 0 {
            push_chars(&mut out, sep.as_slice());
        }
        match args[i] {
            Descriptor::Single(b) => {
                let t = single_arg_chars(p, b);
                push_chars(&mut out, t.as_slice());
            },
            Descriptor::Array { levels, inner } => {
                let t = match array_arg_chars(p, inner) {
                    Some(t) => t,
                    None => {
                        return None;
                    },
                };
                push_chars(&mut out, t.as_slice());
                let ghost base = out@;
                let mut k: usize = 1;
                while k < levels
                    invariant
                        1 <= k,
                        k <= levels || k == 1,
                        out@ == base + repeat(brackets(), k - 1),
                    decreases levels - k,
                {
                    push_str_chars(&mut out, "%5B%5D");
                    k = k + 1;
                }
                proof {
                    if levels == 0 {
                        assert(repeat(brackets(), levels - 1) =~= Seq::<char>::empty());
                        assert(repeat(brackets(), 0) =~= Seq::<char>::empty());
                        assert(out@ =~= base);
                    }
                }
                prev_was_array = true;
            },
        }
        i = i + 1;
    }
    if prev_was_array {
        if varargs {
            push_str_chars(&mut out, "...");
        } else {
            push_str_chars(&mut out, "%5B%5D");
        }
    }
    Some(out)
}

impl KnownDocsUrl {
    /// The link as Markdown: `[label](url)` (what `Display` shows).
    pub fn to_string(&self) -> (s: String)
        ensures
            s@ == seq!['['] + self.label@ + seq![']', '('] + self.url@ + seq![')'],
    {
        let mut v: Vec<char> = Vec::new();
        v.push('[');
        push_str_chars(&mut v, self.label.as_str());
        v.push(']');
        v.push('(');
        push_str_chars(&mut v, self.url.as_str());
        v.push(')');
        assert(v@ =~= seq!['['] + self.label@ + seq![']', '('] + self.url@ + seq![')']);
        string_from_chars(v.as_slice())
    }

    /// The link to a class's page (see `class_link`).
    pub fn from_class(context: &Context, java_class: Id) -> (r: Option<KnownDocsUrl>)
        ensures
            match class_link(context.config_spec().doc_patterns@, java_class.0@) {
                Some((label, url)) => r is Some && r->Some_0.label@ == label && r->Some_0.url@ == url,
                None => r is None,
            },
    {
        proof { reveal_strlit("$"); reveal_strlit("."); }
        let class = chars_of(java_class.0);
        let pattern = find_pattern(&context.config().doc_patterns, class.as_slice())?;
        if !class_chars_check(class.as_slice()) {
            return None;
        }
        let no_namespace = after_last_chars(class.as_slice(), '/');
        let jc = docs_class_chars(pattern, class.as_slice());
        let label = replace_lit(no_namespace.as_slice(), "$", chars_of(".").as_slice());
        let url = class_url_chars(pattern.class_url_pattern.as_str(), jc.as_slice());
        Some(KnownDocsUrl { label: string_from_chars(label.as_slice()), url: string_from_chars(url.as_slice()) })
    }

    /// The link to a field's documentation (see `field_link`).
    pub fn from_field(context: &Context, java_class: &str, java_field: &str, _java_descriptor: Descriptor) -> (r: Option<KnownDocsUrl>)
        ensures
            match field_link(context.config_spec().doc_patterns@, java_class@, java_field@) {
                Some((label, url)) => r is Some && r->Some_0.label@ == label && r->Some_0.url@ == url,
                None => r is None,
            },
    {
        proof { reveal_strlit("{FIELD}"); }
        let class = chars_of(java_class);
        let pattern = find_pattern(&context.config().doc_patterns, class.as_slice())?;
        let field_url_pattern = match &pattern.field_url_pattern {
            Some(f) => f,
            None => { return None; },
        };
        if !class_chars_check(class.as_slice()) {
            return None;
        }
        let field = chars_of(java_field);
        if !member_chars_check(field.as_slice()) {
            return None;
        }
        let jc = docs_class_chars(pattern, class.as_slice());
        let a = class_url_chars(field_url_pattern.as_str(), jc.as_slice());
        let url = replace_lit(a.as_slice(), "{FIELD}", field.as_slice());
        Some(KnownDocsUrl { label: java_field.to_owned(), url: string_from_chars(url.as_slice()) })
    }

    /// The link to a method's documentation (see `method_link`); the method is of the class at `class_path`.
    pub fn from_method(context: &Context, class_path: &str, method: &Method) -> (r: Option<KnownDocsUrl>)
        requires
            method.wf(),
        ensures
            match method_link(context.config_spec().doc_patterns@, class_path@, method@) {
                Some((label, url)) => r is Some && r->Some_0.label@ == label && r->Some_0.url@ == url,
                None => r is None,
            },
    {
        proof {
            reveal_strlit("$"); reveal_strlit("{CLASS.OUTER}"); reveal_strlit("{CLASS.INNER}");
            reveal_strlit("{METHOD}"); reveal_strlit("{ARGUMENTS}");
        }
        let is_constructor = method.is_constructor();
        let class = chars_of(class_path);
        let pattern = find_pattern(&context.config().doc_patterns, class.as_slice())?;
        let url_pattern = if is_constructor {
            match &pattern.constructor_url_pattern {
                Some(u) => u,
                None => match &pattern.method_url_pattern {
                    Some(u) => u,
                    None => { return None; },
                },
            }
        } else {
            match &pattern.method_url_pattern {
                Some(u) => u,
                None => { return None; },
            }
        };
        if !class_chars_check(class.as_slice()) {
            return None;
        }
        let jc = docs_class_chars(pattern, class.as_slice());
        let last = after_last_chars(class.as_slice(), '/');
        let outer = replace_lit(last.as_slice(), "$", chars_of(pattern.class_inner_class_seperator.as_str()).as_slice());
        let inner = after_last_chars(last.as_slice(), '$');
        let label = if is_constructor {
            inner.clone()
        } else {
            let name = chars_of(method.name_str());
            if !member_chars_check(name.as_slice()) {
                return None;
            }
            name
        };
        let descriptor = method.descriptor();
        let args = descriptor.arguments();
        let java_args = all_args_chars(pattern, &args, method.is_varargs())?;
        let u = class_url_chars(url_pattern.as_str(), jc.as_slice());
        let u = replace_lit(u.as_slice(), "{CLASS.OUTER}", outer.as_slice());
        let u = replace_lit(u.as_slice(), "{CLASS.INNER}", inner.as_slice());
        let u = replace_lit(u.as_slice(), "{METHOD}", label.as_slice());
        let u = replace_lit(u.as_slice(), "{ARGUMENTS}", java_args.as_slice());
        Some(KnownDocsUrl { label: string_from_chars(label.as_slice()), url: string_from_chars(u.as_slice()) })
    }
}

} // verus!
