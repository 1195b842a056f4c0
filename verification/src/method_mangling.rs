//! Turns Java method names into Rust method names.

use vstd::prelude::*;
use crate::class::{id_parts, IdPart, IdPartModel, Id};
use crate::descriptor::{BasicType, BasicTypeModel, DescriptorModel};
use crate::identifiers::{
    is_identifier_continue, is_identifier_start, is_rust_identifier, rust_identifier_of, RustIdentifier,
    RustIdentifierModel,
};
use crate::method;
use crate::text::{
    ascii_lower, chars_eq, chars_of, is_ascii_alnum, is_ascii_digit, is_ascii_lower, is_ascii_upper, push_chars, push_str_chars,
    string_from_chars, to_ascii_lower,
};

verus! {

/// How to name the Rust method that wraps a Java method.
#[derive(Clone, Copy, Debug, PartialEq, Eq, Hash)]
pub enum MethodManglingStyle {
    /// Leave the original method name alone as much as possible.
    /// Constructors will still be renamed from "<init>" to "new".
    ///
    /// # Examples:
    ///
    /// | Java      | Rust      |
    /// | --------- | --------- |
    /// | getFoo    | getFoo    |
    /// | \<init\>  | new       |
    Java,

    /// Leave the original method name alone as much as possible... with unqualified typenames appended for disambiguation.
    /// Constructors will still be renamed from "<init>" to "new".
    ///
    /// # Examples:
    ///
    /// | Java      | Rust          |
    /// | --------- | ------------- |
    /// | getFoo    | getFoo_int    |
    /// | \<init\>  | new_Object    |
    JavaShortSignature,

    /// Leave the original method name alone as much as possible... with qualified typenames appended for disambiguation.
    /// Constructors will still be renamed from "<init>" to "new".
    ///
    /// # Examples:
    ///
    /// | Java      | Rust                  |
    /// | --------- | --------------------- |
    /// | getFoo    | getFoo_int            |
    /// | \<init\>  | new_java_lang_Object  |
    JavaLongSignature,

    /// Rename the method to use rust style naming conventions.
    ///
    /// # Examples:
    ///
    /// | Java      | Rust      |
    /// | --------- | --------- |
    /// | getFoo    | get_foo   |
    /// | \<init\>  | new       |
    Rustify,

    /// Rename the method to use rust style naming conventions, with unqualified typenames appended for disambiguation.
    ///
    /// # Examples:
    ///
    /// | Java      | Rust          |
    /// | --------- | ------------- |
    /// | getFoo    | get_foo_int   |
    /// | \<init\>  | new_object    |
    RustifyShortSignature,

    /// Rename the method to use rust style naming conventions, with qualified typenames appended for disambiguation.
    ///
    /// # Examples:
    ///
    /// | Java      | Rust                  |
    /// | --------- | --------------------- |
    /// | getFoo    | get_foo_int           |
    /// | \<init\>  | new_java_lang_object  |
    RustifyLongSignature,
}

/// Why a method name has no Rust name.
#[derive(Clone, Copy, Debug, PartialEq, Eq, Hash)]
pub enum MethodManglingError {
    StaticCtor,
    EmptyString,
    NotRustSafe,
    UnexpectedCharacter(char),
}

// ---------------------------------------------------------------------------------------------
// Specifications

/// A finished name: keywords take their escaped spelling; a non-identifier is refused.
pub open spec fn finish_identifier(buf: Seq<char>) -> Result<Seq<char>, MethodManglingError> {
    match rust_identifier_of(buf) {
        RustIdentifierModel::Identifier(_) => Ok(buf),
        RustIdentifierModel::NonIdentifier(_) => Err(MethodManglingError::NotRustSafe),
        RustIdentifierModel::KeywordRawSafe(k) => Ok(k),
        RustIdentifierModel::KeywordUnderscorePostfix(k) => Ok(k),
    }
}

/// The first index at or after `i` whose character may not continue an identifier.
pub open spec fn first_non_continue(s: Seq<char>, i: int) -> Option<int>
    decreases s.len() - i,
{
    if i < 0 || i >= s.len() {
        None
    } else if !is_identifier_continue(s[i]) {
        Some(i)
    } else {
        first_non_continue(s, i + 1)
    }
}

/// The Java-style name: kept as it is when it is an identifier, `__` for `_`.
pub open spec fn javaify(name: Seq<char>) -> Result<Seq<char>, MethodManglingError> {
    if name == seq!['_'] {
        Ok(seq!['_', '_'])
    } else if name.len() > 0 && !is_identifier_start(name[0]) {
        Err(MethodManglingError::UnexpectedCharacter(name[0]))
    } else {
        match first_non_continue(name, 1) {
            Some(i) => Err(MethodManglingError::UnexpectedCharacter(name[i])),
            None => finish_identifier(name),
        }
    }
}

/// The buffer after the first character, with the count of uppercase letters just written.
pub open spec fn rustify_first(c: char) -> Result<(Seq<char>, nat), MethodManglingError> {
    if 'a' <= c <= 'z' {
        Ok((seq![c], 0))
    } else if is_ascii_upper(c) {
        Ok((seq![ascii_lower(c)], 1))
    } else if c == '_' {
        Ok((seq!['_'], 0))
    } else {
        Err(MethodManglingError::UnexpectedCharacter(c))
    }
}

/// One more character: an uppercase letter starts a new word (with `_` before it, unless it
/// continues a run of uppercase letters) and is lowered; a lowercase letter or digit after a run of
/// two or more uppercase letters moves the run's last letter into a new word.
pub open spec fn rustify_step(buf: Seq<char>, upper: nat, c: char) -> Result<(Seq<char>, nat), MethodManglingError> {
    if is_ascii_upper(c) {
        let b = if upper == 0 && !(buf.len() > 0 && buf.last() == '_') {
            buf.push('_')
        } else {
            buf
        };
        Ok((b.push(ascii_lower(c)), upper + 1))
    } else if is_ascii_alnum(c) {
        let b = if upper > 1 {
            buf.insert(buf.len() - 1, '_')
        } else {
            buf
        };
        Ok((b.push(c), 0))
    } else if c == '_' {
        Ok((buf.push('_'), 0))
    } else {
        Err(MethodManglingError::UnexpectedCharacter(c))
    }
}

/// The snake_case buffer for `s`, and the length of the uppercase run at its end.
pub open spec fn rustify_state(s: Seq<char>) -> Result<(Seq<char>, nat), MethodManglingError>
    decreases s.len(),
{
    if s.len() == 0 {
        Ok((Seq::empty(), 0))
    } else if s.len() == 1 {
        rustify_first(s[0])
    } else {
        match rustify_state(s.drop_last()) {
            Ok((b, u)) => rustify_step(b, u, s.last()),
            Err(e) => Err(e),
        }
    }
}

/// The Rust-style name: snake_case, `__` for `_`.
pub open spec fn rustify(name: Seq<char>) -> Result<Seq<char>, MethodManglingError> {
    if name == seq!['_'] {
        Ok(seq!['_', '_'])
    } else {
        match rustify_state(name) {
            Ok((b, _)) => finish_identifier(b),
            Err(e) => Err(e),
        }
    }
}

/// The suffix naming a primitive type.
pub open spec fn primitive_suffix(b: BasicTypeModel) -> Seq<char> {
    match b {
        BasicTypeModel::Boolean => "_boolean"@,
        BasicTypeModel::Byte => "_byte"@,
        BasicTypeModel::Char => "_char"@,
        BasicTypeModel::Double => "_double"@,
        BasicTypeModel::Float => "_float"@,
        BasicTypeModel::Int => "_int"@,
        BasicTypeModel::Long => "_long"@,
        BasicTypeModel::Short => "_short"@,
        BasicTypeModel::Void => "_void"@,
        BasicTypeModel::Class(_) => Seq::empty(),
    }
}

/// `_` and the leaf class, when the path ends in one; `_unknown` otherwise.
pub open spec fn last_leaf_suffix(parts: Seq<IdPartModel>) -> Seq<char> {
    if parts.len() > 0 {
        match parts.last() {
            IdPartModel::LeafClass(l) => seq!['_'] + l,
            _ => "_unknown"@,
        }
    } else {
        "_unknown"@
    }
}

/// `_` and the name of every leaf class among the components.
pub open spec fn leaf_suffixes(parts: Seq<IdPartModel>) -> Seq<char>
    decreases parts.len(),
{
    if parts.len() == 0 {
        Seq::empty()
    } else {
        leaf_suffixes(parts.drop_last()) + match parts.last() {
            IdPartModel::LeafClass(l) => seq!['_'] + l,
            _ => Seq::empty(),
        }
    }
}

/// The text of a component.
pub open spec fn part_text(p: IdPartModel) -> Seq<char> {
    match p {
        IdPartModel::Namespace(t) => t,
        IdPartModel::ContainingClass(t) => t,
        IdPartModel::LeafClass(t) => t,
    }
}

/// `_` and the text of every component.
pub open spec fn all_part_suffixes(parts: Seq<IdPartModel>) -> Seq<char>
    decreases parts.len(),
{
    if parts.len() == 0 {
        Seq::empty()
    } else {
        all_part_suffixes(parts.drop_last()) + seq!['_'] + part_text(parts.last())
    }
}

/// `s` written `n` times.
pub open spec fn repeat(s: Seq<char>, n: nat) -> Seq<char>
    decreases n,
{
    if n == 0 {
        Seq::empty()
    } else {
        repeat(s, (n - 1) as nat) + s
    }
}

/// The suffix for one parameter: unqualified class names when `long` is false, qualified ones
/// when it is true.
pub open spec fn argument_suffix(t: DescriptorModel, long: bool) -> Seq<char> {
    match t {
        DescriptorModel::Single(BasicTypeModel::Class(c)) => if long {
            all_part_suffixes(id_parts(c))
        } else {
            last_leaf_suffix(id_parts(c))
        },
        DescriptorModel::Single(b) => primitive_suffix(b),
        DescriptorModel::Array { levels, inner } => array_inner_suffix(inner, long) + repeat("_array"@, levels),
    }
}

/// The suffix for the element type of an array parameter.
pub open spec fn array_inner_suffix(inner: BasicTypeModel, long: bool) -> Seq<char> {
    match inner {
        BasicTypeModel::Class(c) => if long {
            all_part_suffixes(id_parts(c))
        } else {
            leaf_suffixes(id_parts(c))
        },
        b => primitive_suffix(b),
    }
}

/// The suffixes of all parameters, in order.
pub open spec fn signature_suffix(args: Seq<DescriptorModel>, long: bool) -> Seq<char>
    decreases args.len(),
{
    if args.len() == 0 {
        Seq::empty()
    } else {
        signature_suffix(args.drop_last(), long) + argument_suffix(args.last(), long)
    }
}

/// The Rust name of a method named `name` with the given parameter types.
pub open spec fn mangle_method(style: MethodManglingStyle, name: Seq<char>, args: Seq<DescriptorModel>) -> Result<Seq<char>, MethodManglingError> {
    if name.len() == 0 {
        Err(MethodManglingError::EmptyString)
    } else if name == "<init>"@ {
        mangle_named(style, "new"@, args)
    } else if name == "<clinit>"@ {
        Err(MethodManglingError::StaticCtor)
    } else {
        mangle_named(style, name, args)
    }
}

/// The Rust name once constructors are named `new`.
pub open spec fn mangle_named(style: MethodManglingStyle, name: Seq<char>, args: Seq<DescriptorModel>) -> Result<Seq<char>, MethodManglingError> {
    match style {
        MethodManglingStyle::Java => javaify(name),
        MethodManglingStyle::JavaShortSignature => javaify(name + signature_suffix(args, false)),
        MethodManglingStyle::JavaLongSignature => javaify(name + signature_suffix(args, true)),
        MethodManglingStyle::Rustify => rustify(name),
        MethodManglingStyle::RustifyShortSignature => rustify(name + signature_suffix(args, false)),
        MethodManglingStyle::RustifyLongSignature => rustify(name + signature_suffix(args, true)),
    }
}

/// The snake_case name of a method, `new` for constructors.
pub open spec fn mangle_method_name_spec(name: Seq<char>) -> Result<Seq<char>, MethodManglingError> {
    if name == "<init>"@ {
        Ok("new"@)
    } else if name == "<clinit>"@ {
        Err(MethodManglingError::StaticCtor)
    } else if name.len() == 0 {
        Err(MethodManglingError::EmptyString)
    } else {
        match rustify_state(name) {
            Ok((b, _)) => if b == seq!['_'] {
                Ok(seq!['_', '_'])
            } else {
                finish_identifier(b)
            },
            Err(e) => Err(e),
        }
    }
}

/// A mangling result matches its specification.
pub open spec fn mangled(r: Result<String, MethodManglingError>, m: Result<Seq<char>, MethodManglingError>) -> bool {
    match (r, m) {
        (Ok(s), Ok(t)) => s@ == t,
        (Err(e), Err(f)) => e == f,
        _ => false,
    }
}

// ---------------------------------------------------------------------------------------------
// Implementation

fn double_underscore() -> (s: String)
    ensures
        s@ == seq!['_', '_'],
{
    let v: Vec<char> = vec!['_', '_'];
    let s = string_from_chars(v.as_slice());
    assert(v@ =~= seq!['_', '_']);
    s
}

fn is_single_underscore(v: &[char]) -> (r: bool)
    ensures
        r == (v@ == seq!['_']),
{
    if v.len() == 1 && v[0] == '_' {
        assert(v@ =~= seq!['_']);
        true
    } else {
        proof {
            if v@ == seq!['_'] {
                assert(v@.len() == 1 && v@[0] == '_');
            }
        }
        false
    }
}

fn finish(buf: Vec<char>) -> (r: Result<String, MethodManglingError>)
    ensures
        mangled(r, finish_identifier(buf@)),
{
    let s = string_from_chars(buf.as_slice());
    let decided = match RustIdentifier::from_str(s.as_str()) {
        RustIdentifier::Identifier(_) => None,
        RustIdentifier::NonIdentifier(_) => Some(Err(MethodManglingError::NotRustSafe)),
        RustIdentifier::KeywordRawSafe(k) => Some(Ok(k.to_owned())),
        RustIdentifier::KeywordUnderscorePostfix(k) => Some(Ok(k.to_owned())),
    };
    match decided {
        None => Ok(s),
        Some(r) => r,
    }
}

fn javaify_method_name(name: &[char]) -> (r: Result<String, MethodManglingError>)
    ensures
        mangled(r, javaify(name@)),
{
    if is_single_underscore(name) {
        return Ok(double_underscore());
    }
    if name.len() > 0 {
        let c = name[0];
        if !(('a' <= c && c <= 'z') || ('A' <= c && c <= 'Z') || c == '_') {
            return Err(MethodManglingError::UnexpectedCharacter(c));
        }
    }
    let mut i: usize = 1;
    while i < name.len()
        invariant
            1 <= i,
            i <= name@.len() || name@.len() == 0,
            first_non_continue(name@, 1) == first_non_continue(name@, i as int),
            name@ != seq!['_'],
            name@.len() > 0 ==> is_identifier_start(name@[0]),
        decreases name@.len() - i,
    {
        let c = name[i];
        if !(('a' <= c && c <= 'z') || ('A' <= c && c <= 'Z') || ('0' <= c && c <= '9') || c == '_') {
            assert(!is_identifier_continue(name@[i as int]));
            assert(first_non_continue(name@, i as int) == Some(i as int));
            assert(name@ != seq!['_']);
            return Err(MethodManglingError::UnexpectedCharacter(c));
        }
        i = i + 1;
    }
    let mut buf: Vec<char> = Vec::new();
    push_chars(&mut buf, name);
    assert(buf@ =~= name@);
    finish(buf)
}

/// A refused prefix makes the whole name refused, for the same character.
proof fn lemma_rustify_err_prefix(s: Seq<char>, i: int)
    requires
        1 <= i <= s.len(),
        rustify_state(s.take(i)) is Err,
    ensures
        rustify_state(s) == rustify_state(s.take(i)),
    decreases s.len() - i,
{
    if i == s.len() {
        assert(s.take(i) =~= s);
    } else {
        assert(s.take(i + 1).drop_last() =~= s.take(i));
        lemma_rustify_err_prefix(s, i + 1);
    }
}

/// The snake_case buffer and trailing uppercase run for `name`.
fn rustify_chars(name: &[char]) -> (r: Result<Vec<char>, MethodManglingError>)
    ensures
        match rustify_state(name@) {
            Ok((b, _)) => r is Ok && r->Ok_0@ == b,
            Err(e) => r == Err::<Vec<char>, MethodManglingError>(e),
        },
{
    let mut buffer: Vec<char> = Vec::new();
    let mut uppercase: usize = 0;
    if name.len() == 0 {
        return Ok(buffer);
    }
    let ch = name[0];
    if 'a' <= ch && ch <= 'z' {
        buffer.push(ch);
    } else if 'A' <= ch && ch <= 'Z' {
        buffer.push(to_ascii_lower(ch));
        uppercase = 1;
    } else if ch == '_' {
        buffer.push(ch);
    } else {
        proof {
            assert(name@.take(1) =~= seq![name@[0]]);
            lemma_rustify_err_prefix(name@, 1);
        }
        return Err(MethodManglingError::UnexpectedCharacter(ch));
    }
    proof {
        assert(name@.take(1) =~= seq![name@[0]]);
        assert(buffer@ =~= rustify_first(name@[0])->Ok_0.0);
    }
    let mut i: usize = 1;
    while i < name.len()
        invariant
            1 <= i <= name@.len(),
            rustify_state(name@.take(i as int)) == Ok::<(Seq<char>, nat), MethodManglingError>((buffer@, uppercase as nat)),
            uppercase <= buffer@.len(),
        decreases name@.len() - i,
    {
        let ch = name[i];
        proof {
            assert(name@.take(i + 1).drop_last() =~= name@.take(i as int));
            assert(name@.take(i + 1).last() == ch);
        }
        let len = buffer.len();
        if 'A' <= ch && ch <= 'Z' {
            if uppercase == 0 && !(len > 0 && buffer[len - 1] == '_') {
                buffer.push('_');
            }
            buffer.push(to_ascii_lower(ch));
            let newlen = buffer.len();
            assert(uppercase < newlen);
            uppercase = uppercase + 1;
        } else if ('a' <= ch && ch <= 'z') || ('0' <= ch && ch <= '9') {
            if uppercase > 1 {
                buffer.insert(len - 1, '_');
            }
            buffer.push(ch);
            uppercase = 0;
        } else if ch == '_' {
            buffer.push(ch);
            uppercase = 0;
        } else {
            proof { lemma_rustify_err_prefix(name@, i + 1); }
            return Err(MethodManglingError::UnexpectedCharacter(ch));
        }
        i = i + 1;
    }
    assert(name@.take(name@.len() as int) =~= name@);
    Ok(buffer)
}

fn rustify_method_name(name: &[char]) -> (r: Result<String, MethodManglingError>)
    ensures
        mangled(r, rustify(name@)),
{
    if is_single_underscore(name) {
        return Ok(double_underscore());
    }
    match rustify_chars(name) {
        Ok(buf) => finish(buf),
        Err(e) => Err(e),
    }
}

fn push_primitive_suffix(buf: &mut Vec<char>, b: BasicType)
    requires
        !(b is Class),
    ensures
        final(buf)@ == old(buf)@ + primitive_suffix(b@),
{
    match b {
        BasicType::Boolean => push_str_chars(buf, "_boolean"),
        BasicType::Byte => push_str_chars(buf, "_byte"),
        BasicType::Char => push_str_chars(buf, "_char"),
        BasicType::Double => push_str_chars(buf, "_double"),
        BasicType::Float => push_str_chars(buf, "_float"),
        BasicType::Int => push_str_chars(buf, "_int"),
        BasicType::Long => push_str_chars(buf, "_long"),
        BasicType::Short => push_str_chars(buf, "_short"),
        BasicType::Void => push_str_chars(buf, "_void"),
        BasicType::Class(_) => {},
    }
}

proof fn lemma_parts_prefix(parts: Seq<IdPart>, i: int)
    requires
        0 <= i < parts.len(),
    ensures
        crate::class::parts_model(parts.take(i + 1)).drop_last() == crate::class::parts_model(parts.take(i)),
        crate::class::parts_model(parts.take(i + 1)).last() == parts[i].model(),
        crate::class::parts_model(parts.take(i + 1)).len() == i + 1,
{
    assert(crate::class::parts_model(parts.take(i + 1)).drop_last() =~= crate::class::parts_model(parts.take(i)));
}

fn push_leaf_suffixes(buf: &mut Vec<char>, id: Id)
    ensures
        final(buf)@ == old(buf)@ + leaf_suffixes(id_parts(id.0@)),
{
    let parts = id.iter();
    let mut i: usize = 0;
    proof { assert(crate::class::parts_model(parts@.take(0)) =~= Seq::<IdPartModel>::empty()); }
    while i < parts.len()
        invariant
            i <= parts@.len(),
            buf@ == old(buf)@ + leaf_suffixes(crate::class::parts_model(parts@.take(i as int))),
        decreases parts@.len() - i,
    {
        proof { lemma_parts_prefix(parts@, i as int); }
        let ghost before = buf@;
        match parts[i] {
            IdPart::LeafClass(cls) => {
                buf.push('_');
                push_str_chars(buf, cls);
                assert(buf@ =~= before + (seq!['_'] + cls@));
            },
            _ => {
                assert(buf@ =~= before + Seq::<char>::empty());
            },
        }
        i = i + 1;
        proof {
            assert(old(buf)@ + leaf_suffixes(crate::class::parts_model(parts@.take(i as int))) =~= before + (leaf_suffixes(crate::class::parts_model(parts@.take(i as int))) .subrange(leaf_suffixes(crate::class::parts_model(parts@.take(i - 1))).len() as int, leaf_suffixes(crate::class::parts_model(parts@.take(i as int))).len() as int)));
        }
    }
    assert(parts@.take(parts@.len() as int) =~= parts@);
}

fn push_all_part_suffixes(buf: &mut Vec<char>, id: Id)
    ensures
        final(buf)@ == old(buf)@ + all_part_suffixes(id_parts(id.0@)),
{
    let parts = id.iter();
    let mut i: usize = 0;
    proof { assert(crate::class::parts_model(parts@.take(0)) =~= Seq::<IdPartModel>::empty()); }
    while i < parts.len()
        invariant
            i <= parts@.len(),
            buf@ == old(buf)@ + all_part_suffixes(crate::class::parts_model(parts@.take(i as int))),
        decreases parts@.len() - i,
    {
        proof { lemma_parts_prefix(parts@, i as int); }
        let ghost before = buf@;
        buf.push('_');
        match parts[i] {
            IdPart::Namespace(t) => push_str_chars(buf, t),
            IdPart::ContainingClass(t) => push_str_chars(buf, t),
            IdPart::LeafClass(t) => push_str_chars(buf, t),
        }
        i = i + 1;
        proof {
            let m = crate::class::parts_model(parts@.take(i as int));
            assert(all_part_suffixes(m) == all_part_suffixes(m.drop_last()) + seq!['_'] + part_text(m.last()));
            assert(buf@ =~= old(buf)@ + all_part_suffixes(m));
        }
    }
    assert(parts@.take(parts@.len() as int) =~= parts@);
}

fn push_argument_suffix(buf: &mut Vec<char>, t: method::Type, long: bool)
    ensures
        final(buf)@ == old(buf)@ + argument_suffix(t@, long),
{
    match t {
        method::Type::Single(BasicType::Class(class)) => {
            if long {
                push_all_part_suffixes(buf, class);
            } else {
                let parts = class.iter();
                let n = parts.len();
                let ghost m = crate::class::parts_model(parts@);
                if n > 0 {
                    match parts[n - 1] {
                        IdPart::LeafClass(leaf) => {
                            let ghost before = buf@;
                            buf.push('_');
                            push_str_chars(buf, leaf);
                            assert(buf@ =~= before + (seq!['_'] + leaf@));
                        },
                        _ => push_str_chars(buf, "_unknown"),
                    }
                } else {
                    push_str_chars(buf, "_unknown");
                }
            }
        },
        method::Type::Single(b) => push_primitive_suffix(buf, b),
        method::Type::Array { levels, inner } => {
            let ghost before = buf@;
            match inner {
                BasicType::Class(class) => {
                    if long {
                        push_all_part_suffixes(buf, class);
                    } else {
                        push_leaf_suffixes(buf, class);
                    }
                },
                b => push_primitive_suffix(buf, b),
            }
            let ghost mid = buf@;
            let mut k: usize = 0;
            while k < levels
                invariant
                    k <= levels,
                    buf@ == mid + repeat("_array"@, k as nat),
                decreases levels - k,
            {
                push_str_chars(buf, "_array");
                k = k + 1;
                assert(buf@ =~= mid + repeat("_array"@, k as nat));
            }
            assert(buf@ =~= before + ((mid.subrange(before.len() as int, mid.len() as int)) + repeat("_array"@, levels as nat)));
        },
    }
}

fn push_signature_suffix(buf: &mut Vec<char>, args: &Vec<method::Type>, long: bool)
    ensures
        final(buf)@ == old(buf)@ + signature_suffix(crate::method::types_model(args@), long),
{
    let mut i: usize = 0;
    proof { assert(crate::method::types_model(args@.take(0)) =~= Seq::<DescriptorModel>::empty()); }
    while i < args.len()
        invariant
            i <= args@.len(),
            buf@ == old(buf)@ + signature_suffix(crate::method::types_model(args@.take(i as int)), long),
        decreases args@.len() - i,
    {
        push_argument_suffix(buf, args[i], long);
        i = i + 1;
        proof {
            let m = crate::method::types_model(args@.take(i as int));
            assert(m.drop_last() =~= crate::method::types_model(args@.take(i - 1)));
            assert(buf@ =~= old(buf)@ + signature_suffix(m, long));
        }
    }
    assert(args@.take(args@.len() as int) =~= args@);
}

/// The signature suffix of a method for the short signature styles: each parameter's type by
/// its simple name.
pub fn short_sig(descriptor: method::Descriptor) -> (s: String)
    ensures
        s@ == signature_suffix(descriptor.model().0, false),
{
    let args = descriptor.arguments();
    let mut buf: Vec<char> = Vec::new();
    push_signature_suffix(&mut buf, &args, false);
    string_from_chars(buf.as_slice())
}

/// The signature suffix of a method for the long signature styles: each parameter's type by its
/// full name.
pub fn long_sig(descriptor: method::Descriptor) -> (s: String)
    ensures
        s@ == signature_suffix(descriptor.model().0, true),
{
    let args = descriptor.arguments();
    let mut buf: Vec<char> = Vec::new();
    push_signature_suffix(&mut buf, &args, true);
    string_from_chars(buf.as_slice())
}

impl MethodManglingStyle {
    /// The Rust name for a method named `name` with the given descriptor.
    pub fn mangle(&self, name: &str, descriptor: method::Descriptor) -> (r: Result<String, MethodManglingError>)
        ensures
            mangled(r, mangle_method(*self, name@, descriptor.model().0)),
    {
        let v = chars_of(name);
        let init = chars_of("<init>");
        let clinit = chars_of("<clinit>");
        let base: Vec<char> = if v.len() == 0 {
            return Err(MethodManglingError::EmptyString);
        } else if chars_eq(v.as_slice(), init.as_slice()) {
            chars_of("new")
        } else if chars_eq(v.as_slice(), clinit.as_slice()) {
            return Err(MethodManglingError::StaticCtor);
        } else {
            v
        };
        match self {
            MethodManglingStyle::Java => javaify_method_name(base.as_slice()),
            MethodManglingStyle::JavaShortSignature => {
                let mut full = base;
                push_str_chars(&mut full, short_sig(descriptor).as_str());
                javaify_method_name(full.as_slice())
            },
            MethodManglingStyle::JavaLongSignature => {
                let mut full = base;
                push_str_chars(&mut full, long_sig(descriptor).as_str());
                javaify_method_name(full.as_slice())
            },
            MethodManglingStyle::Rustify => rustify_method_name(base.as_slice()),
            MethodManglingStyle::RustifyShortSignature => {
                let mut full = base;
                push_str_chars(&mut full, short_sig(descriptor).as_str());
                rustify_method_name(full.as_slice())
            },
            MethodManglingStyle::RustifyLongSignature => {
                let mut full = base;
                push_str_chars(&mut full, long_sig(descriptor).as_str());
                rustify_method_name(full.as_slice())
            },
        }
    }
}

/// The snake_case Rust name of a method, `new` for constructors.
pub fn mangle_method_name(name: &str) -> (r: Result<String, MethodManglingError>)
    ensures
        mangled(r, mangle_method_name_spec(name@)),
{
    let v = chars_of(name);
    let init = chars_of("<init>");
    let clinit = chars_of("<clinit>");
    if chars_eq(v.as_slice(), init.as_slice()) {
        let n = chars_of("new");
        return Ok(string_from_chars(n.as_slice()));
    } else if chars_eq(v.as_slice(), clinit.as_slice()) {
        return Err(MethodManglingError::StaticCtor);
    } else if v.len() == 0 {
        return Err(MethodManglingError::EmptyString);
    }
    match rustify_chars(v.as_slice()) {
        Ok(buf) => {
            if is_single_underscore(buf.as_slice()) {
                Ok(double_underscore())
            } else {
                finish(buf)
            }
        },
        Err(e) => Err(e),
    }
}


/// Every naming style rejects the name of a class initializer (`<clinit>`), whatever its
/// parameters.
pub proof fn law_static_init_not_mangled(style: MethodManglingStyle, args: Seq<DescriptorModel>)
    ensures
        mangle_method(style, "<clinit>"@, args) == Err::<Seq<char>, MethodManglingError>(MethodManglingError::StaticCtor),
{
    reveal_strlit("<clinit>");
    reveal_strlit("<init>");
    assert("<clinit>"@.len() != "<init>"@.len());
}

/// Every naming style rejects an empty name, whatever its parameters.
pub proof fn law_empty_name_not_mangled(style: MethodManglingStyle, args: Seq<DescriptorModel>)
    ensures
        mangle_method(style, ""@, args) == Err::<Seq<char>, MethodManglingError>(MethodManglingError::EmptyString),
{
    reveal_strlit("");
}

/// A constructor (`<init>`) is named as a method called `new` with the same parameters.
pub proof fn law_constructor_named_new(style: MethodManglingStyle, args: Seq<DescriptorModel>)
    ensures
        mangle_method(style, "<init>"@, args) == mangle_method(style, "new"@, args),
{
    reveal_strlit("<init>");
    reveal_strlit("new");
    reveal_strlit("<clinit>");
    assert("new"@ != "<init>"@) by { assert("new"@.len() != "<init>"@.len()); }
    assert("new"@ != "<clinit>"@) by { assert("new"@.len() != "<clinit>"@.len()); }
}


// ---------------------------------------------------------------------------------------------
// Rustified names are fixed points

/// A character that rustifying keeps as it is: an ASCII lowercase letter, a digit or `_`.
pub open spec fn is_snake_char(c: char) -> bool {
    is_ascii_lower(c) || is_ascii_digit(c) || c == '_'
}

/// A snake_case buffer: snake characters, not starting with a digit.
pub open spec fn is_snake(b: Seq<char>) -> bool {
    &&& forall|i: int| 0 <= i < b.len() ==> #[trigger] is_snake_char(b[i])
    &&& b.len() > 0 ==> !is_ascii_digit(b[0])
}

/// What the keyword table gives: raw identifiers start with `r#`; the keywords renamed with a
/// trailing `_` (but `Self`) become snake_case identifiers; `__` is an identifier.
proof fn lemma_keyword_forms(s: Seq<char>)
    ensures
        rust_identifier_of(s) matches RustIdentifierModel::KeywordRawSafe(k) ==> k.len() >= 2 && k[0] == 'r' && k[1] == '#',
        rust_identifier_of(s) matches RustIdentifierModel::KeywordUnderscorePostfix(k)
            ==> (s.len() > 0 && s[0] == 'S') || (is_snake(k) && rust_identifier_of(k) == RustIdentifierModel::Identifier(k)),
        s == seq!['_', '_'] ==> rust_identifier_of(s) == RustIdentifierModel::Identifier(s),
{
    reveal_strlit("crate");
    reveal_strlit("extern");
    reveal_strlit("self");
    reveal_strlit("super");
    reveal_strlit("Self");
    reveal_strlit("as");
    reveal_strlit("break");
    reveal_strlit("const");
    reveal_strlit("continue");
    reveal_strlit("else");
    reveal_strlit("enum");
    reveal_strlit("false");
    reveal_strlit("fn");
    reveal_strlit("for");
    reveal_strlit("if");
    reveal_strlit("impl");
    reveal_strlit("in");
    reveal_strlit("let");
    reveal_strlit("loop");
    reveal_strlit("match");
    reveal_strlit("mod");
    reveal_strlit("move");
    reveal_strlit("mut");
    reveal_strlit("pub");
    reveal_strlit("ref");
    reveal_strlit("return");
    reveal_strlit("static");
    reveal_strlit("struct");
    reveal_strlit("trait");
    reveal_strlit("true");
    reveal_strlit("type");
    reveal_strlit("unsafe");
    reveal_strlit("use");
    reveal_strlit("where");
    reveal_strlit("while");
    reveal_strlit("dyn");
    reveal_strlit("abstract");
    reveal_strlit("become");
    reveal_strlit("box");
    reveal_strlit("do");
    reveal_strlit("final");
    reveal_strlit("macro");
    reveal_strlit("override");
    reveal_strlit("priv");
    reveal_strlit("typeof");
    reveal_strlit("unsized");
    reveal_strlit("virtual");
    reveal_strlit("yield");
    reveal_strlit("async");
    reveal_strlit("await");
    reveal_strlit("try");
    reveal_strlit("union");
    reveal_strlit("crate_");
    reveal_strlit("extern_");
    reveal_strlit("self_");
    reveal_strlit("super_");
    reveal_strlit("Self_");
    reveal_strlit("r#as");
    reveal_strlit("r#break");
    reveal_strlit("r#const");
    reveal_strlit("r#continue");
    reveal_strlit("r#else");
    reveal_strlit("r#enum");
    reveal_strlit("r#false");
    reveal_strlit("r#fn");
    reveal_strlit("r#for");
    reveal_strlit("r#if");
    reveal_strlit("r#impl");
    reveal_strlit("r#in");
    reveal_strlit("r#let");
    reveal_strlit("r#loop");
    reveal_strlit("r#match");
    reveal_strlit("r#mod");
    reveal_strlit("r#move");
    reveal_strlit("r#mut");
    reveal_strlit("r#pub");
    reveal_strlit("r#ref");
    reveal_strlit("r#return");
    reveal_strlit("r#static");
    reveal_strlit("r#struct");
    reveal_strlit("r#trait");
    reveal_strlit("r#true");
    reveal_strlit("r#type");
    reveal_strlit("r#unsafe");
    reveal_strlit("r#use");
    reveal_strlit("r#where");
    reveal_strlit("r#while");
    reveal_strlit("r#dyn");
    reveal_strlit("r#abstract");
    reveal_strlit("r#become");
    reveal_strlit("r#box");
    reveal_strlit("r#do");
    reveal_strlit("r#final");
    reveal_strlit("r#macro");
    reveal_strlit("r#override");
    reveal_strlit("r#priv");
    reveal_strlit("r#typeof");
    reveal_strlit("r#unsized");
    reveal_strlit("r#virtual");
    reveal_strlit("r#yield");
    reveal_strlit("r#async");
    reveal_strlit("r#await");
    reveal_strlit("r#try");
    reveal_strlit("r#union");
    if s == seq!['_', '_'] {
        assert(is_identifier_continue(s[1]));
        assert(is_rust_identifier(s));
    }
    if s == "crate"@ {
        lemma_word_underscore("crate_"@);
        assert(rust_identifier_of("crate_"@) == RustIdentifierModel::Identifier("crate_"@));
    } else if s == "extern"@ {
        lemma_word_underscore("extern_"@);
        assert(rust_identifier_of("extern_"@) == RustIdentifierModel::Identifier("extern_"@));
    } else if s == "self"@ {
        lemma_word_underscore("self_"@);
        assert(rust_identifier_of("self_"@) == RustIdentifierModel::Identifier("self_"@));
    } else if s == "super"@ {
        lemma_word_underscore("super_"@);
        assert("super_"@ =~= seq!['s', 'u', 'p', 'e', 'r', '_']);
        assert(rust_identifier_of("super_"@) == RustIdentifierModel::Identifier("super_"@));
    }
}

/// Lowercase letters and a trailing `_` make a snake_case identifier.
proof fn lemma_word_underscore(k: Seq<char>)
    requires
        k.len() >= 2,
        k.last() == '_',
        forall|i: int| 0 <= i < k.len() - 1 ==> #[trigger] is_ascii_lower(k[i]),
    ensures
        is_snake(k),
        is_rust_identifier(k),
{
    assert forall|i: int| 0 <= i < k.len() implies #[trigger] is_snake_char(k[i]) by {
        if i < k.len() - 1 { assert(is_ascii_lower(k[i])); }
    }
    assert forall|i: int| 1 <= i < k.len() implies #[trigger] is_identifier_continue(k[i]) by {
        assert(is_snake_char(k[i]));
    }
    assert(is_ascii_lower(k[0]));
    assert(k != seq!['_']) by { if k == seq!['_'] { assert(k.len() == 1); } }
}

/// The buffer of a name that rustifies is snake_case, and the uppercase run at its end is no
/// longer than it.
proof fn lemma_state_snake(s: Seq<char>)
    ensures
        rustify_state(s) matches Ok((b, u)) ==> is_snake(b) && u <= b.len(),
    decreases s.len(),
{
    if s.len() > 1 {
        lemma_state_snake(s.drop_last());
        if let Ok((b, u)) = rustify_state(s.drop_last()) {
            let c = s.last();
            if let Ok((b2, u2)) = rustify_step(b, u, c) {
                if is_ascii_upper(c) {
                    assert(is_ascii_lower(ascii_lower(c))) by {
                        assert((c as u32) + 32 <= ('z' as u32));
                    }
                    let b1 = if u == 0 && !(b.len() > 0 && b.last() == '_') { b.push('_') } else { b };
                    assert forall|i: int| 0 <= i < b2.len() implies #[trigger] is_snake_char(b2[i]) by {
                        if i < b.len() { assert(b2[i] == b[i]); }
                    }
                    if b.len() == 0 { assert(b2[0] == b1[0]); } else { assert(b2[0] == b[0]); }
                } else if is_ascii_alnum(c) {
                    if u > 1 {
                        let b1 = b.insert(b.len() - 1, '_');
                        assert(b2 == b1.push(c));
                        assert forall|i: int| 0 <= i < b2.len() implies #[trigger] is_snake_char(b2[i]) by {
                            if i < b.len() - 1 { assert(b2[i] == b[i]); }
                            else if i == b.len() - 1 { assert(b2[i] == '_'); }
                            else if i == b.len() { assert(b2[i] == b[i - 1]); }
                        }
                        assert(b2[0] == b[0]);
                    } else {
                        assert forall|i: int| 0 <= i < b2.len() implies #[trigger] is_snake_char(b2[i]) by {
                            if i < b.len() { assert(b2[i] == b[i]); }
                        }
                        if b.len() > 0 { assert(b2[0] == b[0]); }
                    }
                } else {
                    assert forall|i: int| 0 <= i < b2.len() implies #[trigger] is_snake_char(b2[i]) by {
                        if i < b.len() { assert(b2[i] == b[i]); }
                    }
                    if b.len() > 0 { assert(b2[0] == b[0]); }
                }
            }
        }
    } else if s.len() == 1 {
        let c = s[0];
        if is_ascii_upper(c) {
            assert(is_ascii_lower(ascii_lower(c))) by {
                assert((c as u32) + 32 <= ('z' as u32));
            }
        }
    }
}

/// A snake_case buffer is its own rustify buffer.
proof fn lemma_state_of_snake(s: Seq<char>)
    requires
        is_snake(s),
        s.len() > 0,
    ensures
        rustify_state(s) == Ok::<(Seq<char>, nat), MethodManglingError>((s, 0)),
    decreases s.len(),
{
    assert(is_snake_char(s[0]));
    if s.len() > 1 {
        let p = s.drop_last();
        assert forall|i: int| 0 <= i < p.len() implies #[trigger] is_snake_char(p[i]) by {
            assert(is_snake_char(s[i]));
        }
        lemma_state_of_snake(p);
        assert(is_snake_char(s[s.len() - 1]));
        assert(p.push(s.last()) =~= s);
    } else {
        assert(seq![s[0]] =~= s);
    }
}

/// A name rustified once is rustified to itself, unless it came out a raw identifier (`r#...`).
pub proof fn law_rustify_fixed_point(name: Seq<char>, r: Seq<char>)
    requires
        rustify(name) == Ok::<Seq<char>, MethodManglingError>(r),
        !(r.len() >= 2 && r[0] == 'r' && r[1] == '#'),
    ensures
        rustify(r) == Ok::<Seq<char>, MethodManglingError>(r),
{
    if name == seq!['_'] {
        assert(r == seq!['_', '_']);
        assert(is_snake_char(r[0]) && is_snake_char(r[1]));
        assert(is_snake(r));
        lemma_state_of_snake(r);
        lemma_keyword_forms(r);
        assert(r != seq!['_']) by { assert(r.len() == 2); }
    } else {
        lemma_state_snake(name);
        let (b, u) = rustify_state(name)->Ok_0;
        lemma_keyword_forms(b);
        match rust_identifier_of(b) {
            RustIdentifierModel::Identifier(_) => {
                assert(r == b);
                assert(is_rust_identifier(b));
                assert(b != seq!['_']);
                lemma_state_of_snake(b);
            },
            RustIdentifierModel::KeywordUnderscorePostfix(k) => {
                assert(r == k);
                assert(!(b.len() > 0 && b[0] == 'S')) by {
                    if b.len() > 0 { assert(is_snake_char(b[0])); }
                }
                assert(k.len() > 0);
                assert(k != seq!['_']) by {
                    assert(is_rust_identifier(k));
                }
                lemma_state_of_snake(k);
            },
            _ => {},
        }
    }
}

} // verus!
