//! Pieces of generated Rust source text: string literals, numbers, and the `Debug` forms of
//! descriptors.

use vstd::prelude::*;
use crate::descriptor::{BasicType, BasicTypeModel, Descriptor, DescriptorModel};
use crate::text::{chars_of, push_chars, push_str_chars};

verus! {

/// What `format!("{:?}", s)` gives for a string: a Rust string literal for it.
pub uninterp spec fn debug_str(s: Seq<char>) -> Seq<char>;

/// `format!("{:?}", s)`: the standard library's `Debug` form of a string, a quoted string
/// literal with escapes.  Only that the result is a function of `s` is claimed here; what it
/// holds is left unsaid.
#[verifier::external_body]
fn debug_string(s: &str) -> (r: String)
    ensures
        r@ == debug_str(s@),
{
    format!("{:?}", s)
}

/// The `Debug` form of a string (`format!("{:?}", s)`).
pub fn debug_text(s: &str) -> (r: String)
    ensures
        r@ == debug_str(s@),
{
    debug_string(s)
}

/// A NUL-terminated string literal: the `Debug` form of `s` with `\0` written before its closing
/// quote (before its last character).  The `Debug` form always has its two quotes; were it
/// empty, the result would be `\0` alone.
pub open spec fn cstr_literal(s: Seq<char>) -> Seq<char> {
    let d = debug_str(s);
    if d.len() == 0 {
        "\\0"@
    } else {
        d.take(d.len() - 1) + "\\0"@ + seq![d.last()]
    }
}

/// A NUL-terminated string literal for `s` (see `cstr_literal`).
pub fn emit_cstr(s: &str) -> (r: Vec<char>)
    ensures
        r@ == cstr_literal(s@),
{
    proof { reveal_strlit("\\0"); }
    let d = chars_of(debug_string(s).as_str());
    let mut out: Vec<char> = Vec::new();
    if d.len() == 0 {
        push_str_chars(&mut out, "\\0");
        return out;
    }
    push_chars(&mut out, vstd::slice::slice_subrange(d.as_slice(), 0, d.len() - 1));
    push_str_chars(&mut out, "\\0");
    out.push(d[d.len() - 1]);
    assert(out@ =~= cstr_literal(s@));
    out
}

/// The decimal digit for `v` in `0..10`.
pub open spec fn digit(v: int) -> char {
    (('0' as int) + v) as char
}

/// `n` in decimal (`format!("{}", n)`).
pub open spec fn decimal(n: nat) -> Seq<char>
    decreases n,
{
    if n < 10 {
        seq![digit(n as int)]
    } else {
        decimal(n / 10).push(digit((n % 10) as int))
    }
}

/// Appends `decimal(n)` to `out`.
pub fn push_decimal(out: &mut Vec<char>, n: usize)
    ensures
        final(out)@ == old(out)@ + decimal(n as nat),
    decreases n,
{
    if n >= 10 {
        push_decimal(out, n / 10);
    }
    let d = (n % 10) as u8;
    let c = (0x30u8 + d) as char;
    assert(c == digit((n % 10) as int));
    out.push(c);
    assert(final(out)@ =~= old(out)@ + decimal(n as nat));
}

/// The `Debug` form of a class path `Id`: `Id("...")`.
pub open spec fn id_debug(c: Seq<char>) -> Seq<char> {
    "Id("@ + debug_str(c) + ")"@
}

/// The `Debug` form of a basic type: its variant name, and `Class(Id("..."))` for a class.
pub open spec fn basic_debug(b: BasicTypeModel) -> Seq<char> {
    match b {
        BasicTypeModel::Byte => "Byte"@,
        BasicTypeModel::Char => "Char"@,
        BasicTypeModel::Double => "Double"@,
        BasicTypeModel::Float => "Float"@,
        BasicTypeModel::Int => "Int"@,
        BasicTypeModel::Long => "Long"@,
        BasicTypeModel::Class(c) => "Class("@ + id_debug(c) + ")"@,
        BasicTypeModel::Short => "Short"@,
        BasicTypeModel::Boolean => "Boolean"@,
        BasicTypeModel::Void => "Void"@,
    }
}

/// The `Debug` form of a descriptor, as `derive(Debug)` writes it: `Single(...)`, or
/// `Array { levels: n, inner: ... }`.
pub open spec fn descriptor_debug(d: DescriptorModel) -> Seq<char> {
    match d {
        DescriptorModel::Single(b) => "Single("@ + basic_debug(b) + ")"@,
        DescriptorModel::Array { levels, inner } => "Array { levels: "@ + decimal(levels) + ", inner: "@ + basic_debug(inner) + " }"@,
    }
}

/// The `Debug` form of a class path `Id`.
pub fn push_id_debug(out: &mut Vec<char>, c: &str)
    ensures
        final(out)@ == old(out)@ + id_debug(c@),
{
    push_str_chars(out, "Id(");
    push_str_chars(out, debug_string(c).as_str());
    push_str_chars(out, ")");
    assert(final(out)@ =~= old(out)@ + id_debug(c@));
}

/// Appends the `Debug` form of a basic type.
pub fn push_basic_debug(out: &mut Vec<char>, b: BasicType)
    ensures
        final(out)@ == old(out)@ + basic_debug(b@),
{
    match b {
        BasicType::Byte => push_str_chars(out, "Byte"),
        BasicType::Char => push_str_chars(out, "Char"),
        BasicType::Double => push_str_chars(out, "Double"),
        BasicType::Float => push_str_chars(out, "Float"),
        BasicType::Int => push_str_chars(out, "Int"),
        BasicType::Long => push_str_chars(out, "Long"),
        BasicType::Class(c) => {
            push_str_chars(out, "Class(");
            push_id_debug(out, c.0);
            push_str_chars(out, ")");
            assert(final(out)@ =~= old(out)@ + basic_debug(b@));
        },
        BasicType::Short => push_str_chars(out, "Short"),
        BasicType::Boolean => push_str_chars(out, "Boolean"),
        BasicType::Void => push_str_chars(out, "Void"),
    }
}

/// Appends the `Debug` form of a descriptor.
pub fn push_descriptor_debug(out: &mut Vec<char>, d: Descriptor)
    ensures
        final(out)@ == old(out)@ + descriptor_debug(d@),
{
    match d {
        Descriptor::Single(b) => {
            push_str_chars(out, "Single(");
            push_basic_debug(out, b);
            push_str_chars(out, ")");
        },
        Descriptor::Array { levels, inner } => {
            push_str_chars(out, "Array { levels: ");
            push_decimal(out, levels);
            push_str_chars(out, ", inner: ");
            push_basic_debug(out, inner);
            push_str_chars(out, " }");
        },
    }
    assert(final(out)@ =~= old(out)@ + descriptor_debug(d@));
}

} // verus!
