//! Which input files and archive entries hold classes.

use vstd::prelude::*;
use crate::text::{chars_of, chars_eq, lower_all, string_from_chars, to_lower_chars};

verus! {

/// What an input file is, by its extension.
#[derive(Clone, Copy, Debug, PartialEq, Eq, Structural)]
pub enum InputKind {
    /// A `.class` file.
    Class,
    /// A `.jar` archive of class files.
    Jar,
}

/// The kind of an input file with this extension, compared without regard to ASCII case; none
/// for another extension.
pub open spec fn input_kind_spec(extension: Seq<char>) -> Option<InputKind> {
    if lower_all(extension) == "class"@ {
        Some(InputKind::Class)
    } else if lower_all(extension) == "jar"@ {
        Some(InputKind::Jar)
    } else {
        None
    }
}

/// The kind of an input file with this extension (see `input_kind_spec`).
pub fn input_kind(extension: &str) -> (k: Option<InputKind>)
    ensures
        k == input_kind_spec(extension@),
{
    let v = chars_of(extension);
    let lower = to_lower_chars(v.as_slice());
    if chars_eq(lower.as_slice(), chars_of("class").as_slice()) {
        Some(InputKind::Class)
    } else if chars_eq(lower.as_slice(), chars_of("jar").as_slice()) {
        Some(InputKind::Jar)
    } else {
        None
    }
}

/// The class path of an archive entry named `name`: the name without its `.class` ending; none
/// for an entry that is no class file.
pub open spec fn entry_class_path(name: Seq<char>) -> Option<Seq<char>> {
    if name.len() >= 6 && name.skip(name.len() - 6) == ".class"@ {
        Some(name.take(name.len() - 6))
    } else {
        None
    }
}

/// The class path of an archive entry (see `entry_class_path`).
pub fn class_path_of_entry(name: &str) -> (r: Option<String>)
    ensures
        match entry_class_path(name@) {
            Some(p) => r is Some && r->Some_0@ == p,
            None => r is None,
        },
{
    let v = chars_of(name);
    if v.len() < 6 {
        return None;
    }
    let tail = vstd::slice::slice_subrange(v.as_slice(), v.len() - 6, v.len());
    assert(tail@ =~= v@.skip(v@.len() - 6));
    if !chars_eq(tail, chars_of(".class").as_slice()) {
        return None;
    }
    let head = vstd::slice::slice_subrange(v.as_slice(), 0, v.len() - 6);
    assert(head@ =~= v@.take(v@.len() - 6));
    Some(string_from_chars(head))
}

} // verus!
