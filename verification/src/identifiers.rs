//! Categorizes strings as Rust [identifiers](https://doc.rust-lang.org/reference/identifiers.html) for use in codegen.

use vstd::prelude::*;
use crate::text::{chars_eq, chars_of, is_ascii_alnum, is_ascii_lower, is_ascii_upper};

verus! {

/// Categorizes a rust [identifier](https://doc.rust-lang.org/reference/identifiers.html) for use in rust codegen.
#[derive(Clone, Copy, Debug, PartialEq, Eq, PartialOrd, Ord, Hash)]
pub enum RustIdentifier<'a> {
    /// Meets the criteria for a Rust [NON_KEYWORD_IDENTIFIER](https://doc.rust-lang.org/reference/identifiers.html)
    Identifier(&'a str),

    /// Not a rust-safe [identifier](https://doc.rust-lang.org/reference/identifiers.html).  Unicode, strange ASCII
    /// values, relatively normal ASCII values... you name it.
    NonIdentifier(&'a str),

    /// A [keyword](https://doc.rust-lang.org/reference/keywords.html) that has had `r#` prepended to it, because it can
    /// be used as a [RAW_IDENTIFIER](https://doc.rust-lang.org/reference/identifiers.html)
    KeywordRawSafe(&'a str),

    /// A [keyword](https://doc.rust-lang.org/reference/keywords.html) that has had `_` postpended to it, because it can
    /// *not* be used as a [RAW_IDENTIFIER](https://doc.rust-lang.org/reference/identifiers.html).
    KeywordUnderscorePostfix(&'a str),
}

/// A categorized identifier, with its text taken as characters.
pub enum RustIdentifierModel {
    Identifier(Seq<char>),
    NonIdentifier(Seq<char>),
    KeywordRawSafe(Seq<char>),
    KeywordUnderscorePostfix(Seq<char>),
}

impl<'a> View for RustIdentifier<'a> {
    type V = RustIdentifierModel;

    open spec fn view(&self) -> RustIdentifierModel {
        match *self {
            RustIdentifier::Identifier(s) => RustIdentifierModel::Identifier(s@),
            RustIdentifier::NonIdentifier(s) => RustIdentifierModel::NonIdentifier(s@),
            RustIdentifier::KeywordRawSafe(s) => RustIdentifierModel::KeywordRawSafe(s@),
            RustIdentifier::KeywordUnderscorePostfix(s) => RustIdentifierModel::KeywordUnderscorePostfix(s@),
        }
    }
}

/// May start an identifier: an ASCII letter or `_`.
pub open spec fn is_identifier_start(c: char) -> bool {
    is_ascii_lower(c) || is_ascii_upper(c) || c == '_'
}

/// May continue an identifier: an ASCII letter, digit or `_`.
pub open spec fn is_identifier_continue(c: char) -> bool {
    is_ascii_alnum(c) || c == '_'
}

/// An ASCII identifier: a letter or `_`, then letters, digits and `_`s, but not `_` alone.
pub open spec fn is_rust_identifier(s: Seq<char>) -> bool {
    &&& s.len() > 0
    &&& is_identifier_start(s[0])
    &&& s != seq!['_']
    &&& forall|i: int| 1 <= i < s.len() ==> #[trigger] is_identifier_continue(s[i])
}

/// How `RustIdentifier::from_str` categorizes `s`: keywords first, then identifiers.
pub open spec fn rust_identifier_of(s: Seq<char>) -> RustIdentifierModel {
    if s == "crate"@ {
        RustIdentifierModel::KeywordUnderscorePostfix("crate_"@)
    } else if s == "extern"@ {
        RustIdentifierModel::KeywordUnderscorePostfix("extern_"@)
    } else if s == "self"@ {
        RustIdentifierModel::KeywordUnderscorePostfix("self_"@)
    } else if s == "super"@ {
        RustIdentifierModel::KeywordUnderscorePostfix("super_"@)
    } else if s == "Self"@ {
        RustIdentifierModel::KeywordUnderscorePostfix("Self_"@)
    } else if s == "as"@ {
        RustIdentifierModel::KeywordRawSafe("r#as"@)
    } else if s == "break"@ {
        RustIdentifierModel::KeywordRawSafe("r#break"@)
    } else if s == "const"@ {
        RustIdentifierModel::KeywordRawSafe("r#const"@)
    } else if s == "continue"@ {
        RustIdentifierModel::KeywordRawSafe("r#continue"@)
    } else if s == "else"@ {
        RustIdentifierModel::KeywordRawSafe("r#else"@)
    } else if s == "enum"@ {
        RustIdentifierModel::KeywordRawSafe("r#enum"@)
    } else if s == "false"@ {
        RustIdentifierModel::KeywordRawSafe("r#false"@)
    } else if s == "fn"@ {
        RustIdentifierModel::KeywordRawSafe("r#fn"@)
    } else if s == "for"@ {
        RustIdentifierModel::KeywordRawSafe("r#for"@)
    } else if s == "if"@ {
        RustIdentifierModel::KeywordRawSafe("r#if"@)
    } else if s == "impl"@ {
        RustIdentifierModel::KeywordRawSafe("r#impl"@)
    } else if s == "in"@ {
        RustIdentifierModel::KeywordRawSafe("r#in"@)
    } else if s == "let"@ {
        RustIdentifierModel::KeywordRawSafe("r#let"@)
    } else if s == "loop"@ {
        RustIdentifierModel::KeywordRawSafe("r#loop"@)
    } else if s == "match"@ {
        RustIdentifierModel::KeywordRawSafe("r#match"@)
    } else if s == "mod"@ {
        RustIdentifierModel::KeywordRawSafe("r#mod"@)
    } else if s == "move"@ {
        RustIdentifierModel::KeywordRawSafe("r#move"@)
    } else if s == "mut"@ {
        RustIdentifierModel::KeywordRawSafe("r#mut"@)
    } else if s == "pub"@ {
        RustIdentifierModel::KeywordRawSafe("r#pub"@)
    } else if s == "ref"@ {
        RustIdentifierModel::KeywordRawSafe("r#ref"@)
    } else if s == "return"@ {
        RustIdentifierModel::KeywordRawSafe("r#return"@)
    } else if s == "static"@ {
        RustIdentifierModel::KeywordRawSafe("r#static"@)
    } else if s == "struct"@ {
        RustIdentifierModel::KeywordRawSafe("r#struct"@)
    } else if s == "trait"@ {
        RustIdentifierModel::KeywordRawSafe("r#trait"@)
    } else if s == "true"@ {
        RustIdentifierModel::KeywordRawSafe("r#true"@)
    } else if s == "type"@ {
        RustIdentifierModel::KeywordRawSafe("r#type"@)
    } else if s == "unsafe"@ {
        RustIdentifierModel::KeywordRawSafe("r#unsafe"@)
    } else if s == "use"@ {
        RustIdentifierModel::KeywordRawSafe("r#use"@)
    } else if s == "where"@ {
        RustIdentifierModel::KeywordRawSafe("r#where"@)
    } else if s == "while"@ {
        RustIdentifierModel::KeywordRawSafe("r#while"@)
    } else if s == "dyn"@ {
        RustIdentifierModel::KeywordRawSafe("r#dyn"@)
    } else if s == "abstract"@ {
        RustIdentifierModel::KeywordRawSafe("r#abstract"@)
    } else if s == "become"@ {
        RustIdentifierModel::KeywordRawSafe("r#become"@)
    } else if s == "box"@ {
        RustIdentifierModel::KeywordRawSafe("r#box"@)
    } else if s == "do"@ {
        RustIdentifierModel::KeywordRawSafe("r#do"@)
    } else if s == "final"@ {
        RustIdentifierModel::KeywordRawSafe("r#final"@)
    } else if s == "macro"@ {
        RustIdentifierModel::KeywordRawSafe("r#macro"@)
    } else if s == "override"@ {
        RustIdentifierModel::KeywordRawSafe("r#override"@)
    } else if s == "priv"@ {
        RustIdentifierModel::KeywordRawSafe("r#priv"@)
    } else if s == "typeof"@ {
        RustIdentifierModel::KeywordRawSafe("r#typeof"@)
    } else if s == "unsized"@ {
        RustIdentifierModel::KeywordRawSafe("r#unsized"@)
    } else if s == "virtual"@ {
        RustIdentifierModel::KeywordRawSafe("r#virtual"@)
    } else if s == "yield"@ {
        RustIdentifierModel::KeywordRawSafe("r#yield"@)
    } else if s == "async"@ {
        RustIdentifierModel::KeywordRawSafe("r#async"@)
    } else if s == "await"@ {
        RustIdentifierModel::KeywordRawSafe("r#await"@)
    } else if s == "try"@ {
        RustIdentifierModel::KeywordRawSafe("r#try"@)
    } else if s == "union"@ {
        RustIdentifierModel::KeywordRawSafe("r#union"@)
    } else if is_rust_identifier(s) {
        RustIdentifierModel::Identifier(s)
    } else {
        RustIdentifierModel::NonIdentifier(s)
    }
}

/// Whether `v` holds exactly the characters of `lit`.
fn is_literal(v: &Vec<char>, lit: &str) -> (r: bool)
    ensures
        r == (v@ == lit@),
{
    let l = chars_of(lit);
    chars_eq(v.as_slice(), l.as_slice())
}

/// Whether the characters form an identifier (see `is_rust_identifier`).
pub fn rust_identifier_chars(v: &[char]) -> (r: bool)
    ensures
        r == is_rust_identifier(v@),
{
    if v.len() == 0 {
        return false;
    }
    let c = v[0];
    if !(('a' <= c && c <= 'z') || ('A' <= c && c <= 'Z') || c == '_') {
        return false;
    }
    if c == '_' && v.len() == 1 {
        assert(v@ =~= seq!['_']);
        return false;
    }
    let mut i: usize = 1;
    while i < v.len()
        invariant
            1 <= i <= v@.len(),
            forall|j: int| 1 <= j < i ==> #[trigger] is_identifier_continue(v@[j]),
        decreases v@.len() - i,
    {
        let ch = v[i];
        if !(('a' <= ch && ch <= 'z') || ('A' <= ch && ch <= 'Z') || ('0' <= ch && ch <= '9') || ch == '_') {
            assert(!is_identifier_continue(v@[i as int]));
            return false;
        }
        i = i + 1;
    }
    if v.len() == 1 {
        assert(v@ != seq!['_']) by {
            if v@ == seq!['_'] {
                assert(v@[0] == '_');
            }
        }
    } else {
        assert(v@.len() != seq!['_'].len());
    }
    true
}

/// Whether `s` is an identifier (see `is_rust_identifier`).
pub fn is_rust_identifier_str(s: &str) -> (r: bool)
    ensures
        r == is_rust_identifier(s@),
{
    let v = chars_of(s);
    rust_identifier_chars(v.as_slice())
}

impl<'a> RustIdentifier<'a> {
    /// Takes an arbitrary string and tries to treat it as a Rust identifier, doing minor escaping for keywords.
    pub fn from_str(s: &'a str) -> (r: RustIdentifier<'a>)
        ensures
            r@ == rust_identifier_of(s@),
    {
        let v = chars_of(s);
        if is_literal(&v, "crate") {
            RustIdentifier::KeywordUnderscorePostfix("crate_")
        } else if is_literal(&v, "extern") {
            RustIdentifier::KeywordUnderscorePostfix("extern_")
        } else if is_literal(&v, "self") {
            RustIdentifier::KeywordUnderscorePostfix("self_")
        } else if is_literal(&v, "super") {
            RustIdentifier::KeywordUnderscorePostfix("super_")
        } else if is_literal(&v, "Self") {
            RustIdentifier::KeywordUnderscorePostfix("Self_")
        } else if is_literal(&v, "as") {
            RustIdentifier::KeywordRawSafe("r#as")
        } else if is_literal(&v, "break") {
            RustIdentifier::KeywordRawSafe("r#break")
        } else if is_literal(&v, "const") {
            RustIdentifier::KeywordRawSafe("r#const")
        } else if is_literal(&v, "continue") {
            RustIdentifier::KeywordRawSafe("r#continue")
        } else if is_literal(&v, "else") {
            RustIdentifier::KeywordRawSafe("r#else")
        } else if is_literal(&v, "enum") {
            RustIdentifier::KeywordRawSafe("r#enum")
        } else if is_literal(&v, "false") {
            RustIdentifier::KeywordRawSafe("r#false")
        } else if is_literal(&v, "fn") {
            RustIdentifier::KeywordRawSafe("r#fn")
        } else if is_literal(&v, "for") {
            RustIdentifier::KeywordRawSafe("r#for")
        } else if is_literal(&v, "if") {
            RustIdentifier::KeywordRawSafe("r#if")
        } else if is_literal(&v, "impl") {
            RustIdentifier::KeywordRawSafe("r#impl")
        } else if is_literal(&v, "in") {
            RustIdentifier::KeywordRawSafe("r#in")
        } else if is_literal(&v, "let") {
            RustIdentifier::KeywordRawSafe("r#let")
        } else if is_literal(&v, "loop") {
            RustIdentifier::KeywordRawSafe("r#loop")
        } else if is_literal(&v, "match") {
            RustIdentifier::KeywordRawSafe("r#match")
        } else if is_literal(&v, "mod") {
            RustIdentifier::KeywordRawSafe("r#mod")
        } else if is_literal(&v, "move") {
            RustIdentifier::KeywordRawSafe("r#move")
        } else if is_literal(&v, "mut") {
            RustIdentifier::KeywordRawSafe("r#mut")
        } else if is_literal(&v, "pub") {
            RustIdentifier::KeywordRawSafe("r#pub")
        } else if is_literal(&v, "ref") {
            RustIdentifier::KeywordRawSafe("r#ref")
        } else if is_literal(&v, "return") {
            RustIdentifier::KeywordRawSafe("r#return")
        } else if is_literal(&v, "static") {
            RustIdentifier::KeywordRawSafe("r#static")
        } else if is_literal(&v, "struct") {
            RustIdentifier::KeywordRawSafe("r#struct")
        } else if is_literal(&v, "trait") {
            RustIdentifier::KeywordRawSafe("r#trait")
        } else if is_literal(&v, "true") {
            RustIdentifier::KeywordRawSafe("r#true")
        } else if is_literal(&v, "type") {
            RustIdentifier::KeywordRawSafe("r#type")
        } else if is_literal(&v, "unsafe") {
            RustIdentifier::KeywordRawSafe("r#unsafe")
        } else if is_literal(&v, "use") {
            RustIdentifier::KeywordRawSafe("r#use")
        } else if is_literal(&v, "where") {
            RustIdentifier::KeywordRawSafe("r#where")
        } else if is_literal(&v, "while") {
            RustIdentifier::KeywordRawSafe("r#while")
        } else if is_literal(&v, "dyn") {
            RustIdentifier::KeywordRawSafe("r#dyn")
        } else if is_literal(&v, "abstract") {
            RustIdentifier::KeywordRawSafe("r#abstract")
        } else if is_literal(&v, "become") {
            RustIdentifier::KeywordRawSafe("r#become")
        } else if is_literal(&v, "box") {
            RustIdentifier::KeywordRawSafe("r#box")
        } else if is_literal(&v, "do") {
            RustIdentifier::KeywordRawSafe("r#do")
        } else if is_literal(&v, "final") {
            RustIdentifier::KeywordRawSafe("r#final")
        } else if is_literal(&v, "macro") {
            RustIdentifier::KeywordRawSafe("r#macro")
        } else if is_literal(&v, "override") {
            RustIdentifier::KeywordRawSafe("r#override")
        } else if is_literal(&v, "priv") {
            RustIdentifier::KeywordRawSafe("r#priv")
        } else if is_literal(&v, "typeof") {
            RustIdentifier::KeywordRawSafe("r#typeof")
        } else if is_literal(&v, "unsized") {
            RustIdentifier::KeywordRawSafe("r#unsized")
        } else if is_literal(&v, "virtual") {
            RustIdentifier::KeywordRawSafe("r#virtual")
        } else if is_literal(&v, "yield") {
            RustIdentifier::KeywordRawSafe("r#yield")
        } else if is_literal(&v, "async") {
            RustIdentifier::KeywordRawSafe("r#async")
        } else if is_literal(&v, "await") {
            RustIdentifier::KeywordRawSafe("r#await")
        } else if is_literal(&v, "try") {
            RustIdentifier::KeywordRawSafe("r#try")
        } else if is_literal(&v, "union") {
            RustIdentifier::KeywordRawSafe("r#union")
        } else if rust_identifier_chars(&v) {
            RustIdentifier::Identifier(s)
        } else {
            RustIdentifier::NonIdentifier(s)
        }
    }
}


/// Categorizing a string as an identifier, or as no identifier, keeps it as it is; only keywords
/// are escaped.
pub proof fn law_identifier_text_kept(s: Seq<char>)
    ensures
        rust_identifier_of(s) matches RustIdentifierModel::Identifier(t) ==> t == s,
        rust_identifier_of(s) matches RustIdentifierModel::NonIdentifier(t) ==> t == s,
{
}

} // verus!
