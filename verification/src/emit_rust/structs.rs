//! The Rust module, struct name, feature and file of each Java class.

use vstd::prelude::*;
use crate::class::{id_parts, parts_model, Id, IdPart, IdPartModel};
use crate::identifiers::{rust_identifier_of, RustIdentifier, RustIdentifierModel};
use crate::text::{chars_eq, chars_of, push_chars, push_str_chars, string_from_chars};
use crate::emit_rust::context::{Context, EmitError, EmitErrorModel};

verus! {

/// The Rust form of a Java identifier: itself, or a keyword's escaped form; `None` for one with
/// no Rust equivalent.
pub open spec fn rust_id_spec(id: Seq<char>) -> Option<Seq<char>> {
    match rust_identifier_of(id) {
        RustIdentifierModel::Identifier(s) => Some(s),
        RustIdentifierModel::KeywordRawSafe(s) => Some(s),
        RustIdentifierModel::KeywordUnderscorePostfix(s) => Some(s),
        RustIdentifierModel::NonIdentifier(_) => None,
    }
}

/// The feature name of a Java identifier: itself, unless it has no Rust equivalent.
pub open spec fn feature_id_spec(id: Seq<char>) -> Option<Seq<char>> {
    match rust_identifier_of(id) {
        RustIdentifierModel::NonIdentifier(_) => None,
        _ => Some(id),
    }
}

/// The Rust form of a Java identifier (see `rust_id_spec`).
pub fn rust_id(id: &str) -> (r: Result<&str, EmitError>)
    ensures
        match rust_id_spec(id@) {
            Some(s) => r is Ok && r->Ok_0@ == s,
            None => r is Err && r->Err_0@ == EmitErrorModel::NoRustEquivalent(id@),
        },
{
    match RustIdentifier::from_str(id) {
        RustIdentifier::Identifier(id) => Ok(id),
        RustIdentifier::KeywordRawSafe(id) => Ok(id),
        RustIdentifier::KeywordUnderscorePostfix(id) => Ok(id),
        RustIdentifier::NonIdentifier(_) => Err(EmitError::NoRustEquivalent(id.to_owned())),
    }
}

/// The feature name of a Java identifier (see `feature_id_spec`).
pub fn feature_id(id: &str) -> (r: Result<&str, EmitError>)
    ensures
        match feature_id_spec(id@) {
            Some(s) => r is Ok && r->Ok_0@ == s,
            None => r is Err && r->Err_0@ == EmitErrorModel::NoRustEquivalent(id@),
        },
{
    match RustIdentifier::from_str(id) {
        RustIdentifier::NonIdentifier(_) => Err(EmitError::NoRustEquivalent(id.to_owned())),
        _ => Ok(id),
    }
}

/// Which of the four names is being built.
pub enum NameKind {
    /// Packages then `-`, containing classes then `_`, then the class; identifiers as they are.
    Feature,
    /// `::` then each package, in Rust form; classes add nothing.
    Module,
    /// Containing classes then `_`, then the class, in Rust form; packages add nothing.
    Struct,
    /// Packages then `/`, containing classes then `_`, then the class and `.rs`, in Rust form.
    File,
}

/// The identifier of a component, and whether it is a package (0), a containing class (1) or the class (2).
pub open spec fn part_id(p: IdPartModel) -> (Seq<char>, int) {
    match p {
        IdPartModel::Namespace(id) => (id, 0),
        IdPartModel::ContainingClass(id) => (id, 1),
        IdPartModel::LeafClass(id) => (id, 2),
    }
}

/// What one component adds to a name of the given kind: `None` when it adds nothing, else the
/// text, or the identifier as the error when it has no Rust form.
pub open spec fn piece(kind: NameKind, p: IdPartModel) -> Option<Result<Seq<char>, Seq<char>>> {
    let (id, k) = part_id(p);
    match kind {
        NameKind::Feature => Some(match feature_id_spec(id) {
            Some(f) => Ok(if k == 0 { f + "-"@ } else if k == 1 { f + "_"@ } else { f }),
            None => Err(id),
        }),
        NameKind::Module => if k == 0 {
            Some(match rust_id_spec(id) { Some(r) => Ok("::"@ + r), None => Err(id) })
        } else {
            None
        },
        NameKind::Struct => if k == 0 {
            None
        } else {
            Some(match rust_id_spec(id) { Some(r) => Ok(if k == 1 { r + "_"@ } else { r }), None => Err(id) })
        },
        NameKind::File => Some(match rust_id_spec(id) {
            Some(r) => Ok(if k == 0 { r + "/"@ } else if k == 1 { r + "_"@ } else { r + ".rs"@ }),
            None => Err(id),
        }),
    }
}

/// A name built from components after the text `acc`; the first component without a Rust form
/// that the name uses is the error.
pub open spec fn build_name(kind: NameKind, parts: Seq<IdPartModel>, acc: Seq<char>) -> Result<Seq<char>, Seq<char>>
    decreases parts.len(),
{
    if parts.len() == 0 {
        Ok(acc)
    } else {
        match piece(kind, parts[0]) {
            None => build_name(kind, parts.skip(1), acc),
            Some(Ok(t)) => build_name(kind, parts.skip(1), acc + t),
            Some(Err(id)) => Err(id),
        }
    }
}

/// What one component adds to a name of the given kind (see `piece`).
fn piece_of(kind: &NameKind, part: IdPart) -> (r: Option<Result<Vec<char>, EmitError>>)
    ensures
        match piece(*kind, part.model()) {
            None => r is None,
            Some(Ok(t)) => r is Some && r->Some_0 is Ok && r->Some_0->Ok_0@ == t,
            Some(Err(id)) => r is Some && r->Some_0 is Err && r->Some_0->Err_0@ == EmitErrorModel::NoRustEquivalent(id),
        },
{
    proof { reveal_strlit("-"); reveal_strlit("_"); reveal_strlit("::"); reveal_strlit("/"); reveal_strlit(".rs"); }
    let (id, k): (&str, u8) = match part {
        IdPart::Namespace(id) => (id, 0),
        IdPart::ContainingClass(id) => (id, 1),
        IdPart::LeafClass(id) => (id, 2),
    };
    let mut out: Vec<char> = Vec::new();
    match kind {
        NameKind::Feature => {
            let f = match feature_id(id) { Ok(f) => f, Err(e) => { return Some(Err(e)); } };
            push_str_chars(&mut out, f);
            if k == 0 { push_str_chars(&mut out, "-"); } else if k == 1 { push_str_chars(&mut out, "_"); }
        },
        NameKind::Module => {
            if k != 0 {
                return None;
            }
            let r = match rust_id(id) { Ok(r) => r, Err(e) => { return Some(Err(e)); } };
            push_str_chars(&mut out, "::");
            push_str_chars(&mut out, r);
        },
        NameKind::Struct => {
            if k == 0 {
                return None;
            }
            let r = match rust_id(id) { Ok(r) => r, Err(e) => { return Some(Err(e)); } };
            push_str_chars(&mut out, r);
            if k == 1 { push_str_chars(&mut out, "_"); }
        },
        NameKind::File => {
            let r = match rust_id(id) { Ok(r) => r, Err(e) => { return Some(Err(e)); } };
            push_str_chars(&mut out, r);
            if k == 0 { push_str_chars(&mut out, "/"); } else if k == 1 { push_str_chars(&mut out, "_"); } else { push_str_chars(&mut out, ".rs"); }
        },
    }
    Some(Ok(out))
}

/// Builds a name of the given kind from a class path, after `prefix`.
fn name_for_kind(kind: NameKind, class: Id, prefix: Vec<char>) -> (r: Result<String, EmitError>)
    ensures
        match build_name(kind, id_parts(class.0@), prefix@) {
            Ok(s) => r is Ok && r->Ok_0@ == s,
            Err(id) => r is Err && r->Err_0@ == EmitErrorModel::NoRustEquivalent(id),
        },
{
    let parts = class.iter();
    let ghost pm = parts_model(parts@);
    let mut buf = prefix;
    let mut i: usize = 0;
    proof { assert(pm.skip(0) =~= pm); }
    while i < parts.len()
        invariant
            i <= parts@.len(),
            pm == parts_model(parts@),
            pm == id_parts(class.0@),
            build_name(kind, pm, prefix@) == build_name(kind, pm.skip(i as int), buf@),
        decreases parts@.len() - i,
    {
        proof {
            assert(pm.skip(i as int)[0] == parts@[i as int].model());
            assert(pm.skip(i as int).skip(1) =~= pm.skip(i + 1));
        }
        match piece_of(&kind, parts[i]) {
            None => {},
            Some(Ok(t)) => {
                push_chars(&mut buf, t.as_slice());
            },
            Some(Err(e)) => {
                return Err(e);
            },
        }
        i = i + 1;
    }
    Ok(string_from_chars(buf.as_slice()))
}

/// A Java class and where it goes in the generated crate.
pub struct Struct {
    pub rust: StructPaths,
    pub java: crate::jar::Class,
}

impl Struct {
    /// The feature of a class (see `NameKind::Feature`).
    pub fn feature_for(_context: &Context, class: Id) -> (r: Result<String, EmitError>)
        ensures
            match build_name(NameKind::Feature, id_parts(class.0@), Seq::empty()) {
                Ok(s) => r is Ok && r->Ok_0@ == s,
                Err(id) => r is Err && r->Err_0@ == EmitErrorModel::NoRustEquivalent(id),
            },
    {
        name_for_kind(NameKind::Feature, class, Vec::new())
    }

    /// The module of a class: `crate`, then `::` and each package (see `NameKind::Module`).
    pub fn mod_for(_context: &Context, class: Id) -> (r: Result<String, EmitError>)
        ensures
            match build_name(NameKind::Module, id_parts(class.0@), "crate"@) {
                Ok(s) => r is Ok && r->Ok_0@ == s,
                Err(id) => r is Err && r->Err_0@ == EmitErrorModel::NoRustEquivalent(id),
            },
    {
        name_for_kind(NameKind::Module, class, chars_of("crate"))
    }

    /// The struct name of a class (see `NameKind::Struct`).
    pub fn name_for(_context: &Context, class: Id) -> (r: Result<String, EmitError>)
        ensures
            match build_name(NameKind::Struct, id_parts(class.0@), Seq::empty()) {
                Ok(s) => r is Ok && r->Ok_0@ == s,
                Err(id) => r is Err && r->Err_0@ == EmitErrorModel::NoRustEquivalent(id),
            },
    {
        name_for_kind(NameKind::Struct, class, Vec::new())
    }

    /// The file of a class: the output's file stem then `/` when it has one, then as
    /// `NameKind::File` says.
    pub fn sharded_path_for(context: &Context, class: Id) -> (r: Result<String, EmitError>)
        ensures
            match build_name(NameKind::File, id_parts(class.0@), sharded_prefix(context.config_spec().output_file_stem)) {
                Ok(s) => r is Ok && r->Ok_0@ == s,
                Err(id) => r is Err && r->Err_0@ == EmitErrorModel::NoRustEquivalent(id),
            },
    {
        let mut prefix: Vec<char> = Vec::new();
        match &context.config().output_file_stem {
            Some(stem) => {
                push_str_chars(&mut prefix, stem.as_str());
                prefix.push('/');
                proof { reveal_strlit("/"); assert(prefix@ =~= stem@ + "/"@); }
            },
            None => {},
        }
        name_for_kind(NameKind::File, class, prefix)
    }

    /// A class and where it goes.
    pub fn new(context: &Context, java: crate::jar::Class) -> (r: Result<Self, EmitError>)
        ensures
            match struct_paths_spec(context.config_spec().output_file_stem, java.path@) {
                Ok(p) => r is Ok && r->Ok_0.rust@ == p && r->Ok_0.java == java,
                Err(e) => r is Err && r->Err_0@ == e,
            },
    {
        let rust = StructPaths::new(context, Id(java.path.as_str()))?;
        Ok(Self { rust, java })
    }
}

/// The text a file path starts with: the output's file stem and `/`, if it has a stem.
pub open spec fn sharded_prefix(stem: Option<String>) -> Seq<char> {
    match stem {
        Some(s) => s@ + "/"@,
        None => Seq::empty(),
    }
}

/// Where a Java class goes in the generated crate.
#[derive(Debug, Clone)]
pub struct StructPaths {
    /// The module path, then `::`.
    pub mod_prefix: String,
    pub struct_name: String,
    pub feature_name: String,
    pub sharded_path: String,
}

/// The paths as character sequences.
pub struct StructPathsModel {
    pub mod_prefix: Seq<char>,
    pub struct_name: Seq<char>,
    pub feature_name: Seq<char>,
    pub sharded_path: Seq<char>,
}

impl View for StructPaths {
    type V = StructPathsModel;

    open spec fn view(&self) -> StructPathsModel {
        StructPathsModel {
            mod_prefix: self.mod_prefix@,
            struct_name: self.struct_name@,
            feature_name: self.feature_name@,
            sharded_path: self.sharded_path@,
        }
    }
}

/// The paths of a class: its module and `::`, struct name, feature and file, each as above; the
/// first of them that fails (in that order) gives the error.
pub open spec fn struct_paths_spec(stem: Option<String>, class: Seq<char>) -> Result<StructPathsModel, EmitErrorModel> {
    let parts = id_parts(class);
    match build_name(NameKind::Module, parts, "crate"@) {
        Err(id) => Err(EmitErrorModel::NoRustEquivalent(id)),
        Ok(m) => match build_name(NameKind::Struct, parts, Seq::empty()) {
            Err(id) => Err(EmitErrorModel::NoRustEquivalent(id)),
            Ok(n) => match build_name(NameKind::Feature, parts, Seq::empty()) {
                Err(id) => Err(EmitErrorModel::NoRustEquivalent(id)),
                Ok(f) => match build_name(NameKind::File, parts, sharded_prefix(stem)) {
                    Err(id) => Err(EmitErrorModel::NoRustEquivalent(id)),
                    Ok(p) => Ok(StructPathsModel { mod_prefix: m + "::"@, struct_name: n, feature_name: f, sharded_path: p }),
                },
            },
        },
    }
}

impl StructPaths {
    /// The module, struct name, feature and file of a class (see `struct_paths_spec`).
    pub fn new(context: &Context, class: Id) -> (r: Result<Self, EmitError>)
        ensures
            match struct_paths_spec(context.config_spec().output_file_stem, class.0@) {
                Ok(p) => r is Ok && r->Ok_0@ == p,
                Err(e) => r is Err && r->Err_0@ == e,
            },
    {
        let m = Struct::mod_for(context, class)?;
        let mut prefix = chars_of(m.as_str());
        push_str_chars(&mut prefix, "::");
        let struct_name = Struct::name_for(context, class)?;
        let feature_name = Struct::feature_for(context, class)?;
        let sharded_path = Struct::sharded_path_for(context, class)?;
        Ok(Self { mod_prefix: string_from_chars(prefix.as_slice()), struct_name, feature_name, sharded_path })
    }

    /// The modules below `crate` that the struct is in, when its module is in this crate.
    pub fn local_scope(&self) -> (r: Option<Vec<String>>)
        ensures
            match local_scope_spec(self.mod_prefix@) {
                Some(names) => r is Some && r->Some_0@.map_values(|s: String| s@) == names,
                None => r is None,
            },
    {
        let v = chars_of(self.mod_prefix.as_str());
        let pieces = split_double_colon_chars(v.as_slice());
        let ghost pm = pieces@.map_values(|p: Vec<char>| p@);
        let crate_word = chars_of("crate");
        if pieces.len() > 0 && chars_eq(pieces[0].as_slice(), crate_word.as_slice()) {
            let mut out: Vec<String> = Vec::new();
            let mut i: usize = 1;
            proof { assert(pm.subrange(1, 1) =~= Seq::<Seq<char>>::empty()); }
            while i < pieces.len()
                invariant
                    1 <= i <= pieces@.len(),
                    pm == pieces@.map_values(|p: Vec<char>| p@),
                    out@.map_values(|s: String| s@) == nonempty_only(pm.subrange(1, i as int)),
                decreases pieces@.len() - i,
            {
                let ghost before = out@.map_values(|s: String| s@);
                if pieces[i].len() > 0 {
                    out.push(string_from_chars(pieces[i].as_slice()));
                }
                proof {
                    let s = pm.subrange(1, i + 1);
                    assert(s.drop_last() =~= pm.subrange(1, i as int));
                    assert(s.last() == pm[i as int]);
                    assert(out@.map_values(|s: String| s@) =~= nonempty_only(s));
                }
                i = i + 1;
            }
            assert(pm.subrange(1, pm.len() as int) =~= pm.skip(1));
            Some(out)
        } else {
            None
        }
    }
}

/// The pieces of `s` between `::`s, looked for left to right (`str::split("::")`), the first
/// starting with `cur`.
pub open spec fn split_double_colon_from(s: Seq<char>, cur: Seq<char>) -> Seq<Seq<char>>
    decreases s.len(),
{
    if s.len() == 0 {
        seq![cur]
    } else if s.len() >= 2 && s[0] == ':' && s[1] == ':' {
        seq![cur] + split_double_colon_from(s.skip(2), Seq::empty())
    } else {
        split_double_colon_from(s.skip(1), cur.push(s[0]))
    }
}

/// The pieces that are not empty.
pub open spec fn nonempty_only(pieces: Seq<Seq<char>>) -> Seq<Seq<char>>
    decreases pieces.len(),
{
    if pieces.len() == 0 {
        Seq::empty()
    } else if pieces.last().len() > 0 {
        nonempty_only(pieces.drop_last()).push(pieces.last())
    } else {
        nonempty_only(pieces.drop_last())
    }
}

/// The modules below `crate` in a module prefix: its nonempty pieces after the first, when the
/// first is `crate`.
pub open spec fn local_scope_spec(mod_prefix: Seq<char>) -> Option<Seq<Seq<char>>> {
    let pieces = split_double_colon_from(mod_prefix, Seq::empty());
    if pieces.len() > 0 && pieces[0] == "crate"@ {
        Some(nonempty_only(pieces.skip(1)))
    } else {
        None
    }
}

/// The pieces of `v` between `::`s.
fn split_double_colon_chars(v: &[char]) -> (pieces: Vec<Vec<char>>)
    ensures
        pieces@.map_values(|p: Vec<char>| p@) == split_double_colon_from(v@, Seq::empty()),
{
    let mut pieces: Vec<Vec<char>> = Vec::new();
    let mut cur: Vec<char> = Vec::new();
    let mut i: usize = 0;
    proof { assert(v@.skip(0) =~= v@); }
    while i < v.len()
        invariant
            i <= v@.len(),
            split_double_colon_from(v@, Seq::empty())
                == pieces@.map_values(|p: Vec<char>| p@) + split_double_colon_from(v@.skip(i as int), cur@),
        decreases v@.len() - i,
    {
        let ghost before = pieces@.map_values(|p: Vec<char>| p@);
        let ghost t = v@.skip(i as int);
        if i + 1 < v.len() && v[i] == ':' && v[i + 1] == ':' {
            let ghost c = cur@;
            let mut done: Vec<char> = Vec::new();
            std::mem::swap(&mut done, &mut cur);
            pieces.push(done);
            proof {
                assert(t[0] == ':' && t[1] == ':');
                assert(t.skip(2) =~= v@.skip(i + 2));
                assert(pieces@.map_values(|p: Vec<char>| p@) =~= before.push(c));
                assert(before + (seq![c] + split_double_colon_from(v@.skip(i + 2), Seq::empty()))
                    =~= before.push(c) + split_double_colon_from(v@.skip(i + 2), Seq::empty()));
            }
            i = i + 2;
        } else {
            cur.push(v[i]);
            proof {
                assert(t[0] == v@[i as int]);
                assert(t.skip(1) =~= v@.skip(i + 1));
            }
            i = i + 1;
        }
    }
    proof {
        assert(v@.skip(i as int) =~= Seq::<char>::empty());
    }
    pieces.push(cur);
    proof {
        assert(pieces@.map_values(|p: Vec<char>| p@) =~= split_double_colon_from(v@, Seq::empty()));
    }
    pieces
}

} // verus!
