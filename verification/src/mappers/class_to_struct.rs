//! Which Rust struct stands for which Java class, across crates.

use vstd::prelude::*;
use crate::class::{id_parts, parts_model, Id, IdBuf, IdPart, IdPartModel};
use crate::identifiers::{is_identifier_continue, is_identifier_start, is_rust_identifier, rust_identifier_of, RustIdentifier, RustIdentifierModel};
use crate::assoc::{assoc_map, distinct_keys, lemma_assoc_dom, lemma_assoc_index, lemma_assoc_push, lemma_assoc_update};
use crate::text::{chars_of, push_chars, push_str_chars, str_eq, string_from_chars};

verus! {

// ---------------------------------------------------------------------------------------------
// Hexadecimal escapes

/// The lower case hexadecimal digit for `v` in `0..16`.
pub open spec fn hex_digit(v: int) -> char {
    if v < 10 { (('0' as int) + v) as char } else { (('a' as int) + v - 10) as char }
}

/// `v` in lower case hexadecimal, at least four digits (`format!("{:04x}", v)`).
pub open spec fn hex4(v: u32) -> Seq<char>
    decreases v,
{
    if v < 0x10000 {
        seq![hex_digit((v / 0x1000) as int), hex_digit((v / 0x100 % 16) as int), hex_digit((v / 0x10 % 16) as int), hex_digit((v % 16) as int)]
    } else {
        hex4(v / 16).push(hex_digit((v % 16) as int))
    }
}

fn hex_digit_char(v: u32) -> (c: char)
    requires
        v < 16,
    ensures
        c == hex_digit(v as int),
{
    if v < 10 {
        char_of_ascii(0x30 + v)
    } else {
        char_of_ascii(0x61 + v - 10)
    }
}

/// The ASCII character with code `v`.
fn char_of_ascii(v: u32) -> (c: char)
    requires
        v < 0x80,
    ensures
        c as int == v,
{
    let b = v as u8;
    b as char
}

/// Appends `hex4(v)` to `out`.
fn push_hex4(out: &mut Vec<char>, v: u32)
    ensures
        final(out)@ == old(out)@ + hex4(v),
    decreases v,
{
    if v < 0x10000 {
        out.push(hex_digit_char(v / 0x1000));
        out.push(hex_digit_char(v / 0x100 % 16));
        out.push(hex_digit_char(v / 0x10 % 16));
        out.push(hex_digit_char(v % 16));
        assert(final(out)@ =~= old(out)@ + hex4(v));
    } else {
        push_hex4(out, v / 16);
        out.push(hex_digit_char(v % 16));
        assert(final(out)@ =~= old(out)@ + hex4(v));
    }
}

// ---------------------------------------------------------------------------------------------
// Java class names to Rust names

/// What `jc2r_basic` gives: an identifier as is, a raw-safe keyword with `r#` before it, another
/// keyword with `_` after its categorized form; or, for a non-identifier, the text itself as the error.
pub open spec fn jc2r_basic_spec(id: Seq<char>) -> Result<Seq<char>, Seq<char>> {
    match rust_identifier_of(id) {
        RustIdentifierModel::Identifier(_) => Ok(id),
        RustIdentifierModel::KeywordRawSafe(_) => Ok("r#"@ + id),
        RustIdentifierModel::KeywordUnderscorePostfix(p) => Ok(p + "_"@),
        RustIdentifierModel::NonIdentifier(p) => Err(p),
    }
}

/// The escape of the first character of a name: itself if it may start an identifier, else `u`
/// and its code in hexadecimal.
pub open spec fn escape_first(c: char) -> Seq<char> {
    if is_identifier_start(c) { seq![c] } else { seq!['u'] + hex4(c as u32) }
}

/// The escape of a later character: itself if it may continue an identifier, else `_u` and its
/// code in hexadecimal.
pub open spec fn escape_rest(c: char) -> Seq<char> {
    if is_identifier_continue(c) { seq![c] } else { "_u"@ + hex4(c as u32) }
}

/// The escapes of the characters of `s`, each as a later character.
pub open spec fn escape_tail(s: Seq<char>) -> Seq<char>
    decreases s.len(),
{
    if s.len() == 0 { Seq::empty() } else { escape_tail(s.drop_last()) + escape_rest(s.last()) }
}

/// A name with every character that cannot stand in an identifier escaped.
pub open spec fn escaped(id: Seq<char>) -> Seq<char>
    recommends
        id.len() > 0,
{
    escape_first(id[0]) + escape_tail(id.skip(1))
}

/// The Rust name for one component of a Java class path.
pub open spec fn jc2r_spec(id: Seq<char>) -> Seq<char> {
    if id.len() == 0 {
        "_empty"@
    } else if id == "_"@ {
        "__"@
    } else {
        match jc2r_basic_spec(id) {
            Ok(r) => r,
            Err(_) => match jc2r_basic_spec("_"@ + id) {
                Ok(r) => r,
                Err(_) => {
                    let rusty = escaped(id);
                    match rust_identifier_of(rusty) {
                        RustIdentifierModel::KeywordRawSafe(_) => "r#"@ + id,
                        RustIdentifierModel::KeywordUnderscorePostfix(_) => rusty + "_"@,
                        _ => rusty,
                    }
                },
            },
        }
    }
}

/// The text one class path component adds to a Rust path.
pub open spec fn j2r_piece(part: IdPartModel) -> Seq<char> {
    match part {
        IdPartModel::Namespace(id) => jc2r_spec(id) + "::"@,
        IdPartModel::ContainingClass(id) => jc2r_spec(id) + "_"@,
        IdPartModel::LeafClass(id) => jc2r_spec(id),
    }
}

/// The Rust path for a Java class in crate `krate`: `krate::`, each package then `::`, each
/// containing class then `_`, then the class, each component through `jc2r_spec`.
pub open spec fn j2r_spec(krate: Seq<char>, parts: Seq<IdPartModel>) -> Seq<char>
    decreases parts.len(),
{
    if parts.len() == 0 {
        krate + "::"@
    } else {
        j2r_spec(krate, parts.drop_last()) + j2r_piece(parts.last())
    }
}

/// The escape of a hexadecimal code is made of identifier characters.
proof fn lemma_hex4_continue(v: u32)
    ensures
        forall|i: int| 0 <= i < hex4(v).len() ==> #[trigger] is_identifier_continue(hex4(v)[i]),
        hex4(v).len() >= 4,
    decreases v,
{
    if v >= 0x10000 {
        lemma_hex4_continue(v / 16);
    }
}

/// Every escaped later character is made of identifier characters.
proof fn lemma_escape_tail_continue(s: Seq<char>)
    ensures
        forall|i: int| 0 <= i < escape_tail(s).len() ==> #[trigger] is_identifier_continue(escape_tail(s)[i]),
        escape_tail(s).len() >= s.len(),
    decreases s.len(),
{
    reveal_strlit("_u");
    if s.len() > 0 {
        lemma_escape_tail_continue(s.drop_last());
        let c = s.last();
        if !is_identifier_continue(c) {
            lemma_hex4_continue(c as u32);
        }
        let t = escape_tail(s.drop_last());
        let e = escape_rest(c);
        assert forall|i: int| 0 <= i < escape_tail(s).len() implies #[trigger] is_identifier_continue(escape_tail(s)[i]) by {
            if i < t.len() {
                assert(escape_tail(s)[i] == t[i]);
            } else {
                assert(escape_tail(s)[i] == e[i - t.len()]);
            }
        }
    }
}

/// An escaped name (other than `_`) is an identifier.
pub proof fn lemma_escaped_is_identifier(id: Seq<char>)
    requires
        id.len() > 0,
        id != "_"@,
    ensures
        is_rust_identifier(escaped(id)),
{
    reveal_strlit("_");
    lemma_escape_tail_continue(id.skip(1));
    let f = escape_first(id[0]);
    let t = escape_tail(id.skip(1));
    let e = escaped(id);
    if !is_identifier_start(id[0]) {
        lemma_hex4_continue(id[0] as u32);
    }
    assert(e[0] == f[0]);
    assert forall|i: int| 1 <= i < e.len() implies #[trigger] is_identifier_continue(e[i]) by {
        if i < f.len() {
            assert(e[i] == f[i]);
        } else {
            assert(e[i] == t[i - f.len()]);
        }
    }
    if e == seq!['_'] {
        assert(f.len() == 1 && f[0] == '_');
        assert(id[0] == '_');
        assert(t.len() == 0);
        assert(id.skip(1).len() == 0);
        assert(id =~= "_"@);
    }
}

/// `jc2r_basic`: the Rust form of a name that is an identifier or a keyword, else the name as the error.
pub fn jc2r_basic(id: &str) -> (r: Result<String, &str>)
    ensures
        match jc2r_basic_spec(id@) {
            Ok(s) => r is Ok && r->Ok_0@ == s,
            Err(e) => r is Err && r->Err_0@ == e,
        },
{
    match RustIdentifier::from_str(id) {
        RustIdentifier::Identifier(_) => Ok(id.to_owned()),
        RustIdentifier::KeywordRawSafe(_) => {
            let mut v: Vec<char> = Vec::new();
            push_str_chars(&mut v, "r#");
            push_str_chars(&mut v, id);
            proof { reveal_strlit("r#"); }
            Ok(string_from_chars(v.as_slice()))
        },
        RustIdentifier::KeywordUnderscorePostfix(p) => {
            let mut v: Vec<char> = Vec::new();
            push_str_chars(&mut v, p);
            v.push('_');
            proof { reveal_strlit("_"); assert(v@ =~= p@ + "_"@); }
            Ok(string_from_chars(v.as_slice()))
        },
        RustIdentifier::NonIdentifier(p) => Err(p),
    }
}

/// The Rust name for one component of a Java class path: identifiers and keywords as
/// `jc2r_basic` gives them, else with `_` before them, else with each character that cannot
/// stand in an identifier escaped by its hexadecimal code.
pub fn jc2r(id: &str) -> (r: String)
    ensures
        r@ == jc2r_spec(id@),
{
    proof { reveal_strlit(""); reveal_strlit("_"); reveal_strlit("_empty"); reveal_strlit("__"); }
    if str_eq(id, "") {
        return "_empty".to_owned();
    }
    if str_eq(id, "_") {
        return "__".to_owned();
    }
    assert(id@.len() > 0 && id@ != "_"@) by {
        if id@.len() == 0 {
            assert(id@ =~= ""@);
        }
    }
    if let Ok(r) = jc2r_basic(id) {
        return r;
    }

    let chars = chars_of(id);
    let mut prefixed: Vec<char> = Vec::new();
    prefixed.push('_');
    push_chars(&mut prefixed, chars.as_slice());
    let prefixed = string_from_chars(prefixed.as_slice());
    assert(prefixed@ =~= "_"@ + id@);
    if let Ok(r) = jc2r_basic(prefixed.as_str()) {
        return r;
    }

    let mut rusty: Vec<char> = Vec::new();
    let c = chars[0];
    if c == '_' || ('a' <= c && c <= 'z') || ('A' <= c && c <= 'Z') {
        rusty.push(c);
    } else {
        rusty.push('u');
        push_hex4(&mut rusty, c as u32);
    }
    assert(rusty@ =~= escape_first(id@[0]));
    let mut i: usize = 1;
    while i < chars.len()
        invariant
            chars@ == id@,
            1 <= i <= chars@.len(),
            rusty@ == escape_first(id@[0]) + escape_tail(id@.subrange(1, i as int)),
        decreases chars@.len() - i,
    {
        let ghost before = rusty@;
        let ch = chars[i];
        if ch == '_' || ('a' <= ch && ch <= 'z') || ('A' <= ch && ch <= 'Z') || ('0' <= ch && ch <= '9') {
            rusty.push(ch);
        } else {
            rusty.push('_');
            rusty.push('u');
            push_hex4(&mut rusty, ch as u32);
        }
        proof {
            reveal_strlit("_u");
            let s = id@.subrange(1, i + 1);
            assert(s.drop_last() =~= id@.subrange(1, i as int));
            assert(rusty@ =~= before + escape_rest(ch));
        }
        i = i + 1;
    }
    assert(id@.subrange(1, chars@.len() as int) =~= id@.skip(1));
    let text = string_from_chars(rusty.as_slice());
    proof { lemma_escaped_is_identifier(id@); }
    match RustIdentifier::from_str(text.as_str()) {
        RustIdentifier::KeywordRawSafe(_) => {
            let mut v: Vec<char> = Vec::new();
            push_str_chars(&mut v, "r#");
            push_chars(&mut v, chars.as_slice());
            proof { reveal_strlit("r#"); }
            string_from_chars(v.as_slice())
        },
        RustIdentifier::KeywordUnderscorePostfix(_) => {
            rusty.push('_');
            proof { assert(rusty@ =~= escaped(id@) + "_"@); }
            string_from_chars(rusty.as_slice())
        },
        _ => text,
    }
}

/// The text one class path component adds to a Rust path.
fn j2r_part(part: IdPart) -> (piece: Vec<char>)
    ensures
        piece@ == j2r_piece(part.model()),
{
    proof { reveal_strlit("::"); reveal_strlit("_"); }
    let mut out: Vec<char> = Vec::new();
    match part {
        IdPart::Namespace(id) => {
            push_str_chars(&mut out, jc2r(id).as_str());
            push_str_chars(&mut out, "::");
        },
        IdPart::ContainingClass(id) => {
            push_str_chars(&mut out, jc2r(id).as_str());
            out.push('_');
            assert(out@ =~= jc2r_spec(id@) + "_"@);
        },
        IdPart::LeafClass(id) => {
            push_str_chars(&mut out, jc2r(id).as_str());
            assert(out@ =~= jc2r_spec(id@));
        },
    }
    out
}

/// The Rust path for a Java class in crate `krate` (see `j2r_spec`).
pub fn j2r(krate: &str, class: Id) -> (r: String)
    ensures
        r@ == j2r_spec(krate@, id_parts(class.0@)),
{
    let parts = class.iter();
    let mut out: Vec<char> = Vec::new();
    push_str_chars(&mut out, krate);
    push_str_chars(&mut out, "::");
    proof { reveal_strlit("::"); reveal_strlit("_"); }
    let mut i: usize = 0;
    while i < parts.len()
        invariant
            i <= parts@.len(),
            parts_model(parts@) == id_parts(class.0@),
            out@ == j2r_spec(krate@, parts_model(parts@).take(i as int)),
        decreases parts@.len() - i,
    {
        let ghost before = out@;
        let piece = j2r_part(parts[i]);
        push_chars(&mut out, piece.as_slice());
        proof {
            let m = parts_model(parts@);
            assert(m.take(i + 1).drop_last() =~= m.take(i as int));
            assert(m.take(i + 1).last() == parts@[i as int].model());
        }
        i = i + 1;
    }
    assert(parts_model(parts@).take(parts@.len() as int) =~= parts_model(parts@));
    string_from_chars(out.as_slice())
}

// ---------------------------------------------------------------------------------------------
// The class to struct map

/// Which of two Rust paths a class keeps when it is added a second time.
#[derive(Clone, Copy, Debug, PartialEq, Eq, Structural, PartialOrd, Ord, Hash)]
pub enum Resolve {
    /// Keep the path the class already has.
    Old,
    /// Take the path of the crate being added.
    New,
}

/// Decides conflicts while classes are added.  Its state determines each answer, and each
/// answer takes it to a next state.
pub trait Context: Sized {
    /// The answer the next conflict gets.
    spec fn next_answer(&self) -> Resolve;

    /// The state after answering.
    spec fn after_answer(&self) -> Self;

    /// Answers a conflict.
    fn on_conflict(&mut self) -> (r: Resolve)
        ensures
            r == old(self).next_answer(),
            *final(self) == old(self).after_answer();
}

impl<F> Context for (Resolve, F) {
    /// Always the first element.
    open spec fn next_answer(&self) -> Resolve {
        self.0
    }

    /// Unchanged.
    open spec fn after_answer(&self) -> Self {
        *self
    }

    /// Always the same answer.
    fn on_conflict(&mut self) -> (r: Resolve) {
        self.0
    }
}

/// The map after adding `classes` of crate `krate` one after another (see `add_class_spec`),
/// each class already in the map resolved by the next answer of `ctx`; with the state of `ctx`
/// after, and how many conflicts it answered.
pub open spec fn merge_classes<C: Context>(m: Map<Seq<char>, Seq<char>>, krate: Seq<char>, classes: Seq<Seq<char>>, ctx: C) -> (Map<Seq<char>, Seq<char>>, C, nat)
    decreases classes.len(),
{
    if classes.len() == 0 {
        (m, ctx, 0)
    } else {
        let (m1, c1, n) = merge_classes(m, krate, classes.drop_last(), ctx);
        let k = classes.last();
        if m1.dom().contains(k) {
            (add_class_spec(m1, krate, k, c1.next_answer()), c1.after_answer(), n + 1)
        } else {
            (add_class_spec(m1, krate, k, Resolve::New), c1, n)
        }
    }
}

/// The pairs as character sequences.
pub open spec fn pairs_model(v: Seq<(String, String)>) -> Seq<(Seq<char>, Seq<char>)> {
    v.map_values(|p: (String, String)| (p.0@, p.1@))
}

/// The map after adding one class of crate `krate`: a class not in the map gets the path `j2r`
/// gives it in `krate`; a class in the map keeps its path under `Resolve::Old` and takes that one
/// under `Resolve::New`.
pub open spec fn add_class_spec(m: Map<Seq<char>, Seq<char>>, krate: Seq<char>, class: Seq<char>, resolve: Resolve) -> Map<Seq<char>, Seq<char>> {
    if m.dom().contains(class) && resolve == Resolve::Old {
        m
    } else {
        m.insert(class, j2r_spec(krate, id_parts(class)))
    }
}

/// After a class is added it is in the map, and a class added for the first time maps to the
/// path of its crate.
pub proof fn law_added_class_found(m: Map<Seq<char>, Seq<char>>, krate: Seq<char>, class: Seq<char>, resolve: Resolve)
    ensures
        add_class_spec(m, krate, class, resolve).dom().contains(class),
        !m.dom().contains(class) ==> add_class_spec(m, krate, class, resolve)[class] == j2r_spec(krate, id_parts(class)),
{
}

/// Adding a class that is already in the map with `Resolve::Old` changes nothing: the first
/// crate to add a class keeps it.
pub proof fn law_old_resolution_keeps_first(m: Map<Seq<char>, Seq<char>>, krate1: Seq<char>, krate2: Seq<char>, class: Seq<char>)
    ensures
        add_class_spec(add_class_spec(m, krate1, class, Resolve::New), krate2, class, Resolve::Old)
            == add_class_spec(m, krate1, class, Resolve::New),
{
}

/// Maps Java classes to the Rust structs that stand for them.
pub struct ClassToStruct {
    remaps: Vec<(String, String)>,
}

impl View for ClassToStruct {
    type V = Map<Seq<char>, Seq<char>>;

    closed spec fn view(&self) -> Map<Seq<char>, Seq<char>> {
        assoc_map(pairs_model(self.remaps@))
    }
}

impl ClassToStruct {
    #[verifier::type_invariant]
    spec fn inv(self) -> bool {
        distinct_keys(pairs_model(self.remaps@))
    }

    /// An empty map.
    pub fn new() -> (r: Self)
        ensures
            r@ == Map::<Seq<char>, Seq<char>>::empty(),
    {
        let r = Self { remaps: Vec::new() };
        assert(pairs_model(r.remaps@) =~= Seq::empty());
        r
    }

    /// Where `class` stands in the list, if it does.
    fn find(&self, class: &str) -> (r: Option<usize>)
        ensures
            match r {
                Some(i) => i < self.remaps@.len() && self.remaps@[i as int].0@ == class@ && self@.dom().contains(class@),
                None => !self@.dom().contains(class@),
            },
    {
        proof { use_type_invariant(self); }
        let mut i: usize = 0;
        while i < self.remaps.len()
            invariant
                i <= self.remaps@.len(),
                forall|j: int| 0 <= j < i ==> #[trigger] self.remaps@[j].0@ != class@,
            decreases self.remaps@.len() - i,
        {
            if crate::text::str_eq(self.remaps[i].0.as_str(), class) {
                proof {
                    use_type_invariant(self);
                    lemma_assoc_index(pairs_model(self.remaps@), i as int);
                    assert(pairs_model(self.remaps@)[i as int].0 == class@);
                }
                return Some(i);
            }
            i = i + 1;
        }
        proof {
            let m = pairs_model(self.remaps@);
            lemma_assoc_dom(m, class@);
            if self@.dom().contains(class@) {
                let j = choose|j: int| 0 <= j < m.len() && #[trigger] m[j].0 == class@;
                assert(self.remaps@[j].0@ == m[j].0);
            }
        }
        None
    }

    /// The Rust struct for a Java class, if one was added.
    pub fn get(&self, id: &Id) -> (r: Option<&str>)
        ensures
            match r {
                Some(s) => self@.dom().contains(id.0@) && s@ == self@[id.0@],
                None => !self@.dom().contains(id.0@),
            },
    {
        proof { use_type_invariant(self); }
        match self.find(id.0) {
            Some(i) => {
                proof {
                    let m = pairs_model(self.remaps@);
                    lemma_assoc_index(m, i as int);
                    assert(m[i as int].0 == id.0@);
                }
                Some(self.remaps[i].1.as_str())
            },
            None => None,
        }
    }

    /// Adds one class of crate `krate`: a class not in the map gets the path `j2r` gives it in
    /// `krate`; a class in the map keeps its path under `Resolve::Old` and takes that one under
    /// `Resolve::New`.
    pub fn add_class(&mut self, krate: &str, class: IdBuf, resolve: Resolve)
        ensures
            final(self)@ == add_class_spec(old(self)@, krate@, class.0@, resolve),
    {
        proof { use_type_invariant(&*self); }
        let path = j2r(krate, class.as_id());
        match self.find(class.0.as_str()) {
            Some(i) => {
                if resolve == Resolve::New {
                    let mut remaps: Vec<(String, String)> = Vec::new();
                    std::mem::swap(&mut remaps, &mut self.remaps);
                    let ghost before = pairs_model(remaps@);
                    let key = remaps[i].0.clone();
                    remaps.set(i, (key, path));
                    proof {
                        assert(pairs_model(remaps@) =~= before.update(i as int, (before[i as int].0, path@)));
                        lemma_assoc_update(before, i as int, path@);
                    }
                    self.remaps = remaps;
                } else {
                    proof {
                        let m = pairs_model(self.remaps@);
                        lemma_assoc_index(m, i as int);
                    }
                }
            },
            None => {
                let mut remaps: Vec<(String, String)> = Vec::new();
                    std::mem::swap(&mut remaps, &mut self.remaps);
                let ghost before = pairs_model(remaps@);
                let IdBuf(key) = class;
                remaps.push((key, path));
                proof {
                    assert(pairs_model(remaps@) =~= before.push((key@, path@)));
                    lemma_assoc_push(before, key@, path@);
                }
                self.remaps = remaps;
            },
        }
    }

    /// Adds the classes of crate `krate` in order; for a class already in the map, `context`
    /// is asked once and decides which path it keeps (see `merge_classes`).  Every class added is
    /// in the map after, a new one with the path `j2r` gives it in `krate`; classes not among them
    /// keep their paths.
    pub fn add_crate_classes<C: Context>(&mut self, context: &mut C, krate: &str, classes: Vec<IdBuf>)
        ensures
            final(self)@ == merge_classes(old(self)@, krate@, classes@.map_values(|c: IdBuf| c.0@), *old(context)).0,
            *final(context) == merge_classes(old(self)@, krate@, classes@.map_values(|c: IdBuf| c.0@), *old(context)).1,
            final(self)@.dom() == old(self)@.dom() + classes@.map_values(|c: IdBuf| c.0@).to_set(),
            forall|k: Seq<char>| old(self)@.dom().contains(k) && !classes@.map_values(|c: IdBuf| c.0@).contains(k)
                ==> #[trigger] final(self)@[k] == old(self)@[k],
            forall|k: Seq<char>| !old(self)@.dom().contains(k) && classes@.map_values(|c: IdBuf| c.0@).contains(k)
                ==> #[trigger] final(self)@[k] == j2r_spec(krate@, id_parts(k)),
            forall|k: Seq<char>| old(self)@.dom().contains(k) && classes@.map_values(|c: IdBuf| c.0@).contains(k)
                ==> #[trigger] final(self)@[k] == old(self)@[k] || final(self)@[k] == j2r_spec(krate@, id_parts(k)),
    {
        let ghost names = classes@.map_values(|c: IdBuf| c.0@);
        let mut i: usize = 0;
        let mut classes = classes;
        let ghost all = classes@;
        while i < classes.len()
            invariant
                classes@ == all,
                names == all.map_values(|c: IdBuf| c.0@),
                i <= all.len(),
                self@.dom() == old(self)@.dom() + names.take(i as int).to_set(),
                forall|k: Seq<char>| old(self)@.dom().contains(k) && !names.take(i as int).contains(k)
                    ==> #[trigger] self@[k] == old(self)@[k],
                forall|k: Seq<char>| !old(self)@.dom().contains(k) && names.take(i as int).contains(k)
                    ==> #[trigger] self@[k] == j2r_spec(krate@, id_parts(k)),
                forall|k: Seq<char>| old(self)@.dom().contains(k) && names.take(i as int).contains(k)
                    ==> #[trigger] self@[k] == old(self)@[k] || self@[k] == j2r_spec(krate@, id_parts(k)),
                self@ == merge_classes(old(self)@, krate@, names.take(i as int), *old(context)).0,
                *context == merge_classes(old(self)@, krate@, names.take(i as int), *old(context)).1,
            decreases all.len() - i,
        {
            let class = IdBuf(classes[i].0.clone());
            let ghost ctx0 = *context;
            let conflict = self.find(class.0.as_str()).is_some();
            let resolve = if conflict {
                context.on_conflict()
            } else {
                Resolve::New
            };
            assert(conflict ==> *context == ctx0.after_answer() && resolve == ctx0.next_answer());
            assert(!conflict ==> *context == ctx0);
            let ghost before = self@;
            let ghost key = class.0@;
            assert(key == names[i as int]);
            self.add_class(krate, class, resolve);
            proof {
                let k0 = names[i as int];
                assert(names.take(i + 1).drop_last() =~= names.take(i as int));
                assert(names.take(i + 1).last() == k0);
                let prev = merge_classes(old(self)@, krate@, names.take(i as int), *old(context));
                assert(prev.0 == before && prev.1 == ctx0);
                assert(conflict == before.dom().contains(k0));
                let next = merge_classes(old(self)@, krate@, names.take(i + 1), *old(context));
                assert(next.1 == (if before.dom().contains(k0) { ctx0.after_answer() } else { ctx0 }));
                assert(*context == next.1);
                assert(names.take(i + 1) =~= names.take(i as int).push(k0));
                assert forall|k: Seq<char>| names.take(i + 1).contains(k) <==> names.take(i as int).contains(k) || k == k0 by {
                    if names.take(i + 1).contains(k) {
                        let j = choose|j: int| 0 <= j < i + 1 && #[trigger] names.take(i + 1)[j] == k;
                        if j < i {
                            assert(names.take(i as int)[j] == k);
                        }
                    }
                    if names.take(i as int).contains(k) {
                        let j = choose|j: int| 0 <= j < i && #[trigger] names.take(i as int)[j] == k;
                        assert(names.take(i + 1)[j] == k);
                    }
                    if k == k0 {
                        assert(names.take(i + 1)[i as int] == k);
                    }
                }
                assert(self@.dom() =~= before.dom().insert(k0));
                assert forall|k: Seq<char>| old(self)@.dom().contains(k) && !names.take(i + 1).contains(k)
                    implies #[trigger] self@[k] == old(self)@[k] by {
                    assert(names.take(i + 1)[i as int] == k0);
                    assert(k != k0);
                    assert(!names.take(i as int).contains(k));
                    assert(self@[k] == before[k]);
                }
                assert forall|k: Seq<char>| !old(self)@.dom().contains(k) && names.take(i + 1).contains(k)
                    implies #[trigger] self@[k] == j2r_spec(krate@, id_parts(k)) by {
                    if k != k0 {
                        assert(names.take(i as int).contains(k));
                        assert(self@[k] == before[k]);
                    } else if before.dom().contains(k0) {
                        assert(names.take(i as int).contains(k));
                    }
                }
                assert forall|k: Seq<char>| old(self)@.dom().contains(k) && names.take(i + 1).contains(k)
                    implies #[trigger] self@[k] == old(self)@[k] || self@[k] == j2r_spec(krate@, id_parts(k)) by {
                    if k != k0 {
                        assert(names.take(i as int).contains(k));
                        assert(self@[k] == before[k]);
                    } else if !names.take(i as int).contains(k) {
                        assert(before[k] == old(self)@[k]);
                    }
                }
                assert forall|k: Seq<char>| #[trigger] self@.dom().contains(k)
                    == (old(self)@.dom() + names.take(i + 1).to_set()).contains(k) by {
                    assert(names.take(i + 1).to_set().contains(k) == names.take(i + 1).contains(k));
                    assert(names.take(i as int).to_set().contains(k) == names.take(i as int).contains(k));
                }
                assert(self@.dom() =~= old(self)@.dom() + names.take(i + 1).to_set());
            }
            i = i + 1;
        }
        assert(names.take(all.len() as int) =~= names);
    }
}

} // verus!
