//! Runtime configuration.  By design, this is mostly opaque: create it from a configuration file.

use vstd::prelude::*;
use crate::assoc::{assoc_map, distinct_keys, lemma_assoc_dom, lemma_assoc_index, lemma_assoc_push, lemma_assoc_update};
use crate::config::toml::{CodeGen, DocumentationPattern, FileWithContext, Ignore, Rename};
use crate::text::{chars_of, find_char, find_char_from, lemma_find_char, push_chars, push_str_chars, str_eq, string_from_chars};

verus! {

// ---------------------------------------------------------------------------------------------
// Sets and maps of strings

/// A set of strings.
pub struct StringSet {
    items: Vec<String>,
}

impl View for StringSet {
    type V = Set<Seq<char>>;

    closed spec fn view(&self) -> Set<Seq<char>> {
        Set::new(|x: Seq<char>| exists|i: int| 0 <= i < self.items@.len() && #[trigger] self.items@[i]@ == x)
    }
}

impl StringSet {
    /// The empty set.
    pub fn new() -> (s: Self)
        ensures
            s@ == Set::<Seq<char>>::empty(),
    {
        let s = Self { items: Vec::new() };
        assert(s@ =~= Set::<Seq<char>>::empty());
        s
    }

    /// Whether `item` is in the set.
    pub fn contains(&self, item: &str) -> (r: bool)
        ensures
            r == self@.contains(item@),
    {
        let mut i: usize = 0;
        while i < self.items.len()
            invariant
                i <= self.items@.len(),
                forall|j: int| 0 <= j < i ==> #[trigger] self.items@[j]@ != item@,
            decreases self.items@.len() - i,
        {
            if str_eq(self.items[i].as_str(), item) {
                assert(self.items@[i as int]@ == item@);
                return true;
            }
            i = i + 1;
        }
        false
    }

    /// Adds `item`.
    pub fn insert(&mut self, item: String)
        ensures
            final(self)@ == old(self)@.insert(item@),
    {
        let ghost before = self.items@;
        self.items.push(item);
        proof {
            let after = self.items@;
            assert(after[before.len() as int] == item);
            assert forall|x: Seq<char>| final(self)@.contains(x) <==> old(self)@.insert(item@).contains(x) by {
                if final(self)@.contains(x) {
                    let i = choose|i: int| 0 <= i < after.len() && #[trigger] after[i]@ == x;
                    if i < before.len() {
                        assert(before[i] == after[i]);
                    }
                }
                if old(self)@.contains(x) {
                    let i = choose|i: int| 0 <= i < before.len() && #[trigger] before[i]@ == x;
                    assert(after[i] == before[i]);
                }
            }
            assert(final(self)@ =~= old(self)@.insert(item@));
        }
    }
}

/// The pairs as character sequences.
pub open spec fn string_pairs(v: Seq<(String, String)>) -> Seq<(Seq<char>, Seq<char>)> {
    v.map_values(|p: (String, String)| (p.0@, p.1@))
}

/// A map from strings to strings.
pub struct StringMap {
    pairs: Vec<(String, String)>,
}

impl View for StringMap {
    type V = Map<Seq<char>, Seq<char>>;

    closed spec fn view(&self) -> Map<Seq<char>, Seq<char>> {
        assoc_map(string_pairs(self.pairs@))
    }
}

impl StringMap {
    #[verifier::type_invariant]
    spec fn inv(self) -> bool {
        distinct_keys(string_pairs(self.pairs@))
    }

    /// The empty map.
    pub fn new() -> (m: Self)
        ensures
            m@ == Map::<Seq<char>, Seq<char>>::empty(),
    {
        let m = Self { pairs: Vec::new() };
        assert(string_pairs(m.pairs@) =~= Seq::empty());
        m
    }

    fn find(&self, key: &str) -> (r: Option<usize>)
        ensures
            match r {
                Some(i) => i < self.pairs@.len() && self.pairs@[i as int].0@ == key@,
                None => !self@.dom().contains(key@),
            },
    {
        let mut i: usize = 0;
        while i < self.pairs.len()
            invariant
                i <= self.pairs@.len(),
                forall|j: int| 0 <= j < i ==> #[trigger] self.pairs@[j].0@ != key@,
            decreases self.pairs@.len() - i,
        {
            if str_eq(self.pairs[i].0.as_str(), key) {
                return Some(i);
            }
            i = i + 1;
        }
        proof {
            let m = string_pairs(self.pairs@);
            lemma_assoc_dom(m, key@);
            if self@.dom().contains(key@) {
                let j = choose|j: int| 0 <= j < m.len() && #[trigger] m[j].0 == key@;
                assert(self.pairs@[j].0@ == m[j].0);
            }
        }
        None
    }

    /// The value for `key`, if there is one.
    pub fn get(&self, key: &str) -> (r: Option<&str>)
        ensures
            match r {
                Some(v) => self@.dom().contains(key@) && v@ == self@[key@],
                None => !self@.dom().contains(key@),
            },
    {
        proof { use_type_invariant(self); }
        match self.find(key) {
            Some(i) => {
                proof {
                    let m = string_pairs(self.pairs@);
                    lemma_assoc_index(m, i as int);
                    assert(m[i as int].0 == key@);
                }
                Some(self.pairs[i].1.as_str())
            },
            None => None,
        }
    }

    /// Sets the value for `key`, replacing any earlier one.
    pub fn insert(&mut self, key: String, value: String)
        ensures
            final(self)@ == old(self)@.insert(key@, value@),
    {
        proof { use_type_invariant(&*self); }
        let found = self.find(key.as_str());
        let mut pairs: Vec<(String, String)> = Vec::new();
        std::mem::swap(&mut pairs, &mut self.pairs);
        let ghost before = string_pairs(pairs@);
        match found {
            Some(i) => {
                let k = pairs[i].0.clone();
                pairs.set(i, (k, value));
                proof {
                    assert(string_pairs(pairs@) =~= before.update(i as int, (before[i as int].0, value@)));
                    lemma_assoc_update(before, i as int, value@);
                }
            },
            None => {
                pairs.push((key, value));
                proof {
                    assert(string_pairs(pairs@) =~= before.push((key@, value@)));
                    lemma_assoc_push(before, key@, value@);
                }
            },
        }
        self.pairs = pairs;
    }
}

// ---------------------------------------------------------------------------------------------
// Ignore and rename rules

/// What an ignore or rename rule applies to.
#[derive(Clone, Copy, Debug, PartialEq, Eq, Structural)]
pub enum RuleKind {
    Class,
    Field,
    Method,
    MethodSignature,
}

/// The separator between the parts of a rule's key (ASCII unit separator).
pub open spec fn unit_separator() -> Seq<char> {
    seq!['\x1f']
}

/// What a rule applies to and its key: `class\x1fmethod\x1fsignature` for a method with a
/// signature, `class\x1fmethod` for a method, `class\x1ffield` for a field, else the class.
pub open spec fn rule_key(class: Seq<char>, field: Option<Seq<char>>, method: Option<Seq<char>>, signature: Option<Seq<char>>) -> (RuleKind, Seq<char>) {
    match method {
        Some(m) => match signature {
            Some(s) => (RuleKind::MethodSignature, class + unit_separator() + m + unit_separator() + s),
            None => (RuleKind::Method, class + unit_separator() + m),
        },
        None => match field {
            Some(f) => (RuleKind::Field, class + unit_separator() + f),
            None => (RuleKind::Class, class),
        },
    }
}

/// An optional string taken as characters.
pub open spec fn opt_chars(o: Option<String>) -> Option<Seq<char>> {
    match o {
        Some(s) => Some(s@),
        None => None,
    }
}

/// The rule an ignore entry makes.
pub open spec fn ignore_rule(i: Ignore) -> (RuleKind, Seq<char>) {
    rule_key(i.class@, opt_chars(i.field), opt_chars(i.method), opt_chars(i.signature))
}

/// The rule a rename entry makes.
pub open spec fn rename_rule(r: Rename) -> (RuleKind, Seq<char>) {
    rule_key(r.class@, opt_chars(r.field), opt_chars(r.method), opt_chars(r.signature))
}

/// The keys of the ignore entries of one kind.
pub open spec fn ignore_set(ignores: Seq<Ignore>, kind: RuleKind) -> Set<Seq<char>>
    decreases ignores.len(),
{
    if ignores.len() == 0 {
        Set::empty()
    } else {
        let rest = ignore_set(ignores.drop_last(), kind);
        let (k, key) = ignore_rule(ignores.last());
        if k == kind { rest.insert(key) } else { rest }
    }
}

/// The renames of one kind, a later entry for a key over an earlier one.
pub open spec fn rename_map(renames: Seq<Rename>, kind: RuleKind) -> Map<Seq<char>, Seq<char>>
    decreases renames.len(),
{
    if renames.len() == 0 {
        Map::empty()
    } else {
        let rest = rename_map(renames.drop_last(), kind);
        let (k, key) = rename_rule(renames.last());
        if k == kind { rest.insert(key, renames.last().to@) } else { rest }
    }
}

/// The key of a rule and its kind.
fn make_rule_key(class: &str, field: &Option<String>, method: &Option<String>, signature: &Option<String>) -> (r: (RuleKind, String))
    ensures
        (r.0, r.1@) == rule_key(class@, opt_chars(*field), opt_chars(*method), opt_chars(*signature)),
{
    let mut key: Vec<char> = Vec::new();
    push_str_chars(&mut key, class);
    let kind = match method {
        Some(m) => {
            key.push('\x1f');
            push_str_chars(&mut key, m.as_str());
            match signature {
                Some(s) => {
                    key.push('\x1f');
                    push_str_chars(&mut key, s.as_str());
                    RuleKind::MethodSignature
                },
                None => RuleKind::Method,
            }
        },
        None => match field {
            Some(f) => {
                key.push('\x1f');
                push_str_chars(&mut key, f.as_str());
                RuleKind::Field
            },
            None => RuleKind::Class,
        },
    };
    let s = string_from_chars(key.as_slice());
    proof {
        let (k, t) = rule_key(class@, opt_chars(*field), opt_chars(*method), opt_chars(*signature));
        assert(s@ =~= t);
    }
    (kind, s)
}

// ---------------------------------------------------------------------------------------------
// Environment variables in paths

/// The pieces of `s` between `%`s (`str::split('%')`).
pub open spec fn split_percent(s: Seq<char>) -> Seq<Seq<char>>
    decreases s.len(),
{
    match find_char(s, '%') {
        Some(i) => if 0 <= i < s.len() { seq![s.take(i)] + split_percent(s.skip(i + 1)) } else { seq![s] },
        None => seq![s],
    }
}

/// The pieces at odd positions: the names of variables.
pub open spec fn odd_pieces(pieces: Seq<Seq<char>>) -> Seq<Seq<char>>
    decreases pieces.len(),
{
    if pieces.len() < 2 {
        Seq::empty()
    } else {
        seq![pieces[1]] + odd_pieces(pieces.skip(2))
    }
}

/// The pieces joined again, each variable piece replaced by its value, or kept between `%`s
/// when it has none.
pub open spec fn expand_pieces(pieces: Seq<Seq<char>>, values: Seq<Option<Seq<char>>>) -> Seq<char>
    decreases pieces.len(),
{
    if pieces.len() == 0 {
        Seq::empty()
    } else if pieces.len() == 1 {
        pieces[0]
    } else {
        pieces[0] + match values[0] {
            Some(v) => v,
            None => seq!['%'] + pieces[1] + seq!['%'],
        } + expand_pieces(pieces.skip(2), values.skip(1))
    }
}

/// The pieces of `v` between `%`s.
fn split_percent_chars(v: &[char]) -> (pieces: Vec<Vec<char>>)
    ensures
        pieces@.map_values(|p: Vec<char>| p@) == split_percent(v@),
    decreases v@.len(),
{
    match find_char_from(v, 0, '%') {
        Some(i) => {
            proof { assert(v@.skip(0) =~= v@); lemma_find_char(v@, '%'); }
            let mut head: Vec<char> = Vec::new();
            push_chars(&mut head, vstd::slice::slice_subrange(v, 0, i));
            assert(i < v.len());
            let tail = vstd::slice::slice_subrange(v, i + 1, v.len());
            assert(tail@ =~= v@.skip(i + 1));
            let rest = split_percent_chars(tail);
            let mut pieces: Vec<Vec<char>> = Vec::new();
            pieces.push(head);
            let ghost restm = rest@.map_values(|p: Vec<char>| p@);
            let mut j: usize = 0;
            while j < rest.len()
                invariant
                    j <= rest@.len(),
                    restm == rest@.map_values(|p: Vec<char>| p@),
                    pieces@.len() == j + 1,
                    pieces@[0]@ == v@.take(i as int),
                    forall|k: int| 1 <= k <= j ==> #[trigger] pieces@[k]@ == restm[k - 1],
                decreases rest@.len() - j,
            {
                let mut piece: Vec<char> = Vec::new();
                push_chars(&mut piece, rest[j].as_slice());
                pieces.push(piece);
                j = j + 1;
            }
            assert(pieces@.map_values(|p: Vec<char>| p@) =~= seq![v@.take(i as int)] + restm);
            pieces
        },
        None => {
            proof { assert(v@.skip(0) =~= v@); }
            let mut pieces: Vec<Vec<char>> = Vec::new();
            let mut whole: Vec<char> = Vec::new();
            push_chars(&mut whole, v);
            pieces.push(whole);
            assert(pieces@.map_values(|p: Vec<char>| p@) =~= seq![v@]);
            pieces
        },
    }
}

/// The names of the variables in a path: the pieces between the first and second `%`, the third
/// and fourth, and so on.
pub fn vars_in(s: &str) -> (names: Vec<String>)
    ensures
        names@.map_values(|n: String| n@) == odd_pieces(split_percent(s@)),
{
    let v = chars_of(s);
    let pieces = split_percent_chars(v.as_slice());
    let ghost pm = pieces@.map_values(|p: Vec<char>| p@);
    let mut names: Vec<String> = Vec::new();
    let mut i: usize = 1;
    assert(pm.skip(0) =~= pm);
    assert(Seq::<Seq<char>>::empty() + odd_pieces(pm) =~= odd_pieces(pm));
    while i < pieces.len()
        invariant
            1 <= i <= pieces@.len() + 1,
            i % 2 == 1,
            pm == pieces@.map_values(|p: Vec<char>| p@),
            odd_pieces(pm) == names@.map_values(|n: String| n@) + odd_pieces(pm.skip(i - 1)),
        decreases pieces@.len() + 1 - i,
    {
        let ghost before = names@.map_values(|n: String| n@);
        names.push(string_from_chars(pieces[i].as_slice()));
        proof {
            let t = pm.skip(i - 1);
            assert(t[1] == pm[i as int]);
            assert(t.skip(2) =~= pm.skip(i + 1));
            assert(names@.map_values(|n: String| n@) =~= before.push(pm[i as int]));
            assert(before + (seq![pm[i as int]] + odd_pieces(pm.skip(i + 1)))
                =~= before.push(pm[i as int]) + odd_pieces(pm.skip(i + 1)));
        }
        i = i + 2;
    }
    proof {
        assert(pm.skip(i - 1).len() < 2);
        assert(names@.map_values(|n: String| n@) + Seq::<Seq<char>>::empty() =~= names@.map_values(|n: String| n@));
    }
    names
}

/// A path with its variables expanded: `values` holds the value of each variable that `vars_in`
/// names, in order, or `None` for one that is not set, which is kept as `%NAME%`.  A path with
/// an odd number of `%`s cannot be expanded.
pub fn expand_vars(s: &str, values: &[Option<String>]) -> (r: String)
    requires
        split_percent(s@).len() % 2 == 1,
        values@.len() == odd_pieces(split_percent(s@)).len(),
    ensures
        r@ == expand_pieces(split_percent(s@), values@.map_values(|o: Option<String>| opt_chars(o))),
{
    let v = chars_of(s);
    let pieces = split_percent_chars(v.as_slice());
    let ghost pm = pieces@.map_values(|p: Vec<char>| p@);
    let ghost vm = values@.map_values(|o: Option<String>| opt_chars(o));
    let mut out: Vec<char> = Vec::new();
    let mut i: usize = 0;
    let mut k: usize = 0;
    proof {
        assert(pm.skip(0) =~= pm);
        assert(vm.skip(0) =~= vm);
        lemma_odd_pieces_len(pm);
    }
    while i + 1 < pieces.len()
        invariant
            i % 2 == 0,
            k == i / 2,
            i < pieces@.len(),
            pieces@.len() % 2 == 1,
            pm == pieces@.map_values(|p: Vec<char>| p@),
            vm == values@.map_values(|o: Option<String>| opt_chars(o)),
            values@.len() == (pieces@.len() - 1) / 2,
            expand_pieces(pm, vm) == out@ + expand_pieces(pm.skip(i as int), vm.skip(k as int)),
        decreases pieces@.len() - i,
    {
        let ghost before = out@;
        push_chars(&mut out, pieces[i].as_slice());
        match &values[k] {
            Some(value) => {
                push_str_chars(&mut out, value.as_str());
            },
            None => {
                out.push('%');
                push_chars(&mut out, pieces[i + 1].as_slice());
                out.push('%');
            },
        }
        proof {
            let t = pm.skip(i as int);
            assert(t[0] == pm[i as int]);
            assert(t[1] == pm[i + 1]);
            assert(t.skip(2) =~= pm.skip(i + 2));
            assert(vm.skip(k as int)[0] == vm[k as int]);
            assert(vm.skip(k as int).skip(1) =~= vm.skip(k + 1));
            let mid = match vm[k as int] { Some(x) => x, None => seq!['%'] + pm[i + 1] + seq!['%'] };
            assert(out@ =~= before + pm[i as int] + mid);
            assert(before + (pm[i as int] + mid + expand_pieces(pm.skip(i + 2), vm.skip(k + 1)))
                =~= out@ + expand_pieces(pm.skip(i + 2), vm.skip(k + 1)));
        }
        i = i + 2;
        k = k + 1;
    }
    push_chars(&mut out, pieces[i].as_slice());
    proof {
        assert(pm.skip(i as int).len() == 1);
        assert(out@ =~= expand_pieces(pm, vm));
    }
    string_from_chars(out.as_slice())
}

/// There is a name for every second piece.
proof fn lemma_odd_pieces_len(pieces: Seq<Seq<char>>)
    ensures
        odd_pieces(pieces).len() == pieces.len() / 2,
    decreases pieces.len(),
{
    if pieces.len() >= 2 {
        lemma_odd_pieces_len(pieces.skip(2));
    }
}

// ---------------------------------------------------------------------------------------------
// The runtime configuration

/// Where the documentation of the classes under a JNI prefix is.
#[derive(Clone, Debug)]
pub struct DocPattern {
    pub class_url_pattern: String,
    pub method_url_pattern: Option<String>,
    pub constructor_url_pattern: Option<String>,
    pub field_url_pattern: Option<String>,
    pub jni_prefix: String,
    pub class_namespace_separator: String,
    pub class_inner_class_seperator: String,
    pub argument_namespace_separator: String,
    pub argument_inner_class_seperator: String,
    pub argument_seperator: String,
}

impl DocPattern {
    /// The pattern a `[[documentation.pattern]]` entry gives, field for field.
    pub fn from(file: DocumentationPattern) -> (p: Self)
        ensures
            p.class_url_pattern == file.class_url_pattern,
            p.method_url_pattern == file.method_url_pattern,
            p.constructor_url_pattern == file.constructor_url_pattern,
            p.field_url_pattern == file.field_url_pattern,
            p.jni_prefix == file.jni_prefix,
            p.class_namespace_separator == file.class_namespace_separator,
            p.class_inner_class_seperator == file.class_inner_class_seperator,
            p.argument_namespace_separator == file.argument_namespace_separator,
            p.argument_inner_class_seperator == file.argument_inner_class_seperator,
            p.argument_seperator == file.argument_seperator,
    {
        Self {
            class_url_pattern: file.class_url_pattern,
            method_url_pattern: file.method_url_pattern,
            constructor_url_pattern: file.constructor_url_pattern,
            field_url_pattern: file.field_url_pattern,
            jni_prefix: file.jni_prefix,
            class_namespace_separator: file.class_namespace_separator,
            class_inner_class_seperator: file.class_inner_class_seperator,
            argument_namespace_separator: file.argument_namespace_separator,
            argument_inner_class_seperator: file.argument_inner_class_seperator,
            argument_seperator: file.argument_seperator,
        }
    }
}

/// Runtime configuration.  Create from a configuration file.
pub struct Config {
    pub codegen: CodeGen,
    pub doc_patterns: Vec<DocPattern>,
    pub input_files: Vec<String>,
    pub output_path: String,
    pub output_dir: String,
    /// The name of the output file without its extension (`Path::file_stem`), if it has one.
    pub output_file_stem: Option<String>,
    pub logging_verbose: bool,

    pub ignore_classes: StringSet,
    pub ignore_class_fields: StringSet,
    pub ignore_class_methods: StringSet,
    pub ignore_class_method_sigs: StringSet,

    pub rename_classes: StringMap,
    pub rename_class_fields: StringMap,
    pub rename_class_methods: StringMap,
    pub rename_class_method_sigs: StringMap,
}

impl Config {
    /// The configuration a file gives.  The input files and the output path are given already
    /// resolved (their variables expanded by `expand_vars`, and made absolute against the file's
    /// directory), with the directory and the file stem of the output path.
    pub fn from_file(
        fwc: FileWithContext,
        input_files: Vec<String>,
        output_path: String,
        output_dir: String,
        output_file_stem: Option<String>,
    ) -> (c: Self)
        ensures
            c.codegen == fwc.file.codegen,
            c.doc_patterns@.len() == fwc.file.documentation.patterns@.len(),
            forall|i: int| 0 <= i < c.doc_patterns@.len() ==> #[trigger] c.doc_patterns@[i].class_url_pattern == fwc.file.documentation.patterns@[i].class_url_pattern
                && c.doc_patterns@[i].method_url_pattern == fwc.file.documentation.patterns@[i].method_url_pattern
                && c.doc_patterns@[i].constructor_url_pattern == fwc.file.documentation.patterns@[i].constructor_url_pattern
                && c.doc_patterns@[i].field_url_pattern == fwc.file.documentation.patterns@[i].field_url_pattern
                && c.doc_patterns@[i].jni_prefix == fwc.file.documentation.patterns@[i].jni_prefix
                && c.doc_patterns@[i].class_namespace_separator == fwc.file.documentation.patterns@[i].class_namespace_separator
                && c.doc_patterns@[i].class_inner_class_seperator == fwc.file.documentation.patterns@[i].class_inner_class_seperator
                && c.doc_patterns@[i].argument_namespace_separator == fwc.file.documentation.patterns@[i].argument_namespace_separator
                && c.doc_patterns@[i].argument_inner_class_seperator == fwc.file.documentation.patterns@[i].argument_inner_class_seperator
                && c.doc_patterns@[i].argument_seperator == fwc.file.documentation.patterns@[i].argument_seperator,
            c.input_files == input_files,
            c.output_path == output_path,
            c.output_dir == output_dir,
            c.output_file_stem == output_file_stem,
            c.logging_verbose == fwc.file.logging.verbose,
            c.ignore_classes@ == ignore_set(fwc.file.ignores@, RuleKind::Class),
            c.ignore_class_fields@ == ignore_set(fwc.file.ignores@, RuleKind::Field),
            c.ignore_class_methods@ == ignore_set(fwc.file.ignores@, RuleKind::Method),
            c.ignore_class_method_sigs@ == ignore_set(fwc.file.ignores@, RuleKind::MethodSignature),
            c.rename_classes@ == rename_map(fwc.file.renames@, RuleKind::Class),
            c.rename_class_fields@ == rename_map(fwc.file.renames@, RuleKind::Field),
            c.rename_class_methods@ == rename_map(fwc.file.renames@, RuleKind::Method),
            c.rename_class_method_sigs@ == rename_map(fwc.file.renames@, RuleKind::MethodSignature),
    {
        let file = fwc.file;

        let mut ignore_classes = StringSet::new();
        let mut ignore_class_fields = StringSet::new();
        let mut ignore_class_methods = StringSet::new();
        let mut ignore_class_method_sigs = StringSet::new();
        let ignores = file.ignores;
        let ghost all_ignores = ignores@;
        let mut i: usize = 0;
        while i < ignores.len()
            invariant
                ignores@ == all_ignores,
                i <= ignores@.len(),
                ignore_classes@ == ignore_set(all_ignores.take(i as int), RuleKind::Class),
                ignore_class_fields@ == ignore_set(all_ignores.take(i as int), RuleKind::Field),
                ignore_class_methods@ == ignore_set(all_ignores.take(i as int), RuleKind::Method),
                ignore_class_method_sigs@ == ignore_set(all_ignores.take(i as int), RuleKind::MethodSignature),
            decreases ignores@.len() - i,
        {
            let ignore = &ignores[i];
            let (kind, key) = make_rule_key(ignore.class.as_str(), &ignore.field, &ignore.method, &ignore.signature);
            proof {
                assert(all_ignores.take(i + 1).drop_last() =~= all_ignores.take(i as int));
                assert(all_ignores.take(i + 1).last() == all_ignores[i as int]);
            }
            match kind {
                RuleKind::Class => ignore_classes.insert(key),
                RuleKind::Field => ignore_class_fields.insert(key),
                RuleKind::Method => ignore_class_methods.insert(key),
                RuleKind::MethodSignature => ignore_class_method_sigs.insert(key),
            }
            i = i + 1;
        }
        assert(all_ignores.take(all_ignores.len() as int) =~= all_ignores);

        let mut rename_classes = StringMap::new();
        let mut rename_class_fields = StringMap::new();
        let mut rename_class_methods = StringMap::new();
        let mut rename_class_method_sigs = StringMap::new();
        let renames = file.renames;
        let ghost all_renames = renames@;
        let mut j: usize = 0;
        while j < renames.len()
            invariant
                renames@ == all_renames,
                j <= renames@.len(),
                rename_classes@ == rename_map(all_renames.take(j as int), RuleKind::Class),
                rename_class_fields@ == rename_map(all_renames.take(j as int), RuleKind::Field),
                rename_class_methods@ == rename_map(all_renames.take(j as int), RuleKind::Method),
                rename_class_method_sigs@ == rename_map(all_renames.take(j as int), RuleKind::MethodSignature),
            decreases renames@.len() - j,
        {
            let rename = &renames[j];
            let (kind, key) = make_rule_key(rename.class.as_str(), &rename.field, &rename.method, &rename.signature);
            let to = rename.to.clone();
            proof {
                assert(all_renames.take(j + 1).drop_last() =~= all_renames.take(j as int));
                assert(all_renames.take(j + 1).last() == all_renames[j as int]);
            }
            match kind {
                RuleKind::Class => rename_classes.insert(key, to),
                RuleKind::Field => rename_class_fields.insert(key, to),
                RuleKind::Method => rename_class_methods.insert(key, to),
                RuleKind::MethodSignature => rename_class_method_sigs.insert(key, to),
            }
            j = j + 1;
        }
        assert(all_renames.take(all_renames.len() as int) =~= all_renames);

        let patterns = file.documentation.patterns;
        let ghost all_patterns = patterns@;
        let mut doc_patterns: Vec<DocPattern> = Vec::new();
        let mut k: usize = 0;
        while k < patterns.len()
            invariant
                patterns@ == all_patterns,
                k <= patterns@.len(),
                doc_patterns@.len() == k,
                forall|x: int| 0 <= x < k ==> #[trigger] doc_patterns@[x].class_url_pattern == all_patterns[x].class_url_pattern
                    && doc_patterns@[x].method_url_pattern == all_patterns[x].method_url_pattern
                    && doc_patterns@[x].constructor_url_pattern == all_patterns[x].constructor_url_pattern
                    && doc_patterns@[x].field_url_pattern == all_patterns[x].field_url_pattern
                    && doc_patterns@[x].jni_prefix == all_patterns[x].jni_prefix
                    && doc_patterns@[x].class_namespace_separator == all_patterns[x].class_namespace_separator
                    && doc_patterns@[x].class_inner_class_seperator == all_patterns[x].class_inner_class_seperator
                    && doc_patterns@[x].argument_namespace_separator == all_patterns[x].argument_namespace_separator
                    && doc_patterns@[x].argument_inner_class_seperator == all_patterns[x].argument_inner_class_seperator
                    && doc_patterns@[x].argument_seperator == all_patterns[x].argument_seperator,
            decreases patterns@.len() - k,
        {
            let p = &patterns[k];
            doc_patterns.push(DocPattern {
                class_url_pattern: p.class_url_pattern.clone(),
                method_url_pattern: clone_opt(&p.method_url_pattern),
                constructor_url_pattern: clone_opt(&p.constructor_url_pattern),
                field_url_pattern: clone_opt(&p.field_url_pattern),
                jni_prefix: p.jni_prefix.clone(),
                class_namespace_separator: p.class_namespace_separator.clone(),
                class_inner_class_seperator: p.class_inner_class_seperator.clone(),
                argument_namespace_separator: p.argument_namespace_separator.clone(),
                argument_inner_class_seperator: p.argument_inner_class_seperator.clone(),
                argument_seperator: p.argument_seperator.clone(),
            });
            k = k + 1;
        }

        Self {
            codegen: file.codegen,
            doc_patterns,
            input_files,
            output_path,
            output_dir,
            output_file_stem,
            logging_verbose: file.logging.verbose,
            ignore_classes,
            ignore_class_fields,
            ignore_class_methods,
            ignore_class_method_sigs,
            rename_classes,
            rename_class_fields,
            rename_class_methods,
            rename_class_method_sigs,
        }
    }
}

/// A copy of an optional string.
fn clone_opt(o: &Option<String>) -> (r: Option<String>)
    ensures
        r == *o,
{
    match o {
        Some(s) => Some(s.clone()),
        None => None,
    }
}


/// A path without `%` has no variables, and expanding it leaves it as it is.
pub proof fn law_expand_without_percent(s: Seq<char>)
    requires
        forall|i: int| 0 <= i < s.len() ==> s[i] != '%',
    ensures
        split_percent(s) == seq![s],
        odd_pieces(split_percent(s)).len() == 0,
        expand_pieces(split_percent(s), Seq::empty()) == s,
{
    lemma_find_char(s, '%');
}

} // verus!
