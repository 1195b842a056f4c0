//! The state of a generation run: the configuration, and the structs added so far, by module.

use vstd::prelude::*;
use crate::class::Id;
use crate::config::runtime::Config;
use crate::jar::Class;
use crate::text::{chars_eq, push_str_chars, str_eq, string_from_chars};
use crate::emit_rust::structs::{local_scope_spec, struct_paths_spec, Struct, StructPaths, StructPathsModel};

verus! {

/// Why a class could not be added to the generated crate.
#[derive(Clone, Debug, PartialEq, Eq)]
pub enum EmitError {
    /// A component of the class path has no Rust equivalent (yet?).
    NoRustEquivalent(String),
    /// A struct of this name was already added to its module.
    AlreadyAdded(String),
}

/// An error with its text taken as characters.
pub enum EmitErrorModel {
    NoRustEquivalent(Seq<char>),
    AlreadyAdded(Seq<char>),
}

impl View for EmitError {
    type V = EmitErrorModel;

    open spec fn view(&self) -> EmitErrorModel {
        match self {
            EmitError::NoRustEquivalent(s) => EmitErrorModel::NoRustEquivalent(s@),
            EmitError::AlreadyAdded(s) => EmitErrorModel::AlreadyAdded(s@),
        }
    }
}

/// The module path and struct name of an added struct.
pub open spec fn entry_key(e: (Vec<String>, Struct)) -> (Seq<Seq<char>>, Seq<char>) {
    (e.0@.map_values(|s: String| s@), e.1.rust.struct_name@)
}

/// What adding the struct for class path `class` does to the structs added before (`added`):
/// the error, when it fails, and the structs added after.  A class whose module is not in this
/// crate changes nothing.
pub open spec fn add_struct_spec(stem: Option<String>, added: Seq<(Seq<Seq<char>>, Seq<char>)>, class: Seq<char>)
    -> (Option<EmitErrorModel>, Seq<(Seq<Seq<char>>, Seq<char>)>)
{
    match struct_paths_spec(stem, class) {
        Err(e) => (Some(e), added),
        Ok(p) => match local_scope_spec(p.mod_prefix) {
            None => (None, added),
            Some(scope) => if added.contains((scope, p.struct_name)) {
                (Some(EmitErrorModel::AlreadyAdded(p.struct_name)), added)
            } else {
                (None, added.push((scope, p.struct_name)))
            },
        },
    }
}

/// A refused struct changes nothing.
pub proof fn law_refused_struct_changes_nothing(stem: Option<String>, added: Seq<(Seq<Seq<char>>, Seq<char>)>, class: Seq<char>)
    requires
        add_struct_spec(stem, added, class).0 is Some,
    ensures
        add_struct_spec(stem, added, class).1 == added,
{
}

/// Once the struct for a class is added, adding it again is refused as already added, and the
/// structs added stay as they are.
pub proof fn law_struct_added_once(stem: Option<String>, added: Seq<(Seq<Seq<char>>, Seq<char>)>, class: Seq<char>)
    requires
        add_struct_spec(stem, added, class).0 is None,
    ensures
        ({
            let after = add_struct_spec(stem, added, class).1;
            match struct_paths_spec(stem, class) {
                Ok(p) => local_scope_spec(p.mod_prefix) is Some ==> add_struct_spec(stem, after, class)
                    == (Some(EmitErrorModel::AlreadyAdded(p.struct_name)), after),
                Err(_) => false,
            }
        }),
{
    if let Ok(p) = struct_paths_spec(stem, class) {
        if let Some(scope) = local_scope_spec(p.mod_prefix) {
            let after = added.push((scope, p.struct_name));
            assert(after[after.len() - 1] == (scope, p.struct_name));
            assert(after.contains((scope, p.struct_name)));
        }
    }
}

/// The state of a generation run.
pub struct Context<'a> {
    config: &'a Config,
    entries: Vec<(Vec<String>, Struct)>,
}

impl<'a> Context<'a> {
    /// The configuration of the run.
    pub closed spec fn config_spec(&self) -> Config {
        *self.config
    }

    /// The configuration of the run.
    pub fn config(&self) -> (c: &'a Config)
        ensures
            *c == self.config_spec(),
    {
        self.config
    }

    /// The module path (below `crate`) and struct name of each struct added, in order.
    pub closed spec fn added(&self) -> Seq<(Seq<Seq<char>>, Seq<char>)> {
        self.entries@.map_values(|e: (Vec<String>, Struct)| entry_key(e))
    }

    /// The classes of the structs added, in order.
    pub closed spec fn classes(&self) -> Seq<Class> {
        self.entries@.map_values(|e: (Vec<String>, Struct)| e.1.java)
    }

    /// A run with nothing added yet.
    pub fn new(config: &'a Config) -> (c: Self)
        ensures
            c.config_spec() == *config,
            c.added() == Seq::<(Seq<Seq<char>>, Seq<char>)>::empty(),
            c.classes() == Seq::<Class>::empty(),
    {
        let c = Self { config, entries: Vec::new() };
        assert(c.added() =~= Seq::empty());
        assert(c.classes() =~= Seq::empty());
        c
    }

    /// The Rust path of the struct for a Java class: its module, `::`, and its name.
    pub fn java_to_rust_path(&self, java_class: Id) -> (r: Result<String, EmitError>)
        ensures
            match struct_paths_spec(self.config_spec().output_file_stem, java_class.0@) {
                Ok(p) => r is Ok && r->Ok_0@ == p.mod_prefix + p.struct_name,
                Err(e) => r is Err && r->Err_0@ == e,
            },
    {
        let s = StructPaths::new(self, java_class)?;
        let mut v: Vec<char> = Vec::new();
        push_str_chars(&mut v, s.mod_prefix.as_str());
        push_str_chars(&mut v, s.struct_name.as_str());
        Ok(string_from_chars(v.as_slice()))
    }

    /// Whether a struct of this name was added to this module.
    fn contains_key(&self, scope: &Vec<String>, name: &str) -> (r: bool)
        ensures
            r == self.added().contains((scope@.map_values(|s: String| s@), name@)),
    {
        let ghost key = (scope@.map_values(|s: String| s@), name@);
        let mut i: usize = 0;
        while i < self.entries.len()
            invariant
                i <= self.entries@.len(),
                key == (scope@.map_values(|s: String| s@), name@),
                forall|j: int| 0 <= j < i ==> #[trigger] entry_key(self.entries@[j]) != key,
            decreases self.entries@.len() - i,
        {
            let (s, st) = &self.entries[i];
            if str_eq(st.rust.struct_name.as_str(), name) && strings_eq(s, scope) {
                assert(self.added()[i as int] == key);
                return true;
            }
            i = i + 1;
        }
        proof {
            if self.added().contains(key) {
                let j = choose|j: int| 0 <= j < self.added().len() && self.added()[j] == key;
                assert(entry_key(self.entries@[j]) == key);
            }
        }
        false
    }

    /// Adds the struct for a Java class to its module.  Fails when a component of the class path
    /// has no Rust form, or when its module already has a struct of its name; a class whose module
    /// is not in this crate is skipped.
    pub fn add_struct(&mut self, class: Class) -> (r: Result<(), EmitError>)
        ensures
            final(self).config_spec() == old(self).config_spec(),
            final(self).added() == add_struct_spec(old(self).config_spec().output_file_stem, old(self).added(), class.path@).1,
            match r {
                Ok(_) => add_struct_spec(old(self).config_spec().output_file_stem, old(self).added(), class.path@).0 is None,
                Err(e) => add_struct_spec(old(self).config_spec().output_file_stem, old(self).added(), class.path@).0 == Some(e@),
            },
            match struct_paths_spec(old(self).config_spec().output_file_stem, class.path@) {
                Err(e) => r is Err && r->Err_0@ == e && final(self).added() == old(self).added()
                    && final(self).classes() == old(self).classes(),
                Ok(p) => match local_scope_spec(p.mod_prefix) {
                    None => r is Ok && final(self).added() == old(self).added() && final(self).classes() == old(self).classes(),
                    Some(scope) => if old(self).added().contains((scope, p.struct_name)) {
                        r is Err && r->Err_0@ == EmitErrorModel::AlreadyAdded(p.struct_name)
                            && final(self).added() == old(self).added() && final(self).classes() == old(self).classes()
                    } else {
                        r is Ok && final(self).added() == old(self).added().push((scope, p.struct_name))
                            && final(self).classes() == old(self).classes().push(class)
                    },
                },
            },
    {
        let s = Struct::new(self, class)?;
        let scope = match s.rust.local_scope() {
            Some(scope) => scope,
            None => {
                return Ok(());
            },
        };
        if self.contains_key(&scope, s.rust.struct_name.as_str()) {
            return Err(EmitError::AlreadyAdded(s.rust.struct_name.clone()));
        }
        let ghost before = self.entries@;
        self.entries.push((scope, s));
        proof {
            assert(self.added() =~= old(self).added().push(entry_key(self.entries@.last())));
            assert(self.classes() =~= old(self).classes().push(class));
        }
        Ok(())
    }
}

/// Whether two lists of strings are equal.
fn strings_eq(a: &Vec<String>, b: &Vec<String>) -> (r: bool)
    ensures
        r == (a@.map_values(|s: String| s@) == b@.map_values(|s: String| s@)),
{
    let ghost am = a@.map_values(|s: String| s@);
    let ghost bm = b@.map_values(|s: String| s@);
    if a.len() != b.len() {
        assert(am.len() != bm.len());
        return false;
    }
    let mut i: usize = 0;
    while i < a.len()
        invariant
            a@.len() == b@.len(),
            i <= a@.len(),
            am == a@.map_values(|s: String| s@),
            bm == b@.map_values(|s: String| s@),
            forall|j: int| 0 <= j < i ==> am[j] == bm[j],
        decreases a@.len() - i,
    {
        if !str_eq(a[i].as_str(), b[i].as_str()) {
            assert(am[i as int] != bm[i as int]);
            return false;
        }
        i = i + 1;
    }
    assert(am =~= bm);
    true
}

} // verus!
