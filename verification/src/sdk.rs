//! The classes of one SDK, by path.

use vstd::prelude::*;
use crate::assoc::{assoc_map, distinct_keys, lemma_assoc_dom, lemma_assoc_index, lemma_assoc_push, lemma_assoc_update};
use crate::jar::{Class, ClassModel};
use crate::text::str_eq;

verus! {

/// The classes of a list by their paths, a later class over an earlier one with the same path.
pub open spec fn classes_by_path(cs: Seq<ClassModel>) -> Map<Seq<char>, ClassModel>
    decreases cs.len(),
{
    if cs.len() == 0 {
        Map::empty()
    } else {
        classes_by_path(cs.drop_last()).insert(cs.last().path, cs.last())
    }
}

/// The models of the (path, class) pairs.
pub open spec fn entries_model(v: Seq<(String, Class)>) -> Seq<(Seq<char>, ClassModel)> {
    v.map_values(|e: (String, Class)| (e.0@, e.1@))
}

/// The models of a list of classes.
pub open spec fn class_models(v: Seq<Class>) -> Seq<ClassModel> {
    v.map_values(|c: Class| c@)
}

/// An SDK: its id, its label, and its classes, each under its path.
pub struct Sdk {
    id: String,
    label: String,
    classes: Vec<(String, Class)>,
}

impl Sdk {
    #[verifier::type_invariant]
    spec fn inv(self) -> bool {
        distinct_keys(entries_model(self.classes@))
    }

    /// The SDK's id.
    pub closed spec fn id_spec(&self) -> Seq<char> {
        self.id@
    }

    /// The SDK's label.
    pub closed spec fn label_spec(&self) -> Seq<char> {
        self.label@
    }

    /// The SDK's id.
    pub fn id(&self) -> (s: &str)
        ensures
            s@ == self.id_spec(),
    {
        self.id.as_str()
    }

    /// The SDK's label.
    pub fn label(&self) -> (s: &str)
        ensures
            s@ == self.label_spec(),
    {
        self.label.as_str()
    }

    /// The classes by path.
    pub closed spec fn classes_spec(&self) -> Map<Seq<char>, ClassModel> {
        assoc_map(entries_model(self.classes@))
    }

    /// An SDK of these classes, each under its path; of two classes with one path, the later is kept.
    pub fn gather_classes(id: String, label: String, classes: Vec<Class>) -> (sdk: Self)
        ensures
            sdk.id_spec() == id@,
            sdk.label_spec() == label@,
            sdk.classes_spec() == classes_by_path(class_models(classes@)),
    {
        let ghost all = class_models(classes@);
        let mut rest = classes;
        let n = rest.len();
        assert(all.len() == n);
        let mut entries: Vec<(String, Class)> = Vec::new();
        let mut k: usize = 0;
        assert(all.take(0) =~= Seq::<ClassModel>::empty());
        assert(entries_model(entries@) =~= Seq::<(Seq<char>, ClassModel)>::empty());
        while rest.len() > 0
            invariant
                k <= all.len(),
                k + rest@.len() == all.len(),
                all.len() == n,
                class_models(rest@) == all.skip(k as int),
                distinct_keys(entries_model(entries@)),
                assoc_map(entries_model(entries@)) == classes_by_path(all.take(k as int)),
            decreases rest@.len(),
        {
            let ghost before = rest@;
            let class = rest.remove(0);
            proof {
                assert(class_models(before)[0] == class@);
                assert(class_models(before)[0] == all.skip(k as int)[0]);
                assert(class_models(rest@) =~= class_models(before).skip(1));
                assert(class@ == all[k as int]);
                assert(all.skip(k as int).skip(1) =~= all.skip(k + 1));
            }
            insert_class(&mut entries, class);
            proof {
                let t = all.take(k + 1);
                assert(t.drop_last() =~= all.take(k as int));
                assert(t.last() == all[k as int]);
            }
            k = k + 1;
        }
        assert(all.skip(k as int).len() == 0);
        assert(all.take(k as int) =~= all);
        Sdk { id, label, classes: entries }
    }

    /// The class at `path`, if there is one.
    pub fn class(&self, path: &str) -> (c: Option<&Class>)
        ensures
            match c {
                Some(c) => self.classes_spec().dom().contains(path@) && c@ == self.classes_spec()[path@],
                None => !self.classes_spec().dom().contains(path@),
            },
    {
        proof { use_type_invariant(self); }
        let ghost m = entries_model(self.classes@);
        let mut i: usize = 0;
        while i < self.classes.len()
            invariant
                i <= self.classes@.len(),
                m == entries_model(self.classes@),
                distinct_keys(m),
                forall|j: int| 0 <= j < i ==> #[trigger] m[j].0 != path@,
            decreases self.classes@.len() - i,
        {
            if str_eq(self.classes[i].0.as_str(), path) {
                proof { lemma_assoc_index(m, i as int); }
                return Some(&self.classes[i].1);
            }
            i = i + 1;
        }
        proof {
            lemma_assoc_dom(m, path@);
        }
        None
    }

    /// How many classes there are.
    pub fn len(&self) -> (n: usize)
        ensures
            n == self.classes_spec().dom().len(),
    {
        proof {
            use_type_invariant(self);
            lemma_distinct_len(entries_model(self.classes@));
        }
        self.classes.len()
    }
}

/// Every gathered class is found under its path unless a later class has the same path: the
/// class an SDK gives for a path is the last one gathered with it.
pub proof fn law_last_class_found(cs: Seq<ClassModel>, i: int)
    requires
        0 <= i < cs.len(),
        forall|j: int| i < j < cs.len() ==> #[trigger] cs[j].path != cs[i].path,
    ensures
        classes_by_path(cs).dom().contains(cs[i].path),
        classes_by_path(cs)[cs[i].path] == cs[i],
    decreases cs.len(),
{
    if i < cs.len() - 1 {
        let d = cs.drop_last();
        assert forall|j: int| i < j < d.len() implies #[trigger] d[j].path != d[i].path by {
            assert(d[j] == cs[j]);
        }
        law_last_class_found(d, i);
        assert(cs.last().path != cs[i].path);
    }
}

/// With distinct keys, the map has one key per pair.
proof fn lemma_distinct_len(s: Seq<(Seq<char>, ClassModel)>)
    requires
        distinct_keys(s),
    ensures
        assoc_map(s).dom().finite(),
        assoc_map(s).dom().len() == s.len(),
    decreases s.len(),
{
    if s.len() > 0 {
        let d = s.drop_last();
        assert(distinct_keys(d));
        lemma_distinct_len(d);
        lemma_assoc_dom(d, s.last().0);
        if assoc_map(d).dom().contains(s.last().0) {
            let i = choose|i: int| 0 <= i < d.len() && #[trigger] d[i].0 == s.last().0;
            assert(s[i].0 == s[s.len() - 1].0);
        }
    }
}

/// Puts a class under its path, over any class already there.
fn insert_class(entries: &mut Vec<(String, Class)>, class: Class)
    requires
        distinct_keys(entries_model(old(entries)@)),
    ensures
        distinct_keys(entries_model(final(entries)@)),
        assoc_map(entries_model(final(entries)@)) == assoc_map(entries_model(old(entries)@)).insert(class@.path, class@),
{
    let ghost m = entries_model(entries@);
    let mut i: usize = 0;
    while i < entries.len()
        invariant
            i <= entries@.len(),
            m == entries_model(entries@),
            m == entries_model(old(entries)@),
            distinct_keys(m),
            forall|j: int| 0 <= j < i ==> #[trigger] m[j].0 != class@.path,
        decreases entries@.len() - i,
    {
        if str_eq(entries[i].0.as_str(), class.path.as_str()) {
            let key = class.path.clone();
            let ghost cm = class@;
            proof {
                assert(m[i as int].0 == entries@[i as int].0@);
                assert(m[i as int].0 == cm.path);
                lemma_assoc_update(m, i as int, cm);
            }
            entries.set(i, (key, class));
            assert(entries_model(entries@) =~= m.update(i as int, (m[i as int].0, cm)));
            return;
        }
        i = i + 1;
    }
    proof { lemma_assoc_dom(m, class@.path); }
    let key = class.path.clone();
    let ghost cm = class@;
    proof { lemma_assoc_push(m, cm.path, cm); }
    entries.push((key, class));
    assert(entries_model(entries@) =~= m.push((cm.path, cm)));
}

} // verus!
