//! JNI class paths such as `java/lang/String` or `android/view/View$OnClickListener`.

use vstd::prelude::*;
use vstd::string::*;
use crate::text::{chars_of, find_char, find_char_from, lemma_find_char};

verus! {

/// A JNI class path: namespaces separated by `/`, inner classes by `$`.
#[derive(Clone, Copy, Debug, PartialEq, Eq, PartialOrd, Ord, Hash)]
pub struct Id<'a>(pub &'a str);

/// An owned JNI class path.
#[derive(Clone, Debug, PartialEq, Eq, PartialOrd, Ord, Hash)]
pub struct IdBuf(pub String);

/// One component of a class path.
#[derive(Clone, Copy, Debug, PartialEq, Eq, PartialOrd, Ord, Hash)]
pub enum IdPart<'a> {
    /// A package, such as `java` or `lang` in `java/lang/String`.
    Namespace(&'a str),
    /// An outer class, such as `View` in `android/view/View$OnClickListener`.
    ContainingClass(&'a str),
    /// The class itself, such as `OnClickListener` in `android/view/View$OnClickListener`.
    LeafClass(&'a str),
}

/// The characters of one class path component.
pub enum IdPartModel {
    Namespace(Seq<char>),
    ContainingClass(Seq<char>),
    LeafClass(Seq<char>),
}

impl<'a> IdPart<'a> {
    /// The component with its text taken as characters.
    pub open spec fn model(self) -> IdPartModel {
        match self {
            IdPart::Namespace(s) => IdPartModel::Namespace(s@),
            IdPart::ContainingClass(s) => IdPartModel::ContainingClass(s@),
            IdPart::LeafClass(s) => IdPartModel::LeafClass(s@),
        }
    }
}

/// The components of a class path: everything before each `/` is a namespace; then everything
/// before each `$` is a containing class; what remains, if anything, is the leaf class.
pub open spec fn id_parts(s: Seq<char>) -> Seq<IdPartModel>
    decreases s.len(),
{
    match find_char(s, '/') {
        Some(i) => if 0 <= i < s.len() {
            seq![IdPartModel::Namespace(s.take(i))] + id_parts(s.skip(i + 1))
        } else {
            Seq::empty()
        },
        None => match find_char(s, '$') {
            Some(i) => if 0 <= i < s.len() {
                seq![IdPartModel::ContainingClass(s.take(i))] + id_parts(s.skip(i + 1))
            } else {
                Seq::empty()
            },
            None => if s.len() == 0 {
                Seq::empty()
            } else {
                seq![IdPartModel::LeafClass(s)]
            },
        },
    }
}

/// The models of a sequence of components.
pub open spec fn parts_model(parts: Seq<IdPart>) -> Seq<IdPartModel> {
    parts.map_values(|p: IdPart| p.model())
}

impl<'a> Id<'a> {
    /// The class path as written.
    pub fn as_str(&self) -> (s: &'a str)
        ensures
            s@ == self.0@,
    {
        self.0
    }

    /// The components of the class path, in order.
    pub fn iter(&self) -> (parts: Vec<IdPart<'a>>)
        ensures
            parts_model(parts@) == id_parts(self.0@),
    {
        let s: &'a str = self.0;
        let v = chars_of(s);
        let n = v.len();
        let mut parts: Vec<IdPart<'a>> = Vec::new();
        let mut start: usize = 0;
        proof {
            assert(s@.skip(0) =~= s@);
            assert(parts_model(parts@) =~= Seq::<IdPartModel>::empty());
            assert(parts_model(parts@) + id_parts(s@) =~= id_parts(s@));
        }
        while start < n
            invariant
                n == v@.len(),
                v@ == s@,
                start <= n,
                parts_model(parts@) + id_parts(s@.skip(start as int)) == id_parts(s@),
            decreases n - start,
        {
            let ghost rest = s@.skip(start as int);
            match find_char_from(v.as_slice(), start, '/') {
                Some(i) => {
                    let part = s.substring_char(start, start + i);
                    proof {
                        lemma_find_char(rest, '/');
                        assert(part@ =~= rest.take(i as int));
                        assert(rest.skip(i + 1) =~= s@.skip(start + i + 1));
                        assert(parts_model(parts@.push(IdPart::Namespace(part))) =~= parts_model(parts@).push(IdPartModel::Namespace(part@)));
                        assert(seq![IdPartModel::Namespace(part@)] + id_parts(rest.skip(i + 1)) == id_parts(rest));
                        assert(parts_model(parts@).push(IdPartModel::Namespace(part@)) + id_parts(rest.skip(i + 1)) =~= parts_model(parts@) + (seq![IdPartModel::Namespace(part@)] + id_parts(rest.skip(i + 1))));
                    }
                    parts.push(IdPart::Namespace(part));
                    start = start + i + 1;
                },
                None => {
                    match find_char_from(v.as_slice(), start, '$') {
                        Some(i) => {
                            let part = s.substring_char(start, start + i);
                            proof {
                                lemma_find_char(rest, '$');
                                assert(part@ =~= rest.take(i as int));
                                assert(rest.skip(i + 1) =~= s@.skip(start + i + 1));
                                assert(parts_model(parts@.push(IdPart::ContainingClass(part))) =~= parts_model(parts@).push(IdPartModel::ContainingClass(part@)));
                                assert(seq![IdPartModel::ContainingClass(part@)] + id_parts(rest.skip(i + 1)) == id_parts(rest));
                                assert(parts_model(parts@).push(IdPartModel::ContainingClass(part@)) + id_parts(rest.skip(i + 1)) =~= parts_model(parts@) + (seq![IdPartModel::ContainingClass(part@)] + id_parts(rest.skip(i + 1))));
                            }
                            parts.push(IdPart::ContainingClass(part));
                            start = start + i + 1;
                        },
                        None => {
                            let part = s.substring_char(start, n);
                            proof {
                                assert(part@ =~= rest);
                                assert(rest.len() > 0);
                                assert(id_parts(rest) == seq![IdPartModel::LeafClass(rest)]);
                                assert(parts_model(parts@.push(IdPart::LeafClass(part))) =~= parts_model(parts@).push(IdPartModel::LeafClass(part@)));
                                assert(s@.skip(n as int) =~= Seq::<char>::empty());
                                assert(id_parts(s@.skip(n as int)) =~= Seq::<IdPartModel>::empty());
                                assert(parts_model(parts@).push(IdPartModel::LeafClass(part@)) + id_parts(s@.skip(n as int)) =~= parts_model(parts@) + id_parts(rest));
                            }
                            parts.push(IdPart::LeafClass(part));
                            start = n;
                        },
                    }
                },
            }
        }
        proof {
            assert(s@.skip(start as int) =~= Seq::<char>::empty());
            assert(id_parts(s@.skip(start as int)) =~= Seq::<IdPartModel>::empty());
            assert(parts_model(parts@) + id_parts(s@.skip(start as int)) =~= parts_model(parts@));
        }
        parts
    }
}

impl IdBuf {
    /// Takes ownership of a class path.
    pub fn new(s: String) -> (r: Self)
        ensures
            r.0@ == s@,
    {
        IdBuf(s)
    }

    /// The class path as written.
    pub fn as_str(&self) -> (s: &str)
        ensures
            s@ == self.0@,
    {
        self.0.as_str()
    }

    /// The class path, borrowed.
    pub fn as_id(&self) -> (id: Id<'_>)
        ensures
            id.0@ == self.0@,
    {
        Id(self.0.as_str())
    }
}

} // verus!
