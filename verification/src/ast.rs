//! A merged view of the structs generated from several SDKs: for each Rust struct, the Java
//! class it came from in each SDK, and for each member the signatures it has and the SDKs that
//! have each.

use vstd::prelude::*;
use std::collections::{BTreeMap, BTreeSet};

verus! {

/// The signatures of one member (keyed by Java name) and, for each signature, the SDKs that have it.
pub struct Member {
    /// Field signature to the SDKs with a field of that signature.
    pub fields: BTreeMap<String, BTreeSet<String>>,
    /// Method signature to the SDKs with a method of that signature.
    pub methods: BTreeMap<String, BTreeSet<String>>,
}

impl Default for Member {
    /// A member seen in no SDK.
    fn default() -> (m: Self)
        ensures
            m.fields@ == Map::<String, BTreeSet<String>>::empty(),
            m.methods@ == Map::<String, BTreeSet<String>>::empty(),
    {
        Member { fields: BTreeMap::new(), methods: BTreeMap::new() }
    }
}

/// One Rust struct: the Java class it stands for in each SDK, and its members by Java name.
pub struct Struct {
    /// SDK to the original name of the class in that SDK.
    pub sdks: BTreeMap<String, String>,
    /// Java member name to its signatures.
    pub members: BTreeMap<String, Member>,
}

impl Default for Struct {
    /// A struct seen in no SDK.
    fn default() -> (s: Self)
        ensures
            s.sdks@ == Map::<String, String>::empty(),
            s.members@ == Map::<String, Member>::empty(),
    {
        Struct { sdks: BTreeMap::new(), members: BTreeMap::new() }
    }
}

/// Every struct, by its Rust name.
pub struct Ast {
    pub structures: BTreeMap<String, Struct>,
}

} // verus!
