//! Writes each distinct generated file once: bytes already written go to the path they were
//! written to, and a file on disk that already has the right length is left as it is.

use vstd::prelude::*;
use crate::assoc::{assoc_map, distinct_keys, lemma_assoc_dom, lemma_assoc_index, lemma_assoc_push};

verus! {

/// What to do with bytes that are to be written to a path.
#[derive(Clone, Debug, PartialEq, Eq)]
pub enum CommitPlan {
    /// The same bytes were already committed, to this path: nothing to write.
    Existing(String),
    /// A file of the same length is already at the path: keep it.
    Keep,
    /// Write the bytes to the path.
    Write,
}

/// A plan with the path taken as characters.
pub enum CommitPlanModel {
    Existing(Seq<char>),
    Keep,
    Write,
}

impl View for CommitPlan {
    type V = CommitPlanModel;

    open spec fn view(&self) -> CommitPlanModel {
        match self {
            CommitPlan::Existing(p) => CommitPlanModel::Existing(p@),
            CommitPlan::Keep => CommitPlanModel::Keep,
            CommitPlan::Write => CommitPlanModel::Write,
        }
    }
}

/// What committing `buffer` takes, given the files committed so far and the length of the file
/// already at the path: the earlier path for bytes already committed; else keep a file of the
/// same length; else write.
pub open spec fn commit_plan(files: Map<Seq<u8>, Seq<char>>, buffer: Seq<u8>, on_disk: Option<u64>) -> CommitPlanModel {
    if files.dom().contains(buffer) {
        CommitPlanModel::Existing(files[buffer])
    } else if needs_write(buffer.len(), on_disk) {
        CommitPlanModel::Write
    } else {
        CommitPlanModel::Keep
    }
}

/// Bytes once committed are found again at the path they were committed to, and never written
/// again.
pub proof fn law_committed_bytes_found(files: Map<Seq<u8>, Seq<char>>, buffer: Seq<u8>, path: Seq<char>, on_disk: Option<u64>)
    ensures
        commit_plan(files.insert(buffer, path), buffer, on_disk) == CommitPlanModel::Existing(path),
{
}

/// Committing some bytes does not change the plan for other bytes.
pub proof fn law_other_bytes_unaffected(files: Map<Seq<u8>, Seq<char>>, buffer: Seq<u8>, path: Seq<char>, other: Seq<u8>, on_disk: Option<u64>)
    requires
        other != buffer,
    ensures
        commit_plan(files.insert(buffer, path), other, on_disk) == commit_plan(files, other, on_disk),
{
}

/// The pairs as sequences.
pub open spec fn files_model(v: Seq<(Vec<u8>, String)>) -> Seq<(Seq<u8>, Seq<char>)> {
    v.map_values(|p: (Vec<u8>, String)| (p.0@, p.1@))
}

/// Whether bytes of length `len` need writing over a file whose length on disk is `on_disk`
/// (`None` when there is no file): only when the lengths differ.
pub open spec fn needs_write(len: nat, on_disk: Option<u64>) -> bool {
    match on_disk {
        Some(n) => n != len,
        None => true,
    }
}

/// The set of files committed so far, by content.
pub struct DedupeFileSet {
    files: Vec<(Vec<u8>, String)>,
}

impl View for DedupeFileSet {
    type V = Map<Seq<u8>, Seq<char>>;

    closed spec fn view(&self) -> Map<Seq<u8>, Seq<char>> {
        assoc_map(files_model(self.files@))
    }
}

/// Whether two byte slices are equal.
fn bytes_eq(a: &[u8], b: &[u8]) -> (r: bool)
    ensures
        r == (a@ == b@),
{
    if a.len() != b.len() {
        return false;
    }
    let mut i: usize = 0;
    while i < a.len()
        invariant
            a@.len() == b@.len(),
            i <= a@.len(),
            forall|j: int| 0 <= j < i ==> a@[j] == b@[j],
        decreases a@.len() - i,
    {
        if a[i] != b[i] {
            return false;
        }
        i = i + 1;
    }
    assert(a@ =~= b@);
    true
}

impl DedupeFileSet {
    #[verifier::type_invariant]
    spec fn inv(self) -> bool {
        distinct_keys(files_model(self.files@))
    }

    /// No files committed yet.
    pub fn new() -> (r: Self)
        ensures
            r@ == Map::<Seq<u8>, Seq<char>>::empty(),
    {
        let r = Self { files: Vec::new() };
        assert(files_model(r.files@) =~= Seq::empty());
        r
    }

    /// The path these bytes were committed to, if they were.
    pub fn existing(&self, buffer: &[u8]) -> (r: Option<&str>)
        ensures
            match r {
                Some(p) => self@.dom().contains(buffer@) && p@ == self@[buffer@],
                None => !self@.dom().contains(buffer@),
            },
    {
        proof { use_type_invariant(self); }
        let mut i: usize = 0;
        while i < self.files.len()
            invariant
                i <= self.files@.len(),
                distinct_keys(files_model(self.files@)),
                forall|j: int| 0 <= j < i ==> #[trigger] self.files@[j].0@ != buffer@,
            decreases self.files@.len() - i,
        {
            if bytes_eq(self.files[i].0.as_slice(), buffer) {
                proof {
                    let m = files_model(self.files@);
                    lemma_assoc_index(m, i as int);
                    assert(m[i as int].0 == buffer@);
                }
                return Some(self.files[i].1.as_str());
            }
            i = i + 1;
        }
        proof {
            let m = files_model(self.files@);
            lemma_assoc_dom(m, buffer@);
            if self@.dom().contains(buffer@) {
                let j = choose|j: int| 0 <= j < m.len() && #[trigger] m[j].0 == buffer@;
                assert(self.files@[j].0@ == m[j].0);
            }
        }
        None
    }

    /// What committing `buffer` takes, given the length of the file already at the path, if any:
    /// the earlier path for bytes already committed; else keep a file of the same length; else write.
    pub fn plan(&self, buffer: &[u8], on_disk: Option<u64>) -> (r: CommitPlan)
        ensures
            r@ == commit_plan(self@, buffer@, on_disk),
    {
        match self.existing(buffer) {
            Some(p) => CommitPlan::Existing(p.to_owned()),
            None => match on_disk {
                Some(n) => if n == buffer.len() as u64 { CommitPlan::Keep } else { CommitPlan::Write },
                None => CommitPlan::Write,
            },
        }
    }

    /// Records that `buffer` is now at `path` (after it was written or kept).
    pub fn record(&mut self, buffer: Vec<u8>, path: String)
        requires
            !old(self)@.dom().contains(buffer@),
        ensures
            final(self)@ == old(self)@.insert(buffer@, path@),
    {
        proof { use_type_invariant(&*self); }
        let mut files: Vec<(Vec<u8>, String)> = Vec::new();
        std::mem::swap(&mut files, &mut self.files);
        let ghost before = files_model(files@);
        files.push((buffer, path));
        proof {
            assert(files_model(files@) =~= before.push((buffer@, path@)));
            lemma_assoc_push(before, buffer@, path@);
        }
        self.files = files;
    }

    /// Commits `buffer` to `path`, given the length of the file already at the path and a
    /// `write` that puts the bytes there when they need writing: bytes already committed give
    /// their earlier path without writing; a file of the same length already there is kept;
    /// otherwise `buffer` and `path` are handed to `write`, and the bytes are recorded at `path`
    /// once it succeeds, or its error is returned and nothing is recorded.
    pub fn commit<E, W: FnOnce(&[u8], &str) -> Result<(), E>>(
        &mut self,
        buffer: Vec<u8>,
        path: String,
        on_disk: Option<u64>,
        write: W,
    ) -> (r: Result<String, E>)
        requires
            forall|b: &[u8], p: &str| #[trigger] write.requires((b, p)),
        ensures
            old(self)@.dom().contains(buffer@) ==> r is Ok && r->Ok_0@ == old(self)@[buffer@] && final(self)@ == old(self)@,
            !old(self)@.dom().contains(buffer@) && !needs_write(buffer@.len(), on_disk) ==> r is Ok && r->Ok_0@ == path@
                && final(self)@ == old(self)@.insert(buffer@, path@),
            !old(self)@.dom().contains(buffer@) && needs_write(buffer@.len(), on_disk) ==> match r {
                Ok(p) => p@ == path@ && final(self)@ == old(self)@.insert(buffer@, path@),
                Err(_) => final(self)@ == old(self)@,
            },
            !old(self)@.dom().contains(buffer@) && needs_write(buffer@.len(), on_disk) && r is Ok
                ==> exists|b: &[u8], q: &str| b@ == buffer@ && q@ == path@
                    && #[trigger] call_ensures(write, (b, q), Ok::<(), E>(())),
            !old(self)@.dom().contains(buffer@) && needs_write(buffer@.len(), on_disk) && r is Err
                ==> exists|b: &[u8], q: &str| b@ == buffer@ && q@ == path@
                    && #[trigger] call_ensures(write, (b, q), Err::<(), E>(r->Err_0)),
    {
        match self.plan(buffer.as_slice(), on_disk) {
            CommitPlan::Existing(p) => Ok(p),
            CommitPlan::Keep => {
                let result = path.clone();
                self.record(buffer, path);
                Ok(result)
            },
            CommitPlan::Write => {
                let b = buffer.as_slice();
                let q = path.as_str();
                assert(b@ == buffer@ && q@ == path@);
                let written = write(b, q);
                assert(call_ensures(write, (b, q), written));
                let ghost w = written;
                match written {
                    Ok(u) => {
                        assert(w == Ok::<(), E>(u));
                        assert(u == ());
                        assert(call_ensures(write, (b, q), Ok::<(), E>(())));
                        assert(exists|b2: &[u8], q2: &str| b2@ == buffer@ && q2@ == path@
                            && #[trigger] call_ensures(write, (b2, q2), Ok::<(), E>(())));
                        let result = path.clone();
                        self.record(buffer, path);
                        Ok(result)
                    },
                    Err(e) => {
                        assert(w == Err::<(), E>(e));
                        assert(call_ensures(write, (b, q), Err::<(), E>(e)));
                        let res: Result<String, E> = Err(e);
                        assert(call_ensures(write, (b, q), Err::<(), E>(res->Err_0)));
                        assert(exists|b2: &[u8], q2: &str| b2@ == buffer@ && q2@ == path@
                            && #[trigger] call_ensures(write, (b2, q2), Err::<(), E>(res->Err_0)));
                        res
                    },
                }
            },
        }
    }
}

} // verus!
