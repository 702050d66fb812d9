//! A per-extraction memoization set of directory paths already created, so
//! that directory-creation work is bounded by the number of distinct
//! directories rather than the number of archive entries. Scoped to exactly
//! one extraction call; never persisted or shared across calls.

use vstd::prelude::*;

use crate::bytes::bytes_eq;

verus! {

/// The set of directory paths recorded as already created during the current
/// extraction. A plain visited-set with no eviction: it lives exactly as
/// long as one extraction call.
pub struct DirectorySet {
    paths: Vec<Vec<u8>>,
}

impl View for DirectorySet {
    type V = Set<Seq<u8>>;

    /// The abstract contents: the set of recorded paths.
    closed spec fn view(&self) -> Set<Seq<u8>> {
        self.paths.deep_view().to_set()
    }
}

impl DirectorySet {
    /// An empty set, for the start of one extraction call.
    pub fn new() -> (s: Self)
        ensures
            s@ == Set::<Seq<u8>>::empty(),
    {
        let s = DirectorySet { paths: Vec::new() };
        proof {
            assert(s.paths.deep_view() =~= Seq::<Seq<u8>>::empty());
            assert(s@ =~= Set::<Seq<u8>>::empty());
        }
        s
    }

    /// Whether `path` has already been recorded.
    pub fn contains(&self, path: &Vec<u8>) -> (r: bool)
        ensures
            r == self@.contains(path@),
    {
        let ghost dv = self.paths.deep_view();
        let mut i: usize = 0;
        while i < self.paths.len()
            invariant
                i <= self.paths.len(),
                dv == self.paths.deep_view(),
                forall|j: int| 0 <= j < i ==> dv[j] != path@,
            decreases self.paths.len() - i,
        {
            if bytes_eq(&self.paths[i], path) {
                proof {
                    assert(dv[i as int] == self.paths@[i as int]@);
                }
                return true;
            }
            proof {
                assert(dv[i as int] == self.paths@[i as int]@);
            }
            i += 1;
        }
        proof {
            assert(forall|j: int| 0 <= j < dv.len() ==> dv[j] != path@);
            assert(!dv.contains(path@));
        }
        false
    }

    /// Record `path`, returning whether it was fresh. The creation syscall is
    /// owed exactly when the result is `true`: a path already recorded needs
    /// no further work.
    pub fn insert(&mut self, path: Vec<u8>) -> (fresh: bool)
        ensures
            fresh == !old(self)@.contains(path@),
            final(self)@ == old(self)@.insert(path@),
    {
        if self.contains(&path) {
            proof {
                assert(self@.insert(path@) =~= self@);
            }
            false
        } else {
            let ghost old_dv = self.paths.deep_view();
            let ghost p = path@;
            self.paths.push(path);
            proof {
                assert(self.paths.deep_view() =~~= old_dv.push(p));
                old_dv.lemma_push_to_set_commute(p);
            }
            true
        }
    }
}

/// Number of entries in `names` that are the first occurrence of their
/// value: the number of creation operations performed when the paths are
/// recorded in order in an initially empty [`DirectorySet`].
pub open spec fn first_occurrence_count(names: Seq<Seq<u8>>) -> nat
    decreases names.len(),
{
    if names.len() == 0 {
        0
    } else {
        first_occurrence_count(names.drop_last()) + (if names.drop_last().contains(
            names.last(),
        ) {
            0nat
        } else {
            1nat
        })
    }
}

/// Directory-creation work is proportional to the number of distinct
/// directories, not the number of entries: recording the (ancestor)
/// directory path of each entry of an archive in order performs exactly one
/// creation per distinct path, however many entries share it.
pub proof fn lemma_creation_work_is_distinct_dirs(names: Seq<Seq<u8>>)
    ensures
        first_occurrence_count(names) == names.to_set().len(),
    decreases names.len(),
{
    broadcast use vstd::set::group_set_axioms;
    broadcast use vstd::seq_lib::seq_to_set_is_finite;

    if names.len() == 0 {
        assert(names.to_set() =~= Set::<Seq<u8>>::empty());
    } else {
        let prefix = names.drop_last();
        lemma_creation_work_is_distinct_dirs(prefix);
        assert(names =~= prefix.push(names.last()));
        prefix.lemma_push_to_set_commute(names.last());
        assert(prefix.to_set().contains(names.last()) == prefix.contains(names.last()));
    }
}

} // verus!
