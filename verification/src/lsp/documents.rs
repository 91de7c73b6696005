//! The files already announced to the engine.

use vstd::prelude::*;

verus! {

/// The set of files announced to the engine, by canonical absolute path.
/// It only grows: nothing is ever taken out.
pub struct OpenDocumentSet {
    paths: Vec<String>,
}

impl View for OpenDocumentSet {
    type V = Set<Seq<char>>;

    closed spec fn view(&self) -> Set<Seq<char>> {
        Set::new(|p: Seq<char>| exists|i: int| 0 <= i < self.paths@.len() && self.paths@[i]@ == p)
    }
}

impl OpenDocumentSet {
    /// Well-formedness: no path is held twice.
    pub closed spec fn wf(&self) -> bool {
        forall|i: int, j: int|
            0 <= i < j < self.paths@.len() ==> self.paths@[i]@ != self.paths@[j]@
    }

    /// The number of files announced.
    pub closed spec fn count(&self) -> nat {
        self.paths@.len()
    }

    /// The empty set.
    pub fn new() -> (set: Self)
        ensures
            set.wf(),
            set@ == Set::<Seq<char>>::empty(),
            set.count() == 0,
    {
        let set = OpenDocumentSet { paths: Vec::new() };
        proof {
            assert(set@ =~= Set::<Seq<char>>::empty());
        }
        set
    }

    /// The number of files announced.
    pub fn len(&self) -> (n: usize)
        ensures
            n == self.count(),
    {
        self.paths.len()
    }

    /// Whether `path` was announced.
    pub fn contains(&self, path: &str) -> (b: bool)
        ensures
            b == self@.contains(path@),
    {
        let wanted = path.to_owned();
        let mut i: usize = 0;
        while i < self.paths.len()
            invariant
                i <= self.paths@.len(),
                wanted@ == path@,
                forall|k: int| 0 <= k < i ==> self.paths@[k]@ != path@,
            decreases self.paths.len() - i,
        {
            if self.paths[i] == wanted {
                return true;
            }
            i += 1;
        }
        false
    }

    /// Records that `path` was announced. Returns whether it is new.
    pub fn insert(&mut self, path: String) -> (added: bool)
        requires
            old(self).wf(),
        ensures
            final(self).wf(),
            final(self)@ == old(self)@.insert(path@),
            added == !old(self)@.contains(path@),
            final(self).count() == old(self).count() + if added {
                1nat
            } else {
                0nat
            },
    {
        if self.contains(path.as_str()) {
            proof {
                assert(self@ =~= old(self)@.insert(path@));
            }
            return false;
        }
        let ghost before = self.paths@;
        self.paths.push(path);
        proof {
            assert forall|p: Seq<char>| self@.contains(p) <==> old(self)@.insert(path@).contains(
                p,
            ) by {
                if old(self)@.contains(p) {
                    let i = choose|i: int| 0 <= i < before.len() && before[i]@ == p;
                    assert(self.paths@[i]@ == p);
                }
                if p == path@ {
                    assert(self.paths@[before.len() as int]@ == p);
                }
            }
            assert(self@ =~= old(self)@.insert(path@));
        }
        true
    }
}

} // verus!
