//! The allowlist set: a collection of canonical address literals in which
//! each address stands at most once.

use vstd::prelude::*;

verus! {

/// The texts held by a list of strings.
pub open spec fn texts(items: Seq<String>) -> Seq<Seq<char>> {
    items.map_values(|s: String| s@)
}

/// A set of address literals, without duplicate entries.
pub struct MemberSet {
    items: Vec<String>,
}

impl View for MemberSet {
    type V = Set<Seq<char>>;

    closed spec fn view(&self) -> Set<Seq<char>> {
        texts(self.items@).to_set()
    }
}

impl MemberSet {
    /// Each address is held once.
    pub closed spec fn wf(&self) -> bool {
        texts(self.items@).no_duplicates()
    }

    /// The empty set.
    pub fn new() -> (r: MemberSet)
        ensures
            r.wf(),
            r@ == Set::<Seq<char>>::empty(),
    {
        let r = MemberSet { items: Vec::new() };
        assert(texts(r.items@).to_set() =~= Set::<Seq<char>>::empty());
        r
    }

    /// The number of entries; each address counts once.
    pub fn len(&self) -> (r: usize)
        requires
            self.wf(),
        ensures
            r == self@.len(),
    {
        proof {
            texts(self.items@).unique_seq_to_set();
        }
        self.items.len()
    }

    /// Whether `a` is in the set. The set is left as it is.
    pub fn is_member(&self, a: &String) -> (r: bool)
        ensures
            r == self@.contains(a@),
    {
        let mut i: usize = 0;
        while i < self.items.len()
            invariant
                0 <= i <= self.items.len(),
                forall|j: int| 0 <= j < i ==> texts(self.items@)[j] != a@,
            decreases self.items.len() - i,
        {
            if self.items[i].eq(a) {
                proof {
                    assert(texts(self.items@)[i as int] == a@);
                    assert(texts(self.items@).contains(a@));
                }
                return true;
            }
            i = i + 1;
        }
        proof {
            assert(!texts(self.items@).contains(a@));
        }
        false
    }

    /// Adds `a`; the result tells whether it was absent before, that is,
    /// whether this call inserted it.
    pub fn add_member(&mut self, a: &String) -> (r: bool)
        requires
            old(self).wf(),
        ensures
            final(self).wf(),
            final(self)@ == old(self)@.insert(a@),
            r == !old(self)@.contains(a@),
    {
        if self.is_member(a) {
            proof {
                assert(self@.insert(a@) =~= self@);
            }
            false
        } else {
            let ghost before = texts(self.items@);
            self.items.push(a.clone());
            proof {
                assert(texts(self.items@) =~= before.push(a@));
                assert(!before.contains(a@));
                assert(texts(self.items@).to_set() =~= before.to_set().insert(a@)) by {
                    assert forall|x: Seq<char>|
                        #[trigger] texts(self.items@).to_set().contains(x)
                            <==> before.to_set().insert(a@).contains(x) by {
                        if texts(self.items@).contains(x) {
                            let j = choose|j: int|
                                0 <= j < texts(self.items@).len() && texts(self.items@)[j] == x;
                            if j < before.len() {
                                assert(before[j] == x);
                            }
                        }
                        if before.contains(x) {
                            let j = choose|j: int| 0 <= j < before.len() && before[j] == x;
                            assert(texts(self.items@)[j] == x);
                        }
                        if x == a@ {
                            assert(texts(self.items@)[before.len() as int] == x);
                        }
                    }
                }
                assert(texts(self.items@).no_duplicates()) by {
                    assert forall|i: int, j: int|
                        0 <= i < texts(self.items@).len() && 0 <= j < texts(self.items@).len()
                            && i != j implies texts(self.items@)[i] != texts(self.items@)[j] by {
                        if i < before.len() && j < before.len() {
                            assert(before[i] != before[j]);
                        } else if i < before.len() {
                            assert(before[i] != a@);
                        } else if j < before.len() {
                            assert(before[j] != a@);
                        }
                    }
                }
            }
            true
        }
    }
}

} // verus!
