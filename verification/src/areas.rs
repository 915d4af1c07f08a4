//! The sale-window ledger.
//!
//! Named sale areas, each with a capacity, a unit price and an open/close
//! time window, keyed by the identifier hashed from the area's name.

use vstd::prelude::*;
use crate::metadata::AreaMetadata;

verus! {

/// One area record under its hashed storage identifier.
pub struct AreaEntry {
    pub area_id: String,
    pub meta: AreaMetadata,
}

/// Mapping from hashed area identifier to the area's sale record.
pub struct AreaLedger {
    pub entries: Vec<AreaEntry>,
}

impl AreaLedger {
    /// Identifiers are unique.
    pub open spec fn wf(self) -> bool {
        forall|i: int, j: int|
            0 <= i < j < self.entries@.len() ==> self.entries@[i].area_id@
                != self.entries@[j].area_id@
    }

    /// Whether an area is recorded under this identifier.
    pub open spec fn has_area(self, aid: Seq<char>) -> bool {
        exists|i: int| 0 <= i < self.entries@.len() && self.entries@[i].area_id@ == aid
    }

    /// The position of the record with this identifier.
    pub open spec fn idx_of(self, aid: Seq<char>) -> int {
        choose|i: int| 0 <= i < self.entries@.len() && self.entries@[i].area_id@ == aid
    }

    /// The record stored under this identifier.
    pub open spec fn meta_of(self, aid: Seq<char>) -> AreaMetadata {
        self.entries@[self.idx_of(aid)].meta
    }

    /// In a well-formed ledger, any position holding an identifier is
    /// the position the spec observations speak of.
    pub proof fn lemma_idx_unique(self, i: int, aid: Seq<char>)
        requires
            self.wf(),
            0 <= i < self.entries@.len(),
            self.entries@[i].area_id@ == aid,
        ensures
            self.has_area(aid),
            self.idx_of(aid) == i,
    {
        assert(self.has_area(aid));
        let j = self.idx_of(aid);
        if i < j {
            assert(self.entries@[i].area_id@ != self.entries@[j].area_id@);
        } else if j < i {
            assert(self.entries@[j].area_id@ != self.entries@[i].area_id@);
        }
    }

    pub fn new() -> (s: Self)
        ensures
            s.wf(),
            s.entries@.len() == 0,
            forall|aid: Seq<char>| !s.has_area(aid),
    {
        AreaLedger { entries: Vec::new() }
    }

    /// The position of the record with this identifier, if any.
    fn find(&self, area_id: &String) -> (r: Option<usize>)
        ensures
            match r {
                Some(i) => i < self.entries@.len() && self.entries@[i as int].area_id@
                    == area_id@,
                None => !self.has_area(area_id@),
            },
    {
        let n = self.entries.len();
        for i in 0..n
            invariant
                n == self.entries@.len(),
                forall|j: int| 0 <= j < i ==> self.entries@[j].area_id@ != area_id@,
        {
            if self.entries[i].area_id.eq(area_id) {
                return Some(i);
            }
        }
        None
    }

    /// The record stored under this identifier, or nothing.
    pub fn get(&self, area_id: &String) -> (r: Option<AreaMetadata>)
        requires
            self.wf(),
        ensures
            match r {
                Some(m) => self.has_area(area_id@) && m == self.meta_of(area_id@),
                None => !self.has_area(area_id@),
            },
    {
        match self.find(area_id) {
            Some(i) => {
                proof {
                    self.lemma_idx_unique(i as int, area_id@);
                }
                Some(self.entries[i].meta.clone())
            },
            None => None,
        }
    }

    /// Insert a record under its identifier, silently overwriting any
    /// record already there. The absence of an existence check lets a
    /// re-opened area's sold counter be reset; callers that must not
    /// lose a counter check for the area first.
    pub fn upsert(&mut self, area_id: String, meta: AreaMetadata)
        requires
            old(self).wf(),
        ensures
            final(self).wf(),
            forall|x: Seq<char>| final(self).has_area(x) <==> (old(self).has_area(x) || x == area_id@),
            final(self).meta_of(area_id@) == meta,
            forall|x: Seq<char>|
                x != area_id@ && old(self).has_area(x) ==> final(self).meta_of(x) == old(
                    self,
                ).meta_of(x),
            old(self).has_area(area_id@) ==> final(self).entries@ == old(self).entries@.update(
                old(self).idx_of(area_id@),
                AreaEntry { area_id, meta },
            ),
            !old(self).has_area(area_id@) ==> final(self).entries@ == old(self).entries@.push(
                AreaEntry { area_id, meta },
            ),
    {
        let ghost pre = *self;
        let ghost aid = area_id@;
        match self.find(&area_id) {
            Some(i) => {
                proof {
                    pre.lemma_idx_unique(i as int, aid);
                }
                self.entries[i] = AreaEntry { area_id, meta };
                proof {
                    let post = *self;
                    let idx = i as int;
                    assert(post.wf());
                    assert forall|x: Seq<char>|
                        post.has_area(x) <==> (pre.has_area(x) || x == aid) by {
                        if post.has_area(x) {
                            let m = post.idx_of(x);
                            if m != idx {
                                assert(pre.entries@[m].area_id@ == x);
                            }
                        }
                        if pre.has_area(x) {
                            let m = pre.idx_of(x);
                            if m != idx {
                                assert(post.entries@[m].area_id@ == x);
                            } else {
                                assert(x == aid);
                            }
                        }
                        if x == aid {
                            assert(post.entries@[idx].area_id@ == x);
                        }
                    }
                    post.lemma_idx_unique(idx, aid);
                    assert forall|x: Seq<char>|
                        x != aid && pre.has_area(x) implies post.meta_of(x) == pre.meta_of(x) by {
                        let m = pre.idx_of(x);
                        pre.lemma_idx_unique(m, x);
                        assert(m != idx);
                        post.lemma_idx_unique(m, x);
                    }
                }
            },
            None => {
                self.entries.push(AreaEntry { area_id, meta });
                proof {
                    let post = *self;
                    let n = pre.entries@.len() as int;
                    assert(post.wf());
                    assert forall|x: Seq<char>|
                        post.has_area(x) <==> (pre.has_area(x) || x == aid) by {
                        if post.has_area(x) {
                            let m = post.idx_of(x);
                            if m < n {
                                assert(pre.entries@[m].area_id@ == x);
                            }
                        }
                        if pre.has_area(x) {
                            let m = pre.idx_of(x);
                            assert(post.entries@[m].area_id@ == x);
                        }
                        if x == aid {
                            assert(post.entries@[n].area_id@ == x);
                        }
                    }
                    post.lemma_idx_unique(n, aid);
                    assert forall|x: Seq<char>|
                        x != aid && pre.has_area(x) implies post.meta_of(x) == pre.meta_of(x) by {
                        let m = pre.idx_of(x);
                        post.lemma_idx_unique(m, x);
                    }
                }
            },
        }
    }

    /// All area records, in storage order.
    pub fn values(&self) -> (r: Vec<AreaMetadata>)
        ensures
            r@.len() == self.entries@.len(),
            forall|i: int| 0 <= i < r@.len() ==> r@[i] == self.entries@[i].meta,
    {
        let n = self.entries.len();
        let mut r: Vec<AreaMetadata> = Vec::new();
        for i in 0..n
            invariant
                n == self.entries@.len(),
                r@.len() == i,
                forall|j: int| 0 <= j < i ==> r@[j] == self.entries@[j].meta,
        {
            r.push(self.entries[i].meta.clone());
        }
        r
    }
}

} // verus!
