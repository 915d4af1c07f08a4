//! The per-owner reverse index.
//!
//! For every owner identity the index keeps the set of token identifiers
//! it holds. Each owner's nested collection carries its own storage
//! namespace key, derived once from a hash of the owner identity so that
//! key sizes stay bounded however long the identity is.

use vstd::prelude::*;

verus! {

/// One owner's slot in the index: the identity, the hashed namespace key
/// of the nested collection, and the token identifiers held.
pub struct OwnerEntry {
    pub owner_id: String,
    pub key_hash: String,
    pub token_ids: Vec<String>,
}

/// Reverse mapping from owner identity to the set of token identifiers
/// it holds.
pub struct OwnerIndex {
    pub entries: Vec<OwnerEntry>,
}

impl OwnerEntry {
    /// The identifiers in this slot are pairwise distinct.
    pub open spec fn wf(self) -> bool {
        forall|i: int, j: int|
            0 <= i < j < self.token_ids@.len() ==> self.token_ids@[i]@ != self.token_ids@[j]@
    }

    /// Whether this slot lists the identifier.
    pub open spec fn lists(self, id: Seq<char>) -> bool {
        exists|k: int| 0 <= k < self.token_ids@.len() && self.token_ids@[k]@ == id
    }
}

impl OwnerIndex {
    /// Owners are unique and every slot is well-formed.
    pub open spec fn wf(self) -> bool {
        &&& forall|i: int, j: int|
            0 <= i < j < self.entries@.len() ==> self.entries@[i].owner_id@
                != self.entries@[j].owner_id@
        &&& forall|i: int| 0 <= i < self.entries@.len() ==> (#[trigger] self.entries@[i]).wf()
    }

    /// Whether the owner has a slot (possibly empty).
    pub open spec fn has_owner(self, owner: Seq<char>) -> bool {
        exists|i: int| 0 <= i < self.entries@.len() && self.entries@[i].owner_id@ == owner
    }

    /// The position of the owner's slot.
    pub open spec fn idx_of(self, owner: Seq<char>) -> int {
        choose|i: int| 0 <= i < self.entries@.len() && self.entries@[i].owner_id@ == owner
    }

    /// The owner's slot.
    pub open spec fn entry_of(self, owner: Seq<char>) -> OwnerEntry {
        self.entries@[self.idx_of(owner)]
    }

    /// Whether the index records the owner as holding the identifier.
    pub open spec fn holds(self, owner: Seq<char>, id: Seq<char>) -> bool {
        self.has_owner(owner) && self.entry_of(owner).lists(id)
    }

    /// In a well-formed index, any position holding an owner is the
    /// position the spec observations speak of.
    pub proof fn lemma_idx_unique(self, i: int, owner: Seq<char>)
        requires
            self.wf(),
            0 <= i < self.entries@.len(),
            self.entries@[i].owner_id@ == owner,
        ensures
            self.has_owner(owner),
            self.idx_of(owner) == i,
    {
        assert(self.has_owner(owner));
        let j = self.idx_of(owner);
        if i < j {
            assert(self.entries@[i].owner_id@ != self.entries@[j].owner_id@);
        } else if j < i {
            assert(self.entries@[j].owner_id@ != self.entries@[i].owner_id@);
        }
    }

    pub fn new() -> (s: Self)
        ensures
            s.wf(),
            s.entries@.len() == 0,
            forall|o: Seq<char>| !s.has_owner(o),
            forall|o: Seq<char>, t: Seq<char>| !s.holds(o, t),
    {
        OwnerIndex { entries: Vec::new() }
    }

    /// The position of the owner's slot, if any.
    fn find_owner(&self, owner: &String) -> (r: Option<usize>)
        ensures
            match r {
                Some(i) => i < self.entries@.len() && self.entries@[i as int].owner_id@ == owner@,
                None => !self.has_owner(owner@),
            },
    {
        let n = self.entries.len();
        for i in 0..n
            invariant
                n == self.entries@.len(),
                forall|j: int| 0 <= j < i ==> self.entries@[j].owner_id@ != owner@,
        {
            if self.entries[i].owner_id.eq(owner) {
                return Some(i);
            }
        }
        None
    }

    /// Whether the owner already has a slot.
    pub fn contains_owner(&self, owner: &String) -> (r: bool)
        requires
            self.wf(),
        ensures
            r == self.has_owner(owner@),
    {
        match self.find_owner(owner) {
            Some(i) => {
                proof {
                    self.lemma_idx_unique(i as int, owner@);
                }
                true
            },
            None => false,
        }
    }

    /// Record that the owner holds a further token identifier.
    ///
    /// The owner's slot is fetched, or created under a namespace key
    /// hashed from the identity, and the identifier is inserted.
    pub fn add(&mut self, owner: &String, key_hash: String, token_id: String)
        requires
            old(self).wf(),
            !old(self).holds(owner@, token_id@),
        ensures
            final(self).wf(),
            forall|o: Seq<char>, t: Seq<char>|
                final(self).holds(o, t) <==> (old(self).holds(o, t) || (o == owner@ && t
                    == token_id@)),
            forall|o: Seq<char>| final(self).has_owner(o) <==> (old(self).has_owner(o) || o == owner@),
            old(self).has_owner(owner@) ==> {
                &&& final(self).entries@.len() == old(self).entries@.len()
                &&& forall|j: int|
                    0 <= j < old(self).entries@.len() && j != old(self).idx_of(owner@) ==> final(self).entries@[j] == old(self).entries@[j]
                &&& final(self).entries@[old(self).idx_of(owner@)].owner_id == old(self).entry_of(
                    owner@,
                ).owner_id
                &&& final(self).entries@[old(self).idx_of(owner@)].key_hash == old(self).entry_of(
                    owner@,
                ).key_hash
                &&& final(self).entries@[old(self).idx_of(owner@)].token_ids@ == old(self).entry_of(owner@).token_ids@.push(token_id)
            },
            !old(self).has_owner(owner@) ==> {
                &&& final(self).entries@.len() == old(self).entries@.len() + 1
                &&& forall|j: int|
                    0 <= j < old(self).entries@.len() ==> final(self).entries@[j] == old(self).entries@[j]
                &&& final(self).entries@.last().owner_id@ == owner@
                &&& final(self).entries@.last().key_hash == key_hash
                &&& final(self).entries@.last().token_ids@ == seq![token_id]
            },
    {
        let ghost pre = *self;
        let ghost tid = token_id@;
        match self.find_owner(owner) {
            Some(i) => {
                proof {
                    pre.lemma_idx_unique(i as int, owner@);
                }
                self.entries[i].token_ids.push(token_id);
                proof {
                    let post = *self;
                    let idx = i as int;
                    let olds = pre.entries@[idx].token_ids@;
                    let news = post.entries@[idx].token_ids@;
                    assert(news == olds.push(token_id));
                    assert(forall|w: int| 0 <= w < olds.len() ==> olds[w]@ != tid);
                    assert(post.entries@[idx].wf()) by {
                        assert forall|a: int, b: int| 0 <= a < b < news.len() implies news[a]@
                            != news[b]@ by {
                            if b < olds.len() {
                                assert(pre.entries@[idx].wf());
                            } else {
                                assert(news[b]@ == tid);
                                assert(olds[a]@ != tid);
                            }
                        }
                    }
                    assert(post.wf());
                    assert forall|o: Seq<char>|
                        post.has_owner(o) <==> pre.has_owner(o) by {
                        if post.has_owner(o) {
                            let k = post.idx_of(o);
                            assert(pre.entries@[k].owner_id@ == o);
                        }
                        if pre.has_owner(o) {
                            let k = pre.idx_of(o);
                            assert(post.entries@[k].owner_id@ == o);
                        }
                    }
                    assert forall|o: Seq<char>, t: Seq<char>|
                        post.holds(o, t) <==> (pre.holds(o, t) || (o == owner@ && t == tid)) by {
                        if o == owner@ {
                            post.lemma_idx_unique(idx, o);
                            if pre.holds(o, t) {
                                let w = choose|w: int| 0 <= w < olds.len() && olds[w]@ == t;
                                assert(news[w]@ == t);
                                assert(post.holds(o, t));
                            }
                            if t == tid {
                                assert(news[olds.len() as int]@ == t);
                                assert(post.holds(o, t));
                            }
                            if post.holds(o, t) {
                                let w = choose|w: int| 0 <= w < news.len() && news[w]@ == t;
                                if w < olds.len() {
                                    assert(olds[w]@ == t);
                                    assert(pre.holds(o, t));
                                } else {
                                    assert(t == tid);
                                }
                            }
                        } else {
                            if pre.has_owner(o) {
                                let k = pre.idx_of(o);
                                assert(k != idx);
                                post.lemma_idx_unique(k, o);
                                assert(post.entries@[k] == pre.entries@[k]);
                            }
                            if post.has_owner(o) {
                                let k = post.idx_of(o);
                                assert(post.entries@[k].owner_id@ == o);
                                assert(k != idx);
                                pre.lemma_idx_unique(k, o);
                            }
                        }
                    }
                }
            },
            None => {
                self.entries.push(
                    OwnerEntry { owner_id: owner.clone(), key_hash, token_ids: vec![token_id] },
                );
                proof {
                    let post = *self;
                    let n = pre.entries@.len() as int;
                    assert(post.entries@.last().token_ids@ =~= seq![token_id]);
                    assert(forall|k: int| 0 <= k < n ==> pre.entries@[k].owner_id@ != owner@);
                    assert(post.entries@[n].wf());
                    assert(post.wf());
                    assert forall|o: Seq<char>|
                        post.has_owner(o) <==> (pre.has_owner(o) || o == owner@) by {
                        if post.has_owner(o) {
                            let k = post.idx_of(o);
                            if k < n {
                                assert(pre.entries@[k].owner_id@ == o);
                            } else {
                                assert(o == owner@);
                            }
                        }
                        if pre.has_owner(o) {
                            let k = pre.idx_of(o);
                            assert(post.entries@[k].owner_id@ == o);
                        }
                        if o == owner@ {
                            assert(post.entries@[n].owner_id@ == o);
                        }
                    }
                    assert forall|o: Seq<char>, t: Seq<char>|
                        post.holds(o, t) <==> (pre.holds(o, t) || (o == owner@ && t == tid)) by {
                        if o == owner@ {
                            post.lemma_idx_unique(n, o);
                            assert(post.entry_of(o).token_ids@ == seq![token_id]);
                            assert(post.entry_of(o).token_ids@[0]@ == tid);
                            if post.holds(o, t) {
                                let w = choose|w: int|
                                    0 <= w < post.entry_of(o).token_ids@.len() && post.entry_of(
                                        o,
                                    ).token_ids@[w]@ == t;
                                assert(w == 0);
                                assert(t == tid);
                            }
                            assert(!pre.has_owner(o));
                            if t == tid {
                                assert(post.entry_of(o).lists(t));
                            }
                        } else {
                            if post.has_owner(o) {
                                let k = post.idx_of(o);
                                assert(post.entries@[k].owner_id@ == o);
                                assert(k != n);
                                pre.lemma_idx_unique(k, o);
                                assert(post.entries@[k] == pre.entries@[k]);
                            }
                            if pre.has_owner(o) {
                                let k = pre.idx_of(o);
                                post.lemma_idx_unique(k, o);
                                assert(post.entries@[k] == pre.entries@[k]);
                            }
                        }
                    }
                }
            },
        }
    }

    /// Remove a token identifier from the owner's slot, if both exist.
    /// An emptied slot stays present.
    pub fn remove(&mut self, owner: &String, token_id: &String)
        requires
            old(self).wf(),
        ensures
            final(self).wf(),
            forall|o: Seq<char>, t: Seq<char>|
                final(self).holds(o, t) <==> (old(self).holds(o, t) && !(o == owner@ && t
                    == token_id@)),
            final(self).entries@.len() == old(self).entries@.len(),
            forall|o: Seq<char>| final(self).has_owner(o) <==> old(self).has_owner(o),
    {
        let ghost pre = *self;
        match self.find_owner(owner) {
            Some(i) => {
                proof {
                    pre.lemma_idx_unique(i as int, owner@);
                }
                let n = self.entries[i].token_ids.len();
                let mut k: usize = 0;
                while k < n
                    invariant
                        pre == *old(self),
                        pre.wf(),
                        i < pre.entries@.len(),
                        pre.entries@[i as int].owner_id@ == owner@,
                        pre.idx_of(owner@) == i,
                        n == pre.entries@[i as int].token_ids@.len(),
                        k <= n,
                        *self == pre,
                        forall|m: int|
                            0 <= m < k ==> pre.entries@[i as int].token_ids@[m]@ != token_id@,
                    decreases n - k,
                {
                    if self.entries[i].token_ids[k].eq(token_id) {
                        let _removed = self.entries[i].token_ids.remove(k);
                        proof {
                            let post = *self;
                            let idx = i as int;
                            let olds = pre.entries@[idx].token_ids@;
                            let news = post.entries@[idx].token_ids@;
                            assert(news == olds.remove(k as int));
                            assert(olds[k as int]@ == token_id@);
                            assert(forall|m: int|
                                0 <= m < post.entries@.len() ==> post.entries@[m].owner_id
                                    == pre.entries@[m].owner_id);
                            assert(post.entries@[idx].wf()) by {
                                assert forall|a: int, b: int| 0 <= a < b < news.len() implies news[a]@
                                    != news[b]@ by {
                                    let a2 = if a < k as int { a } else { a + 1 };
                                    let b2 = if b < k as int { b } else { b + 1 };
                                    assert(news[a] == olds[a2]);
                                    assert(news[b] == olds[b2]);
                                    assert(pre.entries@[idx].wf());
                                }
                            }
                            assert(post.wf());
                            assert forall|o: Seq<char>| post.has_owner(o) <==> pre.has_owner(o) by {
                                if post.has_owner(o) {
                                    let m = post.idx_of(o);
                                    assert(pre.entries@[m].owner_id@ == o);
                                }
                                if pre.has_owner(o) {
                                    let m = pre.idx_of(o);
                                    assert(post.entries@[m].owner_id@ == o);
                                }
                            }
                            assert forall|o: Seq<char>, t: Seq<char>|
                                post.holds(o, t) <==> (pre.holds(o, t) && !(o == owner@ && t
                                    == token_id@)) by {
                                if post.has_owner(o) {
                                    let m = post.idx_of(o);
                                    assert(post.entries@[m].owner_id@ == o);
                                    assert(pre.entries@[m].owner_id@ == o);
                                    pre.lemma_idx_unique(m, o);
                                    post.lemma_idx_unique(m, o);
                                    if o != owner@ {
                                        assert(m != idx);
                                        assert(post.entries@[m] == pre.entries@[m]);
                                    }
                                    if o == owner@ {
                                        assert(m == idx);
                                        assert forall|t2: Seq<char>|
                                            post.entry_of(o).lists(t2) <==> (pre.entry_of(o).lists(
                                                t2,
                                            ) && t2 != token_id@) by {
                                            if pre.entry_of(o).lists(t2) && t2 != token_id@ {
                                                let w = choose|w: int|
                                                    0 <= w < olds.len() && olds[w]@ == t2;
                                                if w < k as int {
                                                    assert(news[w]@ == t2);
                                                } else {
                                                    assert(w > k as int);
                                                    assert(news[w - 1]@ == t2);
                                                }
                                            }
                                            if post.entry_of(o).lists(t2) {
                                                let w = choose|w: int|
                                                    0 <= w < news.len() && news[w]@ == t2;
                                                if w < k as int {
                                                    assert(olds[w]@ == t2);
                                                    assert(olds[w]@ != token_id@);
                                                } else {
                                                    assert(olds[w + 1]@ == t2);
                                                    assert(olds[w + 1]@ != token_id@);
                                                }
                                            }
                                        }
                                    }
                                } else {
                                    if pre.has_owner(o) {
                                        let m = pre.idx_of(o);
                                        post.lemma_idx_unique(m, o);
                                    }
                                }
                            }
                        }
                        return ;
                    }
                    k += 1;
                }
                proof {
                    assert(!pre.entry_of(owner@).lists(token_id@));
                    assert forall|o: Seq<char>, t: Seq<char>|
                        pre.holds(o, t) <==> (pre.holds(o, t) && !(o == owner@ && t == token_id@))
                        by {
                        if o == owner@ && t == token_id@ && pre.holds(o, t) {
                            assert(pre.idx_of(o) == i);
                        }
                    }
                }
            },
            None => {
                assert forall|o: Seq<char>, t: Seq<char>|
                    pre.holds(o, t) <==> (pre.holds(o, t) && !(o == owner@ && t == token_id@)) by {
                    if o == owner@ {
                        assert(!pre.holds(o, t));
                    }
                }
            },
        }
    }

    /// Append a slot with no token identifiers, for the storage-cost
    /// calibration measurement.
    pub(crate) fn push_empty_entry(&mut self, owner_id: String, key_hash: String)
        requires
            old(self).wf(),
            !old(self).has_owner(owner_id@),
        ensures
            final(self).wf(),
            final(self).entries@.len() == old(self).entries@.len() + 1,
            final(self).entries@.last().owner_id == owner_id,
            final(self).entries@.last().key_hash == key_hash,
            final(self).entries@.last().token_ids@.len() == 0,
            forall|j: int|
                0 <= j < old(self).entries@.len() ==> final(self).entries@[j] == old(self).entries@[j],
            forall|o: Seq<char>, t: Seq<char>|
                final(self).holds(o, t) <==> old(self).holds(o, t),
    {
        let ghost pre = *self;
        self.entries.push(OwnerEntry { owner_id, key_hash, token_ids: Vec::new() });
        proof {
            let post = *self;
            let n = pre.entries@.len() as int;
            assert(post.wf());
            assert forall|o: Seq<char>, t: Seq<char>|
                post.holds(o, t) <==> pre.holds(o, t) by {
                if post.has_owner(o) {
                    let k = post.idx_of(o);
                    if k < n {
                        pre.lemma_idx_unique(k, o);
                    } else {
                        assert(post.entry_of(o).token_ids@.len() == 0);
                        assert(!post.entry_of(o).lists(t));
                    }
                }
                if pre.has_owner(o) {
                    let k = pre.idx_of(o);
                    post.lemma_idx_unique(k, o);
                }
            }
        }
    }

    /// Drop the most recently appended slot, undoing the calibration
    /// insertion.
    pub(crate) fn pop_entry(&mut self)
        requires
            old(self).wf(),
            old(self).entries@.len() > 0,
        ensures
            final(self).wf(),
            final(self).entries@ == old(self).entries@.drop_last(),
    {
        let _popped = self.entries.pop();
    }

    /// All token identifiers the owner holds, or an empty result if the
    /// owner has no slot.
    pub fn list(&self, owner: &String) -> (r: Vec<String>)
        requires
            self.wf(),
        ensures
            self.has_owner(owner@) ==> r@ == self.entry_of(owner@).token_ids@,
            !self.has_owner(owner@) ==> r@.len() == 0,
            forall|t: Seq<char>|
                self.holds(owner@, t) <==> exists|k: int| 0 <= k < r@.len() && r@[k]@ == t,
    {
        match self.find_owner(owner) {
            Some(i) => {
                proof {
                    self.lemma_idx_unique(i as int, owner@);
                }
                let ids = &self.entries[i].token_ids;
                let n = ids.len();
                let mut r: Vec<String> = Vec::new();
                for k in 0..n
                    invariant
                        n == ids@.len(),
                        r@.len() == k,
                        forall|m: int| 0 <= m < k ==> r@[m] == ids@[m],
                {
                    r.push(ids[k].clone());
                }
                proof {
                    assert(r@ =~= self.entry_of(owner@).token_ids@);
                }
                r
            },
            None => Vec::new(),
        }
    }
}

} // verus!
