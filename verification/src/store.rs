//! The authoritative token store.
//!
//! Maps each token identifier to its token record and metadata, inserted
//! as a unit so that neither can exist without the other, and enforces
//! identifier uniqueness. Tokens are permanent: no delete path exists.

use vstd::prelude::*;
use crate::errors::ContractError;
use crate::metadata::{Token, TokenMetadata};

verus! {

/// One stored token: the identifier, the ownership record and the
/// descriptive metadata, kept together as a unit.
pub struct TokenEntry {
    pub token_id: String,
    pub token: Token,
    pub metadata: TokenMetadata,
}

/// The primary mapping from token identifier to token record and
/// metadata.
pub struct TokenStore {
    pub entries: Vec<TokenEntry>,
}

impl TokenStore {
    /// Identifiers are unique across the store.
    pub open spec fn wf(self) -> bool {
        forall|i: int, j: int|
            0 <= i < j < self.entries@.len() ==> self.entries@[i].token_id@
                != self.entries@[j].token_id@
    }

    /// Whether a token with this identifier exists.
    pub open spec fn has_id(self, id: Seq<char>) -> bool {
        exists|i: int| 0 <= i < self.entries@.len() && self.entries@[i].token_id@ == id
    }

    /// The position of the entry with this identifier.
    pub open spec fn idx_of(self, id: Seq<char>) -> int {
        choose|i: int| 0 <= i < self.entries@.len() && self.entries@[i].token_id@ == id
    }

    /// The stored entry for this identifier.
    pub open spec fn entry_of(self, id: Seq<char>) -> TokenEntry {
        self.entries@[self.idx_of(id)]
    }

    /// The owner of the token with this identifier.
    pub open spec fn owner_of(self, id: Seq<char>) -> Seq<char> {
        self.entry_of(id).token.owner_id@
    }

    /// The metadata of the token with this identifier.
    pub open spec fn meta_of(self, id: Seq<char>) -> TokenMetadata {
        self.entry_of(id).metadata
    }

    /// In a well-formed store, any position holding an identifier is the
    /// position the spec observations speak of.
    pub proof fn lemma_idx_unique(self, i: int, id: Seq<char>)
        requires
            self.wf(),
            0 <= i < self.entries@.len(),
            self.entries@[i].token_id@ == id,
        ensures
            self.has_id(id),
            self.idx_of(id) == i,
    {
        assert(self.has_id(id));
        let j = self.idx_of(id);
        if i < j {
            assert(self.entries@[i].token_id@ != self.entries@[j].token_id@);
        } else if j < i {
            assert(self.entries@[j].token_id@ != self.entries@[i].token_id@);
        }
    }

    pub fn new() -> (s: Self)
        ensures
            s.wf(),
            s.entries@.len() == 0,
            forall|id: Seq<char>| !s.has_id(id),
    {
        TokenStore { entries: Vec::new() }
    }

    /// The position of the entry with this identifier, if any.
    fn find(&self, token_id: &String) -> (r: Option<usize>)
        ensures
            match r {
                Some(i) => i < self.entries@.len() && self.entries@[i as int].token_id@
                    == token_id@,
                None => !self.has_id(token_id@),
            },
    {
        let n = self.entries.len();
        for i in 0..n
            invariant
                n == self.entries@.len(),
                forall|j: int| 0 <= j < i ==> self.entries@[j].token_id@ != token_id@,
        {
            if self.entries[i].token_id.eq(token_id) {
                return Some(i);
            }
        }
        None
    }

    /// Whether a token with this identifier exists.
    pub fn contains(&self, token_id: &String) -> (r: bool)
        ensures
            r == self.has_id(token_id@),
    {
        match self.find(token_id) {
            Some(i) => {
                proof {
                    assert(self.has_id(token_id@));
                }
                true
            },
            None => false,
        }
    }

    /// Insert a token and its metadata as a unit.
    ///
    /// Fails with `DuplicateIdentifier`, leaving the store unchanged, if
    /// and only if the identifier is already present.
    pub fn insert(&mut self, token_id: String, token: Token, metadata: TokenMetadata) -> (r: Result<
        (),
        ContractError,
    >)
        requires
            old(self).wf(),
        ensures
            final(self).wf(),
            old(self).has_id(token_id@) ==> r == Result::<(), ContractError>::Err(
                ContractError::DuplicateIdentifier,
            ) && *final(self) == *old(self),
            !old(self).has_id(token_id@) ==> {
                &&& r == Result::<(), ContractError>::Ok(())
                &&& final(self).entries@ == old(self).entries@.push(
                    TokenEntry { token_id, token, metadata },
                )
                &&& forall|t: Seq<char>|
                    final(self).has_id(t) <==> (old(self).has_id(t) || t == token_id@)
                &&& final(self).entry_of(token_id@) == (TokenEntry { token_id, token, metadata })
                &&& final(self).owner_of(token_id@) == token.owner_id@
                &&& final(self).meta_of(token_id@) == metadata
                &&& forall|t: Seq<char>|
                    old(self).has_id(t) && t != token_id@ ==> #[trigger] final(self).entry_of(t)
                        == old(self).entry_of(t)
            },
    {
        if self.contains(&token_id) {
            return Err(ContractError::DuplicateIdentifier);
        }
        let ghost pre = *self;
        let ghost new_id = token_id@;
        self.entries.push(TokenEntry { token_id, token, metadata });
        proof {
            let post = *self;
            let n = pre.entries@.len() as int;
            assert forall|i: int, j: int| 0 <= i < j < post.entries@.len() implies post.entries@[i].token_id@
                != post.entries@[j].token_id@ by {
                if j < post.entries@.len() - 1 {
                    assert(pre.wf());
                } else {
                    assert(post.entries@[j].token_id@ == new_id);
                    assert(!pre.has_id(new_id));
                }
            }
            assert forall|t: Seq<char>|
                post.has_id(t) <==> (pre.has_id(t) || t == new_id) by {
                if post.has_id(t) {
                    let k = post.idx_of(t);
                    if k < n {
                        assert(pre.entries@[k].token_id@ == t);
                    } else {
                        assert(t == new_id);
                    }
                }
                if pre.has_id(t) {
                    let k = pre.idx_of(t);
                    assert(post.entries@[k].token_id@ == t);
                }
                if t == new_id {
                    assert(post.entries@[n].token_id@ == t);
                }
            }
            post.lemma_idx_unique(n, new_id);
            assert forall|t: Seq<char>|
                pre.has_id(t) && t != new_id implies #[trigger] post.entry_of(t) == pre.entry_of(
                t,
            ) by {
                let k = pre.idx_of(t);
                pre.lemma_idx_unique(k, t);
                post.lemma_idx_unique(k, t);
            }
        }
        Ok(())
    }

    /// The metadata stored under this identifier, or nothing.
    pub fn get(&self, token_id: &String) -> (r: Option<TokenMetadata>)
        requires
            self.wf(),
        ensures
            match r {
                Some(m) => self.has_id(token_id@) && m == self.meta_of(token_id@),
                None => !self.has_id(token_id@),
            },
    {
        match self.find(token_id) {
            Some(i) => {
                proof {
                    self.lemma_idx_unique(i as int, token_id@);
                }
                Some(self.entries[i].metadata.clone())
            },
            None => None,
        }
    }

    /// The owner recorded under this identifier, or nothing.
    pub fn owner(&self, token_id: &String) -> (r: Option<String>)
        requires
            self.wf(),
        ensures
            match r {
                Some(o) => self.has_id(token_id@) && o@ == self.owner_of(token_id@),
                None => !self.has_id(token_id@),
            },
    {
        match self.find(token_id) {
            Some(i) => {
                proof {
                    self.lemma_idx_unique(i as int, token_id@);
                }
                Some(self.entries[i].token.owner_id.clone())
            },
            None => None,
        }
    }
}

} // verus!
