//! The contract aggregate and its externally invoked operations.
//!
//! All persistent state lives in one owned aggregate passed by exclusive
//! mutable reference into each operation; the hosting environment runs
//! one call to completion at a time. Every operation either completes
//! and reports success, or fails and leaves the whole aggregate exactly
//! as it was — the all-or-nothing call semantics the design relies on.

use vstd::prelude::*;
use crate::areas::{AreaEntry, AreaLedger};
use crate::errors::ContractError;
use crate::ids::{derive_id, id_of, make_seed, seed_of, dec_of, u64_to_dec, lemma_hex_of_ascii};
use crate::index::{OwnerEntry, OwnerIndex};
use crate::metadata::{AreaMetadata, NFTMetadata, Token, TokenMetadata};
use crate::meter::{
    area_entry_bytes, blen, lemma_ascii_blen, lemma_sum_area_entry_bytes_update,
    lemma_sum_owner_entry_bytes_push, lemma_sum_owner_entry_bytes_update,
    lemma_sum_token_entry_bytes_push, lemma_sum_token_id_bytes_push, meta_bytes,
    meta_storage_bytes, owner_entry_bytes, sstr, str_storage_bytes, sum_approval_bytes,
    sum_area_entry_bytes, sum_owner_entry_bytes, sum_token_entry_bytes, sum_token_id_bytes,
    token_entry_bytes, token_id_item_bytes, fresh_token_storage_bytes,
    OWNER_ENTRY_BASE_BYTES, STRING_HEADER_BYTES, TOKEN_ENTRY_BASE_BYTES, TOKEN_ID_ITEM_BASE_BYTES,
    OPTION_TAG_BYTES, U64_FIELD_BYTES, VEC_HEADER_BYTES,
};
use crate::store::{TokenEntry, TokenStore};

verus! {

/// Which of the sale-window checks are enforced. The reference design
/// left the close-time, capacity and exact-price checks inconsistently
/// enabled; the choice is made explicit here instead of being picked
/// silently.
#[derive(Clone, Copy, PartialEq, Eq, Structural, Debug)]
pub struct SalePolicy {
    pub enforce_close_time: bool,
    pub enforce_limit: bool,
    pub enforce_exact_price: bool,
}

/// Gas attached to the box-transfer dispatch.
pub const PREPARE_GAS: u64 = 15_000_000_000_000;

/// A cross-contract call the caller must dispatch after opening a box:
/// an explicit message in place of an unacknowledged side effect, so
/// the dispatch and its risk are visible to the caller.
pub struct BoxTransferRequest {
    /// The companion token contract the call goes to.
    pub target_contract: String,
    /// The account to receive the transferred box tokens.
    pub receiver_id: String,
    /// The token amount, as the companion contract's interface takes it.
    pub amount: String,
    pub memo: Option<String>,
    pub attached_deposit: u128,
    pub gas: u64,
}

/// The whole persistent state of the ledger.
pub struct Contract {
    pub tokens_per_owner: OwnerIndex,
    pub tokens_by_id: TokenStore,
    pub owner_id: String,
    /// The calibrated extra storage bytes charged per token, computed
    /// once at construction and strictly positive.
    pub extra_storage_in_bytes_per_token: u64,
    pub metadata: NFTMetadata,
    pub area_metadata_by_id: AreaLedger,
    pub total: u64,
    pub policy: SalePolicy,
}

impl Contract {
    /// Every component is well-formed, the reverse index lists exactly
    /// the pairs the token store records, and, where the capacity check
    /// is enforced, no area has sold past its limit.
    pub open spec fn wf(self) -> bool {
        &&& self.tokens_by_id.wf()
        &&& self.tokens_per_owner.wf()
        &&& self.area_metadata_by_id.wf()
        &&& forall|o: Seq<char>, t: Seq<char>|
            #[trigger] self.tokens_per_owner.holds(o, t) <==> (self.tokens_by_id.has_id(t)
                && self.tokens_by_id.owner_of(t) == o)
        &&& self.policy.enforce_limit ==> forall|aid: Seq<char>|
            #[trigger] self.area_metadata_by_id.has_area(aid)
                ==> self.area_metadata_by_id.meta_of(aid).land_sold
                <= self.area_metadata_by_id.meta_of(aid).limit
    }

    /// The byte usage of the whole persistent state under the storage
    /// model: the owner index, the token store and the area ledger.
    pub open spec fn storage_bytes(self) -> int {
        sum_owner_entry_bytes(self.tokens_per_owner.entries@) + sum_token_entry_bytes(
            self.tokens_by_id.entries@,
        ) + sum_area_entry_bytes(self.area_metadata_by_id.entries@)
    }

    /// The calibration result: the marginal bytes of one owner-index
    /// slot for a maximally sized (64-byte) account identity, plus the
    /// difference between that synthetic identity's length and the
    /// contract owner's.
    pub open spec fn spec_calibration_extra(owner: Seq<char>) -> int {
        OWNER_ENTRY_BASE_BYTES + 2 * (STRING_HEADER_BYTES + 64) + (64 - blen(owner))
    }

    /// Calibrate the fixed extra storage cost per token: insert a
    /// synthetic owner-index slot for a maximally sized account,
    /// measure the marginal bytes it consumes, adjust for the real
    /// owner's identity length, and remove the slot again.
    fn measure_min_token_storage_cost(&mut self)
        requires
            old(self).tokens_per_owner.wf(),
            old(self).tokens_per_owner.entries@.len() == 0,
            blen(old(self).owner_id@) <= 64,
        ensures
            final(self).extra_storage_in_bytes_per_token as int == Self::spec_calibration_extra(
                old(self).owner_id@,
            ),
            final(self).extra_storage_in_bytes_per_token > 0,
            final(self).tokens_per_owner.entries@ == old(self).tokens_per_owner.entries@,
            final(self).tokens_by_id == old(self).tokens_by_id,
            final(self).owner_id == old(self).owner_id,
            final(self).metadata == old(self).metadata,
            final(self).area_metadata_by_id == old(self).area_metadata_by_id,
            final(self).total == old(self).total,
            final(self).policy == old(self).policy,
    {
        let ghost pre = *self;
        let ghost before_bytes = pre.storage_bytes();
        let tmp_account_id = String::from_str(
            "aaaaaaaaaaaaaaaaaaaaaaaaaaaaaaaaaaaaaaaaaaaaaaaaaaaaaaaaaaaaaaaa",
        );
        proof {
            reveal_strlit("aaaaaaaaaaaaaaaaaaaaaaaaaaaaaaaaaaaaaaaaaaaaaaaaaaaaaaaaaaaaaaaa");
            assert(tmp_account_id@.len() == 64);
            assert(vstd::utf8::is_ascii_chars(tmp_account_id@));
            lemma_ascii_blen(tmp_account_id@);
        }
        let key_hash = derive_id(tmp_account_id.as_str());
        proof {
            lemma_hex_of_ascii(crate::ids::sha256_of(vstd::utf8::encode_utf8(tmp_account_id@)));
            lemma_ascii_blen(key_hash@);
        }
        let tmp_bytes = str_storage_bytes(&tmp_account_id);
        let key_bytes = str_storage_bytes(&key_hash);
        self.tokens_per_owner.push_empty_entry(tmp_account_id, key_hash);
        proof {
            // The marginal bytes of the synthetic slot are exactly the
            // growth of the whole state's byte usage.
            assert(self.tokens_per_owner.entries@.drop_last()
                =~= pre.tokens_per_owner.entries@);
            lemma_sum_owner_entry_bytes_push(
                pre.tokens_per_owner.entries@,
                self.tokens_per_owner.entries@.last(),
            );
            assert(sum_token_id_bytes(self.tokens_per_owner.entries@.last().token_ids@) == 0);
        }
        let tokens_per_owner_entry_in_bytes: u128 = OWNER_ENTRY_BASE_BYTES as u128 + tmp_bytes
            + key_bytes;
        proof {
            let mid = Contract { tokens_per_owner: self.tokens_per_owner, ..pre };
            assert(tokens_per_owner_entry_in_bytes == mid.storage_bytes() - before_bytes);
        }
        let owner_len = self.owner_id.as_str().as_bytes().len();
        let owner_id_extra_cost_in_bytes: u64 = 64 - (owner_len as u64);
        self.extra_storage_in_bytes_per_token = (tokens_per_owner_entry_in_bytes as u64)
            + owner_id_extra_cost_in_bytes;
        self.tokens_per_owner.pop_entry();
        proof {
            assert(self.tokens_per_owner.entries@ =~= pre.tokens_per_owner.entries@);
        }
    }

    /// Construct the ledger with the given owner, collection metadata
    /// and sale policy, and calibrate the storage meter once.
    ///
    /// Account identities are at most 64 bytes; the calibration
    /// measures against a synthetic 64-byte identity.
    pub fn new(owner_id: String, metadata: NFTMetadata, policy: SalePolicy) -> (c: Contract)
        requires
            blen(owner_id@) <= 64,
        ensures
            c.wf(),
            c.tokens_by_id.entries@.len() == 0,
            c.tokens_per_owner.entries@.len() == 0,
            c.area_metadata_by_id.entries@.len() == 0,
            forall|t: Seq<char>| !c.tokens_by_id.has_id(t),
            forall|o: Seq<char>, t: Seq<char>| !c.tokens_per_owner.holds(o, t),
            forall|aid: Seq<char>| !c.area_metadata_by_id.has_area(aid),
            c.owner_id == owner_id,
            c.metadata == metadata,
            c.policy == policy,
            c.total == 0,
            c.extra_storage_in_bytes_per_token as int == Self::spec_calibration_extra(owner_id@),
            c.extra_storage_in_bytes_per_token > 0,
    {
        let mut this = Contract {
            tokens_per_owner: OwnerIndex::new(),
            tokens_by_id: TokenStore::new(),
            owner_id,
            extra_storage_in_bytes_per_token: 0,
            metadata,
            area_metadata_by_id: AreaLedger::new(),
            total: 0,
            policy,
        };
        this.measure_min_token_storage_cost();
        this
    }

    /// Construct the ledger with the default collection metadata.
    pub fn new_default_meta(owner_id: String, policy: SalePolicy) -> (c: Contract)
        requires
            blen(owner_id@) <= 64,
        ensures
            c.wf(),
            c.tokens_by_id.entries@.len() == 0,
            c.tokens_per_owner.entries@.len() == 0,
            c.area_metadata_by_id.entries@.len() == 0,
            c.owner_id == owner_id,
            c.policy == policy,
            c.total == 0,
            c.extra_storage_in_bytes_per_token as int == Self::spec_calibration_extra(owner_id@),
            c.extra_storage_in_bytes_per_token > 0,
            c.metadata.spec@ == "nft-1.0.0"@,
            c.metadata.name@ == "The metaverse"@,
            c.metadata.symbol@ == "Land"@,
            c.metadata.icon matches Some(i) && i@ == "data:image/svg+xml,%3Csvg xmlns='http://www.w3.org/2000/svg' viewBox='0 0 288 288'%3E%3Cg id='l' data-name='l'%3E%3Cpath d='M187.58,79.81l-30.1,44.69a3.2,3.2,0,0,0,4.75,4.2L191.86,103a1.2,1.2,0,0,1,2,.91v80.46a1.2,1.2,0,0,1-2.12.77L102.18,77.93A15.35,15.35,0,0,0,90.47,72.5H87.34A15.34,15.34,0,0,0,72,87.84V201.16A15.34,15.34,0,0,0,87.34,216.5h0a15.35,15.35,0,0,0,13.08-7.31l30.1-44.69a3.2,3.2,0,0,0-4.75-4.2L96.14,186a1.2,1.2,0,0,1-2-.91V104.61a1.2,1.2,0,0,1,2.12-.77l89.55,107.23a15.35,15.35,0,0,0,11.71,5.43h3.13A15.34,15.34,0,0,0,216,201.16V87.84A15.34,15.34,0,0,0,200.66,72.5h0A15.35,15.35,0,0,0,187.58,79.81Z'/%3E%3C/g%3E%3C/svg%3E"@,
            c.metadata.base_uri is None,
            c.metadata.reference is None,
            c.metadata.reference_hash is None,
    {
        Contract::new(
            owner_id,
            NFTMetadata {
                spec: String::from_str("nft-1.0.0"),
                name: String::from_str("The metaverse"),
                symbol: String::from_str("Land"),
                icon: Some(
                    String::from_str(
                        "data:image/svg+xml,%3Csvg xmlns='http://www.w3.org/2000/svg' viewBox='0 0 288 288'%3E%3Cg id='l' data-name='l'%3E%3Cpath d='M187.58,79.81l-30.1,44.69a3.2,3.2,0,0,0,4.75,4.2L191.86,103a1.2,1.2,0,0,1,2,.91v80.46a1.2,1.2,0,0,1-2.12.77L102.18,77.93A15.35,15.35,0,0,0,90.47,72.5H87.34A15.34,15.34,0,0,0,72,87.84V201.16A15.34,15.34,0,0,0,87.34,216.5h0a15.35,15.35,0,0,0,13.08-7.31l30.1-44.69a3.2,3.2,0,0,0-4.75-4.2L96.14,186a1.2,1.2,0,0,1-2-.91V104.61a1.2,1.2,0,0,1,2.12-.77l89.55,107.23a15.35,15.35,0,0,0,11.71,5.43h3.13A15.34,15.34,0,0,0,216,201.16V87.84A15.34,15.34,0,0,0,200.66,72.5h0A15.35,15.35,0,0,0,187.58,79.81Z'/%3E%3C/g%3E%3C/svg%3E",
                    ),
                ),
                base_uri: None,
                reference: None,
                reference_hash: None,
            },
            policy,
        )
    }

    /// The account that receives a minted token: the explicit receiver
    /// if one is given, else the caller.
    pub open spec fn spec_mint_owner(receiver_id: Option<String>, caller: String) -> Seq<char> {
        match receiver_id {
            Option::Some(r) => r@,
            Option::None => caller@,
        }
    }

    /// The identifier a mint uses: the explicit one if supplied, else
    /// the decimal rendering of the current record count plus one.
    pub open spec fn spec_final_token_id(self, token_id: Option<String>) -> Seq<char> {
        match token_id {
            Option::Some(t) => t@,
            Option::None => dec_of((self.tokens_by_id.entries@.len() + 1) as nat),
        }
    }

    /// The storage growth a mint causes: the token record with its
    /// metadata, one identifier in the owner's index slot, and, if the
    /// owner has no slot yet, a fresh slot under a hashed namespace key.
    pub open spec fn spec_mint_delta(self, id: Seq<char>, owner: Seq<char>, m: TokenMetadata) -> int {
        TOKEN_ENTRY_BASE_BYTES + sstr(id) + (sstr(owner) + VEC_HEADER_BYTES + U64_FIELD_BYTES)
            + meta_bytes(m) + token_id_item_bytes(id) + if self.tokens_per_owner.has_owner(owner) {
            0
        } else {
            OWNER_ENTRY_BASE_BYTES + sstr(owner) + sstr(id_of(owner))
        }
    }

    /// The deposit a mint requires: the calibrated per-token constant
    /// plus the storage growth this mint causes.
    pub open spec fn spec_mint_required(self, id: Seq<char>, owner: Seq<char>, m: TokenMetadata) -> int {
        self.extra_storage_in_bytes_per_token + self.spec_mint_delta(id, owner, m)
    }

    /// Mint a token: derive or take its identifier, insert the token
    /// and its metadata as a unit, record it in the receiver's reverse
    /// index, and settle the attached deposit against the metered
    /// storage growth, refunding the excess.
    ///
    /// Fails with `DuplicateIdentifier` if the identifier exists, and
    /// with `InsufficientDeposit` if the deposit is below the metered
    /// requirement; either failure leaves the state unchanged.
    #[verifier::rlimit(100)]
    pub fn nft_mint(
        &mut self,
        token_id: Option<String>,
        metadata: TokenMetadata,
        receiver_id: Option<String>,
        caller: String,
        deposit: u128,
    ) -> (r: Result<u128, ContractError>)
        requires
            old(self).wf(),
            token_id is None ==> old(self).tokens_by_id.entries@.len() < u64::MAX,
        ensures
            final(self).wf(),
            final(self).owner_id == old(self).owner_id,
            final(self).extra_storage_in_bytes_per_token == old(self).extra_storage_in_bytes_per_token,
            final(self).metadata == old(self).metadata,
            final(self).total == old(self).total,
            final(self).policy == old(self).policy,
            final(self).area_metadata_by_id == old(self).area_metadata_by_id,
            ({
                let fid = old(self).spec_final_token_id(token_id);
                let owner = Self::spec_mint_owner(receiver_id, caller);
                let req = old(self).spec_mint_required(fid, owner, metadata);
                &&& (old(self).tokens_by_id.has_id(fid) ==> r == Result::<u128, ContractError>::Err(
                    ContractError::DuplicateIdentifier,
                ) && *final(self) == *old(self))
                &&& (!old(self).tokens_by_id.has_id(fid) && (deposit as int) < req ==> r
                    == Result::<u128, ContractError>::Err(ContractError::InsufficientDeposit)
                    && *final(self) == *old(self))
                &&& (!old(self).tokens_by_id.has_id(fid) && (deposit as int) >= req ==> {
                    &&& r == Result::<u128, ContractError>::Ok((deposit - req) as u128)
                    &&& forall|t: Seq<char>|
                        final(self).tokens_by_id.has_id(t) <==> (old(self).tokens_by_id.has_id(t)
                            || t == fid)
                    &&& final(self).tokens_by_id.owner_of(fid) == owner
                    &&& final(self).tokens_by_id.meta_of(fid) == metadata
                    &&& final(self).tokens_by_id.entry_of(
                        fid,
                    ).token.approved_account_ids@.len() == 0
                    &&& final(self).tokens_by_id.entry_of(fid).token.next_approval_id == 0
                    &&& forall|t: Seq<char>|
                        old(self).tokens_by_id.has_id(t) && t != fid ==> #[trigger] final(self).tokens_by_id.entry_of(t) == old(self).tokens_by_id.entry_of(t)
                    &&& forall|o: Seq<char>, t: Seq<char>|
                        final(self).tokens_per_owner.holds(o, t) <==> (old(self).tokens_per_owner.holds(o, t) || (o == owner && t == fid))
                    &&& final(self).storage_bytes() == old(self).storage_bytes() + old(self).spec_mint_delta(fid, owner, metadata)
                })
            }),
    {
        let ghost pre = *self;
        let final_token_id: String = match token_id {
            Some(t) => t,
            None => {
                let count = self.tokens_by_id.entries.len() as u64;
                u64_to_dec(count + 1)
            },
        };
        let ghost fid = final_token_id@;
        if self.tokens_by_id.contains(&final_token_id) {
            return Err(ContractError::DuplicateIdentifier);
        }
        let owner_id: String = match receiver_id {
            Some(r) => r,
            None => caller,
        };
        let ghost owner = owner_id@;
        let token = Token {
            owner_id: owner_id.clone(),
            approved_account_ids: Vec::new(),
            next_approval_id: 0,
        };
        let id_bytes = str_storage_bytes(&final_token_id);
        let token_b = fresh_token_storage_bytes(&token);
        let meta_b = meta_storage_bytes(&metadata);
        let entry_b: u128 = TOKEN_ENTRY_BASE_BYTES as u128 + id_bytes + token_b + meta_b;
        let item_b: u128 = TOKEN_ID_ITEM_BASE_BYTES as u128 + id_bytes;
        let has_slot = self.tokens_per_owner.contains_owner(&owner_id);
        let mut key_hash = String::new();
        let mut slot_b: u128 = 0;
        if !has_slot {
            key_hash = derive_id(owner_id.as_str());
            slot_b = OWNER_ENTRY_BASE_BYTES as u128 + str_storage_bytes(&owner_id)
                + str_storage_bytes(&key_hash);
        }
        let delta: u128 = entry_b + item_b + slot_b;
        proof {
            assert(delta == pre.spec_mint_delta(fid, owner, metadata));
        }
        let required: u128 = self.extra_storage_in_bytes_per_token as u128 + delta;
        if deposit < required {
            return Err(ContractError::InsufficientDeposit);
        }
        let ghost pushed_entry = TokenEntry { token_id: final_token_id, token, metadata };
        let insert_result = self.tokens_by_id.insert(
            final_token_id.clone(),
            token,
            metadata,
        );
        proof {
            assert(insert_result is Ok);
            assert(!pre.tokens_per_owner.holds(owner, fid));
        }
        self.tokens_per_owner.add(&owner_id, key_hash, final_token_id);
        proof {
            let post = *self;
            assert(post.tokens_by_id.wf());
            assert forall|o: Seq<char>, t: Seq<char>|
                #[trigger] post.tokens_per_owner.holds(o, t) <==> (post.tokens_by_id.has_id(t)
                    && post.tokens_by_id.owner_of(t) == o) by {
                if post.tokens_per_owner.holds(o, t) {
                    if o == owner && t == fid {
                        assert(post.tokens_by_id.has_id(t));
                        assert(post.tokens_by_id.owner_of(fid) == owner);
                    } else {
                        assert(pre.tokens_per_owner.holds(o, t));
                        assert(pre.tokens_by_id.has_id(t) && pre.tokens_by_id.owner_of(t) == o);
                        assert(t != fid);
                        assert(post.tokens_by_id.entry_of(t) == pre.tokens_by_id.entry_of(t));
                    }
                }
                if post.tokens_by_id.has_id(t) && post.tokens_by_id.owner_of(t) == o {
                    if t == fid {
                        assert(post.tokens_by_id.owner_of(fid) == owner);
                        assert(o == owner);
                        assert(post.tokens_per_owner.holds(o, t));
                    } else {
                        assert(pre.tokens_by_id.has_id(t));
                        assert(post.tokens_by_id.entry_of(t) == pre.tokens_by_id.entry_of(t));
                        assert(pre.tokens_by_id.owner_of(t) == o);
                        assert(pre.tokens_per_owner.holds(o, t));
                    }
                }
            }
            // The metered delta is exactly the growth of the whole
            // state's byte usage.
            lemma_sum_token_entry_bytes_push(pre.tokens_by_id.entries@, pushed_entry);
            assert(sum_approval_bytes(pushed_entry.token.approved_account_ids@) == 0);
            assert(token_entry_bytes(pushed_entry) == entry_b);
            if pre.tokens_per_owner.has_owner(owner) {
                let idx = pre.tokens_per_owner.idx_of(owner);
                let olde = pre.tokens_per_owner.entries@[idx];
                let newe = post.tokens_per_owner.entries@[idx];
                assert(post.tokens_per_owner.entries@ =~= pre.tokens_per_owner.entries@.update(
                    idx,
                    newe,
                ));
                lemma_sum_owner_entry_bytes_update(pre.tokens_per_owner.entries@, idx, newe);
                lemma_sum_token_id_bytes_push(olde.token_ids@, newe.token_ids@.last());
                assert(newe.token_ids@.drop_last() =~= olde.token_ids@);
                assert(owner_entry_bytes(newe) == owner_entry_bytes(olde) + token_id_item_bytes(
                    fid,
                ));
            } else {
                let newe = post.tokens_per_owner.entries@.last();
                assert(post.tokens_per_owner.entries@ =~= pre.tokens_per_owner.entries@.push(
                    newe,
                ));
                lemma_sum_owner_entry_bytes_push(pre.tokens_per_owner.entries@, newe);
                assert(newe.token_ids@.drop_last() =~= Seq::<String>::empty());
                assert(sum_token_id_bytes(Seq::<String>::empty()) == 0);
                assert(newe.token_ids@.last()@ == fid);
                assert(sum_token_id_bytes(newe.token_ids@) == token_id_item_bytes(fid));
                assert(owner_entry_bytes(newe) == OWNER_ENTRY_BASE_BYTES + sstr(owner) + sstr(
                    id_of(owner),
                ) + token_id_item_bytes(fid));
            }
            assert(post.storage_bytes() == pre.storage_bytes() + pre.spec_mint_delta(
                fid,
                owner,
                metadata,
            ));
        }
        Ok(deposit - required)
    }

    /// The metadata record a land purchase mints: title and description
    /// are the item's seed name, the city is the area's name, and the
    /// remaining descriptive fields are fixed.
    pub open spec fn spec_is_land_metadata(
        m: TokenMetadata,
        seed: Seq<char>,
        name: Seq<char>,
        now: u64,
    ) -> bool {
        &&& m.title matches Some(t) && t@ == seed
        &&& m.description matches Some(d) && d@ == seed
        &&& m.media matches Some(u) && u@
            == "https://res.cloudinary.com/dcrbaasbt/image/upload/v1637838225/257513804_224195603181581_4280639743210185776_n_nwqzoz.png"@
        &&& m.media_hash is None
        &&& m.copies == Some(1u64)
        &&& m.issued_at == Some(now)
        &&& m.city matches Some(c) && c@ == name
        &&& m.location matches Some(l) && l@ == "10, 20"@
        &&& m.rare matches Some(x) && x@ == "R"@
        &&& m.level is None
        &&& m.company_type is None
        &&& m.mining_efficiency == Some(1u64)
        &&& m.mining_power == Some(10u64)
    }

    /// Stored bytes of a land purchase's metadata record.
    pub open spec fn land_meta_bytes(seed: Seq<char>, name: Seq<char>) -> int {
        (OPTION_TAG_BYTES + sstr(seed)) + (OPTION_TAG_BYTES + sstr(seed)) + (OPTION_TAG_BYTES
            + sstr(
            "https://res.cloudinary.com/dcrbaasbt/image/upload/v1637838225/257513804_224195603181581_4280639743210185776_n_nwqzoz.png"@,
        )) + OPTION_TAG_BYTES + (OPTION_TAG_BYTES + U64_FIELD_BYTES) + (OPTION_TAG_BYTES
            + U64_FIELD_BYTES) + (OPTION_TAG_BYTES + sstr(name)) + (OPTION_TAG_BYTES + sstr(
            "10, 20"@,
        )) + (OPTION_TAG_BYTES + sstr("R"@)) + OPTION_TAG_BYTES + OPTION_TAG_BYTES
            + (OPTION_TAG_BYTES + U64_FIELD_BYTES) + (OPTION_TAG_BYTES + U64_FIELD_BYTES)
    }

    /// The deposit a purchase in the named area requires of the buyer,
    /// given the area's current sold counter.
    pub open spec fn spec_buy_required(self, name: Seq<char>, sold: u64, buyer: Seq<char>) -> int {
        let seed = seed_of(name, sold as nat);
        let tid = id_of(seed);
        self.extra_storage_in_bytes_per_token + TOKEN_ENTRY_BASE_BYTES + sstr(tid) + (sstr(buyer)
            + VEC_HEADER_BYTES + U64_FIELD_BYTES) + Self::land_meta_bytes(seed, name)
            + token_id_item_bytes(tid) + if self.tokens_per_owner.has_owner(buyer) {
            0
        } else {
            OWNER_ENTRY_BASE_BYTES + sstr(buyer) + sstr(id_of(buyer))
        }
    }

    /// Buy one land item in the named area.
    ///
    /// The area is looked up by its hashed name and its window,
    /// capacity and price rules are checked as the configured policy
    /// enforces them. On success the sold counter advances, the item
    /// name `"<area-name>#<units-sold-before>"` is derived, and the
    /// token is minted for the caller, metering the deposit. Any
    /// failure, also one detected while minting, leaves the whole state
    /// unchanged.
    pub fn buy_land(&mut self, caller: String, name: String, now: u64, deposit: u128) -> (r: Result<
        u128,
        ContractError,
    >)
        requires
            old(self).wf(),
            old(self).policy.enforce_limit || (forall|aid: Seq<char>|
                #[trigger] old(self).area_metadata_by_id.has_area(aid) ==> old(self).area_metadata_by_id.meta_of(aid).land_sold < u64::MAX),
        ensures
            final(self).wf(),
            final(self).owner_id == old(self).owner_id,
            final(self).extra_storage_in_bytes_per_token == old(self).extra_storage_in_bytes_per_token,
            final(self).metadata == old(self).metadata,
            final(self).total == old(self).total,
            final(self).policy == old(self).policy,
            ({
                let aid = id_of(name@);
                let pol = old(self).policy;
                if !old(self).area_metadata_by_id.has_area(aid) {
                    r == Result::<u128, ContractError>::Err(ContractError::NotFound) && *final(self) == *old(self)
                } else {
                    let area = old(self).area_metadata_by_id.meta_of(aid);
                    let seed = seed_of(name@, area.land_sold as nat);
                    let tid = id_of(seed);
                    let req = old(self).spec_buy_required(name@, area.land_sold, caller@);
                    if now <= area.open_time {
                        r == Result::<u128, ContractError>::Err(ContractError::NotYetOpen)
                            && *final(self) == *old(self)
                    } else if pol.enforce_close_time && now >= area.close_time {
                        r == Result::<u128, ContractError>::Err(ContractError::WindowClosed)
                            && *final(self) == *old(self)
                    } else if pol.enforce_limit && area.land_sold >= area.limit {
                        r == Result::<u128, ContractError>::Err(ContractError::SoldOut) && *final(self) == *old(self)
                    } else if pol.enforce_exact_price && deposit != area.land_price {
                        r == Result::<u128, ContractError>::Err(ContractError::InsufficientDeposit)
                            && *final(self) == *old(self)
                    } else if old(self).tokens_by_id.has_id(tid) {
                        r == Result::<u128, ContractError>::Err(ContractError::DuplicateIdentifier)
                            && *final(self) == *old(self)
                    } else if (deposit as int) < req {
                        r == Result::<u128, ContractError>::Err(ContractError::InsufficientDeposit)
                            && *final(self) == *old(self)
                    } else {
                        &&& r == Result::<u128, ContractError>::Ok((deposit - req) as u128)
                        &&& forall|t: Seq<char>|
                            final(self).tokens_by_id.has_id(t) <==> (old(self).tokens_by_id.has_id(t) || t == tid)
                        &&& final(self).tokens_by_id.owner_of(tid) == caller@
                        &&& Self::spec_is_land_metadata(
                            final(self).tokens_by_id.meta_of(tid),
                            seed,
                            name@,
                            now,
                        )
                        &&& forall|t: Seq<char>|
                            old(self).tokens_by_id.has_id(t) && t != tid ==> #[trigger] final(self).tokens_by_id.entry_of(t) == old(self).tokens_by_id.entry_of(t)
                        &&& forall|o: Seq<char>, t: Seq<char>|
                            final(self).tokens_per_owner.holds(o, t) <==> (old(self).tokens_per_owner.holds(o, t) || (o == caller@ && t == tid))
                        &&& forall|x: Seq<char>|
                            final(self).area_metadata_by_id.has_area(x) <==> old(self).area_metadata_by_id.has_area(x)
                        &&& final(self).area_metadata_by_id.meta_of(aid) == (AreaMetadata {
                            land_sold: (area.land_sold + 1) as u64,
                            ..area
                        })
                        &&& forall|x: Seq<char>|
                            x != aid && old(self).area_metadata_by_id.has_area(x) ==> final(self).area_metadata_by_id.meta_of(x) == old(self).area_metadata_by_id.meta_of(x)
                        &&& final(self).storage_bytes() == old(self).storage_bytes() + (req - old(self).extra_storage_in_bytes_per_token)
                    }
                }
            }),
    {
        let ghost pre = *self;
        let area_opt = self.get_area(name.clone());
        let area = match area_opt {
            None => {
                return Err(ContractError::NotFound);
            },
            Some(a) => a,
        };
        if now <= area.open_time {
            return Err(ContractError::NotYetOpen);
        }
        if self.policy.enforce_close_time && now >= area.close_time {
            return Err(ContractError::WindowClosed);
        }
        if self.policy.enforce_limit && area.land_sold >= area.limit {
            return Err(ContractError::SoldOut);
        }
        if self.policy.enforce_exact_price && deposit != area.land_price {
            return Err(ContractError::InsufficientDeposit);
        }
        let new_name = make_seed(&name, area.land_sold);
        let token_id = derive_id(new_name.as_str());
        let ghost seed = new_name@;
        let ghost tid = token_id@;
        let token_meta = TokenMetadata {
            title: Some(new_name.clone()),
            description: Some(new_name),
            media: Some(
                String::from_str(
                    "https://res.cloudinary.com/dcrbaasbt/image/upload/v1637838225/257513804_224195603181581_4280639743210185776_n_nwqzoz.png",
                ),
            ),
            media_hash: None,
            copies: Some(1),
            issued_at: Some(now),
            city: Some(name.clone()),
            location: Some(String::from_str("10, 20")),
            rare: Some(String::from_str("R")),
            level: None,
            company_type: None,
            mining_efficiency: Some(1),
            mining_power: Some(10),
        };
        proof {
            assert(meta_bytes(token_meta) == Self::land_meta_bytes(seed, name@));
            assert(pre.spec_mint_required(tid, caller@, token_meta) == pre.spec_buy_required(
                name@,
                area.land_sold,
                caller@,
            ));
        }
        let mint_result = self.nft_mint(Some(token_id), token_meta, Some(caller.clone()), caller, deposit);
        let refund = match mint_result {
            Err(e) => {
                return Err(e);
            },
            Ok(x) => x,
        };
        let area_hash = derive_id(name.as_str());
        let updated = AreaMetadata {
            name: area.name,
            limit: area.limit,
            land_sold: area.land_sold + 1,
            land_price: area.land_price,
            open_time: area.open_time,
            close_time: area.close_time,
        };
        let ghost mid = *self;
        self.area_metadata_by_id.upsert(area_hash, updated);
        proof {
            let post = *self;
            let aid = id_of(name@);
            // Replacing the area record neither adds nor removes bytes:
            // only the sold counter changed, which has a fixed size.
            let ai = pre.area_metadata_by_id.idx_of(aid);
            assert(mid.area_metadata_by_id == pre.area_metadata_by_id);
            assert(post.area_metadata_by_id.entries@ == mid.area_metadata_by_id.entries@.update(
                ai,
                post.area_metadata_by_id.entries@[ai],
            ));
            lemma_sum_area_entry_bytes_update(
                mid.area_metadata_by_id.entries@,
                ai,
                post.area_metadata_by_id.entries@[ai],
            );
            assert(area_entry_bytes(post.area_metadata_by_id.entries@[ai]) == area_entry_bytes(
                mid.area_metadata_by_id.entries@[ai],
            ));
            if post.policy.enforce_limit {
                assert forall|x: Seq<char>|
                    #[trigger] post.area_metadata_by_id.has_area(x)
                        implies post.area_metadata_by_id.meta_of(x).land_sold
                        <= post.area_metadata_by_id.meta_of(x).limit by {
                    if x != aid {
                        assert(mid.area_metadata_by_id.has_area(x));
                        assert(post.area_metadata_by_id.meta_of(x)
                            == mid.area_metadata_by_id.meta_of(x));
                        assert(pre.area_metadata_by_id.meta_of(x)
                            == mid.area_metadata_by_id.meta_of(x));
                    }
                }
            }
        }
        Ok(refund)
    }

    /// The metadata record an opened box mints.
    pub open spec fn spec_is_company_metadata(m: TokenMetadata, seed: Seq<char>, now: u64) -> bool {
        &&& m.title matches Some(t) && t@ == seed
        &&& m.description matches Some(d) && d@ == seed
        &&& m.media is None
        &&& m.media_hash is None
        &&& m.copies == Some(1u64)
        &&& m.issued_at == Some(now)
        &&& m.city is None
        &&& m.location is None
        &&& m.rare is None
        &&& m.level == Some(1u64)
        &&& m.company_type matches Some(c) && c@ == "finance"@
        &&& m.mining_efficiency == Some(20u64)
        &&& m.mining_power == Some(10u64)
    }

    /// Stored bytes of an opened box's metadata record.
    pub open spec fn company_meta_bytes(seed: Seq<char>) -> int {
        (OPTION_TAG_BYTES + sstr(seed)) + (OPTION_TAG_BYTES + sstr(seed)) + OPTION_TAG_BYTES
            + OPTION_TAG_BYTES + (OPTION_TAG_BYTES + U64_FIELD_BYTES) + (OPTION_TAG_BYTES
            + U64_FIELD_BYTES) + OPTION_TAG_BYTES + OPTION_TAG_BYTES + OPTION_TAG_BYTES
            + (OPTION_TAG_BYTES + U64_FIELD_BYTES) + (OPTION_TAG_BYTES + sstr("finance"@))
            + (OPTION_TAG_BYTES + U64_FIELD_BYTES) + (OPTION_TAG_BYTES + U64_FIELD_BYTES)
    }

    /// The deposit an opened box requires of the caller.
    pub open spec fn spec_box_required(self, buyer: Seq<char>) -> int {
        let seed = seed_of("Company"@, self.total as nat);
        let tid = id_of(seed);
        self.extra_storage_in_bytes_per_token + TOKEN_ENTRY_BASE_BYTES + sstr(tid) + (sstr(buyer)
            + VEC_HEADER_BYTES + U64_FIELD_BYTES) + Self::company_meta_bytes(seed)
            + token_id_item_bytes(tid) + if self.tokens_per_owner.has_owner(buyer) {
            0
        } else {
            OWNER_ENTRY_BASE_BYTES + sstr(buyer) + sstr(id_of(buyer))
        }
    }

    /// Open a box: mint the next sequentially numbered company token
    /// for the caller and hand back the cross-contract transfer request
    /// the caller must dispatch.
    ///
    /// The dispatch is not performed here and carries no completion
    /// callback: if the caller's dispatch fails, the companion
    /// contract's state can diverge from this ledger's. That divergence
    /// risk is inherited from the design and left explicit.
    pub fn open_box(&mut self, caller: String, now: u64, deposit: u128) -> (r: Result<
        (BoxTransferRequest, u128),
        ContractError,
    >)
        requires
            old(self).wf(),
            old(self).total < u64::MAX,
        ensures
            final(self).wf(),
            final(self).owner_id == old(self).owner_id,
            final(self).extra_storage_in_bytes_per_token == old(self).extra_storage_in_bytes_per_token,
            final(self).metadata == old(self).metadata,
            final(self).policy == old(self).policy,
            final(self).area_metadata_by_id == old(self).area_metadata_by_id,
            ({
                let seed = seed_of("Company"@, old(self).total as nat);
                let tid = id_of(seed);
                let req = old(self).spec_box_required(caller@);
                if old(self).tokens_by_id.has_id(tid) {
                    r == Result::<(BoxTransferRequest, u128), ContractError>::Err(
                        ContractError::DuplicateIdentifier,
                    ) && *final(self) == *old(self)
                } else if (deposit as int) < req {
                    r == Result::<(BoxTransferRequest, u128), ContractError>::Err(
                        ContractError::InsufficientDeposit,
                    ) && *final(self) == *old(self)
                } else {
                    &&& r matches Ok(p) && {
                        &&& p.1 == (deposit - req) as u128
                        &&& p.0.target_contract@ == "ft.nft-test.testnet"@
                        &&& p.0.receiver_id@ == "box.nft-test.testnet"@
                        &&& p.0.amount@ == "1"@
                        &&& p.0.memo matches Some(m) && m@ == "Openbox"@
                        &&& p.0.attached_deposit == 1
                        &&& p.0.gas == PREPARE_GAS
                    }
                    &&& final(self).total == old(self).total + 1
                    &&& forall|t: Seq<char>|
                        final(self).tokens_by_id.has_id(t) <==> (old(self).tokens_by_id.has_id(t)
                            || t == tid)
                    &&& final(self).tokens_by_id.owner_of(tid) == caller@
                    &&& Self::spec_is_company_metadata(
                        final(self).tokens_by_id.meta_of(tid),
                        seed,
                        now,
                    )
                    &&& forall|t: Seq<char>|
                        old(self).tokens_by_id.has_id(t) && t != tid ==> #[trigger] final(self).tokens_by_id.entry_of(t) == old(self).tokens_by_id.entry_of(t)
                    &&& forall|o: Seq<char>, t: Seq<char>|
                        final(self).tokens_per_owner.holds(o, t) <==> (old(self).tokens_per_owner.holds(o, t) || (o == caller@ && t == tid))
                }
            }),
    {
        let ghost pre = *self;
        let company = String::from_str("Company");
        let new_name = make_seed(&company, self.total);
        let token_id = derive_id(new_name.as_str());
        let ghost seed = new_name@;
        let ghost tid = token_id@;
        let token_meta = TokenMetadata {
            title: Some(new_name.clone()),
            description: Some(new_name),
            media: None,
            media_hash: None,
            copies: Some(1),
            issued_at: Some(now),
            city: None,
            location: None,
            rare: None,
            level: Some(1),
            company_type: Some(String::from_str("finance")),
            mining_efficiency: Some(20),
            mining_power: Some(10),
        };
        proof {
            assert(meta_bytes(token_meta) == Self::company_meta_bytes(seed));
            assert(pre.spec_mint_required(tid, caller@, token_meta) == pre.spec_box_required(
                caller@,
            ));
        }
        let mint_result = self.nft_mint(Some(token_id), token_meta, Some(caller.clone()), caller, deposit);
        let refund = match mint_result {
            Err(e) => {
                return Err(e);
            },
            Ok(x) => x,
        };
        self.total = self.total + 1;
        let request = BoxTransferRequest {
            target_contract: String::from_str("ft.nft-test.testnet"),
            receiver_id: String::from_str("box.nft-test.testnet"),
            amount: String::from_str("1"),
            memo: Some(String::from_str("Openbox")),
            attached_deposit: 1,
            gas: PREPARE_GAS,
        };
        Ok((request, refund))
    }

    /// Open a named sale area: owner-restricted. The area's storage
    /// identifier is hashed from its name, and a fresh record with no
    /// units sold is stored under it.
    ///
    /// Re-opening an existing name silently overwrites its record,
    /// resetting the sold counter — a noted gap of the design, kept as
    /// observed rather than silently fixed.
    pub fn open_area(
        &mut self,
        caller: String,
        name: String,
        limit: u64,
        price: u128,
        open_time: u64,
        close_time: u64,
    ) -> (r: Result<(), ContractError>)
        requires
            old(self).wf(),
        ensures
            final(self).wf(),
            caller@ != old(self).owner_id@ ==> r == Result::<(), ContractError>::Err(
                ContractError::Unauthorized,
            ) && *final(self) == *old(self),
            caller@ == old(self).owner_id@ ==> {
                &&& r == Result::<(), ContractError>::Ok(())
                &&& forall|x: Seq<char>|
                    final(self).area_metadata_by_id.has_area(x) <==> (old(self).area_metadata_by_id.has_area(x) || x == id_of(name@))
                &&& final(self).area_metadata_by_id.meta_of(id_of(name@)) == (AreaMetadata {
                    name,
                    limit,
                    land_sold: 0,
                    land_price: price,
                    open_time,
                    close_time,
                })
                &&& forall|x: Seq<char>|
                    x != id_of(name@) && old(self).area_metadata_by_id.has_area(x) ==> final(self).area_metadata_by_id.meta_of(x) == old(self).area_metadata_by_id.meta_of(x)
                &&& final(self).tokens_by_id == old(self).tokens_by_id
                &&& final(self).tokens_per_owner == old(self).tokens_per_owner
                &&& final(self).owner_id == old(self).owner_id
                &&& final(self).extra_storage_in_bytes_per_token == old(self).extra_storage_in_bytes_per_token
                &&& final(self).metadata == old(self).metadata
                &&& final(self).total == old(self).total
                &&& final(self).policy == old(self).policy
            },
    {
        if !caller.eq(&self.owner_id) {
            return Err(ContractError::Unauthorized);
        }
        let ghost pre = *self;
        let hash = derive_id(name.as_str());
        let meta = AreaMetadata { name, limit, land_sold: 0, land_price: price, open_time, close_time };
        self.area_metadata_by_id.upsert(hash, meta);
        proof {
            let post = *self;
            if post.policy.enforce_limit {
                assert forall|aid: Seq<char>|
                    #[trigger] post.area_metadata_by_id.has_area(aid)
                        implies post.area_metadata_by_id.meta_of(aid).land_sold
                        <= post.area_metadata_by_id.meta_of(aid).limit by {
                    if aid != hash@ {
                        assert(pre.area_metadata_by_id.has_area(aid));
                        assert(post.area_metadata_by_id.meta_of(aid)
                            == pre.area_metadata_by_id.meta_of(aid));
                    }
                }
            }
        }
        Ok(())
    }

    /// The sale record of the named area, or nothing: the name is
    /// hashed to the area's identifier and looked up.
    pub fn get_area(&self, name: String) -> (r: Option<AreaMetadata>)
        requires
            self.wf(),
        ensures
            match r {
                Some(m) => self.area_metadata_by_id.has_area(id_of(name@)) && m
                    == self.area_metadata_by_id.meta_of(id_of(name@)),
                None => !self.area_metadata_by_id.has_area(id_of(name@)),
            },
    {
        let hash = derive_id(name.as_str());
        self.area_metadata_by_id.get(&hash)
    }

    /// The metadata of the land token derived from this name, or
    /// nothing: the name is hashed to the token identifier.
    pub fn get_land(&self, name: String) -> (r: Option<TokenMetadata>)
        requires
            self.wf(),
        ensures
            match r {
                Some(m) => self.tokens_by_id.has_id(id_of(name@)) && m == self.tokens_by_id.meta_of(
                    id_of(name@),
                ),
                None => !self.tokens_by_id.has_id(id_of(name@)),
            },
    {
        let hash = derive_id(name.as_str());
        self.tokens_by_id.get(&hash)
    }

    /// All area records, in storage order.
    pub fn get_all_areas(&self) -> (r: Vec<AreaMetadata>)
        ensures
            r@.len() == self.area_metadata_by_id.entries@.len(),
            forall|i: int|
                0 <= i < r@.len() ==> r@[i] == self.area_metadata_by_id.entries@[i].meta,
    {
        self.area_metadata_by_id.values()
    }

    /// The area records whose sale window contains the given time, in
    /// storage order.
    pub open spec fn spec_active_areas(s: Seq<AreaEntry>, now: u64) -> Seq<AreaMetadata>
        decreases s.len(),
    {
        if s.len() == 0 {
            Seq::<AreaMetadata>::empty()
        } else {
            let rest = Self::spec_active_areas(s.drop_last(), now);
            if s.last().meta.open_time < now && now < s.last().meta.close_time {
                rest.push(s.last().meta)
            } else {
                rest
            }
        }
    }

    /// The areas currently selling: those whose window contains `now`.
    pub fn get_active_areas(&self, now: u64) -> (r: Vec<AreaMetadata>)
        ensures
            r@ == Self::spec_active_areas(self.area_metadata_by_id.entries@, now),
    {
        let n = self.area_metadata_by_id.entries.len();
        let mut r: Vec<AreaMetadata> = Vec::new();
        for i in 0..n
            invariant
                n == self.area_metadata_by_id.entries@.len(),
                r@ == Self::spec_active_areas(
                    self.area_metadata_by_id.entries@.take(i as int),
                    now,
                ),
        {
            let e = &self.area_metadata_by_id.entries[i];
            if e.meta.open_time < now && now < e.meta.close_time {
                r.push(e.meta.clone());
            }
            proof {
                let s = self.area_metadata_by_id.entries@;
                assert(s.take(i + 1).drop_last() =~= s.take(i as int));
                assert(s.take(i + 1).last() == s[i as int]);
            }
        }
        proof {
            assert(self.area_metadata_by_id.entries@.take(n as int)
                =~= self.area_metadata_by_id.entries@);
        }
        r
    }

    /// All metadata records of the tokens the owner holds, in the
    /// reverse index's order. Every identifier the index lists exists
    /// in the token store: the well-formedness invariant rules the
    /// dangling case out.
    pub fn get_lands_by_owner(&self, owner_id: String) -> (r: Vec<TokenMetadata>)
        requires
            self.wf(),
        ensures
            self.tokens_per_owner.has_owner(owner_id@) ==> {
                &&& r@.len() == self.tokens_per_owner.entry_of(owner_id@).token_ids@.len()
                &&& forall|k: int|
                    0 <= k < r@.len() ==> r@[k] == self.tokens_by_id.meta_of(
                        self.tokens_per_owner.entry_of(owner_id@).token_ids@[k]@,
                    )
            },
            !self.tokens_per_owner.has_owner(owner_id@) ==> r@.len() == 0,
    {
        let ids = self.tokens_per_owner.list(&owner_id);
        let n = ids.len();
        let mut r: Vec<TokenMetadata> = Vec::new();
        for k in 0..n
            invariant
                self.wf(),
                n == ids@.len(),
                forall|t: Seq<char>|
                    self.tokens_per_owner.holds(owner_id@, t) <==> exists|m: int|
                        0 <= m < ids@.len() && ids@[m]@ == t,
                r@.len() == k,
                forall|m: int| 0 <= m < k ==> r@[m] == self.tokens_by_id.meta_of(ids@[m]@),
        {
            proof {
                assert(self.tokens_per_owner.holds(owner_id@, ids@[k as int]@));
                assert(self.tokens_by_id.has_id(ids@[k as int]@));
            }
            let meta = self.tokens_by_id.get(&ids[k]);
            r.push(meta.unwrap());
        }
        r
    }

    /// All metadata records of the tokens the owner holds, in the
    /// reverse index's order.
    pub fn get_companies_by_owner(&self, owner_id: String) -> (r: Vec<TokenMetadata>)
        requires
            self.wf(),
        ensures
            self.tokens_per_owner.has_owner(owner_id@) ==> {
                &&& r@.len() == self.tokens_per_owner.entry_of(owner_id@).token_ids@.len()
                &&& forall|k: int|
                    0 <= k < r@.len() ==> r@[k] == self.tokens_by_id.meta_of(
                        self.tokens_per_owner.entry_of(owner_id@).token_ids@[k]@,
                    )
            },
            !self.tokens_per_owner.has_owner(owner_id@) ==> r@.len() == 0,
    {
        self.get_lands_by_owner(owner_id)
    }
}

/// Index consistency: in a well-formed contract, a token identifier is
/// listed under an owner in the reverse index exactly when the token
/// store records that owner for it.
pub proof fn lemma_index_consistency(c: Contract, o: Seq<char>, t: Seq<char>)
    requires
        c.wf(),
    ensures
        c.tokens_per_owner.holds(o, t) <==> (c.tokens_by_id.has_id(t) && c.tokens_by_id.owner_of(t)
            == o),
{
}

/// Storage metering monotonicity: every mint's required deposit is at
/// least the calibration constant, whatever is minted and for whom.
pub proof fn lemma_mint_required_at_least_calibration(
    c: Contract,
    id: Seq<char>,
    owner: Seq<char>,
    m: TokenMetadata,
)
    ensures
        c.spec_mint_required(id, owner, m) >= c.extra_storage_in_bytes_per_token,
{
}

/// Sale capacity: with the capacity check enforced, no well-formed
/// state records an area that has sold past its limit.
pub proof fn lemma_sold_never_exceeds_limit(c: Contract, aid: Seq<char>)
    requires
        c.wf(),
        c.policy.enforce_limit,
        c.area_metadata_by_id.has_area(aid),
    ensures
        c.area_metadata_by_id.meta_of(aid).land_sold <= c.area_metadata_by_id.meta_of(aid).limit,
{
}

} // verus!
