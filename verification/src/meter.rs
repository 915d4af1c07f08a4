//! The storage-cost model.
//!
//! Persistent state is metered in bytes: every stored record costs its
//! variable-length fields plus fixed serialization overheads. The model
//! assigns each collection entry an exact byte count, and the ledger's
//! operations compute the marginal growth a mutation causes — the
//! `delta = after - before` of the whole state's byte usage — to size
//! the deposit a caller must attach.

use vstd::prelude::*;
use crate::areas::AreaEntry;
use crate::index::OwnerEntry;
use crate::metadata::{Approval, Token, TokenMetadata};
use crate::store::TokenEntry;

verus! {

/// Length prefix stored with every string.
pub const STRING_HEADER_BYTES: u64 = 4;

/// Tag byte stored with every optional field.
pub const OPTION_TAG_BYTES: u64 = 1;

/// Bytes of a stored 64-bit integer.
pub const U64_FIELD_BYTES: u64 = 8;

/// Bytes of a stored 128-bit integer.
pub const U128_FIELD_BYTES: u64 = 16;

/// Length prefix stored with every nested list.
pub const VEC_HEADER_BYTES: u64 = 4;

/// Fixed bookkeeping bytes of one owner-index slot: the outer key
/// prefix and the nested collection's header.
pub const OWNER_ENTRY_BASE_BYTES: u64 = 40;

/// Fixed bookkeeping bytes of one identifier inside an owner's slot.
pub const TOKEN_ID_ITEM_BASE_BYTES: u64 = 4;

/// Fixed bookkeeping bytes of one token record with its metadata.
pub const TOKEN_ENTRY_BASE_BYTES: u64 = 64;

/// Fixed bookkeeping bytes of one area record.
pub const AREA_ENTRY_BASE_BYTES: u64 = 48;

/// The UTF-8 byte length of a string value.
pub open spec fn blen(s: Seq<char>) -> int {
    vstd::utf8::encode_utf8(s).len() as int
}

/// An ASCII string's byte length is its character count.
pub proof fn lemma_ascii_blen(s: Seq<char>)
    requires
        vstd::utf8::is_ascii_chars(s),
    ensures
        blen(s) == s.len(),
{
    vstd::utf8::is_ascii_chars_encode_utf8(s);
}

/// Stored bytes of a string field.
pub open spec fn sstr(s: Seq<char>) -> int {
    STRING_HEADER_BYTES + blen(s)
}

/// Stored bytes of an optional string field.
pub open spec fn sopt_str(o: Option<String>) -> int {
    match o {
        Option::Some(s) => OPTION_TAG_BYTES + sstr(s@),
        Option::None => OPTION_TAG_BYTES as int,
    }
}

/// Stored bytes of an optional 64-bit integer field.
pub open spec fn sopt_u64(o: Option<u64>) -> int {
    match o {
        Option::Some(_) => OPTION_TAG_BYTES + U64_FIELD_BYTES,
        Option::None => OPTION_TAG_BYTES as int,
    }
}

/// Stored bytes of one approval record.
pub open spec fn approval_bytes(a: Approval) -> int {
    sstr(a.account_id@) + U64_FIELD_BYTES
}

/// Total stored bytes of a sequence of approval records.
pub open spec fn sum_approval_bytes(s: Seq<Approval>) -> int
    decreases s.len(),
{
    if s.len() == 0 {
        0
    } else {
        sum_approval_bytes(s.drop_last()) + approval_bytes(s.last())
    }
}

/// Stored bytes of a token's ownership record.
pub open spec fn token_bytes(t: Token) -> int {
    sstr(t.owner_id@) + VEC_HEADER_BYTES + sum_approval_bytes(t.approved_account_ids@)
        + U64_FIELD_BYTES
}

/// Stored bytes of a token's descriptive metadata.
pub open spec fn meta_bytes(m: TokenMetadata) -> int {
    sopt_str(m.title) + sopt_str(m.description) + sopt_str(m.media) + sopt_str(m.media_hash)
        + sopt_u64(m.copies) + sopt_u64(m.issued_at) + sopt_str(m.city) + sopt_str(m.location)
        + sopt_str(m.rare) + sopt_u64(m.level) + sopt_str(m.company_type) + sopt_u64(
        m.mining_efficiency,
    ) + sopt_u64(m.mining_power)
}

/// Stored bytes of one token-store entry.
pub open spec fn token_entry_bytes(e: TokenEntry) -> int {
    TOKEN_ENTRY_BASE_BYTES + sstr(e.token_id@) + token_bytes(e.token) + meta_bytes(e.metadata)
}

/// Stored bytes of one identifier listed in an owner's slot.
pub open spec fn token_id_item_bytes(id: Seq<char>) -> int {
    TOKEN_ID_ITEM_BASE_BYTES + sstr(id)
}

/// Total stored bytes of the identifiers listed in an owner's slot.
pub open spec fn sum_token_id_bytes(s: Seq<String>) -> int
    decreases s.len(),
{
    if s.len() == 0 {
        0
    } else {
        sum_token_id_bytes(s.drop_last()) + token_id_item_bytes(s.last()@)
    }
}

pub proof fn lemma_sum_token_id_bytes_push(s: Seq<String>, x: String)
    ensures
        sum_token_id_bytes(s.push(x)) == sum_token_id_bytes(s) + token_id_item_bytes(x@),
{
    assert(s.push(x).drop_last() =~= s);
    assert(s.push(x).last() == x);
}

/// Stored bytes of one owner-index slot.
pub open spec fn owner_entry_bytes(e: OwnerEntry) -> int {
    OWNER_ENTRY_BASE_BYTES + sstr(e.owner_id@) + sstr(e.key_hash@) + sum_token_id_bytes(
        e.token_ids@,
    )
}

/// Total stored bytes of a sequence of owner-index slots.
pub open spec fn sum_owner_entry_bytes(s: Seq<OwnerEntry>) -> int
    decreases s.len(),
{
    if s.len() == 0 {
        0
    } else {
        sum_owner_entry_bytes(s.drop_last()) + owner_entry_bytes(s.last())
    }
}

pub proof fn lemma_sum_owner_entry_bytes_push(s: Seq<OwnerEntry>, x: OwnerEntry)
    ensures
        sum_owner_entry_bytes(s.push(x)) == sum_owner_entry_bytes(s) + owner_entry_bytes(x),
{
    assert(s.push(x).drop_last() =~= s);
    assert(s.push(x).last() == x);
}

pub proof fn lemma_sum_owner_entry_bytes_update(s: Seq<OwnerEntry>, i: int, x: OwnerEntry)
    requires
        0 <= i < s.len(),
    ensures
        sum_owner_entry_bytes(s.update(i, x)) == sum_owner_entry_bytes(s) - owner_entry_bytes(
            s[i],
        ) + owner_entry_bytes(x),
    decreases s.len(),
{
    let u = s.update(i, x);
    if i == s.len() - 1 {
        assert(u.drop_last() =~= s.drop_last());
        assert(u.last() == x);
    } else {
        assert(u.drop_last() =~= s.drop_last().update(i, x));
        lemma_sum_owner_entry_bytes_update(s.drop_last(), i, x);
        assert(u.last() == s.last());
        assert(s.drop_last()[i] == s[i]);
    }
}

/// Total stored bytes of a sequence of token-store entries.
pub open spec fn sum_token_entry_bytes(s: Seq<TokenEntry>) -> int
    decreases s.len(),
{
    if s.len() == 0 {
        0
    } else {
        sum_token_entry_bytes(s.drop_last()) + token_entry_bytes(s.last())
    }
}

pub proof fn lemma_sum_token_entry_bytes_push(s: Seq<TokenEntry>, x: TokenEntry)
    ensures
        sum_token_entry_bytes(s.push(x)) == sum_token_entry_bytes(s) + token_entry_bytes(x),
{
    assert(s.push(x).drop_last() =~= s);
    assert(s.push(x).last() == x);
}

/// Total stored bytes of a sequence of area records.
pub open spec fn sum_area_entry_bytes(s: Seq<AreaEntry>) -> int
    decreases s.len(),
{
    if s.len() == 0 {
        0
    } else {
        sum_area_entry_bytes(s.drop_last()) + area_entry_bytes(s.last())
    }
}

pub proof fn lemma_sum_area_entry_bytes_update(s: Seq<AreaEntry>, i: int, x: AreaEntry)
    requires
        0 <= i < s.len(),
    ensures
        sum_area_entry_bytes(s.update(i, x)) == sum_area_entry_bytes(s) - area_entry_bytes(s[i])
            + area_entry_bytes(x),
    decreases s.len(),
{
    let u = s.update(i, x);
    if i == s.len() - 1 {
        assert(u.drop_last() =~= s.drop_last());
        assert(u.last() == x);
    } else {
        assert(u.drop_last() =~= s.drop_last().update(i, x));
        lemma_sum_area_entry_bytes_update(s.drop_last(), i, x);
        assert(u.last() == s.last());
        assert(s.drop_last()[i] == s[i]);
    }
}

pub proof fn lemma_sum_area_entry_bytes_push(s: Seq<AreaEntry>, x: AreaEntry)
    ensures
        sum_area_entry_bytes(s.push(x)) == sum_area_entry_bytes(s) + area_entry_bytes(x),
{
    assert(s.push(x).drop_last() =~= s);
    assert(s.push(x).last() == x);
}

/// Stored bytes of one area record.
pub open spec fn area_entry_bytes(e: AreaEntry) -> int {
    AREA_ENTRY_BASE_BYTES + sstr(e.area_id@) + sstr(e.meta.name@) + U64_FIELD_BYTES
        + U64_FIELD_BYTES + U128_FIELD_BYTES + U64_FIELD_BYTES + U64_FIELD_BYTES
}

/// Stored bytes of a string field, measured.
pub(crate) fn str_storage_bytes(s: &String) -> (r: u128)
    ensures
        r == sstr(s@),
        r <= STRING_HEADER_BYTES + usize::MAX,
{
    STRING_HEADER_BYTES as u128 + s.as_str().as_bytes().len() as u128
}

/// Stored bytes of an optional string field, measured.
pub(crate) fn opt_str_storage_bytes(o: &Option<String>) -> (r: u128)
    ensures
        r == sopt_str(*o),
        r <= OPTION_TAG_BYTES + STRING_HEADER_BYTES + usize::MAX,
{
    match o {
        Option::Some(s) => OPTION_TAG_BYTES as u128 + str_storage_bytes(s),
        Option::None => OPTION_TAG_BYTES as u128,
    }
}

/// Stored bytes of an optional integer field, measured.
pub(crate) fn opt_u64_storage_bytes(o: &Option<u64>) -> (r: u128)
    ensures
        r == sopt_u64(*o),
        r <= OPTION_TAG_BYTES + U64_FIELD_BYTES,
{
    match o {
        Option::Some(_) => OPTION_TAG_BYTES as u128 + U64_FIELD_BYTES as u128,
        Option::None => OPTION_TAG_BYTES as u128,
    }
}

/// Stored bytes of a token's descriptive metadata, measured.
#[verifier::rlimit(50)]
pub(crate) fn meta_storage_bytes(m: &TokenMetadata) -> (r: u128)
    ensures
        r == meta_bytes(*m),
        r <= 13 * (OPTION_TAG_BYTES + STRING_HEADER_BYTES + usize::MAX as int),
{
    opt_str_storage_bytes(&m.title) + opt_str_storage_bytes(&m.description) + opt_str_storage_bytes(
        &m.media,
    ) + opt_str_storage_bytes(&m.media_hash) + opt_u64_storage_bytes(&m.copies)
        + opt_u64_storage_bytes(&m.issued_at) + opt_str_storage_bytes(&m.city)
        + opt_str_storage_bytes(&m.location) + opt_str_storage_bytes(&m.rare)
        + opt_u64_storage_bytes(&m.level) + opt_str_storage_bytes(&m.company_type)
        + opt_u64_storage_bytes(&m.mining_efficiency) + opt_u64_storage_bytes(&m.mining_power)
}

/// Stored bytes of a freshly minted token's ownership record, measured.
/// A fresh token has no approvals yet.
pub(crate) fn fresh_token_storage_bytes(t: &Token) -> (r: u128)
    requires
        t.approved_account_ids@.len() == 0,
    ensures
        r == token_bytes(*t),
        r <= STRING_HEADER_BYTES + usize::MAX as int + VEC_HEADER_BYTES + U64_FIELD_BYTES,
{
    proof {
        assert(sum_approval_bytes(t.approved_account_ids@) == 0);
    }
    str_storage_bytes(&t.owner_id) + VEC_HEADER_BYTES as u128 + U64_FIELD_BYTES as u128
}

} // verus!
