//! The ledger's record types: tokens, their descriptive metadata, the
//! collection-level metadata, and per-area sale records.

use vstd::prelude::*;

verus! {

/// One approval granted by a token's owner to a delegate account.
pub struct Approval {
    pub account_id: String,
    pub approval_id: u64,
}

/// A minted token: who owns it and which delegates it has approved.
///
/// Owned exclusively by the token store, keyed by token identifier.
pub struct Token {
    pub owner_id: String,
    pub approved_account_ids: Vec<Approval>,
    pub next_approval_id: u64,
}

/// Descriptive record attached one-to-one to a token. Immutable after
/// mint: no update path exists.
pub struct TokenMetadata {
    pub title: Option<String>,
    pub description: Option<String>,
    pub media: Option<String>,
    pub media_hash: Option<String>,
    pub copies: Option<u64>,
    pub issued_at: Option<u64>,
    pub city: Option<String>,
    pub location: Option<String>,
    pub rare: Option<String>,
    pub level: Option<u64>,
    pub company_type: Option<String>,
    pub mining_efficiency: Option<u64>,
    pub mining_power: Option<u64>,
}

/// Collection-level descriptive metadata, supplied once at construction.
pub struct NFTMetadata {
    pub spec: String,
    pub name: String,
    pub symbol: String,
    pub icon: Option<String>,
    pub base_uri: Option<String>,
    pub reference: Option<String>,
    pub reference_hash: Option<String>,
}

/// One named sale area: a capacity- and time-windowed sale round.
///
/// `land_sold` counts successful purchases and also numbers the next
/// item produced within the area.
pub struct AreaMetadata {
    pub name: String,
    pub limit: u64,
    pub land_sold: u64,
    pub land_price: u128,
    pub open_time: u64,
    pub close_time: u64,
}

fn clone_opt_string(o: &Option<String>) -> (r: Option<String>)
    ensures
        r == *o,
{
    match o {
        Option::Some(s) => Option::Some(s.clone()),
        Option::None => Option::None,
    }
}

impl Clone for TokenMetadata {
    fn clone(&self) -> (r: Self)
        ensures
            r == *self,
    {
        TokenMetadata {
            title: clone_opt_string(&self.title),
            description: clone_opt_string(&self.description),
            media: clone_opt_string(&self.media),
            media_hash: clone_opt_string(&self.media_hash),
            copies: self.copies,
            issued_at: self.issued_at,
            city: clone_opt_string(&self.city),
            location: clone_opt_string(&self.location),
            rare: clone_opt_string(&self.rare),
            level: self.level,
            company_type: clone_opt_string(&self.company_type),
            mining_efficiency: self.mining_efficiency,
            mining_power: self.mining_power,
        }
    }
}

impl Clone for AreaMetadata {
    fn clone(&self) -> (r: Self)
        ensures
            r == *self,
    {
        AreaMetadata {
            name: self.name.clone(),
            limit: self.limit,
            land_sold: self.land_sold,
            land_price: self.land_price,
            open_time: self.open_time,
            close_time: self.close_time,
        }
    }
}

impl Clone for NFTMetadata {
    fn clone(&self) -> (r: Self)
        ensures
            r == *self,
    {
        NFTMetadata {
            spec: self.spec.clone(),
            name: self.name.clone(),
            symbol: self.symbol.clone(),
            icon: clone_opt_string(&self.icon),
            base_uri: clone_opt_string(&self.base_uri),
            reference: clone_opt_string(&self.reference),
            reference_hash: clone_opt_string(&self.reference_hash),
        }
    }
}

} // verus!
