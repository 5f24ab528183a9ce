//! The projected entities and their table schemas.
//!
//! Each entity is an independently keyed table row. Ownership records and
//! pool records live in chain-scoped tables; aggregate swap volume is one
//! logical row per token across all chains.

use vstd::prelude::*;

verus! {

/// Current ownership of one token: the owner is always the most recently
/// observed transfer recipient for that token.
pub struct Nft {
    pub token_id: u32,
    pub owner_address: String,
}

impl Nft {
    /// The table this entity is projected into.
    pub fn table_name() -> (r: &'static str)
        ensures
            r@ == "nfts"@,
    {
        "nfts"
    }
}

impl Clone for Nft {
    fn clone(&self) -> (r: Self)
        ensures
            r == *self,
    {
        Nft { token_id: self.token_id, owner_address: self.owner_address.clone() }
    }
}

/// Idempotent schema-creation statements for the ownership table.
pub struct NftMigrations;

impl NftMigrations {
    pub fn migrations(&self) -> (r: Vec<&'static str>)
        ensures
            r@.len() == 1,
            r@[0]@ == "CREATE TABLE IF NOT EXISTS nfts (token_id INTEGER NOT NULL, owner_address TEXT NOT NULL)"@,
    {
        let mut r: Vec<&'static str> = Vec::new();
        r.push(
            "CREATE TABLE IF NOT EXISTS nfts (token_id INTEGER NOT NULL, owner_address TEXT NOT NULL)",
        );
        r
    }
}

/// Metadata of one liquidity pool; immutable after creation — created exactly
/// once per (chain, pool contract address) pair and never updated.
pub struct Pool {
    pub token0_address: String,
    pub token1_address: String,
    pub fee: u32,
    pub tick_spacing: i32,
    pub pool_contract_address: String,
}

impl Pool {
    /// The table this entity is projected into.
    pub fn table_name() -> (r: &'static str)
        ensures
            r@ == "uniswap_pools"@,
    {
        "uniswap_pools"
    }
}

impl Clone for Pool {
    fn clone(&self) -> (r: Self)
        ensures
            r == *self,
    {
        Pool {
            token0_address: self.token0_address.clone(),
            token1_address: self.token1_address.clone(),
            fee: self.fee,
            tick_spacing: self.tick_spacing,
            pool_contract_address: self.pool_contract_address.clone(),
        }
    }
}

/// Idempotent schema-creation statements for the pool table.
pub struct PoolMigrations;

impl PoolMigrations {
    pub fn migrations(&self) -> (r: Vec<&'static str>)
        ensures
            r@.len() == 1,
            r@[0]@ == "CREATE TABLE IF NOT EXISTS uniswap_pools (token0_address VARCHAR NOT NULL, token1_address VARCHAR NOT NULL, pool_contract_address VARCHAR NOT NULL, fee INTEGER NOT NULL, tick_spacing INTEGER NOT NULL)"@,
    {
        let mut r: Vec<&'static str> = Vec::new();
        r.push(
            "CREATE TABLE IF NOT EXISTS uniswap_pools (token0_address VARCHAR NOT NULL, token1_address VARCHAR NOT NULL, pool_contract_address VARCHAR NOT NULL, fee INTEGER NOT NULL, tick_spacing INTEGER NOT NULL)",
        );
        r
    }
}

/// Cumulative traded magnitude per token address, across all chains.
///
/// The magnitude is an exact wei-scaled value: non-negative and, because
/// merges only add, monotonically non-decreasing.
pub struct TokenSwapVolume {
    pub token_address: String,
    pub amount_wei: u128,
    pub last_updated_at: u64,
}

impl TokenSwapVolume {
    /// The table this entity is projected into.
    pub fn table_name() -> (r: &'static str)
        ensures
            r@ == "uniswap_token_swap_volumes"@,
    {
        "uniswap_token_swap_volumes"
    }
}

impl Clone for TokenSwapVolume {
    fn clone(&self) -> (r: Self)
        ensures
            r == *self,
    {
        TokenSwapVolume {
            token_address: self.token_address.clone(),
            amount_wei: self.amount_wei,
            last_updated_at: self.last_updated_at,
        }
    }
}

/// Idempotent schema-creation statements for the volume table.
pub struct TokenSwapVolumeMigrations;

impl TokenSwapVolumeMigrations {
    pub fn migrations(&self) -> (r: Vec<&'static str>)
        ensures
            r@.len() == 1,
            r@[0]@ == "CREATE TABLE IF NOT EXISTS uniswap_token_swap_volumes (token_address VARCHAR NOT NULL, amount_wei VARCHAR NOT NULL, last_updated_at BIGINT NOT NULL)"@,
    {
        let mut r: Vec<&'static str> = Vec::new();
        r.push(
            "CREATE TABLE IF NOT EXISTS uniswap_token_swap_volumes (token_address VARCHAR NOT NULL, amount_wei VARCHAR NOT NULL, last_updated_at BIGINT NOT NULL)",
        );
        r
    }
}

} // verus!
