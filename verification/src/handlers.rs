//! Per-event-kind reconciliation and aggregation.
//!
//! Each handler turns one decoded event into store reads and writes:
//! ownership transfers are "find-or-create, then overwrite"; swap volume is
//! "find-or-create, then merge"; pool creation projects the new pool's row
//! and issues a request to watch the new contract address.
//!
//! The decision of each read-modify-write sequence is its own function
//! (`transfer_decision`, `volume_merge_decision`) from the existing row and
//! the extracted values to the write to perform, so a driver that keeps its
//! rows elsewhere can reuse exactly the logic proved here.

use vstd::prelude::*;

use crate::params::Event;
use crate::params::EtherAmount;
use crate::params::address_param;
use crate::params::has_address;
use crate::params::has_int;
use crate::params::has_uint;
use crate::params::int_param;
use crate::params::uint_param;
use crate::params::wei_magnitude;
use crate::states::Nft;
use crate::states::Pool;
use crate::states::TokenSwapVolume;
use crate::store::NftRecord;
use crate::store::NftStore;
use crate::store::PoolRecord;
use crate::store::PoolStore;
use crate::store::VolumeRecord;
use crate::store::VolumeStore;
use crate::store::lemma_volume_lookup_at;
use crate::store::nft_lookup;
use crate::store::nft_set_owner;
use crate::store::pool_lookup;
use crate::store::volume_key_matches;
use crate::store::volume_lookup;
use crate::store::volume_rows_wf;
use crate::store::volume_set_fields;

verus! {

/// Addition that clamps at the largest representable magnitude instead of
/// wrapping: an aggregate never moves backward.
pub open spec fn sat_add_u128(a: u128, m: u128) -> u128 {
    if a + m <= u128::MAX {
        (a + m) as u128
    } else {
        u128::MAX
    }
}

/// Executable form of `sat_add_u128`.
pub fn saturating_add_u128(a: u128, m: u128) -> (r: u128)
    ensures
        r == sat_add_u128(a, m),
{
    if a <= u128::MAX - m {
        a + m
    } else {
        u128::MAX
    }
}

/// The later of two timestamps.
pub open spec fn max_u64(a: u64, b: u64) -> u64 {
    if a >= b {
        a
    } else {
        b
    }
}

/// The ownership state after one transfer of `token_id` to `to` on
/// `chain_id`: overwrite the owner when a row exists, create the row
/// otherwise.
pub open spec fn apply_transfer(
    rows: Seq<NftRecord>,
    chain_id: u64,
    token_id: u32,
    to: Seq<char>,
) -> Seq<NftRecord> {
    if nft_lookup(rows, chain_id, token_id) is Some {
        nft_set_owner(rows, chain_id, token_id, to)
    } else {
        rows.push(NftRecord { chain_id, token_id, owner: to })
    }
}

/// One volume row after merging a swap of `magnitude_wei` observed at `at`:
/// magnitudes add (clamped), and the recorded time never moves backward,
/// so that chains delivering swaps out of relative time order cannot push
/// the last-update timestamp back.
pub open spec fn merge_volume(v: VolumeRecord, magnitude_wei: u128, at: u64) -> VolumeRecord {
    VolumeRecord {
        token: v.token,
        amount_wei: sat_add_u128(v.amount_wei, magnitude_wei),
        last_updated_at: max_u64(v.last_updated_at, at),
    }
}

/// The aggregate state after merging one swap side for `token`: merge into
/// the existing row when one exists, create the row otherwise.
pub open spec fn apply_volume(
    rows: Seq<VolumeRecord>,
    token: Seq<char>,
    magnitude_wei: u128,
    at: u64,
) -> Seq<VolumeRecord> {
    match volume_lookup(rows, token) {
        Some(_) => Seq::new(
            rows.len(),
            |i: int|
                if volume_key_matches(rows[i], token) {
                    merge_volume(rows[i], magnitude_wei, at)
                } else {
                    rows[i]
                },
        ),
        None => rows.push(VolumeRecord { token, amount_wei: magnitude_wei, last_updated_at: at }),
    }
}

/// The closed set of event kinds this layer projects, one per supported ABI
/// signature.
#[derive(Debug, PartialEq, Eq, Structural)]
pub enum EventKind {
    Transfer,
    PoolCreated,
    Swap,
}

/// The event kind an ABI signature dispatches to, if any.
pub open spec fn spec_event_kind(abi: Seq<char>) -> Option<EventKind> {
    if abi == "event Transfer(address indexed from, address indexed to, uint256 indexed tokenId)"@ {
        Some(EventKind::Transfer)
    } else if abi
        == "PoolCreated(address indexed token0, address indexed token1, uint24 indexed fee, int24 tickSpacing, address pool)"@ {
        Some(EventKind::PoolCreated)
    } else if abi
        == "Swap(address indexed sender, address indexed recipient, int256 amount0, int256 amount1, uint160 sqrtPriceX96, uint128 liquidity, int24 tick)"@ {
        Some(EventKind::Swap)
    } else {
        None
    }
}

/// Dispatches a decoded event's ABI signature to the handler kind that takes
/// it; `None` means no handler of this layer is responsible.
pub fn event_kind(abi_signature: &String) -> (r: Option<EventKind>)
    ensures
        r == spec_event_kind(abi_signature@),
{
    let transfer: String =
        "event Transfer(address indexed from, address indexed to, uint256 indexed tokenId)".to_owned();
    let pool_created: String =
        "PoolCreated(address indexed token0, address indexed token1, uint24 indexed fee, int24 tickSpacing, address pool)".to_owned();
    let swap: String =
        "Swap(address indexed sender, address indexed recipient, int256 amount0, int256 amount1, uint160 sqrtPriceX96, uint128 liquidity, int24 tick)".to_owned();
    if *abi_signature == transfer {
        Some(EventKind::Transfer)
    } else if *abi_signature == pool_created {
        Some(EventKind::PoolCreated)
    } else if *abi_signature == swap {
        Some(EventKind::Swap)
    } else {
        None
    }
}

/// The write that reconciles one observed transfer with the existing row.
pub enum TransferAction {
    Create { nft: Nft },
    SetOwner { token_id: u32, owner_address: String },
}

/// Find-or-create, then overwrite: no existing row means a new row owned by
/// the recipient; an existing row has its owner overwritten, last writer
/// wins, no history retained.
pub fn transfer_decision(existing: Option<Nft>, token_id: u32, to: String) -> (a: TransferAction)
    ensures
        existing is None ==> a == (TransferAction::Create {
            nft: Nft { token_id, owner_address: to },
        }),
        existing is Some ==> a == (TransferAction::SetOwner { token_id, owner_address: to }),
{
    match existing {
        Some(_) => TransferAction::SetOwner { token_id, owner_address: to },
        None => TransferAction::Create { nft: Nft { token_id, owner_address: to } },
    }
}

/// The write that merges one swap side into the existing aggregate row.
pub enum VolumeAction {
    Create { volume: TokenSwapVolume },
    Update { amount_wei: u128, last_updated_at: u64 },
}

/// Find-or-create, then merge: no existing row means a new row holding this
/// event's magnitude; an existing row gains the magnitude, and its timestamp
/// is the later of the stored and the observed time.
pub fn volume_merge_decision(
    existing: Option<TokenSwapVolume>,
    token_address: String,
    amount: EtherAmount,
    last_updated_at: u64,
) -> (a: VolumeAction)
    ensures
        existing is None ==> a == (VolumeAction::Create {
            volume: TokenSwapVolume {
                token_address,
                amount_wei: wei_magnitude(amount.wei),
                last_updated_at,
            },
        }),
        existing matches Some(prev) ==> a == (VolumeAction::Update {
            amount_wei: sat_add_u128(prev.amount_wei, wei_magnitude(amount.wei)),
            last_updated_at: max_u64(prev.last_updated_at, last_updated_at),
        }),
{
    let magnitude = amount.magnitude_wei();
    match existing {
        Some(prev) => {
            let amount_wei = saturating_add_u128(prev.amount_wei, magnitude);
            let merged_at = if prev.last_updated_at >= last_updated_at {
                prev.last_updated_at
            } else {
                last_updated_at
            };
            VolumeAction::Update { amount_wei, last_updated_at: merged_at }
        },
        None => VolumeAction::Create {
            volume: TokenSwapVolume { token_address, amount_wei: magnitude, last_updated_at },
        },
    }
}

/// Merges one swap side for `token_address` into the aggregate table: the
/// read-modify-write sequence runs under exclusive access to the store, so
/// merges for the same key are serialized and no update is lost.
pub fn create_or_update_token_swap_volume(
    token_address: String,
    amount: EtherAmount,
    last_updated_at: u64,
    volumes: &mut VolumeStore,
)
    requires
        old(volumes).wf(),
    ensures
        final(volumes).wf(),
        final(volumes)@ == apply_volume(
            old(volumes)@,
            token_address@,
            wei_magnitude(amount.wei),
            last_updated_at,
        ),
{
    let existing = volumes.read_one(&token_address);
    let action = volume_merge_decision(existing, token_address.clone(), amount, last_updated_at);
    match action {
        VolumeAction::Create { volume } => {
            volumes.create(volume);
        },
        VolumeAction::Update { amount_wei, last_updated_at: merged_at } => {
            volumes.update(&token_address, amount_wei, merged_at);
            proof {
                let prev_rows = old(volumes)@;
                let token = token_address@;
                let mag = wei_magnitude(amount.wei);
                assert forall|i: int|
                    0 <= i < prev_rows.len() && volume_key_matches(
                        prev_rows[i],
                        token,
                    ) implies prev_rows[i] == volume_lookup(prev_rows, token)->Some_0 by {
                    lemma_volume_lookup_unique(prev_rows, token, i);
                }
                assert(volume_set_fields(prev_rows, token, amount_wei, merged_at) =~= apply_volume(
                    prev_rows,
                    token,
                    mag,
                    last_updated_at,
                ));
            }
        },
    }
}

/// A row that matches the key under a well-formed table is the row that
/// lookup returns: keys are unique.
pub proof fn lemma_volume_lookup_unique(rows: Seq<VolumeRecord>, token: Seq<char>, i: int)
    requires
        volume_rows_wf(rows),
        0 <= i < rows.len(),
        volume_key_matches(rows[i], token),
    ensures
        volume_lookup(rows, token) == Some(rows[i]),
{
    assert forall|j: int| 0 <= j < i implies !volume_key_matches(rows[j], token) by {
        if volume_key_matches(rows[j], token) {
            assert(volume_key_matches(rows[j], rows[i].token));
        }
    }
    lemma_volume_lookup_at(rows, token, i);
}

/// Reconciles transfer-style events into current-ownership rows.
pub struct TransferHandler;

impl TransferHandler {
    /// The ABI signature this handler is dispatched under.
    pub fn abi(&self) -> (r: &'static str)
        ensures
            r@ == "event Transfer(address indexed from, address indexed to, uint256 indexed tokenId)"@,
    {
        "event Transfer(address indexed from, address indexed to, uint256 indexed tokenId)"
    }

    /// Applies one transfer event to the ownership table of its chain. The
    /// sender is extracted but not persisted; the recipient becomes the
    /// current owner, whether the row is new or overwritten.
    pub fn handle_event(&self, event: &Event, store: &mut NftStore)
        requires
            old(store).wf(),
            has_address(event.params@, "from"@),
            has_address(event.params@, "to"@),
            has_uint(event.params@, "tokenId"@),
            uint_param(event.params@, "tokenId"@) <= u32::MAX,
        ensures
            final(store).wf(),
            final(store)@ == apply_transfer(
                old(store)@,
                event.chain_id,
                uint_param(event.params@, "tokenId"@) as u32,
                address_param(event.params@, "to"@),
            ),
    {
        let _from = event.params.get_address("from");
        let to = event.params.get_address("to");
        let token_id = event.params.get_u32("tokenId");

        let existing = store.read_one(event.chain_id, token_id);
        match transfer_decision(existing, token_id, to) {
            TransferAction::Create { nft } => {
                store.create(event.chain_id, nft);
            },
            TransferAction::SetOwner { token_id: tid, owner_address } => {
                store.update(event.chain_id, tid, &owner_address);
            },
        }
    }
}

/// Side-effect hook for transfer events (notifications, bridging and the
/// like). No side effect is performed for transfers.
pub struct TransferSideEffectHandler;

impl TransferSideEffectHandler {
    /// The ABI signature this handler is dispatched under.
    pub fn abi(&self) -> (r: &'static str)
        ensures
            r@ == "event Transfer(address indexed from, address indexed to, uint256 indexed tokenId)"@,
    {
        "event Transfer(address indexed from, address indexed to, uint256 indexed tokenId)"
    }

    /// No side effect is performed for transfers.
    pub fn handle_event(&self, _event: &Event) {
    }
}

/// A request to the external runtime to begin watching a newly discovered
/// contract address under a logical contract group, starting no earlier than
/// the block in which the factory event occurred.
pub struct RegistrationRequest {
    pub contract_name: String,
    pub contract_address: String,
    pub start_block: u64,
}

/// Projects factory pool-creation events and extends the watched set.
pub struct PoolCreatedEventHandler;

impl PoolCreatedEventHandler {
    /// The ABI signature this handler is dispatched under.
    pub fn abi(&self) -> (r: &'static str)
        ensures
            r@ == "PoolCreated(address indexed token0, address indexed token1, uint24 indexed fee, int24 tickSpacing, address pool)"@,
    {
        "PoolCreated(address indexed token0, address indexed token1, uint24 indexed fee, int24 tickSpacing, address pool)"
    }

    /// Creates the new pool's row — exactly once per (chain, pool address):
    /// pool rows are immutable after creation — and returns the request that
    /// asks the external runtime to watch the new pool contract from the
    /// block of the factory event on. The row and the request belong
    /// together: if the factory event's block is later invalidated, both
    /// must be retracted together by the runtime.
    pub fn handle_event(&self, event: &Event, pools: &mut PoolStore) -> (r: RegistrationRequest)
        requires
            old(pools).wf(),
            has_address(event.params@, "token0"@),
            has_address(event.params@, "token1"@),
            has_address(event.params@, "pool"@),
            has_uint(event.params@, "fee"@),
            uint_param(event.params@, "fee"@) <= u32::MAX,
            has_int(event.params@, "tickSpacing"@),
            i32::MIN <= int_param(event.params@, "tickSpacing"@) <= i32::MAX,
            pool_lookup(
                old(pools)@,
                event.chain_id,
                address_param(event.params@, "pool"@),
            ) is None,
        ensures
            final(pools).wf(),
            final(pools)@ == old(pools)@.push(
                (PoolRecord {
                    chain_id: event.chain_id,
                    token0: address_param(event.params@, "token0"@),
                    token1: address_param(event.params@, "token1"@),
                    fee: uint_param(event.params@, "fee"@) as u32,
                    tick_spacing: int_param(event.params@, "tickSpacing"@) as i32,
                    address: address_param(event.params@, "pool"@),
                }),
            ),
            r.contract_name@ == "UniswapV3Pool"@,
            r.contract_address@ == address_param(event.params@, "pool"@),
            r.start_block == event.block_number,
    {
        let token0_address = event.params.get_address("token0");
        let token1_address = event.params.get_address("token1");
        let pool_contract_address = event.params.get_address("pool");
        let fee = event.params.get_u32("fee");
        let tick_spacing = event.params.get_i32("tickSpacing");

        let pool = Pool {
            token0_address,
            token1_address,
            fee,
            tick_spacing,
            pool_contract_address: pool_contract_address.clone(),
        };
        pools.create(event.chain_id, pool);

        RegistrationRequest {
            contract_name: "UniswapV3Pool".to_owned(),
            contract_address: pool_contract_address,
            start_block: event.block_number,
        }
    }
}

/// Merges swap-style events into the cross-chain aggregate volume table.
pub struct SwapEventHandler;

impl SwapEventHandler {
    /// The ABI signature this handler is dispatched under.
    pub fn abi(&self) -> (r: &'static str)
        ensures
            r@ == "Swap(address indexed sender, address indexed recipient, int256 amount0, int256 amount1, uint160 sqrtPriceX96, uint128 liquidity, int24 tick)"@,
    {
        "Swap(address indexed sender, address indexed recipient, int256 amount0, int256 amount1, uint160 sqrtPriceX96, uint128 liquidity, int24 tick)"
    }

    /// Applies one swap event: the emitting pool's row — chain-scoped, since
    /// a pool address is unique per chain–address pair — names the two token
    /// addresses, and the magnitude of each side's signed amount is merged
    /// into that token's aggregate row across all chains.
    pub fn handle_event(&self, event: &Event, pools: &PoolStore, volumes: &mut VolumeStore)
        requires
            old(volumes).wf(),
            pool_lookup(pools@, event.chain_id, event.contract_address@) is Some,
            has_int(event.params@, "amount0"@),
            has_int(event.params@, "amount1"@),
        ensures
            final(volumes).wf(),
            ({
                let pool = pool_lookup(pools@, event.chain_id, event.contract_address@)->Some_0;
                let mag0 = wei_magnitude(int_param(event.params@, "amount0"@));
                let mag1 = wei_magnitude(int_param(event.params@, "amount1"@));
                final(volumes)@ == apply_volume(
                    apply_volume(old(volumes)@, pool.token0, mag0, event.block_timestamp),
                    pool.token1,
                    mag1,
                    event.block_timestamp,
                )
            }),
    {
        let pool = match pools.read_one(event.chain_id, &event.contract_address) {
            Some(p) => p,
            None => vstd::pervasive::unreached(),
        };

        let amount0 = event.params.get_ether_amount("amount0");
        let amount1 = event.params.get_ether_amount("amount1");

        let last_updated_at = event.block_timestamp;

        create_or_update_token_swap_volume(pool.token0_address, amount0, last_updated_at, volumes);
        create_or_update_token_swap_volume(pool.token1_address, amount1, last_updated_at, volumes);
    }
}

} // verus!
