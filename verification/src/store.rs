//! The projection store: read/create/update over the projected entity
//! tables, keyed by equality filters.
//!
//! Each store is modelled by a sequence of abstract records (its view).
//! Ownership and pool rows are chain-scoped: their key includes the chain
//! identifier. Aggregate volume rows are multi-chain: one logical row per
//! token address regardless of which chain emitted the event.
//!
//! The store does not enforce application-level uniqueness itself: `create`
//! demands that the caller has checked existence first, and each store's
//! well-formedness predicate says that at most one row exists per key.
//! `update` on a filter that matches no row is a silent no-op.

use vstd::prelude::*;

use crate::states::Nft;
use crate::states::Pool;
use crate::states::TokenSwapVolume;

verus! {

/// Abstract view of one ownership row.
#[verifier::ext_equal]
pub ghost struct NftRecord {
    pub chain_id: u64,
    pub token_id: u32,
    pub owner: Seq<char>,
}

/// Abstract view of one pool row.
#[verifier::ext_equal]
pub ghost struct PoolRecord {
    pub chain_id: u64,
    pub token0: Seq<char>,
    pub token1: Seq<char>,
    pub fee: u32,
    pub tick_spacing: i32,
    pub address: Seq<char>,
}

/// Abstract view of one aggregate volume row.
#[verifier::ext_equal]
pub ghost struct VolumeRecord {
    pub token: Seq<char>,
    pub amount_wei: u128,
    pub last_updated_at: u64,
}

/// The abstract record of an ownership row stored under `chain_id`.
pub open spec fn nft_record(chain_id: u64, nft: Nft) -> NftRecord {
    NftRecord { chain_id, token_id: nft.token_id, owner: nft.owner_address@ }
}

/// The abstract record of a pool row stored under `chain_id`.
pub open spec fn pool_record(chain_id: u64, pool: Pool) -> PoolRecord {
    PoolRecord {
        chain_id,
        token0: pool.token0_address@,
        token1: pool.token1_address@,
        fee: pool.fee,
        tick_spacing: pool.tick_spacing,
        address: pool.pool_contract_address@,
    }
}

/// The abstract record of an aggregate volume row.
pub open spec fn volume_record(v: TokenSwapVolume) -> VolumeRecord {
    VolumeRecord {
        token: v.token_address@,
        amount_wei: v.amount_wei,
        last_updated_at: v.last_updated_at,
    }
}

pub open spec fn nft_key_matches(r: NftRecord, chain_id: u64, token_id: u32) -> bool {
    r.chain_id == chain_id && r.token_id == token_id
}

pub open spec fn pool_key_matches(r: PoolRecord, chain_id: u64, address: Seq<char>) -> bool {
    r.chain_id == chain_id && r.address == address
}

pub open spec fn volume_key_matches(r: VolumeRecord, token: Seq<char>) -> bool {
    r.token == token
}

/// The first ownership row for `(chain_id, token_id)`, if any.
pub open spec fn nft_lookup(rows: Seq<NftRecord>, chain_id: u64, token_id: u32) -> Option<
    NftRecord,
>
    decreases rows.len(),
{
    if rows.len() == 0 {
        None
    } else if nft_key_matches(rows[0], chain_id, token_id) {
        Some(rows[0])
    } else {
        nft_lookup(rows.drop_first(), chain_id, token_id)
    }
}

/// The first pool row for `(chain_id, address)`, if any.
pub open spec fn pool_lookup(rows: Seq<PoolRecord>, chain_id: u64, address: Seq<char>) -> Option<
    PoolRecord,
>
    decreases rows.len(),
{
    if rows.len() == 0 {
        None
    } else if pool_key_matches(rows[0], chain_id, address) {
        Some(rows[0])
    } else {
        pool_lookup(rows.drop_first(), chain_id, address)
    }
}

/// The first volume row for `token`, across all chains, if any.
pub open spec fn volume_lookup(rows: Seq<VolumeRecord>, token: Seq<char>) -> Option<VolumeRecord>
    decreases rows.len(),
{
    if rows.len() == 0 {
        None
    } else if volume_key_matches(rows[0], token) {
        Some(rows[0])
    } else {
        volume_lookup(rows.drop_first(), token)
    }
}

/// At most one ownership row per (chain, token) key.
pub open spec fn nft_rows_wf(rows: Seq<NftRecord>) -> bool {
    forall|i: int, j: int|
        0 <= i < j < rows.len() ==> !nft_key_matches(
            rows[i],
            rows[j].chain_id,
            rows[j].token_id,
        )
}

/// At most one pool row per (chain, pool address) key.
pub open spec fn pool_rows_wf(rows: Seq<PoolRecord>) -> bool {
    forall|i: int, j: int|
        0 <= i < j < rows.len() ==> !pool_key_matches(rows[i], rows[j].chain_id, rows[j].address)
}

/// At most one volume row per token address.
pub open spec fn volume_rows_wf(rows: Seq<VolumeRecord>) -> bool {
    forall|i: int, j: int| 0 <= i < j < rows.len() ==> !volume_key_matches(rows[i], rows[j].token)
}

/// Every matching ownership row takes `owner`; rows under other keys are
/// untouched. A filter that matches no row leaves the store unchanged.
pub open spec fn nft_set_owner(
    rows: Seq<NftRecord>,
    chain_id: u64,
    token_id: u32,
    owner: Seq<char>,
) -> Seq<NftRecord> {
    Seq::new(
        rows.len(),
        |i: int|
            if nft_key_matches(rows[i], chain_id, token_id) {
                NftRecord { chain_id: rows[i].chain_id, token_id: rows[i].token_id, owner }
            } else {
                rows[i]
            },
    )
}

/// Every matching volume row takes the given field values; rows under other
/// keys are untouched. A filter that matches no row leaves the store
/// unchanged.
pub open spec fn volume_set_fields(
    rows: Seq<VolumeRecord>,
    token: Seq<char>,
    amount_wei: u128,
    last_updated_at: u64,
) -> Seq<VolumeRecord> {
    Seq::new(
        rows.len(),
        |i: int|
            if volume_key_matches(rows[i], token) {
                VolumeRecord { token: rows[i].token, amount_wei, last_updated_at }
            } else {
                rows[i]
            },
    )
}

/// The owner recorded for `(chain_id, token_id)`, if any.
pub open spec fn nft_owner_of(rows: Seq<NftRecord>, chain_id: u64, token_id: u32) -> Option<
    Seq<char>,
> {
    match nft_lookup(rows, chain_id, token_id) {
        Some(r) => Some(r.owner),
        None => None,
    }
}

/// The cumulative magnitude recorded for `token`; zero when no row exists.
pub open spec fn volume_amount_of(rows: Seq<VolumeRecord>, token: Seq<char>) -> int {
    match volume_lookup(rows, token) {
        Some(r) => r.amount_wei as int,
        None => 0,
    }
}

pub proof fn lemma_nft_lookup_at(rows: Seq<NftRecord>, chain_id: u64, token_id: u32, i: int)
    requires
        0 <= i < rows.len(),
        nft_key_matches(rows[i], chain_id, token_id),
        forall|j: int| 0 <= j < i ==> !nft_key_matches(rows[j], chain_id, token_id),
    ensures
        nft_lookup(rows, chain_id, token_id) == Some(rows[i]),
    decreases i,
{
    if i > 0 {
        assert(rows.drop_first()[i - 1] == rows[i]);
        assert forall|j: int| 0 <= j < i - 1 implies !nft_key_matches(
            rows.drop_first()[j],
            chain_id,
            token_id,
        ) by {
            assert(rows.drop_first()[j] == rows[j + 1]);
        }
        lemma_nft_lookup_at(rows.drop_first(), chain_id, token_id, i - 1);
    }
}

pub proof fn lemma_nft_lookup_absent(rows: Seq<NftRecord>, chain_id: u64, token_id: u32)
    requires
        forall|j: int| 0 <= j < rows.len() ==> !nft_key_matches(rows[j], chain_id, token_id),
    ensures
        nft_lookup(rows, chain_id, token_id) is None,
    decreases rows.len(),
{
    if rows.len() > 0 {
        assert forall|j: int| 0 <= j < rows.drop_first().len() implies !nft_key_matches(
            rows.drop_first()[j],
            chain_id,
            token_id,
        ) by {
            assert(rows.drop_first()[j] == rows[j + 1]);
        }
        lemma_nft_lookup_absent(rows.drop_first(), chain_id, token_id);
    }
}

pub proof fn lemma_nft_lookup_none_no_match(rows: Seq<NftRecord>, chain_id: u64, token_id: u32)
    requires
        nft_lookup(rows, chain_id, token_id) is None,
    ensures
        forall|j: int| 0 <= j < rows.len() ==> !nft_key_matches(rows[j], chain_id, token_id),
    decreases rows.len(),
{
    if rows.len() > 0 {
        lemma_nft_lookup_none_no_match(rows.drop_first(), chain_id, token_id);
        assert forall|j: int| 0 <= j < rows.len() implies !nft_key_matches(
            rows[j],
            chain_id,
            token_id,
        ) by {
            if j > 0 {
                assert(rows.drop_first()[j - 1] == rows[j]);
            }
        }
    }
}

pub proof fn lemma_pool_lookup_at(rows: Seq<PoolRecord>, chain_id: u64, address: Seq<char>, i: int)
    requires
        0 <= i < rows.len(),
        pool_key_matches(rows[i], chain_id, address),
        forall|j: int| 0 <= j < i ==> !pool_key_matches(rows[j], chain_id, address),
    ensures
        pool_lookup(rows, chain_id, address) == Some(rows[i]),
    decreases i,
{
    if i > 0 {
        assert(rows.drop_first()[i - 1] == rows[i]);
        assert forall|j: int| 0 <= j < i - 1 implies !pool_key_matches(
            rows.drop_first()[j],
            chain_id,
            address,
        ) by {
            assert(rows.drop_first()[j] == rows[j + 1]);
        }
        lemma_pool_lookup_at(rows.drop_first(), chain_id, address, i - 1);
    }
}

pub proof fn lemma_pool_lookup_absent(rows: Seq<PoolRecord>, chain_id: u64, address: Seq<char>)
    requires
        forall|j: int| 0 <= j < rows.len() ==> !pool_key_matches(rows[j], chain_id, address),
    ensures
        pool_lookup(rows, chain_id, address) is None,
    decreases rows.len(),
{
    if rows.len() > 0 {
        assert forall|j: int| 0 <= j < rows.drop_first().len() implies !pool_key_matches(
            rows.drop_first()[j],
            chain_id,
            address,
        ) by {
            assert(rows.drop_first()[j] == rows[j + 1]);
        }
        lemma_pool_lookup_absent(rows.drop_first(), chain_id, address);
    }
}

pub proof fn lemma_pool_lookup_none_no_match(
    rows: Seq<PoolRecord>,
    chain_id: u64,
    address: Seq<char>,
)
    requires
        pool_lookup(rows, chain_id, address) is None,
    ensures
        forall|j: int| 0 <= j < rows.len() ==> !pool_key_matches(rows[j], chain_id, address),
    decreases rows.len(),
{
    if rows.len() > 0 {
        lemma_pool_lookup_none_no_match(rows.drop_first(), chain_id, address);
        assert forall|j: int| 0 <= j < rows.len() implies !pool_key_matches(
            rows[j],
            chain_id,
            address,
        ) by {
            if j > 0 {
                assert(rows.drop_first()[j - 1] == rows[j]);
            }
        }
    }
}

pub proof fn lemma_volume_lookup_at(rows: Seq<VolumeRecord>, token: Seq<char>, i: int)
    requires
        0 <= i < rows.len(),
        volume_key_matches(rows[i], token),
        forall|j: int| 0 <= j < i ==> !volume_key_matches(rows[j], token),
    ensures
        volume_lookup(rows, token) == Some(rows[i]),
    decreases i,
{
    if i > 0 {
        assert(rows.drop_first()[i - 1] == rows[i]);
        assert forall|j: int| 0 <= j < i - 1 implies !volume_key_matches(
            rows.drop_first()[j],
            token,
        ) by {
            assert(rows.drop_first()[j] == rows[j + 1]);
        }
        lemma_volume_lookup_at(rows.drop_first(), token, i - 1);
    }
}

pub proof fn lemma_volume_lookup_absent(rows: Seq<VolumeRecord>, token: Seq<char>)
    requires
        forall|j: int| 0 <= j < rows.len() ==> !volume_key_matches(rows[j], token),
    ensures
        volume_lookup(rows, token) is None,
    decreases rows.len(),
{
    if rows.len() > 0 {
        assert forall|j: int| 0 <= j < rows.drop_first().len() implies !volume_key_matches(
            rows.drop_first()[j],
            token,
        ) by {
            assert(rows.drop_first()[j] == rows[j + 1]);
        }
        lemma_volume_lookup_absent(rows.drop_first(), token);
    }
}

pub proof fn lemma_volume_lookup_none_no_match(rows: Seq<VolumeRecord>, token: Seq<char>)
    requires
        volume_lookup(rows, token) is None,
    ensures
        forall|j: int| 0 <= j < rows.len() ==> !volume_key_matches(rows[j], token),
    decreases rows.len(),
{
    if rows.len() > 0 {
        lemma_volume_lookup_none_no_match(rows.drop_first(), token);
        assert forall|j: int| 0 <= j < rows.len() implies !volume_key_matches(rows[j], token) by {
            if j > 0 {
                assert(rows.drop_first()[j - 1] == rows[j]);
            }
        }
    }
}

struct NftRow {
    chain_id: u64,
    nft: Nft,
}

/// The chain-scoped ownership table.
pub struct NftStore {
    rows: Vec<NftRow>,
}

impl View for NftStore {
    type V = Seq<NftRecord>;

    closed spec fn view(&self) -> Seq<NftRecord> {
        Seq::new(self.rows@.len(), |i: int| nft_record(self.rows@[i].chain_id, self.rows@[i].nft))
    }
}

impl NftStore {
    pub open spec fn wf(&self) -> bool {
        nft_rows_wf(self@)
    }

    /// An empty table.
    pub fn new() -> (r: Self)
        ensures
            r@ == Seq::<NftRecord>::empty(),
            r.wf(),
    {
        let r = NftStore { rows: Vec::new() };
        proof {
            assert(r@ =~= Seq::<NftRecord>::empty());
        }
        r
    }

    /// The row matching the equality filter `token_id` within the scope of
    /// `chain_id`, or `None` when no row matches.
    pub fn read_one(&self, chain_id: u64, token_id: u32) -> (r: Option<Nft>)
        ensures
            match r {
                Some(n) => n.token_id == token_id && nft_lookup(self@, chain_id, token_id)
                    == Some(nft_record(chain_id, n)),
                None => nft_lookup(self@, chain_id, token_id) is None,
            },
    {
        let n = self.rows.len();
        let mut i: usize = 0;
        while i < n
            invariant
                n == self.rows@.len(),
                0 <= i <= n,
                forall|j: int| 0 <= j < i ==> !nft_key_matches(self@[j], chain_id, token_id),
            decreases n - i,
        {
            let e = &self.rows[i];
            if e.chain_id == chain_id && e.nft.token_id == token_id {
                proof {
                    lemma_nft_lookup_at(self@, chain_id, token_id, i as int);
                }
                return Some(e.nft.clone());
            }
            i += 1;
        }
        proof {
            lemma_nft_lookup_absent(self@, chain_id, token_id);
        }
        None
    }

    /// Inserts a new row. The caller must have checked that no row exists
    /// under this key: the store itself does not enforce uniqueness.
    pub fn create(&mut self, chain_id: u64, nft: Nft)
        requires
            old(self).wf(),
            nft_lookup(old(self)@, chain_id, nft.token_id) is None,
        ensures
            final(self)@ == old(self)@.push(nft_record(chain_id, nft)),
            final(self).wf(),
    {
        proof {
            lemma_nft_lookup_none_no_match(self@, chain_id, nft.token_id);
        }
        let ghost prev = self@;
        let ghost rec = nft_record(chain_id, nft);
        self.rows.push(NftRow { chain_id, nft });
        proof {
            assert(self@ =~= prev.push(rec));
        }
    }

    /// Overwrites the owner of the row matching `(chain_id, token_id)`; a
    /// silent no-op when no row matches.
    pub fn update(&mut self, chain_id: u64, token_id: u32, owner_address: &String)
        requires
            old(self).wf(),
        ensures
            final(self)@ == nft_set_owner(old(self)@, chain_id, token_id, owner_address@),
            final(self).wf(),
    {
        let n = self.rows.len();
        let mut i: usize = 0;
        while i < n
            invariant
                *self == *old(self),
                n == self.rows@.len(),
                0 <= i <= n,
                old(self).wf(),
                forall|j: int| 0 <= j < i ==> !nft_key_matches(self@[j], chain_id, token_id),
            decreases n - i,
        {
            let e = &self.rows[i];
            if e.chain_id == chain_id && e.nft.token_id == token_id {
                let ghost prev = self@;
                let updated = NftRow {
                    chain_id,
                    nft: Nft { token_id, owner_address: owner_address.clone() },
                };
                self.rows.set(i, updated);
                proof {
                    assert forall|k: int|
                        0 <= k < prev.len() && k != i as int implies !nft_key_matches(
                        prev[k],
                        chain_id,
                        token_id,
                    ) by {
                        assert(nft_key_matches(prev[i as int], chain_id, token_id));
                    }
                    assert(self@ =~= nft_set_owner(prev, chain_id, token_id, owner_address@));
                }
                return;
            }
            i += 1;
        }
        proof {
            assert(self@ =~= nft_set_owner(self@, chain_id, token_id, owner_address@));
        }
    }
}

struct PoolRow {
    chain_id: u64,
    pool: Pool,
}

/// The chain-scoped pool metadata table. Pool rows are immutable after
/// creation, so this table offers no update.
pub struct PoolStore {
    rows: Vec<PoolRow>,
}

impl View for PoolStore {
    type V = Seq<PoolRecord>;

    closed spec fn view(&self) -> Seq<PoolRecord> {
        Seq::new(
            self.rows@.len(),
            |i: int| pool_record(self.rows@[i].chain_id, self.rows@[i].pool),
        )
    }
}

impl PoolStore {
    pub open spec fn wf(&self) -> bool {
        pool_rows_wf(self@)
    }

    /// An empty table.
    pub fn new() -> (r: Self)
        ensures
            r@ == Seq::<PoolRecord>::empty(),
            r.wf(),
    {
        let r = PoolStore { rows: Vec::new() };
        proof {
            assert(r@ =~= Seq::<PoolRecord>::empty());
        }
        r
    }

    /// The row matching the equality filter `pool_contract_address` within
    /// the scope of `chain_id` — a pool contract address is unique per
    /// chain–address pair, not globally — or `None` when no row matches.
    pub fn read_one(&self, chain_id: u64, pool_contract_address: &String) -> (r: Option<Pool>)
        ensures
            match r {
                Some(p) => pool_lookup(self@, chain_id, pool_contract_address@) == Some(
                    pool_record(chain_id, p),
                ),
                None => pool_lookup(self@, chain_id, pool_contract_address@) is None,
            },
    {
        let n = self.rows.len();
        let mut i: usize = 0;
        while i < n
            invariant
                n == self.rows@.len(),
                0 <= i <= n,
                forall|j: int|
                    0 <= j < i ==> !pool_key_matches(self@[j], chain_id, pool_contract_address@),
            decreases n - i,
        {
            let e = &self.rows[i];
            if e.chain_id == chain_id && e.pool.pool_contract_address == *pool_contract_address {
                proof {
                    lemma_pool_lookup_at(self@, chain_id, pool_contract_address@, i as int);
                }
                return Some(e.pool.clone());
            }
            i += 1;
        }
        proof {
            lemma_pool_lookup_absent(self@, chain_id, pool_contract_address@);
        }
        None
    }

    /// Inserts a new row. The caller must have checked that no row exists
    /// under this key: the store itself does not enforce uniqueness.
    pub fn create(&mut self, chain_id: u64, pool: Pool)
        requires
            old(self).wf(),
            pool_lookup(old(self)@, chain_id, pool.pool_contract_address@) is None,
        ensures
            final(self)@ == old(self)@.push(pool_record(chain_id, pool)),
            final(self).wf(),
    {
        proof {
            lemma_pool_lookup_none_no_match(self@, chain_id, pool.pool_contract_address@);
        }
        let ghost prev = self@;
        let ghost rec = pool_record(chain_id, pool);
        self.rows.push(PoolRow { chain_id, pool });
        proof {
            assert(self@ =~= prev.push(rec));
        }
    }
}

/// The multi-chain aggregate volume table: matching ignores chain
/// partitioning, addressing one logical row per token address shared across
/// all chains.
pub struct VolumeStore {
    rows: Vec<TokenSwapVolume>,
}

impl View for VolumeStore {
    type V = Seq<VolumeRecord>;

    closed spec fn view(&self) -> Seq<VolumeRecord> {
        Seq::new(self.rows@.len(), |i: int| volume_record(self.rows@[i]))
    }
}

impl VolumeStore {
    pub open spec fn wf(&self) -> bool {
        volume_rows_wf(self@)
    }

    /// An empty table.
    pub fn new() -> (r: Self)
        ensures
            r@ == Seq::<VolumeRecord>::empty(),
            r.wf(),
    {
        let r = VolumeStore { rows: Vec::new() };
        proof {
            assert(r@ =~= Seq::<VolumeRecord>::empty());
        }
        r
    }

    /// The row matching the equality filter `token_address`, across all
    /// chains, or `None` when no row matches.
    pub fn read_one(&self, token_address: &String) -> (r: Option<TokenSwapVolume>)
        ensures
            match r {
                Some(v) => volume_lookup(self@, token_address@) == Some(volume_record(v)),
                None => volume_lookup(self@, token_address@) is None,
            },
    {
        let n = self.rows.len();
        let mut i: usize = 0;
        while i < n
            invariant
                n == self.rows@.len(),
                0 <= i <= n,
                forall|j: int| 0 <= j < i ==> !volume_key_matches(self@[j], token_address@),
            decreases n - i,
        {
            let e = &self.rows[i];
            if e.token_address == *token_address {
                proof {
                    lemma_volume_lookup_at(self@, token_address@, i as int);
                }
                return Some(e.clone());
            }
            i += 1;
        }
        proof {
            lemma_volume_lookup_absent(self@, token_address@);
        }
        None
    }

    /// Inserts a new row. The caller must have checked that no row exists
    /// under this key: the store itself does not enforce uniqueness.
    pub fn create(&mut self, volume: TokenSwapVolume)
        requires
            old(self).wf(),
            volume_lookup(old(self)@, volume.token_address@) is None,
        ensures
            final(self)@ == old(self)@.push(volume_record(volume)),
            final(self).wf(),
    {
        proof {
            lemma_volume_lookup_none_no_match(self@, volume.token_address@);
        }
        let ghost prev = self@;
        let ghost rec = volume_record(volume);
        self.rows.push(volume);
        proof {
            assert(self@ =~= prev.push(rec));
        }
    }

    /// Overwrites the magnitude and timestamp of the row matching
    /// `token_address`; a silent no-op when no row matches.
    pub fn update(&mut self, token_address: &String, amount_wei: u128, last_updated_at: u64)
        requires
            old(self).wf(),
        ensures
            final(self)@ == volume_set_fields(
                old(self)@,
                token_address@,
                amount_wei,
                last_updated_at,
            ),
            final(self).wf(),
    {
        let n = self.rows.len();
        let mut i: usize = 0;
        while i < n
            invariant
                *self == *old(self),
                n == self.rows@.len(),
                0 <= i <= n,
                old(self).wf(),
                forall|j: int| 0 <= j < i ==> !volume_key_matches(self@[j], token_address@),
            decreases n - i,
        {
            let matches_here = self.rows[i].token_address == *token_address;
            if matches_here {
                let ghost prev = self@;
                let updated = TokenSwapVolume {
                    token_address: token_address.clone(),
                    amount_wei,
                    last_updated_at,
                };
                self.rows.set(i, updated);
                proof {
                    assert forall|k: int|
                        0 <= k < prev.len() && k != i as int implies !volume_key_matches(
                        prev[k],
                        token_address@,
                    ) by {
                        assert(volume_key_matches(prev[i as int], token_address@));
                    }
                    assert(self@ =~= volume_set_fields(
                        prev,
                        token_address@,
                        amount_wei,
                        last_updated_at,
                    ));
                }
                return;
            }
            i += 1;
        }
        proof {
            assert(self@ =~= volume_set_fields(
                self@,
                token_address@,
                amount_wei,
                last_updated_at,
            ));
        }
    }
}

} // verus!
