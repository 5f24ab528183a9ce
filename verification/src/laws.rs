//! Laws of the reconciliation and aggregation layer, each proved over the
//! abstract store states that the handlers' contracts speak of.

use vstd::prelude::*;

use crate::handlers::apply_transfer;
use crate::handlers::apply_volume;
use crate::handlers::merge_volume;
use crate::store::NftRecord;
use crate::store::PoolRecord;
use crate::store::VolumeRecord;
use crate::store::lemma_nft_lookup_at;
use crate::store::lemma_nft_lookup_none_no_match;
use crate::store::lemma_pool_lookup_at;
use crate::store::lemma_pool_lookup_none_no_match;
use crate::store::lemma_volume_lookup_at;
use crate::store::lemma_volume_lookup_none_no_match;
use crate::store::nft_key_matches;
use crate::store::nft_lookup;
use crate::store::nft_owner_of;
use crate::store::nft_set_owner;
use crate::store::pool_key_matches;
use crate::store::pool_lookup;
use crate::store::volume_amount_of;
use crate::store::volume_key_matches;
use crate::store::volume_lookup;

verus! {

/// The index of the row that a successful ownership lookup returns: the
/// first row matching the key.
proof fn lemma_nft_lookup_index(rows: Seq<NftRecord>, chain_id: u64, token_id: u32) -> (i: int)
    requires
        nft_lookup(rows, chain_id, token_id) is Some,
    ensures
        0 <= i < rows.len(),
        nft_key_matches(rows[i], chain_id, token_id),
        rows[i] == nft_lookup(rows, chain_id, token_id)->Some_0,
        forall|j: int| 0 <= j < i ==> !nft_key_matches(rows[j], chain_id, token_id),
    decreases rows.len(),
{
    if nft_key_matches(rows[0], chain_id, token_id) {
        0
    } else {
        let k = lemma_nft_lookup_index(rows.drop_first(), chain_id, token_id);
        assert(rows.drop_first()[k] == rows[k + 1]);
        assert forall|j: int| 0 <= j < k + 1 implies !nft_key_matches(
            rows[j],
            chain_id,
            token_id,
        ) by {
            if j > 0 {
                assert(rows.drop_first()[j - 1] == rows[j]);
            }
        }
        k + 1
    }
}

/// The index of the row that a successful volume lookup returns: the first
/// row matching the key.
proof fn lemma_volume_lookup_index(rows: Seq<VolumeRecord>, token: Seq<char>) -> (i: int)
    requires
        volume_lookup(rows, token) is Some,
    ensures
        0 <= i < rows.len(),
        volume_key_matches(rows[i], token),
        rows[i] == volume_lookup(rows, token)->Some_0,
        forall|j: int| 0 <= j < i ==> !volume_key_matches(rows[j], token),
    decreases rows.len(),
{
    if volume_key_matches(rows[0], token) {
        0
    } else {
        let k = lemma_volume_lookup_index(rows.drop_first(), token);
        assert(rows.drop_first()[k] == rows[k + 1]);
        assert forall|j: int| 0 <= j < k + 1 implies !volume_key_matches(rows[j], token) by {
            if j > 0 {
                assert(rows.drop_first()[j - 1] == rows[j]);
            }
        }
        k + 1
    }
}

/// After a transfer of `token_id` to `to` is applied, the recorded owner of
/// that token on that chain is `to`.
pub proof fn lemma_transfer_sets_owner(
    rows: Seq<NftRecord>,
    chain_id: u64,
    token_id: u32,
    to: Seq<char>,
)
    ensures
        nft_owner_of(apply_transfer(rows, chain_id, token_id, to), chain_id, token_id) == Some(to),
{
    let s1 = apply_transfer(rows, chain_id, token_id, to);
    if nft_lookup(rows, chain_id, token_id) is Some {
        let i = lemma_nft_lookup_index(rows, chain_id, token_id);
        assert(nft_key_matches(s1[i], chain_id, token_id));
        assert forall|j: int| 0 <= j < i implies !nft_key_matches(s1[j], chain_id, token_id) by {
            assert(s1[j].chain_id == rows[j].chain_id && s1[j].token_id == rows[j].token_id);
        }
        lemma_nft_lookup_at(s1, chain_id, token_id, i);
    } else {
        lemma_nft_lookup_none_no_match(rows, chain_id, token_id);
        assert forall|j: int| 0 <= j < rows.len() implies !nft_key_matches(
            s1[j],
            chain_id,
            token_id,
        ) by {
            assert(s1[j] == rows[j]);
        }
        lemma_nft_lookup_at(s1, chain_id, token_id, rows.len() as int);
    }
}

/// Idempotent ownership overwrite: applying the same transfer twice yields
/// exactly the state of applying it once.
pub proof fn lemma_transfer_idempotent(
    rows: Seq<NftRecord>,
    chain_id: u64,
    token_id: u32,
    to: Seq<char>,
)
    ensures
        apply_transfer(apply_transfer(rows, chain_id, token_id, to), chain_id, token_id, to)
            == apply_transfer(rows, chain_id, token_id, to),
{
    lemma_transfer_sets_owner(rows, chain_id, token_id, to);
    let s1 = apply_transfer(rows, chain_id, token_id, to);
    assert forall|i: int|
        0 <= i < s1.len() && nft_key_matches(s1[i], chain_id, token_id) implies s1[i].owner
        == to by {
        if nft_lookup(rows, chain_id, token_id) is Some {
            assert(s1[i].chain_id == rows[i].chain_id && s1[i].token_id == rows[i].token_id);
        } else {
            lemma_nft_lookup_none_no_match(rows, chain_id, token_id);
            if i < rows.len() {
                assert(s1[i] == rows[i]);
            }
        }
    }
    assert(nft_set_owner(s1, chain_id, token_id, to) =~= s1);
}

/// Order sensitivity: transferring to `owner_a` and then to `owner_b` leaves
/// `owner_b` as the recorded owner; the reversed order leaves `owner_a`.
pub proof fn lemma_transfer_order_sensitivity(
    rows: Seq<NftRecord>,
    chain_id: u64,
    token_id: u32,
    owner_a: Seq<char>,
    owner_b: Seq<char>,
)
    ensures
        nft_owner_of(
            apply_transfer(
                apply_transfer(rows, chain_id, token_id, owner_a),
                chain_id,
                token_id,
                owner_b,
            ),
            chain_id,
            token_id,
        ) == Some(owner_b),
        nft_owner_of(
            apply_transfer(
                apply_transfer(rows, chain_id, token_id, owner_b),
                chain_id,
                token_id,
                owner_a,
            ),
            chain_id,
            token_id,
        ) == Some(owner_a),
{
    lemma_transfer_sets_owner(
        apply_transfer(rows, chain_id, token_id, owner_a),
        chain_id,
        token_id,
        owner_b,
    );
    lemma_transfer_sets_owner(
        apply_transfer(rows, chain_id, token_id, owner_b),
        chain_id,
        token_id,
        owner_a,
    );
}

/// Create-then-read: after a pool row is created under a key that had no
/// row, looking that key up returns exactly the created row.
pub proof fn lemma_pool_create_then_read(rows: Seq<PoolRecord>, p: PoolRecord)
    requires
        pool_lookup(rows, p.chain_id, p.address) is None,
    ensures
        pool_lookup(rows.push(p), p.chain_id, p.address) == Some(p),
{
    lemma_pool_lookup_none_no_match(rows, p.chain_id, p.address);
    let s1 = rows.push(p);
    assert forall|j: int| 0 <= j < rows.len() implies !pool_key_matches(
        s1[j],
        p.chain_id,
        p.address,
    ) by {
        assert(s1[j] == rows[j]);
    }
    lemma_pool_lookup_at(s1, p.chain_id, p.address, rows.len() as int);
}

/// After one merge for `token`, that token's row exists and is the merged
/// row; rows under other keys are untouched.
proof fn lemma_apply_volume_lookup(rows: Seq<VolumeRecord>, token: Seq<char>, m: u128, at: u64)
    ensures
        volume_lookup(apply_volume(rows, token, m, at), token) == match volume_lookup(
            rows,
            token,
        ) {
            Some(v) => Some(merge_volume(v, m, at)),
            None => Some(VolumeRecord { token, amount_wei: m, last_updated_at: at }),
        },
{
    let s1 = apply_volume(rows, token, m, at);
    if volume_lookup(rows, token) is Some {
        let i = lemma_volume_lookup_index(rows, token);
        assert(volume_key_matches(s1[i], token));
        assert forall|j: int| 0 <= j < i implies !volume_key_matches(s1[j], token) by {
            assert(s1[j].token == rows[j].token);
        }
        lemma_volume_lookup_at(s1, token, i);
    } else {
        lemma_volume_lookup_none_no_match(rows, token);
        assert forall|j: int| 0 <= j < rows.len() implies !volume_key_matches(s1[j], token) by {
            assert(s1[j] == rows[j]);
        }
        lemma_volume_lookup_at(s1, token, rows.len() as int);
    }
}

/// Cross-chain volume commutativity: merging magnitudes `m1` and `m2` for
/// the same token in either order yields exactly the same aggregate state —
/// the cumulative total gains `m1 + m2`, and the recorded timestamp is the
/// latest of the observed times, whichever event arrives first.
pub proof fn lemma_volume_merge_commutes(
    rows: Seq<VolumeRecord>,
    token: Seq<char>,
    m1: u128,
    m2: u128,
    t1: u64,
    t2: u64,
)
    ensures
        apply_volume(apply_volume(rows, token, m1, t1), token, m2, t2) == apply_volume(
            apply_volume(rows, token, m2, t2),
            token,
            m1,
            t1,
        ),
{
    lemma_apply_volume_lookup(rows, token, m1, t1);
    lemma_apply_volume_lookup(rows, token, m2, t2);
    let a = apply_volume(apply_volume(rows, token, m1, t1), token, m2, t2);
    let b = apply_volume(apply_volume(rows, token, m2, t2), token, m1, t1);
    let s1 = apply_volume(rows, token, m1, t1);
    let s2 = apply_volume(rows, token, m2, t2);
    if volume_lookup(rows, token) is Some {
        assert forall|i: int| 0 <= i < rows.len() implies a[i] == b[i] by {
            assert(s1[i].token == rows[i].token);
            assert(s2[i].token == rows[i].token);
        }
        assert(a =~= b);
    } else {
        lemma_volume_lookup_none_no_match(rows, token);
        assert forall|i: int| 0 <= i < rows.len() implies a[i] == b[i] by {
            assert(s1[i] == rows[i]);
            assert(s2[i] == rows[i]);
        }
        assert(volume_key_matches(s1[rows.len() as int], token));
        assert(volume_key_matches(s2[rows.len() as int], token));
        assert(a =~= b);
    }
}

/// After one merge, the cumulative total for the token has gained exactly
/// the merged magnitude (clamped at the largest representable value).
pub proof fn lemma_apply_volume_amount(rows: Seq<VolumeRecord>, token: Seq<char>, m: u128, at: u64)
    ensures
        volume_amount_of(apply_volume(rows, token, m, at), token) == if volume_amount_of(
            rows,
            token,
        ) + m <= u128::MAX {
            volume_amount_of(rows, token) + m
        } else {
            u128::MAX as int
        },
{
    lemma_apply_volume_lookup(rows, token, m, at);
}

/// No lost update: two merges for the same token, applied through the
/// serialized merge path one after the other, leave a cumulative total equal
/// to the sum of both magnitudes over the starting total.
pub proof fn lemma_volume_merge_no_lost_update(
    rows: Seq<VolumeRecord>,
    token: Seq<char>,
    m1: u128,
    m2: u128,
    t1: u64,
    t2: u64,
)
    requires
        volume_amount_of(rows, token) + m1 + m2 <= u128::MAX,
    ensures
        volume_amount_of(apply_volume(apply_volume(rows, token, m1, t1), token, m2, t2), token)
            == volume_amount_of(rows, token) + m1 + m2,
{
    lemma_apply_volume_amount(rows, token, m1, t1);
    lemma_apply_volume_amount(apply_volume(rows, token, m1, t1), token, m2, t2);
}

} // verus!
