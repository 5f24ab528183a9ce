//! Pool projection, contract registration and cross-chain volume merges.

use event_projection::handlers::{
    create_or_update_token_swap_volume, event_kind, saturating_add_u128, volume_merge_decision,
    EventKind, PoolCreatedEventHandler, SwapEventHandler, TransferHandler, VolumeAction,
};
use event_projection::params::{ether_parts, Event, EtherAmount, ParameterValue, ParameterView};
use event_projection::states::{Pool, PoolMigrations, TokenSwapVolume, TokenSwapVolumeMigrations};
use event_projection::store::{PoolStore, VolumeStore};

const FACTORY: &str = "0x1F98431c8aD98523631AE4a59f267346ea31F984";
const POOL: &str = "0x8ad599c3A0ff1De082011EFDDc58f1908eb6e6D8";
const TOKEN0: &str = "0xA0b86991c6218b36c1d19D4a2e9Eb0cE3606eB48";
const TOKEN1: &str = "0xC02aaA39b223FE8D0A0e5C4F27eAD9083C756Cc2";

const WEI_PER_ETHER: u128 = 1_000_000_000_000_000_000;

fn pool_created_event(chain_id: u64, pool: &str, block_number: u64) -> Event {
    let handler = PoolCreatedEventHandler;
    let mut params = ParameterView::new();
    params.add("token0".to_string(), ParameterValue::Address(TOKEN0.to_string()));
    params.add("token1".to_string(), ParameterValue::Address(TOKEN1.to_string()));
    params.add("fee".to_string(), ParameterValue::Uint(500));
    params.add("tickSpacing".to_string(), ParameterValue::Int(10));
    params.add("pool".to_string(), ParameterValue::Address(pool.to_string()));
    Event {
        chain_id,
        contract_address: FACTORY.to_string(),
        block_number,
        block_timestamp: 1_620_000_000,
        log_index: 3,
        abi_signature: handler.abi().to_string(),
        params,
    }
}

fn swap_event(chain_id: u64, pool: &str, amount0: i128, amount1: i128, timestamp: u64) -> Event {
    let handler = SwapEventHandler;
    let mut params = ParameterView::new();
    params.add("sender".to_string(), ParameterValue::Address(TOKEN0.to_string()));
    params.add("recipient".to_string(), ParameterValue::Address(TOKEN1.to_string()));
    params.add("amount0".to_string(), ParameterValue::Int(amount0));
    params.add("amount1".to_string(), ParameterValue::Int(amount1));
    params.add("sqrtPriceX96".to_string(), ParameterValue::Uint(79_228_162_514_264_337_593));
    params.add("liquidity".to_string(), ParameterValue::Uint(1_000_000));
    params.add("tick".to_string(), ParameterValue::Int(-12));
    Event {
        chain_id,
        contract_address: pool.to_string(),
        block_number: 12_400_000,
        block_timestamp: timestamp,
        log_index: 1,
        abi_signature: handler.abi().to_string(),
        params,
    }
}

#[test]
fn pool_create_then_read_returns_equal_record() {
    let handler = PoolCreatedEventHandler;
    let mut pools = PoolStore::new();

    handler.handle_event(&pool_created_event(1, POOL, 12_369_739), &mut pools);

    let pool = pools
        .read_one(1, &POOL.to_string())
        .expect("created pool must be readable");
    assert_eq!(pool.token0_address, TOKEN0);
    assert_eq!(pool.token1_address, TOKEN1);
    assert_eq!(pool.fee, 500);
    assert_eq!(pool.tick_spacing, 10);
    assert_eq!(pool.pool_contract_address, POOL);
}

#[test]
fn pool_creation_requests_registration_of_the_new_address() {
    let handler = PoolCreatedEventHandler;
    let mut pools = PoolStore::new();

    let request = handler.handle_event(&pool_created_event(1, POOL, 12_369_739), &mut pools);

    assert_eq!(request.contract_name, "UniswapV3Pool");
    assert_eq!(request.contract_address, POOL);
    assert_eq!(request.start_block, 12_369_739);
}

#[test]
fn pool_lookup_is_chain_scoped() {
    let handler = PoolCreatedEventHandler;
    let mut pools = PoolStore::new();

    handler.handle_event(&pool_created_event(1, POOL, 12_369_739), &mut pools);

    assert!(pools.read_one(1, &POOL.to_string()).is_some());
    assert!(pools.read_one(2, &POOL.to_string()).is_none());
}

#[test]
fn swap_magnitude_is_extracted_and_merged_across_chains() {
    let pool_handler = PoolCreatedEventHandler;
    let swap_handler = SwapEventHandler;
    let mut pools = PoolStore::new();
    let mut volumes = VolumeStore::new();

    pool_handler.handle_event(&pool_created_event(1, POOL, 12_369_739), &mut pools);
    pool_handler.handle_event(&pool_created_event(2, POOL, 165), &mut pools);

    // One whole ether sold out of the pool: the signed amount is negative,
    // the merged magnitude is its absolute value.
    let one_ether: i128 = 1_000_000_000_000_000_000;
    swap_handler.handle_event(
        &swap_event(1, POOL, -one_ether, 2_000_000_000, 1_620_000_100),
        &pools,
        &mut volumes,
    );

    let volume = volumes.read_one(&TOKEN0.to_string()).expect("volume row created");
    assert_eq!(volume.amount_wei, WEI_PER_ETHER);
    assert_eq!(ether_parts(volume.amount_wei), (1, 0));

    // Half an ether more on a different chain merges into the same row.
    swap_handler.handle_event(
        &swap_event(2, POOL, 500_000_000_000_000_000, -1_000_000_000, 1_620_000_200),
        &pools,
        &mut volumes,
    );

    let merged = volumes.read_one(&TOKEN0.to_string()).expect("volume row kept");
    assert_eq!(merged.amount_wei, WEI_PER_ETHER + WEI_PER_ETHER / 2);
    assert_eq!(ether_parts(merged.amount_wei), (1, WEI_PER_ETHER / 2));

    // The other side of the pair accumulates independently.
    let token1_volume = volumes.read_one(&TOKEN1.to_string()).expect("token1 row");
    assert_eq!(token1_volume.amount_wei, 3_000_000_000);
}

#[test]
fn volume_merge_is_commutative() {
    let m1: i128 = 700_000_000_000_000_000;
    let m2: i128 = -800_000_000_000_000_000;

    let mut first = VolumeStore::new();
    create_or_update_token_swap_volume(TOKEN0.to_string(), EtherAmount { wei: m1 }, 100, &mut first);
    create_or_update_token_swap_volume(TOKEN0.to_string(), EtherAmount { wei: m2 }, 200, &mut first);

    let mut second = VolumeStore::new();
    create_or_update_token_swap_volume(TOKEN0.to_string(), EtherAmount { wei: m2 }, 200, &mut second);
    create_or_update_token_swap_volume(TOKEN0.to_string(), EtherAmount { wei: m1 }, 100, &mut second);

    let a = first.read_one(&TOKEN0.to_string()).unwrap();
    let b = second.read_one(&TOKEN0.to_string()).unwrap();
    assert_eq!(a.amount_wei, 1_500_000_000_000_000_000);
    assert_eq!(a.amount_wei, b.amount_wei);
    assert_eq!(a.last_updated_at, b.last_updated_at);
    assert_eq!(a.last_updated_at, 200);
}

#[test]
fn contending_merges_on_one_key_lose_no_update() {
    // Two writers contend on one aggregate key; the serialized merge path
    // (exclusive access to the store for each read-modify-write) must keep
    // both magnitudes.
    let mut volumes = VolumeStore::new();
    create_or_update_token_swap_volume(
        TOKEN0.to_string(),
        EtherAmount { wei: 600_000_000_000_000_000 },
        1_620_000_100,
        &mut volumes,
    );
    create_or_update_token_swap_volume(
        TOKEN0.to_string(),
        EtherAmount { wei: 900_000_000_000_000_000 },
        1_620_000_101,
        &mut volumes,
    );

    let row = volumes.read_one(&TOKEN0.to_string()).unwrap();
    assert_eq!(row.amount_wei, 1_500_000_000_000_000_000);
}

#[test]
fn merge_timestamp_never_moves_backward() {
    let mut volumes = VolumeStore::new();
    create_or_update_token_swap_volume(TOKEN0.to_string(), EtherAmount { wei: 10 }, 100, &mut volumes);
    create_or_update_token_swap_volume(TOKEN0.to_string(), EtherAmount { wei: 10 }, 50, &mut volumes);

    let row = volumes.read_one(&TOKEN0.to_string()).unwrap();
    assert_eq!(row.amount_wei, 20);
    assert_eq!(row.last_updated_at, 100);
}

#[test]
fn volume_decision_creates_when_absent() {
    match volume_merge_decision(None, TOKEN0.to_string(), EtherAmount { wei: -25 }, 77) {
        VolumeAction::Create { volume } => {
            assert_eq!(volume.token_address, TOKEN0);
            assert_eq!(volume.amount_wei, 25);
            assert_eq!(volume.last_updated_at, 77);
        }
        VolumeAction::Update { .. } => panic!("absent row must be created"),
    }
}

#[test]
fn volume_decision_merges_when_present() {
    let existing = TokenSwapVolume {
        token_address: TOKEN0.to_string(),
        amount_wei: 40,
        last_updated_at: 90,
    };
    match volume_merge_decision(Some(existing), TOKEN0.to_string(), EtherAmount { wei: -25 }, 77) {
        VolumeAction::Update {
            amount_wei,
            last_updated_at,
        } => {
            assert_eq!(amount_wei, 65);
            assert_eq!(last_updated_at, 90);
        }
        VolumeAction::Create { .. } => panic!("present row must be merged into"),
    }
}

#[test]
fn volume_update_without_matching_row_is_a_silent_noop() {
    let mut volumes = VolumeStore::new();
    volumes.update(&TOKEN0.to_string(), 10, 10);
    assert!(volumes.read_one(&TOKEN0.to_string()).is_none());
}

#[test]
fn magnitude_handles_extreme_amounts() {
    assert_eq!(EtherAmount { wei: 0 }.magnitude_wei(), 0);
    assert_eq!(EtherAmount { wei: 17 }.magnitude_wei(), 17);
    assert_eq!(EtherAmount { wei: -17 }.magnitude_wei(), 17);
    assert_eq!(EtherAmount { wei: i128::MAX }.magnitude_wei(), i128::MAX as u128);
    assert_eq!(
        EtherAmount { wei: i128::MIN }.magnitude_wei(),
        170_141_183_460_469_231_731_687_303_715_884_105_728u128
    );
}

#[test]
fn cumulative_magnitude_saturates_instead_of_wrapping() {
    assert_eq!(saturating_add_u128(3, 4), 7);
    assert_eq!(saturating_add_u128(u128::MAX - 1, 1), u128::MAX);
    assert_eq!(saturating_add_u128(u128::MAX - 1, 2), u128::MAX);
    assert_eq!(saturating_add_u128(u128::MAX, u128::MAX), u128::MAX);

    let mut volumes = VolumeStore::new();
    volumes.create(TokenSwapVolume {
        token_address: TOKEN0.to_string(),
        amount_wei: u128::MAX - 5,
        last_updated_at: 1,
    });
    create_or_update_token_swap_volume(TOKEN0.to_string(), EtherAmount { wei: 100 }, 2, &mut volumes);
    let row = volumes.read_one(&TOKEN0.to_string()).unwrap();
    assert_eq!(row.amount_wei, u128::MAX);
}

#[test]
fn ether_parts_split_whole_and_fraction() {
    assert_eq!(ether_parts(0), (0, 0));
    assert_eq!(ether_parts(WEI_PER_ETHER), (1, 0));
    assert_eq!(ether_parts(3 * WEI_PER_ETHER / 2), (1, WEI_PER_ETHER / 2));
}

#[test]
fn uniswap_table_names_and_migrations() {
    assert_eq!(Pool::table_name(), "uniswap_pools");
    assert_eq!(TokenSwapVolume::table_name(), "uniswap_token_swap_volumes");
    let pool_migrations = PoolMigrations.migrations();
    assert_eq!(pool_migrations.len(), 1);
    assert!(pool_migrations[0].starts_with("CREATE TABLE IF NOT EXISTS uniswap_pools"));
    let volume_migrations = TokenSwapVolumeMigrations.migrations();
    assert_eq!(volume_migrations.len(), 1);
    assert!(volume_migrations[0].starts_with("CREATE TABLE IF NOT EXISTS uniswap_token_swap_volumes"));
}

#[test]
fn uniswap_abi_signatures() {
    assert_eq!(
        PoolCreatedEventHandler.abi(),
        "PoolCreated(address indexed token0, address indexed token1, uint24 indexed fee, int24 tickSpacing, address pool)"
    );
    assert_eq!(
        SwapEventHandler.abi(),
        "Swap(address indexed sender, address indexed recipient, int256 amount0, int256 amount1, uint160 sqrtPriceX96, uint128 liquidity, int24 tick)"
    );
}

#[test]
fn abi_signatures_dispatch_to_their_event_kind() {
    assert_eq!(
        event_kind(&TransferHandler.abi().to_string()),
        Some(EventKind::Transfer)
    );
    assert_eq!(
        event_kind(&PoolCreatedEventHandler.abi().to_string()),
        Some(EventKind::PoolCreated)
    );
    assert_eq!(
        event_kind(&SwapEventHandler.abi().to_string()),
        Some(EventKind::Swap)
    );
    assert_eq!(event_kind(&"event Approval(address,address,uint256)".to_string()), None);
}
