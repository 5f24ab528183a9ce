//! Typed extraction of event parameters.

use event_projection::params::{ParameterValue, ParameterView};

fn sample_view() -> ParameterView {
    let mut params = ParameterView::new();
    params.add(
        "to".to_string(),
        ParameterValue::Address("0xBBBBBBBBBBBBBBBBBBBBBBBBBBBBBBBBBBBBBBBB".to_string()),
    );
    params.add("tokenId".to_string(), ParameterValue::Uint(42));
    params.add("fee".to_string(), ParameterValue::Uint(3000));
    params.add("tickSpacing".to_string(), ParameterValue::Int(-60));
    params.add(
        "amount0".to_string(),
        ParameterValue::Int(-1_000_000_000_000_000_000),
    );
    params
}

#[test]
fn get_address_returns_the_stored_canonical_string() {
    let params = sample_view();
    assert_eq!(
        params.get_address("to"),
        "0xBBBBBBBBBBBBBBBBBBBBBBBBBBBBBBBBBBBBBBBB"
    );
}

#[test]
fn get_uint_and_get_u32_return_the_stored_value() {
    let params = sample_view();
    assert_eq!(params.get_uint("tokenId"), 42);
    assert_eq!(params.get_u32("tokenId"), 42);
    assert_eq!(params.get_u32("fee"), 3000);
}

#[test]
fn get_int_and_get_i32_return_the_stored_value() {
    let params = sample_view();
    assert_eq!(params.get_int("tickSpacing"), -60);
    assert_eq!(params.get_i32("tickSpacing"), -60);
    assert_eq!(params.get_int("amount0"), -1_000_000_000_000_000_000);
}

#[test]
fn get_ether_amount_keeps_the_exact_wei_value() {
    let params = sample_view();
    let amount = params.get_ether_amount("amount0");
    assert_eq!(amount.wei, -1_000_000_000_000_000_000);
    assert_eq!(amount.magnitude_wei(), 1_000_000_000_000_000_000);
}

#[test]
fn lookup_takes_the_first_entry_with_a_name() {
    let mut params = ParameterView::new();
    params.add("amount".to_string(), ParameterValue::Uint(1));
    params.add("amount".to_string(), ParameterValue::Uint(2));
    assert_eq!(params.get_uint("amount"), 1);
}
