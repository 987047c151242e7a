//! Round-trip and rejection tests for the exchange-route codec.

use bonk_paws::programs::{
    encode_exact_out_route, encode_shared_accounts_exact_out_route, encode_shared_accounts_route,
    parse_exact_out_route, parse_shared_accounts_exact_out_route, parse_shared_accounts_route,
    ExactOutRoute, RoutePlanStep, SharedAccountsExactOutRoute, SharedAccountsRoute, Side, Swap,
};
use bonk_paws::errors::BonkPawsError;

fn step(swap: Swap) -> RoutePlanStep {
    RoutePlanStep { swap, percent: 100, input_index: 0, output_index: 1 }
}

fn sample_route(plan: Vec<RoutePlanStep>) -> SharedAccountsRoute {
    SharedAccountsRoute {
        id: 3,
        route_plan: plan,
        in_amount: 1_980_000,
        quoted_out_amount: 2_000_000_000,
        slippage_bps: 50,
        platform_fee_bps: 0,
    }
}

#[test]
fn shared_accounts_route_round_trips() {
    let route = sample_route(vec![step(Swap::Raydium), step(Swap::Meteora)]);
    let bytes = encode_shared_accounts_route(&route);
    let parsed = parse_shared_accounts_route(&bytes).unwrap();
    assert_eq!(parsed.id, 3);
    assert_eq!(parsed.route_plan.len(), 2);
    assert_eq!(parsed.route_plan[0], step(Swap::Raydium));
    assert_eq!(parsed.route_plan[1], step(Swap::Meteora));
    assert_eq!(parsed.in_amount, 1_980_000);
    assert_eq!(parsed.quoted_out_amount, 2_000_000_000);
    assert_eq!(parsed.slippage_bps, 50);
    assert_eq!(parsed.platform_fee_bps, 0);
}

#[test]
fn payload_variants_round_trip() {
    let plan = vec![
        step(Swap::Saber),
        step(Swap::Crema { x_to_y: true }),
        step(Swap::Serum { side: Side::Ask }),
        step(Swap::Whirlpool { a_to_b: false }),
        step(Swap::Symmetry { from_token_id: 7, to_token_id: 9_000_000_000 }),
        step(Swap::StakeDexSwapViaStake { bridge_stake_seed: 0xdeadbeef }),
        step(Swap::OpenBookV2 { side: Side::Bid }),
        step(Swap::RaydiumClmmV2),
    ];
    let route = sample_route(plan.clone());
    let bytes = encode_shared_accounts_route(&route);
    let parsed = parse_shared_accounts_route(&bytes).unwrap();
    assert_eq!(parsed.route_plan, plan);
}

#[test]
fn exact_out_routes_round_trip() {
    let exact = SharedAccountsExactOutRoute {
        id: 1,
        route_plan: vec![step(Swap::Lifinity)],
        out_amount: 2_000_000_000,
        quoted_in_amount: 123_456_789,
        slippage_bps: 25,
        platform_fee_bps: 2,
    };
    let bytes = encode_shared_accounts_exact_out_route(&exact);
    let parsed = parse_shared_accounts_exact_out_route(&bytes).unwrap();
    assert_eq!(parsed.out_amount, 2_000_000_000);
    assert_eq!(parsed.quoted_in_amount, 123_456_789);
    assert_eq!(parsed.slippage_bps, 25);
    assert_eq!(parsed.platform_fee_bps, 2);
    assert_eq!(parsed.route_plan, vec![step(Swap::Lifinity)]);

    let plain = ExactOutRoute {
        route_plan: vec![step(Swap::Balansol)],
        out_amount: 11,
        quoted_in_amount: 22,
        slippage_bps: 33,
        platform_fee_bps: 44,
    };
    let bytes = encode_exact_out_route(&plain);
    let parsed = parse_exact_out_route(&bytes).unwrap();
    assert_eq!(parsed.out_amount, 11);
    assert_eq!(parsed.quoted_in_amount, 22);
    assert_eq!(parsed.route_plan, vec![step(Swap::Balansol)]);
}

#[test]
fn exact_encoding_bytes_are_fixed() {
    // One hop on venue tag 7 (Raydium), then the little-endian amounts.
    let route = sample_route(vec![step(Swap::Raydium)]);
    let bytes = encode_shared_accounts_route(&route);
    let mut expected = vec![3u8];
    expected.extend_from_slice(&1u32.to_le_bytes());
    expected.extend_from_slice(&[7, 100, 0, 1]);
    expected.extend_from_slice(&1_980_000u64.to_le_bytes());
    expected.extend_from_slice(&2_000_000_000u64.to_le_bytes());
    expected.extend_from_slice(&50u16.to_le_bytes());
    expected.push(0);
    assert_eq!(bytes, expected);
}

#[test]
fn trailing_bytes_are_rejected() {
    let route = sample_route(vec![step(Swap::Raydium)]);
    let mut bytes = encode_shared_accounts_route(&route);
    bytes.push(0);
    assert_eq!(
        parse_shared_accounts_route(&bytes).unwrap_err(),
        BonkPawsError::InvalidInstruction
    );
}

#[test]
fn truncated_payloads_are_rejected() {
    let route = sample_route(vec![step(Swap::Raydium)]);
    let bytes = encode_shared_accounts_route(&route);
    for cut in 0..bytes.len() {
        assert_eq!(
            parse_shared_accounts_route(&bytes[..cut]).unwrap_err(),
            BonkPawsError::InvalidInstruction,
            "length {cut} must not parse"
        );
    }
}

#[test]
fn malformed_venue_payloads_are_rejected() {
    // A boolean byte other than 0 or 1 is malformed.
    let route = sample_route(vec![step(Swap::Crema { x_to_y: false })]);
    let mut bytes = encode_shared_accounts_route(&route);
    let crema_flag = 1 + 4 + 1;
    assert_eq!(bytes[crema_flag], 0);
    bytes[crema_flag] = 2;
    assert_eq!(
        parse_shared_accounts_route(&bytes).unwrap_err(),
        BonkPawsError::InvalidInstruction
    );

    // An unknown venue tag is malformed.
    let mut bytes = encode_shared_accounts_route(&sample_route(vec![step(Swap::Saber)]));
    bytes[5] = 41;
    assert_eq!(
        parse_shared_accounts_route(&bytes).unwrap_err(),
        BonkPawsError::InvalidInstruction
    );
}

#[test]
fn empty_route_plan_still_parses() {
    // An empty plan is a well-formed encoding; rejecting it is the swap
    // validator's decision, not the codec's.
    let route = sample_route(vec![]);
    let bytes = encode_shared_accounts_route(&route);
    let parsed = parse_shared_accounts_route(&bytes).unwrap();
    assert_eq!(parsed.route_plan.len(), 0);
}
