//! The external exchange's swap-call payloads.
//!
//! A swap operation's argument payload is an 8-byte call discriminator
//! followed by a structured route description in the exchange's binary
//! layout: fixed-width little-endian integers, a length-prefixed route
//! plan, and a tagged union of venue descriptors.  The protocol never
//! executes these routes; it decodes them to cross-check amounts, slippage
//! and route shape against what the surrounding operations declared.
//!
//! The layout is specified twice: once as spec-level encoding and parsing
//! functions over byte sequences, and once as executable code proved to
//! agree with them exactly.

use vstd::prelude::*;

use crate::bytes_util::{read_u16_le, read_u32_le, read_u64_le};
use crate::errors::BonkPawsError;
use crate::instructions::AccountMeta;
use crate::keys::{jupiter_id, key_eq, spec_jupiter_id};

verus! {

/// Order-book side of a venue hop.
#[derive(Clone, Copy, Debug, PartialEq, Eq, Structural)]
pub enum Side {
    Bid,
    Ask,
}

/// One venue a route hop can execute on, in the exchange's tag order.
#[derive(Clone, Copy, Debug, PartialEq, Eq, Structural)]
pub enum Swap {
    Saber,
    SaberAddDecimalsDeposit,
    SaberAddDecimalsWithdraw,
    TokenSwap,
    Sencha,
    Step,
    Cropper,
    Raydium,
    Crema { x_to_y: bool },
    Lifinity,
    Mercurial,
    Cykura,
    Serum { side: Side },
    MarinadeDeposit,
    MarinadeUnstake,
    Aldrin { side: Side },
    AldrinV2 { side: Side },
    Whirlpool { a_to_b: bool },
    Invariant { x_to_y: bool },
    Meteora,
    GooseFX,
    DeltaFi { stable: bool },
    Balansol,
    MarcoPolo { x_to_y: bool },
    Dradex { side: Side },
    LifinityV2,
    RaydiumClmm,
    Openbook { side: Side },
    Phoenix { side: Side },
    Symmetry { from_token_id: u64, to_token_id: u64 },
    TokenSwapV2,
    HeliumTreasuryManagementRedeemV0,
    StakeDexStakeWrappedSol,
    StakeDexSwapViaStake { bridge_stake_seed: u32 },
    GooseFXV2,
    Perps,
    PerpsAddLiquidity,
    PerpsRemoveLiquidity,
    MeteoraDlmm,
    OpenBookV2 { side: Side },
    RaydiumClmmV2,
}

/// One hop of a route plan: a venue and the indices it moves between.
#[derive(Clone, Copy, Debug, PartialEq, Eq, Structural)]
pub struct RoutePlanStep {
    /// The venue this hop executes on.
    pub swap: Swap,
    /// The share of the amount this hop carries, in percent.
    pub percent: u8,
    /// Index of the hop's input token account.
    pub input_index: u8,
    /// Index of the hop's output token account.
    pub output_index: u8,
}

/// An exact-input swap call: spend `in_amount`, expect about
/// `quoted_out_amount` within `slippage_bps`.
#[derive(Debug)]
pub struct SharedAccountsRoute {
    /// Route identifier chosen by the exchange client.
    pub id: u8,
    /// The ordered hops; a valid swap has at least one.
    pub route_plan: Vec<RoutePlanStep>,
    /// The input amount the swap spends.
    pub in_amount: u64,
    /// The output amount the exchange quoted.
    pub quoted_out_amount: u64,
    /// Allowed slippage around the quote, in basis points.
    pub slippage_bps: u16,
    /// The exchange's fee, in basis points.
    pub platform_fee_bps: u8,
}

/// Spec-level value of a [`SharedAccountsRoute`].
pub struct SharedAccountsRouteV {
    /// Route identifier chosen by the exchange client.
    pub id: u8,
    /// The ordered hops.
    pub route_plan: Seq<RoutePlanStep>,
    /// The input amount the swap spends.
    pub in_amount: u64,
    /// The output amount the exchange quoted.
    pub quoted_out_amount: u64,
    /// Allowed slippage around the quote, in basis points.
    pub slippage_bps: u16,
    /// The exchange's fee, in basis points.
    pub platform_fee_bps: u8,
}

impl View for SharedAccountsRoute {
    type V = SharedAccountsRouteV;

    open spec fn view(&self) -> SharedAccountsRouteV {
        SharedAccountsRouteV {
            id: self.id,
            route_plan: self.route_plan@,
            in_amount: self.in_amount,
            quoted_out_amount: self.quoted_out_amount,
            slippage_bps: self.slippage_bps,
            platform_fee_bps: self.platform_fee_bps,
        }
    }
}

/// An exact-output route description: deliver `out_amount`, spending
/// about `quoted_in_amount` within `slippage_bps`.
#[derive(Debug)]
pub struct ExactOutRoute {
    /// The ordered hops; a valid swap has at least one.
    pub route_plan: Vec<RoutePlanStep>,
    /// The output amount the swap must deliver.
    pub out_amount: u64,
    /// The input amount the exchange quoted.
    pub quoted_in_amount: u64,
    /// Allowed slippage around the quote, in basis points.
    pub slippage_bps: u16,
    /// The exchange's fee, in basis points.
    pub platform_fee_bps: u8,
}

/// Spec-level value of an [`ExactOutRoute`].
pub struct ExactOutRouteV {
    /// The ordered hops.
    pub route_plan: Seq<RoutePlanStep>,
    /// The output amount the swap must deliver.
    pub out_amount: u64,
    /// The input amount the exchange quoted.
    pub quoted_in_amount: u64,
    /// Allowed slippage around the quote, in basis points.
    pub slippage_bps: u16,
    /// The exchange's fee, in basis points.
    pub platform_fee_bps: u8,
}

impl View for ExactOutRoute {
    type V = ExactOutRouteV;

    open spec fn view(&self) -> ExactOutRouteV {
        ExactOutRouteV {
            route_plan: self.route_plan@,
            out_amount: self.out_amount,
            quoted_in_amount: self.quoted_in_amount,
            slippage_bps: self.slippage_bps,
            platform_fee_bps: self.platform_fee_bps,
        }
    }
}

/// An exact-output swap call through the exchange's shared accounts.
#[derive(Debug)]
pub struct SharedAccountsExactOutRoute {
    /// Route identifier chosen by the exchange client.
    pub id: u8,
    /// The ordered hops; a valid swap has at least one.
    pub route_plan: Vec<RoutePlanStep>,
    /// The output amount the swap must deliver.
    pub out_amount: u64,
    /// The input amount the exchange quoted.
    pub quoted_in_amount: u64,
    /// Allowed slippage around the quote, in basis points.
    pub slippage_bps: u16,
    /// The exchange's fee, in basis points.
    pub platform_fee_bps: u8,
}

/// Spec-level value of a [`SharedAccountsExactOutRoute`].
pub struct SharedAccountsExactOutRouteV {
    /// Route identifier chosen by the exchange client.
    pub id: u8,
    /// The ordered hops.
    pub route_plan: Seq<RoutePlanStep>,
    /// The output amount the swap must deliver.
    pub out_amount: u64,
    /// The input amount the exchange quoted.
    pub quoted_in_amount: u64,
    /// Allowed slippage around the quote, in basis points.
    pub slippage_bps: u16,
    /// The exchange's fee, in basis points.
    pub platform_fee_bps: u8,
}

impl View for SharedAccountsExactOutRoute {
    type V = SharedAccountsExactOutRouteV;

    open spec fn view(&self) -> SharedAccountsExactOutRouteV {
        SharedAccountsExactOutRouteV {
            id: self.id,
            route_plan: self.route_plan@,
            out_amount: self.out_amount,
            quoted_in_amount: self.quoted_in_amount,
            slippage_bps: self.slippage_bps,
            platform_fee_bps: self.platform_fee_bps,
        }
    }
}

/// Call discriminator of the exact-input swap.
pub open spec fn spec_shared_accounts_route_discriminator() -> Seq<u8> {
    seq![0xc1u8, 0x20, 0x9b, 0x33, 0x41, 0xd6, 0x9c, 0x81]
}

/// Call discriminator of the exact-input swap.
pub fn shared_accounts_route_discriminator() -> (r: [u8; 8])
    ensures
        r@ == spec_shared_accounts_route_discriminator(),
{
    let r: [u8; 8] = [0xc1u8, 0x20, 0x9b, 0x33, 0x41, 0xd6, 0x9c, 0x81];
    proof {
        assert(r@ =~= spec_shared_accounts_route_discriminator());
    }
    r
}

/// Call discriminator of the plain exact-output route.
pub open spec fn spec_exact_out_route_discriminator() -> Seq<u8> {
    seq![0xd0u8, 0x33, 0xef, 0x97, 0x7b, 0x2b, 0xed, 0x5c]
}

/// Call discriminator of the plain exact-output route.
pub fn exact_out_route_discriminator() -> (r: [u8; 8])
    ensures
        r@ == spec_exact_out_route_discriminator(),
{
    let r: [u8; 8] = [0xd0u8, 0x33, 0xef, 0x97, 0x7b, 0x2b, 0xed, 0x5c];
    proof {
        assert(r@ =~= spec_exact_out_route_discriminator());
    }
    r
}

/// Call discriminator of the shared-accounts exact-output swap.
pub open spec fn spec_shared_accounts_exact_out_route_discriminator() -> Seq<u8> {
    seq![0xb0u8, 0xd1, 0x69, 0xa8, 0x9a, 0x7d, 0x45, 0x3e]
}

/// Call discriminator of the shared-accounts exact-output swap.
pub fn shared_accounts_exact_out_route_discriminator() -> (r: [u8; 8])
    ensures
        r@ == spec_shared_accounts_exact_out_route_discriminator(),
{
    let r: [u8; 8] = [0xb0u8, 0xd1, 0x69, 0xa8, 0x9a, 0x7d, 0x45, 0x3e];
    proof {
        assert(r@ =~= spec_shared_accounts_exact_out_route_discriminator());
    }
    r
}

// ---------------------------------------------------------------------
// Spec-level encoding
// ---------------------------------------------------------------------

/// Encoding of a boolean: one byte, 0 or 1.
pub open spec fn spec_encode_bool(b: bool) -> Seq<u8> {
    if b {
        seq![1u8]
    } else {
        seq![0u8]
    }
}

/// Encoding of a [`Side`]: its tag byte.
pub open spec fn spec_encode_side(s: Side) -> Seq<u8> {
    match s {
        Side::Bid => seq![0u8],
        Side::Ask => seq![1u8],
    }
}

/// Encoding of a [`Swap`]: its tag byte followed by its payload fields.
pub open spec fn spec_encode_swap(s: Swap) -> Seq<u8> {
    match s {
        Swap::Saber => seq![0u8],
        Swap::SaberAddDecimalsDeposit => seq![1u8],
        Swap::SaberAddDecimalsWithdraw => seq![2u8],
        Swap::TokenSwap => seq![3u8],
        Swap::Sencha => seq![4u8],
        Swap::Step => seq![5u8],
        Swap::Cropper => seq![6u8],
        Swap::Raydium => seq![7u8],
        Swap::Crema { x_to_y } => seq![8u8] + spec_encode_bool(x_to_y),
        Swap::Lifinity => seq![9u8],
        Swap::Mercurial => seq![10u8],
        Swap::Cykura => seq![11u8],
        Swap::Serum { side } => seq![12u8] + spec_encode_side(side),
        Swap::MarinadeDeposit => seq![13u8],
        Swap::MarinadeUnstake => seq![14u8],
        Swap::Aldrin { side } => seq![15u8] + spec_encode_side(side),
        Swap::AldrinV2 { side } => seq![16u8] + spec_encode_side(side),
        Swap::Whirlpool { a_to_b } => seq![17u8] + spec_encode_bool(a_to_b),
        Swap::Invariant { x_to_y } => seq![18u8] + spec_encode_bool(x_to_y),
        Swap::Meteora => seq![19u8],
        Swap::GooseFX => seq![20u8],
        Swap::DeltaFi { stable } => seq![21u8] + spec_encode_bool(stable),
        Swap::Balansol => seq![22u8],
        Swap::MarcoPolo { x_to_y } => seq![23u8] + spec_encode_bool(x_to_y),
        Swap::Dradex { side } => seq![24u8] + spec_encode_side(side),
        Swap::LifinityV2 => seq![25u8],
        Swap::RaydiumClmm => seq![26u8],
        Swap::Openbook { side } => seq![27u8] + spec_encode_side(side),
        Swap::Phoenix { side } => seq![28u8] + spec_encode_side(side),
        Swap::Symmetry { from_token_id, to_token_id } => seq![29u8] + vstd::bytes::spec_u64_to_le_bytes(from_token_id) + vstd::bytes::spec_u64_to_le_bytes(to_token_id),
        Swap::TokenSwapV2 => seq![30u8],
        Swap::HeliumTreasuryManagementRedeemV0 => seq![31u8],
        Swap::StakeDexStakeWrappedSol => seq![32u8],
        Swap::StakeDexSwapViaStake { bridge_stake_seed } => seq![33u8] + vstd::bytes::spec_u32_to_le_bytes(bridge_stake_seed),
        Swap::GooseFXV2 => seq![34u8],
        Swap::Perps => seq![35u8],
        Swap::PerpsAddLiquidity => seq![36u8],
        Swap::PerpsRemoveLiquidity => seq![37u8],
        Swap::MeteoraDlmm => seq![38u8],
        Swap::OpenBookV2 { side } => seq![39u8] + spec_encode_side(side),
        Swap::RaydiumClmmV2 => seq![40u8],
    }
}

/// Encoding of one route hop.
pub open spec fn spec_encode_step(s: RoutePlanStep) -> Seq<u8> {
    spec_encode_swap(s.swap) + seq![s.percent, s.input_index, s.output_index]
}

/// Concatenated encoding of a sequence of hops.
pub open spec fn spec_encode_steps(steps: Seq<RoutePlanStep>) -> Seq<u8>
    decreases steps.len(),
{
    if steps.len() == 0 {
        Seq::<u8>::empty()
    } else {
        spec_encode_step(steps[0]) + spec_encode_steps(steps.subrange(1, steps.len() as int))
    }
}

/// Encoding of a route plan: a little-endian 32-bit hop count followed by
/// the hops.
pub open spec fn spec_encode_route_plan(steps: Seq<RoutePlanStep>) -> Seq<u8> {
    vstd::bytes::spec_u32_to_le_bytes(steps.len() as u32) + spec_encode_steps(steps)
}

/// Encoding of an exact-input swap payload (after its discriminator).
pub open spec fn spec_encode_shared_accounts_route(v: SharedAccountsRouteV) -> Seq<u8> {
    seq![v.id] + spec_encode_route_plan(v.route_plan) + vstd::bytes::spec_u64_to_le_bytes(
        v.in_amount,
    ) + vstd::bytes::spec_u64_to_le_bytes(v.quoted_out_amount)
        + vstd::bytes::spec_u16_to_le_bytes(v.slippage_bps) + seq![v.platform_fee_bps]
}

/// Encoding of a plain exact-output route payload.
pub open spec fn spec_encode_exact_out_route(v: ExactOutRouteV) -> Seq<u8> {
    spec_encode_route_plan(v.route_plan) + vstd::bytes::spec_u64_to_le_bytes(v.out_amount)
        + vstd::bytes::spec_u64_to_le_bytes(v.quoted_in_amount)
        + vstd::bytes::spec_u16_to_le_bytes(v.slippage_bps) + seq![v.platform_fee_bps]
}

/// Encoding of a shared-accounts exact-output swap payload.
pub open spec fn spec_encode_shared_accounts_exact_out_route(
    v: SharedAccountsExactOutRouteV,
) -> Seq<u8> {
    seq![v.id] + spec_encode_route_plan(v.route_plan) + vstd::bytes::spec_u64_to_le_bytes(
        v.out_amount,
    ) + vstd::bytes::spec_u64_to_le_bytes(v.quoted_in_amount)
        + vstd::bytes::spec_u16_to_le_bytes(v.slippage_bps) + seq![v.platform_fee_bps]
}

// ---------------------------------------------------------------------
// Spec-level parsing
// ---------------------------------------------------------------------

/// Parses one byte at `pos`.
pub open spec fn spec_parse_u8(data: Seq<u8>, pos: int) -> Option<(u8, int)> {
    if 0 <= pos && pos + 1 <= data.len() {
        Some((data[pos], pos + 1))
    } else {
        None
    }
}

/// Parses a little-endian 16-bit value at `pos`.
pub open spec fn spec_parse_u16(data: Seq<u8>, pos: int) -> Option<(u16, int)> {
    if 0 <= pos && pos + 2 <= data.len() {
        Some((vstd::bytes::spec_u16_from_le_bytes(data.subrange(pos, pos + 2)), pos + 2))
    } else {
        None
    }
}

/// Parses a little-endian 32-bit value at `pos`.
pub open spec fn spec_parse_u32(data: Seq<u8>, pos: int) -> Option<(u32, int)> {
    if 0 <= pos && pos + 4 <= data.len() {
        Some((vstd::bytes::spec_u32_from_le_bytes(data.subrange(pos, pos + 4)), pos + 4))
    } else {
        None
    }
}

/// Parses a little-endian 64-bit value at `pos`.
pub open spec fn spec_parse_u64(data: Seq<u8>, pos: int) -> Option<(u64, int)> {
    if 0 <= pos && pos + 8 <= data.len() {
        Some((vstd::bytes::spec_u64_from_le_bytes(data.subrange(pos, pos + 8)), pos + 8))
    } else {
        None
    }
}

/// Parses a strict boolean byte: 0 or 1, anything else is malformed.
pub open spec fn spec_parse_bool(data: Seq<u8>, pos: int) -> Option<(bool, int)> {
    if 0 <= pos && pos + 1 <= data.len() {
        if data[pos] == 0 {
            Some((false, pos + 1))
        } else if data[pos] == 1 {
            Some((true, pos + 1))
        } else {
            None
        }
    } else {
        None
    }
}

/// Parses a [`Side`] tag byte.
pub open spec fn spec_parse_side(data: Seq<u8>, pos: int) -> Option<(Side, int)> {
    if 0 <= pos && pos + 1 <= data.len() {
        if data[pos] == 0 {
            Some((Side::Bid, pos + 1))
        } else if data[pos] == 1 {
            Some((Side::Ask, pos + 1))
        } else {
            None
        }
    } else {
        None
    }
}

/// Parses a [`Swap`]: a tag byte followed by the variant's payload; an
/// unknown tag is malformed.
pub open spec fn spec_parse_swap(data: Seq<u8>, pos: int) -> Option<(Swap, int)> {
    if pos < 0 || pos + 1 > data.len() {
        None
    } else {
        let tag = data[pos];
        if tag == 0 {
            Some((Swap::Saber, pos + 1))
        } else if tag == 1 {
            Some((Swap::SaberAddDecimalsDeposit, pos + 1))
        } else if tag == 2 {
            Some((Swap::SaberAddDecimalsWithdraw, pos + 1))
        } else if tag == 3 {
            Some((Swap::TokenSwap, pos + 1))
        } else if tag == 4 {
            Some((Swap::Sencha, pos + 1))
        } else if tag == 5 {
            Some((Swap::Step, pos + 1))
        } else if tag == 6 {
            Some((Swap::Cropper, pos + 1))
        } else if tag == 7 {
            Some((Swap::Raydium, pos + 1))
        } else if tag == 8 {
            match spec_parse_bool(data, pos + 1) {
                Some((v, p)) => Some((Swap::Crema { x_to_y: v }, p)),
                None => None,
            }
        } else if tag == 9 {
            Some((Swap::Lifinity, pos + 1))
        } else if tag == 10 {
            Some((Swap::Mercurial, pos + 1))
        } else if tag == 11 {
            Some((Swap::Cykura, pos + 1))
        } else if tag == 12 {
            match spec_parse_side(data, pos + 1) {
                Some((v, p)) => Some((Swap::Serum { side: v }, p)),
                None => None,
            }
        } else if tag == 13 {
            Some((Swap::MarinadeDeposit, pos + 1))
        } else if tag == 14 {
            Some((Swap::MarinadeUnstake, pos + 1))
        } else if tag == 15 {
            match spec_parse_side(data, pos + 1) {
                Some((v, p)) => Some((Swap::Aldrin { side: v }, p)),
                None => None,
            }
        } else if tag == 16 {
            match spec_parse_side(data, pos + 1) {
                Some((v, p)) => Some((Swap::AldrinV2 { side: v }, p)),
                None => None,
            }
        } else if tag == 17 {
            match spec_parse_bool(data, pos + 1) {
                Some((v, p)) => Some((Swap::Whirlpool { a_to_b: v }, p)),
                None => None,
            }
        } else if tag == 18 {
            match spec_parse_bool(data, pos + 1) {
                Some((v, p)) => Some((Swap::Invariant { x_to_y: v }, p)),
                None => None,
            }
        } else if tag == 19 {
            Some((Swap::Meteora, pos + 1))
        } else if tag == 20 {
            Some((Swap::GooseFX, pos + 1))
        } else if tag == 21 {
            match spec_parse_bool(data, pos + 1) {
                Some((v, p)) => Some((Swap::DeltaFi { stable: v }, p)),
                None => None,
            }
        } else if tag == 22 {
            Some((Swap::Balansol, pos + 1))
        } else if tag == 23 {
            match spec_parse_bool(data, pos + 1) {
                Some((v, p)) => Some((Swap::MarcoPolo { x_to_y: v }, p)),
                None => None,
            }
        } else if tag == 24 {
            match spec_parse_side(data, pos + 1) {
                Some((v, p)) => Some((Swap::Dradex { side: v }, p)),
                None => None,
            }
        } else if tag == 25 {
            Some((Swap::LifinityV2, pos + 1))
        } else if tag == 26 {
            Some((Swap::RaydiumClmm, pos + 1))
        } else if tag == 27 {
            match spec_parse_side(data, pos + 1) {
                Some((v, p)) => Some((Swap::Openbook { side: v }, p)),
                None => None,
            }
        } else if tag == 28 {
            match spec_parse_side(data, pos + 1) {
                Some((v, p)) => Some((Swap::Phoenix { side: v }, p)),
                None => None,
            }
        } else if tag == 29 {
            match spec_parse_u64(data, pos + 1) {
                Some((a, p1)) => match spec_parse_u64(data, p1) {
                    Some((b, p2)) => Some((Swap::Symmetry { from_token_id: a, to_token_id: b }, p2)),
                    None => None,
                },
                None => None,
            }
        } else if tag == 30 {
            Some((Swap::TokenSwapV2, pos + 1))
        } else if tag == 31 {
            Some((Swap::HeliumTreasuryManagementRedeemV0, pos + 1))
        } else if tag == 32 {
            Some((Swap::StakeDexStakeWrappedSol, pos + 1))
        } else if tag == 33 {
            match spec_parse_u32(data, pos + 1) {
                Some((v, p)) => Some((Swap::StakeDexSwapViaStake { bridge_stake_seed: v }, p)),
                None => None,
            }
        } else if tag == 34 {
            Some((Swap::GooseFXV2, pos + 1))
        } else if tag == 35 {
            Some((Swap::Perps, pos + 1))
        } else if tag == 36 {
            Some((Swap::PerpsAddLiquidity, pos + 1))
        } else if tag == 37 {
            Some((Swap::PerpsRemoveLiquidity, pos + 1))
        } else if tag == 38 {
            Some((Swap::MeteoraDlmm, pos + 1))
        } else if tag == 39 {
            match spec_parse_side(data, pos + 1) {
                Some((v, p)) => Some((Swap::OpenBookV2 { side: v }, p)),
                None => None,
            }
        } else if tag == 40 {
            Some((Swap::RaydiumClmmV2, pos + 1))
        } else {
            None
        }
    }
}

/// Parses one route hop: a venue followed by percent and the two indices.
pub open spec fn spec_parse_step(data: Seq<u8>, pos: int) -> Option<(RoutePlanStep, int)> {
    match spec_parse_swap(data, pos) {
        Some((swap, p)) => {
            if p + 3 <= data.len() {
                Some(
                    (
                        RoutePlanStep {
                            swap,
                            percent: data[p],
                            input_index: data[p + 1],
                            output_index: data[p + 2],
                        },
                        p + 3,
                    ),
                )
            } else {
                None
            }
        },
        None => None,
    }
}

/// Parses exactly `count` route hops starting at `pos`.
pub open spec fn spec_parse_steps(data: Seq<u8>, pos: int, count: int) -> Option<
    (Seq<RoutePlanStep>, int),
>
    decreases count,
{
    if count <= 0 {
        Some((Seq::<RoutePlanStep>::empty(), pos))
    } else {
        match spec_parse_step(data, pos) {
            Some((step, p)) => match spec_parse_steps(data, p, count - 1) {
                Some((rest, e)) => Some((seq![step] + rest, e)),
                None => None,
            },
            None => None,
        }
    }
}

/// Parses a route plan: a 32-bit hop count followed by that many hops.
pub open spec fn spec_parse_route_plan(data: Seq<u8>, pos: int) -> Option<
    (Seq<RoutePlanStep>, int),
> {
    match spec_parse_u32(data, pos) {
        Some((n, p)) => spec_parse_steps(data, p, n as int),
        None => None,
    }
}

/// Parses a whole exact-input swap payload; every byte must be consumed.
pub open spec fn spec_parse_shared_accounts_route(data: Seq<u8>) -> Option<SharedAccountsRouteV> {
    match spec_parse_u8(data, 0) {
        Some((id, p1)) => match spec_parse_route_plan(data, p1) {
            Some((route_plan, p2)) => match spec_parse_u64(data, p2) {
                Some((in_amount, p3)) => match spec_parse_u64(data, p3) {
                    Some((quoted_out_amount, p4)) => match spec_parse_u16(data, p4) {
                        Some((slippage_bps, p5)) => match spec_parse_u8(data, p5) {
                            Some((platform_fee_bps, p6)) => {
                                if p6 == data.len() {
                                    Some(
                                        SharedAccountsRouteV {
                                            id,
                                            route_plan,
                                            in_amount,
                                            quoted_out_amount,
                                            slippage_bps,
                                            platform_fee_bps,
                                        },
                                    )
                                } else {
                                    None
                                }
                            },
                            None => None,
                        },
                        None => None,
                    },
                    None => None,
                },
                None => None,
            },
            None => None,
        },
        None => None,
    }
}

/// Parses a whole plain exact-output route payload; every byte must be
/// consumed.
pub open spec fn spec_parse_exact_out_route(data: Seq<u8>) -> Option<ExactOutRouteV> {
    match spec_parse_route_plan(data, 0) {
        Some((route_plan, p2)) => match spec_parse_u64(data, p2) {
            Some((out_amount, p3)) => match spec_parse_u64(data, p3) {
                Some((quoted_in_amount, p4)) => match spec_parse_u16(data, p4) {
                    Some((slippage_bps, p5)) => match spec_parse_u8(data, p5) {
                        Some((platform_fee_bps, p6)) => {
                            if p6 == data.len() {
                                Some(
                                    ExactOutRouteV {
                                        route_plan,
                                        out_amount,
                                        quoted_in_amount,
                                        slippage_bps,
                                        platform_fee_bps,
                                    },
                                )
                            } else {
                                None
                            }
                        },
                        None => None,
                    },
                    None => None,
                },
                None => None,
            },
            None => None,
        },
        None => None,
    }
}

/// Parses a whole shared-accounts exact-output swap payload; every byte
/// must be consumed.
pub open spec fn spec_parse_shared_accounts_exact_out_route(data: Seq<u8>) -> Option<
    SharedAccountsExactOutRouteV,
> {
    match spec_parse_u8(data, 0) {
        Some((id, p1)) => match spec_parse_route_plan(data, p1) {
            Some((route_plan, p2)) => match spec_parse_u64(data, p2) {
                Some((out_amount, p3)) => match spec_parse_u64(data, p3) {
                    Some((quoted_in_amount, p4)) => match spec_parse_u16(data, p4) {
                        Some((slippage_bps, p5)) => match spec_parse_u8(data, p5) {
                            Some((platform_fee_bps, p6)) => {
                                if p6 == data.len() {
                                    Some(
                                        SharedAccountsExactOutRouteV {
                                            id,
                                            route_plan,
                                            out_amount,
                                            quoted_in_amount,
                                            slippage_bps,
                                            platform_fee_bps,
                                        },
                                    )
                                } else {
                                    None
                                }
                            },
                            None => None,
                        },
                        None => None,
                    },
                    None => None,
                },
                None => None,
            },
            None => None,
        },
        None => None,
    }
}

// ---------------------------------------------------------------------
// Executable parsing, proved equal to the spec-level parser
// ---------------------------------------------------------------------

fn parse_u8(data: &[u8], pos: usize) -> (r: Option<(u8, usize)>)
    requires
        pos <= data@.len(),
    ensures
        match r {
            Some((v, p)) => spec_parse_u8(data@, pos as int) == Some((v, p as int)) && pos < p
                <= data@.len(),
            None => spec_parse_u8(data@, pos as int) is None,
        },
{
    let dlen = data.len();
    if dlen - pos >= 1 {
        Some((data[pos], pos + 1))
    } else {
        None
    }
}

fn parse_u16(data: &[u8], pos: usize) -> (r: Option<(u16, usize)>)
    requires
        pos <= data@.len(),
    ensures
        match r {
            Some((v, p)) => spec_parse_u16(data@, pos as int) == Some((v, p as int)) && pos < p
                <= data@.len(),
            None => spec_parse_u16(data@, pos as int) is None,
        },
{
    let dlen = data.len();
    if dlen - pos >= 2 {
        Some((read_u16_le(data, pos), pos + 2))
    } else {
        None
    }
}

fn parse_u32(data: &[u8], pos: usize) -> (r: Option<(u32, usize)>)
    requires
        pos <= data@.len(),
    ensures
        match r {
            Some((v, p)) => spec_parse_u32(data@, pos as int) == Some((v, p as int)) && pos < p
                <= data@.len(),
            None => spec_parse_u32(data@, pos as int) is None,
        },
{
    let dlen = data.len();
    if dlen - pos >= 4 {
        Some((read_u32_le(data, pos), pos + 4))
    } else {
        None
    }
}

fn parse_u64(data: &[u8], pos: usize) -> (r: Option<(u64, usize)>)
    requires
        pos <= data@.len(),
    ensures
        match r {
            Some((v, p)) => spec_parse_u64(data@, pos as int) == Some((v, p as int)) && pos < p
                <= data@.len(),
            None => spec_parse_u64(data@, pos as int) is None,
        },
{
    let dlen = data.len();
    if dlen - pos >= 8 {
        Some((read_u64_le(data, pos), pos + 8))
    } else {
        None
    }
}

fn parse_bool(data: &[u8], pos: usize) -> (r: Option<(bool, usize)>)
    requires
        pos <= data@.len(),
    ensures
        match r {
            Some((v, p)) => spec_parse_bool(data@, pos as int) == Some((v, p as int)) && pos < p
                <= data@.len(),
            None => spec_parse_bool(data@, pos as int) is None,
        },
{
    let dlen = data.len();
    if dlen - pos >= 1 {
        let b = data[pos];
        if b == 0 {
            Some((false, pos + 1))
        } else if b == 1 {
            Some((true, pos + 1))
        } else {
            None
        }
    } else {
        None
    }
}

fn parse_side(data: &[u8], pos: usize) -> (r: Option<(Side, usize)>)
    requires
        pos <= data@.len(),
    ensures
        match r {
            Some((v, p)) => spec_parse_side(data@, pos as int) == Some((v, p as int)) && pos < p
                <= data@.len(),
            None => spec_parse_side(data@, pos as int) is None,
        },
{
    let dlen = data.len();
    if dlen - pos >= 1 {
        let b = data[pos];
        if b == 0 {
            Some((Side::Bid, pos + 1))
        } else if b == 1 {
            Some((Side::Ask, pos + 1))
        } else {
            None
        }
    } else {
        None
    }
}

fn parse_swap(data: &[u8], pos: usize) -> (r: Option<(Swap, usize)>)
    requires
        pos <= data@.len(),
    ensures
        match r {
            Some((v, p)) => spec_parse_swap(data@, pos as int) == Some((v, p as int)) && pos < p
                <= data@.len(),
            None => spec_parse_swap(data@, pos as int) is None,
        },
{
    let dlen = data.len();
    if dlen - pos < 1 {
        return None;
    }
    let tag = data[pos];
    if tag == 0 {
        Some((Swap::Saber, pos + 1))
    } else if tag == 1 {
        Some((Swap::SaberAddDecimalsDeposit, pos + 1))
    } else if tag == 2 {
        Some((Swap::SaberAddDecimalsWithdraw, pos + 1))
    } else if tag == 3 {
        Some((Swap::TokenSwap, pos + 1))
    } else if tag == 4 {
        Some((Swap::Sencha, pos + 1))
    } else if tag == 5 {
        Some((Swap::Step, pos + 1))
    } else if tag == 6 {
        Some((Swap::Cropper, pos + 1))
    } else if tag == 7 {
        Some((Swap::Raydium, pos + 1))
    } else if tag == 8 {
        match parse_bool(data, pos + 1) {
            Some((v, p)) => Some((Swap::Crema { x_to_y: v }, p)),
            None => None,
        }
    } else if tag == 9 {
        Some((Swap::Lifinity, pos + 1))
    } else if tag == 10 {
        Some((Swap::Mercurial, pos + 1))
    } else if tag == 11 {
        Some((Swap::Cykura, pos + 1))
    } else if tag == 12 {
        match parse_side(data, pos + 1) {
            Some((v, p)) => Some((Swap::Serum { side: v }, p)),
            None => None,
        }
    } else if tag == 13 {
        Some((Swap::MarinadeDeposit, pos + 1))
    } else if tag == 14 {
        Some((Swap::MarinadeUnstake, pos + 1))
    } else if tag == 15 {
        match parse_side(data, pos + 1) {
            Some((v, p)) => Some((Swap::Aldrin { side: v }, p)),
            None => None,
        }
    } else if tag == 16 {
        match parse_side(data, pos + 1) {
            Some((v, p)) => Some((Swap::AldrinV2 { side: v }, p)),
            None => None,
        }
    } else if tag == 17 {
        match parse_bool(data, pos + 1) {
            Some((v, p)) => Some((Swap::Whirlpool { a_to_b: v }, p)),
            None => None,
        }
    } else if tag == 18 {
        match parse_bool(data, pos + 1) {
            Some((v, p)) => Some((Swap::Invariant { x_to_y: v }, p)),
            None => None,
        }
    } else if tag == 19 {
        Some((Swap::Meteora, pos + 1))
    } else if tag == 20 {
        Some((Swap::GooseFX, pos + 1))
    } else if tag == 21 {
        match parse_bool(data, pos + 1) {
            Some((v, p)) => Some((Swap::DeltaFi { stable: v }, p)),
            None => None,
        }
    } else if tag == 22 {
        Some((Swap::Balansol, pos + 1))
    } else if tag == 23 {
        match parse_bool(data, pos + 1) {
            Some((v, p)) => Some((Swap::MarcoPolo { x_to_y: v }, p)),
            None => None,
        }
    } else if tag == 24 {
        match parse_side(data, pos + 1) {
            Some((v, p)) => Some((Swap::Dradex { side: v }, p)),
            None => None,
        }
    } else if tag == 25 {
        Some((Swap::LifinityV2, pos + 1))
    } else if tag == 26 {
        Some((Swap::RaydiumClmm, pos + 1))
    } else if tag == 27 {
        match parse_side(data, pos + 1) {
            Some((v, p)) => Some((Swap::Openbook { side: v }, p)),
            None => None,
        }
    } else if tag == 28 {
        match parse_side(data, pos + 1) {
            Some((v, p)) => Some((Swap::Phoenix { side: v }, p)),
            None => None,
        }
    } else if tag == 29 {
        match parse_u64(data, pos + 1) {
            Some((a, p1)) => match parse_u64(data, p1) {
                Some((b, p2)) => Some((Swap::Symmetry { from_token_id: a, to_token_id: b }, p2)),
                None => None,
            },
            None => None,
        }
    } else if tag == 30 {
        Some((Swap::TokenSwapV2, pos + 1))
    } else if tag == 31 {
        Some((Swap::HeliumTreasuryManagementRedeemV0, pos + 1))
    } else if tag == 32 {
        Some((Swap::StakeDexStakeWrappedSol, pos + 1))
    } else if tag == 33 {
        match parse_u32(data, pos + 1) {
            Some((v, p)) => Some((Swap::StakeDexSwapViaStake { bridge_stake_seed: v }, p)),
            None => None,
        }
    } else if tag == 34 {
        Some((Swap::GooseFXV2, pos + 1))
    } else if tag == 35 {
        Some((Swap::Perps, pos + 1))
    } else if tag == 36 {
        Some((Swap::PerpsAddLiquidity, pos + 1))
    } else if tag == 37 {
        Some((Swap::PerpsRemoveLiquidity, pos + 1))
    } else if tag == 38 {
        Some((Swap::MeteoraDlmm, pos + 1))
    } else if tag == 39 {
        match parse_side(data, pos + 1) {
            Some((v, p)) => Some((Swap::OpenBookV2 { side: v }, p)),
            None => None,
        }
    } else if tag == 40 {
        Some((Swap::RaydiumClmmV2, pos + 1))
    } else {
        None
    }
}

fn parse_step(data: &[u8], pos: usize) -> (r: Option<(RoutePlanStep, usize)>)
    requires
        pos <= data@.len(),
    ensures
        match r {
            Some((v, p)) => spec_parse_step(data@, pos as int) == Some((v, p as int)) && pos < p
                <= data@.len(),
            None => spec_parse_step(data@, pos as int) is None,
        },
{
    match parse_swap(data, pos) {
        Some((swap, p)) => {
            let dlen = data.len();
            if dlen - p >= 3 {
                let step = RoutePlanStep {
                    swap,
                    percent: data[p],
                    input_index: data[p + 1],
                    output_index: data[p + 2],
                };
                Some((step, p + 3))
            } else {
                None
            }
        },
        None => None,
    }
}

fn parse_steps(data: &[u8], pos: usize, count: u32) -> (r: Option<(Vec<RoutePlanStep>, usize)>)
    requires
        pos <= data@.len(),
    ensures
        match r {
            Some((v, p)) => spec_parse_steps(data@, pos as int, count as int) == Some(
                (v@, p as int),
            ) && pos <= p <= data@.len(),
            None => spec_parse_steps(data@, pos as int, count as int) is None,
        },
{
    let mut acc: Vec<RoutePlanStep> = Vec::new();
    let mut p: usize = pos;
    let mut i: u32 = 0;
    while i < count
        invariant
            pos <= p <= data@.len(),
            i <= count,
            acc@.len() == i,
            match spec_parse_steps(data@, p as int, count - i) {
                Some((rest, e)) => spec_parse_steps(data@, pos as int, count as int) == Some(
                    (acc@ + rest, e),
                ),
                None => spec_parse_steps(data@, pos as int, count as int) is None,
            },
        decreases count - i,
    {
        match parse_step(data, p) {
            Some((step, np)) => {
                proof {
                    if spec_parse_steps(data@, np as int, count - i - 1) is Some {
                        let (rest2, e) = spec_parse_steps(data@, np as int, count - i - 1)
                            .unwrap();
                        assert(acc@ + (seq![step] + rest2) =~= acc@.push(step) + rest2);
                    }
                }
                acc.push(step);
                p = np;
                i = i + 1;
            },
            None => {
                return None;
            },
        }
    }
    proof {
        assert(acc@ + Seq::<RoutePlanStep>::empty() =~= acc@);
    }
    Some((acc, p))
}

fn parse_route_plan(data: &[u8], pos: usize) -> (r: Option<(Vec<RoutePlanStep>, usize)>)
    requires
        pos <= data@.len(),
    ensures
        match r {
            Some((v, p)) => spec_parse_route_plan(data@, pos as int) == Some((v@, p as int))
                && pos <= p <= data@.len(),
            None => spec_parse_route_plan(data@, pos as int) is None,
        },
{
    match parse_u32(data, pos) {
        Some((n, p)) => parse_steps(data, p, n),
        None => None,
    }
}

/// Parses an exact-input swap payload (the bytes after the
/// discriminator).  Succeeds exactly when the bytes are one complete,
/// well-formed encoding; a malformed payload is an invalid instruction.
pub fn parse_shared_accounts_route(data: &[u8]) -> (r: Result<SharedAccountsRoute, BonkPawsError>)
    ensures
        match r {
            Ok(v) => spec_parse_shared_accounts_route(data@) == Some(v@),
            Err(e) => spec_parse_shared_accounts_route(data@) is None && e
                == BonkPawsError::InvalidInstruction,
        },
{
    if let Some((id, p1)) = parse_u8(data, 0) {
        if let Some((route_plan, p2)) = parse_route_plan(data, p1) {
            if let Some((in_amount, p3)) = parse_u64(data, p2) {
                if let Some((quoted_out_amount, p4)) = parse_u64(data, p3) {
                    if let Some((slippage_bps, p5)) = parse_u16(data, p4) {
                        if let Some((platform_fee_bps, p6)) = parse_u8(data, p5) {
                            if p6 == data.len() {
                                return Ok(
                                    SharedAccountsRoute {
                                        id,
                                        route_plan,
                                        in_amount,
                                        quoted_out_amount,
                                        slippage_bps,
                                        platform_fee_bps,
                                    },
                                );
                            }
                        }
                    }
                }
            }
        }
    }
    Err(BonkPawsError::InvalidInstruction)
}

/// Parses a plain exact-output route payload (the bytes after the
/// discriminator).  Succeeds exactly when the bytes are one complete,
/// well-formed encoding.
pub fn parse_exact_out_route(data: &[u8]) -> (r: Result<ExactOutRoute, BonkPawsError>)
    ensures
        match r {
            Ok(v) => spec_parse_exact_out_route(data@) == Some(v@),
            Err(e) => spec_parse_exact_out_route(data@) is None && e
                == BonkPawsError::InvalidInstruction,
        },
{
    if let Some((route_plan, p2)) = parse_route_plan(data, 0) {
        if let Some((out_amount, p3)) = parse_u64(data, p2) {
            if let Some((quoted_in_amount, p4)) = parse_u64(data, p3) {
                if let Some((slippage_bps, p5)) = parse_u16(data, p4) {
                    if let Some((platform_fee_bps, p6)) = parse_u8(data, p5) {
                        if p6 == data.len() {
                            return Ok(
                                ExactOutRoute {
                                    route_plan,
                                    out_amount,
                                    quoted_in_amount,
                                    slippage_bps,
                                    platform_fee_bps,
                                },
                            );
                        }
                    }
                }
            }
        }
    }
    Err(BonkPawsError::InvalidInstruction)
}

/// Parses a shared-accounts exact-output swap payload (the bytes after
/// the discriminator).  Succeeds exactly when the bytes are one complete,
/// well-formed encoding.
pub fn parse_shared_accounts_exact_out_route(data: &[u8]) -> (r: Result<
    SharedAccountsExactOutRoute,
    BonkPawsError,
>)
    ensures
        match r {
            Ok(v) => spec_parse_shared_accounts_exact_out_route(data@) == Some(v@),
            Err(e) => spec_parse_shared_accounts_exact_out_route(data@) is None && e
                == BonkPawsError::InvalidInstruction,
        },
{
    if let Some((id, p1)) = parse_u8(data, 0) {
        if let Some((route_plan, p2)) = parse_route_plan(data, p1) {
            if let Some((out_amount, p3)) = parse_u64(data, p2) {
                if let Some((quoted_in_amount, p4)) = parse_u64(data, p3) {
                    if let Some((slippage_bps, p5)) = parse_u16(data, p4) {
                        if let Some((platform_fee_bps, p6)) = parse_u8(data, p5) {
                            if p6 == data.len() {
                                return Ok(
                                    SharedAccountsExactOutRoute {
                                        id,
                                        route_plan,
                                        out_amount,
                                        quoted_in_amount,
                                        slippage_bps,
                                        platform_fee_bps,
                                    },
                                );
                            }
                        }
                    }
                }
            }
        }
    }
    Err(BonkPawsError::InvalidInstruction)
}

// ---------------------------------------------------------------------
// Executable encoding, proved equal to the spec-level encoding
// ---------------------------------------------------------------------

fn encode_bool_into(out: &mut Vec<u8>, b: bool)
    ensures
        final(out)@ == old(out)@ + spec_encode_bool(b),
{
    if b {
        out.push(1u8);
    } else {
        out.push(0u8);
    }
    proof {
        assert(final(out)@ =~= old(out)@ + spec_encode_bool(b));
    }
}

fn encode_side_into(out: &mut Vec<u8>, s: Side)
    ensures
        final(out)@ == old(out)@ + spec_encode_side(s),
{
    match s {
        Side::Bid => out.push(0u8),
        Side::Ask => out.push(1u8),
    }
    proof {
        assert(final(out)@ =~= old(out)@ + spec_encode_side(s));
    }
}

fn encode_swap_into(out: &mut Vec<u8>, s: &Swap)
    ensures
        final(out)@ == old(out)@ + spec_encode_swap(*s),
{
    match *s {
        Swap::Saber => {
            out.push(0u8);
        },
        Swap::SaberAddDecimalsDeposit => {
            out.push(1u8);
        },
        Swap::SaberAddDecimalsWithdraw => {
            out.push(2u8);
        },
        Swap::TokenSwap => {
            out.push(3u8);
        },
        Swap::Sencha => {
            out.push(4u8);
        },
        Swap::Step => {
            out.push(5u8);
        },
        Swap::Cropper => {
            out.push(6u8);
        },
        Swap::Raydium => {
            out.push(7u8);
        },
        Swap::Crema { x_to_y } => {
            out.push(8u8);
            encode_bool_into(out, x_to_y);
        },
        Swap::Lifinity => {
            out.push(9u8);
        },
        Swap::Mercurial => {
            out.push(10u8);
        },
        Swap::Cykura => {
            out.push(11u8);
        },
        Swap::Serum { side } => {
            out.push(12u8);
            encode_side_into(out, side);
        },
        Swap::MarinadeDeposit => {
            out.push(13u8);
        },
        Swap::MarinadeUnstake => {
            out.push(14u8);
        },
        Swap::Aldrin { side } => {
            out.push(15u8);
            encode_side_into(out, side);
        },
        Swap::AldrinV2 { side } => {
            out.push(16u8);
            encode_side_into(out, side);
        },
        Swap::Whirlpool { a_to_b } => {
            out.push(17u8);
            encode_bool_into(out, a_to_b);
        },
        Swap::Invariant { x_to_y } => {
            out.push(18u8);
            encode_bool_into(out, x_to_y);
        },
        Swap::Meteora => {
            out.push(19u8);
        },
        Swap::GooseFX => {
            out.push(20u8);
        },
        Swap::DeltaFi { stable } => {
            out.push(21u8);
            encode_bool_into(out, stable);
        },
        Swap::Balansol => {
            out.push(22u8);
        },
        Swap::MarcoPolo { x_to_y } => {
            out.push(23u8);
            encode_bool_into(out, x_to_y);
        },
        Swap::Dradex { side } => {
            out.push(24u8);
            encode_side_into(out, side);
        },
        Swap::LifinityV2 => {
            out.push(25u8);
        },
        Swap::RaydiumClmm => {
            out.push(26u8);
        },
        Swap::Openbook { side } => {
            out.push(27u8);
            encode_side_into(out, side);
        },
        Swap::Phoenix { side } => {
            out.push(28u8);
            encode_side_into(out, side);
        },
        Swap::Symmetry { from_token_id, to_token_id } => {
            out.push(29u8);
            let mut b_from_token_id = vstd::bytes::u64_to_le_bytes(from_token_id);
            out.append(&mut b_from_token_id);
            let mut b_to_token_id = vstd::bytes::u64_to_le_bytes(to_token_id);
            out.append(&mut b_to_token_id);
        },
        Swap::TokenSwapV2 => {
            out.push(30u8);
        },
        Swap::HeliumTreasuryManagementRedeemV0 => {
            out.push(31u8);
        },
        Swap::StakeDexStakeWrappedSol => {
            out.push(32u8);
        },
        Swap::StakeDexSwapViaStake { bridge_stake_seed } => {
            out.push(33u8);
            let mut b_bridge_stake_seed = vstd::bytes::u32_to_le_bytes(bridge_stake_seed);
            out.append(&mut b_bridge_stake_seed);
        },
        Swap::GooseFXV2 => {
            out.push(34u8);
        },
        Swap::Perps => {
            out.push(35u8);
        },
        Swap::PerpsAddLiquidity => {
            out.push(36u8);
        },
        Swap::PerpsRemoveLiquidity => {
            out.push(37u8);
        },
        Swap::MeteoraDlmm => {
            out.push(38u8);
        },
        Swap::OpenBookV2 { side } => {
            out.push(39u8);
            encode_side_into(out, side);
        },
        Swap::RaydiumClmmV2 => {
            out.push(40u8);
        },
    }
    proof {
        assert(final(out)@ =~= old(out)@ + spec_encode_swap(*s));
    }
}

fn encode_step_into(out: &mut Vec<u8>, s: &RoutePlanStep)
    ensures
        final(out)@ == old(out)@ + spec_encode_step(*s),
{
    encode_swap_into(out, &s.swap);
    out.push(s.percent);
    out.push(s.input_index);
    out.push(s.output_index);
    proof {
        assert(final(out)@ =~= old(out)@ + spec_encode_step(*s));
    }
}

/// Appending one hop to a sequence appends its encoding.
proof fn lemma_encode_steps_push(steps: Seq<RoutePlanStep>, step: RoutePlanStep)
    ensures
        spec_encode_steps(steps.push(step)) == spec_encode_steps(steps) + spec_encode_step(step),
    decreases steps.len(),
{
    if steps.len() == 0 {
        reveal_with_fuel(spec_encode_steps, 3);
        assert(steps.push(step)[0] == step);
        assert(steps.push(step).subrange(1, steps.push(step).len() as int)
            =~= Seq::<RoutePlanStep>::empty());
        assert(spec_encode_steps(steps.push(step)) =~= spec_encode_steps(steps)
            + spec_encode_step(step));
    } else {
        let pushed = steps.push(step);
        let tail = steps.subrange(1, steps.len() as int);
        assert(pushed[0] == steps[0]);
        assert(pushed.subrange(1, pushed.len() as int) =~= tail.push(step));
        lemma_encode_steps_push(tail, step);
        assert(spec_encode_steps(pushed) == spec_encode_step(steps[0]) + (spec_encode_steps(tail)
            + spec_encode_step(step)));
        assert(spec_encode_step(steps[0]) + (spec_encode_steps(tail) + spec_encode_step(step))
            =~= (spec_encode_step(steps[0]) + spec_encode_steps(tail)) + spec_encode_step(step));
    }
}

fn encode_route_plan_into(out: &mut Vec<u8>, steps: &Vec<RoutePlanStep>)
    requires
        steps@.len() <= u32::MAX,
    ensures
        final(out)@ == old(out)@ + spec_encode_route_plan(steps@),
{
    let n: u32 = steps.len() as u32;
    let mut len_bytes = vstd::bytes::u32_to_le_bytes(n);
    out.append(&mut len_bytes);
    let ghost base = out@;
    let mut i: usize = 0;
    while i < steps.len()
        invariant
            i <= steps@.len(),
            out@ == base + spec_encode_steps(steps@.subrange(0, i as int)),
        decreases steps@.len() - i,
    {
        encode_step_into(out, &steps[i]);
        proof {
            assert(steps@.subrange(0, i + 1) =~= steps@.subrange(0, i as int).push(steps@[
                i as int
            ]));
            lemma_encode_steps_push(steps@.subrange(0, i as int), steps@[i as int]);
        }
        i = i + 1;
    }
    proof {
        assert(steps@.subrange(0, steps@.len() as int) =~= steps@);
        assert(final(out)@ =~= old(out)@ + spec_encode_route_plan(steps@));
    }
}

/// Encodes an exact-input swap payload (without its discriminator).
pub fn encode_shared_accounts_route(v: &SharedAccountsRoute) -> (r: Vec<u8>)
    requires
        v.route_plan@.len() <= u32::MAX,
    ensures
        r@ == spec_encode_shared_accounts_route(v@),
{
    let mut out: Vec<u8> = Vec::new();
    out.push(v.id);
    encode_route_plan_into(&mut out, &v.route_plan);
    let mut b1 = vstd::bytes::u64_to_le_bytes(v.in_amount);
    out.append(&mut b1);
    let mut b2 = vstd::bytes::u64_to_le_bytes(v.quoted_out_amount);
    out.append(&mut b2);
    let mut b3 = vstd::bytes::u16_to_le_bytes(v.slippage_bps);
    out.append(&mut b3);
    out.push(v.platform_fee_bps);
    proof {
        assert(out@ =~= spec_encode_shared_accounts_route(v@));
    }
    out
}

/// Encodes a plain exact-output route payload (without its
/// discriminator).
pub fn encode_exact_out_route(v: &ExactOutRoute) -> (r: Vec<u8>)
    requires
        v.route_plan@.len() <= u32::MAX,
    ensures
        r@ == spec_encode_exact_out_route(v@),
{
    let mut out: Vec<u8> = Vec::new();
    encode_route_plan_into(&mut out, &v.route_plan);
    let mut b1 = vstd::bytes::u64_to_le_bytes(v.out_amount);
    out.append(&mut b1);
    let mut b2 = vstd::bytes::u64_to_le_bytes(v.quoted_in_amount);
    out.append(&mut b2);
    let mut b3 = vstd::bytes::u16_to_le_bytes(v.slippage_bps);
    out.append(&mut b3);
    out.push(v.platform_fee_bps);
    proof {
        assert(out@ =~= spec_encode_exact_out_route(v@));
    }
    out
}

/// Encodes a shared-accounts exact-output swap payload (without its
/// discriminator).
pub fn encode_shared_accounts_exact_out_route(v: &SharedAccountsExactOutRoute) -> (r: Vec<u8>)
    requires
        v.route_plan@.len() <= u32::MAX,
    ensures
        r@ == spec_encode_shared_accounts_exact_out_route(v@),
{
    let mut out: Vec<u8> = Vec::new();
    out.push(v.id);
    encode_route_plan_into(&mut out, &v.route_plan);
    let mut b1 = vstd::bytes::u64_to_le_bytes(v.out_amount);
    out.append(&mut b1);
    let mut b2 = vstd::bytes::u64_to_le_bytes(v.quoted_in_amount);
    out.append(&mut b2);
    let mut b3 = vstd::bytes::u16_to_le_bytes(v.slippage_bps);
    out.append(&mut b3);
    out.push(v.platform_fee_bps);
    proof {
        assert(out@ =~= spec_encode_shared_accounts_exact_out_route(v@));
    }
    out
}

// ---------------------------------------------------------------------
// The codec round trip: parsing inverts encoding
// ---------------------------------------------------------------------

/// Little-endian encodings have their fixed widths.
proof fn lemma_le_lengths()
    ensures
        forall|x: u16| (#[trigger] vstd::bytes::spec_u16_to_le_bytes(x)).len() == 2,
        forall|x: u32| (#[trigger] vstd::bytes::spec_u32_to_le_bytes(x)).len() == 4,
        forall|x: u64| (#[trigger] vstd::bytes::spec_u64_to_le_bytes(x)).len() == 8,
{
    vstd::bytes::lemma_auto_spec_u16_to_from_le_bytes();
    vstd::bytes::lemma_auto_spec_u32_to_from_le_bytes();
    vstd::bytes::lemma_auto_spec_u64_to_from_le_bytes();
}

/// Within a buffer that holds `prefix + suffix` at `pos`, the two parts
/// stand at their own offsets.
proof fn lemma_split_embedding(data: Seq<u8>, pos: int, prefix: Seq<u8>, suffix: Seq<u8>)
    requires
        0 <= pos,
        pos + prefix.len() + suffix.len() <= data.len(),
        data.subrange(pos, pos + prefix.len() + suffix.len()) == prefix + suffix,
    ensures
        data.subrange(pos, pos + prefix.len()) == prefix,
        data.subrange(pos + prefix.len(), pos + prefix.len() + suffix.len()) == suffix,
{
    let whole = data.subrange(pos, pos + prefix.len() + suffix.len());
    assert(data.subrange(pos, pos + prefix.len() as int) =~= prefix) by {
        assert forall|i: int| 0 <= i < prefix.len() implies data.subrange(
            pos,
            pos + prefix.len() as int,
        )[i] == prefix[i] by {
            assert(whole[i] == (prefix + suffix)[i]);
        }
    }
    assert(data.subrange(pos + prefix.len(), pos + prefix.len() + suffix.len()) =~= suffix) by {
        assert forall|i: int| 0 <= i < suffix.len() implies data.subrange(
            pos + prefix.len(),
            pos + prefix.len() + suffix.len(),
        )[i] == suffix[i] by {
            assert(whole[prefix.len() + i] == (prefix + suffix)[prefix.len() + i]);
        }
    }
}

/// A single byte embedded at `pos` is read back by indexing.
proof fn lemma_byte_at(data: Seq<u8>, pos: int, b: u8)
    requires
        0 <= pos,
        pos + 1 <= data.len(),
        data.subrange(pos, pos + 1) == seq![b],
    ensures
        data[pos] == b,
{
    assert(data.subrange(pos, pos + 1)[0] == b);
}

/// A 64-bit value's encoding embedded at `pos` parses back to it.
proof fn lemma_parse_u64_at(data: Seq<u8>, pos: int, x: u64)
    requires
        0 <= pos,
        pos + 8 <= data.len(),
        data.subrange(pos, pos + 8) == vstd::bytes::spec_u64_to_le_bytes(x),
    ensures
        spec_parse_u64(data, pos) == Some((x, pos + 8)),
{
    vstd::bytes::lemma_auto_spec_u64_to_from_le_bytes();
    assert(vstd::bytes::spec_u64_from_le_bytes(vstd::bytes::spec_u64_to_le_bytes(x)) == x);
}

/// A 32-bit value's encoding embedded at `pos` parses back to it.
proof fn lemma_parse_u32_at(data: Seq<u8>, pos: int, x: u32)
    requires
        0 <= pos,
        pos + 4 <= data.len(),
        data.subrange(pos, pos + 4) == vstd::bytes::spec_u32_to_le_bytes(x),
    ensures
        spec_parse_u32(data, pos) == Some((x, pos + 4)),
{
    vstd::bytes::lemma_auto_spec_u32_to_from_le_bytes();
    assert(vstd::bytes::spec_u32_to_le_bytes(x).len() == 4);
    assert(vstd::bytes::spec_u32_from_le_bytes(vstd::bytes::spec_u32_to_le_bytes(x)) == x);
}

/// A 16-bit value's encoding embedded at `pos` parses back to it.
proof fn lemma_parse_u16_at(data: Seq<u8>, pos: int, x: u16)
    requires
        0 <= pos,
        pos + 2 <= data.len(),
        data.subrange(pos, pos + 2) == vstd::bytes::spec_u16_to_le_bytes(x),
    ensures
        spec_parse_u16(data, pos) == Some((x, pos + 2)),
{
    vstd::bytes::lemma_auto_spec_u16_to_from_le_bytes();
    assert(vstd::bytes::spec_u16_to_le_bytes(x).len() == 2);
    assert(vstd::bytes::spec_u16_from_le_bytes(vstd::bytes::spec_u16_to_le_bytes(x)) == x);
}

/// A venue's encoding embedded at `pos` parses back to it.
proof fn lemma_parse_swap_at(data: Seq<u8>, pos: int, s: Swap)
    requires
        0 <= pos,
        pos + spec_encode_swap(s).len() <= data.len(),
        data.subrange(pos, pos + spec_encode_swap(s).len()) == spec_encode_swap(s),
    ensures
        spec_parse_swap(data, pos) == Some((s, pos + spec_encode_swap(s).len())),
{
    lemma_le_lengths();
    match s {
        Swap::Saber => {
            lemma_byte_at(data, pos, 0u8);
        },
        Swap::SaberAddDecimalsDeposit => {
            lemma_byte_at(data, pos, 1u8);
        },
        Swap::SaberAddDecimalsWithdraw => {
            lemma_byte_at(data, pos, 2u8);
        },
        Swap::TokenSwap => {
            lemma_byte_at(data, pos, 3u8);
        },
        Swap::Sencha => {
            lemma_byte_at(data, pos, 4u8);
        },
        Swap::Step => {
            lemma_byte_at(data, pos, 5u8);
        },
        Swap::Cropper => {
            lemma_byte_at(data, pos, 6u8);
        },
        Swap::Raydium => {
            lemma_byte_at(data, pos, 7u8);
        },
        Swap::Crema { x_to_y } => {
            lemma_split_embedding(data, pos, seq![8u8], spec_encode_bool(x_to_y));
            lemma_byte_at(data, pos, 8u8);
            lemma_byte_at(data, pos + 1, spec_encode_bool(x_to_y)[0]);
        },
        Swap::Lifinity => {
            lemma_byte_at(data, pos, 9u8);
        },
        Swap::Mercurial => {
            lemma_byte_at(data, pos, 10u8);
        },
        Swap::Cykura => {
            lemma_byte_at(data, pos, 11u8);
        },
        Swap::Serum { side } => {
            lemma_split_embedding(data, pos, seq![12u8], spec_encode_side(side));
            lemma_byte_at(data, pos, 12u8);
            lemma_byte_at(data, pos + 1, spec_encode_side(side)[0]);
        },
        Swap::MarinadeDeposit => {
            lemma_byte_at(data, pos, 13u8);
        },
        Swap::MarinadeUnstake => {
            lemma_byte_at(data, pos, 14u8);
        },
        Swap::Aldrin { side } => {
            lemma_split_embedding(data, pos, seq![15u8], spec_encode_side(side));
            lemma_byte_at(data, pos, 15u8);
            lemma_byte_at(data, pos + 1, spec_encode_side(side)[0]);
        },
        Swap::AldrinV2 { side } => {
            lemma_split_embedding(data, pos, seq![16u8], spec_encode_side(side));
            lemma_byte_at(data, pos, 16u8);
            lemma_byte_at(data, pos + 1, spec_encode_side(side)[0]);
        },
        Swap::Whirlpool { a_to_b } => {
            lemma_split_embedding(data, pos, seq![17u8], spec_encode_bool(a_to_b));
            lemma_byte_at(data, pos, 17u8);
            lemma_byte_at(data, pos + 1, spec_encode_bool(a_to_b)[0]);
        },
        Swap::Invariant { x_to_y } => {
            lemma_split_embedding(data, pos, seq![18u8], spec_encode_bool(x_to_y));
            lemma_byte_at(data, pos, 18u8);
            lemma_byte_at(data, pos + 1, spec_encode_bool(x_to_y)[0]);
        },
        Swap::Meteora => {
            lemma_byte_at(data, pos, 19u8);
        },
        Swap::GooseFX => {
            lemma_byte_at(data, pos, 20u8);
        },
        Swap::DeltaFi { stable } => {
            lemma_split_embedding(data, pos, seq![21u8], spec_encode_bool(stable));
            lemma_byte_at(data, pos, 21u8);
            lemma_byte_at(data, pos + 1, spec_encode_bool(stable)[0]);
        },
        Swap::Balansol => {
            lemma_byte_at(data, pos, 22u8);
        },
        Swap::MarcoPolo { x_to_y } => {
            lemma_split_embedding(data, pos, seq![23u8], spec_encode_bool(x_to_y));
            lemma_byte_at(data, pos, 23u8);
            lemma_byte_at(data, pos + 1, spec_encode_bool(x_to_y)[0]);
        },
        Swap::Dradex { side } => {
            lemma_split_embedding(data, pos, seq![24u8], spec_encode_side(side));
            lemma_byte_at(data, pos, 24u8);
            lemma_byte_at(data, pos + 1, spec_encode_side(side)[0]);
        },
        Swap::LifinityV2 => {
            lemma_byte_at(data, pos, 25u8);
        },
        Swap::RaydiumClmm => {
            lemma_byte_at(data, pos, 26u8);
        },
        Swap::Openbook { side } => {
            lemma_split_embedding(data, pos, seq![27u8], spec_encode_side(side));
            lemma_byte_at(data, pos, 27u8);
            lemma_byte_at(data, pos + 1, spec_encode_side(side)[0]);
        },
        Swap::Phoenix { side } => {
            lemma_split_embedding(data, pos, seq![28u8], spec_encode_side(side));
            lemma_byte_at(data, pos, 28u8);
            lemma_byte_at(data, pos + 1, spec_encode_side(side)[0]);
        },
        Swap::Symmetry { from_token_id, to_token_id } => {
            lemma_split_embedding(
                data,
                pos,
                seq![29u8] + vstd::bytes::spec_u64_to_le_bytes(from_token_id),
                vstd::bytes::spec_u64_to_le_bytes(to_token_id),
            );
            lemma_split_embedding(data, pos, seq![29u8], vstd::bytes::spec_u64_to_le_bytes(from_token_id));
            lemma_byte_at(data, pos, 29u8);
            lemma_parse_u64_at(data, pos + 1, from_token_id);
            lemma_parse_u64_at(data, pos + 9, to_token_id);
        },
        Swap::TokenSwapV2 => {
            lemma_byte_at(data, pos, 30u8);
        },
        Swap::HeliumTreasuryManagementRedeemV0 => {
            lemma_byte_at(data, pos, 31u8);
        },
        Swap::StakeDexStakeWrappedSol => {
            lemma_byte_at(data, pos, 32u8);
        },
        Swap::StakeDexSwapViaStake { bridge_stake_seed } => {
            lemma_split_embedding(data, pos, seq![33u8], vstd::bytes::spec_u32_to_le_bytes(bridge_stake_seed));
            lemma_byte_at(data, pos, 33u8);
            lemma_parse_u32_at(data, pos + 1, bridge_stake_seed);
        },
        Swap::GooseFXV2 => {
            lemma_byte_at(data, pos, 34u8);
        },
        Swap::Perps => {
            lemma_byte_at(data, pos, 35u8);
        },
        Swap::PerpsAddLiquidity => {
            lemma_byte_at(data, pos, 36u8);
        },
        Swap::PerpsRemoveLiquidity => {
            lemma_byte_at(data, pos, 37u8);
        },
        Swap::MeteoraDlmm => {
            lemma_byte_at(data, pos, 38u8);
        },
        Swap::OpenBookV2 { side } => {
            lemma_split_embedding(data, pos, seq![39u8], spec_encode_side(side));
            lemma_byte_at(data, pos, 39u8);
            lemma_byte_at(data, pos + 1, spec_encode_side(side)[0]);
        },
        Swap::RaydiumClmmV2 => {
            lemma_byte_at(data, pos, 40u8);
        },
    }
}

/// A route hop's encoding embedded at `pos` parses back to it.
proof fn lemma_parse_step_at(data: Seq<u8>, pos: int, st: RoutePlanStep)
    requires
        0 <= pos,
        pos + spec_encode_step(st).len() <= data.len(),
        data.subrange(pos, pos + spec_encode_step(st).len()) == spec_encode_step(st),
    ensures
        spec_parse_step(data, pos) == Some((st, pos + spec_encode_step(st).len())),
{
    let es = spec_encode_swap(st.swap);
    let tail = seq![st.percent, st.input_index, st.output_index];
    lemma_split_embedding(data, pos, es, tail);
    lemma_parse_swap_at(data, pos, st.swap);
    let p = pos + es.len() as int;
    assert(data.subrange(p, p + 3)[0] == st.percent);
    assert(data.subrange(p, p + 3)[1] == st.input_index);
    assert(data.subrange(p, p + 3)[2] == st.output_index);
}

/// A hop sequence's encoding embedded at `pos` parses back to it.
proof fn lemma_parse_steps_at(data: Seq<u8>, pos: int, steps: Seq<RoutePlanStep>)
    requires
        0 <= pos,
        pos + spec_encode_steps(steps).len() <= data.len(),
        data.subrange(pos, pos + spec_encode_steps(steps).len()) == spec_encode_steps(steps),
    ensures
        spec_parse_steps(data, pos, steps.len() as int) == Some(
            (steps, pos + spec_encode_steps(steps).len()),
        ),
    decreases steps.len(),
{
    if steps.len() == 0 {
        assert(steps =~= Seq::<RoutePlanStep>::empty());
    } else {
        let e0 = spec_encode_step(steps[0]);
        let rest = steps.subrange(1, steps.len() as int);
        assert(spec_encode_steps(steps) == e0 + spec_encode_steps(rest));
        lemma_split_embedding(data, pos, e0, spec_encode_steps(rest));
        lemma_parse_step_at(data, pos, steps[0]);
        lemma_parse_steps_at(data, pos + e0.len() as int, rest);
        assert(seq![steps[0]] + rest =~= steps);
    }
}

/// A route plan's encoding embedded at `pos` parses back to it.
proof fn lemma_parse_route_plan_at(data: Seq<u8>, pos: int, steps: Seq<RoutePlanStep>)
    requires
        0 <= pos,
        steps.len() <= u32::MAX,
        pos + spec_encode_route_plan(steps).len() <= data.len(),
        data.subrange(pos, pos + spec_encode_route_plan(steps).len()) == spec_encode_route_plan(
            steps,
        ),
    ensures
        spec_parse_route_plan(data, pos) == Some(
            (steps, pos + spec_encode_route_plan(steps).len()),
        ),
{
    lemma_le_lengths();
    let n = steps.len() as u32;
    lemma_split_embedding(
        data,
        pos,
        vstd::bytes::spec_u32_to_le_bytes(n),
        spec_encode_steps(steps),
    );
    lemma_parse_u32_at(data, pos, n);
    lemma_parse_steps_at(data, pos + 4, steps);
}

/// Parsing inverts encoding for the exact-input swap payload: a value
/// with an encodable route plan is recovered exactly from its own
/// encoding.
pub proof fn lemma_shared_accounts_route_roundtrip(v: SharedAccountsRouteV)
    requires
        v.route_plan.len() <= u32::MAX,
    ensures
        spec_parse_shared_accounts_route(spec_encode_shared_accounts_route(v)) == Some(v),
{
    lemma_le_lengths();
    let data = spec_encode_shared_accounts_route(v);
    let rp = spec_encode_route_plan(v.route_plan);
    let head = seq![v.id];
    let in_b = vstd::bytes::spec_u64_to_le_bytes(v.in_amount);
    let out_b = vstd::bytes::spec_u64_to_le_bytes(v.quoted_out_amount);
    let slip_b = vstd::bytes::spec_u16_to_le_bytes(v.slippage_bps);
    let fee = seq![v.platform_fee_bps];
    assert(data.subrange(0, data.len() as int) =~= data);
    lemma_split_embedding(data, 0, head + rp + in_b + out_b + slip_b, fee);
    lemma_split_embedding(data, 0, head + rp + in_b + out_b, slip_b);
    lemma_split_embedding(data, 0, head + rp + in_b, out_b);
    lemma_split_embedding(data, 0, head + rp, in_b);
    lemma_split_embedding(data, 0, head, rp);
    let a = 1 + rp.len() as int;
    lemma_byte_at(data, 0, v.id);
    lemma_parse_route_plan_at(data, 1, v.route_plan);
    lemma_parse_u64_at(data, a, v.in_amount);
    lemma_parse_u64_at(data, a + 8, v.quoted_out_amount);
    lemma_parse_u16_at(data, a + 16, v.slippage_bps);
    lemma_byte_at(data, a + 18, v.platform_fee_bps);
    assert(a + 19 == data.len());
    assert(spec_parse_shared_accounts_route(data).unwrap() =~= v);
}

/// Parsing inverts encoding for the plain exact-output route payload.
pub proof fn lemma_exact_out_route_roundtrip(v: ExactOutRouteV)
    requires
        v.route_plan.len() <= u32::MAX,
    ensures
        spec_parse_exact_out_route(spec_encode_exact_out_route(v)) == Some(v),
{
    lemma_le_lengths();
    let data = spec_encode_exact_out_route(v);
    let rp = spec_encode_route_plan(v.route_plan);
    let out_b = vstd::bytes::spec_u64_to_le_bytes(v.out_amount);
    let in_b = vstd::bytes::spec_u64_to_le_bytes(v.quoted_in_amount);
    let slip_b = vstd::bytes::spec_u16_to_le_bytes(v.slippage_bps);
    let fee = seq![v.platform_fee_bps];
    assert(data.subrange(0, data.len() as int) =~= data);
    lemma_split_embedding(data, 0, rp + out_b + in_b + slip_b, fee);
    lemma_split_embedding(data, 0, rp + out_b + in_b, slip_b);
    lemma_split_embedding(data, 0, rp + out_b, in_b);
    lemma_split_embedding(data, 0, rp, out_b);
    let a = rp.len() as int;
    lemma_parse_route_plan_at(data, 0, v.route_plan);
    lemma_parse_u64_at(data, a, v.out_amount);
    lemma_parse_u64_at(data, a + 8, v.quoted_in_amount);
    lemma_parse_u16_at(data, a + 16, v.slippage_bps);
    lemma_byte_at(data, a + 18, v.platform_fee_bps);
    assert(a + 19 == data.len());
    assert(spec_parse_exact_out_route(data).unwrap() =~= v);
}

/// Parsing inverts encoding for the shared-accounts exact-output swap
/// payload.
pub proof fn lemma_shared_accounts_exact_out_route_roundtrip(v: SharedAccountsExactOutRouteV)
    requires
        v.route_plan.len() <= u32::MAX,
    ensures
        spec_parse_shared_accounts_exact_out_route(spec_encode_shared_accounts_exact_out_route(v))
            == Some(v),
{
    lemma_le_lengths();
    let data = spec_encode_shared_accounts_exact_out_route(v);
    let rp = spec_encode_route_plan(v.route_plan);
    let head = seq![v.id];
    let out_b = vstd::bytes::spec_u64_to_le_bytes(v.out_amount);
    let in_b = vstd::bytes::spec_u64_to_le_bytes(v.quoted_in_amount);
    let slip_b = vstd::bytes::spec_u16_to_le_bytes(v.slippage_bps);
    let fee = seq![v.platform_fee_bps];
    assert(data.subrange(0, data.len() as int) =~= data);
    lemma_split_embedding(data, 0, head + rp + out_b + in_b + slip_b, fee);
    lemma_split_embedding(data, 0, head + rp + out_b + in_b, slip_b);
    lemma_split_embedding(data, 0, head + rp + out_b, in_b);
    lemma_split_embedding(data, 0, head + rp, out_b);
    lemma_split_embedding(data, 0, head, rp);
    let a = 1 + rp.len() as int;
    lemma_byte_at(data, 0, v.id);
    lemma_parse_route_plan_at(data, 1, v.route_plan);
    lemma_parse_u64_at(data, a, v.out_amount);
    lemma_parse_u64_at(data, a + 8, v.quoted_in_amount);
    lemma_parse_u16_at(data, a + 16, v.slippage_bps);
    lemma_byte_at(data, a + 18, v.platform_fee_bps);
    assert(a + 19 == data.len());
    assert(spec_parse_shared_accounts_exact_out_route(data).unwrap() =~= v);
}

// ---------------------------------------------------------------------
// Parser soundness: accepted payloads are canonical encodings
// ---------------------------------------------------------------------

/// Adjacent windows of a buffer concatenate to the enclosing window.
proof fn lemma_join_embedding(data: Seq<u8>, pos: int, mid: int, end: int)
    requires
        0 <= pos <= mid <= end <= data.len(),
    ensures
        data.subrange(pos, end) == data.subrange(pos, mid) + data.subrange(mid, end),
{
    assert(data.subrange(pos, end) =~= data.subrange(pos, mid) + data.subrange(mid, end));
}

/// A parsed 64-bit window is the value's own encoding.
proof fn lemma_u64_parse_sound(data: Seq<u8>, pos: int, x: u64)
    requires
        spec_parse_u64(data, pos) == Some((x, pos + 8)),
    ensures
        data.subrange(pos, pos + 8) == vstd::bytes::spec_u64_to_le_bytes(x),
{
    vstd::bytes::lemma_auto_spec_u64_to_from_le_bytes();
    let sub = data.subrange(pos, pos + 8);
    assert(vstd::bytes::spec_u64_to_le_bytes(vstd::bytes::spec_u64_from_le_bytes(sub)) == sub);
}

/// A parsed 32-bit window is the value's own encoding.
proof fn lemma_u32_parse_sound(data: Seq<u8>, pos: int, x: u32)
    requires
        spec_parse_u32(data, pos) == Some((x, pos + 4)),
    ensures
        data.subrange(pos, pos + 4) == vstd::bytes::spec_u32_to_le_bytes(x),
{
    vstd::bytes::lemma_auto_spec_u32_to_from_le_bytes();
    let sub = data.subrange(pos, pos + 4);
    assert(vstd::bytes::spec_u32_to_le_bytes(vstd::bytes::spec_u32_from_le_bytes(sub)) == sub);
}

/// A parsed 16-bit window is the value's own encoding.
proof fn lemma_u16_parse_sound(data: Seq<u8>, pos: int, x: u16)
    requires
        spec_parse_u16(data, pos) == Some((x, pos + 2)),
    ensures
        data.subrange(pos, pos + 2) == vstd::bytes::spec_u16_to_le_bytes(x),
{
    vstd::bytes::lemma_auto_spec_u16_to_from_le_bytes();
    let sub = data.subrange(pos, pos + 2);
    assert(vstd::bytes::spec_u16_to_le_bytes(vstd::bytes::spec_u16_from_le_bytes(sub)) == sub);
}

/// A parsed venue occupies exactly its value's encoding.
proof fn lemma_swap_parse_sound(data: Seq<u8>, pos: int, s: Swap, p: int)
    requires
        spec_parse_swap(data, pos) == Some((s, p)),
    ensures
        0 <= pos <= p <= data.len(),
        p == pos + spec_encode_swap(s).len(),
        data.subrange(pos, p) == spec_encode_swap(s),
{
    let tag = data[pos];
    if tag == 0 {
        assert(data.subrange(pos, p) =~= spec_encode_swap(s));
    } else if tag == 1 {
        assert(data.subrange(pos, p) =~= spec_encode_swap(s));
    } else if tag == 2 {
        assert(data.subrange(pos, p) =~= spec_encode_swap(s));
    } else if tag == 3 {
        assert(data.subrange(pos, p) =~= spec_encode_swap(s));
    } else if tag == 4 {
        assert(data.subrange(pos, p) =~= spec_encode_swap(s));
    } else if tag == 5 {
        assert(data.subrange(pos, p) =~= spec_encode_swap(s));
    } else if tag == 6 {
        assert(data.subrange(pos, p) =~= spec_encode_swap(s));
    } else if tag == 7 {
        assert(data.subrange(pos, p) =~= spec_encode_swap(s));
    } else if tag == 8 {
        let (v, q) = spec_parse_bool(data, pos + 1).unwrap();
        assert(data.subrange(pos, p) =~= spec_encode_swap(s));
    } else if tag == 9 {
        assert(data.subrange(pos, p) =~= spec_encode_swap(s));
    } else if tag == 10 {
        assert(data.subrange(pos, p) =~= spec_encode_swap(s));
    } else if tag == 11 {
        assert(data.subrange(pos, p) =~= spec_encode_swap(s));
    } else if tag == 12 {
        let (v, q) = spec_parse_side(data, pos + 1).unwrap();
        assert(data.subrange(pos, p) =~= spec_encode_swap(s));
    } else if tag == 13 {
        assert(data.subrange(pos, p) =~= spec_encode_swap(s));
    } else if tag == 14 {
        assert(data.subrange(pos, p) =~= spec_encode_swap(s));
    } else if tag == 15 {
        let (v, q) = spec_parse_side(data, pos + 1).unwrap();
        assert(data.subrange(pos, p) =~= spec_encode_swap(s));
    } else if tag == 16 {
        let (v, q) = spec_parse_side(data, pos + 1).unwrap();
        assert(data.subrange(pos, p) =~= spec_encode_swap(s));
    } else if tag == 17 {
        let (v, q) = spec_parse_bool(data, pos + 1).unwrap();
        assert(data.subrange(pos, p) =~= spec_encode_swap(s));
    } else if tag == 18 {
        let (v, q) = spec_parse_bool(data, pos + 1).unwrap();
        assert(data.subrange(pos, p) =~= spec_encode_swap(s));
    } else if tag == 19 {
        assert(data.subrange(pos, p) =~= spec_encode_swap(s));
    } else if tag == 20 {
        assert(data.subrange(pos, p) =~= spec_encode_swap(s));
    } else if tag == 21 {
        let (v, q) = spec_parse_bool(data, pos + 1).unwrap();
        assert(data.subrange(pos, p) =~= spec_encode_swap(s));
    } else if tag == 22 {
        assert(data.subrange(pos, p) =~= spec_encode_swap(s));
    } else if tag == 23 {
        let (v, q) = spec_parse_bool(data, pos + 1).unwrap();
        assert(data.subrange(pos, p) =~= spec_encode_swap(s));
    } else if tag == 24 {
        let (v, q) = spec_parse_side(data, pos + 1).unwrap();
        assert(data.subrange(pos, p) =~= spec_encode_swap(s));
    } else if tag == 25 {
        assert(data.subrange(pos, p) =~= spec_encode_swap(s));
    } else if tag == 26 {
        assert(data.subrange(pos, p) =~= spec_encode_swap(s));
    } else if tag == 27 {
        let (v, q) = spec_parse_side(data, pos + 1).unwrap();
        assert(data.subrange(pos, p) =~= spec_encode_swap(s));
    } else if tag == 28 {
        let (v, q) = spec_parse_side(data, pos + 1).unwrap();
        assert(data.subrange(pos, p) =~= spec_encode_swap(s));
    } else if tag == 29 {
        let (a, q1) = spec_parse_u64(data, pos + 1).unwrap();
        let (b, q2) = spec_parse_u64(data, q1).unwrap();
        lemma_u64_parse_sound(data, pos + 1, a);
        lemma_u64_parse_sound(data, q1, b);
        assert(data.subrange(pos, p) =~= seq![29u8] + vstd::bytes::spec_u64_to_le_bytes(a)
            + vstd::bytes::spec_u64_to_le_bytes(b));
    } else if tag == 30 {
        assert(data.subrange(pos, p) =~= spec_encode_swap(s));
    } else if tag == 31 {
        assert(data.subrange(pos, p) =~= spec_encode_swap(s));
    } else if tag == 32 {
        assert(data.subrange(pos, p) =~= spec_encode_swap(s));
    } else if tag == 33 {
        let (v, q) = spec_parse_u32(data, pos + 1).unwrap();
        lemma_u32_parse_sound(data, pos + 1, v);
        assert(data.subrange(pos, p) =~= seq![33u8] + vstd::bytes::spec_u32_to_le_bytes(v));
    } else if tag == 34 {
        assert(data.subrange(pos, p) =~= spec_encode_swap(s));
    } else if tag == 35 {
        assert(data.subrange(pos, p) =~= spec_encode_swap(s));
    } else if tag == 36 {
        assert(data.subrange(pos, p) =~= spec_encode_swap(s));
    } else if tag == 37 {
        assert(data.subrange(pos, p) =~= spec_encode_swap(s));
    } else if tag == 38 {
        assert(data.subrange(pos, p) =~= spec_encode_swap(s));
    } else if tag == 39 {
        let (v, q) = spec_parse_side(data, pos + 1).unwrap();
        assert(data.subrange(pos, p) =~= spec_encode_swap(s));
    } else if tag == 40 {
        assert(data.subrange(pos, p) =~= spec_encode_swap(s));
    } else {
        assert(false);
    }
}

/// A parsed route hop occupies exactly its value's encoding.
proof fn lemma_step_parse_sound(data: Seq<u8>, pos: int, st: RoutePlanStep, p: int)
    requires
        spec_parse_step(data, pos) == Some((st, p)),
    ensures
        0 <= pos <= p <= data.len(),
        p == pos + spec_encode_step(st).len(),
        data.subrange(pos, p) == spec_encode_step(st),
{
    let (sw, p1) = spec_parse_swap(data, pos).unwrap();
    lemma_swap_parse_sound(data, pos, sw, p1);
    lemma_join_embedding(data, pos, p1, p);
    assert(data.subrange(p1, p) =~= seq![st.percent, st.input_index, st.output_index]);
}

/// A parsed hop sequence occupies exactly its encoding, one hop per
/// count.
proof fn lemma_steps_parse_sound(data: Seq<u8>, pos: int, count: int, steps: Seq<RoutePlanStep>, p: int)
    requires
        0 <= pos <= data.len(),
        spec_parse_steps(data, pos, count) == Some((steps, p)),
    ensures
        pos <= p <= data.len(),
        p == pos + spec_encode_steps(steps).len(),
        data.subrange(pos, p) == spec_encode_steps(steps),
        steps.len() == if count <= 0 { 0int } else { count },
    decreases count,
{
    if count <= 0 {
        assert(data.subrange(pos, pos) =~= Seq::<u8>::empty());
    } else {
        let (st, p1) = spec_parse_step(data, pos).unwrap();
        let (rest, e) = spec_parse_steps(data, p1, count - 1).unwrap();
        lemma_step_parse_sound(data, pos, st, p1);
        lemma_steps_parse_sound(data, p1, count - 1, rest, e);
        lemma_join_embedding(data, pos, p1, p);
        assert((seq![st] + rest).subrange(1, (seq![st] + rest).len() as int) =~= rest);
        assert((seq![st] + rest)[0] == st);
        assert(spec_encode_steps(seq![st] + rest) == spec_encode_step(st) + spec_encode_steps(
            rest,
        ));
    }
}

/// A parsed route plan occupies exactly its encoding.
proof fn lemma_route_plan_parse_sound(data: Seq<u8>, pos: int, steps: Seq<RoutePlanStep>, p: int)
    requires
        0 <= pos <= data.len(),
        spec_parse_route_plan(data, pos) == Some((steps, p)),
    ensures
        pos <= p <= data.len(),
        p == pos + spec_encode_route_plan(steps).len(),
        data.subrange(pos, p) == spec_encode_route_plan(steps),
        steps.len() <= u32::MAX,
{
    let (n, p1) = spec_parse_u32(data, pos).unwrap();
    lemma_u32_parse_sound(data, pos, n);
    lemma_steps_parse_sound(data, p1, n as int, steps, p);
    lemma_join_embedding(data, pos, p1, p);
}

/// Every payload the exact-input parser accepts is the one canonical
/// encoding of its value: no second byte string yields the same route.
pub proof fn lemma_shared_accounts_route_parse_sound(data: Seq<u8>, v: SharedAccountsRouteV)
    requires
        spec_parse_shared_accounts_route(data) == Some(v),
    ensures
        v.route_plan.len() <= u32::MAX,
        data == spec_encode_shared_accounts_route(v),
{
    let (id, p1) = spec_parse_u8(data, 0).unwrap();
    let (steps, p2) = spec_parse_route_plan(data, p1).unwrap();
    let (in_amount, p3) = spec_parse_u64(data, p2).unwrap();
    let (quoted, p4) = spec_parse_u64(data, p3).unwrap();
    let (slip, p5) = spec_parse_u16(data, p4).unwrap();
    let (fee, p6) = spec_parse_u8(data, p5).unwrap();
    lemma_route_plan_parse_sound(data, p1, steps, p2);
    lemma_u64_parse_sound(data, p2, in_amount);
    lemma_u64_parse_sound(data, p3, quoted);
    lemma_u16_parse_sound(data, p4, slip);
    assert(data.subrange(0, 1) =~= seq![id]);
    assert(data.subrange(p5, p6) =~= seq![fee]);
    lemma_join_embedding(data, 0, 1, p2);
    lemma_join_embedding(data, 0, p2, p3);
    lemma_join_embedding(data, 0, p3, p4);
    lemma_join_embedding(data, 0, p4, p5);
    lemma_join_embedding(data, 0, p5, p6);
    assert(data.subrange(0, p6) =~= data);
}

/// Every payload the plain exact-output parser accepts is the one
/// canonical encoding of its value.
pub proof fn lemma_exact_out_route_parse_sound(data: Seq<u8>, v: ExactOutRouteV)
    requires
        spec_parse_exact_out_route(data) == Some(v),
    ensures
        v.route_plan.len() <= u32::MAX,
        data == spec_encode_exact_out_route(v),
{
    let (steps, p2) = spec_parse_route_plan(data, 0).unwrap();
    let (out_amount, p3) = spec_parse_u64(data, p2).unwrap();
    let (quoted, p4) = spec_parse_u64(data, p3).unwrap();
    let (slip, p5) = spec_parse_u16(data, p4).unwrap();
    let (fee, p6) = spec_parse_u8(data, p5).unwrap();
    lemma_route_plan_parse_sound(data, 0, steps, p2);
    lemma_u64_parse_sound(data, p2, out_amount);
    lemma_u64_parse_sound(data, p3, quoted);
    lemma_u16_parse_sound(data, p4, slip);
    assert(data.subrange(p5, p6) =~= seq![fee]);
    lemma_join_embedding(data, 0, p2, p3);
    lemma_join_embedding(data, 0, p3, p4);
    lemma_join_embedding(data, 0, p4, p5);
    lemma_join_embedding(data, 0, p5, p6);
    assert(data.subrange(0, p6) =~= data);
}

/// Every payload the shared-accounts exact-output parser accepts is the
/// one canonical encoding of its value.
pub proof fn lemma_shared_accounts_exact_out_route_parse_sound(
    data: Seq<u8>,
    v: SharedAccountsExactOutRouteV,
)
    requires
        spec_parse_shared_accounts_exact_out_route(data) == Some(v),
    ensures
        v.route_plan.len() <= u32::MAX,
        data == spec_encode_shared_accounts_exact_out_route(v),
{
    let (id, p1) = spec_parse_u8(data, 0).unwrap();
    let (steps, p2) = spec_parse_route_plan(data, p1).unwrap();
    let (out_amount, p3) = spec_parse_u64(data, p2).unwrap();
    let (quoted, p4) = spec_parse_u64(data, p3).unwrap();
    let (slip, p5) = spec_parse_u16(data, p4).unwrap();
    let (fee, p6) = spec_parse_u8(data, p5).unwrap();
    lemma_route_plan_parse_sound(data, p1, steps, p2);
    lemma_u64_parse_sound(data, p2, out_amount);
    lemma_u64_parse_sound(data, p3, quoted);
    lemma_u16_parse_sound(data, p4, slip);
    assert(data.subrange(0, 1) =~= seq![id]);
    assert(data.subrange(p5, p6) =~= seq![fee]);
    lemma_join_embedding(data, 0, 1, p2);
    lemma_join_embedding(data, 0, p2, p3);
    lemma_join_embedding(data, 0, p3, p4);
    lemma_join_embedding(data, 0, p4, p5);
    lemma_join_embedding(data, 0, p5, p6);
    assert(data.subrange(0, p6) =~= data);
}

// ---------------------------------------------------------------------
// The exact-output swap's account list
// ---------------------------------------------------------------------

/// The named account slots of a shared-accounts exact-output swap call.
///
/// Slots 9 and 10 are optional: the exchange fills an absent platform-fee
/// account or token-2022 program with its own program identity.
pub struct SharedAccountsExactOutRouteAccountMetas {
    /// Slot 0: the token program.
    pub token_program: AccountMeta,
    /// Slot 1: the exchange's transfer authority.
    pub program_authority: AccountMeta,
    /// Slot 2: the user's transfer authority.
    pub user_transfer_authority: AccountMeta,
    /// Slot 3: the user's source token account.
    pub source_token_account: AccountMeta,
    /// Slot 4: the exchange's source token account.
    pub program_source_token_account: AccountMeta,
    /// Slot 5: the exchange's destination token account.
    pub program_destination_token_account: AccountMeta,
    /// Slot 6: the user's destination token account.
    pub destination_token_account: AccountMeta,
    /// Slot 7: the source mint.
    pub source_mint: AccountMeta,
    /// Slot 8: the destination mint.
    pub destination_mint: AccountMeta,
    /// Slot 9: the platform-fee account, if present.
    pub platform_fee_account: Option<AccountMeta>,
    /// Slot 10: the token-2022 program, if present.
    pub token2022_program: Option<AccountMeta>,
    /// Slot 11: the exchange's event authority.
    pub event_authority: AccountMeta,
    /// Slot 12: the exchange program itself.
    pub program: AccountMeta,
}

impl SharedAccountsExactOutRouteAccountMetas {
    /// Names the first thirteen account slots of an exact-output swap
    /// call.  Fails when fewer than thirteen accounts were handed to the
    /// call; a slot-9 or slot-10 entry equal to the exchange's own
    /// identity means the optional account is absent.
    pub fn try_from(value: &Vec<AccountMeta>) -> (r: Result<Self, BonkPawsError>)
        ensures
            r is Ok <==> value@.len() >= 13,
            match r {
                Ok(m) => {
                    &&& m.token_program == value@[0]
                    &&& m.program_authority == value@[1]
                    &&& m.user_transfer_authority == value@[2]
                    &&& m.source_token_account == value@[3]
                    &&& m.program_source_token_account == value@[4]
                    &&& m.program_destination_token_account == value@[5]
                    &&& m.destination_token_account == value@[6]
                    &&& m.source_mint == value@[7]
                    &&& m.destination_mint == value@[8]
                    &&& m.platform_fee_account == (if value@[9].pubkey@ == spec_jupiter_id() {
                        Option::<AccountMeta>::None
                    } else {
                        Option::<AccountMeta>::Some(value@[9])
                    })
                    &&& m.token2022_program == (if value@[10].pubkey@ == spec_jupiter_id() {
                        Option::<AccountMeta>::None
                    } else {
                        Option::<AccountMeta>::Some(value@[10])
                    })
                    &&& m.event_authority == value@[11]
                    &&& m.program == value@[12]
                },
                Err(e) => e == BonkPawsError::InvalidInstruction,
            },
    {
        if value.len() < 13 {
            return Err(BonkPawsError::InvalidInstruction);
        }
        let jupiter = jupiter_id();
        let platform_fee_account = if key_eq(&value[9].pubkey, &jupiter) {
            None
        } else {
            Some(value[9])
        };
        let token2022_program = if key_eq(&value[10].pubkey, &jupiter) {
            None
        } else {
            Some(value[10])
        };
        Ok(
            SharedAccountsExactOutRouteAccountMetas {
                token_program: value[0],
                program_authority: value[1],
                user_transfer_authority: value[2],
                source_token_account: value[3],
                program_source_token_account: value[4],
                program_destination_token_account: value[5],
                destination_token_account: value[6],
                source_mint: value[7],
                destination_mint: value[8],
                platform_fee_account,
                token2022_program,
                event_authority: value[11],
                program: value[12],
            },
        )
    }
}

} // verus!
