//! On-chain state of the Raydium AMM program: pool status, crank state,
//! parameter selectors and the fee table, with the byte layout the
//! program packs them in.

use vstd::prelude::*;

use vstd::bytes::spec_u64_from_le_bytes;
use vstd::bytes::spec_u64_to_le_bytes;
use vstd::bytes::u64_from_le_bytes;
use vstd::bytes::u64_to_le_bytes;

verus! {

pub const TEN_THOUSAND: u64 = 10000;

pub const MAX_ORDER_LIMIT: usize = 10;

/// One resting order of the pool's target-order book.
#[derive(Clone, Copy, PartialEq, Eq, Structural, Debug)]
pub struct TargetOrder {
    pub price: u64,
    pub vol: u64,
}

/// The pool's target-order book, as the program lays it out.
#[derive(Clone, Copy)]
pub struct TargetOrders {
    pub owner: [u64; 4],
    pub buy_orders: [TargetOrder; 50],
    pub padding1: [u64; 8],
    pub target_x: u128,
    pub target_y: u128,
    pub plan_x_buy: u128,
    pub plan_y_buy: u128,
    pub plan_x_sell: u128,
    pub plan_y_sell: u128,
    pub placed_x: u128,
    pub placed_y: u128,
    pub calc_pnl_x: u128,
    pub calc_pnl_y: u128,
    pub sell_orders: [TargetOrder; 50],
    pub padding2: [u64; 6],
    pub replace_buy_client_id: [u64; 10],
    pub replace_sell_client_id: [u64; 10],
    pub last_order_numerator: u64,
    pub last_order_denominator: u64,
    pub plan_orders_cur: u64,
    pub place_orders_cur: u64,
    pub valid_buy_order_num: u64,
    pub valid_sell_order_num: u64,
    pub padding3: [u64; 10],
    pub free_slot_bits: u128,
}

/// The lifecycle status of a pool.
#[derive(Clone, Copy, PartialEq, Eq, Structural, Debug)]
pub enum AmmStatus {
    Uninitialized,
    Initialized,
    Disabled,
    WithdrawOnly,
    /// The pool only adds or removes liquidity; it neither swaps nor
    /// plans orders.
    LiquidityOnly,
    /// The pool adds or removes liquidity and plans orders; it does not
    /// swap.
    OrderBookOnly,
    /// The pool adds or removes liquidity and swaps; it does not plan
    /// orders.
    SwapOnly,
    /// The status right after creation; it turns into `SwapOnly` during
    /// the first swap after the opening time.
    WaitingTrade,
}

/// The status a state word encodes.
pub open spec fn spec_amm_status(status: u64) -> AmmStatus {
    if status == 0 {
        AmmStatus::Uninitialized
    } else if status == 1 {
        AmmStatus::Initialized
    } else if status == 2 {
        AmmStatus::Disabled
    } else if status == 3 {
        AmmStatus::WithdrawOnly
    } else if status == 4 {
        AmmStatus::LiquidityOnly
    } else if status == 5 {
        AmmStatus::OrderBookOnly
    } else if status == 6 {
        AmmStatus::SwapOnly
    } else {
        AmmStatus::WaitingTrade
    }
}

impl AmmStatus {
    /// Reads a status from its state word.
    ///
    /// Words above seven encode no status and are excluded: this crate's
    /// verified functions do not panic.
    pub fn from_u64(status: u64) -> (r: Self)
        requires
            status <= 7,
        ensures
            r == spec_amm_status(status),
    {
        match status {
            0u64 => AmmStatus::Uninitialized,
            1u64 => AmmStatus::Initialized,
            2u64 => AmmStatus::Disabled,
            3u64 => AmmStatus::WithdrawOnly,
            4u64 => AmmStatus::LiquidityOnly,
            5u64 => AmmStatus::OrderBookOnly,
            6u64 => AmmStatus::SwapOnly,
            _ => AmmStatus::WaitingTrade,
        }
    }

    /// The state word of this status; inverse of `from_u64`.
    pub fn into_u64(&self) -> (r: u64)
        ensures
            r <= 7,
            spec_amm_status(r) == *self,
    {
        match self {
            AmmStatus::Uninitialized => 0u64,
            AmmStatus::Initialized => 1u64,
            AmmStatus::Disabled => 2u64,
            AmmStatus::WithdrawOnly => 3u64,
            AmmStatus::LiquidityOnly => 4u64,
            AmmStatus::OrderBookOnly => 5u64,
            AmmStatus::SwapOnly => 6u64,
            AmmStatus::WaitingTrade => 7u64,
        }
    }

    /// A state word that names a live status: anything but
    /// `Uninitialized`.
    pub fn valid_status(status: u64) -> (r: bool)
        ensures
            r == (1 <= status <= 7),
    {
        match status {
            1u64 | 2u64 | 3u64 | 4u64 | 5u64 | 6u64 | 7u64 => true,
            _ => false,
        }
    }

    /// Whether deposits are allowed under this status.
    pub fn deposit_permission(&self) -> (r: bool)
        ensures
            r == match *self {
                AmmStatus::Uninitialized => false,
                AmmStatus::Initialized => true,
                AmmStatus::Disabled => false,
                AmmStatus::WithdrawOnly => false,
                AmmStatus::LiquidityOnly => true,
                AmmStatus::OrderBookOnly => true,
                AmmStatus::SwapOnly => true,
                AmmStatus::WaitingTrade => true,
            },
    {
        match self {
            AmmStatus::Uninitialized => false,
            AmmStatus::Initialized => true,
            AmmStatus::Disabled => false,
            AmmStatus::WithdrawOnly => false,
            AmmStatus::LiquidityOnly => true,
            AmmStatus::OrderBookOnly => true,
            AmmStatus::SwapOnly => true,
            AmmStatus::WaitingTrade => true,
        }
    }

    /// Whether withdrawals are allowed under this status.
    pub fn withdraw_permission(&self) -> (r: bool)
        ensures
            r == match *self {
                AmmStatus::Uninitialized => false,
                AmmStatus::Initialized => true,
                AmmStatus::Disabled => false,
                AmmStatus::WithdrawOnly => true,
                AmmStatus::LiquidityOnly => true,
                AmmStatus::OrderBookOnly => true,
                AmmStatus::SwapOnly => true,
                AmmStatus::WaitingTrade => true,
            },
    {
        match self {
            AmmStatus::Uninitialized => false,
            AmmStatus::Initialized => true,
            AmmStatus::Disabled => false,
            AmmStatus::WithdrawOnly => true,
            AmmStatus::LiquidityOnly => true,
            AmmStatus::OrderBookOnly => true,
            AmmStatus::SwapOnly => true,
            AmmStatus::WaitingTrade => true,
        }
    }

    /// Whether swaps are allowed under this status.
    pub fn swap_permission(&self) -> (r: bool)
        ensures
            r == match *self {
                AmmStatus::Uninitialized => false,
                AmmStatus::Initialized => true,
                AmmStatus::Disabled => false,
                AmmStatus::WithdrawOnly => false,
                AmmStatus::LiquidityOnly => false,
                AmmStatus::OrderBookOnly => false,
                AmmStatus::SwapOnly => true,
                AmmStatus::WaitingTrade => true,
            },
    {
        match self {
            AmmStatus::Uninitialized => false,
            AmmStatus::Initialized => true,
            AmmStatus::Disabled => false,
            AmmStatus::WithdrawOnly => false,
            AmmStatus::LiquidityOnly => false,
            AmmStatus::OrderBookOnly => false,
            AmmStatus::SwapOnly => true,
            AmmStatus::WaitingTrade => true,
        }
    }

    /// Whether order-book planning is allowed under this status.
    pub fn orderbook_permission(&self) -> (r: bool)
        ensures
            r == match *self {
                AmmStatus::Initialized => true,
                AmmStatus::OrderBookOnly => true,
                _ => false,
            },
    {
        match self {
            AmmStatus::Uninitialized => false,
            AmmStatus::Initialized => true,
            AmmStatus::Disabled => false,
            AmmStatus::WithdrawOnly => false,
            AmmStatus::LiquidityOnly => false,
            AmmStatus::OrderBookOnly => true,
            AmmStatus::SwapOnly => false,
            AmmStatus::WaitingTrade => false,
        }
    }
}

/// The crank's processing state.
#[derive(Clone, Copy, PartialEq, Eq, Structural, Debug)]
pub enum AmmState {
    InvlidState,
    IdleState,
    CancelAllOrdersState,
    PlanOrdersState,
    CancelOrderState,
    PlaceOrdersState,
    PurgeOrderState,
}

/// The crank state a state word encodes.
pub open spec fn spec_amm_state(state: u64) -> AmmState {
    if state == 0 {
        AmmState::InvlidState
    } else if state == 1 {
        AmmState::IdleState
    } else if state == 2 {
        AmmState::CancelAllOrdersState
    } else if state == 3 {
        AmmState::PlanOrdersState
    } else if state == 4 {
        AmmState::CancelOrderState
    } else if state == 5 {
        AmmState::PlaceOrdersState
    } else {
        AmmState::PurgeOrderState
    }
}

impl AmmState {
    /// Reads a crank state from its word; words above six encode none and
    /// are excluded: this crate's verified functions do not panic.
    pub fn from_u64(state: u64) -> (r: Self)
        requires
            state <= 6,
        ensures
            r == spec_amm_state(state),
    {
        match state {
            0u64 => AmmState::InvlidState,
            1u64 => AmmState::IdleState,
            2u64 => AmmState::CancelAllOrdersState,
            3u64 => AmmState::PlanOrdersState,
            4u64 => AmmState::CancelOrderState,
            5u64 => AmmState::PlaceOrdersState,
            _ => AmmState::PurgeOrderState,
        }
    }

    /// The state word of this crank state; inverse of `from_u64`.
    pub fn into_u64(&self) -> (r: u64)
        ensures
            r <= 6,
            spec_amm_state(r) == *self,
    {
        match self {
            AmmState::InvlidState => 0u64,
            AmmState::IdleState => 1u64,
            AmmState::CancelAllOrdersState => 2u64,
            AmmState::PlanOrdersState => 3u64,
            AmmState::CancelOrderState => 4u64,
            AmmState::PlaceOrdersState => 5u64,
            AmmState::PurgeOrderState => 6u64,
        }
    }

    /// A word that names a crank state.
    pub fn valid_state(state: u64) -> (r: bool)
        ensures
            r == (state <= 6),
    {
        match state {
            0u64 | 1u64 | 2u64 | 3u64 | 4u64 | 5u64 | 6u64 => true,
            _ => false,
        }
    }
}

/// Which pool parameter an administrative instruction selects.
#[derive(Clone, Copy, PartialEq, Eq, Structural, Debug)]
pub enum AmmParams {
    Status,
    State,
    OrderNum,
    Depth,
    AmountWave,
    MinPriceMultiplier,
    MaxPriceMultiplier,
    MinSize,
    VolMaxCutRatio,
    Fees,
    AmmOwner,
    SetOpenTime,
    LastOrderDistance,
    InitOrderDepth,
    SetSwitchTime,
    ClearOpenTime,
    Seperate,
    UpdateOpenOrder,
}

/// The parameter selector a word encodes.
pub open spec fn spec_amm_params(state: u64) -> AmmParams {
    if state == 0 {
        AmmParams::Status
    } else if state == 1 {
        AmmParams::State
    } else if state == 2 {
        AmmParams::OrderNum
    } else if state == 3 {
        AmmParams::Depth
    } else if state == 4 {
        AmmParams::AmountWave
    } else if state == 5 {
        AmmParams::MinPriceMultiplier
    } else if state == 6 {
        AmmParams::MaxPriceMultiplier
    } else if state == 7 {
        AmmParams::MinSize
    } else if state == 8 {
        AmmParams::VolMaxCutRatio
    } else if state == 9 {
        AmmParams::Fees
    } else if state == 10 {
        AmmParams::AmmOwner
    } else if state == 11 {
        AmmParams::SetOpenTime
    } else if state == 12 {
        AmmParams::LastOrderDistance
    } else if state == 13 {
        AmmParams::InitOrderDepth
    } else if state == 14 {
        AmmParams::SetSwitchTime
    } else if state == 15 {
        AmmParams::ClearOpenTime
    } else if state == 16 {
        AmmParams::Seperate
    } else {
        AmmParams::UpdateOpenOrder
    }
}

impl AmmParams {
    /// Reads a parameter selector from its word; words above seventeen
    /// encode none and are excluded: this crate's verified functions do
    /// not panic.
    pub fn from_u64(state: u64) -> (r: Self)
        requires
            state <= 17,
        ensures
            r == spec_amm_params(state),
    {
        match state {
            0u64 => AmmParams::Status,
            1u64 => AmmParams::State,
            2u64 => AmmParams::OrderNum,
            3u64 => AmmParams::Depth,
            4u64 => AmmParams::AmountWave,
            5u64 => AmmParams::MinPriceMultiplier,
            6u64 => AmmParams::MaxPriceMultiplier,
            7u64 => AmmParams::MinSize,
            8u64 => AmmParams::VolMaxCutRatio,
            9u64 => AmmParams::Fees,
            10u64 => AmmParams::AmmOwner,
            11u64 => AmmParams::SetOpenTime,
            12u64 => AmmParams::LastOrderDistance,
            13u64 => AmmParams::InitOrderDepth,
            14u64 => AmmParams::SetSwitchTime,
            15u64 => AmmParams::ClearOpenTime,
            16u64 => AmmParams::Seperate,
            _ => AmmParams::UpdateOpenOrder,
        }
    }

    /// The word of this parameter selector; inverse of `from_u64`.
    pub fn into_u64(&self) -> (r: u64)
        ensures
            r <= 17,
            spec_amm_params(r) == *self,
    {
        match self {
            AmmParams::Status => 0u64,
            AmmParams::State => 1u64,
            AmmParams::OrderNum => 2u64,
            AmmParams::Depth => 3u64,
            AmmParams::AmountWave => 4u64,
            AmmParams::MinPriceMultiplier => 5u64,
            AmmParams::MaxPriceMultiplier => 6u64,
            AmmParams::MinSize => 7u64,
            AmmParams::VolMaxCutRatio => 8u64,
            AmmParams::Fees => 9u64,
            AmmParams::AmmOwner => 10u64,
            AmmParams::SetOpenTime => 11u64,
            AmmParams::LastOrderDistance => 12u64,
            AmmParams::InitOrderDepth => 13u64,
            AmmParams::SetSwitchTime => 14u64,
            AmmParams::ClearOpenTime => 15u64,
            AmmParams::Seperate => 16u64,
            AmmParams::UpdateOpenOrder => 17u64,
        }
    }
}

/// Whether a crank pass resets the order distance.
#[derive(Clone, Copy, PartialEq, Eq, Structural, Debug)]
pub enum AmmResetFlag {
    ResetYes,
    ResetNo,
}

impl AmmResetFlag {
    /// Reads the flag from its word; words above one encode none and are
    /// excluded: this crate's verified functions do not panic.
    pub fn from_u64(flag: u64) -> (r: Self)
        requires
            flag <= 1,
        ensures
            flag == 0 ==> r == AmmResetFlag::ResetYes,
            flag == 1 ==> r == AmmResetFlag::ResetNo,
    {
        match flag {
            0u64 => AmmResetFlag::ResetYes,
            _ => AmmResetFlag::ResetNo,
        }
    }

    /// The word of this flag; inverse of `from_u64`.
    pub fn into_u64(&self) -> (r: u64)
        ensures
            *self == AmmResetFlag::ResetYes ==> r == 0,
            *self == AmmResetFlag::ResetNo ==> r == 1,
    {
        match self {
            AmmResetFlag::ResetYes => 0u64,
            AmmResetFlag::ResetNo => 1u64,
        }
    }
}

/// A proper fee fraction: a nonzero denominator strictly above the
/// numerator.
pub open spec fn fraction_valid(numerator: u64, denominator: u64) -> bool {
    numerator < denominator && denominator != 0
}

/// Checks one fee fraction.
pub fn validate_fraction(numerator: u64, denominator: u64) -> (r: Result<(), &'static str>)
    ensures
        r is Ok <==> fraction_valid(numerator, denominator),
{
    if numerator >= denominator || denominator == 0 {
        Err("Invalid fee")
    } else {
        Ok(())
    }
}

/// The pool's fee table.
#[derive(Clone, Copy, PartialEq, Eq, Structural, Debug)]
pub struct Fees {
    /// Numerator of the minimum separate.
    pub min_separate_numerator: u64,
    /// Denominator of the minimum separate.
    pub min_separate_denominator: u64,
    /// Numerator of the trade fee.
    pub trade_fee_numerator: u64,
    /// Denominator of the trade fee; the program keeps it equal to the
    /// minimum-separate denominator.
    pub trade_fee_denominator: u64,
    /// Numerator of the profit-and-loss share.
    pub pnl_numerator: u64,
    /// Denominator of the profit-and-loss share.
    pub pnl_denominator: u64,
    /// Numerator of the swap fee.
    pub swap_fee_numerator: u64,
    /// Denominator of the swap fee.
    pub swap_fee_denominator: u64,
}

impl Fees {
    /// Every fee of the table is a proper fraction.
    pub open spec fn spec_valid(self) -> bool {
        &&& fraction_valid(self.min_separate_numerator, self.min_separate_denominator)
        &&& fraction_valid(self.trade_fee_numerator, self.trade_fee_denominator)
        &&& fraction_valid(self.pnl_numerator, self.pnl_denominator)
        &&& fraction_valid(self.swap_fee_numerator, self.swap_fee_denominator)
    }

    /// Checks that every fee of the table is a proper fraction.
    pub fn validate(&self) -> (r: Result<(), &'static str>)
        ensures
            r is Ok <==> self.spec_valid(),
    {
        let r1 = validate_fraction(self.min_separate_numerator, self.min_separate_denominator);
        if r1.is_err() {
            return Err("Invalid fee");
        }
        let r2 = validate_fraction(self.trade_fee_numerator, self.trade_fee_denominator);
        if r2.is_err() {
            return Err("Invalid fee");
        }
        let r3 = validate_fraction(self.pnl_numerator, self.pnl_denominator);
        if r3.is_err() {
            return Err("Invalid fee");
        }
        let r4 = validate_fraction(self.swap_fee_numerator, self.swap_fee_denominator);
        if r4.is_err() {
            return Err("Invalid fee");
        }
        Ok(())
    }

    /// Resets the table to the program's defaults: a minimum separate and
    /// swap and trade fees of 25 over ten thousand (5 over ten thousand
    /// for the separate), and a profit share of 12 over 100.
    pub fn initialize(&mut self) -> (r: Result<(), &'static str>)
        ensures
            r is Ok,
            final(self).min_separate_numerator == 5,
            final(self).min_separate_denominator == 10000,
            final(self).trade_fee_numerator == 25,
            final(self).trade_fee_denominator == 10000,
            final(self).pnl_numerator == 12,
            final(self).pnl_denominator == 100,
            final(self).swap_fee_numerator == 25,
            final(self).swap_fee_denominator == 10000,
    {
        self.min_separate_numerator = 5;
        self.min_separate_denominator = TEN_THOUSAND;
        self.trade_fee_numerator = 25;
        self.trade_fee_denominator = TEN_THOUSAND;
        self.pnl_numerator = 12;
        self.pnl_denominator = 100;
        self.swap_fee_numerator = 25;
        self.swap_fee_denominator = TEN_THOUSAND;
        Ok(())
    }

    /// The bytes this table packs into: its eight words, little endian,
    /// in declaration order.
    pub open spec fn spec_packed(self) -> Seq<u8> {
        spec_u64_to_le_bytes(self.min_separate_numerator) + spec_u64_to_le_bytes(
            self.min_separate_denominator,
        ) + spec_u64_to_le_bytes(self.trade_fee_numerator) + spec_u64_to_le_bytes(
            self.trade_fee_denominator,
        ) + spec_u64_to_le_bytes(self.pnl_numerator) + spec_u64_to_le_bytes(self.pnl_denominator)
            + spec_u64_to_le_bytes(self.swap_fee_numerator) + spec_u64_to_le_bytes(
            self.swap_fee_denominator,
        )
    }

    /// Packs the table into the first 64 bytes of `output`.
    pub fn pack_into_slice(&self, output: &mut Vec<u8>)
        requires
            old(output)@.len() >= 64,
        ensures
            final(output)@.len() == old(output)@.len(),
            final(output)@.subrange(0, 64) == self.spec_packed(),
            final(output)@.skip(64) == old(output)@.skip(64),
    {
        let words: [u64; 8] = [
            self.min_separate_numerator,
            self.min_separate_denominator,
            self.trade_fee_numerator,
            self.trade_fee_denominator,
            self.pnl_numerator,
            self.pnl_denominator,
            self.swap_fee_numerator,
            self.swap_fee_denominator,
        ];
        let mut w: usize = 0;
        while w < 8
            invariant
                w <= 8,
                output@.len() == old(output)@.len() >= 64,
                words@ == seq![
                    self.min_separate_numerator,
                    self.min_separate_denominator,
                    self.trade_fee_numerator,
                    self.trade_fee_denominator,
                    self.pnl_numerator,
                    self.pnl_denominator,
                    self.swap_fee_numerator,
                    self.swap_fee_denominator,
                ],
                forall|t: int|
                    0 <= t < w ==> output@.subrange(8 * t, 8 * t + 8) =~= spec_u64_to_le_bytes(
                        #[trigger] words@[t],
                    ),
                output@.skip(64) == old(output)@.skip(64),
            decreases 8 - w,
        {
            let bytes = u64_to_le_bytes(words[w]);
            let ghost out_mid = output@;
            let mut b: usize = 0;
            while b < 8
                invariant
                    b <= 8,
                    w < 8,
                    bytes@ == spec_u64_to_le_bytes(words@[w as int]),
                    bytes@.len() == 8,
                    output@.len() == out_mid.len() >= 64,
                    forall|t: int|
                        0 <= t < out_mid.len() && !(8 * w <= t < 8 * w + b) ==> #[trigger] output@[t]
                            == out_mid[t],
                    forall|t: int| 0 <= t < b ==> #[trigger] output@[8 * w + t] == bytes@[t],
                decreases 8 - b,
            {
                output[8 * w + b] = bytes[b];
                b += 1;
            }
            proof {
                assert forall|t: int| 0 <= t < 8 implies output@.subrange(
                    8 * (w as int),
                    8 * (w as int) + 8,
                )[t] == bytes@[t] by {
                    assert(output@[8 * (w as int) + t] == bytes@[t]);
                }
                assert(output@.subrange(8 * (w as int), 8 * (w as int) + 8) =~= bytes@);
                assert forall|t: int| 0 <= t < w + 1 implies output@.subrange(8 * t, 8 * t + 8)
                    =~= spec_u64_to_le_bytes(#[trigger] words@[t]) by {
                    if t < w {
                        assert(out_mid.subrange(8 * t, 8 * t + 8) =~= spec_u64_to_le_bytes(
                            words@[t],
                        ));
                        assert(output@.subrange(8 * t, 8 * t + 8) =~= out_mid.subrange(
                            8 * t,
                            8 * t + 8,
                        ));
                    }
                }
                assert(output@.skip(64) =~= out_mid.skip(64));
            }
            w += 1;
        }
        proof {
            assert(final(output)@.subrange(0, 64) =~= self.spec_packed());
        }
    }

    /// Reads a fee table back from the first 64 bytes of `input`: the
    /// eight words, little endian, in declaration order.
    pub fn unpack_from_slice(input: &[u8]) -> (r: Result<Fees, &'static str>)
        requires
            input@.len() >= 64,
        ensures
            r is Ok,
            r matches Ok(f) ==> {
                &&& f.min_separate_numerator == spec_u64_from_le_bytes(input@.subrange(0, 8))
                &&& f.min_separate_denominator == spec_u64_from_le_bytes(input@.subrange(8, 16))
                &&& f.trade_fee_numerator == spec_u64_from_le_bytes(input@.subrange(16, 24))
                &&& f.trade_fee_denominator == spec_u64_from_le_bytes(input@.subrange(24, 32))
                &&& f.pnl_numerator == spec_u64_from_le_bytes(input@.subrange(32, 40))
                &&& f.pnl_denominator == spec_u64_from_le_bytes(input@.subrange(40, 48))
                &&& f.swap_fee_numerator == spec_u64_from_le_bytes(input@.subrange(48, 56))
                &&& f.swap_fee_denominator == spec_u64_from_le_bytes(input@.subrange(56, 64))
            },
    {
        Ok(
            Fees {
                min_separate_numerator: u64_from_le_bytes(
                    vstd::slice::slice_subrange(input, 0, 8),
                ),
                min_separate_denominator: u64_from_le_bytes(
                    vstd::slice::slice_subrange(input, 8, 16),
                ),
                trade_fee_numerator: u64_from_le_bytes(
                    vstd::slice::slice_subrange(input, 16, 24),
                ),
                trade_fee_denominator: u64_from_le_bytes(
                    vstd::slice::slice_subrange(input, 24, 32),
                ),
                pnl_numerator: u64_from_le_bytes(vstd::slice::slice_subrange(input, 32, 40)),
                pnl_denominator: u64_from_le_bytes(vstd::slice::slice_subrange(input, 40, 48)),
                swap_fee_numerator: u64_from_le_bytes(vstd::slice::slice_subrange(input, 48, 56)),
                swap_fee_denominator: u64_from_le_bytes(
                    vstd::slice::slice_subrange(input, 56, 64),
                ),
            },
        )
    }
}

/// The distance kept between two rounds of resting orders.
#[derive(Clone, Copy, PartialEq, Eq, Structural, Debug)]
pub struct LastOrderDistance {
    pub last_order_numerator: u64,
    pub last_order_denominator: u64,
}

/// Which pool detail a simulation instruction asks for.
#[derive(Clone, Copy, PartialEq, Eq, Structural, Debug)]
pub enum SimulateParams {
    PoolInfo,
    SwapBaseInInfo,
    SwapBaseOutInfo,
    RunCrankInfo,
}

impl SimulateParams {
    /// Reads a selector from its word; words above three encode none and
    /// are excluded: this crate's verified functions do not panic.
    pub fn from_u64(flag: u64) -> (r: Self)
        requires
            flag <= 3,
        ensures
            flag == 0 ==> r == SimulateParams::PoolInfo,
            flag == 1 ==> r == SimulateParams::SwapBaseInInfo,
            flag == 2 ==> r == SimulateParams::SwapBaseOutInfo,
            flag == 3 ==> r == SimulateParams::RunCrankInfo,
    {
        match flag {
            0u64 => SimulateParams::PoolInfo,
            1u64 => SimulateParams::SwapBaseInInfo,
            2u64 => SimulateParams::SwapBaseOutInfo,
            _ => SimulateParams::RunCrankInfo,
        }
    }

    /// The word of this selector; inverse of `from_u64`.
    pub fn into_u64(&self) -> (r: u64)
        ensures
            *self == SimulateParams::PoolInfo ==> r == 0,
            *self == SimulateParams::SwapBaseInInfo ==> r == 1,
            *self == SimulateParams::SwapBaseOutInfo ==> r == 2,
            *self == SimulateParams::RunCrankInfo ==> r == 3,
    {
        match self {
            SimulateParams::PoolInfo => 0u64,
            SimulateParams::SwapBaseInInfo => 1u64,
            SimulateParams::SwapBaseOutInfo => 2u64,
            SimulateParams::RunCrankInfo => 3u64,
        }
    }
}

} // verus!
