//! Typed events of the bonding-curve program, the crate's output schema for it.

use vstd::prelude::*;

verus! {

#[derive(Clone, PartialEq, Debug)]
pub struct PumpfunBlockEvents {
    pub transactions: Vec<PumpfunTransactionEvents>,
}

#[derive(Clone, PartialEq, Debug)]
pub struct PumpfunTransactionEvents {
    pub signature: String,
    pub events: Vec<PumpfunEvent>,
}

#[derive(Clone, PartialEq, Debug)]
pub struct PumpfunEvent {
    pub event: Option<PumpfunEventKind>,
}

#[derive(Clone, PartialEq, Debug)]
pub enum PumpfunEventKind {
    Initialize(InitializeEvent),
    SetParams(SetParamsEvent),
    Swap(SwapEvent),
    Withdraw(WithdrawEvent),
    Create(CreateEvent),
}

#[derive(Clone, PartialEq, Debug)]
pub struct CreateEvent {
    pub user: String,
    pub name: String,
    pub symbol: String,
    pub uri: String,
    pub mint: String,
    pub bonding_curve: String,
    pub associated_bonding_curve: String,
    pub metadata: String,
}

#[derive(Clone, PartialEq, Debug)]
pub struct InitializeEvent {
    pub user: String,
}

#[derive(Clone, PartialEq, Debug)]
pub struct SetParamsEvent {
    pub user: String,
    pub fee_recipient: String,
    pub initial_virtual_token_reserves: u64,
    pub initial_virtual_sol_reserves: u64,
    pub initial_real_token_reserves: u64,
    pub token_total_supply: u64,
    pub fee_basis_points: u64,
}

#[derive(Clone, PartialEq, Debug)]
pub struct SwapEvent {
    pub user: String,
    pub mint: String,
    pub bonding_curve: String,
    pub sol_amount: Option<u64>,
    pub token_amount: u64,
    pub direction: String,
    pub virtual_sol_reserves: Option<u64>,
    pub virtual_token_reserves: Option<u64>,
    pub real_sol_reserves: Option<u64>,
    pub real_token_reserves: Option<u64>,
}

#[derive(Clone, PartialEq, Debug)]
pub struct WithdrawEvent {
    pub mint: String,
}

#[derive(Clone, PartialEq, Debug)]
pub struct RaydiumTableEvents {
    pub events: Vec<RaydiumTableEvent>,
}

#[derive(Clone, PartialEq, Debug)]
pub struct RaydiumTableEvent {
    pub signer: String,
    pub signature: String,
    pub slot: u64,
    pub event: Option<RaydiumEvent>,
}

#[derive(Clone, PartialEq, Debug)]
pub struct RaydiumEvent {
    pub amm: String,
    pub type_code: i32,
    pub data: Option<RaydiumEventData>,
}

#[derive(Clone, PartialEq, Debug)]
pub enum RaydiumEventData {
    Initialize(InitializeData),
    Deposit(DepositData),
    Withdraw(WithdrawData),
    Swap(SwapData),
}

#[derive(Clone, PartialEq, Debug)]
pub struct InitializeData {
    pub pc_init_amount: u64,
    pub coin_init_amount: u64,
    pub lp_init_amount: u64,
}

#[derive(Clone, PartialEq, Debug)]
pub struct DepositData {
    pub pc_amount: u64,
    pub coin_amount: u64,
    pub lp_amount: u64,
}

#[derive(Clone, PartialEq, Debug)]
pub struct WithdrawData {
    pub pc_amount: u64,
    pub coin_amount: u64,
    pub lp_amount: u64,
}

#[derive(Clone, PartialEq, Debug)]
pub struct SwapData {
    pub mint_in: String,
    pub mint_out: String,
    pub amount_in: u64,
    pub amount_out: u64,
}

#[derive(Clone, Copy, Debug, PartialEq, Eq, Hash)]
pub enum RaydiumEventType {
    Initialize,
    Deposit,
    Withdraw,
    Swap,
}

} // verus!
