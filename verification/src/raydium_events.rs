//! Typed events of the Raydium AMM program, the crate's output schema for it.

use vstd::prelude::*;

verus! {

#[derive(Clone, PartialEq, Debug)]
pub struct RaydiumBlockEvents {
    pub transactions: Vec<RaydiumTransactionEvents>,
}

#[derive(Clone, PartialEq, Debug)]
pub struct RaydiumTransactionEvents {
    pub signature: String,
    pub transaction_index: u32,
    pub events: Vec<RaydiumEvent>,
}

#[derive(Clone, PartialEq, Debug)]
pub struct RaydiumEvent {
    pub instruction_index: u32,
    pub event: Option<RaydiumEventKind>,
}

#[derive(Clone, PartialEq, Debug)]
pub enum RaydiumEventKind {
    Initialize(InitializeEvent),
    Deposit(DepositEvent),
    Withdraw(WithdrawEvent),
    Swap(SwapEvent),
}

#[derive(Clone, PartialEq, Debug)]
pub struct InitializeEvent {
    pub amm: String,
    pub user: String,
    pub pc_init_amount: u64,
    pub coin_init_amount: u64,
    pub lp_init_amount: u64,
    pub pc_mint: String,
    pub coin_mint: String,
    pub lp_mint: String,
    pub nonce: u32,
}

#[derive(Clone, PartialEq, Debug)]
pub struct DepositEvent {
    pub amm: String,
    pub user: String,
    pub pc_amount: u64,
    pub coin_amount: u64,
    pub lp_amount: u64,
    pub pc_mint: String,
    pub coin_mint: String,
    pub lp_mint: String,
}

#[derive(Clone, PartialEq, Debug)]
pub struct WithdrawEvent {
    pub amm: String,
    pub user: String,
    pub pc_amount: u64,
    pub coin_amount: u64,
    pub lp_amount: u64,
    pub pc_mint: String,
    pub coin_mint: String,
    pub lp_mint: String,
}

#[derive(Clone, PartialEq, Debug)]
pub struct SwapEvent {
    pub amm: String,
    pub user: String,
    pub mint_in: String,
    pub mint_out: String,
    pub amount_in: u64,
    pub amount_out: u64,
}

#[derive(Clone, PartialEq, Debug)]
pub struct RaydiumAmmBlockEvents {
    pub transactions: Vec<RaydiumAmmTransactionEvents>,
}

#[derive(Clone, PartialEq, Debug)]
pub struct RaydiumAmmTransactionEvents {
    pub signature: String,
    pub events: Vec<RaydiumAmmEvent>,
}

#[derive(Clone, PartialEq, Debug)]
pub struct RaydiumAmmEvent {
    pub event: Option<RaydiumAmmEventKind>,
}

#[derive(Clone, PartialEq, Debug)]
pub enum RaydiumAmmEventKind {
    Initialize(InitializeEvent),
    Deposit(DepositEvent),
    Withdraw(WithdrawEvent),
    WithdrawPnl(WithdrawPnlEvent),
    Swap(SwapEvent),
}

#[derive(Clone, PartialEq, Debug)]
pub struct WithdrawPnlEvent {
    pub amm: String,
    pub user: String,
    pub pc_amount: Option<u64>,
    pub coin_amount: Option<u64>,
    pub pc_mint: Option<String>,
    pub coin_mint: Option<String>,
}

} // verus!
