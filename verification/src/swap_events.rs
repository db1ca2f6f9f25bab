//! Swap rows assembled across programs for downstream tables.

use vstd::prelude::*;

verus! {

#[derive(Clone, PartialEq, Debug)]
pub struct Swaps {
    pub swaps: Vec<Swap>,
}

#[derive(Clone, PartialEq, Debug)]
pub struct Swap {
    pub signer: String,
    pub token_in: String,
    pub token_out: String,
    pub amount_in: u64,
    pub amount_out: u64,
    pub signature: String,
    pub amm: String,
    pub slot: u64,
}

} // verus!
