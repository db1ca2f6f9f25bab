//! Block-level metadata rows.

use vstd::prelude::*;

verus! {

#[derive(Clone, PartialEq, Debug)]
pub struct BlockMeta {
    pub hash: String,
    pub parent_hash: String,
    pub slot: u64,
    pub parent_slot: u64,
    pub transaction_count: u64,
    pub block_height: Option<u64>,
}

} // verus!
