//! Decoding of Solana transaction data into a structured, hierarchical view
//! of program invocations.
//!
//! The core of the crate reconstructs, for one transaction, a forest of
//! instruction nodes from (a) the flat list of top-level instructions,
//! (b) the separately recorded groups of inner instructions and (c) the
//! ordered raw program-log lines, attributing to every node the exact log
//! lines emitted during its execution.  A replay of the transaction's
//! token-moving instructions keeps a queryable view of each token account's
//! mint, owner and balance.  Per-program decoders for the token program and
//! a few other well-known programs are layered on top.

pub mod block_meta;
pub mod builder;
pub mod decimal;
pub mod instruction;
pub mod laws;
pub mod log;
pub mod mpl_events;
pub mod mpl_instruction;
pub mod pumpfun;
pub mod pumpfun_events;
pub mod raydium_amm;
pub mod raydium_events;
pub mod pubkey;
pub mod spl_token;
pub mod spl_token_events;
pub mod spl_token_messages;
pub mod swap_events;
pub mod system_program;
pub mod system_program_events;
pub mod transaction;

pub use pubkey::Pubkey;
pub use pubkey::PubkeyRef;
