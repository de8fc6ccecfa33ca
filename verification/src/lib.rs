//! Instruction logic of a yield-tokenization protocol.
//!
//! Users deposit a base token into a strategy-scoped vault and receive yield
//! tokens minted one-for-one against the deposit; the deposit then earns
//! time-proportional yield which is paid out on redemption. Minted yield
//! tokens can also be offered on a peer-to-peer escrow marketplace.
//!
//! Each instruction is a function from account state, instruction arguments
//! and the current ledger time to new account state and a set of token
//! movements. The host that owns the ledger loads the accounts, runs the
//! instruction, performs the returned token movements, and either commits
//! every change or, when the instruction reports an error, none of them.

pub mod account;
pub mod lending;
pub mod marketplace;
pub mod pool_market;
pub mod yield_math;
