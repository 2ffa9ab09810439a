//! A token vault whose withdrawals are priced by an on-chain oracle.
//!
//! A user deposits tokens into a vault that the program keeps for them;
//! a withdrawal of a number of units pays out tokens at the price the
//! oracle account quotes at that moment. The library holds the accounts'
//! state, the oracle account's byte layout, and the decisions that the
//! deposit and withdraw instructions take; the token transfers themselves
//! are performed by the caller, which hands their outcome back.

pub mod instructions;
pub mod state;


pub use instructions::deposit::{Deposit, DepositBumps};
pub use instructions::withdraw::{withdraw_tokens, Withdraw};
pub use instructions::{Action, Event, TokenTransfer, TransferDirection};
pub use state::errors::{ErrorCode, InstructionError};
pub use state::states::{Oracle, Pubkey, User, Vault};
