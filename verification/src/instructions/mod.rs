//! The two instructions, each a step function: given the accounts it reads,
//! its argument and what has happened so far, it returns the accounts'
//! next state and what is to be done next. A token transfer is the one
//! piece of outside work; the caller performs it and reports its outcome.
use crate::state::errors::InstructionError;
use crate::state::states::Pubkey;
use vstd::prelude::*;

pub mod deposit;
pub mod laws;
pub mod withdraw;

verus! {

/// Which way tokens move between the user's token account and the vault's.
#[derive(Clone, Copy, Debug, PartialEq, Eq, Structural)]
pub enum TransferDirection {
    /// From the user's account, signed by the user.
    UserToVault,
    /// From the vault's account, signed by the vault's address.
    VaultToUser,
}

/// A token transfer of `amount` base units, checked against the mint's
/// decimals by the token program.
#[derive(Clone, Copy, Debug, PartialEq, Eq, Structural)]
pub struct TokenTransfer {
    pub direction: TransferDirection,
    pub amount: u64,
}

/// What has happened in the instruction so far.
#[derive(Debug, PartialEq, Eq)]
pub enum Event {
    /// The instruction begins.
    Start,
    /// The requested token transfer was made, with this outcome.
    Transferred(Result<(), anchor_lang::error::Error>),
}

/// What the instruction asks for next.
#[derive(Debug, PartialEq, Eq)]
pub enum Action {
    /// Make this transfer, then report its outcome.
    Transfer(TokenTransfer),
    /// The instruction is over, with this result.
    Finish(Result<(), InstructionError>),
}

/// Whether two addresses are the same.
pub fn same_key(a: &Pubkey, b: &Pubkey) -> (same: bool)
    ensures
        same == (a@ == b@),
{
    let mut i: usize = 0;
    while i < 32
        invariant
            i <= 32,
            forall|j: int| 0 <= j < i ==> a@[j] == b@[j],
        decreases 32 - i,
    {
        if a[i] != b[i] {
            return false;
        }
        i = i + 1;
    }
    assert(a@ =~= b@);
    true
}

} // verus!
