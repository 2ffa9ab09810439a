use crate::instructions::{Action, Event, TokenTransfer, TransferDirection};
use crate::state::errors::{ErrorCode, InstructionError};
use crate::state::states::{decode_oracle, Oracle, Pubkey, Vault};
use vstd::prelude::*;

verus! {

/// The accounts a deposit reads: the signing user's address, the tokens
/// in the user's token account, the user's vault (zeroed when it is
/// created for this deposit), and the oracle account's data.
pub struct Deposit {
    pub user: Pubkey,
    pub user_balance: u64,
    pub vault: Vault,
    pub oracle: Vec<u8>,
}

/// The bump seeds found for the deposit's program-derived addresses.
#[derive(Clone, Copy, Debug, PartialEq, Eq, Structural)]
pub struct DepositBumps {
    pub vault: u8,
}

/// The outcome of the checks a deposit makes before the transfer.
pub open spec fn deposit_checks(oracle: Seq<u8>, amount: u64, balance: u64) -> Result<
    (),
    InstructionError,
> {
    match decode_oracle(oracle) {
        Err(_) => Err(InstructionError::Program(ErrorCode::InvalidOracle)),
        Ok(o) => {
            if !o.is_valid {
                Err(InstructionError::Program(ErrorCode::OracleInvalid))
            } else if amount == 0 {
                Err(InstructionError::Program(ErrorCode::ZeroDepositAmount))
            } else if amount > balance {
                Err(InstructionError::Program(ErrorCode::InsufficientBalance))
            } else {
                Ok(())
            }
        },
    }
}

/// Whether adding `amount` to both of the vault's totals stays in range.
pub open spec fn deposit_fits(vault: Vault, amount: u64) -> bool {
    &&& vault.total_deposits + amount <= u64::MAX
    &&& vault.total_available + amount <= u64::MAX
}

/// The vault after `amount` is paid into it: it belongs to `user`, keeps
/// the bump found for it, and both totals grow by `amount`.
pub open spec fn deposit_settle(vault: Vault, user: Pubkey, bump: u8, amount: u64) -> Vault {
    Vault {
        owner: user,
        bump: bump,
        total_deposits: (vault.total_deposits + amount) as u64,
        total_available: (vault.total_available + amount) as u64,
        ..vault
    }
}

/// One step of a deposit: the vault afterwards and the next action.
pub open spec fn deposit_step(d: Deposit, amount: u64, bump: u8, event: Event) -> (Vault, Action) {
    match event {
        Event::Start => (
            d.vault,
            match deposit_checks(d.oracle@, amount, d.user_balance) {
                Ok(()) => Action::Transfer(
                    TokenTransfer { direction: TransferDirection::UserToVault, amount },
                ),
                Err(e) => Action::Finish(Err(e)),
            },
        ),
        Event::Transferred(Err(e)) => (d.vault, Action::Finish(Err(InstructionError::Transfer(e)))),
        Event::Transferred(Ok(())) => (
            deposit_settle(d.vault, d.user, bump, amount),
            Action::Finish(Ok(())),
        ),
    }
}

impl Deposit {
    /// Deposits `amount` tokens into the user's vault.
    ///
    /// At the start it checks, in order: that the oracle account decodes
    /// (else `InvalidOracle`), that the oracle is marked valid, that the
    /// amount is not zero, and that the user holds that many tokens; then
    /// it asks for a transfer of `amount` from the user to the vault. Once the transfer is made, the vault is
    /// recorded as the user's, with its bump, and `amount` is added to both
    /// of its totals. A failed step leaves the vault as it was.
    pub fn deposit(&mut self, amount: u64, bumps: &DepositBumps, event: Event) -> (action: Action)
        requires
            event matches Event::Transferred(Ok(())) ==> deposit_fits(old(self).vault, amount),
        ensures
            final(self).vault == deposit_step(*old(self), amount, bumps.vault, event).0,
            action == deposit_step(*old(self), amount, bumps.vault, event).1,
            final(self).user == old(self).user,
            final(self).user_balance == old(self).user_balance,
            final(self).oracle@ == old(self).oracle@,
    {
        match event {
            Event::Start => {
                let oracle = match Oracle::try_deserialize(self.oracle.as_slice()) {
                    Ok(o) => o,
                    Err(_) => return Action::Finish(
                        Err(InstructionError::Program(ErrorCode::InvalidOracle)),
                    ),
                };
                if !oracle.is_valid {
                    return Action::Finish(Err(InstructionError::Program(ErrorCode::OracleInvalid)));
                }
                if amount == 0 {
                    return Action::Finish(
                        Err(InstructionError::Program(ErrorCode::ZeroDepositAmount)),
                    );
                }
                if amount > self.user_balance {
                    return Action::Finish(
                        Err(InstructionError::Program(ErrorCode::InsufficientBalance)),
                    );
                }
                Action::Transfer(TokenTransfer { direction: TransferDirection::UserToVault, amount })
            },
            Event::Transferred(Err(e)) => Action::Finish(Err(InstructionError::Transfer(e))),
            Event::Transferred(Ok(())) => {
                self.vault.owner = self.user;
                self.vault.bump = bumps.vault;
                self.vault.total_deposits = self.vault.total_deposits + amount;
                self.vault.total_available = self.vault.total_available + amount;
                Action::Finish(Ok(()))
            },
        }
    }
}

} // verus!
