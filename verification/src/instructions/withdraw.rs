use crate::instructions::{same_key, Action, Event, TokenTransfer, TransferDirection};
use crate::state::errors::{ErrorCode, InstructionError};
use crate::state::states::{decode_oracle, Oracle, Pubkey, Vault};
use vstd::arithmetic::div_mod::lemma_basic_div;
use vstd::prelude::*;

verus! {

/// `10` to the power `n`.
pub open spec fn pow10(n: nat) -> nat
    decreases n,
{
    if n == 0 {
        1
    } else {
        10 * pow10((n - 1) as nat)
    }
}

/// What `units` are worth at a price of `mantissa * 10^exponent`: the
/// product scaled up by the exponent when it is not negative, or divided
/// down by it, rounding toward zero, when it is.
pub open spec fn price_value(units: int, mantissa: int, exponent: int) -> int {
    if exponent >= 0 {
        units * mantissa * pow10(exponent as nat)
    } else {
        (units * mantissa) / (pow10((-exponent) as nat) as int)
    }
}

/// The tokens a withdrawal of `units` pays at a price of
/// `mantissa * 10^exponent`: their value, failing with `MathOverflow` when
/// it is more than a token amount can hold.
pub open spec fn withdraw_value(units: int, mantissa: int, exponent: int) -> Result<
    u64,
    ErrorCode,
> {
    let value = price_value(units, mantissa, exponent);
    if value > u64::MAX {
        Err(ErrorCode::MathOverflow)
    } else {
        Ok(value as u64)
    }
}

pub proof fn lemma_pow10_positive(n: nat)
    ensures
        pow10(n) > 0,
    decreases n,
{
    if n > 0 {
        lemma_pow10_positive((n - 1) as nat);
    }
}

pub proof fn lemma_pow10_monotone(a: nat, b: nat)
    requires
        a <= b,
    ensures
        pow10(a) <= pow10(b),
    decreases b,
{
    if a < b {
        lemma_pow10_monotone(a, (b - 1) as nat);
    }
}

/// `10^e` as a `u128`.
fn pow10_u128(e: u32) -> (power: u128)
    requires
        e <= 38,
    ensures
        power == pow10(e as nat),
{
    proof {
        reveal_with_fuel(pow10, 39);
        assert(pow10(37) == 10_000_000_000_000_000_000_000_000_000_000_000_000);
    }
    let mut power: u128 = 1;
    let mut i: u32 = 0;
    while i < e
        invariant
            i <= e <= 38,
            power == pow10(i as nat),
            pow10(37) == 10_000_000_000_000_000_000_000_000_000_000_000_000,
        decreases e - i,
    {
        proof {
            lemma_pow10_monotone(i as nat, 37);
        }
        power = power * 10;
        i = i + 1;
    }
    power
}

/// The tokens that `requested_units` are worth at the oracle's price
/// `price_mantissa * 10^price_exponent`, as `withdraw_value` states.
pub fn withdraw_tokens(requested_units: u64, price_mantissa: i64, price_exponent: i32) -> (tokens:
    Result<u64, ErrorCode>)
    requires
        price_mantissa > 0,
    ensures
        tokens == withdraw_value(
            requested_units as int,
            price_mantissa as int,
            price_exponent as int,
        ),
{
    let units = requested_units as u128;
    let mantissa = price_mantissa as u128;
    assert(units * mantissa < 0x8000_0000_0000_0000_0000_0000_0000_0000) by (nonlinear_arith)
        requires
            units <= u64::MAX,
            mantissa <= i64::MAX,
    ;
    let product = units * mantissa;
    proof {
        reveal_with_fuel(pow10, 40);
        assert(pow10(39) == 1_000_000_000_000_000_000_000_000_000_000_000_000_000);
    }
    if product == 0 {
        assert(price_value(units as int, mantissa as int, price_exponent as int) == 0) by {
            lemma_pow10_positive((-price_exponent) as nat);
            assert(0 * pow10(price_exponent as nat) == 0);
        }
        return Ok(0);
    }
    if price_exponent >= 0 {
        if price_exponent > 38 {
            proof {
                let power = pow10(price_exponent as nat);
                lemma_pow10_monotone(39, price_exponent as nat);
                assert(product * power >= power) by (nonlinear_arith)
                    requires
                        product >= 1,
                        power >= 0,
                ;
            }
            return Err(ErrorCode::MathOverflow);
        }
        let scaled = match product.checked_mul(pow10_u128(price_exponent as u32)) {
            Some(s) => s,
            None => return Err(ErrorCode::MathOverflow),
        };
        if scaled > u64::MAX as u128 {
            return Err(ErrorCode::MathOverflow);
        }
        Ok(scaled as u64)
    } else {
        let shift = (0i64 - price_exponent as i64) as u32;
        if shift > 38 {
            proof {
                lemma_pow10_monotone(39, shift as nat);
                lemma_basic_div(product as int, pow10(shift as nat) as int);
            }
            return Ok(0);
        }
        let divisor = pow10_u128(shift);
        proof {
            lemma_pow10_positive(shift as nat);
        }
        let quotient = product / divisor;
        if quotient > u64::MAX as u128 {
            return Err(ErrorCode::MathOverflow);
        }
        Ok(quotient as u64)
    }
}

/// The accounts a withdrawal reads: the signing user's address, the
/// user's vault, and the oracle account's data.
pub struct Withdraw {
    pub user: Pubkey,
    pub vault: Vault,
    pub oracle: Vec<u8>,
}

/// The outcome of the checks a withdrawal makes before any transfer: the
/// tokens to pay out, or the first check that failed.
pub open spec fn withdraw_checks(user: Pubkey, vault: Vault, oracle: Seq<u8>, units: u64) -> Result<
    u64,
    InstructionError,
> {
    if vault.owner@ != user@ {
        Err(InstructionError::Program(ErrorCode::UnauthorizedVaultAccess))
    } else {
        match decode_oracle(oracle) {
            Err(_) => Err(InstructionError::Program(ErrorCode::InvalidOracle)),
            Ok(o) => {
                if !o.is_valid {
                    Err(InstructionError::Program(ErrorCode::OracleInvalid))
                } else if o.price_mantissa <= 0 {
                    Err(InstructionError::Program(ErrorCode::InvalidOraclePrice))
                } else if units == 0 {
                    Err(InstructionError::Program(ErrorCode::ZeroWithdrawAmount))
                } else if vault.total_available < units {
                    Err(InstructionError::Program(ErrorCode::InsufficientVaultBalance))
                } else {
                    match withdraw_value(units as int, o.price_mantissa, o.price_exponent) {
                        Err(c) => Err(InstructionError::Program(c)),
                        Ok(tokens) => {
                            if tokens == 0 {
                                Err(InstructionError::Program(ErrorCode::ZeroWithdrawValue))
                            } else {
                                Ok(tokens)
                            }
                        },
                    }
                }
            },
        }
    }
}

/// The vault after `units` are taken out of it, once the tokens are paid.
pub open spec fn withdraw_settle(vault: Vault, units: u64) -> Result<Vault, ErrorCode> {
    if vault.total_available < units {
        Err(ErrorCode::MathUnderflow)
    } else if vault.total_deposits < units {
        Err(ErrorCode::MathUnderflow)
    } else {
        Ok(
            Vault {
                total_available: (vault.total_available - units) as u64,
                total_deposits: (vault.total_deposits - units) as u64,
                ..vault
            },
        )
    }
}

/// One step of a withdrawal: the vault afterwards and the next action.
pub open spec fn withdraw_step(w: Withdraw, units: u64, event: Event) -> (Vault, Action) {
    match event {
        Event::Start => (
            w.vault,
            match withdraw_checks(w.user, w.vault, w.oracle@, units) {
                Ok(tokens) => Action::Transfer(
                    TokenTransfer { direction: TransferDirection::VaultToUser, amount: tokens },
                ),
                Err(e) => Action::Finish(Err(e)),
            },
        ),
        Event::Transferred(Err(e)) => (w.vault, Action::Finish(Err(InstructionError::Transfer(e)))),
        Event::Transferred(Ok(())) => match withdraw_settle(w.vault, units) {
            Ok(next) => (next, Action::Finish(Ok(()))),
            Err(c) => (w.vault, Action::Finish(Err(InstructionError::Program(c)))),
        },
    }
}

impl Withdraw {
    /// Withdraws `requested_units` from the user's vault, paying out what
    /// they are worth at the oracle's current price.
    ///
    /// At the start it checks, in order: that the signer owns the vault,
    /// that the oracle account decodes (else `InvalidOracle`), that the
    /// oracle is marked valid, that its price mantissa is positive, that
    /// some units are asked for, that the vault has them available, that
    /// their value fits a token amount (else `MathOverflow`), and that it
    /// is not zero; then it asks for a transfer of that value from the
    /// vault to the user. Once the transfer is made, the units are taken
    /// off both of the vault's totals. A failed step leaves the vault as
    /// it was.
    pub fn withdraw(&mut self, requested_units: u64, event: Event) -> (action: Action)
        ensures
            final(self).vault == withdraw_step(*old(self), requested_units, event).0,
            action == withdraw_step(*old(self), requested_units, event).1,
            final(self).user == old(self).user,
            final(self).oracle@ == old(self).oracle@,
    {
        match event {
            Event::Start => match self.checks(requested_units) {
                Ok(tokens) => Action::Transfer(
                    TokenTransfer { direction: TransferDirection::VaultToUser, amount: tokens },
                ),
                Err(e) => Action::Finish(Err(e)),
            },
            Event::Transferred(Err(e)) => Action::Finish(Err(InstructionError::Transfer(e))),
            Event::Transferred(Ok(())) => {
                let available = match self.vault.total_available.checked_sub(requested_units) {
                    Some(a) => a,
                    None => return Action::Finish(
                        Err(InstructionError::Program(ErrorCode::MathUnderflow)),
                    ),
                };
                let deposits = match self.vault.total_deposits.checked_sub(requested_units) {
                    Some(d) => d,
                    None => return Action::Finish(
                        Err(InstructionError::Program(ErrorCode::MathUnderflow)),
                    ),
                };
                self.vault.total_available = available;
                self.vault.total_deposits = deposits;
                Action::Finish(Ok(()))
            },
        }
    }

    /// The checks made before the transfer, as `withdraw_checks` states.
    fn checks(&self, requested_units: u64) -> (outcome: Result<u64, InstructionError>)
        ensures
            outcome == withdraw_checks(self.user, self.vault, self.oracle@, requested_units),
    {
        if !same_key(&self.vault.owner, &self.user) {
            return Err(InstructionError::Program(ErrorCode::UnauthorizedVaultAccess));
        }
        let oracle = match Oracle::try_deserialize(self.oracle.as_slice()) {
            Ok(o) => o,
            Err(_) => return Err(InstructionError::Program(ErrorCode::InvalidOracle)),
        };
        if !oracle.is_valid {
            return Err(InstructionError::Program(ErrorCode::OracleInvalid));
        }
        if !(oracle.price_mantissa > 0) {
            return Err(InstructionError::Program(ErrorCode::InvalidOraclePrice));
        }
        if !(requested_units > 0) {
            return Err(InstructionError::Program(ErrorCode::ZeroWithdrawAmount));
        }
        if !(self.vault.total_available >= requested_units) {
            return Err(InstructionError::Program(ErrorCode::InsufficientVaultBalance));
        }
        let tokens = match withdraw_tokens(
            requested_units,
            oracle.price_mantissa,
            oracle.price_exponent,
        ) {
            Ok(t) => t,
            Err(c) => return Err(InstructionError::Program(c)),
        };
        if !(tokens > 0) {
            return Err(InstructionError::Program(ErrorCode::ZeroWithdrawValue));
        }
        Ok(tokens)
    }
}

} // verus!
