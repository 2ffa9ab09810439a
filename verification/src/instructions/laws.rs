//! What holds of the deposit and withdraw steps together.
use crate::instructions::deposit::{deposit_checks, deposit_fits, deposit_settle, deposit_step, Deposit};
use crate::instructions::withdraw::{
    lemma_pow10_positive, pow10, price_value, withdraw_settle, withdraw_step, withdraw_value, Withdraw,
};
use crate::instructions::{Action, Event, TokenTransfer, TransferDirection};
use crate::state::errors::{ErrorCode, InstructionError};
use crate::state::states::{decode_oracle, Pubkey, Vault};
use vstd::arithmetic::div_mod::{lemma_div_denominator, lemma_div_multiples_vanish};
use vstd::arithmetic::mul::lemma_mul_is_commutative;
use vstd::prelude::*;

verus! {

/// A deposit step moves the vault's two totals together: their difference
/// is the same afterwards (so totals that were equal stay equal), and a
/// completed deposit raises both by exactly the amount.
pub proof fn law_deposit_keeps_totals_together(d: Deposit, amount: u64, bump: u8, event: Event)
    requires
        event matches Event::Transferred(Ok(())) ==> deposit_fits(d.vault, amount),
    ensures
        deposit_step(d, amount, bump, event).0.total_deposits - deposit_step(
            d,
            amount,
            bump,
            event,
        ).0.total_available == d.vault.total_deposits - d.vault.total_available,
        deposit_step(d, amount, bump, event).1 matches Action::Finish(Ok(())) ==> {
            &&& deposit_step(d, amount, bump, event).0.total_deposits == d.vault.total_deposits
                + amount
            &&& deposit_step(d, amount, bump, event).0.total_available
                == d.vault.total_available + amount
        },
{
}

/// A deposit step changes nothing of the vault but its owner, its bump and
/// its totals.
pub proof fn law_deposit_keeps_seed(d: Deposit, amount: u64, bump: u8, event: Event)
    ensures
        deposit_step(d, amount, bump, event).0.seed == d.vault.seed,
{
}

/// The oracle's price does not enter a deposit: two deposits whose oracle
/// data both decode to valid oracles take the same steps.
pub proof fn law_deposit_ignores_price(
    d1: Deposit,
    d2: Deposit,
    amount: u64,
    bump: u8,
    event: Event,
)
    requires
        d1.user == d2.user,
        d1.user_balance == d2.user_balance,
        d1.vault == d2.vault,
        (decode_oracle(d1.oracle@) matches Ok(o1) && o1.is_valid),
        (decode_oracle(d2.oracle@) matches Ok(o2) && o2.is_valid),
    ensures
        deposit_step(d1, amount, bump, event) == deposit_step(d2, amount, bump, event),
{
}

/// A withdrawal step moves the vault's two totals together: their
/// difference is the same afterwards.
pub proof fn law_withdraw_keeps_totals_together(w: Withdraw, units: u64, event: Event)
    ensures
        withdraw_step(w, units, event).0.total_deposits - withdraw_step(
            w,
            units,
            event,
        ).0.total_available == w.vault.total_deposits - w.vault.total_available,
{
}

/// A completed withdrawal lowers both totals by exactly the units taken
/// and changes nothing else of the vault.
pub proof fn law_withdraw_settles(w: Withdraw, units: u64, event: Event)
    ensures
        withdraw_step(w, units, event).1 matches Action::Finish(Ok(())) ==> withdraw_step(
            w,
            units,
            event,
        ).0 == (Vault {
            total_deposits: (w.vault.total_deposits - units) as u64,
            total_available: (w.vault.total_available - units) as u64,
            ..w.vault
        }),
{
}

/// Withdrawing the units just deposited returns the vault's totals to what
/// they were before the deposit.
pub proof fn law_withdraw_undoes_deposit(vault: Vault, user: Pubkey, bump: u8, amount: u64)
    requires
        deposit_fits(vault, amount),
    ensures
        withdraw_settle(deposit_settle(vault, user, bump, amount), amount) == Ok::<
            Vault,
            ErrorCode,
        >((Vault { owner: user, bump: bump, ..vault })),
{
}

/// At a price of exactly one (`10^k * 10^-k`), withdrawing what was just
/// deposited asks for the same number of tokens back and returns the
/// vault's totals to what they were.
pub proof fn law_withdraw_at_unit_price_undoes_deposit(
    d: Deposit,
    amount: u64,
    bump: u8,
    oracle_after: Vec<u8>,
    k: nat,
)
    requires
        deposit_fits(d.vault, amount),
        (deposit_checks(d.oracle@, amount, d.user_balance) is Ok),
        (decode_oracle(oracle_after@) matches Ok(o) && o.is_valid && o.price_mantissa == pow10(k)
            && o.price_exponent == -k),
    ensures
        deposit_step(d, amount, bump, Event::Start).1 == Action::Transfer(
            TokenTransfer { direction: TransferDirection::UserToVault, amount },
        ),
        ({
            let deposited = deposit_step(d, amount, bump, Event::Transferred(Ok(()))).0;
            let w = Withdraw { user: d.user, vault: deposited, oracle: oracle_after };
            &&& withdraw_step(w, amount, Event::Start).1 == Action::Transfer(
                TokenTransfer { direction: TransferDirection::VaultToUser, amount },
            )
            &&& withdraw_step(w, amount, Event::Transferred(Ok(()))).1 == Action::Finish(
                Ok::<(), InstructionError>(()),
            )
            &&& withdraw_step(w, amount, Event::Transferred(Ok(()))).0.total_deposits
                == d.vault.total_deposits
            &&& withdraw_step(w, amount, Event::Transferred(Ok(()))).0.total_available
                == d.vault.total_available
        }),
{
    let price = pow10(k);
    lemma_pow10_positive(k);
    assert(price_value(amount as int, price as int, -(k as int)) == amount) by {
        if k == 0 {
            assert(pow10(0) == 1);
            assert(amount * 1 * 1 == amount);
        } else {
            let e: int = -(k as int);
            assert((-e) as nat == k);
            lemma_mul_is_commutative(amount as int, price as int);
            lemma_div_multiples_vanish(amount as int, price as int);
            assert((amount * price) / (price as int) == amount);
        }
    }
}

/// A deposit step changes the vault only when the transfer succeeded and
/// the deposit is complete.
pub proof fn law_deposit_changes_vault_only_on_success(
    d: Deposit,
    amount: u64,
    bump: u8,
    event: Event,
)
    ensures
        !(deposit_step(d, amount, bump, event).1 matches Action::Finish(Ok(()))) ==> deposit_step(
            d,
            amount,
            bump,
            event,
        ).0 == d.vault,
{
}

/// A withdrawal step changes the vault only when the withdrawal is
/// complete.
pub proof fn law_withdraw_changes_vault_only_on_success(w: Withdraw, units: u64, event: Event)
    ensures
        !(withdraw_step(w, units, event).1 matches Action::Finish(Ok(()))) ==> withdraw_step(
            w,
            units,
            event,
        ).0 == w.vault,
{
}

/// Only the vault's owner can start a withdrawal: anyone else is refused
/// before anything is read or paid.
pub proof fn law_only_owner_withdraws(w: Withdraw, units: u64)
    requires
        w.vault.owner@ != w.user@,
    ensures
        withdraw_step(w, units, Event::Start) == (
            w.vault,
            Action::Finish(Err(InstructionError::Program(ErrorCode::UnauthorizedVaultAccess))),
        ),
{
}

/// A completed withdrawal takes out no more units than were available.
pub proof fn law_withdraw_within_available(w: Withdraw, units: u64)
    ensures
        withdraw_step(w, units, Event::Transferred(Ok(()))).1 matches Action::Finish(Ok(()))
            ==> units <= w.vault.total_available && withdraw_step(
            w,
            units,
            Event::Transferred(Ok(())),
        ).0.total_available == w.vault.total_available - units,
{
}

/// At exponent zero, units are worth units times the mantissa.
pub proof fn law_value_at_exponent_zero(units: nat, mantissa: nat)
    ensures
        price_value(units as int, mantissa as int, 0) == units * mantissa,
{
    assert(pow10(0) == 1);
    assert(units * mantissa * 1 == units * mantissa);
}

/// Raising a non-negative exponent by one multiplies the value by ten.
pub proof fn law_value_scales_up(units: nat, mantissa: nat, e: nat)
    ensures
        price_value(units as int, mantissa as int, e + 1int) == 10 * price_value(
            units as int,
            mantissa as int,
            e as int,
        ),
{
    let x = units * mantissa;
    let p = pow10(e);
    assert(pow10(e + 1) == 10 * p);
    assert(x * (10 * p) == 10 * (x * p)) by (nonlinear_arith);
}

/// Lowering an exponent that is not positive by one divides the value by
/// ten, rounding toward zero.
pub proof fn law_value_scales_down(units: nat, mantissa: nat, k: nat)
    ensures
        price_value(units as int, mantissa as int, -(k + 1)) == price_value(
            units as int,
            mantissa as int,
            -(k as int),
        ) / 10,
{
    let x = units * mantissa;
    let e: int = -(k + 1);
    assert((-e) as nat == k + 1);
    assert(pow10(k + 1) == pow10(k) * 10);
    lemma_pow10_positive(k);
    if k == 0 {
        assert(pow10(0) == 1);
        assert(x * 1 == x);
    } else {
        let f: int = -(k as int);
        assert((-f) as nat == k);
        lemma_div_denominator(x as int, pow10(k) as int, 10);
    }
}

/// A withdrawal's payout is the exact value when a token amount can hold
/// it; otherwise the payout fails with `MathOverflow`.
pub proof fn law_value_fits_or_overflows(units: nat, mantissa: nat, exponent: int)
    ensures
        withdraw_value(units as int, mantissa as int, exponent) is Ok ==> withdraw_value(
            units as int,
            mantissa as int,
            exponent,
        )->Ok_0 == price_value(units as int, mantissa as int, exponent),
        withdraw_value(units as int, mantissa as int, exponent) is Err <==> price_value(
            units as int,
            mantissa as int,
            exponent,
        ) > u64::MAX,
        withdraw_value(units as int, mantissa as int, exponent) is Err ==> withdraw_value(
            units as int,
            mantissa as int,
            exponent,
        )->Err_0 == ErrorCode::MathOverflow,
{
    let x: int = (units * mantissa) as int;
    if exponent >= 0 {
        let p: int = pow10(exponent as nat) as int;
        assert(x * p >= 0) by (nonlinear_arith)
            requires
                x >= 0,
                p >= 0,
        ;
    } else {
        lemma_pow10_positive((-exponent) as nat);
        assert(x / (pow10((-exponent) as nat) as int) >= 0) by (nonlinear_arith)
            requires
                x >= 0,
                pow10((-exponent) as nat) > 0,
        ;
    }
}

/// When a withdrawal starts, it asks for a transfer from the vault to the
/// user exactly when the signer owns the vault, the oracle decodes to a
/// valid oracle with a positive price, the units are non-zero and
/// available, and their value at that price is a non-zero token amount;
/// the transfer is of exactly that value, and the vault is untouched.
pub proof fn law_withdraw_start_pays_value(w: Withdraw, units: u64)
    ensures
        withdraw_step(w, units, Event::Start).0 == w.vault,
        ({
            let decoded = decode_oracle(w.oracle@);
            let o = decoded->Ok_0;
            let value = withdraw_value(units as int, o.price_mantissa, o.price_exponent);
            (w.vault.owner@ == w.user@ && decoded is Ok && o.is_valid && o.price_mantissa > 0
                && units > 0 && units <= w.vault.total_available && value is Ok && value->Ok_0
                > 0) ==> withdraw_step(w, units, Event::Start).1 == Action::Transfer(
                TokenTransfer { direction: TransferDirection::VaultToUser, amount: value->Ok_0 },
            )
        }),
        ({
            let action = withdraw_step(w, units, Event::Start).1;
            let tr = action->Transfer_0;
            let o = decode_oracle(w.oracle@)->Ok_0;
            action is Transfer ==> {
                &&& tr.direction == TransferDirection::VaultToUser
                &&& decode_oracle(w.oracle@) is Ok
                &&& withdraw_value(units as int, o.price_mantissa, o.price_exponent) == Ok::<
                    u64,
                    ErrorCode,
                >(tr.amount)
                &&& tr.amount > 0
            }
        }),
{
}

/// Why a withdrawal that starts is refused, in the order the checks run.
pub proof fn law_withdraw_start_refusals(w: Withdraw, units: u64)
    ensures
        w.vault.owner@ != w.user@ ==> withdraw_step(w, units, Event::Start).1 == Action::Finish(
            Err(InstructionError::Program(ErrorCode::UnauthorizedVaultAccess)),
        ),
        (w.vault.owner@ == w.user@ && decode_oracle(w.oracle@) is Err) ==> withdraw_step(
            w,
            units,
            Event::Start,
        ).1 == Action::Finish(Err(InstructionError::Program(ErrorCode::InvalidOracle))),
        ({
            let o = decode_oracle(w.oracle@)->Ok_0;
            (w.vault.owner@ == w.user@ && decode_oracle(w.oracle@) is Ok) ==> {
            &&& !o.is_valid ==> withdraw_step(w, units, Event::Start).1 == Action::Finish(
                Err(InstructionError::Program(ErrorCode::OracleInvalid)),
            )
            &&& (o.is_valid && o.price_mantissa <= 0) ==> withdraw_step(
                w,
                units,
                Event::Start,
            ).1 == Action::Finish(Err(InstructionError::Program(ErrorCode::InvalidOraclePrice)))
            &&& (o.is_valid && o.price_mantissa > 0 && units == 0) ==> withdraw_step(
                w,
                units,
                Event::Start,
            ).1 == Action::Finish(Err(InstructionError::Program(ErrorCode::ZeroWithdrawAmount)))
            &&& (o.is_valid && o.price_mantissa > 0 && units > 0 && units
                > w.vault.total_available) ==> withdraw_step(w, units, Event::Start).1
                == Action::Finish(
                Err(InstructionError::Program(ErrorCode::InsufficientVaultBalance)),
            )
            &&& (o.is_valid && o.price_mantissa > 0 && units > 0 && units
                <= w.vault.total_available && price_value(
                units as int,
                o.price_mantissa,
                o.price_exponent,
            ) > u64::MAX) ==> withdraw_step(w, units, Event::Start).1 == Action::Finish(
                Err(InstructionError::Program(ErrorCode::MathOverflow)),
            )
            &&& (o.is_valid && o.price_mantissa > 0 && units > 0 && units
                <= w.vault.total_available && price_value(
                units as int,
                o.price_mantissa,
                o.price_exponent,
            ) == 0) ==> withdraw_step(w, units, Event::Start).1 == Action::Finish(
                Err(InstructionError::Program(ErrorCode::ZeroWithdrawValue)),
            )
            }
        }),
{
}

/// Once the payout was transferred, a withdrawal reads no oracle: it
/// takes the units off both totals when both hold them, and otherwise
/// fails with `MathUnderflow` and leaves the vault as it was.
pub proof fn law_withdraw_settlement(w: Withdraw, units: u64)
    ensures
        (w.vault.total_available >= units && w.vault.total_deposits >= units) ==> withdraw_step(
            w,
            units,
            Event::Transferred(Ok(())),
        ) == ((Vault {
            total_deposits: (w.vault.total_deposits - units) as u64,
            total_available: (w.vault.total_available - units) as u64,
            ..w.vault
        }), Action::Finish(Ok::<(), InstructionError>(()))),
        !(w.vault.total_available >= units && w.vault.total_deposits >= units) ==> withdraw_step(
            w,
            units,
            Event::Transferred(Ok(())),
        ) == (w.vault, Action::Finish(Err(InstructionError::Program(ErrorCode::MathUnderflow)))),
{
}

/// A failed payout transfer ends a withdrawal with that transfer's error
/// and leaves the vault as it was.
pub proof fn law_withdraw_transfer_failure(w: Withdraw, units: u64, e: anchor_lang::error::Error)
    ensures
        withdraw_step(w, units, Event::Transferred(Err(e))) == (
            w.vault,
            Action::Finish(Err(InstructionError::Transfer(e))),
        ),
{
}

/// The settlement of a withdrawal does not depend on the oracle's data.
pub proof fn law_withdraw_settlement_ignores_oracle(w1: Withdraw, w2: Withdraw, units: u64)
    requires
        w1.user == w2.user,
        w1.vault == w2.vault,
    ensures
        withdraw_step(w1, units, Event::Transferred(Ok(()))) == withdraw_step(
            w2,
            units,
            Event::Transferred(Ok(())),
        ),
{
}

/// When a deposit starts, it asks for a transfer of exactly the amount
/// from the user to the vault when the oracle decodes to a valid oracle
/// and the amount is non-zero and within the user's balance; otherwise it
/// is refused, in this order: `InvalidOracle`, `OracleInvalid`,
/// `ZeroDepositAmount`, `InsufficientBalance`. The vault is untouched.
pub proof fn law_deposit_start(d: Deposit, amount: u64, bump: u8)
    ensures
        deposit_step(d, amount, bump, Event::Start).0 == d.vault,
        decode_oracle(d.oracle@) is Err ==> deposit_step(d, amount, bump, Event::Start).1
            == Action::Finish(Err(InstructionError::Program(ErrorCode::InvalidOracle))),
        ({
            let o = decode_oracle(d.oracle@)->Ok_0;
            decode_oracle(d.oracle@) is Ok ==> {
            &&& !o.is_valid ==> deposit_step(d, amount, bump, Event::Start).1 == Action::Finish(
                Err(InstructionError::Program(ErrorCode::OracleInvalid)),
            )
            &&& (o.is_valid && amount == 0) ==> deposit_step(d, amount, bump, Event::Start).1
                == Action::Finish(Err(InstructionError::Program(ErrorCode::ZeroDepositAmount)))
            &&& (o.is_valid && amount > 0 && amount > d.user_balance) ==> deposit_step(
                d,
                amount,
                bump,
                Event::Start,
            ).1 == Action::Finish(Err(InstructionError::Program(ErrorCode::InsufficientBalance)))
            &&& (o.is_valid && 0 < amount <= d.user_balance) ==> deposit_step(
                d,
                amount,
                bump,
                Event::Start,
            ).1 == Action::Transfer(
                TokenTransfer { direction: TransferDirection::UserToVault, amount },
            )
            }
        }),
{
}

/// Once the deposit was transferred, the vault is recorded as the user's,
/// with the bump found for it, and the amount is added to both totals.
pub proof fn law_deposit_settlement(d: Deposit, amount: u64, bump: u8)
    requires
        deposit_fits(d.vault, amount),
    ensures
        deposit_step(d, amount, bump, Event::Transferred(Ok(()))) == ((Vault {
            owner: d.user,
            bump: bump,
            total_deposits: (d.vault.total_deposits + amount) as u64,
            total_available: (d.vault.total_available + amount) as u64,
            seed: d.vault.seed,
        }), Action::Finish(Ok::<(), InstructionError>(()))),
{
}

/// A failed deposit transfer ends the deposit with that transfer's error
/// and leaves the vault as it was.
pub proof fn law_deposit_transfer_failure(
    d: Deposit,
    amount: u64,
    bump: u8,
    e: anchor_lang::error::Error,
)
    ensures
        deposit_step(d, amount, bump, Event::Transferred(Err(e))) == (
            d.vault,
            Action::Finish(Err(InstructionError::Transfer(e))),
        ),
{
}

} // verus!
