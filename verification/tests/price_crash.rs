use anchor_lang::prelude::ProgramError;
use price_crash::{
    withdraw_tokens, Action, Deposit, DepositBumps, ErrorCode, Event, InstructionError, Oracle,
    TokenTransfer, TransferDirection, Vault, Withdraw,
};

const ORACLE_DISCRIMINATOR: [u8; 8] = [139, 194, 131, 179, 140, 179, 229, 244];

fn user_key() -> [u8; 32] {
    let mut k = [0u8; 32];
    for (i, b) in k.iter_mut().enumerate() {
        *b = i as u8 + 1;
    }
    k
}

fn other_key() -> [u8; 32] {
    [7u8; 32]
}

fn oracle(mantissa: i64, exponent: i32, valid: bool) -> Oracle {
    Oracle {
        authority: [9u8; 32],
        price_mantissa: mantissa,
        price_exponent: exponent,
        confidence: 2,
        last_update_slot: 10,
        last_update_epoch: 1,
        is_valid: valid,
        bump: 254,
    }
}

fn empty_vault() -> Vault {
    Vault {
        owner: [0u8; 32],
        total_deposits: 0,
        total_available: 0,
        seed: 0,
        bump: 0,
    }
}

fn vault_with(owner: [u8; 32], deposits: u64, available: u64) -> Vault {
    Vault {
        owner,
        total_deposits: deposits,
        total_available: available,
        seed: 1,
        bump: 250,
    }
}

fn withdraw_of(vault: Vault, oracle_data: Vec<u8>) -> Withdraw {
    Withdraw {
        user: user_key(),
        vault,
        oracle: oracle_data,
    }
}

fn transfer_failure() -> anchor_lang::error::Error {
    anchor_lang::error::Error::from(ProgramError::InsufficientFunds)
}

fn start_withdraw(vault: Vault, o: &Oracle, units: u64) -> Action {
    let mut w = withdraw_of(vault, o.serialize());
    let action = w.withdraw(units, Event::Start);
    assert_eq!(w.vault, vault);
    action
}

fn refused(code: ErrorCode) -> Action {
    Action::Finish(Err(InstructionError::Program(code)))
}

#[test]
fn test_price_crash() {
    let user = user_key();
    // Deposit 15 units while the oracle quotes 1_500_000e-3.
    let before = oracle(1_500_000, -3, true);
    let mut deposit = Deposit {
        user,
        user_balance: 1_000_000,
        vault: empty_vault(),
        oracle: before.serialize(),
    };
    let bumps = DepositBumps { vault: 253 };
    let action = deposit.deposit(15, &bumps, Event::Start);
    assert_eq!(
        action,
        Action::Transfer(TokenTransfer {
            direction: TransferDirection::UserToVault,
            amount: 15
        })
    );
    let action = deposit.deposit(15, &bumps, Event::Transferred(Ok(())));
    assert_eq!(action, Action::Finish(Ok(())));
    assert_eq!(deposit.vault.owner, user);
    assert_eq!(deposit.vault.bump, 253);
    assert_eq!(deposit.vault.total_deposits, 15);
    assert_eq!(deposit.vault.total_available, 15);

    // The price moves from 1_500_000 to 9_000_000 (exponent -3).
    let after = oracle(9_000_000, -3, true);
    let mut withdraw = Withdraw {
        user,
        vault: deposit.vault,
        oracle: after.serialize(),
    };
    let action = withdraw.withdraw(15, Event::Start);
    assert_eq!(
        action,
        Action::Transfer(TokenTransfer {
            direction: TransferDirection::VaultToUser,
            amount: 135_000
        })
    );
    // The vault's token account holds only the 15 deposited tokens.
    let action = withdraw.withdraw(15, Event::Transferred(Err(transfer_failure())));
    assert_eq!(
        action,
        Action::Finish(Err(InstructionError::Transfer(transfer_failure())))
    );
    assert_eq!(withdraw.vault.total_deposits, 15);
    assert_eq!(withdraw.vault.total_available, 15);
}

#[test]
fn oracle_data_starts_with_discriminator() {
    let data = oracle(1, 0, true).serialize();
    assert_eq!(&data[..8], &ORACLE_DISCRIMINATOR);
}

#[test]
fn oracle_layout_is_little_endian() {
    let o = Oracle {
        authority: [3u8; 32],
        price_mantissa: -2,
        price_exponent: -3,
        confidence: 0x0102,
        last_update_slot: 5,
        last_update_epoch: 6,
        is_valid: true,
        bump: 255,
    };
    let data = o.serialize();
    assert_eq!(data.len(), 8 + Oracle::INIT_SPACE);
    assert_eq!(&data[8..40], &[3u8; 32]);
    assert_eq!(&data[40..48], &[0xfe, 0xff, 0xff, 0xff, 0xff, 0xff, 0xff, 0xff]);
    assert_eq!(&data[48..52], &[0xfd, 0xff, 0xff, 0xff]);
    assert_eq!(&data[52..60], &[2, 1, 0, 0, 0, 0, 0, 0]);
    assert_eq!(&data[60..68], &[5, 0, 0, 0, 0, 0, 0, 0]);
    assert_eq!(&data[68..76], &[6, 0, 0, 0, 0, 0, 0, 0]);
    assert_eq!(data[76], 1);
    assert_eq!(data[77], 255);
}

#[test]
fn oracle_roundtrip() {
    for o in [
        oracle(1_500_000, -3, true),
        oracle(i64::MIN, i32::MIN, false),
        oracle(i64::MAX, i32::MAX, true),
        oracle(0, 0, false),
    ] {
        assert_eq!(Oracle::try_deserialize(&o.serialize()), Ok(o));
    }
}

#[test]
fn oracle_ignores_trailing_bytes() {
    let o = oracle(42, 1, true);
    let mut data = o.serialize();
    data.extend_from_slice(&[1, 2, 3]);
    assert_eq!(Oracle::try_deserialize(&data), Ok(o));
}

#[test]
fn oracle_discriminator_not_found() {
    let data = oracle(42, 1, true).serialize();
    assert_eq!(
        Oracle::try_deserialize(&data[..7]),
        Err(InstructionError::AccountDiscriminatorNotFound)
    );
    assert_eq!(
        Oracle::try_deserialize(&[]),
        Err(InstructionError::AccountDiscriminatorNotFound)
    );
}

#[test]
fn oracle_discriminator_mismatch() {
    let mut data = oracle(42, 1, true).serialize();
    data[3] ^= 1;
    assert_eq!(
        Oracle::try_deserialize(&data),
        Err(InstructionError::AccountDiscriminatorMismatch)
    );
    assert_eq!(
        Oracle::try_deserialize(&[0u8; 8]),
        Err(InstructionError::AccountDiscriminatorMismatch)
    );
}

#[test]
fn oracle_did_not_deserialize() {
    let data = oracle(42, 1, true).serialize();
    assert_eq!(
        Oracle::try_deserialize(&data[..77]),
        Err(InstructionError::AccountDidNotDeserialize)
    );
    assert_eq!(
        Oracle::try_deserialize(&data[..8]),
        Err(InstructionError::AccountDidNotDeserialize)
    );
    let mut bad_flag = data.clone();
    bad_flag[76] = 2;
    assert_eq!(
        Oracle::try_deserialize(&bad_flag),
        Err(InstructionError::AccountDidNotDeserialize)
    );
}

#[test]
fn tokens_at_negative_exponent_round_toward_zero() {
    assert_eq!(withdraw_tokens(15, 9_000_000, -3), Ok(135_000));
    assert_eq!(withdraw_tokens(15, 1_500_000, -3), Ok(22_500));
    assert_eq!(withdraw_tokens(1, 999, -3), Ok(0));
    assert_eq!(withdraw_tokens(3, 1_999, -3), Ok(5));
}

#[test]
fn tokens_at_non_negative_exponent() {
    assert_eq!(withdraw_tokens(5, 7, 0), Ok(35));
    assert_eq!(withdraw_tokens(5, 7, 2), Ok(3_500));
}

#[test]
fn tokens_overflow_past_a_token_amount() {
    assert_eq!(
        withdraw_tokens(u64::MAX, i64::MAX, 1),
        Err(ErrorCode::MathOverflow)
    );
    assert_eq!(withdraw_tokens(1, 1, 38), Err(ErrorCode::MathOverflow));
    assert_eq!(withdraw_tokens(1, 1, 19), Ok(10_000_000_000_000_000_000));
    assert_eq!(withdraw_tokens(2, 1, 19), Err(ErrorCode::MathOverflow));
    assert_eq!(withdraw_tokens(u64::MAX, 1, 0), Ok(u64::MAX));
    assert_eq!(withdraw_tokens(u64::MAX, 2, 0), Err(ErrorCode::MathOverflow));
    assert_eq!(
        withdraw_tokens(1 << 32, (1 << 32) + 1, 0),
        Err(ErrorCode::MathOverflow)
    );
    assert_eq!(
        withdraw_tokens(u64::MAX, i64::MAX, -1),
        Err(ErrorCode::MathOverflow)
    );
    assert_eq!(withdraw_tokens(u64::MAX, 10, -1), Ok(u64::MAX));
}

#[test]
fn tokens_at_extreme_exponents() {
    assert_eq!(withdraw_tokens(1, 1, 39), Err(ErrorCode::MathOverflow));
    assert_eq!(withdraw_tokens(1, 1, i32::MAX), Err(ErrorCode::MathOverflow));
    assert_eq!(withdraw_tokens(0, 5, 40), Ok(0));
    assert_eq!(withdraw_tokens(u64::MAX, i64::MAX, -39), Ok(0));
    assert_eq!(withdraw_tokens(u64::MAX, i64::MAX, i32::MIN), Ok(0));
    assert_eq!(withdraw_tokens(u64::MAX, i64::MAX, -38), Ok(1));
}

#[test]
fn withdraw_refuses_other_user() {
    let o = oracle(1_000, 0, false);
    let vault = vault_with(other_key(), 10, 10);
    assert_eq!(
        start_withdraw(vault, &o, 5),
        refused(ErrorCode::UnauthorizedVaultAccess)
    );
}

#[test]
fn withdraw_refuses_unreadable_oracle() {
    let vault = vault_with(user_key(), 10, 10);
    for data in [vec![1, 2, 3], vec![0u8; 78], {
        let mut d = oracle(1_000, 0, true).serialize();
        d[76] = 7;
        d
    }] {
        let mut w = withdraw_of(vault, data);
        assert_eq!(w.withdraw(5, Event::Start), refused(ErrorCode::InvalidOracle));
        assert_eq!(w.vault, vault);
    }
}

#[test]
fn withdraw_refuses_invalid_oracle() {
    let vault = vault_with(user_key(), 10, 10);
    assert_eq!(
        start_withdraw(vault, &oracle(1_000, 0, false), 5),
        refused(ErrorCode::OracleInvalid)
    );
}

#[test]
fn withdraw_refuses_non_positive_price() {
    let vault = vault_with(user_key(), 10, 10);
    assert_eq!(
        start_withdraw(vault, &oracle(0, 0, true), 5),
        refused(ErrorCode::InvalidOraclePrice)
    );
    assert_eq!(
        start_withdraw(vault, &oracle(-5, 0, true), 5),
        refused(ErrorCode::InvalidOraclePrice)
    );
}

#[test]
fn withdraw_refuses_zero_units() {
    let vault = vault_with(user_key(), 10, 10);
    assert_eq!(
        start_withdraw(vault, &oracle(1_000, 0, true), 0),
        refused(ErrorCode::ZeroWithdrawAmount)
    );
}

#[test]
fn withdraw_refuses_more_than_available() {
    let vault = vault_with(user_key(), 10, 10);
    assert_eq!(
        start_withdraw(vault, &oracle(1_000, 0, true), 11),
        refused(ErrorCode::InsufficientVaultBalance)
    );
}

#[test]
fn withdraw_refuses_overflowing_value() {
    let vault = vault_with(user_key(), u64::MAX, u64::MAX);
    assert_eq!(
        start_withdraw(vault, &oracle(i64::MAX, 1, true), u64::MAX),
        refused(ErrorCode::MathOverflow)
    );
}

#[test]
fn withdraw_refuses_zero_value() {
    let vault = vault_with(user_key(), 10, 10);
    assert_eq!(
        start_withdraw(vault, &oracle(999, -3, true), 1),
        refused(ErrorCode::ZeroWithdrawValue)
    );
}

#[test]
fn withdraw_checks_owner_before_oracle() {
    let vault = vault_with(other_key(), 10, 10);
    let mut w = Withdraw {
        user: user_key(),
        vault,
        oracle: vec![],
    };
    assert_eq!(
        w.withdraw(5, Event::Start),
        refused(ErrorCode::UnauthorizedVaultAccess)
    );
}

#[test]
fn withdraw_settles_both_totals() {
    let vault = vault_with(user_key(), 10, 10);
    let mut w = withdraw_of(vault, oracle(1_000, 0, true).serialize());
    assert_eq!(w.withdraw(4, Event::Transferred(Ok(()))), Action::Finish(Ok(())));
    assert_eq!(w.vault.total_deposits, 6);
    assert_eq!(w.vault.total_available, 6);
    assert_eq!(w.vault.owner, user_key());
    assert_eq!(w.vault.bump, 250);
}

#[test]
fn withdraw_settle_underflows() {
    let vault = vault_with(user_key(), 10, 3);
    let mut w = withdraw_of(vault, vec![]);
    assert_eq!(
        w.withdraw(4, Event::Transferred(Ok(()))),
        refused(ErrorCode::MathUnderflow)
    );
    assert_eq!(w.vault, vault);
    let vault = vault_with(user_key(), 3, 10);
    let mut w = withdraw_of(vault, vec![]);
    assert_eq!(
        w.withdraw(4, Event::Transferred(Ok(()))),
        refused(ErrorCode::MathUnderflow)
    );
    assert_eq!(w.vault, vault);
}

#[test]
fn withdraw_passes_transfer_failure_on() {
    let vault = vault_with(user_key(), 10, 10);
    let mut w = withdraw_of(vault, vec![]);
    assert_eq!(
        w.withdraw(4, Event::Transferred(Err(transfer_failure()))),
        Action::Finish(Err(InstructionError::Transfer(transfer_failure())))
    );
    assert_eq!(w.vault, vault);
}

#[test]
fn withdraw_at_extreme_exponents() {
    let vault = vault_with(user_key(), 10, 10);
    assert_eq!(
        start_withdraw(vault, &oracle(1, 39, true), 5),
        refused(ErrorCode::MathOverflow)
    );
    assert_eq!(
        start_withdraw(vault, &oracle(1, i32::MAX, true), 5),
        refused(ErrorCode::MathOverflow)
    );
    assert_eq!(
        start_withdraw(vault, &oracle(i64::MAX, -39, true), 5),
        refused(ErrorCode::ZeroWithdrawValue)
    );
    assert_eq!(
        start_withdraw(vault, &oracle(i64::MAX, i32::MIN, true), 5),
        refused(ErrorCode::ZeroWithdrawValue)
    );
}

#[test]
fn withdraw_refuses_value_beyond_a_token_amount() {
    let units = 1u64 << 32;
    let vault = vault_with(user_key(), units, units);
    assert_eq!(
        start_withdraw(vault, &oracle((1 << 32) + 1, 0, true), units),
        refused(ErrorCode::MathOverflow)
    );
}

#[test]
fn withdraw_pays_at_current_price() {
    let vault = vault_with(user_key(), 10, 10);
    assert_eq!(
        start_withdraw(vault, &oracle(2_500, -3, true), 4),
        Action::Transfer(TokenTransfer {
            direction: TransferDirection::VaultToUser,
            amount: 10
        })
    );
}

#[test]
fn deposit_refuses_invalid_oracle() {
    let vault = vault_with(other_key(), 3, 3);
    let mut d = Deposit {
        user: user_key(),
        user_balance: 1_000_000,
        vault,
        oracle: oracle(1_000, 0, false).serialize(),
    };
    let action = d.deposit(5, &DepositBumps { vault: 1 }, Event::Start);
    assert_eq!(action, refused(ErrorCode::OracleInvalid));
    assert_eq!(d.vault, vault);
}

#[test]
fn deposit_refuses_unreadable_oracle() {
    let mut d = Deposit {
        user: user_key(),
        user_balance: 1_000_000,
        vault: empty_vault(),
        oracle: vec![0u8; 78],
    };
    let action = d.deposit(5, &DepositBumps { vault: 1 }, Event::Start);
    assert_eq!(action, refused(ErrorCode::InvalidOracle));
    assert_eq!(d.vault, empty_vault());
}

#[test]
fn deposit_passes_transfer_failure_on() {
    let mut d = Deposit {
        user: user_key(),
        user_balance: 1_000_000,
        vault: empty_vault(),
        oracle: vec![],
    };
    let action = d.deposit(
        5,
        &DepositBumps { vault: 1 },
        Event::Transferred(Err(transfer_failure())),
    );
    assert_eq!(
        action,
        Action::Finish(Err(InstructionError::Transfer(transfer_failure())))
    );
    assert_eq!(d.vault, empty_vault());
}

#[test]
fn deposit_records_owner_and_adds_to_totals() {
    let vault = vault_with(other_key(), 3, 2);
    let mut d = Deposit {
        user: user_key(),
        user_balance: 1_000_000,
        vault,
        oracle: vec![],
    };
    let action = d.deposit(5, &DepositBumps { vault: 9 }, Event::Transferred(Ok(())));
    assert_eq!(action, Action::Finish(Ok(())));
    assert_eq!(
        d.vault,
        Vault {
            owner: user_key(),
            total_deposits: 8,
            total_available: 7,
            seed: 1,
            bump: 9,
        }
    );
}

#[test]
fn deposit_refuses_zero_amount() {
    let mut d = Deposit {
        user: user_key(),
        user_balance: 1_000_000,
        vault: empty_vault(),
        oracle: oracle(1, 0, true).serialize(),
    };
    assert_eq!(
        d.deposit(0, &DepositBumps { vault: 1 }, Event::Start),
        refused(ErrorCode::ZeroDepositAmount)
    );
    assert_eq!(d.vault, empty_vault());
}

#[test]
fn deposit_refuses_more_than_balance() {
    let mut d = Deposit {
        user: user_key(),
        user_balance: 14,
        vault: empty_vault(),
        oracle: oracle(1, 0, true).serialize(),
    };
    assert_eq!(
        d.deposit(15, &DepositBumps { vault: 1 }, Event::Start),
        refused(ErrorCode::InsufficientBalance)
    );
    assert_eq!(d.vault, empty_vault());
    assert_eq!(
        d.deposit(14, &DepositBumps { vault: 1 }, Event::Start),
        Action::Transfer(TokenTransfer {
            direction: TransferDirection::UserToVault,
            amount: 14
        })
    );
}

#[test]
fn deposit_checks_oracle_before_amount() {
    let mut d = Deposit {
        user: user_key(),
        user_balance: 0,
        vault: empty_vault(),
        oracle: oracle(1, 0, false).serialize(),
    };
    assert_eq!(
        d.deposit(0, &DepositBumps { vault: 1 }, Event::Start),
        refused(ErrorCode::OracleInvalid)
    );
}

#[test]
fn deposit_ignores_price() {
    for o in [oracle(1, 0, true), oracle(9_000_000, -3, true), oracle(5, 30, true)] {
        let mut d = Deposit {
            user: user_key(),
            user_balance: 100,
            vault: empty_vault(),
            oracle: o.serialize(),
        };
        assert_eq!(
            d.deposit(40, &DepositBumps { vault: 1 }, Event::Start),
            Action::Transfer(TokenTransfer {
                direction: TransferDirection::UserToVault,
                amount: 40
            })
        );
    }
}

#[test]
fn withdraw_at_unit_price_undoes_deposit() {
    let start = vault_with(user_key(), 40, 40);
    let mut d = Deposit {
        user: user_key(),
        user_balance: 100,
        vault: start,
        oracle: oracle(1, 0, true).serialize(),
    };
    let bumps = DepositBumps { vault: 250 };
    d.deposit(25, &bumps, Event::Start);
    d.deposit(25, &bumps, Event::Transferred(Ok(())));
    let mut w = withdraw_of(d.vault, oracle(1_000, -3, true).serialize());
    assert_eq!(
        w.withdraw(25, Event::Start),
        Action::Transfer(TokenTransfer {
            direction: TransferDirection::VaultToUser,
            amount: 25
        })
    );
    assert_eq!(w.withdraw(25, Event::Transferred(Ok(()))), Action::Finish(Ok(())));
    assert_eq!(w.vault, start);
}

#[test]
fn withdraw_after_deposit_restores_totals() {
    let start = vault_with(user_key(), 40, 40);
    let mut d = Deposit {
        user: user_key(),
        user_balance: 1_000_000,
        vault: start,
        oracle: vec![],
    };
    d.deposit(25, &DepositBumps { vault: 250 }, Event::Transferred(Ok(())));
    let mut w = withdraw_of(d.vault, vec![]);
    assert_eq!(w.withdraw(25, Event::Transferred(Ok(()))), Action::Finish(Ok(())));
    assert_eq!(w.vault, start);
}

#[test]
fn totals_move_together() {
    let start = vault_with(user_key(), 40, 30);
    let mut d = Deposit {
        user: user_key(),
        user_balance: 1_000_000,
        vault: start,
        oracle: vec![],
    };
    d.deposit(7, &DepositBumps { vault: 250 }, Event::Transferred(Ok(())));
    assert_eq!(d.vault.total_deposits - d.vault.total_available, 10);
    let mut w = withdraw_of(d.vault, vec![]);
    w.withdraw(12, Event::Transferred(Ok(())));
    assert_eq!(w.vault.total_deposits - w.vault.total_available, 10);
}

#[test]
fn account_sizes() {
    assert_eq!(Vault::SPACE, 65);
    assert_eq!(Oracle::INIT_SPACE, 70);
}
