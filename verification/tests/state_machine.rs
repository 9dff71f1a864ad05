use alpha_token::config::{
    initialize, renounce_ownership, Config, ConfigStore, Initialize, RenounceOwnership,
};
use alpha_token::error::ErrorCode;
use alpha_token::identity::Identity;
use alpha_token::tax::split_amount;
use alpha_token::transfer::{transfer_with_tax, LedgerMove, TransferWithTax};

fn id(tag: u8) -> Identity {
    Identity::new([tag; 32])
}

fn live_config() -> Config {
    Config {
        tax_wallet: id(3),
        authority: id(4),
        is_renounced: false,
    }
}

fn accounts() -> TransferWithTax {
    TransferWithTax {
        from: id(1),
        to: id(2),
        tax_wallet: id(3),
        authority: id(4),
    }
}

#[test]
fn split_keeps_every_unit() {
    for amount in [0u64, 1, 19, 20, 21, 99, 100, 101, 12345, u64::MAX] {
        let (tax, rest) = split_amount(amount);
        assert_eq!(tax, ((amount as u128) * 5 / 100) as u64);
        assert_eq!(tax + rest, amount);
        assert!(tax <= amount);
    }
}

#[test]
fn split_of_hundred() {
    assert_eq!(split_amount(100), (5, 95));
}

#[test]
fn split_truncates_below_twenty() {
    assert_eq!(split_amount(19), (0, 19));
    assert_eq!(split_amount(1), (0, 1));
    assert_eq!(split_amount(20), (1, 19));
}

#[test]
fn split_of_largest_amount() {
    let (tax, rest) = split_amount(u64::MAX);
    assert_eq!(tax, u64::MAX / 20);
    assert_eq!(tax + rest, u64::MAX);
}

#[test]
fn transfer_of_hundred_plans_tax_then_recipient() {
    let plan = transfer_with_tax(&live_config(), &accounts(), 100).unwrap();
    assert_eq!(plan.len(), 2);
    assert_eq!(
        plan[0],
        LedgerMove {
            from: id(1),
            to: id(3),
            amount: 5,
            authorized_by: id(4),
        }
    );
    assert_eq!(
        plan[1],
        LedgerMove {
            from: id(1),
            to: id(2),
            amount: 95,
            authorized_by: id(4),
        }
    );
}

#[test]
fn transfer_of_nineteen_skips_the_tax_move() {
    let plan = transfer_with_tax(&live_config(), &accounts(), 19).unwrap();
    assert_eq!(plan.len(), 1);
    assert_eq!(
        plan[0],
        LedgerMove {
            from: id(1),
            to: id(2),
            amount: 19,
            authorized_by: id(4),
        }
    );
}

#[test]
fn transfer_of_zero_plans_no_move_and_succeeds() {
    let plan = transfer_with_tax(&live_config(), &accounts(), 0).unwrap();
    assert!(plan.is_empty());
}

#[test]
fn transfer_on_renounced_config_fails() {
    let renounced = Config {
        is_renounced: true,
        ..live_config()
    };
    for amount in [0u64, 19, 100] {
        assert_eq!(
            transfer_with_tax(&renounced, &accounts(), amount),
            Err(ErrorCode::ContractRenounced)
        );
    }
}

#[test]
fn transfer_with_wrong_tax_wallet_fails() {
    let mut accs = accounts();
    accs.tax_wallet = id(9);
    for amount in [0u64, 19, 100, u64::MAX] {
        assert_eq!(
            transfer_with_tax(&live_config(), &accs, amount),
            Err(ErrorCode::InvalidTaxWallet)
        );
    }
}

#[test]
fn initialize_twice_fails_and_keeps_the_first_record() {
    let mut store = ConfigStore::empty();
    let first = initialize(&mut store, &Initialize { authority: id(4) }, id(3));
    assert_eq!(first, Ok(()));
    assert_eq!(
        store.config,
        Some(Config {
            tax_wallet: id(3),
            authority: id(4),
            is_renounced: false,
        })
    );

    let second = initialize(&mut store, &Initialize { authority: id(7) }, id(8));
    assert_eq!(second, Err(ErrorCode::AlreadyInitialized));
    assert_eq!(
        store.config,
        Some(Config {
            tax_wallet: id(3),
            authority: id(4),
            is_renounced: false,
        })
    );
}

#[test]
fn renounce_by_stranger_fails_and_changes_nothing() {
    let mut config = live_config();
    let r = renounce_ownership(&mut config, &RenounceOwnership { authority: id(9) });
    assert_eq!(r, Err(ErrorCode::Unauthorized));
    assert_eq!(config, live_config());
}

#[test]
fn renounce_by_authority_sets_the_flag_for_good() {
    let mut config = live_config();
    let r = renounce_ownership(&mut config, &RenounceOwnership { authority: id(4) });
    assert_eq!(r, Ok(()));
    assert!(config.is_renounced);
    assert_eq!(config.tax_wallet, id(3));
    assert_eq!(config.authority, id(4));

    // A repeated call by the authority is an accepted no-op.
    let again = renounce_ownership(&mut config, &RenounceOwnership { authority: id(4) });
    assert_eq!(again, Ok(()));
    assert!(config.is_renounced);

    // A stranger still cannot touch the record, and nothing clears the flag.
    let stranger = renounce_ownership(&mut config, &RenounceOwnership { authority: id(9) });
    assert_eq!(stranger, Err(ErrorCode::Unauthorized));
    assert!(config.is_renounced);
}

#[test]
fn renounce_then_transfer_fails() {
    let mut store = ConfigStore::empty();
    initialize(&mut store, &Initialize { authority: id(4) }, id(3)).unwrap();
    let mut config = store.config.unwrap();
    renounce_ownership(&mut config, &RenounceOwnership { authority: id(4) }).unwrap();
    assert_eq!(
        transfer_with_tax(&config, &accounts(), 100),
        Err(ErrorCode::ContractRenounced)
    );
}

#[test]
fn error_messages_name_the_failure() {
    assert_eq!(ErrorCode::ContractRenounced.message(), "Contract has been renounced");
    assert_eq!(ErrorCode::Unauthorized.message(), "Unauthorized");
    assert_eq!(ErrorCode::InvalidTaxWallet.message(), "Invalid tax wallet");
    assert_eq!(ErrorCode::MathOverflow.message(), "Math overflow");
    assert_eq!(ErrorCode::AlreadyInitialized.message(), "Already initialized");
}

#[test]
fn identities_compare_by_bytes() {
    assert_eq!(id(5), id(5));
    assert_ne!(id(5), id(6));
    let mut bytes = [5u8; 32];
    bytes[31] = 6;
    assert_ne!(Identity::new(bytes), id(5));
}
