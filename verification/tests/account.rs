use telegram_wallet::{
    Address, Error, SignatureVerification, TelegramSmartAccount, TokenError, TokenLedger,
};

#[test]
fn test_uninitialized_account_rejects_everything() {
    let mut account = TelegramSmartAccount::new(Address { id: 7 });
    let mut ledger = TokenLedger::new();

    assert_eq!(account.get_telegram_user_id(), Err(Error::TelegramIdNotSet));

    let transfer = account.transfer_xlm(
        &mut ledger,
        SignatureVerification { telegram_user_id: 42, nonce: 1, signature: vec![0u8; 64] },
        Address { id: 9 },
        1,
    );
    assert_eq!(transfer, Err(Error::TelegramIdNotSet));

    let rotate = account.rotate_owner(
        SignatureVerification { telegram_user_id: 42, nonce: 2, signature: vec![0u8; 64] },
        Address { id: 9 },
    );
    assert_eq!(rotate, Err(Error::TelegramIdNotSet));
    assert_eq!(account.owner(), None);
}

#[test]
fn test_initialize_binds_exactly_once() {
    let mut account = TelegramSmartAccount::new(Address { id: 1 });
    let owner = Address { id: 100 };

    assert_eq!(account.initialize(42, owner), Ok(()));
    assert_eq!(account.get_telegram_user_id(), Ok(42));
    assert_eq!(account.owner(), Some(owner));

    let again = account.initialize(43, Address { id: 101 });
    assert_eq!(again, Err(Error::AlreadyInitialized));
    assert_eq!(account.get_telegram_user_id(), Ok(42));
    assert_eq!(account.owner(), Some(owner));
}

#[test]
fn test_mismatched_proof_is_rejected_without_mutation() {
    let mut account = TelegramSmartAccount::new(Address { id: 1 });
    let owner = Address { id: 100 };
    account.initialize(42, owner).unwrap();

    let mut ledger = TokenLedger::new();
    ledger.mint(account.address(), 100).unwrap();
    let destination = Address { id: 200 };

    let transfer = account.transfer_xlm(
        &mut ledger,
        SignatureVerification { telegram_user_id: 7, nonce: 1, signature: vec![0u8; 64] },
        destination,
        30,
    );
    assert_eq!(transfer, Err(Error::InvalidSignature));
    assert_eq!(ledger.balance(account.address()), 100);
    assert_eq!(ledger.balance(destination), 0);

    let rotate = account.rotate_owner(
        SignatureVerification { telegram_user_id: 7, nonce: 2, signature: vec![0u8; 64] },
        Address { id: 101 },
    );
    assert_eq!(rotate, Err(Error::InvalidSignature));
    assert_eq!(account.owner(), Some(owner));
    assert_eq!(account.get_telegram_user_id(), Ok(42));
}

#[test]
fn test_transfer_moves_funds() {
    let mut account = TelegramSmartAccount::new(Address { id: 1 });
    account.initialize(42, Address { id: 100 }).unwrap();

    let mut ledger = TokenLedger::new();
    ledger.mint(account.address(), 100).unwrap();
    let destination = Address { id: 200 };

    let transfer = account.transfer_xlm(
        &mut ledger,
        SignatureVerification { telegram_user_id: 42, nonce: 1, signature: vec![0u8; 64] },
        destination,
        30,
    );
    assert_eq!(transfer, Ok(()));
    assert_eq!(ledger.balance(account.address()), 70);
    assert_eq!(ledger.balance(destination), 30);
}

#[test]
fn test_transfer_insufficient_balance_is_distinct_and_harmless() {
    let mut account = TelegramSmartAccount::new(Address { id: 1 });
    account.initialize(42, Address { id: 100 }).unwrap();

    let mut ledger = TokenLedger::new();
    ledger.mint(account.address(), 10).unwrap();
    let destination = Address { id: 200 };

    let transfer = account.transfer_xlm(
        &mut ledger,
        SignatureVerification { telegram_user_id: 42, nonce: 1, signature: vec![0u8; 64] },
        destination,
        11,
    );
    assert_eq!(transfer, Err(Error::InsufficientBalance));
    assert_eq!(ledger.balance(account.address()), 10);
    assert_eq!(ledger.balance(destination), 0);
}

#[test]
fn test_transfer_balance_overflow_is_distinct_and_harmless() {
    let mut account = TelegramSmartAccount::new(Address { id: 1 });
    account.initialize(42, Address { id: 100 }).unwrap();

    let mut ledger = TokenLedger::new();
    ledger.mint(account.address(), 5).unwrap();
    let destination = Address { id: 200 };
    ledger.mint(destination, i128::MAX).unwrap();

    let transfer = account.transfer_xlm(
        &mut ledger,
        SignatureVerification { telegram_user_id: 42, nonce: 1, signature: vec![0u8; 64] },
        destination,
        1,
    );
    assert_eq!(transfer, Err(Error::BalanceOverflow));
    assert_eq!(ledger.balance(account.address()), 5);
    assert_eq!(ledger.balance(destination), i128::MAX);
}

#[test]
fn test_mint_overflow_is_refused() {
    let mut ledger = TokenLedger::new();
    let a = Address { id: 3 };

    assert_eq!(ledger.mint(a, i128::MAX), Ok(()));
    assert_eq!(ledger.mint(a, 1), Err(TokenError::BalanceOverflow));
    assert_eq!(ledger.balance(a), i128::MAX);
}

#[test]
fn test_transfer_to_self_changes_nothing() {
    let mut account = TelegramSmartAccount::new(Address { id: 1 });
    account.initialize(42, Address { id: 100 }).unwrap();

    let mut ledger = TokenLedger::new();
    ledger.mint(account.address(), 50).unwrap();

    let transfer = account.transfer_xlm(
        &mut ledger,
        SignatureVerification { telegram_user_id: 42, nonce: 1, signature: vec![0u8; 64] },
        account.address(),
        20,
    );
    assert_eq!(transfer, Ok(()));
    assert_eq!(ledger.balance(account.address()), 50);
}

#[test]
fn test_rotate_owner_then_transfer_under_new_owner() {
    let mut account = TelegramSmartAccount::new(Address { id: 1 });
    let owner_a = Address { id: 100 };
    let owner_b = Address { id: 101 };
    account.initialize(42, owner_a).unwrap();

    let rotate = account.rotate_owner(
        SignatureVerification { telegram_user_id: 42, nonce: 1, signature: vec![0u8; 64] },
        owner_b,
    );
    assert_eq!(rotate, Ok(()));
    assert_eq!(account.owner(), Some(owner_b));
    assert_eq!(account.get_telegram_user_id(), Ok(42));

    let mut ledger = TokenLedger::new();
    ledger.mint(account.address(), 100).unwrap();
    let destination = Address { id: 200 };

    let transfer = account.transfer_xlm(
        &mut ledger,
        SignatureVerification { telegram_user_id: 42, nonce: 2, signature: vec![0u8; 64] },
        destination,
        40,
    );
    assert_eq!(transfer, Ok(()));
    assert_eq!(ledger.balance(account.address()), 60);
    assert_eq!(ledger.balance(destination), 40);
}
