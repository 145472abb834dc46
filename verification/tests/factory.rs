use telegram_wallet::{Address, FactoryContract, FactoryError, IdentityKey};

#[test]
fn test_factory() {
    let mut factory = FactoryContract::new();

    let telegram_uid = IdentityKey::new(vec![0u8; 32]).unwrap();
    let signature = vec![0u8; 64];

    let address = factory.deploy_account(telegram_uid.clone(), signature).unwrap();

    let retrieved_address = factory.get_account(&telegram_uid);

    assert_eq!(retrieved_address, Some(address));
}

#[test]
fn test_redeploy_account() {
    let mut factory = FactoryContract::new();

    let telegram_uid = IdentityKey::new(vec![1u8; 32]).unwrap();
    let signature = vec![2u8; 64];

    factory.deploy_account(telegram_uid.clone(), signature.clone()).unwrap();

    let second = factory.deploy_account(telegram_uid, signature);

    assert_eq!(second, Err(FactoryError::AlreadyProvisioned));
}

#[test]
fn test_get_account_for_unmapped_uid() {
    let factory = FactoryContract::new();

    let unmapped_uid = IdentityKey::new(vec![3u8; 32]).unwrap();

    let retrieved_address = factory.get_account(&unmapped_uid);

    assert_eq!(retrieved_address, None);
}

#[test]
fn test_provision_is_idempotent_in_effect() {
    let mut factory = FactoryContract::new();

    let key = IdentityKey::new(vec![5u8; 32]).unwrap();
    let other = IdentityKey::new(vec![6u8; 32]).unwrap();

    let address = factory.deploy_account(key.clone(), vec![0u8; 64]).unwrap();

    // Provisioning a different key leaves the first mapping untouched.
    factory.deploy_account(other.clone(), vec![0u8; 64]).unwrap();
    assert_eq!(factory.get_account(&key), Some(address));

    // Every subsequent attempt for the same key fails and changes nothing.
    let again = factory.deploy_account(key.clone(), vec![9u8; 64]);
    assert_eq!(again, Err(FactoryError::AlreadyProvisioned));
    assert_eq!(factory.get_account(&key), Some(address));
    assert_eq!(factory.instance_count(), 2);
}

#[test]
fn test_addresses_are_deterministic_and_distinct() {
    let mut factory = FactoryContract::new();

    let first = factory
        .deploy_account(IdentityKey::new(vec![7u8; 32]).unwrap(), vec![0u8; 64])
        .unwrap();
    let second = factory
        .deploy_account(IdentityKey::new(vec![8u8; 32]).unwrap(), vec![0u8; 64])
        .unwrap();

    assert_eq!(first, Address { id: 0 });
    assert_eq!(second, Address { id: 1 });
    assert_ne!(first, second);
    assert_eq!(factory.instance_count(), 2);
}

#[test]
fn test_lookup_unprovisioned_key_after_other_deployments() {
    let mut factory = FactoryContract::new();

    factory
        .deploy_account(IdentityKey::new(vec![0u8; 32]).unwrap(), vec![0u8; 64])
        .unwrap();

    let never_provisioned = IdentityKey::new(vec![3u8; 32]).unwrap();
    assert_eq!(factory.get_account(&never_provisioned), None);
}

#[test]
fn test_identity_key_length_is_enforced() {
    assert!(IdentityKey::new(vec![0u8; 31]).is_none());
    assert!(IdentityKey::new(vec![0u8; 33]).is_none());
    assert!(IdentityKey::new(Vec::new()).is_none());
    assert!(IdentityKey::new(vec![0u8; 32]).is_some());
}

#[test]
fn test_identity_key_matches() {
    let a = IdentityKey::new(vec![4u8; 32]).unwrap();
    let b = IdentityKey::new(vec![4u8; 32]).unwrap();
    let mut raw = vec![4u8; 32];
    raw[31] = 5;
    let c = IdentityKey::new(raw).unwrap();

    assert!(a.matches(&b));
    assert!(!a.matches(&c));
}
