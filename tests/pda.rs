use anchor_lang::prelude::Pubkey as SolKey;
use solana_security_demos::account::{Account, AccountInfo, ConstraintError, InstructionError, Pubkey};
use solana_security_demos::incorrect_pda_derivation::{
    secure_create_escrow, secure_create_pool, secure_create_profile, secure_deposit_to_escrow,
    vulnerable_create_escrow, vulnerable_create_pool, vulnerable_create_profile, CreateEscrow,
    SecureAccessEscrow, SecureCreatePool, SecureCreateProfile, VulnerableCreatePool,
    VulnerableCreateProfile,
};

fn key(b: u8) -> Pubkey {
    Pubkey::new([b; 32])
}

fn pda(seeds: &[&[u8]]) -> (Pubkey, u8) {
    let (k, b) = SolKey::find_program_address(seeds, &SolKey::new_from_array([7u8; 32]));
    (Pubkey::new(k.to_bytes()), b)
}

fn info(k: Pubkey, is_signer: bool) -> AccountInfo {
    AccountInfo::new(k, key(0), is_signer, 0, vec![])
}

#[test]
fn username_profile_goes_to_first_caller() {
    let (profile_key, _) = pda(&[b"profile", b"alice"]);
    let mut attacker = VulnerableCreateProfile {
        profile: Account { key: profile_key, value: None },
        payer: info(key(6), true),
    };
    assert_eq!(vulnerable_create_profile(&mut attacker, &key(7), "alice".to_string(), 5), Ok(()));
    let created = attacker.profile.value.clone().unwrap();
    assert!(created.authority == key(6));
    assert_eq!(created.username, "alice");
    assert_eq!(created.created_at, 5);
    assert_eq!(created.bump, 0);

    let mut victim = VulnerableCreateProfile { profile: attacker.profile, payer: info(key(1), true) };
    assert_eq!(
        vulnerable_create_profile(&mut victim, &key(7), "alice".to_string(), 9),
        Err(InstructionError::Constraint(ConstraintError::AccountAlreadyInUse))
    );
    assert!(victim.profile.value.unwrap().authority == key(6));
}

#[test]
fn overlong_username_has_no_address() {
    let mut accounts = VulnerableCreateProfile {
        profile: Account { key: key(9), value: None },
        payer: info(key(6), true),
    };
    let name = "x".repeat(33);
    assert_eq!(
        vulnerable_create_profile(&mut accounts, &key(7), name, 5),
        Err(InstructionError::Constraint(ConstraintError::ConstraintSeeds))
    );
}

#[test]
fn secure_profile_is_per_signer() {
    let (_, bump) = pda(&[b"profile", &key(1).bytes]);
    let (alice_key, _) = pda(&[b"profile", &key(1).bytes]);
    let mut alice = SecureCreateProfile {
        profile: Account { key: alice_key, value: None },
        authority: info(key(1), true),
    };
    assert_eq!(secure_create_profile(&mut alice, &key(7), "alice".to_string(), 3), Ok(()));
    let p = alice.profile.value.unwrap();
    assert!(p.authority == key(1));
    assert_eq!(p.bump, bump);

    let mut squatter = SecureCreateProfile {
        profile: Account { key: alice_key, value: None },
        authority: info(key(6), true),
    };
    assert_eq!(
        secure_create_profile(&mut squatter, &key(7), "alice".to_string(), 3),
        Err(InstructionError::Constraint(ConstraintError::ConstraintSeeds))
    );
}

#[test]
fn secure_profile_name_must_fit() {
    let (k, _) = pda(&[b"profile", &key(1).bytes]);
    let mut accounts = SecureCreateProfile { profile: Account { key: k, value: None }, authority: info(key(1), true) };
    assert_eq!(
        secure_create_profile(&mut accounts, &key(7), "y".repeat(33), 3),
        Err(InstructionError::Constraint(ConstraintError::AccountDidNotSerialize))
    );
    assert_eq!(secure_create_profile(&mut accounts, &key(7), "y".repeat(32), 3), Ok(()));
}

#[test]
fn pool_names_collide_only_when_unscoped() {
    let (shared, _) = pda(&[b"pool", b"main"]);
    let mut first = VulnerableCreatePool { pool: Account { key: shared, value: None }, authority: info(key(1), true) };
    assert_eq!(vulnerable_create_pool(&mut first, &key(7), "main".to_string()), Ok(()));
    assert!(first.pool.value.as_ref().unwrap().is_active);
    let mut second = VulnerableCreatePool { pool: first.pool.clone(), authority: info(key(2), true) };
    assert_eq!(
        vulnerable_create_pool(&mut second, &key(7), "main".to_string()),
        Err(InstructionError::Constraint(ConstraintError::AccountAlreadyInUse))
    );

    let (own, bump) = pda(&[b"pool", &key(2).bytes, b"main"]);
    let mut scoped = SecureCreatePool { pool: Account { key: own, value: None }, authority: info(key(2), true) };
    assert_eq!(secure_create_pool(&mut scoped, &key(7), "main".to_string()), Ok(()));
    let p = scoped.pool.value.unwrap();
    assert_eq!(p.bump, bump);
    assert_eq!(p.pool_name, "main");
    assert_eq!(p.total_deposits, 0);
}

fn escrow_accounts(id: u64) -> CreateEscrow {
    let (k, _) = pda(&[b"escrow", &key(1).bytes, &key(2).bytes, &id.to_le_bytes()]);
    CreateEscrow {
        escrow: Account { key: k, value: None },
        creator: info(key(1), true),
        recipient: info(key(2), false),
    }
}

#[test]
fn vulnerable_escrow_stores_caller_bump() {
    let mut accounts = escrow_accounts(42);
    let (_, canonical) = pda(&[b"escrow", &key(1).bytes, &key(2).bytes, &42u64.to_le_bytes()]);
    let chosen = canonical.wrapping_sub(1);
    assert_eq!(vulnerable_create_escrow(&mut accounts, &key(7), 42, chosen), Ok(()));
    let e = accounts.escrow.value.unwrap();
    assert_eq!(e.bump, chosen);
    assert_eq!(e.escrow_id, 42);

    let mut deposit = SecureAccessEscrow {
        escrow: Account { key: accounts.escrow.key, value: e },
        creator: info(key(1), true),
    };
    assert_eq!(
        secure_deposit_to_escrow(&mut deposit, &key(7), 10),
        Err(InstructionError::Constraint(ConstraintError::ConstraintSeeds))
    );
}

#[test]
fn secure_escrow_round_trip() {
    let mut accounts = escrow_accounts(42);
    let (_, canonical) = pda(&[b"escrow", &key(1).bytes, &key(2).bytes, &42u64.to_le_bytes()]);
    assert_eq!(secure_create_escrow(&mut accounts, &key(7), 42), Ok(()));
    let e = accounts.escrow.value.unwrap();
    assert_eq!(e.bump, canonical);
    assert!(e.creator == key(1));
    assert!(e.recipient == key(2));

    let mut deposit = SecureAccessEscrow {
        escrow: Account { key: accounts.escrow.key, value: e },
        creator: info(key(1), true),
    };
    assert_eq!(secure_deposit_to_escrow(&mut deposit, &key(7), 10), Ok(()));
    assert_eq!(secure_deposit_to_escrow(&mut deposit, &key(7), 5), Ok(()));
    assert_eq!(deposit.escrow.value.amount, 15);
    assert_eq!(
        secure_deposit_to_escrow(&mut deposit, &key(7), u64::MAX),
        Err(InstructionError::ArithmeticOverflow)
    );

    deposit.creator = info(key(2), true);
    assert_eq!(
        secure_deposit_to_escrow(&mut deposit, &key(7), 1),
        Err(InstructionError::Constraint(ConstraintError::ConstraintHasOne))
    );
}

#[test]
fn escrow_for_other_id_is_rejected() {
    let mut accounts = escrow_accounts(42);
    assert_eq!(
        secure_create_escrow(&mut accounts, &key(7), 43),
        Err(InstructionError::Constraint(ConstraintError::ConstraintSeeds))
    );
}
