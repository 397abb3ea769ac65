use anchor_lang::prelude::Pubkey as SolKey;
use solana_security_demos::account::{AccountInfo, ConstraintError, InstructionError, Pubkey};
use solana_security_demos::missing_account_validation::{
    deposit, initialize_vault, load_vault, secure_withdraw, vulnerable_withdraw, Deposit,
    InitializeVault, SecureWithdraw, Vault, VaultError, VulnerableWithdraw, VAULT_DATA_LEN,
};

const PROGRAM: [u8; 32] = [7u8; 32];

fn key(b: u8) -> Pubkey {
    Pubkey::new([b; 32])
}

fn pda(seeds: &[&[u8]]) -> (Pubkey, u8) {
    let (k, b) = SolKey::find_program_address(seeds, &SolKey::new_from_array(PROGRAM));
    (Pubkey::new(k.to_bytes()), b)
}

fn system() -> Pubkey {
    key(0)
}

fn signer(k: Pubkey, lamports: u64) -> AccountInfo {
    AccountInfo::new(k, system(), true, lamports, vec![])
}

fn unsigned(k: Pubkey, lamports: u64) -> AccountInfo {
    AccountInfo::new(k, system(), false, lamports, vec![])
}

/// A vault of `owner` created by `initialize_vault`, with its lamport account.
fn created_vault(owner: Pubkey) -> (AccountInfo, AccountInfo) {
    let (vault_key, _) = pda(&[b"vault", &owner.bytes]);
    let (pda_key, _) = pda(&[b"vault_pda", &owner.bytes]);
    let mut accounts = InitializeVault {
        vault: unsigned(vault_key, 0),
        vault_pda: unsigned(pda_key, 0),
        owner: signer(owner, 1_000),
    };
    initialize_vault(&mut accounts, &key(7)).unwrap();
    (accounts.vault, accounts.vault_pda)
}

fn discriminator() -> Vec<u8> {
    anchor_lang::solana_program::hash::hash(b"account:Vault").to_bytes()[..8].to_vec()
}

#[test]
fn vault_discriminator_is_digest_prefix() {
    assert_eq!(Vault::discriminator(), discriminator());
}

#[test]
fn vault_bytes_layout() {
    let v = Vault { owner: key(3), balance: 0x0102, bump: 254 };
    let bytes = v.to_bytes();
    assert_eq!(bytes.len(), VAULT_DATA_LEN);
    assert_eq!(bytes[..8].to_vec(), discriminator());
    assert_eq!(bytes[8..40].to_vec(), vec![3u8; 32]);
    assert_eq!(bytes[40..48].to_vec(), vec![2u8, 1, 0, 0, 0, 0, 0, 0]);
    assert_eq!(bytes[48], 254);
}

#[test]
fn initialize_vault_records_owner_and_canonical_bump() {
    let owner = key(1);
    let (_, bump) = pda(&[b"vault", &owner.bytes]);
    let (vault, _) = created_vault(owner);
    assert!(vault.owner == key(7));
    let loaded = load_vault(&vault, &key(7)).unwrap();
    assert!(loaded.owner == owner);
    assert_eq!(loaded.balance, 0);
    assert_eq!(loaded.bump, bump);
}

#[test]
fn initialize_vault_twice_fails() {
    let owner = key(1);
    let (vault, vault_pda) = created_vault(owner);
    let mut again = InitializeVault { vault, vault_pda, owner: signer(owner, 10) };
    assert_eq!(
        initialize_vault(&mut again, &key(7)),
        Err(InstructionError::Constraint(ConstraintError::AccountAlreadyInUse))
    );
}

#[test]
fn initialize_vault_at_wrong_address_fails() {
    let owner = key(1);
    let (pda_key, _) = pda(&[b"vault_pda", &owner.bytes]);
    let mut accounts = InitializeVault {
        vault: unsigned(key(9), 0),
        vault_pda: unsigned(pda_key, 0),
        owner: signer(owner, 10),
    };
    let before = accounts.clone();
    assert_eq!(
        initialize_vault(&mut accounts, &key(7)),
        Err(InstructionError::Constraint(ConstraintError::ConstraintSeeds))
    );
    assert_eq!(accounts.vault.data, before.vault.data);
}

#[test]
fn deposit_moves_lamports_and_raises_balance() {
    let owner = key(1);
    let (vault, vault_pda) = created_vault(owner);
    let mut accounts = Deposit { vault, vault_pda, owner: signer(owner, 1_000) };
    deposit(&mut accounts, &key(7), 300).unwrap();
    assert_eq!(accounts.owner.lamports, 700);
    assert_eq!(accounts.vault_pda.lamports, 300);
    assert_eq!(load_vault(&accounts.vault, &key(7)).unwrap().balance, 300);
}

#[test]
fn deposit_beyond_payer_lamports_fails() {
    let owner = key(1);
    let (vault, vault_pda) = created_vault(owner);
    let mut accounts = Deposit { vault, vault_pda, owner: signer(owner, 100) };
    assert_eq!(deposit(&mut accounts, &key(7), 101), Err(InstructionError::InsufficientLamports));
    assert_eq!(accounts.owner.lamports, 100);
}

#[test]
fn deposit_overflowing_balance_fails() {
    let owner = key(1);
    let (mut vault, vault_pda) = created_vault(owner);
    let stored = load_vault(&vault, &key(7)).unwrap();
    vault.data = Vault { owner, balance: u64::MAX - 5, bump: stored.bump }.to_bytes();
    let mut accounts = Deposit { vault, vault_pda, owner: signer(owner, 100) };
    assert_eq!(deposit(&mut accounts, &key(7), 6), Err(InstructionError::ArithmeticOverflow));
}

#[test]
fn deposit_by_someone_else_fails() {
    let owner = key(1);
    let (vault, vault_pda) = created_vault(owner);
    let mut accounts = Deposit { vault, vault_pda, owner: signer(key(2), 100) };
    assert_eq!(
        deposit(&mut accounts, &key(7), 1),
        Err(InstructionError::Constraint(ConstraintError::ConstraintSeeds))
    );
}

/// A record forged by an attacker: any owner program, any discriminator.
fn forged_vault(attacker: Pubkey, balance: u64) -> AccountInfo {
    let mut data = vec![0u8; 8];
    data.extend_from_slice(&attacker.bytes);
    data.extend_from_slice(&balance.to_le_bytes());
    data.push(0);
    AccountInfo::new(key(66), attacker, false, 1, data)
}

#[test]
fn vulnerable_withdraw_trusts_forged_vault() {
    let attacker = key(6);
    let victim_pda = AccountInfo::new(key(50), system(), false, 5_000, vec![]);
    let mut accounts = VulnerableWithdraw {
        vault: forged_vault(attacker, u64::MAX),
        vault_pda: victim_pda,
        withdrawer: signer(attacker, 0),
    };
    assert_eq!(vulnerable_withdraw(&mut accounts, 5_000), Ok(()));
    assert_eq!(accounts.vault_pda.lamports, 0);
    assert_eq!(accounts.withdrawer.lamports, 5_000);
}

#[test]
fn vulnerable_withdraw_checks_only_record_fields() {
    let attacker = key(6);
    let mut accounts = VulnerableWithdraw {
        vault: forged_vault(key(8), 10),
        vault_pda: unsigned(key(50), 100),
        withdrawer: signer(attacker, 0),
    };
    assert_eq!(
        vulnerable_withdraw(&mut accounts, 5),
        Err(InstructionError::Custom(VaultError::UnauthorizedWithdrawal))
    );
    accounts.vault = forged_vault(attacker, 10);
    assert_eq!(
        vulnerable_withdraw(&mut accounts, 11),
        Err(InstructionError::Custom(VaultError::InsufficientFunds))
    );
    accounts.vault.data.truncate(48);
    assert_eq!(
        vulnerable_withdraw(&mut accounts, 1),
        Err(InstructionError::Custom(VaultError::InvalidVaultData))
    );
    let reader = VulnerableWithdraw {
        vault: forged_vault(attacker, 42),
        vault_pda: unsigned(key(50), 0),
        withdrawer: signer(attacker, 0),
    };
    assert_eq!(reader.vault().unwrap().balance, 42);
}

#[test]
fn secure_withdraw_rejects_forged_vault() {
    let attacker = key(6);
    let (pda_key, _) = pda(&[b"vault_pda", &attacker.bytes]);
    let mut accounts = SecureWithdraw {
        vault: forged_vault(attacker, u64::MAX),
        vault_pda: unsigned(pda_key, 5_000),
        owner: unsigned(attacker, 0),
        withdrawer: signer(attacker, 0),
    };
    assert_eq!(
        secure_withdraw(&mut accounts, &key(7), 5_000),
        Err(InstructionError::Constraint(ConstraintError::AccountOwnedByWrongProgram))
    );
    let mut wrong_tag = forged_vault(attacker, 1);
    wrong_tag.owner = key(7);
    accounts.vault = wrong_tag;
    assert_eq!(
        secure_withdraw(&mut accounts, &key(7), 1),
        Err(InstructionError::Constraint(ConstraintError::AccountDiscriminatorMismatch))
    );
    assert_eq!(accounts.vault_pda.lamports, 5_000);
}

fn funded_vault(owner: Pubkey, amount: u64) -> (AccountInfo, AccountInfo) {
    let (vault, vault_pda) = created_vault(owner);
    let mut accounts = Deposit { vault, vault_pda, owner: signer(owner, amount) };
    deposit(&mut accounts, &key(7), amount).unwrap();
    (accounts.vault, accounts.vault_pda)
}

#[test]
fn secure_withdraw_rejects_other_withdrawer() {
    let owner = key(1);
    let (vault, vault_pda) = funded_vault(owner, 500);
    let mut accounts = SecureWithdraw {
        vault,
        vault_pda,
        owner: unsigned(owner, 0),
        withdrawer: signer(key(6), 0),
    };
    assert_eq!(
        secure_withdraw(&mut accounts, &key(7), 100),
        Err(InstructionError::Custom(VaultError::UnauthorizedWithdrawal))
    );
    assert_eq!(accounts.vault_pda.lamports, 500);
    assert_eq!(accounts.withdrawer.lamports, 0);
}

#[test]
fn secure_withdraw_by_owner() {
    let owner = key(1);
    let (vault, vault_pda) = funded_vault(owner, 500);
    let mut accounts = SecureWithdraw {
        vault,
        vault_pda,
        owner: unsigned(owner, 0),
        withdrawer: signer(owner, 0),
    };
    assert_eq!(
        secure_withdraw(&mut accounts, &key(7), 501),
        Err(InstructionError::Custom(VaultError::InsufficientFunds))
    );
    assert_eq!(secure_withdraw(&mut accounts, &key(7), 200), Ok(()));
    assert_eq!(accounts.vault_pda.lamports, 300);
    assert_eq!(accounts.withdrawer.lamports, 200);
    assert_eq!(load_vault(&accounts.vault, &key(7)).unwrap().balance, 300);
}

#[test]
fn secure_withdraw_needs_signature() {
    let owner = key(1);
    let (vault, vault_pda) = funded_vault(owner, 500);
    let mut accounts = SecureWithdraw {
        vault,
        vault_pda,
        owner: unsigned(owner, 0),
        withdrawer: unsigned(owner, 0),
    };
    assert_eq!(
        secure_withdraw(&mut accounts, &key(7), 1),
        Err(InstructionError::Constraint(ConstraintError::AccountNotSigner))
    );
}

#[test]
fn load_vault_errors() {
    let empty_system = AccountInfo::new(key(1), system(), false, 0, vec![]);
    assert_eq!(load_vault(&empty_system, &key(7)).unwrap_err(), ConstraintError::AccountNotInitialized);
    let short = AccountInfo::new(key(1), key(7), false, 1, vec![1, 2, 3]);
    assert_eq!(load_vault(&short, &key(7)).unwrap_err(), ConstraintError::AccountDiscriminatorNotFound);
    let mut truncated = discriminator();
    truncated.extend_from_slice(&[0u8; 40]);
    let cut = AccountInfo::new(key(1), key(7), false, 1, truncated);
    assert_eq!(load_vault(&cut, &key(7)).unwrap_err(), ConstraintError::AccountDidNotDeserialize);
}
