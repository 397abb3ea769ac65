//! A lamport vault. The unchecked withdrawal reads the vault record from any
//! account without checking its owner program, discriminator or address; the
//! checked one loads the record only from a vault this program created for
//! the withdrawer.
use vstd::prelude::*;
use crate::account::{
    canonical_bump, check_canonical_pda, lemma_canonical_has_bump, check_pda_with_bump, check_signer, check_system_owned, check_unused,
    is_canonical_pda, is_pda_with_bump, is_unused, le_bytes, le_value, lemma_le_round_trip,
    seeds2, sha256, sha256_of, system_program_bytes, u64_from_le, u64_to_le, AccountInfo,
    ConstraintError, InstructionError, Pubkey,
};

verus! {

/// The record kept for each vault.
#[derive(Clone, Copy, Debug)]
pub struct Vault {
    /// The owner who can withdraw from this vault.
    pub owner: Pubkey,
    /// The balance recorded by the vault.
    pub balance: u64,
    /// The bump of the vault's address.
    pub bump: u8,
}

#[derive(Clone, Copy, Debug, PartialEq, Eq, Structural)]
pub enum VaultError {
    UnauthorizedWithdrawal,
    InsufficientFunds,
    InvalidVaultData,
}

pub type VaultResult = Result<(), InstructionError<VaultError>>;

/// Length of a stored vault: discriminator, owner, balance, bump.
pub const VAULT_DATA_LEN: usize = 49;

/// The seed `b"vault"`.
pub open spec fn vault_seed() -> Seq<u8> {
    seq![118u8, 97, 117, 108, 116]
}

/// The seed `b"vault_pda"`.
pub open spec fn vault_pda_seed() -> Seq<u8> {
    seq![118u8, 97, 117, 108, 116, 95, 112, 100, 97]
}

/// The text `account:Vault`, whose digest starts with the vault discriminator.
pub open spec fn vault_type_tag() -> Seq<u8> {
    seq![97u8, 99, 99, 111, 117, 110, 116, 58, 86, 97, 117, 108, 116]
}

/// The eight bytes that open every stored vault.
pub open spec fn vault_discriminator() -> Seq<u8> {
    Seq::new(8, |i: int| sha256_of(vault_type_tag())[i])
}

/// The stored form of a vault.
pub open spec fn vault_layout(owner: Seq<u8>, balance: u64, bump: u8) -> Seq<u8> {
    vault_discriminator() + owner + le_bytes(balance) + seq![bump]
}

/// `v` is the vault read from the bytes after the discriminator of `data`.
pub open spec fn decodes_to(data: Seq<u8>, v: Vault) -> bool {
    &&& data.len() >= VAULT_DATA_LEN
    &&& v.owner@ == data.subrange(8, 40)
    &&& v.balance == le_value(data, 40)
    &&& v.bump == data[48]
}

/// The owner recorded in stored vault data.
pub open spec fn stored_owner(data: Seq<u8>) -> Seq<u8> {
    data.subrange(8, 40)
}

/// The balance recorded in stored vault data.
pub open spec fn stored_balance(data: Seq<u8>) -> u64 {
    le_value(data, 40)
}

/// The bump recorded in stored vault data.
pub open spec fn stored_bump(data: Seq<u8>) -> u8 {
    data[48]
}

/// Why an account cannot be loaded as a vault of `program`, if it cannot.
pub open spec fn vault_load_error(info: AccountInfo, program: Seq<u8>) -> Option<ConstraintError> {
    let data = info.data@;
    if info.owner@ == system_program_bytes() && info.lamports == 0 {
        Some(ConstraintError::AccountNotInitialized)
    } else if info.owner@ != program {
        Some(ConstraintError::AccountOwnedByWrongProgram)
    } else if data.len() < 8 {
        Some(ConstraintError::AccountDiscriminatorNotFound)
    } else if data.subrange(0, 8) != vault_discriminator() {
        Some(ConstraintError::AccountDiscriminatorMismatch)
    } else if data.len() < VAULT_DATA_LEN {
        Some(ConstraintError::AccountDidNotDeserialize)
    } else {
        None
    }
}

impl Vault {
    /// The vault discriminator: the first eight bytes of the digest of `account:Vault`.
    pub fn discriminator() -> (r: Vec<u8>)
        ensures
            r@ == vault_discriminator(),
    {
        let tag: Vec<u8> = vec![97u8, 99, 99, 111, 117, 110, 116, 58, 86, 97, 117, 108, 116];
        proof {
            assert(tag@ =~= vault_type_tag());
        }
        let digest = sha256(&tag);
        let mut r: Vec<u8> = Vec::new();
        let mut i: usize = 0;
        while i < 8
            invariant
                0 <= i <= 8,
                digest@.len() == 32,
                digest@ == sha256_of(vault_type_tag()),
            r@ =~= Seq::new(i as nat, |j: int| sha256_of(vault_type_tag())[j]),
            decreases 8 - i,
        {
            r.push(digest[i]);
            i = i + 1;
        }
        r
    }

    /// The stored form of the vault.
    pub fn to_bytes(&self) -> (r: Vec<u8>)
        ensures
            r@ == vault_layout(self.owner@, self.balance, self.bump),
            r@.len() == VAULT_DATA_LEN,
    {
        let mut r = Vault::discriminator();
        let mut owner = self.owner.to_vec();
        r.append(&mut owner);
        let mut balance = u64_to_le(self.balance);
        r.append(&mut balance);
        r.push(self.bump);
        proof {
            assert(r@ =~= vault_layout(self.owner@, self.balance, self.bump));
        }
        r
    }

    /// Reads the vault that follows the discriminator of `data`, without
    /// looking at the discriminator.
    fn decode(data: &Vec<u8>) -> (r: Vault)
        requires
            data@.len() >= VAULT_DATA_LEN,
        ensures
            decodes_to(data@, r),
    {
        let owner = Pubkey::read(data.as_slice(), 8);
        let balance = u64_from_le(data.as_slice(), 40);
        Vault { owner, balance, bump: data[48] }
    }
}

/// Stored vault data reads back as the vault it was written from.
pub proof fn lemma_vault_round_trip(v: Vault)
    ensures
        decodes_to(vault_layout(v.owner@, v.balance, v.bump), v),
        vault_layout(v.owner@, v.balance, v.bump).subrange(0, 8) == vault_discriminator(),
{
    let d = vault_layout(v.owner@, v.balance, v.bump);
    lemma_le_round_trip(v.balance);
    assert(v.owner@.len() == 32);
    assert(d.subrange(8, 40) =~= v.owner@);
    assert(d.subrange(0, 8) =~= vault_discriminator());
    assert(le_bytes(v.balance) =~= d.subrange(40, 48));
    assert(le_value(d, 40) == le_value(le_bytes(v.balance), 0));
}

/// Loads a vault the way a typed account is loaded: the account must belong
/// to `program_id` and its data must open with the vault discriminator.
pub fn load_vault(info: &AccountInfo, program_id: &Pubkey) -> (r: Result<Vault, ConstraintError>)
    ensures
        match vault_load_error(*info, program_id@) {
            Some(e) => r == Err::<Vault, ConstraintError>(e),
            None => r matches Ok(v) && decodes_to(info.data@, v),
        },
{
    let system = crate::account::system_program_id();
    if info.owner == system && info.lamports == 0 {
        return Err(ConstraintError::AccountNotInitialized);
    }
    if !(info.owner == *program_id) {
        return Err(ConstraintError::AccountOwnedByWrongProgram);
    }
    if info.data.len() < 8 {
        return Err(ConstraintError::AccountDiscriminatorNotFound);
    }
    let disc = Vault::discriminator();
    let mut i: usize = 0;
    while i < 8
        invariant
            0 <= i <= 8,
            info.data@.len() >= 8,
            disc@ == vault_discriminator(),
            !(info.owner@ == system_program_bytes() && info.lamports == 0),
            info.owner@ == program_id@,
            forall|j: int| 0 <= j < i ==> info.data@[j] == disc@[j],
        decreases 8 - i,
    {
        if info.data[i] != disc[i] {
            proof {
                assert(info.data@.subrange(0, 8)[i as int] != vault_discriminator()[i as int]);
            }
            return Err(ConstraintError::AccountDiscriminatorMismatch);
        }
        i = i + 1;
    }
    proof {
        assert(info.data@.subrange(0, 8) =~= disc@);
    }
    if info.data.len() < VAULT_DATA_LEN {
        return Err(ConstraintError::AccountDidNotDeserialize);
    }
    Ok(Vault::decode(&info.data))
}


fn vault_seeds(owner: &Pubkey) -> (r: Vec<Vec<u8>>)
    ensures
        r.deep_view() == seq![vault_seed(), owner@],
{
    let s: Vec<u8> = vec![118u8, 97, 117, 108, 116];
    proof {
        assert(s@ =~= vault_seed());
    }
    seeds2(s, owner.to_vec())
}

fn vault_pda_seeds(owner: &Pubkey) -> (r: Vec<Vec<u8>>)
    ensures
        r.deep_view() == seq![vault_pda_seed(), owner@],
{
    let s: Vec<u8> = vec![118u8, 97, 117, 108, 116, 95, 112, 100, 97];
    proof {
        assert(s@ =~= vault_pda_seed());
    }
    seeds2(s, owner.to_vec())
}

/// The accounts of `initialize_vault`.
#[derive(Clone, Debug)]
pub struct InitializeVault {
    /// The vault record to create, at the address derived from `vault` and the owner.
    pub vault: AccountInfo,
    /// The system account that holds the vault's lamports.
    pub vault_pda: AccountInfo,
    /// The owner, who signs.
    pub owner: AccountInfo,
}

/// The error `initialize_vault` returns on these accounts, if any.
pub open spec fn initialize_vault_error(a: InitializeVault, program: Seq<u8>) -> Option<
    InstructionError<VaultError>,
> {
    if a.vault_pda.owner@ != system_program_bytes() {
        Some(InstructionError::Constraint(ConstraintError::AccountNotSystemOwned))
    } else if !a.owner.is_signer {
        Some(InstructionError::Constraint(ConstraintError::AccountNotSigner))
    } else if !is_canonical_pda(a.vault.key@, seq![vault_seed(), a.owner.key@], program) {
        Some(InstructionError::Constraint(ConstraintError::ConstraintSeeds))
    } else if !is_unused(a.vault) {
        Some(InstructionError::Constraint(ConstraintError::AccountAlreadyInUse))
    } else if !is_canonical_pda(a.vault_pda.key@, seq![vault_pda_seed(), a.owner.key@], program) {
        Some(InstructionError::Constraint(ConstraintError::ConstraintSeeds))
    } else {
        None
    }
}

/// Creates the owner's vault with a zero balance and the canonical bump.
pub fn initialize_vault(accounts: &mut InitializeVault, program_id: &Pubkey) -> (r: VaultResult)
    ensures
        match initialize_vault_error(*old(accounts), program_id@) {
            Some(e) => r == Err::<(), InstructionError<VaultError>>(e) && *final(accounts) == *old(
                accounts,
            ),
            None => {
                &&& r is Ok
                &&& final(accounts).vault.data@ == vault_layout(
                    old(accounts).owner.key@,
                    0,
                    canonical_bump(seq![vault_seed(), old(accounts).owner.key@], program_id@),
                )
                &&& final(accounts).vault.owner == *program_id
                &&& final(accounts).vault.key == old(accounts).vault.key
                &&& final(accounts).vault.lamports == old(accounts).vault.lamports
                &&& final(accounts).vault.is_signer == old(accounts).vault.is_signer
                &&& final(accounts).vault_pda == old(accounts).vault_pda
                &&& final(accounts).owner == old(accounts).owner
            },
        },
{
    if let Err(e) = check_system_owned(&accounts.vault_pda) {
        return Err(InstructionError::Constraint(e));
    }
    if let Err(e) = check_signer(&accounts.owner) {
        return Err(InstructionError::Constraint(e));
    }
    let bump = match check_canonical_pda(&accounts.vault.key, &vault_seeds(&accounts.owner.key), program_id) {
        Ok(b) => b,
        Err(e) => {
            return Err(InstructionError::Constraint(e));
        },
    };
    if let Err(e) = check_unused(&accounts.vault) {
        return Err(InstructionError::Constraint(e));
    }
    if let Err(e) = check_canonical_pda(&accounts.vault_pda.key, &vault_pda_seeds(&accounts.owner.key), program_id) {
        return Err(InstructionError::Constraint(e));
    }
    let vault = Vault { owner: accounts.owner.key, balance: 0, bump };
    accounts.vault.owner = *program_id;
    accounts.vault.data = vault.to_bytes();
    Ok(())
}


/// The accounts of `deposit`.
#[derive(Clone, Debug)]
pub struct Deposit {
    pub vault: AccountInfo,
    pub vault_pda: AccountInfo,
    /// The owner, who signs and pays.
    pub owner: AccountInfo,
}

/// The error `deposit` returns on these accounts, if any.
pub open spec fn deposit_error(a: Deposit, program: Seq<u8>, amount: u64) -> Option<
    InstructionError<VaultError>,
> {
    let data = a.vault.data@;
    match vault_load_error(a.vault, program) {
        Some(e) => Some(InstructionError::Constraint(e)),
        None => if a.vault_pda.owner@ != system_program_bytes() {
            Some(InstructionError::Constraint(ConstraintError::AccountNotSystemOwned))
        } else if !a.owner.is_signer {
            Some(InstructionError::Constraint(ConstraintError::AccountNotSigner))
        } else if !is_pda_with_bump(
            a.vault.key@,
            seq![vault_seed(), a.owner.key@],
            stored_bump(data),
            program,
        ) {
            Some(InstructionError::Constraint(ConstraintError::ConstraintSeeds))
        } else if stored_owner(data) != a.owner.key@ {
            Some(InstructionError::Constraint(ConstraintError::ConstraintHasOne))
        } else if !is_canonical_pda(a.vault_pda.key@, seq![vault_pda_seed(), a.owner.key@], program) {
            Some(InstructionError::Constraint(ConstraintError::ConstraintSeeds))
        } else if a.owner.lamports < amount {
            Some(InstructionError::InsufficientLamports)
        } else if a.vault_pda.lamports + amount > u64::MAX {
            Some(InstructionError::ArithmeticOverflow)
        } else if stored_balance(data) + amount > u64::MAX {
            Some(InstructionError::ArithmeticOverflow)
        } else {
            None
        },
    }
}

/// Moves `amount` lamports from the owner to the vault's lamport account and
/// adds it to the recorded balance.
pub fn deposit(accounts: &mut Deposit, program_id: &Pubkey, amount: u64) -> (r: VaultResult)
    ensures
        match deposit_error(*old(accounts), program_id@, amount) {
            Some(e) => r == Err::<(), InstructionError<VaultError>>(e) && *final(accounts) == *old(
                accounts,
            ),
            None => {
                let data = old(accounts).vault.data@;
                &&& r is Ok
                &&& final(accounts).vault.data@ == vault_layout(
                    stored_owner(data),
                    (stored_balance(data) + amount) as u64,
                    stored_bump(data),
                )
                &&& final(accounts).vault.owner == old(accounts).vault.owner
                &&& final(accounts).vault.key == old(accounts).vault.key
                &&& final(accounts).vault.lamports == old(accounts).vault.lamports
                &&& final(accounts).vault.is_signer == old(accounts).vault.is_signer
                &&& final(accounts).owner.lamports == old(accounts).owner.lamports - amount
                &&& final(accounts).vault_pda.lamports == old(accounts).vault_pda.lamports + amount
                &&& final(accounts).owner == (AccountInfo {
                    lamports: final(accounts).owner.lamports,
                    ..old(accounts).owner
                })
                &&& final(accounts).vault_pda == (AccountInfo {
                    lamports: final(accounts).vault_pda.lamports,
                    ..old(accounts).vault_pda
                })
            },
        },
{
    let vault = match load_vault(&accounts.vault, program_id) {
        Ok(v) => v,
        Err(e) => {
            return Err(InstructionError::Constraint(e));
        },
    };
    if let Err(e) = check_system_owned(&accounts.vault_pda) {
        return Err(InstructionError::Constraint(e));
    }
    if let Err(e) = check_signer(&accounts.owner) {
        return Err(InstructionError::Constraint(e));
    }
    if let Err(e) = check_pda_with_bump(&accounts.vault.key, vault_seeds(&accounts.owner.key), vault.bump, program_id) {
        return Err(InstructionError::Constraint(e));
    }
    if !(vault.owner == accounts.owner.key) {
        return Err(InstructionError::Constraint(ConstraintError::ConstraintHasOne));
    }
    if let Err(e) = check_canonical_pda(&accounts.vault_pda.key, &vault_pda_seeds(&accounts.owner.key), program_id) {
        return Err(InstructionError::Constraint(e));
    }
    if accounts.owner.lamports < amount {
        return Err(InstructionError::InsufficientLamports);
    }
    let pda_lamports = match accounts.vault_pda.lamports.checked_add(amount) {
        Some(l) => l,
        None => {
            return Err(InstructionError::ArithmeticOverflow);
        },
    };
    let balance = match vault.balance.checked_add(amount) {
        Some(b) => b,
        None => {
            return Err(InstructionError::ArithmeticOverflow);
        },
    };
    accounts.owner.lamports = accounts.owner.lamports - amount;
    accounts.vault_pda.lamports = pda_lamports;
    let updated = Vault { owner: vault.owner, balance, bump: vault.bump };
    accounts.vault.data = updated.to_bytes();
    Ok(())
}

/// The accounts of `vulnerable_withdraw`: nothing ties the vault record, the
/// lamport account and the withdrawer together.
#[derive(Clone, Debug)]
pub struct VulnerableWithdraw {
    pub vault: AccountInfo,
    pub vault_pda: AccountInfo,
    pub withdrawer: AccountInfo,
}

impl VulnerableWithdraw {
    /// Reads a vault record from the vault account's data without checking the
    /// account's owner program or its discriminator.
    pub fn vault(&self) -> (r: Result<Vault, VaultError>)
        ensures
            r is Ok <==> self.vault.data@.len() >= VAULT_DATA_LEN,
            r matches Ok(v) ==> decodes_to(self.vault.data@, v),
            r matches Err(e) ==> e == VaultError::InvalidVaultData,
    {
        if self.vault.data.len() < VAULT_DATA_LEN {
            return Err(VaultError::InvalidVaultData);
        }
        Ok(Vault::decode(&self.vault.data))
    }
}

/// The error `vulnerable_withdraw` returns on these accounts, if any.
pub open spec fn vulnerable_withdraw_error(a: VulnerableWithdraw, amount: u64) -> Option<
    InstructionError<VaultError>,
> {
    let data = a.vault.data@;
    if !a.withdrawer.is_signer {
        Some(InstructionError::Constraint(ConstraintError::AccountNotSigner))
    } else if data.len() < VAULT_DATA_LEN {
        Some(InstructionError::Custom(VaultError::InvalidVaultData))
    } else if stored_owner(data) != a.withdrawer.key@ {
        Some(InstructionError::Custom(VaultError::UnauthorizedWithdrawal))
    } else if stored_balance(data) < amount {
        Some(InstructionError::Custom(VaultError::InsufficientFunds))
    } else if a.vault_pda.lamports < amount {
        Some(InstructionError::ArithmeticOverflow)
    } else if a.withdrawer.lamports + amount > u64::MAX {
        Some(InstructionError::ArithmeticOverflow)
    } else {
        None
    }
}

/// Withdraws on the word of whatever record the vault account holds: the
/// record's owner and balance are trusted, and the record is left unchanged.
pub fn vulnerable_withdraw(accounts: &mut VulnerableWithdraw, amount: u64) -> (r: VaultResult)
    ensures
        match vulnerable_withdraw_error(*old(accounts), amount) {
            Some(e) => r == Err::<(), InstructionError<VaultError>>(e) && *final(accounts) == *old(
                accounts,
            ),
            None => {
                &&& r is Ok
                &&& final(accounts).vault == old(accounts).vault
                &&& final(accounts).vault_pda.lamports == old(accounts).vault_pda.lamports - amount
                &&& final(accounts).withdrawer.lamports == old(accounts).withdrawer.lamports
                    + amount
                &&& final(accounts).vault_pda == (AccountInfo {
                    lamports: final(accounts).vault_pda.lamports,
                    ..old(accounts).vault_pda
                })
                &&& final(accounts).withdrawer == (AccountInfo {
                    lamports: final(accounts).withdrawer.lamports,
                    ..old(accounts).withdrawer
                })
            },
        },
{
    if let Err(e) = check_signer(&accounts.withdrawer) {
        return Err(InstructionError::Constraint(e));
    }
    let vault = match accounts.vault() {
        Ok(v) => v,
        Err(e) => {
            return Err(InstructionError::Custom(e));
        },
    };
    if !(vault.owner == accounts.withdrawer.key) {
        return Err(InstructionError::Custom(VaultError::UnauthorizedWithdrawal));
    }
    if vault.balance < amount {
        return Err(InstructionError::Custom(VaultError::InsufficientFunds));
    }
    if accounts.vault_pda.lamports < amount {
        return Err(InstructionError::ArithmeticOverflow);
    }
    let received = match accounts.withdrawer.lamports.checked_add(amount) {
        Some(l) => l,
        None => {
            return Err(InstructionError::ArithmeticOverflow);
        },
    };
    accounts.vault_pda.lamports = accounts.vault_pda.lamports - amount;
    accounts.withdrawer.lamports = received;
    Ok(())
}

/// The accounts of `secure_withdraw`.
#[derive(Clone, Debug)]
pub struct SecureWithdraw {
    /// The vault record, at the address derived from `vault` and the owner.
    pub vault: AccountInfo,
    /// The lamport account, at the address derived from `vault_pda` and the owner.
    pub vault_pda: AccountInfo,
    /// The owner recorded in the vault.
    pub owner: AccountInfo,
    /// The signer, who must be the recorded owner.
    pub withdrawer: AccountInfo,
}

/// The error `secure_withdraw` returns on these accounts, if any.
pub open spec fn secure_withdraw_error(a: SecureWithdraw, program: Seq<u8>, amount: u64) -> Option<
    InstructionError<VaultError>,
> {
    let data = a.vault.data@;
    match vault_load_error(a.vault, program) {
        Some(e) => Some(InstructionError::Constraint(e)),
        None => if a.vault_pda.owner@ != system_program_bytes() {
            Some(InstructionError::Constraint(ConstraintError::AccountNotSystemOwned))
        } else if !a.withdrawer.is_signer {
            Some(InstructionError::Constraint(ConstraintError::AccountNotSigner))
        } else if !is_pda_with_bump(
            a.vault.key@,
            seq![vault_seed(), a.owner.key@],
            stored_bump(data),
            program,
        ) {
            Some(InstructionError::Constraint(ConstraintError::ConstraintSeeds))
        } else if stored_owner(data) != a.owner.key@ {
            Some(InstructionError::Custom(VaultError::UnauthorizedWithdrawal))
        } else if stored_owner(data) != a.withdrawer.key@ {
            Some(InstructionError::Custom(VaultError::UnauthorizedWithdrawal))
        } else if !is_canonical_pda(a.vault_pda.key@, seq![vault_pda_seed(), a.owner.key@], program) {
            Some(InstructionError::Constraint(ConstraintError::ConstraintSeeds))
        } else if stored_balance(data) < amount {
            Some(InstructionError::Custom(VaultError::InsufficientFunds))
        } else if a.vault_pda.lamports < amount {
            Some(InstructionError::ArithmeticOverflow)
        } else if a.withdrawer.lamports + amount > u64::MAX {
            Some(InstructionError::ArithmeticOverflow)
        } else {
            None
        },
    }
}

/// Withdraws from a vault that this program created for the withdrawer,
/// lowering the recorded balance before lamports move.
pub fn secure_withdraw(accounts: &mut SecureWithdraw, program_id: &Pubkey, amount: u64) -> (r:
    VaultResult)
    ensures
        match secure_withdraw_error(*old(accounts), program_id@, amount) {
            Some(e) => r == Err::<(), InstructionError<VaultError>>(e) && *final(accounts) == *old(
                accounts,
            ),
            None => {
                let data = old(accounts).vault.data@;
                &&& r is Ok
                &&& final(accounts).vault.data@ == vault_layout(
                    stored_owner(data),
                    (stored_balance(data) - amount) as u64,
                    stored_bump(data),
                )
                &&& final(accounts).vault.owner == old(accounts).vault.owner
                &&& final(accounts).vault.key == old(accounts).vault.key
                &&& final(accounts).vault.lamports == old(accounts).vault.lamports
                &&& final(accounts).vault.is_signer == old(accounts).vault.is_signer
                &&& final(accounts).owner == old(accounts).owner
                &&& final(accounts).vault_pda.lamports == old(accounts).vault_pda.lamports - amount
                &&& final(accounts).withdrawer.lamports == old(accounts).withdrawer.lamports
                    + amount
                &&& final(accounts).vault_pda == (AccountInfo {
                    lamports: final(accounts).vault_pda.lamports,
                    ..old(accounts).vault_pda
                })
                &&& final(accounts).withdrawer == (AccountInfo {
                    lamports: final(accounts).withdrawer.lamports,
                    ..old(accounts).withdrawer
                })
            },
        },
{
    let vault = match load_vault(&accounts.vault, program_id) {
        Ok(v) => v,
        Err(e) => {
            return Err(InstructionError::Constraint(e));
        },
    };
    if let Err(e) = check_system_owned(&accounts.vault_pda) {
        return Err(InstructionError::Constraint(e));
    }
    if let Err(e) = check_signer(&accounts.withdrawer) {
        return Err(InstructionError::Constraint(e));
    }
    if let Err(e) = check_pda_with_bump(&accounts.vault.key, vault_seeds(&accounts.owner.key), vault.bump, program_id) {
        return Err(InstructionError::Constraint(e));
    }
    if !(vault.owner == accounts.owner.key) {
        return Err(InstructionError::Custom(VaultError::UnauthorizedWithdrawal));
    }
    if !(vault.owner == accounts.withdrawer.key) {
        return Err(InstructionError::Custom(VaultError::UnauthorizedWithdrawal));
    }
    if let Err(e) = check_canonical_pda(&accounts.vault_pda.key, &vault_pda_seeds(&accounts.owner.key), program_id) {
        return Err(InstructionError::Constraint(e));
    }
    if vault.balance < amount {
        return Err(InstructionError::Custom(VaultError::InsufficientFunds));
    }
    if accounts.vault_pda.lamports < amount {
        return Err(InstructionError::ArithmeticOverflow);
    }
    let received = match accounts.withdrawer.lamports.checked_add(amount) {
        Some(l) => l,
        None => {
            return Err(InstructionError::ArithmeticOverflow);
        },
    };
    let updated = Vault { owner: vault.owner, balance: vault.balance - amount, bump: vault.bump };
    accounts.vault.data = updated.to_bytes();
    accounts.vault_pda.lamports = accounts.vault_pda.lamports - amount;
    accounts.withdrawer.lamports = received;
    Ok(())
}


/// The checked withdrawal rejects, and leaves every account as it was, any
/// withdrawer whose address is not the owner recorded in the vault.
pub proof fn lemma_secure_withdraw_rejects_other_withdrawer(
    a: SecureWithdraw,
    program: Seq<u8>,
    amount: u64,
)
    requires
        stored_owner(a.vault.data@) != a.withdrawer.key@,
    ensures
        secure_withdraw_error(a, program, amount) is Some,
{
}

/// The unchecked withdrawal never looks at who owns the vault account or at
/// its discriminator: two vault accounts that agree on the bytes after the
/// discriminator give the same outcome, so a forged record works as well as a
/// real one.
pub proof fn lemma_vulnerable_withdraw_ignores_origin(
    a: VulnerableWithdraw,
    b: VulnerableWithdraw,
    amount: u64,
)
    requires
        a.withdrawer == b.withdrawer,
        a.vault_pda == b.vault_pda,
        a.vault.data@.len() == b.vault.data@.len(),
        forall|i: int| 8 <= i < a.vault.data@.len() ==> a.vault.data@[i] == b.vault.data@[i],
    ensures
        vulnerable_withdraw_error(a, amount) == vulnerable_withdraw_error(b, amount),
{
    let (da, db) = (a.vault.data@, b.vault.data@);
    if da.len() >= VAULT_DATA_LEN {
        assert(stored_owner(da) =~= stored_owner(db));
        assert(stored_balance(da) == stored_balance(db));
    }
}

/// The checked deposit rejects an amount that would carry the recorded
/// balance past the largest `u64`.
pub proof fn lemma_deposit_rejects_overflow(a: Deposit, program: Seq<u8>, amount: u64)
    requires
        a.vault.data@.len() >= VAULT_DATA_LEN,
        stored_balance(a.vault.data@) + amount > u64::MAX,
    ensures
        deposit_error(a, program, amount) is Some,
{
}

/// A vault written by `initialize_vault` loads back as a vault of the program
/// with the owner's address, a zero balance and the canonical bump, and its
/// address checks out against that bump.
pub proof fn lemma_initialized_vault_loads(
    before: InitializeVault,
    after: InitializeVault,
    program: Seq<u8>,
)
    requires
        program != system_program_bytes(),
        initialize_vault_error(before, program) is None,
        after.vault.data@ == vault_layout(
            before.owner.key@,
            0,
            canonical_bump(seq![vault_seed(), before.owner.key@], program),
        ),
        after.vault.owner@ == program,
        after.vault.key == before.vault.key,
    ensures
        vault_load_error(after.vault, program) is None,
        stored_owner(after.vault.data@) == before.owner.key@,
        stored_balance(after.vault.data@) == 0,
        is_pda_with_bump(
            after.vault.key@,
            seq![vault_seed(), before.owner.key@],
            stored_bump(after.vault.data@),
            program,
        ),
{
    let seeds = seq![vault_seed(), before.owner.key@];
    let v = Vault {
        owner: before.owner.key,
        balance: 0,
        bump: canonical_bump(seeds, program),
    };
    lemma_vault_round_trip(v);
    lemma_canonical_has_bump(before.vault.key@, seeds, program);
}

} // verus!
