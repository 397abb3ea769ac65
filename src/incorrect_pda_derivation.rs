//! Records at program-derived addresses. The unchecked instructions derive
//! addresses from a name anyone may claim first, or store a bump the caller
//! chose; the checked ones derive addresses from the signer's own address and
//! store the canonical bump.
use vstd::prelude::*;
use vstd::utf8::encode_utf8;
use crate::account::{
    canonical_bump, check_canonical_pda, check_pda_with_bump, check_signer, check_vacant,
    is_canonical_pda, is_pda_with_bump, le_bytes, lemma_canonical_has_bump, seeds2, seeds3, seeds4, u64_to_le, Account,
    AccountInfo, ConstraintError, InstructionError, Pubkey,
};

verus! {

#[derive(Clone, Debug)]
pub struct Profile {
    pub authority: Pubkey,
    pub username: String,
    pub reputation: u64,
    pub created_at: i64,
    pub bump: u8,
}

#[derive(Clone, Debug)]
pub struct Pool {
    pub authority: Pubkey,
    pub pool_name: String,
    pub total_deposits: u64,
    pub is_active: bool,
    pub bump: u8,
}

#[derive(Clone, Copy, Debug)]
pub struct Escrow {
    pub creator: Pubkey,
    pub recipient: Pubkey,
    pub amount: u64,
    pub escrow_id: u64,
    pub bump: u8,
}

#[derive(Clone, Copy, Debug, PartialEq, Eq, Structural)]
pub enum PdaError {
    UsernameTaken,
    InvalidPda,
    UnauthorizedEscrowAccess,
}

pub type PdaResult = Result<(), InstructionError<PdaError>>;

/// The most bytes a stored username or pool name may take.
pub const MAX_NAME_LEN: usize = 32;

/// The seed `b"profile"`.
pub open spec fn profile_seed() -> Seq<u8> {
    seq![112u8, 114, 111, 102, 105, 108, 101]
}

/// The seed `b"pool"`.
pub open spec fn pool_seed() -> Seq<u8> {
    seq![112u8, 111, 111, 108]
}

/// The seed `b"escrow"`.
pub open spec fn escrow_seed() -> Seq<u8> {
    seq![101u8, 115, 99, 114, 111, 119]
}

/// The UTF-8 bytes of a name.
pub open spec fn name_bytes(s: String) -> Seq<u8> {
    encode_utf8(s@)
}

pub open spec fn escrow_seeds(creator: Seq<u8>, recipient: Seq<u8>, escrow_id: u64) -> Seq<Seq<u8>> {
    seq![escrow_seed(), creator, recipient, le_bytes(escrow_id)]
}

fn profile_seed_bytes() -> (r: Vec<u8>)
    ensures
        r@ == profile_seed(),
{
    let s: Vec<u8> = vec![112u8, 114, 111, 102, 105, 108, 101];
    proof {
        assert(s@ =~= profile_seed());
    }
    s
}

fn pool_seed_bytes() -> (r: Vec<u8>)
    ensures
        r@ == pool_seed(),
{
    let s: Vec<u8> = vec![112u8, 111, 111, 108];
    proof {
        assert(s@ =~= pool_seed());
    }
    s
}

fn bytes_of(s: &String) -> (r: Vec<u8>)
    ensures
        r@ == name_bytes(*s),
{
    vstd::slice::slice_to_vec(s.as_str().as_bytes())
}

fn make_escrow_seeds(creator: &Pubkey, recipient: &Pubkey, escrow_id: u64) -> (r: Vec<Vec<u8>>)
    ensures
        r.deep_view() == escrow_seeds(creator@, recipient@, escrow_id),
{
    let s: Vec<u8> = vec![101u8, 115, 99, 114, 111, 119];
    proof {
        assert(s@ =~= escrow_seed());
    }
    seeds4(s, creator.to_vec(), recipient.to_vec(), u64_to_le(escrow_id))
}

/// A name too long for the space its record reserves fails to be stored.
fn check_name_fits(name: &String) -> (r: PdaResult)
    ensures
        r is Ok <==> name_bytes(*name).len() <= MAX_NAME_LEN,
        r matches Err(e) ==> e == InstructionError::<PdaError>::Constraint(
            ConstraintError::AccountDidNotSerialize,
        ),
{
    if bytes_of(name).len() > MAX_NAME_LEN {
        Err(InstructionError::Constraint(ConstraintError::AccountDidNotSerialize))
    } else {
        Ok(())
    }
}

/// The accounts of `vulnerable_create_profile`: the profile's address comes
/// from the username alone.
#[derive(Clone, Debug)]
pub struct VulnerableCreateProfile {
    pub profile: Account<Option<Profile>>,
    pub payer: AccountInfo,
}

pub open spec fn vulnerable_create_profile_error(
    a: VulnerableCreateProfile,
    program: Seq<u8>,
    username: String,
) -> Option<InstructionError<PdaError>> {
    if !a.payer.is_signer {
        Some(InstructionError::Constraint(ConstraintError::AccountNotSigner))
    } else if !is_canonical_pda(a.profile.key@, seq![profile_seed(), name_bytes(username)], program) {
        Some(InstructionError::Constraint(ConstraintError::ConstraintSeeds))
    } else if a.profile.value is Some {
        Some(InstructionError::Constraint(ConstraintError::AccountAlreadyInUse))
    } else if name_bytes(username).len() > MAX_NAME_LEN {
        Some(InstructionError::Constraint(ConstraintError::AccountDidNotSerialize))
    } else {
        None
    }
}

/// Creates the profile of `username` for whoever asks first; the bump is not
/// recorded.
pub fn vulnerable_create_profile(
    accounts: &mut VulnerableCreateProfile,
    program_id: &Pubkey,
    username: String,
    now: i64,
) -> (r: PdaResult)
    ensures
        match vulnerable_create_profile_error(*old(accounts), program_id@, username) {
            Some(e) => r == Err::<(), InstructionError<PdaError>>(e) && *final(accounts) == *old(
                accounts,
            ),
            None => {
                &&& r is Ok
                &&& final(accounts).payer == old(accounts).payer
                &&& final(accounts).profile.key == old(accounts).profile.key
                &&& final(accounts).profile.value matches Some(p) && p.authority
                    == old(accounts).payer.key && p.username@ == username@ && p.reputation == 0
                    && p.created_at == now && p.bump == 0
            },
        },
{
    if let Err(e) = check_signer(&accounts.payer) {
        return Err(InstructionError::Constraint(e));
    }
    let seeds = seeds2(profile_seed_bytes(), bytes_of(&username));
    if let Err(e) = check_canonical_pda(&accounts.profile.key, &seeds, program_id) {
        return Err(InstructionError::Constraint(e));
    }
    if let Err(e) = check_vacant(&accounts.profile) {
        return Err(InstructionError::Constraint(e));
    }
    check_name_fits(&username)?;
    accounts.profile.value = Some(
        Profile {
            authority: accounts.payer.key,
            username,
            reputation: 0,
            created_at: now,
            bump: 0,
        },
    );
    Ok(())
}

/// The accounts of `vulnerable_create_pool`: the pool's address comes from
/// its name alone.
#[derive(Clone, Debug)]
pub struct VulnerableCreatePool {
    pub pool: Account<Option<Pool>>,
    pub authority: AccountInfo,
}

pub open spec fn vulnerable_create_pool_error(
    a: VulnerableCreatePool,
    program: Seq<u8>,
    pool_name: String,
) -> Option<InstructionError<PdaError>> {
    if !a.authority.is_signer {
        Some(InstructionError::Constraint(ConstraintError::AccountNotSigner))
    } else if !is_canonical_pda(a.pool.key@, seq![pool_seed(), name_bytes(pool_name)], program) {
        Some(InstructionError::Constraint(ConstraintError::ConstraintSeeds))
    } else if a.pool.value is Some {
        Some(InstructionError::Constraint(ConstraintError::AccountAlreadyInUse))
    } else if name_bytes(pool_name).len() > MAX_NAME_LEN {
        Some(InstructionError::Constraint(ConstraintError::AccountDidNotSerialize))
    } else {
        None
    }
}

/// Creates the pool named `pool_name` for whoever asks first; the bump is not
/// recorded.
pub fn vulnerable_create_pool(
    accounts: &mut VulnerableCreatePool,
    program_id: &Pubkey,
    pool_name: String,
) -> (r: PdaResult)
    ensures
        match vulnerable_create_pool_error(*old(accounts), program_id@, pool_name) {
            Some(e) => r == Err::<(), InstructionError<PdaError>>(e) && *final(accounts) == *old(
                accounts,
            ),
            None => {
                &&& r is Ok
                &&& final(accounts).authority == old(accounts).authority
                &&& final(accounts).pool.key == old(accounts).pool.key
                &&& final(accounts).pool.value matches Some(p) && p.authority
                    == old(accounts).authority.key && p.pool_name@ == pool_name@
                    && p.total_deposits == 0 && p.is_active && p.bump == 0
            },
        },
{
    if let Err(e) = check_signer(&accounts.authority) {
        return Err(InstructionError::Constraint(e));
    }
    let seeds = seeds2(pool_seed_bytes(), bytes_of(&pool_name));
    if let Err(e) = check_canonical_pda(&accounts.pool.key, &seeds, program_id) {
        return Err(InstructionError::Constraint(e));
    }
    if let Err(e) = check_vacant(&accounts.pool) {
        return Err(InstructionError::Constraint(e));
    }
    check_name_fits(&pool_name)?;
    accounts.pool.value = Some(
        Pool {
            authority: accounts.authority.key,
            pool_name,
            total_deposits: 0,
            is_active: true,
            bump: 0,
        },
    );
    Ok(())
}

/// The accounts of the escrow-creating instructions.
#[derive(Clone, Debug)]
pub struct CreateEscrow {
    /// The escrow to create, at the address derived from `escrow`, the
    /// creator, the recipient and the escrow id.
    pub escrow: Account<Option<Escrow>>,
    pub creator: AccountInfo,
    pub recipient: AccountInfo,
}

pub type VulnerableCreateEscrow = CreateEscrow;

pub type SecureCreateEscrow = CreateEscrow;

pub open spec fn create_escrow_error(a: CreateEscrow, program: Seq<u8>, escrow_id: u64) -> Option<
    InstructionError<PdaError>,
> {
    if !a.creator.is_signer {
        Some(InstructionError::Constraint(ConstraintError::AccountNotSigner))
    } else if !is_canonical_pda(
        a.escrow.key@,
        escrow_seeds(a.creator.key@, a.recipient.key@, escrow_id),
        program,
    ) {
        Some(InstructionError::Constraint(ConstraintError::ConstraintSeeds))
    } else if a.escrow.value is Some {
        Some(InstructionError::Constraint(ConstraintError::AccountAlreadyInUse))
    } else {
        None
    }
}

/// The escrow an escrow-creating instruction stores.
pub open spec fn new_escrow(a: CreateEscrow, escrow_id: u64, bump: u8) -> Escrow {
    Escrow {
        creator: a.creator.key,
        recipient: a.recipient.key,
        amount: 0,
        escrow_id,
        bump,
    }
}

fn create_escrow(accounts: &mut CreateEscrow, program_id: &Pubkey, escrow_id: u64, bump: Option<u8>) -> (r:
    PdaResult)
    ensures
        match create_escrow_error(*old(accounts), program_id@, escrow_id) {
            Some(e) => r == Err::<(), InstructionError<PdaError>>(e) && *final(accounts) == *old(
                accounts,
            ),
            None => {
                let canonical = canonical_bump(
                    escrow_seeds(old(accounts).creator.key@, old(accounts).recipient.key@, escrow_id),
                    program_id@,
                );
                let stored = match bump {
                    Some(b) => b,
                    None => canonical,
                };
                &&& r is Ok
                &&& *final(accounts) == (CreateEscrow {
                    escrow: Account {
                        value: Some(new_escrow(*old(accounts), escrow_id, stored)),
                        ..old(accounts).escrow
                    },
                    ..*old(accounts)
                })
            },
        },
{
    if let Err(e) = check_signer(&accounts.creator) {
        return Err(InstructionError::Constraint(e));
    }
    let seeds = make_escrow_seeds(&accounts.creator.key, &accounts.recipient.key, escrow_id);
    let canonical = match check_canonical_pda(&accounts.escrow.key, &seeds, program_id) {
        Ok(b) => b,
        Err(e) => {
            return Err(InstructionError::Constraint(e));
        },
    };
    if let Err(e) = check_vacant(&accounts.escrow) {
        return Err(InstructionError::Constraint(e));
    }
    let stored = match bump {
        Some(b) => b,
        None => canonical,
    };
    accounts.escrow.value = Some(
        Escrow {
            creator: accounts.creator.key,
            recipient: accounts.recipient.key,
            amount: 0,
            escrow_id,
            bump: stored,
        },
    );
    Ok(())
}

/// Creates the escrow at its canonical address but records the bump the
/// caller supplied, which later derivations will use.
pub fn vulnerable_create_escrow(
    accounts: &mut VulnerableCreateEscrow,
    program_id: &Pubkey,
    escrow_id: u64,
    bump: u8,
) -> (r: PdaResult)
    ensures
        match create_escrow_error(*old(accounts), program_id@, escrow_id) {
            Some(e) => r == Err::<(), InstructionError<PdaError>>(e) && *final(accounts) == *old(
                accounts,
            ),
            None => {
                &&& r is Ok
                &&& *final(accounts) == (CreateEscrow {
                    escrow: Account {
                        value: Some(new_escrow(*old(accounts), escrow_id, bump)),
                        ..old(accounts).escrow
                    },
                    ..*old(accounts)
                })
            },
        },
{
    create_escrow(accounts, program_id, escrow_id, Some(bump))
}

/// Creates the escrow at its canonical address and records the canonical bump.
pub fn secure_create_escrow(
    accounts: &mut SecureCreateEscrow,
    program_id: &Pubkey,
    escrow_id: u64,
) -> (r: PdaResult)
    ensures
        match create_escrow_error(*old(accounts), program_id@, escrow_id) {
            Some(e) => r == Err::<(), InstructionError<PdaError>>(e) && *final(accounts) == *old(
                accounts,
            ),
            None => {
                &&& r is Ok
                &&& *final(accounts) == (CreateEscrow {
                    escrow: Account {
                        value: Some(
                            new_escrow(
                                *old(accounts),
                                escrow_id,
                                canonical_bump(
                                    escrow_seeds(
                                        old(accounts).creator.key@,
                                        old(accounts).recipient.key@,
                                        escrow_id,
                                    ),
                                    program_id@,
                                ),
                            ),
                        ),
                        ..old(accounts).escrow
                    },
                    ..*old(accounts)
                })
            },
        },
{
    create_escrow(accounts, program_id, escrow_id, None)
}

/// The accounts of `secure_create_profile`: the profile's address comes from
/// the signer's address.
#[derive(Clone, Debug)]
pub struct SecureCreateProfile {
    pub profile: Account<Option<Profile>>,
    pub authority: AccountInfo,
}

pub open spec fn profile_seeds(authority: Seq<u8>) -> Seq<Seq<u8>> {
    seq![profile_seed(), authority]
}

pub open spec fn secure_create_profile_error(
    a: SecureCreateProfile,
    program: Seq<u8>,
    username: String,
) -> Option<InstructionError<PdaError>> {
    if !a.authority.is_signer {
        Some(InstructionError::Constraint(ConstraintError::AccountNotSigner))
    } else if !is_canonical_pda(a.profile.key@, profile_seeds(a.authority.key@), program) {
        Some(InstructionError::Constraint(ConstraintError::ConstraintSeeds))
    } else if a.profile.value is Some {
        Some(InstructionError::Constraint(ConstraintError::AccountAlreadyInUse))
    } else if name_bytes(username).len() > MAX_NAME_LEN {
        Some(InstructionError::Constraint(ConstraintError::AccountDidNotSerialize))
    } else {
        None
    }
}

/// Creates the signer's own profile, at the address derived from the signer,
/// recording the canonical bump.
pub fn secure_create_profile(
    accounts: &mut SecureCreateProfile,
    program_id: &Pubkey,
    username: String,
    now: i64,
) -> (r: PdaResult)
    ensures
        match secure_create_profile_error(*old(accounts), program_id@, username) {
            Some(e) => r == Err::<(), InstructionError<PdaError>>(e) && *final(accounts) == *old(
                accounts,
            ),
            None => {
                &&& r is Ok
                &&& final(accounts).authority == old(accounts).authority
                &&& final(accounts).profile.key == old(accounts).profile.key
                &&& final(accounts).profile.value matches Some(p) && p.authority
                    == old(accounts).authority.key && p.username@ == username@ && p.reputation == 0
                    && p.created_at == now && p.bump == canonical_bump(
                    profile_seeds(old(accounts).authority.key@),
                    program_id@,
                )
            },
        },
{
    if let Err(e) = check_signer(&accounts.authority) {
        return Err(InstructionError::Constraint(e));
    }
    let seeds = seeds2(profile_seed_bytes(), accounts.authority.key.to_vec());
    let bump = match check_canonical_pda(&accounts.profile.key, &seeds, program_id) {
        Ok(b) => b,
        Err(e) => {
            return Err(InstructionError::Constraint(e));
        },
    };
    if let Err(e) = check_vacant(&accounts.profile) {
        return Err(InstructionError::Constraint(e));
    }
    check_name_fits(&username)?;
    accounts.profile.value = Some(
        Profile { authority: accounts.authority.key, username, reputation: 0, created_at: now, bump },
    );
    Ok(())
}

/// The accounts of `secure_create_pool`: the pool's address comes from the
/// signer's address and the pool name.
#[derive(Clone, Debug)]
pub struct SecureCreatePool {
    pub pool: Account<Option<Pool>>,
    pub authority: AccountInfo,
}

pub open spec fn named_pool_seeds(authority: Seq<u8>, pool_name: String) -> Seq<Seq<u8>> {
    seq![pool_seed(), authority, name_bytes(pool_name)]
}

pub open spec fn secure_create_pool_error(a: SecureCreatePool, program: Seq<u8>, pool_name: String) -> Option<
    InstructionError<PdaError>,
> {
    if !a.authority.is_signer {
        Some(InstructionError::Constraint(ConstraintError::AccountNotSigner))
    } else if !is_canonical_pda(a.pool.key@, named_pool_seeds(a.authority.key@, pool_name), program) {
        Some(InstructionError::Constraint(ConstraintError::ConstraintSeeds))
    } else if a.pool.value is Some {
        Some(InstructionError::Constraint(ConstraintError::AccountAlreadyInUse))
    } else if name_bytes(pool_name).len() > MAX_NAME_LEN {
        Some(InstructionError::Constraint(ConstraintError::AccountDidNotSerialize))
    } else {
        None
    }
}

/// Creates the signer's pool named `pool_name`, recording the canonical bump.
pub fn secure_create_pool(accounts: &mut SecureCreatePool, program_id: &Pubkey, pool_name: String) -> (r:
    PdaResult)
    ensures
        match secure_create_pool_error(*old(accounts), program_id@, pool_name) {
            Some(e) => r == Err::<(), InstructionError<PdaError>>(e) && *final(accounts) == *old(
                accounts,
            ),
            None => {
                &&& r is Ok
                &&& final(accounts).authority == old(accounts).authority
                &&& final(accounts).pool.key == old(accounts).pool.key
                &&& final(accounts).pool.value matches Some(p) && p.authority
                    == old(accounts).authority.key && p.pool_name@ == pool_name@
                    && p.total_deposits == 0 && p.is_active && p.bump == canonical_bump(
                    named_pool_seeds(old(accounts).authority.key@, pool_name),
                    program_id@,
                )
            },
        },
{
    if let Err(e) = check_signer(&accounts.authority) {
        return Err(InstructionError::Constraint(e));
    }
    let seeds = seeds3(pool_seed_bytes(), accounts.authority.key.to_vec(), bytes_of(&pool_name));
    let bump = match check_canonical_pda(&accounts.pool.key, &seeds, program_id) {
        Ok(b) => b,
        Err(e) => {
            return Err(InstructionError::Constraint(e));
        },
    };
    if let Err(e) = check_vacant(&accounts.pool) {
        return Err(InstructionError::Constraint(e));
    }
    check_name_fits(&pool_name)?;
    accounts.pool.value = Some(
        Pool {
            authority: accounts.authority.key,
            pool_name,
            total_deposits: 0,
            is_active: true,
            bump,
        },
    );
    Ok(())
}

/// The accounts of `secure_deposit_to_escrow`.
#[derive(Clone, Debug)]
pub struct SecureAccessEscrow {
    /// The escrow, at the address derived from its own fields and stored bump.
    pub escrow: Account<Escrow>,
    /// The escrow's creator, who signs.
    pub creator: AccountInfo,
}

pub open spec fn secure_deposit_to_escrow_error(a: SecureAccessEscrow, program: Seq<u8>, amount: u64) -> Option<
    InstructionError<PdaError>,
> {
    let e = a.escrow.value;
    if !a.creator.is_signer {
        Some(InstructionError::Constraint(ConstraintError::AccountNotSigner))
    } else if !is_pda_with_bump(
        a.escrow.key@,
        escrow_seeds(e.creator@, e.recipient@, e.escrow_id),
        e.bump,
        program,
    ) {
        Some(InstructionError::Constraint(ConstraintError::ConstraintSeeds))
    } else if e.creator@ != a.creator.key@ {
        Some(InstructionError::Constraint(ConstraintError::ConstraintHasOne))
    } else if e.amount + amount > u64::MAX {
        Some(InstructionError::ArithmeticOverflow)
    } else {
        None
    }
}

/// Adds `amount` to an escrow, signed by its creator, after re-deriving the
/// escrow's address from its recorded fields and bump.
pub fn secure_deposit_to_escrow(
    accounts: &mut SecureAccessEscrow,
    program_id: &Pubkey,
    amount: u64,
) -> (r: PdaResult)
    ensures
        match secure_deposit_to_escrow_error(*old(accounts), program_id@, amount) {
            Some(e) => r == Err::<(), InstructionError<PdaError>>(e) && *final(accounts) == *old(
                accounts,
            ),
            None => {
                &&& r is Ok
                &&& *final(accounts) == (SecureAccessEscrow {
                    escrow: Account {
                        value: Escrow {
                            amount: (old(accounts).escrow.value.amount + amount) as u64,
                            ..old(accounts).escrow.value
                        },
                        ..old(accounts).escrow
                    },
                    ..*old(accounts)
                })
            },
        },
{
    if let Err(e) = check_signer(&accounts.creator) {
        return Err(InstructionError::Constraint(e));
    }
    let e = &accounts.escrow.value;
    let seeds = make_escrow_seeds(&e.creator, &e.recipient, e.escrow_id);
    if let Err(err) = check_pda_with_bump(&accounts.escrow.key, seeds, e.bump, program_id) {
        return Err(InstructionError::Constraint(err));
    }
    if !(e.creator == accounts.creator.key) {
        return Err(InstructionError::Constraint(ConstraintError::ConstraintHasOne));
    }
    let total = match e.amount.checked_add(amount) {
        Some(t) => t,
        None => {
            return Err(InstructionError::ArithmeticOverflow);
        },
    };
    accounts.escrow.value.amount = total;
    Ok(())
}


/// A username's profile address is the same whoever asks: once anyone has
/// created it, every later request for that username fails.
pub proof fn lemma_username_first_come(
    first: VulnerableCreateProfile,
    later: VulnerableCreateProfile,
    program: Seq<u8>,
    username: String,
)
    requires
        vulnerable_create_profile_error(first, program, username) is None,
        later.profile.key == first.profile.key,
        later.profile.value is Some,
        later.payer.is_signer,
    ensures
        vulnerable_create_profile_error(later, program, username) == Some(
            InstructionError::<PdaError>::Constraint(ConstraintError::AccountAlreadyInUse),
        ),
{
}

/// A profile made by the checked instruction sits at the address derived
/// from its authority, so no other signer can create or occupy it.
pub proof fn lemma_secure_profile_bound_to_signer(
    a: SecureCreateProfile,
    program: Seq<u8>,
    username: String,
)
    requires
        secure_create_profile_error(a, program, username) is None,
    ensures
        a.authority.is_signer,
        is_canonical_pda(a.profile.key@, profile_seeds(a.authority.key@), program),
{
}

/// An escrow made by the checked instruction passes the address check of
/// later deposits: its recorded fields and canonical bump derive its address.
pub proof fn lemma_secure_escrow_reopens(
    create: CreateEscrow,
    deposit: SecureAccessEscrow,
    program: Seq<u8>,
    escrow_id: u64,
    amount: u64,
)
    requires
        create_escrow_error(create, program, escrow_id) is None,
        deposit.escrow == (Account {
            key: create.escrow.key,
            value: new_escrow(
                create,
                escrow_id,
                canonical_bump(escrow_seeds(create.creator.key@, create.recipient.key@, escrow_id), program),
            ),
        }),
        deposit.creator.key == create.creator.key,
        deposit.creator.is_signer,
    ensures
        secure_deposit_to_escrow_error(deposit, program, amount) is None,
{
    lemma_canonical_has_bump(
        create.escrow.key@,
        escrow_seeds(create.creator.key@, create.recipient.key@, escrow_id),
        program,
    );
}

} // verus!
