//! Addresses, raw account records, and the account checks shared by every
//! program: signer, owner, `has_one` and program-derived-address checks.
use vstd::prelude::*;

verus! {

/// A 32-byte account address.
#[derive(Clone, Copy, Debug)]
pub struct Pubkey {
    pub bytes: [u8; 32],
}

impl View for Pubkey {
    type V = Seq<u8>;

    open spec fn view(&self) -> Seq<u8> {
        self.bytes@
    }
}

impl Pubkey {
    pub fn new(bytes: [u8; 32]) -> (r: Pubkey)
        ensures
            r.bytes == bytes,
    {
        Pubkey { bytes }
    }

    /// The address made of the 32 bytes of `data` from `at`.
    pub fn read(data: &[u8], at: usize) -> (r: Pubkey)
        requires
            at + 32 <= data@.len(),
        ensures
            r@ == data@.subrange(at as int, at + 32),
    {
        let n = data.len();
        let mut bytes = [0u8; 32];
        let mut i: usize = 0;
        while i < 32
            invariant
                n == data@.len(),
                at + 32 <= data@.len(),
                0 <= i <= 32,
                bytes@.len() == 32,
                forall|j: int| 0 <= j < i ==> bytes@[j] == data@[at + j],
            decreases 32 - i,
        {
            bytes[i] = data[at + i];
            i = i + 1;
        }
        proof {
            assert(bytes@ =~= data@.subrange(at as int, at + 32));
        }
        Pubkey { bytes }
    }

    /// The address whose bytes are `data`, when `data` is exactly 32 bytes long.
    pub fn from_slice(data: &[u8]) -> (r: Option<Pubkey>)
        ensures
            r is Some <==> data@.len() == 32,
            r matches Some(k) ==> k@ == data@,
    {
        if data.len() != 32 {
            return None;
        }
        let k = Pubkey::read(data, 0);
        proof {
            assert(data@.subrange(0, 32) =~= data@);
        }
        Some(k)
    }

    pub fn to_vec(&self) -> (r: Vec<u8>)
        ensures
            r@ == self@,
    {
        vstd::slice::slice_to_vec(self.bytes.as_slice())
    }
}

impl PartialEq for Pubkey {
    fn eq(&self, o: &Pubkey) -> (r: bool) {
        let mut i: usize = 0;
        while i < 32
            invariant
                0 <= i <= 32,
                self@.len() == 32,
                o@.len() == 32,
                forall|j: int| 0 <= j < i ==> self@[j] == o@[j],
            decreases 32 - i,
        {
            if self.bytes[i] != o.bytes[i] {
                return false;
            }
            i = i + 1;
        }
        proof {
            assert(self@ =~= o@);
        }
        true
    }
}

impl vstd::std_specs::cmp::PartialEqSpecImpl for Pubkey {
    open spec fn obeys_eq_spec() -> bool {
        true
    }

    open spec fn eq_spec(&self, o: &Pubkey) -> bool {
        self@ == o@
    }
}


/// What an instruction sees of one account passed to it.
#[derive(Clone, Debug)]
pub struct AccountInfo {
    pub key: Pubkey,
    /// The program that owns the account.
    pub owner: Pubkey,
    pub is_signer: bool,
    pub lamports: u64,
    pub data: Vec<u8>,
}

impl AccountInfo {
    pub fn new(key: Pubkey, owner: Pubkey, is_signer: bool, lamports: u64, data: Vec<u8>) -> (r:
        AccountInfo)
        ensures
            r.key == key,
            r.owner == owner,
            r.is_signer == is_signer,
            r.lamports == lamports,
            r.data@ == data@,
    {
        AccountInfo { key, owner, is_signer, lamports, data }
    }
}

/// A typed account: its address and its decoded contents.
#[derive(Clone, Debug)]
pub struct Account<T> {
    pub key: Pubkey,
    pub value: T,
}

/// Checks that an account to be created holds nothing yet.
pub fn check_vacant<T>(account: &Account<Option<T>>) -> (r: Result<(), ConstraintError>)
    ensures
        r is Ok <==> account.value is None,
        r matches Err(e) ==> e == ConstraintError::AccountAlreadyInUse,
{
    match &account.value {
        Some(_) => Err(ConstraintError::AccountAlreadyInUse),
        None => Ok(()),
    }
}

/// An account that an instruction passes on to the program it calls.
#[derive(Clone, Copy, Debug)]
pub struct AccountMeta {
    pub pubkey: Pubkey,
    pub is_signer: bool,
    pub is_writable: bool,
}

impl AccountMeta {
    /// A writable account.
    pub fn new(pubkey: Pubkey, is_signer: bool) -> (r: AccountMeta)
        ensures
            r == (AccountMeta { pubkey, is_signer, is_writable: true }),
    {
        AccountMeta { pubkey, is_signer, is_writable: true }
    }

    /// A read-only account.
    pub fn new_readonly(pubkey: Pubkey, is_signer: bool) -> (r: AccountMeta)
        ensures
            r == (AccountMeta { pubkey, is_signer, is_writable: false }),
    {
        AccountMeta { pubkey, is_signer, is_writable: false }
    }
}

/// A call into another program: the program, the accounts it sees and its
/// input bytes.
#[derive(Clone, Debug)]
pub struct Instruction {
    pub program_id: Pubkey,
    pub accounts: Vec<AccountMeta>,
    pub data: Vec<u8>,
}

/// Failures of the account checks that precede an instruction body.
#[derive(Clone, Copy, Debug, PartialEq, Eq, Structural)]
pub enum ConstraintError {
    /// An account that must sign did not.
    AccountNotSigner,
    /// An account address is not the one derived from its seeds.
    ConstraintSeeds,
    /// A stored address does not equal the address of the account passed for it.
    ConstraintHasOne,
    /// An account to be created already holds data or belongs to a program.
    AccountAlreadyInUse,
    /// An account that must belong to the system program does not.
    AccountNotSystemOwned,
    /// A system-owned account without lamports was passed as program data.
    AccountNotInitialized,
    /// The account is not owned by the expected program.
    AccountOwnedByWrongProgram,
    /// The account data is shorter than a discriminator.
    AccountDiscriminatorNotFound,
    /// The account data starts with another type's discriminator.
    AccountDiscriminatorMismatch,
    /// The account data is too short for its type.
    AccountDidNotDeserialize,
    /// The new contents do not fit in the space reserved for the account.
    AccountDidNotSerialize,
    /// A program account is not the expected program.
    InvalidProgramId,
}

/// The error of an instruction: a failed account check, or one of the
/// program's own errors.
#[derive(Clone, Copy, Debug, PartialEq, Eq, Structural)]
pub enum InstructionError<E> {
    Constraint(ConstraintError),
    Custom(E),
    /// A lamport transfer was asked for more than the payer holds.
    InsufficientLamports,
    /// An arithmetic operation that the program does not guard overflowed,
    /// which aborts the program.
    ArithmeticOverflow,
}

/// The address of the system program: 32 zero bytes.
pub open spec fn system_program_bytes() -> Seq<u8> {
    Seq::new(32, |i: int| 0u8)
}

/// The address of the token program, `TokenkegQfeZyiNwAJbNbGKPFXCWuBvf9Ss623VQ5DA`.
pub open spec fn token_program_bytes() -> Seq<u8> {
    seq![
        6u8, 221, 246, 225, 215, 101, 161, 147, 217, 203, 225, 70, 206, 235, 121, 172,
        28, 180, 133, 237, 95, 91, 55, 145, 58, 140, 245, 133, 126, 255, 0, 169,
    ]
}

/// Relies on `anchor_lang::system_program::ID`: the system program's address.
#[verifier::external_body]
pub(crate) fn system_program_id() -> (r: Pubkey)
    ensures
        r@ == system_program_bytes(),
{
    Pubkey::new(anchor_lang::system_program::ID.to_bytes())
}

/// Relies on `anchor_spl::token::ID`: the token program's address.
#[verifier::external_body]
pub(crate) fn token_program_id() -> (r: Pubkey)
    ensures
        r@ == token_program_bytes(),
{
    Pubkey::new(anchor_spl::token::ID.to_bytes())
}

#[verifier::external_type_specification]
#[verifier::external_body]
pub struct ExPubkeyError(anchor_lang::solana_program::pubkey::PubkeyError);

/// The SHA-256 digest of `data`.
pub uninterp spec fn sha256_of(data: Seq<u8>) -> Seq<u8>;

/// Relies on `solana_program::hash::hash`: the SHA-256 digest of its input.
#[verifier::external_body]
pub(crate) fn sha256(data: &Vec<u8>) -> (r: [u8; 32])
    ensures
        r@ == sha256_of(data@),
{
    anchor_lang::solana_program::hash::hash(data.as_slice()).to_bytes()
}

/// The address that `Pubkey::create_program_address` derives from the seeds
/// and the program address, or `None` where it fails.
pub uninterp spec fn created_address(seeds: Seq<Seq<u8>>, program: Seq<u8>) -> Option<Seq<u8>>;

/// Relies on `Pubkey::create_program_address`: the program-derived address of
/// the seeds, which depends on the seeds and the program address alone. It
/// fails for more than 16 seeds, a seed longer than 32 bytes, or a digest
/// that lies on the curve.
#[verifier::external_body]
fn create_program_address(seeds: &Vec<Vec<u8>>, program_id: &Pubkey) -> (r: Result<
    Pubkey,
    anchor_lang::solana_program::pubkey::PubkeyError,
>)
    ensures
        r is Ok <==> created_address(seeds.deep_view(), program_id@) is Some,
        r matches Ok(k) ==> created_address(seeds.deep_view(), program_id@) == Some(k@),
{
    let s: Vec<&[u8]> = seeds.iter().map(|v| v.as_slice()).collect();
    let p = anchor_lang::prelude::Pubkey::new_from_array(program_id.bytes);
    anchor_lang::prelude::Pubkey::create_program_address(&s, &p).map(|k| Pubkey::new(k.to_bytes()))
}

/// The first bump, counting down from `bump` to 1, whose one-byte seed
/// appended to `seeds` gives a program-derived address, with that address.
pub open spec fn bump_search(seeds: Seq<Seq<u8>>, program: Seq<u8>, bump: int) -> Option<
    (Seq<u8>, u8),
>
    decreases bump,
{
    if bump <= 0 {
        None
    } else {
        match created_address(seeds.push(seq![bump as u8]), program) {
            Some(a) => Some((a, bump as u8)),
            None => bump_search(seeds, program, bump - 1),
        }
    }
}

/// The canonical program-derived address of `seeds` and its bump: the
/// highest bump that yields an address.
pub open spec fn canonical_address(seeds: Seq<Seq<u8>>, program: Seq<u8>) -> Option<
    (Seq<u8>, u8),
> {
    bump_search(seeds, program, 255)
}

/// Relies on `Pubkey::try_find_program_address`: it tries the bumps 255 down
/// to 1 with `create_program_address` and returns the first that succeeds.
#[verifier::external_body]
fn try_find_program_address(seeds: &Vec<Vec<u8>>, program_id: &Pubkey) -> (r: Option<
    (Pubkey, u8),
>)
    ensures
        match canonical_address(seeds.deep_view(), program_id@) {
            Some((a, b)) => r matches Some((k, c)) && k@ == a && c == b,
            None => r is None,
        },
{
    let s: Vec<&[u8]> = seeds.iter().map(|v| v.as_slice()).collect();
    let p = anchor_lang::prelude::Pubkey::new_from_array(program_id.bytes);
    anchor_lang::prelude::Pubkey::try_find_program_address(&s, &p).map(
        |(k, b)| (Pubkey::new(k.to_bytes()), b),
    )
}

/// The bump of the canonical address of `seeds`.
pub open spec fn canonical_bump(seeds: Seq<Seq<u8>>, program: Seq<u8>) -> u8 {
    match canonical_address(seeds, program) {
        Some((_, b)) => b,
        None => 0,
    }
}

/// `key` is the canonical address derived from `seeds`.
pub open spec fn is_canonical_pda(key: Seq<u8>, seeds: Seq<Seq<u8>>, program: Seq<u8>) -> bool {
    canonical_address(seeds, program) matches Some((a, _)) && a == key
}

/// `key` is the address derived from `seeds` followed by the one-byte seed `bump`.
pub open spec fn is_pda_with_bump(key: Seq<u8>, seeds: Seq<Seq<u8>>, bump: u8, program: Seq<u8>) -> bool {
    created_address(seeds.push(seq![bump]), program) == Some(key)
}


/// The bump search only returns an address that its bump seed derives.
pub proof fn lemma_bump_search_derives(seeds: Seq<Seq<u8>>, program: Seq<u8>, bump: int)
    ensures
        bump_search(seeds, program, bump) matches Some((a, b)) ==> created_address(
            seeds.push(seq![b]),
            program,
        ) == Some(a),
    decreases bump,
{
    if bump > 0 {
        lemma_bump_search_derives(seeds, program, bump - 1);
    }
}

/// The canonical address of some seeds is also the address those seeds derive
/// with the canonical bump, so a stored canonical bump checks out later.
pub proof fn lemma_canonical_has_bump(key: Seq<u8>, seeds: Seq<Seq<u8>>, program: Seq<u8>)
    requires
        is_canonical_pda(key, seeds, program),
    ensures
        is_pda_with_bump(key, seeds, canonical_bump(seeds, program), program),
{
    lemma_bump_search_derives(seeds, program, 255);
}

/// Checks that `key` is the canonical address of `seeds` and returns its bump.
pub fn check_canonical_pda(key: &Pubkey, seeds: &Vec<Vec<u8>>, program_id: &Pubkey) -> (r: Result<
    u8,
    ConstraintError,
>)
    ensures
        r is Ok <==> is_canonical_pda(key@, seeds.deep_view(), program_id@),
        r matches Ok(b) ==> b == canonical_bump(seeds.deep_view(), program_id@),
        r matches Err(e) ==> e == ConstraintError::ConstraintSeeds,
{
    match try_find_program_address(seeds, program_id) {
        Some((k, b)) => {
            if k == *key {
                Ok(b)
            } else {
                Err(ConstraintError::ConstraintSeeds)
            }
        },
        None => Err(ConstraintError::ConstraintSeeds),
    }
}

/// Checks that `key` is derived from `seeds` and the stored `bump`.
pub fn check_pda_with_bump(key: &Pubkey, seeds: Vec<Vec<u8>>, bump: u8, program_id: &Pubkey) -> (r:
    Result<(), ConstraintError>)
    ensures
        r is Ok <==> is_pda_with_bump(key@, seeds.deep_view(), bump, program_id@),
        r matches Err(e) ==> e == ConstraintError::ConstraintSeeds,
{
    let ghost before = seeds@;
    let mut with_bump = seeds;
    let last: Vec<u8> = vec![bump];
    proof {
        assert(last@ =~= seq![bump]);
    }
    with_bump.push(last);
    proof {
        assert(with_bump@ == before.push(last));
        assert forall|i: int| 0 <= i < with_bump@.len() implies #[trigger] with_bump.deep_view()[i]
            == seeds.deep_view().push(seq![bump])[i] by {
            if i < before.len() {
                assert(with_bump@[i] == before[i]);
            }
        }
        assert(with_bump.deep_view() =~= seeds.deep_view().push(seq![bump]));
    }
    match create_program_address(&with_bump, program_id) {
        Ok(k) => {
            if k == *key {
                Ok(())
            } else {
                Err(ConstraintError::ConstraintSeeds)
            }
        },
        Err(_) => Err(ConstraintError::ConstraintSeeds),
    }
}

/// Checks that the account signed the transaction.
pub fn check_signer(info: &AccountInfo) -> (r: Result<(), ConstraintError>)
    ensures
        r is Ok <==> info.is_signer,
        r matches Err(e) ==> e == ConstraintError::AccountNotSigner,
{
    if info.is_signer {
        Ok(())
    } else {
        Err(ConstraintError::AccountNotSigner)
    }
}



/// Checks that the account belongs to the system program.
pub fn check_system_owned(info: &AccountInfo) -> (r: Result<(), ConstraintError>)
    ensures
        r is Ok <==> info.owner@ == system_program_bytes(),
        r matches Err(e) ==> e == ConstraintError::AccountNotSystemOwned,
{
    let system = system_program_id();
    if info.owner == system {
        Ok(())
    } else {
        Err(ConstraintError::AccountNotSystemOwned)
    }
}

/// An account that an instruction may create: owned by the system program and
/// holding no data.
pub open spec fn is_unused(info: AccountInfo) -> bool {
    info.owner@ == system_program_bytes() && info.data@.len() == 0
}

/// Checks that the account may be created.
pub fn check_unused(info: &AccountInfo) -> (r: Result<(), ConstraintError>)
    ensures
        r is Ok <==> is_unused(*info),
        r matches Err(e) ==> e == ConstraintError::AccountAlreadyInUse,
{
    let system = system_program_id();
    if info.owner == system && info.data.len() == 0 {
        Ok(())
    } else {
        Err(ConstraintError::AccountAlreadyInUse)
    }
}

/// The eight little-endian bytes of `v`.
pub open spec fn le_bytes(v: u64) -> Seq<u8> {
    seq![
        v as u8, (v >> 8u64) as u8, (v >> 16u64) as u8, (v >> 24u64) as u8,
        (v >> 32u64) as u8, (v >> 40u64) as u8, (v >> 48u64) as u8, (v >> 56u64) as u8,
    ]
}

/// The integer whose little-endian bytes are the eight bytes of `s` from `at`.
pub open spec fn le_value(s: Seq<u8>, at: int) -> u64 {
    (s[at] as u64) | ((s[at + 1] as u64) << 8u64) | ((s[at + 2] as u64) << 16u64) | ((s[at
        + 3] as u64) << 24u64) | ((s[at + 4] as u64) << 32u64) | ((s[at + 5] as u64) << 40u64)
        | ((s[at + 6] as u64) << 48u64) | ((s[at + 7] as u64) << 56u64)
}

/// Reading back the little-endian bytes of an integer gives the integer.
pub proof fn lemma_le_round_trip(v: u64)
    ensures
        le_value(le_bytes(v), 0) == v,
{
    let b = le_bytes(v);
    let (b0, b1, b2, b3, b4, b5, b6, b7) = (b[0], b[1], b[2], b[3], b[4], b[5], b[6], b[7]);
    assert(b0 == v as u8 && b1 == (v >> 8u64) as u8 && b2 == (v >> 16u64) as u8 && b3 == (v
        >> 24u64) as u8 && b4 == (v >> 32u64) as u8 && b5 == (v >> 40u64) as u8 && b6 == (v
        >> 48u64) as u8 && b7 == (v >> 56u64) as u8);
    assert((b0 as u64) | ((b1 as u64) << 8u64) | ((b2 as u64) << 16u64) | ((b3 as u64)
        << 24u64) | ((b4 as u64) << 32u64) | ((b5 as u64) << 40u64) | ((b6 as u64) << 48u64)
        | ((b7 as u64) << 56u64) == v) by (bit_vector)
        requires
            b0 == v as u8,
            b1 == (v >> 8u64) as u8,
            b2 == (v >> 16u64) as u8,
            b3 == (v >> 24u64) as u8,
            b4 == (v >> 32u64) as u8,
            b5 == (v >> 40u64) as u8,
            b6 == (v >> 48u64) as u8,
            b7 == (v >> 56u64) as u8,
    ;
}

/// `u64::to_le_bytes`, as a vector.
pub fn u64_to_le(v: u64) -> (r: Vec<u8>)
    ensures
        r@ == le_bytes(v),
{
    let r: Vec<u8> = vec![
        v as u8,
        (v >> 8u64) as u8,
        (v >> 16u64) as u8,
        (v >> 24u64) as u8,
        (v >> 32u64) as u8,
        (v >> 40u64) as u8,
        (v >> 48u64) as u8,
        (v >> 56u64) as u8,
    ];
    proof {
        assert(r@ =~= le_bytes(v));
    }
    r
}

/// `u64::from_le_bytes` of the eight bytes of `data` from `at`.
pub fn u64_from_le(data: &[u8], at: usize) -> (r: u64)
    requires
        at + 8 <= data@.len(),
    ensures
        r == le_value(data@, at as int),
{
    (data[at] as u64) | ((data[at + 1] as u64) << 8u64) | ((data[at + 2] as u64) << 16u64) | ((
    data[at + 3] as u64) << 24u64) | ((data[at + 4] as u64) << 32u64) | ((data[at + 5] as u64)
        << 40u64) | ((data[at + 6] as u64) << 48u64) | ((data[at + 7] as u64) << 56u64)
}

/// The deep view of a byte vector is its view.
pub proof fn lemma_bytes_deep_view(v: Vec<u8>)
    ensures
        v.deep_view() == v@,
{
    assert(v.deep_view() =~= v@);
}

/// A list of two seeds.
pub fn seeds2(a: Vec<u8>, b: Vec<u8>) -> (r: Vec<Vec<u8>>)
    ensures
        r.deep_view() == seq![a@, b@],
{
    let mut r: Vec<Vec<u8>> = Vec::new();
    r.push(a);
    r.push(b);
    proof {
        lemma_bytes_deep_view(r@[0]);
        lemma_bytes_deep_view(r@[1]);
        assert(r.deep_view() =~= seq![a@, b@]);
    }
    r
}

/// A list of three seeds.
pub fn seeds3(a: Vec<u8>, b: Vec<u8>, c: Vec<u8>) -> (r: Vec<Vec<u8>>)
    ensures
        r.deep_view() == seq![a@, b@, c@],
{
    let mut r: Vec<Vec<u8>> = Vec::new();
    r.push(a);
    r.push(b);
    r.push(c);
    proof {
        lemma_bytes_deep_view(r@[0]);
        lemma_bytes_deep_view(r@[1]);
        lemma_bytes_deep_view(r@[2]);
        assert(r.deep_view() =~= seq![a@, b@, c@]);
    }
    r
}

/// A list of four seeds.
pub fn seeds4(a: Vec<u8>, b: Vec<u8>, c: Vec<u8>, d: Vec<u8>) -> (r: Vec<Vec<u8>>)
    ensures
        r.deep_view() == seq![a@, b@, c@, d@],
{
    let mut r: Vec<Vec<u8>> = Vec::new();
    r.push(a);
    r.push(b);
    r.push(c);
    r.push(d);
    proof {
        lemma_bytes_deep_view(r@[0]);
        lemma_bytes_deep_view(r@[1]);
        lemma_bytes_deep_view(r@[2]);
        lemma_bytes_deep_view(r@[3]);
        assert(r.deep_view() =~= seq![a@, b@, c@, d@]);
    }
    r
}

/// A list of one seed.
pub fn seeds1(a: Vec<u8>) -> (r: Vec<Vec<u8>>)
    ensures
        r.deep_view() == seq![a@],
{
    let mut r: Vec<Vec<u8>> = Vec::new();
    r.push(a);
    proof {
        lemma_bytes_deep_view(r@[0]);
        assert(r.deep_view() =~= seq![a@]);
    }
    r
}
} // verus!
