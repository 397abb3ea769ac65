//! A payment splitter that sends a share of each payment to a recipient and
//! the rest to a treasury by calling the token program. The unchecked
//! instructions hand the call to whatever token accounts and program they are
//! given; the checked one verifies every token account's owner and mint and
//! the token program's address.
use vstd::prelude::*;
use crate::account::{
    canonical_bump, check_canonical_pda, check_pda_with_bump, check_signer, check_vacant,
    is_canonical_pda, is_pda_with_bump, le_bytes, seeds2, token_program_bytes, token_program_id,
    u64_to_le, Account, AccountInfo, AccountMeta, ConstraintError, Instruction, InstructionError,
    Pubkey,
};

verus! {

#[derive(Clone, Copy, Debug)]
pub struct Splitter {
    pub authority: Pubkey,
    pub treasury: Pubkey,
    pub recipient: Pubkey,
    /// The recipient's share in basis points (10000 is the whole payment).
    pub recipient_share_bps: u16,
    pub bump: u8,
}

#[derive(Clone, Copy, Debug, PartialEq, Eq, Structural)]
pub enum SplitterError {
    InvalidShare,
    InvalidSourceOwner,
    InvalidRecipient,
    InvalidTreasury,
    MintMismatch,
    InvalidTokenProgram,
}

/// What the splitter reads of a token account.
#[derive(Clone, Copy, Debug)]
pub struct TokenAccount {
    pub mint: Pubkey,
    /// The wallet that may spend from the account.
    pub owner: Pubkey,
    pub amount: u64,
}

/// One token transfer for the token program at `program` to perform.
#[derive(Clone, Copy, Debug)]
pub struct TokenTransfer {
    pub program: Pubkey,
    pub from: Pubkey,
    pub to: Pubkey,
    pub authority: Pubkey,
    pub amount: u64,
}

pub type SplitResult = Result<Vec<TokenTransfer>, InstructionError<SplitterError>>;

/// Basis points in a whole.
pub const BPS_DENOMINATOR: u16 = 10000;

/// The seed `b"splitter"`.
pub open spec fn splitter_seed() -> Seq<u8> {
    seq![115u8, 112, 108, 105, 116, 116, 101, 114]
}

pub open spec fn splitter_seeds(authority: Seq<u8>) -> Seq<Seq<u8>> {
    seq![splitter_seed(), authority]
}

fn make_splitter_seeds(authority: &Pubkey) -> (r: Vec<Vec<u8>>)
    ensures
        r.deep_view() == splitter_seeds(authority@),
{
    let s: Vec<u8> = vec![115u8, 112, 108, 105, 116, 116, 101, 114];
    proof {
        assert(s@ =~= splitter_seed());
    }
    seeds2(s, authority.to_vec())
}

/// The recipient's part of `amount`: `amount * share_bps / 10000`, rounded down.
pub open spec fn recipient_part(amount: u64, share_bps: u16) -> u64 {
    (amount * share_bps / 10000) as u64
}

/// Splits `amount` into the recipient's part and the treasury's rest.
pub fn split_amounts(amount: u64, share_bps: u16) -> (r: (u64, u64))
    requires
        share_bps <= BPS_DENOMINATOR,
    ensures
        r.0 == recipient_part(amount, share_bps),
        r.0 + r.1 == amount,
{
    proof {
        assert((amount as int) * (share_bps as int) <= (u64::MAX as int) * 10000) by (nonlinear_arith)
            requires
                share_bps <= 10000,
                amount <= u64::MAX,
        ;
    }
    let product = (amount as u128) * (share_bps as u128);
    proof {
        assert(product <= amount * 10000) by (nonlinear_arith)
            requires
                product == amount * share_bps,
                share_bps <= 10000,
                amount >= 0,
        ;
    }
    let recipient = (product / 10000) as u64;
    (recipient, amount - recipient)
}

/// The accounts of `initialize_splitter`.
#[derive(Clone, Debug)]
pub struct InitializeSplitter {
    /// The splitter to create, at the address derived from `splitter` and the authority.
    pub splitter: Account<Option<Splitter>>,
    pub authority: AccountInfo,
    pub treasury: AccountInfo,
    pub recipient: AccountInfo,
}

pub open spec fn initialize_splitter_error(a: InitializeSplitter, program: Seq<u8>, share_bps: u16) -> Option<
    InstructionError<SplitterError>,
> {
    if !a.authority.is_signer {
        Some(InstructionError::Constraint(ConstraintError::AccountNotSigner))
    } else if !is_canonical_pda(a.splitter.key@, splitter_seeds(a.authority.key@), program) {
        Some(InstructionError::Constraint(ConstraintError::ConstraintSeeds))
    } else if a.splitter.value is Some {
        Some(InstructionError::Constraint(ConstraintError::AccountAlreadyInUse))
    } else if share_bps > BPS_DENOMINATOR {
        Some(InstructionError::Custom(SplitterError::InvalidShare))
    } else {
        None
    }
}

/// Creates the authority's splitter, recording the treasury, the recipient
/// and the recipient's share.
pub fn initialize_splitter(
    accounts: &mut InitializeSplitter,
    program_id: &Pubkey,
    recipient_share_bps: u16,
) -> (r: Result<(), InstructionError<SplitterError>>)
    ensures
        match initialize_splitter_error(*old(accounts), program_id@, recipient_share_bps) {
            Some(e) => r == Err::<(), InstructionError<SplitterError>>(e) && *final(accounts)
                == *old(accounts),
            None => {
                &&& r is Ok
                &&& final(accounts).splitter.key == old(accounts).splitter.key
                &&& final(accounts).authority == old(accounts).authority
                &&& final(accounts).treasury == old(accounts).treasury
                &&& final(accounts).recipient == old(accounts).recipient
                &&& final(accounts).splitter.value == Some(
                    Splitter {
                        authority: old(accounts).authority.key,
                        treasury: old(accounts).treasury.key,
                        recipient: old(accounts).recipient.key,
                        recipient_share_bps,
                        bump: canonical_bump(
                            splitter_seeds(old(accounts).authority.key@),
                            program_id@,
                        ),
                    },
                )
            },
        },
{
    if let Err(e) = check_signer(&accounts.authority) {
        return Err(InstructionError::Constraint(e));
    }
    let bump = match check_canonical_pda(
        &accounts.splitter.key,
        &make_splitter_seeds(&accounts.authority.key),
        program_id,
    ) {
        Ok(b) => b,
        Err(e) => {
            return Err(InstructionError::Constraint(e));
        },
    };
    if let Err(e) = check_vacant(&accounts.splitter) {
        return Err(InstructionError::Constraint(e));
    }
    if recipient_share_bps > BPS_DENOMINATOR {
        return Err(InstructionError::Custom(SplitterError::InvalidShare));
    }
    accounts.splitter.value = Some(
        Splitter {
            authority: accounts.authority.key,
            treasury: accounts.treasury.key,
            recipient: accounts.recipient.key,
            recipient_share_bps,
            bump,
        },
    );
    Ok(())
}

/// The two transfers of a split: the recipient's part, then the treasury's.
pub open spec fn split_transfers(
    program: Pubkey,
    from: Pubkey,
    recipient_to: Pubkey,
    treasury_to: Pubkey,
    authority: Pubkey,
    amount: u64,
    share_bps: u16,
) -> Seq<TokenTransfer> {
    let part = recipient_part(amount, share_bps);
    seq![
        TokenTransfer { program, from, to: recipient_to, authority, amount: part },
        TokenTransfer { program, from, to: treasury_to, authority, amount: (amount - part) as u64 },
    ]
}

fn make_split_transfers(
    program: Pubkey,
    from: Pubkey,
    recipient_to: Pubkey,
    treasury_to: Pubkey,
    authority: Pubkey,
    amount: u64,
    share_bps: u16,
) -> (r: Vec<TokenTransfer>)
    requires
        share_bps <= BPS_DENOMINATOR,
    ensures
        r@ == split_transfers(program, from, recipient_to, treasury_to, authority, amount, share_bps),
{
    let (part, rest) = split_amounts(amount, share_bps);
    let mut r: Vec<TokenTransfer> = Vec::new();
    r.push(TokenTransfer { program, from, to: recipient_to, authority, amount: part });
    r.push(TokenTransfer { program, from, to: treasury_to, authority, amount: rest });
    proof {
        assert(r@ =~= split_transfers(
            program,
            from,
            recipient_to,
            treasury_to,
            authority,
            amount,
            share_bps,
        ));
    }
    r
}

/// The accounts of `vulnerable_split_payment`: plain accounts, none of them
/// checked against the splitter.
#[derive(Clone, Debug)]
pub struct VulnerableSplitPayment {
    pub splitter: Account<Splitter>,
    pub source_token_account: AccountInfo,
    pub recipient_token_account: AccountInfo,
    pub treasury_token_account: AccountInfo,
    pub authority: AccountInfo,
    pub token_program: AccountInfo,
}

pub open spec fn vulnerable_split_error(a: VulnerableSplitPayment, program: Seq<u8>) -> Option<
    InstructionError<SplitterError>,
> {
    let s = a.splitter.value;
    if !a.authority.is_signer {
        Some(InstructionError::Constraint(ConstraintError::AccountNotSigner))
    } else if !is_pda_with_bump(a.splitter.key@, splitter_seeds(a.authority.key@), s.bump, program) {
        Some(InstructionError::Constraint(ConstraintError::ConstraintSeeds))
    } else if s.recipient_share_bps > BPS_DENOMINATOR {
        Some(InstructionError::Custom(SplitterError::InvalidShare))
    } else {
        None
    }
}

/// Splits `amount` into transfers to whichever token accounts were passed,
/// through whichever program was passed as the token program.
pub fn vulnerable_split_payment(
    accounts: &VulnerableSplitPayment,
    program_id: &Pubkey,
    amount: u64,
) -> (r: SplitResult)
    ensures
        match vulnerable_split_error(*accounts, program_id@) {
            Some(e) => r matches Err(f) && f == e,
            None => r matches Ok(t) && t@ == split_transfers(
                accounts.token_program.key,
                accounts.source_token_account.key,
                accounts.recipient_token_account.key,
                accounts.treasury_token_account.key,
                accounts.authority.key,
                amount,
                accounts.splitter.value.recipient_share_bps,
            ),
        },
{
    if let Err(e) = check_signer(&accounts.authority) {
        return Err(InstructionError::Constraint(e));
    }
    let splitter = &accounts.splitter.value;
    if let Err(e) = check_pda_with_bump(
        &accounts.splitter.key,
        make_splitter_seeds(&accounts.authority.key),
        splitter.bump,
        program_id,
    ) {
        return Err(InstructionError::Constraint(e));
    }
    if splitter.recipient_share_bps > BPS_DENOMINATOR {
        return Err(InstructionError::Custom(SplitterError::InvalidShare));
    }
    Ok(
        make_split_transfers(
            accounts.token_program.key,
            accounts.source_token_account.key,
            accounts.recipient_token_account.key,
            accounts.treasury_token_account.key,
            accounts.authority.key,
            amount,
            splitter.recipient_share_bps,
        ),
    )
}

/// The accounts of `vulnerable_arbitrary_cpi`.
#[derive(Clone, Debug)]
pub struct VulnerableArbitraryCpi {
    /// Any program at all.
    pub target_program: AccountInfo,
    pub from_account: AccountInfo,
    pub to_account: AccountInfo,
    pub authority: AccountInfo,
}

/// The call that `vulnerable_arbitrary_cpi` makes.
pub open spec fn arbitrary_call(a: VulnerableArbitraryCpi, amount: u64) -> (Pubkey, Seq<AccountMeta>, Seq<u8>) {
    (
        a.target_program.key,
        seq![
            AccountMeta { pubkey: a.from_account.key, is_signer: false, is_writable: true },
            AccountMeta { pubkey: a.to_account.key, is_signer: false, is_writable: true },
            AccountMeta { pubkey: a.authority.key, is_signer: true, is_writable: false },
        ],
        le_bytes(amount),
    )
}

/// Builds a call into the program the caller named, passing on the signing
/// authority: the program may do anything the authority could.
pub fn vulnerable_arbitrary_cpi(accounts: &VulnerableArbitraryCpi, amount: u64) -> (r: Result<
    Instruction,
    InstructionError<SplitterError>,
>)
    ensures
        !accounts.authority.is_signer ==> (r matches Err(e) && e == InstructionError::<
            SplitterError,
        >::Constraint(ConstraintError::AccountNotSigner)),
        accounts.authority.is_signer ==> (r matches Ok(ix) && (ix.program_id, ix.accounts@, ix.data@)
            == arbitrary_call(*accounts, amount)),
{
    if let Err(e) = check_signer(&accounts.authority) {
        return Err(InstructionError::Constraint(e));
    }
    let mut metas: Vec<AccountMeta> = Vec::new();
    metas.push(AccountMeta::new(accounts.from_account.key, false));
    metas.push(AccountMeta::new(accounts.to_account.key, false));
    metas.push(AccountMeta::new_readonly(accounts.authority.key, true));
    let ix = Instruction {
        program_id: accounts.target_program.key,
        accounts: metas,
        data: u64_to_le(amount),
    };
    proof {
        assert(ix.accounts@ =~= arbitrary_call(*accounts, amount).1);
    }
    Ok(ix)
}

/// The accounts of `secure_split_payment`.
#[derive(Clone, Debug)]
pub struct SecureSplitPayment {
    /// The splitter, at the address derived from `splitter` and the authority.
    pub splitter: Account<Splitter>,
    /// Must belong to the authority.
    pub source_token_account: Account<TokenAccount>,
    /// Must belong to the splitter's recipient and share the source's mint.
    pub recipient_token_account: Account<TokenAccount>,
    /// Must belong to the splitter's treasury and share the source's mint.
    pub treasury_token_account: Account<TokenAccount>,
    pub authority: AccountInfo,
    pub treasury: AccountInfo,
    pub recipient: AccountInfo,
    /// Must be the token program.
    pub token_program: AccountInfo,
}

pub open spec fn secure_split_error(a: SecureSplitPayment, program: Seq<u8>) -> Option<
    InstructionError<SplitterError>,
> {
    let s = a.splitter.value;
    let source = a.source_token_account.value;
    let recipient = a.recipient_token_account.value;
    let treasury = a.treasury_token_account.value;
    if !a.authority.is_signer {
        Some(InstructionError::Constraint(ConstraintError::AccountNotSigner))
    } else if a.token_program.key@ != token_program_bytes() {
        Some(InstructionError::Constraint(ConstraintError::InvalidProgramId))
    } else if !is_pda_with_bump(a.splitter.key@, splitter_seeds(a.authority.key@), s.bump, program) {
        Some(InstructionError::Constraint(ConstraintError::ConstraintSeeds))
    } else if s.authority@ != a.authority.key@ || s.treasury@ != a.treasury.key@ || s.recipient@
        != a.recipient.key@ {
        Some(InstructionError::Constraint(ConstraintError::ConstraintHasOne))
    } else if source.owner@ != a.authority.key@ {
        Some(InstructionError::Custom(SplitterError::InvalidSourceOwner))
    } else if source.mint@ != recipient.mint@ {
        Some(InstructionError::Custom(SplitterError::MintMismatch))
    } else if recipient.owner@ != s.recipient@ {
        Some(InstructionError::Custom(SplitterError::InvalidRecipient))
    } else if treasury.owner@ != s.treasury@ {
        Some(InstructionError::Custom(SplitterError::InvalidTreasury))
    } else if treasury.mint@ != source.mint@ {
        Some(InstructionError::Custom(SplitterError::MintMismatch))
    } else if s.recipient_share_bps > BPS_DENOMINATOR {
        Some(InstructionError::Custom(SplitterError::InvalidShare))
    } else {
        None
    }
}

/// Splits `amount` into transfers through the token program, from the
/// authority's token account to token accounts of the splitter's recipient
/// and treasury, all of one mint.
pub fn secure_split_payment(accounts: &SecureSplitPayment, program_id: &Pubkey, amount: u64) -> (r:
    SplitResult)
    ensures
        match secure_split_error(*accounts, program_id@) {
            Some(e) => r matches Err(f) && f == e,
            None => r matches Ok(t) && t@ == split_transfers(
                accounts.token_program.key,
                accounts.source_token_account.key,
                accounts.recipient_token_account.key,
                accounts.treasury_token_account.key,
                accounts.authority.key,
                amount,
                accounts.splitter.value.recipient_share_bps,
            ),
        },
{
    if let Err(e) = check_signer(&accounts.authority) {
        return Err(InstructionError::Constraint(e));
    }
    let token_program = token_program_id();
    if !(accounts.token_program.key == token_program) {
        return Err(InstructionError::Constraint(ConstraintError::InvalidProgramId));
    }
    let s = &accounts.splitter.value;
    if let Err(e) = check_pda_with_bump(
        &accounts.splitter.key,
        make_splitter_seeds(&accounts.authority.key),
        s.bump,
        program_id,
    ) {
        return Err(InstructionError::Constraint(e));
    }
    if !(s.authority == accounts.authority.key) || !(s.treasury == accounts.treasury.key) || !(
    s.recipient == accounts.recipient.key) {
        return Err(InstructionError::Constraint(ConstraintError::ConstraintHasOne));
    }
    let source = &accounts.source_token_account.value;
    let recipient = &accounts.recipient_token_account.value;
    let treasury = &accounts.treasury_token_account.value;
    if !(source.owner == accounts.authority.key) {
        return Err(InstructionError::Custom(SplitterError::InvalidSourceOwner));
    }
    if !(source.mint == recipient.mint) {
        return Err(InstructionError::Custom(SplitterError::MintMismatch));
    }
    if !(recipient.owner == s.recipient) {
        return Err(InstructionError::Custom(SplitterError::InvalidRecipient));
    }
    if !(treasury.owner == s.treasury) {
        return Err(InstructionError::Custom(SplitterError::InvalidTreasury));
    }
    if !(treasury.mint == source.mint) {
        return Err(InstructionError::Custom(SplitterError::MintMismatch));
    }
    if s.recipient_share_bps > BPS_DENOMINATOR {
        return Err(InstructionError::Custom(SplitterError::InvalidShare));
    }
    Ok(
        make_split_transfers(
            accounts.token_program.key,
            accounts.source_token_account.key,
            accounts.recipient_token_account.key,
            accounts.treasury_token_account.key,
            accounts.authority.key,
            amount,
            s.recipient_share_bps,
        ),
    )
}


/// A split pays out exactly the amount: the recipient's part and the
/// treasury's rest add up to it.
pub proof fn lemma_split_conserves(
    program: Pubkey,
    from: Pubkey,
    recipient_to: Pubkey,
    treasury_to: Pubkey,
    authority: Pubkey,
    amount: u64,
    share_bps: u16,
)
    requires
        share_bps <= BPS_DENOMINATOR,
    ensures
        ({
            let t = split_transfers(program, from, recipient_to, treasury_to, authority, amount, share_bps);
            t[0].amount + t[1].amount == amount
        }),
{
    assert(amount * share_bps / 10000 <= amount) by (nonlinear_arith)
        requires
            share_bps <= 10000,
            amount >= 0,
    ;
}

/// The checked split pays only into token accounts of the splitter's
/// recipient and treasury, from the signing authority's account, all of one
/// mint, through the token program.
pub proof fn lemma_secure_split_destinations(a: SecureSplitPayment, program: Seq<u8>)
    requires
        secure_split_error(a, program) is None,
    ensures
        a.authority.is_signer,
        a.token_program.key@ == token_program_bytes(),
        a.source_token_account.value.owner@ == a.splitter.value.authority@,
        a.recipient_token_account.value.owner@ == a.splitter.value.recipient@,
        a.treasury_token_account.value.owner@ == a.splitter.value.treasury@,
        a.recipient_token_account.value.mint@ == a.source_token_account.value.mint@,
        a.treasury_token_account.value.mint@ == a.source_token_account.value.mint@,
{
}

/// The unchecked split sends the recipient's part to whatever account was
/// passed, through whatever program was passed, whoever owns them.
pub proof fn lemma_vulnerable_split_destinations(a: VulnerableSplitPayment, program: Seq<u8>, amount: u64)
    requires
        vulnerable_split_error(a, program) is None,
    ensures
        ({
            let t = split_transfers(
                a.token_program.key,
                a.source_token_account.key,
                a.recipient_token_account.key,
                a.treasury_token_account.key,
                a.authority.key,
                amount,
                a.splitter.value.recipient_share_bps,
            );
            t[0].to == a.recipient_token_account.key && t[0].program == a.token_program.key
        }),
{
}

} // verus!
