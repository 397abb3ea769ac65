use anchor_lang::prelude::Pubkey as SolKey;
use solana_security_demos::account::{Account, AccountInfo, ConstraintError, InstructionError, Pubkey};
use solana_security_demos::unsafe_cpi_token_transfer::{
    initialize_splitter, secure_split_payment, split_amounts, vulnerable_arbitrary_cpi,
    vulnerable_split_payment, InitializeSplitter, SecureSplitPayment, Splitter, SplitterError,
    TokenAccount, VulnerableArbitraryCpi, VulnerableSplitPayment,
};

fn key(b: u8) -> Pubkey {
    Pubkey::new([b; 32])
}

fn pda(seeds: &[&[u8]]) -> (Pubkey, u8) {
    let (k, b) = SolKey::find_program_address(seeds, &SolKey::new_from_array([7u8; 32]));
    (Pubkey::new(k.to_bytes()), b)
}

fn token_program_id() -> Pubkey {
    Pubkey::new(anchor_spl::token::ID.to_bytes())
}

fn info(k: Pubkey, is_signer: bool) -> AccountInfo {
    AccountInfo::new(k, key(0), is_signer, 0, vec![])
}

// authority 1, treasury 2, recipient 3; mint 9
fn splitter(share: u16) -> Account<Splitter> {
    let (k, _) = pda(&[b"splitter", &key(1).bytes]);
    let mut init = InitializeSplitter {
        splitter: Account { key: k, value: None },
        authority: info(key(1), true),
        treasury: info(key(2), false),
        recipient: info(key(3), false),
    };
    initialize_splitter(&mut init, &key(7), share).unwrap();
    Account { key: k, value: init.splitter.value.unwrap() }
}

fn token(k: u8, owner: Pubkey) -> Account<TokenAccount> {
    Account { key: key(k), value: TokenAccount { mint: key(9), owner, amount: 0 } }
}

fn secure_accounts() -> SecureSplitPayment {
    SecureSplitPayment {
        splitter: splitter(2500),
        source_token_account: token(11, key(1)),
        recipient_token_account: token(13, key(3)),
        treasury_token_account: token(12, key(2)),
        authority: info(key(1), true),
        treasury: info(key(2), false),
        recipient: info(key(3), false),
        token_program: info(token_program_id(), false),
    }
}

#[test]
fn split_amounts_round_down_for_recipient() {
    assert_eq!(split_amounts(1000, 2500), (250, 750));
    assert_eq!(split_amounts(999, 3333), (332, 667));
    assert_eq!(split_amounts(u64::MAX, 10000), (u64::MAX, 0));
    assert_eq!(split_amounts(7, 0), (0, 7));
}

#[test]
fn initialize_splitter_records_parties() {
    let (_, bump) = pda(&[b"splitter", &key(1).bytes]);
    let s = splitter(2500).value;
    assert!(s.authority == key(1) && s.treasury == key(2) && s.recipient == key(3));
    assert_eq!(s.recipient_share_bps, 2500);
    assert_eq!(s.bump, bump);
}

#[test]
fn initialize_splitter_rejects_share_above_whole() {
    let (k, _) = pda(&[b"splitter", &key(1).bytes]);
    let mut init = InitializeSplitter {
        splitter: Account { key: k, value: None },
        authority: info(key(1), true),
        treasury: info(key(2), false),
        recipient: info(key(3), false),
    };
    assert_eq!(
        initialize_splitter(&mut init, &key(7), 10001),
        Err(InstructionError::Custom(SplitterError::InvalidShare))
    );
    assert!(init.splitter.value.is_none());
}

#[test]
fn vulnerable_split_pays_any_account() {
    let accounts = VulnerableSplitPayment {
        splitter: splitter(2500),
        source_token_account: info(key(11), false),
        recipient_token_account: info(key(66), false),
        treasury_token_account: info(key(12), false),
        authority: info(key(1), true),
        token_program: info(key(99), false),
    };
    let t = vulnerable_split_payment(&accounts, &key(7), 1000).unwrap();
    assert_eq!(t.len(), 2);
    assert!(t[0].to == key(66) && t[0].program == key(99) && t[0].from == key(11));
    assert_eq!(t[0].amount, 250);
    assert!(t[1].to == key(12));
    assert_eq!(t[1].amount, 750);
}

#[test]
fn vulnerable_split_needs_signature() {
    let accounts = VulnerableSplitPayment {
        splitter: splitter(2500),
        source_token_account: info(key(11), false),
        recipient_token_account: info(key(66), false),
        treasury_token_account: info(key(12), false),
        authority: info(key(1), false),
        token_program: info(key(99), false),
    };
    assert_eq!(
        vulnerable_split_payment(&accounts, &key(7), 1000).unwrap_err(),
        InstructionError::Constraint(ConstraintError::AccountNotSigner)
    );
}

#[test]
fn secure_split_pays_recorded_parties() {
    let accounts = secure_accounts();
    let t = secure_split_payment(&accounts, &key(7), 1000).unwrap();
    assert!(t[0].to == key(13) && t[1].to == key(12));
    assert!(t[0].program == token_program_id());
    assert!(t[0].authority == key(1));
    assert_eq!((t[0].amount, t[1].amount), (250, 750));
}

#[test]
fn secure_split_rejections() {
    let mut a = secure_accounts();
    a.recipient_token_account = token(66, key(6));
    assert_eq!(
        secure_split_payment(&a, &key(7), 1).unwrap_err(),
        InstructionError::Custom(SplitterError::InvalidRecipient)
    );
    let mut a = secure_accounts();
    a.treasury_token_account = token(66, key(6));
    assert_eq!(
        secure_split_payment(&a, &key(7), 1).unwrap_err(),
        InstructionError::Custom(SplitterError::InvalidTreasury)
    );
    let mut a = secure_accounts();
    a.source_token_account = token(66, key(6));
    assert_eq!(
        secure_split_payment(&a, &key(7), 1).unwrap_err(),
        InstructionError::Custom(SplitterError::InvalidSourceOwner)
    );
    let mut a = secure_accounts();
    a.recipient_token_account.value.mint = key(8);
    assert_eq!(
        secure_split_payment(&a, &key(7), 1).unwrap_err(),
        InstructionError::Custom(SplitterError::MintMismatch)
    );
    let mut a = secure_accounts();
    a.treasury_token_account.value.mint = key(8);
    assert_eq!(
        secure_split_payment(&a, &key(7), 1).unwrap_err(),
        InstructionError::Custom(SplitterError::MintMismatch)
    );
    let mut a = secure_accounts();
    a.token_program = info(key(99), false);
    assert_eq!(
        secure_split_payment(&a, &key(7), 1).unwrap_err(),
        InstructionError::Constraint(ConstraintError::InvalidProgramId)
    );
    let mut a = secure_accounts();
    a.recipient = info(key(6), false);
    assert_eq!(
        secure_split_payment(&a, &key(7), 1).unwrap_err(),
        InstructionError::Constraint(ConstraintError::ConstraintHasOne)
    );
}

#[test]
fn arbitrary_cpi_forwards_authority() {
    let accounts = VulnerableArbitraryCpi {
        target_program: info(key(99), false),
        from_account: info(key(11), false),
        to_account: info(key(12), false),
        authority: info(key(1), true),
    };
    let ix = vulnerable_arbitrary_cpi(&accounts, 258).unwrap();
    assert!(ix.program_id == key(99));
    assert_eq!(ix.data, vec![2u8, 1, 0, 0, 0, 0, 0, 0]);
    assert_eq!(ix.accounts.len(), 3);
    assert!(ix.accounts[0].pubkey == key(11) && ix.accounts[0].is_writable && !ix.accounts[0].is_signer);
    assert!(ix.accounts[1].pubkey == key(12) && ix.accounts[1].is_writable);
    assert!(ix.accounts[2].pubkey == key(1) && ix.accounts[2].is_signer && !ix.accounts[2].is_writable);

    let unsigned = VulnerableArbitraryCpi { authority: info(key(1), false), ..accounts };
    assert!(vulnerable_arbitrary_cpi(&unsigned, 1).is_err());
}
