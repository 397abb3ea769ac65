//! A protocol configuration with an admin. The unchecked instructions accept
//! an admin address that never signed, or no authority at all; the checked
//! ones require the recorded admin's signature and hand the role over in two
//! signed steps.
use vstd::prelude::*;
use crate::account::{
    canonical_bump, check_canonical_pda, check_pda_with_bump, check_signer, check_vacant,
    is_canonical_pda, is_pda_with_bump, seeds1, Account, AccountInfo, ConstraintError,
    InstructionError, Pubkey,
};

verus! {

#[derive(Clone, Copy, Debug)]
pub struct Config {
    /// The admin who may change the settings.
    pub admin: Pubkey,
    /// The admin nominated to take over, until they accept.
    pub pending_admin: Option<Pubkey>,
    /// The protocol fee in basis points.
    pub fee_bps: u16,
    /// The largest deposit, in lamports.
    pub max_deposit: u64,
    pub is_paused: bool,
    pub bump: u8,
}

#[derive(Clone, Copy, Debug, PartialEq, Eq, Structural)]
pub enum ConfigError {
    Unauthorized,
    FeeTooHigh,
    NoPendingAdmin,
    NotPendingAdmin,
}

pub type ConfigResult = Result<(), InstructionError<ConfigError>>;

/// The highest fee the checked update accepts: 10%.
pub const MAX_FEE_BPS: u16 = 1000;

/// The largest deposit of a new configuration: 1000 SOL.
pub const INITIAL_MAX_DEPOSIT: u64 = 1_000_000_000_000;

/// The seed `b"config"`.
pub open spec fn config_seed() -> Seq<u8> {
    seq![99u8, 111, 110, 102, 105, 103]
}

fn make_config_seeds() -> (r: Vec<Vec<u8>>)
    ensures
        r.deep_view() == seq![config_seed()],
{
    let s: Vec<u8> = vec![99u8, 111, 110, 102, 105, 103];
    proof {
        assert(s@ =~= config_seed());
    }
    seeds1(s)
}

/// The configuration account is at the address derived from `config` and its bump.
pub open spec fn config_at_seeds(config: Account<Config>, program: Seq<u8>) -> bool {
    is_pda_with_bump(config.key@, seq![config_seed()], config.value.bump, program)
}

fn check_config_seeds(config: &Account<Config>, program_id: &Pubkey) -> (r: ConfigResult)
    ensures
        r is Ok <==> config_at_seeds(*config, program_id@),
        r matches Err(e) ==> e == InstructionError::<ConfigError>::Constraint(
            ConstraintError::ConstraintSeeds,
        ),
{
    match check_pda_with_bump(&config.key, make_config_seeds(), config.value.bump, program_id) {
        Ok(()) => Ok(()),
        Err(e) => Err(InstructionError::Constraint(e)),
    }
}

/// The configuration with the fee replaced.
pub open spec fn with_fee(c: Config, fee: u16) -> Config {
    Config { fee_bps: fee, ..c }
}

/// The accounts of `initialize`.
#[derive(Clone, Debug)]
pub struct Initialize {
    /// The configuration to create, at the address derived from `config`.
    pub config: Account<Option<Config>>,
    pub admin: AccountInfo,
}

pub open spec fn initialize_error(a: Initialize, program: Seq<u8>) -> Option<
    InstructionError<ConfigError>,
> {
    if !a.admin.is_signer {
        Some(InstructionError::Constraint(ConstraintError::AccountNotSigner))
    } else if !is_canonical_pda(a.config.key@, seq![config_seed()], program) {
        Some(InstructionError::Constraint(ConstraintError::ConstraintSeeds))
    } else if a.config.value is Some {
        Some(InstructionError::Constraint(ConstraintError::AccountAlreadyInUse))
    } else {
        None
    }
}

/// Creates the configuration with the signer as admin, no pending admin, the
/// given fee, and the protocol running.
pub fn initialize(accounts: &mut Initialize, program_id: &Pubkey, initial_fee_bps: u16) -> (r:
    ConfigResult)
    ensures
        match initialize_error(*old(accounts), program_id@) {
            Some(e) => r == Err::<(), InstructionError<ConfigError>>(e) && *final(accounts)
                == *old(accounts),
            None => {
                &&& r is Ok
                &&& final(accounts).config.key == old(accounts).config.key
                &&& final(accounts).admin == old(accounts).admin
                &&& final(accounts).config.value == Some(
                    Config {
                        admin: old(accounts).admin.key,
                        pending_admin: None,
                        fee_bps: initial_fee_bps,
                        max_deposit: INITIAL_MAX_DEPOSIT,
                        is_paused: false,
                        bump: canonical_bump(seq![config_seed()], program_id@),
                    },
                )
            },
        },
{
    if let Err(e) = check_signer(&accounts.admin) {
        return Err(InstructionError::Constraint(e));
    }
    let bump = match check_canonical_pda(&accounts.config.key, &make_config_seeds(), program_id) {
        Ok(b) => b,
        Err(e) => {
            return Err(InstructionError::Constraint(e));
        },
    };
    if let Err(e) = check_vacant(&accounts.config) {
        return Err(InstructionError::Constraint(e));
    }
    accounts.config.value = Some(
        Config {
            admin: accounts.admin.key,
            pending_admin: None,
            fee_bps: initial_fee_bps,
            max_deposit: INITIAL_MAX_DEPOSIT,
            is_paused: false,
            bump,
        },
    );
    Ok(())
}

/// The accounts of `vulnerable_update_fee`: `new_admin` need not sign.
#[derive(Clone, Debug)]
pub struct VulnerableUpdateConfig {
    pub config: Account<Config>,
    pub new_admin: AccountInfo,
    pub caller: AccountInfo,
}

pub open spec fn vulnerable_update_fee_error(a: VulnerableUpdateConfig, program: Seq<u8>) -> Option<
    InstructionError<ConfigError>,
> {
    if !a.caller.is_signer {
        Some(InstructionError::Constraint(ConstraintError::AccountNotSigner))
    } else if !config_at_seeds(a.config, program) {
        Some(InstructionError::Constraint(ConstraintError::ConstraintSeeds))
    } else if a.config.value.admin@ != a.new_admin.key@ {
        Some(InstructionError::Custom(ConfigError::Unauthorized))
    } else {
        None
    }
}

/// Sets the fee when the admin's address is among the accounts, whoever signed.
pub fn vulnerable_update_fee(
    accounts: &mut VulnerableUpdateConfig,
    program_id: &Pubkey,
    new_fee_bps: u16,
) -> (r: ConfigResult)
    ensures
        match vulnerable_update_fee_error(*old(accounts), program_id@) {
            Some(e) => r == Err::<(), InstructionError<ConfigError>>(e) && *final(accounts)
                == *old(accounts),
            None => {
                &&& r is Ok
                &&& *final(accounts) == (VulnerableUpdateConfig {
                    config: Account {
                        value: with_fee(old(accounts).config.value, new_fee_bps),
                        ..old(accounts).config
                    },
                    ..*old(accounts)
                })
            },
        },
{
    if let Err(e) = check_signer(&accounts.caller) {
        return Err(InstructionError::Constraint(e));
    }
    check_config_seeds(&accounts.config, program_id)?;
    if !(accounts.config.value.admin == accounts.new_admin.key) {
        return Err(InstructionError::Custom(ConfigError::Unauthorized));
    }
    accounts.config.value.fee_bps = new_fee_bps;
    Ok(())
}

/// The accounts of `vulnerable_transfer_admin`.
#[derive(Clone, Debug)]
pub struct VulnerableTransferAdmin {
    pub config: Account<Config>,
    pub caller: AccountInfo,
}

pub open spec fn vulnerable_transfer_admin_error(a: VulnerableTransferAdmin, program: Seq<u8>) -> Option<
    InstructionError<ConfigError>,
> {
    if !a.caller.is_signer {
        Some(InstructionError::Constraint(ConstraintError::AccountNotSigner))
    } else if !config_at_seeds(a.config, program) {
        Some(InstructionError::Constraint(ConstraintError::ConstraintSeeds))
    } else {
        None
    }
}

/// Makes `new_admin` the admin at once, for any signer.
pub fn vulnerable_transfer_admin(
    accounts: &mut VulnerableTransferAdmin,
    program_id: &Pubkey,
    new_admin: Pubkey,
) -> (r: ConfigResult)
    ensures
        match vulnerable_transfer_admin_error(*old(accounts), program_id@) {
            Some(e) => r == Err::<(), InstructionError<ConfigError>>(e) && *final(accounts)
                == *old(accounts),
            None => {
                &&& r is Ok
                &&& *final(accounts) == (VulnerableTransferAdmin {
                    config: Account {
                        value: Config { admin: new_admin, ..old(accounts).config.value },
                        ..old(accounts).config
                    },
                    ..*old(accounts)
                })
            },
        },
{
    if let Err(e) = check_signer(&accounts.caller) {
        return Err(InstructionError::Constraint(e));
    }
    check_config_seeds(&accounts.config, program_id)?;
    accounts.config.value.admin = new_admin;
    Ok(())
}

/// The accounts of the admin's own instructions: the recorded admin signs.
#[derive(Clone, Debug)]
pub struct SecureUpdateConfig {
    pub config: Account<Config>,
    pub admin: AccountInfo,
}

/// The accounts of `secure_nominate_admin`: the recorded admin signs.
#[derive(Clone, Debug)]
pub struct SecureNominateAdmin {
    pub config: Account<Config>,
    pub admin: AccountInfo,
}

/// Why the signed admin checks fail, if they do.
pub open spec fn admin_error(config: Account<Config>, admin: AccountInfo, program: Seq<u8>) -> Option<
    InstructionError<ConfigError>,
> {
    if !admin.is_signer {
        Some(InstructionError::Constraint(ConstraintError::AccountNotSigner))
    } else if !config_at_seeds(config, program) {
        Some(InstructionError::Constraint(ConstraintError::ConstraintSeeds))
    } else if config.value.admin@ != admin.key@ {
        Some(InstructionError::Custom(ConfigError::Unauthorized))
    } else {
        None
    }
}

fn check_admin(config: &Account<Config>, admin: &AccountInfo, program_id: &Pubkey) -> (r:
    ConfigResult)
    ensures
        match admin_error(*config, *admin, program_id@) {
            Some(e) => r == Err::<(), InstructionError<ConfigError>>(e),
            None => r is Ok,
        },
{
    if let Err(e) = check_signer(admin) {
        return Err(InstructionError::Constraint(e));
    }
    check_config_seeds(config, program_id)?;
    if !(config.value.admin == admin.key) {
        return Err(InstructionError::Custom(ConfigError::Unauthorized));
    }
    Ok(())
}

pub open spec fn secure_update_fee_error(a: SecureUpdateConfig, program: Seq<u8>, new_fee_bps: u16) -> Option<
    InstructionError<ConfigError>,
> {
    match admin_error(a.config, a.admin, program) {
        Some(e) => Some(e),
        None => if new_fee_bps > MAX_FEE_BPS {
            Some(InstructionError::Custom(ConfigError::FeeTooHigh))
        } else {
            None
        },
    }
}

/// Sets the fee, signed by the recorded admin, up to 10%.
pub fn secure_update_fee(accounts: &mut SecureUpdateConfig, program_id: &Pubkey, new_fee_bps: u16) -> (r:
    ConfigResult)
    ensures
        match secure_update_fee_error(*old(accounts), program_id@, new_fee_bps) {
            Some(e) => r == Err::<(), InstructionError<ConfigError>>(e) && *final(accounts)
                == *old(accounts),
            None => {
                &&& r is Ok
                &&& *final(accounts) == (SecureUpdateConfig {
                    config: Account {
                        value: with_fee(old(accounts).config.value, new_fee_bps),
                        ..old(accounts).config
                    },
                    ..*old(accounts)
                })
            },
        },
{
    check_admin(&accounts.config, &accounts.admin, program_id)?;
    if new_fee_bps > MAX_FEE_BPS {
        return Err(InstructionError::Custom(ConfigError::FeeTooHigh));
    }
    accounts.config.value.fee_bps = new_fee_bps;
    Ok(())
}

/// Records `new_admin` as the pending admin, signed by the recorded admin.
pub fn secure_nominate_admin(
    accounts: &mut SecureNominateAdmin,
    program_id: &Pubkey,
    new_admin: Pubkey,
) -> (r: ConfigResult)
    ensures
        match admin_error(old(accounts).config, old(accounts).admin, program_id@) {
            Some(e) => r == Err::<(), InstructionError<ConfigError>>(e) && *final(accounts)
                == *old(accounts),
            None => {
                &&& r is Ok
                &&& *final(accounts) == (SecureNominateAdmin {
                    config: Account {
                        value: Config {
                            pending_admin: Some(new_admin),
                            ..old(accounts).config.value
                        },
                        ..old(accounts).config
                    },
                    ..*old(accounts)
                })
            },
        },
{
    check_admin(&accounts.config, &accounts.admin, program_id)?;
    accounts.config.value.pending_admin = Some(new_admin);
    Ok(())
}

/// The accounts of `secure_accept_admin`: the nominee signs.
#[derive(Clone, Debug)]
pub struct SecureAcceptAdmin {
    pub config: Account<Config>,
    pub new_admin: AccountInfo,
}

pub open spec fn secure_accept_admin_error(a: SecureAcceptAdmin, program: Seq<u8>) -> Option<
    InstructionError<ConfigError>,
> {
    if !a.new_admin.is_signer {
        Some(InstructionError::Constraint(ConstraintError::AccountNotSigner))
    } else if !config_at_seeds(a.config, program) {
        Some(InstructionError::Constraint(ConstraintError::ConstraintSeeds))
    } else {
        match a.config.value.pending_admin {
            None => Some(InstructionError::Custom(ConfigError::NoPendingAdmin)),
            Some(p) => if p@ != a.new_admin.key@ {
                Some(InstructionError::Custom(ConfigError::NotPendingAdmin))
            } else {
                None
            },
        }
    }
}

/// Completes a handover: the nominated admin signs and becomes the admin.
pub fn secure_accept_admin(accounts: &mut SecureAcceptAdmin, program_id: &Pubkey) -> (r:
    ConfigResult)
    ensures
        match secure_accept_admin_error(*old(accounts), program_id@) {
            Some(e) => r == Err::<(), InstructionError<ConfigError>>(e) && *final(accounts)
                == *old(accounts),
            None => {
                &&& r is Ok
                &&& *final(accounts) == (SecureAcceptAdmin {
                    config: Account {
                        value: Config {
                            admin: old(accounts).new_admin.key,
                            pending_admin: None,
                            ..old(accounts).config.value
                        },
                        ..old(accounts).config
                    },
                    ..*old(accounts)
                })
            },
        },
{
    if let Err(e) = check_signer(&accounts.new_admin) {
        return Err(InstructionError::Constraint(e));
    }
    check_config_seeds(&accounts.config, program_id)?;
    let pending = match accounts.config.value.pending_admin {
        Some(p) => p,
        None => {
            return Err(InstructionError::Custom(ConfigError::NoPendingAdmin));
        },
    };
    if !(pending == accounts.new_admin.key) {
        return Err(InstructionError::Custom(ConfigError::NotPendingAdmin));
    }
    accounts.config.value.admin = accounts.new_admin.key;
    accounts.config.value.pending_admin = None;
    Ok(())
}

/// Pauses or resumes the protocol, signed by the recorded admin.
pub fn secure_pause(accounts: &mut SecureUpdateConfig, program_id: &Pubkey, pause: bool) -> (r:
    ConfigResult)
    ensures
        match admin_error(old(accounts).config, old(accounts).admin, program_id@) {
            Some(e) => r == Err::<(), InstructionError<ConfigError>>(e) && *final(accounts)
                == *old(accounts),
            None => {
                &&& r is Ok
                &&& *final(accounts) == (SecureUpdateConfig {
                    config: Account {
                        value: Config { is_paused: pause, ..old(accounts).config.value },
                        ..old(accounts).config
                    },
                    ..*old(accounts)
                })
            },
        },
{
    check_admin(&accounts.config, &accounts.admin, program_id)?;
    accounts.config.value.is_paused = pause;
    Ok(())
}


/// Any signer at all can take the admin role through the unchecked transfer:
/// the outcome does not depend on who signed.
pub proof fn lemma_anyone_takes_admin(a: VulnerableTransferAdmin, program: Seq<u8>)
    requires
        a.caller.is_signer,
        config_at_seeds(a.config, program),
    ensures
        vulnerable_transfer_admin_error(a, program) is None,
{
}

/// The unchecked fee update succeeds without the admin's signature whenever
/// the admin's address is passed.
pub proof fn lemma_unsigned_admin_suffices(a: VulnerableUpdateConfig, program: Seq<u8>)
    requires
        a.caller.is_signer,
        !a.new_admin.is_signer,
        config_at_seeds(a.config, program),
        a.config.value.admin@ == a.new_admin.key@,
    ensures
        vulnerable_update_fee_error(a, program) is None,
{
}

/// The checked admin instructions succeed only for the recorded admin's
/// signature.
pub proof fn lemma_admin_must_sign(config: Account<Config>, admin: AccountInfo, program: Seq<u8>)
    ensures
        admin_error(config, admin, program) is None ==> admin.is_signer && config.value.admin@
            == admin.key@,
{
}

/// A handover completes in two signed steps: once the admin nominates `k`,
/// a signature by `k` on the same configuration makes `k` the admin, and no
/// other signer can accept.
pub proof fn lemma_two_step_handover(
    nominate: SecureNominateAdmin,
    accept: SecureAcceptAdmin,
    program: Seq<u8>,
    k: Pubkey,
)
    requires
        admin_error(nominate.config, nominate.admin, program) is None,
        accept.config == (Account {
            value: Config { pending_admin: Some(k), ..nominate.config.value },
            ..nominate.config
        }),
        accept.new_admin.is_signer,
    ensures
        secure_accept_admin_error(accept, program) is None <==> accept.new_admin.key@ == k@,
{
}

} // verus!
