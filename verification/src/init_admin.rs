use crate::account::{Account, AccountV};
use crate::effects::{spec_admin_proof, AuthorityProof, Effect, EffectV, HostEnv};
use crate::errors::ProgramError;
use crate::helpers::{
    spec_check_admin_key, spec_check_ata_key, spec_check_ata_program_key, spec_check_empty,
    spec_check_signer, spec_check_system_owned, spec_check_token_program_key, AdminAccount,
    AssociateTokenProgram, AssociatedTokenAccount, SignerAccount, SystemProgramAccount,
    TokenProgramAccount, MINT_LEN,
};
use crate::pubkey::{spec_id, spec_token_program_id};
use crate::state::{spec_encode_admin, AdminState, AdminStateV, ADMIN_RECORD_LEN};
use vstd::bytes::spec_u64_from_le_bytes;
use vstd::prelude::*;

verus! {

/// The mathematical view of the init-admin account list.
pub ghost struct InitAdminAccountsV {
    pub authority: AccountV,
    pub admin: AccountV,
    pub ratings_mint: AccountV,
    pub admin_ata: AccountV,
    pub system_program: AccountV,
    pub token_program: AccountV,
    pub associated_token_program: AccountV,
    pub bump: u8,
}

/// The fixed positional account list of Initialize-Admin: the paying signer,
/// the admin record account, the reward mint, the admin's associated token
/// account, and the three external program identities.
pub struct InitAdminAccounts {
    pub authority: Account,
    pub admin: Account,
    pub ratings_mint: Account,
    pub admin_ata: Account,
    pub system_program: Account,
    pub token_program: Account,
    pub associated_token_program: Account,
    pub bump: u8,
}

impl View for InitAdminAccounts {
    type V = InitAdminAccountsV;

    open spec fn view(&self) -> InitAdminAccountsV {
        InitAdminAccountsV {
            authority: self.authority@,
            admin: self.admin@,
            ratings_mint: self.ratings_mint@,
            admin_ata: self.admin_ata@,
            system_program: self.system_program@,
            token_program: self.token_program@,
            associated_token_program: self.associated_token_program@,
            bump: self.bump,
        }
    }
}

impl InitAdminAccounts {
    /// Bind the fixed positional account list; fails unless exactly seven
    /// accounts are presented. The bump starts as a placeholder and is
    /// discovered during validation.
    pub fn try_from(accounts: &Vec<Account>) -> (r: Result<InitAdminAccounts, ProgramError>)
        ensures
            match r {
                Ok(a) => accounts@.len() == 7 && a@ == (InitAdminAccountsV {
                    authority: accounts@[0]@,
                    admin: accounts@[1]@,
                    ratings_mint: accounts@[2]@,
                    admin_ata: accounts@[3]@,
                    system_program: accounts@[4]@,
                    token_program: accounts@[5]@,
                    associated_token_program: accounts@[6]@,
                    bump: 0,
                }),
                Err(e) => accounts@.len() != 7 && e == ProgramError::NotEnoughAccountKeys,
            },
    {
        if accounts.len() != 7 {
            return Err(ProgramError::NotEnoughAccountKeys);
        }
        Ok(
            InitAdminAccounts {
                authority: accounts[0].dup(),
                admin: accounts[1].dup(),
                ratings_mint: accounts[2].dup(),
                admin_ata: accounts[3].dup(),
                system_program: accounts[4].dup(),
                token_program: accounts[5].dup(),
                associated_token_program: accounts[6].dup(),
                bump: 0,
            },
        )
    }
}

/// Outcome of parsing an init-admin payload: the reward amount from the first
/// eight bytes, little endian.
pub open spec fn spec_parse_init_admin(d: Seq<u8>) -> Result<u64, ProgramError> {
    if d.len() < 8 {
        Err(ProgramError::InvalidAccountData)
    } else {
        Ok(spec_u64_from_le_bytes(d.subrange(0, 8)))
    }
}

/// The Initialize-Admin payload: the reward paid per rating.
#[derive(Debug)]
pub struct InitAdminPayload {
    pub reward_amount: u64,
}

impl InitAdminPayload {
    /// Parse the payload from the instruction bytes after the discriminator.
    pub fn try_from(data: &[u8]) -> (r: Result<InitAdminPayload, ProgramError>)
        ensures
            match r {
                Ok(p) => spec_parse_init_admin(data@) == Ok::<u64, ProgramError>(p.reward_amount),
                Err(e) => spec_parse_init_admin(data@) == Err::<u64, ProgramError>(e),
            },
    {
        if data.len() < 8 {
            return Err(ProgramError::InvalidAccountData);
        }
        let reward_amount = vstd::bytes::u64_from_le_bytes(
            vstd::slice::slice_subrange(data, 0, 8),
        );
        Ok(InitAdminPayload { reward_amount })
    }
}

/// The Initialize-Admin instruction: creates the singleton admin record at
/// its derived address, creates and initializes the reward mint with the
/// admin address as mint authority, creates the admin's associated token
/// account, mints the initial reward stock into it, and writes the record.
pub struct InitAdmin {
    pub accounts: InitAdminAccounts,
    pub payload: InitAdminPayload,
}

impl InitAdmin {
    /// Bind accounts and payload for one Initialize-Admin invocation.
    pub fn try_from(accounts: &Vec<Account>, data: &[u8]) -> (r: Result<InitAdmin, ProgramError>)
        ensures
            match r {
                Ok(a) => accounts@.len() == 7 && data@.len() >= 8 && a.accounts@
                    == (InitAdminAccountsV {
                    authority: accounts@[0]@,
                    admin: accounts@[1]@,
                    ratings_mint: accounts@[2]@,
                    admin_ata: accounts@[3]@,
                    system_program: accounts@[4]@,
                    token_program: accounts@[5]@,
                    associated_token_program: accounts@[6]@,
                    bump: 0,
                }) && a.payload.reward_amount == spec_u64_from_le_bytes(data@.subrange(0, 8)),
                Err(e) => (accounts@.len() != 7 && e == ProgramError::NotEnoughAccountKeys) || (
                accounts@.len() == 7 && data@.len() < 8 && e == ProgramError::InvalidAccountData),
            },
    {
        let accounts = InitAdminAccounts::try_from(accounts)?;
        let payload = InitAdminPayload::try_from(data)?;
        Ok(InitAdmin { accounts, payload })
    }
}

/// The effect list of a successful Initialize-Admin: create the admin record
/// account under this program (signed as the derived admin address), create
/// and initialize the reward mint with the admin address as mint authority,
/// create the admin's associated token account, mint the initial reward stock
/// into it, and write the encoded admin record.
pub open spec fn spec_init_admin_plan(
    a: InitAdminAccountsV,
    reward_amount: u64,
    bump: u8,
    env: HostEnv,
) -> Seq<EffectV> {
    seq![
        EffectV::CreateAccount {
            from: a.authority.key,
            to: a.admin.key,
            lamports: env.admin_record_rent,
            space: ADMIN_RECORD_LEN as u64,
            owner: spec_id(),
            authority: Some(spec_admin_proof(bump)),
        },
        EffectV::CreateAccount {
            from: a.authority.key,
            to: a.ratings_mint.key,
            lamports: env.mint_rent,
            space: MINT_LEN as u64,
            owner: spec_token_program_id(),
            authority: None,
        },
        EffectV::InitializeMint { mint: a.ratings_mint.key, mint_authority: a.admin.key, decimals: 9u8 },
        EffectV::CreateAssociatedTokenAccount {
            funding: a.authority.key,
            account: a.admin_ata.key,
            wallet: a.admin.key,
            mint: a.ratings_mint.key,
        },
        EffectV::MintTo {
            mint: a.ratings_mint.key,
            account: a.admin_ata.key,
            mint_authority: a.admin.key,
            amount: (reward_amount * 1000) as u64,
            authority: spec_admin_proof(bump),
        },
        EffectV::WriteRecord {
            account: a.admin.key,
            bytes: spec_encode_admin(
                AdminStateV {
                    authority: a.authority.key,
                    token_mint: a.ratings_mint.key,
                    reward_amount,
                    bump,
                },
            ),
        },
    ]
}

/// The complete outcome of Initialize-Admin on given accounts, payload and
/// environment: the first failing precondition's error, or the full effect
/// list. Checked in order: signer flag, derived admin address, admin account
/// emptiness, the three external program identities, the derived-ATA rule for
/// the admin's token account, and that the minted stock fits a u64.
pub open spec fn spec_init_admin_outcome(
    a: InitAdminAccountsV,
    reward_amount: u64,
    env: HostEnv,
) -> Result<Seq<EffectV>, ProgramError> {
    if spec_check_signer(a.authority) is Err {
        Err(spec_check_signer(a.authority)->Err_0)
    } else if spec_check_admin_key(a.admin.key) is Err {
        Err(spec_check_admin_key(a.admin.key)->Err_0)
    } else {
        let bump = spec_check_admin_key(a.admin.key)->Ok_0;
        if spec_check_empty(a.admin.data) is Err {
            Err(spec_check_empty(a.admin.data)->Err_0)
        } else if spec_check_system_owned(a.system_program.owner) is Err {
            Err(spec_check_system_owned(a.system_program.owner)->Err_0)
        } else if spec_check_token_program_key(a.token_program.key) is Err {
            Err(spec_check_token_program_key(a.token_program.key)->Err_0)
        } else if spec_check_ata_program_key(a.associated_token_program.key) is Err {
            Err(spec_check_ata_program_key(a.associated_token_program.key)->Err_0)
        } else if spec_check_ata_key(a.admin_ata.key, a.admin.key, a.ratings_mint.key) is Err {
            Err(spec_check_ata_key(a.admin_ata.key, a.admin.key, a.ratings_mint.key)->Err_0)
        } else if reward_amount * 1000 > u64::MAX {
            Err(ProgramError::ArithmeticOverflow)
        } else {
            Ok(spec_init_admin_plan(a, reward_amount, bump, env))
        }
    }
}

impl InitAdmin {
    /// Validate every precondition of Initialize-Admin in order and, only if
    /// all hold, emit the full effect list; a failure emits nothing.
    pub fn process(self, env: HostEnv) -> (r: Result<Vec<Effect>, ProgramError>)
        ensures
            match r {
                Ok(plan) => spec_init_admin_outcome(self.accounts@, self.payload.reward_amount, env)
                    == Ok::<Seq<EffectV>, ProgramError>(plan.deep_view()),
                Err(e) => spec_init_admin_outcome(self.accounts@, self.payload.reward_amount, env)
                    == Err::<Seq<EffectV>, ProgramError>(e),
            },
    {
        let InitAdmin { accounts, payload } = self;

        SignerAccount::check_is_signer(&accounts.authority)?;
        let bump = AdminAccount::check_is_valid_admin(&accounts.admin)?;
        AdminAccount::check_is_empty(&accounts.admin)?;
        SystemProgramAccount::check_is_system_program(&accounts.system_program)?;
        TokenProgramAccount::check_is_token_program(&accounts.token_program)?;
        AssociateTokenProgram::check_is_associate_token_program(
            &accounts.associated_token_program,
        )?;
        AssociatedTokenAccount::check_is_valid_ata(
            &accounts.admin_ata,
            &accounts.admin,
            &accounts.ratings_mint,
        )?;
        if payload.reward_amount > u64::MAX / 1000 {
            return Err(ProgramError::ArithmeticOverflow);
        }
        let minted: u64 = payload.reward_amount * 1000;

        let record = AdminState {
            authority: accounts.authority.key,
            token_mint: accounts.ratings_mint.key,
            reward_amount: payload.reward_amount,
            bump,
        };
        let record_bytes = record.encode();

        let mut plan: Vec<Effect> = Vec::new();
        plan.push(
            Effect::CreateAccount {
                from: accounts.authority.key,
                to: accounts.admin.key,
                lamports: env.admin_record_rent,
                space: ADMIN_RECORD_LEN as u64,
                owner: crate::pubkey::program_id(),
                authority: Some(
                    AuthorityProof { seeds: crate::derivation::admin_seeds(), bump },
                ),
            },
        );
        plan.push(
            Effect::CreateAccount {
                from: accounts.authority.key,
                to: accounts.ratings_mint.key,
                lamports: env.mint_rent,
                space: MINT_LEN as u64,
                owner: crate::pubkey::token_program_id(),
                authority: None,
            },
        );
        plan.push(
            Effect::InitializeMint {
                mint: accounts.ratings_mint.key,
                mint_authority: accounts.admin.key,
                decimals: 9,
            },
        );
        plan.push(
            Effect::CreateAssociatedTokenAccount {
                funding: accounts.authority.key,
                account: accounts.admin_ata.key,
                wallet: accounts.admin.key,
                mint: accounts.ratings_mint.key,
            },
        );
        plan.push(
            Effect::MintTo {
                mint: accounts.ratings_mint.key,
                account: accounts.admin_ata.key,
                mint_authority: accounts.admin.key,
                amount: minted,
                authority: AuthorityProof { seeds: crate::derivation::admin_seeds(), bump },
            },
        );
        plan.push(Effect::WriteRecord { account: accounts.admin.key, bytes: record_bytes });
        proof {
            assert(plan.deep_view() =~~= spec_init_admin_plan(
                self.accounts@,
                self.payload.reward_amount,
                bump,
                env,
            ));
        }
        Ok(plan)
    }
}

} // verus!
