pub mod errors;
pub mod pubkey;
pub mod account;
pub mod derivation;
pub mod state;
pub mod helpers;
pub mod effects;
pub mod init_admin;
pub mod init_rating;
pub mod delete_rating;

use crate::account::{Account, AccountV};
use crate::delete_rating::{spec_delete_rating_outcome, DeleteRating, DeleteRatingAccountsV};
use crate::effects::{EffectV, HostEnv};
use crate::errors::{spec_error, ProgramError, RatingsErrors};
use crate::init_admin::{spec_init_admin_outcome, InitAdmin, InitAdminAccountsV};
use crate::init_rating::{
    spec_init_rating_outcome, spec_parse_init_rating, InitRating, InitRatingAccountsV,
};
use vstd::bytes::spec_u64_from_le_bytes;
use vstd::prelude::*;
use vstd::slice::slice_subrange;

verus! {

/// Leading payload byte that selects Initialize-Admin.
pub const INIT_ADMIN_DISCRIMINATOR: u8 = 0;

/// Leading payload byte that selects Initialize-Rating.
pub const INIT_RATING_DISCRIMINATOR: u8 = 1;

/// Leading payload byte that selects Delete-Rating.
pub const DELETE_RATING_DISCRIMINATOR: u8 = 2;

/// The complete outcome of one instruction invocation: byte 0 of the
/// instruction data selects the handler, the rest is its payload, and an
/// empty or unrecognized selector fails with `InvalidInstruction`. An error
/// outcome carries no effect list: a failed invocation performs nothing.
pub open spec fn spec_dispatch(accounts: Seq<AccountV>, data: Seq<u8>, env: HostEnv) -> Result<
    Seq<EffectV>,
    ProgramError,
> {
    if data.len() == 0 {
        Err(spec_error(RatingsErrors::InvalidInstruction))
    } else {
        let payload = data.skip(1);
        if data[0] == INIT_ADMIN_DISCRIMINATOR {
            if accounts.len() != 7 {
                Err(ProgramError::NotEnoughAccountKeys)
            } else if payload.len() < 8 {
                Err(ProgramError::InvalidAccountData)
            } else {
                spec_init_admin_outcome(
                    InitAdminAccountsV {
                        authority: accounts[0],
                        admin: accounts[1],
                        ratings_mint: accounts[2],
                        admin_ata: accounts[3],
                        system_program: accounts[4],
                        token_program: accounts[5],
                        associated_token_program: accounts[6],
                        bump: 0,
                    },
                    spec_u64_from_le_bytes(payload.subrange(0, 8)),
                    env,
                )
            }
        } else if data[0] == INIT_RATING_DISCRIMINATOR {
            if accounts.len() != 9 {
                Err(ProgramError::NotEnoughAccountKeys)
            } else {
                match spec_parse_init_rating(payload) {
                    Err(e) => Err(e),
                    Ok(tr) => spec_init_rating_outcome(
                        InitRatingAccountsV {
                            authority: accounts[0],
                            rating: accounts[1],
                            authority_ata: accounts[2],
                            admin: accounts[3],
                            admin_ata: accounts[4],
                            ratings_mint: accounts[5],
                            system_program: accounts[6],
                            token_program: accounts[7],
                            associated_token_program: accounts[8],
                            rating_bump: 0,
                        },
                        tr.0,
                        tr.1,
                        env,
                    ),
                }
            }
        } else if data[0] == DELETE_RATING_DISCRIMINATOR {
            if accounts.len() != 3 {
                Err(ProgramError::NotEnoughAccountKeys)
            } else {
                spec_delete_rating_outcome(
                    DeleteRatingAccountsV {
                        authority: accounts[0],
                        rating: accounts[1],
                        system_program: accounts[2],
                    },
                )
            }
        } else {
            Err(spec_error(RatingsErrors::InvalidInstruction))
        }
    }
}

/// Dispatch one instruction: validate everything the selected handler asks
/// for and hand back its full effect list, or the first error with no effect
/// at all.
pub fn process_instruction(accounts: &Vec<Account>, data: &[u8], env: HostEnv) -> (r: Result<
    Vec<crate::effects::Effect>,
    ProgramError,
>)
    ensures
        match r {
            Ok(plan) => spec_dispatch(accounts.deep_view(), data@, env) == Ok::<
                Seq<EffectV>,
                ProgramError,
            >(plan.deep_view()),
            Err(e) => spec_dispatch(accounts.deep_view(), data@, env) == Err::<
                Seq<EffectV>,
                ProgramError,
            >(e),
        },
{
    if data.len() == 0 {
        return Err(ProgramError::from(RatingsErrors::InvalidInstruction));
    }
    let disc = data[0];
    let payload = slice_subrange(data, 1, data.len());
    proof {
        assert(payload@ =~= data@.skip(1));
    }
    if disc == INIT_ADMIN_DISCRIMINATOR {
        let instruction = InitAdmin::try_from(accounts, payload)?;
        instruction.process(env)
    } else if disc == INIT_RATING_DISCRIMINATOR {
        let instruction = InitRating::try_from(accounts, payload)?;
        instruction.process(env)
    } else if disc == DELETE_RATING_DISCRIMINATOR {
        let instruction = DeleteRating::try_from(accounts)?;
        instruction.process()
    } else {
        Err(ProgramError::from(RatingsErrors::InvalidInstruction))
    }
}

/// Law: an empty or unrecognized discriminator fails with
/// `InvalidInstruction`, and the error outcome carries no effect list: such
/// an invocation performs nothing.
pub proof fn lemma_unknown_discriminator(accounts: Seq<AccountV>, data: Seq<u8>, env: HostEnv)
    requires
        data.len() == 0 || (data[0] != INIT_ADMIN_DISCRIMINATOR && data[0]
            != INIT_RATING_DISCRIMINATOR && data[0] != DELETE_RATING_DISCRIMINATOR),
    ensures
        spec_dispatch(accounts, data, env) == Err::<Seq<EffectV>, ProgramError>(
            spec_error(RatingsErrors::InvalidInstruction),
        ),
{
}

} // verus!
