use crate::account::{Account, AccountV};
use crate::effects::{Effect, EffectV};
use crate::errors::ProgramError;
use crate::helpers::{
    spec_check_rating_key, spec_check_signer, spec_check_system_owned, RatingAccount,
    SignerAccount, SystemProgramAccount,
};
use crate::pubkey::spec_id;
use crate::state::{
    spec_decode_rating, spec_trim_zeros, trim_trailing_zeros, RatingState, RATING_RECORD_LEN,
};
use vstd::prelude::*;

verus! {

/// The mathematical view of the delete-rating account list.
pub ghost struct DeleteRatingAccountsV {
    pub authority: AccountV,
    pub rating: AccountV,
    pub system_program: AccountV,
}

/// The fixed positional account list of Delete-Rating: the claiming signer,
/// the rating record account, and the system program identity.
pub struct DeleteRatingAccounts {
    pub authority: Account,
    pub rating: Account,
    pub system_program: Account,
}

impl View for DeleteRatingAccounts {
    type V = DeleteRatingAccountsV;

    open spec fn view(&self) -> DeleteRatingAccountsV {
        DeleteRatingAccountsV {
            authority: self.authority@,
            rating: self.rating@,
            system_program: self.system_program@,
        }
    }
}

impl DeleteRatingAccounts {
    /// Bind the fixed positional account list; fails unless exactly three
    /// accounts are presented.
    pub fn try_from(accounts: &Vec<Account>) -> (r: Result<DeleteRatingAccounts, ProgramError>)
        ensures
            match r {
                Ok(a) => accounts@.len() == 3 && a@ == (DeleteRatingAccountsV {
                    authority: accounts@[0]@,
                    rating: accounts@[1]@,
                    system_program: accounts@[2]@,
                }),
                Err(e) => accounts@.len() != 3 && e == ProgramError::NotEnoughAccountKeys,
            },
    {
        if accounts.len() != 3 {
            return Err(ProgramError::NotEnoughAccountKeys);
        }
        Ok(
            DeleteRatingAccounts {
                authority: accounts[0].dup(),
                rating: accounts[1].dup(),
                system_program: accounts[2].dup(),
            },
        )
    }
}

/// The Delete-Rating instruction: re-validates that the claimer is the
/// original rater by re-deriving the record's address from the stored title,
/// then reclaims the record's balance and closes it.
pub struct DeleteRating {
    pub accounts: DeleteRatingAccounts,
}

impl DeleteRating {
    /// Bind the accounts for one Delete-Rating invocation; it has no payload.
    pub fn try_from(accounts: &Vec<Account>) -> (r: Result<DeleteRating, ProgramError>)
        ensures
            match r {
                Ok(a) => accounts@.len() == 3 && a.accounts@ == (DeleteRatingAccountsV {
                    authority: accounts@[0]@,
                    rating: accounts@[1]@,
                    system_program: accounts@[2]@,
                }),
                Err(e) => accounts@.len() != 3 && e == ProgramError::NotEnoughAccountKeys,
            },
    {
        Ok(DeleteRating { accounts: DeleteRatingAccounts::try_from(accounts)? })
    }
}

/// The effect list of a successful Delete-Rating: move the record account's
/// whole balance back to the rater, then mark the account closed. This is the
/// direct balance-move policy; the record's derived authority is not needed,
/// since the program itself owns the record account.
pub open spec fn spec_delete_rating_plan(a: DeleteRatingAccountsV) -> Seq<EffectV> {
    seq![
        EffectV::MoveLamports { from: a.rating.key, to: a.authority.key, amount: a.rating.lamports },
        EffectV::CloseAccount { account: a.rating.key },
    ]
}

/// The complete outcome of Delete-Rating on given accounts: the first failing
/// precondition's error, or the effect list. Checked in order: signer flag,
/// system program identity, the record's size and owner, and that the stored
/// title, trimmed of its zero padding, re-derives under the claimer's
/// identity to the presented record address — the sole access control.
pub open spec fn spec_delete_rating_outcome(a: DeleteRatingAccountsV) -> Result<
    Seq<EffectV>,
    ProgramError,
> {
    if spec_check_signer(a.authority) is Err {
        Err(spec_check_signer(a.authority)->Err_0)
    } else if spec_check_system_owned(a.system_program.owner) is Err {
        Err(spec_check_system_owned(a.system_program.owner)->Err_0)
    } else if a.rating.data.len() != RATING_RECORD_LEN {
        Err(ProgramError::InvalidAccountData)
    } else if a.rating.owner != spec_id() {
        Err(ProgramError::InvalidAccountOwner)
    } else {
        let record = spec_decode_rating(a.rating.data);
        let title = spec_trim_zeros(record.movie_title);
        if spec_check_rating_key(a.rating.key, a.authority.key, title) is Err {
            Err(spec_check_rating_key(a.rating.key, a.authority.key, title)->Err_0)
        } else {
            Ok(spec_delete_rating_plan(a))
        }
    }
}

/// Law: the re-derivation is the access control of Delete-Rating. When the
/// stored title, trimmed of its padding, derives under the claimer's identity
/// to some address other than the presented record's, the instruction fails
/// with `InvalidRatingAccount` and performs nothing.
pub proof fn lemma_delete_wrong_derivation(a: DeleteRatingAccountsV)
    requires
        spec_check_signer(a.authority) is Ok,
        spec_check_system_owned(a.system_program.owner) is Ok,
        a.rating.data.len() == RATING_RECORD_LEN,
        a.rating.owner == spec_id(),
        ({
            let title = spec_trim_zeros(spec_decode_rating(a.rating.data).movie_title);
            let pda = crate::derivation::pda_of(
                crate::derivation::spec_rating_seeds(a.authority.key, title),
                spec_id(),
            );
            pda is Some && a.rating.key != pda->Some_0.0
        }),
    ensures
        spec_delete_rating_outcome(a) == Err::<Seq<EffectV>, ProgramError>(
            crate::errors::spec_error(crate::errors::RatingsErrors::InvalidRatingAccount),
        ),
{
}

impl DeleteRating {
    /// Validate every precondition of Delete-Rating in order and, only if all
    /// hold, emit the full effect list; a failure emits nothing.
    pub fn process(self) -> (r: Result<Vec<Effect>, ProgramError>)
        ensures
            match r {
                Ok(plan) => spec_delete_rating_outcome(self.accounts@) == Ok::<
                    Seq<EffectV>,
                    ProgramError,
                >(plan.deep_view()),
                Err(e) => spec_delete_rating_outcome(self.accounts@) == Err::<
                    Seq<EffectV>,
                    ProgramError,
                >(e),
            },
    {
        let DeleteRating { accounts } = self;

        SignerAccount::check_is_signer(&accounts.authority)?;
        SystemProgramAccount::check_is_system_program(&accounts.system_program)?;
        let record = RatingState::load(&accounts.rating)?;
        let title = trim_trailing_zeros(&record.movie_title);
        RatingAccount::check_is_valid_rating(
            &accounts.rating,
            &accounts.authority,
            title.as_slice(),
        )?;

        let mut plan: Vec<Effect> = Vec::new();
        plan.push(
            Effect::MoveLamports {
                from: accounts.rating.key,
                to: accounts.authority.key,
                amount: accounts.rating.lamports,
            },
        );
        plan.push(Effect::CloseAccount { account: accounts.rating.key });
        proof {
            assert(plan.deep_view() =~~= spec_delete_rating_plan(self.accounts@));
        }
        Ok(plan)
    }
}

} // verus!
