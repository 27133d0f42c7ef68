use crate::account::{Account, AccountV};
use crate::derivation::{rating_seeds, spec_rating_seeds};
use crate::effects::{spec_admin_proof, AuthorityProof, AuthorityProofV, Effect, EffectV, HostEnv};
use crate::errors::{spec_error, ProgramError, RatingsErrors};
use crate::helpers::{
    spec_check_admin_key, spec_check_ata_key, spec_check_ata_program_key, spec_check_empty,
    spec_check_mint, spec_check_rating_key, spec_check_system_owned,
    spec_check_token_program_key, AdminAccount, AssociateTokenProgram, AssociatedTokenAccount,
    MintAccount, RatingAccount, SystemProgramAccount, TokenProgramAccount, MINT_DECIMALS_OFFSET,
    TOKEN_ACCOUNT_LEN,
};
use crate::pubkey::spec_id;
use crate::state::{
    spec_decode_admin, spec_encode_rating, spec_zeros, AdminState, RatingState, RatingStateV,
    ADMIN_RECORD_LEN, RATING_RECORD_LEN,
};
use vstd::prelude::*;
use vstd::slice::{slice_subrange, slice_to_vec};
use vstd::utf8::valid_utf8;

verus! {

/// The mathematical view of the init-rating account list.
pub ghost struct InitRatingAccountsV {
    pub authority: AccountV,
    pub rating: AccountV,
    pub authority_ata: AccountV,
    pub admin: AccountV,
    pub admin_ata: AccountV,
    pub ratings_mint: AccountV,
    pub system_program: AccountV,
    pub token_program: AccountV,
    pub associated_token_program: AccountV,
    pub rating_bump: u8,
}

/// The fixed positional account list of Initialize-Rating: the rating signer,
/// the rating record account, the rater's associated token account, the admin
/// record, the admin's associated token account, the reward mint, and the
/// three external program identities.
pub struct InitRatingAccounts {
    pub authority: Account,
    pub rating: Account,
    pub authority_ata: Account,
    pub admin: Account,
    pub admin_ata: Account,
    pub ratings_mint: Account,
    pub system_program: Account,
    pub token_program: Account,
    pub associated_token_program: Account,
    pub rating_bump: u8,
}

impl View for InitRatingAccounts {
    type V = InitRatingAccountsV;

    open spec fn view(&self) -> InitRatingAccountsV {
        InitRatingAccountsV {
            authority: self.authority@,
            rating: self.rating@,
            authority_ata: self.authority_ata@,
            admin: self.admin@,
            admin_ata: self.admin_ata@,
            ratings_mint: self.ratings_mint@,
            system_program: self.system_program@,
            token_program: self.token_program@,
            associated_token_program: self.associated_token_program@,
            rating_bump: self.rating_bump,
        }
    }
}

impl InitRatingAccounts {
    /// Bind the fixed positional account list; fails unless exactly nine
    /// accounts are presented. The bump starts as a placeholder and is
    /// discovered during validation.
    pub fn try_from(accounts: &Vec<Account>) -> (r: Result<InitRatingAccounts, ProgramError>)
        ensures
            match r {
                Ok(a) => accounts@.len() == 9 && a@ == (InitRatingAccountsV {
                    authority: accounts@[0]@,
                    rating: accounts@[1]@,
                    authority_ata: accounts@[2]@,
                    admin: accounts@[3]@,
                    admin_ata: accounts@[4]@,
                    ratings_mint: accounts@[5]@,
                    system_program: accounts@[6]@,
                    token_program: accounts@[7]@,
                    associated_token_program: accounts@[8]@,
                    rating_bump: 0,
                }),
                Err(e) => accounts@.len() != 9 && e == ProgramError::NotEnoughAccountKeys,
            },
    {
        if accounts.len() != 9 {
            return Err(ProgramError::NotEnoughAccountKeys);
        }
        Ok(
            InitRatingAccounts {
                authority: accounts[0].dup(),
                rating: accounts[1].dup(),
                authority_ata: accounts[2].dup(),
                admin: accounts[3].dup(),
                admin_ata: accounts[4].dup(),
                ratings_mint: accounts[5].dup(),
                system_program: accounts[6].dup(),
                token_program: accounts[7].dup(),
                associated_token_program: accounts[8].dup(),
                rating_bump: 0,
            },
        )
    }
}

/// Outcome of parsing an init-rating payload: everything but the last byte is
/// the title, the last byte is the rating. The payload must hold at least one
/// title byte and the rating byte; the title must be well-formed UTF-8 and at
/// most 32 bytes; the rating must lie in 1..=10.
pub open spec fn spec_parse_init_rating(d: Seq<u8>) -> Result<(Seq<u8>, u8), ProgramError> {
    if d.len() < 2 {
        Err(ProgramError::InvalidInstructionData)
    } else {
        let title = d.take(d.len() - 1);
        let rating = d[d.len() - 1];
        if !valid_utf8(title) {
            Err(ProgramError::InvalidInstructionData)
        } else if title.len() > 32 {
            Err(spec_error(RatingsErrors::MovieTitleTooLong))
        } else if rating < 1 || rating > 10 {
            Err(spec_error(RatingsErrors::InvalidRatingValue))
        } else {
            Ok((title, rating))
        }
    }
}

/// The Initialize-Rating payload: the movie title bytes and the rating.
#[derive(Debug)]
pub struct InitRatingPayload {
    pub movie_title: Vec<u8>,
    pub rating: u8,
}

impl InitRatingPayload {
    /// Parse the payload from the instruction bytes after the discriminator.
    pub fn try_from(data: &[u8]) -> (r: Result<InitRatingPayload, ProgramError>)
        ensures
            match r {
                Ok(p) => spec_parse_init_rating(data@) == Ok::<(Seq<u8>, u8), ProgramError>(
                    (p.movie_title@, p.rating),
                ),
                Err(e) => spec_parse_init_rating(data@) == Err::<(Seq<u8>, u8), ProgramError>(e),
            },
    {
        if data.len() < 2 {
            return Err(ProgramError::InvalidInstructionData);
        }
        let title_slice = slice_subrange(data, 0, data.len() - 1);
        let rating = data[data.len() - 1];
        proof {
            assert(title_slice@ =~= data@.take(data@.len() - 1));
        }
        if !RatingAccount::bytes_are_utf8(title_slice) {
            return Err(ProgramError::InvalidInstructionData);
        }
        if title_slice.len() > 32 {
            return Err(ProgramError::from(RatingsErrors::MovieTitleTooLong));
        }
        if rating < 1 || rating > 10 {
            return Err(ProgramError::from(RatingsErrors::InvalidRatingValue));
        }
        Ok(InitRatingPayload { movie_title: slice_to_vec(title_slice), rating })
    }
}

/// The Initialize-Rating instruction: creates one rating record at the
/// address derived from (rater, title), writes it, lazily creates the rater's
/// associated token account, and pays the reward from the admin's stock.
pub struct InitRating {
    pub accounts: InitRatingAccounts,
    pub payload: InitRatingPayload,
}

impl InitRating {
    /// Bind accounts and payload for one Initialize-Rating invocation.
    pub fn try_from(accounts: &Vec<Account>, data: &[u8]) -> (r: Result<InitRating, ProgramError>)
        ensures
            match r {
                Ok(a) => accounts@.len() == 9 && a.accounts@ == (InitRatingAccountsV {
                    authority: accounts@[0]@,
                    rating: accounts@[1]@,
                    authority_ata: accounts@[2]@,
                    admin: accounts@[3]@,
                    admin_ata: accounts@[4]@,
                    ratings_mint: accounts@[5]@,
                    system_program: accounts@[6]@,
                    token_program: accounts@[7]@,
                    associated_token_program: accounts@[8]@,
                    rating_bump: 0,
                }) && spec_parse_init_rating(data@) == Ok::<(Seq<u8>, u8), ProgramError>(
                    (a.payload.movie_title@, a.payload.rating),
                ),
                Err(e) => (accounts@.len() != 9 && e == ProgramError::NotEnoughAccountKeys) || (
                accounts@.len() == 9 && spec_parse_init_rating(data@) == Err::<
                    (Seq<u8>, u8),
                    ProgramError,
                >(e)),
            },
    {
        let accounts = InitRatingAccounts::try_from(accounts)?;
        let payload = InitRatingPayload::try_from(data)?;
        Ok(InitRating { accounts, payload })
    }
}

/// The authority proof of a rating record's derived address.
pub open spec fn spec_rating_proof(user: Seq<u8>, title: Seq<u8>, bump: u8) -> AuthorityProofV {
    AuthorityProofV { seeds: spec_rating_seeds(user, title), bump }
}

/// The effect list of a successful Initialize-Rating: create the rating
/// record account under this program (signed as the record's own derived
/// address), write the encoded record, create the rater's associated token
/// account if it is not yet sized as one, and transfer the reward from the
/// admin's token account to the rater's (signed as the derived admin
/// address).
pub open spec fn spec_init_rating_plan(
    a: InitRatingAccountsV,
    title: Seq<u8>,
    rating: u8,
    rating_bump: u8,
    admin_bump: u8,
    reward_amount: u64,
    decimals: u8,
    env: HostEnv,
) -> Seq<EffectV> {
    let head = seq![
        EffectV::CreateAccount {
            from: a.authority.key,
            to: a.rating.key,
            lamports: env.rating_record_rent,
            space: RATING_RECORD_LEN as u64,
            owner: spec_id(),
            authority: Some(spec_rating_proof(a.authority.key, title, rating_bump)),
        },
        EffectV::WriteRecord {
            account: a.rating.key,
            bytes: spec_encode_rating(
                RatingStateV {
                    movie_title: title + spec_zeros((32 - title.len()) as nat),
                    rating,
                    owner: a.authority.key,
                    timestamp: env.unix_timestamp,
                    bump: rating_bump,
                },
            ),
        },
    ];
    let transfer = seq![
        EffectV::TransferChecked {
            from: a.admin_ata.key,
            mint: a.ratings_mint.key,
            to: a.authority_ata.key,
            authority_account: a.admin.key,
            amount: reward_amount,
            decimals,
            authority: spec_admin_proof(admin_bump),
        },
    ];
    if a.authority_ata.data.len() != TOKEN_ACCOUNT_LEN {
        head + seq![
            EffectV::CreateAssociatedTokenAccount {
                funding: a.authority.key,
                account: a.authority_ata.key,
                wallet: a.authority.key,
                mint: a.ratings_mint.key,
            },
        ] + transfer
    } else {
        head + transfer
    }
}

/// The complete outcome of Initialize-Rating on given accounts, payload and
/// environment: the first failing precondition's error, or the full effect
/// list. Checked in order: derived admin address, derived rating address,
/// rating account emptiness, the three external program identities, the
/// derived-ATA rule for both token accounts, the admin record's size and
/// owner, the presented mint against the record's mint, and the title fitting
/// its buffer.
pub open spec fn spec_init_rating_outcome(
    a: InitRatingAccountsV,
    title: Seq<u8>,
    rating: u8,
    env: HostEnv,
) -> Result<Seq<EffectV>, ProgramError> {
    if spec_check_admin_key(a.admin.key) is Err {
        Err(spec_check_admin_key(a.admin.key)->Err_0)
    } else if spec_check_rating_key(a.rating.key, a.authority.key, title) is Err {
        Err(spec_check_rating_key(a.rating.key, a.authority.key, title)->Err_0)
    } else {
        let rating_bump = spec_check_rating_key(a.rating.key, a.authority.key, title)->Ok_0;
        if spec_check_empty(a.rating.data) is Err {
            Err(spec_check_empty(a.rating.data)->Err_0)
        } else if spec_check_system_owned(a.system_program.owner) is Err {
            Err(spec_check_system_owned(a.system_program.owner)->Err_0)
        } else if spec_check_token_program_key(a.token_program.key) is Err {
            Err(spec_check_token_program_key(a.token_program.key)->Err_0)
        } else if spec_check_ata_program_key(a.associated_token_program.key) is Err {
            Err(spec_check_ata_program_key(a.associated_token_program.key)->Err_0)
        } else if spec_check_ata_key(a.authority_ata.key, a.authority.key, a.ratings_mint.key) is Err {
            Err(spec_check_ata_key(a.authority_ata.key, a.authority.key, a.ratings_mint.key)->Err_0)
        } else if spec_check_ata_key(a.admin_ata.key, a.admin.key, a.ratings_mint.key) is Err {
            Err(spec_check_ata_key(a.admin_ata.key, a.admin.key, a.ratings_mint.key)->Err_0)
        } else if a.admin.data.len() != ADMIN_RECORD_LEN {
            Err(ProgramError::InvalidAccountData)
        } else if a.admin.owner != spec_id() {
            Err(ProgramError::InvalidAccountOwner)
        } else {
            let admin_state = spec_decode_admin(a.admin.data);
            if spec_check_mint(a.ratings_mint, admin_state.token_mint) is Err {
                Err(spec_check_mint(a.ratings_mint, admin_state.token_mint)->Err_0)
            } else if title.len() > 32 {
                Err(spec_error(RatingsErrors::MovieTitleTooLong))
            } else {
                Ok(
                    spec_init_rating_plan(
                        a,
                        title,
                        rating,
                        rating_bump,
                        admin_state.bump,
                        admin_state.reward_amount,
                        a.ratings_mint.data[MINT_DECIMALS_OFFSET as int],
                        env,
                    ),
                )
            }
        }
    }
}

/// Law: a rating is created exactly once. A second Initialize-Rating for the
/// same rater and title — whose record account therefore already holds data —
/// fails with `ExpectedEmptyAccount`, whatever that data is; the emptiness
/// check is the sole overwrite guard.
pub proof fn lemma_reinit_rating_rejected(
    a: InitRatingAccountsV,
    title: Seq<u8>,
    rating: u8,
    env: HostEnv,
)
    requires
        a.rating.data.len() > 0,
        spec_check_admin_key(a.admin.key) is Ok,
        spec_check_rating_key(a.rating.key, a.authority.key, title) is Ok,
    ensures
        spec_init_rating_outcome(a, title, rating, env) == Err::<Seq<EffectV>, ProgramError>(
            spec_error(RatingsErrors::ExpectedEmptyAccount),
        ),
{
}

impl InitRating {
    /// Validate every precondition of Initialize-Rating in order and, only if
    /// all hold, emit the full effect list; a failure emits nothing.
    pub fn process(self, env: HostEnv) -> (r: Result<Vec<Effect>, ProgramError>)
        ensures
            match r {
                Ok(plan) => spec_init_rating_outcome(
                    self.accounts@,
                    self.payload.movie_title@,
                    self.payload.rating,
                    env,
                ) == Ok::<Seq<EffectV>, ProgramError>(plan.deep_view()),
                Err(e) => spec_init_rating_outcome(
                    self.accounts@,
                    self.payload.movie_title@,
                    self.payload.rating,
                    env,
                ) == Err::<Seq<EffectV>, ProgramError>(e),
            },
    {
        let InitRating { accounts, payload } = self;

        AdminAccount::check_is_valid_admin(&accounts.admin)?;
        let rating_bump = RatingAccount::check_is_valid_rating(
            &accounts.rating,
            &accounts.authority,
            payload.movie_title.as_slice(),
        )?;
        RatingAccount::check_is_empty(&accounts.rating)?;
        SystemProgramAccount::check_is_system_program(&accounts.system_program)?;
        TokenProgramAccount::check_is_token_program(&accounts.token_program)?;
        AssociateTokenProgram::check_is_associate_token_program(
            &accounts.associated_token_program,
        )?;
        AssociatedTokenAccount::check_is_valid_ata(
            &accounts.authority_ata,
            &accounts.authority,
            &accounts.ratings_mint,
        )?;
        AssociatedTokenAccount::check_is_valid_ata(
            &accounts.admin_ata,
            &accounts.admin,
            &accounts.ratings_mint,
        )?;
        let admin_state = AdminState::load(&accounts.admin)?;
        MintAccount::check_is_mint(&accounts.ratings_mint, &admin_state.token_mint)?;
        let decimals = MintAccount::read_decimals(&accounts.ratings_mint);

        let rating_proof_seeds = rating_seeds(
            &accounts.authority.key,
            payload.movie_title.as_slice(),
        );
        let record = RatingState::set_inner(
            payload.movie_title,
            payload.rating,
            accounts.authority.key,
            env.unix_timestamp,
            rating_bump,
        )?;
        let record_bytes = record.encode();

        let mut plan: Vec<Effect> = Vec::new();
        plan.push(
            Effect::CreateAccount {
                from: accounts.authority.key,
                to: accounts.rating.key,
                lamports: env.rating_record_rent,
                space: RATING_RECORD_LEN as u64,
                owner: crate::pubkey::program_id(),
                authority: Some(AuthorityProof { seeds: rating_proof_seeds, bump: rating_bump }),
            },
        );
        plan.push(Effect::WriteRecord { account: accounts.rating.key, bytes: record_bytes });
        if accounts.authority_ata.data_len() != TOKEN_ACCOUNT_LEN {
            plan.push(
                Effect::CreateAssociatedTokenAccount {
                    funding: accounts.authority.key,
                    account: accounts.authority_ata.key,
                    wallet: accounts.authority.key,
                    mint: accounts.ratings_mint.key,
                },
            );
        }
        plan.push(
            Effect::TransferChecked {
                from: accounts.admin_ata.key,
                mint: accounts.ratings_mint.key,
                to: accounts.authority_ata.key,
                authority_account: accounts.admin.key,
                amount: admin_state.reward_amount,
                decimals,
                authority: AuthorityProof {
                    seeds: crate::derivation::admin_seeds(),
                    bump: admin_state.bump,
                },
            },
        );
        proof {
            assert(plan.deep_view() =~~= spec_init_rating_plan(
                self.accounts@,
                self.payload.movie_title@,
                self.payload.rating,
                rating_bump,
                admin_state@.bump,
                admin_state@.reward_amount,
                self.accounts@.ratings_mint.data[MINT_DECIMALS_OFFSET as int],
                env,
            ));
        }
        Ok(plan)
    }
}

} // verus!
