use crate::account::{Account, AccountV};
use crate::derivation::{
    admin_seeds, ata_seeds, derive_for_program, pda_of, rating_seeds, spec_admin_seeds,
    spec_ata_seeds, spec_rating_seeds,
};
use crate::errors::{spec_error, ProgramError, RatingsErrors};
use crate::pubkey::{
    ata_program_id, pubkey_eq, spec_ata_program_id, spec_id, spec_system_program_id,
    spec_token_program_id, system_program_id, token_program_id, Pubkey,
};
use vstd::bytes::{spec_u64_from_le_bytes, u64_from_le_bytes};
use vstd::prelude::*;
use vstd::slice::slice_subrange;
use vstd::utf8::{decode_utf8, valid_utf8};

verus! {

/// Byte length of the external token ledger's mint record.
pub const MINT_LEN: usize = 82;

/// Byte length of the external token ledger's token-account record.
pub const TOKEN_ACCOUNT_LEN: usize = 165;

/// Byte offset of a token account's balance inside its record.
pub const TOKEN_AMOUNT_OFFSET: usize = 64;

/// Byte offset of a mint's decimals field inside its record.
pub const MINT_DECIMALS_OFFSET: usize = 44;

/// Checks the transaction-level signer flag.
pub struct SignerAccount;

/// Outcome of the signer check for an account.
pub open spec fn spec_check_signer(a: AccountV) -> Result<(), ProgramError> {
    if a.is_signer {
        Ok(())
    } else {
        Err(ProgramError::MissingRequiredSignature)
    }
}

impl SignerAccount {
    pub fn check_is_signer(account: &Account) -> (r: Result<(), ProgramError>)
        ensures
            r == spec_check_signer(account@),
    {
        if !account.is_signer {
            return Err(ProgramError::MissingRequiredSignature);
        }
        Ok(())
    }
}

/// Checks against the derived admin address, and for emptiness before
/// initialization.
pub struct AdminAccount;

/// The derivation outcome for the admin record's address.
pub open spec fn spec_admin_pda() -> Option<(Seq<u8>, u8)> {
    pda_of(spec_admin_seeds(), spec_id())
}

/// Outcome of the admin-address check for an account key: the derived bump on
/// a match.
pub open spec fn spec_check_admin_key(key: Seq<u8>) -> Result<u8, ProgramError> {
    match spec_admin_pda() {
        Some(ab) => if key == ab.0 {
            Ok(ab.1)
        } else {
            Err(spec_error(RatingsErrors::InvalidAdminAccount))
        },
        None => Err(spec_error(RatingsErrors::DerivationExhausted)),
    }
}

/// Outcome of the emptiness check for an account's data.
pub open spec fn spec_check_empty(data: Seq<u8>) -> Result<(), ProgramError> {
    if data.len() == 0 {
        Ok(())
    } else {
        Err(spec_error(RatingsErrors::ExpectedEmptyAccount))
    }
}

impl AdminAccount {
    /// The account must sit at the address derived from the fixed admin seed;
    /// returns the derived bump for later authority proofs.
    pub fn check_is_valid_admin(admin_account: &Account) -> (r: Result<u8, ProgramError>)
        ensures
            r == spec_check_admin_key(admin_account@.key),
    {
        let seeds = admin_seeds();
        let (true_admin_key, bump) = match crate::derivation::derive(&seeds) {
            Ok(ab) => ab,
            Err(e) => {
                return Err(e);
            },
        };
        if !pubkey_eq(&admin_account.key, &true_admin_key) {
            return Err(ProgramError::from(RatingsErrors::InvalidAdminAccount));
        }
        Ok(bump)
    }

    /// The account must hold no data yet; the sole guard against
    /// re-initialization.
    pub fn check_is_empty(account: &Account) -> (r: Result<(), ProgramError>)
        ensures
            r == spec_check_empty(account@.data),
    {
        if account.data_is_empty() {
            Ok(())
        } else {
            Err(ProgramError::from(RatingsErrors::ExpectedEmptyAccount))
        }
    }
}

/// Checks against the derived rating address, and for emptiness before
/// initialization.
pub struct RatingAccount;

/// Outcome of the rating-address check: the derived bump when the account key
/// matches the address derived from the rater's identity and the title bytes.
pub open spec fn spec_check_rating_key(rating_key: Seq<u8>, user_key: Seq<u8>, title: Seq<u8>) -> Result<
    u8,
    ProgramError,
> {
    match pda_of(spec_rating_seeds(user_key, title), spec_id()) {
        Some(ab) => if rating_key == ab.0 {
            Ok(ab.1)
        } else {
            Err(spec_error(RatingsErrors::InvalidRatingAccount))
        },
        None => Err(spec_error(RatingsErrors::DerivationExhausted)),
    }
}

impl RatingAccount {
    /// The account must sit at the address derived from (rater identity,
    /// title bytes); returns the derived bump.
    pub fn check_is_valid_rating(rating_account: &Account, user: &Account, movie_title: &[u8]) -> (r:
        Result<u8, ProgramError>)
        ensures
            r == spec_check_rating_key(rating_account@.key, user@.key, movie_title@),
    {
        let seeds = rating_seeds(&user.key, movie_title);
        let (true_rating_key, bump) = match crate::derivation::derive(&seeds) {
            Ok(ab) => ab,
            Err(e) => {
                return Err(e);
            },
        };
        if !pubkey_eq(&rating_account.key, &true_rating_key) {
            return Err(ProgramError::from(RatingsErrors::InvalidRatingAccount));
        }
        Ok(bump)
    }

    /// The account must hold no data yet; the sole guard against overwriting
    /// an existing rating.
    pub fn check_is_empty(account: &Account) -> (r: Result<(), ProgramError>)
        ensures
            r == spec_check_empty(account@.data),
    {
        if account.data_is_empty() {
            Ok(())
        } else {
            Err(ProgramError::from(RatingsErrors::ExpectedEmptyAccount))
        }
    }

    /// Relies on core::str::from_utf8: it returns `Ok` exactly when the bytes
    /// are well-formed UTF-8.
    #[verifier::external_body]
    pub fn bytes_are_utf8(bytes: &[u8]) -> (r: bool)
        ensures
            r == valid_utf8(bytes@),
    {
        core::str::from_utf8(bytes).is_ok()
    }

    /// Relies on alloc::string::String::from_utf8: on well-formed UTF-8 bytes
    /// it returns the string that those bytes encode.
    #[verifier::external_body]
    fn utf8_to_string(bytes: &[u8]) -> (r: String)
        requires
            valid_utf8(bytes@),
        ensures
            r@ == decode_utf8(bytes@),
    {
        String::from_utf8(bytes.to_vec()).unwrap()
    }

    /// The text stored in well-formed UTF-8 bytes.
    pub fn convert_bytes_to_string(bytes: &[u8]) -> (r: String)
        requires
            valid_utf8(bytes@),
        ensures
            r@ == decode_utf8(bytes@),
    {
        Self::utf8_to_string(bytes)
    }

    /// Decode bytes as UTF-8 text, or `None` when they are not well-formed.
    pub fn try_convert_bytes_to_string(bytes: &[u8]) -> (r: Option<String>)
        ensures
            r is Some <==> valid_utf8(bytes@),
            r is Some ==> r->Some_0@ == decode_utf8(bytes@),
    {
        if Self::bytes_are_utf8(bytes) {
            Some(Self::convert_bytes_to_string(bytes))
        } else {
            None
        }
    }
}

/// Outcome of the owned-by-the-system-program check.
pub open spec fn spec_check_system_owned(owner: Seq<u8>) -> Result<(), ProgramError> {
    if owner == spec_system_program_id() {
        Ok(())
    } else {
        Err(spec_error(RatingsErrors::InvalidOwner))
    }
}

/// Checks the identity of the host's system program.
pub struct SystemProgramAccount;

impl SystemProgramAccount {
    pub fn check_is_system_program(account: &Account) -> (r: Result<(), ProgramError>)
        ensures
            r == spec_check_system_owned(account@.owner),
    {
        let sys = system_program_id();
        if !pubkey_eq(&account.owner, &sys) {
            return Err(ProgramError::from(RatingsErrors::InvalidOwner));
        }
        Ok(())
    }
}

/// Checks the identity of the external token ledger program.
pub struct TokenProgramAccount;

/// Outcome of the token-program identity check for an account key.
pub open spec fn spec_check_token_program_key(key: Seq<u8>) -> Result<(), ProgramError> {
    if key == spec_token_program_id() {
        Ok(())
    } else {
        Err(spec_error(RatingsErrors::InvalidOwner))
    }
}

impl TokenProgramAccount {
    pub fn check_is_token_program(account: &Account) -> (r: Result<(), ProgramError>)
        ensures
            r == spec_check_token_program_key(account@.key),
    {
        let token = token_program_id();
        if !pubkey_eq(&account.key, &token) {
            return Err(ProgramError::from(RatingsErrors::InvalidOwner));
        }
        Ok(())
    }
}

/// Checks the identity of the external associated-token-account program.
pub struct AssociateTokenProgram;

/// Outcome of the associated-token-program identity check for an account key.
pub open spec fn spec_check_ata_program_key(key: Seq<u8>) -> Result<(), ProgramError> {
    if key == spec_ata_program_id() {
        Ok(())
    } else {
        Err(spec_error(RatingsErrors::InvalidOwner))
    }
}

impl AssociateTokenProgram {
    pub fn check_is_associate_token_program(account: &Account) -> (r: Result<(), ProgramError>)
        ensures
            r == spec_check_ata_program_key(account@.key),
    {
        let ata = ata_program_id();
        if !pubkey_eq(&account.key, &ata) {
            return Err(ProgramError::from(RatingsErrors::InvalidOwner));
        }
        Ok(())
    }
}

/// Checks an account against the derived-ATA rule.
pub struct AssociatedTokenAccount;

/// Outcome of the derived-ATA check: the account key must equal the address
/// derived from (wallet, token program, mint) under the associated-token
/// program.
pub open spec fn spec_check_ata_key(ata_key: Seq<u8>, wallet_key: Seq<u8>, mint_key: Seq<u8>) -> Result<
    (),
    ProgramError,
> {
    match pda_of(spec_ata_seeds(wallet_key, mint_key), spec_ata_program_id()) {
        Some(ab) => if ata_key == ab.0 {
            Ok(())
        } else {
            Err(spec_error(RatingsErrors::InvalidAssociatedTokenAccount))
        },
        None => Err(spec_error(RatingsErrors::DerivationExhausted)),
    }
}

impl AssociatedTokenAccount {
    pub fn check_is_valid_ata(ata: &Account, owner: &Account, mint: &Account) -> (r: Result<
        (),
        ProgramError,
    >)
        ensures
            r == spec_check_ata_key(ata@.key, owner@.key, mint@.key),
    {
        let seeds = ata_seeds(&owner.key, &mint.key);
        let ata_pid = ata_program_id();
        let (true_ata, _bump) = match derive_for_program(&seeds, &ata_pid) {
            Ok(ab) => ab,
            Err(e) => {
                return Err(e);
            },
        };
        if !pubkey_eq(&ata.key, &true_ata) {
            return Err(ProgramError::from(RatingsErrors::InvalidAssociatedTokenAccount));
        }
        Ok(())
    }
}

/// Checks that an account is still owned by the system program, so that it
/// can be allocated.
pub struct SystemAccount;

impl SystemAccount {
    pub fn check_is_system_account(account: &Account) -> (r: Result<(), ProgramError>)
        ensures
            r == spec_check_system_owned(account@.owner),
    {
        let sys = system_program_id();
        if !pubkey_eq(&account.owner, &sys) {
            return Err(ProgramError::from(RatingsErrors::InvalidOwner));
        }
        Ok(())
    }
}

/// Checks a mint account of the external token ledger.
pub struct MintAccount;

/// Outcome of the mint check: owned by the token program, sized as a mint
/// record, and sitting at the expected address.
pub open spec fn spec_check_mint(a: AccountV, true_mint: Seq<u8>) -> Result<(), ProgramError> {
    if a.owner != spec_token_program_id() {
        Err(spec_error(RatingsErrors::InvalidOwner))
    } else if a.data.len() != MINT_LEN {
        Err(ProgramError::InvalidAccountData)
    } else if a.key != true_mint {
        Err(spec_error(RatingsErrors::InvalidMintAccount))
    } else {
        Ok(())
    }
}

impl MintAccount {
    pub fn check_is_mint(account: &Account, true_mint: &Pubkey) -> (r: Result<(), ProgramError>)
        ensures
            r == spec_check_mint(account@, true_mint@),
    {
        let token = token_program_id();
        if !pubkey_eq(&account.owner, &token) {
            return Err(ProgramError::from(RatingsErrors::InvalidOwner));
        }
        if account.data_len() != MINT_LEN {
            return Err(ProgramError::InvalidAccountData);
        }
        if !pubkey_eq(&account.key, true_mint) {
            return Err(ProgramError::from(RatingsErrors::InvalidMintAccount));
        }
        Ok(())
    }

    /// The decimals field of a mint record, read from its fixed offset.
    pub fn read_decimals(account: &Account) -> (r: u8)
        requires
            account@.owner == spec_token_program_id(),
            account@.data.len() == MINT_LEN,
        ensures
            r == account@.data[MINT_DECIMALS_OFFSET as int],
    {
        account.data[MINT_DECIMALS_OFFSET]
    }
}

/// Checks a token account of the external token ledger.
pub struct TokenAccount;

/// Outcome of the token-account check: owned by the token program and sized
/// as a token-account record.
pub open spec fn spec_check_token_account(a: AccountV) -> Result<(), ProgramError> {
    if a.owner != spec_token_program_id() {
        Err(spec_error(RatingsErrors::InvalidOwner))
    } else if a.data.len() != TOKEN_ACCOUNT_LEN {
        Err(ProgramError::InvalidAccountData)
    } else {
        Ok(())
    }
}

impl TokenAccount {
    pub fn check(account: &Account) -> (r: Result<(), ProgramError>)
        ensures
            r == spec_check_token_account(account@),
    {
        let token = token_program_id();
        if !pubkey_eq(&account.owner, &token) {
            return Err(ProgramError::from(RatingsErrors::InvalidOwner));
        }
        if account.data_len() != TOKEN_ACCOUNT_LEN {
            return Err(ProgramError::InvalidAccountData);
        }
        Ok(())
    }

    /// The balance of a token-account record, read from its fixed offset.
    pub fn get_amount(account: &Account) -> (r: u64)
        requires
            account@.owner == spec_token_program_id(),
            account@.data.len() == TOKEN_ACCOUNT_LEN,
        ensures
            r == spec_u64_from_le_bytes(
                account@.data.subrange(
                    TOKEN_AMOUNT_OFFSET as int,
                    TOKEN_AMOUNT_OFFSET as int + 8,
                ),
            ),
    {
        u64_from_le_bytes(
            slice_subrange(account.data.as_slice(), TOKEN_AMOUNT_OFFSET, TOKEN_AMOUNT_OFFSET + 8),
        )
    }
}

} // verus!
