use vstd::prelude::*;

verus! {

/// Domain failures of the rating program. Each variant is reported to the
/// host as `ProgramError::Custom` carrying the variant's numeric code.
#[derive(Clone, Copy, Debug, PartialEq, Eq, Structural)]
pub enum RatingsErrors {
    InvalidAdminAccount,
    InvalidRatingAccount,
    InvalidAssociatedTokenAccount,
    InvalidOwner,
    MovieTitleTooLong,
    InvalidRatingValue,
    ExpectedEmptyAccount,
    InvalidMintAccount,
    InvalidInstruction,
    DerivationExhausted,
}

/// Errors surfaced verbatim to the invoking host. `Custom` carries the
/// numeric code of a `RatingsErrors` variant; the remaining variants mirror
/// the host's own error vocabulary.
#[derive(Clone, Copy, Debug, PartialEq, Eq, Structural)]
pub enum ProgramError {
    Custom(u32),
    MissingRequiredSignature,
    InvalidAccountData,
    InvalidAccountOwner,
    InvalidInstructionData,
    NotEnoughAccountKeys,
    ArithmeticOverflow,
}

impl RatingsErrors {
    /// The numeric code this error is reported under.
    pub open spec fn spec_code(self) -> u32 {
        match self {
            RatingsErrors::InvalidAdminAccount => 0,
            RatingsErrors::InvalidRatingAccount => 1,
            RatingsErrors::InvalidAssociatedTokenAccount => 2,
            RatingsErrors::InvalidOwner => 3,
            RatingsErrors::MovieTitleTooLong => 4,
            RatingsErrors::InvalidRatingValue => 5,
            RatingsErrors::ExpectedEmptyAccount => 6,
            RatingsErrors::InvalidMintAccount => 7,
            RatingsErrors::InvalidInstruction => 8,
            RatingsErrors::DerivationExhausted => 9,
        }
    }

    pub fn code(&self) -> (r: u32)
        ensures
            r == self.spec_code(),
    {
        match self {
            RatingsErrors::InvalidAdminAccount => 0,
            RatingsErrors::InvalidRatingAccount => 1,
            RatingsErrors::InvalidAssociatedTokenAccount => 2,
            RatingsErrors::InvalidOwner => 3,
            RatingsErrors::MovieTitleTooLong => 4,
            RatingsErrors::InvalidRatingValue => 5,
            RatingsErrors::ExpectedEmptyAccount => 6,
            RatingsErrors::InvalidMintAccount => 7,
            RatingsErrors::InvalidInstruction => 8,
            RatingsErrors::DerivationExhausted => 9,
        }
    }
}

/// The host-level error that a domain failure is reported as.
pub open spec fn spec_error(e: RatingsErrors) -> ProgramError {
    ProgramError::Custom(e.spec_code())
}

impl From<RatingsErrors> for ProgramError {
    fn from(value: RatingsErrors) -> (r: Self)
        ensures
            r == spec_error(value),
    {
        ProgramError::Custom(value.code())
    }
}

impl vstd::std_specs::convert::FromSpecImpl<RatingsErrors> for ProgramError {
    open spec fn obeys_from_spec() -> bool {
        true
    }

    open spec fn from_spec(v: RatingsErrors) -> Self {
        spec_error(v)
    }
}

} // verus!
