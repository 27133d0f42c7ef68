use crate::account::Account;
use crate::errors::{spec_error, ProgramError, RatingsErrors};
use crate::pubkey::{program_id, pubkey_eq, push_key, read_key, spec_id, Pubkey};
use vstd::bytes::{
    lemma_auto_spec_u64_to_from_le_bytes, spec_u64_from_le_bytes, spec_u64_to_le_bytes,
    u64_from_le_bytes, u64_to_le_bytes,
};
use vstd::prelude::*;
use vstd::slice::slice_subrange;

verus! {

/// Byte length of an encoded admin record: 32 + 32 + 8 field bytes plus the
/// bump byte padded to an 8-byte-aligned total.
pub const ADMIN_RECORD_LEN: usize = 80;

/// Byte length of an encoded rating record: a 32-byte title buffer, the
/// rating byte, a 32-byte owner identity, padding up to the 8-byte-aligned
/// timestamp, the timestamp, and the bump byte padded to an 8-byte-aligned
/// total.
pub const RATING_RECORD_LEN: usize = 88;

/// A run of zero-valued padding bytes.
pub open spec fn spec_zeros(n: nat) -> Seq<u8> {
    Seq::new(n, |i: int| 0u8)
}

/// The mathematical view of an admin record.
pub ghost struct AdminStateV {
    pub authority: Seq<u8>,
    pub token_mint: Seq<u8>,
    pub reward_amount: u64,
    pub bump: u8,
}

/// The singleton configuration record: the identity that created it, the
/// reward token's mint, the reward paid per rating, and the derivation bump
/// of the record's own address.
#[derive(Clone, Copy, Debug, PartialEq, Eq)]
pub struct AdminState {
    pub authority: Pubkey,
    pub token_mint: Pubkey,
    pub reward_amount: u64,
    pub bump: u8,
}

impl View for AdminState {
    type V = AdminStateV;

    open spec fn view(&self) -> AdminStateV {
        AdminStateV {
            authority: self.authority@,
            token_mint: self.token_mint@,
            reward_amount: self.reward_amount,
            bump: self.bump,
        }
    }
}

/// Field-order little-endian layout of an admin record: authority, mint,
/// reward amount, bump, zero padding to 80 bytes.
pub open spec fn spec_encode_admin(v: AdminStateV) -> Seq<u8> {
    v.authority + v.token_mint + spec_u64_to_le_bytes(v.reward_amount) + seq![v.bump] + spec_zeros(
        7,
    )
}

/// The admin record read back from an 80-byte buffer; padding is ignored.
pub open spec fn spec_decode_admin(s: Seq<u8>) -> AdminStateV
    recommends
        s.len() == ADMIN_RECORD_LEN,
{
    AdminStateV {
        authority: s.subrange(0, 32),
        token_mint: s.subrange(32, 64),
        reward_amount: spec_u64_from_le_bytes(s.subrange(64, 72)),
        bump: s[72],
    }
}

/// Law: decoding an encoded admin record gives the record back, for every
/// record whose identities are 32 bytes wide.
pub proof fn lemma_admin_record_round_trip(v: AdminStateV)
    requires
        v.authority.len() == 32,
        v.token_mint.len() == 32,
    ensures
        spec_encode_admin(v).len() == ADMIN_RECORD_LEN,
        spec_decode_admin(spec_encode_admin(v)) == v,
{
    lemma_auto_spec_u64_to_from_le_bytes();
    let e = spec_encode_admin(v);
    assert(e.subrange(0, 32) =~= v.authority);
    assert(e.subrange(32, 64) =~= v.token_mint);
    assert(e.subrange(64, 72) =~= spec_u64_to_le_bytes(v.reward_amount));
    assert(e[72] == v.bump);
}

impl AdminState {
    /// Serialize this record into its fixed 80-byte layout.
    pub fn encode(&self) -> (r: Vec<u8>)
        ensures
            r@ == spec_encode_admin(self@),
            r@.len() == ADMIN_RECORD_LEN,
    {
        let mut out: Vec<u8> = Vec::new();
        push_key(&mut out, &self.authority);
        push_key(&mut out, &self.token_mint);
        let mut le = u64_to_le_bytes(self.reward_amount);
        out.append(&mut le);
        out.push(self.bump);
        out.push(0u8);
        out.push(0u8);
        out.push(0u8);
        out.push(0u8);
        out.push(0u8);
        out.push(0u8);
        out.push(0u8);
        proof {
            assert(out@ =~= spec_encode_admin(self@));
        }
        out
    }

    /// Deserialize an admin record from a buffer; the buffer must be exactly
    /// the record's size.
    pub fn decode(data: &[u8]) -> (r: Result<AdminState, ProgramError>)
        ensures
            match r {
                Ok(a) => data@.len() == ADMIN_RECORD_LEN && a@ == spec_decode_admin(data@),
                Err(e) => data@.len() != ADMIN_RECORD_LEN && e == ProgramError::InvalidAccountData,
            },
    {
        if data.len() != ADMIN_RECORD_LEN {
            return Err(ProgramError::InvalidAccountData);
        }
        let authority = read_key(data, 0);
        let token_mint = read_key(data, 32);
        let reward_amount = u64_from_le_bytes(slice_subrange(data, 64, 72));
        let bump = data[72];
        Ok(AdminState { authority, token_mint, reward_amount, bump })
    }

    /// Load the admin record held by an account: the account's data must have
    /// exactly the record's size and the account must be owned by this
    /// program.
    pub fn load(account: &Account) -> (r: Result<AdminState, ProgramError>)
        ensures
            match r {
                Ok(a) => account@.data.len() == ADMIN_RECORD_LEN && account@.owner == spec_id()
                    && a@ == spec_decode_admin(account@.data),
                Err(e) => (account@.data.len() != ADMIN_RECORD_LEN && e
                    == ProgramError::InvalidAccountData) || (account@.data.len()
                    == ADMIN_RECORD_LEN && account@.owner != spec_id() && e
                    == ProgramError::InvalidAccountOwner),
            },
    {
        if account.data.len() != ADMIN_RECORD_LEN {
            return Err(ProgramError::InvalidAccountData);
        }
        let pid = program_id();
        if !pubkey_eq(&account.owner, &pid) {
            return Err(ProgramError::InvalidAccountOwner);
        }
        AdminState::decode(account.data.as_slice())
    }

    pub fn set_authority(&mut self, authority: Pubkey) -> (r: Result<(), ProgramError>)
        ensures
            r is Ok,
            final(self)@ == (AdminStateV { authority: authority@, ..old(self)@ }),
    {
        self.authority = authority;
        Ok(())
    }

    pub fn set_token_mint(&mut self, token_mint: Pubkey) -> (r: Result<(), ProgramError>)
        ensures
            r is Ok,
            final(self)@ == (AdminStateV { token_mint: token_mint@, ..old(self)@ }),
    {
        self.token_mint = token_mint;
        Ok(())
    }

    pub fn set_reward_amount(&mut self, reward_amount: u64) -> (r: Result<(), ProgramError>)
        ensures
            r is Ok,
            final(self)@ == (AdminStateV { reward_amount, ..old(self)@ }),
    {
        self.reward_amount = reward_amount;
        Ok(())
    }

    pub fn set_bump(&mut self, bump: u8) -> (r: Result<(), ProgramError>)
        ensures
            r is Ok,
            final(self)@ == (AdminStateV { bump, ..old(self)@ }),
    {
        self.bump = bump;
        Ok(())
    }
}

/// The length of a stored title once trailing zero padding is stripped.
pub open spec fn spec_trimmed_len(s: Seq<u8>) -> nat
    decreases s.len(),
{
    if s.len() == 0 {
        0
    } else if s[s.len() - 1] != 0 {
        s.len()
    } else {
        spec_trimmed_len(s.drop_last())
    }
}

/// The logical title text of a stored title buffer: the buffer with trailing
/// zero bytes stripped.
pub open spec fn spec_trim_zeros(s: Seq<u8>) -> Seq<u8> {
    s.take(spec_trimmed_len(s) as int)
}

proof fn lemma_trim_ignores_zero_padding(s: Seq<u8>, k: nat)
    ensures
        spec_trimmed_len(s + spec_zeros(k)) == spec_trimmed_len(s),
    decreases k,
{
    if k == 0 {
        assert(s + spec_zeros(0) =~= s);
    } else {
        let t = s + spec_zeros(k);
        assert(t[t.len() - 1] == 0);
        assert(t.drop_last() =~= s + spec_zeros((k - 1) as nat));
        lemma_trim_ignores_zero_padding(s, (k - 1) as nat);
    }
}

/// Law: the stored form of a title is recoverable. Writing a title into the
/// 32-byte buffer, left-justified and zero-padded, and then stripping the
/// trailing zeros gives the title back, for every title that does not itself
/// end in a zero byte. (One that does loses its trailing zeros with the
/// padding, so its record's address can no longer be re-derived from the
/// stored buffer.)
pub proof fn lemma_pad_trim_round_trip(title: Seq<u8>)
    requires
        title.len() <= 32,
        title.len() > 0 ==> title[title.len() - 1] != 0,
    ensures
        spec_trim_zeros(title + spec_zeros((32 - title.len()) as nat)) == title,
{
    lemma_trim_ignores_zero_padding(title, (32 - title.len()) as nat);
    assert(spec_trimmed_len(title) == title.len());
    assert((title + spec_zeros((32 - title.len()) as nat)).take(title.len() as int) =~= title);
}

/// Strip the trailing zero padding from a stored 32-byte title buffer.
pub fn trim_trailing_zeros(buf: &[u8; 32]) -> (r: Vec<u8>)
    ensures
        r@ == spec_trim_zeros(buf@),
{
    let mut n: usize = 32;
    proof {
        assert(buf@.take(32) =~= buf@);
    }
    while n > 0 && buf[n - 1] == 0
        invariant
            n <= 32,
            spec_trimmed_len(buf@.take(n as int)) == spec_trimmed_len(buf@),
        decreases n,
    {
        proof {
            assert(buf@.take(n as int).drop_last() =~= buf@.take(n - 1));
        }
        n = n - 1;
    }
    proof {
        if n > 0 {
            assert(spec_trimmed_len(buf@.take(n as int)) == n);
        }
        assert(spec_trimmed_len(buf@) == n);
    }
    let mut r: Vec<u8> = Vec::new();
    let mut i: usize = 0;
    while i < n
        invariant
            i <= n <= 32,
            r@ == buf@.take(i as int),
        decreases n - i,
    {
        proof {
            assert(buf@.take(i + 1 as int) =~= buf@.take(i as int).push(buf@[i as int]));
        }
        r.push(buf[i]);
        i = i + 1;
    }
    r
}

/// The mathematical view of a rating record.
pub ghost struct RatingStateV {
    pub movie_title: Seq<u8>,
    pub rating: u8,
    pub owner: Seq<u8>,
    pub timestamp: i64,
    pub bump: u8,
}

/// One user's rating of one movie: the title in a fixed zero-padded buffer,
/// the rating in 1..=10, the rater's identity, the creation time, and the
/// derivation bump of the record's own address.
#[derive(Clone, Copy, Debug, PartialEq, Eq)]
pub struct RatingState {
    pub movie_title: [u8; 32],
    pub rating: u8,
    pub owner: Pubkey,
    pub timestamp: i64,
    pub bump: u8,
}

impl View for RatingState {
    type V = RatingStateV;

    open spec fn view(&self) -> RatingStateV {
        RatingStateV {
            movie_title: self.movie_title@,
            rating: self.rating,
            owner: self.owner@,
            timestamp: self.timestamp,
            bump: self.bump,
        }
    }
}

/// Field-order little-endian layout of a rating record: title buffer, rating,
/// owner, zero padding up to the aligned timestamp, timestamp, bump, zero
/// padding to 88 bytes.
pub open spec fn spec_encode_rating(v: RatingStateV) -> Seq<u8> {
    v.movie_title + seq![v.rating] + v.owner + spec_zeros(7) + spec_u64_to_le_bytes(
        v.timestamp as u64,
    ) + seq![v.bump] + spec_zeros(7)
}

/// The rating record read back from an 88-byte buffer; padding is ignored.
pub open spec fn spec_decode_rating(s: Seq<u8>) -> RatingStateV
    recommends
        s.len() == RATING_RECORD_LEN,
{
    RatingStateV {
        movie_title: s.subrange(0, 32),
        rating: s[32],
        owner: s.subrange(33, 65),
        timestamp: spec_u64_from_le_bytes(s.subrange(72, 80)) as i64,
        bump: s[80],
    }
}

/// Law: decoding an encoded rating record gives the record back, for every
/// record whose title buffer and owner identity are 32 bytes wide.
pub proof fn lemma_rating_record_round_trip(v: RatingStateV)
    requires
        v.movie_title.len() == 32,
        v.owner.len() == 32,
    ensures
        spec_encode_rating(v).len() == RATING_RECORD_LEN,
        spec_decode_rating(spec_encode_rating(v)) == v,
{
    lemma_auto_spec_u64_to_from_le_bytes();
    let e = spec_encode_rating(v);
    assert(e.subrange(0, 32) =~= v.movie_title);
    assert(e[32] == v.rating);
    assert(e.subrange(33, 65) =~= v.owner);
    assert(e.subrange(72, 80) =~= spec_u64_to_le_bytes(v.timestamp as u64));
    assert(e[80] == v.bump);
    let t = v.timestamp;
    assert((t as u64) as i64 == t) by (bit_vector);
}

/// Write a title of at most 32 bytes into a fresh 32-byte buffer,
/// left-justified and zero-padded.
pub fn pad_title(title: &[u8]) -> (r: [u8; 32])
    requires
        title@.len() <= 32,
    ensures
        r@ == title@ + spec_zeros((32 - title@.len()) as nat),
{
    let n: usize = title.len();
    let mut r: [u8; 32] = [0u8; 32];
    let mut i: usize = 0;
    while i < n
        invariant
            i <= n <= 32,
            n == title@.len(),
            forall|j: int| 0 <= j < i ==> r@[j] == title@[j],
            forall|j: int| i <= j < 32 ==> r@[j] == 0u8,
        decreases n - i,
    {
        r[i] = title[i];
        i = i + 1;
    }
    proof {
        assert(r@ =~= title@ + spec_zeros((32 - title@.len()) as nat));
    }
    r
}

impl RatingState {
    /// Serialize this record into its fixed 88-byte layout.
    pub fn encode(&self) -> (r: Vec<u8>)
        ensures
            r@ == spec_encode_rating(self@),
            r@.len() == RATING_RECORD_LEN,
    {
        let mut out: Vec<u8> = Vec::new();
        push_key(&mut out, &self.movie_title);
        out.push(self.rating);
        push_key(&mut out, &self.owner);
        out.push(0u8);
        out.push(0u8);
        out.push(0u8);
        out.push(0u8);
        out.push(0u8);
        out.push(0u8);
        out.push(0u8);
        let mut le = u64_to_le_bytes(self.timestamp as u64);
        out.append(&mut le);
        out.push(self.bump);
        out.push(0u8);
        out.push(0u8);
        out.push(0u8);
        out.push(0u8);
        out.push(0u8);
        out.push(0u8);
        out.push(0u8);
        proof {
            assert(out@ =~= spec_encode_rating(self@));
        }
        out
    }

    /// Deserialize a rating record from a buffer; the buffer must be exactly
    /// the record's size.
    pub fn decode(data: &[u8]) -> (r: Result<RatingState, ProgramError>)
        ensures
            match r {
                Ok(a) => data@.len() == RATING_RECORD_LEN && a@ == spec_decode_rating(data@),
                Err(e) => data@.len() != RATING_RECORD_LEN && e == ProgramError::InvalidAccountData,
            },
    {
        if data.len() != RATING_RECORD_LEN {
            return Err(ProgramError::InvalidAccountData);
        }
        let movie_title = read_key(data, 0);
        let rating = data[32];
        let owner = read_key(data, 33);
        let timestamp = u64_from_le_bytes(slice_subrange(data, 72, 80)) as i64;
        let bump = data[80];
        Ok(RatingState { movie_title, rating, owner, timestamp, bump })
    }

    /// Load the rating record held by an account: the account's data must
    /// have exactly the record's size and the account must be owned by this
    /// program.
    pub fn load(account: &Account) -> (r: Result<RatingState, ProgramError>)
        ensures
            match r {
                Ok(a) => account@.data.len() == RATING_RECORD_LEN && account@.owner == spec_id()
                    && a@ == spec_decode_rating(account@.data),
                Err(e) => (account@.data.len() != RATING_RECORD_LEN && e
                    == ProgramError::InvalidAccountData) || (account@.data.len()
                    == RATING_RECORD_LEN && account@.owner != spec_id() && e
                    == ProgramError::InvalidAccountOwner),
            },
    {
        if account.data.len() != RATING_RECORD_LEN {
            return Err(ProgramError::InvalidAccountData);
        }
        let pid = program_id();
        if !pubkey_eq(&account.owner, &pid) {
            return Err(ProgramError::InvalidAccountOwner);
        }
        RatingState::decode(account.data.as_slice())
    }

    /// Replace the title, rejecting one longer than the 32-byte buffer.
    pub fn set_movie_title(&mut self, movie_title: Vec<u8>) -> (r: Result<(), ProgramError>)
        ensures
            match r {
                Ok(_) => movie_title@.len() <= 32 && final(self)@ == (RatingStateV {
                    movie_title: movie_title@ + spec_zeros((32 - movie_title@.len()) as nat),
                    ..old(self)@
                }),
                Err(e) => movie_title@.len() > 32 && e == spec_error(
                    RatingsErrors::MovieTitleTooLong,
                ) && *final(self) == *old(self),
            },
    {
        if movie_title.len() > 32 {
            return Err(ProgramError::from(RatingsErrors::MovieTitleTooLong));
        }
        self.movie_title = pad_title(movie_title.as_slice());
        Ok(())
    }

    /// Replace the rating, rejecting a value outside 1..=10.
    pub fn set_rating(&mut self, rating: u8) -> (r: Result<(), ProgramError>)
        ensures
            match r {
                Ok(_) => 1 <= rating <= 10 && final(self)@ == (RatingStateV {
                    rating,
                    ..old(self)@
                }),
                Err(e) => !(1 <= rating <= 10) && e == spec_error(RatingsErrors::InvalidRatingValue)
                    && *final(self) == *old(self),
            },
    {
        if rating < 1 || rating > 10 {
            return Err(ProgramError::from(RatingsErrors::InvalidRatingValue));
        }
        self.rating = rating;
        Ok(())
    }

    pub fn set_owner(&mut self, owner: Pubkey) -> (r: Result<(), ProgramError>)
        ensures
            r is Ok,
            final(self)@ == (RatingStateV { owner: owner@, ..old(self)@ }),
    {
        self.owner = owner;
        Ok(())
    }

    pub fn set_timestamp(&mut self, timestamp: i64) -> (r: Result<(), ProgramError>)
        ensures
            r is Ok,
            final(self)@ == (RatingStateV { timestamp, ..old(self)@ }),
    {
        self.timestamp = timestamp;
        Ok(())
    }

    /// Build a rating record from its parts, rejecting a title longer than
    /// the 32-byte buffer.
    pub fn set_inner(
        movie_title: Vec<u8>,
        rating: u8,
        owner: Pubkey,
        timestamp: i64,
        bump: u8,
    ) -> (r: Result<RatingState, ProgramError>)
        ensures
            match r {
                Ok(a) => movie_title@.len() <= 32 && a@ == (RatingStateV {
                    movie_title: movie_title@ + spec_zeros((32 - movie_title@.len()) as nat),
                    rating,
                    owner: owner@,
                    timestamp,
                    bump,
                }),
                Err(e) => movie_title@.len() > 32 && e == spec_error(
                    RatingsErrors::MovieTitleTooLong,
                ),
            },
    {
        if movie_title.len() > 32 {
            return Err(ProgramError::from(RatingsErrors::MovieTitleTooLong));
        }
        Ok(
            RatingState {
                movie_title: pad_title(movie_title.as_slice()),
                rating,
                owner,
                timestamp,
                bump,
            },
        )
    }
}

} // verus!
