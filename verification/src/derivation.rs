use crate::errors::{spec_error, ProgramError, RatingsErrors};
use crate::pubkey::{
    key_to_vec, program_id, spec_id, spec_token_program_id, token_program_id, Pubkey,
};
use vstd::prelude::*;
use vstd::slice::slice_to_vec;

verus! {

/// The address and bump that the host's derivation rule yields for a seed
/// sequence under a program id, or `None` when no bump in range moves the
/// derived address off the valid-key space.
pub uninterp spec fn pda_of(seeds: Seq<Seq<u8>>, program: Seq<u8>) -> Option<(Seq<u8>, u8)>;

/// Relies on solana_pubkey::Pubkey::try_find_program_address: the derived
/// address and bump depend on the seed slices and the program id alone; the
/// returned address is 32 bytes; `None` comes only when no bump seed in range
/// yields a viable derived address.
#[verifier::external_body]
fn host_find_program_address(seeds: &Vec<Vec<u8>>, program: &Pubkey) -> (r: Option<(Pubkey, u8)>)
    ensures
        r is Some <==> pda_of(seeds.deep_view(), program@) is Some,
        r is Some ==> (r->Some_0.0@, r->Some_0.1) == pda_of(seeds.deep_view(), program@)->Some_0,
{
    let mut refs: Vec<&[u8]> = Vec::new();
    for s in seeds.iter() {
        refs.push(s.as_slice());
    }
    let pk = solana_pubkey::Pubkey::new_from_array(*program);
    solana_pubkey::Pubkey::try_find_program_address(&refs, &pk).map(|(addr, bump)| {
        (addr.to_bytes(), bump)
    })
}

/// Derive the storage address and bump for a seed sequence under the given
/// program's identity. Fails with `DerivationExhausted` exactly when no bump
/// yields a viable address; that failure is surfaced, never retried with
/// other seeds.
pub fn derive_for_program(seeds: &Vec<Vec<u8>>, program: &Pubkey) -> (r: Result<
    (Pubkey, u8),
    ProgramError,
>)
    ensures
        match pda_of(seeds.deep_view(), program@) {
            Some(ab) => r is Ok && (r->Ok_0.0@, r->Ok_0.1) == ab,
            None => r == Err::<(Pubkey, u8), ProgramError>(
                spec_error(RatingsErrors::DerivationExhausted),
            ),
        },
{
    match host_find_program_address(seeds, program) {
        Some(ab) => Ok(ab),
        None => Err(ProgramError::from(RatingsErrors::DerivationExhausted)),
    }
}

/// Derive the storage address and bump for a seed sequence under this
/// program's identity.
pub fn derive(seeds: &Vec<Vec<u8>>) -> (r: Result<(Pubkey, u8), ProgramError>)
    ensures
        match pda_of(seeds.deep_view(), spec_id()) {
            Some(ab) => r is Ok && (r->Ok_0.0@, r->Ok_0.1) == ab,
            None => r == Err::<(Pubkey, u8), ProgramError>(
                spec_error(RatingsErrors::DerivationExhausted),
            ),
        },
{
    let pid = program_id();
    derive_for_program(seeds, &pid)
}

/// Law: address derivation is deterministic. Any two derivation outcomes from
/// the same seed sequence under the same program id are identical, address
/// and bump both.
pub proof fn lemma_derive_deterministic(
    seeds: Seq<Seq<u8>>,
    program: Seq<u8>,
    r1: Option<(Seq<u8>, u8)>,
    r2: Option<(Seq<u8>, u8)>,
)
    requires
        r1 == pda_of(seeds, program),
        r2 == pda_of(seeds, program),
    ensures
        r1 == r2,
{
}

/// The fixed seed of the admin record's address: the bytes of the string
/// "ratings_admin".
pub open spec fn spec_admin_seed() -> Seq<u8> {
    seq![114u8, 97, 116, 105, 110, 103, 115, 95, 97, 100, 109, 105, 110]
}

pub fn admin_seed() -> (r: Vec<u8>)
    ensures
        r@ == spec_admin_seed(),
{
    let s: [u8; 13] = [114u8, 97, 116, 105, 110, 103, 115, 95, 97, 100, 109, 105, 110];
    let r = slice_to_vec(s.as_slice());
    proof {
        assert(r@ =~= spec_admin_seed());
    }
    r
}

/// The seed sequence of the admin record's address.
pub open spec fn spec_admin_seeds() -> Seq<Seq<u8>> {
    seq![spec_admin_seed()]
}

pub fn admin_seeds() -> (r: Vec<Vec<u8>>)
    ensures
        r.deep_view() == spec_admin_seeds(),
{
    let mut r: Vec<Vec<u8>> = Vec::new();
    r.push(admin_seed());
    proof {
        assert(r.deep_view() =~~= spec_admin_seeds());
    }
    r
}

/// The seed sequence of a rating record's address: the rater's identity
/// followed by the movie title bytes.
pub open spec fn spec_rating_seeds(user: Seq<u8>, title: Seq<u8>) -> Seq<Seq<u8>> {
    seq![user, title]
}

pub fn rating_seeds(user: &Pubkey, title: &[u8]) -> (r: Vec<Vec<u8>>)
    ensures
        r.deep_view() == spec_rating_seeds(user@, title@),
{
    let mut r: Vec<Vec<u8>> = Vec::new();
    r.push(key_to_vec(user));
    r.push(slice_to_vec(title));
    proof {
        assert(r.deep_view() =~~= spec_rating_seeds(user@, title@));
    }
    r
}

/// The seed sequence of the associated token account of a wallet for a mint:
/// wallet identity, token program identity, mint identity, derived under the
/// associated-token program.
pub open spec fn spec_ata_seeds(wallet: Seq<u8>, mint: Seq<u8>) -> Seq<Seq<u8>> {
    seq![wallet, spec_token_program_id(), mint]
}

pub fn ata_seeds(wallet: &Pubkey, mint: &Pubkey) -> (r: Vec<Vec<u8>>)
    ensures
        r.deep_view() == spec_ata_seeds(wallet@, mint@),
{
    let mut r: Vec<Vec<u8>> = Vec::new();
    r.push(key_to_vec(wallet));
    let token_id = token_program_id();
    r.push(key_to_vec(&token_id));
    r.push(key_to_vec(mint));
    proof {
        assert(r.deep_view() =~~= spec_ata_seeds(wallet@, mint@));
    }
    r
}

} // verus!
