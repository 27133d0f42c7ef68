use movie_ratings::account::Account;
use movie_ratings::derivation::{admin_seeds, ata_seeds, rating_seeds};
use movie_ratings::effects::{AuthorityProof, Effect, HostEnv};
use movie_ratings::errors::ProgramError;
use movie_ratings::helpers::{MINT_LEN, TOKEN_ACCOUNT_LEN};
use movie_ratings::process_instruction;
use movie_ratings::pubkey::{ata_program_id, program_id, system_program_id, token_program_id};
use movie_ratings::state::{AdminState, RatingState, ADMIN_RECORD_LEN, RATING_RECORD_LEN};

fn key(b: u8) -> [u8; 32] {
    [b; 32]
}

fn account(key: [u8; 32], owner: [u8; 32], data: Vec<u8>, is_signer: bool) -> Account {
    Account { key, owner, lamports: 0, data, is_signer }
}

fn env() -> HostEnv {
    HostEnv {
        admin_record_rent: 1_000_000,
        mint_rent: 1_400_000,
        rating_record_rent: 1_200_000,
        unix_timestamp: 1_700_000_000,
    }
}

struct World {
    user: [u8; 32],
    admin_key: [u8; 32],
    admin_bump: u8,
    mint_key: [u8; 32],
    admin_ata_key: [u8; 32],
}

fn world() -> World {
    let user = key(10);
    let (admin_key, admin_bump) = movie_ratings::derivation::derive(&admin_seeds()).unwrap();
    let mint_key = key(20);
    let ata_pid = ata_program_id();
    let (admin_ata_key, _) =
        movie_ratings::derivation::derive_for_program(&ata_seeds(&admin_key, &mint_key), &ata_pid)
            .unwrap();
    World { user, admin_key, admin_bump, mint_key, admin_ata_key }
}

fn init_admin_accounts(w: &World) -> Vec<Account> {
    vec![
        account(w.user, system_program_id(), Vec::new(), true),
        account(w.admin_key, system_program_id(), Vec::new(), false),
        account(w.mint_key, system_program_id(), Vec::new(), false),
        account(w.admin_ata_key, system_program_id(), Vec::new(), false),
        account(key(30), system_program_id(), Vec::new(), false),
        account(token_program_id(), key(0), Vec::new(), false),
        account(ata_program_id(), key(0), Vec::new(), false),
    ]
}

fn init_admin_data(reward: u64) -> Vec<u8> {
    let mut data = vec![0u8];
    data.extend_from_slice(&reward.to_le_bytes());
    data
}

/// Runs Initialize-Admin with reward 5 and returns the written admin record
/// bytes.
fn written_admin_record(w: &World) -> Vec<u8> {
    let plan = process_instruction(&init_admin_accounts(w), &init_admin_data(5), env()).unwrap();
    match plan.into_iter().last().unwrap() {
        Effect::WriteRecord { bytes, .. } => bytes,
        other => panic!("expected a record write, got {:?}", other),
    }
}

fn mint_account_data() -> Vec<u8> {
    let mut data = vec![0u8; MINT_LEN];
    data[44] = 9;
    data
}

struct Rated {
    rating_key: [u8; 32],
    rating_bump: u8,
    authority_ata_key: [u8; 32],
    record_bytes: Vec<u8>,
}

fn init_rating_accounts(w: &World, rated: &Rated, rating_data: Vec<u8>) -> Vec<Account> {
    vec![
        account(w.user, system_program_id(), Vec::new(), true),
        account(rated.rating_key, system_program_id(), rating_data, false),
        account(rated.authority_ata_key, system_program_id(), Vec::new(), false),
        account(w.admin_key, program_id(), written_admin_record(w), false),
        account(w.admin_ata_key, token_program_id(), vec![0u8; TOKEN_ACCOUNT_LEN], false),
        account(w.mint_key, token_program_id(), mint_account_data(), false),
        account(key(30), system_program_id(), Vec::new(), false),
        account(token_program_id(), key(0), Vec::new(), false),
        account(ata_program_id(), key(0), Vec::new(), false),
    ]
}

fn init_rating_data(title: &[u8], rating: u8) -> Vec<u8> {
    let mut data = vec![1u8];
    data.extend_from_slice(title);
    data.push(rating);
    data
}

/// Runs the Initialize-Rating scenario for "Inception", rated 9, and returns
/// the pieces later steps need.
fn rate_inception(w: &World) -> Rated {
    let seeds = rating_seeds(&w.user, b"Inception");
    let (rating_key, rating_bump) = movie_ratings::derivation::derive(&seeds).unwrap();
    let ata_pid = ata_program_id();
    let (authority_ata_key, _) =
        movie_ratings::derivation::derive_for_program(&ata_seeds(&w.user, &w.mint_key), &ata_pid)
            .unwrap();
    let mut rated = Rated { rating_key, rating_bump, authority_ata_key, record_bytes: Vec::new() };

    let accounts = init_rating_accounts(w, &rated, Vec::new());
    let plan = process_instruction(&accounts, &init_rating_data(b"Inception", 9), env()).unwrap();
    assert_eq!(plan.len(), 4);

    assert_eq!(
        plan[0],
        Effect::CreateAccount {
            from: w.user,
            to: rating_key,
            lamports: env().rating_record_rent,
            space: RATING_RECORD_LEN as u64,
            owner: program_id(),
            authority: Some(AuthorityProof {
                seeds: rating_seeds(&w.user, b"Inception"),
                bump: rating_bump,
            }),
        }
    );
    let record_bytes = match &plan[1] {
        Effect::WriteRecord { account, bytes } => {
            assert_eq!(*account, rating_key);
            bytes.clone()
        },
        other => panic!("expected a record write, got {:?}", other),
    };
    let record = RatingState::decode(&record_bytes).unwrap();
    assert_eq!(&record.movie_title[..9], b"Inception");
    assert_eq!(record.movie_title[9..], [0u8; 23]);
    assert_eq!(record.rating, 9);
    assert_eq!(record.owner, w.user);
    assert_eq!(record.timestamp, env().unix_timestamp);
    assert_eq!(record.bump, rating_bump);

    assert_eq!(
        plan[2],
        Effect::CreateAssociatedTokenAccount {
            funding: w.user,
            account: authority_ata_key,
            wallet: w.user,
            mint: w.mint_key,
        }
    );
    assert_eq!(
        plan[3],
        Effect::TransferChecked {
            from: w.admin_ata_key,
            mint: w.mint_key,
            to: authority_ata_key,
            authority_account: w.admin_key,
            amount: 5,
            decimals: 9,
            authority: AuthorityProof { seeds: admin_seeds(), bump: w.admin_bump },
        }
    );

    rated.record_bytes = record_bytes;
    rated
}

#[test]
fn initialize_admin_plans_all_effects_in_order() {
    let w = world();
    let plan = process_instruction(&init_admin_accounts(&w), &init_admin_data(5), env()).unwrap();
    assert_eq!(plan.len(), 6);

    assert_eq!(
        plan[0],
        Effect::CreateAccount {
            from: w.user,
            to: w.admin_key,
            lamports: env().admin_record_rent,
            space: ADMIN_RECORD_LEN as u64,
            owner: program_id(),
            authority: Some(AuthorityProof { seeds: admin_seeds(), bump: w.admin_bump }),
        }
    );
    assert_eq!(
        plan[1],
        Effect::CreateAccount {
            from: w.user,
            to: w.mint_key,
            lamports: env().mint_rent,
            space: MINT_LEN as u64,
            owner: token_program_id(),
            authority: None,
        }
    );
    assert_eq!(
        plan[2],
        Effect::InitializeMint { mint: w.mint_key, mint_authority: w.admin_key, decimals: 9 }
    );
    assert_eq!(
        plan[3],
        Effect::CreateAssociatedTokenAccount {
            funding: w.user,
            account: w.admin_ata_key,
            wallet: w.admin_key,
            mint: w.mint_key,
        }
    );
    // The admin's stock is reward_amount * 1000: with reward 5 the admin's
    // token balance after the mint is 5000.
    assert_eq!(
        plan[4],
        Effect::MintTo {
            mint: w.mint_key,
            account: w.admin_ata_key,
            mint_authority: w.admin_key,
            amount: 5000,
            authority: AuthorityProof { seeds: admin_seeds(), bump: w.admin_bump },
        }
    );
    match &plan[5] {
        Effect::WriteRecord { account, bytes } => {
            assert_eq!(*account, w.admin_key);
            let record = AdminState::decode(bytes).unwrap();
            assert_eq!(record.authority, w.user);
            assert_eq!(record.token_mint, w.mint_key);
            assert_eq!(record.reward_amount, 5);
            assert_eq!(record.bump, w.admin_bump);
        },
        other => panic!("expected a record write, got {:?}", other),
    }
}

#[test]
fn initialize_admin_requires_an_empty_admin_account() {
    let w = world();
    let mut accounts = init_admin_accounts(&w);
    accounts[1].data = vec![0u8; 1];
    let r = process_instruction(&accounts, &init_admin_data(5), env());
    assert_eq!(r.unwrap_err(), ProgramError::Custom(6));
}

#[test]
fn initialize_admin_rejects_an_oversized_reward() {
    let w = world();
    let r = process_instruction(&init_admin_accounts(&w), &init_admin_data(u64::MAX / 2), env());
    assert_eq!(r.unwrap_err(), ProgramError::ArithmeticOverflow);
}

#[test]
fn initialize_admin_wants_exactly_seven_accounts() {
    let w = world();
    let mut accounts = init_admin_accounts(&w);
    accounts.pop();
    let r = process_instruction(&accounts, &init_admin_data(5), env());
    assert_eq!(r.unwrap_err(), ProgramError::NotEnoughAccountKeys);
}

#[test]
fn initialize_rating_rates_inception() {
    let w = world();
    rate_inception(&w);
}

#[test]
fn initialize_rating_skips_ata_creation_when_sized() {
    let w = world();
    let seeds = rating_seeds(&w.user, b"Inception");
    let (rating_key, rating_bump) = movie_ratings::derivation::derive(&seeds).unwrap();
    let ata_pid = ata_program_id();
    let (authority_ata_key, _) =
        movie_ratings::derivation::derive_for_program(&ata_seeds(&w.user, &w.mint_key), &ata_pid)
            .unwrap();
    let rated = Rated { rating_key, rating_bump, authority_ata_key, record_bytes: Vec::new() };

    let mut accounts = init_rating_accounts(&w, &rated, Vec::new());
    accounts[2].data = vec![0u8; TOKEN_ACCOUNT_LEN];
    let plan = process_instruction(&accounts, &init_rating_data(b"Inception", 9), env()).unwrap();
    assert_eq!(plan.len(), 3);
    assert!(matches!(plan[2], Effect::TransferChecked { .. }));
}

#[test]
fn initialize_rating_twice_fails_expected_empty() {
    let w = world();
    let rated = rate_inception(&w);

    // The second invocation sees the record account holding the first
    // invocation's written record.
    let accounts = init_rating_accounts(&w, &rated, rated.record_bytes.clone());
    let r = process_instruction(&accounts, &init_rating_data(b"Inception", 9), env());
    assert_eq!(r.unwrap_err(), ProgramError::Custom(6));
}

#[test]
fn initialize_rating_rejects_a_mismatched_mint() {
    let w = world();
    let seeds = rating_seeds(&w.user, b"Inception");
    let (rating_key, rating_bump) = movie_ratings::derivation::derive(&seeds).unwrap();
    let ata_pid = ata_program_id();
    let (authority_ata_key, _) =
        movie_ratings::derivation::derive_for_program(&ata_seeds(&w.user, &w.mint_key), &ata_pid)
            .unwrap();
    let rated = Rated { rating_key, rating_bump, authority_ata_key, record_bytes: Vec::new() };

    let mut accounts = init_rating_accounts(&w, &rated, Vec::new());
    // Rewrite the stored admin record to name another mint.
    let mut admin_record = AdminState::decode(&accounts[3].data).unwrap();
    admin_record.set_token_mint(key(21)).unwrap();
    accounts[3].data = admin_record.encode();
    let r = process_instruction(&accounts, &init_rating_data(b"Inception", 9), env());
    assert_eq!(r.unwrap_err(), ProgramError::Custom(7));
}

fn delete_accounts(w: &World, rating: Account) -> Vec<Account> {
    vec![
        account(w.user, system_program_id(), Vec::new(), true),
        rating,
        account(key(30), system_program_id(), Vec::new(), false),
    ]
}

#[test]
fn delete_rating_reclaims_and_closes() {
    let w = world();
    let rated = rate_inception(&w);

    let mut rating_account =
        account(rated.rating_key, program_id(), rated.record_bytes.clone(), false);
    rating_account.lamports = env().rating_record_rent;
    let mut accounts = delete_accounts(&w, rating_account);
    accounts[0].lamports = 10;

    let plan = process_instruction(&accounts, &[2], env()).unwrap();
    assert_eq!(
        plan[0],
        Effect::MoveLamports { from: rated.rating_key, to: w.user, amount: 1_200_000 }
    );
    assert_eq!(plan[1], Effect::CloseAccount { account: rated.rating_key });
    assert_eq!(plan.len(), 2);

    // Apply the effects to the snapshots as the host would: the record
    // account's data length becomes zero and the rater's native balance rises
    // by the reclaimed deposit.
    accounts[0].lamports += 1_200_000;
    accounts[1].lamports -= 1_200_000;
    accounts[1].data.clear();
    assert_eq!(accounts[1].data.len(), 0);
    assert_eq!(accounts[0].lamports, 1_200_010);
}

#[test]
fn delete_rating_rejects_a_title_that_rederives_elsewhere() {
    let w = world();
    let rated = rate_inception(&w);

    // A record stored at Inception's address whose stored title says "Tenet":
    // the trimmed title re-derives to a different address.
    let record =
        RatingState::set_inner(b"Tenet".to_vec(), 9, w.user, 1_700_000_000, rated.rating_bump)
            .unwrap();
    let rating_account = account(rated.rating_key, program_id(), record.encode(), false);
    let accounts = delete_accounts(&w, rating_account);
    let r = process_instruction(&accounts, &[2], env());
    assert_eq!(r.unwrap_err(), ProgramError::Custom(1));
}

#[test]
fn delete_rating_rejects_a_stranger() {
    let w = world();
    let rated = rate_inception(&w);

    let rating_account = account(rated.rating_key, program_id(), rated.record_bytes.clone(), false);
    let mut accounts = delete_accounts(&w, rating_account);
    // Another signer presents the same record: the re-derivation under the
    // stranger's identity misses the record's address.
    accounts[0].key = key(77);
    let r = process_instruction(&accounts, &[2], env());
    assert_eq!(r.unwrap_err(), ProgramError::Custom(1));
}

#[test]
fn delete_rating_wants_a_signer() {
    let w = world();
    let rated = rate_inception(&w);
    let rating_account = account(rated.rating_key, program_id(), rated.record_bytes.clone(), false);
    let mut accounts = delete_accounts(&w, rating_account);
    accounts[0].is_signer = false;
    let r = process_instruction(&accounts, &[2], env());
    assert_eq!(r.unwrap_err(), ProgramError::MissingRequiredSignature);
}

#[test]
fn unknown_discriminator_fails_with_zero_effects() {
    let w = world();
    let accounts = init_admin_accounts(&w);
    let r = process_instruction(&accounts, &[99], env());
    // The error outcome carries no effect list at all.
    assert_eq!(r.unwrap_err(), ProgramError::Custom(8));

    let empty = process_instruction(&accounts, &[], env());
    assert_eq!(empty.unwrap_err(), ProgramError::Custom(8));
}
