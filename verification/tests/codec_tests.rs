use movie_ratings::account::Account;
use movie_ratings::errors::ProgramError;
use movie_ratings::pubkey::program_id;
use movie_ratings::state::{
    pad_title, trim_trailing_zeros, AdminState, RatingState, ADMIN_RECORD_LEN, RATING_RECORD_LEN,
};

fn key(b: u8) -> [u8; 32] {
    [b; 32]
}

#[test]
fn admin_record_round_trips() {
    let record = AdminState {
        authority: key(1),
        token_mint: key(2),
        reward_amount: 123_456_789_012,
        bump: 253,
    };
    let bytes = record.encode();
    assert_eq!(bytes.len(), ADMIN_RECORD_LEN);
    let decoded = AdminState::decode(bytes.as_slice()).unwrap();
    assert_eq!(decoded, record);
}

#[test]
fn admin_record_exact_layout() {
    let record = AdminState { authority: key(7), token_mint: key(9), reward_amount: 5, bump: 254 };
    let bytes = record.encode();
    let mut expected = Vec::new();
    expected.extend_from_slice(&[7u8; 32]);
    expected.extend_from_slice(&[9u8; 32]);
    expected.extend_from_slice(&[5, 0, 0, 0, 0, 0, 0, 0]);
    expected.extend_from_slice(&[254, 0, 0, 0, 0, 0, 0, 0]);
    assert_eq!(bytes, expected);
}

#[test]
fn admin_record_decode_rejects_wrong_size() {
    assert_eq!(
        AdminState::decode(&[0u8; 79]),
        Err(ProgramError::InvalidAccountData)
    );
    assert_eq!(
        AdminState::decode(&[0u8; 81]),
        Err(ProgramError::InvalidAccountData)
    );
}

#[test]
fn admin_record_load_checks_owner_after_size() {
    let record = AdminState { authority: key(1), token_mint: key(2), reward_amount: 1, bump: 0 };
    let account = Account {
        key: key(3),
        owner: key(4),
        lamports: 0,
        data: record.encode(),
        is_signer: false,
    };
    assert_eq!(AdminState::load(&account), Err(ProgramError::InvalidAccountOwner));

    let owned = Account { owner: program_id(), ..account };
    assert_eq!(AdminState::load(&owned), Ok(record));

    let short = Account {
        key: key(3),
        owner: key(4),
        lamports: 0,
        data: vec![0u8; 10],
        is_signer: false,
    };
    assert_eq!(AdminState::load(&short), Err(ProgramError::InvalidAccountData));
}

#[test]
fn rating_record_round_trips() {
    let mut title = [0u8; 32];
    title[..9].copy_from_slice(b"Inception");
    let record = RatingState {
        movie_title: title,
        rating: 9,
        owner: key(11),
        timestamp: -1234567890,
        bump: 255,
    };
    let bytes = record.encode();
    assert_eq!(bytes.len(), RATING_RECORD_LEN);
    let decoded = RatingState::decode(bytes.as_slice()).unwrap();
    assert_eq!(decoded, record);
}

#[test]
fn rating_record_exact_layout() {
    let mut title = [0u8; 32];
    title[..2].copy_from_slice(b"hi");
    let record =
        RatingState { movie_title: title, rating: 10, owner: key(8), timestamp: 3, bump: 250 };
    let bytes = record.encode();
    let mut expected = Vec::new();
    expected.extend_from_slice(&title);
    expected.push(10);
    expected.extend_from_slice(&[8u8; 32]);
    expected.extend_from_slice(&[0u8; 7]);
    expected.extend_from_slice(&[3, 0, 0, 0, 0, 0, 0, 0]);
    expected.extend_from_slice(&[250, 0, 0, 0, 0, 0, 0, 0]);
    assert_eq!(bytes, expected);
    assert_eq!(bytes.len(), 88);
}

#[test]
fn rating_record_load_checks_size_and_owner() {
    let record = RatingState {
        movie_title: [0u8; 32],
        rating: 1,
        owner: key(1),
        timestamp: 0,
        bump: 0,
    };
    let account = Account {
        key: key(2),
        owner: program_id(),
        lamports: 0,
        data: record.encode(),
        is_signer: false,
    };
    assert_eq!(RatingState::load(&account), Ok(record));

    let wrong_owner = Account { owner: key(5), ..account };
    assert_eq!(RatingState::load(&wrong_owner), Err(ProgramError::InvalidAccountOwner));

    let empty = Account {
        key: key(2),
        owner: program_id(),
        lamports: 0,
        data: Vec::new(),
        is_signer: false,
    };
    assert_eq!(RatingState::load(&empty), Err(ProgramError::InvalidAccountData));
}

#[test]
fn set_movie_title_pads_and_rejects_long_titles() {
    let mut record = RatingState {
        movie_title: [7u8; 32],
        rating: 1,
        owner: key(1),
        timestamp: 0,
        bump: 0,
    };
    record.set_movie_title(b"Up".to_vec()).unwrap();
    let mut expected = [0u8; 32];
    expected[..2].copy_from_slice(b"Up");
    assert_eq!(record.movie_title, expected);

    let err = record.set_movie_title(vec![b'a'; 33]).unwrap_err();
    assert_eq!(err, ProgramError::Custom(4));
    assert_eq!(record.movie_title, expected);
}

#[test]
fn set_rating_enforces_the_domain() {
    let mut record = RatingState {
        movie_title: [0u8; 32],
        rating: 5,
        owner: key(1),
        timestamp: 0,
        bump: 0,
    };
    assert_eq!(record.set_rating(0), Err(ProgramError::Custom(5)));
    assert_eq!(record.rating, 5);
    assert_eq!(record.set_rating(11), Err(ProgramError::Custom(5)));
    assert_eq!(record.rating, 5);
    record.set_rating(1).unwrap();
    assert_eq!(record.rating, 1);
    record.set_rating(10).unwrap();
    assert_eq!(record.rating, 10);
}

#[test]
fn set_inner_builds_a_padded_record() {
    let record =
        RatingState::set_inner(b"Inception".to_vec(), 9, key(3), 1_700_000_000, 252).unwrap();
    assert_eq!(&record.movie_title[..9], b"Inception");
    assert_eq!(record.movie_title[9..], [0u8; 23]);
    assert_eq!(record.rating, 9);
    assert_eq!(record.owner, key(3));
    assert_eq!(record.timestamp, 1_700_000_000);
    assert_eq!(record.bump, 252);

    assert_eq!(
        RatingState::set_inner(vec![b'x'; 33], 9, key(3), 0, 0),
        Err(ProgramError::Custom(4))
    );
}

#[test]
fn admin_setters_replace_one_field_each() {
    let mut record = AdminState { authority: key(1), token_mint: key(2), reward_amount: 1, bump: 9 };
    record.set_authority(key(4)).unwrap();
    record.set_token_mint(key(5)).unwrap();
    record.set_reward_amount(77).unwrap();
    record.set_bump(3).unwrap();
    assert_eq!(
        record,
        AdminState { authority: key(4), token_mint: key(5), reward_amount: 77, bump: 3 }
    );
}

#[test]
fn rating_setters_replace_one_field_each() {
    let mut record = RatingState {
        movie_title: [0u8; 32],
        rating: 5,
        owner: key(1),
        timestamp: 7,
        bump: 2,
    };
    record.set_owner(key(9)).unwrap();
    record.set_timestamp(-5).unwrap();
    assert_eq!(record.owner, key(9));
    assert_eq!(record.timestamp, -5);
    assert_eq!(record.rating, 5);
}

#[test]
fn pad_title_left_justifies_and_zero_fills() {
    let padded = pad_title(b"abc");
    assert_eq!(&padded[..3], b"abc");
    assert_eq!(padded[3..], [0u8; 29]);
    assert_eq!(pad_title(b""), [0u8; 32]);
}

#[test]
fn pad_then_trim_recovers_the_title() {
    let padded = pad_title(b"Inception");
    assert_eq!(trim_trailing_zeros(&padded), b"Inception".to_vec());
    assert_eq!(trim_trailing_zeros(&pad_title(b"")), Vec::<u8>::new());
}

#[test]
fn trim_strips_only_trailing_zeros() {
    let mut buf = [0u8; 32];
    buf[..2].copy_from_slice(b"hi");
    assert_eq!(trim_trailing_zeros(&buf), b"hi".to_vec());

    assert_eq!(trim_trailing_zeros(&[0u8; 32]), Vec::<u8>::new());

    let mut interior = [0u8; 32];
    interior[0] = 1;
    interior[2] = 2;
    assert_eq!(trim_trailing_zeros(&interior), vec![1, 0, 2]);

    let full = [5u8; 32];
    assert_eq!(trim_trailing_zeros(&full), vec![5u8; 32]);
}
