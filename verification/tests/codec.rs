//! The record codec against concrete values and against the borsh
//! encoding the wire format mirrors.

use review_ledger::addr::Address;
use review_ledger::codec::{
    decode_comment, decode_counter, decode_review, encode_comment, encode_counter, encode_review,
};
use review_ledger::state::{
    MovieAccountState, MovieComment, MovieCommentCounter, COUNTER_RECORD_SIZE,
};

fn sample_review() -> MovieAccountState {
    MovieAccountState {
        discriminator: b"review".to_vec(),
        is_initialized: true,
        review: Address { bytes: vec![7u8; 32] },
        rating: 4,
        title: b"Dune".to_vec(),
        description: b"Sand, worms, destiny".to_vec(),
    }
}

#[test]
fn review_round_trip() {
    let state = sample_review();
    let bytes = encode_review(&state);
    let back = decode_review(&bytes).expect("a fresh encoding must decode");
    assert_eq!(back.discriminator, b"review".to_vec());
    assert!(back.is_initialized);
    assert_eq!(back.review.bytes, vec![7u8; 32]);
    assert_eq!(back.rating, 4);
    assert_eq!(back.title, b"Dune".to_vec());
    assert_eq!(back.description, b"Sand, worms, destiny".to_vec());
}

#[test]
fn review_matches_borsh() {
    let state = sample_review();
    let ours = encode_review(&state);
    let record = (
        "review".to_string(),
        true,
        [7u8; 32],
        4u8,
        "Dune".to_string(),
        "Sand, worms, destiny".to_string(),
    );
    let theirs = borsh::to_vec(&record).unwrap();
    assert_eq!(ours, theirs);
}

#[test]
fn counter_round_trip_and_size() {
    let state = MovieCommentCounter {
        discriminator: b"counter".to_vec(),
        is_initialized: true,
        counter: 41,
    };
    let bytes = encode_counter(&state);
    assert_eq!(bytes.len(), COUNTER_RECORD_SIZE);
    let back = decode_counter(&bytes).unwrap();
    assert_eq!(back.discriminator, b"counter".to_vec());
    assert!(back.is_initialized);
    assert_eq!(back.counter, 41);
}

#[test]
fn counter_matches_borsh() {
    let state = MovieCommentCounter {
        discriminator: b"counter".to_vec(),
        is_initialized: false,
        counter: 7,
    };
    let ours = encode_counter(&state);
    let theirs = borsh::to_vec(&("counter".to_string(), false, 7u64)).unwrap();
    assert_eq!(ours, theirs);
}

#[test]
fn comment_round_trip() {
    let state = MovieComment {
        discriminator: b"comment".to_vec(),
        is_initialized: true,
        review: Address { bytes: vec![1u8; 32] },
        commenter: Address { bytes: vec![2u8; 32] },
        comment: b"Loved it".to_vec(),
        count: 3,
    };
    let bytes = encode_comment(&state);
    assert_eq!(bytes.len(), 88 + 8);
    let back = decode_comment(&bytes).unwrap();
    assert_eq!(back.review.bytes, vec![1u8; 32]);
    assert_eq!(back.commenter.bytes, vec![2u8; 32]);
    assert_eq!(back.comment, b"Loved it".to_vec());
    assert_eq!(back.count, 3);
}

#[test]
fn comment_matches_borsh() {
    let state = MovieComment {
        discriminator: b"comment".to_vec(),
        is_initialized: true,
        review: Address { bytes: vec![1u8; 32] },
        commenter: Address { bytes: vec![2u8; 32] },
        comment: b"Loved it".to_vec(),
        count: 3,
    };
    let ours = encode_comment(&state);
    let theirs = borsh::to_vec(&(
        "comment".to_string(),
        true,
        [1u8; 32],
        [2u8; 32],
        "Loved it".to_string(),
        3u64,
    ))
    .unwrap();
    assert_eq!(ours, theirs);
}

#[test]
fn never_written_buffer_reads_as_uninitialized() {
    // An all-zero buffer decodes to the well-defined empty reading.
    let zeros = vec![0u8; 1000];
    let review = decode_review(&zeros).unwrap();
    assert!(!review.is_initialized);
    assert_eq!(review.discriminator, Vec::<u8>::new());
    assert_eq!(review.title, Vec::<u8>::new());
    assert_eq!(review.rating, 0);
    let counter = decode_counter(&zeros).unwrap();
    assert!(!counter.is_initialized);
    assert_eq!(counter.counter, 0);
}

#[test]
fn malformed_buffers_do_not_decode() {
    // Too short for the length prefix.
    assert!(decode_review(&vec![1u8, 2u8]).is_none());
    // Announced length overruns the buffer.
    let overrun = vec![255u8, 255u8, 255u8, 255u8, 1u8];
    assert!(decode_review(&overrun).is_none());
    // A flag byte other than 0 or 1.
    let mut bad_flag = borsh::to_vec(&"review".to_string()).unwrap();
    bad_flag.push(2u8);
    bad_flag.extend_from_slice(&[0u8; 100]);
    assert!(decode_review(&bad_flag).is_none());
    // An empty buffer holds no counter either.
    assert!(decode_counter(&Vec::new()).is_none());
}

#[test]
fn decode_ignores_trailing_bytes() {
    let state = sample_review();
    let mut bytes = encode_review(&state);
    let plain = decode_review(&bytes).unwrap();
    bytes.extend_from_slice(&[0u8; 500]);
    let padded = decode_review(&bytes).unwrap();
    assert_eq!(plain.title, padded.title);
    assert_eq!(plain.description, padded.description);
    assert_eq!(plain.rating, padded.rating);
}

#[test]
fn account_sizes_match_encodings() {
    let state = sample_review();
    let bytes = encode_review(&state);
    assert_eq!(
        MovieAccountState::get_account_size(&state.title, &state.description),
        bytes.len()
    );
    assert_eq!(MovieAccountState::get_account_size(&Vec::new(), &Vec::new()), 52);
    assert_eq!(MovieComment::get_account_size(&b"Loved it".to_vec()), 96);
}

#[test]
fn initialized_flag_getters_read_the_flag() {
    let state = sample_review();
    assert!(state.is_initialized());
    let counter = MovieCommentCounter {
        discriminator: b"counter".to_vec(),
        is_initialized: false,
        counter: 0,
    };
    assert!(!counter.is_initialized());
    let comment = MovieComment {
        discriminator: b"comment".to_vec(),
        is_initialized: true,
        review: Address { bytes: vec![1u8; 32] },
        commenter: Address { bytes: vec![2u8; 32] },
        comment: Vec::new(),
        count: 0,
    };
    assert!(comment.is_initialized());
}
