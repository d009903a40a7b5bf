//! End-to-end checks of the commit-verification core, with real
//! ed25519 keys and signatures.

use ed25519_dalek::Signer;
use tendermint_lite::account::Id;
use tendermint_lite::block::{Commit, Header, SignedHeader};
use tendermint_lite::lite::Kind;
use tendermint_lite::validator::{Validator, ValidatorSet};
use tendermint_lite::vote::{BlockId, SignedVote, Time, Vote};

const CHAIN: &str = "test-chain";
const BLOCK_HASH: [u8; 4] = [0xde, 0xad, 0xbe, 0xef];

fn keypair(seed: u8) -> ed25519_dalek::SigningKey {
    ed25519_dalek::SigningKey::from_bytes(&[seed; 32])
}

fn validator(address: &[u8], key: &ed25519_dalek::SigningKey, power: u64) -> Validator {
    Validator::new(
        Id::new(address.to_vec()),
        key.verifying_key().to_bytes().to_vec(),
        power,
    )
}

fn unsigned_vote(address: &[u8], block_hash: Option<Vec<u8>>) -> Vote {
    Vote {
        height: 7,
        round: 1,
        block_id: block_hash.map(|h| BlockId::new(tendermint_lite::hash::Hash::new(h))),
        timestamp: Time { seconds: 1_500_000_000, nanos: 42 },
        validator_address: Id::new(address.to_vec()),
        signature: Vec::new(),
    }
}

/// A vote signed over its canonical sign-bytes for `CHAIN`.
fn signed_vote_by(key: &ed25519_dalek::SigningKey, address: &[u8], block_hash: Option<Vec<u8>>) -> Vote {
    let mut v = unsigned_vote(address, block_hash);
    let sv = SignedVote::new(v.duplicate(), CHAIN, v.validator_address.duplicate(), Vec::new());
    let bytes = sv.sign_bytes();
    v.signature = key.sign(&bytes).to_bytes().to_vec();
    v
}

fn signed_header(precommits: Vec<Option<Vote>>) -> SignedHeader {
    SignedHeader {
        header: Header { chain_id: CHAIN.to_string() },
        commit: Commit {
            block_id: BlockId::new(tendermint_lite::hash::Hash::new(BLOCK_HASH.to_vec())),
            precommits,
        },
    }
}

fn set(vals: Vec<Validator>) -> ValidatorSet {
    ValidatorSet::new(vals).expect("addresses must be unique")
}

#[test]
fn power_of_two_absent_votes_is_zero() {
    let key_a = keypair(1);
    let vals = set(vec![validator(b"AAAA", &key_a, 10)]);
    let sh = signed_header(vec![None]);
    assert_eq!(sh.voting_power_in(&vals).unwrap(), 0);
    let sh2 = signed_header(vec![None, None]);
    let vals2 = set(vec![
        validator(b"AAAA", &keypair(1), 10),
        validator(b"BBBB", &keypair(2), 20),
    ]);
    assert_eq!(sh2.voting_power_in(&vals2).unwrap(), 0);
}

#[test]
fn one_valid_vote_counts_its_power() {
    let key_a = keypair(1);
    let key_b = keypair(2);
    let vals = set(vec![
        validator(b"AAAA", &key_a, 10),
        validator(b"BBBB", &key_b, 20),
    ]);
    let sh = signed_header(vec![
        Some(signed_vote_by(&key_a, b"AAAA", Some(BLOCK_HASH.to_vec()))),
        None,
    ]);
    assert_eq!(sh.voting_power_in(&vals).unwrap(), 10);
    assert!(sh.validate(&vals).is_ok());
}

#[test]
fn all_valid_votes_count_the_exact_sum() {
    let key_a = keypair(1);
    let key_b = keypair(2);
    let vals = set(vec![
        validator(b"AAAA", &key_a, 10),
        validator(b"BBBB", &key_b, 20),
    ]);
    let vote_a = signed_vote_by(&key_a, b"AAAA", Some(BLOCK_HASH.to_vec()));
    let vote_b = signed_vote_by(&key_b, b"BBBB", Some(BLOCK_HASH.to_vec()));
    let sh = signed_header(vec![Some(vote_a.duplicate()), Some(vote_b.duplicate())]);
    assert_eq!(sh.voting_power_in(&vals).unwrap(), 30);
    // slot order does not matter for the total
    let swapped = signed_header(vec![Some(vote_b), Some(vote_a)]);
    assert_eq!(swapped.voting_power_in(&vals).unwrap(), 30);
}

#[test]
fn tampered_signature_of_known_validator_fails_power() {
    let key_a = keypair(1);
    let key_b = keypair(2);
    let vals = set(vec![
        validator(b"AAAA", &key_a, 10),
        validator(b"BBBB", &key_b, 20),
    ]);
    let mut vote_a = signed_vote_by(&key_a, b"AAAA", Some(BLOCK_HASH.to_vec()));
    vote_a.signature[0] ^= 0xff;
    let vote_b = signed_vote_by(&key_b, b"BBBB", Some(BLOCK_HASH.to_vec()));
    let sh = signed_header(vec![Some(vote_a), Some(vote_b)]);
    let err = sh.voting_power_in(&vals).unwrap_err();
    assert!(matches!(err.kind, Kind::ImplementationSpecific));
    assert!(err.msg.is_some());
    // structural shape is fine; only the cryptography fails
    assert!(sh.validate(&vals).is_ok());
}

#[test]
fn vote_signed_for_another_chain_fails_power() {
    let key_a = keypair(1);
    let vals = set(vec![validator(b"AAAA", &key_a, 10)]);
    // sign the same vote data, but bound to a different chain id
    let mut v = unsigned_vote(b"AAAA", Some(BLOCK_HASH.to_vec()));
    let sv = SignedVote::new(
        v.duplicate(),
        "other-chain",
        v.validator_address.duplicate(),
        Vec::new(),
    );
    v.signature = key_a.sign(&sv.sign_bytes()).to_bytes().to_vec();
    let sh = signed_header(vec![Some(v)]);
    assert!(sh.voting_power_in(&vals).is_err());
}

#[test]
fn unknown_signer_contributes_nothing_to_power() {
    let key_a = keypair(1);
    let key_c = keypair(3);
    let vals = set(vec![
        validator(b"AAAA", &key_a, 10),
        validator(b"BBBB", &keypair(2), 20),
    ]);
    let sh = signed_header(vec![
        Some(signed_vote_by(&key_c, b"CCCC", Some(BLOCK_HASH.to_vec()))),
        Some(signed_vote_by(&key_a, b"AAAA", Some(BLOCK_HASH.to_vec()))),
    ]);
    assert_eq!(sh.voting_power_in(&vals).unwrap(), 10);
}

#[test]
fn unknown_signer_is_faulty_validator_in_validate() {
    let key_c = keypair(3);
    let vals = set(vec![
        validator(b"AAAA", &keypair(1), 10),
        validator(b"BBBB", &keypair(2), 20),
    ]);
    let sh = signed_header(vec![
        Some(signed_vote_by(&key_c, b"CCCC", Some(BLOCK_HASH.to_vec()))),
        None,
    ]);
    let err = sh.validate(&vals).unwrap_err();
    match err.kind {
        Kind::FaultyValidator { address } => assert_eq!(address.bytes, b"CCCC".to_vec()),
        _ => panic!("expected the faulty-validator kind"),
    }
    // the power path tolerates the unknown signer instead
    assert_eq!(sh.voting_power_in(&vals).unwrap(), 0);
}

#[test]
fn length_mismatch_fails_validate() {
    let key_b = keypair(2);
    let key_c = keypair(3);
    let vals = set(vec![validator(b"AAAA", &keypair(1), 10)]);
    let sh = signed_header(vec![
        Some(signed_vote_by(&key_c, b"CCCC", Some(BLOCK_HASH.to_vec()))),
        Some(signed_vote_by(&key_b, b"BBBB", Some(BLOCK_HASH.to_vec()))),
    ]);
    let err = sh.validate(&vals).unwrap_err();
    assert!(matches!(err.kind, Kind::ImplementationSpecific));
    let msg = err.msg.unwrap();
    assert_eq!(msg, "pre-commit length: 2 doesn't match validator length: 1");
}

#[test]
fn empty_commit_against_nonempty_set_fails_validate() {
    let vals = set(vec![validator(b"AAAA", &keypair(1), 10)]);
    let sh = signed_header(vec![]);
    assert!(sh.validate(&vals).is_err());
}

#[test]
fn vote_for_another_header_fails_validate() {
    let key_a = keypair(1);
    let key_b = keypair(2);
    let vals = set(vec![
        validator(b"AAAA", &key_a, 10),
        validator(b"BBBB", &key_b, 20),
    ]);
    // a legitimate signer, correctly signed, but for a different block
    let sh = signed_header(vec![
        Some(signed_vote_by(&key_a, b"AAAA", Some(vec![9, 9, 9, 9]))),
        None,
    ]);
    let err = sh.validate(&vals).unwrap_err();
    assert!(matches!(err.kind, Kind::ImplementationSpecific));
    assert!(err.msg.is_some());
}

#[test]
fn nil_vote_passes_validate_without_hash_check() {
    let key_a = keypair(1);
    let vals = set(vec![validator(b"AAAA", &key_a, 10)]);
    // a nil vote: no block id, so no header-hash comparison applies
    let sh = signed_header(vec![Some(signed_vote_by(&key_a, b"AAAA", None))]);
    assert!(sh.validate(&vals).is_ok());
    assert_eq!(sh.voting_power_in(&vals).unwrap(), 10);
}

#[test]
fn checked_power_agrees_with_voting_power_in() {
    let key_a = keypair(1);
    let key_b = keypair(2);
    let vals = set(vec![
        validator(b"AAAA", &key_a, 10),
        validator(b"BBBB", &key_b, 20),
    ]);
    let sh = signed_header(vec![
        Some(signed_vote_by(&key_a, b"AAAA", Some(BLOCK_HASH.to_vec()))),
        Some(signed_vote_by(&key_b, b"BBBB", Some(BLOCK_HASH.to_vec()))),
    ]);
    assert_eq!(sh.checked_voting_power_in(&vals).unwrap().unwrap(), 30);
}

#[test]
fn checked_power_reports_overflow_as_none() {
    let key_a = keypair(1);
    let key_b = keypair(2);
    let vals = set(vec![
        validator(b"AAAA", &key_a, u64::MAX),
        validator(b"BBBB", &key_b, u64::MAX),
    ]);
    let sh = signed_header(vec![
        Some(signed_vote_by(&key_a, b"AAAA", Some(BLOCK_HASH.to_vec()))),
        Some(signed_vote_by(&key_b, b"BBBB", Some(BLOCK_HASH.to_vec()))),
    ]);
    assert!(sh.checked_voting_power_in(&vals).is_none());
}

#[test]
fn duplicate_addresses_are_rejected_by_the_set() {
    let key_a = keypair(1);
    let key_b = keypair(2);
    assert!(ValidatorSet::new(vec![
        validator(b"AAAA", &key_a, 10),
        validator(b"AAAA", &key_b, 20),
    ])
    .is_none());
}

#[test]
fn validator_lookup_finds_members_only() {
    let key_a = keypair(1);
    let vals = set(vec![validator(b"AAAA", &key_a, 10)]);
    let found = vals.validator(&Id::new(b"AAAA".to_vec())).expect("member");
    assert_eq!(found.power(), 10);
    assert!(vals.validator(&Id::new(b"ZZZZ".to_vec())).is_none());
}

#[test]
fn header_hash_is_the_committed_block_hash() {
    let sh = signed_header(vec![]);
    assert_eq!(sh.header_hash().bytes, BLOCK_HASH.to_vec());
}

#[test]
fn iter_pairs_votes_with_the_chain_id() {
    let key_a = keypair(1);
    let sh = signed_header(vec![
        None,
        Some(signed_vote_by(&key_a, b"AAAA", Some(BLOCK_HASH.to_vec()))),
    ]);
    let signed_votes = sh.iter();
    assert_eq!(signed_votes.len(), 2);
    assert!(signed_votes[0].is_none());
    let sv = signed_votes[1].as_ref().unwrap();
    assert_eq!(sv.chain_id, CHAIN.to_string());
    assert_eq!(sv.validator_id().bytes, b"AAAA".to_vec());
}

#[test]
fn sign_bytes_have_the_canonical_layout() {
    let v = Vote {
        height: 1,
        round: 2,
        block_id: Some(BlockId::new(tendermint_lite::hash::Hash::new(vec![0xaa]))),
        timestamp: Time { seconds: 3, nanos: 4 },
        validator_address: Id::new(b"A".to_vec()),
        signature: Vec::new(),
    };
    let sv = SignedVote::new(v, "c", Id::new(b"A".to_vec()), Vec::new());
    let mut expected: Vec<u8> = Vec::new();
    expected.extend_from_slice(&1u64.to_le_bytes()); // chain id length
    expected.push(b'c'); // chain id bytes
    expected.extend_from_slice(&1u64.to_le_bytes()); // height
    expected.extend_from_slice(&2u64.to_le_bytes()); // round
    expected.extend_from_slice(&3u64.to_le_bytes()); // timestamp seconds
    expected.extend_from_slice(&4u64.to_le_bytes()); // timestamp nanos
    expected.push(1); // a block id is present
    expected.extend_from_slice(&1u64.to_le_bytes()); // hash length
    expected.push(0xaa); // hash bytes
    assert_eq!(sv.sign_bytes(), expected);
}

#[test]
fn signature_is_not_part_of_the_sign_bytes() {
    let key_a = keypair(1);
    let with_sig = signed_vote_by(&key_a, b"AAAA", Some(BLOCK_HASH.to_vec()));
    let without_sig = unsigned_vote(b"AAAA", Some(BLOCK_HASH.to_vec()));
    let sv1 = SignedVote::new(
        with_sig.duplicate(),
        CHAIN,
        Id::new(b"AAAA".to_vec()),
        with_sig.signature.clone(),
    );
    let sv2 = SignedVote::new(without_sig, CHAIN, Id::new(b"AAAA".to_vec()), Vec::new());
    assert_eq!(sv1.sign_bytes(), sv2.sign_bytes());
}

#[test]
fn a_signed_header_converts_into_the_generic_pair() {
    let key_a = keypair(1);
    let sh = signed_header(vec![Some(signed_vote_by(&key_a, b"AAAA", Some(BLOCK_HASH.to_vec())))]);
    let pair: tendermint_lite::lite::SignedHeader<SignedHeader, Header> = (&sh).into();
    assert_eq!(pair.header().chain_id, CHAIN.to_string());
    assert_eq!(pair.commit().commit.precommits.len(), 1);
    let owned: tendermint_lite::lite::SignedHeader<SignedHeader, Header> = sh.into();
    assert_eq!(owned.header().chain_id, CHAIN.to_string());
}

#[test]
fn hash_mismatch_is_reported_before_the_unknown_signer_behind_it() {
    let key_a = keypair(1);
    let key_c = keypair(3);
    let vals = set(vec![validator(b"AAAA", &key_a, 10), validator(b"BBBB", &keypair(2), 20)]);
    // slot 0 votes for another block; slot 1 is from an unknown signer
    let sh = signed_header(vec![
        Some(signed_vote_by(&key_a, b"AAAA", Some(vec![9, 9, 9, 9]))),
        Some(signed_vote_by(&key_c, b"CCCC", Some(BLOCK_HASH.to_vec()))),
    ]);
    let err = sh.validate(&vals).unwrap_err();
    assert!(matches!(err.kind, Kind::ImplementationSpecific));
}

#[test]
fn unknown_signer_is_reported_before_a_later_hash_mismatch() {
    let key_a = keypair(1);
    let key_c = keypair(3);
    let vals = set(vec![validator(b"AAAA", &key_a, 10), validator(b"BBBB", &keypair(2), 20)]);
    // slot 0 is from an unknown signer with a good hash; slot 1 votes
    // for another block
    let sh = signed_header(vec![
        Some(signed_vote_by(&key_c, b"CCCC", Some(BLOCK_HASH.to_vec()))),
        Some(signed_vote_by(&key_a, b"AAAA", Some(vec![9, 9, 9, 9]))),
    ]);
    let err = sh.validate(&vals).unwrap_err();
    match err.kind {
        Kind::FaultyValidator { address } => assert_eq!(address.bytes, b"CCCC".to_vec()),
        _ => panic!("expected the faulty-validator kind"),
    }
}

fn power_through_the_capability<C: tendermint_lite::lite::Commit>(
    c: &C,
    vals: &C::ValidatorSet,
) -> Result<u64, tendermint_lite::lite::Error> {
    c.voting_power_in(vals)
}

#[test]
fn the_commit_capability_is_usable_generically() {
    let key_a = keypair(1);
    let vals = set(vec![validator(b"AAAA", &key_a, 10)]);
    let sh = signed_header(vec![Some(signed_vote_by(&key_a, b"AAAA", Some(BLOCK_HASH.to_vec())))]);
    assert_eq!(power_through_the_capability(&sh, &vals).unwrap(), 10);
    let hash = tendermint_lite::lite::Commit::header_hash(&sh);
    assert_eq!(hash.bytes, BLOCK_HASH.to_vec());
}
