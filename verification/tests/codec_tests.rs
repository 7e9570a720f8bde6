use consensus_vote::block_info::BlockInfo;
use consensus_vote::codec;
use consensus_vote::crypto::{HashValue, Signature};
use consensus_vote::ledger_info::LedgerInfo;
use consensus_vote::quorum_cert::QuorumCert;
use consensus_vote::timeout::{Timeout, TwoChainTimeout};
use consensus_vote::validator::{
    ValidatorConsensusInfo, ValidatorSigner, ValidatorVerifier, VerifyError,
};
use consensus_vote::vote::Vote;
use consensus_vote::vote_data::VoteData;

fn signer() -> ValidatorSigner {
    ValidatorSigner::new(7, vec![13u8; 32])
}

fn plain_vote() -> (Vote, ValidatorSigner) {
    let s = signer();
    let vd = VoteData::new(BlockInfo::new(2, 5), BlockInfo::new(2, 4));
    let li = LedgerInfo::new(BlockInfo::new(2, 5), HashValue::new(vec![0u8; 32]));
    let vote = Vote::new(vd, s.author(), li, &s);
    (vote, s)
}

#[test]
fn round_trip_plain_vote() {
    let (vote, _s) = plain_vote();
    let bytes = codec::encode_vote(&vote);
    assert_eq!(bytes.len(), 153);
    assert_eq!(codec::decode_vote(&bytes), Some(vote));
}

#[test]
fn round_trip_legacy_timeout_vote() {
    let (mut vote, s) = plain_vote();
    let t = vote.generate_timeout();
    vote.add_timeout_signature(s.sign(&codec::encode_timeout(&t)));
    let bytes = codec::encode_vote(&vote);
    assert_eq!(bytes.len(), 217);
    assert_eq!(codec::decode_vote(&bytes), Some(vote));
}

#[test]
fn round_trip_two_chain_vote() {
    let (mut vote, s) = plain_vote();
    let t = vote.generate_2chain_timeout(QuorumCert::new(BlockInfo::new(2, 4)));
    let sig = s.sign(&t.signing_format());
    vote.add_2chain_timeout(t, sig);
    let bytes = codec::encode_vote(&vote);
    assert_eq!(bytes.len(), 250);
    assert_eq!(codec::decode_vote(&bytes), Some(vote));
}

#[test]
fn two_chain_absent_iff_absent_from_encoding() {
    let (plain, s) = plain_vote();
    assert_eq!(codec::encode_vote(&plain).len(), 153);

    let mut with_tc = plain.clone();
    let t = with_tc.generate_2chain_timeout(QuorumCert::new(BlockInfo::new(2, 4)));
    let sig = s.sign(&t.signing_format());
    with_tc.add_2chain_timeout(t, sig);
    assert_eq!(codec::encode_vote(&with_tc).len(), 153 + 97);
}

#[test]
fn decode_rejects_truncation() {
    let (vote, _s) = plain_vote();
    let bytes = codec::encode_vote(&vote);
    for cut in [0usize, 1, 100, 152] {
        let mut short = bytes.clone();
        short.truncate(cut);
        assert_eq!(codec::decode_vote(&short), None);
    }
}

#[test]
fn decode_rejects_bad_tag() {
    let (vote, _s) = plain_vote();
    let mut bytes = codec::encode_vote(&vote);
    bytes[152] = 2;
    assert_eq!(codec::decode_vote(&bytes), None);
}

#[test]
fn decode_rejects_trailing_garbage() {
    let (vote, _s) = plain_vote();
    let mut bytes = codec::encode_vote(&vote);
    bytes.push(0u8);
    assert_eq!(codec::decode_vote(&bytes), None);
}

#[test]
fn block_info_encoding_is_little_endian() {
    let bytes = codec::encode_block_info(&BlockInfo::new(1, 2));
    assert_eq!(
        bytes,
        vec![1, 0, 0, 0, 0, 0, 0, 0, 2, 0, 0, 0, 0, 0, 0, 0]
    );
}

#[test]
fn timeout_encoding_exact_bytes() {
    let bytes = codec::encode_timeout(&Timeout::new(2, 5));
    assert_eq!(
        bytes,
        vec![2, 0, 0, 0, 0, 0, 0, 0, 5, 0, 0, 0, 0, 0, 0, 0]
    );
}

#[test]
fn signing_format_exact_bytes() {
    let t = TwoChainTimeout::new(2, 5, QuorumCert::new(BlockInfo::new(2, 4)));
    let bytes = t.signing_format();
    assert_eq!(
        bytes,
        vec![
            2, 0, 0, 0, 0, 0, 0, 0, 5, 0, 0, 0, 0, 0, 0, 0, 4, 0, 0, 0, 0, 0, 0, 0
        ]
    );
}

#[test]
fn hash_is_not_the_encoding() {
    // the digest is 32 bytes, the same length as the vote data encoding; a
    // hash that handed its input back unchanged would make these equal
    let vd = VoteData::new(BlockInfo::new(2, 5), BlockInfo::new(2, 4));
    assert_eq!(vd.hash().bytes.len(), 32);
    assert_ne!(vd.hash().bytes, codec::encode_vote_data(&vd));
}

#[test]
fn hash_depends_on_content() {
    let vd1 = VoteData::new(BlockInfo::new(2, 5), BlockInfo::new(2, 4));
    let vd2 = VoteData::new(BlockInfo::new(2, 6), BlockInfo::new(2, 4));
    assert_ne!(vd1.hash().bytes, vd2.hash().bytes);
    assert_eq!(vd1.hash().bytes, vd1.hash().bytes);
    assert!(vd1.hash().equals(&vd1.hash()));
    assert!(!vd1.hash().equals(&vd2.hash()));
}

#[test]
fn signature_is_not_the_message() {
    let s = signer();
    let message = vec![9u8; 64];
    let sig = s.sign(&message);
    assert_eq!(sig.bytes.len(), 64);
    assert_ne!(sig.bytes, message);
}

#[test]
fn public_key_is_not_the_private_key() {
    let s = signer();
    let pk = s.public_key();
    assert_eq!(pk.len(), 32);
    assert_ne!(pk, vec![13u8; 32]);
}

#[test]
fn verifier_accepts_own_signature() {
    let s = signer();
    let vv = ValidatorVerifier::new(vec![ValidatorConsensusInfo::new(s.author(), s.public_key())]);
    let message = vec![1u8, 2, 3];
    let sig = s.sign(&message);
    assert_eq!(vv.verify(s.author(), &message, &sig), Ok(()));
    assert_eq!(
        vv.verify(s.author(), &vec![1u8, 2, 4], &sig),
        Err(VerifyError::InvalidSignature)
    );
}

#[test]
fn verifier_unknown_author() {
    let s = signer();
    let vv = ValidatorVerifier::new(vec![ValidatorConsensusInfo::new(s.author(), s.public_key())]);
    assert!(vv.get_public_key(7).is_some());
    assert!(vv.get_public_key(99).is_none());
    assert_eq!(
        vv.verify(99, &vec![1u8, 2, 3], &Signature::new(vec![0u8; 64])),
        Err(VerifyError::UnknownAuthor)
    );
}
