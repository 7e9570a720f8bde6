use consensus_vote::block_info::BlockInfo;
use consensus_vote::codec;
use consensus_vote::crypto::{HashValue, Signature};
use consensus_vote::errors::{SignatureKind, VoteDataError, VoteError};
use consensus_vote::ledger_info::LedgerInfo;
use consensus_vote::quorum_cert::QuorumCert;
use consensus_vote::timeout::TwoChainTimeout;
use consensus_vote::validator::{ValidatorConsensusInfo, ValidatorSigner, ValidatorVerifier};
use consensus_vote::vote::Vote;
use consensus_vote::vote_data::VoteData;

fn signer() -> ValidatorSigner {
    ValidatorSigner::new(7, vec![13u8; 32])
}

fn verifier_for(s: &ValidatorSigner) -> ValidatorVerifier {
    ValidatorVerifier::new(vec![ValidatorConsensusInfo::new(s.author(), s.public_key())])
}

fn sample_vote_data() -> VoteData {
    VoteData::new(BlockInfo::new(2, 5), BlockInfo::new(2, 4))
}

fn placeholder_li() -> LedgerInfo {
    LedgerInfo::new(BlockInfo::new(2, 5), HashValue::new(vec![0u8; 32]))
}

fn commit_vote() -> (Vote, ValidatorVerifier, ValidatorSigner) {
    let s = signer();
    let vv = verifier_for(&s);
    let vote = Vote::new(sample_vote_data(), s.author(), placeholder_li(), &s);
    (vote, vv, s)
}

#[test]
fn scenario_commit_vote_verifies() {
    let (vote, vv, _s) = commit_vote();
    assert!(!vote.is_timeout());
    assert_eq!(vote.epoch(), 2);
    assert_eq!(vote.author(), 7);
    assert_eq!(vote.verify(&vv), Ok(()));
}

#[test]
fn scenario_hash_mismatch_rejected() {
    let (vote, vv, _s) = commit_vote();
    let mut li = vote.ledger_info().clone();
    li.set_consensus_data_hash(HashValue::new(vec![0xaa; 32]));
    let forged = Vote::new_with_signature(
        vote.vote_data().clone(),
        vote.author(),
        li,
        vote.signature().clone(),
    );
    assert_eq!(forged.verify(&vv), Err(VoteError::HashMismatch));
}

#[test]
fn scenario_binding_to_other_vote_data_rejected() {
    let (vote, vv, _s) = commit_vote();
    let other = VoteData::new(BlockInfo::new(2, 6), BlockInfo::new(2, 5));
    let mut li = vote.ledger_info().clone();
    li.set_consensus_data_hash(other.hash());
    let forged = Vote::new_with_signature(
        vote.vote_data().clone(),
        vote.author(),
        li,
        vote.signature().clone(),
    );
    assert_eq!(forged.verify(&vv), Err(VoteError::HashMismatch));
}

#[test]
fn scenario_legacy_timeout_vote_verifies() {
    let (mut vote, vv, s) = commit_vote();
    let t = vote.generate_timeout();
    assert_eq!(t.epoch(), 2);
    assert_eq!(t.round(), 5);
    let sig = s.sign(&codec::encode_timeout(&t));
    vote.add_timeout_signature(sig);
    assert!(vote.is_timeout());
    assert_eq!(vote.verify(&vv), Ok(()));
}

#[test]
fn legacy_timeout_signature_first_wins() {
    let (mut vote, _vv, s) = commit_vote();
    let t = vote.generate_timeout();
    let sig1 = s.sign(&codec::encode_timeout(&t));
    let sig2 = Signature::new(vec![0x55; 64]);
    vote.add_timeout_signature(sig1.clone());
    vote.add_timeout_signature(sig2);
    assert_eq!(vote.timeout_signature(), Some(&sig1));
}

#[test]
fn two_chain_timeout_last_wins() {
    let (mut vote, _vv, s) = commit_vote();
    let t1 = vote.generate_2chain_timeout(QuorumCert::new(BlockInfo::new(2, 3)));
    let t2 = vote.generate_2chain_timeout(QuorumCert::new(BlockInfo::new(2, 4)));
    let s1 = s.sign(&t1.signing_format());
    let s2 = s.sign(&t2.signing_format());
    vote.add_2chain_timeout(t1, s1);
    vote.add_2chain_timeout(t2, s2.clone());
    assert_eq!(vote.two_chain_timeout(), Some(&(t2, s2)));
}

#[test]
fn scenario_two_chain_timeout_vote_verifies() {
    let (mut vote, vv, s) = commit_vote();
    let qc = QuorumCert::new(BlockInfo::new(2, 4));
    let t = vote.generate_2chain_timeout(qc);
    assert_eq!(t.hqc_round(), 4);
    let sig = s.sign(&t.signing_format());
    vote.add_2chain_timeout(t, sig);
    assert!(vote.is_timeout());
    assert_eq!(vote.verify(&vv), Ok(()));
}

#[test]
fn scenario_timeout_round_mismatch_rejected() {
    let (mut vote, vv, s) = commit_vote();
    // a timeout crafted for round 4 while the vote is for round 5
    let t = TwoChainTimeout::new(2, 4, QuorumCert::new(BlockInfo::new(2, 3)));
    let sig = s.sign(&t.signing_format());
    vote.add_2chain_timeout(t, sig);
    assert_eq!(vote.verify(&vv), Err(VoteError::TimeoutRoundMismatch));
}

#[test]
fn stale_high_qc_rejected() {
    let (mut vote, vv, s) = commit_vote();
    // high QC certifies the very round being timed out
    let t = vote.generate_2chain_timeout(QuorumCert::new(BlockInfo::new(2, 5)));
    let sig = s.sign(&t.signing_format());
    vote.add_2chain_timeout(t, sig);
    assert_eq!(vote.verify(&vv), Err(VoteError::TwoChainTimeoutInvalid));
}

#[test]
fn scenario_conflicting_attestations_rejected() {
    let (mut legacy_vote, vv, s) = commit_vote();
    let t = legacy_vote.generate_timeout();
    legacy_vote.add_timeout_signature(s.sign(&codec::encode_timeout(&t)));
    // craft wire bytes carrying both attestations, bypassing the safe API
    let mut bytes = codec::encode_vote(&legacy_vote);
    let tc = TwoChainTimeout::new(2, 5, QuorumCert::new(BlockInfo::new(2, 4)));
    bytes.push(1u8);
    bytes.extend(codec::encode_two_chain_timeout(&tc));
    bytes.extend(s.sign(&tc.signing_format()).bytes);
    let crafted = codec::decode_vote(&bytes).expect("crafted bytes decode");
    assert!(crafted.is_timeout());
    assert_eq!(crafted.verify(&vv), Err(VoteError::ConflictingTimeoutAttestations));
}

#[test]
fn unknown_author_rejected() {
    let (vote, _vv, s) = commit_vote();
    let other_vv = ValidatorVerifier::new(vec![ValidatorConsensusInfo::new(99, s.public_key())]);
    assert_eq!(vote.verify(&other_vv), Err(VoteError::SignatureInvalid(SignatureKind::Primary)));
}

#[test]
fn bad_primary_signature_rejected() {
    let (vote, vv, _s) = commit_vote();
    let forged = Vote::new_with_signature(
        vote.vote_data().clone(),
        vote.author(),
        vote.ledger_info().clone(),
        Signature::new(vec![1u8; 64]),
    );
    assert_eq!(forged.verify(&vv), Err(VoteError::SignatureInvalid(SignatureKind::Primary)));
}

#[test]
fn bad_legacy_timeout_signature_rejected() {
    let (mut vote, vv, _s) = commit_vote();
    vote.add_timeout_signature(Signature::new(vec![2u8; 64]));
    assert_eq!(
        vote.verify(&vv),
        Err(VoteError::SignatureInvalid(SignatureKind::LegacyTimeout))
    );
}

#[test]
fn bad_two_chain_signature_rejected() {
    let (mut vote, vv, _s) = commit_vote();
    let t = vote.generate_2chain_timeout(QuorumCert::new(BlockInfo::new(2, 4)));
    vote.add_2chain_timeout(t, Signature::new(vec![3u8; 64]));
    assert_eq!(
        vote.verify(&vv),
        Err(VoteError::SignatureInvalid(SignatureKind::TwoChainTimeout))
    );
}

#[test]
fn inconsistent_vote_data_rejected() {
    let s = signer();
    let vv = verifier_for(&s);
    let bad = VoteData::new(BlockInfo::new(2, 5), BlockInfo::new(2, 5));
    let vote = Vote::new(bad, s.author(), placeholder_li(), &s);
    assert_eq!(vote.verify(&vv), Err(VoteError::VoteDataInvalid));
}

#[test]
fn vote_data_epoch_mismatch() {
    let vd = VoteData::new(BlockInfo::new(3, 5), BlockInfo::new(2, 4));
    assert_eq!(vd.verify(), Err(VoteDataError::EpochMismatch));
}

#[test]
fn vote_data_round_not_higher() {
    let vd = VoteData::new(BlockInfo::new(2, 4), BlockInfo::new(2, 4));
    assert_eq!(vd.verify(), Err(VoteDataError::RoundNotHigher));
}

#[test]
fn accessors_read_back_fields() {
    let (vote, _vv, _s) = commit_vote();
    assert_eq!(*vote.vote_data(), sample_vote_data());
    assert_eq!(*vote.vote_data().proposed(), BlockInfo::new(2, 5));
    assert_eq!(*vote.vote_data().parent(), BlockInfo::new(2, 4));
    assert_eq!(*vote.ledger_info().commit_info(), BlockInfo::new(2, 5));
    assert!(vote
        .ledger_info()
        .consensus_data_hash()
        .equals(&sample_vote_data().hash()));
    assert!(vote.timeout_signature().is_none());
    assert!(vote.two_chain_timeout().is_none());
}
