//! The vote message itself: construction, timeout augmentation and the
//! verification protocol that re-checks every invariant on untrusted input.

use crate::codec;
use crate::crypto;
use crate::crypto::{HashValue, Signature};
use crate::errors::{SignatureKind, VoteError};
use crate::ledger_info::{LedgerInfo, LedgerInfoModel};
use crate::quorum_cert::QuorumCert;
use crate::timeout::{spec_timeout_verify, Timeout, TwoChainTimeout};
use crate::validator::{
    spec_signature_check, ValidatorInfoModel, ValidatorSigner, ValidatorVerifier,
};
use crate::vote_data::{spec_vote_data_hash, spec_vote_data_verify, VoteData};
use vstd::prelude::*;

verus! {

/// Mathematical model of a vote: every field as a plain value, with byte
/// strings as sequences.
#[verifier::ext_equal]
pub struct VoteModel {
    pub vote_data: VoteData,
    pub author: u64,
    pub ledger_info: LedgerInfoModel,
    pub signature: Seq<u8>,
    pub timeout_signature: Option<Seq<u8>>,
    pub two_chain_timeout: Option<(TwoChainTimeout, Seq<u8>)>,
}

/// Well-formed votes carry a 32-byte hash slot and 64-byte signatures.
pub open spec fn wf_vote_model(m: VoteModel) -> bool {
    &&& m.ledger_info.consensus_data_hash.len() == 32
    &&& m.signature.len() == 64
    &&& (m.timeout_signature matches Some(s) ==> s.len() == 64)
    &&& (m.two_chain_timeout matches Some(p) ==> p.1.len() == 64)
}

/// What honest construction produces: the ledger info slot holds the hash of
/// this very vote data, the signature covers the finalized ledger info, and
/// no timeout attestation is present.
pub open spec fn spec_new_vote(
    vote_data: VoteData,
    author: u64,
    li: LedgerInfoModel,
    private_key: Seq<u8>,
) -> VoteModel {
    let bound = LedgerInfoModel {
        commit_info: li.commit_info,
        consensus_data_hash: spec_vote_data_hash(vote_data),
    };
    VoteModel {
        vote_data,
        author,
        ledger_info: bound,
        signature: crypto::ed25519_signature_of(private_key, codec::spec_encode_ledger_info(bound)),
        timeout_signature: None,
        two_chain_timeout: None,
    }
}

/// Legacy augmentation: the first signature wins, a later call is a no-op.
pub open spec fn spec_add_timeout_signature(m: VoteModel, signature: Seq<u8>) -> VoteModel {
    if m.timeout_signature is Some {
        m
    } else {
        VoteModel { timeout_signature: Some(signature), ..m }
    }
}

/// 2-chain augmentation: the attachment is overwritten, the last call wins.
pub open spec fn spec_add_two_chain_timeout(
    m: VoteModel,
    timeout: TwoChainTimeout,
    signature: Seq<u8>,
) -> VoteModel {
    VoteModel { two_chain_timeout: Some((timeout, signature)), ..m }
}

/// The round-timeout payload a vote derives from its own data.
pub open spec fn spec_generate_timeout(m: VoteModel) -> Timeout {
    Timeout { epoch: m.vote_data.proposed.epoch, round: m.vote_data.proposed.round }
}

/// The last verification step: the vote data's own consistency check.
pub open spec fn spec_verify_vote_data_step(m: VoteModel) -> Result<(), VoteError> {
    if spec_vote_data_verify(m.vote_data) is Ok {
        Ok(())
    } else {
        Err(VoteError::VoteDataInvalid)
    }
}

/// The whole verification protocol, in its fixed fail-fast order: hash
/// binding, mutual exclusivity of the timeout paths, the primary signature,
/// the legacy timeout signature, the 2-chain timeout (round binding, its own
/// consistency, its signature), and finally the vote data itself.
pub open spec fn spec_verify(m: VoteModel, vals: Seq<ValidatorInfoModel>) -> Result<
    (),
    VoteError,
> {
    if m.ledger_info.consensus_data_hash != spec_vote_data_hash(m.vote_data) {
        Err(VoteError::HashMismatch)
    } else if m.timeout_signature is Some && m.two_chain_timeout is Some {
        Err(VoteError::ConflictingTimeoutAttestations)
    } else if !(spec_signature_check(
        vals,
        m.author,
        codec::spec_encode_ledger_info(m.ledger_info),
        m.signature,
    ) is Ok) {
        Err(VoteError::SignatureInvalid(SignatureKind::Primary))
    } else {
        let legacy_ok = match m.timeout_signature {
            Some(ts) => spec_signature_check(
                vals,
                m.author,
                codec::spec_encode_timeout(spec_generate_timeout(m)),
                ts,
            ) is Ok,
            None => true,
        };
        if !legacy_ok {
            Err(VoteError::SignatureInvalid(SignatureKind::LegacyTimeout))
        } else {
            match m.two_chain_timeout {
                Some(p) => {
                    if p.0.epoch != m.vote_data.proposed.epoch || p.0.round
                        != m.vote_data.proposed.round {
                        Err(VoteError::TimeoutRoundMismatch)
                    } else if !(spec_timeout_verify(p.0) is Ok) {
                        Err(VoteError::TwoChainTimeoutInvalid)
                    } else if !(spec_signature_check(
                        vals,
                        m.author,
                        codec::spec_timeout_signing_format(p.0),
                        p.1,
                    ) is Ok) {
                        Err(VoteError::SignatureInvalid(SignatureKind::TwoChainTimeout))
                    } else {
                        spec_verify_vote_data_step(m)
                    }
                },
                None => spec_verify_vote_data_step(m),
            }
        }
    }
}

/// A replica's signed attestation for a proposed block, optionally carrying
/// exactly one timeout attestation.  Honest construction goes through
/// [`Vote::new`] and the augmentation methods; a decoded wire message can
/// carry any field combination, which is why [`Vote::verify`] re-checks
/// everything.
#[derive(Clone, PartialEq, Eq, Debug)]
pub struct Vote {
    pub vote_data: VoteData,
    pub author: u64,
    pub ledger_info: LedgerInfo,
    pub signature: Signature,
    pub timeout_signature: Option<Signature>,
    pub two_chain_timeout: Option<(TwoChainTimeout, Signature)>,
}

impl View for Vote {
    type V = VoteModel;

    open spec fn view(&self) -> VoteModel {
        VoteModel {
            vote_data: self.vote_data,
            author: self.author,
            ledger_info: self.ledger_info@,
            signature: self.signature@,
            timeout_signature: match self.timeout_signature {
                Some(s) => Some(s@),
                None => None,
            },
            two_chain_timeout: match self.two_chain_timeout {
                Some(p) => Some((p.0, p.1@)),
                None => None,
            },
        }
    }
}

impl Vote {
    pub open spec fn wf(&self) -> bool {
        wf_vote_model(self@)
    }

    /// Build a commit vote: write the hash of `vote_data` into the ledger
    /// info's slot, sign the finalized ledger info, attach no timeout.
    /// This is the only path that couples the signed bytes to the vote's
    /// semantic content.
    pub fn new(
        vote_data: VoteData,
        author: u64,
        ledger_info_placeholder: LedgerInfo,
        validator_signer: &ValidatorSigner,
    ) -> (r: Vote)
        requires
            validator_signer.wf(),
        ensures
            r@ == spec_new_vote(
                vote_data,
                author,
                ledger_info_placeholder@,
                validator_signer.private_key@,
            ),
            r.wf(),
    {
        let mut ledger_info = ledger_info_placeholder;
        ledger_info.set_consensus_data_hash(vote_data.hash());
        let message = codec::encode_ledger_info(&ledger_info);
        let signature = validator_signer.sign(&message);
        Vote::new_with_signature(vote_data, author, ledger_info, signature)
    }

    /// Low-level constructor for a signature produced elsewhere.  The caller
    /// is responsible for the hash-binding invariant; verification will
    /// re-check it.
    pub fn new_with_signature(
        vote_data: VoteData,
        author: u64,
        ledger_info: LedgerInfo,
        signature: Signature,
    ) -> (r: Vote)
        ensures
            r@ == (VoteModel {
                vote_data,
                author,
                ledger_info: ledger_info@,
                signature: signature@,
                timeout_signature: None,
                two_chain_timeout: None,
            }),
    {
        Vote {
            vote_data,
            author,
            ledger_info,
            signature,
            timeout_signature: None,
            two_chain_timeout: None,
        }
    }

    /// Attach a legacy round-timeout signature.  A 2-chain timeout must not
    /// already be present: that would be a local caller bug, so it is ruled
    /// out here rather than reported.  If a legacy signature is already set
    /// the call is a silent no-op: the first signature wins.
    pub fn add_timeout_signature(&mut self, signature: Signature)
        requires
            old(self)@.two_chain_timeout is None,
        ensures
            final(self)@ == spec_add_timeout_signature(old(self)@, signature@),
    {
        if self.timeout_signature.is_some() {
            return ;
        }
        self.timeout_signature = Some(signature);
    }

    /// Attach a 2-chain timeout and its signature.  A legacy timeout
    /// signature must not already be present; a second call overwrites the
    /// first attachment.
    pub fn add_2chain_timeout(&mut self, timeout: TwoChainTimeout, signature: Signature)
        requires
            old(self)@.timeout_signature is None,
        ensures
            final(self)@ == spec_add_two_chain_timeout(old(self)@, timeout, signature@),
    {
        self.two_chain_timeout = Some((timeout, signature));
    }

    pub fn vote_data(&self) -> (r: &VoteData)
        ensures
            *r == self@.vote_data,
    {
        &self.vote_data
    }

    /// The identity of the voter.
    pub fn author(&self) -> (r: u64)
        ensures
            r == self@.author,
    {
        self.author
    }

    /// The ledger info this vote would commit.
    pub fn ledger_info(&self) -> (r: &LedgerInfo)
        ensures
            r@ == self@.ledger_info,
    {
        &self.ledger_info
    }

    /// The commit signature over the ledger info.
    pub fn signature(&self) -> (r: &Signature)
        ensures
            r@ == self@.signature,
    {
        &self.signature
    }

    /// The round-timeout payload this vote would sign: its own epoch and
    /// round, re-derived from the vote data, never read from the wire.
    pub fn generate_timeout(&self) -> (r: Timeout)
        ensures
            r == spec_generate_timeout(self@),
    {
        Timeout::new(self.vote_data.proposed.epoch, self.vote_data.proposed.round)
    }

    /// The 2-chain timeout payload: the vote's own epoch and round together
    /// with the caller's highest known quorum certificate.
    pub fn generate_2chain_timeout(&self, qc: QuorumCert) -> (r: TwoChainTimeout)
        ensures
            r == (TwoChainTimeout {
                epoch: self@.vote_data.proposed.epoch,
                round: self@.vote_data.proposed.round,
                quorum_cert: qc,
            }),
    {
        TwoChainTimeout::new(self.vote_data.proposed.epoch, self.vote_data.proposed.round, qc)
    }

    /// The epoch of the vote.
    pub fn epoch(&self) -> (r: u64)
        ensures
            r == self@.vote_data.proposed.epoch,
    {
        self.vote_data.proposed.epoch
    }

    /// The legacy round signature, if one was attached.
    pub fn timeout_signature(&self) -> (r: Option<&Signature>)
        ensures
            match r {
                Some(s) => self@.timeout_signature == Some(s@),
                None => self@.timeout_signature is None,
            },
    {
        match &self.timeout_signature {
            Some(s) => Some(s),
            None => None,
        }
    }

    /// The 2-chain timeout and its signature, if attached.
    pub fn two_chain_timeout(&self) -> (r: Option<&(TwoChainTimeout, Signature)>)
        ensures
            match r {
                Some(p) => self@.two_chain_timeout == Some((p.0, p.1@)),
                None => self@.two_chain_timeout is None,
            },
    {
        match &self.two_chain_timeout {
            Some(p) => Some(p),
            None => None,
        }
    }

    /// Whether this vote carries any timeout attestation; an aggregator
    /// routes it to timeout-certificate aggregation exactly when it does.
    pub fn is_timeout(&self) -> (r: bool)
        ensures
            r == (self@.timeout_signature is Some || self@.two_chain_timeout is Some),
    {
        self.timeout_signature.is_some() || self.two_chain_timeout.is_some()
    }

    /// Verify this vote against the validator table, under adversarial
    /// inputs: the result is exactly [`spec_verify`], each malformed shape
    /// rejected with its own error, in a fixed fail-fast order.
    pub fn verify(&self, validator: &ValidatorVerifier) -> (r: Result<(), VoteError>)
        ensures
            r == spec_verify(self@, validator@),
    {
        let expected = self.vote_data.hash();
        if !self.ledger_info.consensus_data_hash.equals(&expected) {
            return Err(VoteError::HashMismatch);
        }
        if self.timeout_signature.is_some() && self.two_chain_timeout.is_some() {
            return Err(VoteError::ConflictingTimeoutAttestations);
        }
        let li_bytes = codec::encode_ledger_info(&self.ledger_info);
        match validator.verify(self.author, &li_bytes, &self.signature) {
            Err(_) => {
                return Err(VoteError::SignatureInvalid(SignatureKind::Primary));
            },
            Ok(()) => {},
        }
        match &self.timeout_signature {
            Some(ts) => {
                let t = self.generate_timeout();
                let t_bytes = codec::encode_timeout(&t);
                match validator.verify(self.author, &t_bytes, ts) {
                    Err(_) => {
                        return Err(VoteError::SignatureInvalid(SignatureKind::LegacyTimeout));
                    },
                    Ok(()) => {},
                }
            },
            None => {},
        }
        match &self.two_chain_timeout {
            Some(pair) => {
                let timeout = &pair.0;
                if timeout.epoch() != self.vote_data.proposed.epoch || timeout.round()
                    != self.vote_data.proposed.round {
                    return Err(VoteError::TimeoutRoundMismatch);
                }
                match timeout.verify(validator) {
                    Err(_) => {
                        return Err(VoteError::TwoChainTimeoutInvalid);
                    },
                    Ok(()) => {},
                }
                let sf = timeout.signing_format();
                match validator.verify(self.author, &sf, &pair.1) {
                    Err(_) => {
                        return Err(VoteError::SignatureInvalid(SignatureKind::TwoChainTimeout));
                    },
                    Ok(()) => {},
                }
            },
            None => {},
        }
        match self.vote_data.verify() {
            Err(_) => {
                return Err(VoteError::VoteDataInvalid);
            },
            Ok(()) => {},
        }
        Ok(())
    }
}

/// Binding: an honestly built vote commits to its vote data through the
/// ledger info's hash slot.  Overwrite the slot with the hash of any other
/// vote data and, as long as the two digests differ, verification rejects
/// the vote with `HashMismatch` before any signature is looked at.
pub proof fn lemma_hash_binding(
    vd1: VoteData,
    vd2: VoteData,
    author: u64,
    li: LedgerInfoModel,
    private_key: Seq<u8>,
    vals: Seq<ValidatorInfoModel>,
)
    ensures
        ({
            let honest = spec_new_vote(vd1, author, li, private_key);
            let forged = VoteModel {
                ledger_info: LedgerInfoModel {
                    commit_info: honest.ledger_info.commit_info,
                    consensus_data_hash: spec_vote_data_hash(vd2),
                },
                ..honest
            };
            spec_vote_data_hash(vd1) != spec_vote_data_hash(vd2) ==> spec_verify(forged, vals)
                == Err::<(), VoteError>(VoteError::HashMismatch)
        }),
{
}

/// Mutual exclusivity under adversarial construction: no constructor or
/// augmentation call can set both timeout fields, but a decoded wire message
/// can.  Whatever else such a message carries, verification rejects it; when
/// its hash binding is intact the error is exactly
/// `ConflictingTimeoutAttestations`.
pub proof fn lemma_timeout_exclusivity(m: VoteModel, vals: Seq<ValidatorInfoModel>)
    requires
        m.timeout_signature is Some,
        m.two_chain_timeout is Some,
    ensures
        spec_verify(m, vals) is Err,
        m.ledger_info.consensus_data_hash == spec_vote_data_hash(m.vote_data) ==> spec_verify(
            m,
            vals,
        ) == Err::<(), VoteError>(VoteError::ConflictingTimeoutAttestations),
{
}

/// Idempotent legacy augmentation: adding a legacy timeout signature twice,
/// with any two signatures, keeps the first and ignores the second.
pub proof fn lemma_add_timeout_signature_first_wins(m: VoteModel, s1: Seq<u8>, s2: Seq<u8>)
    requires
        m.timeout_signature is None,
    ensures
        spec_add_timeout_signature(spec_add_timeout_signature(m, s1), s2)
            == spec_add_timeout_signature(m, s1),
        spec_add_timeout_signature(spec_add_timeout_signature(m, s1), s2).timeout_signature
            == Some(s1),
{
}

/// Monotonic 2-chain augmentation: attaching a 2-chain timeout twice keeps
/// the last attachment.
pub proof fn lemma_add_two_chain_timeout_last_wins(
    m: VoteModel,
    t1: TwoChainTimeout,
    s1: Seq<u8>,
    t2: TwoChainTimeout,
    s2: Seq<u8>,
)
    requires
        m.timeout_signature is None,
    ensures
        spec_add_two_chain_timeout(spec_add_two_chain_timeout(m, t1, s1), t2, s2)
            == spec_add_two_chain_timeout(m, t2, s2),
{
}

} // verus!
