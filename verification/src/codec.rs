//! Canonical wire encoding of votes and their component types.
//!
//! The format is deterministic: every integer is 8 bytes little-endian,
//! hashes are 32 raw bytes, signatures 64 raw bytes.  The legacy timeout
//! signature is written behind a one-byte presence tag; the 2-chain timeout
//! pair is omitted from the encoding entirely when absent, so encodings made
//! before the 2-chain extension still decode.

use crate::block_info::BlockInfo;
use crate::crypto::{HashValue, Signature};
use crate::ledger_info::{LedgerInfo, LedgerInfoModel};
use crate::timeout::{Timeout, TwoChainTimeout};
use crate::vote::{wf_vote_model, Vote, VoteModel};
use crate::vote_data::VoteData;
use vstd::bytes::*;
use vstd::prelude::*;
use vstd::slice::*;

verus! {

pub open spec fn spec_encode_block_info(b: BlockInfo) -> Seq<u8> {
    spec_u64_to_le_bytes(b.epoch) + spec_u64_to_le_bytes(b.round)
}

pub open spec fn spec_decode_block_info(s: Seq<u8>) -> BlockInfo
    recommends
        s.len() == 16,
{
    BlockInfo {
        epoch: spec_u64_from_le_bytes(s.subrange(0, 8)),
        round: spec_u64_from_le_bytes(s.subrange(8, 16)),
    }
}

pub open spec fn spec_encode_vote_data(vd: VoteData) -> Seq<u8> {
    spec_encode_block_info(vd.proposed) + spec_encode_block_info(vd.parent)
}

pub open spec fn spec_decode_vote_data(s: Seq<u8>) -> VoteData
    recommends
        s.len() == 32,
{
    VoteData {
        proposed: spec_decode_block_info(s.subrange(0, 16)),
        parent: spec_decode_block_info(s.subrange(16, 32)),
    }
}

pub open spec fn spec_encode_ledger_info(li: LedgerInfoModel) -> Seq<u8> {
    spec_encode_block_info(li.commit_info) + li.consensus_data_hash
}

pub open spec fn spec_decode_ledger_info(s: Seq<u8>) -> LedgerInfoModel
    recommends
        s.len() == 48,
{
    LedgerInfoModel {
        commit_info: spec_decode_block_info(s.subrange(0, 16)),
        consensus_data_hash: s.subrange(16, 48),
    }
}

pub open spec fn spec_encode_timeout(t: Timeout) -> Seq<u8> {
    spec_u64_to_le_bytes(t.epoch) + spec_u64_to_le_bytes(t.round)
}

pub open spec fn spec_encode_two_chain_timeout(t: TwoChainTimeout) -> Seq<u8> {
    spec_u64_to_le_bytes(t.epoch) + spec_u64_to_le_bytes(t.round) + spec_encode_block_info(
        t.quorum_cert.certified,
    )
}

pub open spec fn spec_decode_two_chain_timeout(s: Seq<u8>) -> TwoChainTimeout
    recommends
        s.len() == 32,
{
    TwoChainTimeout {
        epoch: spec_u64_from_le_bytes(s.subrange(0, 8)),
        round: spec_u64_from_le_bytes(s.subrange(8, 16)),
        quorum_cert: crate::quorum_cert::QuorumCert {
            certified: spec_decode_block_info(s.subrange(16, 32)),
        },
    }
}

/// The bytes a 2-chain timeout signature is computed over: epoch, round and
/// the round of the highest quorum certificate, nothing else.
pub open spec fn spec_timeout_signing_format(t: TwoChainTimeout) -> Seq<u8> {
    spec_u64_to_le_bytes(t.epoch) + spec_u64_to_le_bytes(t.round) + spec_u64_to_le_bytes(
        t.quorum_cert.certified.round,
    )
}

/// Append every byte of `src` to `out`.
pub fn push_bytes(out: &mut Vec<u8>, src: &[u8])
    ensures
        final(out)@ == old(out)@ + src@,
{
    proof {
        assert(out@ =~= old(out)@ + src@.subrange(0, 0));
    }
    let mut i: usize = 0;
    while i < src.len()
        invariant
            i <= src@.len(),
            out@ == old(out)@ + src@.subrange(0, i as int),
        decreases src@.len() - i,
    {
        proof {
            assert(old(out)@ + src@.subrange(0, (i + 1) as int) =~= (old(out)@ + src@.subrange(
                0,
                i as int,
            )).push(src@[i as int]));
        }
        let b = src[i];
        out.push(b);
        i += 1;
    }
    proof {
        assert(src@.subrange(0, src@.len() as int) =~= src@);
    }
}

/// Append the 8-byte little-endian encoding of `x` to `out`.
pub fn push_u64(out: &mut Vec<u8>, x: u64)
    ensures
        final(out)@ == old(out)@ + spec_u64_to_le_bytes(x),
{
    let b = u64_to_le_bytes(x);
    push_bytes(out, b.as_slice());
}

pub fn encode_block_info(b: &BlockInfo) -> (r: Vec<u8>)
    ensures
        r@ == spec_encode_block_info(*b),
{
    let mut out: Vec<u8> = Vec::new();
    push_u64(&mut out, b.epoch);
    push_u64(&mut out, b.round);
    proof {
        assert(out@ =~= spec_encode_block_info(*b));
    }
    out
}

pub fn decode_block_info(s: &[u8]) -> (r: BlockInfo)
    requires
        s@.len() == 16,
    ensures
        r == spec_decode_block_info(s@),
{
    let epoch = u64_from_le_bytes(slice_subrange(s, 0, 8));
    let round = u64_from_le_bytes(slice_subrange(s, 8, 16));
    BlockInfo { epoch, round }
}

pub fn encode_vote_data(vd: &VoteData) -> (r: Vec<u8>)
    ensures
        r@ == spec_encode_vote_data(*vd),
{
    let mut out = encode_block_info(&vd.proposed);
    let parent = encode_block_info(&vd.parent);
    push_bytes(&mut out, parent.as_slice());
    out
}

pub fn decode_vote_data(s: &[u8]) -> (r: VoteData)
    requires
        s@.len() == 32,
    ensures
        r == spec_decode_vote_data(s@),
{
    let proposed = decode_block_info(slice_subrange(s, 0, 16));
    let parent = decode_block_info(slice_subrange(s, 16, 32));
    VoteData { proposed, parent }
}

pub fn encode_ledger_info(li: &LedgerInfo) -> (r: Vec<u8>)
    ensures
        r@ == spec_encode_ledger_info(li@),
{
    let mut out = encode_block_info(&li.commit_info);
    push_bytes(&mut out, li.consensus_data_hash.bytes.as_slice());
    out
}

pub fn encode_timeout(t: &Timeout) -> (r: Vec<u8>)
    ensures
        r@ == spec_encode_timeout(*t),
{
    let mut out: Vec<u8> = Vec::new();
    push_u64(&mut out, t.epoch);
    push_u64(&mut out, t.round);
    proof {
        assert(out@ =~= spec_encode_timeout(*t));
    }
    out
}

pub fn encode_two_chain_timeout(t: &TwoChainTimeout) -> (r: Vec<u8>)
    ensures
        r@ == spec_encode_two_chain_timeout(*t),
{
    let mut out: Vec<u8> = Vec::new();
    push_u64(&mut out, t.epoch);
    push_u64(&mut out, t.round);
    let certified = encode_block_info(&t.quorum_cert.certified);
    push_bytes(&mut out, certified.as_slice());
    proof {
        assert(out@ =~= spec_encode_two_chain_timeout(*t));
    }
    out
}

pub fn decode_two_chain_timeout(s: &[u8]) -> (r: TwoChainTimeout)
    requires
        s@.len() == 32,
    ensures
        r == spec_decode_two_chain_timeout(s@),
{
    let epoch = u64_from_le_bytes(slice_subrange(s, 0, 8));
    let round = u64_from_le_bytes(slice_subrange(s, 8, 16));
    let certified = decode_block_info(slice_subrange(s, 16, 32));
    TwoChainTimeout { epoch, round, quorum_cert: crate::quorum_cert::QuorumCert { certified } }
}

/// The legacy timeout signature sits behind a one-byte presence tag.
pub open spec fn spec_encode_opt_signature(ts: Option<Seq<u8>>) -> Seq<u8> {
    match ts {
        Some(s) => seq![1u8] + s,
        None => seq![0u8],
    }
}

/// The 2-chain pair is omitted entirely when absent; when present it is a
/// tag byte, the timeout and its signature.
pub open spec fn spec_encode_two_chain_tail(tc: Option<(TwoChainTimeout, Seq<u8>)>) -> Seq<u8> {
    match tc {
        Some(p) => seq![1u8] + spec_encode_two_chain_timeout(p.0) + p.1,
        None => Seq::empty(),
    }
}

pub open spec fn spec_encode_vote(m: VoteModel) -> Seq<u8> {
    spec_encode_vote_data(m.vote_data) + spec_u64_to_le_bytes(m.author) + spec_encode_ledger_info(
        m.ledger_info,
    ) + m.signature + spec_encode_opt_signature(m.timeout_signature) + spec_encode_two_chain_tail(
        m.two_chain_timeout,
    )
}

/// Decode what follows the legacy part: nothing (no 2-chain timeout) or the
/// tagged 2-chain pair; anything else is rejected.
pub open spec fn spec_decode_two_chain_tail(s: Seq<u8>) -> Option<
    Option<(TwoChainTimeout, Seq<u8>)>,
> {
    if s.len() == 0 {
        Some(None)
    } else if s.len() == 97 && s[0] == 1 {
        Some(Some((spec_decode_two_chain_timeout(s.subrange(1, 33)), s.subrange(33, 97))))
    } else {
        None
    }
}

/// Decode both optional tails: the tagged legacy signature, then the 2-chain
/// part.
pub open spec fn spec_decode_tails(s: Seq<u8>) -> Option<
    (Option<Seq<u8>>, Option<(TwoChainTimeout, Seq<u8>)>),
> {
    if s.len() >= 1 && s[0] == 0 {
        match spec_decode_two_chain_tail(s.subrange(1, s.len() as int)) {
            Some(tc) => Some((None, tc)),
            None => None,
        }
    } else if s.len() >= 65 && s[0] == 1 {
        match spec_decode_two_chain_tail(s.subrange(65, s.len() as int)) {
            Some(tc) => Some((Some(s.subrange(1, 65)), tc)),
            None => None,
        }
    } else {
        None
    }
}

pub open spec fn spec_decode_vote(b: Seq<u8>) -> Option<VoteModel> {
    if b.len() < 153 {
        None
    } else {
        match spec_decode_tails(b.subrange(152, b.len() as int)) {
            Some(tails) => Some(
                VoteModel {
                    vote_data: spec_decode_vote_data(b.subrange(0, 32)),
                    author: spec_u64_from_le_bytes(b.subrange(32, 40)),
                    ledger_info: spec_decode_ledger_info(b.subrange(40, 88)),
                    signature: b.subrange(88, 152),
                    timeout_signature: tails.0,
                    two_chain_timeout: tails.1,
                },
            ),
            None => None,
        }
    }
}

/// Append the single byte `b` to `out`.
pub fn push_byte(out: &mut Vec<u8>, b: u8)
    ensures
        final(out)@ == old(out)@ + seq![b],
{
    out.push(b);
    proof {
        assert(old(out)@.push(b) =~= old(out)@ + seq![b]);
    }
}

/// Encode a vote into its canonical wire bytes.
pub fn encode_vote(v: &Vote) -> (r: Vec<u8>)
    ensures
        r@ == spec_encode_vote(v@),
{
    let mut out = encode_vote_data(&v.vote_data);
    push_u64(&mut out, v.author);
    let eli = encode_ledger_info(&v.ledger_info);
    push_bytes(&mut out, eli.as_slice());
    push_bytes(&mut out, v.signature.bytes.as_slice());
    match &v.timeout_signature {
        Some(s) => {
            push_byte(&mut out, 1);
            push_bytes(&mut out, s.bytes.as_slice());
        },
        None => {
            push_byte(&mut out, 0);
        },
    }
    match &v.two_chain_timeout {
        Some(p) => {
            push_byte(&mut out, 1);
            let et = encode_two_chain_timeout(&p.0);
            push_bytes(&mut out, et.as_slice());
            push_bytes(&mut out, p.1.bytes.as_slice());
        },
        None => {},
    }
    proof {
        assert(out@ =~= spec_encode_vote(v@));
    }
    out
}

/// Decode a vote from wire bytes.  Returns `None` exactly when the bytes are
/// not a canonical encoding; the decoded vote may still be semantically
/// malformed (both timeout fields present, wrong hash) and is only admitted
/// after `Vote::verify`.
pub fn decode_vote(bytes: &Vec<u8>) -> (r: Option<Vote>)
    ensures
        match r {
            Some(v) => spec_decode_vote(bytes@) == Some(v@) && v.wf(),
            None => spec_decode_vote(bytes@) is None,
        },
{
    let n = bytes.len();
    if n < 153 {
        return None;
    }
    let s = bytes.as_slice();
    let vote_data = decode_vote_data(slice_subrange(s, 0, 32));
    let author = u64_from_le_bytes(slice_subrange(s, 32, 40));
    let li_bytes = slice_subrange(s, 40, 88);
    let commit_info = decode_block_info(slice_subrange(li_bytes, 0, 16));
    let hash_bytes = slice_to_vec(slice_subrange(li_bytes, 16, 48));
    let ledger_info = LedgerInfo {
        commit_info,
        consensus_data_hash: HashValue { bytes: hash_bytes },
    };
    let signature = Signature { bytes: slice_to_vec(slice_subrange(s, 88, 152)) };
    let ghost tails = bytes@.subrange(152, n as int);
    let tag = bytes[152];
    proof {
        assert(tails[0] == bytes@[152]);
    }
    let timeout_signature: Option<Signature>;
    let tc_start: usize;
    if tag == 0 {
        timeout_signature = None;
        tc_start = 153;
    } else if tag == 1 && n >= 217 {
        timeout_signature = Some(Signature { bytes: slice_to_vec(slice_subrange(s, 153, 217)) });
        tc_start = 217;
        proof {
            assert(tails.subrange(1, 65) =~= bytes@.subrange(153, 217));
        }
    } else {
        return None;
    }
    let ghost tc_tail = tails.subrange(tc_start - 152, tails.len() as int);
    proof {
        assert(tc_tail =~= bytes@.subrange(tc_start as int, n as int));
    }
    let two_chain_timeout: Option<(TwoChainTimeout, Signature)>;
    if n == tc_start {
        two_chain_timeout = None;
        proof {
            assert(tc_tail.len() == 0);
        }
    } else if n == tc_start + 97 && bytes[tc_start] == 1 {
        proof {
            assert(tc_tail[0] == bytes@[tc_start as int]);
            assert(tc_tail.subrange(1, 33) =~= bytes@.subrange(
                tc_start as int + 1,
                tc_start as int + 33,
            ));
            assert(tc_tail.subrange(33, 97) =~= bytes@.subrange(
                tc_start as int + 33,
                tc_start as int + 97,
            ));
        }
        let timeout = decode_two_chain_timeout(slice_subrange(s, tc_start + 1, tc_start + 33));
        let tc_sig = Signature {
            bytes: slice_to_vec(slice_subrange(s, tc_start + 33, tc_start + 97)),
        };
        two_chain_timeout = Some((timeout, tc_sig));
    } else {
        proof {
            assert(tc_tail.len() != 0);
            assert(!(tc_tail.len() == 97 && tc_tail[0] == 1));
        }
        return None;
    }
    Some(
        Vote {
            vote_data,
            author,
            ledger_info,
            signature,
            timeout_signature,
            two_chain_timeout,
        },
    )
}

/// Length of the encoding up to and including the legacy timeout part.
pub open spec fn spec_vote_prefix_len(m: VoteModel) -> int {
    153 + if m.timeout_signature is Some {
        64int
    } else {
        0int
    }
}

pub proof fn lemma_block_info_round_trip(b: BlockInfo)
    ensures
        spec_encode_block_info(b).len() == 16,
        spec_decode_block_info(spec_encode_block_info(b)) == b,
{
    lemma_auto_spec_u64_to_from_le_bytes();
    let s = spec_encode_block_info(b);
    assert(s.subrange(0, 8) =~= spec_u64_to_le_bytes(b.epoch));
    assert(s.subrange(8, 16) =~= spec_u64_to_le_bytes(b.round));
}

pub proof fn lemma_vote_data_round_trip(vd: VoteData)
    ensures
        spec_encode_vote_data(vd).len() == 32,
        spec_decode_vote_data(spec_encode_vote_data(vd)) == vd,
{
    lemma_block_info_round_trip(vd.proposed);
    lemma_block_info_round_trip(vd.parent);
    let s = spec_encode_vote_data(vd);
    assert(s.subrange(0, 16) =~= spec_encode_block_info(vd.proposed));
    assert(s.subrange(16, 32) =~= spec_encode_block_info(vd.parent));
}

pub proof fn lemma_ledger_info_round_trip(li: LedgerInfoModel)
    requires
        li.consensus_data_hash.len() == 32,
    ensures
        spec_encode_ledger_info(li).len() == 48,
        spec_decode_ledger_info(spec_encode_ledger_info(li)) == li,
{
    lemma_block_info_round_trip(li.commit_info);
    let s = spec_encode_ledger_info(li);
    assert(s.subrange(0, 16) =~= spec_encode_block_info(li.commit_info));
    assert(s.subrange(16, 48) =~= li.consensus_data_hash);
    assert(spec_decode_ledger_info(s) =~= li);
}

pub proof fn lemma_two_chain_timeout_round_trip(t: TwoChainTimeout)
    ensures
        spec_encode_two_chain_timeout(t).len() == 32,
        spec_decode_two_chain_timeout(spec_encode_two_chain_timeout(t)) == t,
{
    lemma_auto_spec_u64_to_from_le_bytes();
    lemma_block_info_round_trip(t.quorum_cert.certified);
    let s = spec_encode_two_chain_timeout(t);
    assert(s.subrange(0, 8) =~= spec_u64_to_le_bytes(t.epoch));
    assert(s.subrange(8, 16) =~= spec_u64_to_le_bytes(t.round));
    assert(s.subrange(16, 32) =~= spec_encode_block_info(t.quorum_cert.certified));
}

proof fn lemma_two_chain_tail_round_trip(tc: Option<(TwoChainTimeout, Seq<u8>)>)
    requires
        tc matches Some(p) ==> p.1.len() == 64,
    ensures
        spec_encode_two_chain_tail(tc).len() == (if tc is Some {
            97int
        } else {
            0int
        }),
        spec_decode_two_chain_tail(spec_encode_two_chain_tail(tc)) == Some(tc),
{
    match tc {
        None => {},
        Some(p) => {
            lemma_two_chain_timeout_round_trip(p.0);
            let s = spec_encode_two_chain_tail(tc);
            assert(s[0] == 1);
            assert(s.subrange(1, 33) =~= spec_encode_two_chain_timeout(p.0));
            assert(s.subrange(33, 97) =~= p.1);
        },
    }
}

/// Round-trip: decoding the canonical encoding of any well-formed vote gives
/// back that very vote, timeout fields included.
pub proof fn lemma_vote_round_trip(m: VoteModel)
    requires
        wf_vote_model(m),
    ensures
        spec_decode_vote(spec_encode_vote(m)) == Some(m),
{
    lemma_auto_spec_u64_to_from_le_bytes();
    lemma_vote_data_round_trip(m.vote_data);
    lemma_ledger_info_round_trip(m.ledger_info);
    lemma_two_chain_tail_round_trip(m.two_chain_timeout);
    let b = spec_encode_vote(m);
    let evd = spec_encode_vote_data(m.vote_data);
    let ea = spec_u64_to_le_bytes(m.author);
    let eli = spec_encode_ledger_info(m.ledger_info);
    let eos = spec_encode_opt_signature(m.timeout_signature);
    let etc = spec_encode_two_chain_tail(m.two_chain_timeout);
    assert(b.subrange(0, 32) =~= evd);
    assert(b.subrange(32, 40) =~= ea);
    assert(b.subrange(40, 88) =~= eli);
    assert(b.subrange(88, 152) =~= m.signature);
    let tails = b.subrange(152, b.len() as int);
    assert(tails =~= eos + etc);
    match m.timeout_signature {
        None => {
            assert(tails[0] == 0);
            assert(tails.subrange(1, tails.len() as int) =~= etc);
        },
        Some(ts) => {
            assert(tails[0] == 1);
            assert(tails.len() >= 65);
            assert(tails.subrange(1, 65) =~= ts);
            assert(tails.subrange(65, tails.len() as int) =~= etc);
        },
    }
    assert(spec_decode_vote(b) == Some(m));
}

/// The 2-chain field is absent from the encoding iff it was absent in the
/// vote: the encoding ends with the legacy part exactly when no 2-chain
/// timeout is attached, and extends past it by the 2-chain pair otherwise.
pub proof fn lemma_two_chain_absent_from_encoding(m: VoteModel)
    requires
        wf_vote_model(m),
    ensures
        m.two_chain_timeout is None <==> spec_encode_vote(m).len() == spec_vote_prefix_len(m),
        m.two_chain_timeout is Some ==> spec_encode_vote(m).len() == spec_vote_prefix_len(m) + 97,
{
    lemma_vote_data_round_trip(m.vote_data);
    lemma_ledger_info_round_trip(m.ledger_info);
    lemma_two_chain_tail_round_trip(m.two_chain_timeout);
    lemma_auto_spec_u64_to_from_le_bytes();
}

} // verus!
