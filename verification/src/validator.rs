use crate::crypto;
use crate::crypto::Signature;
use vstd::prelude::*;

verus! {

/// Model of one validator table entry: the author address and the bytes of
/// the author's Ed25519 public key.
#[verifier::ext_equal]
pub struct ValidatorInfoModel {
    pub address: u64,
    pub public_key: Seq<u8>,
}

/// One entry of the validator table.
#[derive(Clone, PartialEq, Eq, Debug)]
pub struct ValidatorConsensusInfo {
    pub address: u64,
    pub public_key: Vec<u8>,
}

impl View for ValidatorConsensusInfo {
    type V = ValidatorInfoModel;

    open spec fn view(&self) -> ValidatorInfoModel {
        ValidatorInfoModel { address: self.address, public_key: self.public_key@ }
    }
}

impl ValidatorConsensusInfo {
    pub fn new(address: u64, public_key: Vec<u8>) -> (r: ValidatorConsensusInfo)
        ensures
            r@ == (ValidatorInfoModel { address, public_key: public_key@ }),
    {
        ValidatorConsensusInfo { address, public_key }
    }
}

/// Why a signature check against the validator table failed.
#[derive(Clone, Copy, PartialEq, Eq, Structural, Debug)]
pub enum VerifyError {
    /// The author does not appear in the table.
    UnknownAuthor,
    /// The signature does not verify under the author's public key.
    InvalidSignature,
}

/// The public key the table holds for `author`: the first entry with that
/// address, if any.
pub open spec fn spec_public_key_of(vals: Seq<ValidatorInfoModel>, author: u64) -> Option<Seq<u8>>
    decreases vals.len(),
{
    if vals.len() == 0 {
        None
    } else if vals[0].address == author {
        Some(vals[0].public_key)
    } else {
        spec_public_key_of(vals.drop_first(), author)
    }
}

/// What a signature check returns: the author must be in the table and the
/// signature must verify under the author's key.
pub open spec fn spec_signature_check(
    vals: Seq<ValidatorInfoModel>,
    author: u64,
    message: Seq<u8>,
    signature: Seq<u8>,
) -> Result<(), VerifyError> {
    match spec_public_key_of(vals, author) {
        Option::None => Err(VerifyError::UnknownAuthor),
        Option::Some(pk) => if crypto::ed25519_verifies(pk, message, signature) {
            Ok(())
        } else {
            Err(VerifyError::InvalidSignature)
        },
    }
}

proof fn lemma_public_key_of_skip(vals: Seq<ValidatorInfoModel>, author: u64, i: int)
    requires
        0 <= i <= vals.len(),
        forall|k: int| 0 <= k < i ==> vals[k].address != author,
    ensures
        spec_public_key_of(vals, author) == spec_public_key_of(vals.skip(i), author),
    decreases i,
{
    if i > 0 {
        let tail = vals.drop_first();
        assert(forall|k: int| 0 <= k < i - 1 ==> tail[k].address != author);
        lemma_public_key_of_skip(tail, author, i - 1);
        assert(tail.skip(i - 1) =~= vals.skip(i));
    } else {
        assert(vals.skip(0) =~= vals);
    }
}

/// The public-key table that authenticates votes: a read-only map from
/// author address to Ed25519 public key.  Stake weighting and quorum
/// counting belong to certificate aggregation, outside this library.
#[derive(Clone, PartialEq, Eq, Debug)]
pub struct ValidatorVerifier {
    pub validator_infos: Vec<ValidatorConsensusInfo>,
}

impl View for ValidatorVerifier {
    type V = Seq<ValidatorInfoModel>;

    open spec fn view(&self) -> Seq<ValidatorInfoModel> {
        self.validator_infos@.map_values(|v: ValidatorConsensusInfo| v@)
    }
}

impl ValidatorVerifier {
    pub fn new(validator_infos: Vec<ValidatorConsensusInfo>) -> (r: ValidatorVerifier)
        ensures
            r@ == validator_infos@.map_values(|v: ValidatorConsensusInfo| v@),
    {
        ValidatorVerifier { validator_infos }
    }

    /// The public key registered for `author`, if any.
    pub fn get_public_key(&self, author: u64) -> (r: Option<&Vec<u8>>)
        ensures
            match r {
                Some(pk) => spec_public_key_of(self@, author) == Some(pk@),
                None => spec_public_key_of(self@, author) is None,
            },
    {
        let n = self.validator_infos.len();
        let mut i: usize = 0;
        while i < n
            invariant
                i <= n,
                n == self.validator_infos@.len(),
                forall|k: int| 0 <= k < i ==> self@[k].address != author,
            decreases n - i,
        {
            if self.validator_infos[i].address == author {
                proof {
                    lemma_public_key_of_skip(self@, author, i as int);
                    assert(self@.skip(i as int)[0] == self@[i as int]);
                }
                return Some(&self.validator_infos[i].public_key);
            }
            proof {
                assert(self@[i as int].address == self.validator_infos@[i as int]@.address);
            }
            i += 1;
        }
        proof {
            lemma_public_key_of_skip(self@, author, n as int);
            assert(self@.skip(n as int).len() == 0);
        }
        None
    }

    /// Check `signature` over `message` for `author` against the table.
    pub fn verify(&self, author: u64, message: &Vec<u8>, signature: &Signature) -> (r: Result<
        (),
        VerifyError,
    >)
        ensures
            r == spec_signature_check(self@, author, message@, signature@),
    {
        match self.get_public_key(author) {
            None => Err(VerifyError::UnknownAuthor),
            Some(pk) => if crypto::ed25519_verify_bytes(pk, message, &signature.bytes) {
                Ok(())
            } else {
                Err(VerifyError::InvalidSignature)
            },
        }
    }
}

/// A replica's signing identity: its author address and Ed25519 private key.
#[derive(Clone, Debug)]
pub struct ValidatorSigner {
    pub author: u64,
    pub private_key: Vec<u8>,
}

impl ValidatorSigner {
    /// The private key holds exactly the 32 bytes an Ed25519 key is made of.
    pub open spec fn wf(&self) -> bool {
        self.private_key@.len() == 32
    }

    pub fn new(author: u64, private_key: Vec<u8>) -> (r: ValidatorSigner)
        requires
            private_key@.len() == 32,
        ensures
            r.author == author,
            r.private_key@ == private_key@,
            r.wf(),
    {
        ValidatorSigner { author, private_key }
    }

    pub fn author(&self) -> (r: u64)
        ensures
            r == self.author,
    {
        self.author
    }

    /// Sign `message` with this replica's key.
    pub fn sign(&self, message: &Vec<u8>) -> (r: Signature)
        requires
            self.wf(),
        ensures
            r@ == crypto::ed25519_signature_of(self.private_key@, message@),
            r@.len() == 64,
    {
        Signature { bytes: crypto::ed25519_sign_bytes(&self.private_key, message) }
    }

    /// The public key other replicas hold this signer against.
    pub fn public_key(&self) -> (r: Vec<u8>)
        requires
            self.wf(),
        ensures
            r@ == crypto::ed25519_public_key_of(self.private_key@),
            r@.len() == 32,
    {
        crypto::ed25519_public_key_bytes(&self.private_key)
    }
}

} // verus!
