use vstd::prelude::*;

verus! {

/// The SHA3-256 digest of a byte string.  The digest itself is computed by
/// the outside hash implementation; contracts only rely on it being a
/// function of the input bytes.
pub uninterp spec fn sha3_256_of(bytes: Seq<u8>) -> Seq<u8>;

/// The Ed25519 signature that the holder of `private_key` produces over
/// `message`.  Ed25519 signing is deterministic, so the signature is a
/// function of the key and the message alone.
pub uninterp spec fn ed25519_signature_of(private_key: Seq<u8>, message: Seq<u8>) -> Seq<u8>;

/// Whether `signature` is a valid Ed25519 signature over `message` under
/// `public_key`.  Verification is a function of the three byte strings alone;
/// malformed keys or signatures simply never verify.
pub uninterp spec fn ed25519_verifies(public_key: Seq<u8>, message: Seq<u8>, signature: Seq<u8>) -> bool;

/// The Ed25519 public key derived from a 32-byte private key.
pub uninterp spec fn ed25519_public_key_of(private_key: Seq<u8>) -> Seq<u8>;

/// Relies on sha3::Sha3_256: a 32-byte digest computed from the input bytes
/// alone.
#[verifier::external_body]
pub(crate) fn sha3_256_digest(bytes: &Vec<u8>) -> (r: Vec<u8>)
    ensures
        r@ == sha3_256_of(bytes@),
        r@.len() == 32,
{
    <sha3::Sha3_256 as sha3::Digest>::digest(bytes.as_slice()).to_vec()
}

/// Relies on ed25519_dalek::SigningKey::sign: deterministic (RFC 8032)
/// 64-byte signatures from a 32-byte key and the message.
#[verifier::external_body]
pub(crate) fn ed25519_sign_bytes(private_key: &Vec<u8>, message: &Vec<u8>) -> (r: Vec<u8>)
    requires
        private_key@.len() == 32,
    ensures
        r@ == ed25519_signature_of(private_key@, message@),
        r@.len() == 64,
{
    let key_bytes: [u8; 32] = private_key.as_slice().try_into().unwrap();
    let key = ed25519_dalek::SigningKey::from_bytes(&key_bytes);
    let sig = ed25519_dalek::Signer::sign(&key, message.as_slice());
    sig.to_bytes().to_vec()
}

/// Relies on ed25519_dalek::VerifyingKey::verify_strict: deterministic in the
/// public key, message and signature bytes; byte strings that are not a valid
/// key or signature never verify.
#[verifier::external_body]
pub(crate) fn ed25519_verify_bytes(public_key: &Vec<u8>, message: &Vec<u8>, signature: &Vec<u8>) -> (r:
    bool)
    ensures
        r == ed25519_verifies(public_key@, message@, signature@),
{
    let key_bytes: [u8; 32] = match public_key.as_slice().try_into() {
        Ok(a) => a,
        Err(_) => return false,
    };
    let key = match ed25519_dalek::VerifyingKey::from_bytes(&key_bytes) {
        Ok(k) => k,
        Err(_) => return false,
    };
    let sig_bytes: [u8; 64] = match signature.as_slice().try_into() {
        Ok(a) => a,
        Err(_) => return false,
    };
    let sig = ed25519_dalek::Signature::from_bytes(&sig_bytes);
    key.verify_strict(message.as_slice(), &sig).is_ok()
}

/// Relies on ed25519_dalek::SigningKey::verifying_key: the 32-byte public key
/// derived from the private key alone.
#[verifier::external_body]
pub(crate) fn ed25519_public_key_bytes(private_key: &Vec<u8>) -> (r: Vec<u8>)
    requires
        private_key@.len() == 32,
    ensures
        r@ == ed25519_public_key_of(private_key@),
        r@.len() == 32,
{
    let key_bytes: [u8; 32] = private_key.as_slice().try_into().unwrap();
    ed25519_dalek::SigningKey::from_bytes(&key_bytes).verifying_key().to_bytes().to_vec()
}

/// Byte-for-byte equality of two byte vectors.
pub fn bytes_eq(a: &Vec<u8>, b: &Vec<u8>) -> (r: bool)
    ensures
        r == (a@ == b@),
{
    if a.len() != b.len() {
        return false;
    }
    let mut i: usize = 0;
    while i < a.len()
        invariant
            i <= a.len(),
            a@.len() == b@.len(),
            forall|k: int| 0 <= k < i ==> a@[k] == b@[k],
        decreases a.len() - i,
    {
        if a[i] != b[i] {
            return false;
        }
        i += 1;
    }
    proof {
        assert(a@ =~= b@);
    }
    true
}

/// A content hash, as carried inside ledger info and compared during
/// verification.  Well-formed values hold a 32-byte digest, but nothing stops
/// an adversarially decoded vote from carrying any bytes here.
#[derive(Clone, PartialEq, Eq, Debug)]
pub struct HashValue {
    pub bytes: Vec<u8>,
}

impl View for HashValue {
    type V = Seq<u8>;

    open spec fn view(&self) -> Seq<u8> {
        self.bytes@
    }
}

impl HashValue {
    pub fn new(bytes: Vec<u8>) -> (r: HashValue)
        ensures
            r@ == bytes@,
    {
        HashValue { bytes }
    }

    pub fn equals(&self, other: &HashValue) -> (r: bool)
        ensures
            r == (self@ == other@),
    {
        bytes_eq(&self.bytes, &other.bytes)
    }
}

/// An Ed25519 signature, carried as its 64-byte encoding.
#[derive(Clone, PartialEq, Eq, Debug)]
pub struct Signature {
    pub bytes: Vec<u8>,
}

impl View for Signature {
    type V = Seq<u8>;

    open spec fn view(&self) -> Seq<u8> {
        self.bytes@
    }
}

impl Signature {
    pub fn new(bytes: Vec<u8>) -> (r: Signature)
        ensures
            r@ == bytes@,
    {
        Signature { bytes }
    }
}

} // verus!
