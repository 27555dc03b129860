//! Key material: the Ed25519 private key out of its PKCS#8 encoding, and raw
//! Ed25519 signing with it.

use crate::error::{Failure, PipelineError};
use vstd::prelude::*;
use vstd::slice::{slice_subrange, slice_to_vec};

verus! {

/// The number of bytes that stand before the seed in the PKCS#8 encoding (first
/// version, without the public key) of an Ed25519 private key.
pub const PKCS8_PREFIX_LEN: usize = 16;

/// The number of bytes of an Ed25519 seed.
pub const SEED_LEN: usize = 32;

/// The number of bytes of an Ed25519 signature.
pub const SIGNATURE_LEN: usize = 64;

/// The bytes that stand before the seed: a sequence of 46 bytes that holds the
/// version 0, the algorithm identifier with the object identifier 1.3.101.112 and
/// no parameters, and an octet string of 34 bytes that holds an octet string of 32.
pub open spec fn pkcs8_prefix() -> Seq<u8> {
    seq![
        0x30u8, 0x2e, 0x02, 0x01, 0x00, 0x30, 0x05, 0x06, 0x03, 0x2b, 0x65, 0x70, 0x04, 0x22, 0x04,
        0x20,
    ]
}

/// Whether `i` is the place of one of the three bytes of the object identifier in
/// the prefix.
pub open spec fn in_object_identifier(i: int) -> bool {
    9 <= i < 12
}

/// Whether the first sixteen bytes of `der` frame an octet string of 32 bytes as
/// the private key of some algorithm whose object identifier has three bytes.
pub open spec fn framed_as_key(der: Seq<u8>) -> bool {
    &&& der.len() >= PKCS8_PREFIX_LEN
    &&& forall|i: int|
        0 <= i < PKCS8_PREFIX_LEN && !in_object_identifier(i) ==> #[trigger] der[i]
            == pkcs8_prefix()[i]
}

/// Whether the object identifier in the first sixteen bytes of `der` is that of
/// Ed25519.
pub open spec fn names_ed25519(der: Seq<u8>) -> bool {
    forall|i: int| in_object_identifier(i) ==> #[trigger] der[i] == pkcs8_prefix()[i]
}

/// The seed in the PKCS#8 encoding `der`: the 32 bytes behind the prefix. The
/// encoding is malformed where its framing is another or where more or fewer than
/// 32 bytes follow it; it is the key of another algorithm where only the object
/// identifier differs.
pub open spec fn seed_of(der: Seq<u8>) -> Result<Seq<u8>, Failure> {
    if !framed_as_key(der) || der.len() != PKCS8_PREFIX_LEN + SEED_LEN {
        Err(Failure::MalformedKey)
    } else if !names_ed25519(der) {
        Err(Failure::AlgorithmMismatch)
    } else {
        Ok(der.subrange(PKCS8_PREFIX_LEN as int, der.len() as int))
    }
}

/// The byte at place `i` of the prefix.
fn prefix_byte(i: usize) -> (r: u8)
    requires
        i < PKCS8_PREFIX_LEN,
    ensures
        r == pkcs8_prefix()[i as int],
{
    let prefix: [u8; 16] = [
        0x30, 0x2e, 0x02, 0x01, 0x00, 0x30, 0x05, 0x06, 0x03, 0x2b, 0x65, 0x70, 0x04, 0x22, 0x04,
        0x20,
    ];
    prefix[i]
}

/// Takes the seed out of the PKCS#8 encoding of an Ed25519 private key.
pub fn ed25519_seed(der: &[u8]) -> (r: Result<Vec<u8>, PipelineError>)
    ensures
        match seed_of(der@) {
            Ok(seed) => r is Ok && r->Ok_0@ == seed && seed.len() == SEED_LEN,
            Err(failure) => r is Err && r->Err_0@ == failure,
        },
{
    if der.len() != PKCS8_PREFIX_LEN + SEED_LEN {
        return Err(PipelineError::MalformedKey);
    }
    let mut named: bool = true;
    let mut i: usize = 0;
    while i < PKCS8_PREFIX_LEN
        invariant
            i <= PKCS8_PREFIX_LEN,
            der@.len() == PKCS8_PREFIX_LEN + SEED_LEN,
            forall|j: int|
                0 <= j < i && !in_object_identifier(j) ==> #[trigger] der@[j] == pkcs8_prefix()[j],
            named <==> forall|j: int|
                0 <= j < i && in_object_identifier(j) ==> #[trigger] der@[j] == pkcs8_prefix()[j],
        decreases PKCS8_PREFIX_LEN - i,
    {
        if der[i] != prefix_byte(i) {
            assert(der@[i as int] != pkcs8_prefix()[i as int]);
            if 9 <= i && i < 12 {
                named = false;
            } else {
                return Err(PipelineError::MalformedKey);
            }
        }
        i = i + 1;
    }
    if !named {
        let ghost j = choose|j: int|
            0 <= j < PKCS8_PREFIX_LEN && in_object_identifier(j) && #[trigger] der@[j]
                != pkcs8_prefix()[j];
        assert(der@[j] != pkcs8_prefix()[j]);
        return Err(PipelineError::AlgorithmMismatch);
    }
    let seed = slice_subrange(der, PKCS8_PREFIX_LEN, der.len());
    Ok(slice_to_vec(seed))
}

/// The binary contents of the first PEM block in `text`, as the `pem` crate
/// decodes it, or `None` where it finds no well-formed block.
pub uninterp spec fn pem_contents(text: Seq<u8>) -> Option<Seq<u8>>;

/// The Ed25519 signature of `message` under the private key with the seed `seed`.
pub uninterp spec fn ed25519_signature(seed: Seq<u8>, message: Seq<u8>) -> Seq<u8>;

/// Calls `pem::parse` and takes the contents of the block it returns. The contract
/// claims that the outcome depends on `text` alone.
#[verifier::external_body]
pub(crate) fn pem_decode(text: &[u8]) -> (r: Option<Vec<u8>>)
    ensures
        match pem_contents(text@) {
            Some(contents) => r is Some && r->0@ == contents,
            None => r is None,
        },
{
    match pem::parse(text) {
        Ok(block) => Some(block.into_contents()),
        Err(_) => None,
    }
}

/// Makes an `ed25519_dalek::SigningKey` of `seed` with `try_from` and signs
/// `message` with it. The contract claims what the crate's source shows: a key is
/// made of exactly 32 bytes and of nothing else, signing with it does not fail and
/// draws on nothing but the key and the message, and a signature has 64 bytes.
#[verifier::external_body]
pub(crate) fn ed25519_sign(seed: &[u8], message: &[u8]) -> (r: Option<Vec<u8>>)
    ensures
        seed@.len() == SEED_LEN ==> r is Some && r->0@ == ed25519_signature(seed@, message@)
            && r->0@.len() == SIGNATURE_LEN,
        seed@.len() != SEED_LEN ==> r is None,
{
    match ed25519_dalek::SigningKey::try_from(seed) {
        Ok(key) => Some(ed25519_dalek::Signer::sign(&key, message).to_bytes().to_vec()),
        Err(_) => None,
    }
}

/// What [`ed_sign`] returns: the signature of `data` under the key that
/// `private_key` holds as a PEM block, or why `private_key` holds no such key.
pub open spec fn ed_signed(data: Seq<u8>, private_key: Seq<u8>) -> Result<Seq<u8>, Failure> {
    match pem_contents(private_key) {
        None => Err(Failure::MalformedKey),
        Some(der) => signed_with(data, der),
    }
}

/// The signature of `data` under the key whose PKCS#8 encoding is `der`.
pub open spec fn signed_with(data: Seq<u8>, der: Seq<u8>) -> Result<Seq<u8>, Failure> {
    match seed_of(der) {
        Err(failure) => Err(failure),
        Ok(seed) => Ok(ed25519_signature(seed, data)),
    }
}

/// Signs `data` with the Ed25519 private key whose PKCS#8 encoding is `der`.
pub fn sign_with_encoded_key(data: &[u8], der: &[u8]) -> (r: Result<Vec<u8>, PipelineError>)
    ensures
        match signed_with(data@, der@) {
            Ok(signature) => r is Ok && r->Ok_0@ == signature && signature.len() == SIGNATURE_LEN,
            Err(failure) => r is Err && r->Err_0@ == failure,
        },
{
    match ed25519_seed(der) {
        Err(error) => Err(error),
        Ok(seed) => match ed25519_sign(seed.as_slice(), data) {
            Some(signature) => Ok(signature),
            None => Err(PipelineError::MalformedKey),
        },
    }
}

/// Signs `data` with the Ed25519 private key that `private_key` holds as a PEM
/// block.
pub fn ed_sign(data: &[u8], private_key: &[u8]) -> (r: Result<Vec<u8>, PipelineError>)
    ensures
        match ed_signed(data@, private_key@) {
            Ok(signature) => r is Ok && r->Ok_0@ == signature && signature.len() == SIGNATURE_LEN,
            Err(failure) => r is Err && r->Err_0@ == failure,
        },
{
    match pem_decode(private_key) {
        None => Err(PipelineError::MalformedKey),
        Some(der) => sign_with_encoded_key(data, der.as_slice()),
    }
}

} // verus!
