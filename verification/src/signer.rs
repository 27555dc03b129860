//! Signers: key material held in process, and callbacks that sign elsewhere.

use crate::algorithm::SigningAlgorithm;
use crate::codec::callback_failure;
use crate::error::{Failure, PipelineError};
use crate::der::{
    is_chain_from, is_der_chain, key_kind, read_key_kind, read_tagged, tagged_at, KeyKind, SEQUENCE,
};
use crate::key::{pem_contents, pem_decode};
use vstd::slice::slice_subrange;
use vstd::prelude::*;

verus! {

/// A certificate chain and the private key of its first certificate, for signing
/// in process. It is made by [`load_credential`], handed to one signing
/// operation, and gone with it.
pub struct Credential {
    algorithm: SigningAlgorithm,
    cert_chain: Vec<u8>,
    private_key: Vec<u8>,
}

/// What a [`Credential`] holds.
pub struct KeyMaterial {
    pub algorithm: SigningAlgorithm,
    /// The certificate chain as PEM text, the signing certificate first.
    pub cert_chain: Seq<u8>,
    /// The private key as PEM text.
    pub private_key: Seq<u8>,
}

impl View for Credential {
    type V = KeyMaterial;

    closed spec fn view(&self) -> KeyMaterial {
        KeyMaterial {
            algorithm: self.algorithm,
            cert_chain: self.cert_chain@,
            private_key: self.private_key@,
        }
    }
}

/// The number of PEM blocks in `text`, as the `pem` crate finds them, or `None`
/// where one of them does not decode.
pub uninterp spec fn pem_block_count(text: Seq<u8>) -> Option<nat>;

/// Calls `pem::parse_many` and counts the blocks it returns. The contract claims
/// that the outcome depends on `text` alone.
#[verifier::external_body]
pub(crate) fn count_pem_blocks(text: &[u8]) -> (r: Option<usize>)
    ensures
        match pem_block_count(text@) {
            Some(count) => r is Some && r->0 == count,
            None => r is None,
        },
{
    match pem::parse_many(text) {
        Ok(blocks) => Some(blocks.len()),
        Err(_) => None,
    }
}

/// The PEM block that the `pem` crate writes for the certificate with the
/// encoding `der`.
pub uninterp spec fn certificate_pem(der: Seq<u8>) -> Seq<u8>;

/// Calls `pem::encode` on a block with the tag `CERTIFICATE` and the contents
/// `der`. The contract claims that the outcome depends on `der` alone.
#[verifier::external_body]
pub(crate) fn encode_certificate(der: &[u8]) -> (r: Vec<u8>)
    ensures
        r@ == certificate_pem(der@),
{
    pem::encode(&pem::Pem::new("CERTIFICATE", der)).into_bytes()
}

/// The PEM text of the certificates that are written back to back in `bytes`
/// from place `at` on: the block of each, in the same order.
pub open spec fn chain_pem_from(bytes: Seq<u8>, at: int) -> Seq<u8>
    decreases bytes.len() - at,
{
    if at >= bytes.len() {
        Seq::empty()
    } else {
        match tagged_at(bytes, at, SEQUENCE, bytes.len() as int) {
            Some(certificate) => if at < certificate.end {
                certificate_pem(bytes.subrange(at, certificate.end as int)) + chain_pem_from(
                    bytes,
                    certificate.end as int,
                )
            } else {
                Seq::empty()
            },
            None => Seq::empty(),
        }
    }
}

/// The certificate chain as PEM text: the chain itself where it holds one or
/// more PEM blocks, the block of each certificate where it is one or more DER
/// certificates written back to back, and `None` where it is neither.
pub open spec fn chain_text(cert_chain: Seq<u8>) -> Option<Seq<u8>> {
    if pem_block_count(cert_chain) matches Some(count) && count >= 1 {
        Some(cert_chain)
    } else if is_der_chain(cert_chain) {
        Some(chain_pem_from(cert_chain, 0))
    } else {
        None
    }
}

/// Whether a key of the kind `kind` is one to sign with for `algorithm`: a key
/// on the curve of the algorithm for ECDSA, an RSA key for RSA with the PSS
/// padding, an Ed25519 key for Ed25519.
pub open spec fn fits(kind: KeyKind, algorithm: SigningAlgorithm) -> bool {
    match algorithm {
        SigningAlgorithm::Es256 => kind == KeyKind::P256,
        SigningAlgorithm::Es384 => kind == KeyKind::P384,
        SigningAlgorithm::Es512 => kind == KeyKind::P521,
        SigningAlgorithm::Ps256 => kind == KeyKind::Rsa,
        SigningAlgorithm::Ps384 => kind == KeyKind::Rsa,
        SigningAlgorithm::Ps512 => kind == KeyKind::Rsa,
        SigningAlgorithm::Ed25519 => kind == KeyKind::Ed25519,
    }
}

/// Whether a private key can be used for `algorithm`, and if not, why: it is
/// malformed where it is no PEM block or the block holds no PKCS#8 encoding of a
/// key, and it does not match where the key is of another kind than the
/// algorithm signs with.
pub open spec fn key_fault(private_key: Seq<u8>, algorithm: SigningAlgorithm) -> Option<Failure> {
    match pem_contents(private_key) {
        None => Some(Failure::MalformedKey),
        Some(der) => match key_kind(der) {
            None => Some(Failure::MalformedKey),
            Some(kind) => if fits(kind, algorithm) {
                None
            } else {
                Some(Failure::AlgorithmMismatch)
            },
        },
    }
}

/// Whether key material can be used for `algorithm`, and if not, why. The
/// certificate chain is looked at first, then the key.
pub open spec fn key_material_fault(
    cert_chain: Seq<u8>,
    private_key: Seq<u8>,
    algorithm: SigningAlgorithm,
) -> Option<Failure> {
    if chain_text(cert_chain) is None {
        Some(Failure::MalformedCertificate)
    } else {
        key_fault(private_key, algorithm)
    }
}

/// The key material that [`load_credential`] makes of a chain and a key that can
/// be used for `algorithm`.
pub open spec fn loaded_material(
    cert_chain: Seq<u8>,
    private_key: Seq<u8>,
    algorithm: SigningAlgorithm,
) -> KeyMaterial {
    KeyMaterial { algorithm, cert_chain: chain_text(cert_chain)->0, private_key }
}

/// Decides [`fits`].
pub fn fits_algorithm(kind: KeyKind, algorithm: SigningAlgorithm) -> (r: bool)
    ensures
        r == fits(kind, algorithm),
{
    match algorithm {
        SigningAlgorithm::Es256 => matches!(kind, KeyKind::P256),
        SigningAlgorithm::Es384 => matches!(kind, KeyKind::P384),
        SigningAlgorithm::Es512 => matches!(kind, KeyKind::P521),
        SigningAlgorithm::Ps256 => matches!(kind, KeyKind::Rsa),
        SigningAlgorithm::Ps384 => matches!(kind, KeyKind::Rsa),
        SigningAlgorithm::Ps512 => matches!(kind, KeyKind::Rsa),
        SigningAlgorithm::Ed25519 => matches!(kind, KeyKind::Ed25519),
    }
}

/// Writes the DER certificates of a chain as PEM blocks, where `bytes` are such
/// a chain.
fn der_chain_to_pem(bytes: &[u8]) -> (r: Option<Vec<u8>>)
    ensures
        match r {
            Some(text) => is_der_chain(bytes@) && text@ == chain_pem_from(bytes@, 0),
            None => !is_der_chain(bytes@),
        },
{
    if bytes.len() == 0 {
        return None;
    }
    let mut text: Vec<u8> = Vec::new();
    let mut at: usize = 0;
    assert(text@ + chain_pem_from(bytes@, 0) =~= chain_pem_from(bytes@, 0));
    while at < bytes.len()
        invariant
            at <= bytes@.len(),
            is_chain_from(bytes@, 0) == is_chain_from(bytes@, at as int),
            is_chain_from(bytes@, at as int) ==> chain_pem_from(bytes@, 0) == text@
                + chain_pem_from(bytes@, at as int),
        decreases bytes@.len() - at,
    {
        match read_tagged(bytes, at, SEQUENCE, bytes.len()) {
            None => {
                return None;
            },
            Some(certificate) => {
                let mut block = encode_certificate(slice_subrange(bytes, at, certificate.end));
                let ghost before = text@;
                let ghost added = block@;
                let ghost rest = chain_pem_from(bytes@, certificate.end as int);
                assert(chain_pem_from(bytes@, at as int) == added + rest);
                text.append(&mut block);
                assert(before + (added + rest) =~= (before + added) + rest);
                at = certificate.end;
            },
        }
    }
    assert(text@ + chain_pem_from(bytes@, at as int) =~= text@);
    Some(text)
}

/// Brings a certificate chain into PEM text.
pub fn read_chain(cert_chain: Vec<u8>) -> (r: Option<Vec<u8>>)
    ensures
        match chain_text(cert_chain@) {
            Some(text) => r is Some && r->0@ == text,
            None => r is None,
        },
{
    let blocks = match count_pem_blocks(cert_chain.as_slice()) {
        Some(count) => count,
        None => 0,
    };
    if blocks >= 1 {
        Some(cert_chain)
    } else {
        der_chain_to_pem(cert_chain.as_slice())
    }
}

impl KeyMaterial {
    /// Whether the key can be used for the algorithm.
    pub open spec fn usable(self) -> bool {
        key_fault(self.private_key, self.algorithm) is None
    }
}

impl Credential {
    #[verifier::type_invariant]
    spec fn checked(self) -> bool {
        self@.usable()
    }

    /// The algorithm that the credential signs with.
    pub fn algorithm(&self) -> (r: SigningAlgorithm)
        ensures
            r == self@.algorithm,
    {
        self.algorithm
    }

    /// The certificate chain as PEM text, the signing certificate first.
    pub fn cert_chain(&self) -> (r: &[u8])
        ensures
            r@ == self@.cert_chain,
    {
        self.cert_chain.as_slice()
    }

    /// The private key as PEM text. A credential holds only key material that
    /// has passed the checks of [`load_credential`].
    pub fn private_key(&self) -> (r: &[u8])
        ensures
            r@ == self@.private_key,
            self@.usable(),
    {
        proof {
            use_type_invariant(self);
        }
        self.private_key.as_slice()
    }
}

/// Turns the bytes of a certificate chain and of a private key into a credential
/// for `algorithm`. The chain may be PEM text or DER certificates written back to
/// back; the credential holds it as PEM text. Nothing but the two buffers is
/// read, and whether the certificates form a chain is not looked at.
pub fn load_credential(cert_chain: Vec<u8>, private_key: Vec<u8>, algorithm: SigningAlgorithm) -> (r:
    Result<Credential, PipelineError>)
    ensures
        match key_material_fault(cert_chain@, private_key@, algorithm) {
            None => r is Ok && r->Ok_0@ == loaded_material(cert_chain@, private_key@, algorithm),
            Some(failure) => r is Err && r->Err_0@ == failure,
        },
{
    let chain = match read_chain(cert_chain) {
        None => {
            return Err(PipelineError::MalformedCertificate);
        },
        Some(chain) => chain,
    };
    let der = match pem_decode(private_key.as_slice()) {
        None => {
            return Err(PipelineError::MalformedKey);
        },
        Some(der) => der,
    };
    match read_key_kind(der.as_slice()) {
        None => Err(PipelineError::MalformedKey),
        Some(kind) => if fits_algorithm(kind, algorithm) {
            Ok(Credential { algorithm, cert_chain: chain, private_key })
        } else {
            Err(PipelineError::AlgorithmMismatch)
        },
    }
}

/// Whether `callback` may answer `message` with `signature`.
pub open spec fn answers_with<F>(callback: &F, message: &[u8], signature: Vec<u8>) -> bool where
    F: Fn(&[u8]) -> Result<Vec<u8>, PipelineError>,
 {
    (*callback).ensures((message,), Ok::<Vec<u8>, PipelineError>(signature))
}

/// Hands `message` to `callback` and returns what it produces: its signature as
/// it is, or its error as an error of the `c2pa` crate. The signer neither looks
/// at a key nor keeps a signature.
pub fn forward<F>(callback: &F, message: &[u8]) -> (r: Result<Vec<u8>, c2pa::Error>) where
    F: Fn(&[u8]) -> Result<Vec<u8>, PipelineError>,

    requires
        callback.requires((message,)),
    ensures
        r matches Ok(signature) ==> callback.ensures(
            (message,),
            Ok::<Vec<u8>, PipelineError>(signature),
        ),
        r is Err ==> exists|error: PipelineError|
            callback.ensures((message,), Err::<Vec<u8>, PipelineError>(error)),
{
    match callback(message) {
        Ok(signature) => Ok(signature),
        Err(error) => Err(callback_failure(error.describe())),
    }
}

} // verus!
