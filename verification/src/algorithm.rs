//! The signing algorithms and their names.

use crate::error::{Failure, PipelineError};
use crate::text::{ascii_lower, lowers_to};
use vstd::prelude::*;

verus! {

/// A signing algorithm. The set is closed: a name outside it is rejected before
/// anything else is done with a signing request.
#[derive(Clone, Copy, Debug, PartialEq, Eq, Structural)]
pub enum SigningAlgorithm {
    /// ECDSA with SHA-256.
    Es256,
    /// ECDSA with SHA-384.
    Es384,
    /// ECDSA with SHA-512.
    Es512,
    /// RSASSA-PSS with SHA-256.
    Ps256,
    /// RSASSA-PSS with SHA-384.
    Ps384,
    /// RSASSA-PSS with SHA-512.
    Ps512,
    /// EdDSA on the curve Ed25519.
    Ed25519,
}

/// The algorithm that the lower-case name `name` stands for.
pub open spec fn algorithm_named(name: Seq<char>) -> Option<SigningAlgorithm> {
    if name == "es256"@ {
        Some(SigningAlgorithm::Es256)
    } else if name == "es384"@ {
        Some(SigningAlgorithm::Es384)
    } else if name == "es512"@ {
        Some(SigningAlgorithm::Es512)
    } else if name == "ps256"@ {
        Some(SigningAlgorithm::Ps256)
    } else if name == "ps384"@ {
        Some(SigningAlgorithm::Ps384)
    } else if name == "ps512"@ {
        Some(SigningAlgorithm::Ps512)
    } else if name == "ed25519"@ {
        Some(SigningAlgorithm::Ed25519)
    } else {
        None
    }
}

/// What [`parse_signing_algorithm`] returns for `alg`: the algorithm that `alg`
/// names once it is brought to lower case, or the rejection of `alg` as it was given.
pub open spec fn parsed_algorithm(alg: Seq<char>) -> Result<SigningAlgorithm, Failure> {
    match algorithm_named(ascii_lower(alg)) {
        Some(algorithm) => Ok(algorithm),
        None => Err(Failure::UnsupportedAlgorithm { name: alg }),
    }
}

impl SigningAlgorithm {
    /// The lower-case name of the algorithm.
    pub open spec fn name(self) -> Seq<char> {
        match self {
            SigningAlgorithm::Es256 => "es256"@,
            SigningAlgorithm::Es384 => "es384"@,
            SigningAlgorithm::Es512 => "es512"@,
            SigningAlgorithm::Ps256 => "ps256"@,
            SigningAlgorithm::Ps384 => "ps384"@,
            SigningAlgorithm::Ps512 => "ps512"@,
            SigningAlgorithm::Ed25519 => "ed25519"@,
        }
    }

    /// Computes [`SigningAlgorithm::name`].
    pub fn as_str(self) -> (r: &'static str)
        ensures
            r@ == self.name(),
    {
        match self {
            SigningAlgorithm::Es256 => "es256",
            SigningAlgorithm::Es384 => "es384",
            SigningAlgorithm::Es512 => "es512",
            SigningAlgorithm::Ps256 => "ps256",
            SigningAlgorithm::Ps384 => "ps384",
            SigningAlgorithm::Ps512 => "ps512",
            SigningAlgorithm::Ed25519 => "ed25519",
        }
    }
}

/// Reads the name of a signing algorithm, whatever the case of its letters.
pub fn parse_signing_algorithm(alg: &str) -> (r: Result<SigningAlgorithm, PipelineError>)
    ensures
        match parsed_algorithm(alg@) {
            Ok(algorithm) => r == Ok::<SigningAlgorithm, PipelineError>(algorithm),
            Err(failure) => r is Err && r->Err_0@ == failure,
        },
{
    if lowers_to(alg, "es256") {
        Ok(SigningAlgorithm::Es256)
    } else if lowers_to(alg, "es384") {
        Ok(SigningAlgorithm::Es384)
    } else if lowers_to(alg, "es512") {
        Ok(SigningAlgorithm::Es512)
    } else if lowers_to(alg, "ps256") {
        Ok(SigningAlgorithm::Ps256)
    } else if lowers_to(alg, "ps384") {
        Ok(SigningAlgorithm::Ps384)
    } else if lowers_to(alg, "ps512") {
        Ok(SigningAlgorithm::Ps512)
    } else if lowers_to(alg, "ed25519") {
        Ok(SigningAlgorithm::Ed25519)
    } else {
        Err(PipelineError::UnsupportedAlgorithm { name: alg.to_owned() })
    }
}

/// Every algorithm is found again under its own name.
pub proof fn lemma_name_round_trip(algorithm: SigningAlgorithm)
    ensures
        algorithm_named(algorithm.name()) == Some(algorithm),
        parsed_algorithm(algorithm.name()) == Ok::<SigningAlgorithm, Failure>(algorithm),
{
    reveal_strlit("es256");
    reveal_strlit("es384");
    reveal_strlit("es512");
    reveal_strlit("ps256");
    reveal_strlit("ps384");
    reveal_strlit("ps512");
    reveal_strlit("ed25519");
    let name = algorithm.name();
    assert(ascii_lower(name) =~= name);
    assert("es256"@[0] == 'e' && "es256"@[1] == 's' && "es256"@[2] == '2');
    assert("es384"@[0] == 'e' && "es384"@[1] == 's' && "es384"@[2] == '3');
    assert("es512"@[0] == 'e' && "es512"@[1] == 's' && "es512"@[2] == '5');
    assert("ps256"@[0] == 'p' && "ps256"@[2] == '2');
    assert("ps384"@[0] == 'p' && "ps384"@[2] == '3');
    assert("ps512"@[0] == 'p' && "ps512"@[2] == '5');
    assert("ed25519"@[0] == 'e' && "ed25519"@[1] == 'd');
}

} // verus!
