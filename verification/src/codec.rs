//! The `c2pa` crate as the library calls it: manifest definitions, ingredients,
//! signing into the container of an asset, and reading a manifest store back.
//!
//! What stands here is believed, not proved. The values of the `c2pa` crate are
//! opaque: the library carries them from one call to the next and keeps its own
//! record of what it asked for.

use crate::algorithm::SigningAlgorithm;
use crate::relationship::Relationship;
use vstd::prelude::*;

verus! {

#[verifier::external_type_specification]
#[verifier::external_body]
pub struct ExBuilder(c2pa::Builder);

#[verifier::external_type_specification]
#[verifier::external_body]
pub struct ExIngredient(c2pa::Ingredient);

#[verifier::external_type_specification]
#[verifier::external_body]
pub struct ExReader(c2pa::Reader);

#[verifier::external_type_specification]
#[verifier::external_body]
pub struct ExCodecError(c2pa::Error);

#[verifier::external_type_specification]
pub struct ExSigningAlg(c2pa::SigningAlg);

/// The algorithm of the `c2pa` crate that stands for `algorithm`.
pub open spec fn codec_algorithm(algorithm: SigningAlgorithm) -> c2pa::SigningAlg {
    match algorithm {
        SigningAlgorithm::Es256 => c2pa::SigningAlg::Es256,
        SigningAlgorithm::Es384 => c2pa::SigningAlg::Es384,
        SigningAlgorithm::Es512 => c2pa::SigningAlg::Es512,
        SigningAlgorithm::Ps256 => c2pa::SigningAlg::Ps256,
        SigningAlgorithm::Ps384 => c2pa::SigningAlg::Ps384,
        SigningAlgorithm::Ps512 => c2pa::SigningAlg::Ps512,
        SigningAlgorithm::Ed25519 => c2pa::SigningAlg::Ed25519,
    }
}

/// Computes [`codec_algorithm`].
pub fn to_codec_algorithm(algorithm: SigningAlgorithm) -> (r: c2pa::SigningAlg)
    ensures
        r == codec_algorithm(algorithm),
{
    match algorithm {
        SigningAlgorithm::Es256 => c2pa::SigningAlg::Es256,
        SigningAlgorithm::Es384 => c2pa::SigningAlg::Es384,
        SigningAlgorithm::Es512 => c2pa::SigningAlg::Es512,
        SigningAlgorithm::Ps256 => c2pa::SigningAlg::Ps256,
        SigningAlgorithm::Ps384 => c2pa::SigningAlg::Ps384,
        SigningAlgorithm::Ps512 => c2pa::SigningAlg::Ps512,
        SigningAlgorithm::Ed25519 => c2pa::SigningAlg::Ed25519,
    }
}

/// The media type that the `c2pa` crate tells from the extension of `path`, or
/// `None` where `path` has no extension.
pub uninterp spec fn asset_format_of(path: Seq<char>) -> Option<Seq<char>>;

/// Calls `format_from_path`. The contract claims that the outcome depends on the
/// text of `path` alone.
#[verifier::external_body]
pub(crate) fn asset_format(path: &str) -> (r: Option<String>)
    ensures
        match asset_format_of(path@) {
            Some(format) => r is Some && r->0@ == format,
            None => r is None,
        },
{
    c2pa::format_from_path(path)
}

/// Calls `Builder::from_json`: a manifest definition out of its JSON text. The
/// crate draws an instance identifier at random for each, so nothing is stated of
/// what comes back.
#[verifier::external_body]
pub(crate) fn definition_from_json(json: &str) -> Result<c2pa::Builder, c2pa::Error> {
    c2pa::Builder::from_json(json)
}

/// Calls `Ingredient::from_memory`: an ingredient out of the bytes of an asset of
/// the media type `format`.
#[verifier::external_body]
pub(crate) fn ingredient_from_memory(format: &str, bytes: &[u8]) -> Result<
    c2pa::Ingredient,
    c2pa::Error,
> {
    c2pa::Ingredient::from_memory(format, bytes)
}

/// The title that an ingredient holds: what `Ingredient::title` gives.
pub uninterp spec fn ingredient_title(ingredient: c2pa::Ingredient) -> Option<Seq<char>>;

/// The media type that an ingredient holds: what `Ingredient::format` gives.
pub uninterp spec fn ingredient_format(ingredient: c2pa::Ingredient) -> Option<Seq<char>>;

/// The media types of the ingredients that a manifest definition holds, in the
/// order of the definition.
pub uninterp spec fn definition_formats(builder: c2pa::Builder) -> Seq<Option<Seq<char>>>;

/// Calls `Ingredient::format`.
#[verifier::external_body]
pub(crate) fn format_of_ingredient(ingredient: &c2pa::Ingredient) -> (r: Option<String>)
    ensures
        match ingredient_format(*ingredient) {
            Some(format) => r is Some && r->0@ == format,
            None => r is None,
        },
{
    ingredient.format().map(|format| format.to_owned())
}

/// The relationship that an ingredient holds: what `Ingredient::relationship`
/// gives, where it is one of the two that the library knows.
pub uninterp spec fn ingredient_relationship(ingredient: c2pa::Ingredient) -> Option<Relationship>;

/// The titles of the ingredients that a manifest definition holds, in the order
/// of the definition.
pub uninterp spec fn definition_titles(builder: c2pa::Builder) -> Seq<Option<Seq<char>>>;

/// The relationships of the ingredients that a manifest definition holds, in the
/// order of the definition.
pub uninterp spec fn definition_relationships(builder: c2pa::Builder) -> Seq<Option<Relationship>>;

/// Calls `Ingredient::set_title`, which assigns the title and nothing else.
#[verifier::external_body]
pub(crate) fn set_ingredient_title(ingredient: &mut c2pa::Ingredient, title: &str)
    ensures
        ingredient_title(*final(ingredient)) == Some(title@),
        ingredient_format(*final(ingredient)) == ingredient_format(*old(ingredient)),
        ingredient_relationship(*final(ingredient)) == ingredient_relationship(*old(ingredient)),
{
    ingredient.set_title(title);
}

/// Calls `Ingredient::set_relationship` with the relationship of the `c2pa` crate
/// that has the name of `relationship`. The call assigns the relationship and
/// nothing else.
#[verifier::external_body]
pub(crate) fn set_ingredient_relationship(
    ingredient: &mut c2pa::Ingredient,
    relationship: Relationship,
)
    ensures
        ingredient_relationship(*final(ingredient)) == Some(relationship),
        ingredient_title(*final(ingredient)) == ingredient_title(*old(ingredient)),
        ingredient_format(*final(ingredient)) == ingredient_format(*old(ingredient)),
{
    match relationship {
        Relationship::ParentOf => ingredient.set_relationship(c2pa::Relationship::ParentOf),
        Relationship::ComponentOf => ingredient.set_relationship(c2pa::Relationship::ComponentOf),
    };
}

/// Calls `Builder::add_ingredient`, which puts the ingredient behind those that
/// the definition holds.
#[verifier::external_body]
pub(crate) fn add_ingredient(builder: &mut c2pa::Builder, ingredient: c2pa::Ingredient)
    ensures
        definition_titles(*final(builder)) == definition_titles(*old(builder)).push(
            ingredient_title(ingredient),
        ),
        definition_formats(*final(builder)) == definition_formats(*old(builder)).push(
            ingredient_format(ingredient),
        ),
        definition_relationships(*final(builder)) == definition_relationships(*old(builder)).push(
            ingredient_relationship(ingredient),
        ),
{
    builder.add_ingredient(ingredient);
}

/// Calls `Builder::sign` on the asset `asset` of the format `format`, with the
/// signer that `create_signer::from_keys` makes of the certificate chain and the
/// private key, and hands back the bytes of the signed asset. Signatures may
/// differ from one call to the next, so nothing is stated of the bytes.
#[verifier::external_body]
pub(crate) fn sign_with_keys(
    mut builder: c2pa::Builder,
    algorithm: c2pa::SigningAlg,
    cert_chain: &[u8],
    private_key: &[u8],
    format: &str,
    asset: &[u8],
) -> Result<Vec<u8>, c2pa::Error> {
    let signer = c2pa::create_signer::from_keys(cert_chain, private_key, algorithm, None)?;
    let mut signed = std::io::Cursor::new(Vec::new());
    builder.sign(signer.as_ref(), format, &mut std::io::Cursor::new(asset), &mut signed)?;
    Ok(signed.into_inner())
}

/// Calls `Builder::sign` on the asset `asset` of the format `format`, with the
/// signer that `CallbackSigner::new` makes of the certificate chain and of
/// `callback`, and hands back the bytes of the signed asset. The contract claims
/// what the crate's source shows of a signer that takes no part in the COSE
/// framing: `Builder::sign` ends in `Store::save_to_stream`, which asks
/// `Store::sign_claim` for the signature before it writes it; the signature comes
/// from `Signer::sign` by way of `cose_sign`, and `CallbackSigner::sign` is a call
/// of the callback. An error on that way is handed up. So where signing
/// succeeds, the callback has answered a message with a signature.
#[verifier::external_body]
pub(crate) fn sign_with_callback<F>(
    mut builder: c2pa::Builder,
    algorithm: c2pa::SigningAlg,
    cert_chain: &[u8],
    callback: F,
    format: &str,
    asset: &[u8],
) -> (r: Result<Vec<u8>, c2pa::Error>) where
    F: Fn(&[u8]) -> Result<Vec<u8>, c2pa::Error> + Send + Sync + 'static,

    requires
        forall|message: &[u8]| callback.requires((message,)),
    ensures
        r is Ok ==> exists|message: &[u8], signature: Vec<u8>| #[trigger]
            callback.ensures((message,), Ok::<Vec<u8>, c2pa::Error>(signature)),
{
    let signer = c2pa::CallbackSigner::new(move |_context, m| callback(m), algorithm, cert_chain);
    let mut signed = std::io::Cursor::new(Vec::new());
    builder.sign(&signer, format, &mut std::io::Cursor::new(asset), &mut signed)?;
    Ok(signed.into_inner())
}

/// What the container of an asset holds in the place of a manifest store.
#[derive(Debug, PartialEq, Eq)]
pub enum Extracted {
    /// The bytes of the manifest store.
    Store(Vec<u8>),
    /// Nothing: the asset holds no manifest store.
    Absent,
    /// The asset cannot be read as one of its format; `detail` says why.
    Unreadable { detail: String },
}

/// An [`Extracted`], with bytes and text as sequences.
pub enum Extraction {
    Store(Seq<u8>),
    Absent,
    Unreadable { detail: Seq<char> },
}

impl View for Extracted {
    type V = Extraction;

    open spec fn view(&self) -> Extraction {
        match *self {
            Extracted::Store(bytes) => Extraction::Store(bytes@),
            Extracted::Absent => Extraction::Absent,
            Extracted::Unreadable { detail } => Extraction::Unreadable { detail: detail@ },
        }
    }
}

/// What the `c2pa` crate finds in the container of the asset `asset` of the
/// format `format` in the place of a manifest store.
pub uninterp spec fn embedded_store(format: Seq<char>, asset: Seq<u8>) -> Extraction;

/// Calls `jumbf_io::load_jumbf_from_memory`, which looks up the reader of the
/// format and has it read the block of the manifest store out of the bytes. The
/// answer `JumbfNotFound` stands for an asset without a store; any other error
/// is kept with its message. The contract claims that the outcome depends on
/// the format and the bytes alone.
#[verifier::external_body]
pub(crate) fn extract_store(format: &str, asset: &[u8]) -> (r: Extracted)
    ensures
        r@ == embedded_store(format@, asset@),
{
    match c2pa::jumbf_io::load_jumbf_from_memory(format, asset) {
        Ok(store) => Extracted::Store(store),
        Err(c2pa::Error::JumbfNotFound) => Extracted::Absent,
        Err(error) => Extracted::Unreadable { detail: error.to_string() },
    }
}

/// Calls `create_signer::from_keys` and hands back its error, if it has one. The
/// signer is dropped.
#[verifier::external_body]
pub(crate) fn signer_refusal(
    algorithm: c2pa::SigningAlg,
    cert_chain: &[u8],
    private_key: &[u8],
) -> Option<c2pa::Error> {
    c2pa::create_signer::from_keys(cert_chain, private_key, algorithm, None).err()
}

/// Calls `Reader::from_stream` on the asset `asset` of the format `format`.
#[verifier::external_body]
pub(crate) fn reader_from_memory(format: &str, asset: &[u8]) -> Result<c2pa::Reader, c2pa::Error> {
    c2pa::Reader::from_stream(format, std::io::Cursor::new(asset))
}

/// Calls `Reader::json`: the report on the manifest store as JSON text.
#[verifier::external_body]
pub(crate) fn reader_report(reader: &c2pa::Reader) -> String {
    reader.json()
}

/// The message of `error`, as its `Display` gives it.
#[verifier::external_body]
pub(crate) fn error_text(error: &c2pa::Error) -> String {
    error.to_string()
}

/// Makes the variant `BadParam` of `c2pa::Error` with the message `detail`: the
/// error with which a signing callback of the library answers the `c2pa` crate.
#[verifier::external_body]
pub(crate) fn callback_failure(detail: String) -> c2pa::Error {
    c2pa::Error::BadParam(detail)
}

} // verus!
