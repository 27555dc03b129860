//! The errors of a signing or reading run.

use crate::paths::{path_quoted, quoted};
use crate::text::same_text;
use vstd::prelude::*;
use vstd::string::StringExecFns;

verus! {

/// What was being done when an error came up. The words of an operation stand
/// at the head of the message of an error that came from outside the library.
#[derive(Clone, Copy, Debug, PartialEq, Eq, Structural)]
pub enum Operation {
    /// Reading the manifest configuration.
    ReadManifest,
    /// Looking whether a path is there.
    Probe,
    /// Making the directory of the output.
    CreateOutputDir,
    /// Building the manifest definition from its JSON text.
    ParseManifest,
    /// Loading an ingredient from its file.
    LoadIngredient,
    /// Making a signer of the certificate chain and the private key.
    CreateSigner,
    /// Signing the manifest and embedding it into the asset.
    SignAndEmbed,
    /// Reading the manifest store out of an asset.
    ReadStore,
}

/// Why a run stopped.
#[derive(Debug, PartialEq, Eq)]
pub enum PipelineError {
    /// The name given for the signing algorithm is none of the recognised ones.
    UnsupportedAlgorithm { name: String },
    /// The certificate bytes are neither PEM blocks nor DER certificates.
    MalformedCertificate,
    /// The private key bytes do not decode as a PKCS#8 private key.
    MalformedKey,
    /// The private key is of another kind than the algorithm asks for.
    AlgorithmMismatch,
    /// The manifest configuration cannot be used; `field` names what is wrong.
    InvalidManifestSpec { field: String },
    /// An ingredient declares a relationship that is neither `parentOf` nor `componentOf`.
    InvalidRelationship { value: String },
    /// The file of an ingredient is not there; `path` is the resolved path.
    IngredientNotFound { path: String },
    /// A manifest was to be signed before the ingredient that its configuration
    /// declares at `file_path` was resolved.
    IngredientUnresolved { file_path: String },
    /// The path of an ingredient has no extension to tell its format from.
    NoExtension { path: String },
    /// The extension of the path of an ingredient is none of the known ones.
    UnknownFormat { path: String },
    /// The input asset is not there.
    InputNotFound { path: String },
    /// The input path has no final component to name the output after.
    NoFileName { path: String },
    /// The format of the asset to sign cannot be told from its path.
    UnsupportedType { path: String },
    /// The input and the output are assets of different formats.
    FormatMismatch { input: String, output: String },
    /// The asset holds no manifest store.
    NoEmbeddedManifest,
    /// The caller could not do at `path` what `operation` needed.
    Io { operation: Operation, path: String, detail: String },
    /// A session was handed an answer to a question that it had not asked.
    UnexpectedEvent,
    /// The `c2pa` crate reported an error during `operation`.
    Outside { operation: Operation, detail: String },
}

/// What a [`PipelineError`] says, with texts as sequences of characters.
pub enum Failure {
    UnsupportedAlgorithm { name: Seq<char> },
    MalformedCertificate,
    MalformedKey,
    AlgorithmMismatch,
    InvalidManifestSpec { field: Seq<char> },
    InvalidRelationship { value: Seq<char> },
    IngredientNotFound { path: Seq<char> },
    IngredientUnresolved { file_path: Seq<char> },
    NoExtension { path: Seq<char> },
    UnknownFormat { path: Seq<char> },
    InputNotFound { path: Seq<char> },
    NoFileName { path: Seq<char> },
    UnsupportedType { path: Seq<char> },
    FormatMismatch { input: Seq<char>, output: Seq<char> },
    NoEmbeddedManifest,
    Io { operation: Operation, path: Seq<char>, detail: Seq<char> },
    UnexpectedEvent,
    Outside { operation: Operation, detail: Seq<char> },
}

impl View for PipelineError {
    type V = Failure;

    open spec fn view(&self) -> Failure {
        match *self {
            PipelineError::UnsupportedAlgorithm { name } => Failure::UnsupportedAlgorithm {
                name: name@,
            },
            PipelineError::MalformedCertificate => Failure::MalformedCertificate,
            PipelineError::MalformedKey => Failure::MalformedKey,
            PipelineError::AlgorithmMismatch => Failure::AlgorithmMismatch,
            PipelineError::InvalidManifestSpec { field } => Failure::InvalidManifestSpec {
                field: field@,
            },
            PipelineError::InvalidRelationship { value } => Failure::InvalidRelationship {
                value: value@,
            },
            PipelineError::IngredientNotFound { path } => Failure::IngredientNotFound {
                path: path@,
            },
            PipelineError::IngredientUnresolved { file_path } => Failure::IngredientUnresolved {
                file_path: file_path@,
            },
            PipelineError::NoExtension { path } => Failure::NoExtension { path: path@ },
            PipelineError::UnknownFormat { path } => Failure::UnknownFormat { path: path@ },
            PipelineError::UnsupportedType { path } => Failure::UnsupportedType { path: path@ },
            PipelineError::InputNotFound { path } => Failure::InputNotFound { path: path@ },
            PipelineError::NoFileName { path } => Failure::NoFileName { path: path@ },
            PipelineError::FormatMismatch { input, output } => Failure::FormatMismatch {
                input: input@,
                output: output@,
            },
            PipelineError::NoEmbeddedManifest => Failure::NoEmbeddedManifest,
            PipelineError::Io { operation, path, detail } => Failure::Io {
                operation,
                path: path@,
                detail: detail@,
            },
            PipelineError::UnexpectedEvent => Failure::UnexpectedEvent,
            PipelineError::Outside { operation, detail } => Failure::Outside {
                operation,
                detail: detail@,
            },
        }
    }
}

impl Operation {
    /// The words that name the operation in a message.
    pub open spec fn words(self) -> Seq<char> {
        match self {
            Operation::ReadManifest => "Failed to read manifest JSON file"@,
            Operation::Probe => "Failed to look at path"@,
            Operation::CreateOutputDir => "Failed to create output directory"@,
            Operation::ParseManifest => "Failed to create builder from JSON manifest"@,
            Operation::LoadIngredient => "Failed to load ingredient"@,
            Operation::CreateSigner => "Failed to create signer"@,
            Operation::SignAndEmbed => "Failed to sign and embed manifest"@,
            Operation::ReadStore => "Failed to read manifest store"@,
        }
    }

    /// Computes [`Operation::words`].
    pub fn describe(self) -> (r: &'static str)
        ensures
            r@ == self.words(),
    {
        match self {
            Operation::ReadManifest => "Failed to read manifest JSON file",
            Operation::Probe => "Failed to look at path",
            Operation::CreateOutputDir => "Failed to create output directory",
            Operation::ParseManifest => "Failed to create builder from JSON manifest",
            Operation::LoadIngredient => "Failed to load ingredient",
            Operation::CreateSigner => "Failed to create signer",
            Operation::SignAndEmbed => "Failed to sign and embed manifest",
            Operation::ReadStore => "Failed to read manifest store",
        }
    }
}

/// The name under which a configuration is invalid for an ingredient declaration
/// without a file path.
pub open spec fn file_path_field() -> Seq<char> {
    "ingredients_from_files.file_path"@
}

impl Failure {
    /// The message of the failure. An error of the library's own says what is
    /// wrong and names the algorithm, value or path it is wrong with; a path that
    /// was looked for and not found is written as `std::path` writes a path for
    /// debugging. An error that came up in an operation starts with the words of
    /// the operation, and the cause follows.
    pub open spec fn message(self) -> Seq<char> {
        match self {
            Failure::UnsupportedAlgorithm { name } => "Unsupported signing algorithm: "@ + name,
            Failure::MalformedCertificate => Operation::CreateSigner.words()
                + ": malformed certificate chain"@,
            Failure::MalformedKey => Operation::CreateSigner.words() + ": malformed private key"@,
            Failure::AlgorithmMismatch => Operation::CreateSigner.words()
                + ": private key does not match the signing algorithm"@,
            Failure::InvalidManifestSpec { field } => if field == file_path_field() {
                "Missing file_path in ingredient"@
            } else {
                Operation::ParseManifest.words() + ": "@ + field
            },
            Failure::InvalidRelationship { value } => "Invalid relationship type: "@ + value,
            Failure::IngredientNotFound { path } => "Ingredient file not found: "@ + path_quoted(
                path,
            ),
            Failure::IngredientUnresolved { file_path } => "Ingredient not resolved: "@ + file_path,
            Failure::NoExtension { path } => "Ingredient file has no extension: "@ + path,
            Failure::UnknownFormat { path } => "Unsupported ingredient file format: "@ + path,
            Failure::InputNotFound { path } => "Input file does not exist: "@ + path_quoted(path),
            Failure::NoFileName { path } => "Input file has no filename: "@ + path,
            Failure::UnsupportedType { path } => Operation::SignAndEmbed.words()
                + ": type is unsupported: "@ + path,
            Failure::FormatMismatch { input, output } => Operation::SignAndEmbed.words()
                + ": source and destination file formats must match: "@ + input + " and "@
                + output,
            Failure::NoEmbeddedManifest => "No embedded manifest found"@,
            Failure::Io { operation, path, detail } => operation.words() + ": "@ + path + ": "@
                + detail,
            Failure::UnexpectedEvent => "Unexpected answer"@,
            Failure::Outside { operation, detail } => operation.words() + ": "@ + detail,
        }
    }
}

/// `head` followed by `tail`.
fn joined(head: &str, tail: &str) -> (r: String)
    ensures
        r@ == head@ + tail@,
{
    let mut text = String::from_str(head);
    text.append(tail);
    text
}

impl PipelineError {
    /// The message of the error, for the caller to print.
    pub fn describe(&self) -> (r: String)
        ensures
            r@ == self@.message(),
    {
        match self {
            PipelineError::UnsupportedAlgorithm { name } => joined(
                "Unsupported signing algorithm: ",
                name.as_str(),
            ),
            PipelineError::MalformedCertificate => joined(
                Operation::CreateSigner.describe(),
                ": malformed certificate chain",
            ),
            PipelineError::MalformedKey => joined(
                Operation::CreateSigner.describe(),
                ": malformed private key",
            ),
            PipelineError::AlgorithmMismatch => joined(
                Operation::CreateSigner.describe(),
                ": private key does not match the signing algorithm",
            ),
            PipelineError::InvalidManifestSpec { field } => {
                if same_text(field.as_str(), "ingredients_from_files.file_path") {
                    String::from_str("Missing file_path in ingredient")
                } else {
                    let mut text = joined(Operation::ParseManifest.describe(), ": ");
                    text.append(field.as_str());
                    text
                }
            },
            PipelineError::InvalidRelationship { value } => joined(
                "Invalid relationship type: ",
                value.as_str(),
            ),
            PipelineError::IngredientNotFound { path } => joined(
                "Ingredient file not found: ",
                quoted(path.as_str()).as_str(),
            ),
            PipelineError::IngredientUnresolved { file_path } => joined(
                "Ingredient not resolved: ",
                file_path.as_str(),
            ),
            PipelineError::NoExtension { path } => joined(
                "Ingredient file has no extension: ",
                path.as_str(),
            ),
            PipelineError::UnknownFormat { path } => joined(
                "Unsupported ingredient file format: ",
                path.as_str(),
            ),
            PipelineError::InputNotFound { path } => joined(
                "Input file does not exist: ",
                quoted(path.as_str()).as_str(),
            ),
            PipelineError::NoFileName { path } => joined(
                "Input file has no filename: ",
                path.as_str(),
            ),
            PipelineError::UnsupportedType { path } => {
                let mut text = joined(Operation::SignAndEmbed.describe(), ": type is unsupported: ");
                text.append(path.as_str());
                text
            },
            PipelineError::FormatMismatch { input, output } => {
                let mut text = joined(
                    Operation::SignAndEmbed.describe(),
                    ": source and destination file formats must match: ",
                );
                text.append(input.as_str());
                text.append(" and ");
                text.append(output.as_str());
                text
            },
            PipelineError::NoEmbeddedManifest => String::from_str("No embedded manifest found"),
            PipelineError::UnexpectedEvent => String::from_str("Unexpected answer"),
            PipelineError::Io { operation, path, detail } => {
                let mut text = joined(operation.describe(), ": ");
                text.append(path.as_str());
                text.append(": ");
                text.append(detail.as_str());
                text
            },
            PipelineError::Outside { operation, detail } => {
                let mut text = joined(operation.describe(), ": ");
                text.append(detail.as_str());
                text
            },
        }
    }
}

} // verus!
