//! Assembly, signing and reading of content-provenance manifests.
//!
//! The crate holds the decisions of a signing run: which signing algorithms are
//! recognised, how an ingredient declaration is resolved against a file, in which
//! order the gates of a run are passed, and how the manifest store that comes back
//! from a signed asset is queried. The container codec and the cryptography are
//! the `c2pa` crate's; file and network access are the caller's.

pub mod algorithm;
pub mod builder;
pub mod codec;
pub mod der;
pub mod error;
pub mod ingredient;
pub mod json;
pub mod key;
pub mod manifest;
pub mod media;
pub mod paths;
pub mod relationship;
pub mod roundtrip;
pub mod session;
pub mod signer;
pub mod store;
pub mod text;

pub use crate::algorithm::{parse_signing_algorithm, SigningAlgorithm};
pub use crate::builder::ManifestBuilder;
pub use crate::error::PipelineError;
pub use crate::media::extension_to_mime;
pub use crate::paths::determine_output_path;
pub use crate::relationship::{parse_relationship, Relationship};
pub use crate::session::{Action, Event, Session, SigningJob};
pub use crate::store::ManifestStore;
