//! Reading a manifest store back: the report of the `c2pa` crate on a signed
//! asset, and the queries on it.
//!
//! The report is a JSON object. Its member `active_manifest` names the manifest
//! that counts; its member `manifests` is an object that holds each manifest
//! under its label.

use crate::codec::{
    embedded_store, error_text, extract_store, reader_from_memory, reader_report, Extracted,
    Extraction,
};
use crate::error::{Failure, Operation, PipelineError};
use crate::json::{first_with_key, is_first_with_key, json_document, parse_json, Json, Member};
use crate::text::same_text;
use vstd::prelude::*;

verus! {

/// The manifests of a report, each under its label.
pub open spec fn manifests_of(report: Json) -> Seq<Member> {
    match report.member_of("manifests"@) {
        Some(Json::Object(members)) => members@,
        _ => Seq::empty(),
    }
}

/// The label of the active manifest of a report.
pub open spec fn active_label_of(report: Json) -> Option<Seq<char>> {
    report.text_member_of("active_manifest"@)
}

/// The manifest that a report holds under `label`.
pub open spec fn manifest_of(report: Json, label: Seq<char>) -> Option<Json> {
    match first_with_key(manifests_of(report), label) {
        Some(i) => Some(manifests_of(report)[i].value),
        None => None,
    }
}

/// Whether a report is consistent: the manifest that it calls active is among its
/// manifests.
pub open spec fn consistent(report: Json) -> bool {
    active_label_of(report) matches Some(label) ==> manifest_of(report, label) is Some
}

/// The assertions of a manifest, in the order in which they were made.
pub open spec fn assertions_of(manifest: Json) -> Seq<Json> {
    match manifest.items_member_of("assertions"@) {
        Some(items) => items,
        None => Seq::empty(),
    }
}

/// The label of an assertion.
pub open spec fn label_of(assertion: Json) -> Option<Seq<char>> {
    assertion.text_member_of("label"@)
}

/// Whether `i` is the place of the first assertion with the label `label`.
pub open spec fn is_first_with_label(assertions: Seq<Json>, label: Seq<char>, i: int) -> bool {
    &&& 0 <= i < assertions.len()
    &&& label_of(assertions[i]) == Some(label)
    &&& forall|j: int| 0 <= j < i ==> label_of(#[trigger] assertions[j]) != Some(label)
}

/// The place of the first assertion with the label `label`.
pub open spec fn first_with_label(assertions: Seq<Json>, label: Seq<char>) -> Option<int> {
    if exists|i: int| is_first_with_label(assertions, label, i) {
        Some(choose|i: int| is_first_with_label(assertions, label, i))
    } else {
        None
    }
}

/// The first place with the label is the only one that [`first_with_label`] can
/// name.
pub proof fn lemma_first_with_label(assertions: Seq<Json>, label: Seq<char>, i: int)
    requires
        is_first_with_label(assertions, label, i),
    ensures
        first_with_label(assertions, label) == Some(i),
{
    let c = choose|c: int| is_first_with_label(assertions, label, c);
    assert(is_first_with_label(assertions, label, c));
    if c < i {
        assert(label_of(assertions[c]) != Some(label));
    } else if i < c {
        assert(label_of(assertions[i]) != Some(label));
    }
}

/// One assertion of a manifest.
#[derive(Clone, Copy, Debug)]
pub struct Assertion<'a> {
    /// The JSON object of the assertion.
    pub node: &'a Json,
}

impl<'a> Assertion<'a> {
    /// The label of the assertion.
    pub fn label(&self) -> (r: Option<&'a str>)
        ensures
            match label_of(*self.node) {
                Some(label) => r is Some && r->0@ == label,
                None => r is None,
            },
    {
        self.node.text_member("label")
    }

    /// The payload of the assertion, which the library does not interpret.
    pub fn payload(&self) -> (r: Option<&'a Json>)
        ensures
            match self.node.member_of("data"@) {
                Some(value) => r == Some(&value),
                None => r is None,
            },
    {
        self.node.member("data")
    }
}

/// One manifest of a store.
#[derive(Clone, Copy, Debug)]
pub struct Manifest<'a> {
    /// The JSON object of the manifest.
    pub node: &'a Json,
}

impl<'a> Manifest<'a> {
    /// The title of the manifest, if it has one.
    pub fn title(&self) -> (r: Option<&'a str>)
        ensures
            match self.node.text_member_of("title"@) {
                Some(title) => r is Some && r->0@ == title,
                None => r is None,
            },
    {
        self.node.text_member("title")
    }

    /// The assertions of the manifest, in the order in which they were made.
    pub fn assertions(&self) -> (r: Vec<Assertion<'a>>)
        ensures
            r@.len() == assertions_of(*self.node).len(),
            forall|i: int| 0 <= i < r@.len() ==> *(#[trigger] r@[i]).node == assertions_of(
                *self.node,
            )[i],
    {
        let mut assertions: Vec<Assertion<'a>> = Vec::new();
        match self.node.items_member("assertions") {
            None => assertions,
            Some(items) => {
                let mut i: usize = 0;
                while i < items.len()
                    invariant
                        i <= items.len(),
                        assertions@.len() == i,
                        assertions_of(*self.node) == items@,
                        forall|j: int| 0 <= j < i ==> *(#[trigger] assertions@[j]).node == items@[j],
                    decreases items.len() - i,
                {
                    assertions.push(Assertion { node: &items[i] });
                    i = i + 1;
                }
                assertions
            },
        }
    }

    /// The first assertion with the label `label`. Where several assertions share
    /// the label, it is the earliest of them.
    pub fn find_assertion(&self, label: &str) -> (r: Option<Assertion<'a>>)
        ensures
            match first_with_label(assertions_of(*self.node), label@) {
                Some(i) => r is Some && *r->0.node == assertions_of(*self.node)[i],
                None => r is None,
            },
    {
        match self.node.items_member("assertions") {
            None => None,
            Some(items) => {
                let mut i: usize = 0;
                while i < items.len()
                    invariant
                        i <= items.len(),
                        assertions_of(*self.node) == items@,
                        forall|j: int| 0 <= j < i ==> label_of(#[trigger] items@[j]) != Some(label@),
                    decreases items.len() - i,
                {
                    let found = match items[i].text_member("label") {
                        Some(text) => same_text(text, label),
                        None => false,
                    };
                    if found {
                        proof {
                            lemma_first_with_label(items@, label@, i as int);
                        }
                        return Some(Assertion { node: &items[i] });
                    }
                    i = i + 1;
                }
                None
            },
        }
    }
}

/// How far the manifest store of an asset was found to hold.
#[derive(Clone, Copy, Debug, PartialEq, Eq, Structural)]
pub enum ValidationState {
    /// The store is broken or its signature does not hold.
    Invalid,
    /// The store is well formed and its signature holds.
    Valid,
    /// The store is valid and its signer is on the trust list in use.
    Trusted,
    /// The report does not say.
    Unknown,
}

/// The validation state that a report states.
pub open spec fn validation_state_of(report: Json) -> ValidationState {
    match report.text_member_of("validation_state"@) {
        Some(word) => if word == "Invalid"@ {
            ValidationState::Invalid
        } else if word == "Valid"@ {
            ValidationState::Valid
        } else if word == "Trusted"@ {
            ValidationState::Trusted
        } else {
            ValidationState::Unknown
        },
        None => ValidationState::Unknown,
    }
}

/// The error that opening an asset gives for what its container holds, before
/// the store is read: `NoEmbeddedManifest` where it holds none, the error of the
/// `c2pa` crate where it cannot be read, and none where a store is there.
pub open spec fn extraction_fault(extraction: Extraction) -> Option<Failure> {
    match extraction {
        Extraction::Store(_) => None,
        Extraction::Absent => Some(Failure::NoEmbeddedManifest),
        Extraction::Unreadable { detail } => Some(
            Failure::Outside { operation: Operation::ReadStore, detail },
        ),
    }
}

/// The manifest store of an asset, as the `c2pa` crate reports it.
pub struct ManifestStore {
    report: Json,
    text: String,
}

impl ManifestStore {
    #[verifier::type_invariant]
    spec fn holds_active(self) -> bool {
        consistent(self.report) && json_document(self.text@) == Some(self.report)
    }

    /// The report that the store was made of.
    pub closed spec fn report(&self) -> Json {
        self.report
    }

    /// The report as JSON text, as the `c2pa` crate wrote it. It is the text that
    /// the store was parsed from.
    pub fn json(&self) -> (r: &str)
        ensures
            r@ == self.report_text(),
            json_document(r@) == Some(self.report()),
    {
        proof {
            use_type_invariant(self);
        }
        self.text.as_str()
    }

    /// The report as a JSON value, for what the queries of the store do not cover.
    pub fn as_json(&self) -> (r: &Json)
        ensures
            *r == self.report(),
    {
        &self.report
    }

    /// The label of the active manifest.
    pub open spec fn active(&self) -> Option<Seq<char>> {
        active_label_of(self.report())
    }

    /// The JSON text that the report was parsed from.
    pub closed spec fn report_text(&self) -> Seq<char> {
        self.text@
    }

    /// Makes a store of a report and the JSON text it was parsed from. A report
    /// whose active manifest is not among its manifests is refused.
    fn from_report(report: Json, text: String) -> (r: Result<ManifestStore, PipelineError>)
        requires
            json_document(text@) == Some(report),
        ensures
            consistent(report) ==> r is Ok && r->Ok_0.report() == report && r->Ok_0.report_text()
                == text@,
            !consistent(report) ==> r is Err && r->Err_0@ is Outside && r->Err_0@->Outside_operation
                == Operation::ReadStore,
    {
        let held = match report.text_member("active_manifest") {
            None => true,
            Some(label) => match report.member("manifests") {
                Some(manifests) => match manifests {
                    Json::Object(_) => manifests.member(label).is_some(),
                    _ => false,
                },
                None => false,
            },
        };
        if held {
            Ok(ManifestStore { report, text })
        } else {
            Err(
                PipelineError::Outside {
                    operation: Operation::ReadStore,
                    detail: "the active manifest is not in the store".to_owned(),
                },
            )
        }
    }

    /// Makes a store of the JSON text of a report.
    pub fn from_report_text(text: &str) -> (r: Result<ManifestStore, PipelineError>)
        ensures
            match json_document(text@) {
                Some(report) => if consistent(report) {
                    r is Ok && r->Ok_0.report() == report && r->Ok_0.report_text() == text@
                } else {
                    r is Err && r->Err_0@ is Outside && r->Err_0@->Outside_operation == Operation::ReadStore
                },
                None => r is Err && r->Err_0@ is Outside && r->Err_0@->Outside_operation
                    == Operation::ReadStore,
            },
    {
        match parse_json(text) {
            Ok(report) => ManifestStore::from_report(report, text.to_owned()),
            Err(_) => Err(
                PipelineError::Outside {
                    operation: Operation::ReadStore,
                    detail: "the report on the store is no JSON".to_owned(),
                },
            ),
        }
    }

    /// Looks into the container of `asset`, an asset of the format `format`, for
    /// the bytes of a manifest store.
    pub fn extract(format: &str, asset: &[u8]) -> (r: Extracted)
        ensures
            r@ == embedded_store(format@, asset@),
    {
        extract_store(format, asset)
    }

    /// The error that stands for what was found in the container of an asset,
    /// where no store was found: there is none, or the asset cannot be read.
    pub fn extraction_failure(extracted: Extracted) -> (r: Option<PipelineError>)
        ensures
            match extraction_fault(extracted@) {
                Some(failure) => r is Some && r->0@ == failure,
                None => r is None,
            },
    {
        match extracted {
            Extracted::Store(_) => None,
            Extracted::Absent => Some(PipelineError::NoEmbeddedManifest),
            Extracted::Unreadable { detail } => Some(
                PipelineError::Outside { operation: Operation::ReadStore, detail },
            ),
        }
    }

    /// Reads the manifest store out of `asset`, an asset of the format `format`.
    /// The container is looked into first: an asset without a store is answered
    /// with `NoEmbeddedManifest`, which is an ordinary outcome for an asset that
    /// was never signed, and an asset that cannot be read with the error of the
    /// `c2pa` crate. Only a store that is there is handed to the reader of the
    /// `c2pa` crate, which may still refuse it.
    pub fn open(format: &str, asset: &[u8]) -> (r: Result<ManifestStore, PipelineError>)
        ensures
            match extraction_fault(embedded_store(format@, asset@)) {
                Some(failure) => r is Err && r->Err_0@ == failure,
                None => r matches Err(error) ==> error@ is Outside && error@->Outside_operation
                    == Operation::ReadStore,
            },
    {
        match ManifestStore::extraction_failure(ManifestStore::extract(format, asset)) {
            Some(error) => Err(error),
            None => match reader_from_memory(format, asset) {
                Err(error) => Err(
                    PipelineError::Outside {
                        operation: Operation::ReadStore,
                        detail: error_text(&error),
                    },
                ),
                Ok(reader) => {
                    let text = reader_report(&reader);
                    ManifestStore::from_report_text(text.as_str())
                },
            },
        }
    }

    /// The label of the active manifest: the one that counts where an asset has
    /// been signed several times. A store without it stands for an asset that
    /// carries no claim. The label is that of a manifest of the store, so a
    /// store without manifests has none.
    pub fn active_label(&self) -> (r: Option<&str>)
        ensures
            match self.active() {
                Some(label) => r is Some && r->0@ == label && manifest_of(self.report(), label)
                    is Some,
                None => r is None,
            },
            manifests_of(self.report()).len() == 0 ==> r is None,
    {
        proof {
            use_type_invariant(self);
            if manifests_of(self.report).len() == 0 {
                lemma_no_manifest_no_active_label(self.report);
            }
        }
        self.report.text_member("active_manifest")
    }

    /// Whether the asset carries a claim: a store without an active manifest
    /// stands for an unsigned asset.
    pub fn is_signed(&self) -> (r: bool)
        ensures
            r == self.active() is Some,
    {
        self.active_label().is_some()
    }

    /// The number of manifests in the store.
    pub fn manifest_count(&self) -> (r: usize)
        ensures
            r == manifests_of(self.report()).len(),
    {
        match self.report.member("manifests") {
            Some(manifests) => match manifests {
                Json::Object(members) => members.len(),
                _ => 0,
            },
            None => 0,
        }
    }

    /// The manifest with the label `label`, if the store holds one.
    pub fn get_manifest(&self, label: &str) -> (r: Option<Manifest<'_>>)
        ensures
            match manifest_of(self.report(), label@) {
                Some(manifest) => r is Some && *r->0.node == manifest,
                None => r is None,
            },
    {
        match self.report.member("manifests") {
            Some(manifests) => match manifests {
                Json::Object(_) => match manifests.member(label) {
                    Some(node) => Some(Manifest { node }),
                    None => None,
                },
                _ => None,
            },
            None => None,
        }
    }

    /// The active manifest. There is one exactly where there is an active label.
    pub fn active_manifest(&self) -> (r: Option<Manifest<'_>>)
        ensures
            match self.active() {
                Some(label) => r is Some && Some(*r->0.node) == manifest_of(self.report(), label),
                None => r is None,
            },
    {
        proof {
            use_type_invariant(self);
        }
        match self.active_label() {
            Some(label) => self.get_manifest(label),
            None => None,
        }
    }

    /// How far the store was found to hold.
    pub fn validation_state(&self) -> (r: ValidationState)
        ensures
            r == validation_state_of(self.report()),
    {
        match self.report.text_member("validation_state") {
            Some(word) => if same_text(word, "Invalid") {
                ValidationState::Invalid
            } else if same_text(word, "Valid") {
                ValidationState::Valid
            } else if same_text(word, "Trusted") {
                ValidationState::Trusted
            } else {
                ValidationState::Unknown
            },
            None => ValidationState::Unknown,
        }
    }
}

/// A store without manifests has no active label.
pub proof fn lemma_no_manifest_no_active_label(report: Json)
    requires
        consistent(report),
        manifests_of(report).len() == 0,
    ensures
        active_label_of(report) is None,
{
    if active_label_of(report) is Some {
        let label = active_label_of(report)->0;
        let i = choose|i: int| is_first_with_key(manifests_of(report), label, i);
        assert(is_first_with_key(manifests_of(report), label, i));
    }
}

} // verus!
