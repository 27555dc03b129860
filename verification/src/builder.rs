//! The manifest builder: a configuration, the ingredients added to it, and the
//! one signing operation that turns both into a signed asset.

use crate::algorithm::SigningAlgorithm;
use crate::codec::{
    add_ingredient, definition_formats, definition_from_json, definition_relationships,
    definition_titles, embedded_store, error_text, extract_store, sign_with_callback,
    sign_with_keys, signer_refusal, to_codec_algorithm, Extracted,
};
use crate::der::same_bytes;
use crate::error::{Failure, Operation, PipelineError};
use crate::ingredient::{
    holds_declared, is_load_failure, reaches_loading, resolution_of, resolve_ingredient,
    summary_views, IngredientRecord, IngredientSource, IngredientSummary, ResolvedIngredient,
};
use crate::json::json_document;
use crate::manifest::{
    declaration_views, spec_of, Declaration, IngredientDeclaration, ManifestSpec, SpecModel,
};
use crate::relationship::Relationship;
use crate::signer::{answers_with, forward, Credential};
use vstd::prelude::*;

verus! {

/// Whether the caller found a file for the declaration at place `i`: a place
/// without a source counts as a missing file.
pub open spec fn found_at(sources: Seq<IngredientSource>, i: int) -> bool {
    0 <= i < sources.len() && sources[i] is Found
}

/// What resolving the declaration at place `i` gives where the `c2pa` crate
/// loads its file.
pub open spec fn resolution_at(
    declarations: Seq<Declaration>,
    base: Seq<char>,
    sources: Seq<IngredientSource>,
    i: int,
) -> Result<IngredientRecord, Failure> {
    resolution_of(declarations[i], base, found_at(sources, i))
}

/// Whether all declarations from place `from` up to place `i` resolve where the
/// `c2pa` crate loads their files.
pub open spec fn resolves_between(
    declarations: Seq<Declaration>,
    base: Seq<char>,
    sources: Seq<IngredientSource>,
    from: int,
    i: int,
) -> bool {
    forall|j: int|
        from <= j < i ==> (#[trigger] resolution_at(declarations, base, sources, j)) is Ok
}

/// Whether `failure` stops at place `i` a resolution that started at place
/// `from`: it is the error that the declaration there resolves to, or the `c2pa`
/// crate could not load its file.
pub open spec fn stops_at(
    declarations: Seq<Declaration>,
    base: Seq<char>,
    sources: Seq<IngredientSource>,
    from: int,
    i: int,
    failure: Failure,
) -> bool {
    &&& from <= i < declarations.len()
    &&& resolves_between(declarations, base, sources, from, i)
    &&& resolution_at(declarations, base, sources, i) == Err::<IngredientRecord, Failure>(failure)
        || (is_load_failure(failure) && reaches_loading(
        declarations[i],
        base,
        found_at(sources, i),
    ))
}

/// Whether `signed` holds a manifest store that `asset` does not hold: the
/// container of `signed` has a store in it, and it is another than what the
/// container of `asset` has.
pub open spec fn newly_embedded(format: Seq<char>, asset: Seq<u8>, signed: Seq<u8>) -> bool {
    &&& embedded_store(format, signed) is Store
    &&& embedded_store(format, signed) != embedded_store(format, asset)
}

/// Whether the last of the ingredients that a manifest definition holds are those
/// of `records`, one for one and in the same order: each holds the media type of
/// its record, and the title and the relationship that its record declares.
pub open spec fn ends_with_records(
    records: Seq<IngredientRecord>,
    titles: Seq<Option<Seq<char>>>,
    formats: Seq<Option<Seq<char>>>,
    relationships: Seq<Option<Relationship>>,
) -> bool {
    &&& records.len() <= titles.len()
    &&& records.len() <= formats.len()
    &&& records.len() <= relationships.len()
    &&& forall|i: int|
        0 <= i < records.len() ==> holds_declared(
            #[trigger] records[i],
            titles[titles.len() - records.len() + i],
            formats[formats.len() - records.len() + i],
            relationships[relationships.len() - records.len() + i],
        )
}

/// A manifest under construction. It is made of a configuration, takes
/// ingredients, and is used up by signing.
pub struct ManifestBuilder {
    spec: ManifestSpec,
    records: Vec<IngredientSummary>,
    resolved: usize,
    inner: c2pa::Builder,
}

impl ManifestBuilder {
    /// What the configuration asks for.
    pub closed spec fn spec(&self) -> SpecModel {
        self.spec@
    }

    /// The records of the ingredients added so far, in the order in which they
    /// were added.
    pub closed spec fn ingredients(&self) -> Seq<IngredientRecord> {
        summary_views(self.records@)
    }

    /// The number of declarations of the configuration that have been resolved:
    /// they are resolved in order, so it is also the place of the next one.
    pub closed spec fn resolved(&self) -> nat {
        self.resolved as nat
    }

    /// The titles of the ingredients that the definition of the `c2pa` crate
    /// holds: those that came with the configuration, then those that were added.
    pub closed spec fn held_titles(&self) -> Seq<Option<Seq<char>>> {
        definition_titles(self.inner)
    }

    /// The media types of the ingredients that the definition of the `c2pa`
    /// crate holds.
    pub closed spec fn held_formats(&self) -> Seq<Option<Seq<char>>> {
        definition_formats(self.inner)
    }

    /// The relationships of the ingredients that the definition of the `c2pa`
    /// crate holds.
    pub closed spec fn held_relationships(&self) -> Seq<Option<Relationship>> {
        definition_relationships(self.inner)
    }

    /// Whether the definition that is handed to signing holds the ingredients
    /// that were added, behind those that came with the configuration.
    pub open spec fn holds_records(&self) -> bool {
        ends_with_records(
            self.ingredients(),
            self.held_titles(),
            self.held_formats(),
            self.held_relationships(),
        )
    }

    /// Whether declarations are resolved in order and no more than there are.
    pub open spec fn counts_declarations(&self) -> bool {
        self.resolved() <= self.spec().declarations.len()
    }

    /// The error for signing a manifest of which a declared ingredient is not
    /// resolved yet: it names the first such declaration.
    pub open spec fn pending_fault(&self) -> Option<Failure> {
        if self.resolved() < self.spec().declarations.len() {
            Some(
                Failure::IngredientUnresolved {
                    file_path: self.spec().declarations[self.resolved() as int].file_path,
                },
            )
        } else {
            None
        }
    }

    #[verifier::type_invariant]
    spec fn coherent(self) -> bool {
        self.holds_records() && self.counts_declarations()
    }

    /// Puts together the configuration and what the `c2pa` crate made of its
    /// text: a builder without ingredients, or the crate's refusal.
    pub fn from_parts(spec: ManifestSpec, built: Result<c2pa::Builder, c2pa::Error>) -> (r: Result<
        ManifestBuilder,
        PipelineError,
    >)
        ensures
            match built {
                Ok(_) => r is Ok && r->Ok_0.spec() == spec@ && r->Ok_0.ingredients().len() == 0
                    && r->Ok_0.resolved() == 0 && r->Ok_0.holds_records(),
                Err(_) => r is Err && r->Err_0@ is Outside && r->Err_0@->Outside_operation
                    == Operation::ParseManifest,
            },
    {
        match built {
            Ok(inner) => Ok(ManifestBuilder { spec, records: Vec::new(), resolved: 0, inner }),
            Err(error) => Err(
                PipelineError::Outside {
                    operation: Operation::ParseManifest,
                    detail: error_text(&error),
                },
            ),
        }
    }

    /// Starts a manifest from the JSON text of its configuration. The library
    /// reads the configuration first; a configuration it accepts is handed to the
    /// `c2pa` crate, which may still refuse it.
    pub fn new(manifest_json: &str) -> (r: Result<ManifestBuilder, PipelineError>)
        ensures
            match json_document(manifest_json@) {
                None => r is Err && r->Err_0@ is InvalidManifestSpec,
                Some(document) => match spec_of(manifest_json@, document) {
                    Err(failure) => r is Err && r->Err_0@ == failure,
                    Ok(model) => match r {
                        Ok(builder) => builder.spec() == model && builder.ingredients().len()
                            == 0 && builder.resolved() == 0 && builder.holds_records(),
                        Err(error) => error@ is Outside && error@->Outside_operation
                            == Operation::ParseManifest,
                    },
                },
            },
    {
        match ManifestSpec::parse(manifest_json) {
            Err(error) => Err(error),
            Ok(spec) => {
                let built = definition_from_json(manifest_json);
                ManifestBuilder::from_parts(spec, built)
            },
        }
    }

    /// The records of the ingredients added so far.
    pub fn records(&self) -> (r: &Vec<IngredientSummary>)
        ensures
            summary_views(r@) == self.ingredients(),
    {
        &self.records
    }

    /// The ingredient declarations of the configuration.
    pub fn declarations(&self) -> (r: &Vec<IngredientDeclaration>)
        ensures
            declaration_views(r@) == self.spec().declarations,
    {
        &self.spec.declarations
    }

    /// The number of declarations that have been resolved.
    pub fn resolved_count(&self) -> (r: usize)
        ensures
            r == self.resolved(),
            self.counts_declarations(),
    {
        proof {
            use_type_invariant(self);
        }
        self.resolved
    }

    /// The configuration that the manifest was started from.
    pub fn configuration(&self) -> (r: &ManifestSpec)
        ensures
            r@ == self.spec(),
    {
        &self.spec
    }

    /// The title that the configuration gives, if any.
    pub fn title(&self) -> (r: Option<&str>)
        ensures
            match self.spec().title {
                Some(title) => r is Some && r->0@ == title,
                None => r is None,
            },
    {
        match &self.spec.title {
            Some(title) => Some(title.as_str()),
            None => None,
        }
    }

    /// Adds an ingredient behind those that are there: to the records of the
    /// library, and to the definition of the `c2pa` crate that is handed to
    /// signing. The ingredient counts for none of the declarations of the
    /// configuration.
    pub fn add_ingredient(self, ingredient: ResolvedIngredient) -> (r: ManifestBuilder)
        ensures
            r.spec() == self.spec(),
            r.resolved() == self.resolved(),
            r.ingredients() == self.ingredients().push(ingredient@),
            r.held_titles() == self.held_titles().push(ingredient.held_title()),
            r.held_formats() == self.held_formats().push(ingredient.held_format()),
            r.held_relationships() == self.held_relationships().push(
                ingredient.held_relationship(),
            ),
            r.holds_records(),
    {
        proof {
            use_type_invariant(&self);
        }
        let (summary, added) = ingredient.into_parts();
        let mut inner = self.inner;
        add_ingredient(&mut inner, added);
        let mut records = self.records;
        records.push(summary);
        assert(summary_views(records@) =~= summary_views(self.records@).push(summary@));
        ManifestBuilder { spec: self.spec, records, resolved: self.resolved, inner }
    }

    /// Resolves the next declaration of the configuration against `base`, from
    /// what the caller found at its path, and adds the ingredient. Where the
    /// declaration does not resolve, its error comes back and the builder is
    /// gone. A builder whose declarations are all resolved comes back as it is.
    pub fn resolve_next(self, base: &str, source: &IngredientSource) -> (r: Result<
        ManifestBuilder,
        PipelineError,
    >)
        ensures
            self.counts_declarations(),
            self.pending_fault() is None ==> r is Ok && r->Ok_0.spec() == self.spec()
                && r->Ok_0.resolved() == self.resolved() && r->Ok_0.ingredients()
                == self.ingredients(),
            self.pending_fault() is Some ==> ({
                let declaration = self.spec().declarations[self.resolved() as int];
                let resolution = resolution_of(declaration, base@, source is Found);
                match r {
                    Ok(builder) => {
                        &&& builder.spec() == self.spec()
                        &&& builder.resolved() == self.resolved() + 1
                        &&& resolution matches Ok(record)
                        &&& builder.ingredients() == self.ingredients().push(record)
                    },
                    Err(error) => resolution == Err::<IngredientRecord, Failure>(error@) || (
                    is_load_failure(error@) && reaches_loading(
                        declaration,
                        base@,
                        source is Found,
                    )),
                }
            }),
            r matches Ok(builder) ==> builder.holds_records(),
    {
        proof {
            use_type_invariant(&self);
        }
        if self.resolved >= self.spec.declarations.len() {
            return Ok(self);
        }
        let declarations = &self.spec.declarations;
        assert(declarations@[self.resolved as int]@ == declaration_views(
            declarations@,
        )[self.resolved as int]);
        match resolve_ingredient(&declarations[self.resolved], base, source) {
            Err(error) => Err(error),
            Ok(ingredient) => {
                let resolved = self.resolved + 1;
                let added = self.add_ingredient(ingredient);
                proof {
                    use_type_invariant(&added);
                }
                Ok(
                    ManifestBuilder {
                        spec: added.spec,
                        records: added.records,
                        resolved,
                        inner: added.inner,
                    },
                )
            },
        }
    }

    /// Resolves the declared ingredients that are not resolved yet, in the order
    /// of the configuration, each against `base` and from the source of its
    /// place in `sources`, and adds them. The first declaration that does not
    /// resolve stops the resolution: its error comes back and the builder is
    /// gone, so that no manifest is made of a part of the ingredients.
    pub fn with_declared_ingredients(self, base: &str, sources: &Vec<IngredientSource>) -> (r:
        Result<ManifestBuilder, PipelineError>)
        ensures
            match r {
                Ok(builder) => {
                    &&& builder.spec() == self.spec()
                    &&& builder.holds_records()
                    &&& builder.pending_fault() is None
                    &&& builder.ingredients().len() == self.ingredients().len()
                        + self.spec().declarations.len() - self.resolved()
                    &&& forall|i: int|
                        0 <= i < self.ingredients().len() ==> builder.ingredients()[i]
                            == self.ingredients()[i]
                    &&& forall|i: int|
                        self.resolved() <= i < self.spec().declarations.len() ==> (
                        #[trigger] resolution_at(self.spec().declarations, base@, sources@, i))
                            == Ok::<IngredientRecord, Failure>(
                            builder.ingredients()[self.ingredients().len() + i - self.resolved()],
                        )
                },
                Err(error) => exists|i: int|
                    stops_at(
                        self.spec().declarations,
                        base@,
                        sources@,
                        self.resolved() as int,
                        i,
                        error@,
                    ),
            },
            (exists|i: int|
                self.resolved() <= i < self.spec().declarations.len() && (
                #[trigger] resolution_at(self.spec().declarations, base@, sources@, i)) is Err)
                ==> r is Err,
    {
        let mut builder = self;
        let ghost declarations = builder.spec().declarations;
        let ghost held = builder.ingredients();
        let ghost from = builder.resolved() as int;
        let missing = IngredientSource::Missing;
        let mut i: usize = builder.resolved_count();
        while i < builder.declarations().len()
            invariant
                builder.spec() == self.spec(),
                declarations == self.spec().declarations,
                held == self.ingredients(),
                from == self.resolved(),
                missing is Missing,
                from <= i <= declarations.len(),
                builder.resolved() == i,
                builder.ingredients().len() == held.len() + i - from,
                forall|k: int| 0 <= k < held.len() ==> builder.ingredients()[k] == held[k],
                forall|k: int|
                    from <= k < i ==> (#[trigger] resolution_at(declarations, base@, sources@, k))
                        == Ok::<IngredientRecord, Failure>(
                        builder.ingredients()[held.len() + k - from],
                    ),
            decreases declarations.len() - i,
        {
            let source = if i < sources.len() {
                &sources[i]
            } else {
                &missing
            };
            match builder.resolve_next(base, source) {
                Err(error) => {
                    assert(stops_at(declarations, base@, sources@, from, i as int, error@));
                    return Err(error);
                },
                Ok(next) => {
                    builder = next;
                },
            }
            i = i + 1;
        }
        proof {
            use_type_invariant(&builder);
        }
        Ok(builder)
    }

    /// The error for signing now, where a declared ingredient is not resolved.
    pub fn pending(&self) -> (r: Option<PipelineError>)
        ensures
            match self.pending_fault() {
                Some(failure) => r is Some && r->0@ == failure,
                None => r is None,
            },
    {
        if self.resolved < self.spec.declarations.len() {
            let declarations = &self.spec.declarations;
            assert(declarations@[self.resolved as int]@ == declaration_views(
                declarations@,
            )[self.resolved as int]);
            Some(
                PipelineError::IngredientUnresolved {
                    file_path: declarations[self.resolved].file_path.clone(),
                },
            )
        } else {
            None
        }
    }

    /// What a signing operation makes of the answer of the `c2pa` crate: the
    /// bytes of the signed asset as they are, or the crate's error.
    pub fn outcome(signed: Result<Vec<u8>, c2pa::Error>) -> (r: Result<Vec<u8>, PipelineError>)
        ensures
            match signed {
                Ok(bytes) => r == Ok::<Vec<u8>, PipelineError>(bytes),
                Err(_) => r is Err && r->Err_0@ is Outside && r->Err_0@->Outside_operation
                    == Operation::SignAndEmbed,
            },
    {
        match signed {
            Ok(bytes) => Ok(bytes),
            Err(error) => Err(
                PipelineError::Outside {
                    operation: Operation::SignAndEmbed,
                    detail: error_text(&error),
                },
            ),
        }
    }

    /// Holds what signing gave against the asset that was to be signed: bytes
    /// count as the signed asset only where their container holds a manifest
    /// store that the container of `asset` does not hold. Bytes without one are
    /// an error of signing, so that an asset is never handed out as signed that
    /// is not.
    pub fn confirm(format: &str, asset: &[u8], outcome: Result<Vec<u8>, PipelineError>) -> (r:
        Result<Vec<u8>, PipelineError>)
        ensures
            match outcome {
                Err(error) => r == Err::<Vec<u8>, PipelineError>(error),
                Ok(signed) => if newly_embedded(format@, asset@, signed@) {
                    r == Ok::<Vec<u8>, PipelineError>(signed)
                } else {
                    r is Err && r->Err_0@ is Outside && r->Err_0@->Outside_operation
                        == Operation::SignAndEmbed
                },
            },
    {
        let signed = match outcome {
            Err(error) => {
                return Err(error);
            },
            Ok(signed) => signed,
        };
        let embedded = match extract_store(format, signed.as_slice()) {
            Extracted::Store(store) => match extract_store(format, asset) {
                Extracted::Store(before) => !same_bytes(store.as_slice(), before.as_slice()),
                _ => true,
            },
            _ => false,
        };
        if embedded {
            Ok(signed)
        } else {
            Err(
                PipelineError::Outside {
                    operation: Operation::SignAndEmbed,
                    detail: "no manifest store was embedded".to_owned(),
                },
            )
        }
    }

    /// Signs the manifest with key material held in process and embeds it into
    /// `asset`, an asset of the format `format`. The builder and the credential
    /// are used up. What comes back is the whole signed asset or an error, never
    /// a part of an asset.
    ///
    /// A manifest of which a declared ingredient is not resolved is not signed.
    /// The signer is made first, then the manifest is signed and embedded, and
    /// what comes back is looked into: it is handed out only where it holds a
    /// manifest store that `asset` did not hold.
    pub fn sign_and_embed(self, credential: Credential, format: &str, asset: &[u8]) -> (r: Result<
        Vec<u8>,
        PipelineError,
    >)
        ensures
            match self.pending_fault() {
                Some(failure) => r is Err && r->Err_0@ == failure,
                None => match r {
                    Ok(signed) => newly_embedded(format@, asset@, signed@),
                    Err(error) => error@ is Outside && (error@->Outside_operation
                        == Operation::CreateSigner || error@->Outside_operation
                        == Operation::SignAndEmbed),
                },
            },
    {
        match self.pending() {
            Some(error) => {
                return Err(error);
            },
            None => {},
        }
        let algorithm = to_codec_algorithm(credential.algorithm());
        match signer_refusal(algorithm, credential.cert_chain(), credential.private_key()) {
            Some(error) => {
                return Err(
                    PipelineError::Outside {
                        operation: Operation::CreateSigner,
                        detail: error_text(&error),
                    },
                );
            },
            None => {},
        }
        let signed = sign_with_keys(
            self.inner,
            algorithm,
            credential.cert_chain(),
            credential.private_key(),
            format,
            asset,
        );
        ManifestBuilder::confirm(format, asset, ManifestBuilder::outcome(signed))
    }

    /// Signs the manifest through `callback` and embeds it into `asset`, an asset
    /// of the format `format`. The callback gets each message to sign and answers
    /// with the signature; the key stays with it. The builder is used up.
    ///
    /// A manifest of which a declared ingredient is not resolved is not signed.
    /// A signed asset comes back only where the callback has answered a message
    /// with a signature: a callback that fails on every message makes the whole
    /// operation fail, and nothing of an asset comes back. What comes back is
    /// looked into: it is handed out only where it holds a manifest store that
    /// `asset` did not hold.
    pub fn sign_and_embed_with<F>(
        self,
        algorithm: SigningAlgorithm,
        cert_chain: &[u8],
        callback: F,
        format: &str,
        asset: &[u8],
    ) -> (r: Result<Vec<u8>, PipelineError>) where
        F: Fn(&[u8]) -> Result<Vec<u8>, PipelineError> + Send + Sync + 'static,

        requires
            forall|message: &[u8]| callback.requires((message,)),
        ensures
            match self.pending_fault() {
                Some(failure) => r is Err && r->Err_0@ == failure,
                None => match r {
                    Ok(signed) => newly_embedded(format@, asset@, signed@) && exists|
                        message: &[u8],
                        signature: Vec<u8>,
                    | #[trigger]
                        callback.ensures((message,), Ok::<Vec<u8>, PipelineError>(signature)),
                    Err(error) => error@ is Outside && error@->Outside_operation
                        == Operation::SignAndEmbed,
                },
            },
    {
        match self.pending() {
            Some(error) => {
                return Err(error);
            },
            None => {},
        }
        let ghost answers = callback;
        let forwarding = move |message: &[u8]| -> (r: Result<Vec<u8>, c2pa::Error>)
            ensures
                r matches Ok(signature) ==> answers_with(&callback, message, signature),
            { forward(&callback, message) };
        let signed = sign_with_callback(
            self.inner,
            to_codec_algorithm(algorithm),
            cert_chain,
            forwarding,
            format,
            asset,
        );
        proof {
            if signed is Ok {
                let (message, signature) = choose|message: &[u8], signature: Vec<u8>| #[trigger]
                    forwarding.ensures((message,), Ok::<Vec<u8>, c2pa::Error>(signature));
                assert(forwarding.ensures((message,), Ok::<Vec<u8>, c2pa::Error>(signature)));
                assert(answers_with(&answers, message, signature));
            }
        }
        ManifestBuilder::confirm(format, asset, ManifestBuilder::outcome(signed))
    }
}

} // verus!
