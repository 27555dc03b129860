//! A signing run as a session: the library decides what is read, probed and
//! written, and in which order; the caller does it and hands back what came of it.
//!
//! A run starts with the signing job. Each step of the session asks for one
//! thing; the answer to it is the event of the next step. The session ends with
//! `Finish` or with `Fail`, and asks for nothing after either.

use crate::algorithm::{
    algorithm_named, parse_signing_algorithm, parsed_algorithm, SigningAlgorithm,
};
use crate::builder::{newly_embedded, ManifestBuilder};
use crate::codec::{asset_format, asset_format_of};
use crate::error::{Failure, Operation, PipelineError};
use crate::ingredient::{
    declared_relationship, ingredient_path, reaches_loading, resolution_of, IngredientRecord,
    IngredientSource,
};
use crate::json::json_document;
use crate::manifest::{declaration_views, spec_of, text_view, Declaration};
use crate::paths::{determine_output_path, directory, directory_of, output_path_of, resolved_path};
use crate::signer::{
    key_material_fault, load_credential, loaded_material, Credential, KeyMaterial,
};
use crate::text::{ascii_lower, same_text};
use vstd::prelude::*;

verus! {

/// What is to be signed, with what, and where the result goes.
#[derive(Debug, PartialEq, Eq)]
pub struct SigningJob {
    /// The path of the manifest configuration.
    pub manifest: String,
    /// The path of the asset to sign.
    pub input: String,
    /// The path of the signed asset, or of the directory to put it in.
    pub output: String,
    /// The path of the certificate chain.
    pub cert: String,
    /// The path of the private key.
    pub key: String,
    /// The name of the signing algorithm.
    pub algorithm: String,
    /// The directory against which the paths of ingredients are resolved; where
    /// none is given, it is the directory of the manifest configuration.
    pub ingredients_base: Option<String>,
}

/// A [`SigningJob`], with texts as sequences of characters.
pub struct Job {
    pub manifest: Seq<char>,
    pub input: Seq<char>,
    pub output: Seq<char>,
    pub cert: Seq<char>,
    pub key: Seq<char>,
    pub algorithm: Seq<char>,
    pub ingredients_base: Option<Seq<char>>,
}

impl Job {
    /// The directory against which the paths of ingredients are resolved.
    pub open spec fn base(self) -> Seq<char> {
        match self.ingredients_base {
            Some(base) => base,
            None => directory_of(self.manifest),
        }
    }
}

impl SigningJob {
    /// The directory against which the paths of ingredients are resolved.
    pub fn base(&self) -> (r: String)
        ensures
            r@ == self@.base(),
    {
        match &self.ingredients_base {
            Some(base) => base.clone(),
            None => directory(self.manifest.as_str()),
        }
    }
}

impl View for SigningJob {
    type V = Job;

    open spec fn view(&self) -> Job {
        Job {
            manifest: self.manifest@,
            input: self.input@,
            output: self.output@,
            cert: self.cert@,
            key: self.key@,
            algorithm: self.algorithm@,
            ingredients_base: text_view(self.ingredients_base),
        }
    }
}

/// What a session is waiting for.
#[derive(Clone, Copy, Debug, PartialEq, Eq, Structural)]
pub enum Stage {
    /// The text of the manifest configuration.
    Manifest,
    /// Whether the input is there.
    Input,
    /// Whether the output is a directory.
    Output,
    /// The directory of the output path.
    OutputDir,
    /// The file of the next ingredient.
    Ingredient,
    /// The bytes of the certificate chain.
    Certificate,
    /// The bytes of the private key.
    Key,
    /// The bytes of the asset to sign.
    Asset,
    /// The signed asset to be on disk.
    Written,
    /// Nothing: the run has succeeded.
    Finished,
    /// Nothing: the run has failed.
    Failed,
}

/// What a session asks its caller to do next.
#[derive(Debug, PartialEq, Eq)]
pub enum Action {
    /// Read the file at `path` as text.
    ReadText { path: String },
    /// Read the file at `path`.
    ReadBytes { path: String },
    /// Look for the ingredient file at `path` and read it if it is there.
    ReadIngredient { path: String },
    /// Find out whether `path` is there and whether it is a directory.
    Probe { path: String },
    /// Make sure that the directory of `path` is there.
    CreateParentDir { path: String },
    /// Put `bytes` at `path`, all of them or nothing.
    Write { path: String, bytes: Vec<u8> },
    /// Report success: the signed asset is at `output`.
    Finish { output: String },
    /// Report the error and do nothing more.
    Fail(PipelineError),
}

/// An [`Action`], with texts and bytes as sequences.
pub enum Request {
    ReadText { path: Seq<char> },
    ReadBytes { path: Seq<char> },
    ReadIngredient { path: Seq<char> },
    Probe { path: Seq<char> },
    CreateParentDir { path: Seq<char> },
    Write { path: Seq<char>, bytes: Seq<u8> },
    Finish { output: Seq<char> },
    Fail(Failure),
}

impl View for Action {
    type V = Request;

    open spec fn view(&self) -> Request {
        match *self {
            Action::ReadText { path } => Request::ReadText { path: path@ },
            Action::ReadBytes { path } => Request::ReadBytes { path: path@ },
            Action::ReadIngredient { path } => Request::ReadIngredient { path: path@ },
            Action::Probe { path } => Request::Probe { path: path@ },
            Action::CreateParentDir { path } => Request::CreateParentDir { path: path@ },
            Action::Write { path, bytes } => Request::Write { path: path@, bytes: bytes@ },
            Action::Finish { output } => Request::Finish { output: output@ },
            Action::Fail(error) => Request::Fail(error@),
        }
    }
}

/// What the caller found when it did what the session asked for.
#[derive(Debug, PartialEq, Eq)]
pub enum Event {
    /// The text of the file.
    Text(String),
    /// The bytes of the file.
    Bytes(Vec<u8>),
    /// What is at the path of the ingredient.
    Ingredient(IngredientSource),
    /// Whether the path is there, and whether it is a directory.
    Probed { exists: bool, is_dir: bool },
    /// The directory is there, or the file is written.
    Done,
    /// It could not be done; `detail` says why.
    Failed { detail: String },
}

/// An [`Event`], with texts and bytes as sequences.
pub enum Answer {
    Text(Seq<char>),
    Bytes(Seq<u8>),
    /// The bytes of the ingredient file, or `None` where it is missing.
    Ingredient(Option<Seq<u8>>),
    Probed { exists: bool, is_dir: bool },
    Done,
    Failed { detail: Seq<char> },
}

impl View for Event {
    type V = Answer;

    open spec fn view(&self) -> Answer {
        match *self {
            Event::Text(text) => Answer::Text(text@),
            Event::Bytes(bytes) => Answer::Bytes(bytes@),
            Event::Ingredient(source) => Answer::Ingredient(
                match source {
                    IngredientSource::Found(bytes) => Some(bytes@),
                    IngredientSource::Missing => None,
                },
            ),
            Event::Probed { exists, is_dir } => Answer::Probed { exists, is_dir },
            Event::Done => Answer::Done,
            Event::Failed { detail } => Answer::Failed { detail: detail@ },
        }
    }
}

/// The state of a session.
pub struct State {
    pub job: Job,
    /// The algorithm that the job names.
    pub algorithm: SigningAlgorithm,
    pub stage: Stage,
    /// The text of the manifest configuration, once it has been read.
    pub manifest_text: Seq<char>,
    /// The path of the signed asset, once it has been determined.
    pub output: Seq<char>,
    /// The title of the manifest under construction.
    pub title: Option<Seq<char>>,
    /// The assertion labels of the manifest under construction, in order.
    pub labels: Seq<Seq<char>>,
    /// The ingredient declarations of the configuration, once it has been parsed.
    pub declarations: Seq<Declaration>,
    /// The records of the ingredients resolved so far.
    pub ingredients: Seq<IngredientRecord>,
    /// The bytes of the certificate chain, from when they have been read until
    /// they are made into a credential.
    pub cert: Seq<u8>,
    /// The key material that is kept for signing, from when the key has been
    /// read until the asset is signed.
    pub credential: Option<KeyMaterial>,
}

impl State {
    /// Whether the run is over.
    pub open spec fn is_over(self) -> bool {
        self.stage == Stage::Finished || self.stage == Stage::Failed
    }

    /// A session that waits for an ingredient has one left to wait for, and a
    /// session that is past its ingredients has resolved every declaration.
    pub open spec fn well_formed(self) -> bool {
        &&& self.stage == Stage::Ingredient ==> self.ingredients.len() < self.declarations.len()
        &&& (self.stage == Stage::Certificate || self.stage == Stage::Key || self.stage
            == Stage::Asset) ==> self.ingredients.len() == self.declarations.len()
    }

    /// The path of the ingredient that is resolved next.
    pub open spec fn next_ingredient_path(self) -> Seq<char> {
        resolved_path(
            self.job.base(),
            self.declarations[self.ingredients.len() as int].file_path,
        )
    }

    /// The path that the pending request is about.
    pub open spec fn awaited_path(self) -> Seq<char> {
        match self.stage {
            Stage::Manifest => self.job.manifest,
            Stage::Input => self.job.input,
            Stage::Output => self.job.output,
            Stage::OutputDir => self.output,
            Stage::Ingredient => self.next_ingredient_path(),
            Stage::Certificate => self.job.cert,
            Stage::Key => self.job.key,
            Stage::Asset => self.job.input,
            Stage::Written => self.output,
            Stage::Finished => self.output,
            Stage::Failed => self.output,
        }
    }

    /// What the pending request serves.
    pub open spec fn awaited_operation(self) -> Operation {
        match self.stage {
            Stage::Manifest => Operation::ReadManifest,
            Stage::Input => Operation::Probe,
            Stage::Output => Operation::Probe,
            Stage::OutputDir => Operation::CreateOutputDir,
            Stage::Ingredient => Operation::LoadIngredient,
            Stage::Certificate => Operation::CreateSigner,
            Stage::Key => Operation::CreateSigner,
            Stage::Asset => Operation::SignAndEmbed,
            Stage::Written => Operation::SignAndEmbed,
            Stage::Finished => Operation::SignAndEmbed,
            Stage::Failed => Operation::SignAndEmbed,
        }
    }

    /// The state and the request once the manifest is parsed or an ingredient is
    /// resolved: the next ingredient is asked for while one is left, then the
    /// certificate chain.
    pub open spec fn after_ingredients(self) -> (State, Request) {
        if self.ingredients.len() < self.declarations.len() {
            (
                State { stage: Stage::Ingredient, ..self },
                Request::ReadIngredient { path: self.next_ingredient_path() },
            )
        } else {
            (State { stage: Stage::Certificate, ..self }, Request::ReadBytes { path: self.job.cert })
        }
    }
}

/// Whether the step ended the run with `failure`.
pub open spec fn fails_with(after: State, request: Request, failure: Failure) -> bool {
    after.stage == Stage::Failed && request == Request::Fail(failure)
}

/// Whether the step ended the run with an error of the `c2pa` crate during
/// `operation`.
pub open spec fn fails_outside(after: State, request: Request, operation: Operation) -> bool {
    &&& after.stage == Stage::Failed
    &&& request matches Request::Fail(Failure::Outside { operation: during, .. })
    &&& during == operation
}

/// The first step of a run: a job that names no recognised algorithm is rejected
/// before anything is read; otherwise the manifest configuration is asked for.
pub open spec fn first_step(job: Job) -> (Stage, Request) {
    match parsed_algorithm(job.algorithm) {
        Err(failure) => (Stage::Failed, Request::Fail(failure)),
        Ok(_) => (Stage::Manifest, Request::ReadText { path: job.manifest }),
    }
}

/// The step that parses the manifest configuration, once the directory of the
/// output is there.
pub open spec fn manifest_step(before: State, after: State, request: Request) -> bool {
    match json_document(before.manifest_text) {
        None => {
            &&& after.stage == Stage::Failed
            &&& request matches Request::Fail(failure)
            &&& failure is InvalidManifestSpec
        },
        Some(document) => match spec_of(before.manifest_text, document) {
            Err(failure) => fails_with(after, request, failure),
            Ok(model) => fails_outside(after, request, Operation::ParseManifest) || (after, request)
                == (State {
                title: model.title,
                labels: model.labels,
                declarations: model.declarations,
                ingredients: Seq::empty(),
                ..before
            }).after_ingredients(),
        },
    }
}

/// The step that resolves the next ingredient from what the caller found at its
/// path. A missing file, an unknown format, an error of the `c2pa` crate or an
/// invalid relationship ends the run; no later ingredient is asked for.
pub open spec fn ingredient_step(
    before: State,
    found: Option<Seq<u8>>,
    after: State,
    request: Request,
) -> bool {
    let declaration = before.declarations[before.ingredients.len() as int];
    match resolution_of(declaration, before.job.base(), found is Some) {
        Err(failure) => fails_with(after, request, failure) || (reaches_loading(
            declaration,
            before.job.base(),
            found is Some,
        ) && fails_outside(after, request, Operation::LoadIngredient)),
        Ok(record) => fails_outside(after, request, Operation::LoadIngredient) || (after, request)
            == (State { ingredients: before.ingredients.push(record), ..before }).after_ingredients(),
    }
}

/// The state of a session that has signed: the manifest and the key material
/// are used up, and the signed asset is waited for to be on disk.
pub open spec fn signed_state(before: State) -> State {
    State {
        stage: Stage::Written,
        title: None,
        labels: Seq::empty(),
        declarations: Seq::empty(),
        ingredients: Seq::empty(),
        credential: None,
        ..before
    }
}

/// Whether the step used up the manifest and the key material and asks for
/// bytes to be written to the output path that hold a manifest store which the
/// asset `asset` of the format `format` did not hold.
pub open spec fn writes_signed(
    before: State,
    format: Seq<char>,
    asset: Seq<u8>,
    after: State,
    request: Request,
) -> bool {
    &&& after == signed_state(before)
    &&& request matches Request::Write { path, bytes }
    &&& path == before.output
    &&& newly_embedded(format, asset, bytes)
}

/// The error for an input and an output that cannot be signed from one to the
/// other: the format of the output, then that of the input, has to be told from
/// its path, and the two have to be one.
pub open spec fn format_fault(input: Seq<char>, output: Seq<char>) -> Option<Failure> {
    if asset_format_of(output) is None {
        Some(Failure::UnsupportedType { path: output })
    } else if asset_format_of(input) is None {
        Some(Failure::UnsupportedType { path: input })
    } else if asset_format_of(input) != asset_format_of(output) {
        Some(Failure::FormatMismatch { input, output })
    } else {
        None
    }
}

/// The step that signs the asset `asset`: input and output have to be of one
/// format; then the signer is made, the `c2pa` crate signs and embeds, and the
/// signed asset is to be written to the output path. The manifest is used up.
pub open spec fn signing_step(before: State, asset: Seq<u8>, after: State, request: Request) -> bool {
    match format_fault(before.job.input, before.output) {
        Some(failure) => fails_with(after, request, failure),
        None => {
            ||| fails_outside(after, request, Operation::CreateSigner)
            ||| fails_outside(after, request, Operation::SignAndEmbed)
            ||| writes_signed(
                before,
                asset_format_of(before.job.input)->0,
                asset,
                after,
                request,
            )
        },
    }
}

/// The step that a session in the state `before` takes on the answer `answer`:
/// it ends in the state `after` and asks for `request`.
pub open spec fn transition(before: State, answer: Answer, after: State, request: Request) -> bool {
    if before.is_over() {
        after == before && request == Request::Fail(Failure::UnexpectedEvent)
    } else {
        match (before.stage, answer) {
            (_, Answer::Failed { detail }) => fails_with(
                after,
                request,
                Failure::Io {
                    operation: before.awaited_operation(),
                    path: before.awaited_path(),
                    detail,
                },
            ),
            (Stage::Manifest, Answer::Text(text)) => after == State {
                stage: Stage::Input,
                manifest_text: text,
                ..before
            } && request == Request::Probe { path: before.job.input },
            (Stage::Input, Answer::Probed { exists, is_dir }) => if exists {
                after == State { stage: Stage::Output, ..before } && request == Request::Probe {
                    path: before.job.output,
                }
            } else {
                fails_with(after, request, Failure::InputNotFound { path: before.job.input })
            },
            (Stage::Output, Answer::Probed { exists, is_dir }) => match output_path_of(
                before.job.input,
                before.job.output,
                is_dir,
            ) {
                Ok(path) => after == State { stage: Stage::OutputDir, output: path, ..before }
                    && request == Request::CreateParentDir { path },
                Err(failure) => fails_with(after, request, failure),
            },
            (Stage::OutputDir, Answer::Done) => manifest_step(before, after, request),
            (Stage::Ingredient, Answer::Ingredient(found)) => ingredient_step(
                before,
                found,
                after,
                request,
            ),
            (Stage::Certificate, Answer::Bytes(bytes)) => after == State {
                stage: Stage::Key,
                cert: bytes,
                ..before
            } && request == Request::ReadBytes { path: before.job.key },
            (Stage::Key, Answer::Bytes(bytes)) => match key_material_fault(
                before.cert,
                bytes,
                before.algorithm,
            ) {
                Some(failure) => fails_with(after, request, failure),
                None => after == State {
                    stage: Stage::Asset,
                    cert: Seq::empty(),
                    credential: Some(loaded_material(before.cert, bytes, before.algorithm)),
                    ..before
                } && request == Request::ReadBytes { path: before.job.input },
            },
            (Stage::Asset, Answer::Bytes(bytes)) => signing_step(before, bytes, after, request),
            (Stage::Written, Answer::Done) => after == State { stage: Stage::Finished, ..before }
                && request == Request::Finish { output: before.output },
            _ => fails_with(after, request, Failure::UnexpectedEvent),
        }
    }
}

/// The format in which an asset is signed from `input` to `output`, or why it
/// cannot be.
pub fn signing_format(input: &str, output: &str) -> (r: Result<String, PipelineError>)
    ensures
        match format_fault(input@, output@) {
            Some(failure) => r is Err && r->Err_0@ == failure,
            None => r is Ok && Some(r->Ok_0@) == asset_format_of(input@),
        },
{
    let target = match asset_format(output) {
        None => {
            return Err(PipelineError::UnsupportedType { path: output.to_owned() });
        },
        Some(target) => target,
    };
    match asset_format(input) {
        None => Err(PipelineError::UnsupportedType { path: input.to_owned() }),
        Some(format) => if same_text(format.as_str(), target.as_str()) {
            Ok(format)
        } else {
            Err(PipelineError::FormatMismatch { input: input.to_owned(), output: output.to_owned() })
        },
    }
}

/// A signing run in progress.
pub struct Session {
    job: SigningJob,
    algorithm: SigningAlgorithm,
    stage: Stage,
    manifest_text: String,
    output: String,
    builder: Option<ManifestBuilder>,
    cert: Vec<u8>,
    credential: Option<Credential>,
}

impl View for Session {
    type V = State;

    closed spec fn view(&self) -> State {
        State {
            job: self.job@,
            algorithm: self.algorithm,
            stage: self.stage,
            manifest_text: self.manifest_text@,
            output: self.output@,
            title: match self.builder {
                Some(builder) => builder.spec().title,
                None => None,
            },
            labels: match self.builder {
                Some(builder) => builder.spec().labels,
                None => Seq::empty(),
            },
            declarations: match self.builder {
                Some(builder) => builder.spec().declarations,
                None => Seq::empty(),
            },
            ingredients: match self.builder {
                Some(builder) => builder.ingredients(),
                None => Seq::empty(),
            },
            cert: self.cert@,
            credential: match self.credential {
                Some(credential) => Some(credential@),
                None => None,
            },
        }
    }
}

/// Whether a session in `stage` holds a manifest under construction.
pub open spec fn holds_manifest(stage: Stage) -> bool {
    stage == Stage::Ingredient || stage == Stage::Certificate || stage == Stage::Key || stage
        == Stage::Asset
}

impl Session {
    #[verifier::type_invariant]
    spec fn coherent(self) -> bool {
        &&& holds_manifest(self.stage) <==> self.builder is Some
        &&& self.stage == Stage::Asset <==> self.credential is Some
        &&& self.builder matches Some(builder) ==> builder.resolved() == builder.ingredients().len()
        &&& self@.well_formed()
    }

    /// Starts a run. The algorithm is looked at first: a job that names none of
    /// the recognised ones is rejected before the caller is asked to read
    /// anything.
    pub fn start(job: SigningJob) -> (r: (Session, Action))
        ensures
            (r.0@.stage, r.1@) == first_step(job@),
            r.0@.job == job@,
            r.0@.declarations.len() == 0,
            r.0@.ingredients.len() == 0,
            parsed_algorithm(job@.algorithm) matches Ok(algorithm) ==> r.0@.algorithm == algorithm,
            r.0@.well_formed(),
    {
        match parse_signing_algorithm(job.algorithm.as_str()) {
            Err(error) => {
                let session = Session::halted(
                    job,
                    SigningAlgorithm::Es256,
                    String::new(),
                    String::new(),
                );
                (session, Action::Fail(error))
            },
            Ok(algorithm) => {
                let path = job.manifest.clone();
                let session = Session {
                    job,
                    algorithm,
                    stage: Stage::Manifest,
                    manifest_text: String::new(),
                    output: String::new(),
                    builder: None,
                    cert: Vec::new(),
                    credential: None,
                };
                (session, Action::ReadText { path })
            },
        }
    }

    /// The stage of the session.
    pub fn stage(&self) -> (r: Stage)
        ensures
            r == self@.stage,
    {
        self.stage
    }

    /// Whether the run is over.
    pub fn is_over(&self) -> (r: bool)
        ensures
            r == self@.is_over(),
    {
        match self.stage {
            Stage::Finished => true,
            Stage::Failed => true,
            _ => false,
        }
    }

    /// A session whose run has failed: the manifest under construction and the
    /// key material are dropped.
    fn halted(
        job: SigningJob,
        algorithm: SigningAlgorithm,
        manifest_text: String,
        output: String,
    ) -> (r: Session)
        ensures
            r@.stage == Stage::Failed,
            r@.job == job@,
            r@.declarations.len() == 0,
            r@.ingredients.len() == 0,
            r@.well_formed(),
    {
        Session {
            job,
            algorithm,
            stage: Stage::Failed,
            manifest_text,
            output,
            builder: None,
            cert: Vec::new(),
            credential: None,
        }
    }

    /// Ends the run with `error`.
    fn fail(self, error: PipelineError) -> (r: (Session, Action))
        ensures
            fails_with(r.0@, r.1@, error@),
            r.0@.well_formed(),
    {
        let session = Session::halted(self.job, self.algorithm, self.manifest_text, self.output);
        (session, Action::Fail(error))
    }

    /// The path that the pending request is about.
    fn awaited_path(&self) -> (r: String)
        ensures
            r@ == self@.awaited_path(),
    {
        proof {
            use_type_invariant(self);
        }
        match self.stage {
            Stage::Manifest => self.job.manifest.clone(),
            Stage::Input => self.job.input.clone(),
            Stage::Output => self.job.output.clone(),
            Stage::OutputDir => self.output.clone(),
            Stage::Ingredient => match &self.builder {
                Some(builder) => {
                    let next = builder.records().len();
                    let declarations = builder.declarations();
                    assert(declarations@[next as int]@ == declaration_views(
                        declarations@,
                    )[next as int]);
                    ingredient_path(&declarations[next], self.job.base().as_str())
                },
                None => self.output.clone(),
            },
            Stage::Certificate => self.job.cert.clone(),
            Stage::Key => self.job.key.clone(),
            Stage::Asset => self.job.input.clone(),
            Stage::Written => self.output.clone(),
            Stage::Finished => self.output.clone(),
            Stage::Failed => self.output.clone(),
        }
    }

    /// Takes the text of the manifest configuration and asks whether the input is
    /// there.
    fn on_manifest(self, event: Event) -> (r: (Session, Action))
        requires
            self@.stage == Stage::Manifest,
            !(event is Failed),
        ensures
            transition(self@, event@, r.0@, r.1@),
            r.0@.well_formed(),
    {
        proof {
            use_type_invariant(&self);
        }
        match event {
            Event::Text(text) => {
                let path = self.job.input.clone();
                let session = Session {
                    job: self.job,
                    algorithm: self.algorithm,
                    stage: Stage::Input,
                    manifest_text: text,
                    output: self.output,
                    builder: None,
                    cert: self.cert,
                    credential: None,
                };
                (session, Action::Probe { path })
            },
            _ => self.fail(PipelineError::UnexpectedEvent),
        }
    }

    /// Takes what was found at the input path and asks what the output path is.
    fn on_input(self, event: Event) -> (r: (Session, Action))
        requires
            self@.stage == Stage::Input,
            !(event is Failed),
        ensures
            transition(self@, event@, r.0@, r.1@),
            r.0@.well_formed(),
    {
        proof {
            use_type_invariant(&self);
        }
        match event {
            Event::Probed { exists, is_dir } => {
                if exists {
                    let path = self.job.output.clone();
                    let session = Session {
                        job: self.job,
                        algorithm: self.algorithm,
                        stage: Stage::Output,
                        manifest_text: self.manifest_text,
                        output: self.output,
                        builder: None,
                        cert: self.cert,
                        credential: None,
                    };
                    (session, Action::Probe { path })
                } else {
                    let path = self.job.input.clone();
                    self.fail(PipelineError::InputNotFound { path })
                }
            },
            _ => self.fail(PipelineError::UnexpectedEvent),
        }
    }

    /// Takes what was found at the output path, determines where the signed
    /// asset goes, and asks for the directory of that place.
    fn on_output(self, event: Event) -> (r: (Session, Action))
        requires
            self@.stage == Stage::Output,
            !(event is Failed),
        ensures
            transition(self@, event@, r.0@, r.1@),
            r.0@.well_formed(),
    {
        proof {
            use_type_invariant(&self);
        }
        match event {
            Event::Probed { exists, is_dir } => {
                match determine_output_path(
                    self.job.input.as_str(),
                    self.job.output.as_str(),
                    is_dir,
                ) {
                    Err(error) => self.fail(error),
                    Ok(output) => {
                        let path = output.clone();
                        let session = Session {
                            job: self.job,
                            algorithm: self.algorithm,
                            stage: Stage::OutputDir,
                            manifest_text: self.manifest_text,
                            output,
                            builder: None,
                            cert: self.cert,
                            credential: None,
                        };
                        (session, Action::CreateParentDir { path })
                    },
                }
            },
            _ => self.fail(PipelineError::UnexpectedEvent),
        }
    }

    /// Parses the manifest configuration and asks for the first ingredient, or
    /// for the certificate chain where no ingredient is declared.
    fn on_output_dir(self, event: Event) -> (r: (Session, Action))
        requires
            self@.stage == Stage::OutputDir,
            !(event is Failed),
        ensures
            transition(self@, event@, r.0@, r.1@),
            r.0@.well_formed(),
    {
        proof {
            use_type_invariant(&self);
        }
        match event {
            Event::Done => {
                match ManifestBuilder::new(self.manifest_text.as_str()) {
                    Err(error) => self.fail(error),
                    Ok(builder) => {
                        assert(builder.ingredients() =~= Seq::empty());
                        Session::proceed(
                            self.job,
                            self.algorithm,
                            self.manifest_text,
                            self.output,
                            self.cert,
                            builder,
                        )
                    },
                }
            },
            _ => self.fail(PipelineError::UnexpectedEvent),
        }
    }

    /// Resolves the next ingredient from what was found at its path, and asks
    /// for the one after it, or for the certificate chain when it was the last.
    fn on_ingredient(self, event: Event) -> (r: (Session, Action))
        requires
            self@.stage == Stage::Ingredient,
            !(event is Failed),
        ensures
            transition(self@, event@, r.0@, r.1@),
            r.0@.well_formed(),
    {
        proof {
            use_type_invariant(&self);
        }
        match event {
            Event::Ingredient(source) => {
                let builder = match self.builder {
                    Some(builder) => builder,
                    None => {
                        return (
                            Session::halted(
                                self.job,
                                self.algorithm,
                                self.manifest_text,
                                self.output,
                            ),
                            Action::Fail(PipelineError::UnexpectedEvent),
                        );
                    },
                };
                let base = self.job.base();
                match builder.resolve_next(base.as_str(), &source) {
                    Err(error) => {
                        let session = Session::halted(
                            self.job,
                            self.algorithm,
                            self.manifest_text,
                            self.output,
                        );
                        (session, Action::Fail(error))
                    },
                    Ok(builder) => Session::proceed(
                        self.job,
                        self.algorithm,
                        self.manifest_text,
                        self.output,
                        self.cert,
                        builder,
                    ),
                }
            },
            _ => self.fail(PipelineError::UnexpectedEvent),
        }
    }

    /// Takes the bytes of the certificate chain and asks for the private key.
    fn on_certificate(self, event: Event) -> (r: (Session, Action))
        requires
            self@.stage == Stage::Certificate,
            !(event is Failed),
        ensures
            transition(self@, event@, r.0@, r.1@),
            r.0@.well_formed(),
    {
        proof {
            use_type_invariant(&self);
        }
        match event {
            Event::Bytes(bytes) => {
                let path = self.job.key.clone();
                let session = Session {
                    job: self.job,
                    algorithm: self.algorithm,
                    stage: Stage::Key,
                    manifest_text: self.manifest_text,
                    output: self.output,
                    builder: self.builder,
                    cert: bytes,
                    credential: None,
                };
                (session, Action::ReadBytes { path })
            },
            _ => self.fail(PipelineError::UnexpectedEvent),
        }
    }

    /// Makes a credential of the certificate chain and the private key, and asks
    /// for the asset to sign.
    fn on_key(self, event: Event) -> (r: (Session, Action))
        requires
            self@.stage == Stage::Key,
            !(event is Failed),
        ensures
            transition(self@, event@, r.0@, r.1@),
            r.0@.well_formed(),
    {
        proof {
            use_type_invariant(&self);
        }
        match event {
            Event::Bytes(bytes) => {
                match load_credential(self.cert, bytes, self.algorithm) {
                    Err(error) => {
                        let session = Session::halted(
                            self.job,
                            self.algorithm,
                            self.manifest_text,
                            self.output,
                        );
                        (session, Action::Fail(error))
                    },
                    Ok(credential) => {
                        let path = self.job.input.clone();
                        let session = Session {
                            job: self.job,
                            algorithm: self.algorithm,
                            stage: Stage::Asset,
                            manifest_text: self.manifest_text,
                            output: self.output,
                            builder: self.builder,
                            cert: Vec::new(),
                            credential: Some(credential),
                        };
                        (session, Action::ReadBytes { path })
                    },
                }
            },
            _ => self.fail(PipelineError::UnexpectedEvent),
        }
    }

    /// Signs the asset and asks for the signed asset to be written.
    fn on_asset(self, event: Event) -> (r: (Session, Action))
        requires
            self@.stage == Stage::Asset,
            !(event is Failed),
        ensures
            transition(self@, event@, r.0@, r.1@),
            r.0@.well_formed(),
    {
        proof {
            use_type_invariant(&self);
        }
        match event {
            Event::Bytes(asset) => {
                let format = match signing_format(self.job.input.as_str(), self.output.as_str()) {
                    Err(error) => {
                        return self.fail(error);
                    },
                    Ok(format) => format,
                };
                let signed = match (self.builder, self.credential) {
                    (Some(builder), Some(credential)) => builder.sign_and_embed(
                        credential,
                        format.as_str(),
                        asset.as_slice(),
                    ),
                    _ => Err(
                        PipelineError::Outside {
                            operation: Operation::SignAndEmbed,
                            detail: String::new(),
                        },
                    ),
                };
                Session::after_signing(
                    self.job,
                    self.algorithm,
                    self.manifest_text,
                    self.output,
                    self.cert,
                    signed,
                )
            },
            _ => self.fail(PipelineError::UnexpectedEvent),
        }
    }

    /// The step that follows signing, for what signing gave: the bytes of the
    /// signed asset are asked to be written to the output path, all of them and
    /// as they are; an error ends the run, and nothing is asked to be written.
    /// The rest is what the session held before it signed.
    pub fn after_signing(
        job: SigningJob,
        algorithm: SigningAlgorithm,
        manifest_text: String,
        output: String,
        cert: Vec<u8>,
        signed: Result<Vec<u8>, PipelineError>,
    ) -> (r: (Session, Action))
        ensures
            match signed {
                Ok(bytes) => r.0@ == (State {
                    job: job@,
                    algorithm,
                    stage: Stage::Written,
                    manifest_text: manifest_text@,
                    output: output@,
                    title: None,
                    labels: Seq::empty(),
                    declarations: Seq::empty(),
                    ingredients: Seq::empty(),
                    cert: cert@,
                    credential: None,
                }) && r.1@ == (Request::Write { path: output@, bytes: bytes@ }),
                Err(error) => fails_with(r.0@, r.1@, error@),
            },
            r.0@.well_formed(),
    {
        match signed {
            Err(error) => {
                let session = Session::halted(job, algorithm, manifest_text, output);
                (session, Action::Fail(error))
            },
            Ok(bytes) => {
                let path = output.clone();
                let session = Session {
                    job,
                    algorithm,
                    stage: Stage::Written,
                    manifest_text,
                    output,
                    builder: None,
                    cert,
                    credential: None,
                };
                (session, Action::Write { path, bytes })
            },
        }
    }

    /// Takes note that the signed asset is written and reports success.
    fn on_written(self, event: Event) -> (r: (Session, Action))
        requires
            self@.stage == Stage::Written,
            !(event is Failed),
        ensures
            transition(self@, event@, r.0@, r.1@),
            r.0@.well_formed(),
    {
        proof {
            use_type_invariant(&self);
        }
        match event {
            Event::Done => {
                let output = self.output.clone();
                let session = Session {
                    job: self.job,
                    algorithm: self.algorithm,
                    stage: Stage::Finished,
                    manifest_text: self.manifest_text,
                    output: self.output,
                    builder: None,
                    cert: self.cert,
                    credential: None,
                };
                (session, Action::Finish { output })
            },
            _ => self.fail(PipelineError::UnexpectedEvent),
        }
    }

    /// Takes the answer to the pending request and says what to do next. A
    /// session whose run is over answers every event with `Fail`.
    pub fn advance(self, event: Event) -> (r: (Session, Action))
        ensures
            transition(self@, event@, r.0@, r.1@),
            r.0@.well_formed(),
    {
        proof {
            use_type_invariant(&self);
        }
        if self.is_over() {
            return (self, Action::Fail(PipelineError::UnexpectedEvent));
        }
        match event {
            Event::Failed { detail } => {
                let path = self.awaited_path();
                let operation = self.awaited_operation();
                self.fail(PipelineError::Io { operation, path, detail })
            },
            other => match self.stage {
                Stage::Manifest => self.on_manifest(other),
                Stage::Input => self.on_input(other),
                Stage::Output => self.on_output(other),
                Stage::OutputDir => self.on_output_dir(other),
                Stage::Ingredient => self.on_ingredient(other),
                Stage::Certificate => self.on_certificate(other),
                Stage::Key => self.on_key(other),
                Stage::Asset => self.on_asset(other),
                Stage::Written => self.on_written(other),
                Stage::Finished => self.fail(PipelineError::UnexpectedEvent),
                Stage::Failed => self.fail(PipelineError::UnexpectedEvent),
            },
        }
    }

    /// What the pending request serves.
    fn awaited_operation(&self) -> (r: Operation)
        ensures
            r == self@.awaited_operation(),
    {
        match self.stage {
            Stage::Manifest => Operation::ReadManifest,
            Stage::Input => Operation::Probe,
            Stage::Output => Operation::Probe,
            Stage::OutputDir => Operation::CreateOutputDir,
            Stage::Ingredient => Operation::LoadIngredient,
            Stage::Certificate => Operation::CreateSigner,
            Stage::Key => Operation::CreateSigner,
            Stage::Asset => Operation::SignAndEmbed,
            Stage::Written => Operation::SignAndEmbed,
            Stage::Finished => Operation::SignAndEmbed,
            Stage::Failed => Operation::SignAndEmbed,
        }
    }

    /// Asks for the next ingredient while one is left, then for the certificate
    /// chain.
    fn proceed(
        job: SigningJob,
        algorithm: SigningAlgorithm,
        manifest_text: String,
        output: String,
        cert: Vec<u8>,
        builder: ManifestBuilder,
    ) -> (r: (Session, Action))
        requires
            builder.resolved() == builder.ingredients().len(),
        ensures
            (r.0@, r.1@) == (State {
                job: job@,
                algorithm,
                stage: Stage::Certificate,
                manifest_text: manifest_text@,
                output: output@,
                title: builder.spec().title,
                labels: builder.spec().labels,
                declarations: builder.spec().declarations,
                ingredients: builder.ingredients(),
                cert: cert@,
                credential: None,
            }).after_ingredients(),
            r.0@.well_formed(),
    {
        let next = builder.resolved_count();
        let declarations = builder.declarations();
        if next < declarations.len() {
            assert(declarations@[next as int]@ == declaration_views(declarations@)[next as int]);
            let path = ingredient_path(&declarations[next], job.base().as_str());
            let session = Session {
                job,
                algorithm,
                stage: Stage::Ingredient,
                manifest_text,
                output,
                builder: Some(builder),
                cert,
                credential: None,
            };
            (session, Action::ReadIngredient { path })
        } else {
            let path = job.cert.clone();
            let session = Session {
                job,
                algorithm,
                stage: Stage::Certificate,
                manifest_text,
                output,
                builder: Some(builder),
                cert,
                credential: None,
            };
            (session, Action::ReadBytes { path })
        }
    }
}

/// A job that names no recognised algorithm is rejected by the first step, with
/// the name as it was given: the caller is never asked to read or probe anything.
/// A job that names one is asked for its manifest configuration first.
pub proof fn lemma_algorithm_gate(job: Job)
    ensures
        algorithm_named(ascii_lower(job.algorithm)) is None ==> first_step(job) == (
            Stage::Failed,
            Request::Fail(Failure::UnsupportedAlgorithm { name: job.algorithm }),
        ),
        algorithm_named(ascii_lower(job.algorithm)) is Some ==> first_step(job) == (
            Stage::Manifest,
            Request::ReadText { path: job.manifest },
        ),
{
}

/// A session whose run is over stays where it is and asks for nothing but to
/// report an error.
pub proof fn lemma_over_is_final(before: State, answer: Answer, after: State, request: Request)
    requires
        before.is_over(),
        transition(before, answer, after, request),
    ensures
        after.stage == before.stage,
        request is Fail,
{
}

/// An ingredient file that is not there ends the run with `IngredientNotFound`
/// for the path at which it was looked for.
pub proof fn lemma_missing_ingredient_ends_run(before: State, after: State, request: Request)
    requires
        before.stage == Stage::Ingredient,
        transition(before, Answer::Ingredient(None), after, request),
    ensures
        after.stage == Stage::Failed,
        request == Request::Fail(
            Failure::IngredientNotFound { path: before.next_ingredient_path() },
        ),
{
}

/// An ingredient whose declared relationship is invalid ends the run, whatever
/// is found at its path and whatever the `c2pa` crate makes of it.
pub proof fn lemma_invalid_relationship_ends_run(
    before: State,
    found: Option<Seq<u8>>,
    after: State,
    request: Request,
)
    requires
        before.stage == Stage::Ingredient,
        declared_relationship(before.declarations[before.ingredients.len() as int]) is Err,
        transition(before, Answer::Ingredient(found), after, request),
    ensures
        after.stage == Stage::Failed,
        request is Fail,
{
}

/// Only the step that signs asks for anything to be written. It asks for the
/// output path to be written, with bytes that hold a manifest store which the
/// asset that came in did not hold: the asset itself is never written out as
/// the signed one.
pub proof fn lemma_write_follows_signing(
    before: State,
    answer: Answer,
    after: State,
    request: Request,
)
    requires
        transition(before, answer, after, request),
        request is Write,
    ensures
        before.stage == Stage::Asset,
        answer is Bytes,
        after.stage == Stage::Written,
        request->Write_path == before.output,
        newly_embedded(
            asset_format_of(before.job.input)->0,
            answer->Bytes_0,
            request->Write_bytes,
        ),
        request->Write_bytes != answer->Bytes_0,
{
    if before.stage == Stage::OutputDir && answer is Done {
        assert(manifest_step(before, after, request));
    }
    if before.stage == Stage::Ingredient && answer is Ingredient {
        assert(ingredient_step(before, answer->Ingredient_0, after, request));
    }
}

/// Success is reported only once the signed asset is on disk: the step that
/// reports it answers the caller's word that the output is written.
pub proof fn lemma_finish_follows_write(
    before: State,
    answer: Answer,
    after: State,
    request: Request,
)
    requires
        transition(before, answer, after, request),
        request is Finish,
    ensures
        before.stage == Stage::Written,
        answer is Done,
        after.stage == Stage::Finished,
        request->Finish_output == before.output,
{
    if before.stage == Stage::OutputDir && answer is Done {
        assert(manifest_step(before, after, request));
    }
    if before.stage == Stage::Ingredient && answer is Ingredient {
        assert(ingredient_step(before, answer->Ingredient_0, after, request));
    }
}

/// Whether a stage lies behind the signing of the asset.
pub open spec fn is_past_signing(stage: Stage) -> bool {
    stage == Stage::Written || stage == Stage::Finished || stage == Stage::Failed
}

/// A session that is past signing does not come back before it.
pub proof fn lemma_past_signing_stays(before: State, answer: Answer, after: State, request: Request)
    requires
        is_past_signing(before.stage),
        transition(before, answer, after, request),
    ensures
        is_past_signing(after.stage),
        !(request is Write),
{
}

/// Whether `states`, `answers` and `requests` are the course of a run: each
/// state but the last takes the step to the next on the answer of its place and
/// asks for the request of its place.
pub open spec fn is_run(states: Seq<State>, answers: Seq<Answer>, requests: Seq<Request>) -> bool {
    &&& states.len() == answers.len() + 1
    &&& requests.len() == answers.len()
    &&& forall|i: int|
        0 <= i < answers.len() ==> transition(
            states[i],
            #[trigger] answers[i],
            states[i + 1],
            requests[i],
        )
}

/// In a run, every state from one that is past signing on is past signing.
pub proof fn lemma_run_stays_past_signing(
    states: Seq<State>,
    answers: Seq<Answer>,
    requests: Seq<Request>,
    from: int,
    to: int,
)
    requires
        is_run(states, answers, requests),
        0 <= from <= to < states.len(),
        is_past_signing(states[from].stage),
    ensures
        is_past_signing(states[to].stage),
    decreases to - from,
{
    if from < to {
        lemma_run_stays_past_signing(states, answers, requests, from, to - 1);
        let _ = answers[to - 1];
        lemma_past_signing_stays(states[to - 1], answers[to - 1], states[to], requests[to - 1]);
    }
}

/// A run in which the file of an ingredient is found missing asks for nothing to
/// be written, neither before nor after, and answers the missing file with
/// `IngredientNotFound`.
pub proof fn lemma_missing_ingredient_leaves_no_output(
    states: Seq<State>,
    answers: Seq<Answer>,
    requests: Seq<Request>,
    at: int,
)
    requires
        is_run(states, answers, requests),
        0 <= at < answers.len(),
        states[at].stage == Stage::Ingredient,
        answers[at] == Answer::Ingredient(None),
    ensures
        requests[at] == Request::Fail(
            Failure::IngredientNotFound { path: states[at].next_ingredient_path() },
        ),
        forall|j: int| 0 <= j < requests.len() ==> !(#[trigger] requests[j] is Write),
{
    lemma_missing_ingredient_ends_run(states[at], states[at + 1], requests[at]);
    assert forall|j: int| 0 <= j < requests.len() implies !(#[trigger] requests[j] is Write) by {
        let _ = answers[j];
        if requests[j] is Write {
            lemma_write_follows_signing(states[j], answers[j], states[j + 1], requests[j]);
            if j < at {
                lemma_run_stays_past_signing(states, answers, requests, j + 1, at);
            } else if j > at {
                lemma_run_stays_past_signing(states, answers, requests, at + 1, j);
            }
        }
    }
}

/// A run that starts with a job whose algorithm is not recognised asks for
/// nothing but to report errors: nothing is read, probed or written.
pub proof fn lemma_rejected_job_reads_nothing(
    job: Job,
    states: Seq<State>,
    answers: Seq<Answer>,
    requests: Seq<Request>,
)
    requires
        algorithm_named(ascii_lower(job.algorithm)) is None,
        is_run(states, answers, requests),
        states[0].stage == first_step(job).0,
    ensures
        first_step(job).1 is Fail,
        forall|j: int| 0 <= j < requests.len() ==> #[trigger] requests[j] is Fail,
{
    assert forall|j: int| 0 <= j < requests.len() implies #[trigger] requests[j] is Fail by {
        lemma_run_stays_failed(states, answers, requests, j);
        let _ = answers[j];
        lemma_over_is_final(states[j], answers[j], states[j + 1], requests[j]);
    }
}

/// In a run that starts in failure, every state is one of failure.
pub proof fn lemma_run_stays_failed(
    states: Seq<State>,
    answers: Seq<Answer>,
    requests: Seq<Request>,
    to: int,
)
    requires
        is_run(states, answers, requests),
        0 <= to < states.len(),
        states[0].stage == Stage::Failed,
    ensures
        states[to].stage == Stage::Failed,
    decreases to,
{
    if 0 < to {
        lemma_run_stays_failed(states, answers, requests, to - 1);
        let _ = answers[to - 1];
        lemma_over_is_final(states[to - 1], answers[to - 1], states[to], requests[to - 1]);
    }
}

} // verus!
