//! Resolving an ingredient declaration against the file it names.

use crate::codec::{
    error_text, format_of_ingredient, ingredient_format, ingredient_from_memory,
    ingredient_relationship, ingredient_title, set_ingredient_relationship, set_ingredient_title,
};
use crate::text::same_text;
use crate::error::{Failure, Operation, PipelineError};
use crate::manifest::{text_view, Declaration, IngredientDeclaration};
use crate::media::{extension_to_mime, media_type_of};
use crate::paths::{extension, path_extension, resolve_path, resolved_path};
use crate::relationship::{parse_relationship, parsed_relationship, Relationship};
use crate::text::ascii_lower;
use vstd::prelude::*;

verus! {

/// What the caller found at the resolved path of an ingredient.
#[derive(Debug, PartialEq, Eq)]
pub enum IngredientSource {
    /// Nothing is there.
    Missing,
    /// A file with these bytes.
    Found(Vec<u8>),
}

/// The library's record of a loaded ingredient.
#[derive(Debug, PartialEq, Eq)]
pub struct IngredientSummary {
    /// The path at which the file was found.
    pub path: String,
    /// The declared title, if any.
    pub title: Option<String>,
    /// The media type, told from the extension of the path.
    pub format: String,
    /// The declared relationship, if any.
    pub relationship: Option<Relationship>,
}

/// What an [`IngredientSummary`] says, with texts as sequences of characters.
pub struct IngredientRecord {
    pub path: Seq<char>,
    pub title: Option<Seq<char>>,
    pub format: Seq<char>,
    pub relationship: Option<Relationship>,
}

impl View for IngredientSummary {
    type V = IngredientRecord;

    open spec fn view(&self) -> IngredientRecord {
        IngredientRecord {
            path: self.path@,
            title: text_view(self.title),
            format: self.format@,
            relationship: self.relationship,
        }
    }
}

/// The views of the summaries in `summaries`.
pub open spec fn summary_views(summaries: Seq<IngredientSummary>) -> Seq<IngredientRecord> {
    Seq::new(summaries.len(), |i: int| summaries[i]@)
}

/// An ingredient that has been loaded: the library's record of it, and the
/// ingredient of the `c2pa` crate that goes into the manifest.
pub struct ResolvedIngredient {
    summary: IngredientSummary,
    inner: c2pa::Ingredient,
}

impl View for ResolvedIngredient {
    type V = IngredientRecord;

    closed spec fn view(&self) -> IngredientRecord {
        self.summary@
    }
}

/// Whether a title, a media type and a relationship that an ingredient holds are
/// what `record` says: the media type of the record, and the title and the
/// relationship of the record where it declares them.
pub open spec fn holds_declared(
    record: IngredientRecord,
    title: Option<Seq<char>>,
    format: Option<Seq<char>>,
    relationship: Option<Relationship>,
) -> bool {
    &&& format == Some(record.format)
    &&& record.title is Some ==> title == record.title
    &&& record.relationship is Some ==> relationship == record.relationship
}

impl ResolvedIngredient {
    #[verifier::type_invariant]
    spec fn applied(self) -> bool {
        holds_declared(
            self.summary@,
            ingredient_title(self.inner),
            ingredient_format(self.inner),
            ingredient_relationship(self.inner),
        )
    }

    /// The title that the ingredient of the `c2pa` crate holds.
    pub closed spec fn held_title(&self) -> Option<Seq<char>> {
        ingredient_title(self.inner)
    }

    /// The media type that the ingredient of the `c2pa` crate holds.
    pub closed spec fn held_format(&self) -> Option<Seq<char>> {
        ingredient_format(self.inner)
    }

    /// The relationship that the ingredient of the `c2pa` crate holds.
    pub closed spec fn held_relationship(&self) -> Option<Relationship> {
        ingredient_relationship(self.inner)
    }

    /// Whether the ingredient of the `c2pa` crate holds what the record says.
    pub open spec fn holds_record(&self) -> bool {
        holds_declared(self@, self.held_title(), self.held_format(), self.held_relationship())
    }

    /// The library's record of the ingredient. What it declares is what the
    /// ingredient of the `c2pa` crate holds.
    pub fn summary(&self) -> (r: &IngredientSummary)
        ensures
            r@ == self@,
            self.holds_record(),
    {
        proof {
            use_type_invariant(self);
        }
        &self.summary
    }

    /// Parts the record from the ingredient of the `c2pa` crate.
    pub(crate) fn into_parts(self) -> (r: (IngredientSummary, c2pa::Ingredient))
        ensures
            r.0@ == self@,
            ingredient_title(r.1) == self.held_title(),
            ingredient_format(r.1) == self.held_format(),
            ingredient_relationship(r.1) == self.held_relationship(),
            self.holds_record(),
    {
        proof {
            use_type_invariant(&self);
        }
        (self.summary, self.inner)
    }
}

/// The media type of the file at `path`, or why the file cannot be loaded: it is
/// not there, its path has no extension, or the extension is none of the table.
pub open spec fn media_type_at(path: Seq<char>, found: bool) -> Result<Seq<char>, Failure> {
    if !found {
        Err(Failure::IngredientNotFound { path })
    } else {
        match path_extension(path) {
            None => Err(Failure::NoExtension { path }),
            Some(ext) => match media_type_of(ascii_lower(ext)) {
                None => Err(Failure::UnknownFormat { path }),
                Some(media_type) => Ok(media_type),
            },
        }
    }
}

/// The relationship that `declaration` asks for, if it asks for one.
pub open spec fn declared_relationship(declaration: Declaration) -> Result<
    Option<Relationship>,
    Failure,
> {
    match declaration.relationship {
        None => Ok(None),
        Some(value) => match parsed_relationship(value) {
            Ok(relationship) => Ok(Some(relationship)),
            Err(failure) => Err(failure),
        },
    }
}

/// The record of the ingredient that `declaration` gives once its file, of the
/// media type `format`, has been loaded from `path`.
pub open spec fn record_of(declaration: Declaration, path: Seq<char>, format: Seq<char>) -> Result<
    IngredientRecord,
    Failure,
> {
    match declared_relationship(declaration) {
        Err(failure) => Err(failure),
        Ok(relationship) => Ok(
            IngredientRecord { path, title: declaration.title, format, relationship },
        ),
    }
}

/// What resolving `declaration` against `base` gives where the `c2pa` crate
/// loads the file: the record of the ingredient, or the error of the missing
/// file, of the unknown format or of the invalid relationship.
pub open spec fn resolution_of(declaration: Declaration, base: Seq<char>, found: bool) -> Result<
    IngredientRecord,
    Failure,
> {
    let path = resolved_path(base, declaration.file_path);
    match media_type_at(path, found) {
        Err(failure) => Err(failure),
        Ok(format) => record_of(declaration, path, format),
    }
}

/// Whether the error of a resolution is one of the `c2pa` crate, from loading
/// the file of an ingredient.
pub open spec fn is_load_failure(failure: Failure) -> bool {
    failure matches Failure::Outside { operation, .. } && operation == Operation::LoadIngredient
}

/// Whether the `c2pa` crate is asked to load the file of `declaration`: the
/// file is there and its format is known.
pub open spec fn reaches_loading(declaration: Declaration, base: Seq<char>, found: bool) -> bool {
    media_type_at(resolved_path(base, declaration.file_path), found) is Ok
}

/// The path at which the file of `declaration` is looked for.
pub fn ingredient_path(declaration: &IngredientDeclaration, base: &str) -> (r: String)
    ensures
        r@ == resolved_path(base@, declaration@.file_path),
{
    resolve_path(base, declaration.file_path.as_str())
}

/// Decides the media type of an ingredient file before it is loaded.
pub fn media_type_for(path: &str, found: bool) -> (r: Result<&'static str, PipelineError>)
    ensures
        match media_type_at(path@, found) {
            Ok(media_type) => r is Ok && r->Ok_0@ == media_type,
            Err(failure) => r is Err && r->Err_0@ == failure,
        },
{
    if !found {
        return Err(PipelineError::IngredientNotFound { path: path.to_owned() });
    }
    match extension(path) {
        None => Err(PipelineError::NoExtension { path: path.to_owned() }),
        Some(ext) => match extension_to_mime(ext.as_str()) {
            None => Err(PipelineError::UnknownFormat { path: path.to_owned() }),
            Some(media_type) => Ok(media_type),
        },
    }
}

/// Completes an ingredient once the `c2pa` crate has answered: its error stops
/// the resolution, and so does an ingredient of another media type than the one
/// it was loaded as; on its ingredient the declared title is set, then the
/// declared relationship is read and set, and an invalid one stops the
/// resolution.
pub fn finish_ingredient(
    declaration: &IngredientDeclaration,
    path: String,
    format: &str,
    loaded: Result<c2pa::Ingredient, c2pa::Error>,
) -> (r: Result<ResolvedIngredient, PipelineError>)
    ensures
        match loaded {
            Err(_) => r is Err && r->Err_0@ is Outside && r->Err_0@->Outside_operation
                == Operation::LoadIngredient,
            Ok(ingredient) => if ingredient_format(ingredient) != Some(format@) {
                r is Err && r->Err_0@ is Outside && r->Err_0@->Outside_operation
                    == Operation::LoadIngredient
            } else {
                match record_of(declaration@, path@, format@) {
                    Ok(record) => r is Ok && r->Ok_0@ == record && r->Ok_0.holds_record(),
                    Err(failure) => r is Err && r->Err_0@ == failure,
                }
            },
        },
{
    let mut inner = match loaded {
        Err(error) => {
            return Err(
                PipelineError::Outside {
                    operation: Operation::LoadIngredient,
                    detail: error_text(&error),
                },
            );
        },
        Ok(inner) => inner,
    };
    let loaded_as = match format_of_ingredient(&inner) {
        Some(held) => same_text(held.as_str(), format),
        None => false,
    };
    if !loaded_as {
        return Err(
            PipelineError::Outside {
                operation: Operation::LoadIngredient,
                detail: "the ingredient is of another media type".to_owned(),
            },
        );
    }
    let title = match &declaration.title {
        Some(title) => {
            set_ingredient_title(&mut inner, title.as_str());
            Some(title.clone())
        },
        None => None,
    };
    let relationship = match &declaration.relationship {
        Some(value) => match parse_relationship(value.as_str()) {
            Err(error) => {
                return Err(error);
            },
            Ok(relationship) => {
                set_ingredient_relationship(&mut inner, relationship);
                Some(relationship)
            },
        },
        None => None,
    };
    let summary = IngredientSummary { path, title, format: format.to_owned(), relationship };
    Ok(ResolvedIngredient { summary, inner })
}

/// Resolves one ingredient declaration: the path is resolved against `base`, the
/// format is told from its extension, the file is loaded from the bytes that the
/// caller found there, and the declared title and relationship are applied. The
/// outcome is that of [`resolution_of`], unless the `c2pa` crate fails to load a
/// file that it is asked to load.
pub fn resolve_ingredient(
    declaration: &IngredientDeclaration,
    base: &str,
    source: &IngredientSource,
) -> (r: Result<ResolvedIngredient, PipelineError>)
    ensures
        match r {
            Ok(ingredient) => resolution_of(declaration@, base@, source is Found) == Ok::<
                IngredientRecord,
                Failure,
            >(ingredient@) && ingredient.holds_record(),
            Err(error) => resolution_of(declaration@, base@, source is Found) == Err::<
                IngredientRecord,
                Failure,
            >(error@) || (is_load_failure(error@) && reaches_loading(
                declaration@,
                base@,
                source is Found,
            )),
        },
        resolution_of(declaration@, base@, source is Found) is Err ==> r is Err,
{
    let path = ingredient_path(declaration, base);
    match source {
        IngredientSource::Missing => match media_type_for(path.as_str(), false) {
            Err(error) => Err(error),
            Ok(_) => Err(PipelineError::IngredientNotFound { path }),
        },
        IngredientSource::Found(bytes) => match media_type_for(path.as_str(), true) {
            Err(error) => Err(error),
            Ok(format) => {
                let loaded = ingredient_from_memory(format, bytes.as_slice());
                finish_ingredient(declaration, path, format, loaded)
            },
        },
    }
}

/// A declaration whose file is missing resolves to `IngredientNotFound` with the
/// path at which the file was looked for, whatever else it declares.
pub proof fn lemma_missing_file_is_not_found(declaration: Declaration, base: Seq<char>)
    ensures
        resolution_of(declaration, base, false) == Err::<IngredientRecord, Failure>(
            Failure::IngredientNotFound { path: resolved_path(base, declaration.file_path) },
        ),
        !reaches_loading(declaration, base, false),
{
}

/// A declaration with an invalid relationship does not resolve: where its file
/// is there and of a known format, it resolves to `InvalidRelationship` with the
/// relationship as it was written.
pub proof fn lemma_invalid_relationship_does_not_resolve(
    declaration: Declaration,
    base: Seq<char>,
    found: bool,
)
    requires
        declaration.relationship matches Some(value) && parsed_relationship(value) is Err,
    ensures
        resolution_of(declaration, base, found) is Err,
        reaches_loading(declaration, base, found) ==> resolution_of(declaration, base, found)
            == Err::<IngredientRecord, Failure>(
            Failure::InvalidRelationship { value: declaration.relationship->0 },
        ),
{
}

} // verus!
