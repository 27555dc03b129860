//! The manifest configuration: what the caller asks the manifest to hold.
//!
//! The configuration is a JSON object. The library reads three of its members:
//! `title`, `assertions` and `ingredients_from_files`. Every other member is left
//! to the `c2pa` crate or ignored.

use crate::error::{Failure, PipelineError};
use crate::json::{json_document, json_error_text, parse_json, Json};
use vstd::prelude::*;

verus! {

/// One entry of `ingredients_from_files`: a file to load as an ingredient.
#[derive(Debug, PartialEq, Eq)]
pub struct IngredientDeclaration {
    /// The path of the file, absolute or relative to the base directory.
    pub file_path: String,
    /// The title to give the ingredient, if any.
    pub title: Option<String>,
    /// The relationship to give the ingredient, as it was written, if any.
    pub relationship: Option<String>,
}

/// What an [`IngredientDeclaration`] says, with texts as sequences of characters.
pub struct Declaration {
    pub file_path: Seq<char>,
    pub title: Option<Seq<char>>,
    pub relationship: Option<Seq<char>>,
}

/// The characters of an optional text.
pub open spec fn text_view(text: Option<String>) -> Option<Seq<char>> {
    match text {
        Some(t) => Some(t@),
        None => None,
    }
}

impl View for IngredientDeclaration {
    type V = Declaration;

    open spec fn view(&self) -> Declaration {
        Declaration {
            file_path: self.file_path@,
            title: text_view(self.title),
            relationship: text_view(self.relationship),
        }
    }
}

/// What a manifest configuration asks for.
#[derive(Debug, PartialEq, Eq)]
pub struct ManifestSpec {
    /// The JSON text of the configuration, as it is handed to the `c2pa` crate.
    pub text: String,
    /// The title of the manifest, if the configuration gives one.
    pub title: Option<String>,
    /// The labels of the assertions, in the order of the configuration.
    pub labels: Vec<String>,
    /// The ingredients to load from files, in the order of the configuration.
    pub declarations: Vec<IngredientDeclaration>,
}

/// What a [`ManifestSpec`] says, with texts as sequences of characters.
pub struct SpecModel {
    pub text: Seq<char>,
    pub title: Option<Seq<char>>,
    pub labels: Seq<Seq<char>>,
    pub declarations: Seq<Declaration>,
}

/// The characters of each text of `texts`.
pub open spec fn text_views(texts: Seq<String>) -> Seq<Seq<char>> {
    Seq::new(texts.len(), |i: int| texts[i]@)
}

/// The views of the declarations in `declarations`.
pub open spec fn declaration_views(declarations: Seq<IngredientDeclaration>) -> Seq<Declaration> {
    Seq::new(declarations.len(), |i: int| declarations[i]@)
}

impl View for ManifestSpec {
    type V = SpecModel;

    open spec fn view(&self) -> SpecModel {
        SpecModel {
            text: self.text@,
            title: text_view(self.title),
            labels: text_views(self.labels@),
            declarations: declaration_views(self.declarations@),
        }
    }
}

/// The declaration that the JSON value `item` holds: it needs a text named
/// `file_path`; `title` and `relationship` count where they are texts.
pub open spec fn declaration_of(item: Json) -> Option<Declaration> {
    match item.text_member_of("file_path"@) {
        Some(file_path) => Some(
            Declaration {
                file_path,
                title: item.text_member_of("title"@),
                relationship: item.text_member_of("relationship"@),
            },
        ),
        None => None,
    }
}

/// The ingredient declarations of the configuration `document`: the entries of
/// the array `ingredients_from_files`, in order. A configuration without such an
/// array declares none. An entry without a file path makes the configuration
/// invalid.
pub open spec fn declared_ingredients(document: Json) -> Result<Seq<Declaration>, Failure> {
    match document.items_member_of("ingredients_from_files"@) {
        None => Ok(Seq::empty()),
        Some(items) => if forall|i: int|
            0 <= i < items.len() ==> (#[trigger] declaration_of(items[i])) is Some {
            Ok(Seq::new(items.len(), |i: int| declaration_of(items[i])->0))
        } else {
            Err(Failure::InvalidManifestSpec { field: "ingredients_from_files.file_path"@ })
        },
    }
}

/// The assertion labels of the configuration `document`: the texts named `label`
/// of the entries of the array `assertions`, in order. A configuration without
/// such an array has none. An entry without a label makes the configuration
/// invalid.
pub open spec fn declared_labels(document: Json) -> Result<Seq<Seq<char>>, Failure> {
    match document.items_member_of("assertions"@) {
        None => Ok(Seq::empty()),
        Some(items) => if forall|i: int|
            0 <= i < items.len() ==> (#[trigger] items[i].text_member_of("label"@)) is Some {
            Ok(Seq::new(items.len(), |i: int| items[i].text_member_of("label"@)->0))
        } else {
            Err(Failure::InvalidManifestSpec { field: "assertions.label"@ })
        },
    }
}

/// What the configuration with the JSON text `text` and the document `document`
/// asks for. The document has to be an object; its assertions are looked at
/// before its ingredient declarations.
pub open spec fn spec_of(text: Seq<char>, document: Json) -> Result<SpecModel, Failure> {
    if !(document is Object) {
        Err(Failure::InvalidManifestSpec { field: "manifest"@ })
    } else {
        match declared_labels(document) {
            Err(failure) => Err(failure),
            Ok(labels) => match declared_ingredients(document) {
                Err(failure) => Err(failure),
                Ok(declarations) => Ok(
                    SpecModel {
                        text,
                        title: document.text_member_of("title"@),
                        labels,
                        declarations,
                    },
                ),
            },
        }
    }
}

/// An owned copy of an optional text.
fn owned(text: Option<&str>) -> (r: Option<String>)
    ensures
        text_view(r) == match text {
            Some(t) => Some(t@),
            None => None,
        },
{
    match text {
        Some(t) => Some(t.to_owned()),
        None => None,
    }
}

/// Reads the ingredient declarations of a configuration.
pub fn ingredient_declarations(document: &Json) -> (r: Result<
    Vec<IngredientDeclaration>,
    PipelineError,
>)
    ensures
        match declared_ingredients(*document) {
            Ok(declarations) => r is Ok && declaration_views(r->Ok_0@) == declarations,
            Err(failure) => r is Err && r->Err_0@ == failure,
        },
{
    let mut declarations: Vec<IngredientDeclaration> = Vec::new();
    match document.items_member("ingredients_from_files") {
        None => {
            assert(declaration_views(declarations@) =~= Seq::empty());
            Ok(declarations)
        },
        Some(items) => {
            let mut i: usize = 0;
            while i < items.len()
                invariant
                    i <= items.len(),
                    declarations@.len() == i,
                    document.items_member_of("ingredients_from_files"@) == Some(items@),
                    forall|j: int| 0 <= j < i ==> (#[trigger] declaration_of(items@[j])) is Some,
                    forall|j: int|
                        0 <= j < i ==> (#[trigger] declarations@[j])@ == declaration_of(
                            items@[j],
                        )->0,
                decreases items.len() - i,
            {
                let item = &items[i];
                match item.text_member("file_path") {
                    None => {
                        assert(declaration_of(items@[i as int]) is None);
                        return Err(
                            PipelineError::InvalidManifestSpec {
                                field: "ingredients_from_files.file_path".to_owned(),
                            },
                        );
                    },
                    Some(file_path) => {
                        let declaration = IngredientDeclaration {
                            file_path: file_path.to_owned(),
                            title: owned(item.text_member("title")),
                            relationship: owned(item.text_member("relationship")),
                        };
                        declarations.push(declaration);
                    },
                }
                i = i + 1;
            }
            assert(declaration_views(declarations@) =~= Seq::new(
                items@.len(),
                |i: int| declaration_of(items@[i])->0,
            ));
            Ok(declarations)
        },
    }
}

/// Reads the assertion labels of a configuration.
pub fn assertion_labels(document: &Json) -> (r: Result<Vec<String>, PipelineError>)
    ensures
        match declared_labels(*document) {
            Ok(labels) => r is Ok && text_views(r->Ok_0@) == labels,
            Err(failure) => r is Err && r->Err_0@ == failure,
        },
{
    let mut labels: Vec<String> = Vec::new();
    match document.items_member("assertions") {
        None => {
            assert(text_views(labels@) =~= Seq::empty());
            Ok(labels)
        },
        Some(items) => {
            let mut i: usize = 0;
            while i < items.len()
                invariant
                    i <= items.len(),
                    labels@.len() == i,
                    document.items_member_of("assertions"@) == Some(items@),
                    forall|j: int|
                        0 <= j < i ==> (#[trigger] items@[j].text_member_of("label"@)) is Some,
                    forall|j: int|
                        0 <= j < i ==> (#[trigger] labels@[j])@ == items@[j].text_member_of(
                            "label"@,
                        )->0,
                decreases items.len() - i,
            {
                match items[i].text_member("label") {
                    None => {
                        assert(items@[i as int].text_member_of("label"@) is None);
                        return Err(
                            PipelineError::InvalidManifestSpec {
                                field: "assertions.label".to_owned(),
                            },
                        );
                    },
                    Some(label) => {
                        labels.push(label.to_owned());
                    },
                }
                i = i + 1;
            }
            assert(text_views(labels@) =~= Seq::new(
                items@.len(),
                |i: int| items@[i].text_member_of("label"@)->0,
            ));
            Ok(labels)
        },
    }
}

impl ManifestSpec {
    /// Reads what the configuration `document`, parsed from `text`, asks for.
    pub fn from_document(text: &str, document: &Json) -> (r: Result<ManifestSpec, PipelineError>)
        ensures
            match spec_of(text@, *document) {
                Ok(model) => r is Ok && r->Ok_0@ == model,
                Err(failure) => r is Err && r->Err_0@ == failure,
            },
    {
        match document {
            Json::Object(_) => {},
            _ => {
                return Err(PipelineError::InvalidManifestSpec { field: "manifest".to_owned() });
            },
        }
        let labels = match assertion_labels(document) {
            Ok(labels) => labels,
            Err(error) => {
                return Err(error);
            },
        };
        let declarations = match ingredient_declarations(document) {
            Ok(declarations) => declarations,
            Err(error) => {
                return Err(error);
            },
        };
        Ok(
            ManifestSpec {
                text: text.to_owned(),
                title: owned(document.text_member("title")),
                labels,
                declarations,
            },
        )
    }

    /// Parses the JSON text of a configuration and reads what it asks for. A text
    /// that is no JSON is an invalid configuration, whose `field` holds the
    /// parser's message.
    pub fn parse(text: &str) -> (r: Result<ManifestSpec, PipelineError>)
        ensures
            match json_document(text@) {
                None => r is Err && r->Err_0@ is InvalidManifestSpec,
                Some(document) => match spec_of(text@, document) {
                    Ok(model) => r is Ok && r->Ok_0@ == model,
                    Err(failure) => r is Err && r->Err_0@ == failure,
                },
            },
    {
        match parse_json(text) {
            Err(error) => Err(PipelineError::InvalidManifestSpec { field: json_error_text(&error) }),
            Ok(document) => ManifestSpec::from_document(text, &document),
        }
    }
}

} // verus!
