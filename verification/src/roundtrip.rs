//! Holding a manifest that was read back against what was asked for.
//!
//! A manifest carries a configuration when it has the title of the
//! configuration, the assertion labels of the configuration in the same order,
//! and the same set of ingredients as were added.
//!
//! The `c2pa` crate writes some labels otherwise than they were given: the label
//! of the actions gets a version, and a label that occurs twice gets a counter
//! from its second occurrence on. A manifest made of such a configuration is read
//! back with other labels and does not carry the configuration in this sense.

use crate::ingredient::{summary_views, IngredientRecord, IngredientSummary};
use crate::json::Json;
use crate::manifest::{text_views, ManifestSpec, SpecModel};
use crate::store::{assertions_of, label_of, Manifest};
use crate::text::same_text;
use vstd::prelude::*;

verus! {

/// The ingredients of a manifest.
pub open spec fn ingredients_of(manifest: Json) -> Seq<Json> {
    match manifest.items_member_of("ingredients"@) {
        Some(items) => items,
        None => Seq::empty(),
    }
}

/// Whether the manifest has the title that was asked for: the same text, or none
/// where none was asked for.
pub open spec fn same_title(manifest: Json, title: Option<Seq<char>>) -> bool {
    manifest.text_member_of("title"@) == title
}

/// Whether the assertions of the manifest have the labels `labels`, one for one
/// and in the same order.
pub open spec fn same_labels(manifest: Json, labels: Seq<Seq<char>>) -> bool {
    &&& assertions_of(manifest).len() == labels.len()
    &&& forall|i: int|
        0 <= i < labels.len() ==> label_of(assertions_of(manifest)[i]) == Some(#[trigger] labels[i])
}

/// Whether the ingredient `ingredient` of a manifest is what `record` asked for:
/// it has the format of the record, and the title and the relationship of the
/// record where the record has them.
pub open spec fn agrees(record: IngredientRecord, ingredient: Json) -> bool {
    &&& ingredient.text_member_of("format"@) == Some(record.format)
    &&& record.title matches Some(title) ==> ingredient.text_member_of("title"@) == Some(title)
    &&& record.relationship matches Some(relationship) ==> ingredient.text_member_of(
        "relationship"@,
    ) == Some(relationship.word())
}

/// Whether some ingredient among `ingredients` is what `record` asked for.
pub open spec fn found_among(record: IngredientRecord, ingredients: Seq<Json>) -> bool {
    exists|j: int| 0 <= j < ingredients.len() && agrees(record, #[trigger] ingredients[j])
}

/// Whether some record among `records` asked for `ingredient`.
pub open spec fn asked_for(records: Seq<IngredientRecord>, ingredient: Json) -> bool {
    exists|i: int| 0 <= i < records.len() && agrees(#[trigger] records[i], ingredient)
}

/// Whether the ingredients of a manifest are, as a set, those that the records
/// asked for: every record finds its ingredient, and every ingredient was asked
/// for.
pub open spec fn same_ingredients(records: Seq<IngredientRecord>, ingredients: Seq<Json>) -> bool {
    &&& forall|i: int| 0 <= i < records.len() ==> found_among(#[trigger] records[i], ingredients)
    &&& forall|j: int| 0 <= j < ingredients.len() ==> asked_for(records, #[trigger] ingredients[j])
}

/// Whether a manifest carries what was asked for.
pub open spec fn carried(manifest: Json, spec: SpecModel, records: Seq<IngredientRecord>) -> bool {
    &&& same_title(manifest, spec.title)
    &&& same_labels(manifest, spec.labels)
    &&& same_ingredients(records, ingredients_of(manifest))
}

/// Whether `found` is the text `wanted`.
fn is_text(found: Option<&str>, wanted: &str) -> (r: bool)
    ensures
        r == (found matches Some(text) && text@ == wanted@),
{
    match found {
        Some(text) => same_text(text, wanted),
        None => false,
    }
}

/// Decides [`agrees`].
pub fn agrees_with(summary: &IngredientSummary, ingredient: &Json) -> (r: bool)
    ensures
        r == agrees(summary@, *ingredient),
{
    if !is_text(ingredient.text_member("format"), summary.format.as_str()) {
        return false;
    }
    let titled = match &summary.title {
        Some(title) => is_text(ingredient.text_member("title"), title.as_str()),
        None => true,
    };
    if !titled {
        return false;
    }
    match summary.relationship {
        Some(relationship) => is_text(ingredient.text_member("relationship"), relationship.as_str()),
        None => true,
    }
}

/// Decides [`found_among`].
pub fn is_found_among(summary: &IngredientSummary, ingredients: &Vec<Json>) -> (r: bool)
    ensures
        r == found_among(summary@, ingredients@),
{
    let mut j: usize = 0;
    while j < ingredients.len()
        invariant
            j <= ingredients.len(),
            forall|k: int| 0 <= k < j ==> !agrees(summary@, #[trigger] ingredients@[k]),
        decreases ingredients.len() - j,
    {
        if agrees_with(summary, &ingredients[j]) {
            return true;
        }
        j = j + 1;
    }
    false
}

/// Decides [`asked_for`].
pub fn is_asked_for(records: &Vec<IngredientSummary>, ingredient: &Json) -> (r: bool)
    ensures
        r == asked_for(summary_views(records@), *ingredient),
{
    let mut i: usize = 0;
    while i < records.len()
        invariant
            i <= records.len(),
            forall|k: int|
                0 <= k < i ==> !agrees(#[trigger] summary_views(records@)[k], *ingredient),
        decreases records.len() - i,
    {
        assert(summary_views(records@)[i as int] == records@[i as int]@);
        if agrees_with(&records[i], ingredient) {
            return true;
        }
        i = i + 1;
    }
    false
}

/// Decides [`same_ingredients`].
pub fn has_same_ingredients(records: &Vec<IngredientSummary>, ingredients: &Vec<Json>) -> (r: bool)
    ensures
        r == same_ingredients(summary_views(records@), ingredients@),
{
    let mut i: usize = 0;
    while i < records.len()
        invariant
            i <= records.len(),
            forall|k: int|
                0 <= k < i ==> found_among(#[trigger] summary_views(records@)[k], ingredients@),
        decreases records.len() - i,
    {
        assert(summary_views(records@)[i as int] == records@[i as int]@);
        if !is_found_among(&records[i], ingredients) {
            return false;
        }
        i = i + 1;
    }
    let mut j: usize = 0;
    while j < ingredients.len()
        invariant
            j <= ingredients.len(),
            forall|k: int|
                0 <= k < records.len() ==> found_among(
                    #[trigger] summary_views(records@)[k],
                    ingredients@,
                ),
            forall|k: int|
                0 <= k < j ==> asked_for(summary_views(records@), #[trigger] ingredients@[k]),
        decreases ingredients.len() - j,
    {
        if !is_asked_for(records, &ingredients[j]) {
            return false;
        }
        j = j + 1;
    }
    true
}

impl<'a> Manifest<'a> {
    /// Whether the manifest has the title `title`, or none where `title` is none.
    pub fn has_title(&self, title: &Option<String>) -> (r: bool)
        ensures
            r == same_title(
                *self.node,
                match *title {
                    Some(text) => Some(text@),
                    None => None,
                },
            ),
    {
        match (self.title(), title) {
            (Some(found), Some(wanted)) => same_text(found, wanted.as_str()),
            (None, None) => true,
            _ => false,
        }
    }

    /// Whether the assertions of the manifest have the labels `labels`, one for
    /// one and in the same order.
    pub fn has_labels(&self, labels: &Vec<String>) -> (r: bool)
        ensures
            r == same_labels(*self.node, text_views(labels@)),
    {
        let assertions = self.assertions();
        if assertions.len() != labels.len() {
            return false;
        }
        let mut i: usize = 0;
        while i < labels.len()
            invariant
                i <= labels.len(),
                assertions@.len() == labels@.len(),
                assertions@.len() == assertions_of(*self.node).len(),
                forall|k: int|
                    0 <= k < assertions@.len() ==> *(#[trigger] assertions@[k]).node
                        == assertions_of(*self.node)[k],
                forall|k: int|
                    0 <= k < i ==> label_of(assertions_of(*self.node)[k]) == Some(
                        #[trigger] text_views(labels@)[k],
                    ),
            decreases labels.len() - i,
        {
            if !is_text(assertions[i].label(), labels[i].as_str()) {
                assert(label_of(assertions_of(*self.node)[i as int]) != Some(
                    text_views(labels@)[i as int],
                ));
                return false;
            }
            i = i + 1;
        }
        true
    }

    /// Whether the manifest carries what was asked for: the title and the
    /// assertion labels of `spec`, and the set of ingredients of `records`.
    pub fn carries(&self, spec: &ManifestSpec, records: &Vec<IngredientSummary>) -> (r: bool)
        ensures
            r == carried(*self.node, spec@, summary_views(records@)),
    {
        if !self.has_title(&spec.title) {
            return false;
        }
        if !self.has_labels(&spec.labels) {
            return false;
        }
        match self.node.items_member("ingredients") {
            Some(ingredients) => has_same_ingredients(records, ingredients),
            None => {
                let none: Vec<Json> = Vec::new();
                has_same_ingredients(records, &none)
            },
        }
    }
}

} // verus!
