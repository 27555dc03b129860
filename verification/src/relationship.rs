//! How an ingredient relates to the asset that is signed.

use crate::error::{Failure, PipelineError};
use crate::text::{ascii_lower, lowers_to};
use vstd::prelude::*;

verus! {

/// The relationship of an ingredient to the asset under construction.
#[derive(Clone, Copy, Debug, PartialEq, Eq, Structural)]
pub enum Relationship {
    /// The asset is derived from the ingredient.
    ParentOf,
    /// The ingredient is a part of the asset.
    ComponentOf,
}

/// The relationship that the lower-case word `word` stands for.
pub open spec fn relationship_named(word: Seq<char>) -> Option<Relationship> {
    if word == "parentof"@ {
        Some(Relationship::ParentOf)
    } else if word == "componentof"@ {
        Some(Relationship::ComponentOf)
    } else {
        None
    }
}

/// What [`parse_relationship`] returns for `value`.
pub open spec fn parsed_relationship(value: Seq<char>) -> Result<Relationship, Failure> {
    match relationship_named(ascii_lower(value)) {
        Some(relationship) => Ok(relationship),
        None => Err(Failure::InvalidRelationship { value }),
    }
}

impl Relationship {
    /// The word by which a manifest names the relationship.
    pub open spec fn word(self) -> Seq<char> {
        match self {
            Relationship::ParentOf => "parentOf"@,
            Relationship::ComponentOf => "componentOf"@,
        }
    }

    /// Computes [`Relationship::word`].
    pub fn as_str(self) -> (r: &'static str)
        ensures
            r@ == self.word(),
    {
        match self {
            Relationship::ParentOf => "parentOf",
            Relationship::ComponentOf => "componentOf",
        }
    }
}

/// Reads a declared relationship, whatever the case of its letters. Any word but
/// `parentof` and `componentof` is rejected, with the word as it was given.
pub fn parse_relationship(value: &str) -> (r: Result<Relationship, PipelineError>)
    ensures
        match parsed_relationship(value@) {
            Ok(relationship) => r == Ok::<Relationship, PipelineError>(relationship),
            Err(failure) => r is Err && r->Err_0@ == failure,
        },
{
    if lowers_to(value, "parentof") {
        Ok(Relationship::ParentOf)
    } else if lowers_to(value, "componentof") {
        Ok(Relationship::ComponentOf)
    } else {
        Err(PipelineError::InvalidRelationship { value: value.to_owned() })
    }
}

/// A relationship is read back from the word that a manifest writes for it.
pub proof fn lemma_word_round_trip(relationship: Relationship)
    ensures
        parsed_relationship(relationship.word()) == Ok::<Relationship, Failure>(relationship),
{
    reveal_strlit("parentOf");
    reveal_strlit("componentOf");
    reveal_strlit("parentof");
    reveal_strlit("componentof");
    assert(ascii_lower("parentOf"@) =~= "parentof"@);
    assert(ascii_lower("componentOf"@) =~= "componentof"@);
    assert("parentof"@.len() != "componentof"@.len());
}

/// A word that is neither `parentof` nor `componentof` in lower case is rejected as
/// an invalid relationship, and only such a word is.
pub proof fn lemma_unknown_relationship_rejected(value: Seq<char>)
    ensures
        (ascii_lower(value) != "parentof"@ && ascii_lower(value) != "componentof"@)
            <==> parsed_relationship(value) == Err::<Relationship, Failure>(
            Failure::InvalidRelationship { value },
        ),
{
}

} // verus!
