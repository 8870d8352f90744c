//! Grammatical categories and the two inflection engines.
//!
//! A word is modelled by the sequence of its characters. Each engine is a
//! specification function from a dictionary form and a category to the
//! inflected form ([`adjective_form`], [`noun_form`]); the executable
//! functions are proved to compute exactly that.

pub mod adjective;
pub mod noun;

pub use self::adjective::{
    adjective_class, adjective_declension, adjective_ending, adjective_ending_text, adjective_form,
    decline_adjective, AdjDeclension, Adjective, HardAdjDeclension, MixedAdjDeclension,
};
pub use self::noun::{
    decline_noun, fluent_stem, fluent_vowel_stem, gen_plural, gen_singular, nom_plural,
    nom_singular, noun_ending, noun_form, noun_stem, noun_stem_text, ExceptionModel, Noun,
    NounDeclension, NounDeclensionException, NounModel,
};
use vstd::prelude::*;

verus! {

/// One of the six grammatical roles of a noun phrase.
#[derive(Copy, Clone, Debug, PartialEq, Eq)]
pub enum Case {
    Nominative,
    Genitive,
    Dative,
    Accusative,
    Instrumental,
    Locative,
}

/// Grammatical gender, fixed per lexical entry.
#[derive(Copy, Clone, Debug, PartialEq, Eq)]
pub enum Gender {
    Masculine,
    Feminine,
    Neuter,
}

/// Animacy, fixed per lexical entry; it decides which case the accusative
/// borrows its form from.
#[derive(Copy, Clone, Debug, PartialEq, Eq)]
pub enum Animacy {
    Animate,
    Inanimate,
}

/// Grammatical number, chosen per request.
#[derive(Copy, Clone, Debug, PartialEq, Eq)]
pub enum Number {
    Singular,
    Plural,
}

/// Why a word could not be inflected.
#[derive(Copy, Clone, Debug, PartialEq, Eq)]
pub enum GrammarError {
    /// The word is too short for the rules: a dictionary form of fewer than
    /// three characters, or an empty stem that is to take a fluent vowel.
    ClassificationError,
    /// The noun belongs to a declension class that has no inflection rules.
    UnsupportedDeclension,
}

/// A dictionary form is long enough for the rules when it has three
/// characters or more: only then are the letters defined that the
/// classification of an adjective and the stem of a noun are read from.
pub open spec fn is_classifiable(text: Seq<char>) -> bool {
    text.len() >= 3
}

/// The characters of a produced word, or the error in its place.
pub open spec fn text_result(r: Result<String, GrammarError>) -> Result<Seq<char>, GrammarError> {
    match r {
        Ok(word) => Ok(word@),
        Err(e) => Err(e),
    }
}

} // verus!
