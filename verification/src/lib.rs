//! Rule-based inflection of Russian nouns and adjectives, with the phrase
//! layer that is built on it.
//!
//! Every exported function carries a contract over sequences of characters:
//! the view of a word is the `Seq<char>` of its letters, and each form that
//! the library produces is pinned to a specification function of the
//! dictionary form and the requested category.

pub mod generator;
pub mod grammar;
pub mod sentence;
pub mod syntax;
pub mod text;
