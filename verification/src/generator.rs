//! Random phrases: an object from a lexicon, with modifiers drawn by chance.
//!
//! The draws come from the `rand` crate. Nothing is assumed of which way a
//! draw falls; what is proved holds of every outcome: each word of a
//! generated phrase is a word of the lexicon, it fills the role it was
//! listed under, and the roles come in a fixed order.

use crate::grammar::{Adjective, Noun};
use crate::syntax::{NounGroup, SyntaxNode};
use rand::distributions::Bernoulli;
use rand::rngs::ThreadRng;
use rand::seq::SliceRandom;
use rand::Rng;
use vstd::prelude::*;

verus! {

/// The thread-local generator of `rand`. Its state is not modelled.
#[verifier::external_type_specification]
#[verifier::external_body]
pub struct ExThreadRng(rand::rngs::ThreadRng);

/// A yes-or-no distribution of `rand`, made from a probability by the
/// caller. The probability is not modelled.
#[verifier::external_type_specification]
#[verifier::external_body]
pub struct ExBernoulli(rand::distributions::Bernoulli);

/// Calls `SliceRandom::choose` of `rand` on the words. An empty list gives
/// nothing; any other list gives a reference to one of its elements. Which
/// element is not said.
#[verifier::external_body]
fn pick<'a, T>(words: &'a Vec<T>, rng: &mut ThreadRng) -> (r: Option<&'a T>)
    ensures
        r is None <==> words@.len() == 0,
        r matches Some(word) ==> words@.contains(*word),
{
    words.as_slice().choose(rng)
}

/// Calls `Rng::sample` of `rand` with a `Bernoulli` distribution, which is
/// what `Rng::gen_bool` does with the probability it is given. Nothing is
/// said of the outcome.
#[verifier::external_body]
fn flip(coin: &Bernoulli, rng: &mut ThreadRng) -> (r: bool) {
    rng.sample(coin)
}

/// The word lists to draw from, one per role in the phrase.
pub struct Lexicon {
    pub objects: Vec<Noun>,
    pub weird: Vec<Adjective>,
    pub size: Vec<Adjective>,
    pub shape: Vec<Adjective>,
    pub feel: Vec<Adjective>,
    pub color: Vec<Adjective>,
    pub material: Vec<Adjective>,
}

/// The chance of each kind of modifier, and of a companion phrase.
pub struct Odds {
    pub weird: Bernoulli,
    pub size: Bernoulli,
    pub shape: Bernoulli,
    pub feel: Bernoulli,
    pub color: Bernoulli,
    pub material: Bernoulli,
    pub with: Bernoulli,
}

/// The outcome of one round of draws: the object, and for each role the
/// modifier that was drawn, if one was.
pub struct Draw {
    pub object: Noun,
    pub weird: Option<Adjective>,
    pub size: Option<Adjective>,
    pub shape: Option<Adjective>,
    pub feel: Option<Adjective>,
    pub color: Option<Adjective>,
    pub material: Option<Adjective>,
}

/// A drawn word, if any, is one of the words listed for its role.
pub open spec fn listed(word: Option<Adjective>, words: Seq<Adjective>) -> bool {
    word matches Some(w) ==> words.contains(w)
}

/// The word as a list of one, or the empty list.
pub open spec fn optional(word: Option<Adjective>) -> Seq<Adjective> {
    match word {
        Some(w) => seq![w],
        None => Seq::empty(),
    }
}

impl Draw {
    /// Every word of the draw comes from the list of its role.
    pub open spec fn from_lexicon(self, lexicon: Lexicon) -> bool {
        &&& lexicon.objects@.contains(self.object)
        &&& listed(self.weird, lexicon.weird@)
        &&& listed(self.size, lexicon.size@)
        &&& listed(self.shape, lexicon.shape@)
        &&& listed(self.feel, lexicon.feel@)
        &&& listed(self.color, lexicon.color@)
        &&& listed(self.material, lexicon.material@)
    }

    /// The modifiers that were drawn, in the order in which they are
    /// spoken: oddity, size, shape, feel, colour, material.
    pub open spec fn modifiers(self) -> Seq<Adjective> {
        optional(self.weird) + optional(self.size) + optional(self.shape) + optional(self.feel)
            + optional(self.color) + optional(self.material)
    }
}

/// The group is what some draw from the lexicon is composed into.
pub open spec fn is_oddity(group: NounGroup, lexicon: Lexicon) -> bool {
    exists|draw: Draw|
        draw.from_lexicon(lexicon) && group.noun == draw.object && group.modifiers@
            == #[trigger] draw.modifiers()
}

/// Every group of the phrase is an oddity over the lexicon.
pub open spec fn is_phrase(node: SyntaxNode, lexicon: Lexicon) -> bool {
    match node {
        SyntaxNode::Noun(group) => is_oddity(group, lexicon),
        SyntaxNode::With(group, with_group) => is_oddity(group, lexicon) && is_oddity(
            with_group,
            lexicon,
        ),
    }
}

/// Fills a role that the coin has granted with a word drawn from its list.
/// A role that was not granted stays empty, and so does one with no words.
fn draw_modifier(filled: bool, words: &Vec<Adjective>, rng: &mut ThreadRng) -> (r: Option<
    Adjective,
>)
    ensures
        r is Some <==> filled && words@.len() > 0,
        listed(r, words@),
{
    if filled {
        match pick(words, rng) {
            Some(word) => Some(*word),
            None => None,
        }
    } else {
        None
    }
}

/// Draws an object and its modifiers. There is no draw from a lexicon
/// without objects.
pub fn draw(rng: &mut ThreadRng, lexicon: &Lexicon, odds: &Odds) -> (r: Option<Draw>)
    ensures
        r is None <==> lexicon.objects@.len() == 0,
        r matches Some(draw) ==> draw.from_lexicon(*lexicon),
{
    let object = match pick(&lexicon.objects, rng) {
        Some(object) => *object,
        None => {
            return None;
        },
    };
    let weird = draw_modifier(flip(&odds.weird, rng), &lexicon.weird, rng);
    let size = draw_modifier(flip(&odds.size, rng), &lexicon.size, rng);
    let shape = draw_modifier(flip(&odds.shape, rng), &lexicon.shape, rng);
    let feel = draw_modifier(flip(&odds.feel, rng), &lexicon.feel, rng);
    let color = draw_modifier(flip(&odds.color, rng), &lexicon.color, rng);
    let material = draw_modifier(flip(&odds.material, rng), &lexicon.material, rng);
    Some(Draw { object, weird, size, shape, feel, color, material })
}

/// Builds the noun group of a draw: the object with the drawn modifiers in
/// their fixed order.
pub fn compose(draw: &Draw) -> (r: NounGroup)
    ensures
        r.noun == draw.object,
        r.modifiers@ == draw.modifiers(),
{
    let mut modifiers: Vec<Adjective> = Vec::new();
    if let Some(word) = draw.weird {
        modifiers.push(word);
    }
    assert(modifiers@ =~= optional(draw.weird));
    if let Some(word) = draw.size {
        modifiers.push(word);
    }
    assert(modifiers@ =~= optional(draw.weird) + optional(draw.size));
    if let Some(word) = draw.shape {
        modifiers.push(word);
    }
    assert(modifiers@ =~= optional(draw.weird) + optional(draw.size) + optional(draw.shape));
    if let Some(word) = draw.feel {
        modifiers.push(word);
    }
    assert(modifiers@ =~= optional(draw.weird) + optional(draw.size) + optional(draw.shape)
        + optional(draw.feel));
    if let Some(word) = draw.color {
        modifiers.push(word);
    }
    assert(modifiers@ =~= optional(draw.weird) + optional(draw.size) + optional(draw.shape)
        + optional(draw.feel) + optional(draw.color));
    if let Some(word) = draw.material {
        modifiers.push(word);
    }
    assert(modifiers@ =~= draw.modifiers());
    NounGroup { noun: draw.object, modifiers }
}

/// Generates a random noun group over the lexicon.
pub fn gen_oddity(rng: &mut ThreadRng, lexicon: &Lexicon, odds: &Odds) -> (r: Option<NounGroup>)
    ensures
        r is None <==> lexicon.objects@.len() == 0,
        r matches Some(group) ==> is_oddity(group, *lexicon),
{
    match draw(rng, lexicon, odds) {
        Some(drawn) => Some(compose(&drawn)),
        None => None,
    }
}

/// Generates a random phrase over the lexicon: one oddity, to which chance
/// may add a second one as its companion.
pub fn gen_phrase(rng: &mut ThreadRng, lexicon: &Lexicon, odds: &Odds) -> (r: Option<SyntaxNode>)
    ensures
        r is None <==> lexicon.objects@.len() == 0,
        r matches Some(node) ==> is_phrase(node, *lexicon),
{
    let first = match gen_oddity(rng, lexicon, odds) {
        Some(group) => group,
        None => {
            return None;
        },
    };
    if flip(&odds.with, rng) {
        match gen_oddity(rng, lexicon, odds) {
            Some(second) => Some(SyntaxNode::With(first, second)),
            None => None,
        }
    } else {
        Some(SyntaxNode::Noun(first))
    }
}

} // verus!
