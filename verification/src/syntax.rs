//! Phrases: a head noun with the adjectives that agree with it, alone or
//! followed by a second phrase in the instrumental.

use crate::grammar::{
    adjective_class, adjective_form, decline_adjective, decline_noun, noun_form, text_result,
    Adjective, Case, GrammarError, Noun, NounModel, Number,
};
use vstd::prelude::*;

verus! {

/// A noun with its modifiers, in the order in which they are spoken.
pub struct NounGroup {
    pub noun: Noun,
    pub modifiers: Vec<Adjective>,
}

/// What a [`NounGroup`] stands for.
pub struct NounGroupModel {
    pub noun: NounModel,
    pub modifiers: Seq<Seq<char>>,
}

impl View for NounGroup {
    type V = NounGroupModel;

    open spec fn view(&self) -> NounGroupModel {
        NounGroupModel {
            noun: self.noun@,
            modifiers: Seq::new(self.modifiers@.len(), |i: int| self.modifiers@[i]@),
        }
    }
}

/// A phrase: one noun group, or a noun group "with" another.
pub enum SyntaxNode {
    Noun(NounGroup),
    With(NounGroup, NounGroup),
}

/// What a [`SyntaxNode`] stands for.
pub enum SyntaxNodeModel {
    Noun(NounGroupModel),
    With(NounGroupModel, NounGroupModel),
}

impl View for SyntaxNode {
    type V = SyntaxNodeModel;

    open spec fn view(&self) -> SyntaxNodeModel {
        match *self {
            SyntaxNode::Noun(group) => SyntaxNodeModel::Noun(group@),
            SyntaxNode::With(group, with_group) => SyntaxNodeModel::With(group@, with_group@),
        }
    }
}

/// The texts of a list of words.
pub open spec fn texts(parts: Seq<String>) -> Seq<Seq<char>> {
    Seq::new(parts.len(), |i: int| parts[i]@)
}

/// Whether the part begins with a comma, which is written without a space
/// before it.
pub open spec fn starts_with_comma(part: Seq<char>) -> bool {
    part.len() > 0 && part[0] == ','
}

/// The parts written one after another. A single space goes before a part
/// unless nothing has been written yet or the part begins with a comma.
pub open spec fn join_parts(parts: Seq<Seq<char>>) -> Seq<char>
    decreases parts.len(),
{
    if parts.len() == 0 {
        Seq::empty()
    } else {
        let written = join_parts(parts.drop_last());
        if written.len() > 0 && !starts_with_comma(parts.last()) {
            written.push(' ') + parts.last()
        } else {
            written + parts.last()
        }
    }
}

/// The modifiers of a group, each in the form that agrees with the noun in
/// gender and animacy, for a case and a number.
pub open spec fn modifier_forms(group: NounGroupModel, case: Case, number: Number) -> Seq<
    Seq<char>,
> {
    Seq::new(
        group.modifiers.len(),
        |i: int|
            adjective_form(
                group.modifiers[i],
                group.noun.gender,
                group.noun.animacy,
                case,
                number,
            )->Ok_0,
    )
}

/// The text of a noun group in a case and a number: its modifiers, each in
/// the form that agrees with the noun, and then the noun, joined as
/// [`join_parts`] says. A modifier that cannot be classified makes the
/// whole group fail with `ClassificationError`; otherwise the group fails
/// where its noun does.
pub open spec fn group_text(group: NounGroupModel, case: Case, number: Number) -> Result<
    Seq<char>,
    GrammarError,
> {
    if exists|i: int|
        0 <= i < group.modifiers.len() && adjective_class(#[trigger] group.modifiers[i]) is None {
        Err(GrammarError::ClassificationError)
    } else {
        match noun_form(group.noun, case, number) {
            Err(e) => Err(e),
            Ok(head) => Ok(join_parts(modifier_forms(group, case, number).push(head))),
        }
    }
}

/// The text of a phrase. A single group stands in the nominative singular;
/// in a phrase with a companion the first group does too, and the second
/// follows the preposition "с" in the instrumental singular. The first
/// group that fails decides the error.
pub open spec fn node_text(node: SyntaxNodeModel) -> Result<Seq<char>, GrammarError> {
    match node {
        SyntaxNodeModel::Noun(group) => group_text(group, Case::Nominative, Number::Singular),
        SyntaxNodeModel::With(group, with_group) => match group_text(
            group,
            Case::Nominative,
            Number::Singular,
        ) {
            Err(e) => Err(e),
            Ok(head) => match group_text(with_group, Case::Instrumental, Number::Singular) {
                Err(e) => Err(e),
                Ok(tail) => Ok(head + " с "@ + tail),
            },
        },
    }
}

fn begins_with_comma(part: &str) -> (r: bool)
    ensures
        r == starts_with_comma(part@),
{
    !part.is_empty() && part.get_char(0) == ','
}

/// Joins words into a phrase.
pub fn build_string_from_parts(parts: &Vec<String>) -> (r: String)
    ensures
        r@ == join_parts(texts(parts@)),
{
    let ghost all = texts(parts@);
    let mut string = String::new();
    let mut i: usize = 0;
    while i < parts.len()
        invariant
            i <= parts.len(),
            all == texts(parts@),
            string@ == join_parts(all.take(i as int)),
        decreases parts.len() - i,
    {
        let part = parts[i].as_str();
        proof {
            assert(all.take(i + 1).drop_last() =~= all.take(i as int));
            assert(all.take(i + 1).last() == part@);
        }
        if !string.as_str().is_empty() && !begins_with_comma(part) {
            string.push(' ');
        }
        string.append(part);
        i += 1;
    }
    assert(all.take(i as int) =~= all);
    string
}

impl NounGroup {
    /// Writes the group out in a case and a number.
    pub fn to_string(&self, case: Case, number: Number) -> (r: Result<String, GrammarError>)
        ensures
            text_result(r) == group_text(self@, case, number),
    {
        let ghost forms = modifier_forms(self@, case, number);
        let mut parts: Vec<String> = Vec::new();
        let mut i: usize = 0;
        while i < self.modifiers.len()
            invariant
                i <= self.modifiers.len(),
                parts@.len() == i,
                forms == modifier_forms(self@, case, number),
                forall|j: int|
                    0 <= j < i ==> adjective_class(#[trigger] self@.modifiers[j]) is Some,
                forall|j: int| 0 <= j < i ==> (#[trigger] parts@[j])@ == forms[j],
            decreases self.modifiers.len() - i,
        {
            match decline_adjective(
                &self.modifiers[i],
                self.noun.gender,
                self.noun.animacy,
                case,
                number,
            ) {
                Ok(word) => {
                    parts.push(word);
                },
                Err(e) => {
                    assert(adjective_class(self@.modifiers[i as int]) is None);
                    return Err(e);
                },
            }
            i += 1;
        }
        match decline_noun(&self.noun, case, number) {
            Ok(word) => {
                parts.push(word);
                assert(texts(parts@) =~= forms.push(word@));
            },
            Err(e) => {
                return Err(e);
            },
        }
        Ok(build_string_from_parts(&parts))
    }
}

impl SyntaxNode {
    /// Writes the phrase out.
    pub fn to_string(&self) -> (r: Result<String, GrammarError>)
        ensures
            text_result(r) == node_text(self@),
    {
        match self {
            SyntaxNode::Noun(group) => group.to_string(Case::Nominative, Number::Singular),
            SyntaxNode::With(noun, with_noun) => {
                let mut string = match noun.to_string(Case::Nominative, Number::Singular) {
                    Ok(string) => string,
                    Err(e) => {
                        return Err(e);
                    },
                };
                let with_string = match with_noun.to_string(Case::Instrumental, Number::Singular) {
                    Ok(string) => string,
                    Err(e) => {
                        return Err(e);
                    },
                };
                string.append(" с ");
                string.append(with_string.as_str());
                Ok(string)
            },
        }
    }
}

} // verus!
