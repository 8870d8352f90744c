//! The adjective engine: the subtype of an adjective is read off its
//! dictionary form, and a table gives the ending for each category.

use crate::grammar::{is_classifiable, text_result, Animacy, Case, Gender, GrammarError, Number};
use vstd::prelude::*;

verus! {

/// Hard adjectives, by the vowel that starts the dictionary ending.
#[derive(Copy, Clone, Debug, PartialEq, Eq)]
pub enum HardAdjDeclension {
    /// -ый
    Y,
    /// -ой
    O,
}

/// Adjectives whose stem ends in г, к, х, ш, ч, щ or ц.
#[derive(Copy, Clone, Debug, PartialEq, Eq)]
pub enum MixedAdjDeclension {
    /// -ий
    I,
    /// -ой
    O,
}

/// Declension subtype of an adjective. It is never stored: it is derived
/// from the dictionary form each time.
#[derive(Copy, Clone, Debug, PartialEq, Eq)]
pub enum AdjDeclension {
    Hard(HardAdjDeclension),
    Mixed(MixedAdjDeclension),
    Soft,
}

/// An adjective, given by its nominative masculine singular form.
#[derive(Copy, Clone, Debug, PartialEq, Eq)]
pub struct Adjective(pub &'static str);

impl View for Adjective {
    type V = Seq<char>;

    open spec fn view(&self) -> Seq<char> {
        self.0@
    }
}

/// The consonants after which an adjective follows the mixed pattern.
pub open spec fn is_mixed_stem_end(c: char) -> bool {
    c == 'г' || c == 'к' || c == 'х' || c == 'ш' || c == 'ч' || c == 'щ' || c == 'ц'
}

/// The declension subtype of the adjective with dictionary form `text`:
/// it is read off the first letter of the two-letter ending and the last
/// letter of the stem. A form of fewer than three characters has none.
pub open spec fn adjective_class(text: Seq<char>) -> Option<AdjDeclension> {
    if !is_classifiable(text) {
        None
    } else {
        let ending_start = text[text.len() - 2];
        let stem_end = text[text.len() - 3];
        Some(
            if ending_start == 'ы' {
                AdjDeclension::Hard(HardAdjDeclension::Y)
            } else if ending_start == 'о' {
                if is_mixed_stem_end(stem_end) {
                    AdjDeclension::Mixed(MixedAdjDeclension::O)
                } else {
                    AdjDeclension::Hard(HardAdjDeclension::O)
                }
            } else if is_mixed_stem_end(stem_end) {
                AdjDeclension::Mixed(MixedAdjDeclension::I)
            } else {
                AdjDeclension::Soft
            },
        )
    }
}

/// Nominative ending of the masculine singular, the dictionary ending.
pub open spec fn masculine_nominative(declension: AdjDeclension) -> Seq<char> {
    match declension {
        AdjDeclension::Hard(HardAdjDeclension::Y) => "ый"@,
        AdjDeclension::Hard(HardAdjDeclension::O) => "ой"@,
        AdjDeclension::Mixed(MixedAdjDeclension::O) => "ой"@,
        AdjDeclension::Mixed(MixedAdjDeclension::I) => "ий"@,
        AdjDeclension::Soft => "ий"@,
    }
}

/// Instrumental ending shared by the masculine and neuter singular.
pub open spec fn singular_instrumental(declension: AdjDeclension) -> Seq<char> {
    if declension is Hard {
        "ым"@
    } else {
        "им"@
    }
}

/// Genitive ending shared by the masculine and neuter singular.
pub open spec fn singular_genitive(declension: AdjDeclension) -> Seq<char> {
    if declension is Soft {
        "его"@
    } else {
        "ого"@
    }
}

/// Dative ending shared by the masculine and neuter singular.
pub open spec fn singular_dative(declension: AdjDeclension) -> Seq<char> {
    if declension is Soft {
        "ему"@
    } else {
        "ому"@
    }
}

/// Masculine singular endings. The accusative has no form of its own: an
/// animate head takes the genitive ending, an inanimate one the nominative.
pub open spec fn masculine_ending(
    declension: AdjDeclension,
    animacy: Animacy,
    case: Case,
) -> Seq<char> {
    match case {
        Case::Nominative => masculine_nominative(declension),
        Case::Genitive => singular_genitive(declension),
        Case::Dative => singular_dative(declension),
        Case::Accusative => match animacy {
            Animacy::Animate => singular_genitive(declension),
            Animacy::Inanimate => masculine_nominative(declension),
        },
        Case::Instrumental => singular_instrumental(declension),
        Case::Locative => if declension is Soft {
            "им"@
        } else {
            "ом"@
        },
    }
}

/// Feminine singular endings: the nominative and the accusative stand
/// apart, all other cases share one ending.
pub open spec fn feminine_ending(declension: AdjDeclension, case: Case) -> Seq<char> {
    match case {
        Case::Nominative => if declension is Soft {
            "яя"@
        } else {
            "ая"@
        },
        Case::Accusative => if declension is Soft {
            "юю"@
        } else {
            "ую"@
        },
        _ => if declension is Soft {
            "ей"@
        } else {
            "ой"@
        },
    }
}

/// Neuter singular endings: the accusative equals the nominative.
pub open spec fn neuter_ending(declension: AdjDeclension, case: Case) -> Seq<char> {
    match case {
        Case::Nominative | Case::Accusative => if declension is Soft {
            "ее"@
        } else {
            "ое"@
        },
        Case::Genitive => singular_genitive(declension),
        Case::Dative => singular_dative(declension),
        Case::Instrumental => singular_instrumental(declension),
        Case::Locative => if declension is Soft {
            "ем"@
        } else {
            "ом"@
        },
    }
}

/// Plural endings, the same for every gender. Hard adjectives take the
/// ы-series, mixed and soft ones the и-series; the accusative borrows the
/// genitive ending for an animate head and the nominative one otherwise.
pub open spec fn plural_ending(declension: AdjDeclension, animacy: Animacy, case: Case) -> Seq<
    char,
> {
    let hard = declension is Hard;
    let nominative = if hard {
        "ые"@
    } else {
        "ие"@
    };
    let genitive = if hard {
        "ых"@
    } else {
        "их"@
    };
    match case {
        Case::Nominative => nominative,
        Case::Genitive => genitive,
        Case::Dative => if hard {
            "ым"@
        } else {
            "им"@
        },
        Case::Accusative => match animacy {
            Animacy::Animate => genitive,
            Animacy::Inanimate => nominative,
        },
        Case::Instrumental => if hard {
            "ыми"@
        } else {
            "ими"@
        },
        Case::Locative => genitive,
    }
}

/// The ending of an adjective of the given subtype in the given category.
pub open spec fn adjective_ending_text(
    declension: AdjDeclension,
    gender: Gender,
    animacy: Animacy,
    case: Case,
    number: Number,
) -> Seq<char> {
    match number {
        Number::Plural => plural_ending(declension, animacy, case),
        Number::Singular => match gender {
            Gender::Masculine => masculine_ending(declension, animacy, case),
            Gender::Feminine => feminine_ending(declension, case),
            Gender::Neuter => neuter_ending(declension, case),
        },
    }
}

/// The inflected form of the adjective with dictionary form `text`: the
/// text without its last two characters, followed by the ending of its
/// subtype. A text too short to classify has no form.
pub open spec fn adjective_form(
    text: Seq<char>,
    gender: Gender,
    animacy: Animacy,
    case: Case,
    number: Number,
) -> Result<Seq<char>, GrammarError> {
    match adjective_class(text) {
        None => Err(GrammarError::ClassificationError),
        Some(declension) => Ok(
            text.take(text.len() - 2) + adjective_ending_text(
                declension,
                gender,
                animacy,
                case,
                number,
            ),
        ),
    }
}

/// Every ending of the adjective table has two or three characters; in
/// particular none is empty.
pub proof fn lemma_adjective_ending_length(
    declension: AdjDeclension,
    gender: Gender,
    animacy: Animacy,
    case: Case,
    number: Number,
)
    ensures
        2 <= adjective_ending_text(declension, gender, animacy, case, number).len() <= 3,
{
    reveal_strlit("ый");
    reveal_strlit("ой");
    reveal_strlit("ий");
    reveal_strlit("ым");
    reveal_strlit("им");
    reveal_strlit("ого");
    reveal_strlit("его");
    reveal_strlit("ому");
    reveal_strlit("ему");
    reveal_strlit("ом");
    reveal_strlit("ем");
    reveal_strlit("ая");
    reveal_strlit("яя");
    reveal_strlit("ую");
    reveal_strlit("юю");
    reveal_strlit("ей");
    reveal_strlit("ое");
    reveal_strlit("ее");
    reveal_strlit("ые");
    reveal_strlit("ие");
    reveal_strlit("ых");
    reveal_strlit("их");
    reveal_strlit("ыми");
    reveal_strlit("ими");
}

/// An adjective has a subtype, and with it a form in every category,
/// exactly when its dictionary form has three characters or more. A
/// shorter one is a classification error, whatever the category.
pub proof fn lemma_adjective_form_outcome(
    text: Seq<char>,
    gender: Gender,
    animacy: Animacy,
    case: Case,
    number: Number,
)
    ensures
        adjective_class(text) is Some <==> is_classifiable(text),
        adjective_form(text, gender, animacy, case, number) is Ok <==> is_classifiable(text),
        !is_classifiable(text) ==> adjective_form(text, gender, animacy, case, number) == Err::<
            Seq<char>,
            GrammarError,
        >(GrammarError::ClassificationError),
{
}

/// Inflecting an adjective has no hidden state: two results that both meet
/// the contract of [`decline_adjective`] for the same adjective and the
/// same category are the same text, or the same error.
pub proof fn lemma_decline_adjective_deterministic(
    adjective: Adjective,
    gender: Gender,
    animacy: Animacy,
    case: Case,
    number: Number,
    first: Result<String, GrammarError>,
    second: Result<String, GrammarError>,
)
    requires
        text_result(first) == adjective_form(adjective@, gender, animacy, case, number),
        text_result(second) == adjective_form(adjective@, gender, animacy, case, number),
    ensures
        text_result(first) == text_result(second),
        first is Ok <==> second is Ok,
        first is Ok ==> first->Ok_0@ == second->Ok_0@,
        first is Err ==> first->Err_0 == second->Err_0,
{
}

fn mixed_stem_end(c: char) -> (r: bool)
    ensures
        r == is_mixed_stem_end(c),
{
    c == 'г' || c == 'к' || c == 'х' || c == 'ш' || c == 'ч' || c == 'щ' || c == 'ц'
}

/// Classifies an adjective by the trailing characters of its dictionary
/// form.
pub fn adjective_declension(adjective: &Adjective) -> (r: Result<AdjDeclension, GrammarError>)
    ensures
        r == match adjective_class(adjective@) {
            Some(declension) => Ok::<AdjDeclension, GrammarError>(declension),
            None => Err(GrammarError::ClassificationError),
        },
{
    let text = adjective.0;
    let len = text.unicode_len();
    if len < 3 {
        return Err(GrammarError::ClassificationError);
    }
    let ending_start = text.get_char(len - 2);
    if ending_start == 'ы' {
        return Ok(AdjDeclension::Hard(HardAdjDeclension::Y));
    }
    let is_mixed = mixed_stem_end(text.get_char(len - 3));
    if ending_start == 'о' {
        if is_mixed {
            Ok(AdjDeclension::Mixed(MixedAdjDeclension::O))
        } else {
            Ok(AdjDeclension::Hard(HardAdjDeclension::O))
        }
    } else if is_mixed {
        Ok(AdjDeclension::Mixed(MixedAdjDeclension::I))
    } else {
        Ok(AdjDeclension::Soft)
    }
}

/// Looks up the ending of an adjective of the given subtype.
pub fn adjective_ending(
    declension: AdjDeclension,
    gender: Gender,
    animacy: Animacy,
    case: Case,
    number: Number,
) -> (r: &'static str)
    ensures
        r@ == adjective_ending_text(declension, gender, animacy, case, number),
        2 <= r@.len() <= 3,
{
    proof {
        lemma_adjective_ending_length(declension, gender, animacy, case, number);
    }
    match number {
        Number::Plural => match declension {
            AdjDeclension::Hard(_) => match case {
                Case::Nominative => "ые",
                Case::Genitive => "ых",
                Case::Dative => "ым",
                Case::Accusative => match animacy {
                    Animacy::Animate => "ых",
                    Animacy::Inanimate => "ые",
                },
                Case::Instrumental => "ыми",
                Case::Locative => "ых",
            },
            AdjDeclension::Mixed(_) | AdjDeclension::Soft => match case {
                Case::Nominative => "ие",
                Case::Genitive => "их",
                Case::Dative => "им",
                Case::Accusative => match animacy {
                    Animacy::Animate => "их",
                    Animacy::Inanimate => "ие",
                },
                Case::Instrumental => "ими",
                Case::Locative => "их",
            },
        },
        Number::Singular => {
            let (nominative, instrumental) = match declension {
                AdjDeclension::Hard(HardAdjDeclension::Y) => ("ый", "ым"),
                AdjDeclension::Hard(HardAdjDeclension::O) => ("ой", "ым"),
                AdjDeclension::Mixed(MixedAdjDeclension::O) => ("ой", "им"),
                AdjDeclension::Mixed(MixedAdjDeclension::I) | AdjDeclension::Soft => ("ий", "им"),
            };
            match gender {
                Gender::Masculine => match declension {
                    AdjDeclension::Hard(_) | AdjDeclension::Mixed(_) => match case {
                        Case::Nominative => nominative,
                        Case::Genitive => "ого",
                        Case::Dative => "ому",
                        Case::Accusative => match animacy {
                            Animacy::Animate => "ого",
                            Animacy::Inanimate => nominative,
                        },
                        Case::Instrumental => instrumental,
                        Case::Locative => "ом",
                    },
                    AdjDeclension::Soft => match case {
                        Case::Nominative => nominative,
                        Case::Genitive => "его",
                        Case::Dative => "ему",
                        Case::Accusative => match animacy {
                            Animacy::Animate => "его",
                            Animacy::Inanimate => nominative,
                        },
                        Case::Instrumental => instrumental,
                        Case::Locative => "им",
                    },
                },
                Gender::Feminine => match declension {
                    AdjDeclension::Hard(_) | AdjDeclension::Mixed(_) => match case {
                        Case::Nominative => "ая",
                        Case::Accusative => "ую",
                        _ => "ой",
                    },
                    AdjDeclension::Soft => match case {
                        Case::Nominative => "яя",
                        Case::Accusative => "юю",
                        _ => "ей",
                    },
                },
                Gender::Neuter => match declension {
                    AdjDeclension::Hard(_) | AdjDeclension::Mixed(_) => match case {
                        Case::Nominative => "ое",
                        Case::Genitive => "ого",
                        Case::Dative => "ому",
                        Case::Accusative => "ое",
                        Case::Instrumental => instrumental,
                        Case::Locative => "ом",
                    },
                    AdjDeclension::Soft => match case {
                        Case::Nominative => "ее",
                        Case::Genitive => "его",
                        Case::Dative => "ему",
                        Case::Accusative => "ее",
                        Case::Instrumental => instrumental,
                        Case::Locative => "ем",
                    },
                },
            }
        },
    }
}

/// Inflects an adjective: the dictionary form loses its two-letter ending
/// and takes the ending of its subtype for the requested category.
pub fn decline_adjective(
    adjective: &Adjective,
    gender: Gender,
    animacy: Animacy,
    case: Case,
    number: Number,
) -> (r: Result<String, GrammarError>)
    ensures
        text_result(r) == adjective_form(adjective@, gender, animacy, case, number),
{
    let declension = match adjective_declension(adjective) {
        Ok(declension) => declension,
        Err(e) => {
            return Err(e);
        },
    };
    let text = adjective.0;
    let len = text.unicode_len();
    let mut word = String::from_str(text.substring_char(0, len - 2));
    word.append(adjective_ending(declension, gender, animacy, case, number));
    Ok(word)
}

} // verus!
