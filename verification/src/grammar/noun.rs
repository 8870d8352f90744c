//! The noun engine: a noun carries its declension class; the stem is what
//! the dictionary form leaves without its nominative marker, and a table
//! gives the ending for each category.

use crate::grammar::{is_classifiable, text_result, Animacy, Case, Gender, GrammarError, Number};
use vstd::prelude::*;

verus! {

/// Declension class of a noun, assigned by the lexicon after the last
/// sound of the stem.
#[derive(Copy, Clone, Debug, PartialEq, Eq)]
pub enum NounDeclension {
    /// Indeclinable words.
    T0,
    /// Stem in a hard consonant (топор, комод, балда, кобра, олово, пекло).
    T1,
    /// Stem in a soft consonant (тюлень, искатель, цапля, Дуня, горе, поле).
    T2,
    /// Stem in г, к or х (сапог, коряга, парк, моллюск, золотко, петух, неряха).
    T3,
    /// Stem in ж, ш, ч or щ (калач, лаваш, галоша, святоша, жилище, вече).
    T4,
    /// Stem in ц (немец, конец, девица, деревце).
    T5,
    /// Stem in a vowel other than и, or in the glide й (бой, край; шея, здоровье).
    T6(char),
    /// Stem in и (полоний, сложение, мания, удостоверение).
    T7,
    /// The traditional third declension (боль, тетрадь, зыбь; имя; путь).
    T8,
}

/// Irregularity of a noun, assigned by the lexicon.
#[derive(Copy, Clone, Debug, PartialEq, Eq)]
pub enum NounDeclensionException {
    /// The stem never changes.
    Regular,
    /// A vowel stands before the last consonant of the stem in the forms
    /// with a null ending and is dropped in all others (сон, сна).
    FluentVowel(char),
    /// The nominative plural ending is this text, whatever the table says.
    Plural(&'static str),
}

/// A noun as the lexicon holds it; `base` is the nominative singular.
#[derive(Copy, Clone, Debug, PartialEq, Eq)]
pub struct Noun {
    pub base: &'static str,
    pub gender: Gender,
    pub animacy: Animacy,
    pub declension: NounDeclension,
    pub declension_exception: NounDeclensionException,
}

/// What a [`NounDeclensionException`] stands for, with the override as a
/// sequence of characters.
pub enum ExceptionModel {
    Regular,
    FluentVowel(char),
    Plural(Seq<char>),
}

impl View for NounDeclensionException {
    type V = ExceptionModel;

    open spec fn view(&self) -> ExceptionModel {
        match *self {
            NounDeclensionException::Regular => ExceptionModel::Regular,
            NounDeclensionException::FluentVowel(vowel) => ExceptionModel::FluentVowel(vowel),
            NounDeclensionException::Plural(text) => ExceptionModel::Plural(text@),
        }
    }
}

/// What a [`Noun`] stands for: its dictionary form as a sequence of
/// characters, with its grammatical class.
pub struct NounModel {
    pub base: Seq<char>,
    pub gender: Gender,
    pub animacy: Animacy,
    pub declension: NounDeclension,
    pub exception: ExceptionModel,
}

impl View for Noun {
    type V = NounModel;

    open spec fn view(&self) -> NounModel {
        NounModel {
            base: self.base@,
            gender: self.gender,
            animacy: self.animacy,
            declension: self.declension,
            exception: self.declension_exception@,
        }
    }
}

impl Noun {
    /// Makes a lexicon entry of its parts.
    pub fn new(
        base: &'static str,
        gender: Gender,
        animacy: Animacy,
        declension: NounDeclension,
        declension_exception: NounDeclensionException,
    ) -> (noun: Self)
        ensures
            noun == (Noun { base, gender, animacy, declension, declension_exception }),
    {
        Self { base, declension, declension_exception, gender, animacy }
    }
}

/// The letters that mark the nominative singular and do not belong to the
/// stem.
pub open spec fn is_stem_marker(c: char) -> bool {
    c == 'ь' || c == 'а' || c == 'я' || c == 'о' || c == 'е'
}

/// The stem of a noun: the dictionary form without its final letter where
/// that letter is a nominative marker, the whole form otherwise.
pub open spec fn noun_stem_text(base: Seq<char>) -> Seq<char> {
    if base.len() > 0 && is_stem_marker(base.last()) {
        base.drop_last()
    } else {
        base
    }
}

/// Nominative singular ending by gender and class.
pub open spec fn nom_singular_ending(gender: Gender, declension: NounDeclension) -> Seq<char> {
    match gender {
        Gender::Masculine => match declension {
            NounDeclension::T1 | NounDeclension::T3 | NounDeclension::T4 | NounDeclension::T5 =>
                Seq::empty(),
            _ => "ь"@,
        },
        Gender::Feminine => match declension {
            NounDeclension::T1 | NounDeclension::T2 | NounDeclension::T3 | NounDeclension::T4 =>
                "а"@,
            _ => "я"@,
        },
        Gender::Neuter => match declension {
            NounDeclension::T1 => "о"@,
            _ => "е"@,
        },
    }
}

/// Nominative plural ending by gender and class; a plural override takes
/// the place of whatever the table holds.
pub open spec fn nom_plural_ending(
    gender: Gender,
    declension: NounDeclension,
    exception: ExceptionModel,
) -> Seq<char> {
    let after_hard = declension is T1 || declension is T4;
    match exception {
        ExceptionModel::Plural(text) => text,
        _ => match gender {
            Gender::Masculine | Gender::Feminine => if after_hard {
                "ы"@
            } else {
                "и"@
            },
            Gender::Neuter => if after_hard {
                "а"@
            } else {
                "я"@
            },
        },
    }
}

/// Genitive singular ending by gender and class.
pub open spec fn gen_singular_ending(gender: Gender, declension: NounDeclension) -> Seq<char> {
    if gender is Feminine {
        "е"@
    } else if declension is T1 || declension is T3 || declension is T5 {
        "а"@
    } else {
        "я"@
    }
}

/// Genitive plural ending by gender and class.
pub open spec fn gen_plural_ending(gender: Gender, declension: NounDeclension) -> Seq<char> {
    match gender {
        Gender::Feminine | Gender::Neuter => Seq::empty(),
        Gender::Masculine => match declension {
            NounDeclension::T1 | NounDeclension::T3 => "ов"@,
            NounDeclension::T5 => "ев"@,
            _ => "ей"@,
        },
    }
}

/// The classes that have inflection rules of their own.
pub open spec fn has_rules(declension: NounDeclension) -> bool {
    declension is T1 || declension is T2 || declension is T3
}

/// The ending of a noun of class `T1`, `T2` or `T3` in the given category.
/// `T1` and `T3` share the hard series of endings, `T2` takes the soft one.
/// In the accusative a feminine singular has an ending of its own; every
/// other accusative borrows the genitive ending for an animate noun and the
/// nominative ending for an inanimate one.
pub open spec fn noun_ending(noun: NounModel, case: Case, number: Number) -> Seq<char> {
    let hard = noun.declension is T1 || noun.declension is T3;
    let feminine = noun.gender is Feminine;
    match number {
        Number::Singular => match case {
            Case::Nominative => nom_singular_ending(noun.gender, noun.declension),
            Case::Genitive => gen_singular_ending(noun.gender, noun.declension),
            Case::Dative => if feminine {
                "е"@
            } else if hard {
                "у"@
            } else {
                "ю"@
            },
            Case::Accusative => if feminine {
                if hard {
                    "у"@
                } else {
                    "ю"@
                }
            } else {
                match noun.animacy {
                    Animacy::Animate => gen_singular_ending(noun.gender, noun.declension),
                    Animacy::Inanimate => nom_singular_ending(noun.gender, noun.declension),
                }
            },
            Case::Instrumental => if feminine {
                if hard {
                    "ой"@
                } else {
                    "ей"@
                }
            } else if hard {
                "ом"@
            } else {
                "ем"@
            },
            Case::Locative => "е"@,
        },
        Number::Plural => match case {
            Case::Nominative => nom_plural_ending(noun.gender, noun.declension, noun.exception),
            Case::Genitive => gen_plural_ending(noun.gender, noun.declension),
            Case::Dative => if hard {
                "ам"@
            } else {
                "ям"@
            },
            Case::Accusative => match noun.animacy {
                Animacy::Animate => gen_plural_ending(noun.gender, noun.declension),
                Animacy::Inanimate => nom_plural_ending(
                    noun.gender,
                    noun.declension,
                    noun.exception,
                ),
            },
            Case::Instrumental => if hard {
                "ами"@
            } else {
                "ями"@
            },
            Case::Locative => if hard {
                "ах"@
            } else {
                "ях"@
            },
        },
    }
}

/// An ending is null when nothing is pronounced after the stem: the empty
/// ending and the bare soft sign.
pub open spec fn is_null_ending(ending: Seq<char>) -> bool {
    ending.len() == 0 || (ending.len() == 1 && ending[0] == 'ь')
}

/// The character before the last one, where the stem has two or more.
pub open spec fn second_last(stem: Seq<char>) -> Option<char> {
    if stem.len() >= 2 {
        Some(stem[stem.len() - 2])
    } else {
        None
    }
}

/// The stem of a noun with the fluent vowel `vowel`, as it stands before an
/// ending that is null or not.
///
/// Before a null ending the vowel is present: where the stem lacks it, it
/// goes in immediately before the last character. Before any other ending
/// the vowel is absent: where the stem has it, it is taken out. An empty
/// stem has no last character to put the vowel before, so it has no form
/// with a null ending.
pub open spec fn fluent_stem(stem: Seq<char>, vowel: char, null_ending: bool) -> Result<
    Seq<char>,
    GrammarError,
> {
    if null_ending && second_last(stem) != Some(vowel) {
        if stem.len() == 0 {
            Err(GrammarError::ClassificationError)
        } else {
            Ok(stem.drop_last().push(vowel).push(stem.last()))
        }
    } else if !null_ending && second_last(stem) == Some(vowel) {
        Ok(stem.take(stem.len() - 2).push(stem.last()))
    } else {
        Ok(stem)
    }
}

/// The inflected form of a noun.
///
/// An indeclinable noun (`T0`) is its dictionary form in every category.
/// The classes `T4` to `T8` have no rules and no form. A noun of class
/// `T1`, `T2` or `T3` needs a dictionary form of three characters or more;
/// its form is the stem, adjusted for a fluent vowel, followed by the
/// ending.
pub open spec fn noun_form(noun: NounModel, case: Case, number: Number) -> Result<
    Seq<char>,
    GrammarError,
> {
    match noun.declension {
        NounDeclension::T0 => Ok(noun.base),
        NounDeclension::T1 | NounDeclension::T2 | NounDeclension::T3 => {
            if !is_classifiable(noun.base) {
                Err(GrammarError::ClassificationError)
            } else {
                let ending = noun_ending(noun, case, number);
                let stem = noun_stem_text(noun.base);
                match noun.exception {
                    ExceptionModel::FluentVowel(vowel) => match fluent_stem(
                        stem,
                        vowel,
                        is_null_ending(ending),
                    ) {
                        Ok(mutated) => Ok(mutated + ending),
                        Err(e) => Err(e),
                    },
                    _ => Ok(stem + ending),
                }
            }
        },
        _ => Err(GrammarError::UnsupportedDeclension),
    }
}

/// When a noun has a form and which error stands in its place when it has
/// none: a form is owed to every indeclinable noun and to every noun of
/// class `T1`, `T2` or `T3` whose dictionary form has three characters or
/// more; a shorter one of these classes is a classification error; the
/// classes `T4` to `T8` are unsupported, whatever the category and whatever
/// the dictionary form.
pub proof fn lemma_noun_form_outcome(noun: NounModel, case: Case, number: Number)
    ensures
        noun_form(noun, case, number) is Ok <==> noun.declension is T0 || (has_rules(
            noun.declension,
        ) && is_classifiable(noun.base)),
        noun_form(noun, case, number) == Err::<Seq<char>, GrammarError>(
            GrammarError::ClassificationError,
        ) <==> has_rules(noun.declension) && !is_classifiable(noun.base),
        noun_form(noun, case, number) == Err::<Seq<char>, GrammarError>(
            GrammarError::UnsupportedDeclension,
        ) <==> !(noun.declension is T0) && !has_rules(noun.declension),
        noun.declension is T0 ==> noun_form(noun, case, number) == Ok::<
            Seq<char>,
            GrammarError,
        >(noun.base),
{
}

/// A noun of class `T4`, `T5`, `T6`, `T7` or `T8` is never given a form:
/// every request for one ends in `UnsupportedDeclension`.
pub proof fn lemma_unsupported_declension(noun: NounModel, case: Case, number: Number)
    requires
        noun.declension is T4 || noun.declension is T5 || noun.declension is T6
            || noun.declension is T7 || noun.declension is T8,
    ensures
        noun_form(noun, case, number) == Err::<Seq<char>, GrammarError>(
            GrammarError::UnsupportedDeclension,
        ),
{
}

/// A plural override reaches the nominative plural and nothing else: it is
/// the ending wherever the table gives the nominative plural ending, which
/// is in the nominative plural itself and in the accusative plural of an
/// inanimate noun; every other cell is what it is for a regular noun.
pub proof fn lemma_plural_override_scope(
    noun: NounModel,
    text: Seq<char>,
    case: Case,
    number: Number,
)
    requires
        noun.exception == ExceptionModel::Plural(text),
    ensures
        noun_ending(noun, case, number) == if number is Plural && (case is Nominative || (case
            is Accusative && noun.animacy is Inanimate)) {
            text
        } else {
            noun_ending(NounModel { exception: ExceptionModel::Regular, ..noun }, case, number)
        },
{
}

/// Inflecting a noun has no hidden state: two results that both meet the
/// contract of [`decline_noun`] for the same noun and the same category are
/// the same text, or the same error.
pub proof fn lemma_decline_noun_deterministic(
    noun: Noun,
    case: Case,
    number: Number,
    first: Result<String, GrammarError>,
    second: Result<String, GrammarError>,
)
    requires
        text_result(first) == noun_form(noun@, case, number),
        text_result(second) == noun_form(noun@, case, number),
    ensures
        text_result(first) == text_result(second),
        first is Ok <==> second is Ok,
        first is Ok ==> first->Ok_0@ == second->Ok_0@,
        first is Err ==> first->Err_0 == second->Err_0,
{
}

/// The fluent vowel goes out the way it came in: where a stem takes the
/// vowel before a null ending, taking the vowel out again before any
/// other ending gives the stem that there was at first.
pub proof fn lemma_fluent_vowel_restored(stem: Seq<char>, vowel: char)
    requires
        stem.len() > 0,
        second_last(stem) != Some(vowel),
    ensures
        fluent_stem(stem, vowel, true) is Ok,
        fluent_stem(fluent_stem(stem, vowel, true)->Ok_0, vowel, false) == Ok::<
            Seq<char>,
            GrammarError,
        >(stem),
{
    let with_vowel = stem.drop_last().push(vowel).push(stem.last());
    assert(second_last(with_vowel) == Some(vowel));
    assert(with_vowel.take(with_vowel.len() - 2).push(with_vowel.last()) =~= stem);
}

/// Nominative singular ending of a noun.
pub fn nom_singular(noun: &Noun) -> (r: &'static str)
    ensures
        r@ == nom_singular_ending(noun.gender, noun.declension),
{
    proof {
        reveal_strlit("");
    }
    let ending = match (noun.gender, noun.declension) {
        (Gender::Masculine, NounDeclension::T1)
        | (Gender::Masculine, NounDeclension::T3)
        | (Gender::Masculine, NounDeclension::T4)
        | (Gender::Masculine, NounDeclension::T5) => "",
        (Gender::Masculine, _) => "ь",
        (Gender::Feminine, NounDeclension::T1)
        | (Gender::Feminine, NounDeclension::T2)
        | (Gender::Feminine, NounDeclension::T3)
        | (Gender::Feminine, NounDeclension::T4) => "а",
        (Gender::Feminine, _) => "я",
        (Gender::Neuter, NounDeclension::T1) => "о",
        (Gender::Neuter, _) => "е",
    };
    assert(ending@ =~= nom_singular_ending(noun.gender, noun.declension));
    ending
}

/// Nominative plural ending of a noun.
pub fn nom_plural(noun: &Noun) -> (r: &'static str)
    ensures
        r@ == nom_plural_ending(noun.gender, noun.declension, noun.declension_exception@),
{
    match (noun.gender, noun.declension, noun.declension_exception) {
        (_, _, NounDeclensionException::Plural(plural)) => plural,
        (Gender::Feminine, NounDeclension::T1, _)
        | (Gender::Feminine, NounDeclension::T4, _)
        | (Gender::Masculine, NounDeclension::T1, _)
        | (Gender::Masculine, NounDeclension::T4, _) => "ы",
        (Gender::Masculine, _, _) | (Gender::Feminine, _, _) => "и",
        (Gender::Neuter, NounDeclension::T1, _) | (Gender::Neuter, NounDeclension::T4, _) => "а",
        (Gender::Neuter, _, _) => "я",
    }
}

/// Genitive singular ending of a noun.
pub fn gen_singular(noun: &Noun) -> (r: &'static str)
    ensures
        r@ == gen_singular_ending(noun.gender, noun.declension),
{
    match (noun.gender, noun.declension) {
        (Gender::Feminine, _) => "е",
        (_, NounDeclension::T1) | (_, NounDeclension::T3) | (_, NounDeclension::T5) => "а",
        _ => "я",
    }
}

/// Genitive plural ending of a noun.
pub fn gen_plural(noun: &Noun) -> (r: &'static str)
    ensures
        r@ == gen_plural_ending(noun.gender, noun.declension),
{
    proof {
        reveal_strlit("");
    }
    let ending = match (noun.gender, noun.declension) {
        (Gender::Feminine, _) | (Gender::Neuter, _) => "",
        (Gender::Masculine, NounDeclension::T1) | (Gender::Masculine, NounDeclension::T3) => "ов",
        (Gender::Masculine, NounDeclension::T5) => "ев",
        _ => "ей",
    };
    assert(ending@ =~= gen_plural_ending(noun.gender, noun.declension));
    ending
}

fn stem_marker(c: char) -> (r: bool)
    ensures
        r == is_stem_marker(c),
{
    c == 'ь' || c == 'а' || c == 'я' || c == 'о' || c == 'е'
}

/// The stem of a noun, a prefix of its dictionary form.
pub fn noun_stem(noun: &Noun) -> (r: &'static str)
    ensures
        r@ == noun_stem_text(noun.base@),
{
    let base = noun.base;
    let len = base.unicode_len();
    if len > 0 && stem_marker(base.get_char(len - 1)) {
        base.substring_char(0, len - 1)
    } else {
        base
    }
}

fn null_ending(ending: &str) -> (r: bool)
    ensures
        r == is_null_ending(ending@),
{
    let len = ending.unicode_len();
    len == 0 || (len == 1 && ending.get_char(0) == 'ь')
}

/// Puts the fluent vowel into a stem or takes it out, as the ending asks.
pub fn fluent_vowel_stem(stem: &str, vowel: char, ending: &str) -> (r: Result<
    String,
    GrammarError,
>)
    ensures
        text_result(r) == fluent_stem(stem@, vowel, is_null_ending(ending@)),
{
    let len = stem.unicode_len();
    let null = null_ending(ending);
    let has_vowel = len >= 2 && stem.get_char(len - 2) == vowel;
    if null && !has_vowel {
        if len == 0 {
            return Err(GrammarError::ClassificationError);
        }
        let mut word = String::from_str(stem.substring_char(0, len - 1));
        word.push(vowel);
        word.push(stem.get_char(len - 1));
        assert(word@ =~= stem@.drop_last().push(vowel).push(stem@.last()));
        Ok(word)
    } else if !null && has_vowel {
        let mut word = String::from_str(stem.substring_char(0, len - 2));
        word.push(stem.get_char(len - 1));
        assert(word@ =~= stem@.take(stem@.len() - 2).push(stem@.last()));
        Ok(word)
    } else {
        Ok(String::from_str(stem))
    }
}

/// Inflects a noun for a case and a number.
pub fn decline_noun(noun: &Noun, case: Case, number: Number) -> (r: Result<String, GrammarError>)
    ensures
        text_result(r) == noun_form(noun@, case, number),
{
    let ending: &'static str = match noun.declension {
        NounDeclension::T0 => {
            return Ok(String::from_str(noun.base));
        },
        NounDeclension::T1 | NounDeclension::T3 => match (case, number) {
            (Case::Nominative, Number::Singular) => nom_singular(noun),
            (Case::Nominative, Number::Plural) => nom_plural(noun),
            (Case::Genitive, Number::Singular) => gen_singular(noun),
            (Case::Genitive, Number::Plural) => gen_plural(noun),
            (Case::Dative, Number::Singular) => match noun.gender {
                Gender::Feminine => "е",
                _ => "у",
            },
            (Case::Dative, Number::Plural) => "ам",
            (Case::Accusative, Number::Singular) => match (noun.gender, noun.animacy) {
                (Gender::Feminine, _) => "у",
                (_, Animacy::Animate) => gen_singular(noun),
                (_, Animacy::Inanimate) => nom_singular(noun),
            },
            (Case::Accusative, Number::Plural) => match noun.animacy {
                Animacy::Animate => gen_plural(noun),
                Animacy::Inanimate => nom_plural(noun),
            },
            (Case::Instrumental, Number::Singular) => match noun.gender {
                Gender::Feminine => "ой",
                _ => "ом",
            },
            (Case::Instrumental, Number::Plural) => "ами",
            (Case::Locative, Number::Singular) => "е",
            (Case::Locative, Number::Plural) => "ах",
        },
        NounDeclension::T2 => match (case, number) {
            (Case::Nominative, Number::Singular) => nom_singular(noun),
            (Case::Nominative, Number::Plural) => nom_plural(noun),
            (Case::Genitive, Number::Singular) => gen_singular(noun),
            (Case::Genitive, Number::Plural) => gen_plural(noun),
            (Case::Dative, Number::Singular) => match noun.gender {
                Gender::Feminine => "е",
                _ => "ю",
            },
            (Case::Dative, Number::Plural) => "ям",
            (Case::Accusative, Number::Singular) => match (noun.gender, noun.animacy) {
                (Gender::Feminine, _) => "ю",
                (_, Animacy::Animate) => gen_singular(noun),
                (_, Animacy::Inanimate) => nom_singular(noun),
            },
            (Case::Accusative, Number::Plural) => match noun.animacy {
                Animacy::Animate => gen_plural(noun),
                Animacy::Inanimate => nom_plural(noun),
            },
            (Case::Instrumental, Number::Singular) => match noun.gender {
                Gender::Feminine => "ей",
                _ => "ем",
            },
            (Case::Instrumental, Number::Plural) => "ями",
            (Case::Locative, Number::Singular) => "е",
            (Case::Locative, Number::Plural) => "ях",
        },
        _ => {
            return Err(GrammarError::UnsupportedDeclension);
        },
    };
    assert(ending@ == noun_ending(noun@, case, number));
    if noun.base.unicode_len() < 3 {
        return Err(GrammarError::ClassificationError);
    }
    let stem = noun_stem(noun);
    let mut word = match noun.declension_exception {
        NounDeclensionException::FluentVowel(vowel) => match fluent_vowel_stem(
            stem,
            vowel,
            ending,
        ) {
            Ok(mutated) => mutated,
            Err(e) => {
                return Err(e);
            },
        },
        _ => String::from_str(stem),
    };
    word.append(ending);
    Ok(word)
}

} // verus!
