use oddity::grammar::{
    Adjective, Animacy, Case, Gender, GrammarError, Noun, NounDeclension, NounDeclensionException,
    Number,
};
use oddity::syntax::{build_string_from_parts, NounGroup, SyntaxNode};

fn words(parts: &[&str]) -> Vec<String> {
    parts.iter().map(|part| part.to_string()).collect()
}

fn regular(base: &'static str, gender: Gender, animacy: Animacy, declension: NounDeclension) -> Noun {
    Noun::new(base, gender, animacy, declension, NounDeclensionException::Regular)
}

fn group(noun: Noun, modifiers: &[&'static str]) -> NounGroup {
    NounGroup { noun, modifiers: modifiers.iter().map(|text| Adjective(text)).collect() }
}

fn axe() -> Noun {
    regular("топор", Gender::Masculine, Animacy::Inanimate, NounDeclension::T1)
}

fn sledgehammer() -> Noun {
    regular("балда", Gender::Feminine, Animacy::Inanimate, NounDeclension::T1)
}

fn seal() -> Noun {
    regular("тюлень", Gender::Masculine, Animacy::Animate, NounDeclension::T2)
}

fn loaf() -> Noun {
    regular("калач", Gender::Masculine, Animacy::Inanimate, NounDeclension::T4)
}

#[test]
fn parts_are_joined_by_single_spaces() {
    assert_eq!(build_string_from_parts(&words(&["большой", "красивый", "топор"])), "большой красивый топор");
    assert_eq!(build_string_from_parts(&words(&["топор"])), "топор");
}

#[test]
fn no_parts_give_an_empty_text() {
    assert_eq!(build_string_from_parts(&words(&[])), "");
}

#[test]
fn a_part_that_begins_with_a_comma_is_joined_without_a_space() {
    assert_eq!(build_string_from_parts(&words(&["топор", ", острый", "как", "бритва"])), "топор, острый как бритва");
    assert_eq!(build_string_from_parts(&words(&["а", ","])), "а,");
    assert_eq!(build_string_from_parts(&words(&[",", "а"])), ", а");
    assert_eq!(build_string_from_parts(&words(&[", а"])), ", а");
}

#[test]
fn a_comma_inside_a_part_does_not_count() {
    assert_eq!(build_string_from_parts(&words(&["а", "б,в", " ,г"])), "а б,в  ,г");
}

#[test]
fn nothing_goes_before_the_first_text() {
    assert_eq!(build_string_from_parts(&words(&["", "топор"])), "топор");
    assert_eq!(build_string_from_parts(&words(&["", "", "топор"])), "топор");
}

#[test]
fn an_empty_part_still_takes_its_space() {
    assert_eq!(build_string_from_parts(&words(&["топор", ""])), "топор ");
    assert_eq!(build_string_from_parts(&words(&["топор", "", "балда"])), "топор  балда");
}

#[test]
fn a_bare_noun_is_a_group() {
    assert_eq!(group(axe(), &[]).to_string(Case::Nominative, Number::Singular), Ok("топор".to_string()));
    assert_eq!(group(axe(), &[]).to_string(Case::Genitive, Number::Plural), Ok("топоров".to_string()));
}

#[test]
fn modifiers_agree_with_the_noun() {
    let phrase = group(axe(), &["большой", "красивый"]);
    assert_eq!(phrase.to_string(Case::Nominative, Number::Singular), Ok("большой красивый топор".to_string()));
    assert_eq!(phrase.to_string(Case::Genitive, Number::Singular), Ok("большого красивого топора".to_string()));
    assert_eq!(
        phrase.to_string(Case::Instrumental, Number::Singular),
        Ok("большим красивым топором".to_string())
    );
    assert_eq!(phrase.to_string(Case::Accusative, Number::Singular), Ok("большой красивый топор".to_string()));
    assert_eq!(phrase.to_string(Case::Nominative, Number::Plural), Ok("большие красивые топоры".to_string()));
    assert_eq!(
        phrase.to_string(Case::Locative, Number::Plural),
        Ok("больших красивых топорах".to_string())
    );
}

#[test]
fn modifiers_take_the_gender_of_the_noun() {
    let phrase = group(sledgehammer(), &["синий", "красивый"]);
    assert_eq!(phrase.to_string(Case::Nominative, Number::Singular), Ok("синяя красивая балда".to_string()));
    assert_eq!(phrase.to_string(Case::Accusative, Number::Singular), Ok("синюю красивую балду".to_string()));
    assert_eq!(phrase.to_string(Case::Instrumental, Number::Singular), Ok("синей красивой балдой".to_string()));
    let tin = regular("олово", Gender::Neuter, Animacy::Inanimate, NounDeclension::T1);
    let phrase = group(tin, &["мягкий"]);
    assert_eq!(phrase.to_string(Case::Nominative, Number::Singular), Ok("мягкое олово".to_string()));
    assert_eq!(phrase.to_string(Case::Dative, Number::Singular), Ok("мягкому олову".to_string()));
}

#[test]
fn modifiers_take_the_animacy_of_the_noun() {
    let phrase = group(seal(), &["большой"]);
    assert_eq!(phrase.to_string(Case::Accusative, Number::Singular), Ok("большого тюленя".to_string()));
    assert_eq!(phrase.to_string(Case::Accusative, Number::Plural), Ok("больших тюленей".to_string()));
    let phrase = group(axe(), &["большой"]);
    assert_eq!(phrase.to_string(Case::Accusative, Number::Singular), Ok("большой топор".to_string()));
    assert_eq!(phrase.to_string(Case::Accusative, Number::Plural), Ok("большие топоры".to_string()));
}

#[test]
fn a_group_fails_with_its_modifier() {
    let phrase = group(axe(), &["большой", "ый", "красивый"]);
    assert_eq!(phrase.to_string(Case::Nominative, Number::Singular), Err(GrammarError::ClassificationError));
    let phrase = group(axe(), &[""]);
    assert_eq!(phrase.to_string(Case::Dative, Number::Plural), Err(GrammarError::ClassificationError));
}

#[test]
fn a_group_fails_with_its_noun() {
    let phrase = group(loaf(), &["большой"]);
    assert_eq!(phrase.to_string(Case::Nominative, Number::Singular), Err(GrammarError::UnsupportedDeclension));
    let short = regular("як", Gender::Masculine, Animacy::Animate, NounDeclension::T3);
    assert_eq!(
        group(short, &["большой"]).to_string(Case::Nominative, Number::Singular),
        Err(GrammarError::ClassificationError)
    );
}

#[test]
fn a_failing_modifier_decides_before_the_noun() {
    let phrase = group(loaf(), &["большой", "ий"]);
    assert_eq!(phrase.to_string(Case::Nominative, Number::Singular), Err(GrammarError::ClassificationError));
}

#[test]
fn an_indeclinable_noun_keeps_its_form_among_declined_modifiers() {
    let coat = regular("пальто", Gender::Neuter, Animacy::Inanimate, NounDeclension::T0);
    let phrase = group(coat, &["красный"]);
    assert_eq!(phrase.to_string(Case::Instrumental, Number::Singular), Ok("красным пальто".to_string()));
}

#[test]
fn a_single_group_stands_in_the_nominative_singular() {
    let node = SyntaxNode::Noun(group(axe(), &["большой"]));
    assert_eq!(node.to_string(), Ok("большой топор".to_string()));
}

#[test]
fn the_companion_stands_in_the_instrumental() {
    let node = SyntaxNode::With(group(axe(), &[]), group(sledgehammer(), &[]));
    assert_eq!(node.to_string(), Ok("топор с балдой".to_string()));
    let node = SyntaxNode::With(group(seal(), &["большой"]), group(axe(), &["красивый", "золотой"]));
    assert_eq!(node.to_string(), Ok("большой тюлень с красивым золотым топором".to_string()));
}

#[test]
fn a_phrase_fails_with_either_group() {
    let node = SyntaxNode::Noun(group(loaf(), &[]));
    assert_eq!(node.to_string(), Err(GrammarError::UnsupportedDeclension));
    let node = SyntaxNode::With(group(loaf(), &[]), group(axe(), &[]));
    assert_eq!(node.to_string(), Err(GrammarError::UnsupportedDeclension));
    let node = SyntaxNode::With(group(axe(), &[]), group(loaf(), &[]));
    assert_eq!(node.to_string(), Err(GrammarError::UnsupportedDeclension));
    let node = SyntaxNode::With(group(axe(), &[]), group(axe(), &["ой"]));
    assert_eq!(node.to_string(), Err(GrammarError::ClassificationError));
}

#[test]
fn the_first_group_that_fails_decides_the_error() {
    let node = SyntaxNode::With(group(loaf(), &[]), group(axe(), &["ой"]));
    assert_eq!(node.to_string(), Err(GrammarError::UnsupportedDeclension));
    let node = SyntaxNode::With(group(axe(), &["ой"]), group(loaf(), &[]));
    assert_eq!(node.to_string(), Err(GrammarError::ClassificationError));
}

#[test]
fn writing_a_phrase_twice_gives_the_same_text() {
    let node = SyntaxNode::With(group(seal(), &["большой"]), group(axe(), &["красивый"]));
    assert_eq!(node.to_string(), node.to_string());
}
