use oddity::generator::{compose, draw, gen_oddity, gen_phrase, Draw, Lexicon, Odds};
use oddity::grammar::{Adjective, Animacy, Gender, Noun, NounDeclension, NounDeclensionException};
use oddity::syntax::{NounGroup, SyntaxNode};
use rand::distributions::Bernoulli;

fn regular(base: &'static str, gender: Gender, animacy: Animacy, declension: NounDeclension) -> Noun {
    Noun::new(base, gender, animacy, declension, NounDeclensionException::Regular)
}

fn adjectives(texts: &[&'static str]) -> Vec<Adjective> {
    texts.iter().map(|text| Adjective(text)).collect()
}

fn lexicon() -> Lexicon {
    Lexicon {
        objects: vec![
            regular("топор", Gender::Masculine, Animacy::Inanimate, NounDeclension::T1),
            regular("балда", Gender::Feminine, Animacy::Inanimate, NounDeclension::T1),
            regular("тюлень", Gender::Masculine, Animacy::Animate, NounDeclension::T2),
        ],
        weird: adjectives(&["странный", "загадочный"]),
        size: adjectives(&["большой", "маленький", "огромный"]),
        shape: adjectives(&["круглый", "плоский"]),
        feel: adjectives(&["мягкий", "гладкий"]),
        color: adjectives(&["красный", "синий"]),
        material: adjectives(&["железный", "золотой"]),
    }
}

fn one_word_lexicon() -> Lexicon {
    Lexicon {
        objects: vec![regular("топор", Gender::Masculine, Animacy::Inanimate, NounDeclension::T1)],
        weird: adjectives(&["странный"]),
        size: adjectives(&["большой"]),
        shape: adjectives(&["круглый"]),
        feel: adjectives(&["мягкий"]),
        color: adjectives(&["синий"]),
        material: adjectives(&["золотой"]),
    }
}

fn odds(modifier: f64, with: f64) -> Odds {
    let coin = Bernoulli::new(modifier).unwrap();
    Odds {
        weird: coin,
        size: coin,
        shape: coin,
        feel: coin,
        color: coin,
        material: coin,
        with: Bernoulli::new(with).unwrap(),
    }
}

/// Whether the modifiers are at most one word of each list, in the order of the lists.
fn in_fixed_order(modifiers: &[Adjective], lexicon: &Lexicon) -> bool {
    let lists = [
        &lexicon.weird,
        &lexicon.size,
        &lexicon.shape,
        &lexicon.feel,
        &lexicon.color,
        &lexicon.material,
    ];
    let mut next = 0;
    for modifier in modifiers {
        while next < lists.len() && !lists[next].contains(modifier) {
            next += 1;
        }
        if next == lists.len() {
            return false;
        }
        next += 1;
    }
    true
}

fn is_oddity(group: &NounGroup, lexicon: &Lexicon) -> bool {
    lexicon.objects.contains(&group.noun) && in_fixed_order(&group.modifiers, lexicon)
}

#[test]
fn a_sure_chance_fills_every_role_in_order() {
    let mut rng = rand::thread_rng();
    let lexicon = one_word_lexicon();
    let group = gen_oddity(&mut rng, &lexicon, &odds(1.0, 0.0)).unwrap();
    assert_eq!(group.noun.base, "топор");
    assert_eq!(
        group.modifiers,
        adjectives(&["странный", "большой", "круглый", "мягкий", "синий", "золотой"])
    );
    assert_eq!(
        group.to_string(oddity::grammar::Case::Nominative, oddity::grammar::Number::Singular),
        Ok("странный большой круглый мягкий синий золотой топор".to_string())
    );
}

#[test]
fn no_chance_leaves_the_object_bare() {
    let mut rng = rand::thread_rng();
    let lexicon = lexicon();
    for _ in 0..50 {
        let group = gen_oddity(&mut rng, &lexicon, &odds(0.0, 0.0)).unwrap();
        assert!(lexicon.objects.contains(&group.noun));
        assert!(group.modifiers.is_empty());
    }
}

#[test]
fn every_word_comes_from_the_list_of_its_role() {
    let mut rng = rand::thread_rng();
    let lexicon = lexicon();
    let odds = odds(0.5, 0.5);
    for _ in 0..500 {
        let group = gen_oddity(&mut rng, &lexicon, &odds).unwrap();
        assert!(is_oddity(&group, &lexicon), "{:?} {:?}", group.noun, group.modifiers);
        assert!(group.modifiers.len() <= 6);
    }
}

#[test]
fn a_draw_comes_from_the_lexicon() {
    let mut rng = rand::thread_rng();
    let lexicon = lexicon();
    let odds = odds(0.5, 0.5);
    for _ in 0..200 {
        let drawn = draw(&mut rng, &lexicon, &odds).unwrap();
        assert!(lexicon.objects.contains(&drawn.object));
        assert!(drawn.weird.map_or(true, |word| lexicon.weird.contains(&word)));
        assert!(drawn.size.map_or(true, |word| lexicon.size.contains(&word)));
        assert!(drawn.shape.map_or(true, |word| lexicon.shape.contains(&word)));
        assert!(drawn.feel.map_or(true, |word| lexicon.feel.contains(&word)));
        assert!(drawn.color.map_or(true, |word| lexicon.color.contains(&word)));
        assert!(drawn.material.map_or(true, |word| lexicon.material.contains(&word)));
    }
}

#[test]
fn every_object_and_every_word_can_be_drawn() {
    let mut rng = rand::thread_rng();
    let lexicon = lexicon();
    let odds = odds(1.0, 0.0);
    let mut objects = Vec::new();
    let mut sizes = Vec::new();
    for _ in 0..2000 {
        let drawn = draw(&mut rng, &lexicon, &odds).unwrap();
        if !objects.contains(&drawn.object) {
            objects.push(drawn.object);
        }
        let size = drawn.size.unwrap();
        if !sizes.contains(&size) {
            sizes.push(size);
        }
    }
    assert_eq!(objects.len(), 3);
    assert_eq!(sizes.len(), 3);
}

#[test]
fn nothing_is_drawn_without_objects() {
    let mut rng = rand::thread_rng();
    let mut lexicon = lexicon();
    lexicon.objects.clear();
    assert!(draw(&mut rng, &lexicon, &odds(1.0, 1.0)).is_none());
    assert!(gen_oddity(&mut rng, &lexicon, &odds(1.0, 1.0)).is_none());
    assert!(gen_phrase(&mut rng, &lexicon, &odds(1.0, 1.0)).is_none());
    assert!(gen_phrase(&mut rng, &lexicon, &odds(0.0, 0.0)).is_none());
}

#[test]
fn an_empty_list_fills_no_role() {
    let mut rng = rand::thread_rng();
    let mut lexicon = one_word_lexicon();
    lexicon.shape.clear();
    lexicon.material.clear();
    let group = gen_oddity(&mut rng, &lexicon, &odds(1.0, 0.0)).unwrap();
    assert_eq!(group.modifiers, adjectives(&["странный", "большой", "мягкий", "синий"]));
}

#[test]
fn a_sure_chance_adds_a_companion() {
    let mut rng = rand::thread_rng();
    let lexicon = one_word_lexicon();
    match gen_phrase(&mut rng, &lexicon, &odds(0.0, 1.0)).unwrap() {
        SyntaxNode::With(group, with_group) => {
            assert_eq!(group.noun.base, "топор");
            assert_eq!(with_group.noun.base, "топор");
            assert!(group.modifiers.is_empty());
            assert!(with_group.modifiers.is_empty());
        }
        SyntaxNode::Noun(_) => panic!("the companion is missing"),
    }
    let node = gen_phrase(&mut rng, &lexicon, &odds(1.0, 1.0)).unwrap();
    assert_eq!(
        node.to_string(),
        Ok("странный большой круглый мягкий синий золотой топор с странным большим круглым мягким синим золотым топором"
            .to_string())
    );
}

#[test]
fn no_chance_adds_no_companion() {
    let mut rng = rand::thread_rng();
    let lexicon = lexicon();
    for _ in 0..50 {
        match gen_phrase(&mut rng, &lexicon, &odds(0.5, 0.0)).unwrap() {
            SyntaxNode::Noun(group) => assert!(is_oddity(&group, &lexicon)),
            SyntaxNode::With(_, _) => panic!("a companion without a chance"),
        }
    }
}

#[test]
fn both_groups_of_a_phrase_come_from_the_lexicon() {
    let mut rng = rand::thread_rng();
    let lexicon = lexicon();
    let odds = odds(0.5, 0.5);
    let mut alone = 0;
    let mut together = 0;
    for _ in 0..500 {
        match gen_phrase(&mut rng, &lexicon, &odds).unwrap() {
            SyntaxNode::Noun(group) => {
                assert!(is_oddity(&group, &lexicon));
                alone += 1;
            }
            SyntaxNode::With(group, with_group) => {
                assert!(is_oddity(&group, &lexicon));
                assert!(is_oddity(&with_group, &lexicon));
                together += 1;
            }
        }
    }
    assert!(alone > 0);
    assert!(together > 0);
}

#[test]
fn composing_keeps_the_fixed_order() {
    let object = regular("топор", Gender::Masculine, Animacy::Inanimate, NounDeclension::T1);
    let full = Draw {
        object,
        weird: Some(Adjective("странный")),
        size: Some(Adjective("большой")),
        shape: Some(Adjective("круглый")),
        feel: Some(Adjective("мягкий")),
        color: Some(Adjective("синий")),
        material: Some(Adjective("золотой")),
    };
    let group = compose(&full);
    assert_eq!(group.noun, object);
    assert_eq!(
        group.modifiers,
        adjectives(&["странный", "большой", "круглый", "мягкий", "синий", "золотой"])
    );
    let some = Draw {
        object,
        weird: None,
        size: Some(Adjective("большой")),
        shape: None,
        feel: None,
        color: Some(Adjective("синий")),
        material: None,
    };
    assert_eq!(compose(&some).modifiers, adjectives(&["большой", "синий"]));
    let none = Draw { object, weird: None, size: None, shape: None, feel: None, color: None, material: None };
    let group = compose(&none);
    assert_eq!(group.noun, object);
    assert!(group.modifiers.is_empty());
    let last = Draw {
        object,
        weird: None,
        size: None,
        shape: None,
        feel: None,
        color: None,
        material: Some(Adjective("золотой")),
    };
    assert_eq!(compose(&last).modifiers, adjectives(&["золотой"]));
}
