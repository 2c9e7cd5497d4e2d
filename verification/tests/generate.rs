use password_manager::classes::ClassSpec;
use password_manager::generate::{get_random_string, GenerateError};
use password_manager::password::{generate_random, get_classes, pin};
use password_manager::random::RandomSource;

const SYMBOLS: [char; 25] = [
    '!', '#', '$', '%', '&', '(', ')', '*', '+', '-', '/', ':', ';', '<', '=', '>', '?', '@', '[',
    ']', '^', '_', '{', '|', '}',
];

fn all_four() -> Vec<ClassSpec> {
    vec![
        ClassSpec::numbers(),
        ClassSpec::lowercase_letters(),
        ClassSpec::uppercase_letters(),
        ClassSpec::symbols(),
    ]
}

fn distinct(text: &str) -> usize {
    let mut seen: Vec<char> = Vec::new();
    for c in text.chars() {
        if !seen.contains(&c) {
            seen.push(c);
        }
    }
    seen.len()
}

#[test]
fn range_class_holds_its_ends_and_nothing_outside() {
    let class = ClassSpec::range('c', 'f').unwrap();
    assert!(class.contains('c'));
    assert!(class.contains('d'));
    assert!(class.contains('f'));
    assert!(!class.contains('b'));
    assert!(!class.contains('g'));
    assert!(!class.contains('C'));
}

#[test]
fn range_class_of_one_character() {
    let class = ClassSpec::range('x', 'x').unwrap();
    assert!(class.contains('x'));
    assert!(!class.contains('w'));
    assert!(!class.contains('y'));
    let mut rng = RandomSource::from_seed(1);
    for _ in 0..20 {
        assert_eq!(class.sample(&mut rng), 'x');
    }
}

#[test]
fn empty_range_is_no_class() {
    assert!(ClassSpec::range('b', 'a').is_none());
    assert!(ClassSpec::range('z', 'a').is_none());
}

#[test]
fn listed_class_holds_exactly_its_characters() {
    let class = ClassSpec::listed(vec!['x', '!', 'Q']).unwrap();
    assert!(class.contains('x'));
    assert!(class.contains('!'));
    assert!(class.contains('Q'));
    assert!(!class.contains('q'));
    assert!(!class.contains('y'));
}

#[test]
fn empty_list_is_no_class() {
    assert!(ClassSpec::listed(Vec::new()).is_none());
}

#[test]
fn numbers_class_is_one_to_nine() {
    let class = ClassSpec::numbers();
    for c in '1'..='9' {
        assert!(class.contains(c));
    }
    assert!(!class.contains('0'));
    assert!(!class.contains('/'));
    assert!(!class.contains(':'));
    assert!(!class.contains('a'));
}

#[test]
fn letter_classes_are_the_two_alphabets() {
    let lower = ClassSpec::lowercase_letters();
    let upper = ClassSpec::uppercase_letters();
    for c in 'a'..='z' {
        assert!(lower.contains(c));
        assert!(!upper.contains(c));
    }
    for c in 'A'..='Z' {
        assert!(upper.contains(c));
        assert!(!lower.contains(c));
    }
    assert!(!lower.contains('`'));
    assert!(!lower.contains('{'));
    assert!(!upper.contains('@'));
    assert!(!upper.contains('['));
}

#[test]
fn symbols_class_is_the_listed_symbols() {
    let class = ClassSpec::symbols();
    for c in SYMBOLS {
        assert!(class.contains(c));
    }
    for c in [' ', '`', ',', '.', '"', '\'', '\\', '~', 'a', 'Z', '5'] {
        assert!(!class.contains(c));
    }
}

#[test]
fn clone_of_a_class_holds_the_same_characters() {
    let listed = ClassSpec::listed(vec!['a', 'm']).unwrap();
    let copy = listed.clone();
    for c in 'a'..='z' {
        assert_eq!(copy.contains(c), listed.contains(c));
    }
    let range = ClassSpec::range('0', '4').unwrap();
    let copy = range.clone();
    for c in '0'..='9' {
        assert_eq!(copy.contains(c), range.contains(c));
    }
}

#[test]
fn sample_stays_inside_the_class() {
    let mut rng = RandomSource::from_seed(7);
    let range = ClassSpec::range('k', 'p').unwrap();
    let listed = ClassSpec::listed(vec!['#', 'b', '7']).unwrap();
    for _ in 0..300 {
        assert!(range.contains(range.sample(&mut rng)));
        assert!(listed.contains(listed.sample(&mut rng)));
    }
}

#[test]
fn sample_of_a_range_varies() {
    let mut rng = RandomSource::from_seed(11);
    let class = ClassSpec::lowercase_letters();
    let text: String = (0..200).map(|_| class.sample(&mut rng)).collect();
    assert!(distinct(&text) > 1);
}

#[test]
fn sample_of_a_list_varies() {
    let mut rng = RandomSource::from_seed(12);
    let class = ClassSpec::symbols();
    let text: String = (0..200).map(|_| class.sample(&mut rng)).collect();
    assert!(distinct(&text) > 1);
}

#[test]
fn generated_string_has_the_requested_length() {
    let mut rng = RandomSource::from_seed(3);
    let classes = all_four();
    for length in 0..=120usize {
        let text = get_random_string(length, &classes, &mut rng).unwrap();
        assert_eq!(text.chars().count(), length);
    }
}

#[test]
fn leading_positions_follow_the_order_of_the_classes() {
    let mut rng = RandomSource::from_seed(4);
    let classes = all_four();
    for length in 1..=40usize {
        let text: Vec<char> = get_random_string(length, &classes, &mut rng)
            .unwrap()
            .chars()
            .collect();
        for (position, class) in classes.iter().enumerate() {
            if position < length {
                assert!(class.contains(text[position]));
            }
        }
    }
}

#[test]
fn every_class_is_represented_when_length_permits() {
    let mut rng = RandomSource::from_seed(5);
    let classes = all_four();
    for length in classes.len()..=60 {
        let text = get_random_string(length, &classes, &mut rng).unwrap();
        for class in classes.iter() {
            assert!(text.chars().any(|c| class.contains(c)));
        }
    }
}

#[test]
fn every_character_comes_from_some_class() {
    let mut rng = RandomSource::from_seed(6);
    let classes = vec![
        ClassSpec::range('a', 'c').unwrap(),
        ClassSpec::listed(vec!['-', '+']).unwrap(),
    ];
    for length in 0..=80usize {
        let text = get_random_string(length, &classes, &mut rng).unwrap();
        for c in text.chars() {
            assert!(classes.iter().any(|class| class.contains(c)));
        }
    }
}

#[test]
fn later_positions_use_more_than_one_class() {
    let mut rng = RandomSource::from_seed(8);
    let classes = vec![ClassSpec::lowercase_letters(), ClassSpec::uppercase_letters()];
    let text: Vec<char> = get_random_string(200, &classes, &mut rng)
        .unwrap()
        .chars()
        .collect();
    let tail = &text[2..];
    assert!(tail.iter().any(|c| c.is_ascii_lowercase()));
    assert!(tail.iter().any(|c| c.is_ascii_uppercase()));
}

#[test]
fn shorter_than_the_class_list_uses_the_leading_classes() {
    let mut rng = RandomSource::from_seed(9);
    let classes = all_four();
    for _ in 0..50 {
        let text: Vec<char> = get_random_string(2, &classes, &mut rng)
            .unwrap()
            .chars()
            .collect();
        assert_eq!(text.len(), 2);
        assert!(('1'..='9').contains(&text[0]));
        assert!(text[1].is_ascii_lowercase());
    }
    for _ in 0..50 {
        let text = get_random_string(1, &classes, &mut rng).unwrap();
        assert_eq!(text.chars().count(), 1);
        assert!(text.chars().all(|c| ('1'..='9').contains(&c)));
    }
}

#[test]
fn length_zero_gives_the_empty_string() {
    let mut rng = RandomSource::from_seed(10);
    assert_eq!(get_random_string(0, &all_four(), &mut rng), Ok(String::new()));
    assert_eq!(get_random_string(0, &Vec::new(), &mut rng), Ok(String::new()));
}

#[test]
fn no_class_and_positive_length_is_an_error() {
    let mut rng = RandomSource::from_seed(10);
    assert_eq!(
        get_random_string(1, &Vec::new(), &mut rng),
        Err(GenerateError::EmptyClassSet)
    );
    assert_eq!(
        get_random_string(50, &Vec::new(), &mut rng),
        Err(GenerateError::EmptyClassSet)
    );
}

#[test]
fn error_has_a_message() {
    assert_eq!(
        GenerateError::EmptyClassSet.message(),
        "no character class to draw from"
    );
}

#[test]
fn same_seed_gives_the_same_string() {
    let classes = all_four();
    let mut first = RandomSource::from_seed(2024);
    let mut second = RandomSource::from_seed(2024);
    for length in [0usize, 1, 4, 17, 64] {
        assert_eq!(
            get_random_string(length, &classes, &mut first),
            get_random_string(length, &classes, &mut second)
        );
    }
}

#[test]
fn different_seeds_give_different_strings() {
    let classes = all_four();
    let mut first = RandomSource::from_seed(1);
    let mut second = RandomSource::from_seed(2);
    assert_ne!(
        get_random_string(64, &classes, &mut first),
        get_random_string(64, &classes, &mut second)
    );
}

#[test]
fn entropy_source_generates_valid_strings() {
    let mut rng = RandomSource::from_entropy().expect("the system has entropy");
    let classes = all_four();
    let text = get_random_string(32, &classes, &mut rng).unwrap();
    assert_eq!(text.chars().count(), 32);
    for class in classes.iter() {
        assert!(text.chars().any(|c| class.contains(c)));
    }
}

#[test]
fn classes_follow_the_switches() {
    let probe = ['5', 'g', 'G', '#'];
    let cases = [
        ((false, false, false), vec![]),
        ((true, false, false), vec!['5']),
        ((false, false, true), vec!['g', 'G']),
        ((false, true, false), vec!['#']),
        ((true, false, true), vec!['5', 'g', 'G']),
        ((true, true, false), vec!['5', '#']),
        ((false, true, true), vec!['g', 'G', '#']),
        ((true, true, true), vec!['5', 'g', 'G', '#']),
    ];
    for ((numbers, symbols, letters), expected) in cases {
        let classes = get_classes(numbers, symbols, letters);
        assert_eq!(classes.len(), expected.len());
        for (class, member) in classes.iter().zip(expected.iter()) {
            for c in probe {
                assert_eq!(class.contains(c), c == *member);
            }
        }
    }
}

#[test]
fn generate_random_with_every_switch_on() {
    let mut rng = RandomSource::from_seed(21);
    for length in 4..=40usize {
        let text = generate_random(length, true, true, true, &mut rng).unwrap();
        assert_eq!(text.chars().count(), length);
        assert!(text.chars().any(|c| ('1'..='9').contains(&c)));
        assert!(text.chars().any(|c| c.is_ascii_lowercase()));
        assert!(text.chars().any(|c| c.is_ascii_uppercase()));
        assert!(text.chars().any(|c| SYMBOLS.contains(&c)));
    }
}

#[test]
fn generate_random_with_numbers_only() {
    let mut rng = RandomSource::from_seed(22);
    let text = generate_random(30, true, false, false, &mut rng).unwrap();
    assert_eq!(text.chars().count(), 30);
    assert!(text.chars().all(|c| ('1'..='9').contains(&c)));
    assert!(distinct(&text) > 1);
}

#[test]
fn generate_random_with_symbols_only() {
    let mut rng = RandomSource::from_seed(23);
    let text = generate_random(30, false, true, false, &mut rng).unwrap();
    assert_eq!(text.chars().count(), 30);
    assert!(text.chars().all(|c| SYMBOLS.contains(&c)));
}

#[test]
fn generate_random_with_every_switch_off() {
    let mut rng = RandomSource::from_seed(24);
    assert_eq!(
        generate_random(8, false, false, false, &mut rng),
        Err(GenerateError::EmptyClassSet)
    );
    assert_eq!(
        generate_random(0, false, false, false, &mut rng),
        Ok(String::new())
    );
}

#[test]
fn pin_holds_decimal_digits() {
    let mut rng = RandomSource::from_seed(25);
    for length in 0..=30usize {
        let digits = pin(length, &mut rng);
        assert_eq!(digits.chars().count(), length);
        assert!(digits.chars().all(|c| c.is_ascii_digit()));
    }
    let long = pin(300, &mut rng);
    assert!(distinct(&long) > 1);
}

#[test]
fn same_seed_makes_the_same_source() {
    assert_eq!(RandomSource::from_seed(7), RandomSource::from_seed(7));
    assert_eq!(RandomSource::from_seed(0), RandomSource::from_seed(0));
    assert_eq!(
        RandomSource::from_seed(u64::MAX),
        RandomSource::from_seed(u64::MAX)
    );
}

#[test]
fn different_seeds_make_different_sources() {
    assert_ne!(RandomSource::from_seed(7), RandomSource::from_seed(8));
    assert_ne!(RandomSource::from_seed(0), RandomSource::from_seed(1));
}

#[test]
fn a_draw_moves_the_source_on() {
    let fresh = RandomSource::from_seed(7);
    let mut used = RandomSource::from_seed(7);
    let _ = ClassSpec::lowercase_letters().sample(&mut used);
    assert_ne!(used, fresh);
}

#[test]
fn entropy_sources_differ_from_each_other() {
    let first = RandomSource::from_entropy().expect("the system has entropy");
    let second = RandomSource::from_entropy().expect("the system has entropy");
    assert_ne!(first, second);
}

#[test]
fn same_source_state_gives_the_same_draws() {
    let classes = all_four();
    let mut first = RandomSource::from_seed(99);
    let mut second = RandomSource::from_seed(99);
    for length in [5usize, 0, 33, 4, 1] {
        let a = get_random_string(length, &classes, &mut first).unwrap();
        let b = get_random_string(length, &classes, &mut second).unwrap();
        assert_eq!(a, b);
        assert_eq!(first, second);
    }
    assert_eq!(pin(9, &mut first), pin(9, &mut second));
    assert_eq!(first, second);
}

#[test]
fn leading_positions_draw_no_class() {
    // With as many characters as classes, only the characters are drawn:
    // drawing them one by one from the classes gives the same string.
    let classes = all_four();
    let mut whole = RandomSource::from_seed(5);
    let mut single = RandomSource::from_seed(5);
    let text = get_random_string(4, &classes, &mut whole).unwrap();
    let one_by_one: String = classes.iter().map(|class| class.sample(&mut single)).collect();
    assert_eq!(text, one_by_one);
    assert_eq!(whole, single);
}

#[test]
fn a_refused_or_empty_request_draws_nothing() {
    let untouched = RandomSource::from_seed(6);
    let mut rng = RandomSource::from_seed(6);
    assert!(get_random_string(3, &Vec::new(), &mut rng).is_err());
    assert_eq!(rng, untouched);
    assert_eq!(get_random_string(0, &all_four(), &mut rng), Ok(String::new()));
    assert_eq!(rng, untouched);
    assert_eq!(pin(0, &mut rng), "");
    assert_eq!(rng, untouched);
}
