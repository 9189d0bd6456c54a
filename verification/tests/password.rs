use passgen::category::CodePointCategory;
use passgen::code_point::{CodePointConfig, FilterConditionOp};
use passgen::config::{Config, ConfigError};
use passgen::props::{Age, Bc, BinaryProps, Blk, CodePointAttrs, Gc, Gcb, Insc, Sc};
use passgen::{chars_to_string, generate_random_chars_from_char_vec, generate_rng};

fn plain(ch: char, blk: Blk, gc: Gc) -> CodePointAttrs {
    CodePointAttrs {
        ch,
        age: Age::V1_1,
        bc: Bc::L,
        blk,
        gc,
        gcb: Gcb::XX,
        insc: Insc::Other,
        sc: Sc::Other,
        flags: BinaryProps::none(),
    }
}

fn category_of(name: &str, chars: &[char], min: usize) -> CodePointCategory {
    let mut cat = CodePointCategory::new(name, true, FilterConditionOp::And(vec![]), min);
    cat.code_points = chars
        .iter()
        .map(|&c| CodePointConfig { enabled: true, attrs: plain(c, Blk::Ascii, Gc::Ll) })
        .collect();
    cat
}

fn digits_and_letters(min_digits: usize, length: usize) -> Config {
    let digits: Vec<char> = ('0'..='9').collect();
    let letters: Vec<char> = ('a'..='z').collect();
    Config {
        password_length: length,
        categories: vec![
            category_of("Digits", &digits, min_digits),
            category_of("Letters", &letters, 0),
        ],
    }
}

#[test]
fn generated_passwords_have_the_exact_target_length() {
    let config = digits_and_letters(2, 5);
    for _ in 0..50 {
        let password = config.generate_password().unwrap();
        assert_eq!(password.chars().count(), 5);
    }
}

#[test]
fn generated_passwords_satisfy_every_minimum_and_stay_in_the_pool() {
    let config = digits_and_letters(2, 5);
    for _ in 0..200 {
        let password = config.generate_password().unwrap();
        let digit_count = password.chars().filter(|c| c.is_ascii_digit()).count();
        assert!(digit_count >= 2, "password {:?} has too few digits", password);
        for c in password.chars() {
            assert!(
                c.is_ascii_digit() || ('a'..='z').contains(&c),
                "password {:?} holds a foreign character {:?}",
                password,
                c
            );
        }
    }
}

#[test]
fn minimums_exceeding_the_length_are_rejected_with_no_password() {
    let config = digits_and_letters(6, 5);
    assert_eq!(config.generate_password(), Err(ConfigError::MinimumsExceedLength));
}

#[test]
fn an_empty_active_set_is_excluded_and_not_counted() {
    let digits: Vec<char> = ('0'..='9').collect();
    let mut emptied = category_of("Emptied", &['x', 'y'], 5);
    for cp in emptied.code_points.iter_mut() {
        cp.update_char_status(false);
    }
    let config = Config {
        password_length: 3,
        categories: vec![emptied, category_of("Digits", &digits, 1)],
    };
    // The emptied category's minimum of 5 is not counted, and none of its
    // characters can appear.
    let password = config.generate_password().unwrap();
    assert_eq!(password.chars().count(), 3);
    for c in password.chars() {
        assert!(c.is_ascii_digit());
    }
}

#[test]
fn a_configuration_with_no_characters_to_draw_is_rejected() {
    let mut emptied = category_of("Emptied", &['x'], 0);
    emptied.code_points[0].update_char_status(false);
    let config = Config { password_length: 3, categories: vec![emptied] };
    assert_eq!(config.generate_password(), Err(ConfigError::NoActiveCharacters));
}

#[test]
fn a_zero_length_password_is_empty() {
    let config = digits_and_letters(0, 0);
    assert_eq!(config.generate_password().unwrap(), "");
}

#[test]
fn disabled_categories_contribute_nothing() {
    let digits: Vec<char> = ('0'..='9').collect();
    let letters: Vec<char> = ('a'..='z').collect();
    let mut letters_cat = category_of("Letters", &letters, 0);
    letters_cat.toggle_enabled();
    let config = Config {
        password_length: 8,
        categories: vec![category_of("Digits", &digits, 1), letters_cat],
    };
    let password = config.generate_password().unwrap();
    for c in password.chars() {
        assert!(c.is_ascii_digit(), "password {:?} drew from a disabled category", password);
    }
}

#[test]
fn the_total_minimum_counts_active_categories_only() {
    let digits: Vec<char> = ('0'..='9').collect();
    let letters: Vec<char> = ('a'..='z').collect();
    let mut disabled = category_of("Letters", &letters, 7);
    disabled.toggle_enabled();
    let mut emptied = category_of("Emptied", &['x'], 9);
    emptied.code_points[0].update_char_status(false);
    let config = Config {
        password_length: 10,
        categories: vec![category_of("Digits", &digits, 3), disabled, emptied],
    };
    assert_eq!(config.get_min_required_chars_for_active_categories(), 3);
}

#[test]
fn every_ordering_of_a_fixed_draw_is_reachable_and_roughly_uniform() {
    let config = Config {
        password_length: 2,
        categories: vec![category_of("A", &['a'], 1), category_of("B", &['b'], 1)],
    };
    let mut ab = 0usize;
    let mut ba = 0usize;
    let trials = 2000;
    for _ in 0..trials {
        match config.generate_password().unwrap().as_str() {
            "ab" => ab += 1,
            "ba" => ba += 1,
            other => panic!("unexpected password {:?}", other),
        }
    }
    assert!(ab > 0 && ba > 0, "one ordering never appeared: ab={} ba={}", ab, ba);
    // Nine standard deviations around the mean of a fair coin.
    assert!(ab > 800 && ab < 1200, "orderings look biased: ab={} ba={}", ab, ba);
}

#[test]
fn password_length_accessors_round_trip() {
    let mut config = digits_and_letters(1, 5);
    assert_eq!(config.get_password_length(), 5);
    config.set_password_length(9);
    assert_eq!(config.get_password_length(), 9);
    assert_eq!(config.get_all_categories().len(), 2);
}

#[test]
fn random_draws_have_the_asked_length_and_stay_in_the_set() {
    let mut rng = generate_rng();
    let chars = vec!['p', 'q', 'r'];
    let drawn = generate_random_chars_from_char_vec(chars.clone(), 40, &mut rng);
    assert_eq!(drawn.len(), 40);
    let mut seen_p = false;
    for c in &drawn {
        assert!(chars.contains(c));
        if *c == 'p' {
            seen_p = true;
        }
    }
    // A draw of 40 from three characters misses one only with probability
    // (2/3)^40; treat that as never.
    assert!(seen_p);
}

#[test]
fn chars_to_string_keeps_characters_and_order() {
    let v = vec!['p', 'a', 's', 's'];
    assert_eq!(chars_to_string(&v), "pass");
}

#[test]
fn the_default_configuration_generates_from_its_active_categories() {
    // A small store: ASCII letters, digits, a space and one symbol.
    let mut store = Vec::new();
    for c in 'a'..='z' {
        store.push(plain(c, Blk::Ascii, Gc::Ll));
    }
    for c in '0'..='9' {
        store.push(plain(c, Blk::Ascii, Gc::Nd));
    }
    store.push(plain('!', Blk::Ascii, Gc::Po));
    store.push(plain(' ', Blk::Ascii, Gc::Zs));

    let mut config = Config::new(&store);
    assert_eq!(config.get_password_length(), 128);
    // Four categories hold symbols here: lowercase, digits, basic symbols,
    // and the ASCII space; each asks for one character.
    assert_eq!(config.get_min_required_chars_for_active_categories(), 4);

    config.set_password_length(32);
    let password = config.generate_password().unwrap();
    assert_eq!(password.chars().count(), 32);
    assert!(password.chars().any(|c| c.is_ascii_lowercase()));
    assert!(password.chars().any(|c| c.is_ascii_digit()));
    assert!(password.chars().any(|c| c == '!'));
    assert!(password.chars().any(|c| c == ' '));
    for c in password.chars() {
        assert!(c.is_ascii_lowercase() || c.is_ascii_digit() || c == '!' || c == ' ');
    }
}
