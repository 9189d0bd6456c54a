use passgen::category::data::generate_code_point_categories;
use passgen::props::{Age, Bc, BinaryProps, Blk, CodePointAttrs, Gc, Gcb, Insc, Sc};

fn plain(ch: char, blk: Blk, gc: Gc) -> CodePointAttrs {
    CodePointAttrs {
        ch,
        age: Age::V1_1,
        bc: Bc::L,
        blk,
        gc,
        gcb: Gcb::XX,
        insc: Insc::Other,
        sc: Sc::Other,
        flags: BinaryProps::none(),
    }
}

fn ascii_sample() -> Vec<CodePointAttrs> {
    let mut store = Vec::new();
    for c in 'a'..='z' {
        store.push(plain(c, Blk::Ascii, Gc::Ll));
    }
    for c in 'A'..='Z' {
        store.push(plain(c, Blk::Ascii, Gc::Lu));
    }
    for c in '0'..='9' {
        store.push(plain(c, Blk::Ascii, Gc::Nd));
    }
    store.push(plain('!', Blk::Ascii, Gc::Po));
    store.push(plain('-', Blk::Ascii, Gc::Pd));
    store.push(plain(' ', Blk::Ascii, Gc::Zs));
    store.push(plain('\u{1275}', Blk::Ethiopic, Gc::Lo));
    store
}

#[test]
fn the_default_category_list_has_the_fixed_names_in_order() {
    let cats = generate_code_point_categories(&ascii_sample());
    let names: Vec<&str> = cats.iter().map(|c| c.name.as_str()).collect();
    assert_eq!(
        names,
        vec![
            "ASCII Lowercase Letters",
            "ASCII Uppercase Letters",
            "ASCII Digits",
            "ASCII Basic Symbols",
            "ASCII Extended Symbols",
            "ASCII Space",
            "African Characters",
            "CJK Characters",
            "European Characters",
            "Extended Numbers",
            "Extended Symbols and Emojis",
            "First Nations Characters",
            "Indian Characters",
            "IPA Extended Characters and Modifier Letters",
            "Latin Lowercase Characters",
            "Latin Uppercase Characters",
            "Latin Symbols",
            "Other Latin Characters",
            "Linear A and Linear B Characters",
            "Non-ASCII Space",
            "Non-CJK Central and East Asian Characters",
            "South and Southeast Asian Characters",
            "West Asian and Middle Eastern Characters",
        ]
    );
    for cat in &cats {
        assert!(cat.is_enabled());
        assert_eq!(cat.get_min_required_chars(), 1);
    }
}

#[test]
fn partitioning_assigns_symbols_to_the_matching_categories() {
    let cats = generate_code_point_categories(&ascii_sample());
    let lower: Vec<char> = cats[0].get_active_chars();
    assert_eq!(lower, ('a'..='z').collect::<Vec<char>>());
    let upper: Vec<char> = cats[1].get_active_chars();
    assert_eq!(upper, ('A'..='Z').collect::<Vec<char>>());
    let digits: Vec<char> = cats[2].get_active_chars();
    assert_eq!(digits, ('0'..='9').collect::<Vec<char>>());
    let basic: Vec<char> = cats[3].get_active_chars();
    assert_eq!(basic, vec!['!']);
    let extended: Vec<char> = cats[4].get_active_chars();
    assert_eq!(extended, vec!['-']);
    let space: Vec<char> = cats[5].get_active_chars();
    assert_eq!(space, vec![' ']);
    let african: Vec<char> = cats[6].get_active_chars();
    assert_eq!(african, vec!['\u{1275}']);
    // Nothing in this store belongs to the remaining categories.
    for cat in &cats[7..] {
        assert_eq!(cat.get_code_point_count(), 0);
    }
}

#[test]
fn classification_is_deterministic_for_a_fixed_store() {
    let store = ascii_sample();
    let a = generate_code_point_categories(&store);
    let b = generate_code_point_categories(&store);
    assert_eq!(a.len(), b.len());
    for (x, y) in a.iter().zip(b.iter()) {
        assert_eq!(x.name, y.name);
        assert_eq!(x.get_active_chars(), y.get_active_chars());
    }
}

#[test]
fn toggling_symbols_changes_the_active_set_only() {
    let mut cats = generate_code_point_categories(&ascii_sample());
    let digits = &mut cats[2];
    assert_eq!(digits.get_code_point_count(), 10);
    assert_eq!(digits.get_active_code_point_count(), 10);
    digits.code_points[0].update_char_status(false);
    assert_eq!(digits.get_code_point_count(), 10);
    assert_eq!(digits.get_active_code_point_count(), 9);
    let active: Vec<char> = digits.get_active_chars();
    assert_eq!(active, ('1'..='9').collect::<Vec<char>>());
    assert_eq!(digits.get_active_code_points().len(), 9);
    assert_eq!(digits.get_code_points().len(), 10);
}

#[test]
fn toggling_a_category_flips_its_enabled_flag() {
    let mut cats = generate_code_point_categories(&ascii_sample());
    assert!(cats[0].is_enabled());
    cats[0].toggle_enabled();
    assert!(!cats[0].is_enabled());
    cats[0].toggle_enabled();
    assert!(cats[0].is_enabled());
}

#[test]
fn setting_a_minimum_is_observable() {
    let mut cats = generate_code_point_categories(&ascii_sample());
    cats[2].set_min_required_chars(4);
    assert_eq!(cats[2].get_min_required_chars(), 4);
}

#[test]
fn the_preview_shows_the_whole_set_when_it_fits() {
    let cats = generate_code_point_categories(&ascii_sample());
    assert_eq!(cats[2].get_hint().as_str(), "0123456789");
}

#[test]
fn the_preview_truncates_long_sets_with_an_ellipsis() {
    let cats = generate_code_point_categories(&ascii_sample());
    assert_eq!(cats[0].get_hint().as_str(), "abcdefghijklmnopqrst...");
}
