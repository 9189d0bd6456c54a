use passgen::code_point::generate_all_code_points;
use passgen::props::{Age, Bc, BinaryProps, Blk, CodePointAttrs, Gc, Gcb, Insc, Sc};

fn plain(ch: char, blk: Blk, gc: Gc) -> CodePointAttrs {
    CodePointAttrs {
        ch,
        age: Age::V1_1,
        bc: Bc::L,
        blk,
        gc,
        gcb: Gcb::XX,
        insc: Insc::Other,
        sc: Sc::Other,
        flags: BinaryProps::none(),
    }
}

fn kept_chars(store: &Vec<CodePointAttrs>) -> Vec<char> {
    generate_all_code_points(store).iter().map(|c| c.attrs.ch).collect()
}

#[test]
fn ordinary_letters_and_digits_are_kept_in_order() {
    let store = vec![
        plain('a', Blk::Ascii, Gc::Ll),
        plain('1', Blk::Ascii, Gc::Nd),
        plain('Z', Blk::Ascii, Gc::Lu),
    ];
    assert_eq!(kept_chars(&store), vec!['a', '1', 'Z']);
    for cpc in generate_all_code_points(&store) {
        assert!(cpc.enabled);
    }
}

#[test]
fn control_and_other_excluded_general_categories_are_dropped() {
    for gc in [Gc::Cc, Gc::Cf, Gc::Cn, Gc::Co, Gc::Cs, Gc::Mc, Gc::Mn, Gc::Zl, Gc::Zp] {
        let store = vec![plain('x', Blk::Ascii, gc)];
        assert!(kept_chars(&store).is_empty(), "{:?} should be excluded", gc);
    }
}

#[test]
fn deprecated_symbols_are_dropped() {
    let mut a = plain('x', Blk::Ascii, Gc::Ll);
    a.flags.dep = true;
    assert!(kept_chars(&vec![a]).is_empty());
}

#[test]
fn excluded_bidi_classes_are_dropped() {
    let mut a = plain('x', Blk::Ascii, Gc::Ll);
    a.bc = Bc::AL;
    assert!(kept_chars(&vec![a]).is_empty());
    let mut b = plain('x', Blk::Ascii, Gc::Ll);
    b.bc = Bc::R;
    assert!(kept_chars(&vec![b]).is_empty());
}

#[test]
fn unsupported_blocks_are_dropped() {
    for blk in [Blk::Specials, Blk::Vithkuqi, Blk::CjkExtB, Blk::Toto] {
        let store = vec![plain('x', blk, Gc::Ll)];
        assert!(kept_chars(&store).is_empty(), "{:?} should be excluded", blk);
    }
}

#[test]
fn prepended_concatenation_marks_are_dropped() {
    let mut a = plain('x', Blk::Ascii, Gc::Ll);
    a.gcb = Gcb::PP;
    assert!(kept_chars(&vec![a]).is_empty());
}

#[test]
fn stacking_consonants_are_dropped() {
    let mut a = plain('x', Blk::Ascii, Gc::Ll);
    a.insc = Insc::ConsonantWithStacker;
    assert!(kept_chars(&vec![a]).is_empty());
}

#[test]
fn explicitly_excluded_code_points_are_dropped() {
    let a = plain('\u{332c}', Blk::CjkCompat, Gc::So);
    assert!(kept_chars(&vec![a]).is_empty());
    let b = plain('\u{1f908}', Blk::SupSymbolsAndPictographs, Gc::So);
    assert!(kept_chars(&vec![b]).is_empty());
}

#[test]
fn age_gated_blocks_keep_only_allow_listed_ages() {
    let mut ok = plain('x', Blk::Balinese, Gc::Lo);
    ok.age = Age::V5_0;
    assert_eq!(kept_chars(&vec![ok]), vec!['x']);

    let mut late = plain('x', Blk::Balinese, Gc::Lo);
    late.age = Age::V6_0;
    assert!(kept_chars(&vec![late]).is_empty());

    let mut brahmi_ok = plain('y', Blk::Brahmi, Gc::Lo);
    brahmi_ok.age = Age::V6_0;
    assert_eq!(kept_chars(&vec![brahmi_ok]), vec!['y']);
}

#[test]
fn chakma_block_age_gates_intersect_to_nothing() {
    // Three distinct corrections gate the Chakma block, with allow-lists
    // whose intersection is empty, so no symbol of the block survives.
    for age in [Age::V6_1, Age::V11_0, Age::V12_0, Age::V8_0] {
        let mut a = plain('x', Blk::Chakma, Gc::Lo);
        a.age = age;
        assert!(kept_chars(&vec![a]).is_empty(), "{:?} should be excluded", age);
    }
}

#[test]
fn latin_ext_d_keeps_modifier_letters_of_age_fourteen() {
    let mut lm = plain('x', Blk::LatinExtD, Gc::Lm);
    lm.age = Age::V14_0;
    assert_eq!(kept_chars(&vec![lm]), vec!['x']);

    let mut lo = plain('x', Blk::LatinExtD, Gc::Lo);
    lo.age = Age::V14_0;
    assert!(kept_chars(&vec![lo]).is_empty());

    let mut listed = plain('x', Blk::LatinExtD, Gc::Lo);
    listed.age = Age::V7_0;
    assert_eq!(kept_chars(&vec![listed]), vec!['x']);
}
