use passgen::code_point::{CodePointConfig, FilterCondition, FilterConditionOp, FilterValue};
use passgen::props::{Age, Bc, BinaryProp, BinaryProps, Blk, CodePointAttrs, Gc, Gcb, Insc, Sc};

fn attrs(ch: char, blk: Blk, gc: Gc) -> CodePointAttrs {
    CodePointAttrs {
        ch,
        age: Age::V1_1,
        bc: Bc::L,
        blk,
        gc,
        gcb: Gcb::XX,
        insc: Insc::Other,
        sc: Sc::Other,
        flags: BinaryProps::none(),
    }
}

fn entry(ch: char, blk: Blk, gc: Gc) -> CodePointConfig {
    CodePointConfig { enabled: true, attrs: attrs(ch, blk, gc) }
}

#[test]
fn atomic_accepting_condition_tests_membership() {
    let f = FilterConditionOp::Cond(FilterCondition::new(
        FilterValue::PropGc(vec![Gc::Ll, Gc::Lu]),
        true,
    ));
    assert!(entry('a', Blk::Ascii, Gc::Ll).matches_filter_condition_op(&f));
    assert!(entry('A', Blk::Ascii, Gc::Lu).matches_filter_condition_op(&f));
    assert!(!entry('1', Blk::Ascii, Gc::Nd).matches_filter_condition_op(&f));
}

#[test]
fn atomic_rejecting_condition_inverts_the_test() {
    let f = FilterConditionOp::Cond(FilterCondition::new(FilterValue::PropGc(vec![Gc::Ll]), false));
    assert!(!entry('a', Blk::Ascii, Gc::Ll).matches_filter_condition_op(&f));
    assert!(entry('1', Blk::Ascii, Gc::Nd).matches_filter_condition_op(&f));
}

#[test]
fn empty_and_is_vacuously_true_and_empty_or_is_false() {
    let and = FilterConditionOp::And(vec![]);
    let or = FilterConditionOp::Or(vec![]);
    let e = entry('x', Blk::Ascii, Gc::Ll);
    assert!(e.matches_filter_condition_op(&and));
    assert!(!e.matches_filter_condition_op(&or));
}

#[test]
fn and_or_not_compose() {
    let is_ascii = FilterConditionOp::Cond(FilterCondition::new(
        FilterValue::PropBlk(vec![Blk::Ascii]),
        true,
    ));
    let is_digit =
        FilterConditionOp::Cond(FilterCondition::new(FilterValue::PropGc(vec![Gc::Nd]), true));
    let both = FilterConditionOp::And(vec![is_ascii, is_digit]);
    assert!(entry('1', Blk::Ascii, Gc::Nd).matches_filter_condition_op(&both));
    assert!(!entry('a', Blk::Ascii, Gc::Ll).matches_filter_condition_op(&both));

    let is_letter =
        FilterConditionOp::Cond(FilterCondition::new(FilterValue::PropGc(vec![Gc::Ll]), true));
    let is_space =
        FilterConditionOp::Cond(FilterCondition::new(FilterValue::PropGc(vec![Gc::Zs]), true));
    let either = FilterConditionOp::Or(vec![is_letter, is_space]);
    assert!(entry('a', Blk::Ascii, Gc::Ll).matches_filter_condition_op(&either));
    assert!(!entry('1', Blk::Ascii, Gc::Nd).matches_filter_condition_op(&either));

    let not_either = FilterConditionOp::Not(Box::new(either));
    assert!(!entry('a', Blk::Ascii, Gc::Ll).matches_filter_condition_op(&not_either));
    assert!(entry('1', Blk::Ascii, Gc::Nd).matches_filter_condition_op(&not_either));
}

#[test]
fn binary_property_condition_reads_the_flag() {
    let wants_deprecated = FilterConditionOp::Cond(FilterCondition::new(
        FilterValue::PropBinary(BinaryProp::Dep, true),
        true,
    ));
    let mut e = entry('a', Blk::Ascii, Gc::Ll);
    assert!(!e.matches_filter_condition_op(&wants_deprecated));
    e.attrs.flags.dep = true;
    assert!(e.matches_filter_condition_op(&wants_deprecated));
}

#[test]
fn numeric_identity_condition_tests_the_code_point_value() {
    let f = FilterConditionOp::Cond(FilterCondition::new(
        FilterValue::PropU32(vec![0x21, 0x40]),
        true,
    ));
    assert!(entry('!', Blk::Ascii, Gc::Po).matches_filter_condition_op(&f));
    assert!(entry('@', Blk::Ascii, Gc::Po).matches_filter_condition_op(&f));
    assert!(!entry('#', Blk::Ascii, Gc::Po).matches_filter_condition_op(&f));
}

#[test]
fn age_script_and_bidi_conditions_test_their_attributes() {
    let old_enough =
        FilterConditionOp::Cond(FilterCondition::new(FilterValue::PropAge(vec![Age::V5_0]), true));
    let mut e = entry('a', Blk::Balinese, Gc::Lo);
    assert!(!e.matches_filter_condition_op(&old_enough));
    e.attrs.age = Age::V5_0;
    assert!(e.matches_filter_condition_op(&old_enough));

    let latin =
        FilterConditionOp::Cond(FilterCondition::new(FilterValue::PropSc(vec![Sc::Latn]), true));
    assert!(!e.matches_filter_condition_op(&latin));
    e.attrs.sc = Sc::Latn;
    assert!(e.matches_filter_condition_op(&latin));

    let no_rtl =
        FilterConditionOp::Cond(FilterCondition::new(FilterValue::PropBc(vec![Bc::R]), false));
    assert!(e.matches_filter_condition_op(&no_rtl));
    e.attrs.bc = Bc::R;
    assert!(!e.matches_filter_condition_op(&no_rtl));
}

#[test]
fn symbol_entry_reads_its_character_and_flag() {
    let mut e = entry('q', Blk::Ascii, Gc::Ll);
    assert_eq!(e.get_char(), 'q');
    assert!(e.is_enabled());
    e.update_char_status(false);
    assert!(!e.is_enabled());
}
