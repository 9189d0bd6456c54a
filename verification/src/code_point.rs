//! The predicate engine and the catalog builder: boolean filter trees over a
//! single symbol's attributes, their evaluation, and the global exclusion
//! filters that produce the master list of eligible symbols.
use crate::props::{
    ages_contain, bcs_contain, blks_contain, gcbs_contain, gcs_contain, ids_contain, inscs_contain,
    scs_contain, Age, Bc, BinaryProp, Blk, CodePointAttrs, Gc, Gcb, Insc, Sc,
};
use vstd::prelude::*;

verus! {

/// The acceptable-value set of one atomic filter: a list of attribute values
/// of one typed kind, or one binary property paired with its expected value.
#[derive(Clone, Debug)]
pub enum FilterValue {
    PropAge(Vec<Age>),
    PropBc(Vec<Bc>),
    PropBinary(BinaryProp, bool),
    PropBlk(Vec<Blk>),
    PropGc(Vec<Gc>),
    PropGcb(Vec<Gcb>),
    PropInsc(Vec<Insc>),
    PropSc(Vec<Sc>),
    PropU32(Vec<u32>),
}

/// An atomic filter: a raw attribute test plus an inclusion polarity. With
/// `accept` false the raw test is inverted, so a single atomic node can
/// express "is not in this set".
#[derive(Clone, Debug)]
pub struct FilterCondition {
    pub values: FilterValue,
    pub accept: bool,
}

impl FilterCondition {
    /// Builds an atomic filter from its acceptable-value set and polarity.
    pub fn new(values: FilterValue, accept: bool) -> (r: Self)
        ensures
            r == (FilterCondition { values, accept }),
    {
        FilterCondition { values, accept }
    }
}

/// A node of a boolean filter expression tree: an atomic condition, a
/// conjunction (vacuously true when empty), a disjunction (vacuously false
/// when empty), or a negation. A tree is finite and acyclic by construction:
/// every node owns its children.
#[derive(Debug)]
pub enum FilterConditionOp {
    Cond(FilterCondition),
    And(Vec<FilterConditionOp>),
    Or(Vec<FilterConditionOp>),
    Not(Box<FilterConditionOp>),
}

/// What it means for the symbol with attributes `s` to match the atomic
/// filter `fc`: the raw attribute test, compared against the polarity.
pub open spec fn spec_matches_condition(s: CodePointAttrs, fc: FilterCondition) -> bool {
    (match fc.values {
        FilterValue::PropAge(ages) => ages@.contains(s.age),
        FilterValue::PropBc(bcs) => bcs@.contains(s.bc),
        FilterValue::PropBinary(p, b) => s.flags.spec_flag(p) == b,
        FilterValue::PropBlk(blks) => blks@.contains(s.blk),
        FilterValue::PropGc(gcs) => gcs@.contains(s.gc),
        FilterValue::PropGcb(gcbs) => gcbs@.contains(s.gcb),
        FilterValue::PropInsc(inscs) => inscs@.contains(s.insc),
        FilterValue::PropSc(scs) => scs@.contains(s.sc),
        FilterValue::PropU32(ids) => ids@.contains(s.ch as u32),
    }) == fc.accept
}

/// What it means for the symbol with attributes `s` to match the filter tree
/// `f`. Evaluation is total: every symbol yields a definite boolean.
pub open spec fn spec_matches(s: CodePointAttrs, f: FilterConditionOp) -> bool
    decreases f,
{
    match f {
        FilterConditionOp::Cond(fc) => spec_matches_condition(s, fc),
        FilterConditionOp::And(children) => forall|i: int|
            0 <= i < children.len() ==> spec_matches(s, #[trigger] children[i]),
        FilterConditionOp::Or(children) => exists|i: int|
            0 <= i < children.len() && spec_matches(s, #[trigger] children[i]),
        FilterConditionOp::Not(child) => !spec_matches(s, *child),
    }
}

/// One symbol of the catalog: its attributes plus the per-symbol enabled
/// flag. The attributes are never mutated; only the flag is.
#[derive(Clone, Copy, Debug, PartialEq, Eq, Structural)]
pub struct CodePointConfig {
    pub enabled: bool,
    pub attrs: CodePointAttrs,
}

impl CodePointConfig {
    /// The symbol this entry stands for.
    pub fn get_char(&self) -> (r: char)
        ensures
            r == self.attrs.ch,
    {
        self.attrs.ch
    }

    /// Evaluates the atomic filter `fc` against this symbol's attributes.
    fn matches_filter_condition(&self, fc: &FilterCondition) -> (r: bool)
        ensures
            r == spec_matches_condition(self.attrs, *fc),
    {
        let m = match &fc.values {
            FilterValue::PropAge(ages) => ages_contain(ages, self.attrs.age),
            FilterValue::PropBc(bcs) => bcs_contain(bcs, self.attrs.bc),
            FilterValue::PropBinary(p, b) => self.attrs.flags.flag(*p) == *b,
            FilterValue::PropBlk(blks) => blks_contain(blks, self.attrs.blk),
            FilterValue::PropGc(gcs) => gcs_contain(gcs, self.attrs.gc),
            FilterValue::PropGcb(gcbs) => gcbs_contain(gcbs, self.attrs.gcb),
            FilterValue::PropInsc(inscs) => inscs_contain(inscs, self.attrs.insc),
            FilterValue::PropSc(scs) => scs_contain(scs, self.attrs.sc),
            FilterValue::PropU32(ids) => ids_contain(ids, self.attrs.ch as u32),
        };
        m == fc.accept
    }

    /// Evaluates the filter tree `f` against this symbol's attributes,
    /// short-circuiting on the first failing conjunct or succeeding disjunct.
    #[verifier::loop_isolation(false)]
    pub fn matches_filter_condition_op(&self, f: &FilterConditionOp) -> (r: bool)
        ensures
            r == spec_matches(self.attrs, *f),
        decreases *f,
    {
        match f {
            FilterConditionOp::Cond(fc) => self.matches_filter_condition(fc),
            FilterConditionOp::And(children) => {
                let mut i: usize = 0;
                while i < children.len()
                    invariant
                        0 <= i <= children@.len(),
                        forall|j: int| 0 <= j < i ==> spec_matches(self.attrs, #[trigger] children@[j]),
                    decreases children@.len() - i,
                {
                    if !self.matches_filter_condition_op(&children[i]) {
                        return false;
                    }
                    i += 1;
                }
                true
            },
            FilterConditionOp::Or(children) => {
                let mut i: usize = 0;
                while i < children.len()
                    invariant
                        0 <= i <= children@.len(),
                        forall|j: int| 0 <= j < i ==> !spec_matches(self.attrs, #[trigger] children@[j]),
                    decreases children@.len() - i,
                {
                    if self.matches_filter_condition_op(&children[i]) {
                        return true;
                    }
                    i += 1;
                }
                false
            },
            FilterConditionOp::Not(child) => !self.matches_filter_condition_op(child),
        }
    }

    /// Sets the per-symbol enabled flag.
    pub fn update_char_status(&mut self, enabled: bool)
        ensures
            *final(self) == (CodePointConfig { enabled, ..*old(self) }),
    {
        self.enabled = enabled;
    }

    /// Whether this symbol is individually enabled.
    pub fn is_enabled(&self) -> (r: bool)
        ensures
            r == self.enabled,
    {
        self.enabled
    }
}

/// Builds the conjunction of two filters.
pub(crate) fn op_and2(a: FilterConditionOp, b: FilterConditionOp) -> (r: FilterConditionOp)
    ensures
        forall|s: CodePointAttrs|
            #[trigger] spec_matches(s, r) == (spec_matches(s, a) && spec_matches(s, b)),
{
    let children = vec![a, b];
    let ghost ga = children@[0];
    let ghost gb = children@[1];
    let r = FilterConditionOp::And(children);
    proof {
        assert forall|s: CodePointAttrs|
            #[trigger] spec_matches(s, r) == (spec_matches(s, ga) && spec_matches(s, gb)) by {
            if spec_matches(s, ga) && spec_matches(s, gb) {
                assert forall|i: int| 0 <= i < 2 implies spec_matches(s, #[trigger] r->And_0[i]) by {
                    if i == 0 {
                        assert(spec_matches(s, ga));
                    } else {
                        assert(spec_matches(s, gb));
                    }
                }
                assert(spec_matches(s, r));
            }
            if spec_matches(s, r) {
                assert(spec_matches(s, r->And_0[0]));
                assert(spec_matches(s, r->And_0[1]));
            }
        }
    }
    r
}

/// Builds the conjunction of three filters.
pub(crate) fn op_and3(a: FilterConditionOp, b: FilterConditionOp, c: FilterConditionOp) -> (r: FilterConditionOp)
    ensures
        forall|s: CodePointAttrs|
            #[trigger] spec_matches(s, r) == (spec_matches(s, a) && spec_matches(s, b)
                && spec_matches(s, c)),
{
    let children = vec![a, b, c];
    let ghost ga = children@[0];
    let ghost gb = children@[1];
    let ghost gc = children@[2];
    let r = FilterConditionOp::And(children);
    proof {
        assert forall|s: CodePointAttrs|
            #[trigger] spec_matches(s, r) == (spec_matches(s, ga) && spec_matches(s, gb)
                && spec_matches(s, gc)) by {
            if spec_matches(s, ga) && spec_matches(s, gb) && spec_matches(s, gc) {
                assert forall|i: int| 0 <= i < 3 implies spec_matches(s, #[trigger] r->And_0[i]) by {
                    if i == 0 {
                        assert(spec_matches(s, ga));
                    } else if i == 1 {
                        assert(spec_matches(s, gb));
                    } else {
                        assert(spec_matches(s, gc));
                    }
                }
                assert(spec_matches(s, r));
            }
            if spec_matches(s, r) {
                assert(spec_matches(s, r->And_0[0]));
                assert(spec_matches(s, r->And_0[1]));
                assert(spec_matches(s, r->And_0[2]));
            }
        }
    }
    r
}

/// Builds the disjunction of two filters.
pub(crate) fn op_or2(a: FilterConditionOp, b: FilterConditionOp) -> (r: FilterConditionOp)
    ensures
        forall|s: CodePointAttrs|
            #[trigger] spec_matches(s, r) == (spec_matches(s, a) || spec_matches(s, b)),
{
    let children = vec![a, b];
    let ghost ga = children@[0];
    let ghost gb = children@[1];
    let r = FilterConditionOp::Or(children);
    proof {
        assert forall|s: CodePointAttrs|
            #[trigger] spec_matches(s, r) == (spec_matches(s, ga) || spec_matches(s, gb)) by {
            if spec_matches(s, ga) {
                assert(spec_matches(s, r->Or_0[0]));
            } else if spec_matches(s, gb) {
                assert(spec_matches(s, r->Or_0[1]));
            }
            if spec_matches(s, r) {
                let i = choose|i: int| 0 <= i < 2 && spec_matches(s, #[trigger] r->Or_0[i]);
                assert(spec_matches(s, ga) || spec_matches(s, gb));
            }
        }
    }
    r
}

/// Builds the negation of a filter.
pub(crate) fn op_not(a: FilterConditionOp) -> (r: FilterConditionOp)
    ensures
        forall|s: CodePointAttrs| #[trigger] spec_matches(s, r) == !spec_matches(s, a),
{
    FilterConditionOp::Not(Box::new(a))
}

/// Builds the atomic filter testing block membership against `blks`.
pub(crate) fn cond_blk(blks: Vec<Blk>, accept: bool) -> (r: FilterConditionOp)
    ensures
        forall|s: CodePointAttrs|
            #[trigger] spec_matches(s, r) == ((blks@.contains(s.blk)) == accept),
{
    FilterConditionOp::Cond(FilterCondition::new(FilterValue::PropBlk(blks), accept))
}

/// Builds the atomic filter testing general-category membership against `gcs`.
pub(crate) fn cond_gc(gcs: Vec<Gc>, accept: bool) -> (r: FilterConditionOp)
    ensures
        forall|s: CodePointAttrs|
            #[trigger] spec_matches(s, r) == ((gcs@.contains(s.gc)) == accept),
{
    FilterConditionOp::Cond(FilterCondition::new(FilterValue::PropGc(gcs), accept))
}

/// Builds the atomic filter testing age membership against `ages`.
pub(crate) fn cond_age(ages: Vec<Age>, accept: bool) -> (r: FilterConditionOp)
    ensures
        forall|s: CodePointAttrs|
            #[trigger] spec_matches(s, r) == ((ages@.contains(s.age)) == accept),
{
    FilterConditionOp::Cond(FilterCondition::new(FilterValue::PropAge(ages), accept))
}

/// Builds the atomic filter testing bidirectional-class membership against `bcs`.
pub(crate) fn cond_bc(bcs: Vec<Bc>, accept: bool) -> (r: FilterConditionOp)
    ensures
        forall|s: CodePointAttrs|
            #[trigger] spec_matches(s, r) == ((bcs@.contains(s.bc)) == accept),
{
    FilterConditionOp::Cond(FilterCondition::new(FilterValue::PropBc(bcs), accept))
}

/// Builds the atomic filter testing grapheme-cluster-break membership against `gcbs`.
pub(crate) fn cond_gcb(gcbs: Vec<Gcb>, accept: bool) -> (r: FilterConditionOp)
    ensures
        forall|s: CodePointAttrs|
            #[trigger] spec_matches(s, r) == ((gcbs@.contains(s.gcb)) == accept),
{
    FilterConditionOp::Cond(FilterCondition::new(FilterValue::PropGcb(gcbs), accept))
}

/// Builds the atomic filter testing Indic-syllabic-category membership against `inscs`.
pub(crate) fn cond_insc(inscs: Vec<Insc>, accept: bool) -> (r: FilterConditionOp)
    ensures
        forall|s: CodePointAttrs|
            #[trigger] spec_matches(s, r) == ((inscs@.contains(s.insc)) == accept),
{
    FilterConditionOp::Cond(FilterCondition::new(FilterValue::PropInsc(inscs), accept))
}

/// Builds the atomic filter testing script membership against `scs`.
pub(crate) fn cond_sc(scs: Vec<Sc>, accept: bool) -> (r: FilterConditionOp)
    ensures
        forall|s: CodePointAttrs|
            #[trigger] spec_matches(s, r) == ((scs@.contains(s.sc)) == accept),
{
    FilterConditionOp::Cond(FilterCondition::new(FilterValue::PropSc(scs), accept))
}

/// Builds the atomic filter testing numeric identity against `ids`.
pub(crate) fn cond_ids(ids: Vec<u32>, accept: bool) -> (r: FilterConditionOp)
    ensures
        forall|s: CodePointAttrs|
            #[trigger] spec_matches(s, r) == ((ids@.contains(s.ch as u32)) == accept),
{
    FilterConditionOp::Cond(FilterCondition::new(FilterValue::PropU32(ids), accept))
}

/// Builds the atomic filter testing the binary property `p` against `b`.
pub(crate) fn cond_flag(p: BinaryProp, b: bool, accept: bool) -> (r: FilterConditionOp)
    ensures
        forall|s: CodePointAttrs|
            #[trigger] spec_matches(s, r) == ((s.flags.spec_flag(p) == b) == accept),
{
    FilterConditionOp::Cond(FilterCondition::new(FilterValue::PropBinary(p, b), accept))
}

/// The general-category attribute classes barred from the catalog: control,
/// format, unassigned, private-use, surrogate, combining-mark, and
/// line/paragraph-separator classes.
pub open spec fn excluded_general_categories() -> Seq<Gc> {
    seq![
        Gc::Cc, Gc::Cf, Gc::Cn, Gc::Co, Gc::Cs, Gc::Mc, Gc::Mn, Gc::Zl,
        Gc::Zp,
    ]
}

/// Bars symbols of the excluded general-category classes.
fn category_exclusions() -> (r: FilterConditionOp)
    ensures
        forall|s: CodePointAttrs|
            #[trigger] spec_matches(s, r) == !excluded_general_categories().contains(s.gc),
{
    let gcs: Vec<Gc> = vec![
        Gc::Cc, Gc::Cf, Gc::Cn, Gc::Co, Gc::Cs, Gc::Mc, Gc::Mn, Gc::Zl,
        Gc::Zp,
    ];
    proof {
        assert(gcs@ =~= excluded_general_categories());
    }
    cond_gc(gcs, false)
}

/// Bars prepended concatenation marks (grapheme-cluster-break class PP).
fn grapheme_cluster_break_exclusions() -> (r: FilterConditionOp)
    ensures
        forall|s: CodePointAttrs| #[trigger] spec_matches(s, r) == (s.gcb != Gcb::PP),
{
    let gcbs: Vec<Gcb> = vec![Gcb::PP];
    let ghost g = gcbs@;
    let r = cond_gcb(gcbs, false);
    proof {
        assert forall|s: CodePointAttrs|
            #[trigger] spec_matches(s, r) == (s.gcb != Gcb::PP) by {
            if s.gcb == Gcb::PP {
                assert(g[0] == s.gcb);
                assert(g.contains(s.gcb));
            }
        }
    }
    r
}

/// Bars deprecated (obsolete) symbols.
fn non_deprecated_characters() -> (r: FilterConditionOp)
    ensures
        forall|s: CodePointAttrs| #[trigger] spec_matches(s, r) == !s.flags.dep,
{
    cond_flag(BinaryProp::Dep, false, true)
}

/// The bidirectional classes barred from the catalog: strong right-to-left
/// classes and the embedding, isolate and explicit-formatting classes.
pub open spec fn excluded_bidi_classes() -> Seq<Bc> {
    seq![
        Bc::AL, Bc::AN, Bc::B, Bc::BN, Bc::FSI, Bc::LRE, Bc::LRI, Bc::LRO,
        Bc::NSM, Bc::PDF, Bc::PDI, Bc::R, Bc::RLE, Bc::RLI, Bc::RLO, Bc::S,
    ]
}

/// Bars symbols of the excluded bidirectional classes.
fn bidi_class_exclusions() -> (r: FilterConditionOp)
    ensures
        forall|s: CodePointAttrs|
            #[trigger] spec_matches(s, r) == !excluded_bidi_classes().contains(s.bc),
{
    let bcs: Vec<Bc> = vec![
        Bc::AL, Bc::AN, Bc::B, Bc::BN, Bc::FSI, Bc::LRE, Bc::LRI, Bc::LRO,
        Bc::NSM, Bc::PDF, Bc::PDI, Bc::R, Bc::RLE, Bc::RLI, Bc::RLO, Bc::S,
    ];
    proof {
        assert(bcs@ =~= excluded_bidi_classes());
    }
    cond_bc(bcs, false)
}

/// The blocks deemed unsupported by the target rendering environment.
pub open spec fn excluded_blocks() -> Seq<Blk> {
    seq![
        Blk::CjkCompatIdeographsSup, Blk::CjkExtB, Blk::CjkExtC, Blk::CjkExtD,
        Blk::CjkExtE, Blk::CjkExtF, Blk::CjkExtG, Blk::CjkExtH,
        Blk::CjkExtI, Blk::CyproMinoan, Blk::CyrillicExtD, Blk::DivesAkuru,
        Blk::EthiopicExtB, Blk::EgyptianHieroglyphFormatControls, Blk::EgyptianHieroglyphsExtA, Blk::Garay,
        Blk::GurungKhema, Blk::KaktovikNumerals, Blk::KanaExtA, Blk::KanaExtB,
        Blk::KanaSup, Blk::Kawi, Blk::KhitanSmallScript, Blk::KiratRai,
        Blk::LatinExtF, Blk::LatinExtG, Blk::Makasar, Blk::MyanmarExtC,
        Blk::NagMundari, Blk::Nandinagari, Blk::OlOnal, Blk::SmallKanaExt,
        Blk::Specials, Blk::Sunuwar, Blk::SymbolsForLegacyComputingSup, Blk::Tangsa,
        Blk::TangutSup, Blk::Todhri, Blk::Toto, Blk::TuluTigalari,
        Blk::UcasExtA, Blk::Vithkuqi, Blk::ZnamennyMusic,
    ]
}

/// Bars symbols of the unsupported blocks.
fn block_exclusions() -> (r: FilterConditionOp)
    ensures
        forall|s: CodePointAttrs|
            #[trigger] spec_matches(s, r) == !excluded_blocks().contains(s.blk),
{
    let blks: Vec<Blk> = vec![
        Blk::CjkCompatIdeographsSup, Blk::CjkExtB, Blk::CjkExtC, Blk::CjkExtD,
        Blk::CjkExtE, Blk::CjkExtF, Blk::CjkExtG, Blk::CjkExtH,
        Blk::CjkExtI, Blk::CyproMinoan, Blk::CyrillicExtD, Blk::DivesAkuru,
        Blk::EthiopicExtB, Blk::EgyptianHieroglyphFormatControls, Blk::EgyptianHieroglyphsExtA, Blk::Garay,
        Blk::GurungKhema, Blk::KaktovikNumerals, Blk::KanaExtA, Blk::KanaExtB,
        Blk::KanaSup, Blk::Kawi, Blk::KhitanSmallScript, Blk::KiratRai,
        Blk::LatinExtF, Blk::LatinExtG, Blk::Makasar, Blk::MyanmarExtC,
        Blk::NagMundari, Blk::Nandinagari, Blk::OlOnal, Blk::SmallKanaExt,
        Blk::Specials, Blk::Sunuwar, Blk::SymbolsForLegacyComputingSup, Blk::Tangsa,
        Blk::TangutSup, Blk::Todhri, Blk::Toto, Blk::TuluTigalari,
        Blk::UcasExtA, Blk::Vithkuqi, Blk::ZnamennyMusic,
    ];
    proof {
        assert(blks@ =~= excluded_blocks());
    }
    cond_blk(blks, false)
}

/// Bars stacking consonants (Indic syllabic category Consonant_With_Stacker).
fn indic_syllabic_category_exclusions() -> (r: FilterConditionOp)
    ensures
        forall|s: CodePointAttrs|
            #[trigger] spec_matches(s, r) == (s.insc != Insc::ConsonantWithStacker),
{
    let inscs: Vec<Insc> = vec![Insc::ConsonantWithStacker];
    let ghost g = inscs@;
    let r = cond_insc(inscs, false);
    proof {
        assert forall|s: CodePointAttrs|
            #[trigger] spec_matches(s, r) == (s.insc != Insc::ConsonantWithStacker) by {
            if s.insc == Insc::ConsonantWithStacker {
                assert(g[0] == s.insc);
                assert(g.contains(s.insc));
            }
        }
    }
    r
}

/// The numeric identities of specific problematic symbols barred explicitly.
pub open spec fn excluded_code_points() -> Seq<u32> {
    seq![
        0x332c, 0x1f908, 0x1f909, 0x1f90a, 0x1f90b,
    ]
}

/// Bars the explicitly excluded numeric identities.
fn general_character_exclusions() -> (r: FilterConditionOp)
    ensures
        forall|s: CodePointAttrs|
            #[trigger] spec_matches(s, r) == !excluded_code_points().contains(s.ch as u32),
{
    let ids: Vec<u32> = vec![
        0x332c, 0x1f908, 0x1f909, 0x1f90a, 0x1f90b,
    ];
    proof {
        assert(ids@ =~= excluded_code_points());
    }
    cond_ids(ids, false)
}

/// Builds one age-gated block correction: symbols of `blk` are kept only when
/// their age is listed in `ages`; symbols of every other block pass.
fn age_gated_block_correction(blk: Blk, ages: Vec<Age>) -> (r: FilterConditionOp)
    ensures
        forall|s: CodePointAttrs|
            #[trigger] spec_matches(s, r) == (s.blk == blk ==> ages@.contains(s.age)),
{
    let blks: Vec<Blk> = vec![blk];
    let ghost gb = blks@;
    let ghost ga = ages@;
    let blk_cond = cond_blk(blks, true);
    let age_cond = cond_age(ages, false);
    let r = op_not(op_and2(blk_cond, age_cond));
    proof {
        assert forall|s: CodePointAttrs|
            #[trigger] spec_matches(s, r) == (s.blk == blk ==> ga.contains(s.age)) by {
            assert(gb.contains(s.blk) == (s.blk == blk)) by {
                if s.blk == blk {
                    assert(gb[0] == s.blk);
                    assert(gb.contains(s.blk));
                }
            }
        }
    }
    r
}

/// The allow-listed ages of the block corrected by `balinese_character_exclusions`.
pub open spec fn balinese_allowed_ages() -> Seq<Age> {
    seq![
        Age::V5_0,
    ]
}

/// Keeps symbols of the Balinese block only when their age is allow-listed.
fn balinese_character_exclusions() -> (r: FilterConditionOp)
    ensures
        forall|s: CodePointAttrs|
            #[trigger] spec_matches(s, r) == (s.blk == Blk::Balinese
                ==> balinese_allowed_ages().contains(s.age)),
{
    let ages: Vec<Age> = vec![
        Age::V5_0,
    ];
    proof {
        assert(ages@ =~= balinese_allowed_ages());
    }
    age_gated_block_correction(Blk::Balinese, ages)
}

/// The allow-listed ages of the block corrected by `brahmi_character_exclusions`.
pub open spec fn brahmi_allowed_ages() -> Seq<Age> {
    seq![
        Age::V6_0,
    ]
}

/// Keeps symbols of the Brahmi block only when their age is allow-listed.
fn brahmi_character_exclusions() -> (r: FilterConditionOp)
    ensures
        forall|s: CodePointAttrs|
            #[trigger] spec_matches(s, r) == (s.blk == Blk::Brahmi
                ==> brahmi_allowed_ages().contains(s.age)),
{
    let ages: Vec<Age> = vec![
        Age::V6_0,
    ];
    proof {
        assert(ages@ =~= brahmi_allowed_ages());
    }
    age_gated_block_correction(Blk::Brahmi, ages)
}

/// The allow-listed ages of the block corrected by `chakma_character_exclusions`.
pub open spec fn chakma_allowed_ages() -> Seq<Age> {
    seq![
        Age::V6_1, Age::V11_0,
    ]
}

/// Keeps symbols of the Chakma block only when their age is allow-listed.
fn chakma_character_exclusions() -> (r: FilterConditionOp)
    ensures
        forall|s: CodePointAttrs|
            #[trigger] spec_matches(s, r) == (s.blk == Blk::Chakma
                ==> chakma_allowed_ages().contains(s.age)),
{
    let ages: Vec<Age> = vec![
        Age::V6_1, Age::V11_0,
    ];
    proof {
        assert(ages@ =~= chakma_allowed_ages());
    }
    age_gated_block_correction(Blk::Chakma, ages)
}

/// The allow-listed ages of the block corrected by `takri_character_exclusions`.
pub open spec fn takri_allowed_ages() -> Seq<Age> {
    seq![
        Age::V6_1, Age::V12_0,
    ]
}

/// Keeps symbols of the Chakma block only when their age is allow-listed.
fn takri_character_exclusions() -> (r: FilterConditionOp)
    ensures
        forall|s: CodePointAttrs|
            #[trigger] spec_matches(s, r) == (s.blk == Blk::Chakma
                ==> takri_allowed_ages().contains(s.age)),
{
    let ages: Vec<Age> = vec![
        Age::V6_1, Age::V12_0,
    ];
    proof {
        assert(ages@ =~= takri_allowed_ages());
    }
    age_gated_block_correction(Blk::Chakma, ages)
}

/// The allow-listed ages of the block corrected by `ahom_character_exclusions`.
pub open spec fn ahom_allowed_ages() -> Seq<Age> {
    seq![
        Age::V8_0, Age::V11_0,
    ]
}

/// Keeps symbols of the Chakma block only when their age is allow-listed.
fn ahom_character_exclusions() -> (r: FilterConditionOp)
    ensures
        forall|s: CodePointAttrs|
            #[trigger] spec_matches(s, r) == (s.blk == Blk::Chakma
                ==> ahom_allowed_ages().contains(s.age)),
{
    let ages: Vec<Age> = vec![
        Age::V8_0, Age::V11_0,
    ];
    proof {
        assert(ages@ =~= ahom_allowed_ages());
    }
    age_gated_block_correction(Blk::Chakma, ages)
}

/// The allow-listed ages of the block corrected by `egyptian_hieroglyphs_character_exclusions`.
pub open spec fn egyptian_hieroglyphs_allowed_ages() -> Seq<Age> {
    seq![
        Age::V5_2,
    ]
}

/// Keeps symbols of the EgyptianHieroglyphs block only when their age is allow-listed.
fn egyptian_hieroglyphs_character_exclusions() -> (r: FilterConditionOp)
    ensures
        forall|s: CodePointAttrs|
            #[trigger] spec_matches(s, r) == (s.blk == Blk::EgyptianHieroglyphs
                ==> egyptian_hieroglyphs_allowed_ages().contains(s.age)),
{
    let ages: Vec<Age> = vec![
        Age::V5_2,
    ];
    proof {
        assert(ages@ =~= egyptian_hieroglyphs_allowed_ages());
    }
    age_gated_block_correction(Blk::EgyptianHieroglyphs, ages)
}

/// The allow-listed ages of the block corrected by `tangut_components_character_exclusions`.
pub open spec fn tangut_components_allowed_ages() -> Seq<Age> {
    seq![
        Age::V9_0,
    ]
}

/// Keeps symbols of the TangutComponents block only when their age is allow-listed.
fn tangut_components_character_exclusions() -> (r: FilterConditionOp)
    ensures
        forall|s: CodePointAttrs|
            #[trigger] spec_matches(s, r) == (s.blk == Blk::TangutComponents
                ==> tangut_components_allowed_ages().contains(s.age)),
{
    let ages: Vec<Age> = vec![
        Age::V9_0,
    ];
    proof {
        assert(ages@ =~= tangut_components_allowed_ages());
    }
    age_gated_block_correction(Blk::TangutComponents, ages)
}

/// The allow-listed ages of the block corrected by `music_character_exclusions`.
pub open spec fn music_allowed_ages() -> Seq<Age> {
    seq![
        Age::V3_1, Age::V8_0,
    ]
}

/// Keeps symbols of the TangutComponents block only when their age is allow-listed.
fn music_character_exclusions() -> (r: FilterConditionOp)
    ensures
        forall|s: CodePointAttrs|
            #[trigger] spec_matches(s, r) == (s.blk == Blk::TangutComponents
                ==> music_allowed_ages().contains(s.age)),
{
    let ages: Vec<Age> = vec![
        Age::V3_1, Age::V8_0,
    ];
    proof {
        assert(ages@ =~= music_allowed_ages());
    }
    age_gated_block_correction(Blk::TangutComponents, ages)
}

/// The allow-listed ages of the block corrected by `enclosed_alphanum_sup_character_exclusions`.
pub open spec fn enclosed_alphanum_sup_allowed_ages() -> Seq<Age> {
    seq![
        Age::V5_2, Age::V6_0, Age::V6_1, Age::V7_0, Age::V9_0, Age::V11_0, Age::V12_0,
    ]
}

/// Keeps symbols of the EnclosedAlphanumSup block only when their age is allow-listed.
fn enclosed_alphanum_sup_character_exclusions() -> (r: FilterConditionOp)
    ensures
        forall|s: CodePointAttrs|
            #[trigger] spec_matches(s, r) == (s.blk == Blk::EnclosedAlphanumSup
                ==> enclosed_alphanum_sup_allowed_ages().contains(s.age)),
{
    let ages: Vec<Age> = vec![
        Age::V5_2, Age::V6_0, Age::V6_1, Age::V7_0, Age::V9_0, Age::V11_0, Age::V12_0,
    ];
    proof {
        assert(ages@ =~= enclosed_alphanum_sup_allowed_ages());
    }
    age_gated_block_correction(Blk::EnclosedAlphanumSup, ages)
}

/// The allow-listed ages of the block corrected by `enclosed_ideographic_sup_character_exclusions`.
pub open spec fn enclosed_ideographic_sup_allowed_ages() -> Seq<Age> {
    seq![
        Age::V5_2, Age::V6_0, Age::V9_0,
    ]
}

/// Keeps symbols of the EnclosedIdeographicSup block only when their age is allow-listed.
fn enclosed_ideographic_sup_character_exclusions() -> (r: FilterConditionOp)
    ensures
        forall|s: CodePointAttrs|
            #[trigger] spec_matches(s, r) == (s.blk == Blk::EnclosedIdeographicSup
                ==> enclosed_ideographic_sup_allowed_ages().contains(s.age)),
{
    let ages: Vec<Age> = vec![
        Age::V5_2, Age::V6_0, Age::V9_0,
    ];
    proof {
        assert(ages@ =~= enclosed_ideographic_sup_allowed_ages());
    }
    age_gated_block_correction(Blk::EnclosedIdeographicSup, ages)
}

/// The allow-listed ages of the block corrected by `sup_arrows_c_character_exclusions`.
pub open spec fn sup_arrows_c_allowed_ages() -> Seq<Age> {
    seq![
        Age::V7_0, Age::V13_0,
    ]
}

/// Keeps symbols of the SupArrowsC block only when their age is allow-listed.
fn sup_arrows_c_character_exclusions() -> (r: FilterConditionOp)
    ensures
        forall|s: CodePointAttrs|
            #[trigger] spec_matches(s, r) == (s.blk == Blk::SupArrowsC
                ==> sup_arrows_c_allowed_ages().contains(s.age)),
{
    let ages: Vec<Age> = vec![
        Age::V7_0, Age::V13_0,
    ];
    proof {
        assert(ages@ =~= sup_arrows_c_allowed_ages());
    }
    age_gated_block_correction(Blk::SupArrowsC, ages)
}

/// The allow-listed ages of the block corrected by `symbols_for_legacy_computing_character_exclusions`.
pub open spec fn symbols_for_legacy_computing_allowed_ages() -> Seq<Age> {
    seq![
        Age::V13_0,
    ]
}

/// Keeps symbols of the SupArrowsC block only when their age is allow-listed.
fn symbols_for_legacy_computing_character_exclusions() -> (r: FilterConditionOp)
    ensures
        forall|s: CodePointAttrs|
            #[trigger] spec_matches(s, r) == (s.blk == Blk::SupArrowsC
                ==> symbols_for_legacy_computing_allowed_ages().contains(s.age)),
{
    let ages: Vec<Age> = vec![
        Age::V13_0,
    ];
    proof {
        assert(ages@ =~= symbols_for_legacy_computing_allowed_ages());
    }
    age_gated_block_correction(Blk::SupArrowsC, ages)
}

/// The allow-listed ages of the block corrected by `idc_character_exclusions`.
pub open spec fn idc_allowed_ages() -> Seq<Age> {
    seq![
        Age::V13_0,
    ]
}

/// Keeps symbols of the Idc block only when their age is allow-listed.
fn idc_character_exclusions() -> (r: FilterConditionOp)
    ensures
        forall|s: CodePointAttrs|
            #[trigger] spec_matches(s, r) == (s.blk == Blk::Idc
                ==> idc_allowed_ages().contains(s.age)),
{
    let ages: Vec<Age> = vec![
        Age::V13_0,
    ];
    proof {
        assert(ages@ =~= idc_allowed_ages());
    }
    age_gated_block_correction(Blk::Idc, ages)
}

/// The allow-listed ages of the block corrected by `bopomofo_ext_character_exclusions`.
pub open spec fn bopomofo_ext_allowed_ages() -> Seq<Age> {
    seq![
        Age::V3_0, Age::V6_0,
    ]
}

/// Keeps symbols of the BopomofoExt block only when their age is allow-listed.
fn bopomofo_ext_character_exclusions() -> (r: FilterConditionOp)
    ensures
        forall|s: CodePointAttrs|
            #[trigger] spec_matches(s, r) == (s.blk == Blk::BopomofoExt
                ==> bopomofo_ext_allowed_ages().contains(s.age)),
{
    let ages: Vec<Age> = vec![
        Age::V3_0, Age::V6_0,
    ];
    proof {
        assert(ages@ =~= bopomofo_ext_allowed_ages());
    }
    age_gated_block_correction(Blk::BopomofoExt, ages)
}

/// The allow-listed ages of the block corrected by `cjk_strokes_character_exclusions`.
pub open spec fn cjk_strokes_allowed_ages() -> Seq<Age> {
    seq![
        Age::V4_1, Age::V5_1,
    ]
}

/// Keeps symbols of the CjkStrokes block only when their age is allow-listed.
fn cjk_strokes_character_exclusions() -> (r: FilterConditionOp)
    ensures
        forall|s: CodePointAttrs|
            #[trigger] spec_matches(s, r) == (s.blk == Blk::CjkStrokes
                ==> cjk_strokes_allowed_ages().contains(s.age)),
{
    let ages: Vec<Age> = vec![
        Age::V4_1, Age::V5_1,
    ];
    proof {
        assert(ages@ =~= cjk_strokes_allowed_ages());
    }
    age_gated_block_correction(Blk::CjkStrokes, ages)
}

/// The allow-listed ages of the block corrected by `cjk_compat_ideographs_character_exclusions`.
pub open spec fn cjk_compat_ideographs_allowed_ages() -> Seq<Age> {
    seq![
        Age::V1_1, Age::V3_2, Age::V5_2, Age::V6_1,
    ]
}

/// Keeps symbols of the CjkCompatIdeographs block only when their age is allow-listed.
fn cjk_compat_ideographs_character_exclusions() -> (r: FilterConditionOp)
    ensures
        forall|s: CodePointAttrs|
            #[trigger] spec_matches(s, r) == (s.blk == Blk::CjkCompatIdeographs
                ==> cjk_compat_ideographs_allowed_ages().contains(s.age)),
{
    let ages: Vec<Age> = vec![
        Age::V1_1, Age::V3_2, Age::V5_2, Age::V6_1,
    ];
    proof {
        assert(ages@ =~= cjk_compat_ideographs_allowed_ages());
    }
    age_gated_block_correction(Blk::CjkCompatIdeographs, ages)
}

/// The allow-listed ages of the block corrected by `arabic_pf_a_character_exclusions`.
pub open spec fn arabic_pf_a_allowed_ages() -> Seq<Age> {
    seq![
        Age::V1_1, Age::V4_0,
    ]
}

/// Keeps symbols of the ArabicPfA block only when their age is allow-listed.
fn arabic_pf_a_character_exclusions() -> (r: FilterConditionOp)
    ensures
        forall|s: CodePointAttrs|
            #[trigger] spec_matches(s, r) == (s.blk == Blk::ArabicPfA
                ==> arabic_pf_a_allowed_ages().contains(s.age)),
{
    let ages: Vec<Age> = vec![
        Age::V1_1, Age::V4_0,
    ];
    proof {
        assert(ages@ =~= arabic_pf_a_allowed_ages());
    }
    age_gated_block_correction(Blk::ArabicPfA, ages)
}

/// The allow-listed ages of the Latin Extended-D block; symbols of age
/// V14_0 are additionally kept when they are modifier letters.
pub open spec fn latin_ext_d_allowed_ages() -> Seq<Age> {
    seq![
        Age::V5_0, Age::V5_1, Age::V6_0, Age::V6_1, Age::V7_0, Age::V8_0, Age::V9_0, Age::V11_0,
        Age::V12_0, Age::V13_0,
    ]
}

/// Keeps symbols of the Latin Extended-D block only when their age is
/// allow-listed, or when they are modifier letters of age V14_0.
fn latin_ext_d_character_exclusions() -> (r: FilterConditionOp)
    ensures
        forall|s: CodePointAttrs|
            #[trigger] spec_matches(s, r) == (s.blk == Blk::LatinExtD
                ==> (latin_ext_d_allowed_ages().contains(s.age)
                    || (s.age == Age::V14_0 && s.gc == Gc::Lm))),
{
    let new_ages: Vec<Age> = vec![Age::V14_0];
    let ghost gna = new_ages@;
    let modifier_gcs: Vec<Gc> = vec![Gc::Lm];
    let ghost gmg = modifier_gcs@;
    let subset_1 = op_and2(cond_age(new_ages, true), cond_gc(modifier_gcs, true));
    let listed_ages: Vec<Age> = vec![
        Age::V5_0, Age::V5_1, Age::V6_0, Age::V6_1, Age::V7_0, Age::V8_0, Age::V9_0, Age::V11_0,
        Age::V12_0, Age::V13_0,
    ];
    proof {
        assert(listed_ages@ =~= latin_ext_d_allowed_ages());
    }
    let subset_2 = op_or2(cond_age(listed_ages, true), subset_1);
    let blks: Vec<Blk> = vec![Blk::LatinExtD];
    let ghost gb = blks@;
    let r = op_not(op_and2(cond_blk(blks, true), op_not(subset_2)));
    proof {
        assert forall|s: CodePointAttrs|
            #[trigger] spec_matches(s, r) == (s.blk == Blk::LatinExtD
                ==> (latin_ext_d_allowed_ages().contains(s.age)
                    || (s.age == Age::V14_0 && s.gc == Gc::Lm))) by {
            assert(gb.contains(s.blk) == (s.blk == Blk::LatinExtD)) by {
                if s.blk == Blk::LatinExtD {
                    assert(gb[0] == s.blk);
                    assert(gb.contains(s.blk));
                }
            }
            assert(gna.contains(s.age) == (s.age == Age::V14_0)) by {
                if s.age == Age::V14_0 {
                    assert(gna[0] == s.age);
                    assert(gna.contains(s.age));
                }
            }
            assert(gmg.contains(s.gc) == (s.gc == Gc::Lm)) by {
                if s.gc == Gc::Lm {
                    assert(gmg[0] == s.gc);
                    assert(gmg.contains(s.gc));
                }
            }
        }
    }
    r
}

/// Whether a symbol passes every global exclusion filter and therefore
/// belongs in the master catalog of eligible symbols.
pub open spec fn eligible(s: CodePointAttrs) -> bool {
    &&& !excluded_general_categories().contains(s.gc)
    &&& s.gcb != Gcb::PP
    &&& !s.flags.dep
    &&& !excluded_bidi_classes().contains(s.bc)
    &&& !excluded_blocks().contains(s.blk)
    &&& s.insc != Insc::ConsonantWithStacker
    &&& !excluded_code_points().contains(s.ch as u32)
    &&& (s.blk == Blk::Balinese ==> balinese_allowed_ages().contains(s.age))
    &&& (s.blk == Blk::Brahmi ==> brahmi_allowed_ages().contains(s.age))
    &&& (s.blk == Blk::Chakma ==> chakma_allowed_ages().contains(s.age))
    &&& (s.blk == Blk::Chakma ==> takri_allowed_ages().contains(s.age))
    &&& (s.blk == Blk::Chakma ==> ahom_allowed_ages().contains(s.age))
    &&& (s.blk == Blk::EgyptianHieroglyphs ==> egyptian_hieroglyphs_allowed_ages().contains(s.age))
    &&& (s.blk == Blk::TangutComponents ==> tangut_components_allowed_ages().contains(s.age))
    &&& (s.blk == Blk::TangutComponents ==> music_allowed_ages().contains(s.age))
    &&& (s.blk == Blk::EnclosedAlphanumSup ==> enclosed_alphanum_sup_allowed_ages().contains(s.age))
    &&& (s.blk == Blk::EnclosedIdeographicSup ==> enclosed_ideographic_sup_allowed_ages().contains(s.age))
    &&& (s.blk == Blk::SupArrowsC ==> sup_arrows_c_allowed_ages().contains(s.age))
    &&& (s.blk == Blk::SupArrowsC ==> symbols_for_legacy_computing_allowed_ages().contains(s.age))
    &&& (s.blk == Blk::Idc ==> idc_allowed_ages().contains(s.age))
    &&& (s.blk == Blk::BopomofoExt ==> bopomofo_ext_allowed_ages().contains(s.age))
    &&& (s.blk == Blk::CjkStrokes ==> cjk_strokes_allowed_ages().contains(s.age))
    &&& (s.blk == Blk::CjkCompatIdeographs ==> cjk_compat_ideographs_allowed_ages().contains(s.age))
    &&& (s.blk == Blk::ArabicPfA ==> arabic_pf_a_allowed_ages().contains(s.age))
    &&& (s.blk == Blk::LatinExtD ==> (latin_ext_d_allowed_ages().contains(s.age)
        || (s.age == Age::V14_0 && s.gc == Gc::Lm)))
}

/// Builds the conjunction of all global exclusion filters. A symbol matches
/// the result exactly when it is eligible for the master catalog.
pub fn global_exclusion_filters() -> (r: FilterConditionOp)
    ensures
        forall|s: CodePointAttrs| #[trigger] spec_matches(s, r) == eligible(s),
{
    let r = op_and2(
        category_exclusions(),
        op_and2(
            grapheme_cluster_break_exclusions(),
            op_and2(
                non_deprecated_characters(),
                op_and2(
                    bidi_class_exclusions(),
                    op_and2(
                        block_exclusions(),
                        op_and2(
                            indic_syllabic_category_exclusions(),
                            op_and2(
                                general_character_exclusions(),
                                op_and2(
                                    balinese_character_exclusions(),
                                    op_and2(
                                        brahmi_character_exclusions(),
                                        op_and2(
                                            chakma_character_exclusions(),
                                            op_and2(
                                                takri_character_exclusions(),
                                                op_and2(
                                                    ahom_character_exclusions(),
                                                    op_and2(
                                                        egyptian_hieroglyphs_character_exclusions(),
                                                        op_and2(
                                                            tangut_components_character_exclusions(),
                                                            op_and2(
                                                                music_character_exclusions(),
                                                                op_and2(
                                                                    enclosed_alphanum_sup_character_exclusions(),
                                                                    op_and2(
                                                                        enclosed_ideographic_sup_character_exclusions(),
                                                                        op_and2(
                                                                            sup_arrows_c_character_exclusions(),
                                                                            op_and2(
                                                                                symbols_for_legacy_computing_character_exclusions(),
                                                                                op_and2(
                                                                                    idc_character_exclusions(),
                                                                                    op_and2(
                                                                                        bopomofo_ext_character_exclusions(),
                                                                                        op_and2(
                                                                                            cjk_strokes_character_exclusions(),
                                                                                            op_and2(
                                                                                                cjk_compat_ideographs_character_exclusions(),
                                                                                                op_and2(
                                                                                                    arabic_pf_a_character_exclusions(),
                                                                                                    latin_ext_d_character_exclusions(),
                                                                                                ),
                                                                                            ),
                                                                                        ),
                                                                                    ),
                                                                                ),
                                                                            ),
                                                                        ),
                                                                    ),
                                                                ),
                                                            ),
                                                        ),
                                                    ),
                                                ),
                                            ),
                                        ),
                                    ),
                                ),
                            ),
                        ),
                    ),
                ),
            ),
        ),
    );
    r
}

/// The subsequence of `store` that passes every global exclusion filter, each
/// symbol initially enabled, in store order.
pub open spec fn eligible_configs(store: Seq<CodePointAttrs>) -> Seq<CodePointConfig>
    decreases store.len(),
{
    if store.len() == 0 {
        Seq::empty()
    } else {
        let rest = eligible_configs(store.drop_last());
        if eligible(store.last()) {
            rest.push(CodePointConfig { enabled: true, attrs: store.last() })
        } else {
            rest
        }
    }
}

/// Builds the master catalog: every symbol of the attribute store that passes
/// all global exclusion filters, each initially enabled, in store order.
#[verifier::loop_isolation(false)]
pub fn generate_all_code_points(store: &Vec<CodePointAttrs>) -> (r: Vec<CodePointConfig>)
    ensures
        r@ == eligible_configs(store@),
{
    let filters = global_exclusion_filters();
    let mut r: Vec<CodePointConfig> = Vec::new();
    let mut i: usize = 0;
    while i < store.len()
        invariant
            0 <= i <= store@.len(),
            r@ == eligible_configs(store@.subrange(0, i as int)),
        decreases store@.len() - i,
    {
        let cpc = CodePointConfig { enabled: true, attrs: store[i] };
        if cpc.matches_filter_condition_op(&filters) {
            r.push(cpc);
        }
        proof {
            assert(store@.subrange(0, i + 1 as int).drop_last() =~= store@.subrange(0, i as int));
            assert(store@.subrange(0, i + 1 as int).last() == store@[i as int]);
        }
        i += 1;
    }
    proof {
        assert(store@.subrange(0, store@.len() as int) =~= store@);
    }
    r
}

/// Builds the atomic filter testing whether the block is `blk`.
pub(crate) fn cond_blk_is(blk: Blk, accept: bool) -> (r: FilterConditionOp)
    ensures
        forall|s: CodePointAttrs| #[trigger] spec_matches(s, r) == ((s.blk == blk) == accept),
{
    let blks: Vec<Blk> = vec![blk];
    let ghost g = blks@;
    let r = cond_blk(blks, accept);
    proof {
        assert forall|s: CodePointAttrs|
            #[trigger] spec_matches(s, r) == ((s.blk == blk) == accept) by {
            if s.blk == blk {
                assert(g[0] == s.blk);
                assert(g.contains(s.blk));
            }
        }
    }
    r
}

/// Builds the atomic filter testing whether the general category is `gc`.
pub(crate) fn cond_gc_is(gc: Gc, accept: bool) -> (r: FilterConditionOp)
    ensures
        forall|s: CodePointAttrs| #[trigger] spec_matches(s, r) == ((s.gc == gc) == accept),
{
    let gcs: Vec<Gc> = vec![gc];
    let ghost g = gcs@;
    let r = cond_gc(gcs, accept);
    proof {
        assert forall|s: CodePointAttrs|
            #[trigger] spec_matches(s, r) == ((s.gc == gc) == accept) by {
            if s.gc == gc {
                assert(g[0] == s.gc);
                assert(g.contains(s.gc));
            }
        }
    }
    r
}

/// Builds the atomic filter testing whether the script is `sc`.
pub(crate) fn cond_sc_is(sc: Sc, accept: bool) -> (r: FilterConditionOp)
    ensures
        forall|s: CodePointAttrs| #[trigger] spec_matches(s, r) == ((s.sc == sc) == accept),
{
    let scs: Vec<Sc> = vec![sc];
    let ghost g = scs@;
    let r = cond_sc(scs, accept);
    proof {
        assert forall|s: CodePointAttrs|
            #[trigger] spec_matches(s, r) == ((s.sc == sc) == accept) by {
            if s.sc == sc {
                assert(g[0] == s.sc);
                assert(g.contains(s.sc));
            }
        }
    }
    r
}

} // verus!
