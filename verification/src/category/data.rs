//! The category definitions: the named default categories, each with its
//! predicate tree, and the partitioning of the master catalog into them.
use crate::category::CodePointCategory;
use crate::code_point::{
    cond_blk, cond_blk_is, cond_gc, cond_gc_is, cond_ids, cond_sc_is, eligible_configs,
    generate_all_code_points, op_and2, op_and3, op_or2, spec_matches, CodePointConfig,
    FilterConditionOp,
};
use crate::props::{Blk, CodePointAttrs, Gc, Sc};
use vstd::prelude::*;

verus! {

/// The blocks grouped by `african_characters`.
pub open spec fn african_blocks() -> Seq<Blk> {
    seq![
        Blk::Ethiopic, Blk::EthiopicSup, Blk::EthiopicExt, Blk::Tifinagh,
    ]
}

/// Whether a symbol belongs to the category built by `african_characters`.
pub open spec fn in_african_characters(s: CodePointAttrs) -> bool {
    african_blocks().contains(s.blk)
}

/// African writing systems.
pub fn african_characters() -> (r: FilterConditionOp)
    ensures
        forall|s: CodePointAttrs| #[trigger] spec_matches(s, r) == in_african_characters(s),
{
    let blks: Vec<Blk> = vec![
        Blk::Ethiopic, Blk::EthiopicSup, Blk::EthiopicExt, Blk::Tifinagh,
    ];
    proof {
        assert(blks@ =~= african_blocks());
    }
    cond_blk(blks, true)
}

/// The blocks grouped by `extended_numbers`.
pub open spec fn extended_number_blocks() -> Seq<Blk> {
    seq![
        Blk::AegeanNumbers, Blk::AncientGreekNumbers, Blk::MayanNumerals, Blk::CountingRod,
    ]
}

/// Whether a symbol belongs to the category built by `extended_numbers`.
pub open spec fn in_extended_numbers(s: CodePointAttrs) -> bool {
    extended_number_blocks().contains(s.blk)
}

/// Historic and specialised number systems.
pub fn extended_numbers() -> (r: FilterConditionOp)
    ensures
        forall|s: CodePointAttrs| #[trigger] spec_matches(s, r) == in_extended_numbers(s),
{
    let blks: Vec<Blk> = vec![
        Blk::AegeanNumbers, Blk::AncientGreekNumbers, Blk::MayanNumerals, Blk::CountingRod,
    ];
    proof {
        assert(blks@ =~= extended_number_blocks());
    }
    cond_blk(blks, true)
}

/// The blocks grouped by `first_nations`.
pub open spec fn first_nations_blocks() -> Seq<Blk> {
    seq![
        Blk::Cherokee, Blk::CherokeeSup, Blk::Ucas, Blk::UcasExt, Blk::Osage,
    ]
}

/// Whether a symbol belongs to the category built by `first_nations`.
pub open spec fn in_first_nations(s: CodePointAttrs) -> bool {
    first_nations_blocks().contains(s.blk)
}

/// First Nations writing systems.
pub fn first_nations() -> (r: FilterConditionOp)
    ensures
        forall|s: CodePointAttrs| #[trigger] spec_matches(s, r) == in_first_nations(s),
{
    let blks: Vec<Blk> = vec![
        Blk::Cherokee, Blk::CherokeeSup, Blk::Ucas, Blk::UcasExt, Blk::Osage,
    ];
    proof {
        assert(blks@ =~= first_nations_blocks());
    }
    cond_blk(blks, true)
}

/// The blocks grouped by `indian_characters`.
pub open spec fn indian_blocks() -> Seq<Blk> {
    seq![
        Blk::Devanagari, Blk::DevanagariExt, Blk::DevanagariExtA, Blk::Bengali, Blk::Gurmukhi, Blk::Gujarati,
        Blk::Oriya, Blk::Tamil, Blk::TamilSup, Blk::Telugu, Blk::Kannada, Blk::Malayalam,
        Blk::Lepcha, Blk::OlChiki, Blk::VedicExt, Blk::IndicNumberForms, Blk::Saurashtra, Blk::MeeteiMayek,
        Blk::MeeteiMayekExt, Blk::Brahmi, Blk::Kaithi, Blk::SoraSompeng, Blk::Mahajani, Blk::Sharada,
        Blk::Grantha, Blk::Modi, Blk::Ahom, Blk::Dogra, Blk::WarangCiti, Blk::Bhaiksuki,
        Blk::MasaramGondi, Blk::GunjalaGondi, Blk::Wancho,
    ]
}

/// Whether a symbol belongs to the category built by `indian_characters`.
pub open spec fn in_indian_characters(s: CodePointAttrs) -> bool {
    indian_blocks().contains(s.blk)
}

/// Writing systems of the Indian subcontinent.
pub fn indian_characters() -> (r: FilterConditionOp)
    ensures
        forall|s: CodePointAttrs| #[trigger] spec_matches(s, r) == in_indian_characters(s),
{
    let blks: Vec<Blk> = vec![
        Blk::Devanagari, Blk::DevanagariExt, Blk::DevanagariExtA, Blk::Bengali, Blk::Gurmukhi, Blk::Gujarati,
        Blk::Oriya, Blk::Tamil, Blk::TamilSup, Blk::Telugu, Blk::Kannada, Blk::Malayalam,
        Blk::Lepcha, Blk::OlChiki, Blk::VedicExt, Blk::IndicNumberForms, Blk::Saurashtra, Blk::MeeteiMayek,
        Blk::MeeteiMayekExt, Blk::Brahmi, Blk::Kaithi, Blk::SoraSompeng, Blk::Mahajani, Blk::Sharada,
        Blk::Grantha, Blk::Modi, Blk::Ahom, Blk::Dogra, Blk::WarangCiti, Blk::Bhaiksuki,
        Blk::MasaramGondi, Blk::GunjalaGondi, Blk::Wancho,
    ];
    proof {
        assert(blks@ =~= indian_blocks());
    }
    cond_blk(blks, true)
}

/// The blocks grouped by `ipa_extended_chars_and_modifier_letters`.
pub open spec fn ipa_blocks() -> Seq<Blk> {
    seq![
        Blk::IpaExt, Blk::PhoneticExt, Blk::PhoneticExtSup, Blk::ModifierLetters,
    ]
}

/// Whether a symbol belongs to the category built by `ipa_extended_chars_and_modifier_letters`.
pub open spec fn in_ipa_extended_chars_and_modifier_letters(s: CodePointAttrs) -> bool {
    ipa_blocks().contains(s.blk)
}

/// Phonetic extensions and modifier letters.
pub fn ipa_extended_chars_and_modifier_letters() -> (r: FilterConditionOp)
    ensures
        forall|s: CodePointAttrs| #[trigger] spec_matches(s, r) == in_ipa_extended_chars_and_modifier_letters(s),
{
    let blks: Vec<Blk> = vec![
        Blk::IpaExt, Blk::PhoneticExt, Blk::PhoneticExtSup, Blk::ModifierLetters,
    ];
    proof {
        assert(blks@ =~= ipa_blocks());
    }
    cond_blk(blks, true)
}

/// The blocks grouped by `linear_a_linear_b_characters`.
pub open spec fn linear_blocks() -> Seq<Blk> {
    seq![
        Blk::LinearA, Blk::LinearBIdeograms, Blk::LinearBSyllabary,
    ]
}

/// Whether a symbol belongs to the category built by `linear_a_linear_b_characters`.
pub open spec fn in_linear_a_linear_b_characters(s: CodePointAttrs) -> bool {
    linear_blocks().contains(s.blk)
}

/// The Linear A and Linear B scripts.
pub fn linear_a_linear_b_characters() -> (r: FilterConditionOp)
    ensures
        forall|s: CodePointAttrs| #[trigger] spec_matches(s, r) == in_linear_a_linear_b_characters(s),
{
    let blks: Vec<Blk> = vec![
        Blk::LinearA, Blk::LinearBIdeograms, Blk::LinearBSyllabary,
    ];
    proof {
        assert(blks@ =~= linear_blocks());
    }
    cond_blk(blks, true)
}

/// The blocks grouped by `non_cjk_central_and_east_asian_characters`.
pub open spec fn non_cjk_blocks() -> Seq<Blk> {
    seq![
        Blk::Mongolian, Blk::MongolianSup, Blk::TaiLe, Blk::NewTaiLue, Blk::Kangxi, Blk::Jamo,
        Blk::JamoExtA, Blk::JamoExtB, Blk::Hiragana, Blk::Katakana, Blk::KatakanaExt, Blk::Bopomofo,
        Blk::BopomofoExt, Blk::CompatJamo, Blk::Kanbun, Blk::Yijing, Blk::YiSyllables, Blk::YiRadicals,
        Blk::Vai, Blk::ModifierToneLetters, Blk::Hangul, Blk::Nushu, Blk::TaiXuanJing,
    ]
}

/// Whether a symbol belongs to the category built by `non_cjk_central_and_east_asian_characters`.
pub open spec fn in_non_cjk_central_and_east_asian_characters(s: CodePointAttrs) -> bool {
    non_cjk_blocks().contains(s.blk)
}

/// Central and East Asian writing systems outside the CJK blocks.
pub fn non_cjk_central_and_east_asian_characters() -> (r: FilterConditionOp)
    ensures
        forall|s: CodePointAttrs| #[trigger] spec_matches(s, r) == in_non_cjk_central_and_east_asian_characters(s),
{
    let blks: Vec<Blk> = vec![
        Blk::Mongolian, Blk::MongolianSup, Blk::TaiLe, Blk::NewTaiLue, Blk::Kangxi, Blk::Jamo,
        Blk::JamoExtA, Blk::JamoExtB, Blk::Hiragana, Blk::Katakana, Blk::KatakanaExt, Blk::Bopomofo,
        Blk::BopomofoExt, Blk::CompatJamo, Blk::Kanbun, Blk::Yijing, Blk::YiSyllables, Blk::YiRadicals,
        Blk::Vai, Blk::ModifierToneLetters, Blk::Hangul, Blk::Nushu, Blk::TaiXuanJing,
    ];
    proof {
        assert(blks@ =~= non_cjk_blocks());
    }
    cond_blk(blks, true)
}

/// The blocks grouped by `south_and_southeast_asian_characters`.
pub open spec fn south_asian_blocks() -> Seq<Blk> {
    seq![
        Blk::Sinhala, Blk::SinhalaArchaicNumbers, Blk::Thai, Blk::Lao, Blk::Tibetan, Blk::Myanmar,
        Blk::MyanmarExtA, Blk::MyanmarExtB, Blk::Tagalog, Blk::Hanunoo, Blk::Buhid, Blk::Tagbanwa,
        Blk::Khmer, Blk::Limbu, Blk::KhmerSymbols, Blk::Buginese, Blk::TaiTham, Blk::Balinese,
        Blk::Sundanese, Blk::SundaneseSup, Blk::Batak, Blk::SylotiNagri, Blk::PhagsPa, Blk::KayahLi,
        Blk::Rejang, Blk::Javanese, Blk::Cham, Blk::TaiViet, Blk::Lisu, Blk::Chakma,
        Blk::Khojki, Blk::Multani, Blk::Khudawadi, Blk::Newa, Blk::Tirhuta, Blk::Siddham,
        Blk::Takri, Blk::ZanabazarSquare, Blk::Soyombo, Blk::PauCinHau, Blk::Marchen, Blk::Mro,
        Blk::PahawhHmong,
    ]
}

/// Whether a symbol belongs to the category built by `south_and_southeast_asian_characters`.
pub open spec fn in_south_and_southeast_asian_characters(s: CodePointAttrs) -> bool {
    south_asian_blocks().contains(s.blk)
}

/// South and Southeast Asian writing systems.
pub fn south_and_southeast_asian_characters() -> (r: FilterConditionOp)
    ensures
        forall|s: CodePointAttrs| #[trigger] spec_matches(s, r) == in_south_and_southeast_asian_characters(s),
{
    let blks: Vec<Blk> = vec![
        Blk::Sinhala, Blk::SinhalaArchaicNumbers, Blk::Thai, Blk::Lao, Blk::Tibetan, Blk::Myanmar,
        Blk::MyanmarExtA, Blk::MyanmarExtB, Blk::Tagalog, Blk::Hanunoo, Blk::Buhid, Blk::Tagbanwa,
        Blk::Khmer, Blk::Limbu, Blk::KhmerSymbols, Blk::Buginese, Blk::TaiTham, Blk::Balinese,
        Blk::Sundanese, Blk::SundaneseSup, Blk::Batak, Blk::SylotiNagri, Blk::PhagsPa, Blk::KayahLi,
        Blk::Rejang, Blk::Javanese, Blk::Cham, Blk::TaiViet, Blk::Lisu, Blk::Chakma,
        Blk::Khojki, Blk::Multani, Blk::Khudawadi, Blk::Newa, Blk::Tirhuta, Blk::Siddham,
        Blk::Takri, Blk::ZanabazarSquare, Blk::Soyombo, Blk::PauCinHau, Blk::Marchen, Blk::Mro,
        Blk::PahawhHmong,
    ];
    proof {
        assert(blks@ =~= south_asian_blocks());
    }
    cond_blk(blks, true)
}

/// The blocks grouped by `west_asian_and_middle_eastern_characters`.
pub open spec fn west_asian_blocks() -> Seq<Blk> {
    seq![
        Blk::Arabic, Blk::ArabicPfA, Blk::Carian, Blk::Lycian, Blk::Ugaritic, Blk::OldPersian,
        Blk::Avestan, Blk::Cuneiform, Blk::CuneiformNumbers, Blk::EarlyDynasticCuneiform, Blk::Tangut, Blk::TangutComponents,
        Blk::AnatolianHieroglyphs,
    ]
}

/// Whether a symbol belongs to the category built by `west_asian_and_middle_eastern_characters`.
pub open spec fn in_west_asian_and_middle_eastern_characters(s: CodePointAttrs) -> bool {
    west_asian_blocks().contains(s.blk)
}

/// West Asian and Middle Eastern writing systems.
pub fn west_asian_and_middle_eastern_characters() -> (r: FilterConditionOp)
    ensures
        forall|s: CodePointAttrs| #[trigger] spec_matches(s, r) == in_west_asian_and_middle_eastern_characters(s),
{
    let blks: Vec<Blk> = vec![
        Blk::Arabic, Blk::ArabicPfA, Blk::Carian, Blk::Lycian, Blk::Ugaritic, Blk::OldPersian,
        Blk::Avestan, Blk::Cuneiform, Blk::CuneiformNumbers, Blk::EarlyDynasticCuneiform, Blk::Tangut, Blk::TangutComponents,
        Blk::AnatolianHieroglyphs,
    ];
    proof {
        assert(blks@ =~= west_asian_blocks());
    }
    cond_blk(blks, true)
}

/// Whether a symbol belongs to the category built by `ascii_lowercase_letters`.
pub open spec fn in_ascii_lowercase_letters(s: CodePointAttrs) -> bool {
    s.blk == Blk::Ascii && s.gc == Gc::Ll
}

/// The lowercase letters of the ASCII block.
pub fn ascii_lowercase_letters() -> (r: FilterConditionOp)
    ensures
        forall|s: CodePointAttrs| #[trigger] spec_matches(s, r) == in_ascii_lowercase_letters(s),
{
    op_and2(cond_blk_is(Blk::Ascii, true), cond_gc_is(Gc::Ll, true))
}

/// Whether a symbol belongs to the category built by `ascii_uppercase_letters`.
pub open spec fn in_ascii_uppercase_letters(s: CodePointAttrs) -> bool {
    s.blk == Blk::Ascii && s.gc == Gc::Lu
}

/// The uppercase letters of the ASCII block.
pub fn ascii_uppercase_letters() -> (r: FilterConditionOp)
    ensures
        forall|s: CodePointAttrs| #[trigger] spec_matches(s, r) == in_ascii_uppercase_letters(s),
{
    op_and2(cond_blk_is(Blk::Ascii, true), cond_gc_is(Gc::Lu, true))
}

/// Whether a symbol belongs to the category built by `ascii_digits`.
pub open spec fn in_ascii_digits(s: CodePointAttrs) -> bool {
    s.blk == Blk::Ascii && s.gc == Gc::Nd
}

/// The decimal digits of the ASCII block.
pub fn ascii_digits() -> (r: FilterConditionOp)
    ensures
        forall|s: CodePointAttrs| #[trigger] spec_matches(s, r) == in_ascii_digits(s),
{
    op_and2(cond_blk_is(Blk::Ascii, true), cond_gc_is(Gc::Nd, true))
}

/// Whether a symbol belongs to the category built by `ascii_space`.
pub open spec fn in_ascii_space(s: CodePointAttrs) -> bool {
    s.blk == Blk::Ascii && s.gc == Gc::Zs
}

/// The space of the ASCII block.
pub fn ascii_space() -> (r: FilterConditionOp)
    ensures
        forall|s: CodePointAttrs| #[trigger] spec_matches(s, r) == in_ascii_space(s),
{
    op_and2(cond_blk_is(Blk::Ascii, true), cond_gc_is(Gc::Zs, true))
}

/// The numeric identities of the basic ASCII symbols.
pub open spec fn ascii_basic_symbol_code_points() -> Seq<u32> {
    seq![
        0x21, 0x23, 0x24, 0x25, 0x26, 0x2a,
        0x40, 0x5e,
    ]
}

/// Whether a symbol belongs to the category built by `ascii_basic_symbols`.
pub open spec fn in_ascii_basic_symbols(s: CodePointAttrs) -> bool {
    s.blk == Blk::Ascii && ascii_basic_symbol_code_points().contains(s.ch as u32)
}

/// The handful of most common ASCII symbols.
pub fn ascii_basic_symbols() -> (r: FilterConditionOp)
    ensures
        forall|s: CodePointAttrs| #[trigger] spec_matches(s, r) == in_ascii_basic_symbols(s),
{
    let ids: Vec<u32> = vec![
        0x21, 0x23, 0x24, 0x25, 0x26, 0x2a,
        0x40, 0x5e,
    ];
    proof {
        assert(ids@ =~= ascii_basic_symbol_code_points());
    }
    op_and2(cond_blk_is(Blk::Ascii, true), cond_ids(ids, true))
}

/// The general categories of the extended ASCII symbols.
pub open spec fn ascii_extended_symbol_general_categories() -> Seq<Gc> {
    seq![
        Gc::Pc, Gc::Pd, Gc::Pe, Gc::Po, Gc::Ps, Gc::Sk,
        Gc::Sm,
    ]
}

/// Whether a symbol belongs to the category built by `ascii_extended_symbols`.
pub open spec fn in_ascii_extended_symbols(s: CodePointAttrs) -> bool {
    &&& s.blk == Blk::Ascii
    &&& ascii_extended_symbol_general_categories().contains(s.gc)
    &&& !ascii_basic_symbol_code_points().contains(s.ch as u32)
}

/// The ASCII punctuation and symbols outside the basic handful.
pub fn ascii_extended_symbols() -> (r: FilterConditionOp)
    ensures
        forall|s: CodePointAttrs| #[trigger] spec_matches(s, r) == in_ascii_extended_symbols(s),
{
    let gcs: Vec<Gc> = vec![
        Gc::Pc, Gc::Pd, Gc::Pe, Gc::Po, Gc::Ps, Gc::Sk,
        Gc::Sm,
    ];
    let ids: Vec<u32> = vec![
        0x21, 0x23, 0x24, 0x25, 0x26, 0x2a,
        0x40, 0x5e,
    ];
    proof {
        assert(gcs@ =~= ascii_extended_symbol_general_categories());
        assert(ids@ =~= ascii_basic_symbol_code_points());
    }
    op_and3(cond_blk_is(Blk::Ascii, true), cond_gc(gcs, true), cond_ids(ids, false))
}

/// The blocks grouped by `cjk_characters`.
pub open spec fn cjk_blocks() -> Seq<Blk> {
    seq![
        Blk::Nko, Blk::CjkRadicalsSup, Blk::CjkSymbols, Blk::CjkStrokes, Blk::EnclosedCjk, Blk::CjkCompat,
        Blk::CjkExtA, Blk::Cjk, Blk::CjkCompatIdeographs, Blk::CjkCompatForms,
    ]
}

/// Whether a symbol belongs to the category built by `cjk_characters`.
pub open spec fn in_cjk_characters(s: CodePointAttrs) -> bool {
    cjk_blocks().contains(s.blk) && s.gc != Gc::Zs
}

/// Chinese, Japanese and Korean writing systems, spaces left out.
pub fn cjk_characters() -> (r: FilterConditionOp)
    ensures
        forall|s: CodePointAttrs| #[trigger] spec_matches(s, r) == in_cjk_characters(s),
{
    let blks: Vec<Blk> = vec![
        Blk::Nko, Blk::CjkRadicalsSup, Blk::CjkSymbols, Blk::CjkStrokes, Blk::EnclosedCjk, Blk::CjkCompat,
        Blk::CjkExtA, Blk::Cjk, Blk::CjkCompatIdeographs, Blk::CjkCompatForms,
    ];
    proof {
        assert(blks@ =~= cjk_blocks());
    }
    op_and2(cond_blk(blks, true), cond_gc_is(Gc::Zs, false))
}

/// The blocks grouped by `european_characters`.
pub open spec fn european_blocks() -> Seq<Blk> {
    seq![
        Blk::Greek, Blk::GreekExt, Blk::Cyrillic, Blk::CyrillicExtA, Blk::CyrillicExtB, Blk::CyrillicExtC,
        Blk::CyrillicSup, Blk::Glagolitic, Blk::Coptic, Blk::CopticEpactNumbers, Blk::Armenian, Blk::Georgian,
        Blk::GeorgianExt, Blk::GeorgianSup, Blk::OldItalic, Blk::Gothic, Blk::OldPermic, Blk::Shavian,
        Blk::Elbasan, Blk::CaucasianAlbanian, Blk::Ogham, Blk::Runic, Blk::Duployan,
    ]
}

/// Whether a symbol belongs to the category built by `european_characters`.
pub open spec fn in_european_characters(s: CodePointAttrs) -> bool {
    s.gc != Gc::Zs && (european_blocks().contains(s.blk) || (s.blk == Blk::AlphabeticPf && s.sc
        == Sc::Armn))
}

/// European writing systems, spaces left out: a symbol belongs when it
/// lies in one of the listed blocks, or when it is an alphabetic
/// presentation form of the Armenian script.
pub fn european_characters() -> (r: FilterConditionOp)
    ensures
        forall|s: CodePointAttrs| #[trigger] spec_matches(s, r) == in_european_characters(s),
{
    let blks: Vec<Blk> = vec![
        Blk::Greek, Blk::GreekExt, Blk::Cyrillic, Blk::CyrillicExtA, Blk::CyrillicExtB, Blk::CyrillicExtC,
        Blk::CyrillicSup, Blk::Glagolitic, Blk::Coptic, Blk::CopticEpactNumbers, Blk::Armenian, Blk::Georgian,
        Blk::GeorgianExt, Blk::GeorgianSup, Blk::OldItalic, Blk::Gothic, Blk::OldPermic, Blk::Shavian,
        Blk::Elbasan, Blk::CaucasianAlbanian, Blk::Ogham, Blk::Runic, Blk::Duployan,
    ];
    proof {
        assert(blks@ =~= european_blocks());
    }
    let pf = op_and2(cond_blk_is(Blk::AlphabeticPf, true), cond_sc_is(Sc::Armn, true));
    op_and2(cond_gc_is(Gc::Zs, false), op_or2(cond_blk(blks, true), pf))
}

/// The blocks grouped by `extended_symbols_and_emojis`.
pub open spec fn extended_symbol_blocks() -> Seq<Blk> {
    seq![
        Blk::Punctuation, Blk::SuperAndSub, Blk::LetterlikeSymbols, Blk::NumberForms, Blk::Arrows, Blk::MathOperators,
        Blk::MiscTechnical, Blk::Ocr, Blk::EnclosedAlphanum, Blk::ControlPictures, Blk::BoxDrawing, Blk::BlockElements,
        Blk::GeometricShapes, Blk::GeometricShapesExt, Blk::MiscSymbols, Blk::Dingbats, Blk::MiscMathSymbolsA, Blk::SupArrowsA,
        Blk::Braille, Blk::SupArrowsB, Blk::SupArrowsC, Blk::MiscMathSymbolsB, Blk::SupMathOperators, Blk::MiscArrows,
        Blk::SupPunctuation, Blk::Idc, Blk::VerticalForms, Blk::SmallForms, Blk::HalfAndFullForms, Blk::AncientSymbols,
        Blk::Phaistos, Blk::Deseret, Blk::Miao, Blk::IdeographicSymbols, Blk::Phoenician, Blk::ByzantineMusic,
        Blk::Music, Blk::AncientGreekMusic, Blk::MathAlphanum, Blk::SuttonSignwriting, Blk::NyiakengPuachueHmong, Blk::ArabicMath,
        Blk::Mahjong, Blk::Domino, Blk::PlayingCards, Blk::EnclosedAlphanumSup, Blk::EnclosedIdeographicSup, Blk::MiscPictographs,
        Blk::Emoticons, Blk::TransportAndMap, Blk::Alchemical, Blk::SupSymbolsAndPictographs, Blk::ChessSymbols, Blk::SymbolsAndPictographsExtA,
        Blk::SymbolsForLegacyComputing, Blk::OrnamentalDingbats,
    ]
}

/// Whether a symbol belongs to the category built by `extended_symbols_and_emojis`.
pub open spec fn in_extended_symbols_and_emojis(s: CodePointAttrs) -> bool {
    s.gc != Gc::Zs && (extended_symbol_blocks().contains(s.blk) || (s.blk == Blk::AlphabeticPf && s.sc
        == Sc::Hebr))
}

/// Extended symbols, pictographs and emojis, spaces left out: a symbol
/// belongs when it lies in one of the listed blocks, or when it is an
/// alphabetic presentation form of the Hebrew script.
pub fn extended_symbols_and_emojis() -> (r: FilterConditionOp)
    ensures
        forall|s: CodePointAttrs| #[trigger] spec_matches(s, r) == in_extended_symbols_and_emojis(s),
{
    let blks: Vec<Blk> = vec![
        Blk::Punctuation, Blk::SuperAndSub, Blk::LetterlikeSymbols, Blk::NumberForms, Blk::Arrows, Blk::MathOperators,
        Blk::MiscTechnical, Blk::Ocr, Blk::EnclosedAlphanum, Blk::ControlPictures, Blk::BoxDrawing, Blk::BlockElements,
        Blk::GeometricShapes, Blk::GeometricShapesExt, Blk::MiscSymbols, Blk::Dingbats, Blk::MiscMathSymbolsA, Blk::SupArrowsA,
        Blk::Braille, Blk::SupArrowsB, Blk::SupArrowsC, Blk::MiscMathSymbolsB, Blk::SupMathOperators, Blk::MiscArrows,
        Blk::SupPunctuation, Blk::Idc, Blk::VerticalForms, Blk::SmallForms, Blk::HalfAndFullForms, Blk::AncientSymbols,
        Blk::Phaistos, Blk::Deseret, Blk::Miao, Blk::IdeographicSymbols, Blk::Phoenician, Blk::ByzantineMusic,
        Blk::Music, Blk::AncientGreekMusic, Blk::MathAlphanum, Blk::SuttonSignwriting, Blk::NyiakengPuachueHmong, Blk::ArabicMath,
        Blk::Mahjong, Blk::Domino, Blk::PlayingCards, Blk::EnclosedAlphanumSup, Blk::EnclosedIdeographicSup, Blk::MiscPictographs,
        Blk::Emoticons, Blk::TransportAndMap, Blk::Alchemical, Blk::SupSymbolsAndPictographs, Blk::ChessSymbols, Blk::SymbolsAndPictographsExtA,
        Blk::SymbolsForLegacyComputing, Blk::OrnamentalDingbats,
    ];
    proof {
        assert(blks@ =~= extended_symbol_blocks());
    }
    let pf = op_and2(cond_blk_is(Blk::AlphabeticPf, true), cond_sc_is(Sc::Hebr, true));
    op_and2(cond_gc_is(Gc::Zs, false), op_or2(cond_blk(blks, true), pf))
}

/// The blocks grouped by `latin_lowercase_characters`.
pub open spec fn latin_lowercase_blocks() -> Seq<Blk> {
    seq![
        Blk::Latin1Sup, Blk::LatinExtA, Blk::LatinExtAdditional, Blk::LatinExtB, Blk::LatinExtC, Blk::LatinExtD,
        Blk::LatinExtE,
    ]
}

/// Whether a symbol belongs to the category built by
/// `latin_lowercase_characters`.
pub open spec fn in_latin_lowercase_characters(s: CodePointAttrs) -> bool {
    (s.blk == Blk::AlphabeticPf && s.sc == Sc::Latn) || (latin_lowercase_blocks().contains(s.blk)
        && s.gc == Gc::Ll)
}

/// Latin lowercase letters beyond ASCII, including the alphabetic
/// presentation forms of the Latin script.
pub fn latin_lowercase_characters() -> (r: FilterConditionOp)
    ensures
        forall|s: CodePointAttrs|
            #[trigger] spec_matches(s, r) == in_latin_lowercase_characters(s),
{
    let blks: Vec<Blk> = vec![
        Blk::Latin1Sup, Blk::LatinExtA, Blk::LatinExtAdditional, Blk::LatinExtB, Blk::LatinExtC, Blk::LatinExtD,
        Blk::LatinExtE,
    ];
    proof {
        assert(blks@ =~= latin_lowercase_blocks());
    }
    let pf = op_and2(cond_blk_is(Blk::AlphabeticPf, true), cond_sc_is(Sc::Latn, true));
    op_or2(pf, op_and2(cond_blk(blks, true), cond_gc_is(Gc::Ll, true)))
}

/// The blocks grouped by `latin_symbols`.
pub open spec fn latin_symbol_blocks() -> Seq<Blk> {
    seq![
        Blk::Latin1Sup, Blk::LatinExtD, Blk::LatinExtE,
    ]
}

/// The general categories grouped by `latin_symbols`.
pub open spec fn latin_symbol_general_categories() -> Seq<Gc> {
    seq![
        Gc::No, Gc::Pf, Gc::Pi, Gc::Po, Gc::Sc, Gc::Sk,
        Gc::Sm, Gc::So,
    ]
}

/// Whether a symbol belongs to the category built by `latin_symbols`.
pub open spec fn in_latin_symbols(s: CodePointAttrs) -> bool {
    latin_symbol_blocks().contains(s.blk) && latin_symbol_general_categories().contains(s.gc)
}

/// Symbols and punctuation of the Latin blocks.
pub fn latin_symbols() -> (r: FilterConditionOp)
    ensures
        forall|s: CodePointAttrs| #[trigger] spec_matches(s, r) == in_latin_symbols(s),
{
    let blks: Vec<Blk> = vec![
        Blk::Latin1Sup, Blk::LatinExtD, Blk::LatinExtE,
    ];
    let gcs: Vec<Gc> = vec![
        Gc::No, Gc::Pf, Gc::Pi, Gc::Po, Gc::Sc, Gc::Sk,
        Gc::Sm, Gc::So,
    ];
    proof {
        assert(blks@ =~= latin_symbol_blocks());
        assert(gcs@ =~= latin_symbol_general_categories());
    }
    op_and2(cond_blk(blks, true), cond_gc(gcs, true))
}

/// The blocks grouped by `latin_uppercase_letters`.
pub open spec fn latin_uppercase_blocks() -> Seq<Blk> {
    seq![
        Blk::Latin1Sup, Blk::LatinExtA, Blk::LatinExtAdditional, Blk::LatinExtB, Blk::LatinExtC, Blk::LatinExtD,
    ]
}

/// Whether a symbol belongs to the category built by
/// `latin_uppercase_letters`.
pub open spec fn in_latin_uppercase_letters(s: CodePointAttrs) -> bool {
    latin_uppercase_blocks().contains(s.blk) && s.gc == Gc::Lu
}

/// Latin uppercase letters beyond ASCII.
pub fn latin_uppercase_letters() -> (r: FilterConditionOp)
    ensures
        forall|s: CodePointAttrs| #[trigger] spec_matches(s, r) == in_latin_uppercase_letters(s),
{
    let blks: Vec<Blk> = vec![
        Blk::Latin1Sup, Blk::LatinExtA, Blk::LatinExtAdditional, Blk::LatinExtB, Blk::LatinExtC, Blk::LatinExtD,
    ];
    proof {
        assert(blks@ =~= latin_uppercase_blocks());
    }
    op_and2(cond_blk(blks, true), cond_gc_is(Gc::Lu, true))
}

/// The blocks grouped by `other_latin_characters`.
pub open spec fn other_latin_blocks() -> Seq<Blk> {
    seq![
        Blk::Latin1Sup, Blk::LatinExtB, Blk::LatinExtC, Blk::LatinExtD, Blk::LatinExtE,
    ]
}

/// The general categories grouped by `other_latin_characters`.
pub open spec fn other_latin_general_categories() -> Seq<Gc> {
    seq![
        Gc::Lm, Gc::Lo, Gc::Lt,
    ]
}

/// Whether a symbol belongs to the category built by
/// `other_latin_characters`.
pub open spec fn in_other_latin_characters(s: CodePointAttrs) -> bool {
    other_latin_blocks().contains(s.blk) && other_latin_general_categories().contains(s.gc)
}

/// Latin letters that are neither plain uppercase nor plain lowercase.
pub fn other_latin_characters() -> (r: FilterConditionOp)
    ensures
        forall|s: CodePointAttrs| #[trigger] spec_matches(s, r) == in_other_latin_characters(s),
{
    let blks: Vec<Blk> = vec![
        Blk::Latin1Sup, Blk::LatinExtB, Blk::LatinExtC, Blk::LatinExtD, Blk::LatinExtE,
    ];
    let gcs: Vec<Gc> = vec![
        Gc::Lm, Gc::Lo, Gc::Lt,
    ];
    proof {
        assert(blks@ =~= other_latin_blocks());
        assert(gcs@ =~= other_latin_general_categories());
    }
    op_and2(cond_blk(blks, true), cond_gc(gcs, true))
}

/// Whether a symbol belongs to the category built by `non_ascii_space`.
pub open spec fn in_non_ascii_space(s: CodePointAttrs) -> bool {
    s.blk != Blk::Ascii && s.gc == Gc::Zs
}

/// Space characters outside the ASCII block.
pub fn non_ascii_space() -> (r: FilterConditionOp)
    ensures
        forall|s: CodePointAttrs| #[trigger] spec_matches(s, r) == in_non_ascii_space(s),
{
    op_and2(cond_blk_is(Blk::Ascii, false), cond_gc_is(Gc::Zs, true))
}

/// The members of `catalog` whose attributes satisfy `p`, in catalog order.
pub open spec fn members_satisfying(
    catalog: Seq<CodePointConfig>,
    p: spec_fn(CodePointAttrs) -> bool,
) -> Seq<CodePointConfig>
    decreases catalog.len(),
{
    if catalog.len() == 0 {
        Seq::empty()
    } else {
        let rest = members_satisfying(catalog.drop_last(), p);
        if p(catalog.last().attrs) {
            rest.push(catalog.last())
        } else {
            rest
        }
    }
}

/// Partitions out of `catalog` the symbols matching `filters`, whose meaning
/// is the predicate `pred`.
#[verifier::loop_isolation(false)]
fn members_of(
    catalog: &Vec<CodePointConfig>,
    filters: &FilterConditionOp,
    pred: Ghost<spec_fn(CodePointAttrs) -> bool>,
) -> (r: Vec<CodePointConfig>)
    requires
        forall|s: CodePointAttrs| #[trigger] spec_matches(s, *filters) == pred@(s),
    ensures
        r@ == members_satisfying(catalog@, pred@),
{
    let mut r: Vec<CodePointConfig> = Vec::new();
    let mut i: usize = 0;
    while i < catalog.len()
        invariant
            0 <= i <= catalog@.len(),
            r@ == members_satisfying(catalog@.subrange(0, i as int), pred@),
        decreases catalog@.len() - i,
    {
        let cpc = catalog[i];
        if cpc.matches_filter_condition_op(filters) {
            r.push(cpc);
        }
        proof {
            assert(catalog@.subrange(0, i + 1 as int).drop_last() =~= catalog@.subrange(
                0,
                i as int,
            ));
            assert(catalog@.subrange(0, i + 1 as int).last() == catalog@[i as int]);
        }
        i += 1;
    }
    proof {
        assert(catalog@.subrange(0, catalog@.len() as int) =~= catalog@);
    }
    r
}

/// What the default category list looks like over a given attribute store:
/// the named categories in their fixed order, every one enabled with minimum
/// 1, each holding exactly the eligible symbols its predicate selects.
pub open spec fn is_default_category_list(
    cats: Seq<CodePointCategory>,
    store: Seq<CodePointAttrs>,
) -> bool {
    let catalog = eligible_configs(store);
    &&& cats.len() == 23
    &&& cats[0].name@ == "ASCII Lowercase Letters"@
    &&& cats[0].enabled
    &&& cats[0].min_characters == 1
    &&& cats[0].code_points@ == members_satisfying(
        catalog,
        |s: CodePointAttrs| in_ascii_lowercase_letters(s),
    )
    &&& cats[1].name@ == "ASCII Uppercase Letters"@
    &&& cats[1].enabled
    &&& cats[1].min_characters == 1
    &&& cats[1].code_points@ == members_satisfying(
        catalog,
        |s: CodePointAttrs| in_ascii_uppercase_letters(s),
    )
    &&& cats[2].name@ == "ASCII Digits"@
    &&& cats[2].enabled
    &&& cats[2].min_characters == 1
    &&& cats[2].code_points@ == members_satisfying(
        catalog,
        |s: CodePointAttrs| in_ascii_digits(s),
    )
    &&& cats[3].name@ == "ASCII Basic Symbols"@
    &&& cats[3].enabled
    &&& cats[3].min_characters == 1
    &&& cats[3].code_points@ == members_satisfying(
        catalog,
        |s: CodePointAttrs| in_ascii_basic_symbols(s),
    )
    &&& cats[4].name@ == "ASCII Extended Symbols"@
    &&& cats[4].enabled
    &&& cats[4].min_characters == 1
    &&& cats[4].code_points@ == members_satisfying(
        catalog,
        |s: CodePointAttrs| in_ascii_extended_symbols(s),
    )
    &&& cats[5].name@ == "ASCII Space"@
    &&& cats[5].enabled
    &&& cats[5].min_characters == 1
    &&& cats[5].code_points@ == members_satisfying(
        catalog,
        |s: CodePointAttrs| in_ascii_space(s),
    )
    &&& cats[6].name@ == "African Characters"@
    &&& cats[6].enabled
    &&& cats[6].min_characters == 1
    &&& cats[6].code_points@ == members_satisfying(
        catalog,
        |s: CodePointAttrs| in_african_characters(s),
    )
    &&& cats[7].name@ == "CJK Characters"@
    &&& cats[7].enabled
    &&& cats[7].min_characters == 1
    &&& cats[7].code_points@ == members_satisfying(
        catalog,
        |s: CodePointAttrs| in_cjk_characters(s),
    )
    &&& cats[8].name@ == "European Characters"@
    &&& cats[8].enabled
    &&& cats[8].min_characters == 1
    &&& cats[8].code_points@ == members_satisfying(
        catalog,
        |s: CodePointAttrs| in_european_characters(s),
    )
    &&& cats[9].name@ == "Extended Numbers"@
    &&& cats[9].enabled
    &&& cats[9].min_characters == 1
    &&& cats[9].code_points@ == members_satisfying(
        catalog,
        |s: CodePointAttrs| in_extended_numbers(s),
    )
    &&& cats[10].name@ == "Extended Symbols and Emojis"@
    &&& cats[10].enabled
    &&& cats[10].min_characters == 1
    &&& cats[10].code_points@ == members_satisfying(
        catalog,
        |s: CodePointAttrs| in_extended_symbols_and_emojis(s),
    )
    &&& cats[11].name@ == "First Nations Characters"@
    &&& cats[11].enabled
    &&& cats[11].min_characters == 1
    &&& cats[11].code_points@ == members_satisfying(
        catalog,
        |s: CodePointAttrs| in_first_nations(s),
    )
    &&& cats[12].name@ == "Indian Characters"@
    &&& cats[12].enabled
    &&& cats[12].min_characters == 1
    &&& cats[12].code_points@ == members_satisfying(
        catalog,
        |s: CodePointAttrs| in_indian_characters(s),
    )
    &&& cats[13].name@ == "IPA Extended Characters and Modifier Letters"@
    &&& cats[13].enabled
    &&& cats[13].min_characters == 1
    &&& cats[13].code_points@ == members_satisfying(
        catalog,
        |s: CodePointAttrs| in_ipa_extended_chars_and_modifier_letters(s),
    )
    &&& cats[14].name@ == "Latin Lowercase Characters"@
    &&& cats[14].enabled
    &&& cats[14].min_characters == 1
    &&& cats[14].code_points@ == members_satisfying(
        catalog,
        |s: CodePointAttrs| in_latin_lowercase_characters(s),
    )
    &&& cats[15].name@ == "Latin Uppercase Characters"@
    &&& cats[15].enabled
    &&& cats[15].min_characters == 1
    &&& cats[15].code_points@ == members_satisfying(
        catalog,
        |s: CodePointAttrs| in_latin_uppercase_letters(s),
    )
    &&& cats[16].name@ == "Latin Symbols"@
    &&& cats[16].enabled
    &&& cats[16].min_characters == 1
    &&& cats[16].code_points@ == members_satisfying(
        catalog,
        |s: CodePointAttrs| in_latin_symbols(s),
    )
    &&& cats[17].name@ == "Other Latin Characters"@
    &&& cats[17].enabled
    &&& cats[17].min_characters == 1
    &&& cats[17].code_points@ == members_satisfying(
        catalog,
        |s: CodePointAttrs| in_other_latin_characters(s),
    )
    &&& cats[18].name@ == "Linear A and Linear B Characters"@
    &&& cats[18].enabled
    &&& cats[18].min_characters == 1
    &&& cats[18].code_points@ == members_satisfying(
        catalog,
        |s: CodePointAttrs| in_linear_a_linear_b_characters(s),
    )
    &&& cats[19].name@ == "Non-ASCII Space"@
    &&& cats[19].enabled
    &&& cats[19].min_characters == 1
    &&& cats[19].code_points@ == members_satisfying(
        catalog,
        |s: CodePointAttrs| in_non_ascii_space(s),
    )
    &&& cats[20].name@ == "Non-CJK Central and East Asian Characters"@
    &&& cats[20].enabled
    &&& cats[20].min_characters == 1
    &&& cats[20].code_points@ == members_satisfying(
        catalog,
        |s: CodePointAttrs| in_non_cjk_central_and_east_asian_characters(s),
    )
    &&& cats[21].name@ == "South and Southeast Asian Characters"@
    &&& cats[21].enabled
    &&& cats[21].min_characters == 1
    &&& cats[21].code_points@ == members_satisfying(
        catalog,
        |s: CodePointAttrs| in_south_and_southeast_asian_characters(s),
    )
    &&& cats[22].name@ == "West Asian and Middle Eastern Characters"@
    &&& cats[22].enabled
    &&& cats[22].min_characters == 1
    &&& cats[22].code_points@ == members_satisfying(
        catalog,
        |s: CodePointAttrs| in_west_asian_and_middle_eastern_characters(s),
    )
}

/// Builds the default category list over the given attribute store: the
/// master catalog is built once, then partitioned by every category's
/// predicate tree. Every category starts enabled, with minimum 1, and every
/// selected symbol starts individually enabled.
pub fn generate_code_point_categories(store: &Vec<CodePointAttrs>) -> (r: Vec<CodePointCategory>)
    ensures
        is_default_category_list(r@, store@),
{
    let all_code_points = generate_all_code_points(store);
    let mut categories: Vec<CodePointCategory> = Vec::new();
    let mut cat0 = CodePointCategory::new("ASCII Lowercase Letters", true, ascii_lowercase_letters(), 1);
    cat0.code_points = members_of(
        &all_code_points,
        &cat0.filters,
        Ghost(|s: CodePointAttrs| in_ascii_lowercase_letters(s)),
    );
    categories.push(cat0);
    let mut cat1 = CodePointCategory::new("ASCII Uppercase Letters", true, ascii_uppercase_letters(), 1);
    cat1.code_points = members_of(
        &all_code_points,
        &cat1.filters,
        Ghost(|s: CodePointAttrs| in_ascii_uppercase_letters(s)),
    );
    categories.push(cat1);
    let mut cat2 = CodePointCategory::new("ASCII Digits", true, ascii_digits(), 1);
    cat2.code_points = members_of(
        &all_code_points,
        &cat2.filters,
        Ghost(|s: CodePointAttrs| in_ascii_digits(s)),
    );
    categories.push(cat2);
    let mut cat3 = CodePointCategory::new("ASCII Basic Symbols", true, ascii_basic_symbols(), 1);
    cat3.code_points = members_of(
        &all_code_points,
        &cat3.filters,
        Ghost(|s: CodePointAttrs| in_ascii_basic_symbols(s)),
    );
    categories.push(cat3);
    let mut cat4 = CodePointCategory::new("ASCII Extended Symbols", true, ascii_extended_symbols(), 1);
    cat4.code_points = members_of(
        &all_code_points,
        &cat4.filters,
        Ghost(|s: CodePointAttrs| in_ascii_extended_symbols(s)),
    );
    categories.push(cat4);
    let mut cat5 = CodePointCategory::new("ASCII Space", true, ascii_space(), 1);
    cat5.code_points = members_of(
        &all_code_points,
        &cat5.filters,
        Ghost(|s: CodePointAttrs| in_ascii_space(s)),
    );
    categories.push(cat5);
    let mut cat6 = CodePointCategory::new("African Characters", true, african_characters(), 1);
    cat6.code_points = members_of(
        &all_code_points,
        &cat6.filters,
        Ghost(|s: CodePointAttrs| in_african_characters(s)),
    );
    categories.push(cat6);
    let mut cat7 = CodePointCategory::new("CJK Characters", true, cjk_characters(), 1);
    cat7.code_points = members_of(
        &all_code_points,
        &cat7.filters,
        Ghost(|s: CodePointAttrs| in_cjk_characters(s)),
    );
    categories.push(cat7);
    let mut cat8 = CodePointCategory::new("European Characters", true, european_characters(), 1);
    cat8.code_points = members_of(
        &all_code_points,
        &cat8.filters,
        Ghost(|s: CodePointAttrs| in_european_characters(s)),
    );
    categories.push(cat8);
    let mut cat9 = CodePointCategory::new("Extended Numbers", true, extended_numbers(), 1);
    cat9.code_points = members_of(
        &all_code_points,
        &cat9.filters,
        Ghost(|s: CodePointAttrs| in_extended_numbers(s)),
    );
    categories.push(cat9);
    let mut cat10 = CodePointCategory::new("Extended Symbols and Emojis", true, extended_symbols_and_emojis(), 1);
    cat10.code_points = members_of(
        &all_code_points,
        &cat10.filters,
        Ghost(|s: CodePointAttrs| in_extended_symbols_and_emojis(s)),
    );
    categories.push(cat10);
    let mut cat11 = CodePointCategory::new("First Nations Characters", true, first_nations(), 1);
    cat11.code_points = members_of(
        &all_code_points,
        &cat11.filters,
        Ghost(|s: CodePointAttrs| in_first_nations(s)),
    );
    categories.push(cat11);
    let mut cat12 = CodePointCategory::new("Indian Characters", true, indian_characters(), 1);
    cat12.code_points = members_of(
        &all_code_points,
        &cat12.filters,
        Ghost(|s: CodePointAttrs| in_indian_characters(s)),
    );
    categories.push(cat12);
    let mut cat13 = CodePointCategory::new("IPA Extended Characters and Modifier Letters", true, ipa_extended_chars_and_modifier_letters(), 1);
    cat13.code_points = members_of(
        &all_code_points,
        &cat13.filters,
        Ghost(|s: CodePointAttrs| in_ipa_extended_chars_and_modifier_letters(s)),
    );
    categories.push(cat13);
    let mut cat14 = CodePointCategory::new("Latin Lowercase Characters", true, latin_lowercase_characters(), 1);
    cat14.code_points = members_of(
        &all_code_points,
        &cat14.filters,
        Ghost(|s: CodePointAttrs| in_latin_lowercase_characters(s)),
    );
    categories.push(cat14);
    let mut cat15 = CodePointCategory::new("Latin Uppercase Characters", true, latin_uppercase_letters(), 1);
    cat15.code_points = members_of(
        &all_code_points,
        &cat15.filters,
        Ghost(|s: CodePointAttrs| in_latin_uppercase_letters(s)),
    );
    categories.push(cat15);
    let mut cat16 = CodePointCategory::new("Latin Symbols", true, latin_symbols(), 1);
    cat16.code_points = members_of(
        &all_code_points,
        &cat16.filters,
        Ghost(|s: CodePointAttrs| in_latin_symbols(s)),
    );
    categories.push(cat16);
    let mut cat17 = CodePointCategory::new("Other Latin Characters", true, other_latin_characters(), 1);
    cat17.code_points = members_of(
        &all_code_points,
        &cat17.filters,
        Ghost(|s: CodePointAttrs| in_other_latin_characters(s)),
    );
    categories.push(cat17);
    let mut cat18 = CodePointCategory::new("Linear A and Linear B Characters", true, linear_a_linear_b_characters(), 1);
    cat18.code_points = members_of(
        &all_code_points,
        &cat18.filters,
        Ghost(|s: CodePointAttrs| in_linear_a_linear_b_characters(s)),
    );
    categories.push(cat18);
    let mut cat19 = CodePointCategory::new("Non-ASCII Space", true, non_ascii_space(), 1);
    cat19.code_points = members_of(
        &all_code_points,
        &cat19.filters,
        Ghost(|s: CodePointAttrs| in_non_ascii_space(s)),
    );
    categories.push(cat19);
    let mut cat20 = CodePointCategory::new("Non-CJK Central and East Asian Characters", true, non_cjk_central_and_east_asian_characters(), 1);
    cat20.code_points = members_of(
        &all_code_points,
        &cat20.filters,
        Ghost(|s: CodePointAttrs| in_non_cjk_central_and_east_asian_characters(s)),
    );
    categories.push(cat20);
    let mut cat21 = CodePointCategory::new("South and Southeast Asian Characters", true, south_and_southeast_asian_characters(), 1);
    cat21.code_points = members_of(
        &all_code_points,
        &cat21.filters,
        Ghost(|s: CodePointAttrs| in_south_and_southeast_asian_characters(s)),
    );
    categories.push(cat21);
    let mut cat22 = CodePointCategory::new("West Asian and Middle Eastern Characters", true, west_asian_and_middle_eastern_characters(), 1);
    cat22.code_points = members_of(
        &all_code_points,
        &cat22.filters,
        Ghost(|s: CodePointAttrs| in_west_asian_and_middle_eastern_characters(s)),
    );
    categories.push(cat22);
    categories
}

/// Classification is deterministic: category lists built from the same
/// attribute store agree throughout on names and memberships, since both are
/// functions of the store alone.
pub proof fn lemma_classification_deterministic(
    a: Seq<CodePointCategory>,
    b: Seq<CodePointCategory>,
    store: Seq<CodePointAttrs>,
)
    requires
        is_default_category_list(a, store),
        is_default_category_list(b, store),
    ensures
        a.len() == b.len(),
        forall|k: int|
            0 <= k < a.len() ==> (#[trigger] a[k]).code_points@ == b[k].code_points@ && a[k].name@
                == b[k].name@,
{
    assert forall|k: int|
        0 <= k < a.len() implies (#[trigger] a[k]).code_points@ == b[k].code_points@ && a[k].name@
        == b[k].name@ by {
            if k == 0 {
                assert(a[0].code_points@ == b[0].code_points@);
                assert(a[0].name@ == b[0].name@);
            }
            if k == 1 {
                assert(a[1].code_points@ == b[1].code_points@);
                assert(a[1].name@ == b[1].name@);
            }
            if k == 2 {
                assert(a[2].code_points@ == b[2].code_points@);
                assert(a[2].name@ == b[2].name@);
            }
            if k == 3 {
                assert(a[3].code_points@ == b[3].code_points@);
                assert(a[3].name@ == b[3].name@);
            }
            if k == 4 {
                assert(a[4].code_points@ == b[4].code_points@);
                assert(a[4].name@ == b[4].name@);
            }
            if k == 5 {
                assert(a[5].code_points@ == b[5].code_points@);
                assert(a[5].name@ == b[5].name@);
            }
            if k == 6 {
                assert(a[6].code_points@ == b[6].code_points@);
                assert(a[6].name@ == b[6].name@);
            }
            if k == 7 {
                assert(a[7].code_points@ == b[7].code_points@);
                assert(a[7].name@ == b[7].name@);
            }
            if k == 8 {
                assert(a[8].code_points@ == b[8].code_points@);
                assert(a[8].name@ == b[8].name@);
            }
            if k == 9 {
                assert(a[9].code_points@ == b[9].code_points@);
                assert(a[9].name@ == b[9].name@);
            }
            if k == 10 {
                assert(a[10].code_points@ == b[10].code_points@);
                assert(a[10].name@ == b[10].name@);
            }
            if k == 11 {
                assert(a[11].code_points@ == b[11].code_points@);
                assert(a[11].name@ == b[11].name@);
            }
            if k == 12 {
                assert(a[12].code_points@ == b[12].code_points@);
                assert(a[12].name@ == b[12].name@);
            }
            if k == 13 {
                assert(a[13].code_points@ == b[13].code_points@);
                assert(a[13].name@ == b[13].name@);
            }
            if k == 14 {
                assert(a[14].code_points@ == b[14].code_points@);
                assert(a[14].name@ == b[14].name@);
            }
            if k == 15 {
                assert(a[15].code_points@ == b[15].code_points@);
                assert(a[15].name@ == b[15].name@);
            }
            if k == 16 {
                assert(a[16].code_points@ == b[16].code_points@);
                assert(a[16].name@ == b[16].name@);
            }
            if k == 17 {
                assert(a[17].code_points@ == b[17].code_points@);
                assert(a[17].name@ == b[17].name@);
            }
            if k == 18 {
                assert(a[18].code_points@ == b[18].code_points@);
                assert(a[18].name@ == b[18].name@);
            }
            if k == 19 {
                assert(a[19].code_points@ == b[19].code_points@);
                assert(a[19].name@ == b[19].name@);
            }
            if k == 20 {
                assert(a[20].code_points@ == b[20].code_points@);
                assert(a[20].name@ == b[20].name@);
            }
            if k == 21 {
                assert(a[21].code_points@ == b[21].code_points@);
                assert(a[21].name@ == b[21].name@);
            }
            if k == 22 {
                assert(a[22].code_points@ == b[22].code_points@);
                assert(a[22].name@ == b[22].name@);
            }
    }
}

} // verus!
