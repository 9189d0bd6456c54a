//! The attribute model of the symbolic alphabet: each symbol (a Unicode
//! scalar value) carries a block, a general category, a script, an
//! introduction version (age), a bidirectional class, a grapheme-cluster-break
//! class, an Indic syllabic category, a numeric identity, and a fixed set of
//! named binary properties. The attribute values that the predicate library
//! never distinguishes are folded into a catch-all variant where one exists.
use vstd::prelude::*;

verus! {

/// General category of a symbol.
#[derive(Clone, Copy, Debug, PartialEq, Eq, Structural)]
pub enum Gc {
    Cc,
    Cf,
    Cn,
    Co,
    Cs,
    Ll,
    Lm,
    Lo,
    Lt,
    Lu,
    Mc,
    Me,
    Mn,
    Nd,
    Nl,
    No,
    Pc,
    Pd,
    Pe,
    Pf,
    Pi,
    Po,
    Ps,
    Sc,
    Sk,
    Sm,
    So,
    Zl,
    Zp,
    Zs,
}

/// Named block (contiguous range grouped by origin or purpose) of a symbol.
#[derive(Clone, Copy, Debug, PartialEq, Eq, Structural)]
pub enum Blk {
    AegeanNumbers,
    Ahom,
    Alchemical,
    AlphabeticPf,
    AnatolianHieroglyphs,
    AncientGreekMusic,
    AncientGreekNumbers,
    AncientSymbols,
    Arabic,
    ArabicMath,
    ArabicPfA,
    Armenian,
    Arrows,
    Ascii,
    Avestan,
    Balinese,
    Batak,
    Bengali,
    Bhaiksuki,
    BlockElements,
    Bopomofo,
    BopomofoExt,
    BoxDrawing,
    Brahmi,
    Braille,
    Buginese,
    Buhid,
    ByzantineMusic,
    Carian,
    CaucasianAlbanian,
    Chakma,
    Cham,
    Cherokee,
    CherokeeSup,
    ChessSymbols,
    Cjk,
    CjkCompat,
    CjkCompatForms,
    CjkCompatIdeographs,
    CjkCompatIdeographsSup,
    CjkExtA,
    CjkExtB,
    CjkExtC,
    CjkExtD,
    CjkExtE,
    CjkExtF,
    CjkExtG,
    CjkExtH,
    CjkExtI,
    CjkRadicalsSup,
    CjkStrokes,
    CjkSymbols,
    CompatJamo,
    ControlPictures,
    Coptic,
    CopticEpactNumbers,
    CountingRod,
    Cuneiform,
    CuneiformNumbers,
    CyproMinoan,
    Cyrillic,
    CyrillicExtA,
    CyrillicExtB,
    CyrillicExtC,
    CyrillicExtD,
    CyrillicSup,
    Deseret,
    Devanagari,
    DevanagariExt,
    DevanagariExtA,
    Dingbats,
    DivesAkuru,
    Dogra,
    Domino,
    Duployan,
    EarlyDynasticCuneiform,
    EgyptianHieroglyphFormatControls,
    EgyptianHieroglyphs,
    EgyptianHieroglyphsExtA,
    Elbasan,
    Emoticons,
    EnclosedAlphanum,
    EnclosedAlphanumSup,
    EnclosedCjk,
    EnclosedIdeographicSup,
    Ethiopic,
    EthiopicExt,
    EthiopicExtB,
    EthiopicSup,
    Garay,
    GeometricShapes,
    GeometricShapesExt,
    Georgian,
    GeorgianExt,
    GeorgianSup,
    Glagolitic,
    Gothic,
    Grantha,
    Greek,
    GreekExt,
    Gujarati,
    GunjalaGondi,
    Gurmukhi,
    GurungKhema,
    HalfAndFullForms,
    Hangul,
    Hanunoo,
    Hiragana,
    Idc,
    IdeographicSymbols,
    IndicNumberForms,
    IpaExt,
    Jamo,
    JamoExtA,
    JamoExtB,
    Javanese,
    Kaithi,
    KaktovikNumerals,
    KanaExtA,
    KanaExtB,
    KanaSup,
    Kanbun,
    Kangxi,
    Kannada,
    Katakana,
    KatakanaExt,
    Kawi,
    KayahLi,
    KhitanSmallScript,
    Khmer,
    KhmerSymbols,
    Khojki,
    Khudawadi,
    KiratRai,
    Lao,
    Latin1Sup,
    LatinExtA,
    LatinExtAdditional,
    LatinExtB,
    LatinExtC,
    LatinExtD,
    LatinExtE,
    LatinExtF,
    LatinExtG,
    Lepcha,
    LetterlikeSymbols,
    Limbu,
    LinearA,
    LinearBIdeograms,
    LinearBSyllabary,
    Lisu,
    Lycian,
    Mahajani,
    Mahjong,
    Makasar,
    Malayalam,
    Marchen,
    MasaramGondi,
    MathAlphanum,
    MathOperators,
    MayanNumerals,
    MeeteiMayek,
    MeeteiMayekExt,
    Miao,
    MiscArrows,
    MiscMathSymbolsA,
    MiscMathSymbolsB,
    MiscPictographs,
    MiscSymbols,
    MiscTechnical,
    Modi,
    ModifierLetters,
    ModifierToneLetters,
    Mongolian,
    MongolianSup,
    Mro,
    Multani,
    Music,
    Myanmar,
    MyanmarExtA,
    MyanmarExtB,
    MyanmarExtC,
    NagMundari,
    Nandinagari,
    NewTaiLue,
    Newa,
    Nko,
    NumberForms,
    Nushu,
    NyiakengPuachueHmong,
    Ocr,
    Ogham,
    OlChiki,
    OlOnal,
    OldItalic,
    OldPermic,
    OldPersian,
    Oriya,
    OrnamentalDingbats,
    Osage,
    PahawhHmong,
    PauCinHau,
    PhagsPa,
    Phaistos,
    Phoenician,
    PhoneticExt,
    PhoneticExtSup,
    PlayingCards,
    Punctuation,
    Rejang,
    Runic,
    Saurashtra,
    Sharada,
    Shavian,
    Siddham,
    Sinhala,
    SinhalaArchaicNumbers,
    SmallForms,
    SmallKanaExt,
    SoraSompeng,
    Soyombo,
    Specials,
    Sundanese,
    SundaneseSup,
    Sunuwar,
    SupArrowsA,
    SupArrowsB,
    SupArrowsC,
    SupMathOperators,
    SupPunctuation,
    SupSymbolsAndPictographs,
    SuperAndSub,
    SuttonSignwriting,
    SylotiNagri,
    SymbolsAndPictographsExtA,
    SymbolsForLegacyComputing,
    SymbolsForLegacyComputingSup,
    Tagalog,
    Tagbanwa,
    TaiLe,
    TaiTham,
    TaiViet,
    TaiXuanJing,
    Takri,
    Tamil,
    TamilSup,
    Tangsa,
    Tangut,
    TangutComponents,
    TangutSup,
    Telugu,
    Thai,
    Tibetan,
    Tifinagh,
    Tirhuta,
    Todhri,
    Toto,
    TransportAndMap,
    TuluTigalari,
    Ucas,
    UcasExt,
    UcasExtA,
    Ugaritic,
    Vai,
    VedicExt,
    VerticalForms,
    Vithkuqi,
    Wancho,
    WarangCiti,
    YiRadicals,
    YiSyllables,
    Yijing,
    ZanabazarSquare,
    ZnamennyMusic,
    Other,
}

/// Bidirectional class of a symbol.
#[derive(Clone, Copy, Debug, PartialEq, Eq, Structural)]
pub enum Bc {
    AL,
    AN,
    B,
    BN,
    CS,
    EN,
    ES,
    ET,
    FSI,
    L,
    LRE,
    LRI,
    LRO,
    NSM,
    ON,
    PDF,
    PDI,
    R,
    RLE,
    RLI,
    RLO,
    S,
    WS,
}

/// Version of the alphabet standard in which a symbol was first assigned.
#[allow(non_camel_case_types)]
#[derive(Clone, Copy, Debug, PartialEq, Eq, Structural)]
pub enum Age {
    V1_1,
    V2_0,
    V2_1,
    V3_0,
    V3_1,
    V3_2,
    V4_0,
    V4_1,
    V5_0,
    V5_1,
    V5_2,
    V6_0,
    V6_1,
    V6_2,
    V6_3,
    V7_0,
    V8_0,
    V9_0,
    V10_0,
    V11_0,
    V12_0,
    V12_1,
    V13_0,
    V14_0,
    V15_0,
    V15_1,
    V16_0,
    Na,
}

/// Grapheme-cluster-break class of a symbol.
#[derive(Clone, Copy, Debug, PartialEq, Eq, Structural)]
pub enum Gcb {
    CN,
    CR,
    EB,
    EBG,
    EM,
    EX,
    GAZ,
    L,
    LF,
    LV,
    LVT,
    PP,
    RI,
    SM,
    T,
    V,
    XX,
    ZWJ,
}

/// Script (writing system) of a symbol.
#[derive(Clone, Copy, Debug, PartialEq, Eq, Structural)]
pub enum Sc {
    Armn,
    Hebr,
    Latn,
    Other,
}

/// Indic syllabic category of a symbol.
#[derive(Clone, Copy, Debug, PartialEq, Eq, Structural)]
pub enum Insc {
    ConsonantWithStacker,
    Other,
}

/// Name of one of the binary (boolean) properties of a symbol.
#[derive(Clone, Copy, Debug, PartialEq, Eq, Structural)]
pub enum BinaryProp {
    Ahex,
    Alpha,
    BidiC,
    Cased,
    Ce,
    Ci,
    CompEx,
    Dash,
    Dep,
    Di,
    Dia,
    Ebase,
    Ecomp,
    Emod,
    Emoji,
    Epres,
    ExtPict,
    Ext,
    GrExt,
    Hex,
    Hyphen,
    Idc,
    Ideo,
    Ids,
    Idsb,
    Idst,
    JoinC,
    Loe,
    Lower,
    Math,
    Nchar,
    Oalpha,
    Odi,
    OgrExt,
    Oidc,
    Oids,
    Olower,
    Omath,
    Oupper,
    PatSyn,
    PatWs,
    Pcm,
    Qmark,
    Radical,
    Ri,
    Sd,
    Sterm,
    Term,
    Uideo,
    Upper,
    Vs,
    Wspace,
    Xidc,
    Xids,
}

/// The values of all binary properties of one symbol.
#[derive(Clone, Copy, Debug, PartialEq, Eq, Structural)]
pub struct BinaryProps {
    pub ahex: bool,
    pub alpha: bool,
    pub bidi_c: bool,
    pub cased: bool,
    pub ce: bool,
    pub ci: bool,
    pub comp_ex: bool,
    pub dash: bool,
    pub dep: bool,
    pub di: bool,
    pub dia: bool,
    pub ebase: bool,
    pub ecomp: bool,
    pub emod: bool,
    pub emoji: bool,
    pub epres: bool,
    pub ext_pict: bool,
    pub ext: bool,
    pub gr_ext: bool,
    pub hex: bool,
    pub hyphen: bool,
    pub idc: bool,
    pub ideo: bool,
    pub ids: bool,
    pub idsb: bool,
    pub idst: bool,
    pub join_c: bool,
    pub loe: bool,
    pub lower: bool,
    pub math: bool,
    pub nchar: bool,
    pub oalpha: bool,
    pub odi: bool,
    pub ogr_ext: bool,
    pub oidc: bool,
    pub oids: bool,
    pub olower: bool,
    pub omath: bool,
    pub oupper: bool,
    pub pat_syn: bool,
    pub pat_ws: bool,
    pub pcm: bool,
    pub qmark: bool,
    pub radical: bool,
    pub ri: bool,
    pub sd: bool,
    pub sterm: bool,
    pub term: bool,
    pub uideo: bool,
    pub upper: bool,
    pub vs: bool,
    pub wspace: bool,
    pub xidc: bool,
    pub xids: bool,
}

impl BinaryProps {
    /// The all-false assignment of binary properties.
    pub open spec fn spec_none() -> BinaryProps {
        BinaryProps {
            ahex: false,
            alpha: false,
            bidi_c: false,
            cased: false,
            ce: false,
            ci: false,
            comp_ex: false,
            dash: false,
            dep: false,
            di: false,
            dia: false,
            ebase: false,
            ecomp: false,
            emod: false,
            emoji: false,
            epres: false,
            ext_pict: false,
            ext: false,
            gr_ext: false,
            hex: false,
            hyphen: false,
            idc: false,
            ideo: false,
            ids: false,
            idsb: false,
            idst: false,
            join_c: false,
            loe: false,
            lower: false,
            math: false,
            nchar: false,
            oalpha: false,
            odi: false,
            ogr_ext: false,
            oidc: false,
            oids: false,
            olower: false,
            omath: false,
            oupper: false,
            pat_syn: false,
            pat_ws: false,
            pcm: false,
            qmark: false,
            radical: false,
            ri: false,
            sd: false,
            sterm: false,
            term: false,
            uideo: false,
            upper: false,
            vs: false,
            wspace: false,
            xidc: false,
            xids: false,
        }
    }

    /// Builds the all-false assignment of binary properties.
    pub fn none() -> (r: BinaryProps)
        ensures
            r == BinaryProps::spec_none(),
    {
        BinaryProps {
            ahex: false,
            alpha: false,
            bidi_c: false,
            cased: false,
            ce: false,
            ci: false,
            comp_ex: false,
            dash: false,
            dep: false,
            di: false,
            dia: false,
            ebase: false,
            ecomp: false,
            emod: false,
            emoji: false,
            epres: false,
            ext_pict: false,
            ext: false,
            gr_ext: false,
            hex: false,
            hyphen: false,
            idc: false,
            ideo: false,
            ids: false,
            idsb: false,
            idst: false,
            join_c: false,
            loe: false,
            lower: false,
            math: false,
            nchar: false,
            oalpha: false,
            odi: false,
            ogr_ext: false,
            oidc: false,
            oids: false,
            olower: false,
            omath: false,
            oupper: false,
            pat_syn: false,
            pat_ws: false,
            pcm: false,
            qmark: false,
            radical: false,
            ri: false,
            sd: false,
            sterm: false,
            term: false,
            uideo: false,
            upper: false,
            vs: false,
            wspace: false,
            xidc: false,
            xids: false,
        }
    }

    /// The value of the binary property named `p`.
    pub open spec fn spec_flag(self, p: BinaryProp) -> bool {
        match p {
            BinaryProp::Ahex => self.ahex,
            BinaryProp::Alpha => self.alpha,
            BinaryProp::BidiC => self.bidi_c,
            BinaryProp::Cased => self.cased,
            BinaryProp::Ce => self.ce,
            BinaryProp::Ci => self.ci,
            BinaryProp::CompEx => self.comp_ex,
            BinaryProp::Dash => self.dash,
            BinaryProp::Dep => self.dep,
            BinaryProp::Di => self.di,
            BinaryProp::Dia => self.dia,
            BinaryProp::Ebase => self.ebase,
            BinaryProp::Ecomp => self.ecomp,
            BinaryProp::Emod => self.emod,
            BinaryProp::Emoji => self.emoji,
            BinaryProp::Epres => self.epres,
            BinaryProp::ExtPict => self.ext_pict,
            BinaryProp::Ext => self.ext,
            BinaryProp::GrExt => self.gr_ext,
            BinaryProp::Hex => self.hex,
            BinaryProp::Hyphen => self.hyphen,
            BinaryProp::Idc => self.idc,
            BinaryProp::Ideo => self.ideo,
            BinaryProp::Ids => self.ids,
            BinaryProp::Idsb => self.idsb,
            BinaryProp::Idst => self.idst,
            BinaryProp::JoinC => self.join_c,
            BinaryProp::Loe => self.loe,
            BinaryProp::Lower => self.lower,
            BinaryProp::Math => self.math,
            BinaryProp::Nchar => self.nchar,
            BinaryProp::Oalpha => self.oalpha,
            BinaryProp::Odi => self.odi,
            BinaryProp::OgrExt => self.ogr_ext,
            BinaryProp::Oidc => self.oidc,
            BinaryProp::Oids => self.oids,
            BinaryProp::Olower => self.olower,
            BinaryProp::Omath => self.omath,
            BinaryProp::Oupper => self.oupper,
            BinaryProp::PatSyn => self.pat_syn,
            BinaryProp::PatWs => self.pat_ws,
            BinaryProp::Pcm => self.pcm,
            BinaryProp::Qmark => self.qmark,
            BinaryProp::Radical => self.radical,
            BinaryProp::Ri => self.ri,
            BinaryProp::Sd => self.sd,
            BinaryProp::Sterm => self.sterm,
            BinaryProp::Term => self.term,
            BinaryProp::Uideo => self.uideo,
            BinaryProp::Upper => self.upper,
            BinaryProp::Vs => self.vs,
            BinaryProp::Wspace => self.wspace,
            BinaryProp::Xidc => self.xidc,
            BinaryProp::Xids => self.xids,
        }
    }

    /// Reads the binary property named `p`.
    pub fn flag(&self, p: BinaryProp) -> (r: bool)
        ensures
            r == self.spec_flag(p),
    {
        match p {
            BinaryProp::Ahex => self.ahex,
            BinaryProp::Alpha => self.alpha,
            BinaryProp::BidiC => self.bidi_c,
            BinaryProp::Cased => self.cased,
            BinaryProp::Ce => self.ce,
            BinaryProp::Ci => self.ci,
            BinaryProp::CompEx => self.comp_ex,
            BinaryProp::Dash => self.dash,
            BinaryProp::Dep => self.dep,
            BinaryProp::Di => self.di,
            BinaryProp::Dia => self.dia,
            BinaryProp::Ebase => self.ebase,
            BinaryProp::Ecomp => self.ecomp,
            BinaryProp::Emod => self.emod,
            BinaryProp::Emoji => self.emoji,
            BinaryProp::Epres => self.epres,
            BinaryProp::ExtPict => self.ext_pict,
            BinaryProp::Ext => self.ext,
            BinaryProp::GrExt => self.gr_ext,
            BinaryProp::Hex => self.hex,
            BinaryProp::Hyphen => self.hyphen,
            BinaryProp::Idc => self.idc,
            BinaryProp::Ideo => self.ideo,
            BinaryProp::Ids => self.ids,
            BinaryProp::Idsb => self.idsb,
            BinaryProp::Idst => self.idst,
            BinaryProp::JoinC => self.join_c,
            BinaryProp::Loe => self.loe,
            BinaryProp::Lower => self.lower,
            BinaryProp::Math => self.math,
            BinaryProp::Nchar => self.nchar,
            BinaryProp::Oalpha => self.oalpha,
            BinaryProp::Odi => self.odi,
            BinaryProp::OgrExt => self.ogr_ext,
            BinaryProp::Oidc => self.oidc,
            BinaryProp::Oids => self.oids,
            BinaryProp::Olower => self.olower,
            BinaryProp::Omath => self.omath,
            BinaryProp::Oupper => self.oupper,
            BinaryProp::PatSyn => self.pat_syn,
            BinaryProp::PatWs => self.pat_ws,
            BinaryProp::Pcm => self.pcm,
            BinaryProp::Qmark => self.qmark,
            BinaryProp::Radical => self.radical,
            BinaryProp::Ri => self.ri,
            BinaryProp::Sd => self.sd,
            BinaryProp::Sterm => self.sterm,
            BinaryProp::Term => self.term,
            BinaryProp::Uideo => self.uideo,
            BinaryProp::Upper => self.upper,
            BinaryProp::Vs => self.vs,
            BinaryProp::Wspace => self.wspace,
            BinaryProp::Xidc => self.xidc,
            BinaryProp::Xids => self.xids,
        }
    }
}

/// The attributes of one symbol, materialized as plain values. `ch` is the
/// symbol itself; its numeric identity is `ch as u32`.
#[derive(Clone, Copy, Debug, PartialEq, Eq, Structural)]
pub struct CodePointAttrs {
    pub ch: char,
    pub age: Age,
    pub bc: Bc,
    pub blk: Blk,
    pub gc: Gc,
    pub gcb: Gcb,
    pub insc: Insc,
    pub sc: Sc,
    pub flags: BinaryProps,
}

/// Whether `values` lists `x`.
pub fn ages_contain(values: &Vec<Age>, x: Age) -> (r: bool)
    ensures
        r == values@.contains(x),
{
    let mut i: usize = 0;
    while i < values.len()
        invariant
            0 <= i <= values@.len(),
            forall|j: int| 0 <= j < i ==> values@[j] != x,
        decreases values@.len() - i,
    {
        if values[i] == x {
            return true;
        }
        i += 1;
    }
    false
}

/// Whether `values` lists `x`.
pub fn bcs_contain(values: &Vec<Bc>, x: Bc) -> (r: bool)
    ensures
        r == values@.contains(x),
{
    let mut i: usize = 0;
    while i < values.len()
        invariant
            0 <= i <= values@.len(),
            forall|j: int| 0 <= j < i ==> values@[j] != x,
        decreases values@.len() - i,
    {
        if values[i] == x {
            return true;
        }
        i += 1;
    }
    false
}

/// Whether `values` lists `x`.
pub fn blks_contain(values: &Vec<Blk>, x: Blk) -> (r: bool)
    ensures
        r == values@.contains(x),
{
    let mut i: usize = 0;
    while i < values.len()
        invariant
            0 <= i <= values@.len(),
            forall|j: int| 0 <= j < i ==> values@[j] != x,
        decreases values@.len() - i,
    {
        if values[i] == x {
            return true;
        }
        i += 1;
    }
    false
}

/// Whether `values` lists `x`.
pub fn gcs_contain(values: &Vec<Gc>, x: Gc) -> (r: bool)
    ensures
        r == values@.contains(x),
{
    let mut i: usize = 0;
    while i < values.len()
        invariant
            0 <= i <= values@.len(),
            forall|j: int| 0 <= j < i ==> values@[j] != x,
        decreases values@.len() - i,
    {
        if values[i] == x {
            return true;
        }
        i += 1;
    }
    false
}

/// Whether `values` lists `x`.
pub fn gcbs_contain(values: &Vec<Gcb>, x: Gcb) -> (r: bool)
    ensures
        r == values@.contains(x),
{
    let mut i: usize = 0;
    while i < values.len()
        invariant
            0 <= i <= values@.len(),
            forall|j: int| 0 <= j < i ==> values@[j] != x,
        decreases values@.len() - i,
    {
        if values[i] == x {
            return true;
        }
        i += 1;
    }
    false
}

/// Whether `values` lists `x`.
pub fn inscs_contain(values: &Vec<Insc>, x: Insc) -> (r: bool)
    ensures
        r == values@.contains(x),
{
    let mut i: usize = 0;
    while i < values.len()
        invariant
            0 <= i <= values@.len(),
            forall|j: int| 0 <= j < i ==> values@[j] != x,
        decreases values@.len() - i,
    {
        if values[i] == x {
            return true;
        }
        i += 1;
    }
    false
}

/// Whether `values` lists `x`.
pub fn scs_contain(values: &Vec<Sc>, x: Sc) -> (r: bool)
    ensures
        r == values@.contains(x),
{
    let mut i: usize = 0;
    while i < values.len()
        invariant
            0 <= i <= values@.len(),
            forall|j: int| 0 <= j < i ==> values@[j] != x,
        decreases values@.len() - i,
    {
        if values[i] == x {
            return true;
        }
        i += 1;
    }
    false
}

/// Whether `values` lists `x`.
pub fn ids_contain(values: &Vec<u32>, x: u32) -> (r: bool)
    ensures
        r == values@.contains(x),
{
    let mut i: usize = 0;
    while i < values.len()
        invariant
            0 <= i <= values@.len(),
            forall|j: int| 0 <= j < i ==> values@[j] != x,
        decreases values@.len() - i,
    {
        if values[i] == x {
            return true;
        }
        i += 1;
    }
    false
}

} // verus!
