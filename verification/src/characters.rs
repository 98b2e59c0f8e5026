//! The character codes of the two character ROMs and of the glyphs a user can draw.

use vstd::prelude::*;

verus! {

/// The characters of the A00 character ROM (Japanese) that ASCII does not name. In this ROM
/// the codes 0x20 to 0x7d show their ASCII characters, but for 0x5c, which shows the yen
/// sign.
#[derive(Clone, Copy)]
pub enum NonASCIIA00 {
    /// U+00A5
    YenSign,
    /// U+2192
    RightwardsArrow,
    /// U+2190
    LeftwardsArrow,
    /// U+30FD
    KatakanaIterationMark,
    /// U+30FB
    KatakanaMiddleDot,
    /// U+30F2
    KatakanaWo,
    /// U+30A1
    KatakanaASmall,
    /// U+30A3
    KatakanaISmall,
    /// U+30A5
    KatakanaUSmall,
    /// U+30A7
    KatakanaESmall,
    /// U+30A9
    KatakanaOSmall,
    /// U+30E3
    KatakanaYaSmall,
    /// U+30E5
    KatakanaYuSmall,
    /// U+30E7
    KatakanaYoSmall,
    /// U+30C3
    KatakanaTuSmall,
    /// U+30FC
    KatakanaHiraganaProlongedSoundMark,
    /// U+30A2
    KatakanaA,
    /// U+30A4
    KatakanaI,
    /// U+30A6
    KatakanaU,
    /// U+30A8
    KatakanaE,
    /// U+30AA
    KatakanaO,
    /// U+30AB
    KatakanaKa,
    /// U+30AD
    KatakanaKi,
    /// U+30AF
    KatakanaKu,
    /// U+30B1
    KatakanaKe,
    /// U+30B3
    KatakanaKo,
    /// U+30B5
    KatakanaSa,
    /// U+30B7
    KatakanaSi,
    /// U+30B9
    KatakanaSu,
    /// U+30BB
    KatakanaSe,
    /// U+30BD
    KatakanaSo,
    /// U+30BF
    KatakanaTa,
    /// U+30C1
    KatakanaTi,
    /// U+30C4
    KatakanaTu,
    /// U+30C6
    KatakanaTe,
    /// U+30C8
    KatakanaTo,
    /// U+30CA
    KatakanaNa,
    /// U+30CB
    KatakanaNi,
    /// U+30CC
    KatakanaNu,
    /// U+30CD
    KatakanaNe,
    /// U+30CE
    KatakanaNo,
    /// U+30CF
    KatakanaHa,
    /// U+30D2
    KatakanaHi,
    /// U+30D5
    KatakanaHu,
    /// U+30D8
    KatakanaHe,
    /// U+30DB
    KatakanaHo,
    /// U+30DE
    KatakanaMa,
    /// U+30DF
    KatakanaMi,
    /// U+30E0
    KatakanaMu,
    /// U+30E1
    KatakanaMe,
    /// U+30E2
    KatakanaMo,
    /// U+30E4
    KatakanaYa,
    /// U+30E6
    KatakanaYu,
    /// U+30E8
    KatakanaYo,
    /// U+30E9
    KatakanaRa,
    /// U+30EA
    KatakanaRi,
    /// U+30EB
    KatakanaRu,
    /// U+30EC
    KatakanaRe,
    /// U+30ED
    KatakanaRo,
    /// U+30EF
    KatakanaWa,
    /// U+30F3
    KatakanaN,
    /// U+309B
    KatakanaHiraganaVoicedSoundMark,
    /// U+309C
    KatakanaHiraganaSemiVoicedSoundMark,
    /// U+03B1
    GreekSmallAlpha,
    /// U+00E4
    LatinSmallUmlautA,
    /// U+03B2
    GreekSmallBeta,
    /// U+03B5
    GreekSmallEpsilon,
    /// U+03BC
    GreekSmallMu,
    /// U+03C3
    GreekSmallSigma,
    /// U+03C1
    GreekSmallRho,
    LatinSmallGDecender,
    /// U+221A
    SquareRoot,
    LatinSmallJDecender,
    SuperscriptX,
    /// U+00A2
    CentSign,
    LatinSmallNLineAbove,
    /// U+00F6
    LatinSmallUmlautO,
    LatinSmallPDecender,
    LatinSmallQDecender,
    /// U+03B8
    GreekSmallTheta,
    /// U+221E
    Infinity,
    /// U+03A9
    GreekCapitalOmega,
    /// U+00FC
    LatinSmallUmlautU,
    /// U+03A3
    GreekCapitalSigma,
    /// U+03C0
    GreekSmallPi,
    LatinSmallXBar,
    LatinSmallYDecender,
    /// U+00F7
    DivisionSign,
    AllWhite,
    AllBlack,
}

impl NonASCIIA00 {
    /// The code that shows this character when it is written to the display.
    pub open spec fn spec_code(self) -> u8 {
        match self {
            NonASCIIA00::YenSign => 0x5c,
            NonASCIIA00::RightwardsArrow => 0x7e,
            NonASCIIA00::LeftwardsArrow => 0x7f,
            NonASCIIA00::KatakanaIterationMark => 0xa4,
            NonASCIIA00::KatakanaMiddleDot => 0xa5,
            NonASCIIA00::KatakanaWo => 0xa6,
            NonASCIIA00::KatakanaASmall => 0xa7,
            NonASCIIA00::KatakanaISmall => 0xa8,
            NonASCIIA00::KatakanaUSmall => 0xa9,
            NonASCIIA00::KatakanaESmall => 0xaa,
            NonASCIIA00::KatakanaOSmall => 0xab,
            NonASCIIA00::KatakanaYaSmall => 0xac,
            NonASCIIA00::KatakanaYuSmall => 0xad,
            NonASCIIA00::KatakanaYoSmall => 0xae,
            NonASCIIA00::KatakanaTuSmall => 0xaf,
            NonASCIIA00::KatakanaHiraganaProlongedSoundMark => 0xb0,
            NonASCIIA00::KatakanaA => 0xb1,
            NonASCIIA00::KatakanaI => 0xb2,
            NonASCIIA00::KatakanaU => 0xb3,
            NonASCIIA00::KatakanaE => 0xb4,
            NonASCIIA00::KatakanaO => 0xb5,
            NonASCIIA00::KatakanaKa => 0xb6,
            NonASCIIA00::KatakanaKi => 0xb7,
            NonASCIIA00::KatakanaKu => 0xb8,
            NonASCIIA00::KatakanaKe => 0xb9,
            NonASCIIA00::KatakanaKo => 0xba,
            NonASCIIA00::KatakanaSa => 0xbb,
            NonASCIIA00::KatakanaSi => 0xbc,
            NonASCIIA00::KatakanaSu => 0xbd,
            NonASCIIA00::KatakanaSe => 0xbe,
            NonASCIIA00::KatakanaSo => 0xbf,
            NonASCIIA00::KatakanaTa => 0xc0,
            NonASCIIA00::KatakanaTi => 0xc1,
            NonASCIIA00::KatakanaTu => 0xc2,
            NonASCIIA00::KatakanaTe => 0xc3,
            NonASCIIA00::KatakanaTo => 0xc4,
            NonASCIIA00::KatakanaNa => 0xc5,
            NonASCIIA00::KatakanaNi => 0xc6,
            NonASCIIA00::KatakanaNu => 0xc7,
            NonASCIIA00::KatakanaNe => 0xc8,
            NonASCIIA00::KatakanaNo => 0xc9,
            NonASCIIA00::KatakanaHa => 0xca,
            NonASCIIA00::KatakanaHi => 0xcb,
            NonASCIIA00::KatakanaHu => 0xcc,
            NonASCIIA00::KatakanaHe => 0xcd,
            NonASCIIA00::KatakanaHo => 0xce,
            NonASCIIA00::KatakanaMa => 0xcf,
            NonASCIIA00::KatakanaMi => 0xd0,
            NonASCIIA00::KatakanaMu => 0xd1,
            NonASCIIA00::KatakanaMe => 0xd2,
            NonASCIIA00::KatakanaMo => 0xd3,
            NonASCIIA00::KatakanaYa => 0xd4,
            NonASCIIA00::KatakanaYu => 0xd5,
            NonASCIIA00::KatakanaYo => 0xd6,
            NonASCIIA00::KatakanaRa => 0xd7,
            NonASCIIA00::KatakanaRi => 0xd8,
            NonASCIIA00::KatakanaRu => 0xd9,
            NonASCIIA00::KatakanaRe => 0xda,
            NonASCIIA00::KatakanaRo => 0xdb,
            NonASCIIA00::KatakanaWa => 0xdc,
            NonASCIIA00::KatakanaN => 0xdd,
            NonASCIIA00::KatakanaHiraganaVoicedSoundMark => 0xde,
            NonASCIIA00::KatakanaHiraganaSemiVoicedSoundMark => 0xdf,
            NonASCIIA00::GreekSmallAlpha => 0xe0,
            NonASCIIA00::LatinSmallUmlautA => 0xe1,
            NonASCIIA00::GreekSmallBeta => 0xe2,
            NonASCIIA00::GreekSmallEpsilon => 0xe3,
            NonASCIIA00::GreekSmallMu => 0xe4,
            NonASCIIA00::GreekSmallSigma => 0xe5,
            NonASCIIA00::GreekSmallRho => 0xe6,
            NonASCIIA00::LatinSmallGDecender => 0xe7,
            NonASCIIA00::SquareRoot => 0xe8,
            NonASCIIA00::LatinSmallJDecender => 0xea,
            NonASCIIA00::SuperscriptX => 0xeb,
            NonASCIIA00::CentSign => 0xec,
            NonASCIIA00::LatinSmallNLineAbove => 0xee,
            NonASCIIA00::LatinSmallUmlautO => 0xef,
            NonASCIIA00::LatinSmallPDecender => 0xf0,
            NonASCIIA00::LatinSmallQDecender => 0xf1,
            NonASCIIA00::GreekSmallTheta => 0xf2,
            NonASCIIA00::Infinity => 0xf3,
            NonASCIIA00::GreekCapitalOmega => 0xf4,
            NonASCIIA00::LatinSmallUmlautU => 0xf5,
            NonASCIIA00::GreekCapitalSigma => 0xf6,
            NonASCIIA00::GreekSmallPi => 0xf7,
            NonASCIIA00::LatinSmallXBar => 0xf8,
            NonASCIIA00::LatinSmallYDecender => 0xf9,
            NonASCIIA00::DivisionSign => 0xfd,
            NonASCIIA00::AllWhite => 0xfe,
            NonASCIIA00::AllBlack => 0xff,
        }
    }

    #[verifier::when_used_as_spec(spec_code)]
    pub fn code(self) -> (code: u8)
        ensures
            code == self.spec_code(),
    {
        match self {
            NonASCIIA00::YenSign => 0x5c,
            NonASCIIA00::RightwardsArrow => 0x7e,
            NonASCIIA00::LeftwardsArrow => 0x7f,
            NonASCIIA00::KatakanaIterationMark => 0xa4,
            NonASCIIA00::KatakanaMiddleDot => 0xa5,
            NonASCIIA00::KatakanaWo => 0xa6,
            NonASCIIA00::KatakanaASmall => 0xa7,
            NonASCIIA00::KatakanaISmall => 0xa8,
            NonASCIIA00::KatakanaUSmall => 0xa9,
            NonASCIIA00::KatakanaESmall => 0xaa,
            NonASCIIA00::KatakanaOSmall => 0xab,
            NonASCIIA00::KatakanaYaSmall => 0xac,
            NonASCIIA00::KatakanaYuSmall => 0xad,
            NonASCIIA00::KatakanaYoSmall => 0xae,
            NonASCIIA00::KatakanaTuSmall => 0xaf,
            NonASCIIA00::KatakanaHiraganaProlongedSoundMark => 0xb0,
            NonASCIIA00::KatakanaA => 0xb1,
            NonASCIIA00::KatakanaI => 0xb2,
            NonASCIIA00::KatakanaU => 0xb3,
            NonASCIIA00::KatakanaE => 0xb4,
            NonASCIIA00::KatakanaO => 0xb5,
            NonASCIIA00::KatakanaKa => 0xb6,
            NonASCIIA00::KatakanaKi => 0xb7,
            NonASCIIA00::KatakanaKu => 0xb8,
            NonASCIIA00::KatakanaKe => 0xb9,
            NonASCIIA00::KatakanaKo => 0xba,
            NonASCIIA00::KatakanaSa => 0xbb,
            NonASCIIA00::KatakanaSi => 0xbc,
            NonASCIIA00::KatakanaSu => 0xbd,
            NonASCIIA00::KatakanaSe => 0xbe,
            NonASCIIA00::KatakanaSo => 0xbf,
            NonASCIIA00::KatakanaTa => 0xc0,
            NonASCIIA00::KatakanaTi => 0xc1,
            NonASCIIA00::KatakanaTu => 0xc2,
            NonASCIIA00::KatakanaTe => 0xc3,
            NonASCIIA00::KatakanaTo => 0xc4,
            NonASCIIA00::KatakanaNa => 0xc5,
            NonASCIIA00::KatakanaNi => 0xc6,
            NonASCIIA00::KatakanaNu => 0xc7,
            NonASCIIA00::KatakanaNe => 0xc8,
            NonASCIIA00::KatakanaNo => 0xc9,
            NonASCIIA00::KatakanaHa => 0xca,
            NonASCIIA00::KatakanaHi => 0xcb,
            NonASCIIA00::KatakanaHu => 0xcc,
            NonASCIIA00::KatakanaHe => 0xcd,
            NonASCIIA00::KatakanaHo => 0xce,
            NonASCIIA00::KatakanaMa => 0xcf,
            NonASCIIA00::KatakanaMi => 0xd0,
            NonASCIIA00::KatakanaMu => 0xd1,
            NonASCIIA00::KatakanaMe => 0xd2,
            NonASCIIA00::KatakanaMo => 0xd3,
            NonASCIIA00::KatakanaYa => 0xd4,
            NonASCIIA00::KatakanaYu => 0xd5,
            NonASCIIA00::KatakanaYo => 0xd6,
            NonASCIIA00::KatakanaRa => 0xd7,
            NonASCIIA00::KatakanaRi => 0xd8,
            NonASCIIA00::KatakanaRu => 0xd9,
            NonASCIIA00::KatakanaRe => 0xda,
            NonASCIIA00::KatakanaRo => 0xdb,
            NonASCIIA00::KatakanaWa => 0xdc,
            NonASCIIA00::KatakanaN => 0xdd,
            NonASCIIA00::KatakanaHiraganaVoicedSoundMark => 0xde,
            NonASCIIA00::KatakanaHiraganaSemiVoicedSoundMark => 0xdf,
            NonASCIIA00::GreekSmallAlpha => 0xe0,
            NonASCIIA00::LatinSmallUmlautA => 0xe1,
            NonASCIIA00::GreekSmallBeta => 0xe2,
            NonASCIIA00::GreekSmallEpsilon => 0xe3,
            NonASCIIA00::GreekSmallMu => 0xe4,
            NonASCIIA00::GreekSmallSigma => 0xe5,
            NonASCIIA00::GreekSmallRho => 0xe6,
            NonASCIIA00::LatinSmallGDecender => 0xe7,
            NonASCIIA00::SquareRoot => 0xe8,
            NonASCIIA00::LatinSmallJDecender => 0xea,
            NonASCIIA00::SuperscriptX => 0xeb,
            NonASCIIA00::CentSign => 0xec,
            NonASCIIA00::LatinSmallNLineAbove => 0xee,
            NonASCIIA00::LatinSmallUmlautO => 0xef,
            NonASCIIA00::LatinSmallPDecender => 0xf0,
            NonASCIIA00::LatinSmallQDecender => 0xf1,
            NonASCIIA00::GreekSmallTheta => 0xf2,
            NonASCIIA00::Infinity => 0xf3,
            NonASCIIA00::GreekCapitalOmega => 0xf4,
            NonASCIIA00::LatinSmallUmlautU => 0xf5,
            NonASCIIA00::GreekCapitalSigma => 0xf6,
            NonASCIIA00::GreekSmallPi => 0xf7,
            NonASCIIA00::LatinSmallXBar => 0xf8,
            NonASCIIA00::LatinSmallYDecender => 0xf9,
            NonASCIIA00::DivisionSign => 0xfd,
            NonASCIIA00::AllWhite => 0xfe,
            NonASCIIA00::AllBlack => 0xff,
        }
    }
}

/// The characters of the A02 character ROM (European) that ASCII does not name. In this ROM
/// the codes 0x20 to 0x7e show their ASCII characters.
#[derive(Clone, Copy)]
pub enum NonASCIIA02 {
    /// U+2BC8
    TrianglePointingRight,
    /// U+2BC7
    TrianglePointingLeft,
    /// U+201C
    QuotationMarkLeftDouble,
    /// U+201D
    QuotationMarkRightDouble,
    TriangleDoubleUp,
    TriangleDoubleDown,
    /// U+2B24
    BlackLargeCircle,
    /// U+21B5
    ArrowDownLeft,
    /// U+2191
    UpwardsArrow,
    /// U+2193
    DownwardsArrow,
    /// U+2192
    RightwardsArrow,
    /// U+2190
    LeftwardsArrow,
    /// U+2264
    LessThanOrEqual,
    /// U+2265
    GreaterThanOrEqual,
    /// U+2BC5
    TrianglePointingUp,
    /// U+2BC6
    TrianglePointingDown,
    /// U+2303
    House,
    /// U+0411
    CyrillicBe,
    /// U+0414
    CyrillicDe,
    /// U+0416
    CyrillicZhe,
    /// U+0417
    CyrillicZe,
    /// U+0418
    CyrillicI,
    /// U+0419
    CirillicShortI,
    /// U+041B
    CirillicEl,
    /// U+041F
    CirillicPe,
    /// U+0423
    CyrillicU,
    /// U+0426
    CyrillicTse,
    /// U+0427
    CyrillicChe,
    /// U+0428
    CyrillicSha,
    /// U+0429
    CyrillicShcha,
    /// U+042A
    CyrillicHardSign,
    /// U+042B
    CyrillicYeru,
    /// U+03B1
    GreekSmallAlpha,
    /// U+266A
    EighthNote,
    /// U+0393
    GreekCapitalGamma,
    /// U+03C0
    GreekSmallPi,
    /// U+03A3
    GreekCapitalSigma,
    /// U+03C3
    GreekSmallSigma,
    /// U+1F39D
    BeamedDecendingNote,
    /// U+03C4
    GreekSmallTau,
    BellSymbol,
    /// U+0398
    GreekCapitalTheta,
    /// U+03A9
    GreekCapitalOmega,
    /// U+03B4
    GreekSmallDelta,
    /// U+221E
    Infinity,
    /// U+2665
    BlackHeartSuit,
    /// U+03B5
    GreekSmallEpsilon,
    HeavyVerticalBars,
    /// U+00A1
    InvertedExclamationMark,
    /// U+00A2
    CentSign,
    /// U+00A3
    PoundSign,
    /// U+00A4
    CurrencySign,
    /// U+00A5
    YenSign,
    /// U+00A6
    BrokenBar,
    /// U+00A7
    SectionSign,
    /// U+00A9
    CopyrightSign,
    LatinSmallAUnderbar,
    /// U+00AB
    DoubleAngleQuotationMarkLeft,
    /// U+042E
    CyrillicYu,
    /// U+042F
    CyrillicYa,
    /// U+00AE
    RegisteredSign,
    /// U+00B0
    DegreeSign,
    /// U+00B1
    PlusMinusSign,
    /// U+00B2
    SuperscriptTwo,
    /// U+00B3
    SuperscriptThree,
    /// U+00B5
    MicroSign,
    /// U+00B6
    PilcrowSign,
    /// U+00B7
    MiddleDot,
    /// U+03C9
    GreekSmallOmega,
    SuperscriptOne,
    LatinSmallOUnderbar,
    /// U+00BB
    DoubleAngleQuotationMarkRight,
    /// U+00BC
    FractionOneQuarter,
    /// U+00BD
    FractionOneHalf,
    /// U+00BE
    FractionThreeQuarter,
    /// U+00BF
    InvertedQuestionMark,
    /// U+00C0
    LatinCapitalAGrave,
    /// U+00C1
    LatinCapitalAAcute,
    /// U+00C2
    LatinCapitalACircumflex,
    /// U+00C3
    LatinCapitalATilde,
    /// U+00C4
    LatinCapitalADiaeresis,
    /// U+00C5
    LatinCapitalARingAbove,
    /// U+00C6
    LatinCapitalAE,
    /// U+00C7
    LatinCapitalCCedilla,
    /// U+00C8
    LatinCapitalEGrave,
    /// U+00C9
    LatinCapitalEAcute,
    /// U+00CA
    LatinCapitalECircumflex,
    /// U+00CB
    LatinCapitalEDiaeresis,
    /// U+00CC
    LatinCapitalIGrave,
    /// U+00CD
    LatinCapitalIAcute,
    /// U+00CE
    LatinCapitalICircumflex,
    /// U+00CF
    LatinCapitalIDiaeresis,
    /// U+00D0
    LatinCapitalEth,
    /// U+00D1
    LatinCapitalNTilde,
    /// U+00D2
    LatinCapitalOGrave,
    /// U+00D3
    LatinCapitalOAcute,
    /// U+00D4
    LatinCapitalOCircumflex,
    /// U+00D5
    LatinCapitalOTilde,
    /// U+00D6
    LatinCapitalODiaeresis,
    /// U+00D7
    MultiplicationSign,
    /// U+03A6
    LatinCapitalOStroke,
    /// U+00D9
    LatinCapitalUGrave,
    /// U+00DA
    LatinCapitalUAcute,
    /// U+00DB
    LatinCapitalUCircumflex,
    /// U+00DC
    LatinCapitalUDiaeresis,
    /// U+00DD
    LatinCapitalYAcute,
    /// U+00DE
    LatinCapitalThorn,
    /// U+00DF
    LatinSmallSharpS,
    /// U+00E0
    LatinSmallAGrave,
    /// U+00E1
    LatinSmallAAcute,
    /// U+00E2
    LatinSmallACircumflex,
    /// U+00E3
    LatinSmallATilde,
    /// U+00E4
    LatinSmallADiaeresis,
    /// U+00E5
    LatinSmallARingAbove,
    /// U+00E6
    LatinSmallAE,
    /// U+00E7
    LatinSmallCCedilla,
    /// U+00E8
    LatinSmallEGrave,
    /// U+00E9
    LatinSmallEAcute,
    /// U+00EA
    LatinSmallECircumflex,
    /// U+00EB
    LatinSmallEDiaeresis,
    /// U+00EC
    LatinSmallIGrave,
    /// U+00ED
    LatinSmallIAcute,
    /// U+00EE
    LatinSmallICircumflex,
    /// U+00EF
    LatinSmallIDiaeresis,
    /// U+00F0
    LatinSmallEth,
    /// U+00F1
    LatinSmallNTilde,
    /// U+00F2
    LatinSmallOGrave,
    /// U+00F3
    LatinSmallOAcute,
    /// U+00F4
    LatinSmallOCircumflex,
    /// U+00F5
    LatinSmallOTilde,
    /// U+00F6
    LatinSmallODiaeresis,
    /// U+00F7
    DivisionSign,
    /// U+00F8
    LatinSmallOStroke,
    /// U+00F9
    LatinSmallUGrave,
    /// U+00FA
    LatinSmallUAcute,
    /// U+00FB
    LatinSmallUCircumflex,
    /// U+00FC
    LatinSmallUDiaeresis,
    /// U+00FD
    LatinSmallYAcute,
    /// U+00FE
    LatinSmallThorn,
    /// U+00FF
    LatinSmallYDiaeresis,
}

impl NonASCIIA02 {
    /// The code that shows this character when it is written to the display.
    pub open spec fn spec_code(self) -> u8 {
        match self {
            NonASCIIA02::TrianglePointingRight => 0x10,
            NonASCIIA02::TrianglePointingLeft => 0x11,
            NonASCIIA02::QuotationMarkLeftDouble => 0x12,
            NonASCIIA02::QuotationMarkRightDouble => 0x13,
            NonASCIIA02::TriangleDoubleUp => 0x14,
            NonASCIIA02::TriangleDoubleDown => 0x15,
            NonASCIIA02::BlackLargeCircle => 0x16,
            NonASCIIA02::ArrowDownLeft => 0x17,
            NonASCIIA02::UpwardsArrow => 0x18,
            NonASCIIA02::DownwardsArrow => 0x19,
            NonASCIIA02::RightwardsArrow => 0x1a,
            NonASCIIA02::LeftwardsArrow => 0x1b,
            NonASCIIA02::LessThanOrEqual => 0x1c,
            NonASCIIA02::GreaterThanOrEqual => 0x1d,
            NonASCIIA02::TrianglePointingUp => 0x1e,
            NonASCIIA02::TrianglePointingDown => 0x1f,
            NonASCIIA02::House => 0x7f,
            NonASCIIA02::CyrillicBe => 0x80,
            NonASCIIA02::CyrillicDe => 0x81,
            NonASCIIA02::CyrillicZhe => 0x82,
            NonASCIIA02::CyrillicZe => 0x83,
            NonASCIIA02::CyrillicI => 0x84,
            NonASCIIA02::CirillicShortI => 0x85,
            NonASCIIA02::CirillicEl => 0x86,
            NonASCIIA02::CirillicPe => 0x87,
            NonASCIIA02::CyrillicU => 0x88,
            NonASCIIA02::CyrillicTse => 0x89,
            NonASCIIA02::CyrillicChe => 0x8a,
            NonASCIIA02::CyrillicSha => 0x8b,
            NonASCIIA02::CyrillicShcha => 0x8c,
            NonASCIIA02::CyrillicHardSign => 0x8d,
            NonASCIIA02::CyrillicYeru => 0x8e,
            NonASCIIA02::GreekSmallAlpha => 0x90,
            NonASCIIA02::EighthNote => 0x91,
            NonASCIIA02::GreekCapitalGamma => 0x92,
            NonASCIIA02::GreekSmallPi => 0x93,
            NonASCIIA02::GreekCapitalSigma => 0x94,
            NonASCIIA02::GreekSmallSigma => 0x95,
            NonASCIIA02::BeamedDecendingNote => 0x96,
            NonASCIIA02::GreekSmallTau => 0x97,
            NonASCIIA02::BellSymbol => 0x98,
            NonASCIIA02::GreekCapitalTheta => 0x99,
            NonASCIIA02::GreekCapitalOmega => 0x9a,
            NonASCIIA02::GreekSmallDelta => 0x9b,
            NonASCIIA02::Infinity => 0x9c,
            NonASCIIA02::BlackHeartSuit => 0x9d,
            NonASCIIA02::GreekSmallEpsilon => 0x9e,
            NonASCIIA02::HeavyVerticalBars => 0xa0,
            NonASCIIA02::InvertedExclamationMark => 0xa1,
            NonASCIIA02::CentSign => 0xa2,
            NonASCIIA02::PoundSign => 0xa3,
            NonASCIIA02::CurrencySign => 0xa4,
            NonASCIIA02::YenSign => 0xa5,
            NonASCIIA02::BrokenBar => 0xa6,
            NonASCIIA02::SectionSign => 0xa7,
            NonASCIIA02::CopyrightSign => 0xa9,
            NonASCIIA02::LatinSmallAUnderbar => 0xaa,
            NonASCIIA02::DoubleAngleQuotationMarkLeft => 0xab,
            NonASCIIA02::CyrillicYu => 0xac,
            NonASCIIA02::CyrillicYa => 0xad,
            NonASCIIA02::RegisteredSign => 0xae,
            NonASCIIA02::DegreeSign => 0xb0,
            NonASCIIA02::PlusMinusSign => 0xb1,
            NonASCIIA02::SuperscriptTwo => 0xb2,
            NonASCIIA02::SuperscriptThree => 0xb3,
            NonASCIIA02::MicroSign => 0xb5,
            NonASCIIA02::PilcrowSign => 0xb6,
            NonASCIIA02::MiddleDot => 0xb7,
            NonASCIIA02::GreekSmallOmega => 0xb8,
            NonASCIIA02::SuperscriptOne => 0xb9,
            NonASCIIA02::LatinSmallOUnderbar => 0xba,
            NonASCIIA02::DoubleAngleQuotationMarkRight => 0xbb,
            NonASCIIA02::FractionOneQuarter => 0xbc,
            NonASCIIA02::FractionOneHalf => 0xbd,
            NonASCIIA02::FractionThreeQuarter => 0xbe,
            NonASCIIA02::InvertedQuestionMark => 0xbf,
            NonASCIIA02::LatinCapitalAGrave => 0xc0,
            NonASCIIA02::LatinCapitalAAcute => 0xc1,
            NonASCIIA02::LatinCapitalACircumflex => 0xc2,
            NonASCIIA02::LatinCapitalATilde => 0xc3,
            NonASCIIA02::LatinCapitalADiaeresis => 0xc4,
            NonASCIIA02::LatinCapitalARingAbove => 0xc5,
            NonASCIIA02::LatinCapitalAE => 0xc6,
            NonASCIIA02::LatinCapitalCCedilla => 0xc7,
            NonASCIIA02::LatinCapitalEGrave => 0xc8,
            NonASCIIA02::LatinCapitalEAcute => 0xc9,
            NonASCIIA02::LatinCapitalECircumflex => 0xca,
            NonASCIIA02::LatinCapitalEDiaeresis => 0xcb,
            NonASCIIA02::LatinCapitalIGrave => 0xcc,
            NonASCIIA02::LatinCapitalIAcute => 0xcd,
            NonASCIIA02::LatinCapitalICircumflex => 0xce,
            NonASCIIA02::LatinCapitalIDiaeresis => 0xcf,
            NonASCIIA02::LatinCapitalEth => 0xd0,
            NonASCIIA02::LatinCapitalNTilde => 0xd1,
            NonASCIIA02::LatinCapitalOGrave => 0xd2,
            NonASCIIA02::LatinCapitalOAcute => 0xd3,
            NonASCIIA02::LatinCapitalOCircumflex => 0xd4,
            NonASCIIA02::LatinCapitalOTilde => 0xd5,
            NonASCIIA02::LatinCapitalODiaeresis => 0xd6,
            NonASCIIA02::MultiplicationSign => 0xd7,
            NonASCIIA02::LatinCapitalOStroke => 0xd8,
            NonASCIIA02::LatinCapitalUGrave => 0xd9,
            NonASCIIA02::LatinCapitalUAcute => 0xda,
            NonASCIIA02::LatinCapitalUCircumflex => 0xdb,
            NonASCIIA02::LatinCapitalUDiaeresis => 0xdc,
            NonASCIIA02::LatinCapitalYAcute => 0xdd,
            NonASCIIA02::LatinCapitalThorn => 0xde,
            NonASCIIA02::LatinSmallSharpS => 0xdf,
            NonASCIIA02::LatinSmallAGrave => 0xe0,
            NonASCIIA02::LatinSmallAAcute => 0xe1,
            NonASCIIA02::LatinSmallACircumflex => 0xe2,
            NonASCIIA02::LatinSmallATilde => 0xe3,
            NonASCIIA02::LatinSmallADiaeresis => 0xe4,
            NonASCIIA02::LatinSmallARingAbove => 0xe5,
            NonASCIIA02::LatinSmallAE => 0xe6,
            NonASCIIA02::LatinSmallCCedilla => 0xe7,
            NonASCIIA02::LatinSmallEGrave => 0xe8,
            NonASCIIA02::LatinSmallEAcute => 0xe9,
            NonASCIIA02::LatinSmallECircumflex => 0xea,
            NonASCIIA02::LatinSmallEDiaeresis => 0xeb,
            NonASCIIA02::LatinSmallIGrave => 0xec,
            NonASCIIA02::LatinSmallIAcute => 0xed,
            NonASCIIA02::LatinSmallICircumflex => 0xee,
            NonASCIIA02::LatinSmallIDiaeresis => 0xef,
            NonASCIIA02::LatinSmallEth => 0xf0,
            NonASCIIA02::LatinSmallNTilde => 0xf1,
            NonASCIIA02::LatinSmallOGrave => 0xf2,
            NonASCIIA02::LatinSmallOAcute => 0xf3,
            NonASCIIA02::LatinSmallOCircumflex => 0xf4,
            NonASCIIA02::LatinSmallOTilde => 0xf5,
            NonASCIIA02::LatinSmallODiaeresis => 0xf6,
            NonASCIIA02::DivisionSign => 0xf7,
            NonASCIIA02::LatinSmallOStroke => 0xf8,
            NonASCIIA02::LatinSmallUGrave => 0xf9,
            NonASCIIA02::LatinSmallUAcute => 0xfa,
            NonASCIIA02::LatinSmallUCircumflex => 0xfb,
            NonASCIIA02::LatinSmallUDiaeresis => 0xfc,
            NonASCIIA02::LatinSmallYAcute => 0xfd,
            NonASCIIA02::LatinSmallThorn => 0xfe,
            NonASCIIA02::LatinSmallYDiaeresis => 0xff,
        }
    }

    #[verifier::when_used_as_spec(spec_code)]
    pub fn code(self) -> (code: u8)
        ensures
            code == self.spec_code(),
    {
        match self {
            NonASCIIA02::TrianglePointingRight => 0x10,
            NonASCIIA02::TrianglePointingLeft => 0x11,
            NonASCIIA02::QuotationMarkLeftDouble => 0x12,
            NonASCIIA02::QuotationMarkRightDouble => 0x13,
            NonASCIIA02::TriangleDoubleUp => 0x14,
            NonASCIIA02::TriangleDoubleDown => 0x15,
            NonASCIIA02::BlackLargeCircle => 0x16,
            NonASCIIA02::ArrowDownLeft => 0x17,
            NonASCIIA02::UpwardsArrow => 0x18,
            NonASCIIA02::DownwardsArrow => 0x19,
            NonASCIIA02::RightwardsArrow => 0x1a,
            NonASCIIA02::LeftwardsArrow => 0x1b,
            NonASCIIA02::LessThanOrEqual => 0x1c,
            NonASCIIA02::GreaterThanOrEqual => 0x1d,
            NonASCIIA02::TrianglePointingUp => 0x1e,
            NonASCIIA02::TrianglePointingDown => 0x1f,
            NonASCIIA02::House => 0x7f,
            NonASCIIA02::CyrillicBe => 0x80,
            NonASCIIA02::CyrillicDe => 0x81,
            NonASCIIA02::CyrillicZhe => 0x82,
            NonASCIIA02::CyrillicZe => 0x83,
            NonASCIIA02::CyrillicI => 0x84,
            NonASCIIA02::CirillicShortI => 0x85,
            NonASCIIA02::CirillicEl => 0x86,
            NonASCIIA02::CirillicPe => 0x87,
            NonASCIIA02::CyrillicU => 0x88,
            NonASCIIA02::CyrillicTse => 0x89,
            NonASCIIA02::CyrillicChe => 0x8a,
            NonASCIIA02::CyrillicSha => 0x8b,
            NonASCIIA02::CyrillicShcha => 0x8c,
            NonASCIIA02::CyrillicHardSign => 0x8d,
            NonASCIIA02::CyrillicYeru => 0x8e,
            NonASCIIA02::GreekSmallAlpha => 0x90,
            NonASCIIA02::EighthNote => 0x91,
            NonASCIIA02::GreekCapitalGamma => 0x92,
            NonASCIIA02::GreekSmallPi => 0x93,
            NonASCIIA02::GreekCapitalSigma => 0x94,
            NonASCIIA02::GreekSmallSigma => 0x95,
            NonASCIIA02::BeamedDecendingNote => 0x96,
            NonASCIIA02::GreekSmallTau => 0x97,
            NonASCIIA02::BellSymbol => 0x98,
            NonASCIIA02::GreekCapitalTheta => 0x99,
            NonASCIIA02::GreekCapitalOmega => 0x9a,
            NonASCIIA02::GreekSmallDelta => 0x9b,
            NonASCIIA02::Infinity => 0x9c,
            NonASCIIA02::BlackHeartSuit => 0x9d,
            NonASCIIA02::GreekSmallEpsilon => 0x9e,
            NonASCIIA02::HeavyVerticalBars => 0xa0,
            NonASCIIA02::InvertedExclamationMark => 0xa1,
            NonASCIIA02::CentSign => 0xa2,
            NonASCIIA02::PoundSign => 0xa3,
            NonASCIIA02::CurrencySign => 0xa4,
            NonASCIIA02::YenSign => 0xa5,
            NonASCIIA02::BrokenBar => 0xa6,
            NonASCIIA02::SectionSign => 0xa7,
            NonASCIIA02::CopyrightSign => 0xa9,
            NonASCIIA02::LatinSmallAUnderbar => 0xaa,
            NonASCIIA02::DoubleAngleQuotationMarkLeft => 0xab,
            NonASCIIA02::CyrillicYu => 0xac,
            NonASCIIA02::CyrillicYa => 0xad,
            NonASCIIA02::RegisteredSign => 0xae,
            NonASCIIA02::DegreeSign => 0xb0,
            NonASCIIA02::PlusMinusSign => 0xb1,
            NonASCIIA02::SuperscriptTwo => 0xb2,
            NonASCIIA02::SuperscriptThree => 0xb3,
            NonASCIIA02::MicroSign => 0xb5,
            NonASCIIA02::PilcrowSign => 0xb6,
            NonASCIIA02::MiddleDot => 0xb7,
            NonASCIIA02::GreekSmallOmega => 0xb8,
            NonASCIIA02::SuperscriptOne => 0xb9,
            NonASCIIA02::LatinSmallOUnderbar => 0xba,
            NonASCIIA02::DoubleAngleQuotationMarkRight => 0xbb,
            NonASCIIA02::FractionOneQuarter => 0xbc,
            NonASCIIA02::FractionOneHalf => 0xbd,
            NonASCIIA02::FractionThreeQuarter => 0xbe,
            NonASCIIA02::InvertedQuestionMark => 0xbf,
            NonASCIIA02::LatinCapitalAGrave => 0xc0,
            NonASCIIA02::LatinCapitalAAcute => 0xc1,
            NonASCIIA02::LatinCapitalACircumflex => 0xc2,
            NonASCIIA02::LatinCapitalATilde => 0xc3,
            NonASCIIA02::LatinCapitalADiaeresis => 0xc4,
            NonASCIIA02::LatinCapitalARingAbove => 0xc5,
            NonASCIIA02::LatinCapitalAE => 0xc6,
            NonASCIIA02::LatinCapitalCCedilla => 0xc7,
            NonASCIIA02::LatinCapitalEGrave => 0xc8,
            NonASCIIA02::LatinCapitalEAcute => 0xc9,
            NonASCIIA02::LatinCapitalECircumflex => 0xca,
            NonASCIIA02::LatinCapitalEDiaeresis => 0xcb,
            NonASCIIA02::LatinCapitalIGrave => 0xcc,
            NonASCIIA02::LatinCapitalIAcute => 0xcd,
            NonASCIIA02::LatinCapitalICircumflex => 0xce,
            NonASCIIA02::LatinCapitalIDiaeresis => 0xcf,
            NonASCIIA02::LatinCapitalEth => 0xd0,
            NonASCIIA02::LatinCapitalNTilde => 0xd1,
            NonASCIIA02::LatinCapitalOGrave => 0xd2,
            NonASCIIA02::LatinCapitalOAcute => 0xd3,
            NonASCIIA02::LatinCapitalOCircumflex => 0xd4,
            NonASCIIA02::LatinCapitalOTilde => 0xd5,
            NonASCIIA02::LatinCapitalODiaeresis => 0xd6,
            NonASCIIA02::MultiplicationSign => 0xd7,
            NonASCIIA02::LatinCapitalOStroke => 0xd8,
            NonASCIIA02::LatinCapitalUGrave => 0xd9,
            NonASCIIA02::LatinCapitalUAcute => 0xda,
            NonASCIIA02::LatinCapitalUCircumflex => 0xdb,
            NonASCIIA02::LatinCapitalUDiaeresis => 0xdc,
            NonASCIIA02::LatinCapitalYAcute => 0xdd,
            NonASCIIA02::LatinCapitalThorn => 0xde,
            NonASCIIA02::LatinSmallSharpS => 0xdf,
            NonASCIIA02::LatinSmallAGrave => 0xe0,
            NonASCIIA02::LatinSmallAAcute => 0xe1,
            NonASCIIA02::LatinSmallACircumflex => 0xe2,
            NonASCIIA02::LatinSmallATilde => 0xe3,
            NonASCIIA02::LatinSmallADiaeresis => 0xe4,
            NonASCIIA02::LatinSmallARingAbove => 0xe5,
            NonASCIIA02::LatinSmallAE => 0xe6,
            NonASCIIA02::LatinSmallCCedilla => 0xe7,
            NonASCIIA02::LatinSmallEGrave => 0xe8,
            NonASCIIA02::LatinSmallEAcute => 0xe9,
            NonASCIIA02::LatinSmallECircumflex => 0xea,
            NonASCIIA02::LatinSmallEDiaeresis => 0xeb,
            NonASCIIA02::LatinSmallIGrave => 0xec,
            NonASCIIA02::LatinSmallIAcute => 0xed,
            NonASCIIA02::LatinSmallICircumflex => 0xee,
            NonASCIIA02::LatinSmallIDiaeresis => 0xef,
            NonASCIIA02::LatinSmallEth => 0xf0,
            NonASCIIA02::LatinSmallNTilde => 0xf1,
            NonASCIIA02::LatinSmallOGrave => 0xf2,
            NonASCIIA02::LatinSmallOAcute => 0xf3,
            NonASCIIA02::LatinSmallOCircumflex => 0xf4,
            NonASCIIA02::LatinSmallOTilde => 0xf5,
            NonASCIIA02::LatinSmallODiaeresis => 0xf6,
            NonASCIIA02::DivisionSign => 0xf7,
            NonASCIIA02::LatinSmallOStroke => 0xf8,
            NonASCIIA02::LatinSmallUGrave => 0xf9,
            NonASCIIA02::LatinSmallUAcute => 0xfa,
            NonASCIIA02::LatinSmallUCircumflex => 0xfb,
            NonASCIIA02::LatinSmallUDiaeresis => 0xfc,
            NonASCIIA02::LatinSmallYAcute => 0xfd,
            NonASCIIA02::LatinSmallThorn => 0xfe,
            NonASCIIA02::LatinSmallYDiaeresis => 0xff,
        }
    }
}

/// The eight glyphs that a display with 5x8 cells lets its user draw. The controller reads
/// the low three bits of a code and ignores the fourth.
#[derive(Clone, Copy)]
pub enum CustomFont5x8 {
    Char0,
    Char1,
    Char2,
    Char3,
    Char4,
    Char5,
    Char6,
    Char7,
}

impl CustomFont5x8 {
    /// The code that shows this character when it is written to the display.
    pub open spec fn spec_code(self) -> u8 {
        match self {
            CustomFont5x8::Char0 => 0x08,
            CustomFont5x8::Char1 => 0x09,
            CustomFont5x8::Char2 => 0x0a,
            CustomFont5x8::Char3 => 0x0b,
            CustomFont5x8::Char4 => 0x0c,
            CustomFont5x8::Char5 => 0x0d,
            CustomFont5x8::Char6 => 0x0e,
            CustomFont5x8::Char7 => 0x0f,
        }
    }

    #[verifier::when_used_as_spec(spec_code)]
    pub fn code(self) -> (code: u8)
        ensures
            code == self.spec_code(),
    {
        match self {
            CustomFont5x8::Char0 => 0x08,
            CustomFont5x8::Char1 => 0x09,
            CustomFont5x8::Char2 => 0x0a,
            CustomFont5x8::Char3 => 0x0b,
            CustomFont5x8::Char4 => 0x0c,
            CustomFont5x8::Char5 => 0x0d,
            CustomFont5x8::Char6 => 0x0e,
            CustomFont5x8::Char7 => 0x0f,
        }
    }
}

/// The four glyphs that a display with 5x10 cells lets its user draw. The controller reads
/// bits 1 and 2 of a code and ignores bits 0 and 3.
#[derive(Clone, Copy)]
pub enum CustomFont5x10 {
    Char0,
    Char1,
    Char2,
    Char3,
}

impl CustomFont5x10 {
    /// The code that shows this character when it is written to the display.
    pub open spec fn spec_code(self) -> u8 {
        match self {
            CustomFont5x10::Char0 => 0x09,
            CustomFont5x10::Char1 => 0x0b,
            CustomFont5x10::Char2 => 0x0d,
            CustomFont5x10::Char3 => 0x0f,
        }
    }

    #[verifier::when_used_as_spec(spec_code)]
    pub fn code(self) -> (code: u8)
        ensures
            code == self.spec_code(),
    {
        match self {
            CustomFont5x10::Char0 => 0x09,
            CustomFont5x10::Char1 => 0x0b,
            CustomFont5x10::Char2 => 0x0d,
            CustomFont5x10::Char3 => 0x0f,
        }
    }
}

} // verus!
