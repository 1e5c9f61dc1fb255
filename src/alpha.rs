//! The closed sets of two- and three-letter jurisdiction codes, and their text.

use vstd::prelude::*;
use vstd::string::*;
use crate::table::{
    definition, entry, lemma_entry_of_alpha2, lemma_entry_of_alpha3, COUNT,
};
use crate::text::str_eq;

verus! {

/// Two-letter ISO 3166 country code.
#[derive(Clone, Copy, Debug, PartialEq, Eq, Hash, Structural)]
pub enum Alpha2 {
    AF,
    AX,
    AL,
    DZ,
    AS,
    AD,
    AO,
    AI,
    AQ,
    AG,
    AR,
    AM,
    AW,
    AU,
    AT,
    AZ,
    BS,
    BH,
    BD,
    BB,
    BY,
    BE,
    BZ,
    BJ,
    BM,
    BT,
    BO,
    BQ,
    BA,
    BW,
    BV,
    BR,
    IO,
    BN,
    BG,
    BF,
    BI,
    CV,
    KH,
    CM,
    CA,
    KY,
    CF,
    TD,
    CL,
    CN,
    CX,
    CC,
    CO,
    KM,
    CG,
    CD,
    CK,
    CR,
    CI,
    HR,
    CU,
    CW,
    CY,
    CZ,
    DK,
    DJ,
    DM,
    DO,
    EC,
    EG,
    SV,
    GQ,
    ER,
    EE,
    SZ,
    ET,
    FK,
    FO,
    FJ,
    FI,
    FR,
    GF,
    PF,
    TF,
    GA,
    GM,
    GE,
    DE,
    GH,
    GI,
    GR,
    GL,
    GD,
    GP,
    GU,
    GT,
    GG,
    GN,
    GW,
    GY,
    HT,
    HM,
    VA,
    HN,
    HK,
    HU,
    IS,
    IN,
    ID,
    IR,
    IQ,
    IE,
    IM,
    IL,
    IT,
    JM,
    JP,
    JE,
    JO,
    KZ,
    KE,
    KI,
    KP,
    KR,
    KW,
    KG,
    LA,
    LV,
    LB,
    LS,
    LR,
    LY,
    LI,
    LT,
    LU,
    MO,
    MG,
    MW,
    MY,
    MV,
    ML,
    MT,
    MH,
    MQ,
    MR,
    MU,
    YT,
    MX,
    FM,
    MD,
    MC,
    MN,
    ME,
    MS,
    MA,
    MZ,
    MM,
    NA,
    NR,
    NP,
    NL,
    NC,
    NZ,
    NI,
    NE,
    NG,
    NU,
    NF,
    MK,
    MP,
    NO,
    OM,
    PK,
    PW,
    PS,
    PA,
    PG,
    PY,
    PE,
    PH,
    PN,
    PL,
    PT,
    PR,
    QA,
    RE,
    RO,
    RU,
    RW,
    BL,
    SH,
    KN,
    LC,
    MF,
    PM,
    VC,
    WS,
    SM,
    ST,
    SA,
    SN,
    RS,
    SC,
    SL,
    SG,
    SX,
    SK,
    SI,
    SB,
    SO,
    ZA,
    GS,
    SS,
    ES,
    LK,
    SD,
    SR,
    SJ,
    SE,
    CH,
    SY,
    TW,
    TJ,
    TZ,
    TH,
    TL,
    TG,
    TK,
    TO,
    TT,
    TN,
    TR,
    TM,
    TC,
    TV,
    UG,
    UA,
    AE,
    GB,
    US,
    UM,
    UY,
    UZ,
    VU,
    VE,
    VN,
    VG,
    VI,
    WF,
    EH,
    YE,
    ZM,
    ZW,
}

impl Alpha2 {
    /// The letters of the code, as its canonical text spells them.
    pub open spec fn letters(self) -> Seq<char> {
        match self {
            Alpha2::AF => seq!['A', 'F'],
            Alpha2::AX => seq!['A', 'X'],
            Alpha2::AL => seq!['A', 'L'],
            Alpha2::DZ => seq!['D', 'Z'],
            Alpha2::AS => seq!['A', 'S'],
            Alpha2::AD => seq!['A', 'D'],
            Alpha2::AO => seq!['A', 'O'],
            Alpha2::AI => seq!['A', 'I'],
            Alpha2::AQ => seq!['A', 'Q'],
            Alpha2::AG => seq!['A', 'G'],
            Alpha2::AR => seq!['A', 'R'],
            Alpha2::AM => seq!['A', 'M'],
            Alpha2::AW => seq!['A', 'W'],
            Alpha2::AU => seq!['A', 'U'],
            Alpha2::AT => seq!['A', 'T'],
            Alpha2::AZ => seq!['A', 'Z'],
            Alpha2::BS => seq!['B', 'S'],
            Alpha2::BH => seq!['B', 'H'],
            Alpha2::BD => seq!['B', 'D'],
            Alpha2::BB => seq!['B', 'B'],
            Alpha2::BY => seq!['B', 'Y'],
            Alpha2::BE => seq!['B', 'E'],
            Alpha2::BZ => seq!['B', 'Z'],
            Alpha2::BJ => seq!['B', 'J'],
            Alpha2::BM => seq!['B', 'M'],
            Alpha2::BT => seq!['B', 'T'],
            Alpha2::BO => seq!['B', 'O'],
            Alpha2::BQ => seq!['B', 'Q'],
            Alpha2::BA => seq!['B', 'A'],
            Alpha2::BW => seq!['B', 'W'],
            Alpha2::BV => seq!['B', 'V'],
            Alpha2::BR => seq!['B', 'R'],
            Alpha2::IO => seq!['I', 'O'],
            Alpha2::BN => seq!['B', 'N'],
            Alpha2::BG => seq!['B', 'G'],
            Alpha2::BF => seq!['B', 'F'],
            Alpha2::BI => seq!['B', 'I'],
            Alpha2::CV => seq!['C', 'V'],
            Alpha2::KH => seq!['K', 'H'],
            Alpha2::CM => seq!['C', 'M'],
            Alpha2::CA => seq!['C', 'A'],
            Alpha2::KY => seq!['K', 'Y'],
            Alpha2::CF => seq!['C', 'F'],
            Alpha2::TD => seq!['T', 'D'],
            Alpha2::CL => seq!['C', 'L'],
            Alpha2::CN => seq!['C', 'N'],
            Alpha2::CX => seq!['C', 'X'],
            Alpha2::CC => seq!['C', 'C'],
            Alpha2::CO => seq!['C', 'O'],
            Alpha2::KM => seq!['K', 'M'],
            Alpha2::CG => seq!['C', 'G'],
            Alpha2::CD => seq!['C', 'D'],
            Alpha2::CK => seq!['C', 'K'],
            Alpha2::CR => seq!['C', 'R'],
            Alpha2::CI => seq!['C', 'I'],
            Alpha2::HR => seq!['H', 'R'],
            Alpha2::CU => seq!['C', 'U'],
            Alpha2::CW => seq!['C', 'W'],
            Alpha2::CY => seq!['C', 'Y'],
            Alpha2::CZ => seq!['C', 'Z'],
            Alpha2::DK => seq!['D', 'K'],
            Alpha2::DJ => seq!['D', 'J'],
            Alpha2::DM => seq!['D', 'M'],
            Alpha2::DO => seq!['D', 'O'],
            Alpha2::EC => seq!['E', 'C'],
            Alpha2::EG => seq!['E', 'G'],
            Alpha2::SV => seq!['S', 'V'],
            Alpha2::GQ => seq!['G', 'Q'],
            Alpha2::ER => seq!['E', 'R'],
            Alpha2::EE => seq!['E', 'E'],
            Alpha2::SZ => seq!['S', 'Z'],
            Alpha2::ET => seq!['E', 'T'],
            Alpha2::FK => seq!['F', 'K'],
            Alpha2::FO => seq!['F', 'O'],
            Alpha2::FJ => seq!['F', 'J'],
            Alpha2::FI => seq!['F', 'I'],
            Alpha2::FR => seq!['F', 'R'],
            Alpha2::GF => seq!['G', 'F'],
            Alpha2::PF => seq!['P', 'F'],
            Alpha2::TF => seq!['T', 'F'],
            Alpha2::GA => seq!['G', 'A'],
            Alpha2::GM => seq!['G', 'M'],
            Alpha2::GE => seq!['G', 'E'],
            Alpha2::DE => seq!['D', 'E'],
            Alpha2::GH => seq!['G', 'H'],
            Alpha2::GI => seq!['G', 'I'],
            Alpha2::GR => seq!['G', 'R'],
            Alpha2::GL => seq!['G', 'L'],
            Alpha2::GD => seq!['G', 'D'],
            Alpha2::GP => seq!['G', 'P'],
            Alpha2::GU => seq!['G', 'U'],
            Alpha2::GT => seq!['G', 'T'],
            Alpha2::GG => seq!['G', 'G'],
            Alpha2::GN => seq!['G', 'N'],
            Alpha2::GW => seq!['G', 'W'],
            Alpha2::GY => seq!['G', 'Y'],
            Alpha2::HT => seq!['H', 'T'],
            Alpha2::HM => seq!['H', 'M'],
            Alpha2::VA => seq!['V', 'A'],
            Alpha2::HN => seq!['H', 'N'],
            Alpha2::HK => seq!['H', 'K'],
            Alpha2::HU => seq!['H', 'U'],
            Alpha2::IS => seq!['I', 'S'],
            Alpha2::IN => seq!['I', 'N'],
            Alpha2::ID => seq!['I', 'D'],
            Alpha2::IR => seq!['I', 'R'],
            Alpha2::IQ => seq!['I', 'Q'],
            Alpha2::IE => seq!['I', 'E'],
            Alpha2::IM => seq!['I', 'M'],
            Alpha2::IL => seq!['I', 'L'],
            Alpha2::IT => seq!['I', 'T'],
            Alpha2::JM => seq!['J', 'M'],
            Alpha2::JP => seq!['J', 'P'],
            Alpha2::JE => seq!['J', 'E'],
            Alpha2::JO => seq!['J', 'O'],
            Alpha2::KZ => seq!['K', 'Z'],
            Alpha2::KE => seq!['K', 'E'],
            Alpha2::KI => seq!['K', 'I'],
            Alpha2::KP => seq!['K', 'P'],
            Alpha2::KR => seq!['K', 'R'],
            Alpha2::KW => seq!['K', 'W'],
            Alpha2::KG => seq!['K', 'G'],
            Alpha2::LA => seq!['L', 'A'],
            Alpha2::LV => seq!['L', 'V'],
            Alpha2::LB => seq!['L', 'B'],
            Alpha2::LS => seq!['L', 'S'],
            Alpha2::LR => seq!['L', 'R'],
            Alpha2::LY => seq!['L', 'Y'],
            Alpha2::LI => seq!['L', 'I'],
            Alpha2::LT => seq!['L', 'T'],
            Alpha2::LU => seq!['L', 'U'],
            Alpha2::MO => seq!['M', 'O'],
            Alpha2::MG => seq!['M', 'G'],
            Alpha2::MW => seq!['M', 'W'],
            Alpha2::MY => seq!['M', 'Y'],
            Alpha2::MV => seq!['M', 'V'],
            Alpha2::ML => seq!['M', 'L'],
            Alpha2::MT => seq!['M', 'T'],
            Alpha2::MH => seq!['M', 'H'],
            Alpha2::MQ => seq!['M', 'Q'],
            Alpha2::MR => seq!['M', 'R'],
            Alpha2::MU => seq!['M', 'U'],
            Alpha2::YT => seq!['Y', 'T'],
            Alpha2::MX => seq!['M', 'X'],
            Alpha2::FM => seq!['F', 'M'],
            Alpha2::MD => seq!['M', 'D'],
            Alpha2::MC => seq!['M', 'C'],
            Alpha2::MN => seq!['M', 'N'],
            Alpha2::ME => seq!['M', 'E'],
            Alpha2::MS => seq!['M', 'S'],
            Alpha2::MA => seq!['M', 'A'],
            Alpha2::MZ => seq!['M', 'Z'],
            Alpha2::MM => seq!['M', 'M'],
            Alpha2::NA => seq!['N', 'A'],
            Alpha2::NR => seq!['N', 'R'],
            Alpha2::NP => seq!['N', 'P'],
            Alpha2::NL => seq!['N', 'L'],
            Alpha2::NC => seq!['N', 'C'],
            Alpha2::NZ => seq!['N', 'Z'],
            Alpha2::NI => seq!['N', 'I'],
            Alpha2::NE => seq!['N', 'E'],
            Alpha2::NG => seq!['N', 'G'],
            Alpha2::NU => seq!['N', 'U'],
            Alpha2::NF => seq!['N', 'F'],
            Alpha2::MK => seq!['M', 'K'],
            Alpha2::MP => seq!['M', 'P'],
            Alpha2::NO => seq!['N', 'O'],
            Alpha2::OM => seq!['O', 'M'],
            Alpha2::PK => seq!['P', 'K'],
            Alpha2::PW => seq!['P', 'W'],
            Alpha2::PS => seq!['P', 'S'],
            Alpha2::PA => seq!['P', 'A'],
            Alpha2::PG => seq!['P', 'G'],
            Alpha2::PY => seq!['P', 'Y'],
            Alpha2::PE => seq!['P', 'E'],
            Alpha2::PH => seq!['P', 'H'],
            Alpha2::PN => seq!['P', 'N'],
            Alpha2::PL => seq!['P', 'L'],
            Alpha2::PT => seq!['P', 'T'],
            Alpha2::PR => seq!['P', 'R'],
            Alpha2::QA => seq!['Q', 'A'],
            Alpha2::RE => seq!['R', 'E'],
            Alpha2::RO => seq!['R', 'O'],
            Alpha2::RU => seq!['R', 'U'],
            Alpha2::RW => seq!['R', 'W'],
            Alpha2::BL => seq!['B', 'L'],
            Alpha2::SH => seq!['S', 'H'],
            Alpha2::KN => seq!['K', 'N'],
            Alpha2::LC => seq!['L', 'C'],
            Alpha2::MF => seq!['M', 'F'],
            Alpha2::PM => seq!['P', 'M'],
            Alpha2::VC => seq!['V', 'C'],
            Alpha2::WS => seq!['W', 'S'],
            Alpha2::SM => seq!['S', 'M'],
            Alpha2::ST => seq!['S', 'T'],
            Alpha2::SA => seq!['S', 'A'],
            Alpha2::SN => seq!['S', 'N'],
            Alpha2::RS => seq!['R', 'S'],
            Alpha2::SC => seq!['S', 'C'],
            Alpha2::SL => seq!['S', 'L'],
            Alpha2::SG => seq!['S', 'G'],
            Alpha2::SX => seq!['S', 'X'],
            Alpha2::SK => seq!['S', 'K'],
            Alpha2::SI => seq!['S', 'I'],
            Alpha2::SB => seq!['S', 'B'],
            Alpha2::SO => seq!['S', 'O'],
            Alpha2::ZA => seq!['Z', 'A'],
            Alpha2::GS => seq!['G', 'S'],
            Alpha2::SS => seq!['S', 'S'],
            Alpha2::ES => seq!['E', 'S'],
            Alpha2::LK => seq!['L', 'K'],
            Alpha2::SD => seq!['S', 'D'],
            Alpha2::SR => seq!['S', 'R'],
            Alpha2::SJ => seq!['S', 'J'],
            Alpha2::SE => seq!['S', 'E'],
            Alpha2::CH => seq!['C', 'H'],
            Alpha2::SY => seq!['S', 'Y'],
            Alpha2::TW => seq!['T', 'W'],
            Alpha2::TJ => seq!['T', 'J'],
            Alpha2::TZ => seq!['T', 'Z'],
            Alpha2::TH => seq!['T', 'H'],
            Alpha2::TL => seq!['T', 'L'],
            Alpha2::TG => seq!['T', 'G'],
            Alpha2::TK => seq!['T', 'K'],
            Alpha2::TO => seq!['T', 'O'],
            Alpha2::TT => seq!['T', 'T'],
            Alpha2::TN => seq!['T', 'N'],
            Alpha2::TR => seq!['T', 'R'],
            Alpha2::TM => seq!['T', 'M'],
            Alpha2::TC => seq!['T', 'C'],
            Alpha2::TV => seq!['T', 'V'],
            Alpha2::UG => seq!['U', 'G'],
            Alpha2::UA => seq!['U', 'A'],
            Alpha2::AE => seq!['A', 'E'],
            Alpha2::GB => seq!['G', 'B'],
            Alpha2::US => seq!['U', 'S'],
            Alpha2::UM => seq!['U', 'M'],
            Alpha2::UY => seq!['U', 'Y'],
            Alpha2::UZ => seq!['U', 'Z'],
            Alpha2::VU => seq!['V', 'U'],
            Alpha2::VE => seq!['V', 'E'],
            Alpha2::VN => seq!['V', 'N'],
            Alpha2::VG => seq!['V', 'G'],
            Alpha2::VI => seq!['V', 'I'],
            Alpha2::WF => seq!['W', 'F'],
            Alpha2::EH => seq!['E', 'H'],
            Alpha2::YE => seq!['Y', 'E'],
            Alpha2::ZM => seq!['Z', 'M'],
            Alpha2::ZW => seq!['Z', 'W'],
        }
    }

    /// The code spelled by the given letters, if there is one.
    pub open spec fn from_letters(c0: char, c1: char) -> Option<Alpha2> {
        match c0 {
            'A' => match c1 {
                'D' => Some(Alpha2::AD),
                'E' => Some(Alpha2::AE),
                'F' => Some(Alpha2::AF),
                'G' => Some(Alpha2::AG),
                'I' => Some(Alpha2::AI),
                'L' => Some(Alpha2::AL),
                'M' => Some(Alpha2::AM),
                'O' => Some(Alpha2::AO),
                'Q' => Some(Alpha2::AQ),
                'R' => Some(Alpha2::AR),
                'S' => Some(Alpha2::AS),
                'T' => Some(Alpha2::AT),
                'U' => Some(Alpha2::AU),
                'W' => Some(Alpha2::AW),
                'X' => Some(Alpha2::AX),
                'Z' => Some(Alpha2::AZ),
                _ => None,
            },
            'B' => match c1 {
                'A' => Some(Alpha2::BA),
                'B' => Some(Alpha2::BB),
                'D' => Some(Alpha2::BD),
                'E' => Some(Alpha2::BE),
                'F' => Some(Alpha2::BF),
                'G' => Some(Alpha2::BG),
                'H' => Some(Alpha2::BH),
                'I' => Some(Alpha2::BI),
                'J' => Some(Alpha2::BJ),
                'L' => Some(Alpha2::BL),
                'M' => Some(Alpha2::BM),
                'N' => Some(Alpha2::BN),
                'O' => Some(Alpha2::BO),
                'Q' => Some(Alpha2::BQ),
                'R' => Some(Alpha2::BR),
                'S' => Some(Alpha2::BS),
                'T' => Some(Alpha2::BT),
                'V' => Some(Alpha2::BV),
                'W' => Some(Alpha2::BW),
                'Y' => Some(Alpha2::BY),
                'Z' => Some(Alpha2::BZ),
                _ => None,
            },
            'C' => match c1 {
                'A' => Some(Alpha2::CA),
                'C' => Some(Alpha2::CC),
                'D' => Some(Alpha2::CD),
                'F' => Some(Alpha2::CF),
                'G' => Some(Alpha2::CG),
                'H' => Some(Alpha2::CH),
                'I' => Some(Alpha2::CI),
                'K' => Some(Alpha2::CK),
                'L' => Some(Alpha2::CL),
                'M' => Some(Alpha2::CM),
                'N' => Some(Alpha2::CN),
                'O' => Some(Alpha2::CO),
                'R' => Some(Alpha2::CR),
                'U' => Some(Alpha2::CU),
                'V' => Some(Alpha2::CV),
                'W' => Some(Alpha2::CW),
                'X' => Some(Alpha2::CX),
                'Y' => Some(Alpha2::CY),
                'Z' => Some(Alpha2::CZ),
                _ => None,
            },
            'D' => match c1 {
                'E' => Some(Alpha2::DE),
                'J' => Some(Alpha2::DJ),
                'K' => Some(Alpha2::DK),
                'M' => Some(Alpha2::DM),
                'O' => Some(Alpha2::DO),
                'Z' => Some(Alpha2::DZ),
                _ => None,
            },
            'E' => match c1 {
                'C' => Some(Alpha2::EC),
                'E' => Some(Alpha2::EE),
                'G' => Some(Alpha2::EG),
                'H' => Some(Alpha2::EH),
                'R' => Some(Alpha2::ER),
                'S' => Some(Alpha2::ES),
                'T' => Some(Alpha2::ET),
                _ => None,
            },
            'F' => match c1 {
                'I' => Some(Alpha2::FI),
                'J' => Some(Alpha2::FJ),
                'K' => Some(Alpha2::FK),
                'M' => Some(Alpha2::FM),
                'O' => Some(Alpha2::FO),
                'R' => Some(Alpha2::FR),
                _ => None,
            },
            'G' => match c1 {
                'A' => Some(Alpha2::GA),
                'B' => Some(Alpha2::GB),
                'D' => Some(Alpha2::GD),
                'E' => Some(Alpha2::GE),
                'F' => Some(Alpha2::GF),
                'G' => Some(Alpha2::GG),
                'H' => Some(Alpha2::GH),
                'I' => Some(Alpha2::GI),
                'L' => Some(Alpha2::GL),
                'M' => Some(Alpha2::GM),
                'N' => Some(Alpha2::GN),
                'P' => Some(Alpha2::GP),
                'Q' => Some(Alpha2::GQ),
                'R' => Some(Alpha2::GR),
                'S' => Some(Alpha2::GS),
                'T' => Some(Alpha2::GT),
                'U' => Some(Alpha2::GU),
                'W' => Some(Alpha2::GW),
                'Y' => Some(Alpha2::GY),
                _ => None,
            },
            'H' => match c1 {
                'K' => Some(Alpha2::HK),
                'M' => Some(Alpha2::HM),
                'N' => Some(Alpha2::HN),
                'R' => Some(Alpha2::HR),
                'T' => Some(Alpha2::HT),
                'U' => Some(Alpha2::HU),
                _ => None,
            },
            'I' => match c1 {
                'D' => Some(Alpha2::ID),
                'E' => Some(Alpha2::IE),
                'L' => Some(Alpha2::IL),
                'M' => Some(Alpha2::IM),
                'N' => Some(Alpha2::IN),
                'O' => Some(Alpha2::IO),
                'Q' => Some(Alpha2::IQ),
                'R' => Some(Alpha2::IR),
                'S' => Some(Alpha2::IS),
                'T' => Some(Alpha2::IT),
                _ => None,
            },
            'J' => match c1 {
                'E' => Some(Alpha2::JE),
                'M' => Some(Alpha2::JM),
                'O' => Some(Alpha2::JO),
                'P' => Some(Alpha2::JP),
                _ => None,
            },
            'K' => match c1 {
                'E' => Some(Alpha2::KE),
                'G' => Some(Alpha2::KG),
                'H' => Some(Alpha2::KH),
                'I' => Some(Alpha2::KI),
                'M' => Some(Alpha2::KM),
                'N' => Some(Alpha2::KN),
                'P' => Some(Alpha2::KP),
                'R' => Some(Alpha2::KR),
                'W' => Some(Alpha2::KW),
                'Y' => Some(Alpha2::KY),
                'Z' => Some(Alpha2::KZ),
                _ => None,
            },
            'L' => match c1 {
                'A' => Some(Alpha2::LA),
                'B' => Some(Alpha2::LB),
                'C' => Some(Alpha2::LC),
                'I' => Some(Alpha2::LI),
                'K' => Some(Alpha2::LK),
                'R' => Some(Alpha2::LR),
                'S' => Some(Alpha2::LS),
                'T' => Some(Alpha2::LT),
                'U' => Some(Alpha2::LU),
                'V' => Some(Alpha2::LV),
                'Y' => Some(Alpha2::LY),
                _ => None,
            },
            'M' => match c1 {
                'A' => Some(Alpha2::MA),
                'C' => Some(Alpha2::MC),
                'D' => Some(Alpha2::MD),
                'E' => Some(Alpha2::ME),
                'F' => Some(Alpha2::MF),
                'G' => Some(Alpha2::MG),
                'H' => Some(Alpha2::MH),
                'K' => Some(Alpha2::MK),
                'L' => Some(Alpha2::ML),
                'M' => Some(Alpha2::MM),
                'N' => Some(Alpha2::MN),
                'O' => Some(Alpha2::MO),
                'P' => Some(Alpha2::MP),
                'Q' => Some(Alpha2::MQ),
                'R' => Some(Alpha2::MR),
                'S' => Some(Alpha2::MS),
                'T' => Some(Alpha2::MT),
                'U' => Some(Alpha2::MU),
                'V' => Some(Alpha2::MV),
                'W' => Some(Alpha2::MW),
                'X' => Some(Alpha2::MX),
                'Y' => Some(Alpha2::MY),
                'Z' => Some(Alpha2::MZ),
                _ => None,
            },
            'N' => match c1 {
                'A' => Some(Alpha2::NA),
                'C' => Some(Alpha2::NC),
                'E' => Some(Alpha2::NE),
                'F' => Some(Alpha2::NF),
                'G' => Some(Alpha2::NG),
                'I' => Some(Alpha2::NI),
                'L' => Some(Alpha2::NL),
                'O' => Some(Alpha2::NO),
                'P' => Some(Alpha2::NP),
                'R' => Some(Alpha2::NR),
                'U' => Some(Alpha2::NU),
                'Z' => Some(Alpha2::NZ),
                _ => None,
            },
            'O' => match c1 {
                'M' => Some(Alpha2::OM),
                _ => None,
            },
            'P' => match c1 {
                'A' => Some(Alpha2::PA),
                'E' => Some(Alpha2::PE),
                'F' => Some(Alpha2::PF),
                'G' => Some(Alpha2::PG),
                'H' => Some(Alpha2::PH),
                'K' => Some(Alpha2::PK),
                'L' => Some(Alpha2::PL),
                'M' => Some(Alpha2::PM),
                'N' => Some(Alpha2::PN),
                'R' => Some(Alpha2::PR),
                'S' => Some(Alpha2::PS),
                'T' => Some(Alpha2::PT),
                'W' => Some(Alpha2::PW),
                'Y' => Some(Alpha2::PY),
                _ => None,
            },
            'Q' => match c1 {
                'A' => Some(Alpha2::QA),
                _ => None,
            },
            'R' => match c1 {
                'E' => Some(Alpha2::RE),
                'O' => Some(Alpha2::RO),
                'S' => Some(Alpha2::RS),
                'U' => Some(Alpha2::RU),
                'W' => Some(Alpha2::RW),
                _ => None,
            },
            'S' => match c1 {
                'A' => Some(Alpha2::SA),
                'B' => Some(Alpha2::SB),
                'C' => Some(Alpha2::SC),
                'D' => Some(Alpha2::SD),
                'E' => Some(Alpha2::SE),
                'G' => Some(Alpha2::SG),
                'H' => Some(Alpha2::SH),
                'I' => Some(Alpha2::SI),
                'J' => Some(Alpha2::SJ),
                'K' => Some(Alpha2::SK),
                'L' => Some(Alpha2::SL),
                'M' => Some(Alpha2::SM),
                'N' => Some(Alpha2::SN),
                'O' => Some(Alpha2::SO),
                'R' => Some(Alpha2::SR),
                'S' => Some(Alpha2::SS),
                'T' => Some(Alpha2::ST),
                'V' => Some(Alpha2::SV),
                'X' => Some(Alpha2::SX),
                'Y' => Some(Alpha2::SY),
                'Z' => Some(Alpha2::SZ),
                _ => None,
            },
            'T' => match c1 {
                'C' => Some(Alpha2::TC),
                'D' => Some(Alpha2::TD),
                'F' => Some(Alpha2::TF),
                'G' => Some(Alpha2::TG),
                'H' => Some(Alpha2::TH),
                'J' => Some(Alpha2::TJ),
                'K' => Some(Alpha2::TK),
                'L' => Some(Alpha2::TL),
                'M' => Some(Alpha2::TM),
                'N' => Some(Alpha2::TN),
                'O' => Some(Alpha2::TO),
                'R' => Some(Alpha2::TR),
                'T' => Some(Alpha2::TT),
                'V' => Some(Alpha2::TV),
                'W' => Some(Alpha2::TW),
                'Z' => Some(Alpha2::TZ),
                _ => None,
            },
            'U' => match c1 {
                'A' => Some(Alpha2::UA),
                'G' => Some(Alpha2::UG),
                'M' => Some(Alpha2::UM),
                'S' => Some(Alpha2::US),
                'Y' => Some(Alpha2::UY),
                'Z' => Some(Alpha2::UZ),
                _ => None,
            },
            'V' => match c1 {
                'A' => Some(Alpha2::VA),
                'C' => Some(Alpha2::VC),
                'E' => Some(Alpha2::VE),
                'G' => Some(Alpha2::VG),
                'I' => Some(Alpha2::VI),
                'N' => Some(Alpha2::VN),
                'U' => Some(Alpha2::VU),
                _ => None,
            },
            'W' => match c1 {
                'F' => Some(Alpha2::WF),
                'S' => Some(Alpha2::WS),
                _ => None,
            },
            'Y' => match c1 {
                'E' => Some(Alpha2::YE),
                'T' => Some(Alpha2::YT),
                _ => None,
            },
            'Z' => match c1 {
                'A' => Some(Alpha2::ZA),
                'M' => Some(Alpha2::ZM),
                'W' => Some(Alpha2::ZW),
                _ => None,
            },
            _ => None,
        }
    }

    /// The code whose canonical text is exactly `s`, if there is one.
    pub open spec fn parse_spec(s: Seq<char>) -> Option<Alpha2> {
        if exists|a: Alpha2| a.letters() == s {
            Some(choose|a: Alpha2| a.letters() == s)
        } else {
            None
        }
    }

    /// The row of the definition table that holds this code.
    pub open spec fn index(self) -> usize {
        match self {
            Alpha2::AF => 0,
            Alpha2::AX => 1,
            Alpha2::AL => 2,
            Alpha2::DZ => 3,
            Alpha2::AS => 4,
            Alpha2::AD => 5,
            Alpha2::AO => 6,
            Alpha2::AI => 7,
            Alpha2::AQ => 8,
            Alpha2::AG => 9,
            Alpha2::AR => 10,
            Alpha2::AM => 11,
            Alpha2::AW => 12,
            Alpha2::AU => 13,
            Alpha2::AT => 14,
            Alpha2::AZ => 15,
            Alpha2::BS => 16,
            Alpha2::BH => 17,
            Alpha2::BD => 18,
            Alpha2::BB => 19,
            Alpha2::BY => 20,
            Alpha2::BE => 21,
            Alpha2::BZ => 22,
            Alpha2::BJ => 23,
            Alpha2::BM => 24,
            Alpha2::BT => 25,
            Alpha2::BO => 26,
            Alpha2::BQ => 27,
            Alpha2::BA => 28,
            Alpha2::BW => 29,
            Alpha2::BV => 30,
            Alpha2::BR => 31,
            Alpha2::IO => 32,
            Alpha2::BN => 33,
            Alpha2::BG => 34,
            Alpha2::BF => 35,
            Alpha2::BI => 36,
            Alpha2::CV => 37,
            Alpha2::KH => 38,
            Alpha2::CM => 39,
            Alpha2::CA => 40,
            Alpha2::KY => 41,
            Alpha2::CF => 42,
            Alpha2::TD => 43,
            Alpha2::CL => 44,
            Alpha2::CN => 45,
            Alpha2::CX => 46,
            Alpha2::CC => 47,
            Alpha2::CO => 48,
            Alpha2::KM => 49,
            Alpha2::CG => 50,
            Alpha2::CD => 51,
            Alpha2::CK => 52,
            Alpha2::CR => 53,
            Alpha2::CI => 54,
            Alpha2::HR => 55,
            Alpha2::CU => 56,
            Alpha2::CW => 57,
            Alpha2::CY => 58,
            Alpha2::CZ => 59,
            Alpha2::DK => 60,
            Alpha2::DJ => 61,
            Alpha2::DM => 62,
            Alpha2::DO => 63,
            Alpha2::EC => 64,
            Alpha2::EG => 65,
            Alpha2::SV => 66,
            Alpha2::GQ => 67,
            Alpha2::ER => 68,
            Alpha2::EE => 69,
            Alpha2::SZ => 70,
            Alpha2::ET => 71,
            Alpha2::FK => 72,
            Alpha2::FO => 73,
            Alpha2::FJ => 74,
            Alpha2::FI => 75,
            Alpha2::FR => 76,
            Alpha2::GF => 77,
            Alpha2::PF => 78,
            Alpha2::TF => 79,
            Alpha2::GA => 80,
            Alpha2::GM => 81,
            Alpha2::GE => 82,
            Alpha2::DE => 83,
            Alpha2::GH => 84,
            Alpha2::GI => 85,
            Alpha2::GR => 86,
            Alpha2::GL => 87,
            Alpha2::GD => 88,
            Alpha2::GP => 89,
            Alpha2::GU => 90,
            Alpha2::GT => 91,
            Alpha2::GG => 92,
            Alpha2::GN => 93,
            Alpha2::GW => 94,
            Alpha2::GY => 95,
            Alpha2::HT => 96,
            Alpha2::HM => 97,
            Alpha2::VA => 98,
            Alpha2::HN => 99,
            Alpha2::HK => 100,
            Alpha2::HU => 101,
            Alpha2::IS => 102,
            Alpha2::IN => 103,
            Alpha2::ID => 104,
            Alpha2::IR => 105,
            Alpha2::IQ => 106,
            Alpha2::IE => 107,
            Alpha2::IM => 108,
            Alpha2::IL => 109,
            Alpha2::IT => 110,
            Alpha2::JM => 111,
            Alpha2::JP => 112,
            Alpha2::JE => 113,
            Alpha2::JO => 114,
            Alpha2::KZ => 115,
            Alpha2::KE => 116,
            Alpha2::KI => 117,
            Alpha2::KP => 118,
            Alpha2::KR => 119,
            Alpha2::KW => 120,
            Alpha2::KG => 121,
            Alpha2::LA => 122,
            Alpha2::LV => 123,
            Alpha2::LB => 124,
            Alpha2::LS => 125,
            Alpha2::LR => 126,
            Alpha2::LY => 127,
            Alpha2::LI => 128,
            Alpha2::LT => 129,
            Alpha2::LU => 130,
            Alpha2::MO => 131,
            Alpha2::MG => 132,
            Alpha2::MW => 133,
            Alpha2::MY => 134,
            Alpha2::MV => 135,
            Alpha2::ML => 136,
            Alpha2::MT => 137,
            Alpha2::MH => 138,
            Alpha2::MQ => 139,
            Alpha2::MR => 140,
            Alpha2::MU => 141,
            Alpha2::YT => 142,
            Alpha2::MX => 143,
            Alpha2::FM => 144,
            Alpha2::MD => 145,
            Alpha2::MC => 146,
            Alpha2::MN => 147,
            Alpha2::ME => 148,
            Alpha2::MS => 149,
            Alpha2::MA => 150,
            Alpha2::MZ => 151,
            Alpha2::MM => 152,
            Alpha2::NA => 153,
            Alpha2::NR => 154,
            Alpha2::NP => 155,
            Alpha2::NL => 156,
            Alpha2::NC => 157,
            Alpha2::NZ => 158,
            Alpha2::NI => 159,
            Alpha2::NE => 160,
            Alpha2::NG => 161,
            Alpha2::NU => 162,
            Alpha2::NF => 163,
            Alpha2::MK => 164,
            Alpha2::MP => 165,
            Alpha2::NO => 166,
            Alpha2::OM => 167,
            Alpha2::PK => 168,
            Alpha2::PW => 169,
            Alpha2::PS => 170,
            Alpha2::PA => 171,
            Alpha2::PG => 172,
            Alpha2::PY => 173,
            Alpha2::PE => 174,
            Alpha2::PH => 175,
            Alpha2::PN => 176,
            Alpha2::PL => 177,
            Alpha2::PT => 178,
            Alpha2::PR => 179,
            Alpha2::QA => 180,
            Alpha2::RE => 181,
            Alpha2::RO => 182,
            Alpha2::RU => 183,
            Alpha2::RW => 184,
            Alpha2::BL => 185,
            Alpha2::SH => 186,
            Alpha2::KN => 187,
            Alpha2::LC => 188,
            Alpha2::MF => 189,
            Alpha2::PM => 190,
            Alpha2::VC => 191,
            Alpha2::WS => 192,
            Alpha2::SM => 193,
            Alpha2::ST => 194,
            Alpha2::SA => 195,
            Alpha2::SN => 196,
            Alpha2::RS => 197,
            Alpha2::SC => 198,
            Alpha2::SL => 199,
            Alpha2::SG => 200,
            Alpha2::SX => 201,
            Alpha2::SK => 202,
            Alpha2::SI => 203,
            Alpha2::SB => 204,
            Alpha2::SO => 205,
            Alpha2::ZA => 206,
            Alpha2::GS => 207,
            Alpha2::SS => 208,
            Alpha2::ES => 209,
            Alpha2::LK => 210,
            Alpha2::SD => 211,
            Alpha2::SR => 212,
            Alpha2::SJ => 213,
            Alpha2::SE => 214,
            Alpha2::CH => 215,
            Alpha2::SY => 216,
            Alpha2::TW => 217,
            Alpha2::TJ => 218,
            Alpha2::TZ => 219,
            Alpha2::TH => 220,
            Alpha2::TL => 221,
            Alpha2::TG => 222,
            Alpha2::TK => 223,
            Alpha2::TO => 224,
            Alpha2::TT => 225,
            Alpha2::TN => 226,
            Alpha2::TR => 227,
            Alpha2::TM => 228,
            Alpha2::TC => 229,
            Alpha2::TV => 230,
            Alpha2::UG => 231,
            Alpha2::UA => 232,
            Alpha2::AE => 233,
            Alpha2::GB => 234,
            Alpha2::US => 235,
            Alpha2::UM => 236,
            Alpha2::UY => 237,
            Alpha2::UZ => 238,
            Alpha2::VU => 239,
            Alpha2::VE => 240,
            Alpha2::VN => 241,
            Alpha2::VG => 242,
            Alpha2::VI => 243,
            Alpha2::WF => 244,
            Alpha2::EH => 245,
            Alpha2::YE => 246,
            Alpha2::ZM => 247,
            Alpha2::ZW => 248,
        }
    }

    /// The letters of a code have the code's width, and spell that code alone.
    pub proof fn lemma_letters_determine(self)
        ensures
            self.letters().len() == 2,
            Self::from_letters(self.letters()[0], self.letters()[1]) == Some(self),
    {
        match self {
            Alpha2::AF => {},
            Alpha2::AX => {},
            Alpha2::AL => {},
            Alpha2::DZ => {},
            Alpha2::AS => {},
            Alpha2::AD => {},
            Alpha2::AO => {},
            Alpha2::AI => {},
            Alpha2::AQ => {},
            Alpha2::AG => {},
            Alpha2::AR => {},
            Alpha2::AM => {},
            Alpha2::AW => {},
            Alpha2::AU => {},
            Alpha2::AT => {},
            Alpha2::AZ => {},
            Alpha2::BS => {},
            Alpha2::BH => {},
            Alpha2::BD => {},
            Alpha2::BB => {},
            Alpha2::BY => {},
            Alpha2::BE => {},
            Alpha2::BZ => {},
            Alpha2::BJ => {},
            Alpha2::BM => {},
            Alpha2::BT => {},
            Alpha2::BO => {},
            Alpha2::BQ => {},
            Alpha2::BA => {},
            Alpha2::BW => {},
            Alpha2::BV => {},
            Alpha2::BR => {},
            Alpha2::IO => {},
            Alpha2::BN => {},
            Alpha2::BG => {},
            Alpha2::BF => {},
            Alpha2::BI => {},
            Alpha2::CV => {},
            Alpha2::KH => {},
            Alpha2::CM => {},
            Alpha2::CA => {},
            Alpha2::KY => {},
            Alpha2::CF => {},
            Alpha2::TD => {},
            Alpha2::CL => {},
            Alpha2::CN => {},
            Alpha2::CX => {},
            Alpha2::CC => {},
            Alpha2::CO => {},
            Alpha2::KM => {},
            Alpha2::CG => {},
            Alpha2::CD => {},
            Alpha2::CK => {},
            Alpha2::CR => {},
            Alpha2::CI => {},
            Alpha2::HR => {},
            Alpha2::CU => {},
            Alpha2::CW => {},
            Alpha2::CY => {},
            Alpha2::CZ => {},
            Alpha2::DK => {},
            Alpha2::DJ => {},
            Alpha2::DM => {},
            Alpha2::DO => {},
            Alpha2::EC => {},
            Alpha2::EG => {},
            Alpha2::SV => {},
            Alpha2::GQ => {},
            Alpha2::ER => {},
            Alpha2::EE => {},
            Alpha2::SZ => {},
            Alpha2::ET => {},
            Alpha2::FK => {},
            Alpha2::FO => {},
            Alpha2::FJ => {},
            Alpha2::FI => {},
            Alpha2::FR => {},
            Alpha2::GF => {},
            Alpha2::PF => {},
            Alpha2::TF => {},
            Alpha2::GA => {},
            Alpha2::GM => {},
            Alpha2::GE => {},
            Alpha2::DE => {},
            Alpha2::GH => {},
            Alpha2::GI => {},
            Alpha2::GR => {},
            Alpha2::GL => {},
            Alpha2::GD => {},
            Alpha2::GP => {},
            Alpha2::GU => {},
            Alpha2::GT => {},
            Alpha2::GG => {},
            Alpha2::GN => {},
            Alpha2::GW => {},
            Alpha2::GY => {},
            Alpha2::HT => {},
            Alpha2::HM => {},
            Alpha2::VA => {},
            Alpha2::HN => {},
            Alpha2::HK => {},
            Alpha2::HU => {},
            Alpha2::IS => {},
            Alpha2::IN => {},
            Alpha2::ID => {},
            Alpha2::IR => {},
            Alpha2::IQ => {},
            Alpha2::IE => {},
            Alpha2::IM => {},
            Alpha2::IL => {},
            Alpha2::IT => {},
            Alpha2::JM => {},
            Alpha2::JP => {},
            Alpha2::JE => {},
            Alpha2::JO => {},
            Alpha2::KZ => {},
            Alpha2::KE => {},
            Alpha2::KI => {},
            Alpha2::KP => {},
            Alpha2::KR => {},
            Alpha2::KW => {},
            Alpha2::KG => {},
            Alpha2::LA => {},
            Alpha2::LV => {},
            Alpha2::LB => {},
            Alpha2::LS => {},
            Alpha2::LR => {},
            Alpha2::LY => {},
            Alpha2::LI => {},
            Alpha2::LT => {},
            Alpha2::LU => {},
            Alpha2::MO => {},
            Alpha2::MG => {},
            Alpha2::MW => {},
            Alpha2::MY => {},
            Alpha2::MV => {},
            Alpha2::ML => {},
            Alpha2::MT => {},
            Alpha2::MH => {},
            Alpha2::MQ => {},
            Alpha2::MR => {},
            Alpha2::MU => {},
            Alpha2::YT => {},
            Alpha2::MX => {},
            Alpha2::FM => {},
            Alpha2::MD => {},
            Alpha2::MC => {},
            Alpha2::MN => {},
            Alpha2::ME => {},
            Alpha2::MS => {},
            Alpha2::MA => {},
            Alpha2::MZ => {},
            Alpha2::MM => {},
            Alpha2::NA => {},
            Alpha2::NR => {},
            Alpha2::NP => {},
            Alpha2::NL => {},
            Alpha2::NC => {},
            Alpha2::NZ => {},
            Alpha2::NI => {},
            Alpha2::NE => {},
            Alpha2::NG => {},
            Alpha2::NU => {},
            Alpha2::NF => {},
            Alpha2::MK => {},
            Alpha2::MP => {},
            Alpha2::NO => {},
            Alpha2::OM => {},
            Alpha2::PK => {},
            Alpha2::PW => {},
            Alpha2::PS => {},
            Alpha2::PA => {},
            Alpha2::PG => {},
            Alpha2::PY => {},
            Alpha2::PE => {},
            Alpha2::PH => {},
            Alpha2::PN => {},
            Alpha2::PL => {},
            Alpha2::PT => {},
            Alpha2::PR => {},
            Alpha2::QA => {},
            Alpha2::RE => {},
            Alpha2::RO => {},
            Alpha2::RU => {},
            Alpha2::RW => {},
            Alpha2::BL => {},
            Alpha2::SH => {},
            Alpha2::KN => {},
            Alpha2::LC => {},
            Alpha2::MF => {},
            Alpha2::PM => {},
            Alpha2::VC => {},
            Alpha2::WS => {},
            Alpha2::SM => {},
            Alpha2::ST => {},
            Alpha2::SA => {},
            Alpha2::SN => {},
            Alpha2::RS => {},
            Alpha2::SC => {},
            Alpha2::SL => {},
            Alpha2::SG => {},
            Alpha2::SX => {},
            Alpha2::SK => {},
            Alpha2::SI => {},
            Alpha2::SB => {},
            Alpha2::SO => {},
            Alpha2::ZA => {},
            Alpha2::GS => {},
            Alpha2::SS => {},
            Alpha2::ES => {},
            Alpha2::LK => {},
            Alpha2::SD => {},
            Alpha2::SR => {},
            Alpha2::SJ => {},
            Alpha2::SE => {},
            Alpha2::CH => {},
            Alpha2::SY => {},
            Alpha2::TW => {},
            Alpha2::TJ => {},
            Alpha2::TZ => {},
            Alpha2::TH => {},
            Alpha2::TL => {},
            Alpha2::TG => {},
            Alpha2::TK => {},
            Alpha2::TO => {},
            Alpha2::TT => {},
            Alpha2::TN => {},
            Alpha2::TR => {},
            Alpha2::TM => {},
            Alpha2::TC => {},
            Alpha2::TV => {},
            Alpha2::UG => {},
            Alpha2::UA => {},
            Alpha2::AE => {},
            Alpha2::GB => {},
            Alpha2::US => {},
            Alpha2::UM => {},
            Alpha2::UY => {},
            Alpha2::UZ => {},
            Alpha2::VU => {},
            Alpha2::VE => {},
            Alpha2::VN => {},
            Alpha2::VG => {},
            Alpha2::VI => {},
            Alpha2::WF => {},
            Alpha2::EH => {},
            Alpha2::YE => {},
            Alpha2::ZM => {},
            Alpha2::ZW => {},
        }
    }

    /// No two codes share their letters.
    pub proof fn lemma_letters_injective(self, other: Alpha2)
        requires
            self.letters() == other.letters(),
        ensures
            self == other,
    {
        self.lemma_letters_determine();
        other.lemma_letters_determine();
    }

    /// Every code reads back from its own letters.
    pub proof fn lemma_parse_letters(self)
        ensures
            Self::parse_spec(self.letters()) == Some(self),
    {
        let a = choose|a: Alpha2| a.letters() == self.letters();
        a.lemma_letters_injective(self);
    }

    /// The canonical text of the code.
    pub fn as_str(self) -> (r: &'static str)
        ensures
            r@ == self.letters(),
    {
        match self {
            Alpha2::AF => {
                proof {
                    reveal_strlit("AF");
                    assert("AF"@ =~= self.letters());
                }
                "AF"
            },
            Alpha2::AX => {
                proof {
                    reveal_strlit("AX");
                    assert("AX"@ =~= self.letters());
                }
                "AX"
            },
            Alpha2::AL => {
                proof {
                    reveal_strlit("AL");
                    assert("AL"@ =~= self.letters());
                }
                "AL"
            },
            Alpha2::DZ => {
                proof {
                    reveal_strlit("DZ");
                    assert("DZ"@ =~= self.letters());
                }
                "DZ"
            },
            Alpha2::AS => {
                proof {
                    reveal_strlit("AS");
                    assert("AS"@ =~= self.letters());
                }
                "AS"
            },
            Alpha2::AD => {
                proof {
                    reveal_strlit("AD");
                    assert("AD"@ =~= self.letters());
                }
                "AD"
            },
            Alpha2::AO => {
                proof {
                    reveal_strlit("AO");
                    assert("AO"@ =~= self.letters());
                }
                "AO"
            },
            Alpha2::AI => {
                proof {
                    reveal_strlit("AI");
                    assert("AI"@ =~= self.letters());
                }
                "AI"
            },
            Alpha2::AQ => {
                proof {
                    reveal_strlit("AQ");
                    assert("AQ"@ =~= self.letters());
                }
                "AQ"
            },
            Alpha2::AG => {
                proof {
                    reveal_strlit("AG");
                    assert("AG"@ =~= self.letters());
                }
                "AG"
            },
            Alpha2::AR => {
                proof {
                    reveal_strlit("AR");
                    assert("AR"@ =~= self.letters());
                }
                "AR"
            },
            Alpha2::AM => {
                proof {
                    reveal_strlit("AM");
                    assert("AM"@ =~= self.letters());
                }
                "AM"
            },
            Alpha2::AW => {
                proof {
                    reveal_strlit("AW");
                    assert("AW"@ =~= self.letters());
                }
                "AW"
            },
            Alpha2::AU => {
                proof {
                    reveal_strlit("AU");
                    assert("AU"@ =~= self.letters());
                }
                "AU"
            },
            Alpha2::AT => {
                proof {
                    reveal_strlit("AT");
                    assert("AT"@ =~= self.letters());
                }
                "AT"
            },
            Alpha2::AZ => {
                proof {
                    reveal_strlit("AZ");
                    assert("AZ"@ =~= self.letters());
                }
                "AZ"
            },
            Alpha2::BS => {
                proof {
                    reveal_strlit("BS");
                    assert("BS"@ =~= self.letters());
                }
                "BS"
            },
            Alpha2::BH => {
                proof {
                    reveal_strlit("BH");
                    assert("BH"@ =~= self.letters());
                }
                "BH"
            },
            Alpha2::BD => {
                proof {
                    reveal_strlit("BD");
                    assert("BD"@ =~= self.letters());
                }
                "BD"
            },
            Alpha2::BB => {
                proof {
                    reveal_strlit("BB");
                    assert("BB"@ =~= self.letters());
                }
                "BB"
            },
            Alpha2::BY => {
                proof {
                    reveal_strlit("BY");
                    assert("BY"@ =~= self.letters());
                }
                "BY"
            },
            Alpha2::BE => {
                proof {
                    reveal_strlit("BE");
                    assert("BE"@ =~= self.letters());
                }
                "BE"
            },
            Alpha2::BZ => {
                proof {
                    reveal_strlit("BZ");
                    assert("BZ"@ =~= self.letters());
                }
                "BZ"
            },
            Alpha2::BJ => {
                proof {
                    reveal_strlit("BJ");
                    assert("BJ"@ =~= self.letters());
                }
                "BJ"
            },
            Alpha2::BM => {
                proof {
                    reveal_strlit("BM");
                    assert("BM"@ =~= self.letters());
                }
                "BM"
            },
            Alpha2::BT => {
                proof {
                    reveal_strlit("BT");
                    assert("BT"@ =~= self.letters());
                }
                "BT"
            },
            Alpha2::BO => {
                proof {
                    reveal_strlit("BO");
                    assert("BO"@ =~= self.letters());
                }
                "BO"
            },
            Alpha2::BQ => {
                proof {
                    reveal_strlit("BQ");
                    assert("BQ"@ =~= self.letters());
                }
                "BQ"
            },
            Alpha2::BA => {
                proof {
                    reveal_strlit("BA");
                    assert("BA"@ =~= self.letters());
                }
                "BA"
            },
            Alpha2::BW => {
                proof {
                    reveal_strlit("BW");
                    assert("BW"@ =~= self.letters());
                }
                "BW"
            },
            Alpha2::BV => {
                proof {
                    reveal_strlit("BV");
                    assert("BV"@ =~= self.letters());
                }
                "BV"
            },
            Alpha2::BR => {
                proof {
                    reveal_strlit("BR");
                    assert("BR"@ =~= self.letters());
                }
                "BR"
            },
            Alpha2::IO => {
                proof {
                    reveal_strlit("IO");
                    assert("IO"@ =~= self.letters());
                }
                "IO"
            },
            Alpha2::BN => {
                proof {
                    reveal_strlit("BN");
                    assert("BN"@ =~= self.letters());
                }
                "BN"
            },
            Alpha2::BG => {
                proof {
                    reveal_strlit("BG");
                    assert("BG"@ =~= self.letters());
                }
                "BG"
            },
            Alpha2::BF => {
                proof {
                    reveal_strlit("BF");
                    assert("BF"@ =~= self.letters());
                }
                "BF"
            },
            Alpha2::BI => {
                proof {
                    reveal_strlit("BI");
                    assert("BI"@ =~= self.letters());
                }
                "BI"
            },
            Alpha2::CV => {
                proof {
                    reveal_strlit("CV");
                    assert("CV"@ =~= self.letters());
                }
                "CV"
            },
            Alpha2::KH => {
                proof {
                    reveal_strlit("KH");
                    assert("KH"@ =~= self.letters());
                }
                "KH"
            },
            Alpha2::CM => {
                proof {
                    reveal_strlit("CM");
                    assert("CM"@ =~= self.letters());
                }
                "CM"
            },
            Alpha2::CA => {
                proof {
                    reveal_strlit("CA");
                    assert("CA"@ =~= self.letters());
                }
                "CA"
            },
            Alpha2::KY => {
                proof {
                    reveal_strlit("KY");
                    assert("KY"@ =~= self.letters());
                }
                "KY"
            },
            Alpha2::CF => {
                proof {
                    reveal_strlit("CF");
                    assert("CF"@ =~= self.letters());
                }
                "CF"
            },
            Alpha2::TD => {
                proof {
                    reveal_strlit("TD");
                    assert("TD"@ =~= self.letters());
                }
                "TD"
            },
            Alpha2::CL => {
                proof {
                    reveal_strlit("CL");
                    assert("CL"@ =~= self.letters());
                }
                "CL"
            },
            Alpha2::CN => {
                proof {
                    reveal_strlit("CN");
                    assert("CN"@ =~= self.letters());
                }
                "CN"
            },
            Alpha2::CX => {
                proof {
                    reveal_strlit("CX");
                    assert("CX"@ =~= self.letters());
                }
                "CX"
            },
            Alpha2::CC => {
                proof {
                    reveal_strlit("CC");
                    assert("CC"@ =~= self.letters());
                }
                "CC"
            },
            Alpha2::CO => {
                proof {
                    reveal_strlit("CO");
                    assert("CO"@ =~= self.letters());
                }
                "CO"
            },
            Alpha2::KM => {
                proof {
                    reveal_strlit("KM");
                    assert("KM"@ =~= self.letters());
                }
                "KM"
            },
            Alpha2::CG => {
                proof {
                    reveal_strlit("CG");
                    assert("CG"@ =~= self.letters());
                }
                "CG"
            },
            Alpha2::CD => {
                proof {
                    reveal_strlit("CD");
                    assert("CD"@ =~= self.letters());
                }
                "CD"
            },
            Alpha2::CK => {
                proof {
                    reveal_strlit("CK");
                    assert("CK"@ =~= self.letters());
                }
                "CK"
            },
            Alpha2::CR => {
                proof {
                    reveal_strlit("CR");
                    assert("CR"@ =~= self.letters());
                }
                "CR"
            },
            Alpha2::CI => {
                proof {
                    reveal_strlit("CI");
                    assert("CI"@ =~= self.letters());
                }
                "CI"
            },
            Alpha2::HR => {
                proof {
                    reveal_strlit("HR");
                    assert("HR"@ =~= self.letters());
                }
                "HR"
            },
            Alpha2::CU => {
                proof {
                    reveal_strlit("CU");
                    assert("CU"@ =~= self.letters());
                }
                "CU"
            },
            Alpha2::CW => {
                proof {
                    reveal_strlit("CW");
                    assert("CW"@ =~= self.letters());
                }
                "CW"
            },
            Alpha2::CY => {
                proof {
                    reveal_strlit("CY");
                    assert("CY"@ =~= self.letters());
                }
                "CY"
            },
            Alpha2::CZ => {
                proof {
                    reveal_strlit("CZ");
                    assert("CZ"@ =~= self.letters());
                }
                "CZ"
            },
            Alpha2::DK => {
                proof {
                    reveal_strlit("DK");
                    assert("DK"@ =~= self.letters());
                }
                "DK"
            },
            Alpha2::DJ => {
                proof {
                    reveal_strlit("DJ");
                    assert("DJ"@ =~= self.letters());
                }
                "DJ"
            },
            Alpha2::DM => {
                proof {
                    reveal_strlit("DM");
                    assert("DM"@ =~= self.letters());
                }
                "DM"
            },
            Alpha2::DO => {
                proof {
                    reveal_strlit("DO");
                    assert("DO"@ =~= self.letters());
                }
                "DO"
            },
            Alpha2::EC => {
                proof {
                    reveal_strlit("EC");
                    assert("EC"@ =~= self.letters());
                }
                "EC"
            },
            Alpha2::EG => {
                proof {
                    reveal_strlit("EG");
                    assert("EG"@ =~= self.letters());
                }
                "EG"
            },
            Alpha2::SV => {
                proof {
                    reveal_strlit("SV");
                    assert("SV"@ =~= self.letters());
                }
                "SV"
            },
            Alpha2::GQ => {
                proof {
                    reveal_strlit("GQ");
                    assert("GQ"@ =~= self.letters());
                }
                "GQ"
            },
            Alpha2::ER => {
                proof {
                    reveal_strlit("ER");
                    assert("ER"@ =~= self.letters());
                }
                "ER"
            },
            Alpha2::EE => {
                proof {
                    reveal_strlit("EE");
                    assert("EE"@ =~= self.letters());
                }
                "EE"
            },
            Alpha2::SZ => {
                proof {
                    reveal_strlit("SZ");
                    assert("SZ"@ =~= self.letters());
                }
                "SZ"
            },
            Alpha2::ET => {
                proof {
                    reveal_strlit("ET");
                    assert("ET"@ =~= self.letters());
                }
                "ET"
            },
            Alpha2::FK => {
                proof {
                    reveal_strlit("FK");
                    assert("FK"@ =~= self.letters());
                }
                "FK"
            },
            Alpha2::FO => {
                proof {
                    reveal_strlit("FO");
                    assert("FO"@ =~= self.letters());
                }
                "FO"
            },
            Alpha2::FJ => {
                proof {
                    reveal_strlit("FJ");
                    assert("FJ"@ =~= self.letters());
                }
                "FJ"
            },
            Alpha2::FI => {
                proof {
                    reveal_strlit("FI");
                    assert("FI"@ =~= self.letters());
                }
                "FI"
            },
            Alpha2::FR => {
                proof {
                    reveal_strlit("FR");
                    assert("FR"@ =~= self.letters());
                }
                "FR"
            },
            Alpha2::GF => {
                proof {
                    reveal_strlit("GF");
                    assert("GF"@ =~= self.letters());
                }
                "GF"
            },
            Alpha2::PF => {
                proof {
                    reveal_strlit("PF");
                    assert("PF"@ =~= self.letters());
                }
                "PF"
            },
            Alpha2::TF => {
                proof {
                    reveal_strlit("TF");
                    assert("TF"@ =~= self.letters());
                }
                "TF"
            },
            Alpha2::GA => {
                proof {
                    reveal_strlit("GA");
                    assert("GA"@ =~= self.letters());
                }
                "GA"
            },
            Alpha2::GM => {
                proof {
                    reveal_strlit("GM");
                    assert("GM"@ =~= self.letters());
                }
                "GM"
            },
            Alpha2::GE => {
                proof {
                    reveal_strlit("GE");
                    assert("GE"@ =~= self.letters());
                }
                "GE"
            },
            Alpha2::DE => {
                proof {
                    reveal_strlit("DE");
                    assert("DE"@ =~= self.letters());
                }
                "DE"
            },
            Alpha2::GH => {
                proof {
                    reveal_strlit("GH");
                    assert("GH"@ =~= self.letters());
                }
                "GH"
            },
            Alpha2::GI => {
                proof {
                    reveal_strlit("GI");
                    assert("GI"@ =~= self.letters());
                }
                "GI"
            },
            Alpha2::GR => {
                proof {
                    reveal_strlit("GR");
                    assert("GR"@ =~= self.letters());
                }
                "GR"
            },
            Alpha2::GL => {
                proof {
                    reveal_strlit("GL");
                    assert("GL"@ =~= self.letters());
                }
                "GL"
            },
            Alpha2::GD => {
                proof {
                    reveal_strlit("GD");
                    assert("GD"@ =~= self.letters());
                }
                "GD"
            },
            Alpha2::GP => {
                proof {
                    reveal_strlit("GP");
                    assert("GP"@ =~= self.letters());
                }
                "GP"
            },
            Alpha2::GU => {
                proof {
                    reveal_strlit("GU");
                    assert("GU"@ =~= self.letters());
                }
                "GU"
            },
            Alpha2::GT => {
                proof {
                    reveal_strlit("GT");
                    assert("GT"@ =~= self.letters());
                }
                "GT"
            },
            Alpha2::GG => {
                proof {
                    reveal_strlit("GG");
                    assert("GG"@ =~= self.letters());
                }
                "GG"
            },
            Alpha2::GN => {
                proof {
                    reveal_strlit("GN");
                    assert("GN"@ =~= self.letters());
                }
                "GN"
            },
            Alpha2::GW => {
                proof {
                    reveal_strlit("GW");
                    assert("GW"@ =~= self.letters());
                }
                "GW"
            },
            Alpha2::GY => {
                proof {
                    reveal_strlit("GY");
                    assert("GY"@ =~= self.letters());
                }
                "GY"
            },
            Alpha2::HT => {
                proof {
                    reveal_strlit("HT");
                    assert("HT"@ =~= self.letters());
                }
                "HT"
            },
            Alpha2::HM => {
                proof {
                    reveal_strlit("HM");
                    assert("HM"@ =~= self.letters());
                }
                "HM"
            },
            Alpha2::VA => {
                proof {
                    reveal_strlit("VA");
                    assert("VA"@ =~= self.letters());
                }
                "VA"
            },
            Alpha2::HN => {
                proof {
                    reveal_strlit("HN");
                    assert("HN"@ =~= self.letters());
                }
                "HN"
            },
            Alpha2::HK => {
                proof {
                    reveal_strlit("HK");
                    assert("HK"@ =~= self.letters());
                }
                "HK"
            },
            Alpha2::HU => {
                proof {
                    reveal_strlit("HU");
                    assert("HU"@ =~= self.letters());
                }
                "HU"
            },
            Alpha2::IS => {
                proof {
                    reveal_strlit("IS");
                    assert("IS"@ =~= self.letters());
                }
                "IS"
            },
            Alpha2::IN => {
                proof {
                    reveal_strlit("IN");
                    assert("IN"@ =~= self.letters());
                }
                "IN"
            },
            Alpha2::ID => {
                proof {
                    reveal_strlit("ID");
                    assert("ID"@ =~= self.letters());
                }
                "ID"
            },
            Alpha2::IR => {
                proof {
                    reveal_strlit("IR");
                    assert("IR"@ =~= self.letters());
                }
                "IR"
            },
            Alpha2::IQ => {
                proof {
                    reveal_strlit("IQ");
                    assert("IQ"@ =~= self.letters());
                }
                "IQ"
            },
            Alpha2::IE => {
                proof {
                    reveal_strlit("IE");
                    assert("IE"@ =~= self.letters());
                }
                "IE"
            },
            Alpha2::IM => {
                proof {
                    reveal_strlit("IM");
                    assert("IM"@ =~= self.letters());
                }
                "IM"
            },
            Alpha2::IL => {
                proof {
                    reveal_strlit("IL");
                    assert("IL"@ =~= self.letters());
                }
                "IL"
            },
            Alpha2::IT => {
                proof {
                    reveal_strlit("IT");
                    assert("IT"@ =~= self.letters());
                }
                "IT"
            },
            Alpha2::JM => {
                proof {
                    reveal_strlit("JM");
                    assert("JM"@ =~= self.letters());
                }
                "JM"
            },
            Alpha2::JP => {
                proof {
                    reveal_strlit("JP");
                    assert("JP"@ =~= self.letters());
                }
                "JP"
            },
            Alpha2::JE => {
                proof {
                    reveal_strlit("JE");
                    assert("JE"@ =~= self.letters());
                }
                "JE"
            },
            Alpha2::JO => {
                proof {
                    reveal_strlit("JO");
                    assert("JO"@ =~= self.letters());
                }
                "JO"
            },
            Alpha2::KZ => {
                proof {
                    reveal_strlit("KZ");
                    assert("KZ"@ =~= self.letters());
                }
                "KZ"
            },
            Alpha2::KE => {
                proof {
                    reveal_strlit("KE");
                    assert("KE"@ =~= self.letters());
                }
                "KE"
            },
            Alpha2::KI => {
                proof {
                    reveal_strlit("KI");
                    assert("KI"@ =~= self.letters());
                }
                "KI"
            },
            Alpha2::KP => {
                proof {
                    reveal_strlit("KP");
                    assert("KP"@ =~= self.letters());
                }
                "KP"
            },
            Alpha2::KR => {
                proof {
                    reveal_strlit("KR");
                    assert("KR"@ =~= self.letters());
                }
                "KR"
            },
            Alpha2::KW => {
                proof {
                    reveal_strlit("KW");
                    assert("KW"@ =~= self.letters());
                }
                "KW"
            },
            Alpha2::KG => {
                proof {
                    reveal_strlit("KG");
                    assert("KG"@ =~= self.letters());
                }
                "KG"
            },
            Alpha2::LA => {
                proof {
                    reveal_strlit("LA");
                    assert("LA"@ =~= self.letters());
                }
                "LA"
            },
            Alpha2::LV => {
                proof {
                    reveal_strlit("LV");
                    assert("LV"@ =~= self.letters());
                }
                "LV"
            },
            Alpha2::LB => {
                proof {
                    reveal_strlit("LB");
                    assert("LB"@ =~= self.letters());
                }
                "LB"
            },
            Alpha2::LS => {
                proof {
                    reveal_strlit("LS");
                    assert("LS"@ =~= self.letters());
                }
                "LS"
            },
            Alpha2::LR => {
                proof {
                    reveal_strlit("LR");
                    assert("LR"@ =~= self.letters());
                }
                "LR"
            },
            Alpha2::LY => {
                proof {
                    reveal_strlit("LY");
                    assert("LY"@ =~= self.letters());
                }
                "LY"
            },
            Alpha2::LI => {
                proof {
                    reveal_strlit("LI");
                    assert("LI"@ =~= self.letters());
                }
                "LI"
            },
            Alpha2::LT => {
                proof {
                    reveal_strlit("LT");
                    assert("LT"@ =~= self.letters());
                }
                "LT"
            },
            Alpha2::LU => {
                proof {
                    reveal_strlit("LU");
                    assert("LU"@ =~= self.letters());
                }
                "LU"
            },
            Alpha2::MO => {
                proof {
                    reveal_strlit("MO");
                    assert("MO"@ =~= self.letters());
                }
                "MO"
            },
            Alpha2::MG => {
                proof {
                    reveal_strlit("MG");
                    assert("MG"@ =~= self.letters());
                }
                "MG"
            },
            Alpha2::MW => {
                proof {
                    reveal_strlit("MW");
                    assert("MW"@ =~= self.letters());
                }
                "MW"
            },
            Alpha2::MY => {
                proof {
                    reveal_strlit("MY");
                    assert("MY"@ =~= self.letters());
                }
                "MY"
            },
            Alpha2::MV => {
                proof {
                    reveal_strlit("MV");
                    assert("MV"@ =~= self.letters());
                }
                "MV"
            },
            Alpha2::ML => {
                proof {
                    reveal_strlit("ML");
                    assert("ML"@ =~= self.letters());
                }
                "ML"
            },
            Alpha2::MT => {
                proof {
                    reveal_strlit("MT");
                    assert("MT"@ =~= self.letters());
                }
                "MT"
            },
            Alpha2::MH => {
                proof {
                    reveal_strlit("MH");
                    assert("MH"@ =~= self.letters());
                }
                "MH"
            },
            Alpha2::MQ => {
                proof {
                    reveal_strlit("MQ");
                    assert("MQ"@ =~= self.letters());
                }
                "MQ"
            },
            Alpha2::MR => {
                proof {
                    reveal_strlit("MR");
                    assert("MR"@ =~= self.letters());
                }
                "MR"
            },
            Alpha2::MU => {
                proof {
                    reveal_strlit("MU");
                    assert("MU"@ =~= self.letters());
                }
                "MU"
            },
            Alpha2::YT => {
                proof {
                    reveal_strlit("YT");
                    assert("YT"@ =~= self.letters());
                }
                "YT"
            },
            Alpha2::MX => {
                proof {
                    reveal_strlit("MX");
                    assert("MX"@ =~= self.letters());
                }
                "MX"
            },
            Alpha2::FM => {
                proof {
                    reveal_strlit("FM");
                    assert("FM"@ =~= self.letters());
                }
                "FM"
            },
            Alpha2::MD => {
                proof {
                    reveal_strlit("MD");
                    assert("MD"@ =~= self.letters());
                }
                "MD"
            },
            Alpha2::MC => {
                proof {
                    reveal_strlit("MC");
                    assert("MC"@ =~= self.letters());
                }
                "MC"
            },
            Alpha2::MN => {
                proof {
                    reveal_strlit("MN");
                    assert("MN"@ =~= self.letters());
                }
                "MN"
            },
            Alpha2::ME => {
                proof {
                    reveal_strlit("ME");
                    assert("ME"@ =~= self.letters());
                }
                "ME"
            },
            Alpha2::MS => {
                proof {
                    reveal_strlit("MS");
                    assert("MS"@ =~= self.letters());
                }
                "MS"
            },
            Alpha2::MA => {
                proof {
                    reveal_strlit("MA");
                    assert("MA"@ =~= self.letters());
                }
                "MA"
            },
            Alpha2::MZ => {
                proof {
                    reveal_strlit("MZ");
                    assert("MZ"@ =~= self.letters());
                }
                "MZ"
            },
            Alpha2::MM => {
                proof {
                    reveal_strlit("MM");
                    assert("MM"@ =~= self.letters());
                }
                "MM"
            },
            Alpha2::NA => {
                proof {
                    reveal_strlit("NA");
                    assert("NA"@ =~= self.letters());
                }
                "NA"
            },
            Alpha2::NR => {
                proof {
                    reveal_strlit("NR");
                    assert("NR"@ =~= self.letters());
                }
                "NR"
            },
            Alpha2::NP => {
                proof {
                    reveal_strlit("NP");
                    assert("NP"@ =~= self.letters());
                }
                "NP"
            },
            Alpha2::NL => {
                proof {
                    reveal_strlit("NL");
                    assert("NL"@ =~= self.letters());
                }
                "NL"
            },
            Alpha2::NC => {
                proof {
                    reveal_strlit("NC");
                    assert("NC"@ =~= self.letters());
                }
                "NC"
            },
            Alpha2::NZ => {
                proof {
                    reveal_strlit("NZ");
                    assert("NZ"@ =~= self.letters());
                }
                "NZ"
            },
            Alpha2::NI => {
                proof {
                    reveal_strlit("NI");
                    assert("NI"@ =~= self.letters());
                }
                "NI"
            },
            Alpha2::NE => {
                proof {
                    reveal_strlit("NE");
                    assert("NE"@ =~= self.letters());
                }
                "NE"
            },
            Alpha2::NG => {
                proof {
                    reveal_strlit("NG");
                    assert("NG"@ =~= self.letters());
                }
                "NG"
            },
            Alpha2::NU => {
                proof {
                    reveal_strlit("NU");
                    assert("NU"@ =~= self.letters());
                }
                "NU"
            },
            Alpha2::NF => {
                proof {
                    reveal_strlit("NF");
                    assert("NF"@ =~= self.letters());
                }
                "NF"
            },
            Alpha2::MK => {
                proof {
                    reveal_strlit("MK");
                    assert("MK"@ =~= self.letters());
                }
                "MK"
            },
            Alpha2::MP => {
                proof {
                    reveal_strlit("MP");
                    assert("MP"@ =~= self.letters());
                }
                "MP"
            },
            Alpha2::NO => {
                proof {
                    reveal_strlit("NO");
                    assert("NO"@ =~= self.letters());
                }
                "NO"
            },
            Alpha2::OM => {
                proof {
                    reveal_strlit("OM");
                    assert("OM"@ =~= self.letters());
                }
                "OM"
            },
            Alpha2::PK => {
                proof {
                    reveal_strlit("PK");
                    assert("PK"@ =~= self.letters());
                }
                "PK"
            },
            Alpha2::PW => {
                proof {
                    reveal_strlit("PW");
                    assert("PW"@ =~= self.letters());
                }
                "PW"
            },
            Alpha2::PS => {
                proof {
                    reveal_strlit("PS");
                    assert("PS"@ =~= self.letters());
                }
                "PS"
            },
            Alpha2::PA => {
                proof {
                    reveal_strlit("PA");
                    assert("PA"@ =~= self.letters());
                }
                "PA"
            },
            Alpha2::PG => {
                proof {
                    reveal_strlit("PG");
                    assert("PG"@ =~= self.letters());
                }
                "PG"
            },
            Alpha2::PY => {
                proof {
                    reveal_strlit("PY");
                    assert("PY"@ =~= self.letters());
                }
                "PY"
            },
            Alpha2::PE => {
                proof {
                    reveal_strlit("PE");
                    assert("PE"@ =~= self.letters());
                }
                "PE"
            },
            Alpha2::PH => {
                proof {
                    reveal_strlit("PH");
                    assert("PH"@ =~= self.letters());
                }
                "PH"
            },
            Alpha2::PN => {
                proof {
                    reveal_strlit("PN");
                    assert("PN"@ =~= self.letters());
                }
                "PN"
            },
            Alpha2::PL => {
                proof {
                    reveal_strlit("PL");
                    assert("PL"@ =~= self.letters());
                }
                "PL"
            },
            Alpha2::PT => {
                proof {
                    reveal_strlit("PT");
                    assert("PT"@ =~= self.letters());
                }
                "PT"
            },
            Alpha2::PR => {
                proof {
                    reveal_strlit("PR");
                    assert("PR"@ =~= self.letters());
                }
                "PR"
            },
            Alpha2::QA => {
                proof {
                    reveal_strlit("QA");
                    assert("QA"@ =~= self.letters());
                }
                "QA"
            },
            Alpha2::RE => {
                proof {
                    reveal_strlit("RE");
                    assert("RE"@ =~= self.letters());
                }
                "RE"
            },
            Alpha2::RO => {
                proof {
                    reveal_strlit("RO");
                    assert("RO"@ =~= self.letters());
                }
                "RO"
            },
            Alpha2::RU => {
                proof {
                    reveal_strlit("RU");
                    assert("RU"@ =~= self.letters());
                }
                "RU"
            },
            Alpha2::RW => {
                proof {
                    reveal_strlit("RW");
                    assert("RW"@ =~= self.letters());
                }
                "RW"
            },
            Alpha2::BL => {
                proof {
                    reveal_strlit("BL");
                    assert("BL"@ =~= self.letters());
                }
                "BL"
            },
            Alpha2::SH => {
                proof {
                    reveal_strlit("SH");
                    assert("SH"@ =~= self.letters());
                }
                "SH"
            },
            Alpha2::KN => {
                proof {
                    reveal_strlit("KN");
                    assert("KN"@ =~= self.letters());
                }
                "KN"
            },
            Alpha2::LC => {
                proof {
                    reveal_strlit("LC");
                    assert("LC"@ =~= self.letters());
                }
                "LC"
            },
            Alpha2::MF => {
                proof {
                    reveal_strlit("MF");
                    assert("MF"@ =~= self.letters());
                }
                "MF"
            },
            Alpha2::PM => {
                proof {
                    reveal_strlit("PM");
                    assert("PM"@ =~= self.letters());
                }
                "PM"
            },
            Alpha2::VC => {
                proof {
                    reveal_strlit("VC");
                    assert("VC"@ =~= self.letters());
                }
                "VC"
            },
            Alpha2::WS => {
                proof {
                    reveal_strlit("WS");
                    assert("WS"@ =~= self.letters());
                }
                "WS"
            },
            Alpha2::SM => {
                proof {
                    reveal_strlit("SM");
                    assert("SM"@ =~= self.letters());
                }
                "SM"
            },
            Alpha2::ST => {
                proof {
                    reveal_strlit("ST");
                    assert("ST"@ =~= self.letters());
                }
                "ST"
            },
            Alpha2::SA => {
                proof {
                    reveal_strlit("SA");
                    assert("SA"@ =~= self.letters());
                }
                "SA"
            },
            Alpha2::SN => {
                proof {
                    reveal_strlit("SN");
                    assert("SN"@ =~= self.letters());
                }
                "SN"
            },
            Alpha2::RS => {
                proof {
                    reveal_strlit("RS");
                    assert("RS"@ =~= self.letters());
                }
                "RS"
            },
            Alpha2::SC => {
                proof {
                    reveal_strlit("SC");
                    assert("SC"@ =~= self.letters());
                }
                "SC"
            },
            Alpha2::SL => {
                proof {
                    reveal_strlit("SL");
                    assert("SL"@ =~= self.letters());
                }
                "SL"
            },
            Alpha2::SG => {
                proof {
                    reveal_strlit("SG");
                    assert("SG"@ =~= self.letters());
                }
                "SG"
            },
            Alpha2::SX => {
                proof {
                    reveal_strlit("SX");
                    assert("SX"@ =~= self.letters());
                }
                "SX"
            },
            Alpha2::SK => {
                proof {
                    reveal_strlit("SK");
                    assert("SK"@ =~= self.letters());
                }
                "SK"
            },
            Alpha2::SI => {
                proof {
                    reveal_strlit("SI");
                    assert("SI"@ =~= self.letters());
                }
                "SI"
            },
            Alpha2::SB => {
                proof {
                    reveal_strlit("SB");
                    assert("SB"@ =~= self.letters());
                }
                "SB"
            },
            Alpha2::SO => {
                proof {
                    reveal_strlit("SO");
                    assert("SO"@ =~= self.letters());
                }
                "SO"
            },
            Alpha2::ZA => {
                proof {
                    reveal_strlit("ZA");
                    assert("ZA"@ =~= self.letters());
                }
                "ZA"
            },
            Alpha2::GS => {
                proof {
                    reveal_strlit("GS");
                    assert("GS"@ =~= self.letters());
                }
                "GS"
            },
            Alpha2::SS => {
                proof {
                    reveal_strlit("SS");
                    assert("SS"@ =~= self.letters());
                }
                "SS"
            },
            Alpha2::ES => {
                proof {
                    reveal_strlit("ES");
                    assert("ES"@ =~= self.letters());
                }
                "ES"
            },
            Alpha2::LK => {
                proof {
                    reveal_strlit("LK");
                    assert("LK"@ =~= self.letters());
                }
                "LK"
            },
            Alpha2::SD => {
                proof {
                    reveal_strlit("SD");
                    assert("SD"@ =~= self.letters());
                }
                "SD"
            },
            Alpha2::SR => {
                proof {
                    reveal_strlit("SR");
                    assert("SR"@ =~= self.letters());
                }
                "SR"
            },
            Alpha2::SJ => {
                proof {
                    reveal_strlit("SJ");
                    assert("SJ"@ =~= self.letters());
                }
                "SJ"
            },
            Alpha2::SE => {
                proof {
                    reveal_strlit("SE");
                    assert("SE"@ =~= self.letters());
                }
                "SE"
            },
            Alpha2::CH => {
                proof {
                    reveal_strlit("CH");
                    assert("CH"@ =~= self.letters());
                }
                "CH"
            },
            Alpha2::SY => {
                proof {
                    reveal_strlit("SY");
                    assert("SY"@ =~= self.letters());
                }
                "SY"
            },
            Alpha2::TW => {
                proof {
                    reveal_strlit("TW");
                    assert("TW"@ =~= self.letters());
                }
                "TW"
            },
            Alpha2::TJ => {
                proof {
                    reveal_strlit("TJ");
                    assert("TJ"@ =~= self.letters());
                }
                "TJ"
            },
            Alpha2::TZ => {
                proof {
                    reveal_strlit("TZ");
                    assert("TZ"@ =~= self.letters());
                }
                "TZ"
            },
            Alpha2::TH => {
                proof {
                    reveal_strlit("TH");
                    assert("TH"@ =~= self.letters());
                }
                "TH"
            },
            Alpha2::TL => {
                proof {
                    reveal_strlit("TL");
                    assert("TL"@ =~= self.letters());
                }
                "TL"
            },
            Alpha2::TG => {
                proof {
                    reveal_strlit("TG");
                    assert("TG"@ =~= self.letters());
                }
                "TG"
            },
            Alpha2::TK => {
                proof {
                    reveal_strlit("TK");
                    assert("TK"@ =~= self.letters());
                }
                "TK"
            },
            Alpha2::TO => {
                proof {
                    reveal_strlit("TO");
                    assert("TO"@ =~= self.letters());
                }
                "TO"
            },
            Alpha2::TT => {
                proof {
                    reveal_strlit("TT");
                    assert("TT"@ =~= self.letters());
                }
                "TT"
            },
            Alpha2::TN => {
                proof {
                    reveal_strlit("TN");
                    assert("TN"@ =~= self.letters());
                }
                "TN"
            },
            Alpha2::TR => {
                proof {
                    reveal_strlit("TR");
                    assert("TR"@ =~= self.letters());
                }
                "TR"
            },
            Alpha2::TM => {
                proof {
                    reveal_strlit("TM");
                    assert("TM"@ =~= self.letters());
                }
                "TM"
            },
            Alpha2::TC => {
                proof {
                    reveal_strlit("TC");
                    assert("TC"@ =~= self.letters());
                }
                "TC"
            },
            Alpha2::TV => {
                proof {
                    reveal_strlit("TV");
                    assert("TV"@ =~= self.letters());
                }
                "TV"
            },
            Alpha2::UG => {
                proof {
                    reveal_strlit("UG");
                    assert("UG"@ =~= self.letters());
                }
                "UG"
            },
            Alpha2::UA => {
                proof {
                    reveal_strlit("UA");
                    assert("UA"@ =~= self.letters());
                }
                "UA"
            },
            Alpha2::AE => {
                proof {
                    reveal_strlit("AE");
                    assert("AE"@ =~= self.letters());
                }
                "AE"
            },
            Alpha2::GB => {
                proof {
                    reveal_strlit("GB");
                    assert("GB"@ =~= self.letters());
                }
                "GB"
            },
            Alpha2::US => {
                proof {
                    reveal_strlit("US");
                    assert("US"@ =~= self.letters());
                }
                "US"
            },
            Alpha2::UM => {
                proof {
                    reveal_strlit("UM");
                    assert("UM"@ =~= self.letters());
                }
                "UM"
            },
            Alpha2::UY => {
                proof {
                    reveal_strlit("UY");
                    assert("UY"@ =~= self.letters());
                }
                "UY"
            },
            Alpha2::UZ => {
                proof {
                    reveal_strlit("UZ");
                    assert("UZ"@ =~= self.letters());
                }
                "UZ"
            },
            Alpha2::VU => {
                proof {
                    reveal_strlit("VU");
                    assert("VU"@ =~= self.letters());
                }
                "VU"
            },
            Alpha2::VE => {
                proof {
                    reveal_strlit("VE");
                    assert("VE"@ =~= self.letters());
                }
                "VE"
            },
            Alpha2::VN => {
                proof {
                    reveal_strlit("VN");
                    assert("VN"@ =~= self.letters());
                }
                "VN"
            },
            Alpha2::VG => {
                proof {
                    reveal_strlit("VG");
                    assert("VG"@ =~= self.letters());
                }
                "VG"
            },
            Alpha2::VI => {
                proof {
                    reveal_strlit("VI");
                    assert("VI"@ =~= self.letters());
                }
                "VI"
            },
            Alpha2::WF => {
                proof {
                    reveal_strlit("WF");
                    assert("WF"@ =~= self.letters());
                }
                "WF"
            },
            Alpha2::EH => {
                proof {
                    reveal_strlit("EH");
                    assert("EH"@ =~= self.letters());
                }
                "EH"
            },
            Alpha2::YE => {
                proof {
                    reveal_strlit("YE");
                    assert("YE"@ =~= self.letters());
                }
                "YE"
            },
            Alpha2::ZM => {
                proof {
                    reveal_strlit("ZM");
                    assert("ZM"@ =~= self.letters());
                }
                "ZM"
            },
            Alpha2::ZW => {
                proof {
                    reveal_strlit("ZW");
                    assert("ZW"@ =~= self.letters());
                }
                "ZW"
            },
        }
    }

    /// The row of the definition table that holds this code.
    pub fn position(self) -> (r: usize)
        ensures
            r == self.index(),
    {
        match self {
            Alpha2::AF => 0,
            Alpha2::AX => 1,
            Alpha2::AL => 2,
            Alpha2::DZ => 3,
            Alpha2::AS => 4,
            Alpha2::AD => 5,
            Alpha2::AO => 6,
            Alpha2::AI => 7,
            Alpha2::AQ => 8,
            Alpha2::AG => 9,
            Alpha2::AR => 10,
            Alpha2::AM => 11,
            Alpha2::AW => 12,
            Alpha2::AU => 13,
            Alpha2::AT => 14,
            Alpha2::AZ => 15,
            Alpha2::BS => 16,
            Alpha2::BH => 17,
            Alpha2::BD => 18,
            Alpha2::BB => 19,
            Alpha2::BY => 20,
            Alpha2::BE => 21,
            Alpha2::BZ => 22,
            Alpha2::BJ => 23,
            Alpha2::BM => 24,
            Alpha2::BT => 25,
            Alpha2::BO => 26,
            Alpha2::BQ => 27,
            Alpha2::BA => 28,
            Alpha2::BW => 29,
            Alpha2::BV => 30,
            Alpha2::BR => 31,
            Alpha2::IO => 32,
            Alpha2::BN => 33,
            Alpha2::BG => 34,
            Alpha2::BF => 35,
            Alpha2::BI => 36,
            Alpha2::CV => 37,
            Alpha2::KH => 38,
            Alpha2::CM => 39,
            Alpha2::CA => 40,
            Alpha2::KY => 41,
            Alpha2::CF => 42,
            Alpha2::TD => 43,
            Alpha2::CL => 44,
            Alpha2::CN => 45,
            Alpha2::CX => 46,
            Alpha2::CC => 47,
            Alpha2::CO => 48,
            Alpha2::KM => 49,
            Alpha2::CG => 50,
            Alpha2::CD => 51,
            Alpha2::CK => 52,
            Alpha2::CR => 53,
            Alpha2::CI => 54,
            Alpha2::HR => 55,
            Alpha2::CU => 56,
            Alpha2::CW => 57,
            Alpha2::CY => 58,
            Alpha2::CZ => 59,
            Alpha2::DK => 60,
            Alpha2::DJ => 61,
            Alpha2::DM => 62,
            Alpha2::DO => 63,
            Alpha2::EC => 64,
            Alpha2::EG => 65,
            Alpha2::SV => 66,
            Alpha2::GQ => 67,
            Alpha2::ER => 68,
            Alpha2::EE => 69,
            Alpha2::SZ => 70,
            Alpha2::ET => 71,
            Alpha2::FK => 72,
            Alpha2::FO => 73,
            Alpha2::FJ => 74,
            Alpha2::FI => 75,
            Alpha2::FR => 76,
            Alpha2::GF => 77,
            Alpha2::PF => 78,
            Alpha2::TF => 79,
            Alpha2::GA => 80,
            Alpha2::GM => 81,
            Alpha2::GE => 82,
            Alpha2::DE => 83,
            Alpha2::GH => 84,
            Alpha2::GI => 85,
            Alpha2::GR => 86,
            Alpha2::GL => 87,
            Alpha2::GD => 88,
            Alpha2::GP => 89,
            Alpha2::GU => 90,
            Alpha2::GT => 91,
            Alpha2::GG => 92,
            Alpha2::GN => 93,
            Alpha2::GW => 94,
            Alpha2::GY => 95,
            Alpha2::HT => 96,
            Alpha2::HM => 97,
            Alpha2::VA => 98,
            Alpha2::HN => 99,
            Alpha2::HK => 100,
            Alpha2::HU => 101,
            Alpha2::IS => 102,
            Alpha2::IN => 103,
            Alpha2::ID => 104,
            Alpha2::IR => 105,
            Alpha2::IQ => 106,
            Alpha2::IE => 107,
            Alpha2::IM => 108,
            Alpha2::IL => 109,
            Alpha2::IT => 110,
            Alpha2::JM => 111,
            Alpha2::JP => 112,
            Alpha2::JE => 113,
            Alpha2::JO => 114,
            Alpha2::KZ => 115,
            Alpha2::KE => 116,
            Alpha2::KI => 117,
            Alpha2::KP => 118,
            Alpha2::KR => 119,
            Alpha2::KW => 120,
            Alpha2::KG => 121,
            Alpha2::LA => 122,
            Alpha2::LV => 123,
            Alpha2::LB => 124,
            Alpha2::LS => 125,
            Alpha2::LR => 126,
            Alpha2::LY => 127,
            Alpha2::LI => 128,
            Alpha2::LT => 129,
            Alpha2::LU => 130,
            Alpha2::MO => 131,
            Alpha2::MG => 132,
            Alpha2::MW => 133,
            Alpha2::MY => 134,
            Alpha2::MV => 135,
            Alpha2::ML => 136,
            Alpha2::MT => 137,
            Alpha2::MH => 138,
            Alpha2::MQ => 139,
            Alpha2::MR => 140,
            Alpha2::MU => 141,
            Alpha2::YT => 142,
            Alpha2::MX => 143,
            Alpha2::FM => 144,
            Alpha2::MD => 145,
            Alpha2::MC => 146,
            Alpha2::MN => 147,
            Alpha2::ME => 148,
            Alpha2::MS => 149,
            Alpha2::MA => 150,
            Alpha2::MZ => 151,
            Alpha2::MM => 152,
            Alpha2::NA => 153,
            Alpha2::NR => 154,
            Alpha2::NP => 155,
            Alpha2::NL => 156,
            Alpha2::NC => 157,
            Alpha2::NZ => 158,
            Alpha2::NI => 159,
            Alpha2::NE => 160,
            Alpha2::NG => 161,
            Alpha2::NU => 162,
            Alpha2::NF => 163,
            Alpha2::MK => 164,
            Alpha2::MP => 165,
            Alpha2::NO => 166,
            Alpha2::OM => 167,
            Alpha2::PK => 168,
            Alpha2::PW => 169,
            Alpha2::PS => 170,
            Alpha2::PA => 171,
            Alpha2::PG => 172,
            Alpha2::PY => 173,
            Alpha2::PE => 174,
            Alpha2::PH => 175,
            Alpha2::PN => 176,
            Alpha2::PL => 177,
            Alpha2::PT => 178,
            Alpha2::PR => 179,
            Alpha2::QA => 180,
            Alpha2::RE => 181,
            Alpha2::RO => 182,
            Alpha2::RU => 183,
            Alpha2::RW => 184,
            Alpha2::BL => 185,
            Alpha2::SH => 186,
            Alpha2::KN => 187,
            Alpha2::LC => 188,
            Alpha2::MF => 189,
            Alpha2::PM => 190,
            Alpha2::VC => 191,
            Alpha2::WS => 192,
            Alpha2::SM => 193,
            Alpha2::ST => 194,
            Alpha2::SA => 195,
            Alpha2::SN => 196,
            Alpha2::RS => 197,
            Alpha2::SC => 198,
            Alpha2::SL => 199,
            Alpha2::SG => 200,
            Alpha2::SX => 201,
            Alpha2::SK => 202,
            Alpha2::SI => 203,
            Alpha2::SB => 204,
            Alpha2::SO => 205,
            Alpha2::ZA => 206,
            Alpha2::GS => 207,
            Alpha2::SS => 208,
            Alpha2::ES => 209,
            Alpha2::LK => 210,
            Alpha2::SD => 211,
            Alpha2::SR => 212,
            Alpha2::SJ => 213,
            Alpha2::SE => 214,
            Alpha2::CH => 215,
            Alpha2::SY => 216,
            Alpha2::TW => 217,
            Alpha2::TJ => 218,
            Alpha2::TZ => 219,
            Alpha2::TH => 220,
            Alpha2::TL => 221,
            Alpha2::TG => 222,
            Alpha2::TK => 223,
            Alpha2::TO => 224,
            Alpha2::TT => 225,
            Alpha2::TN => 226,
            Alpha2::TR => 227,
            Alpha2::TM => 228,
            Alpha2::TC => 229,
            Alpha2::TV => 230,
            Alpha2::UG => 231,
            Alpha2::UA => 232,
            Alpha2::AE => 233,
            Alpha2::GB => 234,
            Alpha2::US => 235,
            Alpha2::UM => 236,
            Alpha2::UY => 237,
            Alpha2::UZ => 238,
            Alpha2::VU => 239,
            Alpha2::VE => 240,
            Alpha2::VN => 241,
            Alpha2::VG => 242,
            Alpha2::VI => 243,
            Alpha2::WF => 244,
            Alpha2::EH => 245,
            Alpha2::YE => 246,
            Alpha2::ZM => 247,
            Alpha2::ZW => 248,
        }
    }

    /// Reads a code from its canonical text: the exact upper-case letters, with
    /// nothing around them.
    pub fn from_text(s: &str) -> (r: Option<Alpha2>)
        ensures
            r == Self::parse_spec(s@),
    {
        let mut i: usize = 0;
        while i < COUNT
            invariant
                i <= COUNT,
                forall|k: usize| k < i ==> (#[trigger] entry(k)).alpha2.letters() != s@,
            decreases COUNT - i,
        {
            let code = definition(i).alpha2;
            if str_eq(code.as_str(), s) {
                proof {
                    code.lemma_parse_letters();
                }
                return Some(code);
            }
            i = i + 1;
        }
        proof {
            assert forall|a: Alpha2| a.letters() != s@ by {
                lemma_entry_of_alpha2(a);
            }
        }
        None
    }

    /// The canonical text of the code, as an owned string.
    pub fn to_string(self) -> (r: String)
        ensures
            r@ == self.letters(),
    {
        String::from_str(self.as_str())
    }
}

/// Three-letter ISO 3166 country code.
#[derive(Clone, Copy, Debug, PartialEq, Eq, Hash, Structural)]
pub enum Alpha3 {
    AFG,
    ALA,
    ALB,
    DZA,
    ASM,
    AND,
    AGO,
    AIA,
    ATA,
    ATG,
    ARG,
    ARM,
    ABW,
    AUS,
    AUT,
    AZE,
    BHS,
    BHR,
    BGD,
    BRB,
    BLR,
    BEL,
    BLZ,
    BEN,
    BMU,
    BTN,
    BOL,
    BES,
    BIH,
    BWA,
    BVT,
    BRA,
    IOT,
    BRN,
    BGR,
    BFA,
    BDI,
    CPV,
    KHM,
    CMR,
    CAN,
    CYM,
    CAF,
    TCD,
    CHL,
    CHN,
    CXR,
    CCK,
    COL,
    COM,
    COG,
    COD,
    COK,
    CRI,
    CIV,
    HRV,
    CUB,
    CUW,
    CYP,
    CZE,
    DNK,
    DJI,
    DMA,
    DOM,
    ECU,
    EGY,
    SLV,
    GNQ,
    ERI,
    EST,
    SWZ,
    ETH,
    FLK,
    FRO,
    FJI,
    FIN,
    FRA,
    GUF,
    PYF,
    ATF,
    GAB,
    GMB,
    GEO,
    DEU,
    GHA,
    GIB,
    GRC,
    GRL,
    GRD,
    GLP,
    GUM,
    GTM,
    GGY,
    GIN,
    GNB,
    GUY,
    HTI,
    HMD,
    VAT,
    HND,
    HKG,
    HUN,
    ISL,
    IND,
    IDN,
    IRN,
    IRQ,
    IRL,
    IMN,
    ISR,
    ITA,
    JAM,
    JPN,
    JEY,
    JOR,
    KAZ,
    KEN,
    KIR,
    PRK,
    KOR,
    KWT,
    KGZ,
    LAO,
    LVA,
    LBN,
    LSO,
    LBR,
    LBY,
    LIE,
    LTU,
    LUX,
    MAC,
    MDG,
    MWI,
    MYS,
    MDV,
    MLI,
    MLT,
    MHL,
    MTQ,
    MRT,
    MUS,
    MYT,
    MEX,
    FSM,
    MDA,
    MCO,
    MNG,
    MNE,
    MSR,
    MAR,
    MOZ,
    MMR,
    NAM,
    NRU,
    NPL,
    NLD,
    NCL,
    NZL,
    NIC,
    NER,
    NGA,
    NIU,
    NFK,
    MKD,
    MNP,
    NOR,
    OMN,
    PAK,
    PLW,
    PSE,
    PAN,
    PNG,
    PRY,
    PER,
    PHL,
    PCN,
    POL,
    PRT,
    PRI,
    QAT,
    REU,
    ROU,
    RUS,
    RWA,
    BLM,
    SHN,
    KNA,
    LCA,
    MAF,
    SPM,
    VCT,
    WSM,
    SMR,
    STP,
    SAU,
    SEN,
    SRB,
    SYC,
    SLE,
    SGP,
    SXM,
    SVK,
    SVN,
    SLB,
    SOM,
    ZAF,
    SGS,
    SSD,
    ESP,
    LKA,
    SDN,
    SUR,
    SJM,
    SWE,
    CHE,
    SYR,
    TWN,
    TJK,
    TZA,
    THA,
    TLS,
    TGO,
    TKL,
    TON,
    TTO,
    TUN,
    TUR,
    TKM,
    TCA,
    TUV,
    UGA,
    UKR,
    ARE,
    GBR,
    USA,
    UMI,
    URY,
    UZB,
    VUT,
    VEN,
    VNM,
    VGB,
    VIR,
    WLF,
    ESH,
    YEM,
    ZMB,
    ZWE,
}

impl Alpha3 {
    /// The letters of the code, as its canonical text spells them.
    pub open spec fn letters(self) -> Seq<char> {
        match self {
            Alpha3::AFG => seq!['A', 'F', 'G'],
            Alpha3::ALA => seq!['A', 'L', 'A'],
            Alpha3::ALB => seq!['A', 'L', 'B'],
            Alpha3::DZA => seq!['D', 'Z', 'A'],
            Alpha3::ASM => seq!['A', 'S', 'M'],
            Alpha3::AND => seq!['A', 'N', 'D'],
            Alpha3::AGO => seq!['A', 'G', 'O'],
            Alpha3::AIA => seq!['A', 'I', 'A'],
            Alpha3::ATA => seq!['A', 'T', 'A'],
            Alpha3::ATG => seq!['A', 'T', 'G'],
            Alpha3::ARG => seq!['A', 'R', 'G'],
            Alpha3::ARM => seq!['A', 'R', 'M'],
            Alpha3::ABW => seq!['A', 'B', 'W'],
            Alpha3::AUS => seq!['A', 'U', 'S'],
            Alpha3::AUT => seq!['A', 'U', 'T'],
            Alpha3::AZE => seq!['A', 'Z', 'E'],
            Alpha3::BHS => seq!['B', 'H', 'S'],
            Alpha3::BHR => seq!['B', 'H', 'R'],
            Alpha3::BGD => seq!['B', 'G', 'D'],
            Alpha3::BRB => seq!['B', 'R', 'B'],
            Alpha3::BLR => seq!['B', 'L', 'R'],
            Alpha3::BEL => seq!['B', 'E', 'L'],
            Alpha3::BLZ => seq!['B', 'L', 'Z'],
            Alpha3::BEN => seq!['B', 'E', 'N'],
            Alpha3::BMU => seq!['B', 'M', 'U'],
            Alpha3::BTN => seq!['B', 'T', 'N'],
            Alpha3::BOL => seq!['B', 'O', 'L'],
            Alpha3::BES => seq!['B', 'E', 'S'],
            Alpha3::BIH => seq!['B', 'I', 'H'],
            Alpha3::BWA => seq!['B', 'W', 'A'],
            Alpha3::BVT => seq!['B', 'V', 'T'],
            Alpha3::BRA => seq!['B', 'R', 'A'],
            Alpha3::IOT => seq!['I', 'O', 'T'],
            Alpha3::BRN => seq!['B', 'R', 'N'],
            Alpha3::BGR => seq!['B', 'G', 'R'],
            Alpha3::BFA => seq!['B', 'F', 'A'],
            Alpha3::BDI => seq!['B', 'D', 'I'],
            Alpha3::CPV => seq!['C', 'P', 'V'],
            Alpha3::KHM => seq!['K', 'H', 'M'],
            Alpha3::CMR => seq!['C', 'M', 'R'],
            Alpha3::CAN => seq!['C', 'A', 'N'],
            Alpha3::CYM => seq!['C', 'Y', 'M'],
            Alpha3::CAF => seq!['C', 'A', 'F'],
            Alpha3::TCD => seq!['T', 'C', 'D'],
            Alpha3::CHL => seq!['C', 'H', 'L'],
            Alpha3::CHN => seq!['C', 'H', 'N'],
            Alpha3::CXR => seq!['C', 'X', 'R'],
            Alpha3::CCK => seq!['C', 'C', 'K'],
            Alpha3::COL => seq!['C', 'O', 'L'],
            Alpha3::COM => seq!['C', 'O', 'M'],
            Alpha3::COG => seq!['C', 'O', 'G'],
            Alpha3::COD => seq!['C', 'O', 'D'],
            Alpha3::COK => seq!['C', 'O', 'K'],
            Alpha3::CRI => seq!['C', 'R', 'I'],
            Alpha3::CIV => seq!['C', 'I', 'V'],
            Alpha3::HRV => seq!['H', 'R', 'V'],
            Alpha3::CUB => seq!['C', 'U', 'B'],
            Alpha3::CUW => seq!['C', 'U', 'W'],
            Alpha3::CYP => seq!['C', 'Y', 'P'],
            Alpha3::CZE => seq!['C', 'Z', 'E'],
            Alpha3::DNK => seq!['D', 'N', 'K'],
            Alpha3::DJI => seq!['D', 'J', 'I'],
            Alpha3::DMA => seq!['D', 'M', 'A'],
            Alpha3::DOM => seq!['D', 'O', 'M'],
            Alpha3::ECU => seq!['E', 'C', 'U'],
            Alpha3::EGY => seq!['E', 'G', 'Y'],
            Alpha3::SLV => seq!['S', 'L', 'V'],
            Alpha3::GNQ => seq!['G', 'N', 'Q'],
            Alpha3::ERI => seq!['E', 'R', 'I'],
            Alpha3::EST => seq!['E', 'S', 'T'],
            Alpha3::SWZ => seq!['S', 'W', 'Z'],
            Alpha3::ETH => seq!['E', 'T', 'H'],
            Alpha3::FLK => seq!['F', 'L', 'K'],
            Alpha3::FRO => seq!['F', 'R', 'O'],
            Alpha3::FJI => seq!['F', 'J', 'I'],
            Alpha3::FIN => seq!['F', 'I', 'N'],
            Alpha3::FRA => seq!['F', 'R', 'A'],
            Alpha3::GUF => seq!['G', 'U', 'F'],
            Alpha3::PYF => seq!['P', 'Y', 'F'],
            Alpha3::ATF => seq!['A', 'T', 'F'],
            Alpha3::GAB => seq!['G', 'A', 'B'],
            Alpha3::GMB => seq!['G', 'M', 'B'],
            Alpha3::GEO => seq!['G', 'E', 'O'],
            Alpha3::DEU => seq!['D', 'E', 'U'],
            Alpha3::GHA => seq!['G', 'H', 'A'],
            Alpha3::GIB => seq!['G', 'I', 'B'],
            Alpha3::GRC => seq!['G', 'R', 'C'],
            Alpha3::GRL => seq!['G', 'R', 'L'],
            Alpha3::GRD => seq!['G', 'R', 'D'],
            Alpha3::GLP => seq!['G', 'L', 'P'],
            Alpha3::GUM => seq!['G', 'U', 'M'],
            Alpha3::GTM => seq!['G', 'T', 'M'],
            Alpha3::GGY => seq!['G', 'G', 'Y'],
            Alpha3::GIN => seq!['G', 'I', 'N'],
            Alpha3::GNB => seq!['G', 'N', 'B'],
            Alpha3::GUY => seq!['G', 'U', 'Y'],
            Alpha3::HTI => seq!['H', 'T', 'I'],
            Alpha3::HMD => seq!['H', 'M', 'D'],
            Alpha3::VAT => seq!['V', 'A', 'T'],
            Alpha3::HND => seq!['H', 'N', 'D'],
            Alpha3::HKG => seq!['H', 'K', 'G'],
            Alpha3::HUN => seq!['H', 'U', 'N'],
            Alpha3::ISL => seq!['I', 'S', 'L'],
            Alpha3::IND => seq!['I', 'N', 'D'],
            Alpha3::IDN => seq!['I', 'D', 'N'],
            Alpha3::IRN => seq!['I', 'R', 'N'],
            Alpha3::IRQ => seq!['I', 'R', 'Q'],
            Alpha3::IRL => seq!['I', 'R', 'L'],
            Alpha3::IMN => seq!['I', 'M', 'N'],
            Alpha3::ISR => seq!['I', 'S', 'R'],
            Alpha3::ITA => seq!['I', 'T', 'A'],
            Alpha3::JAM => seq!['J', 'A', 'M'],
            Alpha3::JPN => seq!['J', 'P', 'N'],
            Alpha3::JEY => seq!['J', 'E', 'Y'],
            Alpha3::JOR => seq!['J', 'O', 'R'],
            Alpha3::KAZ => seq!['K', 'A', 'Z'],
            Alpha3::KEN => seq!['K', 'E', 'N'],
            Alpha3::KIR => seq!['K', 'I', 'R'],
            Alpha3::PRK => seq!['P', 'R', 'K'],
            Alpha3::KOR => seq!['K', 'O', 'R'],
            Alpha3::KWT => seq!['K', 'W', 'T'],
            Alpha3::KGZ => seq!['K', 'G', 'Z'],
            Alpha3::LAO => seq!['L', 'A', 'O'],
            Alpha3::LVA => seq!['L', 'V', 'A'],
            Alpha3::LBN => seq!['L', 'B', 'N'],
            Alpha3::LSO => seq!['L', 'S', 'O'],
            Alpha3::LBR => seq!['L', 'B', 'R'],
            Alpha3::LBY => seq!['L', 'B', 'Y'],
            Alpha3::LIE => seq!['L', 'I', 'E'],
            Alpha3::LTU => seq!['L', 'T', 'U'],
            Alpha3::LUX => seq!['L', 'U', 'X'],
            Alpha3::MAC => seq!['M', 'A', 'C'],
            Alpha3::MDG => seq!['M', 'D', 'G'],
            Alpha3::MWI => seq!['M', 'W', 'I'],
            Alpha3::MYS => seq!['M', 'Y', 'S'],
            Alpha3::MDV => seq!['M', 'D', 'V'],
            Alpha3::MLI => seq!['M', 'L', 'I'],
            Alpha3::MLT => seq!['M', 'L', 'T'],
            Alpha3::MHL => seq!['M', 'H', 'L'],
            Alpha3::MTQ => seq!['M', 'T', 'Q'],
            Alpha3::MRT => seq!['M', 'R', 'T'],
            Alpha3::MUS => seq!['M', 'U', 'S'],
            Alpha3::MYT => seq!['M', 'Y', 'T'],
            Alpha3::MEX => seq!['M', 'E', 'X'],
            Alpha3::FSM => seq!['F', 'S', 'M'],
            Alpha3::MDA => seq!['M', 'D', 'A'],
            Alpha3::MCO => seq!['M', 'C', 'O'],
            Alpha3::MNG => seq!['M', 'N', 'G'],
            Alpha3::MNE => seq!['M', 'N', 'E'],
            Alpha3::MSR => seq!['M', 'S', 'R'],
            Alpha3::MAR => seq!['M', 'A', 'R'],
            Alpha3::MOZ => seq!['M', 'O', 'Z'],
            Alpha3::MMR => seq!['M', 'M', 'R'],
            Alpha3::NAM => seq!['N', 'A', 'M'],
            Alpha3::NRU => seq!['N', 'R', 'U'],
            Alpha3::NPL => seq!['N', 'P', 'L'],
            Alpha3::NLD => seq!['N', 'L', 'D'],
            Alpha3::NCL => seq!['N', 'C', 'L'],
            Alpha3::NZL => seq!['N', 'Z', 'L'],
            Alpha3::NIC => seq!['N', 'I', 'C'],
            Alpha3::NER => seq!['N', 'E', 'R'],
            Alpha3::NGA => seq!['N', 'G', 'A'],
            Alpha3::NIU => seq!['N', 'I', 'U'],
            Alpha3::NFK => seq!['N', 'F', 'K'],
            Alpha3::MKD => seq!['M', 'K', 'D'],
            Alpha3::MNP => seq!['M', 'N', 'P'],
            Alpha3::NOR => seq!['N', 'O', 'R'],
            Alpha3::OMN => seq!['O', 'M', 'N'],
            Alpha3::PAK => seq!['P', 'A', 'K'],
            Alpha3::PLW => seq!['P', 'L', 'W'],
            Alpha3::PSE => seq!['P', 'S', 'E'],
            Alpha3::PAN => seq!['P', 'A', 'N'],
            Alpha3::PNG => seq!['P', 'N', 'G'],
            Alpha3::PRY => seq!['P', 'R', 'Y'],
            Alpha3::PER => seq!['P', 'E', 'R'],
            Alpha3::PHL => seq!['P', 'H', 'L'],
            Alpha3::PCN => seq!['P', 'C', 'N'],
            Alpha3::POL => seq!['P', 'O', 'L'],
            Alpha3::PRT => seq!['P', 'R', 'T'],
            Alpha3::PRI => seq!['P', 'R', 'I'],
            Alpha3::QAT => seq!['Q', 'A', 'T'],
            Alpha3::REU => seq!['R', 'E', 'U'],
            Alpha3::ROU => seq!['R', 'O', 'U'],
            Alpha3::RUS => seq!['R', 'U', 'S'],
            Alpha3::RWA => seq!['R', 'W', 'A'],
            Alpha3::BLM => seq!['B', 'L', 'M'],
            Alpha3::SHN => seq!['S', 'H', 'N'],
            Alpha3::KNA => seq!['K', 'N', 'A'],
            Alpha3::LCA => seq!['L', 'C', 'A'],
            Alpha3::MAF => seq!['M', 'A', 'F'],
            Alpha3::SPM => seq!['S', 'P', 'M'],
            Alpha3::VCT => seq!['V', 'C', 'T'],
            Alpha3::WSM => seq!['W', 'S', 'M'],
            Alpha3::SMR => seq!['S', 'M', 'R'],
            Alpha3::STP => seq!['S', 'T', 'P'],
            Alpha3::SAU => seq!['S', 'A', 'U'],
            Alpha3::SEN => seq!['S', 'E', 'N'],
            Alpha3::SRB => seq!['S', 'R', 'B'],
            Alpha3::SYC => seq!['S', 'Y', 'C'],
            Alpha3::SLE => seq!['S', 'L', 'E'],
            Alpha3::SGP => seq!['S', 'G', 'P'],
            Alpha3::SXM => seq!['S', 'X', 'M'],
            Alpha3::SVK => seq!['S', 'V', 'K'],
            Alpha3::SVN => seq!['S', 'V', 'N'],
            Alpha3::SLB => seq!['S', 'L', 'B'],
            Alpha3::SOM => seq!['S', 'O', 'M'],
            Alpha3::ZAF => seq!['Z', 'A', 'F'],
            Alpha3::SGS => seq!['S', 'G', 'S'],
            Alpha3::SSD => seq!['S', 'S', 'D'],
            Alpha3::ESP => seq!['E', 'S', 'P'],
            Alpha3::LKA => seq!['L', 'K', 'A'],
            Alpha3::SDN => seq!['S', 'D', 'N'],
            Alpha3::SUR => seq!['S', 'U', 'R'],
            Alpha3::SJM => seq!['S', 'J', 'M'],
            Alpha3::SWE => seq!['S', 'W', 'E'],
            Alpha3::CHE => seq!['C', 'H', 'E'],
            Alpha3::SYR => seq!['S', 'Y', 'R'],
            Alpha3::TWN => seq!['T', 'W', 'N'],
            Alpha3::TJK => seq!['T', 'J', 'K'],
            Alpha3::TZA => seq!['T', 'Z', 'A'],
            Alpha3::THA => seq!['T', 'H', 'A'],
            Alpha3::TLS => seq!['T', 'L', 'S'],
            Alpha3::TGO => seq!['T', 'G', 'O'],
            Alpha3::TKL => seq!['T', 'K', 'L'],
            Alpha3::TON => seq!['T', 'O', 'N'],
            Alpha3::TTO => seq!['T', 'T', 'O'],
            Alpha3::TUN => seq!['T', 'U', 'N'],
            Alpha3::TUR => seq!['T', 'U', 'R'],
            Alpha3::TKM => seq!['T', 'K', 'M'],
            Alpha3::TCA => seq!['T', 'C', 'A'],
            Alpha3::TUV => seq!['T', 'U', 'V'],
            Alpha3::UGA => seq!['U', 'G', 'A'],
            Alpha3::UKR => seq!['U', 'K', 'R'],
            Alpha3::ARE => seq!['A', 'R', 'E'],
            Alpha3::GBR => seq!['G', 'B', 'R'],
            Alpha3::USA => seq!['U', 'S', 'A'],
            Alpha3::UMI => seq!['U', 'M', 'I'],
            Alpha3::URY => seq!['U', 'R', 'Y'],
            Alpha3::UZB => seq!['U', 'Z', 'B'],
            Alpha3::VUT => seq!['V', 'U', 'T'],
            Alpha3::VEN => seq!['V', 'E', 'N'],
            Alpha3::VNM => seq!['V', 'N', 'M'],
            Alpha3::VGB => seq!['V', 'G', 'B'],
            Alpha3::VIR => seq!['V', 'I', 'R'],
            Alpha3::WLF => seq!['W', 'L', 'F'],
            Alpha3::ESH => seq!['E', 'S', 'H'],
            Alpha3::YEM => seq!['Y', 'E', 'M'],
            Alpha3::ZMB => seq!['Z', 'M', 'B'],
            Alpha3::ZWE => seq!['Z', 'W', 'E'],
        }
    }

    /// The code spelled by the given letters, if there is one.
    pub open spec fn from_letters(c0: char, c1: char, c2: char) -> Option<Alpha3> {
        match c0 {
            'A' => match (c1, c2) {
                ('B', 'W') => Some(Alpha3::ABW),
                ('F', 'G') => Some(Alpha3::AFG),
                ('G', 'O') => Some(Alpha3::AGO),
                ('I', 'A') => Some(Alpha3::AIA),
                ('L', 'A') => Some(Alpha3::ALA),
                ('L', 'B') => Some(Alpha3::ALB),
                ('N', 'D') => Some(Alpha3::AND),
                ('R', 'E') => Some(Alpha3::ARE),
                ('R', 'G') => Some(Alpha3::ARG),
                ('R', 'M') => Some(Alpha3::ARM),
                ('S', 'M') => Some(Alpha3::ASM),
                ('T', 'A') => Some(Alpha3::ATA),
                ('T', 'F') => Some(Alpha3::ATF),
                ('T', 'G') => Some(Alpha3::ATG),
                ('U', 'S') => Some(Alpha3::AUS),
                ('U', 'T') => Some(Alpha3::AUT),
                ('Z', 'E') => Some(Alpha3::AZE),
                _ => None,
            },
            'B' => match (c1, c2) {
                ('D', 'I') => Some(Alpha3::BDI),
                ('E', 'L') => Some(Alpha3::BEL),
                ('E', 'N') => Some(Alpha3::BEN),
                ('E', 'S') => Some(Alpha3::BES),
                ('F', 'A') => Some(Alpha3::BFA),
                ('G', 'D') => Some(Alpha3::BGD),
                ('G', 'R') => Some(Alpha3::BGR),
                ('H', 'R') => Some(Alpha3::BHR),
                ('H', 'S') => Some(Alpha3::BHS),
                ('I', 'H') => Some(Alpha3::BIH),
                ('L', 'M') => Some(Alpha3::BLM),
                ('L', 'R') => Some(Alpha3::BLR),
                ('L', 'Z') => Some(Alpha3::BLZ),
                ('M', 'U') => Some(Alpha3::BMU),
                ('O', 'L') => Some(Alpha3::BOL),
                ('R', 'A') => Some(Alpha3::BRA),
                ('R', 'B') => Some(Alpha3::BRB),
                ('R', 'N') => Some(Alpha3::BRN),
                ('T', 'N') => Some(Alpha3::BTN),
                ('V', 'T') => Some(Alpha3::BVT),
                ('W', 'A') => Some(Alpha3::BWA),
                _ => None,
            },
            'C' => match (c1, c2) {
                ('A', 'F') => Some(Alpha3::CAF),
                ('A', 'N') => Some(Alpha3::CAN),
                ('C', 'K') => Some(Alpha3::CCK),
                ('H', 'E') => Some(Alpha3::CHE),
                ('H', 'L') => Some(Alpha3::CHL),
                ('H', 'N') => Some(Alpha3::CHN),
                ('I', 'V') => Some(Alpha3::CIV),
                ('M', 'R') => Some(Alpha3::CMR),
                ('O', 'D') => Some(Alpha3::COD),
                ('O', 'G') => Some(Alpha3::COG),
                ('O', 'K') => Some(Alpha3::COK),
                ('O', 'L') => Some(Alpha3::COL),
                ('O', 'M') => Some(Alpha3::COM),
                ('P', 'V') => Some(Alpha3::CPV),
                ('R', 'I') => Some(Alpha3::CRI),
                ('U', 'B') => Some(Alpha3::CUB),
                ('U', 'W') => Some(Alpha3::CUW),
                ('X', 'R') => Some(Alpha3::CXR),
                ('Y', 'M') => Some(Alpha3::CYM),
                ('Y', 'P') => Some(Alpha3::CYP),
                ('Z', 'E') => Some(Alpha3::CZE),
                _ => None,
            },
            'D' => match (c1, c2) {
                ('E', 'U') => Some(Alpha3::DEU),
                ('J', 'I') => Some(Alpha3::DJI),
                ('M', 'A') => Some(Alpha3::DMA),
                ('N', 'K') => Some(Alpha3::DNK),
                ('O', 'M') => Some(Alpha3::DOM),
                ('Z', 'A') => Some(Alpha3::DZA),
                _ => None,
            },
            'E' => match (c1, c2) {
                ('C', 'U') => Some(Alpha3::ECU),
                ('G', 'Y') => Some(Alpha3::EGY),
                ('R', 'I') => Some(Alpha3::ERI),
                ('S', 'H') => Some(Alpha3::ESH),
                ('S', 'P') => Some(Alpha3::ESP),
                ('S', 'T') => Some(Alpha3::EST),
                ('T', 'H') => Some(Alpha3::ETH),
                _ => None,
            },
            'F' => match (c1, c2) {
                ('I', 'N') => Some(Alpha3::FIN),
                ('J', 'I') => Some(Alpha3::FJI),
                ('L', 'K') => Some(Alpha3::FLK),
                ('R', 'A') => Some(Alpha3::FRA),
                ('R', 'O') => Some(Alpha3::FRO),
                ('S', 'M') => Some(Alpha3::FSM),
                _ => None,
            },
            'G' => match (c1, c2) {
                ('A', 'B') => Some(Alpha3::GAB),
                ('B', 'R') => Some(Alpha3::GBR),
                ('E', 'O') => Some(Alpha3::GEO),
                ('G', 'Y') => Some(Alpha3::GGY),
                ('H', 'A') => Some(Alpha3::GHA),
                ('I', 'B') => Some(Alpha3::GIB),
                ('I', 'N') => Some(Alpha3::GIN),
                ('L', 'P') => Some(Alpha3::GLP),
                ('M', 'B') => Some(Alpha3::GMB),
                ('N', 'B') => Some(Alpha3::GNB),
                ('N', 'Q') => Some(Alpha3::GNQ),
                ('R', 'C') => Some(Alpha3::GRC),
                ('R', 'D') => Some(Alpha3::GRD),
                ('R', 'L') => Some(Alpha3::GRL),
                ('T', 'M') => Some(Alpha3::GTM),
                ('U', 'F') => Some(Alpha3::GUF),
                ('U', 'M') => Some(Alpha3::GUM),
                ('U', 'Y') => Some(Alpha3::GUY),
                _ => None,
            },
            'H' => match (c1, c2) {
                ('K', 'G') => Some(Alpha3::HKG),
                ('M', 'D') => Some(Alpha3::HMD),
                ('N', 'D') => Some(Alpha3::HND),
                ('R', 'V') => Some(Alpha3::HRV),
                ('T', 'I') => Some(Alpha3::HTI),
                ('U', 'N') => Some(Alpha3::HUN),
                _ => None,
            },
            'I' => match (c1, c2) {
                ('D', 'N') => Some(Alpha3::IDN),
                ('M', 'N') => Some(Alpha3::IMN),
                ('N', 'D') => Some(Alpha3::IND),
                ('O', 'T') => Some(Alpha3::IOT),
                ('R', 'L') => Some(Alpha3::IRL),
                ('R', 'N') => Some(Alpha3::IRN),
                ('R', 'Q') => Some(Alpha3::IRQ),
                ('S', 'L') => Some(Alpha3::ISL),
                ('S', 'R') => Some(Alpha3::ISR),
                ('T', 'A') => Some(Alpha3::ITA),
                _ => None,
            },
            'J' => match (c1, c2) {
                ('A', 'M') => Some(Alpha3::JAM),
                ('E', 'Y') => Some(Alpha3::JEY),
                ('O', 'R') => Some(Alpha3::JOR),
                ('P', 'N') => Some(Alpha3::JPN),
                _ => None,
            },
            'K' => match (c1, c2) {
                ('A', 'Z') => Some(Alpha3::KAZ),
                ('E', 'N') => Some(Alpha3::KEN),
                ('G', 'Z') => Some(Alpha3::KGZ),
                ('H', 'M') => Some(Alpha3::KHM),
                ('I', 'R') => Some(Alpha3::KIR),
                ('N', 'A') => Some(Alpha3::KNA),
                ('O', 'R') => Some(Alpha3::KOR),
                ('W', 'T') => Some(Alpha3::KWT),
                _ => None,
            },
            'L' => match (c1, c2) {
                ('A', 'O') => Some(Alpha3::LAO),
                ('B', 'N') => Some(Alpha3::LBN),
                ('B', 'R') => Some(Alpha3::LBR),
                ('B', 'Y') => Some(Alpha3::LBY),
                ('C', 'A') => Some(Alpha3::LCA),
                ('I', 'E') => Some(Alpha3::LIE),
                ('K', 'A') => Some(Alpha3::LKA),
                ('S', 'O') => Some(Alpha3::LSO),
                ('T', 'U') => Some(Alpha3::LTU),
                ('U', 'X') => Some(Alpha3::LUX),
                ('V', 'A') => Some(Alpha3::LVA),
                _ => None,
            },
            'M' => match (c1, c2) {
                ('A', 'C') => Some(Alpha3::MAC),
                ('A', 'F') => Some(Alpha3::MAF),
                ('A', 'R') => Some(Alpha3::MAR),
                ('C', 'O') => Some(Alpha3::MCO),
                ('D', 'A') => Some(Alpha3::MDA),
                ('D', 'G') => Some(Alpha3::MDG),
                ('D', 'V') => Some(Alpha3::MDV),
                ('E', 'X') => Some(Alpha3::MEX),
                ('H', 'L') => Some(Alpha3::MHL),
                ('K', 'D') => Some(Alpha3::MKD),
                ('L', 'I') => Some(Alpha3::MLI),
                ('L', 'T') => Some(Alpha3::MLT),
                ('M', 'R') => Some(Alpha3::MMR),
                ('N', 'E') => Some(Alpha3::MNE),
                ('N', 'G') => Some(Alpha3::MNG),
                ('N', 'P') => Some(Alpha3::MNP),
                ('O', 'Z') => Some(Alpha3::MOZ),
                ('R', 'T') => Some(Alpha3::MRT),
                ('S', 'R') => Some(Alpha3::MSR),
                ('T', 'Q') => Some(Alpha3::MTQ),
                ('U', 'S') => Some(Alpha3::MUS),
                ('W', 'I') => Some(Alpha3::MWI),
                ('Y', 'S') => Some(Alpha3::MYS),
                ('Y', 'T') => Some(Alpha3::MYT),
                _ => None,
            },
            'N' => match (c1, c2) {
                ('A', 'M') => Some(Alpha3::NAM),
                ('C', 'L') => Some(Alpha3::NCL),
                ('E', 'R') => Some(Alpha3::NER),
                ('F', 'K') => Some(Alpha3::NFK),
                ('G', 'A') => Some(Alpha3::NGA),
                ('I', 'C') => Some(Alpha3::NIC),
                ('I', 'U') => Some(Alpha3::NIU),
                ('L', 'D') => Some(Alpha3::NLD),
                ('O', 'R') => Some(Alpha3::NOR),
                ('P', 'L') => Some(Alpha3::NPL),
                ('R', 'U') => Some(Alpha3::NRU),
                ('Z', 'L') => Some(Alpha3::NZL),
                _ => None,
            },
            'O' => match (c1, c2) {
                ('M', 'N') => Some(Alpha3::OMN),
                _ => None,
            },
            'P' => match (c1, c2) {
                ('A', 'K') => Some(Alpha3::PAK),
                ('A', 'N') => Some(Alpha3::PAN),
                ('C', 'N') => Some(Alpha3::PCN),
                ('E', 'R') => Some(Alpha3::PER),
                ('H', 'L') => Some(Alpha3::PHL),
                ('L', 'W') => Some(Alpha3::PLW),
                ('N', 'G') => Some(Alpha3::PNG),
                ('O', 'L') => Some(Alpha3::POL),
                ('R', 'I') => Some(Alpha3::PRI),
                ('R', 'K') => Some(Alpha3::PRK),
                ('R', 'T') => Some(Alpha3::PRT),
                ('R', 'Y') => Some(Alpha3::PRY),
                ('S', 'E') => Some(Alpha3::PSE),
                ('Y', 'F') => Some(Alpha3::PYF),
                _ => None,
            },
            'Q' => match (c1, c2) {
                ('A', 'T') => Some(Alpha3::QAT),
                _ => None,
            },
            'R' => match (c1, c2) {
                ('E', 'U') => Some(Alpha3::REU),
                ('O', 'U') => Some(Alpha3::ROU),
                ('U', 'S') => Some(Alpha3::RUS),
                ('W', 'A') => Some(Alpha3::RWA),
                _ => None,
            },
            'S' => match (c1, c2) {
                ('A', 'U') => Some(Alpha3::SAU),
                ('D', 'N') => Some(Alpha3::SDN),
                ('E', 'N') => Some(Alpha3::SEN),
                ('G', 'P') => Some(Alpha3::SGP),
                ('G', 'S') => Some(Alpha3::SGS),
                ('H', 'N') => Some(Alpha3::SHN),
                ('J', 'M') => Some(Alpha3::SJM),
                ('L', 'B') => Some(Alpha3::SLB),
                ('L', 'E') => Some(Alpha3::SLE),
                ('L', 'V') => Some(Alpha3::SLV),
                ('M', 'R') => Some(Alpha3::SMR),
                ('O', 'M') => Some(Alpha3::SOM),
                ('P', 'M') => Some(Alpha3::SPM),
                ('R', 'B') => Some(Alpha3::SRB),
                ('S', 'D') => Some(Alpha3::SSD),
                ('T', 'P') => Some(Alpha3::STP),
                ('U', 'R') => Some(Alpha3::SUR),
                ('V', 'K') => Some(Alpha3::SVK),
                ('V', 'N') => Some(Alpha3::SVN),
                ('W', 'E') => Some(Alpha3::SWE),
                ('W', 'Z') => Some(Alpha3::SWZ),
                ('X', 'M') => Some(Alpha3::SXM),
                ('Y', 'C') => Some(Alpha3::SYC),
                ('Y', 'R') => Some(Alpha3::SYR),
                _ => None,
            },
            'T' => match (c1, c2) {
                ('C', 'A') => Some(Alpha3::TCA),
                ('C', 'D') => Some(Alpha3::TCD),
                ('G', 'O') => Some(Alpha3::TGO),
                ('H', 'A') => Some(Alpha3::THA),
                ('J', 'K') => Some(Alpha3::TJK),
                ('K', 'L') => Some(Alpha3::TKL),
                ('K', 'M') => Some(Alpha3::TKM),
                ('L', 'S') => Some(Alpha3::TLS),
                ('O', 'N') => Some(Alpha3::TON),
                ('T', 'O') => Some(Alpha3::TTO),
                ('U', 'N') => Some(Alpha3::TUN),
                ('U', 'R') => Some(Alpha3::TUR),
                ('U', 'V') => Some(Alpha3::TUV),
                ('W', 'N') => Some(Alpha3::TWN),
                ('Z', 'A') => Some(Alpha3::TZA),
                _ => None,
            },
            'U' => match (c1, c2) {
                ('G', 'A') => Some(Alpha3::UGA),
                ('K', 'R') => Some(Alpha3::UKR),
                ('M', 'I') => Some(Alpha3::UMI),
                ('R', 'Y') => Some(Alpha3::URY),
                ('S', 'A') => Some(Alpha3::USA),
                ('Z', 'B') => Some(Alpha3::UZB),
                _ => None,
            },
            'V' => match (c1, c2) {
                ('A', 'T') => Some(Alpha3::VAT),
                ('C', 'T') => Some(Alpha3::VCT),
                ('E', 'N') => Some(Alpha3::VEN),
                ('G', 'B') => Some(Alpha3::VGB),
                ('I', 'R') => Some(Alpha3::VIR),
                ('N', 'M') => Some(Alpha3::VNM),
                ('U', 'T') => Some(Alpha3::VUT),
                _ => None,
            },
            'W' => match (c1, c2) {
                ('L', 'F') => Some(Alpha3::WLF),
                ('S', 'M') => Some(Alpha3::WSM),
                _ => None,
            },
            'Y' => match (c1, c2) {
                ('E', 'M') => Some(Alpha3::YEM),
                _ => None,
            },
            'Z' => match (c1, c2) {
                ('A', 'F') => Some(Alpha3::ZAF),
                ('M', 'B') => Some(Alpha3::ZMB),
                ('W', 'E') => Some(Alpha3::ZWE),
                _ => None,
            },
            _ => None,
        }
    }

    /// The code whose canonical text is exactly `s`, if there is one.
    pub open spec fn parse_spec(s: Seq<char>) -> Option<Alpha3> {
        if exists|a: Alpha3| a.letters() == s {
            Some(choose|a: Alpha3| a.letters() == s)
        } else {
            None
        }
    }

    /// The row of the definition table that holds this code.
    pub open spec fn index(self) -> usize {
        match self {
            Alpha3::AFG => 0,
            Alpha3::ALA => 1,
            Alpha3::ALB => 2,
            Alpha3::DZA => 3,
            Alpha3::ASM => 4,
            Alpha3::AND => 5,
            Alpha3::AGO => 6,
            Alpha3::AIA => 7,
            Alpha3::ATA => 8,
            Alpha3::ATG => 9,
            Alpha3::ARG => 10,
            Alpha3::ARM => 11,
            Alpha3::ABW => 12,
            Alpha3::AUS => 13,
            Alpha3::AUT => 14,
            Alpha3::AZE => 15,
            Alpha3::BHS => 16,
            Alpha3::BHR => 17,
            Alpha3::BGD => 18,
            Alpha3::BRB => 19,
            Alpha3::BLR => 20,
            Alpha3::BEL => 21,
            Alpha3::BLZ => 22,
            Alpha3::BEN => 23,
            Alpha3::BMU => 24,
            Alpha3::BTN => 25,
            Alpha3::BOL => 26,
            Alpha3::BES => 27,
            Alpha3::BIH => 28,
            Alpha3::BWA => 29,
            Alpha3::BVT => 30,
            Alpha3::BRA => 31,
            Alpha3::IOT => 32,
            Alpha3::BRN => 33,
            Alpha3::BGR => 34,
            Alpha3::BFA => 35,
            Alpha3::BDI => 36,
            Alpha3::CPV => 37,
            Alpha3::KHM => 38,
            Alpha3::CMR => 39,
            Alpha3::CAN => 40,
            Alpha3::CYM => 41,
            Alpha3::CAF => 42,
            Alpha3::TCD => 43,
            Alpha3::CHL => 44,
            Alpha3::CHN => 45,
            Alpha3::CXR => 46,
            Alpha3::CCK => 47,
            Alpha3::COL => 48,
            Alpha3::COM => 49,
            Alpha3::COG => 50,
            Alpha3::COD => 51,
            Alpha3::COK => 52,
            Alpha3::CRI => 53,
            Alpha3::CIV => 54,
            Alpha3::HRV => 55,
            Alpha3::CUB => 56,
            Alpha3::CUW => 57,
            Alpha3::CYP => 58,
            Alpha3::CZE => 59,
            Alpha3::DNK => 60,
            Alpha3::DJI => 61,
            Alpha3::DMA => 62,
            Alpha3::DOM => 63,
            Alpha3::ECU => 64,
            Alpha3::EGY => 65,
            Alpha3::SLV => 66,
            Alpha3::GNQ => 67,
            Alpha3::ERI => 68,
            Alpha3::EST => 69,
            Alpha3::SWZ => 70,
            Alpha3::ETH => 71,
            Alpha3::FLK => 72,
            Alpha3::FRO => 73,
            Alpha3::FJI => 74,
            Alpha3::FIN => 75,
            Alpha3::FRA => 76,
            Alpha3::GUF => 77,
            Alpha3::PYF => 78,
            Alpha3::ATF => 79,
            Alpha3::GAB => 80,
            Alpha3::GMB => 81,
            Alpha3::GEO => 82,
            Alpha3::DEU => 83,
            Alpha3::GHA => 84,
            Alpha3::GIB => 85,
            Alpha3::GRC => 86,
            Alpha3::GRL => 87,
            Alpha3::GRD => 88,
            Alpha3::GLP => 89,
            Alpha3::GUM => 90,
            Alpha3::GTM => 91,
            Alpha3::GGY => 92,
            Alpha3::GIN => 93,
            Alpha3::GNB => 94,
            Alpha3::GUY => 95,
            Alpha3::HTI => 96,
            Alpha3::HMD => 97,
            Alpha3::VAT => 98,
            Alpha3::HND => 99,
            Alpha3::HKG => 100,
            Alpha3::HUN => 101,
            Alpha3::ISL => 102,
            Alpha3::IND => 103,
            Alpha3::IDN => 104,
            Alpha3::IRN => 105,
            Alpha3::IRQ => 106,
            Alpha3::IRL => 107,
            Alpha3::IMN => 108,
            Alpha3::ISR => 109,
            Alpha3::ITA => 110,
            Alpha3::JAM => 111,
            Alpha3::JPN => 112,
            Alpha3::JEY => 113,
            Alpha3::JOR => 114,
            Alpha3::KAZ => 115,
            Alpha3::KEN => 116,
            Alpha3::KIR => 117,
            Alpha3::PRK => 118,
            Alpha3::KOR => 119,
            Alpha3::KWT => 120,
            Alpha3::KGZ => 121,
            Alpha3::LAO => 122,
            Alpha3::LVA => 123,
            Alpha3::LBN => 124,
            Alpha3::LSO => 125,
            Alpha3::LBR => 126,
            Alpha3::LBY => 127,
            Alpha3::LIE => 128,
            Alpha3::LTU => 129,
            Alpha3::LUX => 130,
            Alpha3::MAC => 131,
            Alpha3::MDG => 132,
            Alpha3::MWI => 133,
            Alpha3::MYS => 134,
            Alpha3::MDV => 135,
            Alpha3::MLI => 136,
            Alpha3::MLT => 137,
            Alpha3::MHL => 138,
            Alpha3::MTQ => 139,
            Alpha3::MRT => 140,
            Alpha3::MUS => 141,
            Alpha3::MYT => 142,
            Alpha3::MEX => 143,
            Alpha3::FSM => 144,
            Alpha3::MDA => 145,
            Alpha3::MCO => 146,
            Alpha3::MNG => 147,
            Alpha3::MNE => 148,
            Alpha3::MSR => 149,
            Alpha3::MAR => 150,
            Alpha3::MOZ => 151,
            Alpha3::MMR => 152,
            Alpha3::NAM => 153,
            Alpha3::NRU => 154,
            Alpha3::NPL => 155,
            Alpha3::NLD => 156,
            Alpha3::NCL => 157,
            Alpha3::NZL => 158,
            Alpha3::NIC => 159,
            Alpha3::NER => 160,
            Alpha3::NGA => 161,
            Alpha3::NIU => 162,
            Alpha3::NFK => 163,
            Alpha3::MKD => 164,
            Alpha3::MNP => 165,
            Alpha3::NOR => 166,
            Alpha3::OMN => 167,
            Alpha3::PAK => 168,
            Alpha3::PLW => 169,
            Alpha3::PSE => 170,
            Alpha3::PAN => 171,
            Alpha3::PNG => 172,
            Alpha3::PRY => 173,
            Alpha3::PER => 174,
            Alpha3::PHL => 175,
            Alpha3::PCN => 176,
            Alpha3::POL => 177,
            Alpha3::PRT => 178,
            Alpha3::PRI => 179,
            Alpha3::QAT => 180,
            Alpha3::REU => 181,
            Alpha3::ROU => 182,
            Alpha3::RUS => 183,
            Alpha3::RWA => 184,
            Alpha3::BLM => 185,
            Alpha3::SHN => 186,
            Alpha3::KNA => 187,
            Alpha3::LCA => 188,
            Alpha3::MAF => 189,
            Alpha3::SPM => 190,
            Alpha3::VCT => 191,
            Alpha3::WSM => 192,
            Alpha3::SMR => 193,
            Alpha3::STP => 194,
            Alpha3::SAU => 195,
            Alpha3::SEN => 196,
            Alpha3::SRB => 197,
            Alpha3::SYC => 198,
            Alpha3::SLE => 199,
            Alpha3::SGP => 200,
            Alpha3::SXM => 201,
            Alpha3::SVK => 202,
            Alpha3::SVN => 203,
            Alpha3::SLB => 204,
            Alpha3::SOM => 205,
            Alpha3::ZAF => 206,
            Alpha3::SGS => 207,
            Alpha3::SSD => 208,
            Alpha3::ESP => 209,
            Alpha3::LKA => 210,
            Alpha3::SDN => 211,
            Alpha3::SUR => 212,
            Alpha3::SJM => 213,
            Alpha3::SWE => 214,
            Alpha3::CHE => 215,
            Alpha3::SYR => 216,
            Alpha3::TWN => 217,
            Alpha3::TJK => 218,
            Alpha3::TZA => 219,
            Alpha3::THA => 220,
            Alpha3::TLS => 221,
            Alpha3::TGO => 222,
            Alpha3::TKL => 223,
            Alpha3::TON => 224,
            Alpha3::TTO => 225,
            Alpha3::TUN => 226,
            Alpha3::TUR => 227,
            Alpha3::TKM => 228,
            Alpha3::TCA => 229,
            Alpha3::TUV => 230,
            Alpha3::UGA => 231,
            Alpha3::UKR => 232,
            Alpha3::ARE => 233,
            Alpha3::GBR => 234,
            Alpha3::USA => 235,
            Alpha3::UMI => 236,
            Alpha3::URY => 237,
            Alpha3::UZB => 238,
            Alpha3::VUT => 239,
            Alpha3::VEN => 240,
            Alpha3::VNM => 241,
            Alpha3::VGB => 242,
            Alpha3::VIR => 243,
            Alpha3::WLF => 244,
            Alpha3::ESH => 245,
            Alpha3::YEM => 246,
            Alpha3::ZMB => 247,
            Alpha3::ZWE => 248,
        }
    }

    /// The letters of a code have the code's width, and spell that code alone.
    pub proof fn lemma_letters_determine(self)
        ensures
            self.letters().len() == 3,
            Self::from_letters(self.letters()[0], self.letters()[1], self.letters()[2]) == Some(self),
    {
        match self {
            Alpha3::AFG => {},
            Alpha3::ALA => {},
            Alpha3::ALB => {},
            Alpha3::DZA => {},
            Alpha3::ASM => {},
            Alpha3::AND => {},
            Alpha3::AGO => {},
            Alpha3::AIA => {},
            Alpha3::ATA => {},
            Alpha3::ATG => {},
            Alpha3::ARG => {},
            Alpha3::ARM => {},
            Alpha3::ABW => {},
            Alpha3::AUS => {},
            Alpha3::AUT => {},
            Alpha3::AZE => {},
            Alpha3::BHS => {},
            Alpha3::BHR => {},
            Alpha3::BGD => {},
            Alpha3::BRB => {},
            Alpha3::BLR => {},
            Alpha3::BEL => {},
            Alpha3::BLZ => {},
            Alpha3::BEN => {},
            Alpha3::BMU => {},
            Alpha3::BTN => {},
            Alpha3::BOL => {},
            Alpha3::BES => {},
            Alpha3::BIH => {},
            Alpha3::BWA => {},
            Alpha3::BVT => {},
            Alpha3::BRA => {},
            Alpha3::IOT => {},
            Alpha3::BRN => {},
            Alpha3::BGR => {},
            Alpha3::BFA => {},
            Alpha3::BDI => {},
            Alpha3::CPV => {},
            Alpha3::KHM => {},
            Alpha3::CMR => {},
            Alpha3::CAN => {},
            Alpha3::CYM => {},
            Alpha3::CAF => {},
            Alpha3::TCD => {},
            Alpha3::CHL => {},
            Alpha3::CHN => {},
            Alpha3::CXR => {},
            Alpha3::CCK => {},
            Alpha3::COL => {},
            Alpha3::COM => {},
            Alpha3::COG => {},
            Alpha3::COD => {},
            Alpha3::COK => {},
            Alpha3::CRI => {},
            Alpha3::CIV => {},
            Alpha3::HRV => {},
            Alpha3::CUB => {},
            Alpha3::CUW => {},
            Alpha3::CYP => {},
            Alpha3::CZE => {},
            Alpha3::DNK => {},
            Alpha3::DJI => {},
            Alpha3::DMA => {},
            Alpha3::DOM => {},
            Alpha3::ECU => {},
            Alpha3::EGY => {},
            Alpha3::SLV => {},
            Alpha3::GNQ => {},
            Alpha3::ERI => {},
            Alpha3::EST => {},
            Alpha3::SWZ => {},
            Alpha3::ETH => {},
            Alpha3::FLK => {},
            Alpha3::FRO => {},
            Alpha3::FJI => {},
            Alpha3::FIN => {},
            Alpha3::FRA => {},
            Alpha3::GUF => {},
            Alpha3::PYF => {},
            Alpha3::ATF => {},
            Alpha3::GAB => {},
            Alpha3::GMB => {},
            Alpha3::GEO => {},
            Alpha3::DEU => {},
            Alpha3::GHA => {},
            Alpha3::GIB => {},
            Alpha3::GRC => {},
            Alpha3::GRL => {},
            Alpha3::GRD => {},
            Alpha3::GLP => {},
            Alpha3::GUM => {},
            Alpha3::GTM => {},
            Alpha3::GGY => {},
            Alpha3::GIN => {},
            Alpha3::GNB => {},
            Alpha3::GUY => {},
            Alpha3::HTI => {},
            Alpha3::HMD => {},
            Alpha3::VAT => {},
            Alpha3::HND => {},
            Alpha3::HKG => {},
            Alpha3::HUN => {},
            Alpha3::ISL => {},
            Alpha3::IND => {},
            Alpha3::IDN => {},
            Alpha3::IRN => {},
            Alpha3::IRQ => {},
            Alpha3::IRL => {},
            Alpha3::IMN => {},
            Alpha3::ISR => {},
            Alpha3::ITA => {},
            Alpha3::JAM => {},
            Alpha3::JPN => {},
            Alpha3::JEY => {},
            Alpha3::JOR => {},
            Alpha3::KAZ => {},
            Alpha3::KEN => {},
            Alpha3::KIR => {},
            Alpha3::PRK => {},
            Alpha3::KOR => {},
            Alpha3::KWT => {},
            Alpha3::KGZ => {},
            Alpha3::LAO => {},
            Alpha3::LVA => {},
            Alpha3::LBN => {},
            Alpha3::LSO => {},
            Alpha3::LBR => {},
            Alpha3::LBY => {},
            Alpha3::LIE => {},
            Alpha3::LTU => {},
            Alpha3::LUX => {},
            Alpha3::MAC => {},
            Alpha3::MDG => {},
            Alpha3::MWI => {},
            Alpha3::MYS => {},
            Alpha3::MDV => {},
            Alpha3::MLI => {},
            Alpha3::MLT => {},
            Alpha3::MHL => {},
            Alpha3::MTQ => {},
            Alpha3::MRT => {},
            Alpha3::MUS => {},
            Alpha3::MYT => {},
            Alpha3::MEX => {},
            Alpha3::FSM => {},
            Alpha3::MDA => {},
            Alpha3::MCO => {},
            Alpha3::MNG => {},
            Alpha3::MNE => {},
            Alpha3::MSR => {},
            Alpha3::MAR => {},
            Alpha3::MOZ => {},
            Alpha3::MMR => {},
            Alpha3::NAM => {},
            Alpha3::NRU => {},
            Alpha3::NPL => {},
            Alpha3::NLD => {},
            Alpha3::NCL => {},
            Alpha3::NZL => {},
            Alpha3::NIC => {},
            Alpha3::NER => {},
            Alpha3::NGA => {},
            Alpha3::NIU => {},
            Alpha3::NFK => {},
            Alpha3::MKD => {},
            Alpha3::MNP => {},
            Alpha3::NOR => {},
            Alpha3::OMN => {},
            Alpha3::PAK => {},
            Alpha3::PLW => {},
            Alpha3::PSE => {},
            Alpha3::PAN => {},
            Alpha3::PNG => {},
            Alpha3::PRY => {},
            Alpha3::PER => {},
            Alpha3::PHL => {},
            Alpha3::PCN => {},
            Alpha3::POL => {},
            Alpha3::PRT => {},
            Alpha3::PRI => {},
            Alpha3::QAT => {},
            Alpha3::REU => {},
            Alpha3::ROU => {},
            Alpha3::RUS => {},
            Alpha3::RWA => {},
            Alpha3::BLM => {},
            Alpha3::SHN => {},
            Alpha3::KNA => {},
            Alpha3::LCA => {},
            Alpha3::MAF => {},
            Alpha3::SPM => {},
            Alpha3::VCT => {},
            Alpha3::WSM => {},
            Alpha3::SMR => {},
            Alpha3::STP => {},
            Alpha3::SAU => {},
            Alpha3::SEN => {},
            Alpha3::SRB => {},
            Alpha3::SYC => {},
            Alpha3::SLE => {},
            Alpha3::SGP => {},
            Alpha3::SXM => {},
            Alpha3::SVK => {},
            Alpha3::SVN => {},
            Alpha3::SLB => {},
            Alpha3::SOM => {},
            Alpha3::ZAF => {},
            Alpha3::SGS => {},
            Alpha3::SSD => {},
            Alpha3::ESP => {},
            Alpha3::LKA => {},
            Alpha3::SDN => {},
            Alpha3::SUR => {},
            Alpha3::SJM => {},
            Alpha3::SWE => {},
            Alpha3::CHE => {},
            Alpha3::SYR => {},
            Alpha3::TWN => {},
            Alpha3::TJK => {},
            Alpha3::TZA => {},
            Alpha3::THA => {},
            Alpha3::TLS => {},
            Alpha3::TGO => {},
            Alpha3::TKL => {},
            Alpha3::TON => {},
            Alpha3::TTO => {},
            Alpha3::TUN => {},
            Alpha3::TUR => {},
            Alpha3::TKM => {},
            Alpha3::TCA => {},
            Alpha3::TUV => {},
            Alpha3::UGA => {},
            Alpha3::UKR => {},
            Alpha3::ARE => {},
            Alpha3::GBR => {},
            Alpha3::USA => {},
            Alpha3::UMI => {},
            Alpha3::URY => {},
            Alpha3::UZB => {},
            Alpha3::VUT => {},
            Alpha3::VEN => {},
            Alpha3::VNM => {},
            Alpha3::VGB => {},
            Alpha3::VIR => {},
            Alpha3::WLF => {},
            Alpha3::ESH => {},
            Alpha3::YEM => {},
            Alpha3::ZMB => {},
            Alpha3::ZWE => {},
        }
    }

    /// No two codes share their letters.
    pub proof fn lemma_letters_injective(self, other: Alpha3)
        requires
            self.letters() == other.letters(),
        ensures
            self == other,
    {
        self.lemma_letters_determine();
        other.lemma_letters_determine();
    }

    /// Every code reads back from its own letters.
    pub proof fn lemma_parse_letters(self)
        ensures
            Self::parse_spec(self.letters()) == Some(self),
    {
        let a = choose|a: Alpha3| a.letters() == self.letters();
        a.lemma_letters_injective(self);
    }

    /// The canonical text of the code.
    pub fn as_str(self) -> (r: &'static str)
        ensures
            r@ == self.letters(),
    {
        match self {
            Alpha3::AFG => {
                proof {
                    reveal_strlit("AFG");
                    assert("AFG"@ =~= self.letters());
                }
                "AFG"
            },
            Alpha3::ALA => {
                proof {
                    reveal_strlit("ALA");
                    assert("ALA"@ =~= self.letters());
                }
                "ALA"
            },
            Alpha3::ALB => {
                proof {
                    reveal_strlit("ALB");
                    assert("ALB"@ =~= self.letters());
                }
                "ALB"
            },
            Alpha3::DZA => {
                proof {
                    reveal_strlit("DZA");
                    assert("DZA"@ =~= self.letters());
                }
                "DZA"
            },
            Alpha3::ASM => {
                proof {
                    reveal_strlit("ASM");
                    assert("ASM"@ =~= self.letters());
                }
                "ASM"
            },
            Alpha3::AND => {
                proof {
                    reveal_strlit("AND");
                    assert("AND"@ =~= self.letters());
                }
                "AND"
            },
            Alpha3::AGO => {
                proof {
                    reveal_strlit("AGO");
                    assert("AGO"@ =~= self.letters());
                }
                "AGO"
            },
            Alpha3::AIA => {
                proof {
                    reveal_strlit("AIA");
                    assert("AIA"@ =~= self.letters());
                }
                "AIA"
            },
            Alpha3::ATA => {
                proof {
                    reveal_strlit("ATA");
                    assert("ATA"@ =~= self.letters());
                }
                "ATA"
            },
            Alpha3::ATG => {
                proof {
                    reveal_strlit("ATG");
                    assert("ATG"@ =~= self.letters());
                }
                "ATG"
            },
            Alpha3::ARG => {
                proof {
                    reveal_strlit("ARG");
                    assert("ARG"@ =~= self.letters());
                }
                "ARG"
            },
            Alpha3::ARM => {
                proof {
                    reveal_strlit("ARM");
                    assert("ARM"@ =~= self.letters());
                }
                "ARM"
            },
            Alpha3::ABW => {
                proof {
                    reveal_strlit("ABW");
                    assert("ABW"@ =~= self.letters());
                }
                "ABW"
            },
            Alpha3::AUS => {
                proof {
                    reveal_strlit("AUS");
                    assert("AUS"@ =~= self.letters());
                }
                "AUS"
            },
            Alpha3::AUT => {
                proof {
                    reveal_strlit("AUT");
                    assert("AUT"@ =~= self.letters());
                }
                "AUT"
            },
            Alpha3::AZE => {
                proof {
                    reveal_strlit("AZE");
                    assert("AZE"@ =~= self.letters());
                }
                "AZE"
            },
            Alpha3::BHS => {
                proof {
                    reveal_strlit("BHS");
                    assert("BHS"@ =~= self.letters());
                }
                "BHS"
            },
            Alpha3::BHR => {
                proof {
                    reveal_strlit("BHR");
                    assert("BHR"@ =~= self.letters());
                }
                "BHR"
            },
            Alpha3::BGD => {
                proof {
                    reveal_strlit("BGD");
                    assert("BGD"@ =~= self.letters());
                }
                "BGD"
            },
            Alpha3::BRB => {
                proof {
                    reveal_strlit("BRB");
                    assert("BRB"@ =~= self.letters());
                }
                "BRB"
            },
            Alpha3::BLR => {
                proof {
                    reveal_strlit("BLR");
                    assert("BLR"@ =~= self.letters());
                }
                "BLR"
            },
            Alpha3::BEL => {
                proof {
                    reveal_strlit("BEL");
                    assert("BEL"@ =~= self.letters());
                }
                "BEL"
            },
            Alpha3::BLZ => {
                proof {
                    reveal_strlit("BLZ");
                    assert("BLZ"@ =~= self.letters());
                }
                "BLZ"
            },
            Alpha3::BEN => {
                proof {
                    reveal_strlit("BEN");
                    assert("BEN"@ =~= self.letters());
                }
                "BEN"
            },
            Alpha3::BMU => {
                proof {
                    reveal_strlit("BMU");
                    assert("BMU"@ =~= self.letters());
                }
                "BMU"
            },
            Alpha3::BTN => {
                proof {
                    reveal_strlit("BTN");
                    assert("BTN"@ =~= self.letters());
                }
                "BTN"
            },
            Alpha3::BOL => {
                proof {
                    reveal_strlit("BOL");
                    assert("BOL"@ =~= self.letters());
                }
                "BOL"
            },
            Alpha3::BES => {
                proof {
                    reveal_strlit("BES");
                    assert("BES"@ =~= self.letters());
                }
                "BES"
            },
            Alpha3::BIH => {
                proof {
                    reveal_strlit("BIH");
                    assert("BIH"@ =~= self.letters());
                }
                "BIH"
            },
            Alpha3::BWA => {
                proof {
                    reveal_strlit("BWA");
                    assert("BWA"@ =~= self.letters());
                }
                "BWA"
            },
            Alpha3::BVT => {
                proof {
                    reveal_strlit("BVT");
                    assert("BVT"@ =~= self.letters());
                }
                "BVT"
            },
            Alpha3::BRA => {
                proof {
                    reveal_strlit("BRA");
                    assert("BRA"@ =~= self.letters());
                }
                "BRA"
            },
            Alpha3::IOT => {
                proof {
                    reveal_strlit("IOT");
                    assert("IOT"@ =~= self.letters());
                }
                "IOT"
            },
            Alpha3::BRN => {
                proof {
                    reveal_strlit("BRN");
                    assert("BRN"@ =~= self.letters());
                }
                "BRN"
            },
            Alpha3::BGR => {
                proof {
                    reveal_strlit("BGR");
                    assert("BGR"@ =~= self.letters());
                }
                "BGR"
            },
            Alpha3::BFA => {
                proof {
                    reveal_strlit("BFA");
                    assert("BFA"@ =~= self.letters());
                }
                "BFA"
            },
            Alpha3::BDI => {
                proof {
                    reveal_strlit("BDI");
                    assert("BDI"@ =~= self.letters());
                }
                "BDI"
            },
            Alpha3::CPV => {
                proof {
                    reveal_strlit("CPV");
                    assert("CPV"@ =~= self.letters());
                }
                "CPV"
            },
            Alpha3::KHM => {
                proof {
                    reveal_strlit("KHM");
                    assert("KHM"@ =~= self.letters());
                }
                "KHM"
            },
            Alpha3::CMR => {
                proof {
                    reveal_strlit("CMR");
                    assert("CMR"@ =~= self.letters());
                }
                "CMR"
            },
            Alpha3::CAN => {
                proof {
                    reveal_strlit("CAN");
                    assert("CAN"@ =~= self.letters());
                }
                "CAN"
            },
            Alpha3::CYM => {
                proof {
                    reveal_strlit("CYM");
                    assert("CYM"@ =~= self.letters());
                }
                "CYM"
            },
            Alpha3::CAF => {
                proof {
                    reveal_strlit("CAF");
                    assert("CAF"@ =~= self.letters());
                }
                "CAF"
            },
            Alpha3::TCD => {
                proof {
                    reveal_strlit("TCD");
                    assert("TCD"@ =~= self.letters());
                }
                "TCD"
            },
            Alpha3::CHL => {
                proof {
                    reveal_strlit("CHL");
                    assert("CHL"@ =~= self.letters());
                }
                "CHL"
            },
            Alpha3::CHN => {
                proof {
                    reveal_strlit("CHN");
                    assert("CHN"@ =~= self.letters());
                }
                "CHN"
            },
            Alpha3::CXR => {
                proof {
                    reveal_strlit("CXR");
                    assert("CXR"@ =~= self.letters());
                }
                "CXR"
            },
            Alpha3::CCK => {
                proof {
                    reveal_strlit("CCK");
                    assert("CCK"@ =~= self.letters());
                }
                "CCK"
            },
            Alpha3::COL => {
                proof {
                    reveal_strlit("COL");
                    assert("COL"@ =~= self.letters());
                }
                "COL"
            },
            Alpha3::COM => {
                proof {
                    reveal_strlit("COM");
                    assert("COM"@ =~= self.letters());
                }
                "COM"
            },
            Alpha3::COG => {
                proof {
                    reveal_strlit("COG");
                    assert("COG"@ =~= self.letters());
                }
                "COG"
            },
            Alpha3::COD => {
                proof {
                    reveal_strlit("COD");
                    assert("COD"@ =~= self.letters());
                }
                "COD"
            },
            Alpha3::COK => {
                proof {
                    reveal_strlit("COK");
                    assert("COK"@ =~= self.letters());
                }
                "COK"
            },
            Alpha3::CRI => {
                proof {
                    reveal_strlit("CRI");
                    assert("CRI"@ =~= self.letters());
                }
                "CRI"
            },
            Alpha3::CIV => {
                proof {
                    reveal_strlit("CIV");
                    assert("CIV"@ =~= self.letters());
                }
                "CIV"
            },
            Alpha3::HRV => {
                proof {
                    reveal_strlit("HRV");
                    assert("HRV"@ =~= self.letters());
                }
                "HRV"
            },
            Alpha3::CUB => {
                proof {
                    reveal_strlit("CUB");
                    assert("CUB"@ =~= self.letters());
                }
                "CUB"
            },
            Alpha3::CUW => {
                proof {
                    reveal_strlit("CUW");
                    assert("CUW"@ =~= self.letters());
                }
                "CUW"
            },
            Alpha3::CYP => {
                proof {
                    reveal_strlit("CYP");
                    assert("CYP"@ =~= self.letters());
                }
                "CYP"
            },
            Alpha3::CZE => {
                proof {
                    reveal_strlit("CZE");
                    assert("CZE"@ =~= self.letters());
                }
                "CZE"
            },
            Alpha3::DNK => {
                proof {
                    reveal_strlit("DNK");
                    assert("DNK"@ =~= self.letters());
                }
                "DNK"
            },
            Alpha3::DJI => {
                proof {
                    reveal_strlit("DJI");
                    assert("DJI"@ =~= self.letters());
                }
                "DJI"
            },
            Alpha3::DMA => {
                proof {
                    reveal_strlit("DMA");
                    assert("DMA"@ =~= self.letters());
                }
                "DMA"
            },
            Alpha3::DOM => {
                proof {
                    reveal_strlit("DOM");
                    assert("DOM"@ =~= self.letters());
                }
                "DOM"
            },
            Alpha3::ECU => {
                proof {
                    reveal_strlit("ECU");
                    assert("ECU"@ =~= self.letters());
                }
                "ECU"
            },
            Alpha3::EGY => {
                proof {
                    reveal_strlit("EGY");
                    assert("EGY"@ =~= self.letters());
                }
                "EGY"
            },
            Alpha3::SLV => {
                proof {
                    reveal_strlit("SLV");
                    assert("SLV"@ =~= self.letters());
                }
                "SLV"
            },
            Alpha3::GNQ => {
                proof {
                    reveal_strlit("GNQ");
                    assert("GNQ"@ =~= self.letters());
                }
                "GNQ"
            },
            Alpha3::ERI => {
                proof {
                    reveal_strlit("ERI");
                    assert("ERI"@ =~= self.letters());
                }
                "ERI"
            },
            Alpha3::EST => {
                proof {
                    reveal_strlit("EST");
                    assert("EST"@ =~= self.letters());
                }
                "EST"
            },
            Alpha3::SWZ => {
                proof {
                    reveal_strlit("SWZ");
                    assert("SWZ"@ =~= self.letters());
                }
                "SWZ"
            },
            Alpha3::ETH => {
                proof {
                    reveal_strlit("ETH");
                    assert("ETH"@ =~= self.letters());
                }
                "ETH"
            },
            Alpha3::FLK => {
                proof {
                    reveal_strlit("FLK");
                    assert("FLK"@ =~= self.letters());
                }
                "FLK"
            },
            Alpha3::FRO => {
                proof {
                    reveal_strlit("FRO");
                    assert("FRO"@ =~= self.letters());
                }
                "FRO"
            },
            Alpha3::FJI => {
                proof {
                    reveal_strlit("FJI");
                    assert("FJI"@ =~= self.letters());
                }
                "FJI"
            },
            Alpha3::FIN => {
                proof {
                    reveal_strlit("FIN");
                    assert("FIN"@ =~= self.letters());
                }
                "FIN"
            },
            Alpha3::FRA => {
                proof {
                    reveal_strlit("FRA");
                    assert("FRA"@ =~= self.letters());
                }
                "FRA"
            },
            Alpha3::GUF => {
                proof {
                    reveal_strlit("GUF");
                    assert("GUF"@ =~= self.letters());
                }
                "GUF"
            },
            Alpha3::PYF => {
                proof {
                    reveal_strlit("PYF");
                    assert("PYF"@ =~= self.letters());
                }
                "PYF"
            },
            Alpha3::ATF => {
                proof {
                    reveal_strlit("ATF");
                    assert("ATF"@ =~= self.letters());
                }
                "ATF"
            },
            Alpha3::GAB => {
                proof {
                    reveal_strlit("GAB");
                    assert("GAB"@ =~= self.letters());
                }
                "GAB"
            },
            Alpha3::GMB => {
                proof {
                    reveal_strlit("GMB");
                    assert("GMB"@ =~= self.letters());
                }
                "GMB"
            },
            Alpha3::GEO => {
                proof {
                    reveal_strlit("GEO");
                    assert("GEO"@ =~= self.letters());
                }
                "GEO"
            },
            Alpha3::DEU => {
                proof {
                    reveal_strlit("DEU");
                    assert("DEU"@ =~= self.letters());
                }
                "DEU"
            },
            Alpha3::GHA => {
                proof {
                    reveal_strlit("GHA");
                    assert("GHA"@ =~= self.letters());
                }
                "GHA"
            },
            Alpha3::GIB => {
                proof {
                    reveal_strlit("GIB");
                    assert("GIB"@ =~= self.letters());
                }
                "GIB"
            },
            Alpha3::GRC => {
                proof {
                    reveal_strlit("GRC");
                    assert("GRC"@ =~= self.letters());
                }
                "GRC"
            },
            Alpha3::GRL => {
                proof {
                    reveal_strlit("GRL");
                    assert("GRL"@ =~= self.letters());
                }
                "GRL"
            },
            Alpha3::GRD => {
                proof {
                    reveal_strlit("GRD");
                    assert("GRD"@ =~= self.letters());
                }
                "GRD"
            },
            Alpha3::GLP => {
                proof {
                    reveal_strlit("GLP");
                    assert("GLP"@ =~= self.letters());
                }
                "GLP"
            },
            Alpha3::GUM => {
                proof {
                    reveal_strlit("GUM");
                    assert("GUM"@ =~= self.letters());
                }
                "GUM"
            },
            Alpha3::GTM => {
                proof {
                    reveal_strlit("GTM");
                    assert("GTM"@ =~= self.letters());
                }
                "GTM"
            },
            Alpha3::GGY => {
                proof {
                    reveal_strlit("GGY");
                    assert("GGY"@ =~= self.letters());
                }
                "GGY"
            },
            Alpha3::GIN => {
                proof {
                    reveal_strlit("GIN");
                    assert("GIN"@ =~= self.letters());
                }
                "GIN"
            },
            Alpha3::GNB => {
                proof {
                    reveal_strlit("GNB");
                    assert("GNB"@ =~= self.letters());
                }
                "GNB"
            },
            Alpha3::GUY => {
                proof {
                    reveal_strlit("GUY");
                    assert("GUY"@ =~= self.letters());
                }
                "GUY"
            },
            Alpha3::HTI => {
                proof {
                    reveal_strlit("HTI");
                    assert("HTI"@ =~= self.letters());
                }
                "HTI"
            },
            Alpha3::HMD => {
                proof {
                    reveal_strlit("HMD");
                    assert("HMD"@ =~= self.letters());
                }
                "HMD"
            },
            Alpha3::VAT => {
                proof {
                    reveal_strlit("VAT");
                    assert("VAT"@ =~= self.letters());
                }
                "VAT"
            },
            Alpha3::HND => {
                proof {
                    reveal_strlit("HND");
                    assert("HND"@ =~= self.letters());
                }
                "HND"
            },
            Alpha3::HKG => {
                proof {
                    reveal_strlit("HKG");
                    assert("HKG"@ =~= self.letters());
                }
                "HKG"
            },
            Alpha3::HUN => {
                proof {
                    reveal_strlit("HUN");
                    assert("HUN"@ =~= self.letters());
                }
                "HUN"
            },
            Alpha3::ISL => {
                proof {
                    reveal_strlit("ISL");
                    assert("ISL"@ =~= self.letters());
                }
                "ISL"
            },
            Alpha3::IND => {
                proof {
                    reveal_strlit("IND");
                    assert("IND"@ =~= self.letters());
                }
                "IND"
            },
            Alpha3::IDN => {
                proof {
                    reveal_strlit("IDN");
                    assert("IDN"@ =~= self.letters());
                }
                "IDN"
            },
            Alpha3::IRN => {
                proof {
                    reveal_strlit("IRN");
                    assert("IRN"@ =~= self.letters());
                }
                "IRN"
            },
            Alpha3::IRQ => {
                proof {
                    reveal_strlit("IRQ");
                    assert("IRQ"@ =~= self.letters());
                }
                "IRQ"
            },
            Alpha3::IRL => {
                proof {
                    reveal_strlit("IRL");
                    assert("IRL"@ =~= self.letters());
                }
                "IRL"
            },
            Alpha3::IMN => {
                proof {
                    reveal_strlit("IMN");
                    assert("IMN"@ =~= self.letters());
                }
                "IMN"
            },
            Alpha3::ISR => {
                proof {
                    reveal_strlit("ISR");
                    assert("ISR"@ =~= self.letters());
                }
                "ISR"
            },
            Alpha3::ITA => {
                proof {
                    reveal_strlit("ITA");
                    assert("ITA"@ =~= self.letters());
                }
                "ITA"
            },
            Alpha3::JAM => {
                proof {
                    reveal_strlit("JAM");
                    assert("JAM"@ =~= self.letters());
                }
                "JAM"
            },
            Alpha3::JPN => {
                proof {
                    reveal_strlit("JPN");
                    assert("JPN"@ =~= self.letters());
                }
                "JPN"
            },
            Alpha3::JEY => {
                proof {
                    reveal_strlit("JEY");
                    assert("JEY"@ =~= self.letters());
                }
                "JEY"
            },
            Alpha3::JOR => {
                proof {
                    reveal_strlit("JOR");
                    assert("JOR"@ =~= self.letters());
                }
                "JOR"
            },
            Alpha3::KAZ => {
                proof {
                    reveal_strlit("KAZ");
                    assert("KAZ"@ =~= self.letters());
                }
                "KAZ"
            },
            Alpha3::KEN => {
                proof {
                    reveal_strlit("KEN");
                    assert("KEN"@ =~= self.letters());
                }
                "KEN"
            },
            Alpha3::KIR => {
                proof {
                    reveal_strlit("KIR");
                    assert("KIR"@ =~= self.letters());
                }
                "KIR"
            },
            Alpha3::PRK => {
                proof {
                    reveal_strlit("PRK");
                    assert("PRK"@ =~= self.letters());
                }
                "PRK"
            },
            Alpha3::KOR => {
                proof {
                    reveal_strlit("KOR");
                    assert("KOR"@ =~= self.letters());
                }
                "KOR"
            },
            Alpha3::KWT => {
                proof {
                    reveal_strlit("KWT");
                    assert("KWT"@ =~= self.letters());
                }
                "KWT"
            },
            Alpha3::KGZ => {
                proof {
                    reveal_strlit("KGZ");
                    assert("KGZ"@ =~= self.letters());
                }
                "KGZ"
            },
            Alpha3::LAO => {
                proof {
                    reveal_strlit("LAO");
                    assert("LAO"@ =~= self.letters());
                }
                "LAO"
            },
            Alpha3::LVA => {
                proof {
                    reveal_strlit("LVA");
                    assert("LVA"@ =~= self.letters());
                }
                "LVA"
            },
            Alpha3::LBN => {
                proof {
                    reveal_strlit("LBN");
                    assert("LBN"@ =~= self.letters());
                }
                "LBN"
            },
            Alpha3::LSO => {
                proof {
                    reveal_strlit("LSO");
                    assert("LSO"@ =~= self.letters());
                }
                "LSO"
            },
            Alpha3::LBR => {
                proof {
                    reveal_strlit("LBR");
                    assert("LBR"@ =~= self.letters());
                }
                "LBR"
            },
            Alpha3::LBY => {
                proof {
                    reveal_strlit("LBY");
                    assert("LBY"@ =~= self.letters());
                }
                "LBY"
            },
            Alpha3::LIE => {
                proof {
                    reveal_strlit("LIE");
                    assert("LIE"@ =~= self.letters());
                }
                "LIE"
            },
            Alpha3::LTU => {
                proof {
                    reveal_strlit("LTU");
                    assert("LTU"@ =~= self.letters());
                }
                "LTU"
            },
            Alpha3::LUX => {
                proof {
                    reveal_strlit("LUX");
                    assert("LUX"@ =~= self.letters());
                }
                "LUX"
            },
            Alpha3::MAC => {
                proof {
                    reveal_strlit("MAC");
                    assert("MAC"@ =~= self.letters());
                }
                "MAC"
            },
            Alpha3::MDG => {
                proof {
                    reveal_strlit("MDG");
                    assert("MDG"@ =~= self.letters());
                }
                "MDG"
            },
            Alpha3::MWI => {
                proof {
                    reveal_strlit("MWI");
                    assert("MWI"@ =~= self.letters());
                }
                "MWI"
            },
            Alpha3::MYS => {
                proof {
                    reveal_strlit("MYS");
                    assert("MYS"@ =~= self.letters());
                }
                "MYS"
            },
            Alpha3::MDV => {
                proof {
                    reveal_strlit("MDV");
                    assert("MDV"@ =~= self.letters());
                }
                "MDV"
            },
            Alpha3::MLI => {
                proof {
                    reveal_strlit("MLI");
                    assert("MLI"@ =~= self.letters());
                }
                "MLI"
            },
            Alpha3::MLT => {
                proof {
                    reveal_strlit("MLT");
                    assert("MLT"@ =~= self.letters());
                }
                "MLT"
            },
            Alpha3::MHL => {
                proof {
                    reveal_strlit("MHL");
                    assert("MHL"@ =~= self.letters());
                }
                "MHL"
            },
            Alpha3::MTQ => {
                proof {
                    reveal_strlit("MTQ");
                    assert("MTQ"@ =~= self.letters());
                }
                "MTQ"
            },
            Alpha3::MRT => {
                proof {
                    reveal_strlit("MRT");
                    assert("MRT"@ =~= self.letters());
                }
                "MRT"
            },
            Alpha3::MUS => {
                proof {
                    reveal_strlit("MUS");
                    assert("MUS"@ =~= self.letters());
                }
                "MUS"
            },
            Alpha3::MYT => {
                proof {
                    reveal_strlit("MYT");
                    assert("MYT"@ =~= self.letters());
                }
                "MYT"
            },
            Alpha3::MEX => {
                proof {
                    reveal_strlit("MEX");
                    assert("MEX"@ =~= self.letters());
                }
                "MEX"
            },
            Alpha3::FSM => {
                proof {
                    reveal_strlit("FSM");
                    assert("FSM"@ =~= self.letters());
                }
                "FSM"
            },
            Alpha3::MDA => {
                proof {
                    reveal_strlit("MDA");
                    assert("MDA"@ =~= self.letters());
                }
                "MDA"
            },
            Alpha3::MCO => {
                proof {
                    reveal_strlit("MCO");
                    assert("MCO"@ =~= self.letters());
                }
                "MCO"
            },
            Alpha3::MNG => {
                proof {
                    reveal_strlit("MNG");
                    assert("MNG"@ =~= self.letters());
                }
                "MNG"
            },
            Alpha3::MNE => {
                proof {
                    reveal_strlit("MNE");
                    assert("MNE"@ =~= self.letters());
                }
                "MNE"
            },
            Alpha3::MSR => {
                proof {
                    reveal_strlit("MSR");
                    assert("MSR"@ =~= self.letters());
                }
                "MSR"
            },
            Alpha3::MAR => {
                proof {
                    reveal_strlit("MAR");
                    assert("MAR"@ =~= self.letters());
                }
                "MAR"
            },
            Alpha3::MOZ => {
                proof {
                    reveal_strlit("MOZ");
                    assert("MOZ"@ =~= self.letters());
                }
                "MOZ"
            },
            Alpha3::MMR => {
                proof {
                    reveal_strlit("MMR");
                    assert("MMR"@ =~= self.letters());
                }
                "MMR"
            },
            Alpha3::NAM => {
                proof {
                    reveal_strlit("NAM");
                    assert("NAM"@ =~= self.letters());
                }
                "NAM"
            },
            Alpha3::NRU => {
                proof {
                    reveal_strlit("NRU");
                    assert("NRU"@ =~= self.letters());
                }
                "NRU"
            },
            Alpha3::NPL => {
                proof {
                    reveal_strlit("NPL");
                    assert("NPL"@ =~= self.letters());
                }
                "NPL"
            },
            Alpha3::NLD => {
                proof {
                    reveal_strlit("NLD");
                    assert("NLD"@ =~= self.letters());
                }
                "NLD"
            },
            Alpha3::NCL => {
                proof {
                    reveal_strlit("NCL");
                    assert("NCL"@ =~= self.letters());
                }
                "NCL"
            },
            Alpha3::NZL => {
                proof {
                    reveal_strlit("NZL");
                    assert("NZL"@ =~= self.letters());
                }
                "NZL"
            },
            Alpha3::NIC => {
                proof {
                    reveal_strlit("NIC");
                    assert("NIC"@ =~= self.letters());
                }
                "NIC"
            },
            Alpha3::NER => {
                proof {
                    reveal_strlit("NER");
                    assert("NER"@ =~= self.letters());
                }
                "NER"
            },
            Alpha3::NGA => {
                proof {
                    reveal_strlit("NGA");
                    assert("NGA"@ =~= self.letters());
                }
                "NGA"
            },
            Alpha3::NIU => {
                proof {
                    reveal_strlit("NIU");
                    assert("NIU"@ =~= self.letters());
                }
                "NIU"
            },
            Alpha3::NFK => {
                proof {
                    reveal_strlit("NFK");
                    assert("NFK"@ =~= self.letters());
                }
                "NFK"
            },
            Alpha3::MKD => {
                proof {
                    reveal_strlit("MKD");
                    assert("MKD"@ =~= self.letters());
                }
                "MKD"
            },
            Alpha3::MNP => {
                proof {
                    reveal_strlit("MNP");
                    assert("MNP"@ =~= self.letters());
                }
                "MNP"
            },
            Alpha3::NOR => {
                proof {
                    reveal_strlit("NOR");
                    assert("NOR"@ =~= self.letters());
                }
                "NOR"
            },
            Alpha3::OMN => {
                proof {
                    reveal_strlit("OMN");
                    assert("OMN"@ =~= self.letters());
                }
                "OMN"
            },
            Alpha3::PAK => {
                proof {
                    reveal_strlit("PAK");
                    assert("PAK"@ =~= self.letters());
                }
                "PAK"
            },
            Alpha3::PLW => {
                proof {
                    reveal_strlit("PLW");
                    assert("PLW"@ =~= self.letters());
                }
                "PLW"
            },
            Alpha3::PSE => {
                proof {
                    reveal_strlit("PSE");
                    assert("PSE"@ =~= self.letters());
                }
                "PSE"
            },
            Alpha3::PAN => {
                proof {
                    reveal_strlit("PAN");
                    assert("PAN"@ =~= self.letters());
                }
                "PAN"
            },
            Alpha3::PNG => {
                proof {
                    reveal_strlit("PNG");
                    assert("PNG"@ =~= self.letters());
                }
                "PNG"
            },
            Alpha3::PRY => {
                proof {
                    reveal_strlit("PRY");
                    assert("PRY"@ =~= self.letters());
                }
                "PRY"
            },
            Alpha3::PER => {
                proof {
                    reveal_strlit("PER");
                    assert("PER"@ =~= self.letters());
                }
                "PER"
            },
            Alpha3::PHL => {
                proof {
                    reveal_strlit("PHL");
                    assert("PHL"@ =~= self.letters());
                }
                "PHL"
            },
            Alpha3::PCN => {
                proof {
                    reveal_strlit("PCN");
                    assert("PCN"@ =~= self.letters());
                }
                "PCN"
            },
            Alpha3::POL => {
                proof {
                    reveal_strlit("POL");
                    assert("POL"@ =~= self.letters());
                }
                "POL"
            },
            Alpha3::PRT => {
                proof {
                    reveal_strlit("PRT");
                    assert("PRT"@ =~= self.letters());
                }
                "PRT"
            },
            Alpha3::PRI => {
                proof {
                    reveal_strlit("PRI");
                    assert("PRI"@ =~= self.letters());
                }
                "PRI"
            },
            Alpha3::QAT => {
                proof {
                    reveal_strlit("QAT");
                    assert("QAT"@ =~= self.letters());
                }
                "QAT"
            },
            Alpha3::REU => {
                proof {
                    reveal_strlit("REU");
                    assert("REU"@ =~= self.letters());
                }
                "REU"
            },
            Alpha3::ROU => {
                proof {
                    reveal_strlit("ROU");
                    assert("ROU"@ =~= self.letters());
                }
                "ROU"
            },
            Alpha3::RUS => {
                proof {
                    reveal_strlit("RUS");
                    assert("RUS"@ =~= self.letters());
                }
                "RUS"
            },
            Alpha3::RWA => {
                proof {
                    reveal_strlit("RWA");
                    assert("RWA"@ =~= self.letters());
                }
                "RWA"
            },
            Alpha3::BLM => {
                proof {
                    reveal_strlit("BLM");
                    assert("BLM"@ =~= self.letters());
                }
                "BLM"
            },
            Alpha3::SHN => {
                proof {
                    reveal_strlit("SHN");
                    assert("SHN"@ =~= self.letters());
                }
                "SHN"
            },
            Alpha3::KNA => {
                proof {
                    reveal_strlit("KNA");
                    assert("KNA"@ =~= self.letters());
                }
                "KNA"
            },
            Alpha3::LCA => {
                proof {
                    reveal_strlit("LCA");
                    assert("LCA"@ =~= self.letters());
                }
                "LCA"
            },
            Alpha3::MAF => {
                proof {
                    reveal_strlit("MAF");
                    assert("MAF"@ =~= self.letters());
                }
                "MAF"
            },
            Alpha3::SPM => {
                proof {
                    reveal_strlit("SPM");
                    assert("SPM"@ =~= self.letters());
                }
                "SPM"
            },
            Alpha3::VCT => {
                proof {
                    reveal_strlit("VCT");
                    assert("VCT"@ =~= self.letters());
                }
                "VCT"
            },
            Alpha3::WSM => {
                proof {
                    reveal_strlit("WSM");
                    assert("WSM"@ =~= self.letters());
                }
                "WSM"
            },
            Alpha3::SMR => {
                proof {
                    reveal_strlit("SMR");
                    assert("SMR"@ =~= self.letters());
                }
                "SMR"
            },
            Alpha3::STP => {
                proof {
                    reveal_strlit("STP");
                    assert("STP"@ =~= self.letters());
                }
                "STP"
            },
            Alpha3::SAU => {
                proof {
                    reveal_strlit("SAU");
                    assert("SAU"@ =~= self.letters());
                }
                "SAU"
            },
            Alpha3::SEN => {
                proof {
                    reveal_strlit("SEN");
                    assert("SEN"@ =~= self.letters());
                }
                "SEN"
            },
            Alpha3::SRB => {
                proof {
                    reveal_strlit("SRB");
                    assert("SRB"@ =~= self.letters());
                }
                "SRB"
            },
            Alpha3::SYC => {
                proof {
                    reveal_strlit("SYC");
                    assert("SYC"@ =~= self.letters());
                }
                "SYC"
            },
            Alpha3::SLE => {
                proof {
                    reveal_strlit("SLE");
                    assert("SLE"@ =~= self.letters());
                }
                "SLE"
            },
            Alpha3::SGP => {
                proof {
                    reveal_strlit("SGP");
                    assert("SGP"@ =~= self.letters());
                }
                "SGP"
            },
            Alpha3::SXM => {
                proof {
                    reveal_strlit("SXM");
                    assert("SXM"@ =~= self.letters());
                }
                "SXM"
            },
            Alpha3::SVK => {
                proof {
                    reveal_strlit("SVK");
                    assert("SVK"@ =~= self.letters());
                }
                "SVK"
            },
            Alpha3::SVN => {
                proof {
                    reveal_strlit("SVN");
                    assert("SVN"@ =~= self.letters());
                }
                "SVN"
            },
            Alpha3::SLB => {
                proof {
                    reveal_strlit("SLB");
                    assert("SLB"@ =~= self.letters());
                }
                "SLB"
            },
            Alpha3::SOM => {
                proof {
                    reveal_strlit("SOM");
                    assert("SOM"@ =~= self.letters());
                }
                "SOM"
            },
            Alpha3::ZAF => {
                proof {
                    reveal_strlit("ZAF");
                    assert("ZAF"@ =~= self.letters());
                }
                "ZAF"
            },
            Alpha3::SGS => {
                proof {
                    reveal_strlit("SGS");
                    assert("SGS"@ =~= self.letters());
                }
                "SGS"
            },
            Alpha3::SSD => {
                proof {
                    reveal_strlit("SSD");
                    assert("SSD"@ =~= self.letters());
                }
                "SSD"
            },
            Alpha3::ESP => {
                proof {
                    reveal_strlit("ESP");
                    assert("ESP"@ =~= self.letters());
                }
                "ESP"
            },
            Alpha3::LKA => {
                proof {
                    reveal_strlit("LKA");
                    assert("LKA"@ =~= self.letters());
                }
                "LKA"
            },
            Alpha3::SDN => {
                proof {
                    reveal_strlit("SDN");
                    assert("SDN"@ =~= self.letters());
                }
                "SDN"
            },
            Alpha3::SUR => {
                proof {
                    reveal_strlit("SUR");
                    assert("SUR"@ =~= self.letters());
                }
                "SUR"
            },
            Alpha3::SJM => {
                proof {
                    reveal_strlit("SJM");
                    assert("SJM"@ =~= self.letters());
                }
                "SJM"
            },
            Alpha3::SWE => {
                proof {
                    reveal_strlit("SWE");
                    assert("SWE"@ =~= self.letters());
                }
                "SWE"
            },
            Alpha3::CHE => {
                proof {
                    reveal_strlit("CHE");
                    assert("CHE"@ =~= self.letters());
                }
                "CHE"
            },
            Alpha3::SYR => {
                proof {
                    reveal_strlit("SYR");
                    assert("SYR"@ =~= self.letters());
                }
                "SYR"
            },
            Alpha3::TWN => {
                proof {
                    reveal_strlit("TWN");
                    assert("TWN"@ =~= self.letters());
                }
                "TWN"
            },
            Alpha3::TJK => {
                proof {
                    reveal_strlit("TJK");
                    assert("TJK"@ =~= self.letters());
                }
                "TJK"
            },
            Alpha3::TZA => {
                proof {
                    reveal_strlit("TZA");
                    assert("TZA"@ =~= self.letters());
                }
                "TZA"
            },
            Alpha3::THA => {
                proof {
                    reveal_strlit("THA");
                    assert("THA"@ =~= self.letters());
                }
                "THA"
            },
            Alpha3::TLS => {
                proof {
                    reveal_strlit("TLS");
                    assert("TLS"@ =~= self.letters());
                }
                "TLS"
            },
            Alpha3::TGO => {
                proof {
                    reveal_strlit("TGO");
                    assert("TGO"@ =~= self.letters());
                }
                "TGO"
            },
            Alpha3::TKL => {
                proof {
                    reveal_strlit("TKL");
                    assert("TKL"@ =~= self.letters());
                }
                "TKL"
            },
            Alpha3::TON => {
                proof {
                    reveal_strlit("TON");
                    assert("TON"@ =~= self.letters());
                }
                "TON"
            },
            Alpha3::TTO => {
                proof {
                    reveal_strlit("TTO");
                    assert("TTO"@ =~= self.letters());
                }
                "TTO"
            },
            Alpha3::TUN => {
                proof {
                    reveal_strlit("TUN");
                    assert("TUN"@ =~= self.letters());
                }
                "TUN"
            },
            Alpha3::TUR => {
                proof {
                    reveal_strlit("TUR");
                    assert("TUR"@ =~= self.letters());
                }
                "TUR"
            },
            Alpha3::TKM => {
                proof {
                    reveal_strlit("TKM");
                    assert("TKM"@ =~= self.letters());
                }
                "TKM"
            },
            Alpha3::TCA => {
                proof {
                    reveal_strlit("TCA");
                    assert("TCA"@ =~= self.letters());
                }
                "TCA"
            },
            Alpha3::TUV => {
                proof {
                    reveal_strlit("TUV");
                    assert("TUV"@ =~= self.letters());
                }
                "TUV"
            },
            Alpha3::UGA => {
                proof {
                    reveal_strlit("UGA");
                    assert("UGA"@ =~= self.letters());
                }
                "UGA"
            },
            Alpha3::UKR => {
                proof {
                    reveal_strlit("UKR");
                    assert("UKR"@ =~= self.letters());
                }
                "UKR"
            },
            Alpha3::ARE => {
                proof {
                    reveal_strlit("ARE");
                    assert("ARE"@ =~= self.letters());
                }
                "ARE"
            },
            Alpha3::GBR => {
                proof {
                    reveal_strlit("GBR");
                    assert("GBR"@ =~= self.letters());
                }
                "GBR"
            },
            Alpha3::USA => {
                proof {
                    reveal_strlit("USA");
                    assert("USA"@ =~= self.letters());
                }
                "USA"
            },
            Alpha3::UMI => {
                proof {
                    reveal_strlit("UMI");
                    assert("UMI"@ =~= self.letters());
                }
                "UMI"
            },
            Alpha3::URY => {
                proof {
                    reveal_strlit("URY");
                    assert("URY"@ =~= self.letters());
                }
                "URY"
            },
            Alpha3::UZB => {
                proof {
                    reveal_strlit("UZB");
                    assert("UZB"@ =~= self.letters());
                }
                "UZB"
            },
            Alpha3::VUT => {
                proof {
                    reveal_strlit("VUT");
                    assert("VUT"@ =~= self.letters());
                }
                "VUT"
            },
            Alpha3::VEN => {
                proof {
                    reveal_strlit("VEN");
                    assert("VEN"@ =~= self.letters());
                }
                "VEN"
            },
            Alpha3::VNM => {
                proof {
                    reveal_strlit("VNM");
                    assert("VNM"@ =~= self.letters());
                }
                "VNM"
            },
            Alpha3::VGB => {
                proof {
                    reveal_strlit("VGB");
                    assert("VGB"@ =~= self.letters());
                }
                "VGB"
            },
            Alpha3::VIR => {
                proof {
                    reveal_strlit("VIR");
                    assert("VIR"@ =~= self.letters());
                }
                "VIR"
            },
            Alpha3::WLF => {
                proof {
                    reveal_strlit("WLF");
                    assert("WLF"@ =~= self.letters());
                }
                "WLF"
            },
            Alpha3::ESH => {
                proof {
                    reveal_strlit("ESH");
                    assert("ESH"@ =~= self.letters());
                }
                "ESH"
            },
            Alpha3::YEM => {
                proof {
                    reveal_strlit("YEM");
                    assert("YEM"@ =~= self.letters());
                }
                "YEM"
            },
            Alpha3::ZMB => {
                proof {
                    reveal_strlit("ZMB");
                    assert("ZMB"@ =~= self.letters());
                }
                "ZMB"
            },
            Alpha3::ZWE => {
                proof {
                    reveal_strlit("ZWE");
                    assert("ZWE"@ =~= self.letters());
                }
                "ZWE"
            },
        }
    }

    /// The row of the definition table that holds this code.
    pub fn position(self) -> (r: usize)
        ensures
            r == self.index(),
    {
        match self {
            Alpha3::AFG => 0,
            Alpha3::ALA => 1,
            Alpha3::ALB => 2,
            Alpha3::DZA => 3,
            Alpha3::ASM => 4,
            Alpha3::AND => 5,
            Alpha3::AGO => 6,
            Alpha3::AIA => 7,
            Alpha3::ATA => 8,
            Alpha3::ATG => 9,
            Alpha3::ARG => 10,
            Alpha3::ARM => 11,
            Alpha3::ABW => 12,
            Alpha3::AUS => 13,
            Alpha3::AUT => 14,
            Alpha3::AZE => 15,
            Alpha3::BHS => 16,
            Alpha3::BHR => 17,
            Alpha3::BGD => 18,
            Alpha3::BRB => 19,
            Alpha3::BLR => 20,
            Alpha3::BEL => 21,
            Alpha3::BLZ => 22,
            Alpha3::BEN => 23,
            Alpha3::BMU => 24,
            Alpha3::BTN => 25,
            Alpha3::BOL => 26,
            Alpha3::BES => 27,
            Alpha3::BIH => 28,
            Alpha3::BWA => 29,
            Alpha3::BVT => 30,
            Alpha3::BRA => 31,
            Alpha3::IOT => 32,
            Alpha3::BRN => 33,
            Alpha3::BGR => 34,
            Alpha3::BFA => 35,
            Alpha3::BDI => 36,
            Alpha3::CPV => 37,
            Alpha3::KHM => 38,
            Alpha3::CMR => 39,
            Alpha3::CAN => 40,
            Alpha3::CYM => 41,
            Alpha3::CAF => 42,
            Alpha3::TCD => 43,
            Alpha3::CHL => 44,
            Alpha3::CHN => 45,
            Alpha3::CXR => 46,
            Alpha3::CCK => 47,
            Alpha3::COL => 48,
            Alpha3::COM => 49,
            Alpha3::COG => 50,
            Alpha3::COD => 51,
            Alpha3::COK => 52,
            Alpha3::CRI => 53,
            Alpha3::CIV => 54,
            Alpha3::HRV => 55,
            Alpha3::CUB => 56,
            Alpha3::CUW => 57,
            Alpha3::CYP => 58,
            Alpha3::CZE => 59,
            Alpha3::DNK => 60,
            Alpha3::DJI => 61,
            Alpha3::DMA => 62,
            Alpha3::DOM => 63,
            Alpha3::ECU => 64,
            Alpha3::EGY => 65,
            Alpha3::SLV => 66,
            Alpha3::GNQ => 67,
            Alpha3::ERI => 68,
            Alpha3::EST => 69,
            Alpha3::SWZ => 70,
            Alpha3::ETH => 71,
            Alpha3::FLK => 72,
            Alpha3::FRO => 73,
            Alpha3::FJI => 74,
            Alpha3::FIN => 75,
            Alpha3::FRA => 76,
            Alpha3::GUF => 77,
            Alpha3::PYF => 78,
            Alpha3::ATF => 79,
            Alpha3::GAB => 80,
            Alpha3::GMB => 81,
            Alpha3::GEO => 82,
            Alpha3::DEU => 83,
            Alpha3::GHA => 84,
            Alpha3::GIB => 85,
            Alpha3::GRC => 86,
            Alpha3::GRL => 87,
            Alpha3::GRD => 88,
            Alpha3::GLP => 89,
            Alpha3::GUM => 90,
            Alpha3::GTM => 91,
            Alpha3::GGY => 92,
            Alpha3::GIN => 93,
            Alpha3::GNB => 94,
            Alpha3::GUY => 95,
            Alpha3::HTI => 96,
            Alpha3::HMD => 97,
            Alpha3::VAT => 98,
            Alpha3::HND => 99,
            Alpha3::HKG => 100,
            Alpha3::HUN => 101,
            Alpha3::ISL => 102,
            Alpha3::IND => 103,
            Alpha3::IDN => 104,
            Alpha3::IRN => 105,
            Alpha3::IRQ => 106,
            Alpha3::IRL => 107,
            Alpha3::IMN => 108,
            Alpha3::ISR => 109,
            Alpha3::ITA => 110,
            Alpha3::JAM => 111,
            Alpha3::JPN => 112,
            Alpha3::JEY => 113,
            Alpha3::JOR => 114,
            Alpha3::KAZ => 115,
            Alpha3::KEN => 116,
            Alpha3::KIR => 117,
            Alpha3::PRK => 118,
            Alpha3::KOR => 119,
            Alpha3::KWT => 120,
            Alpha3::KGZ => 121,
            Alpha3::LAO => 122,
            Alpha3::LVA => 123,
            Alpha3::LBN => 124,
            Alpha3::LSO => 125,
            Alpha3::LBR => 126,
            Alpha3::LBY => 127,
            Alpha3::LIE => 128,
            Alpha3::LTU => 129,
            Alpha3::LUX => 130,
            Alpha3::MAC => 131,
            Alpha3::MDG => 132,
            Alpha3::MWI => 133,
            Alpha3::MYS => 134,
            Alpha3::MDV => 135,
            Alpha3::MLI => 136,
            Alpha3::MLT => 137,
            Alpha3::MHL => 138,
            Alpha3::MTQ => 139,
            Alpha3::MRT => 140,
            Alpha3::MUS => 141,
            Alpha3::MYT => 142,
            Alpha3::MEX => 143,
            Alpha3::FSM => 144,
            Alpha3::MDA => 145,
            Alpha3::MCO => 146,
            Alpha3::MNG => 147,
            Alpha3::MNE => 148,
            Alpha3::MSR => 149,
            Alpha3::MAR => 150,
            Alpha3::MOZ => 151,
            Alpha3::MMR => 152,
            Alpha3::NAM => 153,
            Alpha3::NRU => 154,
            Alpha3::NPL => 155,
            Alpha3::NLD => 156,
            Alpha3::NCL => 157,
            Alpha3::NZL => 158,
            Alpha3::NIC => 159,
            Alpha3::NER => 160,
            Alpha3::NGA => 161,
            Alpha3::NIU => 162,
            Alpha3::NFK => 163,
            Alpha3::MKD => 164,
            Alpha3::MNP => 165,
            Alpha3::NOR => 166,
            Alpha3::OMN => 167,
            Alpha3::PAK => 168,
            Alpha3::PLW => 169,
            Alpha3::PSE => 170,
            Alpha3::PAN => 171,
            Alpha3::PNG => 172,
            Alpha3::PRY => 173,
            Alpha3::PER => 174,
            Alpha3::PHL => 175,
            Alpha3::PCN => 176,
            Alpha3::POL => 177,
            Alpha3::PRT => 178,
            Alpha3::PRI => 179,
            Alpha3::QAT => 180,
            Alpha3::REU => 181,
            Alpha3::ROU => 182,
            Alpha3::RUS => 183,
            Alpha3::RWA => 184,
            Alpha3::BLM => 185,
            Alpha3::SHN => 186,
            Alpha3::KNA => 187,
            Alpha3::LCA => 188,
            Alpha3::MAF => 189,
            Alpha3::SPM => 190,
            Alpha3::VCT => 191,
            Alpha3::WSM => 192,
            Alpha3::SMR => 193,
            Alpha3::STP => 194,
            Alpha3::SAU => 195,
            Alpha3::SEN => 196,
            Alpha3::SRB => 197,
            Alpha3::SYC => 198,
            Alpha3::SLE => 199,
            Alpha3::SGP => 200,
            Alpha3::SXM => 201,
            Alpha3::SVK => 202,
            Alpha3::SVN => 203,
            Alpha3::SLB => 204,
            Alpha3::SOM => 205,
            Alpha3::ZAF => 206,
            Alpha3::SGS => 207,
            Alpha3::SSD => 208,
            Alpha3::ESP => 209,
            Alpha3::LKA => 210,
            Alpha3::SDN => 211,
            Alpha3::SUR => 212,
            Alpha3::SJM => 213,
            Alpha3::SWE => 214,
            Alpha3::CHE => 215,
            Alpha3::SYR => 216,
            Alpha3::TWN => 217,
            Alpha3::TJK => 218,
            Alpha3::TZA => 219,
            Alpha3::THA => 220,
            Alpha3::TLS => 221,
            Alpha3::TGO => 222,
            Alpha3::TKL => 223,
            Alpha3::TON => 224,
            Alpha3::TTO => 225,
            Alpha3::TUN => 226,
            Alpha3::TUR => 227,
            Alpha3::TKM => 228,
            Alpha3::TCA => 229,
            Alpha3::TUV => 230,
            Alpha3::UGA => 231,
            Alpha3::UKR => 232,
            Alpha3::ARE => 233,
            Alpha3::GBR => 234,
            Alpha3::USA => 235,
            Alpha3::UMI => 236,
            Alpha3::URY => 237,
            Alpha3::UZB => 238,
            Alpha3::VUT => 239,
            Alpha3::VEN => 240,
            Alpha3::VNM => 241,
            Alpha3::VGB => 242,
            Alpha3::VIR => 243,
            Alpha3::WLF => 244,
            Alpha3::ESH => 245,
            Alpha3::YEM => 246,
            Alpha3::ZMB => 247,
            Alpha3::ZWE => 248,
        }
    }

    /// Reads a code from its canonical text: the exact upper-case letters, with
    /// nothing around them.
    pub fn from_text(s: &str) -> (r: Option<Alpha3>)
        ensures
            r == Self::parse_spec(s@),
    {
        let mut i: usize = 0;
        while i < COUNT
            invariant
                i <= COUNT,
                forall|k: usize| k < i ==> (#[trigger] entry(k)).alpha3.letters() != s@,
            decreases COUNT - i,
        {
            let code = definition(i).alpha3;
            if str_eq(code.as_str(), s) {
                proof {
                    code.lemma_parse_letters();
                }
                return Some(code);
            }
            i = i + 1;
        }
        proof {
            assert forall|a: Alpha3| a.letters() != s@ by {
                lemma_entry_of_alpha3(a);
            }
        }
        None
    }

    /// The canonical text of the code, as an owned string.
    pub fn to_string(self) -> (r: String)
        ensures
            r@ == self.letters(),
    {
        String::from_str(self.as_str())
    }
}

} // verus!
