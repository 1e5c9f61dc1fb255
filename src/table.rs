//! The definition table: one immutable record per jurisdiction, and the
//! registry that finds a record by its numeric country code.

use vstd::prelude::*;
use crate::alpha::{Alpha2, Alpha3};
use crate::region::{IntermediateRegion, Region, SubRegion};

verus! {

/// Everything known about one jurisdiction.
#[derive(Clone, Copy, Debug)]
pub struct Definition {
    pub country_code: u16,
    pub name: &'static str,
    pub alpha2: Alpha2,
    pub alpha3: Alpha3,
    pub region: Region,
    pub sub_region: SubRegion,
    pub intermediate_region: IntermediateRegion,
    pub region_code: u16,
    pub sub_region_code: u16,
    pub intermediate_region_code: Option<u16>,
}

/// Number of rows in the definition table.
pub const COUNT: usize = 249;

/// Row `i` of the definition table (the last row stands for any `i` past the end).
pub open spec fn entry(i: usize) -> Definition {
    match i {
        0 => Definition {
            country_code: 4,
            name: "Afghanistan",
            alpha2: Alpha2::AF,
            alpha3: Alpha3::AFG,
            region: Region::Asia,
            sub_region: SubRegion::SouthernAsia,
            intermediate_region: IntermediateRegion::Undefined,
            region_code: 142,
            sub_region_code: 34,
            intermediate_region_code: None,
        },
        1 => Definition {
            country_code: 248,
            name: "Åland Islands",
            alpha2: Alpha2::AX,
            alpha3: Alpha3::ALA,
            region: Region::Europe,
            sub_region: SubRegion::NorthernEurope,
            intermediate_region: IntermediateRegion::Undefined,
            region_code: 150,
            sub_region_code: 154,
            intermediate_region_code: None,
        },
        2 => Definition {
            country_code: 8,
            name: "Albania",
            alpha2: Alpha2::AL,
            alpha3: Alpha3::ALB,
            region: Region::Europe,
            sub_region: SubRegion::SouthernEurope,
            intermediate_region: IntermediateRegion::Undefined,
            region_code: 150,
            sub_region_code: 39,
            intermediate_region_code: None,
        },
        3 => Definition {
            country_code: 12,
            name: "Algeria",
            alpha2: Alpha2::DZ,
            alpha3: Alpha3::DZA,
            region: Region::Africa,
            sub_region: SubRegion::NorthernAfrica,
            intermediate_region: IntermediateRegion::Undefined,
            region_code: 2,
            sub_region_code: 15,
            intermediate_region_code: None,
        },
        4 => Definition {
            country_code: 16,
            name: "American Samoa",
            alpha2: Alpha2::AS,
            alpha3: Alpha3::ASM,
            region: Region::Oceania,
            sub_region: SubRegion::Polynesia,
            intermediate_region: IntermediateRegion::Undefined,
            region_code: 9,
            sub_region_code: 61,
            intermediate_region_code: None,
        },
        5 => Definition {
            country_code: 20,
            name: "Andorra",
            alpha2: Alpha2::AD,
            alpha3: Alpha3::AND,
            region: Region::Europe,
            sub_region: SubRegion::SouthernEurope,
            intermediate_region: IntermediateRegion::Undefined,
            region_code: 150,
            sub_region_code: 39,
            intermediate_region_code: None,
        },
        6 => Definition {
            country_code: 24,
            name: "Angola",
            alpha2: Alpha2::AO,
            alpha3: Alpha3::AGO,
            region: Region::Africa,
            sub_region: SubRegion::SubSaharanAfrica,
            intermediate_region: IntermediateRegion::MiddleAfrica,
            region_code: 2,
            sub_region_code: 202,
            intermediate_region_code: Some(17),
        },
        7 => Definition {
            country_code: 660,
            name: "Anguilla",
            alpha2: Alpha2::AI,
            alpha3: Alpha3::AIA,
            region: Region::Americas,
            sub_region: SubRegion::LatinAmericaAndTheCaribbean,
            intermediate_region: IntermediateRegion::Caribbean,
            region_code: 19,
            sub_region_code: 419,
            intermediate_region_code: Some(29),
        },
        8 => Definition {
            country_code: 10,
            name: "Antarctica",
            alpha2: Alpha2::AQ,
            alpha3: Alpha3::ATA,
            region: Region::Undefined,
            sub_region: SubRegion::Undefined,
            intermediate_region: IntermediateRegion::Undefined,
            region_code: 0,
            sub_region_code: 0,
            intermediate_region_code: None,
        },
        9 => Definition {
            country_code: 28,
            name: "Antigua and Barbuda",
            alpha2: Alpha2::AG,
            alpha3: Alpha3::ATG,
            region: Region::Americas,
            sub_region: SubRegion::LatinAmericaAndTheCaribbean,
            intermediate_region: IntermediateRegion::Caribbean,
            region_code: 19,
            sub_region_code: 419,
            intermediate_region_code: Some(29),
        },
        10 => Definition {
            country_code: 32,
            name: "Argentina",
            alpha2: Alpha2::AR,
            alpha3: Alpha3::ARG,
            region: Region::Americas,
            sub_region: SubRegion::LatinAmericaAndTheCaribbean,
            intermediate_region: IntermediateRegion::SouthAmerica,
            region_code: 19,
            sub_region_code: 419,
            intermediate_region_code: Some(5),
        },
        11 => Definition {
            country_code: 51,
            name: "Armenia",
            alpha2: Alpha2::AM,
            alpha3: Alpha3::ARM,
            region: Region::Asia,
            sub_region: SubRegion::WesternAsia,
            intermediate_region: IntermediateRegion::Undefined,
            region_code: 142,
            sub_region_code: 145,
            intermediate_region_code: None,
        },
        12 => Definition {
            country_code: 533,
            name: "Aruba",
            alpha2: Alpha2::AW,
            alpha3: Alpha3::ABW,
            region: Region::Americas,
            sub_region: SubRegion::LatinAmericaAndTheCaribbean,
            intermediate_region: IntermediateRegion::Caribbean,
            region_code: 19,
            sub_region_code: 419,
            intermediate_region_code: Some(29),
        },
        13 => Definition {
            country_code: 36,
            name: "Australia",
            alpha2: Alpha2::AU,
            alpha3: Alpha3::AUS,
            region: Region::Oceania,
            sub_region: SubRegion::AustraliaAndNewZealand,
            intermediate_region: IntermediateRegion::Undefined,
            region_code: 9,
            sub_region_code: 53,
            intermediate_region_code: None,
        },
        14 => Definition {
            country_code: 40,
            name: "Austria",
            alpha2: Alpha2::AT,
            alpha3: Alpha3::AUT,
            region: Region::Europe,
            sub_region: SubRegion::WesternEurope,
            intermediate_region: IntermediateRegion::Undefined,
            region_code: 150,
            sub_region_code: 155,
            intermediate_region_code: None,
        },
        15 => Definition {
            country_code: 31,
            name: "Azerbaijan",
            alpha2: Alpha2::AZ,
            alpha3: Alpha3::AZE,
            region: Region::Asia,
            sub_region: SubRegion::WesternAsia,
            intermediate_region: IntermediateRegion::Undefined,
            region_code: 142,
            sub_region_code: 145,
            intermediate_region_code: None,
        },
        16 => Definition {
            country_code: 44,
            name: "Bahamas",
            alpha2: Alpha2::BS,
            alpha3: Alpha3::BHS,
            region: Region::Americas,
            sub_region: SubRegion::LatinAmericaAndTheCaribbean,
            intermediate_region: IntermediateRegion::Caribbean,
            region_code: 19,
            sub_region_code: 419,
            intermediate_region_code: Some(29),
        },
        17 => Definition {
            country_code: 48,
            name: "Bahrain",
            alpha2: Alpha2::BH,
            alpha3: Alpha3::BHR,
            region: Region::Asia,
            sub_region: SubRegion::WesternAsia,
            intermediate_region: IntermediateRegion::Undefined,
            region_code: 142,
            sub_region_code: 145,
            intermediate_region_code: None,
        },
        18 => Definition {
            country_code: 50,
            name: "Bangladesh",
            alpha2: Alpha2::BD,
            alpha3: Alpha3::BGD,
            region: Region::Asia,
            sub_region: SubRegion::SouthernAsia,
            intermediate_region: IntermediateRegion::Undefined,
            region_code: 142,
            sub_region_code: 34,
            intermediate_region_code: None,
        },
        19 => Definition {
            country_code: 52,
            name: "Barbados",
            alpha2: Alpha2::BB,
            alpha3: Alpha3::BRB,
            region: Region::Americas,
            sub_region: SubRegion::LatinAmericaAndTheCaribbean,
            intermediate_region: IntermediateRegion::Caribbean,
            region_code: 19,
            sub_region_code: 419,
            intermediate_region_code: Some(29),
        },
        20 => Definition {
            country_code: 112,
            name: "Belarus",
            alpha2: Alpha2::BY,
            alpha3: Alpha3::BLR,
            region: Region::Europe,
            sub_region: SubRegion::EasternEurope,
            intermediate_region: IntermediateRegion::Undefined,
            region_code: 150,
            sub_region_code: 151,
            intermediate_region_code: None,
        },
        21 => Definition {
            country_code: 56,
            name: "Belgium",
            alpha2: Alpha2::BE,
            alpha3: Alpha3::BEL,
            region: Region::Europe,
            sub_region: SubRegion::WesternEurope,
            intermediate_region: IntermediateRegion::Undefined,
            region_code: 150,
            sub_region_code: 155,
            intermediate_region_code: None,
        },
        22 => Definition {
            country_code: 84,
            name: "Belize",
            alpha2: Alpha2::BZ,
            alpha3: Alpha3::BLZ,
            region: Region::Americas,
            sub_region: SubRegion::LatinAmericaAndTheCaribbean,
            intermediate_region: IntermediateRegion::CentralAmerica,
            region_code: 19,
            sub_region_code: 419,
            intermediate_region_code: Some(13),
        },
        23 => Definition {
            country_code: 204,
            name: "Benin",
            alpha2: Alpha2::BJ,
            alpha3: Alpha3::BEN,
            region: Region::Africa,
            sub_region: SubRegion::SubSaharanAfrica,
            intermediate_region: IntermediateRegion::WesternAfrica,
            region_code: 2,
            sub_region_code: 202,
            intermediate_region_code: Some(11),
        },
        24 => Definition {
            country_code: 60,
            name: "Bermuda",
            alpha2: Alpha2::BM,
            alpha3: Alpha3::BMU,
            region: Region::Americas,
            sub_region: SubRegion::NorthernAmerica,
            intermediate_region: IntermediateRegion::Undefined,
            region_code: 19,
            sub_region_code: 21,
            intermediate_region_code: None,
        },
        25 => Definition {
            country_code: 64,
            name: "Bhutan",
            alpha2: Alpha2::BT,
            alpha3: Alpha3::BTN,
            region: Region::Asia,
            sub_region: SubRegion::SouthernAsia,
            intermediate_region: IntermediateRegion::Undefined,
            region_code: 142,
            sub_region_code: 34,
            intermediate_region_code: None,
        },
        26 => Definition {
            country_code: 68,
            name: "Bolivia (Plurinational State of)",
            alpha2: Alpha2::BO,
            alpha3: Alpha3::BOL,
            region: Region::Americas,
            sub_region: SubRegion::LatinAmericaAndTheCaribbean,
            intermediate_region: IntermediateRegion::SouthAmerica,
            region_code: 19,
            sub_region_code: 419,
            intermediate_region_code: Some(5),
        },
        27 => Definition {
            country_code: 535,
            name: "Bonaire, Sint Eustatius and Saba",
            alpha2: Alpha2::BQ,
            alpha3: Alpha3::BES,
            region: Region::Americas,
            sub_region: SubRegion::LatinAmericaAndTheCaribbean,
            intermediate_region: IntermediateRegion::Caribbean,
            region_code: 19,
            sub_region_code: 419,
            intermediate_region_code: Some(29),
        },
        28 => Definition {
            country_code: 70,
            name: "Bosnia and Herzegovina",
            alpha2: Alpha2::BA,
            alpha3: Alpha3::BIH,
            region: Region::Europe,
            sub_region: SubRegion::SouthernEurope,
            intermediate_region: IntermediateRegion::Undefined,
            region_code: 150,
            sub_region_code: 39,
            intermediate_region_code: None,
        },
        29 => Definition {
            country_code: 72,
            name: "Botswana",
            alpha2: Alpha2::BW,
            alpha3: Alpha3::BWA,
            region: Region::Africa,
            sub_region: SubRegion::SubSaharanAfrica,
            intermediate_region: IntermediateRegion::SouthernAfrica,
            region_code: 2,
            sub_region_code: 202,
            intermediate_region_code: Some(18),
        },
        30 => Definition {
            country_code: 74,
            name: "Bouvet Island",
            alpha2: Alpha2::BV,
            alpha3: Alpha3::BVT,
            region: Region::Americas,
            sub_region: SubRegion::LatinAmericaAndTheCaribbean,
            intermediate_region: IntermediateRegion::SouthAmerica,
            region_code: 19,
            sub_region_code: 419,
            intermediate_region_code: Some(5),
        },
        31 => Definition {
            country_code: 76,
            name: "Brazil",
            alpha2: Alpha2::BR,
            alpha3: Alpha3::BRA,
            region: Region::Americas,
            sub_region: SubRegion::LatinAmericaAndTheCaribbean,
            intermediate_region: IntermediateRegion::SouthAmerica,
            region_code: 19,
            sub_region_code: 419,
            intermediate_region_code: Some(5),
        },
        32 => Definition {
            country_code: 86,
            name: "British Indian Ocean Territory",
            alpha2: Alpha2::IO,
            alpha3: Alpha3::IOT,
            region: Region::Africa,
            sub_region: SubRegion::SubSaharanAfrica,
            intermediate_region: IntermediateRegion::EasternAfrica,
            region_code: 2,
            sub_region_code: 202,
            intermediate_region_code: Some(14),
        },
        33 => Definition {
            country_code: 96,
            name: "Brunei Darussalam",
            alpha2: Alpha2::BN,
            alpha3: Alpha3::BRN,
            region: Region::Asia,
            sub_region: SubRegion::SouthEasternAsia,
            intermediate_region: IntermediateRegion::Undefined,
            region_code: 142,
            sub_region_code: 35,
            intermediate_region_code: None,
        },
        34 => Definition {
            country_code: 100,
            name: "Bulgaria",
            alpha2: Alpha2::BG,
            alpha3: Alpha3::BGR,
            region: Region::Europe,
            sub_region: SubRegion::EasternEurope,
            intermediate_region: IntermediateRegion::Undefined,
            region_code: 150,
            sub_region_code: 151,
            intermediate_region_code: None,
        },
        35 => Definition {
            country_code: 854,
            name: "Burkina Faso",
            alpha2: Alpha2::BF,
            alpha3: Alpha3::BFA,
            region: Region::Africa,
            sub_region: SubRegion::SubSaharanAfrica,
            intermediate_region: IntermediateRegion::WesternAfrica,
            region_code: 2,
            sub_region_code: 202,
            intermediate_region_code: Some(11),
        },
        36 => Definition {
            country_code: 108,
            name: "Burundi",
            alpha2: Alpha2::BI,
            alpha3: Alpha3::BDI,
            region: Region::Africa,
            sub_region: SubRegion::SubSaharanAfrica,
            intermediate_region: IntermediateRegion::EasternAfrica,
            region_code: 2,
            sub_region_code: 202,
            intermediate_region_code: Some(14),
        },
        37 => Definition {
            country_code: 132,
            name: "Cabo Verde",
            alpha2: Alpha2::CV,
            alpha3: Alpha3::CPV,
            region: Region::Africa,
            sub_region: SubRegion::SubSaharanAfrica,
            intermediate_region: IntermediateRegion::WesternAfrica,
            region_code: 2,
            sub_region_code: 202,
            intermediate_region_code: Some(11),
        },
        38 => Definition {
            country_code: 116,
            name: "Cambodia",
            alpha2: Alpha2::KH,
            alpha3: Alpha3::KHM,
            region: Region::Asia,
            sub_region: SubRegion::SouthEasternAsia,
            intermediate_region: IntermediateRegion::Undefined,
            region_code: 142,
            sub_region_code: 35,
            intermediate_region_code: None,
        },
        39 => Definition {
            country_code: 120,
            name: "Cameroon",
            alpha2: Alpha2::CM,
            alpha3: Alpha3::CMR,
            region: Region::Africa,
            sub_region: SubRegion::SubSaharanAfrica,
            intermediate_region: IntermediateRegion::MiddleAfrica,
            region_code: 2,
            sub_region_code: 202,
            intermediate_region_code: Some(17),
        },
        40 => Definition {
            country_code: 124,
            name: "Canada",
            alpha2: Alpha2::CA,
            alpha3: Alpha3::CAN,
            region: Region::Americas,
            sub_region: SubRegion::NorthernAmerica,
            intermediate_region: IntermediateRegion::Undefined,
            region_code: 19,
            sub_region_code: 21,
            intermediate_region_code: None,
        },
        41 => Definition {
            country_code: 136,
            name: "Cayman Islands",
            alpha2: Alpha2::KY,
            alpha3: Alpha3::CYM,
            region: Region::Americas,
            sub_region: SubRegion::LatinAmericaAndTheCaribbean,
            intermediate_region: IntermediateRegion::Caribbean,
            region_code: 19,
            sub_region_code: 419,
            intermediate_region_code: Some(29),
        },
        42 => Definition {
            country_code: 140,
            name: "Central African Republic",
            alpha2: Alpha2::CF,
            alpha3: Alpha3::CAF,
            region: Region::Africa,
            sub_region: SubRegion::SubSaharanAfrica,
            intermediate_region: IntermediateRegion::MiddleAfrica,
            region_code: 2,
            sub_region_code: 202,
            intermediate_region_code: Some(17),
        },
        43 => Definition {
            country_code: 148,
            name: "Chad",
            alpha2: Alpha2::TD,
            alpha3: Alpha3::TCD,
            region: Region::Africa,
            sub_region: SubRegion::SubSaharanAfrica,
            intermediate_region: IntermediateRegion::MiddleAfrica,
            region_code: 2,
            sub_region_code: 202,
            intermediate_region_code: Some(17),
        },
        44 => Definition {
            country_code: 152,
            name: "Chile",
            alpha2: Alpha2::CL,
            alpha3: Alpha3::CHL,
            region: Region::Americas,
            sub_region: SubRegion::LatinAmericaAndTheCaribbean,
            intermediate_region: IntermediateRegion::SouthAmerica,
            region_code: 19,
            sub_region_code: 419,
            intermediate_region_code: Some(5),
        },
        45 => Definition {
            country_code: 156,
            name: "China",
            alpha2: Alpha2::CN,
            alpha3: Alpha3::CHN,
            region: Region::Asia,
            sub_region: SubRegion::EasternAsia,
            intermediate_region: IntermediateRegion::Undefined,
            region_code: 142,
            sub_region_code: 30,
            intermediate_region_code: None,
        },
        46 => Definition {
            country_code: 162,
            name: "Christmas Island",
            alpha2: Alpha2::CX,
            alpha3: Alpha3::CXR,
            region: Region::Oceania,
            sub_region: SubRegion::AustraliaAndNewZealand,
            intermediate_region: IntermediateRegion::Undefined,
            region_code: 9,
            sub_region_code: 53,
            intermediate_region_code: None,
        },
        47 => Definition {
            country_code: 166,
            name: "Cocos (Keeling) Islands",
            alpha2: Alpha2::CC,
            alpha3: Alpha3::CCK,
            region: Region::Oceania,
            sub_region: SubRegion::AustraliaAndNewZealand,
            intermediate_region: IntermediateRegion::Undefined,
            region_code: 9,
            sub_region_code: 53,
            intermediate_region_code: None,
        },
        48 => Definition {
            country_code: 170,
            name: "Colombia",
            alpha2: Alpha2::CO,
            alpha3: Alpha3::COL,
            region: Region::Americas,
            sub_region: SubRegion::LatinAmericaAndTheCaribbean,
            intermediate_region: IntermediateRegion::SouthAmerica,
            region_code: 19,
            sub_region_code: 419,
            intermediate_region_code: Some(5),
        },
        49 => Definition {
            country_code: 174,
            name: "Comoros",
            alpha2: Alpha2::KM,
            alpha3: Alpha3::COM,
            region: Region::Africa,
            sub_region: SubRegion::SubSaharanAfrica,
            intermediate_region: IntermediateRegion::EasternAfrica,
            region_code: 2,
            sub_region_code: 202,
            intermediate_region_code: Some(14),
        },
        50 => Definition {
            country_code: 178,
            name: "Congo",
            alpha2: Alpha2::CG,
            alpha3: Alpha3::COG,
            region: Region::Africa,
            sub_region: SubRegion::SubSaharanAfrica,
            intermediate_region: IntermediateRegion::MiddleAfrica,
            region_code: 2,
            sub_region_code: 202,
            intermediate_region_code: Some(17),
        },
        51 => Definition {
            country_code: 180,
            name: "Congo, Democratic Republic of the",
            alpha2: Alpha2::CD,
            alpha3: Alpha3::COD,
            region: Region::Africa,
            sub_region: SubRegion::SubSaharanAfrica,
            intermediate_region: IntermediateRegion::MiddleAfrica,
            region_code: 2,
            sub_region_code: 202,
            intermediate_region_code: Some(17),
        },
        52 => Definition {
            country_code: 184,
            name: "Cook Islands",
            alpha2: Alpha2::CK,
            alpha3: Alpha3::COK,
            region: Region::Oceania,
            sub_region: SubRegion::Polynesia,
            intermediate_region: IntermediateRegion::Undefined,
            region_code: 9,
            sub_region_code: 61,
            intermediate_region_code: None,
        },
        53 => Definition {
            country_code: 188,
            name: "Costa Rica",
            alpha2: Alpha2::CR,
            alpha3: Alpha3::CRI,
            region: Region::Americas,
            sub_region: SubRegion::LatinAmericaAndTheCaribbean,
            intermediate_region: IntermediateRegion::CentralAmerica,
            region_code: 19,
            sub_region_code: 419,
            intermediate_region_code: Some(13),
        },
        54 => Definition {
            country_code: 384,
            name: "Côte d'Ivoire",
            alpha2: Alpha2::CI,
            alpha3: Alpha3::CIV,
            region: Region::Africa,
            sub_region: SubRegion::SubSaharanAfrica,
            intermediate_region: IntermediateRegion::WesternAfrica,
            region_code: 2,
            sub_region_code: 202,
            intermediate_region_code: Some(11),
        },
        55 => Definition {
            country_code: 191,
            name: "Croatia",
            alpha2: Alpha2::HR,
            alpha3: Alpha3::HRV,
            region: Region::Europe,
            sub_region: SubRegion::SouthernEurope,
            intermediate_region: IntermediateRegion::Undefined,
            region_code: 150,
            sub_region_code: 39,
            intermediate_region_code: None,
        },
        56 => Definition {
            country_code: 192,
            name: "Cuba",
            alpha2: Alpha2::CU,
            alpha3: Alpha3::CUB,
            region: Region::Americas,
            sub_region: SubRegion::LatinAmericaAndTheCaribbean,
            intermediate_region: IntermediateRegion::Caribbean,
            region_code: 19,
            sub_region_code: 419,
            intermediate_region_code: Some(29),
        },
        57 => Definition {
            country_code: 531,
            name: "Curaçao",
            alpha2: Alpha2::CW,
            alpha3: Alpha3::CUW,
            region: Region::Americas,
            sub_region: SubRegion::LatinAmericaAndTheCaribbean,
            intermediate_region: IntermediateRegion::Caribbean,
            region_code: 19,
            sub_region_code: 419,
            intermediate_region_code: Some(29),
        },
        58 => Definition {
            country_code: 196,
            name: "Cyprus",
            alpha2: Alpha2::CY,
            alpha3: Alpha3::CYP,
            region: Region::Asia,
            sub_region: SubRegion::WesternAsia,
            intermediate_region: IntermediateRegion::Undefined,
            region_code: 142,
            sub_region_code: 145,
            intermediate_region_code: None,
        },
        59 => Definition {
            country_code: 203,
            name: "Czechia",
            alpha2: Alpha2::CZ,
            alpha3: Alpha3::CZE,
            region: Region::Europe,
            sub_region: SubRegion::EasternEurope,
            intermediate_region: IntermediateRegion::Undefined,
            region_code: 150,
            sub_region_code: 151,
            intermediate_region_code: None,
        },
        60 => Definition {
            country_code: 208,
            name: "Denmark",
            alpha2: Alpha2::DK,
            alpha3: Alpha3::DNK,
            region: Region::Europe,
            sub_region: SubRegion::NorthernEurope,
            intermediate_region: IntermediateRegion::Undefined,
            region_code: 150,
            sub_region_code: 154,
            intermediate_region_code: None,
        },
        61 => Definition {
            country_code: 262,
            name: "Djibouti",
            alpha2: Alpha2::DJ,
            alpha3: Alpha3::DJI,
            region: Region::Africa,
            sub_region: SubRegion::SubSaharanAfrica,
            intermediate_region: IntermediateRegion::EasternAfrica,
            region_code: 2,
            sub_region_code: 202,
            intermediate_region_code: Some(14),
        },
        62 => Definition {
            country_code: 212,
            name: "Dominica",
            alpha2: Alpha2::DM,
            alpha3: Alpha3::DMA,
            region: Region::Americas,
            sub_region: SubRegion::LatinAmericaAndTheCaribbean,
            intermediate_region: IntermediateRegion::Caribbean,
            region_code: 19,
            sub_region_code: 419,
            intermediate_region_code: Some(29),
        },
        63 => Definition {
            country_code: 214,
            name: "Dominican Republic",
            alpha2: Alpha2::DO,
            alpha3: Alpha3::DOM,
            region: Region::Americas,
            sub_region: SubRegion::LatinAmericaAndTheCaribbean,
            intermediate_region: IntermediateRegion::Caribbean,
            region_code: 19,
            sub_region_code: 419,
            intermediate_region_code: Some(29),
        },
        64 => Definition {
            country_code: 218,
            name: "Ecuador",
            alpha2: Alpha2::EC,
            alpha3: Alpha3::ECU,
            region: Region::Americas,
            sub_region: SubRegion::LatinAmericaAndTheCaribbean,
            intermediate_region: IntermediateRegion::SouthAmerica,
            region_code: 19,
            sub_region_code: 419,
            intermediate_region_code: Some(5),
        },
        65 => Definition {
            country_code: 818,
            name: "Egypt",
            alpha2: Alpha2::EG,
            alpha3: Alpha3::EGY,
            region: Region::Africa,
            sub_region: SubRegion::NorthernAfrica,
            intermediate_region: IntermediateRegion::Undefined,
            region_code: 2,
            sub_region_code: 15,
            intermediate_region_code: None,
        },
        66 => Definition {
            country_code: 222,
            name: "El Salvador",
            alpha2: Alpha2::SV,
            alpha3: Alpha3::SLV,
            region: Region::Americas,
            sub_region: SubRegion::LatinAmericaAndTheCaribbean,
            intermediate_region: IntermediateRegion::CentralAmerica,
            region_code: 19,
            sub_region_code: 419,
            intermediate_region_code: Some(13),
        },
        67 => Definition {
            country_code: 226,
            name: "Equatorial Guinea",
            alpha2: Alpha2::GQ,
            alpha3: Alpha3::GNQ,
            region: Region::Africa,
            sub_region: SubRegion::SubSaharanAfrica,
            intermediate_region: IntermediateRegion::MiddleAfrica,
            region_code: 2,
            sub_region_code: 202,
            intermediate_region_code: Some(17),
        },
        68 => Definition {
            country_code: 232,
            name: "Eritrea",
            alpha2: Alpha2::ER,
            alpha3: Alpha3::ERI,
            region: Region::Africa,
            sub_region: SubRegion::SubSaharanAfrica,
            intermediate_region: IntermediateRegion::EasternAfrica,
            region_code: 2,
            sub_region_code: 202,
            intermediate_region_code: Some(14),
        },
        69 => Definition {
            country_code: 233,
            name: "Estonia",
            alpha2: Alpha2::EE,
            alpha3: Alpha3::EST,
            region: Region::Europe,
            sub_region: SubRegion::NorthernEurope,
            intermediate_region: IntermediateRegion::Undefined,
            region_code: 150,
            sub_region_code: 154,
            intermediate_region_code: None,
        },
        70 => Definition {
            country_code: 748,
            name: "Eswatini",
            alpha2: Alpha2::SZ,
            alpha3: Alpha3::SWZ,
            region: Region::Africa,
            sub_region: SubRegion::SubSaharanAfrica,
            intermediate_region: IntermediateRegion::SouthernAfrica,
            region_code: 2,
            sub_region_code: 202,
            intermediate_region_code: Some(18),
        },
        71 => Definition {
            country_code: 231,
            name: "Ethiopia",
            alpha2: Alpha2::ET,
            alpha3: Alpha3::ETH,
            region: Region::Africa,
            sub_region: SubRegion::SubSaharanAfrica,
            intermediate_region: IntermediateRegion::EasternAfrica,
            region_code: 2,
            sub_region_code: 202,
            intermediate_region_code: Some(14),
        },
        72 => Definition {
            country_code: 238,
            name: "Falkland Islands (Malvinas)",
            alpha2: Alpha2::FK,
            alpha3: Alpha3::FLK,
            region: Region::Americas,
            sub_region: SubRegion::LatinAmericaAndTheCaribbean,
            intermediate_region: IntermediateRegion::SouthAmerica,
            region_code: 19,
            sub_region_code: 419,
            intermediate_region_code: Some(5),
        },
        73 => Definition {
            country_code: 234,
            name: "Faroe Islands",
            alpha2: Alpha2::FO,
            alpha3: Alpha3::FRO,
            region: Region::Europe,
            sub_region: SubRegion::NorthernEurope,
            intermediate_region: IntermediateRegion::Undefined,
            region_code: 150,
            sub_region_code: 154,
            intermediate_region_code: None,
        },
        74 => Definition {
            country_code: 242,
            name: "Fiji",
            alpha2: Alpha2::FJ,
            alpha3: Alpha3::FJI,
            region: Region::Oceania,
            sub_region: SubRegion::Melanesia,
            intermediate_region: IntermediateRegion::Undefined,
            region_code: 9,
            sub_region_code: 54,
            intermediate_region_code: None,
        },
        75 => Definition {
            country_code: 246,
            name: "Finland",
            alpha2: Alpha2::FI,
            alpha3: Alpha3::FIN,
            region: Region::Europe,
            sub_region: SubRegion::NorthernEurope,
            intermediate_region: IntermediateRegion::Undefined,
            region_code: 150,
            sub_region_code: 154,
            intermediate_region_code: None,
        },
        76 => Definition {
            country_code: 250,
            name: "France",
            alpha2: Alpha2::FR,
            alpha3: Alpha3::FRA,
            region: Region::Europe,
            sub_region: SubRegion::WesternEurope,
            intermediate_region: IntermediateRegion::Undefined,
            region_code: 150,
            sub_region_code: 155,
            intermediate_region_code: None,
        },
        77 => Definition {
            country_code: 254,
            name: "French Guiana",
            alpha2: Alpha2::GF,
            alpha3: Alpha3::GUF,
            region: Region::Americas,
            sub_region: SubRegion::LatinAmericaAndTheCaribbean,
            intermediate_region: IntermediateRegion::SouthAmerica,
            region_code: 19,
            sub_region_code: 419,
            intermediate_region_code: Some(5),
        },
        78 => Definition {
            country_code: 258,
            name: "French Polynesia",
            alpha2: Alpha2::PF,
            alpha3: Alpha3::PYF,
            region: Region::Oceania,
            sub_region: SubRegion::Polynesia,
            intermediate_region: IntermediateRegion::Undefined,
            region_code: 9,
            sub_region_code: 61,
            intermediate_region_code: None,
        },
        79 => Definition {
            country_code: 260,
            name: "French Southern Territories",
            alpha2: Alpha2::TF,
            alpha3: Alpha3::ATF,
            region: Region::Africa,
            sub_region: SubRegion::SubSaharanAfrica,
            intermediate_region: IntermediateRegion::EasternAfrica,
            region_code: 2,
            sub_region_code: 202,
            intermediate_region_code: Some(14),
        },
        80 => Definition {
            country_code: 266,
            name: "Gabon",
            alpha2: Alpha2::GA,
            alpha3: Alpha3::GAB,
            region: Region::Africa,
            sub_region: SubRegion::SubSaharanAfrica,
            intermediate_region: IntermediateRegion::MiddleAfrica,
            region_code: 2,
            sub_region_code: 202,
            intermediate_region_code: Some(17),
        },
        81 => Definition {
            country_code: 270,
            name: "Gambia",
            alpha2: Alpha2::GM,
            alpha3: Alpha3::GMB,
            region: Region::Africa,
            sub_region: SubRegion::SubSaharanAfrica,
            intermediate_region: IntermediateRegion::WesternAfrica,
            region_code: 2,
            sub_region_code: 202,
            intermediate_region_code: Some(11),
        },
        82 => Definition {
            country_code: 268,
            name: "Georgia",
            alpha2: Alpha2::GE,
            alpha3: Alpha3::GEO,
            region: Region::Asia,
            sub_region: SubRegion::WesternAsia,
            intermediate_region: IntermediateRegion::Undefined,
            region_code: 142,
            sub_region_code: 145,
            intermediate_region_code: None,
        },
        83 => Definition {
            country_code: 276,
            name: "Germany",
            alpha2: Alpha2::DE,
            alpha3: Alpha3::DEU,
            region: Region::Europe,
            sub_region: SubRegion::WesternEurope,
            intermediate_region: IntermediateRegion::Undefined,
            region_code: 150,
            sub_region_code: 155,
            intermediate_region_code: None,
        },
        84 => Definition {
            country_code: 288,
            name: "Ghana",
            alpha2: Alpha2::GH,
            alpha3: Alpha3::GHA,
            region: Region::Africa,
            sub_region: SubRegion::SubSaharanAfrica,
            intermediate_region: IntermediateRegion::WesternAfrica,
            region_code: 2,
            sub_region_code: 202,
            intermediate_region_code: Some(11),
        },
        85 => Definition {
            country_code: 292,
            name: "Gibraltar",
            alpha2: Alpha2::GI,
            alpha3: Alpha3::GIB,
            region: Region::Europe,
            sub_region: SubRegion::SouthernEurope,
            intermediate_region: IntermediateRegion::Undefined,
            region_code: 150,
            sub_region_code: 39,
            intermediate_region_code: None,
        },
        86 => Definition {
            country_code: 300,
            name: "Greece",
            alpha2: Alpha2::GR,
            alpha3: Alpha3::GRC,
            region: Region::Europe,
            sub_region: SubRegion::SouthernEurope,
            intermediate_region: IntermediateRegion::Undefined,
            region_code: 150,
            sub_region_code: 39,
            intermediate_region_code: None,
        },
        87 => Definition {
            country_code: 304,
            name: "Greenland",
            alpha2: Alpha2::GL,
            alpha3: Alpha3::GRL,
            region: Region::Americas,
            sub_region: SubRegion::NorthernAmerica,
            intermediate_region: IntermediateRegion::Undefined,
            region_code: 19,
            sub_region_code: 21,
            intermediate_region_code: None,
        },
        88 => Definition {
            country_code: 308,
            name: "Grenada",
            alpha2: Alpha2::GD,
            alpha3: Alpha3::GRD,
            region: Region::Americas,
            sub_region: SubRegion::LatinAmericaAndTheCaribbean,
            intermediate_region: IntermediateRegion::Caribbean,
            region_code: 19,
            sub_region_code: 419,
            intermediate_region_code: Some(29),
        },
        89 => Definition {
            country_code: 312,
            name: "Guadeloupe",
            alpha2: Alpha2::GP,
            alpha3: Alpha3::GLP,
            region: Region::Americas,
            sub_region: SubRegion::LatinAmericaAndTheCaribbean,
            intermediate_region: IntermediateRegion::Caribbean,
            region_code: 19,
            sub_region_code: 419,
            intermediate_region_code: Some(29),
        },
        90 => Definition {
            country_code: 316,
            name: "Guam",
            alpha2: Alpha2::GU,
            alpha3: Alpha3::GUM,
            region: Region::Oceania,
            sub_region: SubRegion::Micronesia,
            intermediate_region: IntermediateRegion::Undefined,
            region_code: 9,
            sub_region_code: 57,
            intermediate_region_code: None,
        },
        91 => Definition {
            country_code: 320,
            name: "Guatemala",
            alpha2: Alpha2::GT,
            alpha3: Alpha3::GTM,
            region: Region::Americas,
            sub_region: SubRegion::LatinAmericaAndTheCaribbean,
            intermediate_region: IntermediateRegion::CentralAmerica,
            region_code: 19,
            sub_region_code: 419,
            intermediate_region_code: Some(13),
        },
        92 => Definition {
            country_code: 831,
            name: "Guernsey",
            alpha2: Alpha2::GG,
            alpha3: Alpha3::GGY,
            region: Region::Europe,
            sub_region: SubRegion::NorthernEurope,
            intermediate_region: IntermediateRegion::ChannelIslands,
            region_code: 150,
            sub_region_code: 154,
            intermediate_region_code: Some(830),
        },
        93 => Definition {
            country_code: 324,
            name: "Guinea",
            alpha2: Alpha2::GN,
            alpha3: Alpha3::GIN,
            region: Region::Africa,
            sub_region: SubRegion::SubSaharanAfrica,
            intermediate_region: IntermediateRegion::WesternAfrica,
            region_code: 2,
            sub_region_code: 202,
            intermediate_region_code: Some(11),
        },
        94 => Definition {
            country_code: 624,
            name: "Guinea-Bissau",
            alpha2: Alpha2::GW,
            alpha3: Alpha3::GNB,
            region: Region::Africa,
            sub_region: SubRegion::SubSaharanAfrica,
            intermediate_region: IntermediateRegion::WesternAfrica,
            region_code: 2,
            sub_region_code: 202,
            intermediate_region_code: Some(11),
        },
        95 => Definition {
            country_code: 328,
            name: "Guyana",
            alpha2: Alpha2::GY,
            alpha3: Alpha3::GUY,
            region: Region::Americas,
            sub_region: SubRegion::LatinAmericaAndTheCaribbean,
            intermediate_region: IntermediateRegion::SouthAmerica,
            region_code: 19,
            sub_region_code: 419,
            intermediate_region_code: Some(5),
        },
        96 => Definition {
            country_code: 332,
            name: "Haiti",
            alpha2: Alpha2::HT,
            alpha3: Alpha3::HTI,
            region: Region::Americas,
            sub_region: SubRegion::LatinAmericaAndTheCaribbean,
            intermediate_region: IntermediateRegion::Caribbean,
            region_code: 19,
            sub_region_code: 419,
            intermediate_region_code: Some(29),
        },
        97 => Definition {
            country_code: 334,
            name: "Heard Island and McDonald Islands",
            alpha2: Alpha2::HM,
            alpha3: Alpha3::HMD,
            region: Region::Oceania,
            sub_region: SubRegion::AustraliaAndNewZealand,
            intermediate_region: IntermediateRegion::Undefined,
            region_code: 9,
            sub_region_code: 53,
            intermediate_region_code: None,
        },
        98 => Definition {
            country_code: 336,
            name: "Holy See",
            alpha2: Alpha2::VA,
            alpha3: Alpha3::VAT,
            region: Region::Europe,
            sub_region: SubRegion::SouthernEurope,
            intermediate_region: IntermediateRegion::Undefined,
            region_code: 150,
            sub_region_code: 39,
            intermediate_region_code: None,
        },
        99 => Definition {
            country_code: 340,
            name: "Honduras",
            alpha2: Alpha2::HN,
            alpha3: Alpha3::HND,
            region: Region::Americas,
            sub_region: SubRegion::LatinAmericaAndTheCaribbean,
            intermediate_region: IntermediateRegion::CentralAmerica,
            region_code: 19,
            sub_region_code: 419,
            intermediate_region_code: Some(13),
        },
        100 => Definition {
            country_code: 344,
            name: "Hong Kong",
            alpha2: Alpha2::HK,
            alpha3: Alpha3::HKG,
            region: Region::Asia,
            sub_region: SubRegion::EasternAsia,
            intermediate_region: IntermediateRegion::Undefined,
            region_code: 142,
            sub_region_code: 30,
            intermediate_region_code: None,
        },
        101 => Definition {
            country_code: 348,
            name: "Hungary",
            alpha2: Alpha2::HU,
            alpha3: Alpha3::HUN,
            region: Region::Europe,
            sub_region: SubRegion::EasternEurope,
            intermediate_region: IntermediateRegion::Undefined,
            region_code: 150,
            sub_region_code: 151,
            intermediate_region_code: None,
        },
        102 => Definition {
            country_code: 352,
            name: "Iceland",
            alpha2: Alpha2::IS,
            alpha3: Alpha3::ISL,
            region: Region::Europe,
            sub_region: SubRegion::NorthernEurope,
            intermediate_region: IntermediateRegion::Undefined,
            region_code: 150,
            sub_region_code: 154,
            intermediate_region_code: None,
        },
        103 => Definition {
            country_code: 356,
            name: "India",
            alpha2: Alpha2::IN,
            alpha3: Alpha3::IND,
            region: Region::Asia,
            sub_region: SubRegion::SouthernAsia,
            intermediate_region: IntermediateRegion::Undefined,
            region_code: 142,
            sub_region_code: 34,
            intermediate_region_code: None,
        },
        104 => Definition {
            country_code: 360,
            name: "Indonesia",
            alpha2: Alpha2::ID,
            alpha3: Alpha3::IDN,
            region: Region::Asia,
            sub_region: SubRegion::SouthEasternAsia,
            intermediate_region: IntermediateRegion::Undefined,
            region_code: 142,
            sub_region_code: 35,
            intermediate_region_code: None,
        },
        105 => Definition {
            country_code: 364,
            name: "Iran (Islamic Republic of)",
            alpha2: Alpha2::IR,
            alpha3: Alpha3::IRN,
            region: Region::Asia,
            sub_region: SubRegion::SouthernAsia,
            intermediate_region: IntermediateRegion::Undefined,
            region_code: 142,
            sub_region_code: 34,
            intermediate_region_code: None,
        },
        106 => Definition {
            country_code: 368,
            name: "Iraq",
            alpha2: Alpha2::IQ,
            alpha3: Alpha3::IRQ,
            region: Region::Asia,
            sub_region: SubRegion::WesternAsia,
            intermediate_region: IntermediateRegion::Undefined,
            region_code: 142,
            sub_region_code: 145,
            intermediate_region_code: None,
        },
        107 => Definition {
            country_code: 372,
            name: "Ireland",
            alpha2: Alpha2::IE,
            alpha3: Alpha3::IRL,
            region: Region::Europe,
            sub_region: SubRegion::NorthernEurope,
            intermediate_region: IntermediateRegion::Undefined,
            region_code: 150,
            sub_region_code: 154,
            intermediate_region_code: None,
        },
        108 => Definition {
            country_code: 833,
            name: "Isle of Man",
            alpha2: Alpha2::IM,
            alpha3: Alpha3::IMN,
            region: Region::Europe,
            sub_region: SubRegion::NorthernEurope,
            intermediate_region: IntermediateRegion::Undefined,
            region_code: 150,
            sub_region_code: 154,
            intermediate_region_code: None,
        },
        109 => Definition {
            country_code: 376,
            name: "Israel",
            alpha2: Alpha2::IL,
            alpha3: Alpha3::ISR,
            region: Region::Asia,
            sub_region: SubRegion::WesternAsia,
            intermediate_region: IntermediateRegion::Undefined,
            region_code: 142,
            sub_region_code: 145,
            intermediate_region_code: None,
        },
        110 => Definition {
            country_code: 380,
            name: "Italy",
            alpha2: Alpha2::IT,
            alpha3: Alpha3::ITA,
            region: Region::Europe,
            sub_region: SubRegion::SouthernEurope,
            intermediate_region: IntermediateRegion::Undefined,
            region_code: 150,
            sub_region_code: 39,
            intermediate_region_code: None,
        },
        111 => Definition {
            country_code: 388,
            name: "Jamaica",
            alpha2: Alpha2::JM,
            alpha3: Alpha3::JAM,
            region: Region::Americas,
            sub_region: SubRegion::LatinAmericaAndTheCaribbean,
            intermediate_region: IntermediateRegion::Caribbean,
            region_code: 19,
            sub_region_code: 419,
            intermediate_region_code: Some(29),
        },
        112 => Definition {
            country_code: 392,
            name: "Japan",
            alpha2: Alpha2::JP,
            alpha3: Alpha3::JPN,
            region: Region::Asia,
            sub_region: SubRegion::EasternAsia,
            intermediate_region: IntermediateRegion::Undefined,
            region_code: 142,
            sub_region_code: 30,
            intermediate_region_code: None,
        },
        113 => Definition {
            country_code: 832,
            name: "Jersey",
            alpha2: Alpha2::JE,
            alpha3: Alpha3::JEY,
            region: Region::Europe,
            sub_region: SubRegion::NorthernEurope,
            intermediate_region: IntermediateRegion::ChannelIslands,
            region_code: 150,
            sub_region_code: 154,
            intermediate_region_code: Some(830),
        },
        114 => Definition {
            country_code: 400,
            name: "Jordan",
            alpha2: Alpha2::JO,
            alpha3: Alpha3::JOR,
            region: Region::Asia,
            sub_region: SubRegion::WesternAsia,
            intermediate_region: IntermediateRegion::Undefined,
            region_code: 142,
            sub_region_code: 145,
            intermediate_region_code: None,
        },
        115 => Definition {
            country_code: 398,
            name: "Kazakhstan",
            alpha2: Alpha2::KZ,
            alpha3: Alpha3::KAZ,
            region: Region::Asia,
            sub_region: SubRegion::CentralAsia,
            intermediate_region: IntermediateRegion::Undefined,
            region_code: 142,
            sub_region_code: 143,
            intermediate_region_code: None,
        },
        116 => Definition {
            country_code: 404,
            name: "Kenya",
            alpha2: Alpha2::KE,
            alpha3: Alpha3::KEN,
            region: Region::Africa,
            sub_region: SubRegion::SubSaharanAfrica,
            intermediate_region: IntermediateRegion::EasternAfrica,
            region_code: 2,
            sub_region_code: 202,
            intermediate_region_code: Some(14),
        },
        117 => Definition {
            country_code: 296,
            name: "Kiribati",
            alpha2: Alpha2::KI,
            alpha3: Alpha3::KIR,
            region: Region::Oceania,
            sub_region: SubRegion::Micronesia,
            intermediate_region: IntermediateRegion::Undefined,
            region_code: 9,
            sub_region_code: 57,
            intermediate_region_code: None,
        },
        118 => Definition {
            country_code: 408,
            name: "Korea (Democratic People's Republic of)",
            alpha2: Alpha2::KP,
            alpha3: Alpha3::PRK,
            region: Region::Asia,
            sub_region: SubRegion::EasternAsia,
            intermediate_region: IntermediateRegion::Undefined,
            region_code: 142,
            sub_region_code: 30,
            intermediate_region_code: None,
        },
        119 => Definition {
            country_code: 410,
            name: "Korea, Republic of",
            alpha2: Alpha2::KR,
            alpha3: Alpha3::KOR,
            region: Region::Asia,
            sub_region: SubRegion::EasternAsia,
            intermediate_region: IntermediateRegion::Undefined,
            region_code: 142,
            sub_region_code: 30,
            intermediate_region_code: None,
        },
        120 => Definition {
            country_code: 414,
            name: "Kuwait",
            alpha2: Alpha2::KW,
            alpha3: Alpha3::KWT,
            region: Region::Asia,
            sub_region: SubRegion::WesternAsia,
            intermediate_region: IntermediateRegion::Undefined,
            region_code: 142,
            sub_region_code: 145,
            intermediate_region_code: None,
        },
        121 => Definition {
            country_code: 417,
            name: "Kyrgyzstan",
            alpha2: Alpha2::KG,
            alpha3: Alpha3::KGZ,
            region: Region::Asia,
            sub_region: SubRegion::CentralAsia,
            intermediate_region: IntermediateRegion::Undefined,
            region_code: 142,
            sub_region_code: 143,
            intermediate_region_code: None,
        },
        122 => Definition {
            country_code: 418,
            name: "Lao People's Democratic Republic",
            alpha2: Alpha2::LA,
            alpha3: Alpha3::LAO,
            region: Region::Asia,
            sub_region: SubRegion::SouthEasternAsia,
            intermediate_region: IntermediateRegion::Undefined,
            region_code: 142,
            sub_region_code: 35,
            intermediate_region_code: None,
        },
        123 => Definition {
            country_code: 428,
            name: "Latvia",
            alpha2: Alpha2::LV,
            alpha3: Alpha3::LVA,
            region: Region::Europe,
            sub_region: SubRegion::NorthernEurope,
            intermediate_region: IntermediateRegion::Undefined,
            region_code: 150,
            sub_region_code: 154,
            intermediate_region_code: None,
        },
        124 => Definition {
            country_code: 422,
            name: "Lebanon",
            alpha2: Alpha2::LB,
            alpha3: Alpha3::LBN,
            region: Region::Asia,
            sub_region: SubRegion::WesternAsia,
            intermediate_region: IntermediateRegion::Undefined,
            region_code: 142,
            sub_region_code: 145,
            intermediate_region_code: None,
        },
        125 => Definition {
            country_code: 426,
            name: "Lesotho",
            alpha2: Alpha2::LS,
            alpha3: Alpha3::LSO,
            region: Region::Africa,
            sub_region: SubRegion::SubSaharanAfrica,
            intermediate_region: IntermediateRegion::SouthernAfrica,
            region_code: 2,
            sub_region_code: 202,
            intermediate_region_code: Some(18),
        },
        126 => Definition {
            country_code: 430,
            name: "Liberia",
            alpha2: Alpha2::LR,
            alpha3: Alpha3::LBR,
            region: Region::Africa,
            sub_region: SubRegion::SubSaharanAfrica,
            intermediate_region: IntermediateRegion::WesternAfrica,
            region_code: 2,
            sub_region_code: 202,
            intermediate_region_code: Some(11),
        },
        127 => Definition {
            country_code: 434,
            name: "Libya",
            alpha2: Alpha2::LY,
            alpha3: Alpha3::LBY,
            region: Region::Africa,
            sub_region: SubRegion::NorthernAfrica,
            intermediate_region: IntermediateRegion::Undefined,
            region_code: 2,
            sub_region_code: 15,
            intermediate_region_code: None,
        },
        128 => Definition {
            country_code: 438,
            name: "Liechtenstein",
            alpha2: Alpha2::LI,
            alpha3: Alpha3::LIE,
            region: Region::Europe,
            sub_region: SubRegion::WesternEurope,
            intermediate_region: IntermediateRegion::Undefined,
            region_code: 150,
            sub_region_code: 155,
            intermediate_region_code: None,
        },
        129 => Definition {
            country_code: 440,
            name: "Lithuania",
            alpha2: Alpha2::LT,
            alpha3: Alpha3::LTU,
            region: Region::Europe,
            sub_region: SubRegion::NorthernEurope,
            intermediate_region: IntermediateRegion::Undefined,
            region_code: 150,
            sub_region_code: 154,
            intermediate_region_code: None,
        },
        130 => Definition {
            country_code: 442,
            name: "Luxembourg",
            alpha2: Alpha2::LU,
            alpha3: Alpha3::LUX,
            region: Region::Europe,
            sub_region: SubRegion::WesternEurope,
            intermediate_region: IntermediateRegion::Undefined,
            region_code: 150,
            sub_region_code: 155,
            intermediate_region_code: None,
        },
        131 => Definition {
            country_code: 446,
            name: "Macao",
            alpha2: Alpha2::MO,
            alpha3: Alpha3::MAC,
            region: Region::Asia,
            sub_region: SubRegion::EasternAsia,
            intermediate_region: IntermediateRegion::Undefined,
            region_code: 142,
            sub_region_code: 30,
            intermediate_region_code: None,
        },
        132 => Definition {
            country_code: 450,
            name: "Madagascar",
            alpha2: Alpha2::MG,
            alpha3: Alpha3::MDG,
            region: Region::Africa,
            sub_region: SubRegion::SubSaharanAfrica,
            intermediate_region: IntermediateRegion::EasternAfrica,
            region_code: 2,
            sub_region_code: 202,
            intermediate_region_code: Some(14),
        },
        133 => Definition {
            country_code: 454,
            name: "Malawi",
            alpha2: Alpha2::MW,
            alpha3: Alpha3::MWI,
            region: Region::Africa,
            sub_region: SubRegion::SubSaharanAfrica,
            intermediate_region: IntermediateRegion::EasternAfrica,
            region_code: 2,
            sub_region_code: 202,
            intermediate_region_code: Some(14),
        },
        134 => Definition {
            country_code: 458,
            name: "Malaysia",
            alpha2: Alpha2::MY,
            alpha3: Alpha3::MYS,
            region: Region::Asia,
            sub_region: SubRegion::SouthEasternAsia,
            intermediate_region: IntermediateRegion::Undefined,
            region_code: 142,
            sub_region_code: 35,
            intermediate_region_code: None,
        },
        135 => Definition {
            country_code: 462,
            name: "Maldives",
            alpha2: Alpha2::MV,
            alpha3: Alpha3::MDV,
            region: Region::Asia,
            sub_region: SubRegion::SouthernAsia,
            intermediate_region: IntermediateRegion::Undefined,
            region_code: 142,
            sub_region_code: 34,
            intermediate_region_code: None,
        },
        136 => Definition {
            country_code: 466,
            name: "Mali",
            alpha2: Alpha2::ML,
            alpha3: Alpha3::MLI,
            region: Region::Africa,
            sub_region: SubRegion::SubSaharanAfrica,
            intermediate_region: IntermediateRegion::WesternAfrica,
            region_code: 2,
            sub_region_code: 202,
            intermediate_region_code: Some(11),
        },
        137 => Definition {
            country_code: 470,
            name: "Malta",
            alpha2: Alpha2::MT,
            alpha3: Alpha3::MLT,
            region: Region::Europe,
            sub_region: SubRegion::SouthernEurope,
            intermediate_region: IntermediateRegion::Undefined,
            region_code: 150,
            sub_region_code: 39,
            intermediate_region_code: None,
        },
        138 => Definition {
            country_code: 584,
            name: "Marshall Islands",
            alpha2: Alpha2::MH,
            alpha3: Alpha3::MHL,
            region: Region::Oceania,
            sub_region: SubRegion::Micronesia,
            intermediate_region: IntermediateRegion::Undefined,
            region_code: 9,
            sub_region_code: 57,
            intermediate_region_code: None,
        },
        139 => Definition {
            country_code: 474,
            name: "Martinique",
            alpha2: Alpha2::MQ,
            alpha3: Alpha3::MTQ,
            region: Region::Americas,
            sub_region: SubRegion::LatinAmericaAndTheCaribbean,
            intermediate_region: IntermediateRegion::Caribbean,
            region_code: 19,
            sub_region_code: 419,
            intermediate_region_code: Some(29),
        },
        140 => Definition {
            country_code: 478,
            name: "Mauritania",
            alpha2: Alpha2::MR,
            alpha3: Alpha3::MRT,
            region: Region::Africa,
            sub_region: SubRegion::SubSaharanAfrica,
            intermediate_region: IntermediateRegion::WesternAfrica,
            region_code: 2,
            sub_region_code: 202,
            intermediate_region_code: Some(11),
        },
        141 => Definition {
            country_code: 480,
            name: "Mauritius",
            alpha2: Alpha2::MU,
            alpha3: Alpha3::MUS,
            region: Region::Africa,
            sub_region: SubRegion::SubSaharanAfrica,
            intermediate_region: IntermediateRegion::EasternAfrica,
            region_code: 2,
            sub_region_code: 202,
            intermediate_region_code: Some(14),
        },
        142 => Definition {
            country_code: 175,
            name: "Mayotte",
            alpha2: Alpha2::YT,
            alpha3: Alpha3::MYT,
            region: Region::Africa,
            sub_region: SubRegion::SubSaharanAfrica,
            intermediate_region: IntermediateRegion::EasternAfrica,
            region_code: 2,
            sub_region_code: 202,
            intermediate_region_code: Some(14),
        },
        143 => Definition {
            country_code: 484,
            name: "Mexico",
            alpha2: Alpha2::MX,
            alpha3: Alpha3::MEX,
            region: Region::Americas,
            sub_region: SubRegion::LatinAmericaAndTheCaribbean,
            intermediate_region: IntermediateRegion::CentralAmerica,
            region_code: 19,
            sub_region_code: 419,
            intermediate_region_code: Some(13),
        },
        144 => Definition {
            country_code: 583,
            name: "Micronesia (Federated States of)",
            alpha2: Alpha2::FM,
            alpha3: Alpha3::FSM,
            region: Region::Oceania,
            sub_region: SubRegion::Micronesia,
            intermediate_region: IntermediateRegion::Undefined,
            region_code: 9,
            sub_region_code: 57,
            intermediate_region_code: None,
        },
        145 => Definition {
            country_code: 498,
            name: "Moldova, Republic of",
            alpha2: Alpha2::MD,
            alpha3: Alpha3::MDA,
            region: Region::Europe,
            sub_region: SubRegion::EasternEurope,
            intermediate_region: IntermediateRegion::Undefined,
            region_code: 150,
            sub_region_code: 151,
            intermediate_region_code: None,
        },
        146 => Definition {
            country_code: 492,
            name: "Monaco",
            alpha2: Alpha2::MC,
            alpha3: Alpha3::MCO,
            region: Region::Europe,
            sub_region: SubRegion::WesternEurope,
            intermediate_region: IntermediateRegion::Undefined,
            region_code: 150,
            sub_region_code: 155,
            intermediate_region_code: None,
        },
        147 => Definition {
            country_code: 496,
            name: "Mongolia",
            alpha2: Alpha2::MN,
            alpha3: Alpha3::MNG,
            region: Region::Asia,
            sub_region: SubRegion::EasternAsia,
            intermediate_region: IntermediateRegion::Undefined,
            region_code: 142,
            sub_region_code: 30,
            intermediate_region_code: None,
        },
        148 => Definition {
            country_code: 499,
            name: "Montenegro",
            alpha2: Alpha2::ME,
            alpha3: Alpha3::MNE,
            region: Region::Europe,
            sub_region: SubRegion::SouthernEurope,
            intermediate_region: IntermediateRegion::Undefined,
            region_code: 150,
            sub_region_code: 39,
            intermediate_region_code: None,
        },
        149 => Definition {
            country_code: 500,
            name: "Montserrat",
            alpha2: Alpha2::MS,
            alpha3: Alpha3::MSR,
            region: Region::Americas,
            sub_region: SubRegion::LatinAmericaAndTheCaribbean,
            intermediate_region: IntermediateRegion::Caribbean,
            region_code: 19,
            sub_region_code: 419,
            intermediate_region_code: Some(29),
        },
        150 => Definition {
            country_code: 504,
            name: "Morocco",
            alpha2: Alpha2::MA,
            alpha3: Alpha3::MAR,
            region: Region::Africa,
            sub_region: SubRegion::NorthernAfrica,
            intermediate_region: IntermediateRegion::Undefined,
            region_code: 2,
            sub_region_code: 15,
            intermediate_region_code: None,
        },
        151 => Definition {
            country_code: 508,
            name: "Mozambique",
            alpha2: Alpha2::MZ,
            alpha3: Alpha3::MOZ,
            region: Region::Africa,
            sub_region: SubRegion::SubSaharanAfrica,
            intermediate_region: IntermediateRegion::EasternAfrica,
            region_code: 2,
            sub_region_code: 202,
            intermediate_region_code: Some(14),
        },
        152 => Definition {
            country_code: 104,
            name: "Myanmar",
            alpha2: Alpha2::MM,
            alpha3: Alpha3::MMR,
            region: Region::Asia,
            sub_region: SubRegion::SouthEasternAsia,
            intermediate_region: IntermediateRegion::Undefined,
            region_code: 142,
            sub_region_code: 35,
            intermediate_region_code: None,
        },
        153 => Definition {
            country_code: 516,
            name: "Namibia",
            alpha2: Alpha2::NA,
            alpha3: Alpha3::NAM,
            region: Region::Africa,
            sub_region: SubRegion::SubSaharanAfrica,
            intermediate_region: IntermediateRegion::SouthernAfrica,
            region_code: 2,
            sub_region_code: 202,
            intermediate_region_code: Some(18),
        },
        154 => Definition {
            country_code: 520,
            name: "Nauru",
            alpha2: Alpha2::NR,
            alpha3: Alpha3::NRU,
            region: Region::Oceania,
            sub_region: SubRegion::Micronesia,
            intermediate_region: IntermediateRegion::Undefined,
            region_code: 9,
            sub_region_code: 57,
            intermediate_region_code: None,
        },
        155 => Definition {
            country_code: 524,
            name: "Nepal",
            alpha2: Alpha2::NP,
            alpha3: Alpha3::NPL,
            region: Region::Asia,
            sub_region: SubRegion::SouthernAsia,
            intermediate_region: IntermediateRegion::Undefined,
            region_code: 142,
            sub_region_code: 34,
            intermediate_region_code: None,
        },
        156 => Definition {
            country_code: 528,
            name: "Netherlands",
            alpha2: Alpha2::NL,
            alpha3: Alpha3::NLD,
            region: Region::Europe,
            sub_region: SubRegion::WesternEurope,
            intermediate_region: IntermediateRegion::Undefined,
            region_code: 150,
            sub_region_code: 155,
            intermediate_region_code: None,
        },
        157 => Definition {
            country_code: 540,
            name: "New Caledonia",
            alpha2: Alpha2::NC,
            alpha3: Alpha3::NCL,
            region: Region::Oceania,
            sub_region: SubRegion::Melanesia,
            intermediate_region: IntermediateRegion::Undefined,
            region_code: 9,
            sub_region_code: 54,
            intermediate_region_code: None,
        },
        158 => Definition {
            country_code: 554,
            name: "New Zealand",
            alpha2: Alpha2::NZ,
            alpha3: Alpha3::NZL,
            region: Region::Oceania,
            sub_region: SubRegion::AustraliaAndNewZealand,
            intermediate_region: IntermediateRegion::Undefined,
            region_code: 9,
            sub_region_code: 53,
            intermediate_region_code: None,
        },
        159 => Definition {
            country_code: 558,
            name: "Nicaragua",
            alpha2: Alpha2::NI,
            alpha3: Alpha3::NIC,
            region: Region::Americas,
            sub_region: SubRegion::LatinAmericaAndTheCaribbean,
            intermediate_region: IntermediateRegion::CentralAmerica,
            region_code: 19,
            sub_region_code: 419,
            intermediate_region_code: Some(13),
        },
        160 => Definition {
            country_code: 562,
            name: "Niger",
            alpha2: Alpha2::NE,
            alpha3: Alpha3::NER,
            region: Region::Africa,
            sub_region: SubRegion::SubSaharanAfrica,
            intermediate_region: IntermediateRegion::WesternAfrica,
            region_code: 2,
            sub_region_code: 202,
            intermediate_region_code: Some(11),
        },
        161 => Definition {
            country_code: 566,
            name: "Nigeria",
            alpha2: Alpha2::NG,
            alpha3: Alpha3::NGA,
            region: Region::Africa,
            sub_region: SubRegion::SubSaharanAfrica,
            intermediate_region: IntermediateRegion::WesternAfrica,
            region_code: 2,
            sub_region_code: 202,
            intermediate_region_code: Some(11),
        },
        162 => Definition {
            country_code: 570,
            name: "Niue",
            alpha2: Alpha2::NU,
            alpha3: Alpha3::NIU,
            region: Region::Oceania,
            sub_region: SubRegion::Polynesia,
            intermediate_region: IntermediateRegion::Undefined,
            region_code: 9,
            sub_region_code: 61,
            intermediate_region_code: None,
        },
        163 => Definition {
            country_code: 574,
            name: "Norfolk Island",
            alpha2: Alpha2::NF,
            alpha3: Alpha3::NFK,
            region: Region::Oceania,
            sub_region: SubRegion::AustraliaAndNewZealand,
            intermediate_region: IntermediateRegion::Undefined,
            region_code: 9,
            sub_region_code: 53,
            intermediate_region_code: None,
        },
        164 => Definition {
            country_code: 807,
            name: "North Macedonia",
            alpha2: Alpha2::MK,
            alpha3: Alpha3::MKD,
            region: Region::Europe,
            sub_region: SubRegion::SouthernEurope,
            intermediate_region: IntermediateRegion::Undefined,
            region_code: 150,
            sub_region_code: 39,
            intermediate_region_code: None,
        },
        165 => Definition {
            country_code: 580,
            name: "Northern Mariana Islands",
            alpha2: Alpha2::MP,
            alpha3: Alpha3::MNP,
            region: Region::Oceania,
            sub_region: SubRegion::Micronesia,
            intermediate_region: IntermediateRegion::Undefined,
            region_code: 9,
            sub_region_code: 57,
            intermediate_region_code: None,
        },
        166 => Definition {
            country_code: 578,
            name: "Norway",
            alpha2: Alpha2::NO,
            alpha3: Alpha3::NOR,
            region: Region::Europe,
            sub_region: SubRegion::NorthernEurope,
            intermediate_region: IntermediateRegion::Undefined,
            region_code: 150,
            sub_region_code: 154,
            intermediate_region_code: None,
        },
        167 => Definition {
            country_code: 512,
            name: "Oman",
            alpha2: Alpha2::OM,
            alpha3: Alpha3::OMN,
            region: Region::Asia,
            sub_region: SubRegion::WesternAsia,
            intermediate_region: IntermediateRegion::Undefined,
            region_code: 142,
            sub_region_code: 145,
            intermediate_region_code: None,
        },
        168 => Definition {
            country_code: 586,
            name: "Pakistan",
            alpha2: Alpha2::PK,
            alpha3: Alpha3::PAK,
            region: Region::Asia,
            sub_region: SubRegion::SouthernAsia,
            intermediate_region: IntermediateRegion::Undefined,
            region_code: 142,
            sub_region_code: 34,
            intermediate_region_code: None,
        },
        169 => Definition {
            country_code: 585,
            name: "Palau",
            alpha2: Alpha2::PW,
            alpha3: Alpha3::PLW,
            region: Region::Oceania,
            sub_region: SubRegion::Micronesia,
            intermediate_region: IntermediateRegion::Undefined,
            region_code: 9,
            sub_region_code: 57,
            intermediate_region_code: None,
        },
        170 => Definition {
            country_code: 275,
            name: "Palestine, State of",
            alpha2: Alpha2::PS,
            alpha3: Alpha3::PSE,
            region: Region::Asia,
            sub_region: SubRegion::WesternAsia,
            intermediate_region: IntermediateRegion::Undefined,
            region_code: 142,
            sub_region_code: 145,
            intermediate_region_code: None,
        },
        171 => Definition {
            country_code: 591,
            name: "Panama",
            alpha2: Alpha2::PA,
            alpha3: Alpha3::PAN,
            region: Region::Americas,
            sub_region: SubRegion::LatinAmericaAndTheCaribbean,
            intermediate_region: IntermediateRegion::CentralAmerica,
            region_code: 19,
            sub_region_code: 419,
            intermediate_region_code: Some(13),
        },
        172 => Definition {
            country_code: 598,
            name: "Papua New Guinea",
            alpha2: Alpha2::PG,
            alpha3: Alpha3::PNG,
            region: Region::Oceania,
            sub_region: SubRegion::Melanesia,
            intermediate_region: IntermediateRegion::Undefined,
            region_code: 9,
            sub_region_code: 54,
            intermediate_region_code: None,
        },
        173 => Definition {
            country_code: 600,
            name: "Paraguay",
            alpha2: Alpha2::PY,
            alpha3: Alpha3::PRY,
            region: Region::Americas,
            sub_region: SubRegion::LatinAmericaAndTheCaribbean,
            intermediate_region: IntermediateRegion::SouthAmerica,
            region_code: 19,
            sub_region_code: 419,
            intermediate_region_code: Some(5),
        },
        174 => Definition {
            country_code: 604,
            name: "Peru",
            alpha2: Alpha2::PE,
            alpha3: Alpha3::PER,
            region: Region::Americas,
            sub_region: SubRegion::LatinAmericaAndTheCaribbean,
            intermediate_region: IntermediateRegion::SouthAmerica,
            region_code: 19,
            sub_region_code: 419,
            intermediate_region_code: Some(5),
        },
        175 => Definition {
            country_code: 608,
            name: "Philippines",
            alpha2: Alpha2::PH,
            alpha3: Alpha3::PHL,
            region: Region::Asia,
            sub_region: SubRegion::SouthEasternAsia,
            intermediate_region: IntermediateRegion::Undefined,
            region_code: 142,
            sub_region_code: 35,
            intermediate_region_code: None,
        },
        176 => Definition {
            country_code: 612,
            name: "Pitcairn",
            alpha2: Alpha2::PN,
            alpha3: Alpha3::PCN,
            region: Region::Oceania,
            sub_region: SubRegion::Polynesia,
            intermediate_region: IntermediateRegion::Undefined,
            region_code: 9,
            sub_region_code: 61,
            intermediate_region_code: None,
        },
        177 => Definition {
            country_code: 616,
            name: "Poland",
            alpha2: Alpha2::PL,
            alpha3: Alpha3::POL,
            region: Region::Europe,
            sub_region: SubRegion::EasternEurope,
            intermediate_region: IntermediateRegion::Undefined,
            region_code: 150,
            sub_region_code: 151,
            intermediate_region_code: None,
        },
        178 => Definition {
            country_code: 620,
            name: "Portugal",
            alpha2: Alpha2::PT,
            alpha3: Alpha3::PRT,
            region: Region::Europe,
            sub_region: SubRegion::SouthernEurope,
            intermediate_region: IntermediateRegion::Undefined,
            region_code: 150,
            sub_region_code: 39,
            intermediate_region_code: None,
        },
        179 => Definition {
            country_code: 630,
            name: "Puerto Rico",
            alpha2: Alpha2::PR,
            alpha3: Alpha3::PRI,
            region: Region::Americas,
            sub_region: SubRegion::LatinAmericaAndTheCaribbean,
            intermediate_region: IntermediateRegion::Caribbean,
            region_code: 19,
            sub_region_code: 419,
            intermediate_region_code: Some(29),
        },
        180 => Definition {
            country_code: 634,
            name: "Qatar",
            alpha2: Alpha2::QA,
            alpha3: Alpha3::QAT,
            region: Region::Asia,
            sub_region: SubRegion::WesternAsia,
            intermediate_region: IntermediateRegion::Undefined,
            region_code: 142,
            sub_region_code: 145,
            intermediate_region_code: None,
        },
        181 => Definition {
            country_code: 638,
            name: "Réunion",
            alpha2: Alpha2::RE,
            alpha3: Alpha3::REU,
            region: Region::Africa,
            sub_region: SubRegion::SubSaharanAfrica,
            intermediate_region: IntermediateRegion::EasternAfrica,
            region_code: 2,
            sub_region_code: 202,
            intermediate_region_code: Some(14),
        },
        182 => Definition {
            country_code: 642,
            name: "Romania",
            alpha2: Alpha2::RO,
            alpha3: Alpha3::ROU,
            region: Region::Europe,
            sub_region: SubRegion::EasternEurope,
            intermediate_region: IntermediateRegion::Undefined,
            region_code: 150,
            sub_region_code: 151,
            intermediate_region_code: None,
        },
        183 => Definition {
            country_code: 643,
            name: "Russian Federation",
            alpha2: Alpha2::RU,
            alpha3: Alpha3::RUS,
            region: Region::Europe,
            sub_region: SubRegion::EasternEurope,
            intermediate_region: IntermediateRegion::Undefined,
            region_code: 150,
            sub_region_code: 151,
            intermediate_region_code: None,
        },
        184 => Definition {
            country_code: 646,
            name: "Rwanda",
            alpha2: Alpha2::RW,
            alpha3: Alpha3::RWA,
            region: Region::Africa,
            sub_region: SubRegion::SubSaharanAfrica,
            intermediate_region: IntermediateRegion::EasternAfrica,
            region_code: 2,
            sub_region_code: 202,
            intermediate_region_code: Some(14),
        },
        185 => Definition {
            country_code: 652,
            name: "Saint Barthélemy",
            alpha2: Alpha2::BL,
            alpha3: Alpha3::BLM,
            region: Region::Americas,
            sub_region: SubRegion::LatinAmericaAndTheCaribbean,
            intermediate_region: IntermediateRegion::Caribbean,
            region_code: 19,
            sub_region_code: 419,
            intermediate_region_code: Some(29),
        },
        186 => Definition {
            country_code: 654,
            name: "Saint Helena, Ascension and Tristan da Cunha",
            alpha2: Alpha2::SH,
            alpha3: Alpha3::SHN,
            region: Region::Africa,
            sub_region: SubRegion::SubSaharanAfrica,
            intermediate_region: IntermediateRegion::WesternAfrica,
            region_code: 2,
            sub_region_code: 202,
            intermediate_region_code: Some(11),
        },
        187 => Definition {
            country_code: 659,
            name: "Saint Kitts and Nevis",
            alpha2: Alpha2::KN,
            alpha3: Alpha3::KNA,
            region: Region::Americas,
            sub_region: SubRegion::LatinAmericaAndTheCaribbean,
            intermediate_region: IntermediateRegion::Caribbean,
            region_code: 19,
            sub_region_code: 419,
            intermediate_region_code: Some(29),
        },
        188 => Definition {
            country_code: 662,
            name: "Saint Lucia",
            alpha2: Alpha2::LC,
            alpha3: Alpha3::LCA,
            region: Region::Americas,
            sub_region: SubRegion::LatinAmericaAndTheCaribbean,
            intermediate_region: IntermediateRegion::Caribbean,
            region_code: 19,
            sub_region_code: 419,
            intermediate_region_code: Some(29),
        },
        189 => Definition {
            country_code: 663,
            name: "Saint Martin (French part)",
            alpha2: Alpha2::MF,
            alpha3: Alpha3::MAF,
            region: Region::Americas,
            sub_region: SubRegion::LatinAmericaAndTheCaribbean,
            intermediate_region: IntermediateRegion::Caribbean,
            region_code: 19,
            sub_region_code: 419,
            intermediate_region_code: Some(29),
        },
        190 => Definition {
            country_code: 666,
            name: "Saint Pierre and Miquelon",
            alpha2: Alpha2::PM,
            alpha3: Alpha3::SPM,
            region: Region::Americas,
            sub_region: SubRegion::NorthernAmerica,
            intermediate_region: IntermediateRegion::Undefined,
            region_code: 19,
            sub_region_code: 21,
            intermediate_region_code: None,
        },
        191 => Definition {
            country_code: 670,
            name: "Saint Vincent and the Grenadines",
            alpha2: Alpha2::VC,
            alpha3: Alpha3::VCT,
            region: Region::Americas,
            sub_region: SubRegion::LatinAmericaAndTheCaribbean,
            intermediate_region: IntermediateRegion::Caribbean,
            region_code: 19,
            sub_region_code: 419,
            intermediate_region_code: Some(29),
        },
        192 => Definition {
            country_code: 882,
            name: "Samoa",
            alpha2: Alpha2::WS,
            alpha3: Alpha3::WSM,
            region: Region::Oceania,
            sub_region: SubRegion::Polynesia,
            intermediate_region: IntermediateRegion::Undefined,
            region_code: 9,
            sub_region_code: 61,
            intermediate_region_code: None,
        },
        193 => Definition {
            country_code: 674,
            name: "San Marino",
            alpha2: Alpha2::SM,
            alpha3: Alpha3::SMR,
            region: Region::Europe,
            sub_region: SubRegion::SouthernEurope,
            intermediate_region: IntermediateRegion::Undefined,
            region_code: 150,
            sub_region_code: 39,
            intermediate_region_code: None,
        },
        194 => Definition {
            country_code: 678,
            name: "Sao Tome and Principe",
            alpha2: Alpha2::ST,
            alpha3: Alpha3::STP,
            region: Region::Africa,
            sub_region: SubRegion::SubSaharanAfrica,
            intermediate_region: IntermediateRegion::MiddleAfrica,
            region_code: 2,
            sub_region_code: 202,
            intermediate_region_code: Some(17),
        },
        195 => Definition {
            country_code: 682,
            name: "Saudi Arabia",
            alpha2: Alpha2::SA,
            alpha3: Alpha3::SAU,
            region: Region::Asia,
            sub_region: SubRegion::WesternAsia,
            intermediate_region: IntermediateRegion::Undefined,
            region_code: 142,
            sub_region_code: 145,
            intermediate_region_code: None,
        },
        196 => Definition {
            country_code: 686,
            name: "Senegal",
            alpha2: Alpha2::SN,
            alpha3: Alpha3::SEN,
            region: Region::Africa,
            sub_region: SubRegion::SubSaharanAfrica,
            intermediate_region: IntermediateRegion::WesternAfrica,
            region_code: 2,
            sub_region_code: 202,
            intermediate_region_code: Some(11),
        },
        197 => Definition {
            country_code: 688,
            name: "Serbia",
            alpha2: Alpha2::RS,
            alpha3: Alpha3::SRB,
            region: Region::Europe,
            sub_region: SubRegion::SouthernEurope,
            intermediate_region: IntermediateRegion::Undefined,
            region_code: 150,
            sub_region_code: 39,
            intermediate_region_code: None,
        },
        198 => Definition {
            country_code: 690,
            name: "Seychelles",
            alpha2: Alpha2::SC,
            alpha3: Alpha3::SYC,
            region: Region::Africa,
            sub_region: SubRegion::SubSaharanAfrica,
            intermediate_region: IntermediateRegion::EasternAfrica,
            region_code: 2,
            sub_region_code: 202,
            intermediate_region_code: Some(14),
        },
        199 => Definition {
            country_code: 694,
            name: "Sierra Leone",
            alpha2: Alpha2::SL,
            alpha3: Alpha3::SLE,
            region: Region::Africa,
            sub_region: SubRegion::SubSaharanAfrica,
            intermediate_region: IntermediateRegion::WesternAfrica,
            region_code: 2,
            sub_region_code: 202,
            intermediate_region_code: Some(11),
        },
        200 => Definition {
            country_code: 702,
            name: "Singapore",
            alpha2: Alpha2::SG,
            alpha3: Alpha3::SGP,
            region: Region::Asia,
            sub_region: SubRegion::SouthEasternAsia,
            intermediate_region: IntermediateRegion::Undefined,
            region_code: 142,
            sub_region_code: 35,
            intermediate_region_code: None,
        },
        201 => Definition {
            country_code: 534,
            name: "Sint Maarten (Dutch part)",
            alpha2: Alpha2::SX,
            alpha3: Alpha3::SXM,
            region: Region::Americas,
            sub_region: SubRegion::LatinAmericaAndTheCaribbean,
            intermediate_region: IntermediateRegion::Caribbean,
            region_code: 19,
            sub_region_code: 419,
            intermediate_region_code: Some(29),
        },
        202 => Definition {
            country_code: 703,
            name: "Slovakia",
            alpha2: Alpha2::SK,
            alpha3: Alpha3::SVK,
            region: Region::Europe,
            sub_region: SubRegion::EasternEurope,
            intermediate_region: IntermediateRegion::Undefined,
            region_code: 150,
            sub_region_code: 151,
            intermediate_region_code: None,
        },
        203 => Definition {
            country_code: 705,
            name: "Slovenia",
            alpha2: Alpha2::SI,
            alpha3: Alpha3::SVN,
            region: Region::Europe,
            sub_region: SubRegion::SouthernEurope,
            intermediate_region: IntermediateRegion::Undefined,
            region_code: 150,
            sub_region_code: 39,
            intermediate_region_code: None,
        },
        204 => Definition {
            country_code: 90,
            name: "Solomon Islands",
            alpha2: Alpha2::SB,
            alpha3: Alpha3::SLB,
            region: Region::Oceania,
            sub_region: SubRegion::Melanesia,
            intermediate_region: IntermediateRegion::Undefined,
            region_code: 9,
            sub_region_code: 54,
            intermediate_region_code: None,
        },
        205 => Definition {
            country_code: 706,
            name: "Somalia",
            alpha2: Alpha2::SO,
            alpha3: Alpha3::SOM,
            region: Region::Africa,
            sub_region: SubRegion::SubSaharanAfrica,
            intermediate_region: IntermediateRegion::EasternAfrica,
            region_code: 2,
            sub_region_code: 202,
            intermediate_region_code: Some(14),
        },
        206 => Definition {
            country_code: 710,
            name: "South Africa",
            alpha2: Alpha2::ZA,
            alpha3: Alpha3::ZAF,
            region: Region::Africa,
            sub_region: SubRegion::SubSaharanAfrica,
            intermediate_region: IntermediateRegion::SouthernAfrica,
            region_code: 2,
            sub_region_code: 202,
            intermediate_region_code: Some(18),
        },
        207 => Definition {
            country_code: 239,
            name: "South Georgia and the South Sandwich Islands",
            alpha2: Alpha2::GS,
            alpha3: Alpha3::SGS,
            region: Region::Americas,
            sub_region: SubRegion::LatinAmericaAndTheCaribbean,
            intermediate_region: IntermediateRegion::SouthAmerica,
            region_code: 19,
            sub_region_code: 419,
            intermediate_region_code: Some(5),
        },
        208 => Definition {
            country_code: 728,
            name: "South Sudan",
            alpha2: Alpha2::SS,
            alpha3: Alpha3::SSD,
            region: Region::Africa,
            sub_region: SubRegion::SubSaharanAfrica,
            intermediate_region: IntermediateRegion::EasternAfrica,
            region_code: 2,
            sub_region_code: 202,
            intermediate_region_code: Some(14),
        },
        209 => Definition {
            country_code: 724,
            name: "Spain",
            alpha2: Alpha2::ES,
            alpha3: Alpha3::ESP,
            region: Region::Europe,
            sub_region: SubRegion::SouthernEurope,
            intermediate_region: IntermediateRegion::Undefined,
            region_code: 150,
            sub_region_code: 39,
            intermediate_region_code: None,
        },
        210 => Definition {
            country_code: 144,
            name: "Sri Lanka",
            alpha2: Alpha2::LK,
            alpha3: Alpha3::LKA,
            region: Region::Asia,
            sub_region: SubRegion::SouthernAsia,
            intermediate_region: IntermediateRegion::Undefined,
            region_code: 142,
            sub_region_code: 34,
            intermediate_region_code: None,
        },
        211 => Definition {
            country_code: 729,
            name: "Sudan",
            alpha2: Alpha2::SD,
            alpha3: Alpha3::SDN,
            region: Region::Africa,
            sub_region: SubRegion::NorthernAfrica,
            intermediate_region: IntermediateRegion::Undefined,
            region_code: 2,
            sub_region_code: 15,
            intermediate_region_code: None,
        },
        212 => Definition {
            country_code: 740,
            name: "Suriname",
            alpha2: Alpha2::SR,
            alpha3: Alpha3::SUR,
            region: Region::Americas,
            sub_region: SubRegion::LatinAmericaAndTheCaribbean,
            intermediate_region: IntermediateRegion::SouthAmerica,
            region_code: 19,
            sub_region_code: 419,
            intermediate_region_code: Some(5),
        },
        213 => Definition {
            country_code: 744,
            name: "Svalbard and Jan Mayen",
            alpha2: Alpha2::SJ,
            alpha3: Alpha3::SJM,
            region: Region::Europe,
            sub_region: SubRegion::NorthernEurope,
            intermediate_region: IntermediateRegion::Undefined,
            region_code: 150,
            sub_region_code: 154,
            intermediate_region_code: None,
        },
        214 => Definition {
            country_code: 752,
            name: "Sweden",
            alpha2: Alpha2::SE,
            alpha3: Alpha3::SWE,
            region: Region::Europe,
            sub_region: SubRegion::NorthernEurope,
            intermediate_region: IntermediateRegion::Undefined,
            region_code: 150,
            sub_region_code: 154,
            intermediate_region_code: None,
        },
        215 => Definition {
            country_code: 756,
            name: "Switzerland",
            alpha2: Alpha2::CH,
            alpha3: Alpha3::CHE,
            region: Region::Europe,
            sub_region: SubRegion::WesternEurope,
            intermediate_region: IntermediateRegion::Undefined,
            region_code: 150,
            sub_region_code: 155,
            intermediate_region_code: None,
        },
        216 => Definition {
            country_code: 760,
            name: "Syrian Arab Republic",
            alpha2: Alpha2::SY,
            alpha3: Alpha3::SYR,
            region: Region::Asia,
            sub_region: SubRegion::WesternAsia,
            intermediate_region: IntermediateRegion::Undefined,
            region_code: 142,
            sub_region_code: 145,
            intermediate_region_code: None,
        },
        217 => Definition {
            country_code: 158,
            name: "Taiwan, Province of China",
            alpha2: Alpha2::TW,
            alpha3: Alpha3::TWN,
            region: Region::Asia,
            sub_region: SubRegion::EasternAsia,
            intermediate_region: IntermediateRegion::Undefined,
            region_code: 142,
            sub_region_code: 30,
            intermediate_region_code: None,
        },
        218 => Definition {
            country_code: 762,
            name: "Tajikistan",
            alpha2: Alpha2::TJ,
            alpha3: Alpha3::TJK,
            region: Region::Asia,
            sub_region: SubRegion::CentralAsia,
            intermediate_region: IntermediateRegion::Undefined,
            region_code: 142,
            sub_region_code: 143,
            intermediate_region_code: None,
        },
        219 => Definition {
            country_code: 834,
            name: "Tanzania, United Republic of",
            alpha2: Alpha2::TZ,
            alpha3: Alpha3::TZA,
            region: Region::Africa,
            sub_region: SubRegion::SubSaharanAfrica,
            intermediate_region: IntermediateRegion::EasternAfrica,
            region_code: 2,
            sub_region_code: 202,
            intermediate_region_code: Some(14),
        },
        220 => Definition {
            country_code: 764,
            name: "Thailand",
            alpha2: Alpha2::TH,
            alpha3: Alpha3::THA,
            region: Region::Asia,
            sub_region: SubRegion::SouthEasternAsia,
            intermediate_region: IntermediateRegion::Undefined,
            region_code: 142,
            sub_region_code: 35,
            intermediate_region_code: None,
        },
        221 => Definition {
            country_code: 626,
            name: "Timor-Leste",
            alpha2: Alpha2::TL,
            alpha3: Alpha3::TLS,
            region: Region::Asia,
            sub_region: SubRegion::SouthEasternAsia,
            intermediate_region: IntermediateRegion::Undefined,
            region_code: 142,
            sub_region_code: 35,
            intermediate_region_code: None,
        },
        222 => Definition {
            country_code: 768,
            name: "Togo",
            alpha2: Alpha2::TG,
            alpha3: Alpha3::TGO,
            region: Region::Africa,
            sub_region: SubRegion::SubSaharanAfrica,
            intermediate_region: IntermediateRegion::WesternAfrica,
            region_code: 2,
            sub_region_code: 202,
            intermediate_region_code: Some(11),
        },
        223 => Definition {
            country_code: 772,
            name: "Tokelau",
            alpha2: Alpha2::TK,
            alpha3: Alpha3::TKL,
            region: Region::Oceania,
            sub_region: SubRegion::Polynesia,
            intermediate_region: IntermediateRegion::Undefined,
            region_code: 9,
            sub_region_code: 61,
            intermediate_region_code: None,
        },
        224 => Definition {
            country_code: 776,
            name: "Tonga",
            alpha2: Alpha2::TO,
            alpha3: Alpha3::TON,
            region: Region::Oceania,
            sub_region: SubRegion::Polynesia,
            intermediate_region: IntermediateRegion::Undefined,
            region_code: 9,
            sub_region_code: 61,
            intermediate_region_code: None,
        },
        225 => Definition {
            country_code: 780,
            name: "Trinidad and Tobago",
            alpha2: Alpha2::TT,
            alpha3: Alpha3::TTO,
            region: Region::Americas,
            sub_region: SubRegion::LatinAmericaAndTheCaribbean,
            intermediate_region: IntermediateRegion::Caribbean,
            region_code: 19,
            sub_region_code: 419,
            intermediate_region_code: Some(29),
        },
        226 => Definition {
            country_code: 788,
            name: "Tunisia",
            alpha2: Alpha2::TN,
            alpha3: Alpha3::TUN,
            region: Region::Africa,
            sub_region: SubRegion::NorthernAfrica,
            intermediate_region: IntermediateRegion::Undefined,
            region_code: 2,
            sub_region_code: 15,
            intermediate_region_code: None,
        },
        227 => Definition {
            country_code: 792,
            name: "Turkey",
            alpha2: Alpha2::TR,
            alpha3: Alpha3::TUR,
            region: Region::Asia,
            sub_region: SubRegion::WesternAsia,
            intermediate_region: IntermediateRegion::Undefined,
            region_code: 142,
            sub_region_code: 145,
            intermediate_region_code: None,
        },
        228 => Definition {
            country_code: 795,
            name: "Turkmenistan",
            alpha2: Alpha2::TM,
            alpha3: Alpha3::TKM,
            region: Region::Asia,
            sub_region: SubRegion::CentralAsia,
            intermediate_region: IntermediateRegion::Undefined,
            region_code: 142,
            sub_region_code: 143,
            intermediate_region_code: None,
        },
        229 => Definition {
            country_code: 796,
            name: "Turks and Caicos Islands",
            alpha2: Alpha2::TC,
            alpha3: Alpha3::TCA,
            region: Region::Americas,
            sub_region: SubRegion::LatinAmericaAndTheCaribbean,
            intermediate_region: IntermediateRegion::Caribbean,
            region_code: 19,
            sub_region_code: 419,
            intermediate_region_code: Some(29),
        },
        230 => Definition {
            country_code: 798,
            name: "Tuvalu",
            alpha2: Alpha2::TV,
            alpha3: Alpha3::TUV,
            region: Region::Oceania,
            sub_region: SubRegion::Polynesia,
            intermediate_region: IntermediateRegion::Undefined,
            region_code: 9,
            sub_region_code: 61,
            intermediate_region_code: None,
        },
        231 => Definition {
            country_code: 800,
            name: "Uganda",
            alpha2: Alpha2::UG,
            alpha3: Alpha3::UGA,
            region: Region::Africa,
            sub_region: SubRegion::SubSaharanAfrica,
            intermediate_region: IntermediateRegion::EasternAfrica,
            region_code: 2,
            sub_region_code: 202,
            intermediate_region_code: Some(14),
        },
        232 => Definition {
            country_code: 804,
            name: "Ukraine",
            alpha2: Alpha2::UA,
            alpha3: Alpha3::UKR,
            region: Region::Europe,
            sub_region: SubRegion::EasternEurope,
            intermediate_region: IntermediateRegion::Undefined,
            region_code: 150,
            sub_region_code: 151,
            intermediate_region_code: None,
        },
        233 => Definition {
            country_code: 784,
            name: "United Arab Emirates",
            alpha2: Alpha2::AE,
            alpha3: Alpha3::ARE,
            region: Region::Asia,
            sub_region: SubRegion::WesternAsia,
            intermediate_region: IntermediateRegion::Undefined,
            region_code: 142,
            sub_region_code: 145,
            intermediate_region_code: None,
        },
        234 => Definition {
            country_code: 826,
            name: "United Kingdom of Great Britain and Northern Ireland",
            alpha2: Alpha2::GB,
            alpha3: Alpha3::GBR,
            region: Region::Europe,
            sub_region: SubRegion::NorthernEurope,
            intermediate_region: IntermediateRegion::Undefined,
            region_code: 150,
            sub_region_code: 154,
            intermediate_region_code: None,
        },
        235 => Definition {
            country_code: 840,
            name: "United States of America",
            alpha2: Alpha2::US,
            alpha3: Alpha3::USA,
            region: Region::Americas,
            sub_region: SubRegion::NorthernAmerica,
            intermediate_region: IntermediateRegion::Undefined,
            region_code: 19,
            sub_region_code: 21,
            intermediate_region_code: None,
        },
        236 => Definition {
            country_code: 581,
            name: "United States Minor Outlying Islands",
            alpha2: Alpha2::UM,
            alpha3: Alpha3::UMI,
            region: Region::Oceania,
            sub_region: SubRegion::Micronesia,
            intermediate_region: IntermediateRegion::Undefined,
            region_code: 9,
            sub_region_code: 57,
            intermediate_region_code: None,
        },
        237 => Definition {
            country_code: 858,
            name: "Uruguay",
            alpha2: Alpha2::UY,
            alpha3: Alpha3::URY,
            region: Region::Americas,
            sub_region: SubRegion::LatinAmericaAndTheCaribbean,
            intermediate_region: IntermediateRegion::SouthAmerica,
            region_code: 19,
            sub_region_code: 419,
            intermediate_region_code: Some(5),
        },
        238 => Definition {
            country_code: 860,
            name: "Uzbekistan",
            alpha2: Alpha2::UZ,
            alpha3: Alpha3::UZB,
            region: Region::Asia,
            sub_region: SubRegion::CentralAsia,
            intermediate_region: IntermediateRegion::Undefined,
            region_code: 142,
            sub_region_code: 143,
            intermediate_region_code: None,
        },
        239 => Definition {
            country_code: 548,
            name: "Vanuatu",
            alpha2: Alpha2::VU,
            alpha3: Alpha3::VUT,
            region: Region::Oceania,
            sub_region: SubRegion::Melanesia,
            intermediate_region: IntermediateRegion::Undefined,
            region_code: 9,
            sub_region_code: 54,
            intermediate_region_code: None,
        },
        240 => Definition {
            country_code: 862,
            name: "Venezuela (Bolivarian Republic of)",
            alpha2: Alpha2::VE,
            alpha3: Alpha3::VEN,
            region: Region::Americas,
            sub_region: SubRegion::LatinAmericaAndTheCaribbean,
            intermediate_region: IntermediateRegion::SouthAmerica,
            region_code: 19,
            sub_region_code: 419,
            intermediate_region_code: Some(5),
        },
        241 => Definition {
            country_code: 704,
            name: "Viet Nam",
            alpha2: Alpha2::VN,
            alpha3: Alpha3::VNM,
            region: Region::Asia,
            sub_region: SubRegion::SouthEasternAsia,
            intermediate_region: IntermediateRegion::Undefined,
            region_code: 142,
            sub_region_code: 35,
            intermediate_region_code: None,
        },
        242 => Definition {
            country_code: 92,
            name: "Virgin Islands (British)",
            alpha2: Alpha2::VG,
            alpha3: Alpha3::VGB,
            region: Region::Americas,
            sub_region: SubRegion::LatinAmericaAndTheCaribbean,
            intermediate_region: IntermediateRegion::Caribbean,
            region_code: 19,
            sub_region_code: 419,
            intermediate_region_code: Some(29),
        },
        243 => Definition {
            country_code: 850,
            name: "Virgin Islands (U.S.)",
            alpha2: Alpha2::VI,
            alpha3: Alpha3::VIR,
            region: Region::Americas,
            sub_region: SubRegion::LatinAmericaAndTheCaribbean,
            intermediate_region: IntermediateRegion::Caribbean,
            region_code: 19,
            sub_region_code: 419,
            intermediate_region_code: Some(29),
        },
        244 => Definition {
            country_code: 876,
            name: "Wallis and Futuna",
            alpha2: Alpha2::WF,
            alpha3: Alpha3::WLF,
            region: Region::Oceania,
            sub_region: SubRegion::Polynesia,
            intermediate_region: IntermediateRegion::Undefined,
            region_code: 9,
            sub_region_code: 61,
            intermediate_region_code: None,
        },
        245 => Definition {
            country_code: 732,
            name: "Western Sahara",
            alpha2: Alpha2::EH,
            alpha3: Alpha3::ESH,
            region: Region::Africa,
            sub_region: SubRegion::NorthernAfrica,
            intermediate_region: IntermediateRegion::Undefined,
            region_code: 2,
            sub_region_code: 15,
            intermediate_region_code: None,
        },
        246 => Definition {
            country_code: 887,
            name: "Yemen",
            alpha2: Alpha2::YE,
            alpha3: Alpha3::YEM,
            region: Region::Asia,
            sub_region: SubRegion::WesternAsia,
            intermediate_region: IntermediateRegion::Undefined,
            region_code: 142,
            sub_region_code: 145,
            intermediate_region_code: None,
        },
        247 => Definition {
            country_code: 894,
            name: "Zambia",
            alpha2: Alpha2::ZM,
            alpha3: Alpha3::ZMB,
            region: Region::Africa,
            sub_region: SubRegion::SubSaharanAfrica,
            intermediate_region: IntermediateRegion::EasternAfrica,
            region_code: 2,
            sub_region_code: 202,
            intermediate_region_code: Some(14),
        },
        _ => Definition {
            country_code: 716,
            name: "Zimbabwe",
            alpha2: Alpha2::ZW,
            alpha3: Alpha3::ZWE,
            region: Region::Africa,
            sub_region: SubRegion::SubSaharanAfrica,
            intermediate_region: IntermediateRegion::EasternAfrica,
            region_code: 2,
            sub_region_code: 202,
            intermediate_region_code: Some(14),
        },
    }
}

/// Reads row `i` of the definition table.
pub fn definition(i: usize) -> (r: Definition)
    requires
        i < COUNT,
    ensures
        r == entry(i),
{
    match i {
        0 => Definition {
            country_code: 4,
            name: "Afghanistan",
            alpha2: Alpha2::AF,
            alpha3: Alpha3::AFG,
            region: Region::Asia,
            sub_region: SubRegion::SouthernAsia,
            intermediate_region: IntermediateRegion::Undefined,
            region_code: 142,
            sub_region_code: 34,
            intermediate_region_code: None,
        },
        1 => Definition {
            country_code: 248,
            name: "Åland Islands",
            alpha2: Alpha2::AX,
            alpha3: Alpha3::ALA,
            region: Region::Europe,
            sub_region: SubRegion::NorthernEurope,
            intermediate_region: IntermediateRegion::Undefined,
            region_code: 150,
            sub_region_code: 154,
            intermediate_region_code: None,
        },
        2 => Definition {
            country_code: 8,
            name: "Albania",
            alpha2: Alpha2::AL,
            alpha3: Alpha3::ALB,
            region: Region::Europe,
            sub_region: SubRegion::SouthernEurope,
            intermediate_region: IntermediateRegion::Undefined,
            region_code: 150,
            sub_region_code: 39,
            intermediate_region_code: None,
        },
        3 => Definition {
            country_code: 12,
            name: "Algeria",
            alpha2: Alpha2::DZ,
            alpha3: Alpha3::DZA,
            region: Region::Africa,
            sub_region: SubRegion::NorthernAfrica,
            intermediate_region: IntermediateRegion::Undefined,
            region_code: 2,
            sub_region_code: 15,
            intermediate_region_code: None,
        },
        4 => Definition {
            country_code: 16,
            name: "American Samoa",
            alpha2: Alpha2::AS,
            alpha3: Alpha3::ASM,
            region: Region::Oceania,
            sub_region: SubRegion::Polynesia,
            intermediate_region: IntermediateRegion::Undefined,
            region_code: 9,
            sub_region_code: 61,
            intermediate_region_code: None,
        },
        5 => Definition {
            country_code: 20,
            name: "Andorra",
            alpha2: Alpha2::AD,
            alpha3: Alpha3::AND,
            region: Region::Europe,
            sub_region: SubRegion::SouthernEurope,
            intermediate_region: IntermediateRegion::Undefined,
            region_code: 150,
            sub_region_code: 39,
            intermediate_region_code: None,
        },
        6 => Definition {
            country_code: 24,
            name: "Angola",
            alpha2: Alpha2::AO,
            alpha3: Alpha3::AGO,
            region: Region::Africa,
            sub_region: SubRegion::SubSaharanAfrica,
            intermediate_region: IntermediateRegion::MiddleAfrica,
            region_code: 2,
            sub_region_code: 202,
            intermediate_region_code: Some(17),
        },
        7 => Definition {
            country_code: 660,
            name: "Anguilla",
            alpha2: Alpha2::AI,
            alpha3: Alpha3::AIA,
            region: Region::Americas,
            sub_region: SubRegion::LatinAmericaAndTheCaribbean,
            intermediate_region: IntermediateRegion::Caribbean,
            region_code: 19,
            sub_region_code: 419,
            intermediate_region_code: Some(29),
        },
        8 => Definition {
            country_code: 10,
            name: "Antarctica",
            alpha2: Alpha2::AQ,
            alpha3: Alpha3::ATA,
            region: Region::Undefined,
            sub_region: SubRegion::Undefined,
            intermediate_region: IntermediateRegion::Undefined,
            region_code: 0,
            sub_region_code: 0,
            intermediate_region_code: None,
        },
        9 => Definition {
            country_code: 28,
            name: "Antigua and Barbuda",
            alpha2: Alpha2::AG,
            alpha3: Alpha3::ATG,
            region: Region::Americas,
            sub_region: SubRegion::LatinAmericaAndTheCaribbean,
            intermediate_region: IntermediateRegion::Caribbean,
            region_code: 19,
            sub_region_code: 419,
            intermediate_region_code: Some(29),
        },
        10 => Definition {
            country_code: 32,
            name: "Argentina",
            alpha2: Alpha2::AR,
            alpha3: Alpha3::ARG,
            region: Region::Americas,
            sub_region: SubRegion::LatinAmericaAndTheCaribbean,
            intermediate_region: IntermediateRegion::SouthAmerica,
            region_code: 19,
            sub_region_code: 419,
            intermediate_region_code: Some(5),
        },
        11 => Definition {
            country_code: 51,
            name: "Armenia",
            alpha2: Alpha2::AM,
            alpha3: Alpha3::ARM,
            region: Region::Asia,
            sub_region: SubRegion::WesternAsia,
            intermediate_region: IntermediateRegion::Undefined,
            region_code: 142,
            sub_region_code: 145,
            intermediate_region_code: None,
        },
        12 => Definition {
            country_code: 533,
            name: "Aruba",
            alpha2: Alpha2::AW,
            alpha3: Alpha3::ABW,
            region: Region::Americas,
            sub_region: SubRegion::LatinAmericaAndTheCaribbean,
            intermediate_region: IntermediateRegion::Caribbean,
            region_code: 19,
            sub_region_code: 419,
            intermediate_region_code: Some(29),
        },
        13 => Definition {
            country_code: 36,
            name: "Australia",
            alpha2: Alpha2::AU,
            alpha3: Alpha3::AUS,
            region: Region::Oceania,
            sub_region: SubRegion::AustraliaAndNewZealand,
            intermediate_region: IntermediateRegion::Undefined,
            region_code: 9,
            sub_region_code: 53,
            intermediate_region_code: None,
        },
        14 => Definition {
            country_code: 40,
            name: "Austria",
            alpha2: Alpha2::AT,
            alpha3: Alpha3::AUT,
            region: Region::Europe,
            sub_region: SubRegion::WesternEurope,
            intermediate_region: IntermediateRegion::Undefined,
            region_code: 150,
            sub_region_code: 155,
            intermediate_region_code: None,
        },
        15 => Definition {
            country_code: 31,
            name: "Azerbaijan",
            alpha2: Alpha2::AZ,
            alpha3: Alpha3::AZE,
            region: Region::Asia,
            sub_region: SubRegion::WesternAsia,
            intermediate_region: IntermediateRegion::Undefined,
            region_code: 142,
            sub_region_code: 145,
            intermediate_region_code: None,
        },
        16 => Definition {
            country_code: 44,
            name: "Bahamas",
            alpha2: Alpha2::BS,
            alpha3: Alpha3::BHS,
            region: Region::Americas,
            sub_region: SubRegion::LatinAmericaAndTheCaribbean,
            intermediate_region: IntermediateRegion::Caribbean,
            region_code: 19,
            sub_region_code: 419,
            intermediate_region_code: Some(29),
        },
        17 => Definition {
            country_code: 48,
            name: "Bahrain",
            alpha2: Alpha2::BH,
            alpha3: Alpha3::BHR,
            region: Region::Asia,
            sub_region: SubRegion::WesternAsia,
            intermediate_region: IntermediateRegion::Undefined,
            region_code: 142,
            sub_region_code: 145,
            intermediate_region_code: None,
        },
        18 => Definition {
            country_code: 50,
            name: "Bangladesh",
            alpha2: Alpha2::BD,
            alpha3: Alpha3::BGD,
            region: Region::Asia,
            sub_region: SubRegion::SouthernAsia,
            intermediate_region: IntermediateRegion::Undefined,
            region_code: 142,
            sub_region_code: 34,
            intermediate_region_code: None,
        },
        19 => Definition {
            country_code: 52,
            name: "Barbados",
            alpha2: Alpha2::BB,
            alpha3: Alpha3::BRB,
            region: Region::Americas,
            sub_region: SubRegion::LatinAmericaAndTheCaribbean,
            intermediate_region: IntermediateRegion::Caribbean,
            region_code: 19,
            sub_region_code: 419,
            intermediate_region_code: Some(29),
        },
        20 => Definition {
            country_code: 112,
            name: "Belarus",
            alpha2: Alpha2::BY,
            alpha3: Alpha3::BLR,
            region: Region::Europe,
            sub_region: SubRegion::EasternEurope,
            intermediate_region: IntermediateRegion::Undefined,
            region_code: 150,
            sub_region_code: 151,
            intermediate_region_code: None,
        },
        21 => Definition {
            country_code: 56,
            name: "Belgium",
            alpha2: Alpha2::BE,
            alpha3: Alpha3::BEL,
            region: Region::Europe,
            sub_region: SubRegion::WesternEurope,
            intermediate_region: IntermediateRegion::Undefined,
            region_code: 150,
            sub_region_code: 155,
            intermediate_region_code: None,
        },
        22 => Definition {
            country_code: 84,
            name: "Belize",
            alpha2: Alpha2::BZ,
            alpha3: Alpha3::BLZ,
            region: Region::Americas,
            sub_region: SubRegion::LatinAmericaAndTheCaribbean,
            intermediate_region: IntermediateRegion::CentralAmerica,
            region_code: 19,
            sub_region_code: 419,
            intermediate_region_code: Some(13),
        },
        23 => Definition {
            country_code: 204,
            name: "Benin",
            alpha2: Alpha2::BJ,
            alpha3: Alpha3::BEN,
            region: Region::Africa,
            sub_region: SubRegion::SubSaharanAfrica,
            intermediate_region: IntermediateRegion::WesternAfrica,
            region_code: 2,
            sub_region_code: 202,
            intermediate_region_code: Some(11),
        },
        24 => Definition {
            country_code: 60,
            name: "Bermuda",
            alpha2: Alpha2::BM,
            alpha3: Alpha3::BMU,
            region: Region::Americas,
            sub_region: SubRegion::NorthernAmerica,
            intermediate_region: IntermediateRegion::Undefined,
            region_code: 19,
            sub_region_code: 21,
            intermediate_region_code: None,
        },
        25 => Definition {
            country_code: 64,
            name: "Bhutan",
            alpha2: Alpha2::BT,
            alpha3: Alpha3::BTN,
            region: Region::Asia,
            sub_region: SubRegion::SouthernAsia,
            intermediate_region: IntermediateRegion::Undefined,
            region_code: 142,
            sub_region_code: 34,
            intermediate_region_code: None,
        },
        26 => Definition {
            country_code: 68,
            name: "Bolivia (Plurinational State of)",
            alpha2: Alpha2::BO,
            alpha3: Alpha3::BOL,
            region: Region::Americas,
            sub_region: SubRegion::LatinAmericaAndTheCaribbean,
            intermediate_region: IntermediateRegion::SouthAmerica,
            region_code: 19,
            sub_region_code: 419,
            intermediate_region_code: Some(5),
        },
        27 => Definition {
            country_code: 535,
            name: "Bonaire, Sint Eustatius and Saba",
            alpha2: Alpha2::BQ,
            alpha3: Alpha3::BES,
            region: Region::Americas,
            sub_region: SubRegion::LatinAmericaAndTheCaribbean,
            intermediate_region: IntermediateRegion::Caribbean,
            region_code: 19,
            sub_region_code: 419,
            intermediate_region_code: Some(29),
        },
        28 => Definition {
            country_code: 70,
            name: "Bosnia and Herzegovina",
            alpha2: Alpha2::BA,
            alpha3: Alpha3::BIH,
            region: Region::Europe,
            sub_region: SubRegion::SouthernEurope,
            intermediate_region: IntermediateRegion::Undefined,
            region_code: 150,
            sub_region_code: 39,
            intermediate_region_code: None,
        },
        29 => Definition {
            country_code: 72,
            name: "Botswana",
            alpha2: Alpha2::BW,
            alpha3: Alpha3::BWA,
            region: Region::Africa,
            sub_region: SubRegion::SubSaharanAfrica,
            intermediate_region: IntermediateRegion::SouthernAfrica,
            region_code: 2,
            sub_region_code: 202,
            intermediate_region_code: Some(18),
        },
        30 => Definition {
            country_code: 74,
            name: "Bouvet Island",
            alpha2: Alpha2::BV,
            alpha3: Alpha3::BVT,
            region: Region::Americas,
            sub_region: SubRegion::LatinAmericaAndTheCaribbean,
            intermediate_region: IntermediateRegion::SouthAmerica,
            region_code: 19,
            sub_region_code: 419,
            intermediate_region_code: Some(5),
        },
        31 => Definition {
            country_code: 76,
            name: "Brazil",
            alpha2: Alpha2::BR,
            alpha3: Alpha3::BRA,
            region: Region::Americas,
            sub_region: SubRegion::LatinAmericaAndTheCaribbean,
            intermediate_region: IntermediateRegion::SouthAmerica,
            region_code: 19,
            sub_region_code: 419,
            intermediate_region_code: Some(5),
        },
        32 => Definition {
            country_code: 86,
            name: "British Indian Ocean Territory",
            alpha2: Alpha2::IO,
            alpha3: Alpha3::IOT,
            region: Region::Africa,
            sub_region: SubRegion::SubSaharanAfrica,
            intermediate_region: IntermediateRegion::EasternAfrica,
            region_code: 2,
            sub_region_code: 202,
            intermediate_region_code: Some(14),
        },
        33 => Definition {
            country_code: 96,
            name: "Brunei Darussalam",
            alpha2: Alpha2::BN,
            alpha3: Alpha3::BRN,
            region: Region::Asia,
            sub_region: SubRegion::SouthEasternAsia,
            intermediate_region: IntermediateRegion::Undefined,
            region_code: 142,
            sub_region_code: 35,
            intermediate_region_code: None,
        },
        34 => Definition {
            country_code: 100,
            name: "Bulgaria",
            alpha2: Alpha2::BG,
            alpha3: Alpha3::BGR,
            region: Region::Europe,
            sub_region: SubRegion::EasternEurope,
            intermediate_region: IntermediateRegion::Undefined,
            region_code: 150,
            sub_region_code: 151,
            intermediate_region_code: None,
        },
        35 => Definition {
            country_code: 854,
            name: "Burkina Faso",
            alpha2: Alpha2::BF,
            alpha3: Alpha3::BFA,
            region: Region::Africa,
            sub_region: SubRegion::SubSaharanAfrica,
            intermediate_region: IntermediateRegion::WesternAfrica,
            region_code: 2,
            sub_region_code: 202,
            intermediate_region_code: Some(11),
        },
        36 => Definition {
            country_code: 108,
            name: "Burundi",
            alpha2: Alpha2::BI,
            alpha3: Alpha3::BDI,
            region: Region::Africa,
            sub_region: SubRegion::SubSaharanAfrica,
            intermediate_region: IntermediateRegion::EasternAfrica,
            region_code: 2,
            sub_region_code: 202,
            intermediate_region_code: Some(14),
        },
        37 => Definition {
            country_code: 132,
            name: "Cabo Verde",
            alpha2: Alpha2::CV,
            alpha3: Alpha3::CPV,
            region: Region::Africa,
            sub_region: SubRegion::SubSaharanAfrica,
            intermediate_region: IntermediateRegion::WesternAfrica,
            region_code: 2,
            sub_region_code: 202,
            intermediate_region_code: Some(11),
        },
        38 => Definition {
            country_code: 116,
            name: "Cambodia",
            alpha2: Alpha2::KH,
            alpha3: Alpha3::KHM,
            region: Region::Asia,
            sub_region: SubRegion::SouthEasternAsia,
            intermediate_region: IntermediateRegion::Undefined,
            region_code: 142,
            sub_region_code: 35,
            intermediate_region_code: None,
        },
        39 => Definition {
            country_code: 120,
            name: "Cameroon",
            alpha2: Alpha2::CM,
            alpha3: Alpha3::CMR,
            region: Region::Africa,
            sub_region: SubRegion::SubSaharanAfrica,
            intermediate_region: IntermediateRegion::MiddleAfrica,
            region_code: 2,
            sub_region_code: 202,
            intermediate_region_code: Some(17),
        },
        40 => Definition {
            country_code: 124,
            name: "Canada",
            alpha2: Alpha2::CA,
            alpha3: Alpha3::CAN,
            region: Region::Americas,
            sub_region: SubRegion::NorthernAmerica,
            intermediate_region: IntermediateRegion::Undefined,
            region_code: 19,
            sub_region_code: 21,
            intermediate_region_code: None,
        },
        41 => Definition {
            country_code: 136,
            name: "Cayman Islands",
            alpha2: Alpha2::KY,
            alpha3: Alpha3::CYM,
            region: Region::Americas,
            sub_region: SubRegion::LatinAmericaAndTheCaribbean,
            intermediate_region: IntermediateRegion::Caribbean,
            region_code: 19,
            sub_region_code: 419,
            intermediate_region_code: Some(29),
        },
        42 => Definition {
            country_code: 140,
            name: "Central African Republic",
            alpha2: Alpha2::CF,
            alpha3: Alpha3::CAF,
            region: Region::Africa,
            sub_region: SubRegion::SubSaharanAfrica,
            intermediate_region: IntermediateRegion::MiddleAfrica,
            region_code: 2,
            sub_region_code: 202,
            intermediate_region_code: Some(17),
        },
        43 => Definition {
            country_code: 148,
            name: "Chad",
            alpha2: Alpha2::TD,
            alpha3: Alpha3::TCD,
            region: Region::Africa,
            sub_region: SubRegion::SubSaharanAfrica,
            intermediate_region: IntermediateRegion::MiddleAfrica,
            region_code: 2,
            sub_region_code: 202,
            intermediate_region_code: Some(17),
        },
        44 => Definition {
            country_code: 152,
            name: "Chile",
            alpha2: Alpha2::CL,
            alpha3: Alpha3::CHL,
            region: Region::Americas,
            sub_region: SubRegion::LatinAmericaAndTheCaribbean,
            intermediate_region: IntermediateRegion::SouthAmerica,
            region_code: 19,
            sub_region_code: 419,
            intermediate_region_code: Some(5),
        },
        45 => Definition {
            country_code: 156,
            name: "China",
            alpha2: Alpha2::CN,
            alpha3: Alpha3::CHN,
            region: Region::Asia,
            sub_region: SubRegion::EasternAsia,
            intermediate_region: IntermediateRegion::Undefined,
            region_code: 142,
            sub_region_code: 30,
            intermediate_region_code: None,
        },
        46 => Definition {
            country_code: 162,
            name: "Christmas Island",
            alpha2: Alpha2::CX,
            alpha3: Alpha3::CXR,
            region: Region::Oceania,
            sub_region: SubRegion::AustraliaAndNewZealand,
            intermediate_region: IntermediateRegion::Undefined,
            region_code: 9,
            sub_region_code: 53,
            intermediate_region_code: None,
        },
        47 => Definition {
            country_code: 166,
            name: "Cocos (Keeling) Islands",
            alpha2: Alpha2::CC,
            alpha3: Alpha3::CCK,
            region: Region::Oceania,
            sub_region: SubRegion::AustraliaAndNewZealand,
            intermediate_region: IntermediateRegion::Undefined,
            region_code: 9,
            sub_region_code: 53,
            intermediate_region_code: None,
        },
        48 => Definition {
            country_code: 170,
            name: "Colombia",
            alpha2: Alpha2::CO,
            alpha3: Alpha3::COL,
            region: Region::Americas,
            sub_region: SubRegion::LatinAmericaAndTheCaribbean,
            intermediate_region: IntermediateRegion::SouthAmerica,
            region_code: 19,
            sub_region_code: 419,
            intermediate_region_code: Some(5),
        },
        49 => Definition {
            country_code: 174,
            name: "Comoros",
            alpha2: Alpha2::KM,
            alpha3: Alpha3::COM,
            region: Region::Africa,
            sub_region: SubRegion::SubSaharanAfrica,
            intermediate_region: IntermediateRegion::EasternAfrica,
            region_code: 2,
            sub_region_code: 202,
            intermediate_region_code: Some(14),
        },
        50 => Definition {
            country_code: 178,
            name: "Congo",
            alpha2: Alpha2::CG,
            alpha3: Alpha3::COG,
            region: Region::Africa,
            sub_region: SubRegion::SubSaharanAfrica,
            intermediate_region: IntermediateRegion::MiddleAfrica,
            region_code: 2,
            sub_region_code: 202,
            intermediate_region_code: Some(17),
        },
        51 => Definition {
            country_code: 180,
            name: "Congo, Democratic Republic of the",
            alpha2: Alpha2::CD,
            alpha3: Alpha3::COD,
            region: Region::Africa,
            sub_region: SubRegion::SubSaharanAfrica,
            intermediate_region: IntermediateRegion::MiddleAfrica,
            region_code: 2,
            sub_region_code: 202,
            intermediate_region_code: Some(17),
        },
        52 => Definition {
            country_code: 184,
            name: "Cook Islands",
            alpha2: Alpha2::CK,
            alpha3: Alpha3::COK,
            region: Region::Oceania,
            sub_region: SubRegion::Polynesia,
            intermediate_region: IntermediateRegion::Undefined,
            region_code: 9,
            sub_region_code: 61,
            intermediate_region_code: None,
        },
        53 => Definition {
            country_code: 188,
            name: "Costa Rica",
            alpha2: Alpha2::CR,
            alpha3: Alpha3::CRI,
            region: Region::Americas,
            sub_region: SubRegion::LatinAmericaAndTheCaribbean,
            intermediate_region: IntermediateRegion::CentralAmerica,
            region_code: 19,
            sub_region_code: 419,
            intermediate_region_code: Some(13),
        },
        54 => Definition {
            country_code: 384,
            name: "Côte d'Ivoire",
            alpha2: Alpha2::CI,
            alpha3: Alpha3::CIV,
            region: Region::Africa,
            sub_region: SubRegion::SubSaharanAfrica,
            intermediate_region: IntermediateRegion::WesternAfrica,
            region_code: 2,
            sub_region_code: 202,
            intermediate_region_code: Some(11),
        },
        55 => Definition {
            country_code: 191,
            name: "Croatia",
            alpha2: Alpha2::HR,
            alpha3: Alpha3::HRV,
            region: Region::Europe,
            sub_region: SubRegion::SouthernEurope,
            intermediate_region: IntermediateRegion::Undefined,
            region_code: 150,
            sub_region_code: 39,
            intermediate_region_code: None,
        },
        56 => Definition {
            country_code: 192,
            name: "Cuba",
            alpha2: Alpha2::CU,
            alpha3: Alpha3::CUB,
            region: Region::Americas,
            sub_region: SubRegion::LatinAmericaAndTheCaribbean,
            intermediate_region: IntermediateRegion::Caribbean,
            region_code: 19,
            sub_region_code: 419,
            intermediate_region_code: Some(29),
        },
        57 => Definition {
            country_code: 531,
            name: "Curaçao",
            alpha2: Alpha2::CW,
            alpha3: Alpha3::CUW,
            region: Region::Americas,
            sub_region: SubRegion::LatinAmericaAndTheCaribbean,
            intermediate_region: IntermediateRegion::Caribbean,
            region_code: 19,
            sub_region_code: 419,
            intermediate_region_code: Some(29),
        },
        58 => Definition {
            country_code: 196,
            name: "Cyprus",
            alpha2: Alpha2::CY,
            alpha3: Alpha3::CYP,
            region: Region::Asia,
            sub_region: SubRegion::WesternAsia,
            intermediate_region: IntermediateRegion::Undefined,
            region_code: 142,
            sub_region_code: 145,
            intermediate_region_code: None,
        },
        59 => Definition {
            country_code: 203,
            name: "Czechia",
            alpha2: Alpha2::CZ,
            alpha3: Alpha3::CZE,
            region: Region::Europe,
            sub_region: SubRegion::EasternEurope,
            intermediate_region: IntermediateRegion::Undefined,
            region_code: 150,
            sub_region_code: 151,
            intermediate_region_code: None,
        },
        60 => Definition {
            country_code: 208,
            name: "Denmark",
            alpha2: Alpha2::DK,
            alpha3: Alpha3::DNK,
            region: Region::Europe,
            sub_region: SubRegion::NorthernEurope,
            intermediate_region: IntermediateRegion::Undefined,
            region_code: 150,
            sub_region_code: 154,
            intermediate_region_code: None,
        },
        61 => Definition {
            country_code: 262,
            name: "Djibouti",
            alpha2: Alpha2::DJ,
            alpha3: Alpha3::DJI,
            region: Region::Africa,
            sub_region: SubRegion::SubSaharanAfrica,
            intermediate_region: IntermediateRegion::EasternAfrica,
            region_code: 2,
            sub_region_code: 202,
            intermediate_region_code: Some(14),
        },
        62 => Definition {
            country_code: 212,
            name: "Dominica",
            alpha2: Alpha2::DM,
            alpha3: Alpha3::DMA,
            region: Region::Americas,
            sub_region: SubRegion::LatinAmericaAndTheCaribbean,
            intermediate_region: IntermediateRegion::Caribbean,
            region_code: 19,
            sub_region_code: 419,
            intermediate_region_code: Some(29),
        },
        63 => Definition {
            country_code: 214,
            name: "Dominican Republic",
            alpha2: Alpha2::DO,
            alpha3: Alpha3::DOM,
            region: Region::Americas,
            sub_region: SubRegion::LatinAmericaAndTheCaribbean,
            intermediate_region: IntermediateRegion::Caribbean,
            region_code: 19,
            sub_region_code: 419,
            intermediate_region_code: Some(29),
        },
        64 => Definition {
            country_code: 218,
            name: "Ecuador",
            alpha2: Alpha2::EC,
            alpha3: Alpha3::ECU,
            region: Region::Americas,
            sub_region: SubRegion::LatinAmericaAndTheCaribbean,
            intermediate_region: IntermediateRegion::SouthAmerica,
            region_code: 19,
            sub_region_code: 419,
            intermediate_region_code: Some(5),
        },
        65 => Definition {
            country_code: 818,
            name: "Egypt",
            alpha2: Alpha2::EG,
            alpha3: Alpha3::EGY,
            region: Region::Africa,
            sub_region: SubRegion::NorthernAfrica,
            intermediate_region: IntermediateRegion::Undefined,
            region_code: 2,
            sub_region_code: 15,
            intermediate_region_code: None,
        },
        66 => Definition {
            country_code: 222,
            name: "El Salvador",
            alpha2: Alpha2::SV,
            alpha3: Alpha3::SLV,
            region: Region::Americas,
            sub_region: SubRegion::LatinAmericaAndTheCaribbean,
            intermediate_region: IntermediateRegion::CentralAmerica,
            region_code: 19,
            sub_region_code: 419,
            intermediate_region_code: Some(13),
        },
        67 => Definition {
            country_code: 226,
            name: "Equatorial Guinea",
            alpha2: Alpha2::GQ,
            alpha3: Alpha3::GNQ,
            region: Region::Africa,
            sub_region: SubRegion::SubSaharanAfrica,
            intermediate_region: IntermediateRegion::MiddleAfrica,
            region_code: 2,
            sub_region_code: 202,
            intermediate_region_code: Some(17),
        },
        68 => Definition {
            country_code: 232,
            name: "Eritrea",
            alpha2: Alpha2::ER,
            alpha3: Alpha3::ERI,
            region: Region::Africa,
            sub_region: SubRegion::SubSaharanAfrica,
            intermediate_region: IntermediateRegion::EasternAfrica,
            region_code: 2,
            sub_region_code: 202,
            intermediate_region_code: Some(14),
        },
        69 => Definition {
            country_code: 233,
            name: "Estonia",
            alpha2: Alpha2::EE,
            alpha3: Alpha3::EST,
            region: Region::Europe,
            sub_region: SubRegion::NorthernEurope,
            intermediate_region: IntermediateRegion::Undefined,
            region_code: 150,
            sub_region_code: 154,
            intermediate_region_code: None,
        },
        70 => Definition {
            country_code: 748,
            name: "Eswatini",
            alpha2: Alpha2::SZ,
            alpha3: Alpha3::SWZ,
            region: Region::Africa,
            sub_region: SubRegion::SubSaharanAfrica,
            intermediate_region: IntermediateRegion::SouthernAfrica,
            region_code: 2,
            sub_region_code: 202,
            intermediate_region_code: Some(18),
        },
        71 => Definition {
            country_code: 231,
            name: "Ethiopia",
            alpha2: Alpha2::ET,
            alpha3: Alpha3::ETH,
            region: Region::Africa,
            sub_region: SubRegion::SubSaharanAfrica,
            intermediate_region: IntermediateRegion::EasternAfrica,
            region_code: 2,
            sub_region_code: 202,
            intermediate_region_code: Some(14),
        },
        72 => Definition {
            country_code: 238,
            name: "Falkland Islands (Malvinas)",
            alpha2: Alpha2::FK,
            alpha3: Alpha3::FLK,
            region: Region::Americas,
            sub_region: SubRegion::LatinAmericaAndTheCaribbean,
            intermediate_region: IntermediateRegion::SouthAmerica,
            region_code: 19,
            sub_region_code: 419,
            intermediate_region_code: Some(5),
        },
        73 => Definition {
            country_code: 234,
            name: "Faroe Islands",
            alpha2: Alpha2::FO,
            alpha3: Alpha3::FRO,
            region: Region::Europe,
            sub_region: SubRegion::NorthernEurope,
            intermediate_region: IntermediateRegion::Undefined,
            region_code: 150,
            sub_region_code: 154,
            intermediate_region_code: None,
        },
        74 => Definition {
            country_code: 242,
            name: "Fiji",
            alpha2: Alpha2::FJ,
            alpha3: Alpha3::FJI,
            region: Region::Oceania,
            sub_region: SubRegion::Melanesia,
            intermediate_region: IntermediateRegion::Undefined,
            region_code: 9,
            sub_region_code: 54,
            intermediate_region_code: None,
        },
        75 => Definition {
            country_code: 246,
            name: "Finland",
            alpha2: Alpha2::FI,
            alpha3: Alpha3::FIN,
            region: Region::Europe,
            sub_region: SubRegion::NorthernEurope,
            intermediate_region: IntermediateRegion::Undefined,
            region_code: 150,
            sub_region_code: 154,
            intermediate_region_code: None,
        },
        76 => Definition {
            country_code: 250,
            name: "France",
            alpha2: Alpha2::FR,
            alpha3: Alpha3::FRA,
            region: Region::Europe,
            sub_region: SubRegion::WesternEurope,
            intermediate_region: IntermediateRegion::Undefined,
            region_code: 150,
            sub_region_code: 155,
            intermediate_region_code: None,
        },
        77 => Definition {
            country_code: 254,
            name: "French Guiana",
            alpha2: Alpha2::GF,
            alpha3: Alpha3::GUF,
            region: Region::Americas,
            sub_region: SubRegion::LatinAmericaAndTheCaribbean,
            intermediate_region: IntermediateRegion::SouthAmerica,
            region_code: 19,
            sub_region_code: 419,
            intermediate_region_code: Some(5),
        },
        78 => Definition {
            country_code: 258,
            name: "French Polynesia",
            alpha2: Alpha2::PF,
            alpha3: Alpha3::PYF,
            region: Region::Oceania,
            sub_region: SubRegion::Polynesia,
            intermediate_region: IntermediateRegion::Undefined,
            region_code: 9,
            sub_region_code: 61,
            intermediate_region_code: None,
        },
        79 => Definition {
            country_code: 260,
            name: "French Southern Territories",
            alpha2: Alpha2::TF,
            alpha3: Alpha3::ATF,
            region: Region::Africa,
            sub_region: SubRegion::SubSaharanAfrica,
            intermediate_region: IntermediateRegion::EasternAfrica,
            region_code: 2,
            sub_region_code: 202,
            intermediate_region_code: Some(14),
        },
        80 => Definition {
            country_code: 266,
            name: "Gabon",
            alpha2: Alpha2::GA,
            alpha3: Alpha3::GAB,
            region: Region::Africa,
            sub_region: SubRegion::SubSaharanAfrica,
            intermediate_region: IntermediateRegion::MiddleAfrica,
            region_code: 2,
            sub_region_code: 202,
            intermediate_region_code: Some(17),
        },
        81 => Definition {
            country_code: 270,
            name: "Gambia",
            alpha2: Alpha2::GM,
            alpha3: Alpha3::GMB,
            region: Region::Africa,
            sub_region: SubRegion::SubSaharanAfrica,
            intermediate_region: IntermediateRegion::WesternAfrica,
            region_code: 2,
            sub_region_code: 202,
            intermediate_region_code: Some(11),
        },
        82 => Definition {
            country_code: 268,
            name: "Georgia",
            alpha2: Alpha2::GE,
            alpha3: Alpha3::GEO,
            region: Region::Asia,
            sub_region: SubRegion::WesternAsia,
            intermediate_region: IntermediateRegion::Undefined,
            region_code: 142,
            sub_region_code: 145,
            intermediate_region_code: None,
        },
        83 => Definition {
            country_code: 276,
            name: "Germany",
            alpha2: Alpha2::DE,
            alpha3: Alpha3::DEU,
            region: Region::Europe,
            sub_region: SubRegion::WesternEurope,
            intermediate_region: IntermediateRegion::Undefined,
            region_code: 150,
            sub_region_code: 155,
            intermediate_region_code: None,
        },
        84 => Definition {
            country_code: 288,
            name: "Ghana",
            alpha2: Alpha2::GH,
            alpha3: Alpha3::GHA,
            region: Region::Africa,
            sub_region: SubRegion::SubSaharanAfrica,
            intermediate_region: IntermediateRegion::WesternAfrica,
            region_code: 2,
            sub_region_code: 202,
            intermediate_region_code: Some(11),
        },
        85 => Definition {
            country_code: 292,
            name: "Gibraltar",
            alpha2: Alpha2::GI,
            alpha3: Alpha3::GIB,
            region: Region::Europe,
            sub_region: SubRegion::SouthernEurope,
            intermediate_region: IntermediateRegion::Undefined,
            region_code: 150,
            sub_region_code: 39,
            intermediate_region_code: None,
        },
        86 => Definition {
            country_code: 300,
            name: "Greece",
            alpha2: Alpha2::GR,
            alpha3: Alpha3::GRC,
            region: Region::Europe,
            sub_region: SubRegion::SouthernEurope,
            intermediate_region: IntermediateRegion::Undefined,
            region_code: 150,
            sub_region_code: 39,
            intermediate_region_code: None,
        },
        87 => Definition {
            country_code: 304,
            name: "Greenland",
            alpha2: Alpha2::GL,
            alpha3: Alpha3::GRL,
            region: Region::Americas,
            sub_region: SubRegion::NorthernAmerica,
            intermediate_region: IntermediateRegion::Undefined,
            region_code: 19,
            sub_region_code: 21,
            intermediate_region_code: None,
        },
        88 => Definition {
            country_code: 308,
            name: "Grenada",
            alpha2: Alpha2::GD,
            alpha3: Alpha3::GRD,
            region: Region::Americas,
            sub_region: SubRegion::LatinAmericaAndTheCaribbean,
            intermediate_region: IntermediateRegion::Caribbean,
            region_code: 19,
            sub_region_code: 419,
            intermediate_region_code: Some(29),
        },
        89 => Definition {
            country_code: 312,
            name: "Guadeloupe",
            alpha2: Alpha2::GP,
            alpha3: Alpha3::GLP,
            region: Region::Americas,
            sub_region: SubRegion::LatinAmericaAndTheCaribbean,
            intermediate_region: IntermediateRegion::Caribbean,
            region_code: 19,
            sub_region_code: 419,
            intermediate_region_code: Some(29),
        },
        90 => Definition {
            country_code: 316,
            name: "Guam",
            alpha2: Alpha2::GU,
            alpha3: Alpha3::GUM,
            region: Region::Oceania,
            sub_region: SubRegion::Micronesia,
            intermediate_region: IntermediateRegion::Undefined,
            region_code: 9,
            sub_region_code: 57,
            intermediate_region_code: None,
        },
        91 => Definition {
            country_code: 320,
            name: "Guatemala",
            alpha2: Alpha2::GT,
            alpha3: Alpha3::GTM,
            region: Region::Americas,
            sub_region: SubRegion::LatinAmericaAndTheCaribbean,
            intermediate_region: IntermediateRegion::CentralAmerica,
            region_code: 19,
            sub_region_code: 419,
            intermediate_region_code: Some(13),
        },
        92 => Definition {
            country_code: 831,
            name: "Guernsey",
            alpha2: Alpha2::GG,
            alpha3: Alpha3::GGY,
            region: Region::Europe,
            sub_region: SubRegion::NorthernEurope,
            intermediate_region: IntermediateRegion::ChannelIslands,
            region_code: 150,
            sub_region_code: 154,
            intermediate_region_code: Some(830),
        },
        93 => Definition {
            country_code: 324,
            name: "Guinea",
            alpha2: Alpha2::GN,
            alpha3: Alpha3::GIN,
            region: Region::Africa,
            sub_region: SubRegion::SubSaharanAfrica,
            intermediate_region: IntermediateRegion::WesternAfrica,
            region_code: 2,
            sub_region_code: 202,
            intermediate_region_code: Some(11),
        },
        94 => Definition {
            country_code: 624,
            name: "Guinea-Bissau",
            alpha2: Alpha2::GW,
            alpha3: Alpha3::GNB,
            region: Region::Africa,
            sub_region: SubRegion::SubSaharanAfrica,
            intermediate_region: IntermediateRegion::WesternAfrica,
            region_code: 2,
            sub_region_code: 202,
            intermediate_region_code: Some(11),
        },
        95 => Definition {
            country_code: 328,
            name: "Guyana",
            alpha2: Alpha2::GY,
            alpha3: Alpha3::GUY,
            region: Region::Americas,
            sub_region: SubRegion::LatinAmericaAndTheCaribbean,
            intermediate_region: IntermediateRegion::SouthAmerica,
            region_code: 19,
            sub_region_code: 419,
            intermediate_region_code: Some(5),
        },
        96 => Definition {
            country_code: 332,
            name: "Haiti",
            alpha2: Alpha2::HT,
            alpha3: Alpha3::HTI,
            region: Region::Americas,
            sub_region: SubRegion::LatinAmericaAndTheCaribbean,
            intermediate_region: IntermediateRegion::Caribbean,
            region_code: 19,
            sub_region_code: 419,
            intermediate_region_code: Some(29),
        },
        97 => Definition {
            country_code: 334,
            name: "Heard Island and McDonald Islands",
            alpha2: Alpha2::HM,
            alpha3: Alpha3::HMD,
            region: Region::Oceania,
            sub_region: SubRegion::AustraliaAndNewZealand,
            intermediate_region: IntermediateRegion::Undefined,
            region_code: 9,
            sub_region_code: 53,
            intermediate_region_code: None,
        },
        98 => Definition {
            country_code: 336,
            name: "Holy See",
            alpha2: Alpha2::VA,
            alpha3: Alpha3::VAT,
            region: Region::Europe,
            sub_region: SubRegion::SouthernEurope,
            intermediate_region: IntermediateRegion::Undefined,
            region_code: 150,
            sub_region_code: 39,
            intermediate_region_code: None,
        },
        99 => Definition {
            country_code: 340,
            name: "Honduras",
            alpha2: Alpha2::HN,
            alpha3: Alpha3::HND,
            region: Region::Americas,
            sub_region: SubRegion::LatinAmericaAndTheCaribbean,
            intermediate_region: IntermediateRegion::CentralAmerica,
            region_code: 19,
            sub_region_code: 419,
            intermediate_region_code: Some(13),
        },
        100 => Definition {
            country_code: 344,
            name: "Hong Kong",
            alpha2: Alpha2::HK,
            alpha3: Alpha3::HKG,
            region: Region::Asia,
            sub_region: SubRegion::EasternAsia,
            intermediate_region: IntermediateRegion::Undefined,
            region_code: 142,
            sub_region_code: 30,
            intermediate_region_code: None,
        },
        101 => Definition {
            country_code: 348,
            name: "Hungary",
            alpha2: Alpha2::HU,
            alpha3: Alpha3::HUN,
            region: Region::Europe,
            sub_region: SubRegion::EasternEurope,
            intermediate_region: IntermediateRegion::Undefined,
            region_code: 150,
            sub_region_code: 151,
            intermediate_region_code: None,
        },
        102 => Definition {
            country_code: 352,
            name: "Iceland",
            alpha2: Alpha2::IS,
            alpha3: Alpha3::ISL,
            region: Region::Europe,
            sub_region: SubRegion::NorthernEurope,
            intermediate_region: IntermediateRegion::Undefined,
            region_code: 150,
            sub_region_code: 154,
            intermediate_region_code: None,
        },
        103 => Definition {
            country_code: 356,
            name: "India",
            alpha2: Alpha2::IN,
            alpha3: Alpha3::IND,
            region: Region::Asia,
            sub_region: SubRegion::SouthernAsia,
            intermediate_region: IntermediateRegion::Undefined,
            region_code: 142,
            sub_region_code: 34,
            intermediate_region_code: None,
        },
        104 => Definition {
            country_code: 360,
            name: "Indonesia",
            alpha2: Alpha2::ID,
            alpha3: Alpha3::IDN,
            region: Region::Asia,
            sub_region: SubRegion::SouthEasternAsia,
            intermediate_region: IntermediateRegion::Undefined,
            region_code: 142,
            sub_region_code: 35,
            intermediate_region_code: None,
        },
        105 => Definition {
            country_code: 364,
            name: "Iran (Islamic Republic of)",
            alpha2: Alpha2::IR,
            alpha3: Alpha3::IRN,
            region: Region::Asia,
            sub_region: SubRegion::SouthernAsia,
            intermediate_region: IntermediateRegion::Undefined,
            region_code: 142,
            sub_region_code: 34,
            intermediate_region_code: None,
        },
        106 => Definition {
            country_code: 368,
            name: "Iraq",
            alpha2: Alpha2::IQ,
            alpha3: Alpha3::IRQ,
            region: Region::Asia,
            sub_region: SubRegion::WesternAsia,
            intermediate_region: IntermediateRegion::Undefined,
            region_code: 142,
            sub_region_code: 145,
            intermediate_region_code: None,
        },
        107 => Definition {
            country_code: 372,
            name: "Ireland",
            alpha2: Alpha2::IE,
            alpha3: Alpha3::IRL,
            region: Region::Europe,
            sub_region: SubRegion::NorthernEurope,
            intermediate_region: IntermediateRegion::Undefined,
            region_code: 150,
            sub_region_code: 154,
            intermediate_region_code: None,
        },
        108 => Definition {
            country_code: 833,
            name: "Isle of Man",
            alpha2: Alpha2::IM,
            alpha3: Alpha3::IMN,
            region: Region::Europe,
            sub_region: SubRegion::NorthernEurope,
            intermediate_region: IntermediateRegion::Undefined,
            region_code: 150,
            sub_region_code: 154,
            intermediate_region_code: None,
        },
        109 => Definition {
            country_code: 376,
            name: "Israel",
            alpha2: Alpha2::IL,
            alpha3: Alpha3::ISR,
            region: Region::Asia,
            sub_region: SubRegion::WesternAsia,
            intermediate_region: IntermediateRegion::Undefined,
            region_code: 142,
            sub_region_code: 145,
            intermediate_region_code: None,
        },
        110 => Definition {
            country_code: 380,
            name: "Italy",
            alpha2: Alpha2::IT,
            alpha3: Alpha3::ITA,
            region: Region::Europe,
            sub_region: SubRegion::SouthernEurope,
            intermediate_region: IntermediateRegion::Undefined,
            region_code: 150,
            sub_region_code: 39,
            intermediate_region_code: None,
        },
        111 => Definition {
            country_code: 388,
            name: "Jamaica",
            alpha2: Alpha2::JM,
            alpha3: Alpha3::JAM,
            region: Region::Americas,
            sub_region: SubRegion::LatinAmericaAndTheCaribbean,
            intermediate_region: IntermediateRegion::Caribbean,
            region_code: 19,
            sub_region_code: 419,
            intermediate_region_code: Some(29),
        },
        112 => Definition {
            country_code: 392,
            name: "Japan",
            alpha2: Alpha2::JP,
            alpha3: Alpha3::JPN,
            region: Region::Asia,
            sub_region: SubRegion::EasternAsia,
            intermediate_region: IntermediateRegion::Undefined,
            region_code: 142,
            sub_region_code: 30,
            intermediate_region_code: None,
        },
        113 => Definition {
            country_code: 832,
            name: "Jersey",
            alpha2: Alpha2::JE,
            alpha3: Alpha3::JEY,
            region: Region::Europe,
            sub_region: SubRegion::NorthernEurope,
            intermediate_region: IntermediateRegion::ChannelIslands,
            region_code: 150,
            sub_region_code: 154,
            intermediate_region_code: Some(830),
        },
        114 => Definition {
            country_code: 400,
            name: "Jordan",
            alpha2: Alpha2::JO,
            alpha3: Alpha3::JOR,
            region: Region::Asia,
            sub_region: SubRegion::WesternAsia,
            intermediate_region: IntermediateRegion::Undefined,
            region_code: 142,
            sub_region_code: 145,
            intermediate_region_code: None,
        },
        115 => Definition {
            country_code: 398,
            name: "Kazakhstan",
            alpha2: Alpha2::KZ,
            alpha3: Alpha3::KAZ,
            region: Region::Asia,
            sub_region: SubRegion::CentralAsia,
            intermediate_region: IntermediateRegion::Undefined,
            region_code: 142,
            sub_region_code: 143,
            intermediate_region_code: None,
        },
        116 => Definition {
            country_code: 404,
            name: "Kenya",
            alpha2: Alpha2::KE,
            alpha3: Alpha3::KEN,
            region: Region::Africa,
            sub_region: SubRegion::SubSaharanAfrica,
            intermediate_region: IntermediateRegion::EasternAfrica,
            region_code: 2,
            sub_region_code: 202,
            intermediate_region_code: Some(14),
        },
        117 => Definition {
            country_code: 296,
            name: "Kiribati",
            alpha2: Alpha2::KI,
            alpha3: Alpha3::KIR,
            region: Region::Oceania,
            sub_region: SubRegion::Micronesia,
            intermediate_region: IntermediateRegion::Undefined,
            region_code: 9,
            sub_region_code: 57,
            intermediate_region_code: None,
        },
        118 => Definition {
            country_code: 408,
            name: "Korea (Democratic People's Republic of)",
            alpha2: Alpha2::KP,
            alpha3: Alpha3::PRK,
            region: Region::Asia,
            sub_region: SubRegion::EasternAsia,
            intermediate_region: IntermediateRegion::Undefined,
            region_code: 142,
            sub_region_code: 30,
            intermediate_region_code: None,
        },
        119 => Definition {
            country_code: 410,
            name: "Korea, Republic of",
            alpha2: Alpha2::KR,
            alpha3: Alpha3::KOR,
            region: Region::Asia,
            sub_region: SubRegion::EasternAsia,
            intermediate_region: IntermediateRegion::Undefined,
            region_code: 142,
            sub_region_code: 30,
            intermediate_region_code: None,
        },
        120 => Definition {
            country_code: 414,
            name: "Kuwait",
            alpha2: Alpha2::KW,
            alpha3: Alpha3::KWT,
            region: Region::Asia,
            sub_region: SubRegion::WesternAsia,
            intermediate_region: IntermediateRegion::Undefined,
            region_code: 142,
            sub_region_code: 145,
            intermediate_region_code: None,
        },
        121 => Definition {
            country_code: 417,
            name: "Kyrgyzstan",
            alpha2: Alpha2::KG,
            alpha3: Alpha3::KGZ,
            region: Region::Asia,
            sub_region: SubRegion::CentralAsia,
            intermediate_region: IntermediateRegion::Undefined,
            region_code: 142,
            sub_region_code: 143,
            intermediate_region_code: None,
        },
        122 => Definition {
            country_code: 418,
            name: "Lao People's Democratic Republic",
            alpha2: Alpha2::LA,
            alpha3: Alpha3::LAO,
            region: Region::Asia,
            sub_region: SubRegion::SouthEasternAsia,
            intermediate_region: IntermediateRegion::Undefined,
            region_code: 142,
            sub_region_code: 35,
            intermediate_region_code: None,
        },
        123 => Definition {
            country_code: 428,
            name: "Latvia",
            alpha2: Alpha2::LV,
            alpha3: Alpha3::LVA,
            region: Region::Europe,
            sub_region: SubRegion::NorthernEurope,
            intermediate_region: IntermediateRegion::Undefined,
            region_code: 150,
            sub_region_code: 154,
            intermediate_region_code: None,
        },
        124 => Definition {
            country_code: 422,
            name: "Lebanon",
            alpha2: Alpha2::LB,
            alpha3: Alpha3::LBN,
            region: Region::Asia,
            sub_region: SubRegion::WesternAsia,
            intermediate_region: IntermediateRegion::Undefined,
            region_code: 142,
            sub_region_code: 145,
            intermediate_region_code: None,
        },
        125 => Definition {
            country_code: 426,
            name: "Lesotho",
            alpha2: Alpha2::LS,
            alpha3: Alpha3::LSO,
            region: Region::Africa,
            sub_region: SubRegion::SubSaharanAfrica,
            intermediate_region: IntermediateRegion::SouthernAfrica,
            region_code: 2,
            sub_region_code: 202,
            intermediate_region_code: Some(18),
        },
        126 => Definition {
            country_code: 430,
            name: "Liberia",
            alpha2: Alpha2::LR,
            alpha3: Alpha3::LBR,
            region: Region::Africa,
            sub_region: SubRegion::SubSaharanAfrica,
            intermediate_region: IntermediateRegion::WesternAfrica,
            region_code: 2,
            sub_region_code: 202,
            intermediate_region_code: Some(11),
        },
        127 => Definition {
            country_code: 434,
            name: "Libya",
            alpha2: Alpha2::LY,
            alpha3: Alpha3::LBY,
            region: Region::Africa,
            sub_region: SubRegion::NorthernAfrica,
            intermediate_region: IntermediateRegion::Undefined,
            region_code: 2,
            sub_region_code: 15,
            intermediate_region_code: None,
        },
        128 => Definition {
            country_code: 438,
            name: "Liechtenstein",
            alpha2: Alpha2::LI,
            alpha3: Alpha3::LIE,
            region: Region::Europe,
            sub_region: SubRegion::WesternEurope,
            intermediate_region: IntermediateRegion::Undefined,
            region_code: 150,
            sub_region_code: 155,
            intermediate_region_code: None,
        },
        129 => Definition {
            country_code: 440,
            name: "Lithuania",
            alpha2: Alpha2::LT,
            alpha3: Alpha3::LTU,
            region: Region::Europe,
            sub_region: SubRegion::NorthernEurope,
            intermediate_region: IntermediateRegion::Undefined,
            region_code: 150,
            sub_region_code: 154,
            intermediate_region_code: None,
        },
        130 => Definition {
            country_code: 442,
            name: "Luxembourg",
            alpha2: Alpha2::LU,
            alpha3: Alpha3::LUX,
            region: Region::Europe,
            sub_region: SubRegion::WesternEurope,
            intermediate_region: IntermediateRegion::Undefined,
            region_code: 150,
            sub_region_code: 155,
            intermediate_region_code: None,
        },
        131 => Definition {
            country_code: 446,
            name: "Macao",
            alpha2: Alpha2::MO,
            alpha3: Alpha3::MAC,
            region: Region::Asia,
            sub_region: SubRegion::EasternAsia,
            intermediate_region: IntermediateRegion::Undefined,
            region_code: 142,
            sub_region_code: 30,
            intermediate_region_code: None,
        },
        132 => Definition {
            country_code: 450,
            name: "Madagascar",
            alpha2: Alpha2::MG,
            alpha3: Alpha3::MDG,
            region: Region::Africa,
            sub_region: SubRegion::SubSaharanAfrica,
            intermediate_region: IntermediateRegion::EasternAfrica,
            region_code: 2,
            sub_region_code: 202,
            intermediate_region_code: Some(14),
        },
        133 => Definition {
            country_code: 454,
            name: "Malawi",
            alpha2: Alpha2::MW,
            alpha3: Alpha3::MWI,
            region: Region::Africa,
            sub_region: SubRegion::SubSaharanAfrica,
            intermediate_region: IntermediateRegion::EasternAfrica,
            region_code: 2,
            sub_region_code: 202,
            intermediate_region_code: Some(14),
        },
        134 => Definition {
            country_code: 458,
            name: "Malaysia",
            alpha2: Alpha2::MY,
            alpha3: Alpha3::MYS,
            region: Region::Asia,
            sub_region: SubRegion::SouthEasternAsia,
            intermediate_region: IntermediateRegion::Undefined,
            region_code: 142,
            sub_region_code: 35,
            intermediate_region_code: None,
        },
        135 => Definition {
            country_code: 462,
            name: "Maldives",
            alpha2: Alpha2::MV,
            alpha3: Alpha3::MDV,
            region: Region::Asia,
            sub_region: SubRegion::SouthernAsia,
            intermediate_region: IntermediateRegion::Undefined,
            region_code: 142,
            sub_region_code: 34,
            intermediate_region_code: None,
        },
        136 => Definition {
            country_code: 466,
            name: "Mali",
            alpha2: Alpha2::ML,
            alpha3: Alpha3::MLI,
            region: Region::Africa,
            sub_region: SubRegion::SubSaharanAfrica,
            intermediate_region: IntermediateRegion::WesternAfrica,
            region_code: 2,
            sub_region_code: 202,
            intermediate_region_code: Some(11),
        },
        137 => Definition {
            country_code: 470,
            name: "Malta",
            alpha2: Alpha2::MT,
            alpha3: Alpha3::MLT,
            region: Region::Europe,
            sub_region: SubRegion::SouthernEurope,
            intermediate_region: IntermediateRegion::Undefined,
            region_code: 150,
            sub_region_code: 39,
            intermediate_region_code: None,
        },
        138 => Definition {
            country_code: 584,
            name: "Marshall Islands",
            alpha2: Alpha2::MH,
            alpha3: Alpha3::MHL,
            region: Region::Oceania,
            sub_region: SubRegion::Micronesia,
            intermediate_region: IntermediateRegion::Undefined,
            region_code: 9,
            sub_region_code: 57,
            intermediate_region_code: None,
        },
        139 => Definition {
            country_code: 474,
            name: "Martinique",
            alpha2: Alpha2::MQ,
            alpha3: Alpha3::MTQ,
            region: Region::Americas,
            sub_region: SubRegion::LatinAmericaAndTheCaribbean,
            intermediate_region: IntermediateRegion::Caribbean,
            region_code: 19,
            sub_region_code: 419,
            intermediate_region_code: Some(29),
        },
        140 => Definition {
            country_code: 478,
            name: "Mauritania",
            alpha2: Alpha2::MR,
            alpha3: Alpha3::MRT,
            region: Region::Africa,
            sub_region: SubRegion::SubSaharanAfrica,
            intermediate_region: IntermediateRegion::WesternAfrica,
            region_code: 2,
            sub_region_code: 202,
            intermediate_region_code: Some(11),
        },
        141 => Definition {
            country_code: 480,
            name: "Mauritius",
            alpha2: Alpha2::MU,
            alpha3: Alpha3::MUS,
            region: Region::Africa,
            sub_region: SubRegion::SubSaharanAfrica,
            intermediate_region: IntermediateRegion::EasternAfrica,
            region_code: 2,
            sub_region_code: 202,
            intermediate_region_code: Some(14),
        },
        142 => Definition {
            country_code: 175,
            name: "Mayotte",
            alpha2: Alpha2::YT,
            alpha3: Alpha3::MYT,
            region: Region::Africa,
            sub_region: SubRegion::SubSaharanAfrica,
            intermediate_region: IntermediateRegion::EasternAfrica,
            region_code: 2,
            sub_region_code: 202,
            intermediate_region_code: Some(14),
        },
        143 => Definition {
            country_code: 484,
            name: "Mexico",
            alpha2: Alpha2::MX,
            alpha3: Alpha3::MEX,
            region: Region::Americas,
            sub_region: SubRegion::LatinAmericaAndTheCaribbean,
            intermediate_region: IntermediateRegion::CentralAmerica,
            region_code: 19,
            sub_region_code: 419,
            intermediate_region_code: Some(13),
        },
        144 => Definition {
            country_code: 583,
            name: "Micronesia (Federated States of)",
            alpha2: Alpha2::FM,
            alpha3: Alpha3::FSM,
            region: Region::Oceania,
            sub_region: SubRegion::Micronesia,
            intermediate_region: IntermediateRegion::Undefined,
            region_code: 9,
            sub_region_code: 57,
            intermediate_region_code: None,
        },
        145 => Definition {
            country_code: 498,
            name: "Moldova, Republic of",
            alpha2: Alpha2::MD,
            alpha3: Alpha3::MDA,
            region: Region::Europe,
            sub_region: SubRegion::EasternEurope,
            intermediate_region: IntermediateRegion::Undefined,
            region_code: 150,
            sub_region_code: 151,
            intermediate_region_code: None,
        },
        146 => Definition {
            country_code: 492,
            name: "Monaco",
            alpha2: Alpha2::MC,
            alpha3: Alpha3::MCO,
            region: Region::Europe,
            sub_region: SubRegion::WesternEurope,
            intermediate_region: IntermediateRegion::Undefined,
            region_code: 150,
            sub_region_code: 155,
            intermediate_region_code: None,
        },
        147 => Definition {
            country_code: 496,
            name: "Mongolia",
            alpha2: Alpha2::MN,
            alpha3: Alpha3::MNG,
            region: Region::Asia,
            sub_region: SubRegion::EasternAsia,
            intermediate_region: IntermediateRegion::Undefined,
            region_code: 142,
            sub_region_code: 30,
            intermediate_region_code: None,
        },
        148 => Definition {
            country_code: 499,
            name: "Montenegro",
            alpha2: Alpha2::ME,
            alpha3: Alpha3::MNE,
            region: Region::Europe,
            sub_region: SubRegion::SouthernEurope,
            intermediate_region: IntermediateRegion::Undefined,
            region_code: 150,
            sub_region_code: 39,
            intermediate_region_code: None,
        },
        149 => Definition {
            country_code: 500,
            name: "Montserrat",
            alpha2: Alpha2::MS,
            alpha3: Alpha3::MSR,
            region: Region::Americas,
            sub_region: SubRegion::LatinAmericaAndTheCaribbean,
            intermediate_region: IntermediateRegion::Caribbean,
            region_code: 19,
            sub_region_code: 419,
            intermediate_region_code: Some(29),
        },
        150 => Definition {
            country_code: 504,
            name: "Morocco",
            alpha2: Alpha2::MA,
            alpha3: Alpha3::MAR,
            region: Region::Africa,
            sub_region: SubRegion::NorthernAfrica,
            intermediate_region: IntermediateRegion::Undefined,
            region_code: 2,
            sub_region_code: 15,
            intermediate_region_code: None,
        },
        151 => Definition {
            country_code: 508,
            name: "Mozambique",
            alpha2: Alpha2::MZ,
            alpha3: Alpha3::MOZ,
            region: Region::Africa,
            sub_region: SubRegion::SubSaharanAfrica,
            intermediate_region: IntermediateRegion::EasternAfrica,
            region_code: 2,
            sub_region_code: 202,
            intermediate_region_code: Some(14),
        },
        152 => Definition {
            country_code: 104,
            name: "Myanmar",
            alpha2: Alpha2::MM,
            alpha3: Alpha3::MMR,
            region: Region::Asia,
            sub_region: SubRegion::SouthEasternAsia,
            intermediate_region: IntermediateRegion::Undefined,
            region_code: 142,
            sub_region_code: 35,
            intermediate_region_code: None,
        },
        153 => Definition {
            country_code: 516,
            name: "Namibia",
            alpha2: Alpha2::NA,
            alpha3: Alpha3::NAM,
            region: Region::Africa,
            sub_region: SubRegion::SubSaharanAfrica,
            intermediate_region: IntermediateRegion::SouthernAfrica,
            region_code: 2,
            sub_region_code: 202,
            intermediate_region_code: Some(18),
        },
        154 => Definition {
            country_code: 520,
            name: "Nauru",
            alpha2: Alpha2::NR,
            alpha3: Alpha3::NRU,
            region: Region::Oceania,
            sub_region: SubRegion::Micronesia,
            intermediate_region: IntermediateRegion::Undefined,
            region_code: 9,
            sub_region_code: 57,
            intermediate_region_code: None,
        },
        155 => Definition {
            country_code: 524,
            name: "Nepal",
            alpha2: Alpha2::NP,
            alpha3: Alpha3::NPL,
            region: Region::Asia,
            sub_region: SubRegion::SouthernAsia,
            intermediate_region: IntermediateRegion::Undefined,
            region_code: 142,
            sub_region_code: 34,
            intermediate_region_code: None,
        },
        156 => Definition {
            country_code: 528,
            name: "Netherlands",
            alpha2: Alpha2::NL,
            alpha3: Alpha3::NLD,
            region: Region::Europe,
            sub_region: SubRegion::WesternEurope,
            intermediate_region: IntermediateRegion::Undefined,
            region_code: 150,
            sub_region_code: 155,
            intermediate_region_code: None,
        },
        157 => Definition {
            country_code: 540,
            name: "New Caledonia",
            alpha2: Alpha2::NC,
            alpha3: Alpha3::NCL,
            region: Region::Oceania,
            sub_region: SubRegion::Melanesia,
            intermediate_region: IntermediateRegion::Undefined,
            region_code: 9,
            sub_region_code: 54,
            intermediate_region_code: None,
        },
        158 => Definition {
            country_code: 554,
            name: "New Zealand",
            alpha2: Alpha2::NZ,
            alpha3: Alpha3::NZL,
            region: Region::Oceania,
            sub_region: SubRegion::AustraliaAndNewZealand,
            intermediate_region: IntermediateRegion::Undefined,
            region_code: 9,
            sub_region_code: 53,
            intermediate_region_code: None,
        },
        159 => Definition {
            country_code: 558,
            name: "Nicaragua",
            alpha2: Alpha2::NI,
            alpha3: Alpha3::NIC,
            region: Region::Americas,
            sub_region: SubRegion::LatinAmericaAndTheCaribbean,
            intermediate_region: IntermediateRegion::CentralAmerica,
            region_code: 19,
            sub_region_code: 419,
            intermediate_region_code: Some(13),
        },
        160 => Definition {
            country_code: 562,
            name: "Niger",
            alpha2: Alpha2::NE,
            alpha3: Alpha3::NER,
            region: Region::Africa,
            sub_region: SubRegion::SubSaharanAfrica,
            intermediate_region: IntermediateRegion::WesternAfrica,
            region_code: 2,
            sub_region_code: 202,
            intermediate_region_code: Some(11),
        },
        161 => Definition {
            country_code: 566,
            name: "Nigeria",
            alpha2: Alpha2::NG,
            alpha3: Alpha3::NGA,
            region: Region::Africa,
            sub_region: SubRegion::SubSaharanAfrica,
            intermediate_region: IntermediateRegion::WesternAfrica,
            region_code: 2,
            sub_region_code: 202,
            intermediate_region_code: Some(11),
        },
        162 => Definition {
            country_code: 570,
            name: "Niue",
            alpha2: Alpha2::NU,
            alpha3: Alpha3::NIU,
            region: Region::Oceania,
            sub_region: SubRegion::Polynesia,
            intermediate_region: IntermediateRegion::Undefined,
            region_code: 9,
            sub_region_code: 61,
            intermediate_region_code: None,
        },
        163 => Definition {
            country_code: 574,
            name: "Norfolk Island",
            alpha2: Alpha2::NF,
            alpha3: Alpha3::NFK,
            region: Region::Oceania,
            sub_region: SubRegion::AustraliaAndNewZealand,
            intermediate_region: IntermediateRegion::Undefined,
            region_code: 9,
            sub_region_code: 53,
            intermediate_region_code: None,
        },
        164 => Definition {
            country_code: 807,
            name: "North Macedonia",
            alpha2: Alpha2::MK,
            alpha3: Alpha3::MKD,
            region: Region::Europe,
            sub_region: SubRegion::SouthernEurope,
            intermediate_region: IntermediateRegion::Undefined,
            region_code: 150,
            sub_region_code: 39,
            intermediate_region_code: None,
        },
        165 => Definition {
            country_code: 580,
            name: "Northern Mariana Islands",
            alpha2: Alpha2::MP,
            alpha3: Alpha3::MNP,
            region: Region::Oceania,
            sub_region: SubRegion::Micronesia,
            intermediate_region: IntermediateRegion::Undefined,
            region_code: 9,
            sub_region_code: 57,
            intermediate_region_code: None,
        },
        166 => Definition {
            country_code: 578,
            name: "Norway",
            alpha2: Alpha2::NO,
            alpha3: Alpha3::NOR,
            region: Region::Europe,
            sub_region: SubRegion::NorthernEurope,
            intermediate_region: IntermediateRegion::Undefined,
            region_code: 150,
            sub_region_code: 154,
            intermediate_region_code: None,
        },
        167 => Definition {
            country_code: 512,
            name: "Oman",
            alpha2: Alpha2::OM,
            alpha3: Alpha3::OMN,
            region: Region::Asia,
            sub_region: SubRegion::WesternAsia,
            intermediate_region: IntermediateRegion::Undefined,
            region_code: 142,
            sub_region_code: 145,
            intermediate_region_code: None,
        },
        168 => Definition {
            country_code: 586,
            name: "Pakistan",
            alpha2: Alpha2::PK,
            alpha3: Alpha3::PAK,
            region: Region::Asia,
            sub_region: SubRegion::SouthernAsia,
            intermediate_region: IntermediateRegion::Undefined,
            region_code: 142,
            sub_region_code: 34,
            intermediate_region_code: None,
        },
        169 => Definition {
            country_code: 585,
            name: "Palau",
            alpha2: Alpha2::PW,
            alpha3: Alpha3::PLW,
            region: Region::Oceania,
            sub_region: SubRegion::Micronesia,
            intermediate_region: IntermediateRegion::Undefined,
            region_code: 9,
            sub_region_code: 57,
            intermediate_region_code: None,
        },
        170 => Definition {
            country_code: 275,
            name: "Palestine, State of",
            alpha2: Alpha2::PS,
            alpha3: Alpha3::PSE,
            region: Region::Asia,
            sub_region: SubRegion::WesternAsia,
            intermediate_region: IntermediateRegion::Undefined,
            region_code: 142,
            sub_region_code: 145,
            intermediate_region_code: None,
        },
        171 => Definition {
            country_code: 591,
            name: "Panama",
            alpha2: Alpha2::PA,
            alpha3: Alpha3::PAN,
            region: Region::Americas,
            sub_region: SubRegion::LatinAmericaAndTheCaribbean,
            intermediate_region: IntermediateRegion::CentralAmerica,
            region_code: 19,
            sub_region_code: 419,
            intermediate_region_code: Some(13),
        },
        172 => Definition {
            country_code: 598,
            name: "Papua New Guinea",
            alpha2: Alpha2::PG,
            alpha3: Alpha3::PNG,
            region: Region::Oceania,
            sub_region: SubRegion::Melanesia,
            intermediate_region: IntermediateRegion::Undefined,
            region_code: 9,
            sub_region_code: 54,
            intermediate_region_code: None,
        },
        173 => Definition {
            country_code: 600,
            name: "Paraguay",
            alpha2: Alpha2::PY,
            alpha3: Alpha3::PRY,
            region: Region::Americas,
            sub_region: SubRegion::LatinAmericaAndTheCaribbean,
            intermediate_region: IntermediateRegion::SouthAmerica,
            region_code: 19,
            sub_region_code: 419,
            intermediate_region_code: Some(5),
        },
        174 => Definition {
            country_code: 604,
            name: "Peru",
            alpha2: Alpha2::PE,
            alpha3: Alpha3::PER,
            region: Region::Americas,
            sub_region: SubRegion::LatinAmericaAndTheCaribbean,
            intermediate_region: IntermediateRegion::SouthAmerica,
            region_code: 19,
            sub_region_code: 419,
            intermediate_region_code: Some(5),
        },
        175 => Definition {
            country_code: 608,
            name: "Philippines",
            alpha2: Alpha2::PH,
            alpha3: Alpha3::PHL,
            region: Region::Asia,
            sub_region: SubRegion::SouthEasternAsia,
            intermediate_region: IntermediateRegion::Undefined,
            region_code: 142,
            sub_region_code: 35,
            intermediate_region_code: None,
        },
        176 => Definition {
            country_code: 612,
            name: "Pitcairn",
            alpha2: Alpha2::PN,
            alpha3: Alpha3::PCN,
            region: Region::Oceania,
            sub_region: SubRegion::Polynesia,
            intermediate_region: IntermediateRegion::Undefined,
            region_code: 9,
            sub_region_code: 61,
            intermediate_region_code: None,
        },
        177 => Definition {
            country_code: 616,
            name: "Poland",
            alpha2: Alpha2::PL,
            alpha3: Alpha3::POL,
            region: Region::Europe,
            sub_region: SubRegion::EasternEurope,
            intermediate_region: IntermediateRegion::Undefined,
            region_code: 150,
            sub_region_code: 151,
            intermediate_region_code: None,
        },
        178 => Definition {
            country_code: 620,
            name: "Portugal",
            alpha2: Alpha2::PT,
            alpha3: Alpha3::PRT,
            region: Region::Europe,
            sub_region: SubRegion::SouthernEurope,
            intermediate_region: IntermediateRegion::Undefined,
            region_code: 150,
            sub_region_code: 39,
            intermediate_region_code: None,
        },
        179 => Definition {
            country_code: 630,
            name: "Puerto Rico",
            alpha2: Alpha2::PR,
            alpha3: Alpha3::PRI,
            region: Region::Americas,
            sub_region: SubRegion::LatinAmericaAndTheCaribbean,
            intermediate_region: IntermediateRegion::Caribbean,
            region_code: 19,
            sub_region_code: 419,
            intermediate_region_code: Some(29),
        },
        180 => Definition {
            country_code: 634,
            name: "Qatar",
            alpha2: Alpha2::QA,
            alpha3: Alpha3::QAT,
            region: Region::Asia,
            sub_region: SubRegion::WesternAsia,
            intermediate_region: IntermediateRegion::Undefined,
            region_code: 142,
            sub_region_code: 145,
            intermediate_region_code: None,
        },
        181 => Definition {
            country_code: 638,
            name: "Réunion",
            alpha2: Alpha2::RE,
            alpha3: Alpha3::REU,
            region: Region::Africa,
            sub_region: SubRegion::SubSaharanAfrica,
            intermediate_region: IntermediateRegion::EasternAfrica,
            region_code: 2,
            sub_region_code: 202,
            intermediate_region_code: Some(14),
        },
        182 => Definition {
            country_code: 642,
            name: "Romania",
            alpha2: Alpha2::RO,
            alpha3: Alpha3::ROU,
            region: Region::Europe,
            sub_region: SubRegion::EasternEurope,
            intermediate_region: IntermediateRegion::Undefined,
            region_code: 150,
            sub_region_code: 151,
            intermediate_region_code: None,
        },
        183 => Definition {
            country_code: 643,
            name: "Russian Federation",
            alpha2: Alpha2::RU,
            alpha3: Alpha3::RUS,
            region: Region::Europe,
            sub_region: SubRegion::EasternEurope,
            intermediate_region: IntermediateRegion::Undefined,
            region_code: 150,
            sub_region_code: 151,
            intermediate_region_code: None,
        },
        184 => Definition {
            country_code: 646,
            name: "Rwanda",
            alpha2: Alpha2::RW,
            alpha3: Alpha3::RWA,
            region: Region::Africa,
            sub_region: SubRegion::SubSaharanAfrica,
            intermediate_region: IntermediateRegion::EasternAfrica,
            region_code: 2,
            sub_region_code: 202,
            intermediate_region_code: Some(14),
        },
        185 => Definition {
            country_code: 652,
            name: "Saint Barthélemy",
            alpha2: Alpha2::BL,
            alpha3: Alpha3::BLM,
            region: Region::Americas,
            sub_region: SubRegion::LatinAmericaAndTheCaribbean,
            intermediate_region: IntermediateRegion::Caribbean,
            region_code: 19,
            sub_region_code: 419,
            intermediate_region_code: Some(29),
        },
        186 => Definition {
            country_code: 654,
            name: "Saint Helena, Ascension and Tristan da Cunha",
            alpha2: Alpha2::SH,
            alpha3: Alpha3::SHN,
            region: Region::Africa,
            sub_region: SubRegion::SubSaharanAfrica,
            intermediate_region: IntermediateRegion::WesternAfrica,
            region_code: 2,
            sub_region_code: 202,
            intermediate_region_code: Some(11),
        },
        187 => Definition {
            country_code: 659,
            name: "Saint Kitts and Nevis",
            alpha2: Alpha2::KN,
            alpha3: Alpha3::KNA,
            region: Region::Americas,
            sub_region: SubRegion::LatinAmericaAndTheCaribbean,
            intermediate_region: IntermediateRegion::Caribbean,
            region_code: 19,
            sub_region_code: 419,
            intermediate_region_code: Some(29),
        },
        188 => Definition {
            country_code: 662,
            name: "Saint Lucia",
            alpha2: Alpha2::LC,
            alpha3: Alpha3::LCA,
            region: Region::Americas,
            sub_region: SubRegion::LatinAmericaAndTheCaribbean,
            intermediate_region: IntermediateRegion::Caribbean,
            region_code: 19,
            sub_region_code: 419,
            intermediate_region_code: Some(29),
        },
        189 => Definition {
            country_code: 663,
            name: "Saint Martin (French part)",
            alpha2: Alpha2::MF,
            alpha3: Alpha3::MAF,
            region: Region::Americas,
            sub_region: SubRegion::LatinAmericaAndTheCaribbean,
            intermediate_region: IntermediateRegion::Caribbean,
            region_code: 19,
            sub_region_code: 419,
            intermediate_region_code: Some(29),
        },
        190 => Definition {
            country_code: 666,
            name: "Saint Pierre and Miquelon",
            alpha2: Alpha2::PM,
            alpha3: Alpha3::SPM,
            region: Region::Americas,
            sub_region: SubRegion::NorthernAmerica,
            intermediate_region: IntermediateRegion::Undefined,
            region_code: 19,
            sub_region_code: 21,
            intermediate_region_code: None,
        },
        191 => Definition {
            country_code: 670,
            name: "Saint Vincent and the Grenadines",
            alpha2: Alpha2::VC,
            alpha3: Alpha3::VCT,
            region: Region::Americas,
            sub_region: SubRegion::LatinAmericaAndTheCaribbean,
            intermediate_region: IntermediateRegion::Caribbean,
            region_code: 19,
            sub_region_code: 419,
            intermediate_region_code: Some(29),
        },
        192 => Definition {
            country_code: 882,
            name: "Samoa",
            alpha2: Alpha2::WS,
            alpha3: Alpha3::WSM,
            region: Region::Oceania,
            sub_region: SubRegion::Polynesia,
            intermediate_region: IntermediateRegion::Undefined,
            region_code: 9,
            sub_region_code: 61,
            intermediate_region_code: None,
        },
        193 => Definition {
            country_code: 674,
            name: "San Marino",
            alpha2: Alpha2::SM,
            alpha3: Alpha3::SMR,
            region: Region::Europe,
            sub_region: SubRegion::SouthernEurope,
            intermediate_region: IntermediateRegion::Undefined,
            region_code: 150,
            sub_region_code: 39,
            intermediate_region_code: None,
        },
        194 => Definition {
            country_code: 678,
            name: "Sao Tome and Principe",
            alpha2: Alpha2::ST,
            alpha3: Alpha3::STP,
            region: Region::Africa,
            sub_region: SubRegion::SubSaharanAfrica,
            intermediate_region: IntermediateRegion::MiddleAfrica,
            region_code: 2,
            sub_region_code: 202,
            intermediate_region_code: Some(17),
        },
        195 => Definition {
            country_code: 682,
            name: "Saudi Arabia",
            alpha2: Alpha2::SA,
            alpha3: Alpha3::SAU,
            region: Region::Asia,
            sub_region: SubRegion::WesternAsia,
            intermediate_region: IntermediateRegion::Undefined,
            region_code: 142,
            sub_region_code: 145,
            intermediate_region_code: None,
        },
        196 => Definition {
            country_code: 686,
            name: "Senegal",
            alpha2: Alpha2::SN,
            alpha3: Alpha3::SEN,
            region: Region::Africa,
            sub_region: SubRegion::SubSaharanAfrica,
            intermediate_region: IntermediateRegion::WesternAfrica,
            region_code: 2,
            sub_region_code: 202,
            intermediate_region_code: Some(11),
        },
        197 => Definition {
            country_code: 688,
            name: "Serbia",
            alpha2: Alpha2::RS,
            alpha3: Alpha3::SRB,
            region: Region::Europe,
            sub_region: SubRegion::SouthernEurope,
            intermediate_region: IntermediateRegion::Undefined,
            region_code: 150,
            sub_region_code: 39,
            intermediate_region_code: None,
        },
        198 => Definition {
            country_code: 690,
            name: "Seychelles",
            alpha2: Alpha2::SC,
            alpha3: Alpha3::SYC,
            region: Region::Africa,
            sub_region: SubRegion::SubSaharanAfrica,
            intermediate_region: IntermediateRegion::EasternAfrica,
            region_code: 2,
            sub_region_code: 202,
            intermediate_region_code: Some(14),
        },
        199 => Definition {
            country_code: 694,
            name: "Sierra Leone",
            alpha2: Alpha2::SL,
            alpha3: Alpha3::SLE,
            region: Region::Africa,
            sub_region: SubRegion::SubSaharanAfrica,
            intermediate_region: IntermediateRegion::WesternAfrica,
            region_code: 2,
            sub_region_code: 202,
            intermediate_region_code: Some(11),
        },
        200 => Definition {
            country_code: 702,
            name: "Singapore",
            alpha2: Alpha2::SG,
            alpha3: Alpha3::SGP,
            region: Region::Asia,
            sub_region: SubRegion::SouthEasternAsia,
            intermediate_region: IntermediateRegion::Undefined,
            region_code: 142,
            sub_region_code: 35,
            intermediate_region_code: None,
        },
        201 => Definition {
            country_code: 534,
            name: "Sint Maarten (Dutch part)",
            alpha2: Alpha2::SX,
            alpha3: Alpha3::SXM,
            region: Region::Americas,
            sub_region: SubRegion::LatinAmericaAndTheCaribbean,
            intermediate_region: IntermediateRegion::Caribbean,
            region_code: 19,
            sub_region_code: 419,
            intermediate_region_code: Some(29),
        },
        202 => Definition {
            country_code: 703,
            name: "Slovakia",
            alpha2: Alpha2::SK,
            alpha3: Alpha3::SVK,
            region: Region::Europe,
            sub_region: SubRegion::EasternEurope,
            intermediate_region: IntermediateRegion::Undefined,
            region_code: 150,
            sub_region_code: 151,
            intermediate_region_code: None,
        },
        203 => Definition {
            country_code: 705,
            name: "Slovenia",
            alpha2: Alpha2::SI,
            alpha3: Alpha3::SVN,
            region: Region::Europe,
            sub_region: SubRegion::SouthernEurope,
            intermediate_region: IntermediateRegion::Undefined,
            region_code: 150,
            sub_region_code: 39,
            intermediate_region_code: None,
        },
        204 => Definition {
            country_code: 90,
            name: "Solomon Islands",
            alpha2: Alpha2::SB,
            alpha3: Alpha3::SLB,
            region: Region::Oceania,
            sub_region: SubRegion::Melanesia,
            intermediate_region: IntermediateRegion::Undefined,
            region_code: 9,
            sub_region_code: 54,
            intermediate_region_code: None,
        },
        205 => Definition {
            country_code: 706,
            name: "Somalia",
            alpha2: Alpha2::SO,
            alpha3: Alpha3::SOM,
            region: Region::Africa,
            sub_region: SubRegion::SubSaharanAfrica,
            intermediate_region: IntermediateRegion::EasternAfrica,
            region_code: 2,
            sub_region_code: 202,
            intermediate_region_code: Some(14),
        },
        206 => Definition {
            country_code: 710,
            name: "South Africa",
            alpha2: Alpha2::ZA,
            alpha3: Alpha3::ZAF,
            region: Region::Africa,
            sub_region: SubRegion::SubSaharanAfrica,
            intermediate_region: IntermediateRegion::SouthernAfrica,
            region_code: 2,
            sub_region_code: 202,
            intermediate_region_code: Some(18),
        },
        207 => Definition {
            country_code: 239,
            name: "South Georgia and the South Sandwich Islands",
            alpha2: Alpha2::GS,
            alpha3: Alpha3::SGS,
            region: Region::Americas,
            sub_region: SubRegion::LatinAmericaAndTheCaribbean,
            intermediate_region: IntermediateRegion::SouthAmerica,
            region_code: 19,
            sub_region_code: 419,
            intermediate_region_code: Some(5),
        },
        208 => Definition {
            country_code: 728,
            name: "South Sudan",
            alpha2: Alpha2::SS,
            alpha3: Alpha3::SSD,
            region: Region::Africa,
            sub_region: SubRegion::SubSaharanAfrica,
            intermediate_region: IntermediateRegion::EasternAfrica,
            region_code: 2,
            sub_region_code: 202,
            intermediate_region_code: Some(14),
        },
        209 => Definition {
            country_code: 724,
            name: "Spain",
            alpha2: Alpha2::ES,
            alpha3: Alpha3::ESP,
            region: Region::Europe,
            sub_region: SubRegion::SouthernEurope,
            intermediate_region: IntermediateRegion::Undefined,
            region_code: 150,
            sub_region_code: 39,
            intermediate_region_code: None,
        },
        210 => Definition {
            country_code: 144,
            name: "Sri Lanka",
            alpha2: Alpha2::LK,
            alpha3: Alpha3::LKA,
            region: Region::Asia,
            sub_region: SubRegion::SouthernAsia,
            intermediate_region: IntermediateRegion::Undefined,
            region_code: 142,
            sub_region_code: 34,
            intermediate_region_code: None,
        },
        211 => Definition {
            country_code: 729,
            name: "Sudan",
            alpha2: Alpha2::SD,
            alpha3: Alpha3::SDN,
            region: Region::Africa,
            sub_region: SubRegion::NorthernAfrica,
            intermediate_region: IntermediateRegion::Undefined,
            region_code: 2,
            sub_region_code: 15,
            intermediate_region_code: None,
        },
        212 => Definition {
            country_code: 740,
            name: "Suriname",
            alpha2: Alpha2::SR,
            alpha3: Alpha3::SUR,
            region: Region::Americas,
            sub_region: SubRegion::LatinAmericaAndTheCaribbean,
            intermediate_region: IntermediateRegion::SouthAmerica,
            region_code: 19,
            sub_region_code: 419,
            intermediate_region_code: Some(5),
        },
        213 => Definition {
            country_code: 744,
            name: "Svalbard and Jan Mayen",
            alpha2: Alpha2::SJ,
            alpha3: Alpha3::SJM,
            region: Region::Europe,
            sub_region: SubRegion::NorthernEurope,
            intermediate_region: IntermediateRegion::Undefined,
            region_code: 150,
            sub_region_code: 154,
            intermediate_region_code: None,
        },
        214 => Definition {
            country_code: 752,
            name: "Sweden",
            alpha2: Alpha2::SE,
            alpha3: Alpha3::SWE,
            region: Region::Europe,
            sub_region: SubRegion::NorthernEurope,
            intermediate_region: IntermediateRegion::Undefined,
            region_code: 150,
            sub_region_code: 154,
            intermediate_region_code: None,
        },
        215 => Definition {
            country_code: 756,
            name: "Switzerland",
            alpha2: Alpha2::CH,
            alpha3: Alpha3::CHE,
            region: Region::Europe,
            sub_region: SubRegion::WesternEurope,
            intermediate_region: IntermediateRegion::Undefined,
            region_code: 150,
            sub_region_code: 155,
            intermediate_region_code: None,
        },
        216 => Definition {
            country_code: 760,
            name: "Syrian Arab Republic",
            alpha2: Alpha2::SY,
            alpha3: Alpha3::SYR,
            region: Region::Asia,
            sub_region: SubRegion::WesternAsia,
            intermediate_region: IntermediateRegion::Undefined,
            region_code: 142,
            sub_region_code: 145,
            intermediate_region_code: None,
        },
        217 => Definition {
            country_code: 158,
            name: "Taiwan, Province of China",
            alpha2: Alpha2::TW,
            alpha3: Alpha3::TWN,
            region: Region::Asia,
            sub_region: SubRegion::EasternAsia,
            intermediate_region: IntermediateRegion::Undefined,
            region_code: 142,
            sub_region_code: 30,
            intermediate_region_code: None,
        },
        218 => Definition {
            country_code: 762,
            name: "Tajikistan",
            alpha2: Alpha2::TJ,
            alpha3: Alpha3::TJK,
            region: Region::Asia,
            sub_region: SubRegion::CentralAsia,
            intermediate_region: IntermediateRegion::Undefined,
            region_code: 142,
            sub_region_code: 143,
            intermediate_region_code: None,
        },
        219 => Definition {
            country_code: 834,
            name: "Tanzania, United Republic of",
            alpha2: Alpha2::TZ,
            alpha3: Alpha3::TZA,
            region: Region::Africa,
            sub_region: SubRegion::SubSaharanAfrica,
            intermediate_region: IntermediateRegion::EasternAfrica,
            region_code: 2,
            sub_region_code: 202,
            intermediate_region_code: Some(14),
        },
        220 => Definition {
            country_code: 764,
            name: "Thailand",
            alpha2: Alpha2::TH,
            alpha3: Alpha3::THA,
            region: Region::Asia,
            sub_region: SubRegion::SouthEasternAsia,
            intermediate_region: IntermediateRegion::Undefined,
            region_code: 142,
            sub_region_code: 35,
            intermediate_region_code: None,
        },
        221 => Definition {
            country_code: 626,
            name: "Timor-Leste",
            alpha2: Alpha2::TL,
            alpha3: Alpha3::TLS,
            region: Region::Asia,
            sub_region: SubRegion::SouthEasternAsia,
            intermediate_region: IntermediateRegion::Undefined,
            region_code: 142,
            sub_region_code: 35,
            intermediate_region_code: None,
        },
        222 => Definition {
            country_code: 768,
            name: "Togo",
            alpha2: Alpha2::TG,
            alpha3: Alpha3::TGO,
            region: Region::Africa,
            sub_region: SubRegion::SubSaharanAfrica,
            intermediate_region: IntermediateRegion::WesternAfrica,
            region_code: 2,
            sub_region_code: 202,
            intermediate_region_code: Some(11),
        },
        223 => Definition {
            country_code: 772,
            name: "Tokelau",
            alpha2: Alpha2::TK,
            alpha3: Alpha3::TKL,
            region: Region::Oceania,
            sub_region: SubRegion::Polynesia,
            intermediate_region: IntermediateRegion::Undefined,
            region_code: 9,
            sub_region_code: 61,
            intermediate_region_code: None,
        },
        224 => Definition {
            country_code: 776,
            name: "Tonga",
            alpha2: Alpha2::TO,
            alpha3: Alpha3::TON,
            region: Region::Oceania,
            sub_region: SubRegion::Polynesia,
            intermediate_region: IntermediateRegion::Undefined,
            region_code: 9,
            sub_region_code: 61,
            intermediate_region_code: None,
        },
        225 => Definition {
            country_code: 780,
            name: "Trinidad and Tobago",
            alpha2: Alpha2::TT,
            alpha3: Alpha3::TTO,
            region: Region::Americas,
            sub_region: SubRegion::LatinAmericaAndTheCaribbean,
            intermediate_region: IntermediateRegion::Caribbean,
            region_code: 19,
            sub_region_code: 419,
            intermediate_region_code: Some(29),
        },
        226 => Definition {
            country_code: 788,
            name: "Tunisia",
            alpha2: Alpha2::TN,
            alpha3: Alpha3::TUN,
            region: Region::Africa,
            sub_region: SubRegion::NorthernAfrica,
            intermediate_region: IntermediateRegion::Undefined,
            region_code: 2,
            sub_region_code: 15,
            intermediate_region_code: None,
        },
        227 => Definition {
            country_code: 792,
            name: "Turkey",
            alpha2: Alpha2::TR,
            alpha3: Alpha3::TUR,
            region: Region::Asia,
            sub_region: SubRegion::WesternAsia,
            intermediate_region: IntermediateRegion::Undefined,
            region_code: 142,
            sub_region_code: 145,
            intermediate_region_code: None,
        },
        228 => Definition {
            country_code: 795,
            name: "Turkmenistan",
            alpha2: Alpha2::TM,
            alpha3: Alpha3::TKM,
            region: Region::Asia,
            sub_region: SubRegion::CentralAsia,
            intermediate_region: IntermediateRegion::Undefined,
            region_code: 142,
            sub_region_code: 143,
            intermediate_region_code: None,
        },
        229 => Definition {
            country_code: 796,
            name: "Turks and Caicos Islands",
            alpha2: Alpha2::TC,
            alpha3: Alpha3::TCA,
            region: Region::Americas,
            sub_region: SubRegion::LatinAmericaAndTheCaribbean,
            intermediate_region: IntermediateRegion::Caribbean,
            region_code: 19,
            sub_region_code: 419,
            intermediate_region_code: Some(29),
        },
        230 => Definition {
            country_code: 798,
            name: "Tuvalu",
            alpha2: Alpha2::TV,
            alpha3: Alpha3::TUV,
            region: Region::Oceania,
            sub_region: SubRegion::Polynesia,
            intermediate_region: IntermediateRegion::Undefined,
            region_code: 9,
            sub_region_code: 61,
            intermediate_region_code: None,
        },
        231 => Definition {
            country_code: 800,
            name: "Uganda",
            alpha2: Alpha2::UG,
            alpha3: Alpha3::UGA,
            region: Region::Africa,
            sub_region: SubRegion::SubSaharanAfrica,
            intermediate_region: IntermediateRegion::EasternAfrica,
            region_code: 2,
            sub_region_code: 202,
            intermediate_region_code: Some(14),
        },
        232 => Definition {
            country_code: 804,
            name: "Ukraine",
            alpha2: Alpha2::UA,
            alpha3: Alpha3::UKR,
            region: Region::Europe,
            sub_region: SubRegion::EasternEurope,
            intermediate_region: IntermediateRegion::Undefined,
            region_code: 150,
            sub_region_code: 151,
            intermediate_region_code: None,
        },
        233 => Definition {
            country_code: 784,
            name: "United Arab Emirates",
            alpha2: Alpha2::AE,
            alpha3: Alpha3::ARE,
            region: Region::Asia,
            sub_region: SubRegion::WesternAsia,
            intermediate_region: IntermediateRegion::Undefined,
            region_code: 142,
            sub_region_code: 145,
            intermediate_region_code: None,
        },
        234 => Definition {
            country_code: 826,
            name: "United Kingdom of Great Britain and Northern Ireland",
            alpha2: Alpha2::GB,
            alpha3: Alpha3::GBR,
            region: Region::Europe,
            sub_region: SubRegion::NorthernEurope,
            intermediate_region: IntermediateRegion::Undefined,
            region_code: 150,
            sub_region_code: 154,
            intermediate_region_code: None,
        },
        235 => Definition {
            country_code: 840,
            name: "United States of America",
            alpha2: Alpha2::US,
            alpha3: Alpha3::USA,
            region: Region::Americas,
            sub_region: SubRegion::NorthernAmerica,
            intermediate_region: IntermediateRegion::Undefined,
            region_code: 19,
            sub_region_code: 21,
            intermediate_region_code: None,
        },
        236 => Definition {
            country_code: 581,
            name: "United States Minor Outlying Islands",
            alpha2: Alpha2::UM,
            alpha3: Alpha3::UMI,
            region: Region::Oceania,
            sub_region: SubRegion::Micronesia,
            intermediate_region: IntermediateRegion::Undefined,
            region_code: 9,
            sub_region_code: 57,
            intermediate_region_code: None,
        },
        237 => Definition {
            country_code: 858,
            name: "Uruguay",
            alpha2: Alpha2::UY,
            alpha3: Alpha3::URY,
            region: Region::Americas,
            sub_region: SubRegion::LatinAmericaAndTheCaribbean,
            intermediate_region: IntermediateRegion::SouthAmerica,
            region_code: 19,
            sub_region_code: 419,
            intermediate_region_code: Some(5),
        },
        238 => Definition {
            country_code: 860,
            name: "Uzbekistan",
            alpha2: Alpha2::UZ,
            alpha3: Alpha3::UZB,
            region: Region::Asia,
            sub_region: SubRegion::CentralAsia,
            intermediate_region: IntermediateRegion::Undefined,
            region_code: 142,
            sub_region_code: 143,
            intermediate_region_code: None,
        },
        239 => Definition {
            country_code: 548,
            name: "Vanuatu",
            alpha2: Alpha2::VU,
            alpha3: Alpha3::VUT,
            region: Region::Oceania,
            sub_region: SubRegion::Melanesia,
            intermediate_region: IntermediateRegion::Undefined,
            region_code: 9,
            sub_region_code: 54,
            intermediate_region_code: None,
        },
        240 => Definition {
            country_code: 862,
            name: "Venezuela (Bolivarian Republic of)",
            alpha2: Alpha2::VE,
            alpha3: Alpha3::VEN,
            region: Region::Americas,
            sub_region: SubRegion::LatinAmericaAndTheCaribbean,
            intermediate_region: IntermediateRegion::SouthAmerica,
            region_code: 19,
            sub_region_code: 419,
            intermediate_region_code: Some(5),
        },
        241 => Definition {
            country_code: 704,
            name: "Viet Nam",
            alpha2: Alpha2::VN,
            alpha3: Alpha3::VNM,
            region: Region::Asia,
            sub_region: SubRegion::SouthEasternAsia,
            intermediate_region: IntermediateRegion::Undefined,
            region_code: 142,
            sub_region_code: 35,
            intermediate_region_code: None,
        },
        242 => Definition {
            country_code: 92,
            name: "Virgin Islands (British)",
            alpha2: Alpha2::VG,
            alpha3: Alpha3::VGB,
            region: Region::Americas,
            sub_region: SubRegion::LatinAmericaAndTheCaribbean,
            intermediate_region: IntermediateRegion::Caribbean,
            region_code: 19,
            sub_region_code: 419,
            intermediate_region_code: Some(29),
        },
        243 => Definition {
            country_code: 850,
            name: "Virgin Islands (U.S.)",
            alpha2: Alpha2::VI,
            alpha3: Alpha3::VIR,
            region: Region::Americas,
            sub_region: SubRegion::LatinAmericaAndTheCaribbean,
            intermediate_region: IntermediateRegion::Caribbean,
            region_code: 19,
            sub_region_code: 419,
            intermediate_region_code: Some(29),
        },
        244 => Definition {
            country_code: 876,
            name: "Wallis and Futuna",
            alpha2: Alpha2::WF,
            alpha3: Alpha3::WLF,
            region: Region::Oceania,
            sub_region: SubRegion::Polynesia,
            intermediate_region: IntermediateRegion::Undefined,
            region_code: 9,
            sub_region_code: 61,
            intermediate_region_code: None,
        },
        245 => Definition {
            country_code: 732,
            name: "Western Sahara",
            alpha2: Alpha2::EH,
            alpha3: Alpha3::ESH,
            region: Region::Africa,
            sub_region: SubRegion::NorthernAfrica,
            intermediate_region: IntermediateRegion::Undefined,
            region_code: 2,
            sub_region_code: 15,
            intermediate_region_code: None,
        },
        246 => Definition {
            country_code: 887,
            name: "Yemen",
            alpha2: Alpha2::YE,
            alpha3: Alpha3::YEM,
            region: Region::Asia,
            sub_region: SubRegion::WesternAsia,
            intermediate_region: IntermediateRegion::Undefined,
            region_code: 142,
            sub_region_code: 145,
            intermediate_region_code: None,
        },
        247 => Definition {
            country_code: 894,
            name: "Zambia",
            alpha2: Alpha2::ZM,
            alpha3: Alpha3::ZMB,
            region: Region::Africa,
            sub_region: SubRegion::SubSaharanAfrica,
            intermediate_region: IntermediateRegion::EasternAfrica,
            region_code: 2,
            sub_region_code: 202,
            intermediate_region_code: Some(14),
        },
        _ => Definition {
            country_code: 716,
            name: "Zimbabwe",
            alpha2: Alpha2::ZW,
            alpha3: Alpha3::ZWE,
            region: Region::Africa,
            sub_region: SubRegion::SubSaharanAfrica,
            intermediate_region: IntermediateRegion::EasternAfrica,
            region_code: 2,
            sub_region_code: 202,
            intermediate_region_code: Some(14),
        },
    }
}

/// The row that holds numeric country code `code`, if any.
pub open spec fn code_index(code: u16) -> Option<usize> {
    match code {
        4 => Some(0),
        248 => Some(1),
        8 => Some(2),
        12 => Some(3),
        16 => Some(4),
        20 => Some(5),
        24 => Some(6),
        660 => Some(7),
        10 => Some(8),
        28 => Some(9),
        32 => Some(10),
        51 => Some(11),
        533 => Some(12),
        36 => Some(13),
        40 => Some(14),
        31 => Some(15),
        44 => Some(16),
        48 => Some(17),
        50 => Some(18),
        52 => Some(19),
        112 => Some(20),
        56 => Some(21),
        84 => Some(22),
        204 => Some(23),
        60 => Some(24),
        64 => Some(25),
        68 => Some(26),
        535 => Some(27),
        70 => Some(28),
        72 => Some(29),
        74 => Some(30),
        76 => Some(31),
        86 => Some(32),
        96 => Some(33),
        100 => Some(34),
        854 => Some(35),
        108 => Some(36),
        132 => Some(37),
        116 => Some(38),
        120 => Some(39),
        124 => Some(40),
        136 => Some(41),
        140 => Some(42),
        148 => Some(43),
        152 => Some(44),
        156 => Some(45),
        162 => Some(46),
        166 => Some(47),
        170 => Some(48),
        174 => Some(49),
        178 => Some(50),
        180 => Some(51),
        184 => Some(52),
        188 => Some(53),
        384 => Some(54),
        191 => Some(55),
        192 => Some(56),
        531 => Some(57),
        196 => Some(58),
        203 => Some(59),
        208 => Some(60),
        262 => Some(61),
        212 => Some(62),
        214 => Some(63),
        218 => Some(64),
        818 => Some(65),
        222 => Some(66),
        226 => Some(67),
        232 => Some(68),
        233 => Some(69),
        748 => Some(70),
        231 => Some(71),
        238 => Some(72),
        234 => Some(73),
        242 => Some(74),
        246 => Some(75),
        250 => Some(76),
        254 => Some(77),
        258 => Some(78),
        260 => Some(79),
        266 => Some(80),
        270 => Some(81),
        268 => Some(82),
        276 => Some(83),
        288 => Some(84),
        292 => Some(85),
        300 => Some(86),
        304 => Some(87),
        308 => Some(88),
        312 => Some(89),
        316 => Some(90),
        320 => Some(91),
        831 => Some(92),
        324 => Some(93),
        624 => Some(94),
        328 => Some(95),
        332 => Some(96),
        334 => Some(97),
        336 => Some(98),
        340 => Some(99),
        344 => Some(100),
        348 => Some(101),
        352 => Some(102),
        356 => Some(103),
        360 => Some(104),
        364 => Some(105),
        368 => Some(106),
        372 => Some(107),
        833 => Some(108),
        376 => Some(109),
        380 => Some(110),
        388 => Some(111),
        392 => Some(112),
        832 => Some(113),
        400 => Some(114),
        398 => Some(115),
        404 => Some(116),
        296 => Some(117),
        408 => Some(118),
        410 => Some(119),
        414 => Some(120),
        417 => Some(121),
        418 => Some(122),
        428 => Some(123),
        422 => Some(124),
        426 => Some(125),
        430 => Some(126),
        434 => Some(127),
        438 => Some(128),
        440 => Some(129),
        442 => Some(130),
        446 => Some(131),
        450 => Some(132),
        454 => Some(133),
        458 => Some(134),
        462 => Some(135),
        466 => Some(136),
        470 => Some(137),
        584 => Some(138),
        474 => Some(139),
        478 => Some(140),
        480 => Some(141),
        175 => Some(142),
        484 => Some(143),
        583 => Some(144),
        498 => Some(145),
        492 => Some(146),
        496 => Some(147),
        499 => Some(148),
        500 => Some(149),
        504 => Some(150),
        508 => Some(151),
        104 => Some(152),
        516 => Some(153),
        520 => Some(154),
        524 => Some(155),
        528 => Some(156),
        540 => Some(157),
        554 => Some(158),
        558 => Some(159),
        562 => Some(160),
        566 => Some(161),
        570 => Some(162),
        574 => Some(163),
        807 => Some(164),
        580 => Some(165),
        578 => Some(166),
        512 => Some(167),
        586 => Some(168),
        585 => Some(169),
        275 => Some(170),
        591 => Some(171),
        598 => Some(172),
        600 => Some(173),
        604 => Some(174),
        608 => Some(175),
        612 => Some(176),
        616 => Some(177),
        620 => Some(178),
        630 => Some(179),
        634 => Some(180),
        638 => Some(181),
        642 => Some(182),
        643 => Some(183),
        646 => Some(184),
        652 => Some(185),
        654 => Some(186),
        659 => Some(187),
        662 => Some(188),
        663 => Some(189),
        666 => Some(190),
        670 => Some(191),
        882 => Some(192),
        674 => Some(193),
        678 => Some(194),
        682 => Some(195),
        686 => Some(196),
        688 => Some(197),
        690 => Some(198),
        694 => Some(199),
        702 => Some(200),
        534 => Some(201),
        703 => Some(202),
        705 => Some(203),
        90 => Some(204),
        706 => Some(205),
        710 => Some(206),
        239 => Some(207),
        728 => Some(208),
        724 => Some(209),
        144 => Some(210),
        729 => Some(211),
        740 => Some(212),
        744 => Some(213),
        752 => Some(214),
        756 => Some(215),
        760 => Some(216),
        158 => Some(217),
        762 => Some(218),
        834 => Some(219),
        764 => Some(220),
        626 => Some(221),
        768 => Some(222),
        772 => Some(223),
        776 => Some(224),
        780 => Some(225),
        788 => Some(226),
        792 => Some(227),
        795 => Some(228),
        796 => Some(229),
        798 => Some(230),
        800 => Some(231),
        804 => Some(232),
        784 => Some(233),
        826 => Some(234),
        840 => Some(235),
        581 => Some(236),
        858 => Some(237),
        860 => Some(238),
        548 => Some(239),
        862 => Some(240),
        704 => Some(241),
        92 => Some(242),
        850 => Some(243),
        876 => Some(244),
        732 => Some(245),
        887 => Some(246),
        894 => Some(247),
        716 => Some(248),
        _ => None,
    }
}

/// The registry: finds the row of a numeric country code.
pub fn index_of_code(code: u16) -> (r: Option<usize>)
    ensures
        match r {
            Some(i) => code_index(code) == Some(i),
            None => code_index(code) is None,
        },
{
    match code {
        4 => Some(0),
        248 => Some(1),
        8 => Some(2),
        12 => Some(3),
        16 => Some(4),
        20 => Some(5),
        24 => Some(6),
        660 => Some(7),
        10 => Some(8),
        28 => Some(9),
        32 => Some(10),
        51 => Some(11),
        533 => Some(12),
        36 => Some(13),
        40 => Some(14),
        31 => Some(15),
        44 => Some(16),
        48 => Some(17),
        50 => Some(18),
        52 => Some(19),
        112 => Some(20),
        56 => Some(21),
        84 => Some(22),
        204 => Some(23),
        60 => Some(24),
        64 => Some(25),
        68 => Some(26),
        535 => Some(27),
        70 => Some(28),
        72 => Some(29),
        74 => Some(30),
        76 => Some(31),
        86 => Some(32),
        96 => Some(33),
        100 => Some(34),
        854 => Some(35),
        108 => Some(36),
        132 => Some(37),
        116 => Some(38),
        120 => Some(39),
        124 => Some(40),
        136 => Some(41),
        140 => Some(42),
        148 => Some(43),
        152 => Some(44),
        156 => Some(45),
        162 => Some(46),
        166 => Some(47),
        170 => Some(48),
        174 => Some(49),
        178 => Some(50),
        180 => Some(51),
        184 => Some(52),
        188 => Some(53),
        384 => Some(54),
        191 => Some(55),
        192 => Some(56),
        531 => Some(57),
        196 => Some(58),
        203 => Some(59),
        208 => Some(60),
        262 => Some(61),
        212 => Some(62),
        214 => Some(63),
        218 => Some(64),
        818 => Some(65),
        222 => Some(66),
        226 => Some(67),
        232 => Some(68),
        233 => Some(69),
        748 => Some(70),
        231 => Some(71),
        238 => Some(72),
        234 => Some(73),
        242 => Some(74),
        246 => Some(75),
        250 => Some(76),
        254 => Some(77),
        258 => Some(78),
        260 => Some(79),
        266 => Some(80),
        270 => Some(81),
        268 => Some(82),
        276 => Some(83),
        288 => Some(84),
        292 => Some(85),
        300 => Some(86),
        304 => Some(87),
        308 => Some(88),
        312 => Some(89),
        316 => Some(90),
        320 => Some(91),
        831 => Some(92),
        324 => Some(93),
        624 => Some(94),
        328 => Some(95),
        332 => Some(96),
        334 => Some(97),
        336 => Some(98),
        340 => Some(99),
        344 => Some(100),
        348 => Some(101),
        352 => Some(102),
        356 => Some(103),
        360 => Some(104),
        364 => Some(105),
        368 => Some(106),
        372 => Some(107),
        833 => Some(108),
        376 => Some(109),
        380 => Some(110),
        388 => Some(111),
        392 => Some(112),
        832 => Some(113),
        400 => Some(114),
        398 => Some(115),
        404 => Some(116),
        296 => Some(117),
        408 => Some(118),
        410 => Some(119),
        414 => Some(120),
        417 => Some(121),
        418 => Some(122),
        428 => Some(123),
        422 => Some(124),
        426 => Some(125),
        430 => Some(126),
        434 => Some(127),
        438 => Some(128),
        440 => Some(129),
        442 => Some(130),
        446 => Some(131),
        450 => Some(132),
        454 => Some(133),
        458 => Some(134),
        462 => Some(135),
        466 => Some(136),
        470 => Some(137),
        584 => Some(138),
        474 => Some(139),
        478 => Some(140),
        480 => Some(141),
        175 => Some(142),
        484 => Some(143),
        583 => Some(144),
        498 => Some(145),
        492 => Some(146),
        496 => Some(147),
        499 => Some(148),
        500 => Some(149),
        504 => Some(150),
        508 => Some(151),
        104 => Some(152),
        516 => Some(153),
        520 => Some(154),
        524 => Some(155),
        528 => Some(156),
        540 => Some(157),
        554 => Some(158),
        558 => Some(159),
        562 => Some(160),
        566 => Some(161),
        570 => Some(162),
        574 => Some(163),
        807 => Some(164),
        580 => Some(165),
        578 => Some(166),
        512 => Some(167),
        586 => Some(168),
        585 => Some(169),
        275 => Some(170),
        591 => Some(171),
        598 => Some(172),
        600 => Some(173),
        604 => Some(174),
        608 => Some(175),
        612 => Some(176),
        616 => Some(177),
        620 => Some(178),
        630 => Some(179),
        634 => Some(180),
        638 => Some(181),
        642 => Some(182),
        643 => Some(183),
        646 => Some(184),
        652 => Some(185),
        654 => Some(186),
        659 => Some(187),
        662 => Some(188),
        663 => Some(189),
        666 => Some(190),
        670 => Some(191),
        882 => Some(192),
        674 => Some(193),
        678 => Some(194),
        682 => Some(195),
        686 => Some(196),
        688 => Some(197),
        690 => Some(198),
        694 => Some(199),
        702 => Some(200),
        534 => Some(201),
        703 => Some(202),
        705 => Some(203),
        90 => Some(204),
        706 => Some(205),
        710 => Some(206),
        239 => Some(207),
        728 => Some(208),
        724 => Some(209),
        144 => Some(210),
        729 => Some(211),
        740 => Some(212),
        744 => Some(213),
        752 => Some(214),
        756 => Some(215),
        760 => Some(216),
        158 => Some(217),
        762 => Some(218),
        834 => Some(219),
        764 => Some(220),
        626 => Some(221),
        768 => Some(222),
        772 => Some(223),
        776 => Some(224),
        780 => Some(225),
        788 => Some(226),
        792 => Some(227),
        795 => Some(228),
        796 => Some(229),
        798 => Some(230),
        800 => Some(231),
        804 => Some(232),
        784 => Some(233),
        826 => Some(234),
        840 => Some(235),
        581 => Some(236),
        858 => Some(237),
        860 => Some(238),
        548 => Some(239),
        862 => Some(240),
        704 => Some(241),
        92 => Some(242),
        850 => Some(243),
        876 => Some(244),
        732 => Some(245),
        887 => Some(246),
        894 => Some(247),
        716 => Some(248),
        _ => None,
    }
}

/// Every two-letter code has a row, that row carries it, and the row's
/// three-letter code leads to the same row.
#[verifier::rlimit(100)]
pub proof fn lemma_entry_of_alpha2(a: Alpha2)
    ensures
        a.index() < COUNT,
        entry(a.index()).alpha2 == a,
        entry(a.index()).alpha3.index() == a.index(),
{
    match a {
        Alpha2::AF => {},
        Alpha2::AX => {},
        Alpha2::AL => {},
        Alpha2::DZ => {},
        Alpha2::AS => {},
        Alpha2::AD => {},
        Alpha2::AO => {},
        Alpha2::AI => {},
        Alpha2::AQ => {},
        Alpha2::AG => {},
        Alpha2::AR => {},
        Alpha2::AM => {},
        Alpha2::AW => {},
        Alpha2::AU => {},
        Alpha2::AT => {},
        Alpha2::AZ => {},
        Alpha2::BS => {},
        Alpha2::BH => {},
        Alpha2::BD => {},
        Alpha2::BB => {},
        Alpha2::BY => {},
        Alpha2::BE => {},
        Alpha2::BZ => {},
        Alpha2::BJ => {},
        Alpha2::BM => {},
        Alpha2::BT => {},
        Alpha2::BO => {},
        Alpha2::BQ => {},
        Alpha2::BA => {},
        Alpha2::BW => {},
        Alpha2::BV => {},
        Alpha2::BR => {},
        Alpha2::IO => {},
        Alpha2::BN => {},
        Alpha2::BG => {},
        Alpha2::BF => {},
        Alpha2::BI => {},
        Alpha2::CV => {},
        Alpha2::KH => {},
        Alpha2::CM => {},
        Alpha2::CA => {},
        Alpha2::KY => {},
        Alpha2::CF => {},
        Alpha2::TD => {},
        Alpha2::CL => {},
        Alpha2::CN => {},
        Alpha2::CX => {},
        Alpha2::CC => {},
        Alpha2::CO => {},
        Alpha2::KM => {},
        Alpha2::CG => {},
        Alpha2::CD => {},
        Alpha2::CK => {},
        Alpha2::CR => {},
        Alpha2::CI => {},
        Alpha2::HR => {},
        Alpha2::CU => {},
        Alpha2::CW => {},
        Alpha2::CY => {},
        Alpha2::CZ => {},
        Alpha2::DK => {},
        Alpha2::DJ => {},
        Alpha2::DM => {},
        Alpha2::DO => {},
        Alpha2::EC => {},
        Alpha2::EG => {},
        Alpha2::SV => {},
        Alpha2::GQ => {},
        Alpha2::ER => {},
        Alpha2::EE => {},
        Alpha2::SZ => {},
        Alpha2::ET => {},
        Alpha2::FK => {},
        Alpha2::FO => {},
        Alpha2::FJ => {},
        Alpha2::FI => {},
        Alpha2::FR => {},
        Alpha2::GF => {},
        Alpha2::PF => {},
        Alpha2::TF => {},
        Alpha2::GA => {},
        Alpha2::GM => {},
        Alpha2::GE => {},
        Alpha2::DE => {},
        Alpha2::GH => {},
        Alpha2::GI => {},
        Alpha2::GR => {},
        Alpha2::GL => {},
        Alpha2::GD => {},
        Alpha2::GP => {},
        Alpha2::GU => {},
        Alpha2::GT => {},
        Alpha2::GG => {},
        Alpha2::GN => {},
        Alpha2::GW => {},
        Alpha2::GY => {},
        Alpha2::HT => {},
        Alpha2::HM => {},
        Alpha2::VA => {},
        Alpha2::HN => {},
        Alpha2::HK => {},
        Alpha2::HU => {},
        Alpha2::IS => {},
        Alpha2::IN => {},
        Alpha2::ID => {},
        Alpha2::IR => {},
        Alpha2::IQ => {},
        Alpha2::IE => {},
        Alpha2::IM => {},
        Alpha2::IL => {},
        Alpha2::IT => {},
        Alpha2::JM => {},
        Alpha2::JP => {},
        Alpha2::JE => {},
        Alpha2::JO => {},
        Alpha2::KZ => {},
        Alpha2::KE => {},
        Alpha2::KI => {},
        Alpha2::KP => {},
        Alpha2::KR => {},
        Alpha2::KW => {},
        Alpha2::KG => {},
        Alpha2::LA => {},
        Alpha2::LV => {},
        Alpha2::LB => {},
        Alpha2::LS => {},
        Alpha2::LR => {},
        Alpha2::LY => {},
        Alpha2::LI => {},
        Alpha2::LT => {},
        Alpha2::LU => {},
        Alpha2::MO => {},
        Alpha2::MG => {},
        Alpha2::MW => {},
        Alpha2::MY => {},
        Alpha2::MV => {},
        Alpha2::ML => {},
        Alpha2::MT => {},
        Alpha2::MH => {},
        Alpha2::MQ => {},
        Alpha2::MR => {},
        Alpha2::MU => {},
        Alpha2::YT => {},
        Alpha2::MX => {},
        Alpha2::FM => {},
        Alpha2::MD => {},
        Alpha2::MC => {},
        Alpha2::MN => {},
        Alpha2::ME => {},
        Alpha2::MS => {},
        Alpha2::MA => {},
        Alpha2::MZ => {},
        Alpha2::MM => {},
        Alpha2::NA => {},
        Alpha2::NR => {},
        Alpha2::NP => {},
        Alpha2::NL => {},
        Alpha2::NC => {},
        Alpha2::NZ => {},
        Alpha2::NI => {},
        Alpha2::NE => {},
        Alpha2::NG => {},
        Alpha2::NU => {},
        Alpha2::NF => {},
        Alpha2::MK => {},
        Alpha2::MP => {},
        Alpha2::NO => {},
        Alpha2::OM => {},
        Alpha2::PK => {},
        Alpha2::PW => {},
        Alpha2::PS => {},
        Alpha2::PA => {},
        Alpha2::PG => {},
        Alpha2::PY => {},
        Alpha2::PE => {},
        Alpha2::PH => {},
        Alpha2::PN => {},
        Alpha2::PL => {},
        Alpha2::PT => {},
        Alpha2::PR => {},
        Alpha2::QA => {},
        Alpha2::RE => {},
        Alpha2::RO => {},
        Alpha2::RU => {},
        Alpha2::RW => {},
        Alpha2::BL => {},
        Alpha2::SH => {},
        Alpha2::KN => {},
        Alpha2::LC => {},
        Alpha2::MF => {},
        Alpha2::PM => {},
        Alpha2::VC => {},
        Alpha2::WS => {},
        Alpha2::SM => {},
        Alpha2::ST => {},
        Alpha2::SA => {},
        Alpha2::SN => {},
        Alpha2::RS => {},
        Alpha2::SC => {},
        Alpha2::SL => {},
        Alpha2::SG => {},
        Alpha2::SX => {},
        Alpha2::SK => {},
        Alpha2::SI => {},
        Alpha2::SB => {},
        Alpha2::SO => {},
        Alpha2::ZA => {},
        Alpha2::GS => {},
        Alpha2::SS => {},
        Alpha2::ES => {},
        Alpha2::LK => {},
        Alpha2::SD => {},
        Alpha2::SR => {},
        Alpha2::SJ => {},
        Alpha2::SE => {},
        Alpha2::CH => {},
        Alpha2::SY => {},
        Alpha2::TW => {},
        Alpha2::TJ => {},
        Alpha2::TZ => {},
        Alpha2::TH => {},
        Alpha2::TL => {},
        Alpha2::TG => {},
        Alpha2::TK => {},
        Alpha2::TO => {},
        Alpha2::TT => {},
        Alpha2::TN => {},
        Alpha2::TR => {},
        Alpha2::TM => {},
        Alpha2::TC => {},
        Alpha2::TV => {},
        Alpha2::UG => {},
        Alpha2::UA => {},
        Alpha2::AE => {},
        Alpha2::GB => {},
        Alpha2::US => {},
        Alpha2::UM => {},
        Alpha2::UY => {},
        Alpha2::UZ => {},
        Alpha2::VU => {},
        Alpha2::VE => {},
        Alpha2::VN => {},
        Alpha2::VG => {},
        Alpha2::VI => {},
        Alpha2::WF => {},
        Alpha2::EH => {},
        Alpha2::YE => {},
        Alpha2::ZM => {},
        Alpha2::ZW => {},
    }
}

/// Every three-letter code has a row, that row carries it, and the row's
/// two-letter code leads to the same row.
#[verifier::rlimit(100)]
pub proof fn lemma_entry_of_alpha3(a: Alpha3)
    ensures
        a.index() < COUNT,
        entry(a.index()).alpha3 == a,
        entry(a.index()).alpha2.index() == a.index(),
{
    match a {
        Alpha3::AFG => {},
        Alpha3::ALA => {},
        Alpha3::ALB => {},
        Alpha3::DZA => {},
        Alpha3::ASM => {},
        Alpha3::AND => {},
        Alpha3::AGO => {},
        Alpha3::AIA => {},
        Alpha3::ATA => {},
        Alpha3::ATG => {},
        Alpha3::ARG => {},
        Alpha3::ARM => {},
        Alpha3::ABW => {},
        Alpha3::AUS => {},
        Alpha3::AUT => {},
        Alpha3::AZE => {},
        Alpha3::BHS => {},
        Alpha3::BHR => {},
        Alpha3::BGD => {},
        Alpha3::BRB => {},
        Alpha3::BLR => {},
        Alpha3::BEL => {},
        Alpha3::BLZ => {},
        Alpha3::BEN => {},
        Alpha3::BMU => {},
        Alpha3::BTN => {},
        Alpha3::BOL => {},
        Alpha3::BES => {},
        Alpha3::BIH => {},
        Alpha3::BWA => {},
        Alpha3::BVT => {},
        Alpha3::BRA => {},
        Alpha3::IOT => {},
        Alpha3::BRN => {},
        Alpha3::BGR => {},
        Alpha3::BFA => {},
        Alpha3::BDI => {},
        Alpha3::CPV => {},
        Alpha3::KHM => {},
        Alpha3::CMR => {},
        Alpha3::CAN => {},
        Alpha3::CYM => {},
        Alpha3::CAF => {},
        Alpha3::TCD => {},
        Alpha3::CHL => {},
        Alpha3::CHN => {},
        Alpha3::CXR => {},
        Alpha3::CCK => {},
        Alpha3::COL => {},
        Alpha3::COM => {},
        Alpha3::COG => {},
        Alpha3::COD => {},
        Alpha3::COK => {},
        Alpha3::CRI => {},
        Alpha3::CIV => {},
        Alpha3::HRV => {},
        Alpha3::CUB => {},
        Alpha3::CUW => {},
        Alpha3::CYP => {},
        Alpha3::CZE => {},
        Alpha3::DNK => {},
        Alpha3::DJI => {},
        Alpha3::DMA => {},
        Alpha3::DOM => {},
        Alpha3::ECU => {},
        Alpha3::EGY => {},
        Alpha3::SLV => {},
        Alpha3::GNQ => {},
        Alpha3::ERI => {},
        Alpha3::EST => {},
        Alpha3::SWZ => {},
        Alpha3::ETH => {},
        Alpha3::FLK => {},
        Alpha3::FRO => {},
        Alpha3::FJI => {},
        Alpha3::FIN => {},
        Alpha3::FRA => {},
        Alpha3::GUF => {},
        Alpha3::PYF => {},
        Alpha3::ATF => {},
        Alpha3::GAB => {},
        Alpha3::GMB => {},
        Alpha3::GEO => {},
        Alpha3::DEU => {},
        Alpha3::GHA => {},
        Alpha3::GIB => {},
        Alpha3::GRC => {},
        Alpha3::GRL => {},
        Alpha3::GRD => {},
        Alpha3::GLP => {},
        Alpha3::GUM => {},
        Alpha3::GTM => {},
        Alpha3::GGY => {},
        Alpha3::GIN => {},
        Alpha3::GNB => {},
        Alpha3::GUY => {},
        Alpha3::HTI => {},
        Alpha3::HMD => {},
        Alpha3::VAT => {},
        Alpha3::HND => {},
        Alpha3::HKG => {},
        Alpha3::HUN => {},
        Alpha3::ISL => {},
        Alpha3::IND => {},
        Alpha3::IDN => {},
        Alpha3::IRN => {},
        Alpha3::IRQ => {},
        Alpha3::IRL => {},
        Alpha3::IMN => {},
        Alpha3::ISR => {},
        Alpha3::ITA => {},
        Alpha3::JAM => {},
        Alpha3::JPN => {},
        Alpha3::JEY => {},
        Alpha3::JOR => {},
        Alpha3::KAZ => {},
        Alpha3::KEN => {},
        Alpha3::KIR => {},
        Alpha3::PRK => {},
        Alpha3::KOR => {},
        Alpha3::KWT => {},
        Alpha3::KGZ => {},
        Alpha3::LAO => {},
        Alpha3::LVA => {},
        Alpha3::LBN => {},
        Alpha3::LSO => {},
        Alpha3::LBR => {},
        Alpha3::LBY => {},
        Alpha3::LIE => {},
        Alpha3::LTU => {},
        Alpha3::LUX => {},
        Alpha3::MAC => {},
        Alpha3::MDG => {},
        Alpha3::MWI => {},
        Alpha3::MYS => {},
        Alpha3::MDV => {},
        Alpha3::MLI => {},
        Alpha3::MLT => {},
        Alpha3::MHL => {},
        Alpha3::MTQ => {},
        Alpha3::MRT => {},
        Alpha3::MUS => {},
        Alpha3::MYT => {},
        Alpha3::MEX => {},
        Alpha3::FSM => {},
        Alpha3::MDA => {},
        Alpha3::MCO => {},
        Alpha3::MNG => {},
        Alpha3::MNE => {},
        Alpha3::MSR => {},
        Alpha3::MAR => {},
        Alpha3::MOZ => {},
        Alpha3::MMR => {},
        Alpha3::NAM => {},
        Alpha3::NRU => {},
        Alpha3::NPL => {},
        Alpha3::NLD => {},
        Alpha3::NCL => {},
        Alpha3::NZL => {},
        Alpha3::NIC => {},
        Alpha3::NER => {},
        Alpha3::NGA => {},
        Alpha3::NIU => {},
        Alpha3::NFK => {},
        Alpha3::MKD => {},
        Alpha3::MNP => {},
        Alpha3::NOR => {},
        Alpha3::OMN => {},
        Alpha3::PAK => {},
        Alpha3::PLW => {},
        Alpha3::PSE => {},
        Alpha3::PAN => {},
        Alpha3::PNG => {},
        Alpha3::PRY => {},
        Alpha3::PER => {},
        Alpha3::PHL => {},
        Alpha3::PCN => {},
        Alpha3::POL => {},
        Alpha3::PRT => {},
        Alpha3::PRI => {},
        Alpha3::QAT => {},
        Alpha3::REU => {},
        Alpha3::ROU => {},
        Alpha3::RUS => {},
        Alpha3::RWA => {},
        Alpha3::BLM => {},
        Alpha3::SHN => {},
        Alpha3::KNA => {},
        Alpha3::LCA => {},
        Alpha3::MAF => {},
        Alpha3::SPM => {},
        Alpha3::VCT => {},
        Alpha3::WSM => {},
        Alpha3::SMR => {},
        Alpha3::STP => {},
        Alpha3::SAU => {},
        Alpha3::SEN => {},
        Alpha3::SRB => {},
        Alpha3::SYC => {},
        Alpha3::SLE => {},
        Alpha3::SGP => {},
        Alpha3::SXM => {},
        Alpha3::SVK => {},
        Alpha3::SVN => {},
        Alpha3::SLB => {},
        Alpha3::SOM => {},
        Alpha3::ZAF => {},
        Alpha3::SGS => {},
        Alpha3::SSD => {},
        Alpha3::ESP => {},
        Alpha3::LKA => {},
        Alpha3::SDN => {},
        Alpha3::SUR => {},
        Alpha3::SJM => {},
        Alpha3::SWE => {},
        Alpha3::CHE => {},
        Alpha3::SYR => {},
        Alpha3::TWN => {},
        Alpha3::TJK => {},
        Alpha3::TZA => {},
        Alpha3::THA => {},
        Alpha3::TLS => {},
        Alpha3::TGO => {},
        Alpha3::TKL => {},
        Alpha3::TON => {},
        Alpha3::TTO => {},
        Alpha3::TUN => {},
        Alpha3::TUR => {},
        Alpha3::TKM => {},
        Alpha3::TCA => {},
        Alpha3::TUV => {},
        Alpha3::UGA => {},
        Alpha3::UKR => {},
        Alpha3::ARE => {},
        Alpha3::GBR => {},
        Alpha3::USA => {},
        Alpha3::UMI => {},
        Alpha3::URY => {},
        Alpha3::UZB => {},
        Alpha3::VUT => {},
        Alpha3::VEN => {},
        Alpha3::VNM => {},
        Alpha3::VGB => {},
        Alpha3::VIR => {},
        Alpha3::WLF => {},
        Alpha3::ESH => {},
        Alpha3::YEM => {},
        Alpha3::ZMB => {},
        Alpha3::ZWE => {},
    }
}

} // verus!
