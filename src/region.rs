//! The UN M49 region hierarchy: region, sub-region and intermediate region.

use vstd::prelude::*;
use crate::text::str_eq;

verus! {

/// The high level region a jurisdiction belongs to.
#[derive(Clone, Copy, Debug, PartialEq, Eq, Hash, Structural)]
pub enum Region {
    Africa,
    Asia,
    Europe,
    Oceania,
    Americas,
    Undefined,
}

/// A subdivision within a [`Region`].
#[derive(Clone, Copy, Debug, PartialEq, Eq, Hash, Structural)]
pub enum SubRegion {
    NorthernAfrica,
    SubSaharanAfrica,
    EasternAsia,
    SouthernAsia,
    SouthEasternAsia,
    WesternAsia,
    CentralAsia,
    NorthernAmerica,
    LatinAmericaAndTheCaribbean,
    NorthernEurope,
    EasternEurope,
    SouthernEurope,
    WesternEurope,
    Polynesia,
    Melanesia,
    Micronesia,
    AustraliaAndNewZealand,
    Undefined,
}

/// A subdivision within a [`SubRegion`]; most jurisdictions have none.
#[derive(Clone, Copy, Debug, PartialEq, Eq, Hash, Structural)]
pub enum IntermediateRegion {
    EasternAfrica,
    MiddleAfrica,
    SouthernAfrica,
    WesternAfrica,
    Caribbean,
    CentralAmerica,
    SouthAmerica,
    ChannelIslands,
    Undefined,
}

/// One value at one level of the hierarchy.
#[derive(Clone, Copy, Debug, PartialEq, Eq, Hash, Structural)]
pub enum Classification {
    Region(Region),
    SubRegion(SubRegion),
    IntermediateRegion(IntermediateRegion),
}

impl Classification {
    /// Whether a jurisdiction placed at `region`, `sub_region` and
    /// `intermediate_region` carries this value at this value's level.
    pub open spec fn covers(
        self,
        region: Region,
        sub_region: SubRegion,
        intermediate_region: IntermediateRegion,
    ) -> bool {
        match self {
            Classification::Region(r) => r == region,
            Classification::SubRegion(s) => s == sub_region,
            Classification::IntermediateRegion(i) => i == intermediate_region,
        }
    }

    /// Executable form of [`Classification::covers`].
    pub fn holds_for(
        self,
        region: Region,
        sub_region: SubRegion,
        intermediate_region: IntermediateRegion,
    ) -> (r: bool)
        ensures
            r == self.covers(region, sub_region, intermediate_region),
    {
        match self {
            Classification::Region(r) => r == region,
            Classification::SubRegion(s) => s == sub_region,
            Classification::IntermediateRegion(i) => i == intermediate_region,
        }
    }
}

impl Region {
    /// The region that a dataset name denotes; any other name, the empty one
    /// included, denotes `Undefined`.
    pub open spec fn from_name(s: Seq<char>) -> Region {
        if s == "Africa"@ {
            Region::Africa
        } else if s == "Asia"@ {
            Region::Asia
        } else if s == "Europe"@ {
            Region::Europe
        } else if s == "Oceania"@ {
            Region::Oceania
        } else if s == "Americas"@ {
            Region::Americas
        } else {
            Region::Undefined
        }
    }

    /// Reads a region from its dataset name, falling back to `Undefined`.
    pub fn parse_name(s: &str) -> (r: Region)
        ensures
            r == Region::from_name(s@),
    {
        if str_eq(s, "Africa") {
            Region::Africa
        } else if str_eq(s, "Asia") {
            Region::Asia
        } else if str_eq(s, "Europe") {
            Region::Europe
        } else if str_eq(s, "Oceania") {
            Region::Oceania
        } else if str_eq(s, "Americas") {
            Region::Americas
        } else {
            Region::Undefined
        }
    }
}

impl SubRegion {
    /// The sub-region that a dataset name denotes; any other name, the empty
    /// one included, denotes `Undefined`.
    pub open spec fn from_name(s: Seq<char>) -> SubRegion {
        if s == "Northern Africa"@ {
            SubRegion::NorthernAfrica
        } else if s == "Sub-Saharan Africa"@ {
            SubRegion::SubSaharanAfrica
        } else if s == "Eastern Asia"@ {
            SubRegion::EasternAsia
        } else if s == "Southern Asia"@ {
            SubRegion::SouthernAsia
        } else if s == "South-eastern Asia"@ {
            SubRegion::SouthEasternAsia
        } else if s == "Western Asia"@ {
            SubRegion::WesternAsia
        } else if s == "Central Asia"@ {
            SubRegion::CentralAsia
        } else if s == "Northern America"@ {
            SubRegion::NorthernAmerica
        } else if s == "Latin America and the Caribbean"@ {
            SubRegion::LatinAmericaAndTheCaribbean
        } else if s == "Northern Europe"@ {
            SubRegion::NorthernEurope
        } else if s == "Eastern Europe"@ {
            SubRegion::EasternEurope
        } else if s == "Southern Europe"@ {
            SubRegion::SouthernEurope
        } else if s == "Western Europe"@ {
            SubRegion::WesternEurope
        } else if s == "Polynesia"@ {
            SubRegion::Polynesia
        } else if s == "Melanesia"@ {
            SubRegion::Melanesia
        } else if s == "Micronesia"@ {
            SubRegion::Micronesia
        } else if s == "Australia and New Zealand"@ {
            SubRegion::AustraliaAndNewZealand
        } else {
            SubRegion::Undefined
        }
    }

    /// Reads a sub-region from its dataset name, falling back to `Undefined`.
    pub fn parse_name(s: &str) -> (r: SubRegion)
        ensures
            r == SubRegion::from_name(s@),
    {
        if str_eq(s, "Northern Africa") {
            SubRegion::NorthernAfrica
        } else if str_eq(s, "Sub-Saharan Africa") {
            SubRegion::SubSaharanAfrica
        } else if str_eq(s, "Eastern Asia") {
            SubRegion::EasternAsia
        } else if str_eq(s, "Southern Asia") {
            SubRegion::SouthernAsia
        } else if str_eq(s, "South-eastern Asia") {
            SubRegion::SouthEasternAsia
        } else if str_eq(s, "Western Asia") {
            SubRegion::WesternAsia
        } else if str_eq(s, "Central Asia") {
            SubRegion::CentralAsia
        } else if str_eq(s, "Northern America") {
            SubRegion::NorthernAmerica
        } else if str_eq(s, "Latin America and the Caribbean") {
            SubRegion::LatinAmericaAndTheCaribbean
        } else if str_eq(s, "Northern Europe") {
            SubRegion::NorthernEurope
        } else if str_eq(s, "Eastern Europe") {
            SubRegion::EasternEurope
        } else if str_eq(s, "Southern Europe") {
            SubRegion::SouthernEurope
        } else if str_eq(s, "Western Europe") {
            SubRegion::WesternEurope
        } else if str_eq(s, "Polynesia") {
            SubRegion::Polynesia
        } else if str_eq(s, "Melanesia") {
            SubRegion::Melanesia
        } else if str_eq(s, "Micronesia") {
            SubRegion::Micronesia
        } else if str_eq(s, "Australia and New Zealand") {
            SubRegion::AustraliaAndNewZealand
        } else {
            SubRegion::Undefined
        }
    }
}

impl IntermediateRegion {
    /// The intermediate region that a dataset name denotes; any other name,
    /// the empty one included, denotes `Undefined`.
    pub open spec fn from_name(s: Seq<char>) -> IntermediateRegion {
        if s == "Eastern Africa"@ {
            IntermediateRegion::EasternAfrica
        } else if s == "Middle Africa"@ {
            IntermediateRegion::MiddleAfrica
        } else if s == "Southern Africa"@ {
            IntermediateRegion::SouthernAfrica
        } else if s == "Western Africa"@ {
            IntermediateRegion::WesternAfrica
        } else if s == "Caribbean"@ {
            IntermediateRegion::Caribbean
        } else if s == "Central America"@ {
            IntermediateRegion::CentralAmerica
        } else if s == "South America"@ {
            IntermediateRegion::SouthAmerica
        } else if s == "Channel Islands"@ {
            IntermediateRegion::ChannelIslands
        } else {
            IntermediateRegion::Undefined
        }
    }

    /// Reads an intermediate region from its dataset name, falling back to
    /// `Undefined`.
    pub fn parse_name(s: &str) -> (r: IntermediateRegion)
        ensures
            r == IntermediateRegion::from_name(s@),
    {
        if str_eq(s, "Eastern Africa") {
            IntermediateRegion::EasternAfrica
        } else if str_eq(s, "Middle Africa") {
            IntermediateRegion::MiddleAfrica
        } else if str_eq(s, "Southern Africa") {
            IntermediateRegion::SouthernAfrica
        } else if str_eq(s, "Western Africa") {
            IntermediateRegion::WesternAfrica
        } else if str_eq(s, "Caribbean") {
            IntermediateRegion::Caribbean
        } else if str_eq(s, "Central America") {
            IntermediateRegion::CentralAmerica
        } else if str_eq(s, "South America") {
            IntermediateRegion::SouthAmerica
        } else if str_eq(s, "Channel Islands") {
            IntermediateRegion::ChannelIslands
        } else {
            IntermediateRegion::Undefined
        }
    }
}

} // verus!
