use jurisdiction::region::{IntermediateRegion, Region, SubRegion};
use jurisdiction::{Alpha2, Alpha3, Jurisdiction};
use std::str::FromStr;

#[test]
fn test_from_trait_alpha2() {
    let no = Jurisdiction::from(Alpha2::NO);
    assert_eq!(no.name(), "Norway");
}

#[test]
fn test_from_trait_alpha3() {
    let no = Jurisdiction::from(Alpha3::NOR);
    assert_eq!(no.name(), "Norway");
}

#[test]
fn test_compare_jurisdiction_with_alpha2() {
    let no = Jurisdiction::from(Alpha2::NO);

    assert_eq!(no, Alpha2::NO);
}

#[test]
fn test_compare_jurisdiction_with_alpha3() {
    let no = Jurisdiction::from(Alpha3::NOR);

    assert_eq!(no, Alpha3::NOR);
}

#[test]
fn test_in_region() {
    let europe = Jurisdiction::in_region(Region::Europe);
    assert!(europe.contains(&Jurisdiction::from(Alpha2::NO)));

    let undefined = Jurisdiction::in_region(Region::Undefined);
    assert_eq!(undefined.len(), 1);
    assert!(undefined.contains(&Jurisdiction::from(Alpha3::ATA)));
}

#[test]
fn test_in_sub_region() {
    let africa = Jurisdiction::in_region(Region::Africa);
    assert!(africa.contains(&Jurisdiction::from(Alpha2::AO)));
}

#[test]
fn test_jurisdiction_getters() {
    let norway = Jurisdiction::from(Alpha2::NO);

    assert_eq!(norway.name(), "Norway");
    assert_eq!(norway.alpha2(), Alpha2::NO);
    assert_eq!(norway.alpha3(), Alpha3::NOR);
    assert_eq!(norway.country_code(), 578);
    assert_eq!(norway.region(), Region::Europe);
    assert_eq!(norway.sub_region(), SubRegion::NorthernEurope);
    assert_eq!(norway.intermediate_region(), IntermediateRegion::Undefined);
    assert_eq!(norway.region_code(), 150);
    assert_eq!(norway.sub_region_code(), 154);
    assert_eq!(norway.intermediate_region_code(), None);
}

#[test]
fn test_jurisdiction_from_str_unknown() {
    let jur = Jurisdiction::from_str("rofl");
    assert!(jur.is_err());
}

#[test]
fn test_jurisdiction_from_str_alpha2() {
    let jur = Jurisdiction::from_str("NO");
    assert!(jur.is_ok());
    let no = jur.unwrap();
    assert_eq!(no, Alpha2::NO);
}

#[test]
fn test_jurisdiction_from_str_alpha3() {
    let jur = Jurisdiction::from_str("NOR");
    assert!(jur.is_ok());
    let no = jur.unwrap();
    assert_eq!(no, Alpha3::NOR);
}

#[test]
fn test_alpha2_display() {
    assert_eq!(Alpha2::NO.to_string(), "NO");
}

#[test]
fn test_alpha3_display() {
    assert_eq!(Alpha3::NOR.to_string(), "NOR");
}
