use jurisdiction::region::{Classification, IntermediateRegion, Region, SubRegion};
use jurisdiction::table::{definition, COUNT};
use jurisdiction::{Alpha2, Alpha3, Jurisdiction};

#[test]
fn lookup_of_every_definition_reads_it_back() {
    for i in 0..COUNT {
        let d = definition(i);
        let j = Jurisdiction::lookup(d.country_code).expect("every code is registered");
        assert_eq!(j.country_code(), d.country_code);
        assert_eq!(j.name(), d.name);
        assert_eq!(j.alpha2(), d.alpha2);
        assert_eq!(j.alpha3(), d.alpha3);
        assert_eq!(j.region(), d.region);
        assert_eq!(j.sub_region(), d.sub_region);
        assert_eq!(j.intermediate_region(), d.intermediate_region);
        assert_eq!(j.region_code(), d.region_code);
        assert_eq!(j.sub_region_code(), d.sub_region_code);
        assert_eq!(j.intermediate_region_code(), d.intermediate_region_code);
        assert_eq!(Jurisdiction::new(d.country_code), j);
    }
}

#[test]
fn table_has_every_jurisdiction_once() {
    assert_eq!(COUNT, 249);
    for i in 0..COUNT {
        for k in (i + 1)..COUNT {
            assert_ne!(definition(i).country_code, definition(k).country_code);
            assert_ne!(definition(i).alpha2, definition(k).alpha2);
            assert_ne!(definition(i).alpha3, definition(k).alpha3);
        }
    }
}

#[test]
fn lookup_of_unknown_code_is_none() {
    assert!(Jurisdiction::lookup(0).is_none());
    assert!(Jurisdiction::lookup(999).is_none());
    assert_eq!(Jurisdiction::lookup(578).unwrap(), Alpha2::NO);
}

#[test]
fn alpha2_text_round_trips() {
    for i in 0..COUNT {
        let d = definition(i);
        let text = d.alpha2.to_string();
        assert_eq!(text.len(), 2);
        let j = Jurisdiction::from_str(&text).expect("a two-letter code reads back");
        assert_eq!(j.alpha2(), d.alpha2);
        assert_eq!(j.alpha2().as_str(), text);
    }
}

#[test]
fn alpha3_text_round_trips() {
    for i in 0..COUNT {
        let d = definition(i);
        let text = d.alpha3.to_string();
        assert_eq!(text.len(), 3);
        let j = Jurisdiction::from_str(&text).expect("a three-letter code reads back");
        assert_eq!(j.alpha3(), d.alpha3);
        assert_eq!(j.alpha3().to_string(), text);
    }
}

#[test]
fn unknown_text_is_rejected_with_its_text() {
    let err = Jurisdiction::from_str("ZZZ_not_a_code").unwrap_err();
    assert_eq!(err.text(), "ZZZ_not_a_code");
    assert_eq!(
        err.message(),
        "unrecognized ISO 3166 alpha country code: ZZZ_not_a_code"
    );
    assert!(Jurisdiction::from_str("").is_err());
    assert!(Jurisdiction::from_str("no").is_err());
    assert!(Jurisdiction::from_str(" NO").is_err());
    assert!(Jurisdiction::from_str("NOR ").is_err());
}

#[test]
fn alpha_codes_parse_case_sensitively() {
    assert_eq!(Alpha2::from_text("SE"), Some(Alpha2::SE));
    assert_eq!(Alpha2::from_text("se"), None);
    assert_eq!(Alpha2::from_text("SWE"), None);
    assert_eq!(Alpha3::from_text("SWE"), Some(Alpha3::SWE));
    assert_eq!(Alpha3::from_text("Swe"), None);
    assert_eq!(Alpha3::from_text("SE"), None);
}

#[test]
fn handles_from_both_codes_are_equal() {
    for i in 0..COUNT {
        let d = definition(i);
        assert_eq!(Jurisdiction::from(d.alpha2), Jurisdiction::from(d.alpha3));
    }
    assert_eq!(Jurisdiction::from(Alpha2::DK), Jurisdiction::from(Alpha3::DNK));
    assert_ne!(Jurisdiction::from(Alpha2::DK), Jurisdiction::from(Alpha3::SWE));
}

fn count_in_table(c: Classification) -> usize {
    let mut n = 0;
    for i in 0..COUNT {
        let d = definition(i);
        if c.holds_for(d.region, d.sub_region, d.intermediate_region) {
            n += 1;
        }
    }
    n
}

#[test]
fn region_members_carry_the_region() {
    let regions = [
        Region::Africa,
        Region::Asia,
        Region::Europe,
        Region::Oceania,
        Region::Americas,
        Region::Undefined,
    ];
    let mut total = 0;
    for r in regions {
        let members = Jurisdiction::in_region(r);
        assert!(members.iter().all(|j| j.region() == r));
        assert_eq!(members.len(), count_in_table(Classification::Region(r)));
        total += members.len();
    }
    assert_eq!(total, COUNT);
}

#[test]
fn sub_region_members_carry_the_sub_region() {
    let members = Jurisdiction::in_sub_region(SubRegion::NorthernEurope);
    assert!(members.iter().all(|j| j.sub_region() == SubRegion::NorthernEurope));
    assert!(members.contains(&Jurisdiction::from(Alpha2::NO)));
    assert_eq!(
        members.len(),
        count_in_table(Classification::SubRegion(SubRegion::NorthernEurope))
    );
    assert!(Jurisdiction::in_sub_region(SubRegion::Undefined)
        .contains(&Jurisdiction::from(Alpha2::AQ)));
}

#[test]
fn intermediate_region_members_carry_it() {
    let islands = Jurisdiction::in_intermediate_region(IntermediateRegion::ChannelIslands);
    assert_eq!(islands.len(), 2);
    assert!(islands.contains(&Jurisdiction::from(Alpha2::GG)));
    assert!(islands.contains(&Jurisdiction::from(Alpha2::JE)));
    assert_eq!(islands[0].intermediate_region_code(), Some(830));
    let none = Jurisdiction::in_intermediate_region(IntermediateRegion::Undefined);
    assert!(none.iter().all(|j| j.intermediate_region_code().is_none()));
    assert_eq!(
        none.len(),
        count_in_table(Classification::IntermediateRegion(IntermediateRegion::Undefined))
    );
}

#[test]
fn norway_from_either_text() {
    for text in ["NO", "NOR"] {
        let j = Jurisdiction::from_str(text).unwrap();
        assert_eq!(j.name(), "Norway");
        assert_eq!(j.country_code(), 578);
        assert_eq!(j.region(), Region::Europe);
        assert_eq!(j.sub_region(), SubRegion::NorthernEurope);
        assert_eq!(j.intermediate_region(), IntermediateRegion::Undefined);
        assert_eq!(j.intermediate_region_code(), None);
    }
}

#[test]
fn antarctica_has_no_region() {
    let aq = Jurisdiction::from(Alpha3::ATA);
    assert_eq!(aq.region(), Region::Undefined);
    assert_eq!(aq.region_code(), 0);
    assert_eq!(aq.sub_region_code(), 0);
    assert_eq!(aq.intermediate_region_code(), None);
}
