use jurisdiction::compile::group;
use jurisdiction::region::{Classification, IntermediateRegion, Region, SubRegion};
use jurisdiction::table::{definition, COUNT};
use jurisdiction::{compile, Alpha2, Alpha3, CompileError, Fault, Record};

fn record(name: &str, alpha2: &str, alpha3: &str, code: &str) -> Record {
    Record {
        name: name.to_string(),
        alpha2: alpha2.to_string(),
        alpha3: alpha3.to_string(),
        country_code: code.to_string(),
        iso_3166_2: format!("ISO 3166-2:{}", alpha2),
        region: "Europe".to_string(),
        sub_region: "Northern Europe".to_string(),
        intermediate_region: String::new(),
        region_code: "150".to_string(),
        sub_region_code: "154".to_string(),
        intermediate_region_code: String::new(),
    }
}

fn norway() -> Record {
    record("Norway", "NO", "NOR", "578")
}

#[test]
fn compiles_norway() {
    let entries = compile(&vec![norway()]).unwrap();
    assert_eq!(entries.len(), 1);
    let e = &entries[0];
    assert_eq!(e.name, "Norway");
    assert_eq!(e.alpha2, Alpha2::NO);
    assert_eq!(e.alpha3, Alpha3::NOR);
    assert_eq!(e.country_code, 578);
    assert_eq!(e.region, Region::Europe);
    assert_eq!(e.sub_region, SubRegion::NorthernEurope);
    assert_eq!(e.intermediate_region, IntermediateRegion::Undefined);
    assert_eq!(e.region_code, 150);
    assert_eq!(e.sub_region_code, 154);
    assert_eq!(e.intermediate_region_code, None);
}

#[test]
fn intermediate_code_sentinel_is_absent() {
    let mut zero = record("Angola", "AO", "AGO", "024");
    zero.intermediate_region_code = "0".to_string();
    let mut empty = record("Norway", "NO", "NOR", "578");
    empty.intermediate_region_code = String::new();
    let mut given = record("Narnia", "SE", "SWE", "752");
    given.intermediate_region = "Channel Islands".to_string();
    given.intermediate_region_code = "911".to_string();
    let entries = compile(&vec![zero, empty, given]).unwrap();
    assert_eq!(entries[0].country_code, 24);
    assert_eq!(entries[0].intermediate_region_code, None);
    assert_eq!(entries[1].intermediate_region_code, None);
    assert_eq!(entries[2].intermediate_region_code, Some(911));
    assert_eq!(entries[2].intermediate_region, IntermediateRegion::ChannelIslands);
}

#[test]
fn missing_region_compiles_to_undefined_and_is_grouped() {
    let mut aq = record("Antarctica", "AQ", "ATA", "010");
    aq.region = String::new();
    aq.sub_region = String::new();
    aq.region_code = String::new();
    aq.sub_region_code = String::new();
    let mut odd = record("Somewhere", "SE", "SWE", "752");
    odd.region = "Atlantis".to_string();
    let entries = compile(&vec![norway(), aq, odd]).unwrap();
    assert_eq!(entries[1].region, Region::Undefined);
    assert_eq!(entries[1].sub_region, SubRegion::Undefined);
    assert_eq!(entries[1].region_code, 0);
    assert_eq!(entries[2].region, Region::Undefined);
    let undefined = group(&entries, Classification::Region(Region::Undefined));
    assert_eq!(undefined, vec![10, 752]);
    let europe = group(&entries, Classification::Region(Region::Europe));
    assert_eq!(europe, vec![578]);
    let northern = group(&entries, Classification::SubRegion(SubRegion::NorthernEurope));
    assert_eq!(northern, vec![578, 752]);
    let none = group(
        &entries,
        Classification::IntermediateRegion(IntermediateRegion::Undefined),
    );
    assert_eq!(none, vec![578, 10, 752]);
}

#[test]
fn empty_dataset_compiles_to_nothing() {
    assert!(compile(&vec![]).unwrap().is_empty());
}

fn fault_of(records: Vec<Record>) -> CompileError {
    compile(&records).unwrap_err()
}

#[test]
fn unknown_codes_are_faults() {
    let e = fault_of(vec![norway(), record("X", "XX", "SWE", "752")]);
    assert_eq!(e, CompileError { record: 1, fault: Fault::UnknownAlpha2 });
    let e = fault_of(vec![record("X", "SE", "swe", "752")]);
    assert_eq!(e, CompileError { record: 0, fault: Fault::UnknownAlpha3 });
}

#[test]
fn invalid_numbers_are_faults() {
    let e = fault_of(vec![record("X", "SE", "SWE", "")]);
    assert_eq!(e.fault, Fault::InvalidCountryCode);
    let e = fault_of(vec![record("X", "SE", "SWE", "70000")]);
    assert_eq!(e.fault, Fault::InvalidCountryCode);
    let e = fault_of(vec![record("X", "SE", "SWE", "7a")]);
    assert_eq!(e.fault, Fault::InvalidCountryCode);
    let mut r = norway();
    r.region_code = "x".to_string();
    assert_eq!(fault_of(vec![r]).fault, Fault::InvalidRegionCode);
    let mut r = norway();
    r.sub_region_code = "-1".to_string();
    assert_eq!(fault_of(vec![r]).fault, Fault::InvalidSubRegionCode);
    let mut r = norway();
    r.intermediate_region_code = "65536".to_string();
    assert_eq!(fault_of(vec![r]).fault, Fault::InvalidIntermediateRegionCode);
    let mut r = norway();
    r.intermediate_region_code = "65535".to_string();
    assert_eq!(compile(&vec![r]).unwrap()[0].intermediate_region_code, Some(65535));
}

#[test]
fn duplicates_are_faults() {
    let e = fault_of(vec![norway(), record("X", "SE", "SWE", "578")]);
    assert_eq!(e, CompileError { record: 1, fault: Fault::DuplicateCountryCode });
    let e = fault_of(vec![norway(), record("X", "NO", "SWE", "752")]);
    assert_eq!(e, CompileError { record: 1, fault: Fault::DuplicateAlpha2 });
    let e = fault_of(vec![norway(), record("X", "SE", "NOR", "752")]);
    assert_eq!(e, CompileError { record: 1, fault: Fault::DuplicateAlpha3 });
    let e = fault_of(vec![
        norway(),
        record("X", "SE", "SWE", "752"),
        record("Y", "SE", "SWE", "752"),
        record("Z", "QQ", "SWE", "752"),
    ]);
    assert_eq!(e, CompileError { record: 2, fault: Fault::DuplicateCountryCode });
}

#[test]
fn hierarchy_names_fall_back_to_undefined() {
    assert_eq!(Region::parse_name("Americas"), Region::Americas);
    assert_eq!(Region::parse_name("americas"), Region::Undefined);
    assert_eq!(
        SubRegion::parse_name("Latin America and the Caribbean"),
        SubRegion::LatinAmericaAndTheCaribbean
    );
    assert_eq!(SubRegion::parse_name("South-eastern Asia"), SubRegion::SouthEasternAsia);
    assert_eq!(SubRegion::parse_name(""), SubRegion::Undefined);
    assert_eq!(
        IntermediateRegion::parse_name("Middle Africa"),
        IntermediateRegion::MiddleAfrica
    );
    assert_eq!(IntermediateRegion::parse_name("Middle"), IntermediateRegion::Undefined);
}

fn region_name(r: Region) -> &'static str {
    match r {
        Region::Africa => "Africa",
        Region::Asia => "Asia",
        Region::Europe => "Europe",
        Region::Oceania => "Oceania",
        Region::Americas => "Americas",
        Region::Undefined => "",
    }
}

fn sub_region_name(s: SubRegion) -> &'static str {
    match s {
        SubRegion::NorthernAfrica => "Northern Africa",
        SubRegion::SubSaharanAfrica => "Sub-Saharan Africa",
        SubRegion::EasternAsia => "Eastern Asia",
        SubRegion::SouthernAsia => "Southern Asia",
        SubRegion::SouthEasternAsia => "South-eastern Asia",
        SubRegion::WesternAsia => "Western Asia",
        SubRegion::CentralAsia => "Central Asia",
        SubRegion::NorthernAmerica => "Northern America",
        SubRegion::LatinAmericaAndTheCaribbean => "Latin America and the Caribbean",
        SubRegion::NorthernEurope => "Northern Europe",
        SubRegion::EasternEurope => "Eastern Europe",
        SubRegion::SouthernEurope => "Southern Europe",
        SubRegion::WesternEurope => "Western Europe",
        SubRegion::Polynesia => "Polynesia",
        SubRegion::Melanesia => "Melanesia",
        SubRegion::Micronesia => "Micronesia",
        SubRegion::AustraliaAndNewZealand => "Australia and New Zealand",
        SubRegion::Undefined => "",
    }
}

fn intermediate_region_name(i: IntermediateRegion) -> &'static str {
    match i {
        IntermediateRegion::EasternAfrica => "Eastern Africa",
        IntermediateRegion::MiddleAfrica => "Middle Africa",
        IntermediateRegion::SouthernAfrica => "Southern Africa",
        IntermediateRegion::WesternAfrica => "Western Africa",
        IntermediateRegion::Caribbean => "Caribbean",
        IntermediateRegion::CentralAmerica => "Central America",
        IntermediateRegion::SouthAmerica => "South America",
        IntermediateRegion::ChannelIslands => "Channel Islands",
        IntermediateRegion::Undefined => "",
    }
}

fn code_text(c: u16) -> String {
    if c == 0 {
        String::new()
    } else {
        format!("{:03}", c)
    }
}

#[test]
fn table_recompiles_to_itself() {
    let mut records = Vec::new();
    for i in 0..COUNT {
        let d = definition(i);
        records.push(Record {
            name: d.name.to_string(),
            alpha2: d.alpha2.to_string(),
            alpha3: d.alpha3.to_string(),
            country_code: format!("{:03}", d.country_code),
            iso_3166_2: format!("ISO 3166-2:{}", d.alpha2.as_str()),
            region: region_name(d.region).to_string(),
            sub_region: sub_region_name(d.sub_region).to_string(),
            intermediate_region: intermediate_region_name(d.intermediate_region).to_string(),
            region_code: code_text(d.region_code),
            sub_region_code: code_text(d.sub_region_code),
            intermediate_region_code: code_text(d.intermediate_region_code.unwrap_or(0)),
        });
    }
    let entries = compile(&records).unwrap();
    assert_eq!(entries.len(), COUNT);
    for i in 0..COUNT {
        let d = definition(i);
        let e = &entries[i];
        assert_eq!(e.country_code, d.country_code);
        assert_eq!(e.name, d.name);
        assert_eq!(e.alpha2, d.alpha2);
        assert_eq!(e.alpha3, d.alpha3);
        assert_eq!(e.region, d.region);
        assert_eq!(e.sub_region, d.sub_region);
        assert_eq!(e.intermediate_region, d.intermediate_region);
        assert_eq!(e.region_code, d.region_code);
        assert_eq!(e.sub_region_code, d.sub_region_code);
        assert_eq!(e.intermediate_region_code, d.intermediate_region_code);
    }
    let undefined = group(&entries, Classification::Region(Region::Undefined));
    assert_eq!(undefined, vec![10]);
    let mut duplicated = records.clone();
    duplicated.push(records[0].clone());
    assert_eq!(
        compile(&duplicated).unwrap_err(),
        CompileError { record: COUNT, fault: Fault::DuplicateCountryCode }
    );
}
