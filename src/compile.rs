//! The classification compiler: turns the raw records of the dataset into
//! definitions and into the groups of each hierarchy value, and rejects a
//! malformed or inconsistent dataset.
//!
//! Numeric codes are strict: the country code must be a decimal number that
//! fits in 16 bits. For the three hierarchy codes the empty text means "not
//! assigned" (0 for region and sub-region, absent for the intermediate region,
//! where 0 means absent as well); any other text must be such a number.

use vstd::prelude::*;
use crate::alpha::{Alpha2, Alpha3};
use crate::region::{Classification, IntermediateRegion, Region, SubRegion};
use crate::text::{parse_u16, u16_text};

verus! {

/// One raw record of the dataset, every field as text.
#[derive(Debug, Clone)]
pub struct Record {
    pub name: String,
    pub alpha2: String,
    pub alpha3: String,
    pub country_code: String,
    pub iso_3166_2: String,
    pub region: String,
    pub sub_region: String,
    pub intermediate_region: String,
    pub region_code: String,
    pub sub_region_code: String,
    pub intermediate_region_code: String,
}

/// The definition that one record compiles to.
#[derive(Debug, Clone)]
pub struct Entry {
    pub country_code: u16,
    pub name: String,
    pub alpha2: Alpha2,
    pub alpha3: Alpha3,
    pub region: Region,
    pub sub_region: SubRegion,
    pub intermediate_region: IntermediateRegion,
    pub region_code: u16,
    pub sub_region_code: u16,
    pub intermediate_region_code: Option<u16>,
}

/// What is wrong with a record.
#[derive(Clone, Copy, Debug, PartialEq, Eq, Structural)]
pub enum Fault {
    UnknownAlpha2,
    UnknownAlpha3,
    InvalidCountryCode,
    InvalidRegionCode,
    InvalidSubRegionCode,
    InvalidIntermediateRegionCode,
    DuplicateCountryCode,
    DuplicateAlpha2,
    DuplicateAlpha3,
}

/// The first fault of a dataset: the position of the record, and what is
/// wrong with it.
#[derive(Clone, Copy, Debug, PartialEq, Eq, Structural)]
pub struct CompileError {
    pub record: usize,
    pub fault: Fault,
}

/// A hierarchy code: `Some(0)` for the empty text, the number for a valid
/// one, `None` for malformed text.
pub open spec fn hierarchy_code(s: Seq<char>) -> Option<u16> {
    if s.len() == 0 {
        Some(0u16)
    } else {
        u16_text(s)
    }
}

/// The intermediate-region code that a valid hierarchy code stands for: 0
/// means that there is none.
pub open spec fn present_code(c: u16) -> Option<u16> {
    if c == 0 {
        None
    } else {
        Some(c)
    }
}

/// What is wrong with a record on its own, checked field by field.
pub open spec fn record_fault(r: Record) -> Option<Fault> {
    if Alpha2::parse_spec(r.alpha2@) is None {
        Some(Fault::UnknownAlpha2)
    } else if Alpha3::parse_spec(r.alpha3@) is None {
        Some(Fault::UnknownAlpha3)
    } else if u16_text(r.country_code@) is None {
        Some(Fault::InvalidCountryCode)
    } else if hierarchy_code(r.region_code@) is None {
        Some(Fault::InvalidRegionCode)
    } else if hierarchy_code(r.sub_region_code@) is None {
        Some(Fault::InvalidSubRegionCode)
    } else if hierarchy_code(r.intermediate_region_code@) is None {
        Some(Fault::InvalidIntermediateRegionCode)
    } else {
        None
    }
}

/// `e` is the definition that the sound record `r` compiles to.
pub open spec fn compiled_from(e: Entry, r: Record) -> bool {
    &&& u16_text(r.country_code@) == Some(e.country_code)
    &&& e.name@ == r.name@
    &&& Alpha2::parse_spec(r.alpha2@) == Some(e.alpha2)
    &&& Alpha3::parse_spec(r.alpha3@) == Some(e.alpha3)
    &&& e.region == Region::from_name(r.region@)
    &&& e.sub_region == SubRegion::from_name(r.sub_region@)
    &&& e.intermediate_region == IntermediateRegion::from_name(r.intermediate_region@)
    &&& hierarchy_code(r.region_code@) == Some(e.region_code)
    &&& hierarchy_code(r.sub_region_code@) == Some(e.sub_region_code)
    &&& match hierarchy_code(r.intermediate_region_code@) {
        Some(c) => e.intermediate_region_code == present_code(c),
        None => false,
    }
}

/// What is wrong with the last record of `rs` given the ones before it: a
/// fault of its own, or a code that an earlier record holds already.
pub open spec fn last_fault(rs: Seq<Record>) -> Option<Fault> {
    let n = rs.len() - 1;
    let r = rs[n];
    if record_fault(r) is Some {
        record_fault(r)
    } else if exists|j: int|
        0 <= j < n && u16_text(#[trigger] rs[j].country_code@) == u16_text(r.country_code@) {
        Some(Fault::DuplicateCountryCode)
    } else if exists|j: int|
        0 <= j < n && Alpha2::parse_spec(#[trigger] rs[j].alpha2@) == Alpha2::parse_spec(
            r.alpha2@,
        ) {
        Some(Fault::DuplicateAlpha2)
    } else if exists|j: int|
        0 <= j < n && Alpha3::parse_spec(#[trigger] rs[j].alpha3@) == Alpha3::parse_spec(
            r.alpha3@,
        ) {
        Some(Fault::DuplicateAlpha3)
    } else {
        None
    }
}

/// The first fault of the dataset `rs`, in record order, if it has one.
pub open spec fn first_fault(rs: Seq<Record>) -> Option<CompileError>
    decreases rs.len(),
{
    if rs.len() == 0 {
        None
    } else {
        match first_fault(rs.drop_last()) {
            Some(e) => Some(e),
            None => match last_fault(rs) {
                Some(f) => Some(CompileError { record: (rs.len() - 1) as usize, fault: f }),
                None => None,
            },
        }
    }
}

/// A fault found in a prefix of a dataset is the fault of the whole dataset.
proof fn lemma_first_fault_extends(rs: Seq<Record>, n: int)
    requires
        0 <= n <= rs.len(),
        first_fault(rs.subrange(0, n)) is Some,
    ensures
        first_fault(rs) == first_fault(rs.subrange(0, n)),
    decreases rs.len() - n,
{
    if n < rs.len() {
        assert(rs.subrange(0, n + 1).drop_last() =~= rs.subrange(0, n));
        lemma_first_fault_extends(rs, n + 1);
    } else {
        assert(rs.subrange(0, n) =~= rs);
    }
}

fn hierarchy_code_of(s: &str) -> (r: Option<u16>)
    ensures
        r == hierarchy_code(s@),
{
    if s.unicode_len() == 0 {
        Some(0)
    } else {
        parse_u16(s)
    }
}

/// Compiles one record on its own.
pub fn compile_record(r: &Record) -> (res: Result<Entry, Fault>)
    ensures
        match res {
            Ok(e) => record_fault(*r) is None && compiled_from(e, *r),
            Err(f) => record_fault(*r) == Some(f),
        },
{
    let alpha2 = match Alpha2::from_text(r.alpha2.as_str()) {
        Some(a) => a,
        None => return Err(Fault::UnknownAlpha2),
    };
    let alpha3 = match Alpha3::from_text(r.alpha3.as_str()) {
        Some(a) => a,
        None => return Err(Fault::UnknownAlpha3),
    };
    let country_code = match parse_u16(r.country_code.as_str()) {
        Some(c) => c,
        None => return Err(Fault::InvalidCountryCode),
    };
    let region_code = match hierarchy_code_of(r.region_code.as_str()) {
        Some(c) => c,
        None => return Err(Fault::InvalidRegionCode),
    };
    let sub_region_code = match hierarchy_code_of(r.sub_region_code.as_str()) {
        Some(c) => c,
        None => return Err(Fault::InvalidSubRegionCode),
    };
    let intermediate_region_code = match hierarchy_code_of(r.intermediate_region_code.as_str()) {
        Some(c) => if c == 0 {
            None
        } else {
            Some(c)
        },
        None => return Err(Fault::InvalidIntermediateRegionCode),
    };
    Ok(
        Entry {
            country_code,
            name: r.name.clone(),
            alpha2,
            alpha3,
            region: Region::parse_name(r.region.as_str()),
            sub_region: SubRegion::parse_name(r.sub_region.as_str()),
            intermediate_region: IntermediateRegion::parse_name(r.intermediate_region.as_str()),
            region_code,
            sub_region_code,
            intermediate_region_code,
        },
    )
}

/// Compiles a whole dataset: one definition per record, in record order, or
/// the first fault of the dataset.
pub fn compile(records: &Vec<Record>) -> (res: Result<Vec<Entry>, CompileError>)
    ensures
        match res {
            Ok(es) => first_fault(records@) is None && es@.len() == records@.len() && forall|
                i: int,
            |
                0 <= i < records@.len() ==> compiled_from(#[trigger] es@[i], records@[i]),
            Err(e) => first_fault(records@) == Some(e),
        },
{
    let mut out: Vec<Entry> = Vec::new();
    let mut i: usize = 0;
    while i < records.len()
        invariant
            i <= records@.len(),
            first_fault(records@.subrange(0, i as int)) is None,
            out@.len() == i,
            forall|k: int| 0 <= k < i ==> compiled_from(#[trigger] out@[k], records@[k]),
            forall|k: int| 0 <= k < i ==> record_fault(#[trigger] records@[k]) is None,
        decreases records@.len() - i,
    {
        let ghost rs = records@.subrange(0, i + 1);
        proof {
            assert(rs.drop_last() =~= records@.subrange(0, i as int));
            assert(rs[i as int] == records@[i as int]);
        }
        let e = match compile_record(&records[i]) {
            Ok(e) => e,
            Err(f) => {
                proof {
                    lemma_first_fault_extends(records@, i + 1);
                }
                return Err(CompileError { record: i, fault: f });
            },
        };
        let mut dup_code = false;
        let mut dup_alpha2 = false;
        let mut dup_alpha3 = false;
        let mut j: usize = 0;
        while j < i
            invariant
                j <= i,
                i < records@.len(),
                out@.len() == i,
                rs == records@.subrange(0, i + 1),
                compiled_from(e, records@[i as int]),
                forall|k: int| 0 <= k < i ==> compiled_from(#[trigger] out@[k], records@[k]),
                dup_code == exists|k: int|
                    0 <= k < j && u16_text(#[trigger] rs[k].country_code@) == Some(
                        e.country_code,
                    ),
                dup_alpha2 == exists|k: int|
                    0 <= k < j && Alpha2::parse_spec(#[trigger] rs[k].alpha2@) == Some(e.alpha2),
                dup_alpha3 == exists|k: int|
                    0 <= k < j && Alpha3::parse_spec(#[trigger] rs[k].alpha3@) == Some(e.alpha3),
            decreases i - j,
        {
            let prior = &out[j];
            assert(compiled_from(out@[j as int], records@[j as int]));
            assert(rs[j as int] == records@[j as int]);
            if prior.country_code == e.country_code {
                dup_code = true;
            }
            if prior.alpha2 == e.alpha2 {
                dup_alpha2 = true;
            }
            if prior.alpha3 == e.alpha3 {
                dup_alpha3 = true;
            }
            j = j + 1;
        }
        let fault = if dup_code {
            Some(Fault::DuplicateCountryCode)
        } else if dup_alpha2 {
            Some(Fault::DuplicateAlpha2)
        } else if dup_alpha3 {
            Some(Fault::DuplicateAlpha3)
        } else {
            None
        };
        match fault {
            Some(f) => {
                proof {
                    assert(last_fault(rs) == Some(f));
                    lemma_first_fault_extends(records@, i + 1);
                }
                return Err(CompileError { record: i, fault: f });
            },
            None => {},
        }
        out.push(e);
        i = i + 1;
    }
    proof {
        assert(records@.subrange(0, records@.len() as int) =~= records@);
    }
    Ok(out)
}

/// The country codes of the entries of `es` that carry `c`, in entry order.
pub open spec fn codes_with(es: Seq<Entry>, c: Classification) -> Seq<u16>
    decreases es.len(),
{
    if es.len() == 0 {
        Seq::empty()
    } else {
        let prev = codes_with(es.drop_last(), c);
        let e = es.last();
        if c.covers(e.region, e.sub_region, e.intermediate_region) {
            prev.push(e.country_code)
        } else {
            prev
        }
    }
}

/// The group of one hierarchy value: the country codes of the compiled
/// definitions that carry it, in definition order.
pub fn group(entries: &Vec<Entry>, c: Classification) -> (r: Vec<u16>)
    ensures
        r@ == codes_with(entries@, c),
{
    let mut out: Vec<u16> = Vec::new();
    let mut i: usize = 0;
    while i < entries.len()
        invariant
            i <= entries@.len(),
            out@ == codes_with(entries@.subrange(0, i as int), c),
        decreases entries@.len() - i,
    {
        proof {
            assert(entries@.subrange(0, i + 1).drop_last() =~= entries@.subrange(0, i as int));
        }
        let e = &entries[i];
        if c.holds_for(e.region, e.sub_region, e.intermediate_region) {
            out.push(e.country_code);
        }
        i = i + 1;
    }
    proof {
        assert(entries@.subrange(0, entries@.len() as int) =~= entries@);
    }
    out
}

} // verus!
