//! The jurisdiction handle: a one-byte position in the definition table,
//! with field reads, construction from codes and text, and queries over the
//! region hierarchy.

use vstd::prelude::*;
use vstd::std_specs::cmp::PartialEqSpec;
use vstd::string::*;
use crate::alpha::{Alpha2, Alpha3};
use crate::region::{Classification, IntermediateRegion, Region, SubRegion};
use crate::registry::lemma_entry_of_code_index;
use crate::table::{
    code_index, definition, entry, index_of_code, lemma_entry_of_alpha2, lemma_entry_of_alpha3,
    Definition, COUNT,
};

verus! {

/// Whether row `i` of the definition table carries the classification `c`.
#[verifier::opaque]
pub open spec fn row_carries(i: usize, c: Classification) -> bool {
    c.covers(entry(i).region, entry(i).sub_region, entry(i).intermediate_region)
}

/// The rows among the first `n` that carry `c`, in table order.
pub open spec fn rows_with(c: Classification, n: nat) -> Seq<usize>
    decreases n,
{
    if n == 0 {
        Seq::empty()
    } else {
        let prev = rows_with(c, (n - 1) as nat);
        if row_carries((n - 1) as usize, c) {
            prev.push((n - 1) as usize)
        } else {
            prev
        }
    }
}

/// How many of the first `n` rows carry `c`.
pub open spec fn count_with(c: Classification, n: nat) -> nat
    decreases n,
{
    if n == 0 {
        0
    } else {
        count_with(c, (n - 1) as nat) + if row_carries((n - 1) as usize, c) {
            1nat
        } else {
            0nat
        }
    }
}

/// The row that a text names: read as a two-letter code first, then as a
/// three-letter code.
pub open spec fn row_of_text(s: Seq<char>) -> Option<usize> {
    match Alpha2::parse_spec(s) {
        Some(a) => Some(a.index()),
        None => match Alpha3::parse_spec(s) {
            Some(b) => Some(b.index()),
            None => None,
        },
    }
}

/// The text given to [`Jurisdiction::from_str`] is no known two- or
/// three-letter code.
#[derive(Debug, Clone)]
pub struct UnrecognizedCode {
    /// The text as it was given.
    pub text: String,
}

impl UnrecognizedCode {
    /// The text as it was given.
    pub fn text(&self) -> (r: &str)
        ensures
            r@ == self.text@,
    {
        self.text.as_str()
    }

    /// A message for people, naming the text.
    pub fn message(&self) -> (r: String)
        ensures
            r@ == "unrecognized ISO 3166 alpha country code: "@ + self.text@,
    {
        let head = String::from_str("unrecognized ISO 3166 alpha country code: ");
        head.concat(self.text.as_str())
    }
}

/// A handle on one jurisdiction of the world.
///
/// It is the size of a byte: every field read goes to the definition table.
/// Two handles are equal when their numeric country codes are.
#[derive(Clone, Copy, Debug)]
pub struct Jurisdiction {
    index: u8,
}

impl Jurisdiction {
    #[verifier::type_invariant]
    spec fn in_table(self) -> bool {
        (self.index as usize) < COUNT
    }

    /// The row of the definition table that this handle refers to.
    pub closed spec fn row(self) -> usize {
        self.index as usize
    }

    /// The definition this handle refers to.
    pub open spec fn def(self) -> Definition {
        entry(self.row())
    }

    fn at(i: usize) -> (r: Jurisdiction)
        requires
            i < COUNT,
        ensures
            r.row() == i,
    {
        Jurisdiction { index: i as u8 }
    }

    fn definition(&self) -> (r: Definition)
        ensures
            r == self.def(),
    {
        proof {
            use_type_invariant(self);
        }
        definition(self.index as usize)
    }

    /// The handle on the jurisdiction with numeric country code
    /// `country_code`, which must be a code that the table holds.
    pub fn new(country_code: u16) -> (r: Jurisdiction)
        requires
            code_index(country_code) is Some,
        ensures
            code_index(country_code) == Some(r.row()),
            r.def().country_code == country_code,
    {
        proof {
            lemma_entry_of_code_index(country_code);
        }
        let i = index_of_code(country_code).unwrap();
        Jurisdiction::at(i)
    }

    /// The handle on the jurisdiction with numeric country code
    /// `country_code`, or `None` when no jurisdiction has that code.
    pub fn lookup(country_code: u16) -> (r: Option<Jurisdiction>)
        ensures
            match r {
                Some(j) => code_index(country_code) == Some(j.row()) && j.def().country_code
                    == country_code,
                None => code_index(country_code) is None && forall|i: usize|
                    i < COUNT ==> #[trigger] entry(i).country_code != country_code,
            },
    {
        proof {
            lemma_entry_of_code_index(country_code);
        }
        match index_of_code(country_code) {
            Some(i) => Some(Jurisdiction::at(i)),
            None => None,
        }
    }

    /// The handle on the jurisdiction with two-letter code `code`.
    pub fn from_alpha2(code: Alpha2) -> (r: Jurisdiction)
        ensures
            r.row() == code.index(),
            r.def().alpha2 == code,
    {
        proof {
            lemma_entry_of_alpha2(code);
        }
        Jurisdiction::at(code.position())
    }

    /// The handle on the jurisdiction with three-letter code `code`.
    pub fn from_alpha3(code: Alpha3) -> (r: Jurisdiction)
        ensures
            r.row() == code.index(),
            r.def().alpha3 == code,
    {
        proof {
            lemma_entry_of_alpha3(code);
        }
        Jurisdiction::at(code.position())
    }

    /// Reads a jurisdiction from the canonical text of its two-letter code
    /// or, failing that, of its three-letter code. The text must match
    /// exactly: no change of case, no space around it.
    pub fn from_str(s: &str) -> (r: Result<Jurisdiction, UnrecognizedCode>)
        ensures
            match r {
                Ok(j) => row_of_text(s@) == Some(j.row()),
                Err(e) => row_of_text(s@) is None && e.text@ == s@,
            },
    {
        match Alpha2::from_text(s) {
            Some(a) => Ok(Jurisdiction::from_alpha2(a)),
            None => match Alpha3::from_text(s) {
                Some(b) => Ok(Jurisdiction::from_alpha3(b)),
                None => Err(UnrecognizedCode { text: String::from_str(s) }),
            },
        }
    }

    /// The English name of the jurisdiction.
    pub fn name(&self) -> (r: &'static str)
        ensures
            r == self.def().name,
    {
        self.definition().name
    }

    /// The ISO 3166 numeric country code.
    pub fn country_code(&self) -> (r: u16)
        ensures
            r == self.def().country_code,
    {
        self.definition().country_code
    }

    /// The two-letter ISO 3166 code.
    pub fn alpha2(&self) -> (r: Alpha2)
        ensures
            r == self.def().alpha2,
    {
        self.definition().alpha2
    }

    /// The three-letter ISO 3166 code.
    pub fn alpha3(&self) -> (r: Alpha3)
        ensures
            r == self.def().alpha3,
    {
        self.definition().alpha3
    }

    /// The M49 region the jurisdiction lies in.
    pub fn region(&self) -> (r: Region)
        ensures
            r == self.def().region,
    {
        self.definition().region
    }

    /// The M49 sub-region the jurisdiction lies in.
    pub fn sub_region(&self) -> (r: SubRegion)
        ensures
            r == self.def().sub_region,
    {
        self.definition().sub_region
    }

    /// The M49 intermediate region the jurisdiction lies in; `Undefined` for
    /// the many that have none.
    pub fn intermediate_region(&self) -> (r: IntermediateRegion)
        ensures
            r == self.def().intermediate_region,
    {
        self.definition().intermediate_region
    }

    /// The numeric M49 code of the region.
    pub fn region_code(&self) -> (r: u16)
        ensures
            r == self.def().region_code,
    {
        self.definition().region_code
    }

    /// The numeric M49 code of the sub-region.
    pub fn sub_region_code(&self) -> (r: u16)
        ensures
            r == self.def().sub_region_code,
    {
        self.definition().sub_region_code
    }

    /// The numeric M49 code of the intermediate region, absent when the
    /// jurisdiction has none.
    pub fn intermediate_region_code(&self) -> (r: Option<u16>)
        ensures
            r == self.def().intermediate_region_code,
    {
        self.definition().intermediate_region_code
    }

    /// All jurisdictions that carry `c`, in table order.
    pub fn members(c: Classification) -> (r: Vec<Jurisdiction>)
        ensures
            r@.map_values(|j: Jurisdiction| j.row()) == rows_with(c, COUNT as nat),
    {
        let mut out: Vec<Jurisdiction> = Vec::new();
        let mut i: usize = 0;
        while i < COUNT
            invariant
                i <= COUNT,
                out@.map_values(|j: Jurisdiction| j.row()) == rows_with(c, i as nat),
            decreases COUNT - i,
        {
            let ghost prev = out@;
            let d = definition(i);
            proof {
                reveal(row_carries);
            }
            if c.holds_for(d.region, d.sub_region, d.intermediate_region) {
                let j = Jurisdiction::at(i);
                out.push(j);
                proof {
                    assert(out@.map_values(|j: Jurisdiction| j.row()) =~= prev.map_values(
                        |j: Jurisdiction| j.row(),
                    ).push(i));
                }
            }
            i = i + 1;
        }
        out
    }

    /// All jurisdictions in `region`, in table order.
    pub fn in_region(region: Region) -> (r: Vec<Jurisdiction>)
        ensures
            r@.map_values(|j: Jurisdiction| j.row()) == rows_with(
                Classification::Region(region),
                COUNT as nat,
            ),
            forall|k: int| 0 <= k < r@.len() ==> (#[trigger] r@[k]).def().region == region,
            r@.len() == count_with(Classification::Region(region), COUNT as nat),
    {
        let r = Jurisdiction::members(Classification::Region(region));
        proof {
            let c = Classification::Region(region);
            lemma_members(c, r@);
            assert forall|k: int| 0 <= k < r@.len() implies (#[trigger] r@[k]).def().region
                == region by {
                assert(c.covers(
                    r@[k].def().region,
                    r@[k].def().sub_region,
                    r@[k].def().intermediate_region,
                ));
            }
        }
        r
    }

    /// All jurisdictions in `sub_region`, in table order.
    pub fn in_sub_region(sub_region: SubRegion) -> (r: Vec<Jurisdiction>)
        ensures
            r@.map_values(|j: Jurisdiction| j.row()) == rows_with(
                Classification::SubRegion(sub_region),
                COUNT as nat,
            ),
            forall|k: int| 0 <= k < r@.len() ==> (#[trigger] r@[k]).def().sub_region == sub_region,
            r@.len() == count_with(Classification::SubRegion(sub_region), COUNT as nat),
    {
        let r = Jurisdiction::members(Classification::SubRegion(sub_region));
        proof {
            let c = Classification::SubRegion(sub_region);
            lemma_members(c, r@);
            assert forall|k: int| 0 <= k < r@.len() implies (#[trigger] r@[k]).def().sub_region
                == sub_region by {
                assert(c.covers(
                    r@[k].def().region,
                    r@[k].def().sub_region,
                    r@[k].def().intermediate_region,
                ));
            }
        }
        r
    }

    /// All jurisdictions in `intermediate_region`, in table order.
    pub fn in_intermediate_region(intermediate_region: IntermediateRegion) -> (r: Vec<
        Jurisdiction,
    >)
        ensures
            r@.map_values(|j: Jurisdiction| j.row()) == rows_with(
                Classification::IntermediateRegion(intermediate_region),
                COUNT as nat,
            ),
            forall|k: int|
                0 <= k < r@.len() ==> (#[trigger] r@[k]).def().intermediate_region
                    == intermediate_region,
            r@.len() == count_with(
                Classification::IntermediateRegion(intermediate_region),
                COUNT as nat,
            ),
    {
        let r = Jurisdiction::members(Classification::IntermediateRegion(intermediate_region));
        proof {
            let c = Classification::IntermediateRegion(intermediate_region);
            lemma_members(c, r@);
            assert forall|k: int| 0 <= k < r@.len() implies (#[trigger] r@[k]).def().intermediate_region
                == intermediate_region by {
                assert(c.covers(
                    r@[k].def().region,
                    r@[k].def().sub_region,
                    r@[k].def().intermediate_region,
                ));
            }
        }
        r
    }
}

/// Every row listed for `c` carries `c`, every row that carries `c` is
/// listed, and the list is as long as the count of such rows.
pub proof fn lemma_rows_with(c: Classification, n: nat)
    ensures
        rows_with(c, n).len() == count_with(c, n),
        forall|k: int|
            0 <= k < rows_with(c, n).len() ==> (#[trigger] rows_with(c, n)[k]) < n && row_carries(
                rows_with(c, n)[k],
                c,
            ),
        forall|i: usize| i < n && row_carries(i, c) ==> rows_with(c, n).contains(i),
    decreases n,
{
    if n > 0 {
        lemma_rows_with(c, (n - 1) as nat);
        let prev = rows_with(c, (n - 1) as nat);
        let last = (n - 1) as usize;
        if row_carries(last, c) {
            assert(rows_with(c, n) == prev.push(last));
            assert forall|i: usize| i < n && row_carries(i, c) implies rows_with(
                c,
                n,
            ).contains(i) by {
                if i == last {
                    assert(rows_with(c, n)[prev.len() as int] == i);
                } else {
                    let k = choose|k: int| 0 <= k < prev.len() && prev[k] == i;
                    assert(rows_with(c, n)[k] == i);
                }
            }
        }
    }
}

proof fn lemma_members(c: Classification, r: Seq<Jurisdiction>)
    requires
        r.map_values(|j: Jurisdiction| j.row()) == rows_with(c, COUNT as nat),
    ensures
        r.len() == count_with(c, COUNT as nat),
        forall|k: int|
            0 <= k < r.len() ==> #[trigger] c.covers(
                r[k].def().region,
                r[k].def().sub_region,
                r[k].def().intermediate_region,
            ),
{
    lemma_rows_with(c, COUNT as nat);
    reveal(row_carries);
    assert forall|k: int| 0 <= k < r.len() implies #[trigger] c.covers(
        r[k].def().region,
        r[k].def().sub_region,
        r[k].def().intermediate_region,
    ) by {
        assert(r.map_values(|j: Jurisdiction| j.row())[k] == r[k].row());
    }
}

/// Any two-letter code's text reads back to the jurisdiction that carries
/// that code, and that jurisdiction's two-letter code spells the text again.
pub proof fn lemma_alpha2_text_round_trip(t: Seq<char>)
    requires
        exists|a: Alpha2| a.letters() == t,
    ensures
        row_of_text(t) is Some,
        entry(row_of_text(t)->0).alpha2.letters() == t,
{
    let a = choose|a: Alpha2| a.letters() == t;
    a.lemma_parse_letters();
    lemma_entry_of_alpha2(a);
}

/// Any three-letter code's text reads back to the jurisdiction that carries
/// that code, and that jurisdiction's three-letter code spells the text again.
pub proof fn lemma_alpha3_text_round_trip(t: Seq<char>)
    requires
        exists|b: Alpha3| b.letters() == t,
    ensures
        row_of_text(t) is Some,
        entry(row_of_text(t)->0).alpha3.letters() == t,
{
    let b = choose|b: Alpha3| b.letters() == t;
    b.lemma_letters_determine();
    assert forall|a: Alpha2| a.letters() != t by {
        a.lemma_letters_determine();
    }
    b.lemma_parse_letters();
    lemma_entry_of_alpha3(b);
}

/// A text that spells no two-letter and no three-letter code names no
/// jurisdiction, so reading it fails with that very text.
pub proof fn lemma_unknown_text(t: Seq<char>)
    requires
        forall|a: Alpha2| a.letters() != t,
        forall|b: Alpha3| b.letters() != t,
    ensures
        row_of_text(t) is None,
{
}

/// Handles on the same row are the same handle.
pub proof fn lemma_row_injective(a: Jurisdiction, b: Jurisdiction)
    requires
        a.row() == b.row(),
    ensures
        a == b,
{
}

/// The handle built from a jurisdiction's two-letter code and the handle
/// built from its three-letter code are one handle, and compare equal.
pub proof fn lemma_alpha_handles_agree(
    code2: Alpha2,
    code3: Alpha3,
    by_alpha2: Jurisdiction,
    by_alpha3: Jurisdiction,
)
    requires
        entry(code2.index()).alpha3 == code3,
        by_alpha2.row() == code2.index(),
        by_alpha3.row() == code3.index(),
    ensures
        by_alpha2 == by_alpha3,
        by_alpha2.eq_spec(&by_alpha3),
{
    lemma_entry_of_alpha2(code2);
    lemma_row_injective(by_alpha2, by_alpha3);
}

impl PartialEq for Jurisdiction {
    fn eq(&self, other: &Jurisdiction) -> (r: bool) {
        self.country_code() == other.country_code()
    }
}

impl vstd::std_specs::cmp::PartialEqSpecImpl for Jurisdiction {
    open spec fn obeys_eq_spec() -> bool {
        true
    }

    open spec fn eq_spec(&self, other: &Jurisdiction) -> bool {
        self.def().country_code == other.def().country_code
    }
}

impl PartialEq<Alpha2> for Jurisdiction {
    fn eq(&self, other: &Alpha2) -> (r: bool) {
        self.alpha2() == *other
    }
}

impl vstd::std_specs::cmp::PartialEqSpecImpl<Alpha2> for Jurisdiction {
    open spec fn obeys_eq_spec() -> bool {
        true
    }

    open spec fn eq_spec(&self, other: &Alpha2) -> bool {
        self.def().alpha2 == *other
    }
}

impl PartialEq<Alpha3> for Jurisdiction {
    fn eq(&self, other: &Alpha3) -> (r: bool) {
        self.alpha3() == *other
    }
}

impl vstd::std_specs::cmp::PartialEqSpecImpl<Alpha3> for Jurisdiction {
    open spec fn obeys_eq_spec() -> bool {
        true
    }

    open spec fn eq_spec(&self, other: &Alpha3) -> bool {
        self.def().alpha3 == *other
    }
}

impl From<Alpha2> for Jurisdiction {
    fn from(code: Alpha2) -> (r: Jurisdiction) {
        Jurisdiction::from_alpha2(code)
    }
}

impl vstd::std_specs::convert::FromSpecImpl<Alpha2> for Jurisdiction {
    open spec fn obeys_from_spec() -> bool {
        true
    }

    open spec fn from_spec(code: Alpha2) -> Jurisdiction {
        choose|j: Jurisdiction| j.row() == code.index()
    }
}

impl From<Alpha3> for Jurisdiction {
    fn from(code: Alpha3) -> (r: Jurisdiction) {
        Jurisdiction::from_alpha3(code)
    }
}

impl vstd::std_specs::convert::FromSpecImpl<Alpha3> for Jurisdiction {
    open spec fn obeys_from_spec() -> bool {
        true
    }

    open spec fn from_spec(code: Alpha3) -> Jurisdiction {
        choose|j: Jurisdiction| j.row() == code.index()
    }
}

impl core::str::FromStr for Jurisdiction {
    type Err = UnrecognizedCode;

    fn from_str(s: &str) -> Result<Jurisdiction, UnrecognizedCode> {
        Jurisdiction::from_str(s)
    }
}

} // verus!
