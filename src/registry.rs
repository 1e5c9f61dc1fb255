//! Facts about the definition table that make the registry and the code
//! enumerations consistent: every code leads to exactly one row, and back.

use vstd::prelude::*;
use crate::table::{code_index, entry, COUNT};

verus! {

/// Looking up the numeric country code of any definition of the table finds
/// that very definition, so every field of the handle it gives reads back the
/// definition's own; and no two definitions share a numeric country code.
pub proof fn lemma_lookup_of_entry(i: usize)
    requires
        i < COUNT,
    ensures
        code_index(entry(i).country_code) == Some(i),
{
}

/// What the registry finds is a row holding the code looked for, and it
/// finds nothing only for a code that no row holds.
pub proof fn lemma_entry_of_code_index(code: u16)
    ensures
        match code_index(code) {
            Some(i) => i < COUNT && entry(i).country_code == code,
            None => forall|i: usize| i < COUNT ==> #[trigger] entry(i).country_code != code,
        },
{
}

} // verus!
