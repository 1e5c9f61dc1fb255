//! Lightweight classification of the jurisdictions of the
//! world: ISO 3166 two- and three-letter codes, numeric country codes, and
//! the UN M49 region hierarchy.

pub mod alpha;
pub mod compile;
pub mod jurisdiction;
pub mod region;
pub mod registry;
pub mod table;
pub mod text;

pub use crate::alpha::{Alpha2, Alpha3};
pub use crate::compile::{compile, CompileError, Entry, Fault, Record};
pub use crate::jurisdiction::{Jurisdiction, UnrecognizedCode};
pub use crate::region::{Classification, IntermediateRegion, Region, SubRegion};
pub use crate::table::Definition;
