//! A schema-driven validation engine: a schema document, given as a generic
//! structured value, is compiled into a tree of validator objects, which is
//! then run against input values to decide conformance.

pub mod error;
pub mod format;
pub mod formats;
pub mod keywords;
pub mod ref_;
pub mod required;
pub mod schema;
pub mod scope;
pub mod validators;
pub mod value;

use vstd::prelude::*;

verus! {

/// A validation run distinguishes three outcomes: invalid (errors found),
/// incomplete (unresolved references remain, but no errors), and valid.
#[derive(Debug, Clone, Copy, PartialEq, Eq, Structural)]
pub enum Outcome {
    Valid,
    Incomplete,
    Invalid,
}

} // verus!
