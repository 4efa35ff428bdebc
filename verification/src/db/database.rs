//! The persistence layer's error kind.

use vstd::prelude::*;

verus! {

/// How a store operation fails: an audio id that is not a decimal
/// number, or an unexpected internal fault.
#[derive(Debug, Clone, PartialEq, Eq)]
pub enum DbErr {
    ParseIdErr,
    Unexpected,
}

} // verus!
