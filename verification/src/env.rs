//! Process-wide configuration: an explicit value constructed once at
//! process start and passed to whatever needs it. Validation happens at
//! construction, not lazily on first use.

use vstd::prelude::*;

verus! {

/// The required-configuration pattern: a store of values built by
/// `new`, handed out by value through `vars`.
pub trait EnvStore: Sized + Clone {
    fn new() -> Self;

    fn vars() -> Self {
        Self::new()
    }
}

/// The dictionary service's configuration: where its document store
/// lives. Reading the actual environment happens outside the library;
/// the library only carries the validated values.
#[derive(Debug, Clone, PartialEq, Eq)]
pub struct Env {
    pub db_connection_uri: String,
}

} // verus!
