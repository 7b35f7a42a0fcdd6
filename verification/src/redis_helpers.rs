use vstd::prelude::*;

verus! {

/// Why a value could not be read from the cache.
#[derive(Clone, Copy, Debug, PartialEq, Eq, Structural)]
pub enum RedisFetchErrors {
    /// The cache could not be read, or had nothing under the key.
    FromDbError,
    /// What the cache held could not be parsed.
    ParseError,
}

} // verus!
