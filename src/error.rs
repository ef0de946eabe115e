use vstd::prelude::*;

verus! {

/// The part of the storage layer that failed.
#[derive(Debug, Clone, Copy, PartialEq, Eq, Structural)]
pub enum Kind {
    Database,
    DatabasePool,
}

} // verus!
