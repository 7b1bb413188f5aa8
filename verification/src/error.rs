use vstd::prelude::*;

verus! {

/// Why the store refused an operation.
#[derive(Debug, Clone, Copy, PartialEq, Eq)]
pub enum Error {
    /// No record is kept under the identifier: it was never issued, or its
    /// record has been deleted.
    TodoNotFound,
    /// A record is already kept under the identifier. The store allocates
    /// every identifier itself, so none of its operations reports this.
    TodoAlreadyExists,
}

} // verus!
