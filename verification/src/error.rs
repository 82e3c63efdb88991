use vstd::prelude::*;

verus! {

/// Error taxonomy shared across the kernel's fallible interfaces.
///
/// `NotFound` and `InvalidInput` report mailbox protocol violations that a
/// caller may legitimately observe (a tag absent from a firmware response, a
/// response bit missing); `ResourceBusy` reports resource contention (a timer
/// callback already pending); `Uncategorized` covers everything else.
#[derive(Clone, Copy, Debug, PartialEq, Eq, Structural)]
pub enum ErrorKind {
    NotFound,
    InvalidInput,
    ResourceBusy,
    Uncategorized,
}

} // verus!
