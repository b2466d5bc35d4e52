use vstd::prelude::*;

verus! {

/// The two error kinds the store can surface.
///
/// `NotFound` means the referenced id has no live record; `InvalidOperation`
/// means a payload or invariant violation (empty name, non-positive quantity
/// or amount, a decrease exceeding the available stock). Every message is
/// human-readable text carrying the offending id and/or quantities, and the
/// contracts of the operations pin the exact text down.
#[derive(Debug)]
pub enum Error {
    NotFound { msg: String },
    InvalidOperation { msg: String },
}

} // verus!
