use vstd::prelude::*;

verus! {

/// Why an operation on the record store was refused.
#[derive(Debug, Clone, Copy, PartialEq, Eq, Structural)]
pub enum RecordError {
    /// The slot index lies outside the catalog.
    OutOfRange,
    /// The bytes of a slot do not decode to a record that belongs there.
    DeserializationFailure,
    /// The presented token identity does not control the slot.
    OwnershipMismatch,
    /// The token or the fund transfer reported failure.
    TransferFailure,
    /// The record's encoding is wider than a slot.
    SerializationOverflow,
}

} // verus!
