//! Error taxonomy of the library.
//!
//! Every fallible public operation returns a [`WfpError`] that the caller
//! must inspect; no operation retries on its own.

use vstd::prelude::*;

verus! {

/// Native status code returned when a second transaction is begun on a
/// session that already has one in progress.
pub const STATUS_TXN_IN_PROGRESS: u32 = 0x8032000E;

/// Native status code returned when a transactional operation runs on a
/// session with no transaction in progress.
pub const STATUS_NO_TXN_IN_PROGRESS: u32 = 0x8032000D;

/// Native status code returned when a filter to be deleted does not exist.
pub const STATUS_FILTER_NOT_FOUND: u32 = 0x80320003;

/// A mandatory builder field that was not supplied before finalization.
#[derive(Clone, Copy, Debug, PartialEq, Eq, Structural)]
pub enum MissingField {
    /// The display name.
    Name,
    /// The display description.
    Description,
    /// The action to take on a match.
    Action,
    /// The condition's field selector.
    FieldKey,
    /// The condition's match operator.
    MatchKind,
    /// The condition's typed value.
    Value,
}

/// What can go wrong in this library.
#[derive(Debug)]
pub enum WfpError {
    /// The engine answered a native call with a non-success status code,
    /// carried here unchanged.
    Os(u32),
    /// An entity was finalized although the listed mandatory fields were
    /// never set. Surfaced before anything is submitted to the engine.
    Incomplete(Vec<MissingField>),
    /// A wide-character string held by the engine was not valid text.
    Decode,
}

} // verus!
