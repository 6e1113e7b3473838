//! Error taxonomy of the ring transport.
//!
//! Every failure carries the numeric code of the operation that rejected it;
//! all of them are unrecoverable for the ring as a whole, except `Full`,
//! which a caller may retry once the engine has consumed entries.
use vstd::prelude::*;

verus! {

/// Ring negotiation was rejected: the setup call reported a negative status.
#[derive(Clone, Copy, Debug, PartialEq, Eq, Structural)]
pub struct SetupError {
    pub code: i32,
}

/// Mapping one of the three shared regions failed, with the reported errno.
#[derive(Clone, Copy, Debug, PartialEq, Eq, Structural)]
pub struct MapError {
    pub errno: i32,
}

/// The notification call was rejected: the enter call reported a negative
/// status.
#[derive(Clone, Copy, Debug, PartialEq, Eq, Structural)]
pub struct EnterError {
    pub code: i32,
}

/// The entry builder refused an opcode outside its closed table.
#[derive(Clone, Copy, Debug, PartialEq, Eq, Structural)]
pub struct BuildError {
    pub opcode: u8,
}

/// Failure of a single submission step.
#[derive(Clone, Copy, Debug, PartialEq, Eq, Structural)]
pub enum SubmitError {
    /// The submission ring already holds `ring_entries` unconsumed entries;
    /// publishing one more would overwrite a slot the engine has not read.
    Full,
    /// The notification call failed after the entry was staged.
    Notify(EnterError),
}

} // verus!
