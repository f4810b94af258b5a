//! The error taxonomy of the adapter layer. Every error is fatal for the
//! run: the driver is the only recovery point and performs no retries.

use vstd::prelude::*;
use crate::atoms::AtomName;

verus! {

/// A configuration value outside the range the wire format can carry,
/// reported with the offending value.
#[derive(Debug, Clone, Copy, PartialEq, Eq, Structural)]
pub enum ConfigFault {
    /// The bar thickness does not fit the 16-bit window extent.
    WidthOutOfRange(u32),
    /// A margin does not fit the 16-bit coordinate range.
    MarginOutOfRange(i32),
    /// The computed window origin does not fit the 16-bit coordinate range.
    PositionOutOfRange(i32),
}

/// An adapter-layer error.
#[derive(Debug)]
pub enum Error {
    /// The transport is unreachable or the display name is invalid.
    Connection(String),
    /// A protocol request failed verification.
    Protocol(String),
    /// An atom name resolved to the "none" sentinel, so no hint that needs
    /// it can be published.
    MissingAtom(AtomName),
    /// A configuration value cannot be represented on the wire.
    Config(ConfigFault),
    /// A declared operation the backend does not implement was called.
    Unimplemented(String),
}

/// An error of the driver loop: either an adapter error or a message of the
/// driver's own.
#[derive(Debug)]
pub enum RunnerError<E> {
    WmError(E),
    Custom(String),
}

} // verus!
