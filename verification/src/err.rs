//! The error model of the session and transaction layer.
//!
//! Transport errors (`Io`, `Framing`, `Correlation`) mean the channel is
//! compromised and the session must close.  Codec errors (`Encode`,
//! `Decode`) are fatal to the transaction.  `ProtocolState` reports an
//! operation attempted out of the allowed session state.  A registry
//! result code in an error band is not an `EppError`: it is surfaced as
//! a [`RegistryError`] carried inside a decoded response.

use vstd::prelude::*;

verus! {

/// A malformed frame length header.
#[derive(Debug, PartialEq, Eq)]
pub enum FramingError {
    /// The length header named fewer than the four bytes it occupies
    /// itself.
    TooSmall { length: u32 },
    /// A payload too long for the four-byte length header.
    TooLarge,
}

/// A failure of the session transport or codec layers.
#[derive(Debug, PartialEq, Eq)]
pub enum EppError {
    /// The stream failed or ended early; the session must close.
    Io { message: String },
    /// A malformed length header; the session must close.
    Framing { error: FramingError },
    /// A value that cannot be represented on the wire.
    Encode { message: String },
    /// A document that does not match the expected shape.
    Decode { message: String },
    /// The response echoed a client transaction id other than the one
    /// sent; the session is desynchronized and must close.
    Correlation { sent: String, received: Option<String> },
    /// An operation attempted out of the allowed session state.
    ProtocolState { message: String },
}

/// A successfully decoded response whose result code denotes a
/// protocol-level failure.  Not fatal to the session.
#[derive(Debug, PartialEq, Eq)]
pub struct RegistryError {
    /// The result code the registry answered with.
    pub code: u16,
    /// The human-readable message beside the code.
    pub message: String,
}

} // verus!
