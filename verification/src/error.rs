//! Errors of the outlet table, the codecs and the transport.

use vstd::prelude::*;

verus! {

/// Why a request to the unit got no usable reply. The library reads nothing
/// from this value: it hands it on as it came.
#[derive(Debug, Clone, Copy, PartialEq, Eq, Structural)]
pub enum TransportFailure {
    AsnParseError,
    AsnInvalidLen,
    AsnWrongType,
    AsnUnsupportedType,
    AsnEof,
    AsnIntOverflow,
    UnsupportedVersion,
    RequestIdMismatch,
    CommunityMismatch,
    ValueOutOfRange,
    SendError,
    ReceiveError,
}

/// What can go wrong between a caller's request and the unit's answer.
#[derive(Debug, Clone, Copy, PartialEq, Eq, Structural)]
pub enum PduError {
    /// No outlet has that name or number.
    UnknownOutlet,
    /// No command has that name.
    UnknownCommand,
    /// The reply holds no outlet state: a code that stands for none, a value
    /// that is no integer, no value at all, or more than one.
    ValueOutOfRange,
    /// The request or its reply was lost or malformed on the way.
    TransportFailure(TransportFailure),
}

} // verus!
