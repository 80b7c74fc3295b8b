//! Reading an outlet's state and commanding an outlet.
//!
//! The library does not own the connection to the unit. A caller hands in
//! the transport as a function: one that reads the values bound to an
//! object identifier, or one that writes an integer to an object
//! identifier. Each operation takes a function that can be called once, so
//! a request is never sent a second time.

use vstd::prelude::*;
use crate::command::OutletControlCommand;
use crate::error::{PduError, TransportFailure};
use crate::oid::{control_oid, make_outlet_control_oid, make_outlet_status_oid, status_oid};
use crate::outlet::Outlet;
use crate::status::{decode_status, status_of_code, OutletStatus};

verus! {

/// Where the unit listens, unless the caller says otherwise.
pub const DEFAULT_HOST: &'static str = "apc-rpdu:161";

/// The community string sent with every read and every write.
pub const COMMUNITY: &'static str = "private";

/// How long a request may wait for its reply. There is no second try.
pub const REQUEST_TIMEOUT_SECONDS: u64 = 5;

/// A value bound in a reply, as far as this library reads it.
#[derive(Clone, Copy, Debug, PartialEq, Eq, Structural)]
pub enum WireValue {
    /// An integer.
    Integer(i64),
    /// A value of any other type.
    Other,
}

/// What the values bound in a reply say of the outlet: the state for a lone
/// integer that stands for one, `ValueOutOfRange` for anything else.
pub open spec fn status_of_values(values: Seq<WireValue>) -> Result<OutletStatus, PduError> {
    if values.len() == 1 {
        match values[0] {
            WireValue::Integer(code) => match status_of_code(code) {
                Some(status) => Ok(status),
                None => Err(PduError::ValueOutOfRange),
            },
            WireValue::Other => Err(PduError::ValueOutOfRange),
        }
    } else {
        Err(PduError::ValueOutOfRange)
    }
}

/// What the outcome of a read says of the outlet. A transport failure is
/// handed on as it came.
pub open spec fn status_of_reply(reply: Result<Vec<WireValue>, TransportFailure>) -> Result<
    OutletStatus,
    PduError,
> {
    match reply {
        Ok(values) => status_of_values(values@),
        Err(failure) => Err(PduError::TransportFailure(failure)),
    }
}

/// What the outcome of a write says: any acknowledgement is success, and a
/// transport failure is handed on as it came.
pub open spec fn outcome_of_ack(ack: Result<(), TransportFailure>) -> Result<(), PduError> {
    match ack {
        Ok(_) => Ok(()),
        Err(failure) => Err(PduError::TransportFailure(failure)),
    }
}

/// Reads the outcome of a status read.
pub fn read_status_reply(reply: Result<Vec<WireValue>, TransportFailure>) -> (status: Result<
    OutletStatus,
    PduError,
>)
    ensures
        status == status_of_reply(reply),
{
    match reply {
        Ok(values) => {
            if values.len() != 1 {
                return Err(PduError::ValueOutOfRange);
            }
            match values[0] {
                WireValue::Integer(code) => decode_status(code),
                WireValue::Other => Err(PduError::ValueOutOfRange),
            }
        },
        Err(failure) => Err(PduError::TransportFailure(failure)),
    }
}

/// Reads the outcome of a control write.
pub fn read_control_ack(ack: Result<(), TransportFailure>) -> (outcome: Result<(), PduError>)
    ensures
        outcome == outcome_of_ack(ack),
{
    match ack {
        Ok(_) => Ok(()),
        Err(failure) => Err(PduError::TransportFailure(failure)),
    }
}

/// Asks the unit for the state of `outlet`: one read, through `read`, of the
/// outlet's status identifier, and the state that the reply holds. A reply
/// that holds no state is an error, and so is a read that fails: there is
/// no second read.
pub fn get_outlet_status<F>(read: F, outlet: Outlet) -> (status: Result<OutletStatus, PduError>)
    where F: FnOnce([u32; 16]) -> Result<Vec<WireValue>, TransportFailure>
    requires
        forall|oid: [u32; 16]| oid@ == status_oid(outlet.spec_index()) ==> call_requires(read, (oid,)),
    ensures
        exists|oid: [u32; 16], reply: Result<Vec<WireValue>, TransportFailure>|
            oid@ == status_oid(outlet.spec_index())
            && call_ensures(read, (oid,), reply)
            && status == status_of_reply(reply),
{
    let oid: [u32; 16] = make_outlet_status_oid(outlet.index());
    let reply = read(oid);
    read_status_reply(reply)
}

/// Sends `command` to `outlet`: one write, through `write`, of the command's
/// wire code to the outlet's control identifier. The state of the outlet is
/// not read back.
pub fn control_outlet<F>(write: F, outlet: Outlet, command: OutletControlCommand) -> (outcome: Result<(), PduError>)
    where F: FnOnce([u32; 16], i64) -> Result<(), TransportFailure>
    requires
        forall|oid: [u32; 16]| oid@ == control_oid(outlet.spec_index())
            ==> call_requires(write, (oid, command.spec_wire_code())),
    ensures
        exists|oid: [u32; 16], ack: Result<(), TransportFailure>|
            oid@ == control_oid(outlet.spec_index())
            && call_ensures(write, (oid, command.spec_wire_code()), ack)
            && outcome == outcome_of_ack(ack),
{
    let oid: [u32; 16] = make_outlet_control_oid(outlet.index());
    let ack = write(oid, command.wire_code());
    read_control_ack(ack)
}

} // verus!
