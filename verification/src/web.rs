//! What the web service says: the status of every outlet as a list of
//! names and states, and the answer to a control request.

use vstd::prelude::*;
use vstd::string::*;
use crate::command::{command_named, OutletControlCommand};
use crate::error::{PduError, TransportFailure};
use crate::oid::status_oid;
use crate::outlet::{all_outlets, outlet_named, Outlet, OUTLET_COUNT};
use crate::service::{get_outlet_status, status_of_reply, WireValue};
use crate::status::OutletStatus;

verus! {

/// One line of the status list: an outlet's name and what is known of its
/// state.
#[derive(Debug, PartialEq, Eq)]
pub struct StatusEntry {
    pub outlet: String,
    pub status: String,
}

/// The status list: one entry for each outlet, by ascending number.
#[derive(Debug, PartialEq, Eq)]
pub struct SystemPowerStatus {
    pub statuses: Vec<StatusEntry>,
}

impl SystemPowerStatus {
    /// Whether the list has one entry for each outlet, by ascending number,
    /// each under its outlet's name.
    pub open spec fn lists_every_outlet(self) -> bool {
        &&& self.statuses@.len() == OUTLET_COUNT
        &&& forall|i: int| 0 <= i < OUTLET_COUNT
            ==> (#[trigger] self.statuses@[i]).outlet@ == all_outlets()[i].spec_name()
    }
}

/// The text that stands for the outcome of a status read: the state's name,
/// or `? (failure)` where the read gave no state.
pub open spec fn status_text(status: Result<OutletStatus, PduError>) -> Seq<char> {
    match status {
        Ok(state) => state.spec_name(),
        Err(_) => "? (failure)"@,
    }
}

/// The text that answers a control request: `ok` or `failed`.
pub open spec fn response_text(outcome: Result<(), PduError>) -> Seq<char> {
    match outcome {
        Ok(_) => "ok"@,
        Err(_) => "failed"@,
    }
}

/// What the two fields of a control request say: the outlet and the command
/// that they name, or what is wrong with the first field that names nothing.
pub open spec fn control_request_of(outlet: Seq<char>, command: Seq<char>) -> Result<
    (Outlet, OutletControlCommand),
    PduError,
> {
    match outlet_named(outlet) {
        None => Err(PduError::UnknownOutlet),
        Some(target) => match command_named(command) {
            None => Err(PduError::UnknownCommand),
            Some(order) => Ok((target, order)),
        },
    }
}

/// Whether `entry` is the line of `outlet` after one read through `read`: it
/// bears the outlet's name and the text of some reply that `read` may give
/// for the outlet's status identifier.
pub open spec fn entry_reports<F>(read: F, outlet: Outlet, entry: StatusEntry) -> bool
    where F: Fn([u32; 16]) -> Result<Vec<WireValue>, TransportFailure>
{
    &&& entry.outlet@ == outlet.spec_name()
    &&& exists|oid: [u32; 16], reply: Result<Vec<WireValue>, TransportFailure>|
        oid@ == status_oid(outlet.spec_index())
        && call_ensures(read, (oid,), reply)
        && entry.status@ == status_text(status_of_reply(reply))
}

/// The line of the status list for `outlet`, given the outcome of its
/// status read. A failed read gives a line too.
pub fn status_entry(outlet: Outlet, status: Result<OutletStatus, PduError>) -> (entry: StatusEntry)
    ensures
        entry.outlet@ == outlet.spec_name(),
        entry.status@ == status_text(status),
{
    let text: String = match status {
        Ok(state) => state.to_string(),
        Err(_) => String::from_str("? (failure)"),
    };
    StatusEntry { outlet: outlet.to_string(), status: text }
}

/// Reads the state of every outlet through `read`, one after the other by
/// ascending number, and lists them. A read that fails marks its own line
/// and leaves the others as they are: the list always has a line for each
/// outlet.
pub fn system_power_status<F>(read: &F) -> (listing: SystemPowerStatus)
    where F: Fn([u32; 16]) -> Result<Vec<WireValue>, TransportFailure>
    requires
        forall|oid: [u32; 16], outlet: Outlet| oid@ == status_oid(outlet.spec_index())
            ==> call_requires(*read, (oid,)),
    ensures
        listing.lists_every_outlet(),
        forall|i: int| 0 <= i < OUTLET_COUNT
            ==> entry_reports(*read, all_outlets()[i], #[trigger] listing.statuses@[i]),
{
    let outlets: Vec<Outlet> = Outlet::iter();
    let mut statuses: Vec<StatusEntry> = Vec::new();
    let mut i: usize = 0;
    while i < outlets.len()
        invariant
            outlets@ == all_outlets(),
            outlets@.len() == OUTLET_COUNT,
            i <= outlets.len(),
            statuses@.len() == i,
            forall|oid: [u32; 16], outlet: Outlet| oid@ == status_oid(outlet.spec_index())
                ==> call_requires(*read, (oid,)),
            forall|j: int| 0 <= j < i
                ==> entry_reports(*read, all_outlets()[j], #[trigger] statuses@[j]),
        decreases outlets.len() - i,
    {
        let outlet: Outlet = outlets[i];
        let status: Result<OutletStatus, PduError> = get_outlet_status(read, outlet);
        let entry: StatusEntry = status_entry(outlet, status);
        statuses.push(entry);
        i += 1;
    }
    SystemPowerStatus { statuses }
}

/// Reads the two fields of a control request: the outlet by its name,
/// letter for letter, then the command by its name, whatever the case of
/// its letters. An unknown outlet is reported before an unknown command.
pub fn parse_control_request(outlet: &str, command: &str) -> (parsed: Result<
    (Outlet, OutletControlCommand),
    PduError,
>)
    ensures
        parsed == control_request_of(outlet@, command@),
{
    let target: Outlet = match Outlet::from_str(outlet) {
        Ok(target) => target,
        Err(e) => { return Err(e); },
    };
    match OutletControlCommand::from_str(command) {
        Ok(order) => Ok((target, order)),
        Err(e) => Err(e),
    }
}

/// The body of the answer to a control request: `ok` where the write was
/// acknowledged, `failed` where it was not.
pub fn control_response(outcome: Result<(), PduError>) -> (body: &'static str)
    ensures
        body@ == response_text(outcome),
{
    match outcome {
        Ok(_) => "ok",
        Err(_) => "failed",
    }
}

} // verus!
