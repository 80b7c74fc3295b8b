//! The state that the unit reports for an outlet, and its wire code.

use vstd::prelude::*;
use vstd::string::*;
use crate::error::PduError;

verus! {

/// Whether an outlet gives power.
#[derive(Clone, Copy, Debug, PartialEq, Eq, Structural)]
pub enum OutletStatus {
    Off,
    On,
}

/// The state that the wire code `code` stands for, if it stands for one.
pub open spec fn status_of_code(code: i64) -> Option<OutletStatus> {
    if code == 1 {
        Some(OutletStatus::Off)
    } else if code == 2 {
        Some(OutletStatus::On)
    } else {
        None
    }
}

impl OutletStatus {
    /// The integer that the unit sends for this state.
    pub open spec fn spec_wire_code(self) -> i64 {
        match self {
            OutletStatus::Off => 1,
            OutletStatus::On => 2,
        }
    }

    /// The name of the state in small letters.
    pub open spec fn spec_name(self) -> Seq<char> {
        match self {
            OutletStatus::Off => "off"@,
            OutletStatus::On => "on"@,
        }
    }

    /// The name of the state as the command line prints it.
    pub open spec fn spec_label(self) -> Seq<char> {
        match self {
            OutletStatus::Off => "Off"@,
            OutletStatus::On => "On"@,
        }
    }

    /// The integer that the unit sends for this state.
    pub fn wire_code(self) -> (code: i64)
        ensures
            code == self.spec_wire_code(),
    {
        match self {
            OutletStatus::Off => 1,
            OutletStatus::On => 2,
        }
    }

    /// The state that `code` stands for; `None` for a code that stands for
    /// no state.
    pub fn from_repr(code: i64) -> (status: Option<OutletStatus>)
        ensures
            status == status_of_code(code),
    {
        match code {
            1 => Some(OutletStatus::Off),
            2 => Some(OutletStatus::On),
            _ => None,
        }
    }

    /// The name of the state in small letters: `off` or `on`.
    pub fn name(self) -> (name: &'static str)
        ensures
            name@ == self.spec_name(),
    {
        match self {
            OutletStatus::Off => "off",
            OutletStatus::On => "on",
        }
    }

    /// The name of the state in small letters, as an owned string.
    pub fn to_string(self) -> (name: String)
        ensures
            name@ == self.spec_name(),
    {
        String::from_str(self.name())
    }

    /// The name of the state as the command line prints it: `Off` or `On`.
    pub fn label(self) -> (label: &'static str)
        ensures
            label@ == self.spec_label(),
    {
        match self {
            OutletStatus::Off => "Off",
            OutletStatus::On => "On",
        }
    }
}

/// Reads a wire code as an outlet state: 1 is off, 2 is on, and every other
/// code is refused with `ValueOutOfRange`.
pub fn decode_status(code: i64) -> (decoded: Result<OutletStatus, PduError>)
    ensures
        decoded == match status_of_code(code) {
            Some(status) => Ok::<OutletStatus, PduError>(status),
            None => Err::<OutletStatus, PduError>(PduError::ValueOutOfRange),
        },
{
    match OutletStatus::from_repr(code) {
        Some(status) => Ok(status),
        None => Err(PduError::ValueOutOfRange),
    }
}

/// A wire code stands for a state exactly when it is 1 or 2, and then the
/// state's own code is that code again.
pub proof fn lemma_status_code_round_trip(code: i64)
    ensures
        status_of_code(code).is_some() <==> code == 1 || code == 2,
        status_of_code(code) matches Some(status) ==> status.spec_wire_code() == code,
{
}

/// Each state is what its own wire code is read as.
pub proof fn lemma_status_round_trip(status: OutletStatus)
    ensures
        status_of_code(status.spec_wire_code()) == Some(status),
{
}

} // verus!
