//! What the command line does with its arguments and prints of an outlet.

use vstd::prelude::*;
use vstd::string::*;
use crate::command::OutletControlCommand;
use crate::status::OutletStatus;

verus! {

/// A change of power that the command line offers for one outlet.
#[derive(Clone, Copy, Debug, PartialEq, Eq, Structural)]
pub enum PowerAction {
    PowerOn,
    PowerOff,
    Bounce,
}

impl PowerAction {
    /// The command that carries the action out. Each is an immediate one.
    pub open spec fn spec_command(self) -> OutletControlCommand {
        match self {
            PowerAction::PowerOn => OutletControlCommand::ImmediateOn,
            PowerAction::PowerOff => OutletControlCommand::ImmediateOff,
            PowerAction::Bounce => OutletControlCommand::ImmediateReboot,
        }
    }

    /// The command that carries the action out.
    pub fn command(self) -> (command: OutletControlCommand)
        ensures
            command == self.spec_command(),
    {
        match self {
            PowerAction::PowerOn => OutletControlCommand::ImmediateOn,
            PowerAction::PowerOff => OutletControlCommand::ImmediateOff,
            PowerAction::Bounce => OutletControlCommand::ImmediateReboot,
        }
    }
}

/// The kebab-case form of `text` as `inflections::case::to_kebab_case`
/// computes it.
pub uninterp spec fn kebab_case(text: Seq<char>) -> Seq<char>;

/// Calls `inflections::case::to_kebab_case`. That function reads nothing but
/// its argument: it turns spaces and underscores into hyphens, puts a hyphen
/// between a small letter and the capital that follows it, and makes every
/// letter small. The contract only gives its result the name
/// [`kebab_case`].
#[verifier::external_body]
fn to_kebab_case(text: &str) -> (kebab: String)
    ensures
        kebab@ == kebab_case(text@),
{
    inflections::case::to_kebab_case(text)
}

/// The line `<label> <state>`, with the state written `On` or `Off`.
pub open spec fn status_line_text(label: Seq<char>, status: OutletStatus) -> Seq<char> {
    label + " "@ + status.spec_label()
}

/// Joins a label and a state into the line that is printed for an outlet.
pub fn join_status_line(label: String, status: OutletStatus) -> (line: String)
    ensures
        line@ == status_line_text(label@, status),
{
    let mut line: String = label;
    line.append(" ");
    line.append(status.label());
    line
}

/// The line that is printed for the outlet called `name`: the name in
/// kebab case, a space, and the state.
pub fn status_line(name: &str, status: OutletStatus) -> (line: String)
    ensures
        line@ == status_line_text(kebab_case(name@), status),
{
    join_status_line(to_kebab_case(name), status)
}

} // verus!
