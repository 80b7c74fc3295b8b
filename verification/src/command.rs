//! The commands that an outlet takes, their wire codes and their names.

use vstd::prelude::*;
use vstd::string::*;
use crate::error::PduError;
use crate::text::{ascii_lower, eq_ignoring_ascii_case, str_eq_ignoring_ascii_case};

verus! {

/// Number of commands that the protocol defines.
pub const COMMAND_COUNT: usize = 8;

/// A command for one outlet.
#[derive(Clone, Copy, Debug, PartialEq, Eq, Structural)]
pub enum OutletControlCommand {
    ImmediateOn,
    ImmediateOff,
    ImmediateReboot,
    OutletUnknown,
    DelayedOn,
    DelayedOff,
    DelayedReboot,
    CancelPendingCommand,
}

/// Every command, by ascending wire code.
pub open spec fn all_commands() -> Seq<OutletControlCommand> {
    seq![
        OutletControlCommand::ImmediateOn,
        OutletControlCommand::ImmediateOff,
        OutletControlCommand::ImmediateReboot,
        OutletControlCommand::OutletUnknown,
        OutletControlCommand::DelayedOn,
        OutletControlCommand::DelayedOff,
        OutletControlCommand::DelayedReboot,
        OutletControlCommand::CancelPendingCommand,
    ]
}

/// Whether `name` names `command`, whatever the case of its letters.
pub open spec fn names_command(name: Seq<char>, command: OutletControlCommand) -> bool {
    eq_ignoring_ascii_case(name, command.spec_name())
}

/// The command that `name` names, whatever the case of its letters, if it
/// names one.
pub open spec fn command_named(name: Seq<char>) -> Option<OutletControlCommand> {
    if names_command(name, OutletControlCommand::ImmediateOn) {
        Some(OutletControlCommand::ImmediateOn)
    } else if names_command(name, OutletControlCommand::ImmediateOff) {
        Some(OutletControlCommand::ImmediateOff)
    } else if names_command(name, OutletControlCommand::ImmediateReboot) {
        Some(OutletControlCommand::ImmediateReboot)
    } else if names_command(name, OutletControlCommand::OutletUnknown) {
        Some(OutletControlCommand::OutletUnknown)
    } else if names_command(name, OutletControlCommand::DelayedOn) {
        Some(OutletControlCommand::DelayedOn)
    } else if names_command(name, OutletControlCommand::DelayedOff) {
        Some(OutletControlCommand::DelayedOff)
    } else if names_command(name, OutletControlCommand::DelayedReboot) {
        Some(OutletControlCommand::DelayedReboot)
    } else if names_command(name, OutletControlCommand::CancelPendingCommand) {
        Some(OutletControlCommand::CancelPendingCommand)
    } else {
        None
    }
}

/// What parsing a name answers: the command named, or `UnknownCommand`.
pub open spec fn named_or_unknown(named: Option<OutletControlCommand>) -> Result<
    OutletControlCommand,
    PduError,
> {
    match named {
        Some(command) => Ok(command),
        None => Err(PduError::UnknownCommand),
    }
}

impl OutletControlCommand {
    /// The integer that the unit takes for this command.
    pub open spec fn spec_wire_code(self) -> i64 {
        match self {
            OutletControlCommand::ImmediateOn => 1,
            OutletControlCommand::ImmediateOff => 2,
            OutletControlCommand::ImmediateReboot => 3,
            OutletControlCommand::OutletUnknown => 4,
            OutletControlCommand::DelayedOn => 5,
            OutletControlCommand::DelayedOff => 6,
            OutletControlCommand::DelayedReboot => 7,
            OutletControlCommand::CancelPendingCommand => 8,
        }
    }

    /// The name of the command: small letters joined by hyphens.
    pub open spec fn spec_name(self) -> Seq<char> {
        match self {
            OutletControlCommand::ImmediateOn => "immediate-on"@,
            OutletControlCommand::ImmediateOff => "immediate-off"@,
            OutletControlCommand::ImmediateReboot => "immediate-reboot"@,
            OutletControlCommand::OutletUnknown => "outlet-unknown"@,
            OutletControlCommand::DelayedOn => "delayed-on"@,
            OutletControlCommand::DelayedOff => "delayed-off"@,
            OutletControlCommand::DelayedReboot => "delayed-reboot"@,
            OutletControlCommand::CancelPendingCommand => "cancel-pending-command"@,
        }
    }

    /// The integer that the unit takes for this command.
    pub fn wire_code(self) -> (code: i64)
        ensures
            code == self.spec_wire_code(),
            1 <= code <= COMMAND_COUNT,
    {
        match self {
            OutletControlCommand::ImmediateOn => 1,
            OutletControlCommand::ImmediateOff => 2,
            OutletControlCommand::ImmediateReboot => 3,
            OutletControlCommand::OutletUnknown => 4,
            OutletControlCommand::DelayedOn => 5,
            OutletControlCommand::DelayedOff => 6,
            OutletControlCommand::DelayedReboot => 7,
            OutletControlCommand::CancelPendingCommand => 8,
        }
    }

    /// The name of the command.
    pub fn name(self) -> (name: &'static str)
        ensures
            name@ == self.spec_name(),
    {
        match self {
            OutletControlCommand::ImmediateOn => "immediate-on",
            OutletControlCommand::ImmediateOff => "immediate-off",
            OutletControlCommand::ImmediateReboot => "immediate-reboot",
            OutletControlCommand::OutletUnknown => "outlet-unknown",
            OutletControlCommand::DelayedOn => "delayed-on",
            OutletControlCommand::DelayedOff => "delayed-off",
            OutletControlCommand::DelayedReboot => "delayed-reboot",
            OutletControlCommand::CancelPendingCommand => "cancel-pending-command",
        }
    }

    /// Every command, by ascending wire code.
    pub fn all() -> (commands: Vec<OutletControlCommand>)
        ensures
            commands@ == all_commands(),
    {
        let commands: Vec<OutletControlCommand> = vec![
            OutletControlCommand::ImmediateOn,
            OutletControlCommand::ImmediateOff,
            OutletControlCommand::ImmediateReboot,
            OutletControlCommand::OutletUnknown,
            OutletControlCommand::DelayedOn,
            OutletControlCommand::DelayedOff,
            OutletControlCommand::DelayedReboot,
            OutletControlCommand::CancelPendingCommand,
        ];
        assert(commands@ =~= all_commands());
        commands
    }

    /// The command that `name` names, whatever the case of its letters;
    /// `UnknownCommand` where it names none.
    pub fn from_str(name: &str) -> (parsed: Result<OutletControlCommand, PduError>)
        ensures
            parsed == named_or_unknown(command_named(name@)),
    {
        let commands: Vec<OutletControlCommand> = OutletControlCommand::all();
        let mut i: usize = 0;
        while i < commands.len()
            invariant
                commands@ == all_commands(),
                i <= commands.len(),
                forall|j: int| 0 <= j < i ==> !names_command(name@, #[trigger] commands@[j]),
            decreases commands.len() - i,
        {
            let command: OutletControlCommand = commands[i];
            if str_eq_ignoring_ascii_case(name, command.name()) {
                proof {
                    lemma_named_command_is_the_one_named(name@, command);
                }
                return Ok(command);
            }
            i += 1;
        }
        proof {
            assert forall|command: OutletControlCommand| !names_command(name@, command) by {
                lemma_all_commands_is_complete(command);
            }
        }
        Err(PduError::UnknownCommand)
    }
}

/// Every command stands in [`all_commands`], at the place before its wire
/// code; so the codes run from 1 to 8.
pub proof fn lemma_all_commands_is_complete(command: OutletControlCommand)
    ensures
        all_commands().len() == COMMAND_COUNT,
        1 <= command.spec_wire_code() <= COMMAND_COUNT,
        all_commands()[command.spec_wire_code() - 1] == command,
{
}

/// No two commands share a wire code.
pub proof fn lemma_wire_code_is_injective(a: OutletControlCommand, b: OutletControlCommand)
    requires
        a.spec_wire_code() == b.spec_wire_code(),
    ensures
        a == b,
{
}

/// A name names at most one command.
pub proof fn lemma_name_names_one_command(
    name: Seq<char>,
    a: OutletControlCommand,
    b: OutletControlCommand,
)
    requires
        names_command(name, a),
        names_command(name, b),
    ensures
        a == b,
{
    reveal_strlit("immediate-on");
    reveal_strlit("immediate-off");
    reveal_strlit("immediate-reboot");
    reveal_strlit("outlet-unknown");
    reveal_strlit("delayed-on");
    reveal_strlit("delayed-off");
    reveal_strlit("delayed-reboot");
    reveal_strlit("cancel-pending-command");
    assert("immediate-on"@.len() == 12);
    assert("immediate-off"@.len() == 13);
    assert("immediate-reboot"@.len() == 16);
    assert("outlet-unknown"@.len() == 14 && "outlet-unknown"@[0] == 'o');
    assert("delayed-on"@.len() == 10);
    assert("delayed-off"@.len() == 11);
    assert("delayed-reboot"@.len() == 14 && "delayed-reboot"@[0] == 'd');
    assert("cancel-pending-command"@.len() == 22);
    assert(ascii_lower('o') == 'o');
    assert(ascii_lower('d') == 'd');
    if a != b {
        assert(name.len() == 14);
        assert(ascii_lower(name[0]) == ascii_lower(a.spec_name()[0]));
        assert(ascii_lower(name[0]) == ascii_lower(b.spec_name()[0]));
    }
}

/// Where a name names a command, parsing the name gives that command.
pub proof fn lemma_named_command_is_the_one_named(name: Seq<char>, command: OutletControlCommand)
    requires
        names_command(name, command),
    ensures
        command_named(name) == Some(command),
{
    if let Some(found) = command_named(name) {
        lemma_name_names_one_command(name, found, command);
    }
}

/// Whatever command a name is parsed as, the name names it; a name that is
/// parsed as none names no command.
pub proof fn lemma_parsed_command_is_named(name: Seq<char>)
    ensures
        match command_named(name) {
            Some(found) => names_command(name, found),
            None => forall|command: OutletControlCommand| !names_command(name, command),
        },
{
}

/// Parsing a command's own name gives the command back, so encoding what
/// was parsed gives the command's own wire code.
pub proof fn lemma_own_name_round_trip(command: OutletControlCommand)
    ensures
        command_named(command.spec_name()) == Some(command),
        command_named(command.spec_name()).unwrap().spec_wire_code() == command.spec_wire_code(),
{
    lemma_named_command_is_the_one_named(command.spec_name(), command);
}

} // verus!
