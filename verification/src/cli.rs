//! Command-line surface of the library: the command a user selected and the
//! decision logic that interprets the raw command word.
//!
//! The actual argument parsing (flags, help text) is an unverified shell
//! around this module; it hands the raw `--command` and `--path` values in
//! as plain strings.

use vstd::prelude::*;

use crate::str_eq;

verus! {

/// The action selected on the command line: generate a project skeleton at a
/// path, or run the configured server.
pub enum ArgCommand {
    Generate(String),
    Run,
}

/// Raised when the command word is neither `run` nor `gen`.
#[derive(Debug)]
pub struct ArgParseError;

/// The validated result of argument parsing.
pub struct HydratedArgs {
    command: ArgCommand,
}

impl HydratedArgs {
    pub closed spec fn spec_command(&self) -> ArgCommand {
        self.command
    }

    pub fn new(command: ArgCommand) -> (r: Self)
        ensures
            r.spec_command() == command,
    {
        HydratedArgs { command }
    }

    pub fn get_command(&self) -> (r: &ArgCommand)
        ensures
            *r == self.spec_command(),
    {
        &self.command
    }
}

/// Maps the raw command word to the action it selects: `run` serves, `gen`
/// generates at `path`, and anything else is rejected.
pub fn interpret_command(command: &str, path: &str) -> (r: Result<HydratedArgs, ArgParseError>)
    ensures
        r matches Ok(h) <==> (command@ == "run"@ || command@ == "gen"@),
        command@ == "run"@ ==> (r matches Ok(h) && h.spec_command() is Run),
        command@ != "run"@ && command@ == "gen"@ ==> (r matches Ok(h)
            && h.spec_command() matches ArgCommand::Generate(p) && p@ == path@),
{
    if str_eq(command, "run") {
        Ok(HydratedArgs::new(ArgCommand::Run))
    } else if str_eq(command, "gen") {
        Ok(HydratedArgs::new(ArgCommand::Generate(path.to_owned())))
    } else {
        Err(ArgParseError)
    }
}

} // verus!
