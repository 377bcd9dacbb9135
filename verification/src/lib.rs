//! A bridge between an HTTP-serving layer and an embedded script
//! interpreter: scripts announce routable functions through a registration
//! registry while they load, a catalog of documents is built from the
//! configuration and that registry, and each request marshals its query
//! string into a typed payload, invokes the bound function, and renders the
//! result.
//!
//! Everything the embedded interpreter or the operating system does is kept
//! behind opaque handles and plain values; the unverified shell around this
//! library performs the actual I/O and interpreter calls and feeds the
//! results back in.

pub mod cli;
pub mod generator;
pub mod pyinterface;
pub mod query;
pub mod reader;
pub mod route_handler;

use vstd::prelude::*;

use crate::cli::ArgCommand;
use crate::cli::HydratedArgs;
use crate::generator::generate_files;
use crate::generator::spec_plan_for;
use crate::generator::FilePlan;

verus! {

/// Plans the generate command at the given path; the shell writes the
/// planned files out.
pub fn handle_generate_command(path: &str) -> (plan: FilePlan)
    ensures
        spec_plan_for(plan, path@),
{
    generate_files(path)
}

/// The decision made from the parsed command line: whether serving should
/// go ahead, and the generation plan to carry out instead, if any.
pub fn handle_cli(args: &HydratedArgs) -> (r: (bool, Option<FilePlan>))
    ensures
        args.spec_command() is Run ==> r.0 == true && r.1 is None,
        args.spec_command() matches ArgCommand::Generate(p) ==> r.0 == false && (
        r.1 matches Some(plan) && spec_plan_for(plan, p@)),
{
    match args.get_command() {
        ArgCommand::Run => (true, None),
        ArgCommand::Generate(path) => {
            let plan = handle_generate_command(path.as_str());
            (false, Some(plan))
        },
    }
}

/// Compares two string slices by their character sequences.
pub fn str_eq(a: &str, b: &str) -> (r: bool)
    ensures
        r == (a@ == b@),
{
    let sa: String = a.to_owned();
    let sb: String = b.to_owned();
    sa == sb
}

} // verus!
