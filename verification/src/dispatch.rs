//! Subcommand dispatch: parsing a raw command line into one of the two
//! branches every tool exposes — run the tool standalone, or print its
//! metadata record — plus the suite-level operations the outer
//! command-line runner needs (command list, attempt-parse, redaction).

use vstd::prelude::*;

use crate::errors::FhoError;
use crate::strutil::str_eq;

verus! {

/// The name and description a tool declares for its subcommand.
#[derive(Debug, Clone)]
pub struct CommandInfo {
    pub name: String,
    pub description: String,
}

/// The "metadata" branch: an optional output path for the record.
#[derive(Debug, Clone)]
pub struct MetadataCmd {
    pub output_path: Option<String>,
}

/// The parsed subcommand choice: exactly one branch per invocation.
#[derive(Debug, Clone)]
pub enum FhoHandler {
    /// Run the tool as if under the outer command-line runner; carries
    /// the tool's own raw arguments.
    Standalone(Vec<String>),
    /// Print out the tool's metadata record.
    Metadata(MetadataCmd),
}

/// A fully parsed command line for one tool.
#[derive(Debug, Clone)]
pub struct ToolCommand {
    pub subcommand: FhoHandler,
}

/// The reserved subcommand name every tool exposes.
pub open spec fn metadata_subcommand() -> Seq<char> {
    "metadata"@
}

/// The usage text shown when the command line does not parse.
pub open spec fn usage_text(name: Seq<char>) -> Seq<char> {
    "expected one subcommand: "@ + name + " <args..> | metadata [output_path]"@
}

/// Everything parsing promises: which command lines parse into which
/// branch, and that every failure is a usage early-exit. Exactly one of
/// the two branches is selected per successful parse, never both.
pub open spec fn parse_post(name: Seq<char>, args: Seq<String>, r: Result<ToolCommand, FhoError>) -> bool {
    &&& args.len() == 0 ==> (r matches Err(FhoError::Usage { usage }) && usage@ == usage_text(
        name,
    ))
    &&& args.len() >= 1 && args[0]@ == metadata_subcommand() ==> {
        &&& args.len() == 1 ==> (r matches Ok(t) && t.subcommand matches FhoHandler::Metadata(m)
            && m.output_path is None)
        &&& args.len() == 2 ==> (r matches Ok(t) && t.subcommand matches FhoHandler::Metadata(m)
            && m.output_path matches Some(p) && p@ == args[1]@)
        &&& args.len() >= 3 ==> (r matches Err(FhoError::Usage { usage }) && usage@ == usage_text(
            name,
        ))
    }
    &&& args.len() >= 1 && args[0]@ != metadata_subcommand() && args[0]@ == name ==> (
    r matches Ok(t) && t.subcommand matches FhoHandler::Standalone(rest) && rest@ =~= args.skip(1))
    &&& args.len() >= 1 && args[0]@ != metadata_subcommand() && args[0]@ != name ==> (
    r matches Err(FhoError::Usage { usage }) && usage@ == usage_text(name))
}

impl ToolCommand {
    /// Parses raw argument tokens against the union schema: the tool's
    /// own subcommand (by its declared name) or the fixed "metadata"
    /// subcommand with one optional output-path argument. A failure is
    /// an early exit carrying usage text, never a runtime error.
    pub fn from_args(info: &CommandInfo, args: &Vec<String>) -> (r: Result<ToolCommand, FhoError>)
        ensures
            parse_post(info.name@, args@, r),
    {
        if args.len() == 0 {
            return Err(FhoError::Usage { usage: usage_string(info) });
        }
        if str_eq(args[0].as_str(), "metadata") {
            if args.len() == 1 {
                Ok(ToolCommand { subcommand: FhoHandler::Metadata(MetadataCmd { output_path: None }) })
            } else if args.len() == 2 {
                let path = args[1].clone();
                Ok(
                    ToolCommand {
                        subcommand: FhoHandler::Metadata(MetadataCmd { output_path: Some(path) }),
                    },
                )
            } else {
                Err(FhoError::Usage { usage: usage_string(info) })
            }
        } else if str_eq(args[0].as_str(), info.name.as_str()) {
            let mut rest: Vec<String> = Vec::new();
            let mut i: usize = 1;
            while i < args.len()
                invariant
                    1 <= i <= args@.len(),
                    rest@ =~= args@.subrange(1, i as int),
                decreases args@.len() - i,
            {
                rest.push(args[i].clone());
                proof {
                    assert(rest@ =~= args@.subrange(1, i as int + 1));
                }
                i = i + 1;
            }
            proof {
                assert(rest@ =~= args@.skip(1));
            }
            Ok(ToolCommand { subcommand: FhoHandler::Standalone(rest) })
        } else {
            Err(FhoError::Usage { usage: usage_string(info) })
        }
    }
}

/// Renders the usage text for a tool.
fn usage_string(info: &CommandInfo) -> (r: String)
    ensures
        r@ == usage_text(info.name@),
{
    let mut s = String::new();
    crate::strutil::append_str(&mut s, "expected one subcommand: ");
    crate::strutil::append_str(&mut s, info.name.as_str());
    crate::strutil::append_str(&mut s, " <args..> | metadata [output_path]");
    proof {
        assert(s@ =~= usage_text(info.name@));
    }
    s
}

} // verus!
