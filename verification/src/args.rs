//! Command-line dispatch: which of the four operations a given argument list
//! selects, and with which operands.
//!
//! The first argument (after the program name) picks the operation; an
//! unrecognised or absent first argument selects the listing. Download takes
//! a required remote name and an optional destination, which defaults to a
//! fixed local directory; upload and delete each take one required argument.
//! A required argument that is missing is an error, never a crash.

use vstd::prelude::*;

verus! {

use crate::TransferError;
use crate::text::str_eq;
use vstd::string::StringExecFns;

/// The operation a command line selects, with its operands.
#[derive(Debug)]
pub enum Command {
    /// Print the names of the stored files.
    List,
    /// Fetch `remote` and write it at (or under) `dest`.
    Download { remote: String, dest: String },
    /// Send the local file at `local` to the service.
    Upload { local: String },
    /// Remove `remote` from the service.
    Delete { remote: String },
}

/// The mathematical image of a `Command`.
pub enum SpecCommand {
    List,
    Download { remote: Seq<char>, dest: Seq<char> },
    Upload { local: Seq<char> },
    Delete { remote: Seq<char> },
}

impl View for Command {
    type V = SpecCommand;

    open spec fn view(&self) -> SpecCommand {
        match self {
            Command::List => SpecCommand::List,
            Command::Download { remote, dest } => SpecCommand::Download {
                remote: remote@,
                dest: dest@,
            },
            Command::Upload { local } => SpecCommand::Upload { local: local@ },
            Command::Delete { remote } => SpecCommand::Delete { remote: remote@ },
        }
    }
}

/// The directory a download falls back to when no destination is given.
pub open spec fn spec_default_download_dir() -> Seq<char> {
    "/home/polyface/Desktop/transfer/"@
}

/// The directory a download falls back to when no destination is given.
pub fn default_download_dir() -> (r: String)
    ensures
        r@ == spec_default_download_dir(),
{
    String::from_str("/home/polyface/Desktop/transfer/")
}

/// Which operation an argument list (program name included) selects.
///
/// Mirrors the dispatch table: no argument, the listing aliases `list` and
/// `l`, and any unrecognised argument all select the listing;
/// `download`/`d`, `upload`/`u` and `delete`/`de` each require an operand and
/// fail with `Argument` when it is missing; a download without a destination
/// falls back to the fixed default directory.
pub open spec fn spec_dispatch(args: Seq<Seq<char>>) -> Result<SpecCommand, TransferError> {
    if args.len() <= 1 {
        Ok(SpecCommand::List)
    } else {
        let op = args[1];
        if op == "download"@ || op == "d"@ {
            if args.len() <= 2 {
                Err(TransferError::Argument)
            } else if args.len() <= 3 {
                Ok(SpecCommand::Download { remote: args[2], dest: spec_default_download_dir() })
            } else {
                Ok(SpecCommand::Download { remote: args[2], dest: args[3] })
            }
        } else if op == "upload"@ || op == "u"@ {
            if args.len() <= 2 {
                Err(TransferError::Argument)
            } else {
                Ok(SpecCommand::Upload { local: args[2] })
            }
        } else if op == "delete"@ || op == "de"@ {
            if args.len() <= 2 {
                Err(TransferError::Argument)
            } else {
                Ok(SpecCommand::Delete { remote: args[2] })
            }
        } else {
            Ok(SpecCommand::List)
        }
    }
}

/// Select an operation from the process's argument list.
pub fn parse_args(args: &Vec<String>) -> (r: Result<Command, TransferError>)
    ensures
        match r {
            Ok(c) => spec_dispatch(args.deep_view()) == Ok::<SpecCommand, TransferError>(c@),
            Err(e) => spec_dispatch(args.deep_view()) == Err::<SpecCommand, TransferError>(e),
        },
{
    if args.len() <= 1 {
        return Ok(Command::List);
    }
    let op: &str = args[1].as_str();
    if str_eq(op, "download") || str_eq(op, "d") {
        if args.len() <= 2 {
            return Err(TransferError::Argument);
        }
        let remote = args[2].clone();
        let dest = if args.len() <= 3 {
            default_download_dir()
        } else {
            args[3].clone()
        };
        Ok(Command::Download { remote, dest })
    } else if str_eq(op, "upload") || str_eq(op, "u") {
        if args.len() <= 2 {
            return Err(TransferError::Argument);
        }
        Ok(Command::Upload { local: args[2].clone() })
    } else if str_eq(op, "delete") || str_eq(op, "de") {
        if args.len() <= 2 {
            return Err(TransferError::Argument);
        }
        Ok(Command::Delete { remote: args[2].clone() })
    } else {
        Ok(Command::List)
    }
}

} // verus!
