//! Command-line arguments of the tool.
use vstd::prelude::*;

use crate::names::{PROVISIONING_MODE_ENTERPRISE, PROVISIONING_MODE_NONE};

verus! {

/// What the tool is asked to do.
#[derive(Clone, Copy, Debug, PartialEq, Eq, Structural)]
pub enum Command {
    /// Query and show the AMT information (no arguments).
    Query,
    /// Show the usage text.
    Help,
    /// Unprovision AMT to the given mode.
    Unprovision { mode: u32 },
}

/// Why the arguments were refused.
#[derive(Clone, Debug, PartialEq, Eq)]
pub enum CliError {
    /// `unprovision` without a mode.
    MissingMode,
    /// `unprovision` with a mode that is not recognised.
    InvalidMode { mode: String },
    /// A first argument that is not a command.
    UnknownCommand { command: String },
}

/// The first argument asks for the usage text.
pub open spec fn is_help_word(a: Seq<char>) -> bool {
    a == "help"@ || a == "--help"@ || a == "-h"@
}

/// The provisioning mode an unprovision mode argument names.
pub open spec fn unprovision_mode_spec(a: Seq<char>) -> Option<u32> {
    if a == "0"@ || a == "none"@ {
        Some(PROVISIONING_MODE_NONE)
    } else if a == "1"@ || a == "enterprise"@ {
        Some(PROVISIONING_MODE_ENTERPRISE)
    } else {
        None
    }
}

/// `s` holds the text of `lit`.
fn is_word(s: &String, lit: &str) -> (b: bool)
    ensures
        b == (s@ == lit@),
{
    let w: String = lit.to_owned();
    s.eq(&w)
}

/// Reads the mode argument of `unprovision`: `0` or `none`, `1` or
/// `enterprise`.
pub fn parse_unprovision_mode(arg: &String) -> (m: Option<u32>)
    ensures
        m == unprovision_mode_spec(arg@),
{
    if is_word(arg, "0") || is_word(arg, "none") {
        Some(PROVISIONING_MODE_NONE)
    } else if is_word(arg, "1") || is_word(arg, "enterprise") {
        Some(PROVISIONING_MODE_ENTERPRISE)
    } else {
        None
    }
}

/// Reads the command line (`args[0]` is the program name).
pub fn parse_args(args: &Vec<String>) -> (r: Result<Command, CliError>)
    ensures
        args@.len() <= 1 ==> r == Ok::<Command, CliError>(Command::Query),
        args@.len() > 1 && is_help_word(args@[1]@) ==> r == Ok::<Command, CliError>(Command::Help),
        args@.len() > 1 && !is_help_word(args@[1]@) && args@[1]@ == "unprovision"@ ==> {
            if args@.len() < 3 {
                r == Err::<Command, CliError>(CliError::MissingMode)
            } else {
                match unprovision_mode_spec(args@[2]@) {
                    Some(mode) => r == Ok::<Command, CliError>(Command::Unprovision { mode }),
                    None => r matches Err(CliError::InvalidMode { mode }) && mode@ == args@[2]@,
                }
            }
        },
        args@.len() > 1 && !is_help_word(args@[1]@) && args@[1]@ != "unprovision"@ ==> (r matches Err(
            CliError::UnknownCommand { command },
        ) && command@ == args@[1]@),
{
    if args.len() <= 1 {
        return Ok(Command::Query);
    }
    let first = &args[1];
    if is_word(first, "help") || is_word(first, "--help") || is_word(first, "-h") {
        return Ok(Command::Help);
    }
    if is_word(first, "unprovision") {
        if args.len() < 3 {
            return Err(CliError::MissingMode);
        }
        match parse_unprovision_mode(&args[2]) {
            Some(mode) => Ok(Command::Unprovision { mode }),
            None => Err(CliError::InvalidMode { mode: args[2].clone() }),
        }
    } else {
        Err(CliError::UnknownCommand { command: first.clone() })
    }
}

/// `help`, `--help` and `-h` ask for the usage text; `0` and `none` name
/// mode 0 (none), `1` and `enterprise` name mode 1 (enterprise); no other
/// word names a mode.
pub proof fn lemma_command_words(a: Seq<char>)
    ensures
        is_help_word("help"@),
        is_help_word("--help"@),
        is_help_word("-h"@),
        unprovision_mode_spec("0"@) == Some(0u32),
        unprovision_mode_spec("none"@) == Some(0u32),
        unprovision_mode_spec("1"@) == Some(1u32),
        unprovision_mode_spec("enterprise"@) == Some(1u32),
        a != "0"@ && a != "none"@ && a != "1"@ && a != "enterprise"@ ==> unprovision_mode_spec(a)
            is None,
        a != "help"@ && a != "--help"@ && a != "-h"@ ==> !is_help_word(a),
{
    reveal_strlit("0");
    reveal_strlit("none");
    reveal_strlit("1");
    reveal_strlit("enterprise");
    assert("1"@[0] != "0"@[0]);
    assert("1"@.len() != "none"@.len());
    assert("enterprise"@.len() != "0"@.len());
    assert("enterprise"@.len() != "none"@.len());
}

} // verus!
