//! Command line arguments of the roles: where the configuration file is.
//!
//! The three roles that read a configuration file take the same two options,
//! `-c`/`--config` followed by a path, and `-h`/`--help`. They differ in the
//! path that is used when none is given.

use crate::text::reads_as;
use vstd::prelude::*;

verus! {

/// A role that is started from the command line.
#[derive(Clone, Copy, Debug, PartialEq, Eq, Structural)]
pub enum Role {
    Pool,
    JobDeclaratorClient,
    JobDeclaratorServer,
}

/// The path that a role reads when the command line names none.
pub open spec fn spec_default_config_path(role: Role) -> Seq<char> {
    match role {
        Role::Pool => "pool-config.toml"@,
        Role::JobDeclaratorClient => "jdc-config.toml"@,
        Role::JobDeclaratorServer => "jds-config.toml"@,
    }
}

/// The text that a role shows when asked for help.
pub open spec fn spec_help_message(role: Role) -> Seq<char> {
    match role {
        Role::Pool => "Usage: -h/--help, -c/--config <path|default pool-config.toml>"@,
        Role::JobDeclaratorClient => "Usage: -h/--help, -c/--config <path|default jdc-config.toml>"@,
        Role::JobDeclaratorServer => "Usage: -h/--help, -c/--config <path|default jds-config.toml>"@,
    }
}

/// `arg` asks for a configuration path.
pub open spec fn is_config_flag(arg: Seq<char>) -> bool {
    arg == "-c"@ || arg == "--config"@
}

/// `arg` asks for the help text.
pub open spec fn is_help_flag(arg: Seq<char>) -> bool {
    arg == "-h"@ || arg == "--help"@
}

/// What a command line asks for.
pub enum Request {
    /// Read the configuration at this path.
    Config(Seq<char>),
    /// Show the help text.
    Help,
    /// Nothing in particular: read the default configuration.
    Default,
}

/// What the arguments from position `from` on ask for.
///
/// The first option decides. A config flag takes the argument behind it as
/// the path, whatever it reads; as the last argument it has no path and
/// counts for nothing. Arguments that are no option are passed over.
pub open spec fn spec_request(args: Seq<String>, from: int) -> Request
    decreases args.len() - from,
{
    if from < 0 || from >= args.len() {
        Request::Default
    } else if is_config_flag(args[from]@) {
        if from + 1 < args.len() {
            Request::Config(args[from + 1]@)
        } else {
            Request::Default
        }
    } else if is_help_flag(args[from]@) {
        Request::Help
    } else {
        spec_request(args, from + 1)
    }
}

/// The path that a role reads when the command line names none.
pub fn default_config_path(role: Role) -> (r: &'static str)
    ensures
        r@ == spec_default_config_path(role),
{
    match role {
        Role::Pool => "pool-config.toml",
        Role::JobDeclaratorClient => "jdc-config.toml",
        Role::JobDeclaratorServer => "jds-config.toml",
    }
}

/// The text that a role shows when asked for help.
pub fn help_message(role: Role) -> (r: &'static str)
    ensures
        r@ == spec_help_message(role),
{
    match role {
        Role::Pool => "Usage: -h/--help, -c/--config <path|default pool-config.toml>",
        Role::JobDeclaratorClient => "Usage: -h/--help, -c/--config <path|default jdc-config.toml>",
        Role::JobDeclaratorServer => "Usage: -h/--help, -c/--config <path|default jds-config.toml>",
    }
}

/// Whether `arg` asks for a configuration path.
pub fn config_flag(arg: &String) -> (r: bool)
    ensures
        r == is_config_flag(arg@),
{
    reads_as(arg.as_str(), "-c") || reads_as(arg.as_str(), "--config")
}

/// Whether `arg` asks for the help text.
pub fn help_flag(arg: &String) -> (r: bool)
    ensures
        r == is_help_flag(arg@),
{
    reads_as(arg.as_str(), "-h") || reads_as(arg.as_str(), "--help")
}

/// The arguments of a role, once read.
#[derive(Debug)]
pub struct Args {
    /// The path of the configuration file.
    pub config_path: String,
}

impl Args {
    /// Reads the arguments of `role` from `args`, the program's name
    /// included.
    ///
    /// The result is the path behind the first config flag, or the role's
    /// default path when no option is given. When the help flag comes first,
    /// the help text is returned as the error.
    pub fn from_args(role: Role, args: &Vec<String>) -> (r: Result<Args, String>)
        ensures
            match spec_request(args@, 0) {
                Request::Config(path) => r matches Ok(a) && a.config_path@ == path,
                Request::Default => r matches Ok(a) && a.config_path@ == spec_default_config_path(
                    role,
                ),
                Request::Help => r matches Err(text) && text@ == spec_help_message(role),
            },
    {
        let mut i: usize = 0;
        while i < args.len()
            invariant
                i <= args@.len(),
                spec_request(args@, i as int) == spec_request(args@, 0),
            decreases args@.len() - i,
        {
            if config_flag(&args[i]) {
                if i + 1 < args.len() {
                    return Ok(Args { config_path: args[i + 1].clone() });
                } else {
                    return Ok(Args { config_path: default_config_path(role).to_owned() });
                }
            }
            if help_flag(&args[i]) {
                return Err(help_message(role).to_owned());
            }
            i = i + 1;
        }
        Ok(Args { config_path: default_config_path(role).to_owned() })
    }
}

} // verus!
