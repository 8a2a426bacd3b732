//! What the outcome of a remote command means: strict and silent execution,
//! and the probes built on silent execution. The transport itself is the
//! caller's; these functions take what it returned, where `Err` carries the
//! transport's own message.
use vstd::prelude::*;

use crate::text::{contains, contains_str, remove_all, remove_all_str, trim, trim_str};

verus! {

/// The exit status and the captured text of one remote command.
#[derive(Debug)]
pub struct CommandOutcome {
    pub exit_status: u32,
    pub output: String,
}

/// The remote operating system family, as far as it can be told.
#[derive(Debug, Clone, Copy, PartialEq, Eq, Structural)]
pub enum Os {
    Ubuntu,
    Debian,
    Unsupported,
}

/// Why a strictly run command failed.
#[derive(Debug)]
pub enum CommandError {
    /// The transport failed; its message.
    Transport(String),
    /// The command exited with a nonzero status; its output.
    Failed(String),
}

/// The command whose output tells the operating system.
pub const OSINFO_COMMAND: &'static str = "uname -a";

/// The prefix that bash puts before an error of the command it ran.
pub const SHELL_ERROR_PREFIX: &'static str = "bash: line 1: ";

/// The error of `which` when the command could not be run at all.
pub const NOT_INSTALLED: &'static str = "not installed";

/// The family that a version string names: Ubuntu before Debian.
pub open spec fn os_of(version: Seq<char>) -> Os {
    if contains(version, "Ubuntu"@) {
        Os::Ubuntu
    } else if contains(version, "Debian"@) {
        Os::Debian
    } else {
        Os::Unsupported
    }
}

/// What strict execution makes of the transport's result: the outcome where
/// the command exited with 0, an error carrying the output where it did not.
pub open spec fn checked(result: Result<CommandOutcome, String>) -> Result<
    CommandOutcome,
    CommandError,
> {
    match result {
        Ok(o) => if o.exit_status == 0 {
            Ok(o)
        } else {
            Err(CommandError::Failed(o.output))
        },
        Err(e) => Err(CommandError::Transport(e)),
    }
}

/// Classifies a version string such as the output of `uname -a`.
pub fn classify_os(version: &str) -> (r: Os)
    ensures
        r == os_of(version@),
{
    if contains_str(version, "Ubuntu") {
        Os::Ubuntu
    } else if contains_str(version, "Debian") {
        Os::Debian
    } else {
        Os::Unsupported
    }
}

/// The operating system that the output of `OSINFO_COMMAND` names;
/// `Unsupported` where the command could not be run.
pub fn osinfo(result: &Result<CommandOutcome, String>) -> (r: Os)
    ensures
        r == match result {
            Ok(o) => os_of(o.output@),
            Err(_) => Os::Unsupported,
        },
{
    match result {
        Ok(o) => classify_os(o.output.as_str()),
        Err(_) => Os::Unsupported,
    }
}

/// The location printed by a presence check: its trimmed output where it
/// exited with 0; else its trimmed output without the shell's error prefix;
/// `NOT_INSTALLED` where it could not be run.
pub fn which(result: &Result<CommandOutcome, String>) -> (r: Result<String, String>)
    ensures
        match result {
            Ok(o) => if o.exit_status == 0 {
                r matches Ok(s) && s@ == trim(o.output@)
            } else {
                r matches Err(e) && e@ == remove_all(trim(o.output@), SHELL_ERROR_PREFIX@)
            },
            Err(_) => r matches Err(e) && e@ == NOT_INSTALLED@,
        },
{
    match result {
        Ok(o) => {
            let t = trim_str(o.output.as_str());
            if o.exit_status == 0 {
                Ok(t)
            } else {
                proof {
                    reveal_strlit("bash: line 1: ");
                }
                Err(remove_all_str(t.as_str(), SHELL_ERROR_PREFIX))
            }
        },
        Err(_) => Err(NOT_INSTALLED.to_owned()),
    }
}

/// Whether the command exited with 0 and printed something besides whitespace;
/// false where it could not be run.
pub fn some_output(result: &Result<CommandOutcome, String>) -> (r: bool)
    ensures
        r == (result matches Ok(o) && o.exit_status == 0 && trim(o.output@).len() > 0),
        result is Err ==> !r,
{
    match result {
        Ok(o) => {
            if o.exit_status == 0 {
                !trim_str(o.output.as_str()).as_str().is_empty()
            } else {
                false
            }
        },
        Err(_) => false,
    }
}

/// The command that lists `filename`, which succeeds where the file exists.
pub fn file_exists_command(filename: &str) -> (r: String)
    ensures
        r@ == "ls -1 "@ + filename@,
{
    let mut cmd = "ls -1 ".to_owned();
    cmd.append(filename);
    cmd
}

/// Whether the listing of `file_exists_command` exited with 0; false where
/// it could not be run.
pub fn file_exists(result: &Result<CommandOutcome, String>) -> (r: bool)
    ensures
        r == (result matches Ok(o) && o.exit_status == 0),
        result is Err ==> !r,
{
    match result {
        Ok(o) => o.exit_status == 0,
        Err(_) => false,
    }
}

/// Strict execution: the outcome where the command exited with 0; an error
/// carrying its output where it did not, or the transport's error.
pub fn run(result: Result<CommandOutcome, String>) -> (r: Result<CommandOutcome, CommandError>)
    ensures
        r == checked(result),
{
    match result {
        Ok(o) => {
            if o.exit_status == 0 {
                Ok(o)
            } else {
                Err(CommandError::Failed(o.output))
            }
        },
        Err(e) => Err(CommandError::Transport(e)),
    }
}

} // verus!
