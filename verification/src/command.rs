//! The single-command path: redirections are taken out, the command is
//! resolved, a builtin runs at once and an executable is handed to the
//! caller to start.

use crate::builtins::{exit_code, Builtin};
use crate::host::{Host, HostAction, HostActionView};
use crate::redirect::{
    clean_args_of, extract, target_of, target_view, FileTarget, FileTargetView, Stream,
};
use crate::resolver::{first_executable, get_executable_path};
use crate::ShellStatus;
use vstd::prelude::*;
use vstd::string::StringExecFns;

verus! {

/// What handling one command came to.
#[derive(Clone, Debug, PartialEq, Eq)]
pub struct Dispatch {
    /// Whether the shell goes on.
    pub status: ShellStatus,
    /// What the command wrote to its standard output.
    pub stdout: String,
    /// What the command wrote to its standard error.
    pub stderr: String,
    /// What the shell itself reports, on its own standard error.
    pub diagnostics: String,
    /// The file that the command's standard output goes to, if not the
    /// shell's own.
    pub stdout_target: Option<FileTarget>,
    /// The file that the command's standard error goes to, if not the
    /// shell's own.
    pub stderr_target: Option<FileTarget>,
    /// What is left for the caller to do.
    pub action: HostAction,
}

/// A `Dispatch` as a plain value.
pub struct DispatchView {
    pub status: ShellStatus,
    pub stdout: Seq<char>,
    pub stderr: Seq<char>,
    pub diagnostics: Seq<char>,
    pub stdout_target: Option<FileTargetView>,
    pub stderr_target: Option<FileTargetView>,
    pub action: HostActionView,
}

impl View for Dispatch {
    type V = DispatchView;

    open spec fn view(&self) -> DispatchView {
        DispatchView {
            status: self.status,
            stdout: self.stdout@,
            stderr: self.stderr@,
            diagnostics: self.diagnostics@,
            stdout_target: target_view(self.stdout_target),
            stderr_target: target_view(self.stderr_target),
            action: self.action@,
        }
    }
}

/// The report for a name that is neither a builtin nor on the search path.
pub open spec fn not_found_text(command: Seq<char>) -> Seq<char> {
    command + ": command not found\n"@
}

/// The report for an executable that could not be started.
pub open spec fn spawn_failure_text(command: Seq<char>, cause: Seq<char>) -> Seq<char> {
    command + ": error executing command: "@ + cause + "\n"@
}

/// What handling a command comes to, as a function of the command, the
/// history log and what the caller read from its surroundings.
///
/// The redirections leave the arguments first. A builtin name runs the
/// builtin on the arguments that are left; builtins shadow executables. Any
/// other name is started as a program where the search path holds an
/// executable for it, and reported as not found where it does not. Only
/// `exit` gives a status other than `Continue`.
pub open spec fn dispatch_of(
    command: Seq<char>,
    args: Seq<Seq<char>>,
    history: Seq<Seq<char>>,
    host: Host,
) -> DispatchView {
    let clean = clean_args_of(args);
    let stdout_target = target_of(args, Stream::Stdout);
    let stderr_target = target_of(args, Stream::Stderr);
    match Builtin::named(command) {
        Some(builtin) => {
            let effect = builtin.effect(clean, history, host);
            DispatchView {
                status: effect.status,
                stdout: effect.stdout,
                stderr: effect.stderr,
                diagnostics: Seq::empty(),
                stdout_target,
                stderr_target,
                action: effect.action,
            }
        },
        None => DispatchView {
            status: ShellStatus::Continue,
            stdout: Seq::empty(),
            stderr: Seq::empty(),
            diagnostics: if first_executable(host.command_candidates@) is Some {
                Seq::empty()
            } else {
                not_found_text(command)
            },
            stdout_target,
            stderr_target,
            action: if first_executable(host.command_candidates@) is Some {
                HostActionView::Spawn { program: command, args: clean }
            } else {
                HostActionView::Nothing
            },
        },
    }
}

/// Only `exit` leaves the shell: every other command gives `Continue`, and
/// `exit` gives the code that its first argument asks for.
pub proof fn lemma_only_exit_leaves_the_shell(
    command: Seq<char>,
    args: Seq<Seq<char>>,
    history: Seq<Seq<char>>,
    host: Host,
)
    ensures
        dispatch_of(command, args, history, host).status == if command == "exit"@ {
            ShellStatus::Exit(exit_code(clean_args_of(args)))
        } else {
            ShellStatus::Continue
        },
{
}

/// Handles one command: takes the redirections out of `args`, then runs the
/// builtin that `command` names, or asks the caller to start the executable
/// of that name, or reports that there is none.
pub fn handle_command(command: &str, args: Vec<String>, history: &[String], host: &Host) -> (d:
    Dispatch)
    ensures
        d@ == dispatch_of(command@, args.deep_view(), history.deep_view(), *host),
{
    let parts = extract(&args);
    let mut stdout = String::new();
    let mut stderr = String::new();
    let mut diagnostics = String::new();
    match Builtin::from_str(command) {
        Ok(builtin) => {
            let outcome =
                builtin.execute(parts.clean_args, &mut stdout, &mut stderr, history, host);
            Dispatch {
                status: outcome.status,
                stdout,
                stderr,
                diagnostics,
                stdout_target: parts.stdout_target,
                stderr_target: parts.stderr_target,
                action: outcome.action,
            }
        },
        Err(_) => {
            let action = if get_executable_path(&host.command_candidates).is_some() {
                HostAction::Spawn { program: command.to_string(), args: parts.clean_args }
            } else {
                diagnostics.append(command);
                diagnostics.append(": command not found\n");
                HostAction::Nothing
            };
            Dispatch {
                status: ShellStatus::Continue,
                stdout,
                stderr,
                diagnostics,
                stdout_target: parts.stdout_target,
                stderr_target: parts.stderr_target,
                action,
            }
        },
    }
}

/// Writes to `diagnostics` that the program `command` could not be started.
pub fn spawn_failure(command: &str, cause: &str, diagnostics: &mut String)
    ensures
        final(diagnostics)@ == old(diagnostics)@ + spawn_failure_text(command@, cause@),
{
    diagnostics.append(command);
    diagnostics.append(": error executing command: ");
    diagnostics.append(cause);
    diagnostics.append("\n");
}

} // verus!
