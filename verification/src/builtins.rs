//! The commands that the shell implements itself.

use crate::host::{Host, HostAction, HostActionView};
use crate::number::{
    decimal_text, i32_of, parse_i32, parse_usize, push_decimal, push_spaces, right_aligned,
    usize_of,
};
use crate::resolver::{first_executable, get_executable_path, Candidate};
use crate::text::{chars_of, join, join_strings, str_eq};
use crate::ShellStatus;
use vstd::prelude::*;
use vstd::string::StringExecFns;

verus! {

/// The commands implemented inside the shell.
#[derive(Clone, Copy, Debug, PartialEq, Eq, Structural)]
pub enum Builtin {
    Exit,
    Echo,
    Type,
    Pwd,
    Cd,
    History,
}

impl Builtin {
    /// The builtin that a command name stands for, if any.
    pub open spec fn named(name: Seq<char>) -> Option<Builtin> {
        if name == "exit"@ {
            Some(Builtin::Exit)
        } else if name == "echo"@ {
            Some(Builtin::Echo)
        } else if name == "type"@ {
            Some(Builtin::Type)
        } else if name == "pwd"@ {
            Some(Builtin::Pwd)
        } else if name == "cd"@ {
            Some(Builtin::Cd)
        } else if name == "history"@ {
            Some(Builtin::History)
        } else {
            None
        }
    }

    /// Parses a command name: `Ok` for the six builtin names, `Err` for
    /// every other string.
    pub fn from_str(s: &str) -> (r: Result<Builtin, ()>)
        ensures
            r == match Builtin::named(s@) {
                Some(b) => Ok::<Builtin, ()>(b),
                None => Err(()),
            },
    {
        if str_eq(s, "exit") {
            Ok(Builtin::Exit)
        } else if str_eq(s, "echo") {
            Ok(Builtin::Echo)
        } else if str_eq(s, "type") {
            Ok(Builtin::Type)
        } else if str_eq(s, "pwd") {
            Ok(Builtin::Pwd)
        } else if str_eq(s, "cd") {
            Ok(Builtin::Cd)
        } else if str_eq(s, "history") {
            Ok(Builtin::History)
        } else {
            Err(())
        }
    }
}

impl std::str::FromStr for Builtin {
    type Err = ();

    /// Parses a command name, as `Builtin::from_str` does: `Ok` for the six
    /// builtin names, `Err` for every other string.
    fn from_str(s: &str) -> (r: Result<Builtin, ()>)
        ensures
            r == match Builtin::named(s@) {
                Some(b) => Ok::<Builtin, ()>(b),
                None => Err(()),
            },
    {
        Builtin::from_str(s)
    }
}

/// The text that `echo` writes: its arguments separated by single spaces,
/// and a newline.
pub open spec fn echo_text(args: Seq<Seq<char>>) -> Seq<char> {
    join(args, " "@) + "\n"@
}

/// Writes the arguments, separated by single spaces and followed by a
/// newline, to `writer`.
pub fn echo_cmd(args: Vec<String>, writer: &mut String)
    ensures
        final(writer)@ == old(writer)@ + echo_text(args.deep_view()),
{
    let line = join_strings(&args, " ");
    writer.append(line.as_str());
    writer.append("\n");
}

/// What `type` writes to standard output and to standard error, given the
/// search-path probes for its first argument. Without an argument it writes
/// nothing. The name of a builtin is reported as one, whatever the search
/// path holds; any other name is reported with the path of the first
/// executable candidate, or as not found.
pub open spec fn type_report(args: Seq<Seq<char>>, candidates: Seq<Candidate>) -> (
    Seq<char>,
    Seq<char>,
) {
    if args.len() == 0 {
        (Seq::empty(), Seq::empty())
    } else if Builtin::named(args[0]) is Some {
        (args[0] + " is a shell builtin\n"@, Seq::empty())
    } else {
        match first_executable(candidates) {
            Some(i) => (args[0] + " is "@ + candidates[i].path@ + "\n"@, Seq::empty()),
            None => (Seq::empty(), args[0] + ": not found\n"@),
        }
    }
}

/// Tells whether the first argument names a builtin or an executable on the
/// search path. `candidates` are the search-path probes for that argument.
pub fn type_cmd(
    args: Vec<String>,
    stdout: &mut String,
    stderr: &mut String,
    candidates: &Vec<Candidate>,
)
    ensures
        final(stdout)@ == old(stdout)@ + type_report(args.deep_view(), candidates@).0,
        final(stderr)@ == old(stderr)@ + type_report(args.deep_view(), candidates@).1,
{
    if args.len() == 0 {
        return;
    }
    let command = args[0].as_str();
    if Builtin::from_str(command).is_ok() {
        stdout.append(command);
        stdout.append(" is a shell builtin\n");
        return;
    }
    match get_executable_path(candidates) {
        Some(path) => {
            stdout.append(command);
            stdout.append(" is ");
            stdout.append(path.as_str());
            stdout.append("\n");
        },
        None => {
            stderr.append(command);
            stderr.append(": not found\n");
        },
    }
}

/// The result of a builtin: whether the shell goes on, and what is left for
/// the caller to do.
#[derive(Clone, Debug, PartialEq, Eq)]
pub struct Outcome {
    pub status: ShellStatus,
    pub action: HostAction,
}

/// The exit code that `exit` asks for: its first argument where that is an
/// `i32`, and 0 otherwise.
pub open spec fn exit_code(args: Seq<Seq<char>>) -> i32 {
    if args.len() > 0 && i32_of(args[0]) is Some {
        i32_of(args[0])->0
    } else {
        0
    }
}

/// What `pwd` writes to standard output and to standard error.
pub open spec fn pwd_report(cwd: Result<String, String>) -> (Seq<char>, Seq<char>) {
    match cwd {
        Ok(dir) => (dir@ + "\n"@, Seq::empty()),
        Err(cause) => (
            Seq::empty(),
            "pwd: error retrieving current directory: "@ + cause@ + "\n"@,
        ),
    }
}

/// What `cd` writes to standard error, and the directory that it asks the
/// caller to enter. Without an argument it does nothing; `~` stands for the
/// home directory.
pub open spec fn cd_report(args: Seq<Seq<char>>, home: Option<String>) -> (
    Seq<char>,
    HostActionView,
) {
    if args.len() == 0 {
        (Seq::empty(), HostActionView::Nothing)
    } else if args[0] == "~"@ {
        match home {
            Some(dir) => (Seq::empty(), HostActionView::ChangeDir(dir@)),
            None => ("cd: HOME not set\n"@, HostActionView::Nothing),
        }
    } else {
        (Seq::empty(), HostActionView::ChangeDir(args[0]))
    }
}

/// The message for a directory that `cd` could not enter.
pub open spec fn cd_failure_text(dir: Seq<char>) -> Seq<char> {
    "cd: no such file or directory: "@ + dir + "\n"@
}

/// Writes to `stderr` that `cd` could not enter `dir`.
pub fn cd_failure(dir: &str, stderr: &mut String)
    ensures
        final(stderr)@ == old(stderr)@ + cd_failure_text(dir@),
{
    stderr.append("cd: no such file or directory: ");
    stderr.append(dir);
    stderr.append("\n");
}

/// The message for a history file that could not be read.
pub open spec fn history_failure_text(path: Seq<char>, cause: Seq<char>) -> Seq<char> {
    "history: "@ + path + ": "@ + cause + "\n"@
}

/// Writes to `stderr` that the history file `path` could not be read.
pub fn history_failure(path: &str, cause: &str, stderr: &mut String)
    ensures
        final(stderr)@ == old(stderr)@ + history_failure_text(path@, cause@),
{
    stderr.append("history: ");
    stderr.append(path);
    stderr.append(": ");
    stderr.append(cause);
    stderr.append("\n");
}

/// The index of the first history entry that `history` lists: with a limit
/// of `n` the last `n` entries are listed, without one all of them.
pub open spec fn history_start(args: Seq<Seq<char>>, len: nat) -> nat {
    if args.len() > 0 && usize_of(args[0]) is Some && len > usize_of(args[0])->0 {
        (len - usize_of(args[0])->0) as nat
    } else {
        0
    }
}

/// One line of the history listing: the number of the entry, counted from
/// one and right-aligned in five columns, two spaces, and the entry.
pub open spec fn history_line(index: nat, entry: Seq<char>) -> Seq<char> {
    right_aligned(decimal_text(index + 1), 5) + "  "@ + entry + "\n"@
}

/// The history listing from entry `i` on.
pub open spec fn history_listing(history: Seq<Seq<char>>, i: nat) -> Seq<char>
    decreases history.len() - i,
{
    if i >= history.len() {
        Seq::empty()
    } else {
        history_line(i, history[i as int]) + history_listing(history, i + 1)
    }
}

/// What `history` writes to standard output and to standard error, and what
/// it asks of the caller. `-r` with a file name asks for that file to be
/// loaded; any other arguments list the log, the whole of it or its last
/// entries.
pub open spec fn history_report(args: Seq<Seq<char>>, history: Seq<Seq<char>>) -> (
    Seq<char>,
    Seq<char>,
    HostActionView,
) {
    if args.len() > 0 && args[0] == "-r"@ {
        if args.len() > 1 {
            (Seq::empty(), Seq::empty(), HostActionView::LoadHistory(args[1]))
        } else {
            (Seq::empty(), "history: -r requires a filename argument\n"@, HostActionView::Nothing)
        }
    } else {
        (
            history_listing(history, history_start(args, history.len())),
            Seq::empty(),
            HostActionView::Nothing,
        )
    }
}

/// Everything that a builtin does: what it adds to standard output and to
/// standard error, the status it returns and what it leaves to the caller.
pub struct Effect {
    pub stdout: Seq<char>,
    pub stderr: Seq<char>,
    pub status: ShellStatus,
    pub action: HostActionView,
}

impl Builtin {
    /// What running the builtin does, as a function of its arguments, the
    /// history log and what the caller read from its surroundings.
    pub open spec fn effect(
        self,
        args: Seq<Seq<char>>,
        history: Seq<Seq<char>>,
        host: Host,
    ) -> Effect {
        match self {
            Builtin::Exit => Effect {
                stdout: Seq::empty(),
                stderr: Seq::empty(),
                status: ShellStatus::Exit(exit_code(args)),
                action: HostActionView::Nothing,
            },
            Builtin::Echo => Effect {
                stdout: echo_text(args),
                stderr: Seq::empty(),
                status: ShellStatus::Continue,
                action: HostActionView::Nothing,
            },
            Builtin::Type => Effect {
                stdout: type_report(args, host.argument_candidates@).0,
                stderr: type_report(args, host.argument_candidates@).1,
                status: ShellStatus::Continue,
                action: HostActionView::Nothing,
            },
            Builtin::Pwd => Effect {
                stdout: pwd_report(host.cwd).0,
                stderr: pwd_report(host.cwd).1,
                status: ShellStatus::Continue,
                action: HostActionView::Nothing,
            },
            Builtin::Cd => Effect {
                stdout: Seq::empty(),
                stderr: cd_report(args, host.home).0,
                status: ShellStatus::Continue,
                action: cd_report(args, host.home).1,
            },
            Builtin::History => Effect {
                stdout: history_report(args, history).0,
                stderr: history_report(args, history).1,
                status: ShellStatus::Continue,
                action: history_report(args, history).2,
            },
        }
    }
}

/// Appends the history listing from entry `start` on to `stdout`.
fn list_history(history: &[String], start: usize, stdout: &mut String)
    requires
        start <= history.len(),
    ensures
        final(stdout)@ == old(stdout)@ + history_listing(history.deep_view(), start as nat),
{
    let ghost h = history.deep_view();
    let mut i: usize = start;
    while i < history.len()
        invariant
            start <= i <= history.len(),
            h == history.deep_view(),
            stdout@ + history_listing(h, i as nat) == old(stdout)@ + history_listing(
                h,
                start as nat,
            ),
        decreases history.len() - i,
    {
        let mut number = String::new();
        push_decimal(&mut number, i + 1);
        let width = number.as_str().unicode_len();
        if width < 5 {
            push_spaces(stdout, 5 - width);
        }
        stdout.append(number.as_str());
        stdout.append("  ");
        stdout.append(history[i].as_str());
        stdout.append("\n");
        i = i + 1;
    }
}

impl Builtin {
    /// Runs the builtin: appends what it prints to `stdout` and `stderr`, and
    /// returns its status with what is left for the caller to do.
    ///
    /// `exit` returns `Exit` with the code that its first argument gives, or
    /// 0. Every other builtin returns `Continue`. `cd` and `history -r` reach
    /// the file system after the call, through the action that they return;
    /// no builtin starts a program.
    pub fn execute(
        &self,
        args: Vec<String>,
        stdout: &mut String,
        stderr: &mut String,
        history: &[String],
        host: &Host,
    ) -> (r: Outcome)
        ensures
            final(stdout)@ == old(stdout)@ + self.effect(
                args.deep_view(),
                history.deep_view(),
                *host,
            ).stdout,
            final(stderr)@ == old(stderr)@ + self.effect(
                args.deep_view(),
                history.deep_view(),
                *host,
            ).stderr,
            r.status == self.effect(args.deep_view(), history.deep_view(), *host).status,
            r.action@ == self.effect(args.deep_view(), history.deep_view(), *host).action,
            !(r.action is Spawn),
    {
        match self {
            Builtin::Exit => {
                let code: i32 = if args.len() > 0 {
                    match parse_i32(&chars_of(args[0].as_str())) {
                        Some(code) => code,
                        None => 0,
                    }
                } else {
                    0
                };
                Outcome { status: ShellStatus::Exit(code), action: HostAction::Nothing }
            },
            Builtin::Echo => {
                echo_cmd(args, stdout);
                Outcome { status: ShellStatus::Continue, action: HostAction::Nothing }
            },
            Builtin::Type => {
                type_cmd(args, stdout, stderr, &host.argument_candidates);
                Outcome { status: ShellStatus::Continue, action: HostAction::Nothing }
            },
            Builtin::Pwd => {
                match &host.cwd {
                    Ok(dir) => {
                        stdout.append(dir.as_str());
                        stdout.append("\n");
                    },
                    Err(cause) => {
                        stderr.append("pwd: error retrieving current directory: ");
                        stderr.append(cause.as_str());
                        stderr.append("\n");
                    },
                }
                Outcome { status: ShellStatus::Continue, action: HostAction::Nothing }
            },
            Builtin::Cd => {
                let action = if args.len() == 0 {
                    HostAction::Nothing
                } else if str_eq(args[0].as_str(), "~") {
                    match &host.home {
                        Some(dir) => HostAction::ChangeDir(dir.clone()),
                        None => {
                            stderr.append("cd: HOME not set\n");
                            HostAction::Nothing
                        },
                    }
                } else {
                    HostAction::ChangeDir(args[0].clone())
                };
                Outcome { status: ShellStatus::Continue, action }
            },
            Builtin::History => {
                if args.len() > 0 && str_eq(args[0].as_str(), "-r") {
                    if args.len() > 1 {
                        return Outcome {
                            status: ShellStatus::Continue,
                            action: HostAction::LoadHistory(args[1].clone()),
                        };
                    }
                    stderr.append("history: -r requires a filename argument\n");
                    return Outcome { status: ShellStatus::Continue, action: HostAction::Nothing };
                }
                let limit: Option<usize> = if args.len() > 0 {
                    parse_usize(&chars_of(args[0].as_str()))
                } else {
                    None
                };
                let start: usize = match limit {
                    Some(n) => if history.len() > n {
                        history.len() - n
                    } else {
                        0
                    },
                    None => 0,
                };
                list_history(history, start, stdout);
                Outcome { status: ShellStatus::Continue, action: HostAction::Nothing }
            },
        }
    }
}

} // verus!
