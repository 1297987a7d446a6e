use codecrafters_shell::command::{handle_command, spawn_failure, Dispatch};
use codecrafters_shell::host::{Host, HostAction};
use codecrafters_shell::redirect::{FileTarget, RedirectMode};
use codecrafters_shell::resolver::Candidate;
use codecrafters_shell::ShellStatus;

fn strings(items: &[&str]) -> Vec<String> {
    items.iter().map(|s| s.to_string()).collect()
}

fn host(command_candidates: Vec<Candidate>, argument_candidates: Vec<Candidate>) -> Host {
    Host {
        cwd: Ok("/work".to_string()),
        home: Some("/home/user".to_string()),
        command_candidates,
        argument_candidates,
    }
}

fn executable(path: &str) -> Candidate {
    Candidate { path: path.to_string(), is_file: true, mode: 0o755 }
}

fn plain() -> Dispatch {
    Dispatch {
        status: ShellStatus::Continue,
        stdout: String::new(),
        stderr: String::new(),
        diagnostics: String::new(),
        stdout_target: None,
        stderr_target: None,
        action: HostAction::Nothing,
    }
}

#[test]
fn exit_yields_its_code() {
    let d = handle_command("exit", strings(&["7"]), &[], &host(Vec::new(), Vec::new()));
    assert_eq!(d, Dispatch { status: ShellStatus::Exit(7), ..plain() });
}

#[test]
fn builtin_output_and_redirection() {
    let d = handle_command(
        "echo",
        strings(&["hi", ">", "out.txt", "there"]),
        &[],
        &host(Vec::new(), Vec::new()),
    );
    assert_eq!(
        d,
        Dispatch {
            stdout: "hi there\n".to_string(),
            stdout_target: Some(FileTarget {
                path: "out.txt".to_string(),
                mode: RedirectMode::Truncate,
            }),
            ..plain()
        }
    );
}

#[test]
fn builtins_shadow_programs() {
    let d = handle_command("pwd", Vec::new(), &[], &host(vec![executable("/bin/pwd")], Vec::new()));
    assert_eq!(d, Dispatch { stdout: "/work\n".to_string(), ..plain() });
}

#[test]
fn type_sees_the_argument_left_after_redirections() {
    let d = handle_command(
        "type",
        strings(&["2>>", "err.log", "ls"]),
        &[],
        &host(Vec::new(), vec![executable("/bin/ls")]),
    );
    assert_eq!(
        d,
        Dispatch {
            stdout: "ls is /bin/ls\n".to_string(),
            stderr_target: Some(FileTarget {
                path: "err.log".to_string(),
                mode: RedirectMode::Append,
            }),
            ..plain()
        }
    );
    let d = handle_command("type", strings(&["nope"]), &[], &host(Vec::new(), Vec::new()));
    assert_eq!(d, Dispatch { stderr: "nope: not found\n".to_string(), ..plain() });
}

#[test]
fn history_sees_the_log() {
    let log = strings(&["ls", "history 1"]);
    let d = handle_command("history", strings(&["1"]), &log, &host(Vec::new(), Vec::new()));
    assert_eq!(d, Dispatch { stdout: "    2  history 1\n".to_string(), ..plain() });
}

#[test]
fn cd_is_left_to_the_caller() {
    let d = handle_command("cd", strings(&["~"]), &[], &host(Vec::new(), Vec::new()));
    assert_eq!(d, Dispatch { action: HostAction::ChangeDir("/home/user".to_string()), ..plain() });
}

#[test]
fn programs_are_started_with_clean_arguments() {
    let d = handle_command(
        "grep",
        strings(&["-n", "x", ">>", "out", "file", "2>", "err"]),
        &[],
        &host(vec![Candidate { path: "/x/grep".to_string(), is_file: true, mode: 0o644 },
            executable("/bin/grep")], Vec::new()),
    );
    assert_eq!(
        d,
        Dispatch {
            stdout_target: Some(FileTarget { path: "out".to_string(), mode: RedirectMode::Append }),
            stderr_target: Some(FileTarget {
                path: "err".to_string(),
                mode: RedirectMode::Truncate,
            }),
            action: HostAction::Spawn {
                program: "grep".to_string(),
                args: strings(&["-n", "x", "file"]),
            },
            ..plain()
        }
    );
}

#[test]
fn unknown_commands_are_reported() {
    let not_executable = Candidate { path: "/x/foo".to_string(), is_file: true, mode: 0o644 };
    let d = handle_command(
        "foo",
        strings(&["a", ">", "out"]),
        &[],
        &host(vec![not_executable], vec![executable("/bin/a")]),
    );
    assert_eq!(
        d,
        Dispatch {
            diagnostics: "foo: command not found\n".to_string(),
            stdout_target: Some(FileTarget {
                path: "out".to_string(),
                mode: RedirectMode::Truncate,
            }),
            ..plain()
        }
    );
}

#[test]
fn only_exit_leaves_the_shell() {
    let h = host(vec![executable("/bin/x")], Vec::new());
    for command in ["echo", "type", "pwd", "cd", "history", "x", "unknown", ""] {
        let d = handle_command(command, strings(&["7"]), &[], &h);
        assert_eq!(d.status, ShellStatus::Continue, "{}", command);
    }
}

#[test]
fn spawn_failures_are_reported() {
    let mut text = String::new();
    spawn_failure("prog", "Permission denied (os error 13)", &mut text);
    assert_eq!(text, "prog: error executing command: Permission denied (os error 13)\n");
}
