use codecrafters_shell::builtins::Builtin;
use codecrafters_shell::command::handle_command;
use codecrafters_shell::host::Host;
use codecrafters_shell::pipeline::{
    execute_pipeline, run_single, stage_exit_code, Action, Event, Orchestrator, PipelinePlan,
    Stage,
};
use codecrafters_shell::ShellStatus;

fn strings(items: &[&str]) -> Vec<String> {
    items.iter().map(|s| s.to_string()).collect()
}

fn stage(program: &str, args: &[&str]) -> Stage {
    Stage { program: program.to_string(), args: strings(args) }
}

fn launch(
    index: usize,
    s: &Stage,
    builtin: Option<Builtin>,
    stdin: Option<i32>,
    stdout: Option<i32>,
) -> Action {
    Action::Launch {
        index,
        program: s.program.clone(),
        args: s.args.clone(),
        builtin,
        stdin,
        stdout,
    }
}

fn three() -> Vec<Stage> {
    vec![stage("seq", &["1", "9"]), stage("grep", &["-v", "5"]), stage("wc", &["-l"])]
}

/// Runs the orchestrator against a scripted system: pipe `k` gets the
/// descriptors `10 + 2k` and `11 + 2k`, stage `i` runs as process `100 + i`.
fn drive(stages: Vec<Stage>, failing_pipe: Option<usize>, failing_stage: Option<usize>) -> Vec<Action> {
    let mut run = Orchestrator::new(stages);
    let mut actions = Vec::new();
    let mut event = Event::Begin;
    let mut pipes: usize = 0;
    loop {
        let action = run.step(event);
        actions.push(action.clone());
        assert!(actions.len() < 1000);
        event = match action {
            Action::CreatePipe => {
                if failing_pipe == Some(pipes) {
                    Event::PipeFailed
                } else {
                    pipes += 1;
                    Event::PipeCreated { read: 8 + 2 * pipes as i32, write: 9 + 2 * pipes as i32 }
                }
            },
            Action::Launch { index, .. } => {
                if failing_stage == Some(index) {
                    Event::LaunchFailed
                } else {
                    Event::Launched { pid: 100 + index as i32 }
                }
            },
            Action::Finish(_) => break,
            _ => Event::Completed,
        };
    }
    assert!(run.is_finished());
    actions
}

fn closes(actions: &[Action]) -> Vec<i32> {
    actions
        .iter()
        .filter_map(|a| match a {
            Action::Close(fd) => Some(*fd),
            _ => None,
        })
        .collect()
}

#[test]
fn reads_a_pipeline_line() {
    assert_eq!(
        execute_pipeline("seq 1 9 | grep -v 5|wc -l"),
        PipelinePlan::Stages(three())
    );
    assert_eq!(
        execute_pipeline("  echo 'a b'  |  cat  "),
        PipelinePlan::Stages(vec![stage("echo", &["a b"]), stage("cat", &[])])
    );
}

#[test]
fn a_bar_splits_even_inside_quotes() {
    assert_eq!(
        execute_pipeline("echo 'a|b'"),
        PipelinePlan::Stages(vec![stage("echo", &["a"]), stage("b", &[])])
    );
}

#[test]
fn a_segment_without_a_command_stops_the_line() {
    for line in ["", "   ", "|", "a |", "| a", "a | | b", "a ||b", "a |   "] {
        assert_eq!(execute_pipeline(line), PipelinePlan::Nothing, "{:?}", line);
    }
}

#[test]
fn a_line_of_one_command_is_single() {
    assert_eq!(execute_pipeline(" ls -l "), PipelinePlan::Single(stage("ls", &["-l"])));
    assert_eq!(execute_pipeline("exit 7"), PipelinePlan::Single(stage("exit", &["7"])));
}

#[test]
fn segments_are_trimmed_before_they_are_read() {
    assert_eq!(
        execute_pipeline("a\\ | b"),
        PipelinePlan::Stages(vec![stage("a", &[]), stage("b", &[])])
    );
}

#[test]
fn a_single_command_runs_with_the_history() {
    let host = Host {
        cwd: Ok("/".to_string()),
        home: None,
        command_candidates: Vec::new(),
        argument_candidates: Vec::new(),
    };
    let log = strings(&["ls", "history"]);
    let d = run_single(stage("exit", &["7"]), &log, &host);
    assert_eq!(d.status, ShellStatus::Exit(7));
    let d = run_single(stage("history", &[]), &log, &host);
    assert_eq!(d.stdout, "    1  ls\n    2  history\n");
    assert_eq!(d.status, ShellStatus::Continue);
    let d = run_single(stage("history", &["1"]), &log, &host);
    assert_eq!(d.stdout, "    2  history\n");
    let d = run_single(stage("history", &[]), &[], &host);
    assert_eq!(d.stdout, "");
}

#[test]
fn a_single_command_is_handled_as_any_command() {
    let host = Host {
        cwd: Ok("/work".to_string()),
        home: Some("/home/user".to_string()),
        command_candidates: Vec::new(),
        argument_candidates: Vec::new(),
    };
    let log = strings(&["a", "b"]);
    let lines: [(&str, &[&str]); 5] = [
        ("history", &[]),
        ("echo", &["hi", ">", "out"]),
        ("exit", &["7"]),
        ("pwd", &[]),
        ("nope", &["x"]),
    ];
    for (program, args) in lines {
        assert_eq!(
            run_single(stage(program, args), &log, &host),
            handle_command(program, strings(args), &log, &host)
        );
    }
}

#[test]
fn three_stages_run_to_the_end() {
    let s = three();
    let expected = vec![
        Action::CreatePipe,
        Action::CreatePipe,
        launch(0, &s[0], None, None, Some(11)),
        launch(1, &s[1], None, Some(10), Some(13)),
        launch(2, &s[2], None, Some(12), None),
        Action::Close(10),
        Action::Close(11),
        Action::Close(12),
        Action::Close(13),
        Action::Wait(100),
        Action::Wait(101),
        Action::Wait(102),
        Action::Finish(ShellStatus::Continue),
    ];
    assert_eq!(drive(three(), None, None), expected);
}

#[test]
fn builtin_stages_are_marked() {
    let stages = vec![stage("echo", &["hi"]), stage("exit", &["7"])];
    let actions = drive(stages.clone(), None, None);
    assert_eq!(
        actions,
        vec![
            Action::CreatePipe,
            launch(0, &stages[0], Some(Builtin::Echo), None, Some(11)),
            launch(1, &stages[1], Some(Builtin::Exit), Some(10), None),
            Action::Close(10),
            Action::Close(11),
            Action::Wait(100),
            Action::Wait(101),
            Action::Finish(ShellStatus::Continue),
        ]
    );
}

#[test]
fn a_failed_pipe_starts_no_stage() {
    assert_eq!(
        drive(three(), Some(1), None),
        vec![
            Action::CreatePipe,
            Action::CreatePipe,
            Action::Report("Failed to create pipe\n".to_string()),
            Action::Close(10),
            Action::Close(11),
            Action::Finish(ShellStatus::Continue),
        ]
    );
    assert_eq!(
        drive(three(), Some(0), None),
        vec![
            Action::CreatePipe,
            Action::Report("Failed to create pipe\n".to_string()),
            Action::Finish(ShellStatus::Continue),
        ]
    );
}

#[test]
fn a_failed_launch_kills_and_closes_without_waiting() {
    let s = three();
    assert_eq!(
        drive(three(), None, Some(2)),
        vec![
            Action::CreatePipe,
            Action::CreatePipe,
            launch(0, &s[0], None, None, Some(11)),
            launch(1, &s[1], None, Some(10), Some(13)),
            launch(2, &s[2], None, Some(12), None),
            Action::Report("Failed to spawn command: wc\n".to_string()),
            Action::Kill(100),
            Action::Kill(101),
            Action::Close(10),
            Action::Close(11),
            Action::Close(12),
            Action::Close(13),
            Action::Finish(ShellStatus::Continue),
        ]
    );
    let actions = drive(three(), None, Some(0));
    assert_eq!(actions[3], Action::Report("Failed to spawn command: seq\n".to_string()));
    assert_eq!(closes(&actions), vec![10, 11, 12, 13]);
    assert!(!actions.iter().any(|a| matches!(a, Action::Kill(_) | Action::Wait(_))));
}

#[test]
fn every_descriptor_is_closed_once_on_every_path() {
    for n in 2..7usize {
        let stages: Vec<Stage> = (0..n).map(|i| stage(&format!("p{}", i), &[])).collect();
        let all: Vec<i32> = (0..2 * (n - 1)).map(|k| 10 + k as i32).collect();
        assert_eq!(closes(&drive(stages.clone(), None, None)), all);
        for failing in 0..n {
            let actions = drive(stages.clone(), None, Some(failing));
            assert_eq!(closes(&actions), all);
            assert_eq!(actions.last(), Some(&Action::Finish(ShellStatus::Continue)));
        }
        for failing in 0..n - 1 {
            let actions = drive(stages.clone(), Some(failing), None);
            assert_eq!(closes(&actions), all[..2 * failing].to_vec());
            assert!(!actions.iter().any(|a| matches!(a, Action::Launch { .. })));
        }
    }
}

#[test]
fn an_unexpected_event_winds_the_run_down() {
    let mut run = Orchestrator::new(three());
    assert_eq!(run.step(Event::Begin), Action::CreatePipe);
    assert_eq!(run.step(Event::PipeCreated { read: 3, write: 4 }), Action::CreatePipe);
    assert_eq!(run.step(Event::Completed), Action::Close(3));
    assert_eq!(run.step(Event::Begin), Action::Close(4));
    assert_eq!(run.step(Event::Completed), Action::Finish(ShellStatus::Continue));
    assert!(run.is_finished());
    assert_eq!(run.step(Event::Begin), Action::Finish(ShellStatus::Continue));
}

#[test]
fn exit_in_a_pipeline_does_not_leave_the_shell() {
    for line in ["exit 7 | cat", "echo hi | exit 7", "exit 1 | exit 2 | exit 3"] {
        let stages = match execute_pipeline(line) {
            PipelinePlan::Stages(stages) => stages,
            other => panic!("{:?} gave {:?}", line, other),
        };
        let actions = drive(stages, None, None);
        assert_eq!(actions.last(), Some(&Action::Finish(ShellStatus::Continue)));
        let finishes = actions.iter().filter(|a| matches!(a, Action::Finish(_))).count();
        assert_eq!(finishes, 1);
    }
}

#[test]
fn short_runs() {
    assert_eq!(drive(Vec::new(), None, None), vec![Action::Finish(ShellStatus::Continue)]);
    let one = vec![stage("ls", &[])];
    assert_eq!(
        drive(one.clone(), None, None),
        vec![
            launch(0, &one[0], None, None, None),
            Action::Wait(100),
            Action::Finish(ShellStatus::Continue)
        ]
    );
}

#[test]
fn exit_codes_of_builtin_stages() {
    assert_eq!(stage_exit_code(ShellStatus::Continue), 0);
    assert_eq!(stage_exit_code(ShellStatus::Exit(7)), 7);
    assert_eq!(stage_exit_code(ShellStatus::Exit(-1)), -1);
}
