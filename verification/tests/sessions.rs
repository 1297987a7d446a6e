use codecrafters_shell::pipeline::{PipelinePlan, Stage};
use codecrafters_shell::session::{load_history, submit, Submission};

fn strings(items: &[&str]) -> Vec<String> {
    items.iter().map(|s| s.to_string()).collect()
}

#[test]
fn blank_lines_do_nothing() {
    let mut history = strings(&["x"]);
    for line in ["", "   ", "\t \u{a0}"] {
        assert_eq!(submit(line, &mut history), Submission::Nothing);
    }
    assert_eq!(history, strings(&["x"]));
}

#[test]
fn a_command_joins_the_history() {
    let mut history = Vec::new();
    assert_eq!(
        submit("  echo 'a b' > out  ", &mut history),
        Submission::Command { command: "echo".to_string(), args: strings(&["a b", ">", "out"]) }
    );
    assert_eq!(
        submit("ls", &mut history),
        Submission::Command { command: "ls".to_string(), args: Vec::new() }
    );
    assert_eq!(history, strings(&["echo 'a b' > out", "ls"]));
}

#[test]
fn a_line_with_a_bar_is_a_pipeline() {
    let mut history = Vec::new();
    assert_eq!(
        submit(" cat f | wc -l ", &mut history),
        Submission::Pipeline(PipelinePlan::Stages(vec![
            Stage { program: "cat".to_string(), args: strings(&["f"]) },
            Stage { program: "wc".to_string(), args: strings(&["-l"]) },
        ]))
    );
    assert_eq!(submit("exit 7 |", &mut history), Submission::Pipeline(PipelinePlan::Nothing));
    assert_eq!(submit("|", &mut history), Submission::Pipeline(PipelinePlan::Nothing));
    assert_eq!(history, strings(&["cat f | wc -l", "exit 7 |", "|"]));
}

#[test]
fn a_pipeline_line_is_never_a_single_command() {
    let mut history = Vec::new();
    for line in ["exit 7 | cat", "a|b", "|a", "a|", "'|'", "exit 7|exit 8"] {
        match submit(line, &mut history) {
            Submission::Pipeline(PipelinePlan::Single(_)) => panic!("{:?}", line),
            Submission::Pipeline(_) => {},
            other => panic!("{:?} gave {:?}", line, other),
        }
    }
}

#[test]
fn a_history_file_is_read_line_by_line() {
    let mut history = strings(&["old"]);
    load_history(&mut history, "echo a\nls -l\r\n\n  spaced  \nlast");
    assert_eq!(history, strings(&["old", "echo a", "ls -l", "", "  spaced  ", "last"]));
    let mut history = Vec::new();
    load_history(&mut history, "a\nb\n");
    assert_eq!(history, strings(&["a", "b"]));
    load_history(&mut history, "");
    assert_eq!(history, strings(&["a", "b"]));
    load_history(&mut history, "\n");
    assert_eq!(history, strings(&["a", "b", ""]));
}

#[test]
fn a_history_file_reads_as_lines_do() {
    for content in ["", "\n", "a", "a\n", "a\r\n", "a\r", "\r\n\r\n", "a\n\nb", "a\r\r\nb\n", "x\ny\r"] {
        let mut history = Vec::new();
        load_history(&mut history, content);
        let expected: Vec<String> = content.lines().map(|l| l.to_string()).collect();
        assert_eq!(history, expected, "{:?}", content);
    }
}
