use codecrafters_shell::editor::{Feedback, Key, LineEditor, Verdict};
use codecrafters_shell::session::submit;

fn strings(items: &[&str]) -> Vec<String> {
    items.iter().map(|s| s.to_string()).collect()
}

fn more(output: &str) -> Feedback {
    Feedback { output: output.to_string(), verdict: Verdict::More }
}

fn typed(text: &str) -> LineEditor {
    let mut editor = LineEditor::new();
    for c in text.chars() {
        assert_eq!(editor.handle_key(Key::Char(c), &[], &[]), more(&c.to_string()));
    }
    editor
}

#[test]
fn a_new_editor_is_empty() {
    let editor = LineEditor::new();
    assert_eq!(editor.buffer(), "");
    assert_eq!(editor.history_cursor(), None);
    assert!(!editor.remembers_completion());
}

#[test]
fn characters_are_added_and_echoed() {
    let mut editor = LineEditor::new();
    assert_eq!(editor.handle_key(Key::Char('l'), &[], &[]), more("l"));
    assert_eq!(editor.handle_key(Key::Char('s'), &[], &[]), more("s"));
    assert_eq!(editor.handle_key(Key::Char(' '), &[], &[]), more(" "));
    assert_eq!(editor.handle_key(Key::Char('é'), &[], &[]), more("é"));
    assert_eq!(editor.buffer(), "ls é");
}

#[test]
fn backspace_takes_the_last_character_away() {
    let mut editor = typed("ab");
    assert_eq!(editor.handle_key(Key::Backspace, &[], &[]), more("\x08 \x08"));
    assert_eq!(editor.buffer(), "a");
    assert_eq!(editor.handle_key(Key::Backspace, &[], &[]), more("\x08 \x08"));
    assert_eq!(editor.buffer(), "");
    assert_eq!(editor.handle_key(Key::Backspace, &[], &[]), more(""));
    assert_eq!(editor.buffer(), "");
}

#[test]
fn enter_accepts_the_line() {
    for enter in ['\n', '\r'] {
        let mut editor = typed("echo hi");
        assert_eq!(
            editor.handle_key(Key::Char(enter), &[], &[]),
            Feedback { output: "\r\n".to_string(), verdict: Verdict::Line("echo hi".to_string()) }
        );
    }
    let mut editor = LineEditor::new();
    assert_eq!(
        editor.handle_key(Key::Char('\n'), &[], &[]),
        Feedback { output: "\r\n".to_string(), verdict: Verdict::Line(String::new()) }
    );
}

#[test]
fn interrupt_discards_the_line() {
    let mut editor = typed("echo hi");
    assert_eq!(
        editor.handle_key(Key::Ctrl('c'), &[], &[]),
        Feedback { output: "\r\n".to_string(), verdict: Verdict::Line(String::new()) }
    );
    assert_eq!(editor.buffer(), "");
}

#[test]
fn end_of_input_counts_on_an_empty_line_only() {
    let mut editor = LineEditor::new();
    assert_eq!(
        editor.handle_key(Key::Ctrl('d'), &[], &[]),
        Feedback { output: String::new(), verdict: Verdict::Quit }
    );
    let mut editor = typed("x");
    assert_eq!(editor.handle_key(Key::Ctrl('d'), &[], &[]), more(""));
    assert_eq!(editor.buffer(), "x");
}

#[test]
fn other_keys_change_nothing() {
    let mut editor = typed("x");
    assert_eq!(editor.handle_key(Key::Other, &[], &[]), more(""));
    assert_eq!(editor.handle_key(Key::Ctrl('a'), &[], &[]), more(""));
    assert_eq!(editor.buffer(), "x");
}

#[test]
fn history_navigation() {
    let mut history = Vec::new();
    for line in ["a", "b", "c"] {
        submit(line, &mut history);
    }
    assert_eq!(history, strings(&["a", "b", "c"]));
    let mut editor = LineEditor::new();
    assert_eq!(editor.handle_key(Key::Up, &history, &[]), more("\r$ \r$ c"));
    assert_eq!(editor.handle_key(Key::Up, &history, &[]), more("\r$  \r$ b"));
    assert_eq!(editor.handle_key(Key::Up, &history, &[]), more("\r$  \r$ a"));
    assert_eq!(editor.buffer(), "a");
    assert_eq!(editor.history_cursor(), Some(0));
    assert_eq!(editor.handle_key(Key::Down, &history, &[]), more("\r$  \r$ b"));
    assert_eq!(editor.buffer(), "b");
    assert_eq!(editor.history_cursor(), Some(1));
    assert_eq!(editor.handle_key(Key::Down, &history, &[]), more("\r$  \r$ c"));
    assert_eq!(editor.buffer(), "c");
    assert_eq!(editor.handle_key(Key::Down, &history, &[]), more("\r$  \r$ "));
    assert_eq!(editor.buffer(), "");
    assert_eq!(editor.history_cursor(), None);
    assert_eq!(editor.handle_key(Key::Down, &history, &[]), more(""));
}

#[test]
fn up_stays_at_the_oldest_entry() {
    let history = strings(&["first", "second"]);
    let mut editor = LineEditor::new();
    editor.handle_key(Key::Up, &history, &[]);
    editor.handle_key(Key::Up, &history, &[]);
    assert_eq!(editor.handle_key(Key::Up, &history, &[]), more("\r$      \r$ first"));
    assert_eq!(editor.buffer(), "first");
    assert_eq!(editor.history_cursor(), Some(0));
}

#[test]
fn arrows_without_history_do_nothing() {
    let mut editor = typed("x");
    assert_eq!(editor.handle_key(Key::Up, &[], &[]), more(""));
    assert_eq!(editor.handle_key(Key::Down, &[], &[]), more(""));
    assert_eq!(editor.buffer(), "x");
    assert_eq!(editor.history_cursor(), None);
}

#[test]
fn the_typed_line_is_wiped_byte_by_byte() {
    let history = strings(&["ls"]);
    let mut editor = typed("aé✓😀");
    assert_eq!(editor.handle_key(Key::Up, &history, &[]), more("\r$           \r$ ls"));
}

#[test]
fn typing_leaves_the_history() {
    let history = strings(&["a", "b"]);
    let mut editor = LineEditor::new();
    editor.handle_key(Key::Up, &history, &[]);
    editor.handle_key(Key::Up, &history, &[]);
    assert_eq!(editor.history_cursor(), Some(0));
    assert_eq!(editor.handle_key(Key::Char('x'), &history, &[]), more("x"));
    assert_eq!(editor.buffer(), "ax");
    assert_eq!(editor.history_cursor(), None);
    assert_eq!(editor.handle_key(Key::Up, &history, &[]), more("\r$   \r$ b"));
    editor.handle_key(Key::Backspace, &history, &[]);
    assert_eq!(editor.history_cursor(), None);
}

#[test]
fn a_cursor_beyond_a_shorter_history_counts_as_newest() {
    let long = strings(&["a", "b", "c", "d"]);
    let short = strings(&["a", "b"]);
    let mut editor = LineEditor::new();
    editor.handle_key(Key::Up, &long, &[]);
    assert_eq!(editor.history_cursor(), Some(3));
    assert_eq!(editor.handle_key(Key::Up, &short, &[]), more("\r$  \r$ b"));
    assert_eq!(editor.history_cursor(), Some(1));
}

#[test]
fn two_tabs_list_the_candidates() {
    let mut editor = typed("e");
    assert_eq!(editor.handle_key(Key::Char('\t'), &[], &[]), more("\x07"));
    assert!(editor.remembers_completion());
    assert_eq!(editor.buffer(), "e");
    assert_eq!(editor.handle_key(Key::Char('\t'), &[], &[]), more("\r\necho  exit\r\n$ e"));
    assert!(!editor.remembers_completion());
    assert_eq!(editor.buffer(), "e");
    assert_eq!(editor.handle_key(Key::Char('\t'), &[], &[]), more("\x07"));
}

#[test]
fn a_key_between_two_tabs_forgets_the_candidates() {
    for key in [Key::Other, Key::Up, Key::Down, Key::Ctrl('x')] {
        let mut editor = typed("e");
        assert_eq!(editor.handle_key(Key::Char('\t'), &[], &[]), more("\x07"));
        editor.handle_key(key, &[], &[]);
        assert!(!editor.remembers_completion());
        assert_eq!(editor.handle_key(Key::Char('\t'), &[], &[]), more("\x07"));
    }
    let mut editor = typed("e");
    editor.handle_key(Key::Char('\t'), &[], &[]);
    editor.handle_key(Key::Char('x'), &[], &[]);
    editor.handle_key(Key::Backspace, &[], &[]);
    assert_eq!(editor.buffer(), "e");
    assert_eq!(editor.handle_key(Key::Char('\t'), &[], &[]), more("\x07"));
}

#[test]
fn end_of_input_on_a_typed_line_keeps_the_candidates() {
    let mut editor = typed("e");
    assert_eq!(editor.handle_key(Key::Char('\t'), &[], &[]), more("\x07"));
    assert_eq!(editor.handle_key(Key::Ctrl('d'), &[], &[]), more(""));
    assert_eq!(editor.handle_key(Key::Char('\t'), &[], &[]), more("\r\necho  exit\r\n$ e"));
}

#[test]
fn the_listing_is_the_one_remembered() {
    let mut editor = typed("e");
    editor.handle_key(Key::Char('\t'), &[], &[]);
    let later = strings(&["env", "expr"]);
    assert_eq!(editor.handle_key(Key::Char('\t'), &[], &later), more("\r\necho  exit\r\n$ e"));
}

#[test]
fn a_single_candidate_completes_with_a_space() {
    let mut editor = typed("ec");
    assert_eq!(editor.handle_key(Key::Char('\t'), &[], &[]), more("ho "));
    assert_eq!(editor.buffer(), "echo ");
    let mut editor = typed("gr");
    let executables = strings(&["ls", "grep", "grep"]);
    assert_eq!(editor.handle_key(Key::Char('\t'), &[], &executables), more("ep "));
    assert_eq!(editor.buffer(), "grep ");
    let mut editor = typed("cd");
    assert_eq!(editor.handle_key(Key::Char('\t'), &[], &[]), more(" "));
    assert_eq!(editor.buffer(), "cd ");
}

#[test]
fn no_candidate_rings_the_bell() {
    let mut editor = typed("zz");
    assert_eq!(editor.handle_key(Key::Char('\t'), &[], &strings(&["ls"])), more("\x07"));
    assert_eq!(editor.buffer(), "zz");
    assert!(!editor.remembers_completion());
}

#[test]
fn several_candidates_extend_to_their_common_prefix() {
    let executables = strings(&["xyz_foo", "xyz_foo_bar", "xyz_foo_bar_baz"]);
    let mut editor = typed("xyz_");
    assert_eq!(editor.handle_key(Key::Char('\t'), &[], &executables), more("foo"));
    assert_eq!(editor.buffer(), "xyz_foo");
    assert!(!editor.remembers_completion());
    assert_eq!(editor.handle_key(Key::Char('\t'), &[], &executables), more("\x07"));
    assert_eq!(
        editor.handle_key(Key::Char('\t'), &[], &executables),
        more("\r\nxyz_foo  xyz_foo_bar  xyz_foo_bar_baz\r\n$ xyz_foo")
    );
    editor.handle_key(Key::Char('_'), &[], &executables);
    assert_eq!(editor.handle_key(Key::Char('\t'), &[], &executables), more("bar"));
    assert_eq!(editor.buffer(), "xyz_foo_bar");
}

#[test]
fn completion_keeps_the_place_in_the_history() {
    let history = strings(&["ec"]);
    let mut editor = LineEditor::new();
    editor.handle_key(Key::Up, &history, &[]);
    assert_eq!(editor.handle_key(Key::Char('\t'), &history, &[]), more("ho "));
    assert_eq!(editor.history_cursor(), Some(0));
}

#[test]
fn an_empty_line_completes_to_every_command() {
    let mut editor = LineEditor::new();
    assert_eq!(editor.handle_key(Key::Char('\t'), &[], &strings(&["ls"])), more("\x07"));
    assert_eq!(
        editor.handle_key(Key::Char('\t'), &[], &strings(&["ls"])),
        more("\r\ncd  echo  exit  history  ls  pwd  type\r\n$ ")
    );
}
