//! The line editor: what each key does to the line being typed, to the
//! place in the history and to the memory of the last completion, and what
//! it writes to the terminal.

use crate::completion::{
    candidates, common_prefix, find_candidates, lemma_candidates, lemma_common_prefix,
    longest_common_prefix,
};
use crate::number::spaces;
use crate::text::{chars_eq, chars_of, join, join_strings, string_of, sub_chars};
use vstd::prelude::*;
use vstd::string::StringExecFns;

verus! {

/// A key press, as far as the editor tells keys apart.
#[derive(Clone, Copy, Debug, PartialEq, Eq, Structural)]
pub enum Key {
    /// A character key. Enter is `'\n'` or `'\r'`, Tab is `'\t'`.
    Char(char),
    /// A character key pressed with Ctrl.
    Ctrl(char),
    Backspace,
    Up,
    Down,
    /// Any other key.
    Other,
}

/// What is remembered of a Tab press that could complete nothing more: the
/// line as it was, and the candidates found for it.
#[derive(Clone, Debug, PartialEq, Eq)]
pub struct CompletionMemory {
    pub snapshot: Vec<char>,
    pub candidates: Vec<String>,
}

/// A `CompletionMemory` as a plain value.
pub struct CompletionMemoryView {
    pub snapshot: Seq<char>,
    pub candidates: Seq<Seq<char>>,
}

impl View for CompletionMemory {
    type V = CompletionMemoryView;

    open spec fn view(&self) -> CompletionMemoryView {
        CompletionMemoryView { snapshot: self.snapshot@, candidates: self.candidates.deep_view() }
    }
}

/// Whether the collection of the line goes on.
#[derive(Clone, Debug, PartialEq, Eq)]
pub enum Verdict {
    /// More keys are needed.
    More,
    /// The line is complete; an interrupted line is empty.
    Line(String),
    /// The input has ended: the shell is to leave.
    Quit,
}

/// A `Verdict` as a plain value.
pub enum VerdictView {
    More,
    Line(Seq<char>),
    Quit,
}

impl View for Verdict {
    type V = VerdictView;

    open spec fn view(&self) -> VerdictView {
        match *self {
            Verdict::More => VerdictView::More,
            Verdict::Line(line) => VerdictView::Line(line@),
            Verdict::Quit => VerdictView::Quit,
        }
    }
}

/// What a key press comes to: the text to write to the terminal, and the
/// verdict.
#[derive(Clone, Debug, PartialEq, Eq)]
pub struct Feedback {
    pub output: String,
    pub verdict: Verdict,
}

/// The number of bytes that a character takes in UTF-8.
pub open spec fn utf8_len(c: char) -> nat {
    if (c as u32) < 0x80 {
        1
    } else if (c as u32) < 0x800 {
        2
    } else if (c as u32) < 0x10000 {
        3
    } else {
        4
    }
}

/// The number of bytes that a string takes in UTF-8.
pub open spec fn byte_len(s: Seq<char>) -> nat
    decreases s.len(),
{
    if s.len() == 0 {
        0
    } else {
        byte_len(s.drop_last()) + utf8_len(s.last())
    }
}

/// The text that wipes a line off the terminal: the prompt, a space for
/// each byte of the line, and the prompt again, each from the left edge.
pub open spec fn wipe(line: Seq<char>) -> Seq<char> {
    "\r$ "@ + spaces(byte_len(line)) + "\r$ "@
}

/// The history entry that Up moves to: the newest from outside the history,
/// else the next older one, and the oldest stays. A place beyond the end
/// counts as the newest.
pub open spec fn older(cursor: Option<usize>, len: nat) -> int
    recommends
        len > 0,
{
    match cursor {
        None => len - 1,
        Some(i) => if i == 0 {
            0
        } else if i - 1 < len {
            i - 1
        } else {
            len - 1
        },
    }
}

/// The state of the editor as a plain value: the line typed so far, the
/// place in the history that it was taken from, and the memory of the last
/// completion.
pub struct EditorView {
    pub buffer: Seq<char>,
    pub history_cursor: Option<usize>,
    pub memory: Option<CompletionMemoryView>,
}

/// The state after a key, what is written to the terminal, and the verdict.
pub struct ReactionView {
    pub state: EditorView,
    pub output: Seq<char>,
    pub verdict: VerdictView,
}

impl EditorView {
    /// The reaction that changes nothing but the memory, which is lost.
    pub open spec fn forget(self) -> ReactionView {
        ReactionView {
            state: EditorView { memory: None, ..self },
            output: Seq::empty(),
            verdict: VerdictView::More,
        }
    }

    /// Up: with a history, the line becomes the entry before the one it was
    /// taken from, and is drawn again.
    pub open spec fn up(self, history: Seq<Seq<char>>) -> ReactionView {
        if history.len() == 0 {
            self.forget()
        } else {
            let at = older(self.history_cursor, history.len());
            ReactionView {
                state: EditorView {
                    buffer: history[at],
                    history_cursor: Some(at as usize),
                    memory: None,
                },
                output: wipe(self.buffer) + history[at],
                verdict: VerdictView::More,
            }
        }
    }

    /// Down: a line taken from the history becomes the next newer entry, or
    /// empty after the newest one, and is drawn again.
    pub open spec fn down(self, history: Seq<Seq<char>>) -> ReactionView {
        match self.history_cursor {
            None => self.forget(),
            Some(i) => if i + 1 >= history.len() {
                ReactionView {
                    state: EditorView {
                        buffer: Seq::empty(),
                        history_cursor: None,
                        memory: None,
                    },
                    output: wipe(self.buffer),
                    verdict: VerdictView::More,
                }
            } else {
                ReactionView {
                    state: EditorView {
                        buffer: history[i + 1],
                        history_cursor: Some((i + 1) as usize),
                        memory: None,
                    },
                    output: wipe(self.buffer) + history[i + 1],
                    verdict: VerdictView::More,
                }
            },
        }
    }

    /// Tab: completes the line as a command name.
    ///
    /// Without a candidate the bell rings. A single candidate completes the
    /// line, with a space after it. Several candidates extend the line to
    /// their longest common prefix; where that is the line itself, the first
    /// Tab rings the bell and remembers the candidates, and the next Tab on
    /// the same line lists them, separated by two spaces, and draws the
    /// prompt and the line again.
    pub open spec fn tab(self, executables: Seq<Seq<char>>) -> ReactionView {
        let found = candidates(self.buffer, executables);
        if found.len() == 0 {
            ReactionView { output: "\x07"@, ..self.forget() }
        } else if found.len() == 1 {
            let rest = found[0].skip(self.buffer.len() as int) + " "@;
            ReactionView {
                state: EditorView { buffer: self.buffer + rest, memory: None, ..self },
                output: rest,
                verdict: VerdictView::More,
            }
        } else {
            let common = common_prefix(found);
            if common.len() > self.buffer.len() {
                let rest = common.skip(self.buffer.len() as int);
                ReactionView {
                    state: EditorView { buffer: self.buffer + rest, memory: None, ..self },
                    output: rest,
                    verdict: VerdictView::More,
                }
            } else if self.memory is Some && self.memory->0.snapshot == self.buffer {
                ReactionView {
                    output: "\r\n"@ + join(self.memory->0.candidates, "  "@) + "\r\n"@ + "$ "@
                        + self.buffer,
                    ..self.forget()
                }
            } else {
                ReactionView {
                    state: EditorView {
                        memory: Some(
                            CompletionMemoryView { snapshot: self.buffer, candidates: found },
                        ),
                        ..self
                    },
                    output: "\x07"@,
                    verdict: VerdictView::More,
                }
            }
        }
    }

    /// The reaction to a key.
    ///
    /// Enter ends the line, and Ctrl-C ends it empty. Ctrl-D on an empty
    /// line ends the input and does nothing on any other line. A character
    /// is added to the line and echoed; Backspace takes the last one away.
    /// Both forget the place in the history. Every key but Tab and Ctrl-D
    /// forgets the last completion.
    pub open spec fn press(
        self,
        key: Key,
        history: Seq<Seq<char>>,
        executables: Seq<Seq<char>>,
    ) -> ReactionView {
        match key {
            Key::Ctrl(c) => if c == 'c' {
                ReactionView {
                    state: EditorView { buffer: Seq::empty(), ..self },
                    output: "\r\n"@,
                    verdict: VerdictView::Line(Seq::empty()),
                }
            } else if c == 'd' {
                ReactionView {
                    state: self,
                    output: Seq::empty(),
                    verdict: if self.buffer.len() == 0 {
                        VerdictView::Quit
                    } else {
                        VerdictView::More
                    },
                }
            } else {
                self.forget()
            },
            Key::Char(c) => if c == '\n' || c == '\r' {
                ReactionView {
                    state: self,
                    output: "\r\n"@,
                    verdict: VerdictView::Line(self.buffer),
                }
            } else if c == '\t' {
                self.tab(executables)
            } else {
                ReactionView {
                    state: EditorView {
                        buffer: self.buffer.push(c),
                        history_cursor: None,
                        memory: None,
                    },
                    output: seq![c],
                    verdict: VerdictView::More,
                }
            },
            Key::Backspace => ReactionView {
                state: EditorView {
                    buffer: if self.buffer.len() > 0 {
                        self.buffer.drop_last()
                    } else {
                        self.buffer
                    },
                    history_cursor: None,
                    memory: None,
                },
                output: if self.buffer.len() > 0 {
                    "\x08 \x08"@
                } else {
                    Seq::empty()
                },
                verdict: VerdictView::More,
            },
            Key::Up => self.up(history),
            Key::Down => self.down(history),
            Key::Other => self.forget(),
        }
    }
}

/// Every key but Tab and Ctrl-D that leaves the line open forgets the last
/// completion.
pub proof fn lemma_keys_forget_completion(
    editor: EditorView,
    key: Key,
    history: Seq<Seq<char>>,
    executables: Seq<Seq<char>>,
)
    requires
        key != Key::Char('\t'),
        key != Key::Ctrl('d'),
    ensures
        editor.press(key, history, executables).verdict is More ==> editor.press(
            key,
            history,
            executables,
        ).state.memory is None,
{
}

/// A line that was taken from the history holds the entry that the cursor
/// points to, and the cursor stays inside the history.
pub proof fn lemma_cursor_stays_in_history(
    editor: EditorView,
    key: Key,
    history: Seq<Seq<char>>,
    executables: Seq<Seq<char>>,
)
    requires
        history.len() <= usize::MAX,
        editor.history_cursor matches Some(i) ==> i < history.len(),
    ensures
        editor.press(key, history, executables).state.history_cursor matches Some(i) ==> i
            < history.len(),
        (key == Key::Up || key == Key::Down) ==> (editor.press(
            key,
            history,
            executables,
        ).state.history_cursor matches Some(i) ==> editor.press(
            key,
            history,
            executables,
        ).state.buffer == history[i as int]),
{
}

/// Appends the characters `chars[from..]` to `out`.
fn push_chars(out: &mut String, chars: &Vec<char>, from: usize)
    requires
        from <= chars.len(),
    ensures
        final(out)@ == old(out)@ + chars@.skip(from as int),
{
    let mut i: usize = from;
    while i < chars.len()
        invariant
            from <= i <= chars.len(),
            out@ == old(out)@ + chars@.subrange(from as int, i as int),
        decreases chars.len() - i,
    {
        out.push(chars[i]);
        i = i + 1;
    }
}

/// Appends to `out` the text that wipes `line` off the terminal.
fn push_wipe(out: &mut String, line: &Vec<char>)
    ensures
        final(out)@ == old(out)@ + wipe(line@),
{
    out.append("\r$ ");
    let ghost start = out@;
    let mut i: usize = 0;
    while i < line.len()
        invariant
            i <= line.len(),
            out@ == start + spaces(byte_len(line@.subrange(0, i as int))),
        decreases line.len() - i,
    {
        let n: u32 = line[i] as u32;
        assert(line@.subrange(0, i + 1).drop_last() =~= line@.subrange(0, i as int));
        out.push(' ');
        if n >= 0x80 {
            out.push(' ');
        }
        if n >= 0x800 {
            out.push(' ');
        }
        if n >= 0x10000 {
            out.push(' ');
        }
        i = i + 1;
    }
    assert(line@.subrange(0, i as int) =~= line@);
    out.append("\r$ ");
}

/// The editor of one input line.
pub struct LineEditor {
    buffer: Vec<char>,
    history_cursor: Option<usize>,
    memory: Option<CompletionMemory>,
}

impl View for LineEditor {
    type V = EditorView;

    closed spec fn view(&self) -> EditorView {
        EditorView {
            buffer: self.buffer@,
            history_cursor: self.history_cursor,
            memory: match self.memory {
                Some(m) => Some(m@),
                None => None,
            },
        }
    }
}

impl LineEditor {
    /// The editor of a new line: empty, outside the history, with nothing
    /// remembered.
    pub fn new() -> (editor: LineEditor)
        ensures
            editor@ == (EditorView { buffer: Seq::empty(), history_cursor: None, memory: None }),
    {
        LineEditor { buffer: Vec::new(), history_cursor: None, memory: None }
    }

    /// The line typed so far.
    pub fn buffer(&self) -> (line: String)
        ensures
            line@ == self@.buffer,
    {
        string_of(&self.buffer, 0, self.buffer.len())
    }

    /// The place in the history that the line was taken from, if any.
    pub fn history_cursor(&self) -> (cursor: Option<usize>)
        ensures
            cursor == self@.history_cursor,
    {
        self.history_cursor
    }

    /// Tells whether a completion is remembered.
    pub fn remembers_completion(&self) -> (r: bool)
        ensures
            r == self@.memory is Some,
    {
        self.memory.is_some()
    }

    /// Replaces the line by the history entry `at`, and draws it.
    fn recall(&mut self, history: &[String], at: usize, output: &mut String)
        requires
            at < history.len(),
        ensures
            final(self)@ == (EditorView {
                buffer: history.deep_view()[at as int],
                history_cursor: Some(at),
                memory: None,
            }),
            final(output)@ == old(output)@ + wipe(old(self)@.buffer)
                + history.deep_view()[at as int],
    {
        push_wipe(output, &self.buffer);
        output.append(history[at].as_str());
        self.buffer = chars_of(history[at].as_str());
        self.history_cursor = Some(at);
        self.memory = None;
    }

    /// Extends the line by `text[from..]` and then by `tail`, and echoes
    /// what was added.
    fn extend(&mut self, text: &Vec<char>, from: usize, tail: &str, output: &mut String)
        requires
            from <= text.len(),
        ensures
            final(self)@ == (EditorView {
                buffer: old(self)@.buffer + (text@.skip(from as int) + tail@),
                memory: None,
                ..old(self)@
            }),
            final(output)@ == old(output)@ + (text@.skip(from as int) + tail@),
    {
        let ends = chars_of(tail);
        push_chars(output, text, from);
        push_chars(output, &ends, 0);
        let mut i: usize = from;
        while i < text.len()
            invariant
                from <= i <= text.len(),
                self.buffer@ == old(self).buffer@ + text@.subrange(from as int, i as int),
                self.history_cursor == old(self).history_cursor,
            decreases text.len() - i,
        {
            self.buffer.push(text[i]);
            i = i + 1;
        }
        let ghost mid = self.buffer@;
        let mut k: usize = 0;
        while k < ends.len()
            invariant
                k <= ends.len(),
                self.buffer@ == mid + ends@.subrange(0, k as int),
                self.history_cursor == old(self).history_cursor,
            decreases ends.len() - k,
        {
            self.buffer.push(ends[k]);
            k = k + 1;
        }
        self.memory = None;
        assert(self.buffer@ =~= old(self).buffer@ + (text@.skip(from as int) + tail@));
    }

    /// Completes the line as a command name.
    fn tab(&mut self, executables: &[String], output: &mut String)
        requires
            old(output)@.len() == 0,
        ensures
            final(self)@ == old(self)@.tab(executables.deep_view()).state,
            final(output)@ == old(self)@.tab(executables.deep_view()).output,
    {
        let found = find_candidates(&self.buffer, executables);
        let ghost names = found.deep_view();
        proof {
            lemma_candidates(self.buffer@, executables.deep_view());
        }
        if found.len() == 0 {
            output.append("\x07");
            self.memory = None;
        } else if found.len() == 1 {
            let only = chars_of(found[0].as_str());
            proof {
                assert(names.contains(names[0]));
            }
            let from = self.buffer.len();
            self.extend(&only, from, " ", output);
        } else {
            let common = chars_of(longest_common_prefix(found.as_slice()).as_str());
            proof {
                lemma_common_prefix(names);
            }
            if common.len() > self.buffer.len() {
                let from = self.buffer.len();
                self.extend(&common, from, "", output);
                assert(common@.skip(from as int) + ""@ =~= common@.skip(from as int)) by {
                    reveal_strlit("");
                }
            } else {
                let remembered = match &self.memory {
                    Some(m) => if chars_eq(&m.snapshot, &self.buffer) {
                        Some(join_strings(&m.candidates, "  "))
                    } else {
                        None
                    },
                    None => None,
                };
                match remembered {
                    Some(listing) => {
                        output.append("\r\n");
                        output.append(listing.as_str());
                        output.append("\r\n");
                        output.append("$ ");
                        output.append(self.buffer().as_str());
                        self.memory = None;
                    },
                    None => {
                        output.append("\x07");
                        let snapshot = sub_chars(&self.buffer, 0, self.buffer.len());
                        assert(snapshot@ =~= self.buffer@);
                        self.memory = Some(CompletionMemory { snapshot, candidates: found });
                    },
                }
            }
        }
    }

    /// Takes a key press and returns what to write to the terminal and
    /// whether the line is complete.
    ///
    /// `history` is the log of accepted lines, oldest first. `executables`
    /// are the names of the executables on the search path; they are read
    /// for Tab alone.
    pub fn handle_key(&mut self, key: Key, history: &[String], executables: &[String]) -> (feedback:
        Feedback)
        ensures
            final(self)@ == old(self)@.press(
                key,
                history.deep_view(),
                executables.deep_view(),
            ).state,
            feedback.output@ == old(self)@.press(
                key,
                history.deep_view(),
                executables.deep_view(),
            ).output,
            feedback.verdict@ == old(self)@.press(
                key,
                history.deep_view(),
                executables.deep_view(),
            ).verdict,
    {
        let mut output = String::new();
        let mut verdict = Verdict::More;
        match key {
            Key::Ctrl(c) => {
                if c == 'c' {
                    self.buffer = Vec::new();
                    output.append("\r\n");
                    verdict = Verdict::Line(String::new());
                } else if c == 'd' {
                    if self.buffer.len() == 0 {
                        verdict = Verdict::Quit;
                    }
                } else {
                    self.memory = None;
                }
            },
            Key::Char(c) => {
                if c == '\n' || c == '\r' {
                    output.append("\r\n");
                    verdict = Verdict::Line(self.buffer());
                } else if c == '\t' {
                    self.tab(executables, &mut output);
                } else {
                    self.buffer.push(c);
                    output.push(c);
                    self.history_cursor = None;
                    self.memory = None;
                }
            },
            Key::Backspace => {
                if self.buffer.len() > 0 {
                    self.buffer.pop();
                    output.append("\x08 \x08");
                }
                self.history_cursor = None;
                self.memory = None;
            },
            Key::Up => {
                if history.len() > 0 {
                    let at: usize = match self.history_cursor {
                        None => history.len() - 1,
                        Some(i) => if i == 0 {
                            0
                        } else if i - 1 < history.len() {
                            i - 1
                        } else {
                            history.len() - 1
                        },
                    };
                    self.recall(history, at, &mut output);
                } else {
                    self.memory = None;
                }
            },
            Key::Down => {
                match self.history_cursor {
                    Some(i) => {
                        if i >= history.len() || i + 1 >= history.len() {
                            push_wipe(&mut output, &self.buffer);
                            self.buffer = Vec::new();
                            self.history_cursor = None;
                            self.memory = None;
                        } else {
                            self.recall(history, i + 1, &mut output);
                        }
                    },
                    None => {
                        self.memory = None;
                    },
                }
            },
            Key::Other => {
                self.memory = None;
            },
        }
        Feedback { output, verdict }
    }
}

} // verus!
