//! What happens to a line once it is typed: it joins the history, and it is
//! read as a pipeline or as a single command. Also the history file.

use crate::parser::{tokenize_chars, tokens_of};
use crate::pipeline::{execute_pipeline, plan_of, stage_of, PipelinePlan, PipelinePlanView};
use crate::text::{
    chars_of, lemma_split_nonempty, split, split_chars, string_of, sub_chars, trim, trimmed,
};
use vstd::prelude::*;

verus! {

/// What an accepted line asks for.
#[derive(Clone, Debug, PartialEq, Eq)]
pub enum Submission {
    /// Nothing: the line is blank.
    Nothing,
    /// The line holds a `|`: it is a pipeline.
    Pipeline(PipelinePlan),
    /// One command with its arguments, redirections among them.
    Command { command: String, args: Vec<String> },
}

/// A `Submission` as a plain value.
pub enum SubmissionView {
    Nothing,
    Pipeline(PipelinePlanView),
    Command { command: Seq<char>, args: Seq<Seq<char>> },
}

impl View for Submission {
    type V = SubmissionView;

    open spec fn view(&self) -> SubmissionView {
        match *self {
            Submission::Nothing => SubmissionView::Nothing,
            Submission::Pipeline(plan) => SubmissionView::Pipeline(plan@),
            Submission::Command { command, args } => SubmissionView::Command {
                command: command@,
                args: args.deep_view(),
            },
        }
    }
}

/// What a line asks for, once the whitespace around it is gone: nothing
/// where nothing is left, a pipeline where a `|` is in it, and else the
/// command that its first token names, with the other tokens as arguments.
pub open spec fn submission_of(line: Seq<char>) -> SubmissionView {
    let text = trimmed(line);
    if text.len() == 0 {
        SubmissionView::Nothing
    } else if text.contains('|') {
        SubmissionView::Pipeline(plan_of(text))
    } else {
        let tokens = tokens_of(text);
        if tokens.len() == 0 {
            SubmissionView::Nothing
        } else {
            SubmissionView::Command { command: tokens[0], args: tokens.drop_first() }
        }
    }
}

/// The history after a line is accepted: a line that is not blank is added
/// at the end, without the whitespace around it.
pub open spec fn history_with(history: Seq<Seq<char>>, line: Seq<char>) -> Seq<Seq<char>> {
    if trimmed(line).len() == 0 {
        history
    } else {
        history.push(trimmed(line))
    }
}

/// Tells whether `c` occurs in `chars`.
fn chars_contain(chars: &Vec<char>, c: char) -> (r: bool)
    ensures
        r == chars@.contains(c),
{
    let mut i: usize = 0;
    while i < chars.len()
        invariant
            i <= chars.len(),
            forall|k: int| 0 <= k < i ==> chars@[k] != c,
        decreases chars.len() - i,
    {
        if chars[i] == c {
            return true;
        }
        i = i + 1;
    }
    false
}

/// Accepts a typed line: a line that is not blank joins the history, and is
/// read as a pipeline or as a single command.
pub fn submit(line: &str, history: &mut Vec<String>) -> (submission: Submission)
    ensures
        submission@ == submission_of(line@),
        final(history).deep_view() == history_with(old(history).deep_view(), line@),
{
    let all = chars_of(line);
    let (from, to) = trim(&all, 0, all.len());
    assert(all@.subrange(0, all.len() as int) =~= all@);
    if from == to {
        return Submission::Nothing;
    }
    let text = sub_chars(&all, from, to);
    let entry = string_of(&text, 0, text.len());
    assert(text@.subrange(0, text.len() as int) =~= text@);
    history.push(entry.clone());
    if chars_contain(&text, '|') {
        return Submission::Pipeline(execute_pipeline(entry.as_str()));
    }
    let mut tokens = tokenize_chars(&text);
    if tokens.len() == 0 {
        return Submission::Nothing;
    }
    let ghost all_tokens = tokens.deep_view();
    let command = tokens.remove(0);
    assert(tokens.deep_view() =~= all_tokens.drop_first());
    Submission::Command { command, args: tokens }
}

/// A pipeline line holds at least two segments: it is never read as a
/// single command.
pub proof fn lemma_pipeline_has_stages(line: Seq<char>)
    requires
        line.contains('|'),
    ensures
        split(line, '|').len() >= 2,
        !(plan_of(line) is Single),
    decreases line.len(),
{
    lemma_split_nonempty(line.drop_last(), '|');
    if line.last() != '|' {
        let k = choose|k: int| 0 <= k < line.len() && line[k] == '|';
        assert(line.drop_last()[k] == '|');
        lemma_pipeline_has_stages(line.drop_last());
    }
}

/// A line without a `|` is one segment: it is read as the single command
/// that the segment holds, or as nothing where it holds none.
pub proof fn lemma_line_without_bar_is_single(line: Seq<char>)
    requires
        !line.contains('|'),
    ensures
        split(line, '|') == seq![line],
        plan_of(line) == match stage_of(line) {
            Some(stage) => PipelinePlanView::Single(stage),
            None => PipelinePlanView::Nothing,
        },
    decreases line.len(),
{
    if line.len() > 0 {
        let init = line.drop_last();
        lemma_line_without_bar_is_single(init);
        assert(init.push(line.last()) =~= line);
        assert(seq![init].drop_last().push(line) =~= seq![line]);
    } else {
        assert(line =~= Seq::<char>::empty());
    }
}

/// A line without a carriage return at its end.
pub open spec fn without_cr(line: Seq<char>) -> Seq<char> {
    if line.len() > 0 && line.last() == '\r' {
        line.drop_last()
    } else {
        line
    }
}

/// The `i`-th entry among the lines of a history file: a line that a newline
/// ends comes without the carriage return before the newline, the rest of
/// the text after the last newline as it is.
pub open spec fn entry_at(lines: Seq<Seq<char>>, i: int) -> Seq<char> {
    if i + 1 < lines.len() {
        without_cr(lines[i])
    } else {
        lines[i]
    }
}

/// The entries that a history file holds: one for each line of the text,
/// without its line ending. Text after the last newline is a line too,
/// unless there is none.
pub open spec fn entries_of(content: Seq<char>) -> Seq<Seq<char>> {
    let lines = split(content, '\n');
    let count = if lines.last().len() == 0 {
        lines.len() - 1
    } else {
        lines.len() as int
    };
    Seq::new(count as nat, |i: int| entry_at(lines, i))
}

/// Adds the entries of a history file, given as its content, to the end of
/// the history.
pub fn load_history(history: &mut Vec<String>, content: &str)
    ensures
        final(history).deep_view() == old(history).deep_view() + entries_of(content@),
{
    let lines = split_chars(&chars_of(content), '\n');
    let ghost parts = split(content@, '\n');
    let ghost before = history.deep_view();
    let count: usize = if lines[lines.len() - 1].len() == 0 {
        lines.len() - 1
    } else {
        lines.len()
    };
    let mut i: usize = 0;
    while i < count
        invariant
            i <= count <= lines.len(),
            parts.len() == lines.len(),
            forall|k: int| 0 <= k < parts.len() ==> parts[k] == #[trigger] lines@[k]@,
            history.deep_view() == before + Seq::new(i as nat, |k: int| entry_at(parts, k)),
        decreases count - i,
    {
        let line = &lines[i];
        let ghost sofar = history.deep_view();
        let end: usize = if i + 1 < lines.len() && line.len() > 0 && line[line.len() - 1] == '\r' {
            line.len() - 1
        } else {
            line.len()
        };
        let entry = string_of(line, 0, end);
        assert(entry@ =~= entry_at(parts, i as int));
        history.push(entry);
        assert(history.deep_view() =~= sofar.push(entry_at(parts, i as int)));
        i = i + 1;
    }
}

} // verus!
