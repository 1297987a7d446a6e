//! Redirection extraction: separates the redirection operators and their
//! file names from the arguments of a command.

use crate::text::str_eq;
use vstd::prelude::*;

verus! {

/// The standard stream that a redirection diverts.
#[derive(Clone, Copy, Debug, PartialEq, Eq, Structural)]
pub enum Stream {
    Stdout,
    Stderr,
}

/// How the destination file is opened.
#[derive(Clone, Copy, Debug, PartialEq, Eq, Structural)]
pub enum RedirectMode {
    /// The file is created, or emptied if it exists.
    Truncate,
    /// The file is created if missing, and written at its end.
    Append,
}

/// The file that a stream is diverted to.
#[derive(Clone, Debug, PartialEq, Eq)]
pub struct FileTarget {
    pub path: String,
    pub mode: RedirectMode,
}

/// A `FileTarget` as a plain value.
pub struct FileTargetView {
    pub path: Seq<char>,
    pub mode: RedirectMode,
}

impl View for FileTarget {
    type V = FileTargetView;

    open spec fn view(&self) -> FileTargetView {
        FileTargetView { path: self.path@, mode: self.mode }
    }
}

/// The view of an optional target.
pub open spec fn target_view(target: Option<FileTarget>) -> Option<FileTargetView> {
    match target {
        Some(t) => Some(t@),
        None => None,
    }
}

/// The arguments of a command without its redirections, and the files that
/// its standard output and standard error go to.
#[derive(Clone, Debug, PartialEq, Eq)]
pub struct Redirections {
    pub clean_args: Vec<String>,
    pub stdout_target: Option<FileTarget>,
    pub stderr_target: Option<FileTarget>,
}

/// The redirection that an operator token asks for: `>` and `1>` truncate
/// standard output, `>>` and `1>>` append to it, `2>` truncates standard
/// error and `2>>` appends to it. No other token is an operator.
pub open spec fn operator(token: Seq<char>) -> Option<(Stream, RedirectMode)> {
    if token == ">"@ || token == "1>"@ {
        Some((Stream::Stdout, RedirectMode::Truncate))
    } else if token == ">>"@ || token == "1>>"@ {
        Some((Stream::Stdout, RedirectMode::Append))
    } else if token == "2>"@ {
        Some((Stream::Stderr, RedirectMode::Truncate))
    } else if token == "2>>"@ {
        Some((Stream::Stderr, RedirectMode::Append))
    } else {
        None
    }
}

/// The tokens from position `i` on that are neither an operator nor the file
/// name that an operator takes. An operator takes the token after it, whatever
/// that token is; an operator at the very end takes nothing and is dropped.
pub open spec fn clean_from(tokens: Seq<Seq<char>>, i: int) -> Seq<Seq<char>>
    decreases tokens.len() - i,
{
    if i < 0 || i >= tokens.len() {
        Seq::empty()
    } else if operator(tokens[i]) is Some {
        if i + 1 < tokens.len() {
            clean_from(tokens, i + 2)
        } else {
            Seq::empty()
        }
    } else {
        seq![tokens[i]] + clean_from(tokens, i + 1)
    }
}

/// The target that the redirections from position `i` on give to `stream`:
/// that of the last operator for the stream that has a file name.
pub open spec fn target_from(
    tokens: Seq<Seq<char>>,
    i: int,
    stream: Stream,
) -> Option<FileTargetView>
    decreases tokens.len() - i,
{
    if i < 0 || i >= tokens.len() {
        None
    } else {
        match operator(tokens[i]) {
            Some((to, mode)) => {
                if i + 1 >= tokens.len() {
                    None
                } else {
                    let later = target_from(tokens, i + 2, stream);
                    if later is Some || to != stream {
                        later
                    } else {
                        Some(FileTargetView { path: tokens[i + 1], mode })
                    }
                }
            },
            None => target_from(tokens, i + 1, stream),
        }
    }
}

/// The arguments that are left when the redirections are taken out.
pub open spec fn clean_args_of(tokens: Seq<Seq<char>>) -> Seq<Seq<char>> {
    clean_from(tokens, 0)
}

/// The file that the redirections among `tokens` give to `stream`.
pub open spec fn target_of(tokens: Seq<Seq<char>>, stream: Stream) -> Option<FileTargetView> {
    target_from(tokens, 0, stream)
}

/// No redirection operator is left among the clean arguments.
pub proof fn lemma_clean_args_hold_no_operator(tokens: Seq<Seq<char>>, i: int)
    requires
        0 <= i,
    ensures
        forall|k: int|
            0 <= k < clean_from(tokens, i).len() ==> operator(
                #[trigger] clean_from(tokens, i)[k],
            ) is None,
    decreases tokens.len() - i,
{
    if i < tokens.len() {
        if operator(tokens[i]) is Some {
            if i + 1 < tokens.len() {
                lemma_clean_args_hold_no_operator(tokens, i + 2);
            }
        } else {
            lemma_clean_args_hold_no_operator(tokens, i + 1);
        }
    }
}

/// Tokens without an operator pass through extraction unchanged.
pub proof fn lemma_clean_from_without_operators(tokens: Seq<Seq<char>>, i: int)
    requires
        0 <= i <= tokens.len(),
        forall|k: int| i <= k < tokens.len() ==> operator(#[trigger] tokens[k]) is None,
    ensures
        clean_from(tokens, i) == tokens.skip(i),
        target_from(tokens, i, Stream::Stdout) is None,
        target_from(tokens, i, Stream::Stderr) is None,
    decreases tokens.len() - i,
{
    if i < tokens.len() {
        lemma_clean_from_without_operators(tokens, i + 1);
    }
}

/// Extraction leaves nothing to extract: the clean arguments of a command
/// are their own clean arguments, and they hold no redirection.
pub proof fn lemma_extraction_is_idempotent(tokens: Seq<Seq<char>>)
    ensures
        clean_args_of(clean_args_of(tokens)) == clean_args_of(tokens),
        target_of(clean_args_of(tokens), Stream::Stdout) is None,
        target_of(clean_args_of(tokens), Stream::Stderr) is None,
{
    let clean = clean_args_of(tokens);
    lemma_clean_args_hold_no_operator(tokens, 0);
    lemma_clean_from_without_operators(clean, 0);
    assert(clean.skip(0) =~= clean);
}

/// Reads a token as a redirection operator.
pub fn parse_operator(token: &str) -> (r: Option<(Stream, RedirectMode)>)
    ensures
        r == operator(token@),
{
    if str_eq(token, ">") || str_eq(token, "1>") {
        Some((Stream::Stdout, RedirectMode::Truncate))
    } else if str_eq(token, ">>") || str_eq(token, "1>>") {
        Some((Stream::Stdout, RedirectMode::Append))
    } else if str_eq(token, "2>") {
        Some((Stream::Stderr, RedirectMode::Truncate))
    } else if str_eq(token, "2>>") {
        Some((Stream::Stderr, RedirectMode::Append))
    } else {
        None
    }
}

/// The later of two targets for one stream: the newer one where there is one.
pub open spec fn later_wins(
    earlier: Option<FileTargetView>,
    later: Option<FileTargetView>,
) -> Option<FileTargetView> {
    if later is Some {
        later
    } else {
        earlier
    }
}

/// Separates redirections from arguments.
///
/// Each of the six operators takes the token after it as its file name and
/// both leave the argument list; an operator without a token after it is
/// dropped. Every other token stays, in order. Where several operators divert
/// one stream, the last one decides.
pub fn extract(tokens: &Vec<String>) -> (r: Redirections)
    ensures
        r.clean_args.deep_view() == clean_args_of(tokens.deep_view()),
        target_view(r.stdout_target) == target_of(tokens.deep_view(), Stream::Stdout),
        target_view(r.stderr_target) == target_of(tokens.deep_view(), Stream::Stderr),
        forall|k: int|
            0 <= k < r.clean_args.len() ==> operator(#[trigger] r.clean_args.deep_view()[k])
                is None,
{
    let ghost t = tokens.deep_view();
    let mut clean_args: Vec<String> = Vec::new();
    let mut stdout_target: Option<FileTarget> = None;
    let mut stderr_target: Option<FileTarget> = None;
    let mut i: usize = 0;
    while i < tokens.len()
        invariant
            i <= tokens.len(),
            t == tokens.deep_view(),
            clean_args.deep_view() + clean_from(t, i as int) == clean_from(t, 0),
            later_wins(target_view(stdout_target), target_from(t, i as int, Stream::Stdout))
                == target_from(t, 0, Stream::Stdout),
            later_wins(target_view(stderr_target), target_from(t, i as int, Stream::Stderr))
                == target_from(t, 0, Stream::Stderr),
        decreases tokens.len() - i,
    {
        match parse_operator(tokens[i].as_str()) {
            Some((stream, mode)) => {
                if i + 1 < tokens.len() {
                    let target = FileTarget { path: tokens[i + 1].clone(), mode };
                    match stream {
                        Stream::Stdout => {
                            stdout_target = Some(target);
                        },
                        Stream::Stderr => {
                            stderr_target = Some(target);
                        },
                    }
                    i = i + 2;
                } else {
                    i = i + 1;
                }
            },
            None => {
                clean_args.push(tokens[i].clone());
                i = i + 1;
            },
        }
    }
    proof {
        lemma_clean_args_hold_no_operator(t, 0);
    }
    Redirections { clean_args, stdout_target, stderr_target }
}

} // verus!
