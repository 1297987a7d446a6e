//! The core of an interactive command shell: tokenizing, command resolution,
//! redirection extraction, pipeline planning and line editing, each stated as
//! a contract over plain values.

use vstd::prelude::*;

pub mod builtins;
pub mod command;
pub mod completion;
pub mod editor;
pub mod host;
pub mod number;
pub mod parser;
pub mod pipeline;
pub mod redirect;
pub mod resolver;
pub mod session;
pub mod text;

pub use builtins::Builtin;
pub use command::handle_command;
pub use parser::tokenize;
pub use pipeline::execute_pipeline;
pub use resolver::get_all_executables;

verus! {

/// What the caller does after a command has run.
#[derive(Clone, Copy, Debug, PartialEq, Eq, Structural)]
pub enum ShellStatus {
    /// Keep reading commands.
    Continue,
    /// Leave the shell with this exit code.
    Exit(i32),
}

} // verus!
