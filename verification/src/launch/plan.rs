//! The description of a process to start.

use crate::strmap::pairs_view;
use crate::text::strings_view;
use vstd::prelude::*;

verus! {

/// A process to start: pure data, which can be compared and shown without
/// starting anything.
#[derive(Clone, Debug, PartialEq, Eq)]
pub struct CommandSpec {
    /// The executable to run.
    pub program: String,
    /// The arguments, in order.
    pub args: Vec<String>,
    /// The working directory.
    pub cwd: Option<String>,
    /// The environment variables to set, in the order of their names.
    pub env: Vec<(String, String)>,
}

/// What a command holds.
pub struct CommandView {
    /// The executable to run.
    pub program: Seq<char>,
    /// The arguments, in order.
    pub args: Seq<Seq<char>>,
    /// The working directory.
    pub cwd: Option<Seq<char>>,
    /// The environment variables to set.
    pub env: Seq<(Seq<char>, Seq<char>)>,
}

impl View for CommandSpec {
    type V = CommandView;

    open spec fn view(&self) -> CommandView {
        CommandView {
            program: self.program@,
            args: strings_view(self.args@),
            cwd: match self.cwd {
                Some(d) => Some(d@),
                None => None,
            },
            env: pairs_view(self.env@),
        }
    }
}

} // verus!
