//! The vocabulary shared by the step functions: host commands, their
//! outcomes, and the answer a step function gives.
//!
//! A step function is handed everything observed so far and answers with the
//! next effect to perform, with completion, or with the error that ends the
//! operation. It performs nothing itself.
use vstd::prelude::*;
use vstd::string::*;
use crate::{ErrorView, ExecutionError};

verus! {

/// The character sequences of a list of strings.
pub open spec fn texts(v: Seq<String>) -> Seq<Seq<char>> {
    Seq::new(v.len(), |i: int| v[i]@)
}

/// A host command: the program and its arguments.
#[derive(Debug, Clone)]
pub struct Command {
    pub program: String,
    pub args: Vec<String>,
}

/// A command as contracts see it.
pub struct CommandView {
    pub program: Seq<char>,
    pub args: Seq<Seq<char>>,
}

impl View for Command {
    type V = CommandView;

    open spec fn view(&self) -> CommandView {
        CommandView { program: self.program@, args: texts(self.args@) }
    }
}

/// How running a host command ended.
#[derive(Debug, Clone)]
pub enum CommandOutcome {
    /// The command could not be run; the operating system's error text.
    SpawnFailed(String),
    /// The command ran and exited successfully.
    Succeeded,
    /// The command ran and failed; the error text it gave.
    Failed(String),
}

/// A command outcome as contracts see it.
pub enum CommandOutcomeView {
    SpawnFailed(Seq<char>),
    Succeeded,
    Failed(Seq<char>),
}

impl View for CommandOutcome {
    type V = CommandOutcomeView;

    open spec fn view(&self) -> CommandOutcomeView {
        match self {
            CommandOutcome::SpawnFailed(e) => CommandOutcomeView::SpawnFailed(e@),
            CommandOutcome::Succeeded => CommandOutcomeView::Succeeded,
            CommandOutcome::Failed(e) => CommandOutcomeView::Failed(e@),
        }
    }
}

/// The views of a list of values.
pub open spec fn views<T: View>(v: Seq<T>) -> Seq<T::V> {
    Seq::new(v.len(), |i: int| v[i]@)
}

/// The answer of a step function.
#[derive(Debug)]
pub enum Flow<A> {
    /// Perform this effect and report its outcome.
    Perform(A),
    /// The operation is complete.
    Finished,
    /// The operation failed; nothing further is to be performed.
    Aborted(ExecutionError),
}

/// A step function's answer as contracts see it.
pub enum FlowView<V> {
    Perform(V),
    Finished,
    Aborted(ErrorView),
}

impl<A: View> View for Flow<A> {
    type V = FlowView<A::V>;

    open spec fn view(&self) -> FlowView<A::V> {
        match self {
            Flow::Perform(a) => FlowView::Perform(a@),
            Flow::Finished => FlowView::Finished,
            Flow::Aborted(e) => FlowView::Aborted(e@),
        }
    }
}

/// Builds a command from its program and arguments.
pub fn command(program: &str, args: Vec<String>) -> (c: Command)
    ensures
        c@ == (CommandView { program: program@, args: texts(args@) }),
{
    Command { program: String::from_str(program), args }
}

/// Appends one argument to a list.
pub fn push_text(list: &mut Vec<String>, item: &str)
    ensures
        texts(final(list)@) == texts(old(list)@).push(item@),
{
    list.push(String::from_str(item));
    assert(texts(list@) =~= texts(old(list)@).push(item@));
}

} // verus!
