//! The result of a compile attempt, and the choice of the program to render.

use vstd::prelude::*;
use crate::report::{lemma_texts_empty, lemma_texts_push, texts};

verus! {

/// What the latest attempt to build the user shader produced: a program that
/// can be rendered, or the text that says why there is none.
#[derive(Debug, PartialEq, Eq)]
pub enum CompileOutcome<P> {
    /// The shader compiled and linked; this is its program.
    Ready(P),
    /// The shader could not be read, compiled or linked; this is the
    /// diagnostic text.
    Failed(String),
}

impl<P> CompileOutcome<P> {
    /// The outcome that stands for a compiler's answer.
    pub open spec fn of(result: Result<P, String>) -> Self {
        match result {
            Ok(program) => CompileOutcome::Ready(program),
            Err(diagnostic) => CompileOutcome::Failed(diagnostic),
        }
    }

    /// The diagnostic text of a failed outcome, as a sequence of one text;
    /// empty for a program that is ready.
    pub open spec fn report(self) -> Seq<Seq<char>> {
        match self {
            CompileOutcome::Ready(_) => Seq::empty(),
            CompileOutcome::Failed(diagnostic) => seq![diagnostic@],
        }
    }

    /// Turns a compiler's answer into an outcome, keeping the program or the
    /// diagnostic text as it is.
    pub fn from_result(result: Result<P, String>) -> (outcome: Self)
        ensures
            outcome == Self::of(result),
    {
        match result {
            Ok(program) => CompileOutcome::Ready(program),
            Err(diagnostic) => CompileOutcome::Failed(diagnostic),
        }
    }

    /// What must reach the operator's log for this outcome: the diagnostic
    /// text of a failure, nothing for a success.
    pub fn report_lines(&self) -> (lines: Vec<String>)
        ensures
            texts(lines@) == self.report(),
    {
        let mut lines: Vec<String> = Vec::new();
        proof {
            lemma_texts_empty();
        }
        match self {
            CompileOutcome::Ready(_) => {},
            CompileOutcome::Failed(diagnostic) => {
                let line = diagnostic.clone();
                proof {
                    lemma_texts_push(lines@, line);
                }
                lines.push(line);
            },
        }
        lines
    }

    /// Whether this outcome holds a program.
    pub fn is_ready(&self) -> (ready: bool)
        ensures
            ready == (*self is Ready),
    {
        match self {
            CompileOutcome::Ready(_) => true,
            CompileOutcome::Failed(_) => false,
        }
    }

    /// The diagnostic text of a failed outcome.
    pub fn diagnostic(&self) -> (text: Option<&String>)
        ensures
            text == match *self {
                CompileOutcome::Ready(_) => None::<&String>,
                CompileOutcome::Failed(diagnostic) => Some(&diagnostic),
            },
    {
        match self {
            CompileOutcome::Ready(_) => None,
            CompileOutcome::Failed(diagnostic) => Some(diagnostic),
        }
    }
}

/// The program to render: the user's when the latest outcome holds one, the
/// fallback otherwise.
pub open spec fn selected<P>(outcome: CompileOutcome<P>, fallback: P) -> P {
    match outcome {
        CompileOutcome::Ready(program) => program,
        CompileOutcome::Failed(_) => fallback,
    }
}

/// Picks the program to render. There is always one: a failed outcome yields
/// the fallback.
pub fn select<'a, P>(outcome: &'a CompileOutcome<P>, fallback: &'a P) -> (program: &'a P)
    ensures
        *program == selected(*outcome, *fallback),
{
    match outcome {
        CompileOutcome::Ready(program) => program,
        CompileOutcome::Failed(_) => fallback,
    }
}

} // verus!
