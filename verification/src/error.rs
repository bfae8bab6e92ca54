//! The errors that end a run, and their report.

use crate::text::texts_of;
use vstd::prelude::*;

verus! {

/// The ways in which a run can fail.
#[derive(Clone, Copy, Debug, PartialEq, Eq, Structural)]
pub enum ErrorKind {
    /// A path given on the command line is malformed, or the template
    /// directory lacks one of its parts.
    Configuration,
    /// A required directory or a referenced picture does not exist.
    NotFound,
    /// A path exists but is a file where a directory is needed, or the other
    /// way round.
    InvalidTarget,
    /// A discovered description path is not a regular file.
    InvalidSource,
    /// A description file does not follow the schema.
    Validation,
    /// Reading or writing a file failed.
    Io,
    /// The typesetting engine reported a failure.
    Render,
}

/// A fatal error: its kind, the message of the failure itself, and the
/// context that each boundary added on the way up, innermost first.
#[derive(Debug)]
pub struct RunError {
    pub kind: ErrorKind,
    pub message: String,
    pub context: Vec<String>,
}

/// The mathematical content of a [`RunError`].
pub struct RunErrorView {
    pub kind: ErrorKind,
    pub message: Seq<char>,
    pub context: Seq<Seq<char>>,
}

impl View for RunError {
    type V = RunErrorView;

    open spec fn view(&self) -> RunErrorView {
        RunErrorView {
            kind: self.kind,
            message: self.message@,
            context: texts_of(self.context@),
        }
    }
}

/// An error of the given kind and message that has crossed no boundary yet.
pub open spec fn plain_error(kind: ErrorKind, message: Seq<char>) -> RunErrorView {
    RunErrorView { kind, message, context: Seq::empty() }
}

/// An error with one more layer of context around it.
pub open spec fn within(error: RunErrorView, layer: Seq<char>) -> RunErrorView {
    RunErrorView { kind: error.kind, message: error.message, context: error.context.push(layer) }
}

/// Whether a step ended as it should: with the failure where there is one,
/// and well where there is none.
pub open spec fn is_outcome<T>(checked: Result<T, RunError>, failure: Option<RunErrorView>) -> bool {
    match failure {
        Some(expected) => checked matches Err(e) && e@ == expected,
        None => checked is Ok,
    }
}

/// The report of an error: every layer of context from the outermost to the
/// innermost, each followed by `": "`, and then the message.
pub open spec fn chain_text(context: Seq<Seq<char>>, message: Seq<char>) -> Seq<char>
    decreases context.len(),
{
    if context.len() == 0 {
        message
    } else {
        context.last() + ": "@ + chain_text(context.drop_last(), message)
    }
}

impl RunError {
    /// Creates an error without context.
    pub fn new(kind: ErrorKind, message: String) -> (error: RunError)
        ensures
            error@ == plain_error(kind, message@),
    {
        let error = RunError { kind, message, context: Vec::new() };
        assert(error@.context =~= Seq::empty());
        error
    }

    /// Adds one layer of context around the error; kind and message stay.
    pub fn with_context(self, layer: &str) -> (error: RunError)
        ensures
            error@ == within(self@, layer@),
    {
        let mut context = self.context;
        context.push(String::from_str(layer));
        let error = RunError { kind: self.kind, message: self.message, context };
        assert(error@.context =~= self@.context.push(layer@));
        error
    }

    /// The human-readable chain of the error, outermost context first.
    pub fn report(&self) -> (text: String)
        ensures
            text@ == chain_text(self@.context, self@.message),
    {
        let mut text = String::new();
        let mut remaining: usize = self.context.len();
        assert(self@.context.take(remaining as int) =~= self@.context);
        while remaining > 0
            invariant
                remaining <= self.context.len(),
                text@ + chain_text(self@.context.take(remaining as int), self@.message)
                    == chain_text(self@.context, self@.message),
            decreases remaining,
        {
            let ghost before = text@;
            let ghost layers = self@.context.take(remaining as int);
            remaining = remaining - 1;
            text.append(self.context[remaining].as_str());
            text.append(": ");
            proof {
                let rest = self@.context.take(remaining as int);
                assert(layers.last() == self.context[remaining as int]@);
                assert(layers.drop_last() =~= rest);
                assert(text@ + chain_text(rest, self@.message) =~= before + chain_text(
                    layers,
                    self@.message,
                ));
            }
        }
        text.append(self.message.as_str());
        text
    }
}

} // verus!
