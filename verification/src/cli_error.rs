//! The error type of the command-line layer.
use vstd::prelude::*;

verus! {

/// Errors reported by the Buzz command-line commands.
#[derive(Debug)]
pub enum CliError {
    /// The command was invoked wrongly or its environment is incomplete.
    Usage(String),
    /// Any other failure, with its message.
    Other(String),
}

/// The view of a command-line error: its kind and its message.
pub enum CliErrorView {
    Usage(Seq<char>),
    Other(Seq<char>),
}

impl View for CliError {
    type V = CliErrorView;

    open spec fn view(&self) -> CliErrorView {
        match self {
            CliError::Usage(m) => CliErrorView::Usage(m@),
            CliError::Other(m) => CliErrorView::Other(m@),
        }
    }
}

} // verus!
