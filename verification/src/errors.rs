//! The one error that evaluation reports.
use vstd::prelude::*;

verus! {

/// A failed evaluation: the lexeme of the offending token, what went wrong,
/// and the source line.
#[derive(Clone, Debug, PartialEq, Eq)]
pub struct RuntimeError {
    pub lexeme: String,
    pub message: String,
    pub line: u64,
}

/// A `RuntimeError` with its texts as character sequences.
pub struct RuntimeErrorView {
    pub lexeme: Seq<char>,
    pub message: Seq<char>,
    pub line: u64,
}

impl View for RuntimeError {
    type V = RuntimeErrorView;

    open spec fn view(&self) -> RuntimeErrorView {
        RuntimeErrorView { lexeme: self.lexeme@, message: self.message@, line: self.line }
    }
}

impl RuntimeError {
    pub fn new(lexeme: String, message: String, line: u64) -> (error: RuntimeError)
        ensures
            error == (RuntimeError { lexeme, message, line }),
    {
        RuntimeError { lexeme, message, line }
    }
}

} // verus!
