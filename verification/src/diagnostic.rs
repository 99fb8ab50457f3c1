//! The two ways in which a version cannot be had: the toolchain did not answer, and
//! the compilation stops over it.

use vstd::prelude::*;
use vstd::string::*;

verus! {

/// Why the toolchain did not tell its version, in the words of whoever asked it.
#[derive(Debug, PartialEq, Eq)]
pub struct QueryFailure {
    message: String,
}

impl View for QueryFailure {
    type V = Seq<char>;

    closed spec fn view(&self) -> Seq<char> {
        self.message@
    }
}

impl Clone for QueryFailure {
    fn clone(&self) -> (copy: QueryFailure)
        ensures
            copy@ == self@,
    {
        QueryFailure { message: self.message.clone() }
    }
}

impl QueryFailure {
    /// A failure with the given description.
    pub fn new(message: &str) -> (failure: QueryFailure)
        ensures
            failure@ == message@,
    {
        QueryFailure { message: message.to_owned() }
    }

    /// The description, as it was given.
    pub fn message(&self) -> (message: &str)
        ensures
            message@ == self@,
    {
        self.message.as_str()
    }
}

/// The text of the diagnostic that stops a compilation whose toolchain gave `cause`
/// in place of a version: a fixed lead, then the cause word for word.
pub open spec fn fatal_text(cause: Seq<char>) -> Seq<char> {
    "Failed to get version: "@ + cause
}

/// A fault that ends the compilation. It is no error to recover from: whoever gets
/// one reports its message and stops.
#[derive(Debug, PartialEq, Eq)]
pub struct FatalDiagnostic {
    message: String,
}

impl View for FatalDiagnostic {
    type V = Seq<char>;

    closed spec fn view(&self) -> Seq<char> {
        self.message@
    }
}

impl Clone for FatalDiagnostic {
    fn clone(&self) -> (copy: FatalDiagnostic)
        ensures
            copy@ == self@,
    {
        FatalDiagnostic { message: self.message.clone() }
    }
}

impl FatalDiagnostic {
    /// The diagnostic for a toolchain that failed with `failure`.
    pub fn from_failure(failure: &QueryFailure) -> (diagnostic: FatalDiagnostic)
        ensures
            diagnostic@ == fatal_text(failure@),
    {
        let mut message = String::from_str("Failed to get version: ");
        message.append(failure.message());
        FatalDiagnostic { message }
    }

    /// The whole text to report.
    pub fn message(&self) -> (message: &str)
        ensures
            message@ == self@,
    {
        self.message.as_str()
    }
}

} // verus!
