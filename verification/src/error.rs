use crate::text::{decimal, decimal_text, has_newline};
use vstd::prelude::*;
use vstd::string::*;

verus! {

/// Why a compilation gave no artifact.
///
/// Each variant carries what the native library had to say about it, which
/// may be nothing.
#[derive(Debug, PartialEq)]
pub enum Error {
    /// The source does not compile. Holds the number of errors and their text.
    CompilationError(u32, String),
    InternalError(String),
    InvalidStage(String),
    InvalidAssembly(String),
    NullResultObject(String),
}

/// An [`Error`] with its text as a sequence of characters.
pub enum ErrorView {
    CompilationError(nat, Seq<char>),
    InternalError(Seq<char>),
    InvalidStage(Seq<char>),
    InvalidAssembly(Seq<char>),
    NullResultObject(Seq<char>),
}

impl View for Error {
    type V = ErrorView;

    open spec fn view(&self) -> ErrorView {
        match *self {
            Error::CompilationError(count, reason) => ErrorView::CompilationError(
                count as nat,
                reason@,
            ),
            Error::InternalError(reason) => ErrorView::InternalError(reason@),
            Error::InvalidStage(reason) => ErrorView::InvalidStage(reason@),
            Error::InvalidAssembly(reason) => ErrorView::InvalidAssembly(reason@),
            Error::NullResultObject(reason) => ErrorView::NullResultObject(reason@),
        }
    }
}

/// `what`, followed by `reason` where there is one.
pub open spec fn with_reason(what: Seq<char>, reason: Seq<char>) -> Seq<char> {
    if reason.len() == 0 {
        what
    } else {
        what + ": "@ + reason
    }
}

/// How many errors there were, in words: the number is left out of a single one.
pub open spec fn error_count_text(count: nat) -> Seq<char> {
    if count == 1 {
        "compilation error"@
    } else {
        decimal_text(count) + " compilation errors"@
    }
}

impl ErrorView {
    /// The kind of error in words, without the reason.
    pub open spec fn description(self) -> Seq<char> {
        match self {
            ErrorView::CompilationError(_, _) => "compilation error"@,
            ErrorView::InternalError(_) => "internal error"@,
            ErrorView::InvalidStage(_) => "invalid stage"@,
            ErrorView::InvalidAssembly(_) => "invalid assembly"@,
            ErrorView::NullResultObject(_) => "null result object"@,
        }
    }

    /// What the native library said about the error.
    pub open spec fn reason(self) -> Seq<char> {
        match self {
            ErrorView::CompilationError(_, reason) => reason,
            ErrorView::InternalError(reason) => reason,
            ErrorView::InvalidStage(reason) => reason,
            ErrorView::InvalidAssembly(reason) => reason,
            ErrorView::NullResultObject(reason) => reason,
        }
    }

    /// The error as one text for a reader.
    ///
    /// A compilation error starts with the number of errors; its reason
    /// follows a colon, on a line of its own if it spans several lines. Every
    /// other error is its description, then a colon and the reason. An empty
    /// reason is left out together with the colon.
    pub open spec fn display(self) -> Seq<char> {
        match self {
            ErrorView::CompilationError(count, reason) => {
                if reason.len() == 0 {
                    error_count_text(count)
                } else if reason.contains('\n') {
                    error_count_text(count) + ":\n"@ + reason
                } else {
                    error_count_text(count) + ": "@ + reason
                }
            },
            _ => with_reason(self.description(), self.reason()),
        }
    }
}

fn describe(what: &str, reason: &String) -> (text: String)
    ensures
        text@ == with_reason(what@, reason@),
{
    let text = String::from_str(what);
    if reason.as_str().is_empty() {
        text
    } else {
        text.concat(": ").concat(reason.as_str())
    }
}

impl Error {
    /// The kind of error in words: [`ErrorView::description`].
    pub fn description(&self) -> (text: &'static str)
        ensures
            text@ == self@.description(),
    {
        match self {
            Error::CompilationError(_, _) => "compilation error",
            Error::InternalError(_) => "internal error",
            Error::InvalidStage(_) => "invalid stage",
            Error::InvalidAssembly(_) => "invalid assembly",
            Error::NullResultObject(_) => "null result object",
        }
    }

    /// The error as one text for a reader: [`ErrorView::display`].
    pub fn to_string(&self) -> (text: String)
        ensures
            text@ == self@.display(),
    {
        match self {
            Error::CompilationError(count, reason) => {
                let head = if *count == 1 {
                    String::from_str("compilation error")
                } else {
                    decimal(*count).concat(" compilation errors")
                };
                if reason.as_str().is_empty() {
                    head
                } else if has_newline(reason.as_str()) {
                    head.concat(":\n").concat(reason.as_str())
                } else {
                    head.concat(": ").concat(reason.as_str())
                }
            },
            Error::InternalError(reason) => describe("internal error", reason),
            Error::InvalidStage(reason) => describe("invalid stage", reason),
            Error::InvalidAssembly(reason) => describe("invalid assembly", reason),
            Error::NullResultObject(reason) => describe("null result object", reason),
        }
    }
}

} // verus!
