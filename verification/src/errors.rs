//! The ways in which reading a target process can fail.

use vstd::prelude::*;
use vstd::string::*;

verus! {

/// A failure while attaching to a process or reading its memory.
#[derive(Debug, Clone, PartialEq)]
pub enum MemoryError {
    /// A read did not succeed; the text says which one and why.
    ReadFailed(String),
    /// The code units of a string in the target are not valid UTF-16.
    InvalidString,
    /// No process with the requested id exists.
    ProcessNotFound,
    /// A signature occurs nowhere in the captured regions.
    PatternNotFound,
    /// The operating system refused access to the process.
    AccessDenied,
    /// An operating-system call failed; the text is the system's report.
    IoError(String),
}

/// A `MemoryError` with its texts as character sequences.
pub enum MemoryErrorView {
    ReadFailed(Seq<char>),
    InvalidString,
    ProcessNotFound,
    PatternNotFound,
    AccessDenied,
    IoError(Seq<char>),
}

impl View for MemoryError {
    type V = MemoryErrorView;

    open spec fn view(&self) -> MemoryErrorView {
        match self {
            MemoryError::ReadFailed(text) => MemoryErrorView::ReadFailed(text@),
            MemoryError::InvalidString => MemoryErrorView::InvalidString,
            MemoryError::ProcessNotFound => MemoryErrorView::ProcessNotFound,
            MemoryError::PatternNotFound => MemoryErrorView::PatternNotFound,
            MemoryError::AccessDenied => MemoryErrorView::AccessDenied,
            MemoryError::IoError(text) => MemoryErrorView::IoError(text@),
        }
    }
}

/// The sentence that describes an error to a person.
pub open spec fn error_text(error: MemoryErrorView) -> Seq<char> {
    match error {
        MemoryErrorView::ReadFailed(text) => "Failed to read memory: "@ + text,
        MemoryErrorView::InvalidString => "Invalid string data"@,
        MemoryErrorView::ProcessNotFound => "Process not found"@,
        MemoryErrorView::PatternNotFound => "Pattern not found in memory"@,
        MemoryErrorView::AccessDenied => "Access denied to process"@,
        MemoryErrorView::IoError(text) => "IO error: "@ + text,
    }
}

impl MemoryError {
    /// A read failure with the given explanation.
    pub fn read_failed(text: &str) -> (error: MemoryError)
        ensures
            error@ == MemoryErrorView::ReadFailed(text@),
    {
        MemoryError::ReadFailed(String::from_str(text))
    }

    /// The sentence that describes this error to a person.
    pub fn to_text(&self) -> (text: String)
        ensures
            text@ == error_text(self@),
    {
        match self {
            MemoryError::ReadFailed(reason) => String::from_str("Failed to read memory: ").concat(
                reason.as_str(),
            ),
            MemoryError::InvalidString => String::from_str("Invalid string data"),
            MemoryError::ProcessNotFound => String::from_str("Process not found"),
            MemoryError::PatternNotFound => String::from_str("Pattern not found in memory"),
            MemoryError::AccessDenied => String::from_str("Access denied to process"),
            MemoryError::IoError(reason) => String::from_str("IO error: ").concat(reason.as_str()),
        }
    }

    /// A copy of this error.
    pub fn duplicate(&self) -> (copy: MemoryError)
        ensures
            copy@ == self@,
    {
        match self {
            MemoryError::ReadFailed(reason) => MemoryError::ReadFailed(reason.clone()),
            MemoryError::InvalidString => MemoryError::InvalidString,
            MemoryError::ProcessNotFound => MemoryError::ProcessNotFound,
            MemoryError::PatternNotFound => MemoryError::PatternNotFound,
            MemoryError::AccessDenied => MemoryError::AccessDenied,
            MemoryError::IoError(reason) => MemoryError::IoError(reason.clone()),
        }
    }
}

} // verus!
