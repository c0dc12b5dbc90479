//! The failures that the library reports.

use vstd::prelude::*;

verus! {

/// Why an operation yielded no resource.
#[derive(Clone, Debug, PartialEq, Eq)]
pub enum Error {
    /// A shader stage failed to compile; holds the driver's diagnostic text.
    Compile(String),
    /// A program failed to link; holds the diagnostic text.
    Link(String),
    /// Text meant for the driver holds the terminator byte, or bytes that
    /// the driver returned are not UTF-8.
    Encoding,
}

/// What an [`Error`] is, with its text as a sequence of characters.
pub enum ErrorView {
    Compile(Seq<char>),
    Link(Seq<char>),
    Encoding,
}

impl View for Error {
    type V = ErrorView;

    open spec fn view(&self) -> ErrorView {
        match self {
            Error::Compile(text) => ErrorView::Compile(text@),
            Error::Link(text) => ErrorView::Link(text@),
            Error::Encoding => ErrorView::Encoding,
        }
    }
}

impl Error {
    /// The diagnostic text that the error carries; empty for an encoding
    /// error, which carries none.
    pub fn diagnostic(&self) -> (text: &str)
        ensures
            text@ == match self@ {
                ErrorView::Compile(t) => t,
                ErrorView::Link(t) => t,
                ErrorView::Encoding => Seq::<char>::empty(),
            },
    {
        match self {
            Error::Compile(text) => text.as_str(),
            Error::Link(text) => text.as_str(),
            Error::Encoding => {
                proof {
                    reveal_strlit("");
                }
                ""
            },
        }
    }
}

} // verus!
