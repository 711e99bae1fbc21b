//! Errors that codecs hand to a pipeline.

use vstd::prelude::*;

verus! {

/// Why a codec operation did not succeed.
#[derive(Clone, Debug, PartialEq, Eq)]
pub enum Error {
    /// This backend cannot do it; another one might.
    Unsupported(String),
    /// The input breaks the rules.
    InvalidData(String),
    /// The stream has ended.
    Eof,
    /// Nothing to hand out until more is put in.
    NeedMore,
    /// Anything else.
    Other(String),
}

/// An [`Error`] with its message as characters.
pub enum ErrorView {
    Unsupported(Seq<char>),
    InvalidData(Seq<char>),
    Eof,
    NeedMore,
    Other(Seq<char>),
}

impl View for Error {
    type V = ErrorView;

    open spec fn view(&self) -> ErrorView {
        match self {
            Error::Unsupported(m) => ErrorView::Unsupported(m@),
            Error::InvalidData(m) => ErrorView::InvalidData(m@),
            Error::Eof => ErrorView::Eof,
            Error::NeedMore => ErrorView::NeedMore,
            Error::Other(m) => ErrorView::Other(m@),
        }
    }
}

} // verus!
