//! Why a call is turned down.

use vstd::prelude::*;

verus! {

/// The rejection of a single call. Each kind carries the reason in words; a
/// rejected call has changed nothing.
#[derive(Debug, PartialEq, Eq)]
pub enum Error {
    /// An argument fails its validation.
    InvalidArgument(String),
    /// The row that the call would update does not exist.
    NotFound(String),
}

/// An error as a mathematical value.
pub enum ErrorView {
    InvalidArgument(Seq<char>),
    NotFound(Seq<char>),
}

impl View for Error {
    type V = ErrorView;

    open spec fn view(&self) -> ErrorView {
        match self {
            Error::InvalidArgument(reason) => ErrorView::InvalidArgument(reason@),
            Error::NotFound(reason) => ErrorView::NotFound(reason@),
        }
    }
}

impl ErrorView {
    /// The rejection of an empty display name.
    pub open spec fn empty_name() -> ErrorView {
        ErrorView::InvalidArgument("empty name"@)
    }

    /// The rejection of an empty message text.
    pub open spec fn empty_message() -> ErrorView {
        ErrorView::InvalidArgument("empty message"@)
    }

    /// The rejection of a caller that has no row in the user table.
    pub open spec fn unknown_user() -> ErrorView {
        ErrorView::NotFound("unknown user"@)
    }

    /// The reason in words, whatever the kind.
    pub open spec fn reason(self) -> Seq<char> {
        match self {
            ErrorView::InvalidArgument(reason) => reason,
            ErrorView::NotFound(reason) => reason,
        }
    }
}

impl Clone for Error {
    fn clone(&self) -> (e: Error)
        ensures
            e == *self,
    {
        match self {
            Error::InvalidArgument(reason) => Error::InvalidArgument(reason.clone()),
            Error::NotFound(reason) => Error::NotFound(reason.clone()),
        }
    }
}

/// The result of a fallible entry point as a mathematical value.
pub open spec fn outcome(r: Result<(), Error>) -> Result<(), ErrorView> {
    match r {
        Ok(()) => Ok(()),
        Err(e) => Err(e@),
    }
}

impl Error {
    /// The rejection of an empty display name.
    pub fn empty_name() -> (e: Error)
        ensures
            e@ == ErrorView::empty_name(),
    {
        Error::InvalidArgument("empty name".to_owned())
    }

    /// The rejection of an empty message text.
    pub fn empty_message() -> (e: Error)
        ensures
            e@ == ErrorView::empty_message(),
    {
        Error::InvalidArgument("empty message".to_owned())
    }

    /// The rejection of a caller that has no row in the user table.
    pub fn unknown_user() -> (e: Error)
        ensures
            e@ == ErrorView::unknown_user(),
    {
        Error::NotFound("unknown user".to_owned())
    }

    /// The human-readable form in which a rejection reaches the caller: the
    /// reason, without the kind.
    pub fn message(&self) -> (text: String)
        ensures
            text@ == self@.reason(),
    {
        match self {
            Error::InvalidArgument(reason) => reason.clone(),
            Error::NotFound(reason) => reason.clone(),
        }
    }
}

} // verus!
