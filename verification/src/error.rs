//! Why a paste could not be created.

use crate::text::str_eq;
use vstd::prelude::*;

verus! {

/// The reasons for which creating a paste fails. The content checks are made
/// locally, before anything is sent; the others are read off the service's
/// reply.
#[derive(Debug)]
pub enum PastebinError {
    /// The service did not accept the credential.
    InvalidKey,
    /// The service refuses requests from this address.
    BlockedIP,
    /// The content to paste is empty.
    EmptyPasteContent,
    /// The content to paste is over the size limit.
    PasteTooBig,
    /// The service does not know the syntax identifier.
    InvalidPasteFormat,
    /// Anything else, with the reply's text or a rendering of the transport
    /// failure.
    Unknown(String),
}

/// A `PastebinError` as contracts speak of it: the same cases, with the
/// message as a sequence of characters.
pub enum ErrorView {
    InvalidKey,
    BlockedIP,
    EmptyPasteContent,
    PasteTooBig,
    InvalidPasteFormat,
    Unknown(Seq<char>),
}

impl View for PastebinError {
    type V = ErrorView;

    open spec fn view(&self) -> ErrorView {
        match self {
            PastebinError::InvalidKey => ErrorView::InvalidKey,
            PastebinError::BlockedIP => ErrorView::BlockedIP,
            PastebinError::EmptyPasteContent => ErrorView::EmptyPasteContent,
            PastebinError::PasteTooBig => ErrorView::PasteTooBig,
            PastebinError::InvalidPasteFormat => ErrorView::InvalidPasteFormat,
            PastebinError::Unknown(message) => ErrorView::Unknown(message@),
        }
    }
}

impl Clone for PastebinError {
    fn clone(&self) -> (r: PastebinError)
        ensures
            r@ == self@,
    {
        match self {
            PastebinError::InvalidKey => PastebinError::InvalidKey,
            PastebinError::BlockedIP => PastebinError::BlockedIP,
            PastebinError::EmptyPasteContent => PastebinError::EmptyPasteContent,
            PastebinError::PasteTooBig => PastebinError::PasteTooBig,
            PastebinError::InvalidPasteFormat => PastebinError::InvalidPasteFormat,
            PastebinError::Unknown(message) => PastebinError::Unknown(message.clone()),
        }
    }
}

impl PartialEq for PastebinError {
    fn eq(&self, other: &PastebinError) -> (r: bool) {
        match (self, other) {
            (PastebinError::InvalidKey, PastebinError::InvalidKey) => true,
            (PastebinError::BlockedIP, PastebinError::BlockedIP) => true,
            (PastebinError::EmptyPasteContent, PastebinError::EmptyPasteContent) => true,
            (PastebinError::PasteTooBig, PastebinError::PasteTooBig) => true,
            (PastebinError::InvalidPasteFormat, PastebinError::InvalidPasteFormat) => true,
            (PastebinError::Unknown(a), PastebinError::Unknown(b)) => str_eq(a.as_str(), b.as_str()),
            _ => false,
        }
    }
}

impl Eq for PastebinError {

}

impl vstd::std_specs::cmp::PartialEqSpecImpl for PastebinError {
    open spec fn obeys_eq_spec() -> bool {
        true
    }

    /// Two errors are equal when they are the same case with the same
    /// message.
    open spec fn eq_spec(&self, other: &PastebinError) -> bool {
        self@ == other@
    }
}

/// The outcome of an upload as contracts speak of it: the paste's address, or
/// the view of the error.
pub open spec fn outcome_view(outcome: Result<String, PastebinError>) -> Result<
    Seq<char>,
    ErrorView,
> {
    match outcome {
        Ok(url) => Ok(url@),
        Err(error) => Err(error@),
    }
}

} // verus!
