//! What a request can fail with.

use vstd::prelude::*;

verus! {

/// The failure of a request.
#[derive(Debug, Clone, PartialEq, Eq)]
pub enum Error {
    /// No record stands under the id.
    NotFound { id: u64 },
    /// The payload was refused, for the reason given.
    InvalidInput { msg: String },
}

/// Why a request cannot be served at all. Such a request is not answered
/// with an `Error`: the state has run out of room for it.
#[derive(Debug, Clone, Copy, PartialEq, Eq)]
pub enum Fatal {
    /// The counter of ids stands at its last value.
    OutOfIds,
    /// The record would be longer than a table accepts.
    RecordTooLarge,
}

/// An `Error`, as contracts speak of it.
pub enum ErrorView {
    NotFound { id: u64 },
    InvalidInput { msg: Seq<char> },
}

impl View for Error {
    type V = ErrorView;

    open spec fn view(&self) -> ErrorView {
        match self {
            Error::NotFound { id } => ErrorView::NotFound { id: *id },
            Error::InvalidInput { msg } => ErrorView::InvalidInput { msg: msg@ },
        }
    }
}

} // verus!
