//! The error that every storage operation reports.

use vstd::prelude::*;

verus! {

/// Why a storage operation failed. Each variant carries the text for the log.
#[derive(Debug, PartialEq, Eq)]
pub enum StoreError {
    /// A value or a row that the store cannot represent or understand.
    Internal(String),
    /// A stored name or JSON text that does not decode.
    Serialization(String),
    /// The database could not be reached.
    Connection(String),
    /// A schema migration failed.
    Migration(String),
}

/// The mathematical value of a [`StoreError`].
pub enum ErrorView {
    Internal(Seq<char>),
    Serialization(Seq<char>),
    Connection(Seq<char>),
    Migration(Seq<char>),
}

impl View for StoreError {
    type V = ErrorView;

    open spec fn view(&self) -> ErrorView {
        match self {
            StoreError::Internal(m) => ErrorView::Internal(m@),
            StoreError::Serialization(m) => ErrorView::Serialization(m@),
            StoreError::Connection(m) => ErrorView::Connection(m@),
            StoreError::Migration(m) => ErrorView::Migration(m@),
        }
    }
}

} // verus!
