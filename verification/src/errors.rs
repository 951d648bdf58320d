//! The ways in which a repository call fails.

use vstd::prelude::*;
use vstd::string::*;

verus! {

/// A temporal column of the backing store.
#[derive(Clone, Copy, Debug, PartialEq, Eq, Structural)]
pub enum TemporalColumn {
    DhEmi,
    DhSaiEnt,
    DhCont,
    CreatedAt,
    UpdatedAt,
}

/// What the backing store reported when a statement failed.
#[derive(Clone, Debug, PartialEq, Eq)]
pub struct StoreFailure {
    /// The store's own error code, zero where it gave none.
    pub code: i32,
    /// The store's own message.
    pub message: String,
}

pub struct StoreFailureView {
    pub code: i32,
    pub message: Seq<char>,
}

impl View for StoreFailure {
    type V = StoreFailureView;

    open spec fn view(&self) -> StoreFailureView {
        StoreFailureView { code: self.code, message: self.message@ }
    }
}

/// Why a repository call failed.
#[derive(Clone, Debug, PartialEq, Eq)]
pub enum RepositoryError {
    /// The backing store refused or could not run a statement.
    BackingStoreError(StoreFailure),
    /// The addressed record does not exist.
    NotFound,
    /// The record was not created, or could not be read back after it was written.
    CreationFailed,
    /// The addressed record was not there to update.
    UpdateFailed,
    /// The text is no well-formed identifier; the text is kept.
    InvalidIdentifier(String),
    /// A temporal column held a text that cannot be read; the column and the text are kept.
    ParseError(TemporalColumn, String),
}

pub enum RepositoryErrorView {
    BackingStoreError(StoreFailureView),
    NotFound,
    CreationFailed,
    UpdateFailed,
    InvalidIdentifier(Seq<char>),
    ParseError(TemporalColumn, Seq<char>),
}

impl View for RepositoryError {
    type V = RepositoryErrorView;

    open spec fn view(&self) -> RepositoryErrorView {
        match self {
            RepositoryError::BackingStoreError(failure) => RepositoryErrorView::BackingStoreError(
                failure@,
            ),
            RepositoryError::NotFound => RepositoryErrorView::NotFound,
            RepositoryError::CreationFailed => RepositoryErrorView::CreationFailed,
            RepositoryError::UpdateFailed => RepositoryErrorView::UpdateFailed,
            RepositoryError::InvalidIdentifier(text) => RepositoryErrorView::InvalidIdentifier(
                text@,
            ),
            RepositoryError::ParseError(column, text) => RepositoryErrorView::ParseError(
                *column,
                text@,
            ),
        }
    }
}

/// The name under which a temporal column appears in messages.
pub open spec fn column_name(column: TemporalColumn) -> Seq<char> {
    match column {
        TemporalColumn::DhEmi => "dh_emi"@,
        TemporalColumn::DhSaiEnt => "dh_sai_ent"@,
        TemporalColumn::DhCont => "dh_cont"@,
        TemporalColumn::CreatedAt => "created_at"@,
        TemporalColumn::UpdatedAt => "updated_at"@,
    }
}

/// The message that describes an error to a reader.
pub open spec fn message_text(error: RepositoryErrorView) -> Seq<char> {
    match error {
        RepositoryErrorView::BackingStoreError(failure) => "Oracle error: "@ + failure.message,
        RepositoryErrorView::NotFound => "Record not found"@,
        RepositoryErrorView::CreationFailed => "Failed to create record"@,
        RepositoryErrorView::UpdateFailed => "Failed to update record"@,
        RepositoryErrorView::InvalidIdentifier(text) => "Invalid UUID: "@ + text,
        RepositoryErrorView::ParseError(column, text) => "Unreadable "@ + column_name(column)
            + ": "@ + text,
    }
}

impl TemporalColumn {
    /// The name under which the column appears in messages.
    pub fn name(&self) -> (r: &'static str)
        ensures
            r@ == column_name(*self),
    {
        match self {
            TemporalColumn::DhEmi => "dh_emi",
            TemporalColumn::DhSaiEnt => "dh_sai_ent",
            TemporalColumn::DhCont => "dh_cont",
            TemporalColumn::CreatedAt => "created_at",
            TemporalColumn::UpdatedAt => "updated_at",
        }
    }
}

impl RepositoryError {
    /// The message that describes the error to a reader.
    pub fn message(&self) -> (r: String)
        ensures
            r@ == message_text(self@),
    {
        match self {
            RepositoryError::BackingStoreError(failure) => String::from_str(
                "Oracle error: ",
            ).concat(failure.message.as_str()),
            RepositoryError::NotFound => String::from_str("Record not found"),
            RepositoryError::CreationFailed => String::from_str("Failed to create record"),
            RepositoryError::UpdateFailed => String::from_str("Failed to update record"),
            RepositoryError::InvalidIdentifier(text) => String::from_str("Invalid UUID: ").concat(
                text.as_str(),
            ),
            RepositoryError::ParseError(column, text) => String::from_str("Unreadable ").concat(
                column.name(),
            ).concat(": ").concat(text.as_str()),
        }
    }

    /// Wraps what the backing store reported.
    pub fn from_store(failure: StoreFailure) -> (r: RepositoryError)
        ensures
            r@ == RepositoryErrorView::BackingStoreError(failure@),
    {
        RepositoryError::BackingStoreError(failure)
    }
}

} // verus!
