//! The cache store's failures, as the gateway reports them.
//!
//! The store itself is a durable map from names to records that the surrounding
//! service drives. What is decided here is how each of its failures reads.

use crate::error::{AppError, ErrorView};
use vstd::prelude::*;
use vstd::string::StringExecFns;

verus! {

/// The steps of a cache store operation that can fail.
#[derive(Clone, Copy, Debug, PartialEq, Eq)]
pub enum StoreStep {
    /// Opening the store.
    Open,
    /// Creating the table of records and its index.
    Schema,
    /// Taking the lock that guards the connection.
    Lock,
    /// Preparing the point lookup.
    Prepare,
    /// Reading the record of a name.
    Query,
    /// Writing a record.
    Save,
}

/// A failed cache store step with the cause that the storage engine gave.
#[derive(Clone, Debug, PartialEq, Eq)]
pub struct StoreFailure {
    pub step: StoreStep,
    pub cause: String,
}

/// The mathematical content of a [`StoreFailure`].
pub struct StoreFailureView {
    pub step: StoreStep,
    pub cause: Seq<char>,
}

impl View for StoreFailure {
    type V = StoreFailureView;

    open spec fn view(&self) -> StoreFailureView {
        StoreFailureView { step: self.step, cause: self.cause@ }
    }
}

/// The message that reports a failed step: what failed, then the cause. A lock that
/// could not be taken is reported without a cause.
pub open spec fn store_message(failure: StoreFailureView) -> Seq<char> {
    match failure.step {
        StoreStep::Open => "Failed to open database: "@ + failure.cause,
        StoreStep::Schema => "Schema initialization failed: "@ + failure.cause,
        StoreStep::Lock => "Failed to acquire database lock"@,
        StoreStep::Prepare => "Query preparation failed: "@ + failure.cause,
        StoreStep::Query => "Error looking up user: "@ + failure.cause,
        StoreStep::Save => "Failed to save user: "@ + failure.cause,
    }
}

/// The error that reports a failed cache store step.
pub fn store_failure(failure: StoreFailure) -> (e: AppError)
    ensures
        e@ == ErrorView::Database(store_message(failure@)),
{
    let cause = failure.cause.as_str();
    let message = match failure.step {
        StoreStep::Open => String::from_str("Failed to open database: ").concat(cause),
        StoreStep::Schema => String::from_str("Schema initialization failed: ").concat(cause),
        StoreStep::Lock => String::from_str("Failed to acquire database lock"),
        StoreStep::Prepare => String::from_str("Query preparation failed: ").concat(cause),
        StoreStep::Query => String::from_str("Error looking up user: ").concat(cause),
        StoreStep::Save => String::from_str("Failed to save user: ").concat(cause),
    };
    AppError::Database(message)
}

} // verus!
