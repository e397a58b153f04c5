pub mod boot;
pub mod db;
pub mod laws;
pub mod text;
pub mod todo;

use vstd::prelude::*;

verus! {

/// How a store operation failed, as the driver reported it.
#[derive(Debug, PartialEq, Eq)]
pub enum StoreError {
    /// The statement matched no row.
    RowNotFound,
    /// Any other failure, with its cause in words.
    Other(String),
}

/// The domain errors that every store failure is normalized into.
#[derive(Debug, PartialEq, Eq)]
pub enum Error {
    /// A get, update or delete targeted a row that does not exist:
    /// the entity type and the id, in decimal.
    EntityNotFound(String, String),
    /// Any other store failure, as the driver reported it.
    Storage(StoreError),
}

} // verus!
