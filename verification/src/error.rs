//! What can go wrong, on the two channels that the repository keeps apart.

use vstd::prelude::*;

verus! {

/// A failure to read a view back. It is expected at run time, handed to the
/// error handler where one is registered, and otherwise dropped.
#[derive(Debug, PartialEq, Eq)]
pub enum QueryError {
    /// A record exists, but its bytes do not stand for a view.
    Deserialization { cause: String },
    /// The store could not be read.
    StorageRead { cause: String },
}

/// A failure to write a view. It marks a defect, in the view's codec or in
/// the store, and is never offered to the error handler: the caller is meant
/// to stop on it.
#[derive(Debug, PartialEq, Eq)]
pub enum CommitError {
    /// The view has no serialized form. `view` is its debug rendering.
    Serialization { query_name: String, query_instance_id: String, cause: String, view: String },
    /// The store did not take the record.
    StorageWrite { query_name: String, query_instance_id: String, cause: String },
}

impl CommitError {
    /// The namespace of the commit that failed.
    pub open spec fn query_name(self) -> Seq<char> {
        match self {
            CommitError::Serialization { query_name, .. } => query_name@,
            CommitError::StorageWrite { query_name, .. } => query_name@,
        }
    }

    /// The instance whose view could not be written.
    pub open spec fn query_instance_id(self) -> Seq<char> {
        match self {
            CommitError::Serialization { query_instance_id, .. } => query_instance_id@,
            CommitError::StorageWrite { query_instance_id, .. } => query_instance_id@,
        }
    }
}

} // verus!
