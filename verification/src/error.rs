//! The store's failure classes. No failure is retried or recovered
//! internally: every error carries a human-readable message and is returned
//! to the caller immediately.

use vstd::prelude::*;

verus! {

/// One failure of the store, tagged by the stage that failed.
#[derive(Debug)]
pub enum StoreError {
    /// The storage directory could not be determined or created.
    Location(String),
    /// The database file could not be opened.
    Connection(String),
    /// Creating or verifying the schema failed.
    Schema(String),
    /// A read or write against the schema failed.
    Query(String),
}

impl StoreError {
    /// The description carried by the error, whichever class it is.
    pub open spec fn message_view(self) -> Seq<char> {
        match self {
            StoreError::Location(m) => m@,
            StoreError::Connection(m) => m@,
            StoreError::Schema(m) => m@,
            StoreError::Query(m) => m@,
        }
    }

    /// The human-readable description of the failure.
    pub fn message(&self) -> (m: &String)
        ensures
            m@ == self.message_view(),
    {
        match self {
            StoreError::Location(m) => m,
            StoreError::Connection(m) => m,
            StoreError::Schema(m) => m,
            StoreError::Query(m) => m,
        }
    }
}

} // verus!
