//! A local record store for genealogical registry entries, backed by a
//! single-file SQLite database. The store assigns ids and creation
//! timestamps, and offers exactly two operations: listing every record in
//! descending id order, and creating a new record from a draft.

pub mod db;
pub mod error;
pub mod laws;
pub mod record;
pub mod store;

pub use error::StoreError;
pub use record::Draft;
pub use record::Record;
pub use store::StorageConfig;
pub use store::Store;
