//! A small single-user task tracker kept in an embedded SQLite database.
pub mod error;
pub mod location;
pub mod store;
pub mod task;

pub use error::TaskError;
pub use location::{locate_storage_path, storage_location, StorageLocation};
pub use store::TaskStore;
pub use task::{format_task, Task};
