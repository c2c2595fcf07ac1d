//! What the storage and database adapters compute: where a stored file
//! is, by its URL, and where a page of rows starts.
pub mod database;
pub mod storage;
