//! Request decoding, addressing and query resolution for a small
//! record-management service over lists, sets and to-dos.
//!
//! A request passes through the modules in this order: `extractor`
//! classifies its body, `api` turns the classified body into statements for
//! the storage or into an error, `render` writes the statements as SQL,
//! `transaction` keeps the books of a batch while it is run, and `api` again
//! forms the answer from the rows that came back.

pub mod api;
pub mod db;
pub mod dispatch;
pub mod entities;
pub mod error;
pub mod extractor;
pub mod marks;
pub mod query;
pub mod records;
pub mod render;
pub mod rows;
pub mod statement;
pub mod text;
pub mod transaction;
pub mod types;
pub mod update;
