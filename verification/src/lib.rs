//! A durable, id-indexed record store for a small lending library:
//! students, books and loans, each kind in a table of its own in stable
//! memory, all drawing their ids from one durable counter.
//!
//! - `storage` is the boundary to the stable-memory structures;
//! - `codec` and `text` hold the byte layouts and the test for blank text;
//! - `record` and `ids` hold the typed tables and the allocator of ids;
//! - `service` says what the requests do and serves them, for any kind;
//! - `requests` proves what holds of them;
//! - `student`, `book` and `loan` are the three kinds;
//! - `library` holds the state and opens it.

pub mod book;
pub mod codec;
pub mod error;
pub mod ids;
pub mod library;
pub mod loan;
pub mod record;
pub mod requests;
pub mod service;
pub mod storage;
pub mod student;
pub mod text;
