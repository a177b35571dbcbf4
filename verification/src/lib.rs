//! The command layer of a terminal task manager.
//!
//! The tasks on screen live in memory ([`app`]); the tasks at rest live in a
//! SQLite table ([`task_db`]). A command ([`command`]) changes the one and
//! tells the other. What a command does to memory is proved exactly. What it
//! tells the store is proved too: the store keeps a record, for the proofs
//! only, of where it was opened and of every statement that was handed to
//! SQLite. What SQLite then does is its own business; the calls into it are
//! in [`sqlite`].

pub mod app;
pub mod command;
pub mod date;
pub mod sqlite;
pub mod task;
pub mod task_db;
pub mod text;
