//! A bridge between a remote print-job source and a local execution sink.
//!
//! Jobs arrive as notifications over a long-lived connection, their payload
//! artifacts are fetched over HTTP, and each job is persisted as a JSON file
//! inside a directory-based queue (`pending`, `ok`, `error`). A watcher feeds
//! pending records to the local print command and relocates each record to a
//! terminal directory according to the outcome.
//!
//! This crate holds the verified core: the record model and its JSON codec,
//! the queue-store state machine, and the per-notification and per-dispatch
//! decision steps. The surrounding process (sockets, HTTP, filesystem,
//! subprocesses, threads) drives these functions from outside.

pub mod codec;
pub mod config;
pub mod dirs;
pub mod dispatch;
pub mod ingest;
pub mod message;
pub mod message_manager;
pub mod printer;
pub mod printer_manager;
pub mod strutil;
pub mod supervisor;
