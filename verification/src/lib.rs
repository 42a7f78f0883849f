//! A verified core for an adapter that lets guests of a flat, descriptor-based
//! system-call interface run on top of a handle-based capability interface.
//!
//! The core holds everything that the adapter decides: what a descriptor
//! refers to, which operation of the capability interface a call of the flat
//! interface turns into, how the outcome is reported to the guest, and where
//! results are placed in guest memory. It performs none of those operations
//! itself. A call names the operation it needs ([`capability::HostCall`]); the
//! embedding performs it and hands the outcome back.
//!
//! - [`flat`] and [`records`]: the numbers and the records of the flat
//!   interface.
//! - [`capability`]: the types and the operations of the capability interface.
//! - [`translate`]: error kinds, file types, timestamps and flags, both ways.
//! - [`arena`] and [`import_alloc`]: the memory for results of host operations.
//! - [`strings`]: arguments, environment variables and preopened directories.
//! - [`descriptor`] and [`table`]: descriptors and the table that holds them.
//! - [`state`]: the process state and the calls of the flat interface.
//! - [`singleton`]: the one place of the process state.
//! - [`readdir`] and [`listing`]: reading directories, and what it gives.
//! - [`poll`]: waiting for events.
//! - [`registry`]: the registry of the adapter that runs the other way round.
//! - [`http`]: the HTTP client on top of the capability interface.
//! - [`console`]: messages for the error output.
//! - [`laws`]: what holds across several calls.

pub mod bytes;
pub mod flat;
pub mod capability;
pub mod translate;
pub mod records;
pub mod arena;
pub mod import_alloc;
pub mod strings;
pub mod descriptor;
pub mod table;
pub mod registry;
pub mod readdir;
pub mod listing;
pub mod state;
pub mod poll;
pub mod singleton;
pub mod console;
pub mod http;
pub mod laws;
