//! CrewList: a single-user todo list whose tasks an outside agent can pick up,
//! work on, and answer with concrete action items.
//!
//! This crate holds the domain: the status machine, the agent queue, title
//! validation, the detail document and its schema, the wire types, the error
//! codes with their HTTP and exit-code mappings, and the decisions the server
//! makes around its stores. It performs no I/O.
pub mod api;
pub mod config;
pub mod detail;
pub mod dto;
pub mod error;
pub mod mongo;
pub mod status;
pub mod store;
pub mod task;
pub mod text;
