//! Core of a small static-file web server: the response data model, the
//! error taxonomy with its pre-rendered pages, the request router, and the
//! settings parser. All I/O (sockets, files, the worker pool) lives outside
//! this crate; these functions turn plain values into plain values and carry
//! proofs of what they return.

pub mod config;
pub mod errors;
pub mod response;
pub mod router;
pub mod strutil;
