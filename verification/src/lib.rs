//! A minimal relay service for remote calendar resources.
//!
//! Clients register a remote resource (a URL plus optional basic-auth
//! credentials) and receive a stable identifier; a later request with that
//! identifier makes the service fetch the resource live and hand its body
//! back verbatim.  This crate holds the verified core: descriptor
//! validation, identifier generation, the outbound fetch plan, and the
//! mapping from each outcome to the response that the service sends.
//! The surrounding process (HTTP server, database, outbound client) drives
//! these functions and performs the I/O they decide on.

pub mod calendar;
pub mod identifier;
pub mod laws;
pub mod registration;
pub mod relay;
pub mod response;
