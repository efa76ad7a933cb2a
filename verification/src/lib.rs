//! A service port registry: cooperating services find each other's
//! endpoint by name and report the address they are reachable at.
//!
//! - [`registry`] holds the mapping from service name to endpoint record,
//!   with lookups and address reports that are committed only after the
//!   registry document has been written.
//! - [`access`] decides from a caller's network address whether it is
//!   trusted.
//! - [`service`] puts the two together: it answers requests, refusing
//!   untrusted callers before the registry is touched.
//! - [`error`] names the failures, [`status`] the status report, [`text`]
//!   writes reply bodies, and [`utils`] holds the configuration and the
//!   naming of log files.
//!
//! The library does no input or output of its own. The registry document
//! is read and written by the caller, who hands the library plain values.

pub mod access;
pub mod error;
pub mod registry;
pub mod service;
pub mod status;
pub mod text;
pub mod utils;
