//! Locating a running process by executable name, enumerating the modules
//! loaded in it, and reading or writing its memory, with every decision the
//! library takes stated and proved.
//!
//! The host's services (snapshots, enumeration, opening a process, memory
//! transfer, closing a handle) are never called from here. Each operation is
//! a small machine: starting it yields a [`host::Request`] for the host, and
//! each [`host::Reply`] handed back advances it, until it is done.

pub mod every_run;
pub mod host;
pub mod memory;
pub mod module;
pub mod offsets;
pub mod process;
pub mod runs;
pub mod search;
pub mod snapshot;
pub mod utils;
pub mod walks;
