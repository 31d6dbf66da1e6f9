//! A client for the Theater actor system, and the tools and resources that
//! present it over the Model Context Protocol.
//!
//! The heart of the crate is [`theater`]: one connection to the command
//! server, kept alive across failures. It frames every request, probes the
//! connection before using it, redials a dead one while keeping two callers
//! from dialing at once, retries with exponential backoff, and watches the
//! connection with a heartbeat. [`tools`] and [`resources`] read arguments,
//! build commands and shape answers.
//!
//! The crate performs no I/O of its own: every function decides or computes,
//! and the program around it dials, writes, reads and sleeps.

pub mod resources;
pub mod theater;
pub mod tools;
