//! The Theater wire protocol and the connection that carries it.

pub mod backoff;
pub mod client;
pub mod command;
pub mod connection;
pub mod encoding;
pub mod exchange;
pub mod exchange_lemmas;
pub mod frame;
pub mod heartbeat;
pub mod id;
pub mod json;
pub mod reply;
pub mod text;
pub mod types;

pub use client::TheaterClient;
pub use id::{TheaterId, TheaterIdExt};
pub use types::{ActorStatus, TheaterError};
