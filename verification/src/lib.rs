//! A local inter-process transport over Unix domain sockets: the rules by
//! which a listening socket is brought up, permissioned and accepted from,
//! stated as contracts and proved.
//!
//! The sockets themselves belong to the operating system and to the async
//! runtime, and so does every system call: binding, dialing, changing
//! permissions, removing the socket node when an endpoint is dropped. This
//! crate holds what is decided about them: which permission bits a socket
//! node receives, whether a path can be handed to the platform at all, what
//! becomes of an endpoint when a bind succeeds or fails, and what an accept
//! loop yields for each outcome of a poll. Its functions take the outcome of
//! a system call as an argument and return what is to be done next.

pub mod connection;
pub mod endpoint;
pub mod error;
pub mod handles;
pub mod incoming;
pub mod path;
pub mod security;

pub use connection::Connection;
pub use endpoint::Endpoint;
pub use error::Error;
pub use security::{PermissionChange, SecurityAttributes};
