//! The logic of a small job scheduler: a daemon that runs commands on behalf of
//! its clients and remembers how each of them ended, and the client that talks to
//! it over a local socket.

pub mod cli;
pub mod client;
pub mod conversation;
pub mod frame;
pub mod job;
pub mod protocol;
pub mod session;
pub mod socket;
pub mod system;
pub mod table;
pub mod text;
