//! The decisions of a one-shot location handshake over loopback HTTP.

pub mod http;
pub mod launcher;
pub mod laws;
pub mod page;
pub mod report;
pub mod session;
pub mod text;
