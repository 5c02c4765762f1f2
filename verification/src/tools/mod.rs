//! Helpers shared by the tools of the server.

pub mod browser;
