//! Control of Ableton Live over OSC: the request/response core.
//!
//! The crate holds the logic of a single-socket OSC client without touching a
//! socket itself: the typed argument model, the tolerant reply decoders, and
//! the step function that says, after every datagram, timeout or failure,
//! what the client does next. A driver owns the socket and the wire codec and
//! follows the steps.

pub mod error;
pub mod osc;
pub mod tools;
pub mod types;

pub use error::Error;
