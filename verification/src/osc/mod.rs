//! OSC values, reply decoding and the client protocol.

pub mod client;
pub mod float;
pub mod handle;
pub mod message;
pub mod response;
pub mod value;

pub use client::OscClient;
pub use handle::OscHandle;
pub use message::OscMessageBuilder;
pub use response::{FloatBits, FromOsc};

pub use value::{
    OscBundle, OscColor, OscMessage, OscMidiMessage, OscPacket, OscTime, OscValue,
};
