//! The 3270 data stream and its telnet framing.

pub mod aid;
pub mod color;
pub mod extended_field_attributes;
pub mod highlighting;
pub mod round_trip;
pub mod stream;
pub mod telnet;
pub mod transparency;
pub mod wcc;
