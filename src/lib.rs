//! Server side of the IBM 3270 data stream over TN3270: EBCDIC translation,
//! buffer addressing, outbound write commands, inbound record parsing and
//! telnet record framing.

pub mod encoding;
pub mod server;
