//! WebSocket protocol primitives: the opcode and close-code wire tables,
//! an RFC 4648 base64 encoder, and the opening-handshake accept-key
//! derivation that composes a SHA-1 digest with the base64 encoder.

pub mod accept;
pub mod base64;
pub mod codes;
