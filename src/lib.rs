//! Client-side protocol logic for a multi-party FHE session: the share
//! matrix that gathers decryption shares, the session phases with their
//! transitions, the parser for operator commands, and the requests the
//! coordinator client sends.

pub mod command;
pub mod phase;
pub mod share_matrix;
mod text;
pub mod transport;
