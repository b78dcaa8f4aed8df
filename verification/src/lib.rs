//! Rig control for amateur radio transceivers: operating modes, levels, and the Elecraft CAT
//! (computer-aided transceiver) protocol, with each command's encoding and each response's
//! decoding stated and proved.

pub mod error;
pub mod protocol;
pub mod api;
pub mod entities;
pub mod modes;
