//! 802.11 frames.

pub mod data;
pub mod header;
