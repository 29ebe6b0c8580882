//! Plain `#RRGGBB` colours with 0..=255 channels.

pub mod color;
