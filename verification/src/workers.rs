//! What the background workers fetch.

pub mod scripts;
