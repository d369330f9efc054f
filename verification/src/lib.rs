//! Coordination core of a dashboard backend: a bearer credential that is
//! refreshed before it expires, a periodically refreshed snapshot cache and a
//! hub that fans events out to live subscribers.

pub mod assets;
pub mod cache;
pub mod errors;
pub mod hub;
pub mod ping_logs;
pub mod select;
pub mod state;
pub mod string_map;
pub mod text;
pub mod token;
pub mod trees;
pub mod workers;
