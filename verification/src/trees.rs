//! The journeys of the platform.

pub mod journeys;
pub mod nodes;
pub mod service;
