//! The platform's logs: what they hold and how they are asked for.

pub mod logs;
pub mod service;
