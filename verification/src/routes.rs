//! The HTTP surface.

pub mod session;
