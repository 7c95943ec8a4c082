//! Session authentication for an HTTP service: username/password login,
//! sessions named by an opaque id that travels in a signed cookie, and the
//! controller that resolves the caller's session once per request.

pub mod result;
pub mod routes;
pub mod scan;
pub mod json;
pub mod keyed;
pub mod laws;
pub mod login;
pub mod pipeline;
pub mod sessions;
pub mod text;
pub mod token;
pub mod users;
