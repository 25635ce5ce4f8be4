//! What the HTTP handlers decide before and after they call the services:
//! which requests are valid and what the responses hold.
pub mod comics;
pub mod favorite_sync;
pub mod favorites;
