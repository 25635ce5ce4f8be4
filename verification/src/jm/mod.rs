//! The upstream comic service's data: how loosely typed JSON fields are
//! read, and the normalized models built from them.
pub mod models;
pub mod serde_ext;
