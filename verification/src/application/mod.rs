//! The services behind the HTTP handlers: local favorites, reading history,
//! the account session they depend on, and favorite synchronization.
pub mod account;
pub mod favorite;
pub mod favorite_sync;
pub mod history;
