//! The verified core of the comic server: the rules by which upstream data is
//! read, requests are checked, favorites are stored and ordered, and the
//! favorite synchronization state machine moves between its states.
pub mod api;
pub mod application;
pub mod clock;
pub mod http_error;
pub mod jm;
pub mod json_text;
pub mod text;
