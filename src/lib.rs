//! A client for an attendance portal: the login handshake, the scraping of
//! anti-forgery tokens and the building of clock-in, clock-out and
//! password-change submissions, as a verified protocol machine that a thin
//! transport layer drives.

pub mod api;
pub mod condition;
pub mod config;
pub mod error;
pub mod date;
pub mod operation;
pub mod outcome;
pub mod request;
pub mod text;
pub mod token;
