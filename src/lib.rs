//! Time-based one-time passwords for named sites, with the checks that a
//! site name and a shared secret must pass before they are stored.

pub mod completion;
pub mod config;
pub mod crypto;
pub mod error;
pub mod store;
pub mod validate;
pub mod totp;
