//! Account configuration.

pub mod config;
pub mod oauth2;
pub mod pgp;
pub mod sync;
