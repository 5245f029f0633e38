//! Account configuration discovery, after the Thunderbird
//! Autoconfiguration standard.

pub mod config;
pub mod discover;
pub mod dns;
