//! Email management: account discovery, backend composition,
//! synchronization planning and IMAP/Maildir helpers.

pub mod account;
pub mod autoconfig;
pub mod backend;
pub mod id_mapper;
pub mod imap;
pub mod maildir;
pub mod notify;
pub mod sync;
pub mod text;

use vstd::prelude::*;

verus! {

/// The global error of the library.
#[derive(Debug, PartialEq, Eq)]
pub enum EmailError {
    /// An error of the IMAP helpers.
    ImapError(imap::ImapError),
}

} // verus!
