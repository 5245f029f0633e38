//! Account synchronization: the local Maildir cache that mirrors a
//! backend, for offline use.

use vstd::prelude::*;

use crate::account::config::{
    clone_opt_envelope, clone_opt_folder, clone_opt_message, opt_v, opt_view, AccountConfig,
};
use crate::account::config::AccountError;
use crate::text::{expandable, push_char, string_of, try_shell_expand};

verus! {

broadcast use vstd::string::group_string_axioms;

/// The lowercase hexadecimal digit of a number below sixteen.
pub open spec fn hex_char(d: nat) -> char {
    if d < 10 {
        (48 + d) as char
    } else {
        (87 + d) as char
    }
}

/// A number in lowercase hexadecimal, without leading zeroes
/// (`{:x}`).
pub open spec fn hex(n: nat) -> Seq<char>
    decreases n,
{
    if n < 16 {
        seq![hex_char(n)]
    } else {
        hex(n / 16).push(hex_char(n % 16))
    }
}

fn hex_digit_char(d: u64) -> (c: char)
    requires
        d < 16,
    ensures
        c == hex_char(d as nat),
{
    if d < 10 {
        ((48u64 + d) as u8) as char
    } else {
        ((87u64 + d) as u8) as char
    }
}

/// A number in lowercase hexadecimal.
pub fn hex_string(n: u64) -> (s: String)
    ensures
        s@ == hex(n as nat),
{
    let mut m: u64 = n;
    let mut v: Vec<char> = Vec::new();
    while m >= 16
        invariant
            hex(n as nat) == hex(m as nat) + v@,
        decreases m,
    {
        let ghost old_v = v@;
        let d = hex_digit_char(m % 16);
        v.insert(0, d);
        assert(hex(m as nat) == hex((m / 16) as nat).push(hex_char((m % 16) as nat)));
        assert(hex(m as nat) + old_v =~= hex((m / 16) as nat) + v@);
        m = m / 16;
    }
    let ghost old_v = v@;
    v.insert(0, hex_digit_char(m));
    assert(hex(m as nat) + old_v =~= v@);
    let mut s = String::new();
    let mut i: usize = 0;
    while i < v.len()
        invariant
            i <= v.len(),
            s@ == v@.take(i as int),
        decreases v.len() - i,
    {
        push_char(&mut s, v[i]);
        assert(v@.take(i as int).push(v@[i as int]) =~= v@.take(i + 1));
        i += 1;
    }
    assert(v@.take(v.len() as int) =~= v@);
    s
}

/// The builder of the synchronization between a backend and its local
/// Maildir cache.
pub struct AccountSyncBuilder;

impl AccountSyncBuilder {
    /// The account configuration of the cache: the account's own, with
    /// synchronization off, so that the cache does not synchronize in
    /// turn.
    pub fn cache_account_config(config: &AccountConfig) -> (c: AccountConfig)
        ensures
            c.name@ == config.name@,
            c.email@ == config.email@,
            opt_view(c.display_name) == opt_view(config.display_name),
            opt_view(c.signature) == opt_view(config.signature),
            opt_view(c.signature_delim) == opt_view(config.signature_delim),
            opt_view(c.downloads_dir) == opt_view(config.downloads_dir),
            c.sync is None,
            opt_v(c.folder) == opt_v(config.folder),
            opt_v(c.envelope) == opt_v(config.envelope),
            opt_v(c.message) == opt_v(config.message),
            opt_v(c.pgp) == opt_v(config.pgp),
    {
        AccountConfig {
            name: config.name.clone(),
            email: config.email.clone(),
            display_name: crate::account::config::clone_opt_string(&config.display_name),
            signature: crate::account::config::clone_opt_string(&config.signature),
            signature_delim: crate::account::config::clone_opt_string(&config.signature_delim),
            downloads_dir: crate::account::config::clone_opt_string(&config.downloads_dir),
            sync: None,
            folder: clone_opt_folder(&config.folder),
            envelope: clone_opt_envelope(&config.envelope),
            message: clone_opt_message(&config.message),
            pgp: crate::account::config::clone_opt_pgp(&config.pgp),
        }
    }

    /// The directories, below the user's data directory, of the cache of
    /// a backend whose configuration hashes to `hash`:
    /// `pimalaya/email/sync/` followed by the hash in hexadecimal.
    pub fn default_cache_dirs(hash: u64) -> (v: Vec<String>)
        ensures
            v@.len() == 4,
            v@[0]@ == "pimalaya"@,
            v@[1]@ == "email"@,
            v@[2]@ == "sync"@,
            v@[3]@ == hex(hash as nat),
    {
        let mut v: Vec<String> = Vec::new();
        v.push(string_of("pimalaya"));
        v.push(string_of("email"));
        v.push(string_of("sync"));
        v.push(hex_string(hash));
        v
    }
}

/// Calls `dirs::data_dir`, the user's data directory, as text. It
/// depends on the environment; nothing is claimed of it.
#[verifier::external_body]
fn user_data_dir() -> Option<String> {
    dirs::data_dir().map(|d| d.to_string_lossy().into_owned())
}

/// Where a synchronization directory lives.
#[derive(Debug, Clone)]
pub enum SyncRoot {
    /// The configured directory, expanded.
    Custom(String),
    /// The given directories below the user's data directory.
    Default { data_dir: String, dirs: Vec<String> },
}

/// The root of the cache: the configured directory once expanded, the
/// error naming it when it does not expand; without one, the default
/// directories below the data directory, the error when there is no
/// data directory.
pub fn cache_root(
    sync_dir: &Option<String>,
    expanded: Option<String>,
    data_dir: Option<String>,
    hash: u64,
) -> (r: Result<SyncRoot, AccountError>)
    ensures
        match *sync_dir {
            Some(d) => match expanded {
                Some(e) => r matches Ok(SyncRoot::Custom(x)) && x@ == e@,
                None => r matches Err(AccountError::GetSyncDirInvalidError(x)) && x@ == d@,
            },
            None => match data_dir {
                Some(dd) => r matches Ok(SyncRoot::Default { data_dir: x, dirs })
                    && x@ == dd@ && dirs@.len() == 4 && dirs@[0]@ == "pimalaya"@ && dirs@[1]@ == "email"@
                    && dirs@[2]@ == "sync"@ && dirs@[3]@ == hex(hash as nat),
                None => r matches Err(AccountError::GetXdgDataDirSyncError),
            },
        },
{
    match sync_dir {
        Some(d) => match expanded {
            Some(e) => Ok(SyncRoot::Custom(e)),
            None => Err(AccountError::GetSyncDirInvalidError(d.clone())),
        },
        None => match data_dir {
            Some(dd) => Ok(SyncRoot::Default { data_dir: dd, dirs: AccountSyncBuilder::default_cache_dirs(hash) }),
            None => Err(AccountError::GetXdgDataDirSyncError),
        },
    }
}

impl AccountSyncBuilder {
    /// The root of the cache of a backend of the account whose
    /// configuration hashes to `hash`: the account's synchronization
    /// directory, shell expanded, or else `pimalaya/email/sync/{hash}`
    /// below the user's data directory.
    pub fn sync_cache_root(config: &AccountConfig, hash: u64) -> (r: Result<SyncRoot, AccountError>)
        ensures
            match config.sync {
                Some(s) => match s.dir {
                    Some(d) => !expandable(d@) ==> (r matches Ok(SyncRoot::Custom(x)) && x@ == d@),
                    None => r matches Ok(SyncRoot::Default { dirs, .. })
                        && dirs@.len() == 4 && dirs@[3]@ == hex(hash as nat)
                        || r matches Err(AccountError::GetXdgDataDirSyncError),
                },
                None => r matches Ok(SyncRoot::Default { dirs, .. })
                    && dirs@.len() == 4 && dirs@[3]@ == hex(hash as nat)
                    || r matches Err(AccountError::GetXdgDataDirSyncError),
            },
            r matches Err(AccountError::GetSyncDirInvalidError(x)) ==> (config.sync matches Some(s)
                && s.dir matches Some(d) && x@ == d@ && expandable(d@)),
    {
        let dir: Option<String> = match &config.sync {
            Some(s) => crate::account::config::clone_opt_string(&s.dir),
            None => None,
        };
        match &dir {
            Some(d) => {
                let expanded = try_shell_expand(d.as_str());
                cache_root(&dir, expanded, None, hash)
            },
            None => cache_root(&dir, None, user_data_dir(), hash),
        }
    }
}

/// The synchronization directory of an account: the configured one as
/// it expands, or else `himalaya/{name}` below the data directory, the
/// error when there is no data directory.
pub fn sync_dir_root(
    sync_dir: &Option<String>,
    expanded: String,
    data_dir: Option<String>,
    name: &str,
) -> (r: Result<SyncRoot, AccountError>)
    ensures
        match *sync_dir {
            Some(_) => r matches Ok(SyncRoot::Custom(x)) && x@ == expanded@,
            None => match data_dir {
                Some(dd) => r matches Ok(SyncRoot::Default { data_dir: x, dirs })
                    && x@ == dd@ && dirs@.len() == 2 && dirs@[0]@ == "himalaya"@ && dirs@[1]@ == name@,
                None => r matches Err(AccountError::GetXdgDataDirError),
            },
        },
{
    match sync_dir {
        Some(_) => Ok(SyncRoot::Custom(expanded)),
        None => match data_dir {
            Some(dd) => {
                let mut dirs: Vec<String> = Vec::new();
                dirs.push(string_of("himalaya"));
                dirs.push(string_of(name));
                Ok(SyncRoot::Default { data_dir: dd, dirs })
            },
            None => Err(AccountError::GetXdgDataDirError),
        },
    }
}

impl AccountConfig {
    /// Where the account's synchronization directory lives: its
    /// configured directory, shell expanded (kept as it is when it does
    /// not expand), or else `himalaya/{name}` below the user's data
    /// directory.
    pub fn get_sync_dir_root(&self) -> (r: Result<SyncRoot, AccountError>)
        ensures
            match self.sync {
                Some(s) => match s.dir {
                    Some(d) => !expandable(d@) ==> (r matches Ok(SyncRoot::Custom(x)) && x@ == d@),
                    None => r matches Ok(SyncRoot::Default { dirs, .. }) && dirs@.len() == 2
                        && dirs@[0]@ == "himalaya"@ && dirs@[1]@ == self.name@
                        || r matches Err(AccountError::GetXdgDataDirError),
                },
                None => r matches Ok(SyncRoot::Default { dirs, .. }) && dirs@.len() == 2
                    && dirs@[0]@ == "himalaya"@ && dirs@[1]@ == self.name@
                    || r matches Err(AccountError::GetXdgDataDirError),
            },
            r matches Ok(SyncRoot::Custom(_)) ==> (self.sync matches Some(s) && s.dir is Some),
    {
        let dir: Option<String> = match &self.sync {
            Some(s) => crate::account::config::clone_opt_string(&s.dir),
            None => None,
        };
        match &dir {
            Some(d) => {
                let expanded = crate::text::shell_expand(d.as_str());
                sync_dir_root(&dir, expanded, None, self.name.as_str())
            },
            None => sync_dir_root(&dir, String::new(), user_data_dir(), self.name.as_str()),
        }
    }
}

/// Which folders a synchronization takes.
#[derive(Debug, Clone, PartialEq, Eq)]
pub enum FolderSyncStrategy {
    /// Every folder.
    All,
    /// Only these folders.
    Include(Vec<String>),
    /// Every folder but these.
    Exclude(Vec<String>),
}

/// Each folder of the list is the alias of the folder at the same place
/// of the other list.
pub open spec fn aliases_of(config: AccountConfig, folders: Seq<String>, aliases: Seq<String>) -> bool {
    &&& aliases.len() == folders.len()
    &&& forall|i: int| 0 <= i < folders.len() ==> config.is_folder_alias(#[trigger] folders[i]@, aliases[i]@)
}

impl AccountConfig {
    /// The aliases of the folders, in order.
    pub fn folder_aliases(&self, folders: &Vec<String>) -> (r: Vec<String>)
        ensures
            aliases_of(*self, folders@, r@),
    {
        let mut r: Vec<String> = Vec::new();
        let mut i: usize = 0;
        while i < folders.len()
            invariant
                i <= folders@.len(),
                r@.len() == i,
                forall|k: int| 0 <= k < i ==> self.is_folder_alias(#[trigger] folders@[k]@, r@[k]@),
            decreases folders.len() - i,
        {
            let a = self.get_folder_alias(folders[i].as_str());
            r.push(a);
            i += 1;
        }
        r
    }

    /// The folder strategy of a synchronization with the folders it
    /// names replaced by their aliases.
    pub fn sync_folders_strategy(&self, strategy: &FolderSyncStrategy) -> (r: FolderSyncStrategy)
        ensures
            match *strategy {
                FolderSyncStrategy::All => r is All,
                FolderSyncStrategy::Include(fs) => r matches FolderSyncStrategy::Include(a) && aliases_of(*self, fs@, a@),
                FolderSyncStrategy::Exclude(fs) => r matches FolderSyncStrategy::Exclude(a) && aliases_of(*self, fs@, a@),
            },
    {
        match strategy {
            FolderSyncStrategy::All => FolderSyncStrategy::All,
            FolderSyncStrategy::Include(fs) => FolderSyncStrategy::Include(self.folder_aliases(fs)),
            FolderSyncStrategy::Exclude(fs) => FolderSyncStrategy::Exclude(self.folder_aliases(fs)),
        }
    }
}

} // verus!
