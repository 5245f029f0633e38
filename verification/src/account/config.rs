//! The account configuration: what a user can customize for one
//! account, with the defaults that apply where nothing is set.

use std::path::{Path, PathBuf};

use vstd::prelude::*;

use crate::text::{
    expandable, shell_expand, str_eq, string_of, to_lowercase, trim, trim_spec, lowercase_of,
    push_str, from_chars,
};

verus! {

broadcast use vstd::string::group_string_axioms;

/// The number of envelopes on a page when nothing else is set.
pub const DEFAULT_PAGE_SIZE: usize = 10;
/// The line that separates a message from its signature.
pub const DEFAULT_SIGNATURE_DELIM: &'static str = "-- \n";
/// The inbox folder.
pub const DEFAULT_INBOX_FOLDER: &'static str = "INBOX";
/// The sent folder.
pub const DEFAULT_SENT_FOLDER: &'static str = "Sent";
/// The drafts folder.
pub const DEFAULT_DRAFTS_FOLDER: &'static str = "Drafts";
/// The trash folder.
pub const DEFAULT_TRASH_FOLDER: &'static str = "Trash";

/// Errors of the account configuration.
#[derive(Debug, PartialEq, Eq)]
pub enum AccountError {
    /// No account of that name is configured.
    GetAccountConfigNotFoundError(String),
    /// The path has no file name to number.
    ParseDownloadFileNameError(String),
    /// Every numbered name of the path, up to the last count, is taken.
    DuplicateFileCountOverflowError(String),
    /// The path has no file name.
    GetFileNameFromPathError(String),
    /// The configured synchronization directory does not expand.
    GetSyncDirInvalidError(String),
    /// The user's data directory is unknown, for the cache of a
    /// synchronized backend.
    GetXdgDataDirSyncError,
    /// The user's data directory is unknown, for the synchronization
    /// directory of an account.
    GetXdgDataDirError,
}

/// The synchronization configuration.
#[derive(Debug)]
pub struct SyncConfig {
    pub enable: Option<bool>,
    pub dir: Option<String>,
}

/// The folder configuration: aliases from a lowercase folder name to the
/// name the backend uses.
#[derive(Debug)]
pub struct FolderConfig {
    pub aliases: Option<Vec<(String, String)>>,
}

/// The envelope listing configuration.
#[derive(Debug)]
pub struct EnvelopeListConfig {
    pub page_size: Option<usize>,
    pub datetime_fmt: Option<String>,
    pub datetime_local_tz: Option<bool>,
}

/// The envelope configuration.
#[derive(Debug)]
pub struct EnvelopeConfig {
    pub list: Option<EnvelopeListConfig>,
}

/// The headers configuration of reading or writing messages.
#[derive(Debug)]
pub struct MessageHeadersConfig {
    pub headers: Option<Vec<String>>,
}

/// The message sending configuration.
#[derive(Debug)]
pub struct MessageSendConfig {
    pub save_copy: Option<bool>,
}

/// The message configuration.
#[derive(Debug)]
pub struct MessageConfig {
    pub read: Option<MessageHeadersConfig>,
    pub write: Option<MessageHeadersConfig>,
    pub send: Option<MessageSendConfig>,
}

/// The view of an optional value.
pub open spec fn opt_v<T: View>(o: Option<T>) -> Option<T::V> {
    match o {
        Some(x) => Some(x@),
        None => None,
    }
}

/// The view of a sequence of string pairs.
pub open spec fn pair_views(v: Seq<(String, String)>) -> Seq<(Seq<char>, Seq<char>)> {
    v.map_values(|p: (String, String)| (p.0@, p.1@))
}

impl View for SyncConfig {
    type V = (Option<bool>, Option<Seq<char>>);

    open spec fn view(&self) -> Self::V {
        (self.enable, opt_view(self.dir))
    }
}

impl View for FolderConfig {
    type V = Option<Seq<(Seq<char>, Seq<char>)>>;

    open spec fn view(&self) -> Self::V {
        match self.aliases {
            Some(a) => Some(pair_views(a@)),
            None => None,
        }
    }
}

impl View for EnvelopeListConfig {
    type V = (Option<usize>, Option<Seq<char>>, Option<bool>);

    open spec fn view(&self) -> Self::V {
        (self.page_size, opt_view(self.datetime_fmt), self.datetime_local_tz)
    }
}

impl View for EnvelopeConfig {
    type V = Option<(Option<usize>, Option<Seq<char>>, Option<bool>)>;

    open spec fn view(&self) -> Self::V {
        opt_v(self.list)
    }
}

impl View for MessageHeadersConfig {
    type V = Option<Seq<Seq<char>>>;

    open spec fn view(&self) -> Self::V {
        match self.headers {
            Some(h) => Some(views(h@)),
            None => None,
        }
    }
}

impl View for MessageSendConfig {
    type V = Option<bool>;

    open spec fn view(&self) -> Self::V {
        self.save_copy
    }
}

impl View for MessageConfig {
    type V = (Option<Option<Seq<Seq<char>>>>, Option<Option<Seq<Seq<char>>>>, Option<Option<bool>>);

    open spec fn view(&self) -> Self::V {
        (opt_v(self.read), opt_v(self.write), opt_v(self.send))
    }
}

pub(crate) fn clone_opt_string(o: &Option<String>) -> (r: Option<String>)
    ensures
        opt_view(r) == opt_view(*o),
{
    match o {
        Some(s) => Some(s.clone()),
        None => None,
    }
}

fn clone_pairs(v: &Vec<(String, String)>) -> (r: Vec<(String, String)>)
    ensures
        pair_views(r@) == pair_views(v@),
{
    let mut r: Vec<(String, String)> = Vec::new();
    let mut i: usize = 0;
    while i < v.len()
        invariant
            i <= v.len(),
            pair_views(r@) == pair_views(v@.take(i as int)),
        decreases v.len() - i,
    {
        let ghost before = pair_views(r@);
        let p = (v[i].0.clone(), v[i].1.clone());
        r.push(p);
        assert(pair_views(r@) =~= before.push((p.0@, p.1@)));
        assert(pair_views(v@.take(i + 1)) =~= pair_views(v@.take(i as int)).push((v@[i as int].0@, v@[i as int].1@)));
        i += 1;
    }
    assert(v@.take(i as int) =~= v@);
    r
}

impl Clone for SyncConfig {
    fn clone(&self) -> (r: Self)
        ensures
            r@ == self@,
    {
        SyncConfig { enable: self.enable, dir: clone_opt_string(&self.dir) }
    }
}

impl Clone for FolderConfig {
    fn clone(&self) -> (r: Self)
        ensures
            r@ == self@,
    {
        match &self.aliases {
            Some(a) => FolderConfig { aliases: Some(clone_pairs(a)) },
            None => FolderConfig { aliases: None },
        }
    }
}

impl Clone for EnvelopeListConfig {
    fn clone(&self) -> (r: Self)
        ensures
            r@ == self@,
    {
        EnvelopeListConfig {
            page_size: self.page_size,
            datetime_fmt: clone_opt_string(&self.datetime_fmt),
            datetime_local_tz: self.datetime_local_tz,
        }
    }
}

impl Clone for EnvelopeConfig {
    fn clone(&self) -> (r: Self)
        ensures
            r@ == self@,
    {
        match &self.list {
            Some(l) => EnvelopeConfig { list: Some(l.clone()) },
            None => EnvelopeConfig { list: None },
        }
    }
}

impl Clone for MessageHeadersConfig {
    fn clone(&self) -> (r: Self)
        ensures
            r@ == self@,
    {
        match &self.headers {
            Some(h) => MessageHeadersConfig { headers: Some(clone_strings(h)) },
            None => MessageHeadersConfig { headers: None },
        }
    }
}

impl Clone for MessageSendConfig {
    fn clone(&self) -> (r: Self)
        ensures
            r@ == self@,
    {
        MessageSendConfig { save_copy: self.save_copy }
    }
}

fn clone_opt_headers(o: &Option<MessageHeadersConfig>) -> (r: Option<MessageHeadersConfig>)
    ensures
        opt_v(r) == opt_v(*o),
{
    match o {
        Some(h) => Some(h.clone()),
        None => None,
    }
}

impl Clone for MessageConfig {
    fn clone(&self) -> (r: Self)
        ensures
            r@ == self@,
    {
        MessageConfig {
            read: clone_opt_headers(&self.read),
            write: clone_opt_headers(&self.write),
            send: match &self.send {
                Some(s) => Some(s.clone()),
                None => None,
            },
        }
    }
}

fn clone_opt_sync(o: &Option<SyncConfig>) -> (r: Option<SyncConfig>)
    ensures
        opt_v(r) == opt_v(*o),
{
    match o {
        Some(x) => Some(x.clone()),
        None => None,
    }
}

pub(crate) fn clone_opt_folder(o: &Option<FolderConfig>) -> (r: Option<FolderConfig>)
    ensures
        opt_v(r) == opt_v(*o),
{
    match o {
        Some(x) => Some(x.clone()),
        None => None,
    }
}

pub(crate) fn clone_opt_envelope(o: &Option<EnvelopeConfig>) -> (r: Option<EnvelopeConfig>)
    ensures
        opt_v(r) == opt_v(*o),
{
    match o {
        Some(x) => Some(x.clone()),
        None => None,
    }
}

pub(crate) fn clone_opt_message(o: &Option<MessageConfig>) -> (r: Option<MessageConfig>)
    ensures
        opt_v(r) == opt_v(*o),
{
    match o {
        Some(x) => Some(x.clone()),
        None => None,
    }
}

/// The user's configuration of one account.
#[derive(Debug, Clone)]
pub struct AccountConfig {
    /// The name of the account, its identifier.
    pub name: String,
    /// The email address of the account.
    pub email: String,
    /// The display name of the user.
    pub display_name: Option<String>,
    /// The signature: a path to a file or the raw text.
    pub signature: Option<String>,
    /// The line that separates a message from the signature.
    pub signature_delim: Option<String>,
    /// The downloads directory.
    pub downloads_dir: Option<String>,
    pub sync: Option<SyncConfig>,
    pub folder: Option<FolderConfig>,
    pub envelope: Option<EnvelopeConfig>,
    pub message: Option<MessageConfig>,
    /// The PGP configuration.
    pub pgp: Option<PgpConfig>,
}

/// The views of a sequence of strings.
pub open spec fn views(v: Seq<String>) -> Seq<Seq<char>> {
    v.map_values(|s: String| s@)
}

/// The value of the first pair whose key is `key`.
pub open spec fn lookup(pairs: Seq<(String, String)>, key: Seq<char>) -> Option<Seq<char>>
    decreases pairs.len(),
{
    if pairs.len() == 0 {
        None
    } else if pairs[0].0@ == key {
        Some(pairs[0].1@)
    } else {
        lookup(pairs.drop_first(), key)
    }
}

fn lookup_pairs(pairs: &Vec<(String, String)>, key: &str) -> (r: Option<String>)
    ensures
        match lookup(pairs@, key@) {
            Some(v) => r matches Some(s) && s@ == v,
            None => r is None,
        },
{
    let mut i: usize = 0;
    assert(pairs@.skip(0) =~= pairs@);
    while i < pairs.len()
        invariant
            i <= pairs.len(),
            lookup(pairs@, key@) == lookup(pairs@.skip(i as int), key@),
        decreases pairs.len() - i,
    {
        assert(pairs@.skip(i as int).drop_first() =~= pairs@.skip(i + 1));
        if str_eq(pairs[i].0.as_str(), key) {
            return Some(pairs[i].1.clone());
        }
        i += 1;
    }
    None
}

fn clone_strings(v: &Vec<String>) -> (r: Vec<String>)
    ensures
        views(r@) == views(v@),
{
    let mut r: Vec<String> = Vec::new();
    let mut i: usize = 0;
    while i < v.len()
        invariant
            i <= v.len(),
            views(r@) == views(v@.take(i as int)),
        decreases v.len() - i,
    {
        let ghost before = views(r@);
        let c = v[i].clone();
        r.push(c);
        assert(views(r@) =~= before.push(c@));
        assert(views(v@.take(i + 1)) =~= views(v@.take(i as int)).push(v@[i as int]@));
        i += 1;
    }
    assert(v@.take(i as int) =~= v@);
    r
}

fn strings_of(items: &[&str]) -> (r: Vec<String>)
    ensures
        views(r@) == items@.map_values(|s: &str| s@),
{
    let mut r: Vec<String> = Vec::new();
    let mut i: usize = 0;
    while i < items.len()
        invariant
            i <= items.len(),
            views(r@) == items@.take(i as int).map_values(|s: &str| s@),
        decreases items.len() - i,
    {
        let ghost before = views(r@);
        let c = string_of(items[i]);
        r.push(c);
        assert(views(r@) =~= before.push(c@));
        assert(items@.take(i + 1).map_values(|s: &str| s@) =~= items@.take(i as int).map_values(|s: &str| s@).push(items@[i as int]@));
        i += 1;
    }
    assert(items@.take(i as int) =~= items@);
    r
}

/// The headers shown when reading a message and nothing else is set.
pub open spec fn default_read_headers() -> Seq<Seq<char>> {
    seq!["From"@, "To"@, "Cc"@, "Subject"@]
}

/// The headers shown when writing a message and nothing else is set.
pub open spec fn default_write_headers() -> Seq<Seq<char>> {
    seq!["From"@, "To"@, "In-Reply-To"@, "Cc"@, "Subject"@]
}

/// The folder that a special folder name stands for when no alias is
/// configured, for a lowercase name.
pub open spec fn special_folder(key: Seq<char>) -> Option<Seq<char>> {
    if key == "inbox"@ {
        Some(DEFAULT_INBOX_FOLDER@)
    } else if key == "draft"@ || key == "drafts"@ {
        Some(DEFAULT_DRAFTS_FOLDER@)
    } else if key == "sent"@ {
        Some(DEFAULT_SENT_FOLDER@)
    } else if key == "trash"@ {
        Some(DEFAULT_TRASH_FOLDER@)
    } else {
        None
    }
}

impl AccountConfig {
    /// An account configuration with only a name and an address.
    pub fn new(name: &str, email: &str) -> (c: Self)
        ensures
            c.name@ == name@,
            c.email@ == email@,
            c.display_name is None,
            c.signature is None,
            c.signature_delim is None,
            c.downloads_dir is None,
            c.sync is None,
            c.folder is None,
            c.envelope is None,
            c.message is None,
            c.pgp is None,
    {
        AccountConfig {
            name: string_of(name),
            email: string_of(email),
            display_name: None,
            signature: None,
            signature_delim: None,
            downloads_dir: None,
            sync: None,
            folder: None,
            envelope: None,
            message: None,
            pgp: None,
        }
    }

    /// The configured aliases, none when nothing is set.
    pub open spec fn aliases_spec(&self) -> Seq<(String, String)> {
        match self.folder {
            Some(f) => match f.aliases {
                Some(a) => a@,
                None => seq![],
            },
            None => seq![],
        }
    }

    /// Whether synchronization is enabled.
    pub open spec fn sync_enabled_spec(&self) -> bool {
        match self.sync {
            Some(s) => match s.enable {
                Some(b) => b,
                None => false,
            },
            None => false,
        }
    }

    /// The envelope listing configuration, if any.
    pub open spec fn list_spec(&self) -> Option<EnvelopeListConfig> {
        match self.envelope {
            Some(e) => e.list,
            None => None,
        }
    }

    /// The page size of envelope listings.
    pub open spec fn page_size_spec(&self) -> nat {
        match self.list_spec() {
            Some(l) => match l.page_size {
                Some(n) => n as nat,
                None => DEFAULT_PAGE_SIZE as nat,
            },
            None => DEFAULT_PAGE_SIZE as nat,
        }
    }

    /// The headers shown when reading a message.
    pub open spec fn read_headers_spec(&self) -> Seq<Seq<char>> {
        match self.message {
            Some(m) => match m.read {
                Some(r) => match r.headers {
                    Some(h) => views(h@),
                    None => default_read_headers(),
                },
                None => default_read_headers(),
            },
            None => default_read_headers(),
        }
    }

    /// The headers shown when writing a message.
    pub open spec fn write_headers_spec(&self) -> Seq<Seq<char>> {
        match self.message {
            Some(m) => match m.write {
                Some(w) => match w.headers {
                    Some(h) => views(h@),
                    None => default_write_headers(),
                },
                None => default_write_headers(),
            },
            None => default_write_headers(),
        }
    }

    /// Whether sent messages are copied to the sent folder.
    pub open spec fn save_copy_spec(&self) -> bool {
        match self.message {
            Some(m) => match m.send {
                Some(s) => match s.save_copy {
                    Some(b) => b,
                    None => false,
                },
                None => false,
            },
            None => false,
        }
    }

    /// The signature delimiter.
    pub open spec fn delim_spec(&self) -> Seq<char> {
        match self.signature_delim {
            Some(d) => d@,
            None => DEFAULT_SIGNATURE_DELIM@,
        }
    }

    /// Whether synchronization is enabled (off when nothing is set).
    pub fn is_sync_enabled(&self) -> (b: bool)
        ensures
            b == self.sync_enabled_spec(),
    {
        match &self.sync {
            Some(s) => match s.enable {
                Some(b) => b,
                None => false,
            },
            None => false,
        }
    }

    /// The page size of envelope listings, ten when nothing is set.
    pub fn get_envelope_list_page_size(&self) -> (n: usize)
        ensures
            n == self.page_size_spec(),
    {
        match &self.envelope {
            Some(e) => match &e.list {
                Some(l) => match l.page_size {
                    Some(n) => n,
                    None => DEFAULT_PAGE_SIZE,
                },
                None => DEFAULT_PAGE_SIZE,
            },
            None => DEFAULT_PAGE_SIZE,
        }
    }

    /// The headers shown when reading a message, `From`, `To`, `Cc` and
    /// `Subject` when nothing is set.
    pub fn get_message_read_headers(&self) -> (h: Vec<String>)
        ensures
            views(h@) == self.read_headers_spec(),
    {
        if let Some(m) = &self.message {
            if let Some(r) = &m.read {
                if let Some(h) = &r.headers {
                    return clone_strings(h);
                }
            }
        }
        let r = strings_of(&["From", "To", "Cc", "Subject"]);
        assert(views(r@) =~= default_read_headers());
        r
    }

    /// The headers shown when writing a message, `From`, `To`,
    /// `In-Reply-To`, `Cc` and `Subject` when nothing is set.
    pub fn get_message_write_headers(&self) -> (h: Vec<String>)
        ensures
            views(h@) == self.write_headers_spec(),
    {
        if let Some(m) = &self.message {
            if let Some(w) = &m.write {
                if let Some(h) = &w.headers {
                    return clone_strings(h);
                }
            }
        }
        let r = strings_of(&["From", "To", "In-Reply-To", "Cc", "Subject"]);
        assert(views(r@) =~= default_write_headers());
        r
    }

    /// Whether sent messages are copied to the sent folder (not when
    /// nothing is set).
    pub fn should_save_copy_sent_message(&self) -> (b: bool)
        ensures
            b == self.save_copy_spec(),
    {
        match &self.message {
            Some(m) => match &m.send {
                Some(s) => match s.save_copy {
                    Some(b) => b,
                    None => false,
                },
                None => false,
            },
            None => false,
        }
    }

    /// The datetime format of envelope listings, `%F %R%:z` when nothing
    /// is set.
    pub fn get_envelope_list_datetime_fmt(&self) -> (f: String)
        ensures
            f@ == match self.list_spec() {
                Some(l) => match l.datetime_fmt {
                    Some(f) => f@,
                    None => "%F %R%:z"@,
                },
                None => "%F %R%:z"@,
            },
    {
        if let Some(e) = &self.envelope {
            if let Some(l) = &e.list {
                if let Some(f) = &l.datetime_fmt {
                    return f.clone();
                }
            }
        }
        string_of("%F %R%:z")
    }

    /// Whether envelope listings show dates in the local time zone (not
    /// when nothing is set).
    pub fn has_envelope_list_datetime_local_tz(&self) -> (b: bool)
        ensures
            b == match self.list_spec() {
                Some(l) => match l.datetime_local_tz {
                    Some(b) => b,
                    None => false,
                },
                None => false,
            },
    {
        match &self.envelope {
            Some(e) => match &e.list {
                Some(l) => match l.datetime_local_tz {
                    Some(b) => b,
                    None => false,
                },
                None => false,
            },
            None => false,
        }
    }

    /// The signature delimiter, `-- \n` when nothing is set.
    pub fn signature_delim_or_default(&self) -> (d: String)
        ensures
            d@ == self.delim_spec(),
    {
        match &self.signature_delim {
            Some(d) => d.clone(),
            None => string_of(DEFAULT_SIGNATURE_DELIM),
        }
    }

    /// The full signature: the delimiter followed by the signature text
    /// without surrounding white space. The text is the content of the
    /// signature file, or the raw signature when it names no readable
    /// file; reading it is left to the caller.
    pub fn full_signature(&self, text: &str) -> (s: String)
        ensures
            s@ == self.delim_spec() + trim_spec(text@),
    {
        let d = self.signature_delim_or_default();
        let t = trim(text);
        let mut v: Vec<char> = Vec::new();
        push_str(&mut v, d.as_str());
        push_str(&mut v, t.as_str());
        from_chars(&v)
    }

    /// The alias of a folder: the configured alias of its trimmed,
    /// lowercase name, shell expanded.
    pub fn find_folder_alias(&self, folder: &str) -> (r: Option<String>)
        ensures
            match lookup(self.aliases_spec(), lowercase_of(trim_spec(folder@))) {
                Some(a) => r matches Some(s) && (!expandable(a) ==> s@ == a),
                None => r is None,
            },
    {
        let t = trim(folder);
        let key = to_lowercase(t.as_str());
        match &self.folder {
            Some(f) => match &f.aliases {
                Some(a) => match lookup_pairs(a, key.as_str()) {
                    Some(alias) => Some(shell_expand(alias.as_str())),
                    None => None,
                },
                None => None,
            },
            None => None,
        }
    }

    /// `r` is the alias of `folder`: its configured alias, else the
    /// default name of a special folder, else the folder itself (what
    /// shell expansion gives is left open).
    pub open spec fn is_folder_alias(&self, folder: Seq<char>, r: Seq<char>) -> bool {
        match lookup(self.aliases_spec(), lowercase_of(trim_spec(folder))) {
            Some(a) => !expandable(a) ==> r == a,
            None => match special_folder(lowercase_of(trim_spec(folder))) {
                Some(d) => r == d,
                None => !expandable(folder) ==> r == folder,
            },
        }
    }

    /// The alias of a folder; without one, the default name of a
    /// special folder (`inbox`, `draft` or `drafts`, `sent`, `trash`),
    /// otherwise the folder itself, shell expanded.
    pub fn get_folder_alias(&self, folder: &str) -> (r: String)
        ensures
            match lookup(self.aliases_spec(), lowercase_of(trim_spec(folder@))) {
                Some(a) => !expandable(a) ==> r@ == a,
                None => match special_folder(lowercase_of(trim_spec(folder@))) {
                    Some(d) => r@ == d,
                    None => !expandable(folder@) ==> r@ == folder@,
                },
            },
    {
        match self.find_folder_alias(folder) {
            Some(a) => a,
            None => {
                let t = trim(folder);
                let key = to_lowercase(t.as_str());
                let k = key.as_str();
                if str_eq(k, "inbox") {
                    string_of(DEFAULT_INBOX_FOLDER)
                } else if str_eq(k, "draft") || str_eq(k, "drafts") {
                    string_of(DEFAULT_DRAFTS_FOLDER)
                } else if str_eq(k, "sent") {
                    string_of(DEFAULT_SENT_FOLDER)
                } else if str_eq(k, "trash") {
                    string_of(DEFAULT_TRASH_FOLDER)
                } else {
                    shell_expand(folder)
                }
            },
        }
    }

    /// The alias of the inbox folder.
    pub fn get_inbox_folder_alias(&self) -> (r: String)
        ensures
            match lookup(self.aliases_spec(), lowercase_of(trim_spec(DEFAULT_INBOX_FOLDER@))) {
                Some(a) => !expandable(a) ==> r@ == a,
                None => match special_folder(lowercase_of(trim_spec(DEFAULT_INBOX_FOLDER@))) {
                    Some(d) => r@ == d,
                    None => !expandable(DEFAULT_INBOX_FOLDER@) ==> r@ == DEFAULT_INBOX_FOLDER@,
                },
            },
    {
        self.get_folder_alias(DEFAULT_INBOX_FOLDER)
    }

    /// The alias of the drafts folder.
    pub fn get_drafts_folder_alias(&self) -> (r: String)
        ensures
            match lookup(self.aliases_spec(), lowercase_of(trim_spec(DEFAULT_DRAFTS_FOLDER@))) {
                Some(a) => !expandable(a) ==> r@ == a,
                None => match special_folder(lowercase_of(trim_spec(DEFAULT_DRAFTS_FOLDER@))) {
                    Some(d) => r@ == d,
                    None => !expandable(DEFAULT_DRAFTS_FOLDER@) ==> r@ == DEFAULT_DRAFTS_FOLDER@,
                },
            },
    {
        self.get_folder_alias(DEFAULT_DRAFTS_FOLDER)
    }

    /// The alias of the sent folder.
    pub fn get_sent_folder_alias(&self) -> (r: String)
        ensures
            match lookup(self.aliases_spec(), lowercase_of(trim_spec(DEFAULT_SENT_FOLDER@))) {
                Some(a) => !expandable(a) ==> r@ == a,
                None => match special_folder(lowercase_of(trim_spec(DEFAULT_SENT_FOLDER@))) {
                    Some(d) => r@ == d,
                    None => !expandable(DEFAULT_SENT_FOLDER@) ==> r@ == DEFAULT_SENT_FOLDER@,
                },
            },
    {
        self.get_folder_alias(DEFAULT_SENT_FOLDER)
    }

    /// The alias of the trash folder.
    pub fn get_trash_folder_alias(&self) -> (r: String)
        ensures
            match lookup(self.aliases_spec(), lowercase_of(trim_spec(DEFAULT_TRASH_FOLDER@))) {
                Some(a) => !expandable(a) ==> r@ == a,
                None => match special_folder(lowercase_of(trim_spec(DEFAULT_TRASH_FOLDER@))) {
                    Some(d) => r@ == d,
                    None => !expandable(DEFAULT_TRASH_FOLDER@) ==> r@ == DEFAULT_TRASH_FOLDER@,
                },
            },
    {
        self.get_folder_alias(DEFAULT_TRASH_FOLDER)
    }
}

/// A file name that every platform reads the same way: not empty, with
/// no separator or drive colon in it, and neither `.` nor `..`.
pub open spec fn simple_segment(s: Seq<char>) -> bool {
    &&& s.len() > 0
    &&& forall|i: int| 0 <= i < s.len() ==> s[i] != '/' && s[i] != '\\' && s[i] != ':'
    &&& s != seq!['.']
    &&& s != seq!['.', '.']
}

/// A path with no backslash, no colon and no leading double slash: it
/// has no Windows prefix, and `/` is its only separator everywhere.
pub open spec fn portable(p: Seq<char>) -> bool {
    &&& forall|i: int| 0 <= i < p.len() ==> p[i] != '\\' && p[i] != ':'
    &&& !(p.len() >= 2 && p[0] == '/' && p[1] == '/')
}

/// A portable directory path that ends in a name: not a separator and
/// not a `.` segment.
pub open spec fn portable_dir(d: Seq<char>) -> bool {
    &&& d.len() > 0
    &&& portable(d)
    &&& d.last() != '/'
    &&& d != seq!['.']
    &&& !(d.len() >= 2 && d.last() == '.' && d[d.len() - 2] == '/')
}

/// `path` is the file `name` in the directory `dir`.
pub open spec fn file_in(path: Seq<char>, dir: Seq<char>, name: Seq<char>) -> bool {
    portable_dir(dir) && simple_segment(name) && path == dir + seq!['/'] + name
}

/// `name` is the file name of `path` on every platform.
pub open spec fn has_file_name(path: Seq<char>, name: Seq<char>) -> bool {
    ||| simple_segment(path) && name == path
    ||| exists|d: Seq<char>| #[trigger] file_in(path, d, name)
}

/// A portable path whose last component is `..`, or the root alone:
/// a path without a file name.
pub open spec fn lacks_file_name(p: Seq<char>) -> bool {
    ||| p == seq!['/']
    ||| portable(p) && (p == seq!['.', '.'] || (p.len() >= 3 && p.subrange(p.len() - 3, p.len() as int)
        == seq!['/', '.', '.']))
}

/// The position of the last `.` in a file name, or -1.
pub open spec fn last_dot(n: Seq<char>) -> int
    decreases n.len(),
{
    if n.len() == 0 {
        -1
    } else if n.last() == '.' {
        n.len() - 1
    } else {
        last_dot(n.drop_last())
    }
}

/// The stem of a file name: the part before its last `.`, or all of it
/// when the only `.` starts it or there is none.
pub open spec fn stem_spec(n: Seq<char>) -> Seq<char> {
    if last_dot(n) <= 0 {
        n
    } else {
        n.subrange(0, last_dot(n))
    }
}

/// The extension of a file name: the part after its last `.`, where
/// that `.` does not start the name.
pub open spec fn ext_spec(n: Seq<char>) -> Option<Seq<char>> {
    if last_dot(n) <= 0 {
        None
    } else {
        Some(n.subrange(last_dot(n) + 1, n.len() as int))
    }
}

/// The extension with its dot, or nothing.
pub open spec fn ext_suffix(n: Seq<char>) -> Seq<char> {
    match ext_spec(n) {
        Some(e) => seq!['.'] + e,
        None => Seq::empty(),
    }
}

/// The name of the `count`th duplicate of a file named `n`:
/// `{stem}_{count}{.ext}`.
pub open spec fn numbered_name_spec(n: Seq<char>, count: nat) -> Seq<char> {
    stem_spec(n) + seq!['_'] + crate::text::decimal(count) + ext_suffix(n)
}

/// `c` is `path` with its file name replaced by `name`, wherever every
/// platform agrees on that: the name itself for a bare file name, and
/// the same directory joined by a separator otherwise.
pub open spec fn sibling(path: Seq<char>, name: Seq<char>, c: Seq<char>) -> bool {
    &&& simple_segment(path) ==> c == name
    &&& forall|d: Seq<char>, n: Seq<char>| #[trigger] file_in(path, d, n)
        ==> (c == d + seq!['/'] + name || c == d + seq!['\\'] + name)
}

/// `c` is the candidate of count `count` for `path`: the path itself
/// first, then the numbered siblings.
pub open spec fn duplicate_candidate(path: Seq<char>, count: nat, c: Seq<char>) -> bool {
    if count == 0 {
        c == path
    } else {
        forall|n: Seq<char>| #[trigger] has_file_name(path, n)
            ==> sibling(path, numbered_name_spec(n, count), c)
    }
}

/// `is_file` said that the candidate of count `j` for `path` is taken.
pub open spec fn taken_candidate<F: Fn(&String, u8) -> bool>(is_file: F, path: Seq<char>, j: u8) -> bool {
    exists|c: String| #[trigger] call_ensures(is_file, (&c, j), true) && duplicate_candidate(path, j as nat, c@)
}

/// `found` is the first candidate for `path` that `is_file` said is
/// free, after it said that every earlier one is taken.
pub open spec fn first_free<F: Fn(&String, u8) -> bool>(is_file: F, path: Seq<char>, found: String) -> bool {
    exists|k: u8| #[trigger] call_ensures(is_file, (&found, k), false)
        && duplicate_candidate(path, k as nat, found@)
        && forall|j: u8| j < k ==> #[trigger] taken_candidate(is_file, path, j)
}

/// The position of the last dot is inside the name.
proof fn lemma_last_dot_bounds(n: Seq<char>)
    ensures
        -1 <= last_dot(n) < n.len(),
        last_dot(n) >= 0 ==> n[last_dot(n)] == '.',
    decreases n.len(),
{
    if n.len() > 0 && n.last() != '.' {
        lemma_last_dot_bounds(n.drop_last());
    }
}

/// The numbered name of a duplicate is itself a file name that every
/// platform reads the same way.
proof fn lemma_numbered_name_simple(n: Seq<char>, count: nat)
    requires
        simple_segment(n),
    ensures
        simple_segment(numbered_name_spec(n, count)),
{
    lemma_last_dot_bounds(n);
    crate::text::lemma_decimal_digits(count);
    let s = stem_spec(n);
    let e = ext_suffix(n);
    let d = crate::text::decimal(count);
    let r = s + seq!['_'] + d + e;
    assert(s.len() > 0);
    assert forall|i: int| 0 <= i < s.len() implies s[i] != '/' && s[i] != '\\' && s[i] != ':' by {
        assert(s[i] == n[i]);
    }
    assert forall|i: int| 0 <= i < e.len() implies e[i] != '/' && e[i] != '\\' && e[i] != ':' by {
        if i > 0 {
            assert(e[i] == n[last_dot(n) + i]);
        }
    }
    assert forall|i: int| 0 <= i < r.len() implies r[i] != '/' && r[i] != '\\' && r[i] != ':' by {
        if i < s.len() {
            assert(r[i] == s[i]);
        } else if i == s.len() {
            assert(r[i] == '_');
        } else if i < s.len() + 1 + d.len() {
            assert(r[i] == d[i - s.len() - 1]);
        } else {
            assert(r[i] == e[i - s.len() - 1 - d.len()]);
        }
    }
    assert(r.len() >= 3);
    assert(r == numbered_name_spec(n, count));
}

/// Calls `Path::extension`, kept when it is UTF-8. Its documentation
/// fixes the extension from the file name: what follows the last `.`,
/// unless that `.` starts the name or there is none. The contract
/// states it where every platform finds the same file name.
#[verifier::external_body]
fn path_extension(path: &str) -> (r: Option<String>)
    ensures
        forall|n: Seq<char>| #[trigger] has_file_name(path@, n) ==> opt_view(r) == ext_spec(n),
{
    match Path::new(path).extension() {
        Some(e) => e.to_str().map(String::from),
        None => None,
    }
}

/// Calls `Path::file_stem`, kept when it is UTF-8. Its documentation
/// fixes the stem from the file name: what precedes the last `.`, or
/// the whole name when that `.` starts it or there is none. The
/// contract states it where every platform finds the same file name.
#[verifier::external_body]
fn path_file_stem(path: &str) -> (r: Option<String>)
    ensures
        forall|n: Seq<char>| #[trigger] has_file_name(path@, n) ==> opt_view(r) == Some(stem_spec(n)),
{
    match Path::new(path).file_stem() {
        Some(s) => s.to_str().map(String::from),
        None => None,
    }
}

/// Calls `PathBuf::set_file_name` on the path: it pops the file name
/// and pushes the new one. Which separator the push adds depends on
/// the platform, so the contract leaves it open between `/` and `\`,
/// and says nothing of paths that platforms read differently.
#[verifier::external_body]
fn path_with_file_name(path: &str, name: &str) -> (r: String)
    ensures
        simple_segment(name@) ==> sibling(path@, name@, r@),
{
    let mut p = PathBuf::from(path);
    p.set_file_name(name);
    p.to_string_lossy().into_owned()
}

/// The numbered file name of a duplicate: `{stem}_{count}{ext}`.
pub fn numbered_file_name(stem: &str, count: u8, ext: &str) -> (r: String)
    ensures
        r@ == stem@ + seq!['_'] + crate::text::decimal(count as nat) + ext@,
{
    let mut v: Vec<char> = Vec::new();
    push_str(&mut v, stem);
    v.push('_');
    let mut d = crate::text::decimal_chars(count as u64);
    v.append(&mut d);
    push_str(&mut v, ext);
    from_chars(&v)
}

/// Renames a duplicated file by adding an incremented counter suffix:
/// the path itself when `is_file` says it is free (count 0), otherwise
/// the path whose file name is the stem followed by `_`, the first
/// count whose path `is_file` says is free, and the extension. A path
/// without stem to number is an error.
pub fn rename_file_if_duplicate<F: Fn(&String, u8) -> bool>(path: &String, is_file: F) -> (r: Result<String, AccountError>)
    requires
        forall|p: &String, c: u8| call_requires(is_file, (p, c)),
    ensures
        match r {
            Ok(found) => first_free(is_file, path@, found),
            Err(AccountError::ParseDownloadFileNameError(p)) => {
                &&& p@ == path@
                &&& call_ensures(is_file, (path, 0u8), true)
                &&& forall|n: Seq<char>| !has_file_name(path@, n)
            },
            Err(AccountError::DuplicateFileCountOverflowError(p)) => {
                &&& p@ == path@
                &&& forall|j: u8| #[trigger] taken_candidate(is_file, path@, j)
            },
            Err(_) => false,
        },
{
    let ext = match path_extension(path.as_str()) {
        Some(e) => {
            let mut v: Vec<char> = Vec::new();
            v.push('.');
            push_str(&mut v, e.as_str());
            from_chars(&v)
        },
        None => String::new(),
    };
    assert(forall|n: Seq<char>| #[trigger] has_file_name(path@, n) ==> ext@ == ext_suffix(n));
    let mut count: u8 = 0;
    let mut current = path.clone();
    let mut taken = is_file(&current, count);
    while taken
        invariant
            forall|p: &String, c: u8| call_requires(is_file, (p, c)),
            forall|n: Seq<char>| #[trigger] has_file_name(path@, n) ==> ext@ == ext_suffix(n),
            call_ensures(is_file, (&current, count), taken),
            duplicate_candidate(path@, count as nat, current@),
            count == 0 ==> current == *path,
            count > 0 ==> call_ensures(is_file, (path, 0u8), true),
            forall|j: u8| j < count ==> #[trigger] taken_candidate(is_file, path@, j),
        decreases 255 - count,
    {
        assert(taken_candidate(is_file, path@, count));
        if count == 255 {
            assert forall|j: u8| #[trigger] taken_candidate(is_file, path@, j) by {
                if j < count {
                } else {
                    assert(j == count);
                }
            }
            return Err(AccountError::DuplicateFileCountOverflowError(path.clone()));
        }
        assert(call_ensures(is_file, (path, 0u8), true));
        count += 1;
        let stem = match path_file_stem(path.as_str()) {
            Some(s) => s,
            None => {
                return Err(AccountError::ParseDownloadFileNameError(path.clone()));
            },
        };
        let name = numbered_file_name(stem.as_str(), count, ext.as_str());
        current = path_with_file_name(path.as_str(), name.as_str());
        proof {
            assert forall|n: Seq<char>| #[trigger] has_file_name(path@, n) implies sibling(
                path@,
                numbered_name_spec(n, count as nat),
                current@,
            ) by {
                assert(name@ == numbered_name_spec(n, count as nat));
                lemma_numbered_name_simple(n, count as nat);
            }
        }
        taken = is_file(&current, count);
    }
    let r: Result<String, AccountError> = Ok(current);
    assert(call_ensures(is_file, (&current, count), false));
    r
}

/// Calls `Path::file_name`, kept when it is UTF-8. Its documentation
/// gives the final component as the file name, and none for a path
/// that ends in `..` or is the root; the contract states it where
/// every platform agrees.
#[verifier::external_body]
fn path_file_name(path: &str) -> (r: Option<String>)
    ensures
        forall|n: Seq<char>| #[trigger] has_file_name(path@, n) ==> opt_view(r) == Some(n),
        lacks_file_name(path@) ==> r is None,
{
    match Path::new(path).file_name() {
        Some(n) => n.to_str().map(String::from),
        None => None,
    }
}

/// Calls `Path::join`: the directory, a separator where it ends in
/// none, and the name. Which separator depends on the platform, so the
/// contract leaves it open between `/` and `\`.
#[verifier::external_body]
fn path_join(dir: &str, name: &str) -> (r: String)
    ensures
        portable_dir(dir@) && simple_segment(name@) ==> (r@ == dir@ + seq!['/'] + name@ || r@ == dir@
            + seq!['\\'] + name@),
{
    Path::new(dir).join(name).to_string_lossy().into_owned()
}

/// `target` is the file `name` of `path` joined to the downloads
/// directory, wherever every platform agrees on both.
pub open spec fn download_target(dir: Seq<char>, path: Seq<char>, target: Seq<char>) -> bool {
    forall|n: Seq<char>| #[trigger] has_file_name(path, n) && portable_dir(dir)
        ==> (target == dir + seq!['/'] + n || target == dir + seq!['\\'] + n)
}

/// A safe download path for a file: only its file name, inside the
/// downloads directory, numbered when `is_file` says the path is taken.
pub fn get_download_file_path<F: Fn(&String, u8) -> bool>(
    downloads_dir: &String,
    path: &String,
    is_file: F,
) -> (r: Result<String, AccountError>)
    requires
        forall|p: &String, c: u8| call_requires(is_file, (p, c)),
    ensures
        match r {
            Ok(found) => exists|target: String| download_target(downloads_dir@, path@, target@)
                && #[trigger] first_free(is_file, target@, found),
            Err(AccountError::DuplicateFileCountOverflowError(p)) => download_target(downloads_dir@, path@, p@)
                && forall|j: u8| #[trigger] taken_candidate(is_file, p@, j),
            Err(AccountError::GetFileNameFromPathError(p)) => p@ == path@ && forall|n: Seq<char>|
                !has_file_name(path@, n),
            Err(AccountError::ParseDownloadFileNameError(p)) => download_target(downloads_dir@, path@, p@)
                && forall|n: Seq<char>| !has_file_name(p@, n),
            Err(_) => false,
        },
        lacks_file_name(path@) ==> r == Err::<String, AccountError>(AccountError::GetFileNameFromPathError(*path)),
{
    let name = match path_file_name(path.as_str()) {
        Some(n) => n,
        None => return Err(AccountError::GetFileNameFromPathError(path.clone())),
    };
    let target = path_join(downloads_dir.as_str(), name.as_str());
    assert(download_target(downloads_dir@, path@, target@)) by {
        assert forall|n: Seq<char>| #[trigger] has_file_name(path@, n) && portable_dir(downloads_dir@)
            implies (target@ == downloads_dir@ + seq!['/'] + n || target@ == downloads_dir@ + seq!['\\'] + n) by {
            assert(name@ == n);
            if simple_segment(path@) && n == path@ {
            } else {
                let d = choose|d: Seq<char>| #[trigger] file_in(path@, d, n);
            }
        }
    }
    let r = rename_file_if_duplicate(&target, is_file);
    match r {
        Ok(found) => {
            assert(first_free(is_file, target@, found));
            Ok(found)
        },
        Err(e) => Err(e),
    }
}

/// The configuration of all accounts, with the defaults they share.
#[derive(Debug, Clone)]
pub struct Config {
    pub display_name: Option<String>,
    pub signature: Option<String>,
    pub signature_delim: Option<String>,
    pub downloads_dir: Option<String>,
    /// The accounts, each under its name; a name stands once
    /// (`unique_names`), as in the file's table of accounts.
    pub accounts: Vec<(String, AccountConfig)>,
}

/// The configuration of the first account of that name.
pub open spec fn find_account(accounts: Seq<(String, AccountConfig)>, name: Seq<char>) -> Option<AccountConfig>
    decreases accounts.len(),
{
    if accounts.len() == 0 {
        None
    } else if accounts[0].0@ == name {
        Some(accounts[0].1)
    } else {
        find_account(accounts.drop_first(), name)
    }
}

/// No two accounts have the same name, as the keys of a map.
pub open spec fn unique_names(accounts: Seq<(String, AccountConfig)>) -> bool {
    forall|i: int, j: int| 0 <= i < j < accounts.len() ==> (#[trigger] accounts[i]).0@ != (#[trigger] accounts[j]).0@
}

/// Where account names are unique, as in the configuration file's table
/// of accounts, looking an account up gives the one entry of that name,
/// wherever it stands.
pub proof fn law_account_lookup(accounts: Seq<(String, AccountConfig)>, i: int)
    requires
        unique_names(accounts),
        0 <= i < accounts.len(),
    ensures
        find_account(accounts, accounts[i].0@) == Some(accounts[i].1),
    decreases i,
{
    if i > 0 {
        let rest = accounts.drop_first();
        assert(accounts[0].0@ != accounts[i].0@);
        assert(rest[i - 1] == accounts[i]);
        assert forall|a: int, b: int| 0 <= a < b < rest.len() implies (#[trigger] rest[a]).0@ != (#[trigger] rest[b]).0@ by {
            assert(rest[a] == accounts[a + 1]);
            assert(rest[b] == accounts[b + 1]);
        }
        law_account_lookup(rest, i - 1);
    }
}

/// No two aliases have the same key, as the keys of a map.
pub open spec fn unique_keys(pairs: Seq<(String, String)>) -> bool {
    forall|i: int, j: int| 0 <= i < j < pairs.len() ==> (#[trigger] pairs[i]).0@ != (#[trigger] pairs[j]).0@
}

/// Where alias keys are unique, looking a key up gives the value of the
/// one pair of that key, wherever it stands.
pub proof fn law_alias_lookup(pairs: Seq<(String, String)>, i: int)
    requires
        unique_keys(pairs),
        0 <= i < pairs.len(),
    ensures
        lookup(pairs, pairs[i].0@) == Some(pairs[i].1@),
    decreases i,
{
    if i > 0 {
        let rest = pairs.drop_first();
        assert(pairs[0].0@ != pairs[i].0@);
        assert(rest[i - 1] == pairs[i]);
        assert forall|a: int, b: int| 0 <= a < b < rest.len() implies (#[trigger] rest[a]).0@ != (#[trigger] rest[b]).0@ by {
            assert(rest[a] == pairs[a + 1]);
            assert(rest[b] == pairs[b + 1]);
        }
        law_alias_lookup(rest, i - 1);
    }
}

/// The view of an optional string.
pub open spec fn opt_view(o: Option<String>) -> Option<Seq<char>> {
    match o {
        Some(s) => Some(s@),
        None => None,
    }
}

/// The account's own value, else the shared one.
pub open spec fn or_shared(own: Option<String>, shared: Option<String>) -> Option<Seq<char>> {
    match own {
        Some(s) => Some(s@),
        None => opt_view(shared),
    }
}

/// What looking the named account up in the configuration gives: the
/// error naming it when there is no such account; otherwise its own
/// settings under that name, with the shared display name, signature,
/// signature delimiter and downloads directory where it sets none.
pub open spec fn account_result(cfg: Config, name: Seq<char>, r: Result<AccountConfig, AccountError>) -> bool {
    match find_account(cfg.accounts@, name) {
        None => r matches Err(AccountError::GetAccountConfigNotFoundError(n)) && n@ == name,
        Some(a) => r matches Ok(c) && {
            &&& c.name@ == name
            &&& c.email@ == a.email@
            &&& opt_view(c.display_name) == or_shared(a.display_name, cfg.display_name)
            &&& opt_view(c.signature) == or_shared(a.signature, cfg.signature)
            &&& opt_view(c.signature_delim) == or_shared(a.signature_delim, cfg.signature_delim)
            &&& opt_view(c.downloads_dir) == or_shared(a.downloads_dir, cfg.downloads_dir)
            &&& opt_v(c.sync) == opt_v(a.sync)
            &&& opt_v(c.folder) == opt_v(a.folder)
            &&& opt_v(c.envelope) == opt_v(a.envelope)
            &&& opt_v(c.message) == opt_v(a.message)
            &&& opt_v(c.pgp) == opt_v(a.pgp)
        },
    }
}

/// An account's own value always wins, whatever the shared one; only a
/// missing own value falls back to the shared one.
pub proof fn law_own_value_wins(own: Option<String>, shared: Option<String>)
    ensures
        own matches Some(s) ==> or_shared(own, shared) == Some(s@),
        own is None ==> or_shared(own, shared) == opt_view(shared),
{
}

/// The configuration of an account keeps each setting that the account
/// sets itself, whatever the shared configuration sets, and takes the
/// shared one only where the account sets none.
pub proof fn law_account_keeps_own_settings(cfg: Config, name: Seq<char>, a: AccountConfig, c: AccountConfig)
    requires
        find_account(cfg.accounts@, name) == Some(a),
        account_result(cfg, name, Ok(c)),
    ensures
        c.name@ == name,
        c.email@ == a.email@,
        a.display_name matches Some(s) ==> opt_view(c.display_name) == Some(s@),
        a.signature matches Some(s) ==> opt_view(c.signature) == Some(s@),
        a.signature_delim matches Some(s) ==> opt_view(c.signature_delim) == Some(s@),
        a.downloads_dir matches Some(s) ==> opt_view(c.downloads_dir) == Some(s@),
        a.display_name is None ==> opt_view(c.display_name) == opt_view(cfg.display_name),
        a.signature is None ==> opt_view(c.signature) == opt_view(cfg.signature),
        a.signature_delim is None ==> opt_view(c.signature_delim) == opt_view(cfg.signature_delim),
        a.downloads_dir is None ==> opt_view(c.downloads_dir) == opt_view(cfg.downloads_dir),
{
}

fn clone_or(own: &Option<String>, shared: &Option<String>) -> (r: Option<String>)
    ensures
        opt_view(r) == or_shared(*own, *shared),
{
    match own {
        Some(s) => Some(s.clone()),
        None => match shared {
            Some(s) => Some(s.clone()),
            None => None,
        },
    }
}

impl Config {
    /// The configuration of the named account: its own settings, with
    /// the shared display name, signature, signature delimiter and
    /// downloads directory where it sets none, under the given name.
    pub fn account(&self, name: &str) -> (r: Result<AccountConfig, AccountError>)
        ensures
            account_result(*self, name@, r),
    {
        let mut i: usize = 0;
        assert(self.accounts@.skip(0) =~= self.accounts@);
        while i < self.accounts.len()
            invariant
                i <= self.accounts.len(),
                find_account(self.accounts@, name@) == find_account(self.accounts@.skip(i as int), name@),
            decreases self.accounts.len() - i,
        {
            assert(self.accounts@.skip(i as int).drop_first() =~= self.accounts@.skip(i + 1));
            if str_eq(self.accounts[i].0.as_str(), name) {
                let a = &self.accounts[i].1;
                return Ok(AccountConfig {
                    name: string_of(name),
                    email: a.email.clone(),
                    display_name: clone_or(&a.display_name, &self.display_name),
                    signature: clone_or(&a.signature, &self.signature),
                    signature_delim: clone_or(&a.signature_delim, &self.signature_delim),
                    downloads_dir: clone_or(&a.downloads_dir, &self.downloads_dir),
                    sync: clone_opt_sync(&a.sync),
                    folder: clone_opt_folder(&a.folder),
                    envelope: clone_opt_envelope(&a.envelope),
                    message: clone_opt_message(&a.message),
                    pgp: clone_opt_pgp(&a.pgp),
                });
            }
            i += 1;
        }
        Err(AccountError::GetAccountConfigNotFoundError(string_of(name)))
    }
}

/// The PGP configuration that delegates to GnuPG.
#[derive(Debug, Clone, Copy, PartialEq, Eq)]
pub struct PgpGpgConfig;

/// Where the native PGP secret key is kept.
#[derive(Debug)]
pub enum NativePgpSecretKey {
    /// No key.
    NoKey,
    /// The armored key itself.
    Raw(String),
    /// The path of a file holding the armored key.
    Path(String),
    /// The name of a keyring entry holding the armored key.
    Keyring(String),
}

/// Where public keys of correspondents are looked up.
#[derive(Debug, Clone)]
pub enum PgpPublicKeysResolver {
    /// The Web Key Directory of the address's domain.
    Wkd,
    /// The given key servers, in order.
    KeyServers(Vec<String>),
}

/// The native PGP configuration.
#[derive(Debug)]
pub struct PgpNativeConfig {
    pub secret_key: NativePgpSecretKey,
    pub wkd: bool,
    pub key_servers: Vec<String>,
}

/// The key servers used when nothing else is set.
pub open spec fn default_key_servers_spec() -> Seq<Seq<char>> {
    seq!["hkps://keys.openpgp.org"@, "hkps://keys.mailvelope.com"@]
}

impl PgpNativeConfig {
    /// Whether the Web Key Directory is used when nothing else is set.
    pub fn default_wkd() -> (b: bool)
        ensures
            b,
    {
        true
    }

    /// The key servers used when nothing else is set.
    pub fn default_key_servers() -> (v: Vec<String>)
        ensures
            views(v@) == default_key_servers_spec(),
    {
        let r = strings_of(&["hkps://keys.openpgp.org", "hkps://keys.mailvelope.com"]);
        assert(views(r@) =~= default_key_servers_spec());
        r
    }

    /// No secret key, the Web Key Directory and the default key servers.
    pub fn default() -> (c: Self)
        ensures
            c.secret_key is NoKey,
            c.wkd,
            views(c.key_servers@) == default_key_servers_spec(),
    {
        PgpNativeConfig {
            secret_key: NativePgpSecretKey::NoKey,
            wkd: Self::default_wkd(),
            key_servers: Self::default_key_servers(),
        }
    }

    /// Where public keys are looked up: the Web Key Directory first when
    /// it is enabled, then the key servers.
    pub fn public_keys_resolvers(&self) -> (r: Vec<PgpPublicKeysResolver>)
        ensures
            r@.len() == if self.wkd { 2nat } else { 1nat },
            self.wkd ==> r@[0] is Wkd,
            r@.last() matches PgpPublicKeysResolver::KeyServers(s) && views(s@) == views(self.key_servers@),
    {
        let mut r: Vec<PgpPublicKeysResolver> = Vec::new();
        if self.wkd {
            r.push(PgpPublicKeysResolver::Wkd);
        }
        r.push(PgpPublicKeysResolver::KeyServers(clone_strings(&self.key_servers)));
        r
    }

    /// The keyring entry of the public key that goes with a secret key
    /// kept in the keyring: the secret key's entry followed by `-pub`.
    pub fn public_key_entry(&self) -> (r: Option<String>)
        ensures
            match self.secret_key {
                NativePgpSecretKey::Keyring(e) => r matches Some(p) && p@ == e@ + "-pub"@,
                _ => r is None,
            },
    {
        match &self.secret_key {
            NativePgpSecretKey::Keyring(e) => {
                let mut v: Vec<char> = Vec::new();
                push_str(&mut v, e.as_str());
                push_str(&mut v, "-pub");
                Some(from_chars(&v))
            },
            _ => None,
        }
    }
}

/// The PGP configuration.
#[derive(Debug)]
pub enum PgpConfig {
    /// No PGP.
    Disabled,
    /// GnuPG.
    Gpg(PgpGpgConfig),
    /// The native implementation.
    Native(PgpNativeConfig),
}

/// The kind of a secret key location and its text.
impl View for NativePgpSecretKey {
    type V = (nat, Seq<char>);

    open spec fn view(&self) -> Self::V {
        match self {
            NativePgpSecretKey::NoKey => (0, seq![]),
            NativePgpSecretKey::Raw(s) => (1, s@),
            NativePgpSecretKey::Path(s) => (2, s@),
            NativePgpSecretKey::Keyring(s) => (3, s@),
        }
    }
}

impl View for PgpNativeConfig {
    type V = ((nat, Seq<char>), bool, Seq<Seq<char>>);

    open spec fn view(&self) -> Self::V {
        (self.secret_key@, self.wkd, views(self.key_servers@))
    }
}

/// The kind of a PGP configuration and, for the native one, its view.
impl View for PgpConfig {
    type V = (nat, Option<((nat, Seq<char>), bool, Seq<Seq<char>>)>);

    open spec fn view(&self) -> Self::V {
        match self {
            PgpConfig::Disabled => (0, None),
            PgpConfig::Gpg(_) => (1, None),
            PgpConfig::Native(c) => (2, Some(c@)),
        }
    }
}

impl Clone for NativePgpSecretKey {
    fn clone(&self) -> (r: Self)
        ensures
            r@ == self@,
    {
        match self {
            NativePgpSecretKey::NoKey => NativePgpSecretKey::NoKey,
            NativePgpSecretKey::Raw(s) => NativePgpSecretKey::Raw(s.clone()),
            NativePgpSecretKey::Path(s) => NativePgpSecretKey::Path(s.clone()),
            NativePgpSecretKey::Keyring(s) => NativePgpSecretKey::Keyring(s.clone()),
        }
    }
}

impl Clone for PgpNativeConfig {
    fn clone(&self) -> (r: Self)
        ensures
            r@ == self@,
    {
        PgpNativeConfig { secret_key: self.secret_key.clone(), wkd: self.wkd, key_servers: clone_strings(&self.key_servers) }
    }
}

impl Clone for PgpConfig {
    fn clone(&self) -> (r: Self)
        ensures
            r@ == self@,
    {
        match self {
            PgpConfig::Disabled => PgpConfig::Disabled,
            PgpConfig::Gpg(g) => PgpConfig::Gpg(*g),
            PgpConfig::Native(c) => PgpConfig::Native(c.clone()),
        }
    }
}

pub(crate) fn clone_opt_pgp(o: &Option<PgpConfig>) -> (r: Option<PgpConfig>)
    ensures
        opt_v(r) == opt_v(*o),
{
    match o {
        Some(x) => Some(x.clone()),
        None => None,
    }
}

} // verus!
