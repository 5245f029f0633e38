//! IMAP helpers: sequence sets for pagination, SASL initial
//! responses and configuration defaults.

use vstd::prelude::*;

use crate::account::oauth2::OAuth2Method;
use crate::text::{
    decimal, decimal_chars, from_chars, join, join_numbers, join_spec, decimals, push_char, push_str,
    replace, replace_spec, string_of, to_chars,
};
use crate::maildir::Folder;
use crate::text::str_eq;
use crate::EmailError;

verus! {

/// Errors related to the IMAP backend.
#[derive(Debug, PartialEq, Eq)]
pub enum ImapError {
    /// The requested page (counted from one) lies beyond the folder.
    BuildPageRangeOutOfBoundsError(usize),
    /// The password is empty.
    GetPasswdEmptyError,
    /// The server did not tell the uid of the appended message.
    GetAddedEmailUidError,
    /// The server told an empty range of uids for the appended message;
    /// the uids of the range, separated by commas.
    GetAddedEmailUidFromRangeError(String),
}

/// A member of the uid set that the server answers an append with.
#[derive(Debug, Clone, Copy, PartialEq, Eq)]
pub enum UidSetMember {
    /// One uid.
    Uid(u32),
    /// The uids from the first to the last, both included.
    UidRange(u32, u32),
}

/// The uid of an appended message, from the uid set of the server's
/// answer: the uid when the set has one member, the first uid of its
/// range; an error when the set is missing, has another size, or its
/// range is empty.
pub fn added_email_uid(uids: &Option<Vec<UidSetMember>>) -> (r: Result<u32, ImapError>)
    ensures
        match *uids {
            Some(v) if v@.len() == 1 => match v@[0] {
                UidSetMember::Uid(u) => r == Ok::<u32, ImapError>(u),
                UidSetMember::UidRange(first, last) => if first <= last {
                    r == Ok::<u32, ImapError>(first)
                } else {
                    r matches Err(ImapError::GetAddedEmailUidFromRangeError(m)) && m@.len() == 0
                },
            },
            _ => r matches Err(ImapError::GetAddedEmailUidError),
        },
{
    match uids {
        Some(v) => {
            if v.len() == 1 {
                match v[0] {
                    UidSetMember::Uid(u) => Ok(u),
                    UidSetMember::UidRange(first, last) => if first <= last {
                        Ok(first)
                    } else {
                        Err(ImapError::GetAddedEmailUidFromRangeError(String::new()))
                    },
                }
            } else {
                Err(ImapError::GetAddedEmailUidError)
            }
        },
        None => Err(ImapError::GetAddedEmailUidError),
    }
}

/// `top, top - 1, ..., top - k + 1` in decimal, separated by commas.
pub open spec fn descending_list(top: nat, k: nat) -> Seq<char>
    decreases k,
{
    if k <= 1 {
        decimal(top)
    } else {
        descending_list(top, (k - 1) as nat) + seq![','] + decimal((top - (k - 1)) as nat)
    }
}

/// The IMAP sequence set for the given page, page size and folder size.
pub open spec fn page_range_spec(page: nat, page_size: nat, size: nat) -> Seq<char> {
    if page_size == 0 {
        seq!['1', ':', '*']
    } else {
        let top = (size - page * page_size) as nat;
        descending_list(top, if page_size < top { page_size } else { top })
    }
}

/// Builds the IMAP sequence set for the given page, page size and
/// total size: the newest messages (highest sequence numbers) come
/// first.
pub fn build_page_range(page: usize, page_size: usize, size: usize) -> (res: Result<String, EmailError>)
    requires
        page * page_size <= usize::MAX,
        page * page_size >= size ==> page < usize::MAX,
    ensures
        page * page_size >= size <==> res is Err,
        res matches Err(e) ==> e == EmailError::ImapError(ImapError::BuildPageRangeOutOfBoundsError((page + 1) as usize)),
        res matches Ok(s) ==> s@ == page_range_spec(page as nat, page_size as nat, size as nat),
{
    let page_cursor = page * page_size;
    if page_cursor >= size {
        return Err(EmailError::ImapError(ImapError::BuildPageRangeOutOfBoundsError(page + 1)));
    }
    if page_size == 0 {
        let mut s = String::new();
        push_char(&mut s, '1');
        push_char(&mut s, ':');
        push_char(&mut s, '*');
        assert(s@ =~= seq!['1', ':', '*']);
        return Ok(s);
    }
    let ps = if page_size < size { page_size } else { size };
    let top = size - page_cursor;
    let mut count: usize = 1;
    let mut cursor: usize = top;
    let mut range: Vec<char> = decimal_chars(cursor as u64);
    while cursor > 1 && count < ps
        invariant
            1 <= count <= ps,
            ps <= size,
            ps == page_size || ps == size,
            top <= size,
            count <= top,
            cursor == top - count + 1,
            range@ == descending_list(top as nat, count as nat),
        decreases cursor,
    {
        count += 1;
        cursor -= 1;
        range.push(',');
        let mut digits = decimal_chars(cursor as u64);
        range.append(&mut digits);
        assert(range@ =~= descending_list(top as nat, (count - 1) as nat) + seq![','] + decimal(cursor as nat));
    }
    let s = from_chars(&range);
    Ok(s)
}

/// The XOAUTH2 initial response of a user and an access token.
pub open spec fn xoauth2_response(user: Seq<char>, token: Seq<char>) -> Seq<char> {
    "user="@ + user + seq!['\x01'] + "auth=Bearer "@ + token + seq!['\x01', '\x01']
}

/// The OAUTHBEARER initial response of a user, a host, a port and an
/// access token.
pub open spec fn oauthbearer_response(user: Seq<char>, host: Seq<char>, port: u16, token: Seq<char>) -> Seq<char> {
    "n,a="@ + user + seq![',', '\x01'] + "host="@ + host + seq!['\x01'] + "port="@ + decimal(port as nat)
        + seq!['\x01'] + "auth=Bearer "@ + token + seq!['\x01', '\x01']
}

/// XOAUTH2 IMAP authenticator.
pub struct XOAuth2 {
    pub user: String,
    pub access_token: String,
}

impl XOAuth2 {
    /// An authenticator for the given user and access token.
    pub fn new(user: String, access_token: String) -> (a: Self)
        ensures
            a.user == user,
            a.access_token == access_token,
    {
        XOAuth2 { user, access_token }
    }

    /// The response to the server challenge, whatever it is.
    pub fn process(&self, _challenge: &[u8]) -> (r: String)
        ensures
            r@ == xoauth2_response(self.user@, self.access_token@),
    {
        let mut v: Vec<char> = Vec::new();
        push_str(&mut v, "user=");
        push_str(&mut v, self.user.as_str());
        v.push('\x01');
        push_str(&mut v, "auth=Bearer ");
        push_str(&mut v, self.access_token.as_str());
        v.push('\x01');
        v.push('\x01');
        assert(v@ =~= xoauth2_response(self.user@, self.access_token@));
        from_chars(&v)
    }
}

/// OAUTHBEARER IMAP authenticator.
pub struct OAuthBearer {
    pub user: String,
    pub host: String,
    pub port: u16,
    pub access_token: String,
}

impl OAuthBearer {
    /// An authenticator for the given user, host, port and access
    /// token.
    pub fn new(user: String, host: String, port: u16, access_token: String) -> (a: Self)
        ensures
            a.user == user,
            a.host == host,
            a.port == port,
            a.access_token == access_token,
    {
        OAuthBearer { user, host, port, access_token }
    }

    /// The response to the server challenge, whatever it is.
    pub fn process(&self, _challenge: &[u8]) -> (r: String)
        ensures
            r@ == oauthbearer_response(self.user@, self.host@, self.port, self.access_token@),
    {
        let mut v: Vec<char> = Vec::new();
        push_str(&mut v, "n,a=");
        push_str(&mut v, self.user.as_str());
        v.push(',');
        v.push('\x01');
        push_str(&mut v, "host=");
        push_str(&mut v, self.host.as_str());
        v.push('\x01');
        push_str(&mut v, "port=");
        let mut p = decimal_chars(self.port as u64);
        v.append(&mut p);
        v.push('\x01');
        push_str(&mut v, "auth=Bearer ");
        push_str(&mut v, self.access_token.as_str());
        v.push('\x01');
        v.push('\x01');
        assert(v@ =~= oauthbearer_response(self.user@, self.host@, self.port, self.access_token@));
        from_chars(&v)
    }
}

/// The credentials used to open an IMAP session.
#[derive(Debug, Clone)]
pub enum ImapAuth {
    Passwd(String),
    OAuth2AccessToken(OAuth2Method, String),
}

/// The first line of a text (`str::lines().next()`): nothing for an
/// empty text, otherwise what comes before the first line feed, without
/// a carriage return just before it.
pub open spec fn first_line_spec(s: Seq<char>) -> Option<Seq<char>> {
    if s.len() == 0 {
        None
    } else if exists|i: int| 0 <= i < s.len() && s[i] == '\n' {
        let i = choose|i: int| 0 <= i < s.len() && s[i] == '\n' && forall|j: int| 0 <= j < i ==> s[j] != '\n';
        let line = s.take(i);
        if line.len() > 0 && line.last() == '\r' {
            Some(line.drop_last())
        } else {
            Some(line)
        }
    } else {
        Some(s)
    }
}

/// The first line of a text.
pub fn first_line(s: &str) -> (r: Option<String>)
    ensures
        r matches Some(l) ==> first_line_spec(s@) == Some(l@),
        r is None ==> first_line_spec(s@) is None,
{
    let cs = to_chars(s);
    if cs.len() == 0 {
        return None;
    }
    let mut i: usize = 0;
    while i < cs.len() && cs[i] != '\n'
        invariant
            i <= cs@.len(),
            cs@ == s@,
            forall|j: int| 0 <= j < i ==> cs@[j] != '\n',
        decreases cs.len() - i,
    {
        i += 1;
    }
    let mut end = i;
    if i < cs.len() {
        assert(cs@[i as int] == '\n');
        let ghost k = choose|k: int| 0 <= k < s@.len() && s@[k] == '\n' && forall|j: int| 0 <= j < k ==> s@[j] != '\n';
        assert(k == i) by {
            if k < i {
                assert(cs@[k] != '\n');
            } else if k > i {
                assert(s@[i as int] == '\n');
            }
        }
        if end > 0 && cs[end - 1] == '\r' {
            end = end - 1;
            assert(s@.take(i as int).drop_last() =~= s@.take(end as int));
        }
    } else {
        assert(!exists|k: int| 0 <= k < s@.len() && s@[k] == '\n');
    }
    let mut v: Vec<char> = Vec::new();
    let mut j: usize = 0;
    while j < end
        invariant
            j <= end <= cs@.len(),
            v@ == cs@.take(j as int),
        decreases end - j,
    {
        v.push(cs[j]);
        assert(v@ =~= cs@.take(j + 1));
        j += 1;
    }
    Some(from_chars(&v))
}

impl ImapAuth {
    /// The password credentials of a password secret: its first line,
    /// an error for an empty secret.
    pub fn from_password_secret(secret: &str) -> (r: Result<ImapAuth, ImapError>)
        ensures
            match first_line_spec(secret@) {
                Some(l) => r matches Ok(ImapAuth::Passwd(p)) && p@ == l,
                None => r matches Err(ImapError::GetPasswdEmptyError),
            },
    {
        match first_line(secret) {
            Some(l) => Ok(ImapAuth::Passwd(l)),
            None => Err(ImapError::GetPasswdEmptyError),
        }
    }

    /// The OAuth 2.0 credentials of a method and an access token.
    pub fn from_access_token(method: OAuth2Method, token: String) -> (a: ImapAuth)
        ensures
            a == ImapAuth::OAuth2AccessToken(method, token),
    {
        ImapAuth::OAuth2AccessToken(method, token)
    }
}

/// The IMAP backend configuration.
#[derive(Debug, Clone)]
pub struct ImapConfig {
    pub host: String,
    pub port: u16,
    pub ssl: Option<bool>,
    pub starttls: Option<bool>,
    pub insecure: Option<bool>,
    pub login: String,
    pub notify_cmd: Option<String>,
    pub notify_query: Option<String>,
    pub watch_cmds: Option<Vec<String>>,
}

/// How a session is opened.
#[derive(Debug, Clone)]
pub enum SessionAuth {
    /// Log in with a user and a password.
    Login { user: String, password: String },
    /// Authenticate with a SASL mechanism and its initial response.
    Authenticate { mechanism: String, response: String },
}

impl ImapConfig {
    /// How to open a session with the credentials: log in with the
    /// configured login and the password, or authenticate with XOAUTH2
    /// or OAUTHBEARER and the access token.
    pub fn session_auth(&self, auth: &ImapAuth) -> (r: SessionAuth)
        ensures
            match *auth {
                ImapAuth::Passwd(p) => r matches SessionAuth::Login { user, password }
                    && user@ == self.login@ && password@ == p@,
                ImapAuth::OAuth2AccessToken(OAuth2Method::XOAuth2, t) =>
                    r matches SessionAuth::Authenticate { mechanism, response }
                    && mechanism@ == "XOAUTH2"@ && response@ == xoauth2_response(self.login@, t@),
                ImapAuth::OAuth2AccessToken(OAuth2Method::OAuthBearer, t) =>
                    r matches SessionAuth::Authenticate { mechanism, response }
                    && mechanism@ == "OAUTHBEARER"@
                    && response@ == oauthbearer_response(self.login@, self.host@, self.port, t@),
            },
    {
        match auth {
            ImapAuth::Passwd(p) => SessionAuth::Login { user: self.login.clone(), password: p.clone() },
            ImapAuth::OAuth2AccessToken(method, t) => match method {
                OAuth2Method::XOAuth2 => {
                    let a = XOAuth2::new(self.login.clone(), t.clone());
                    let response = a.process(&[]);
                    SessionAuth::Authenticate { mechanism: string_of("XOAUTH2"), response }
                },
                OAuth2Method::OAuthBearer => {
                    let a = OAuthBearer::new(self.login.clone(), self.host.clone(), self.port, t.clone());
                    let response = a.process(&[]);
                    SessionAuth::Authenticate { mechanism: string_of("OAUTHBEARER"), response }
                },
            },
        }
    }
}

/// The notify command by default.
pub open spec fn default_notify_cmd() -> Seq<char> {
    "notify-send \"\u{1F4EB} <sender>\" \"<subject>\""@
}

/// The notify command of a new message: the configured template, or
/// the default one, with `<id>`, `<subject>` and `<sender>` replaced in
/// that order.
pub open spec fn notify_command_spec(template: Seq<char>, id: u32, subject: Seq<char>, sender: Seq<char>) -> Seq<char> {
    replace_spec(
        replace_spec(replace_spec(template, "<id>"@, decimal(id as nat)), "<subject>"@, subject),
        "<sender>"@,
        sender,
    )
}

impl ImapConfig {
    /// Whether SSL is enabled: yes by default.
    pub fn ssl(&self) -> (b: bool)
        ensures
            b == (match self.ssl {
                Some(x) => x,
                None => true,
            }),
    {
        match self.ssl {
            Some(x) => x,
            None => true,
        }
    }

    /// Whether STARTTLS is enabled: no by default.
    pub fn starttls(&self) -> (b: bool)
        ensures
            b == (self.starttls == Some(true)),
    {
        match self.starttls {
            Some(x) => x,
            None => false,
        }
    }

    /// Whether any certificate is trusted: no by default.
    pub fn insecure(&self) -> (b: bool)
        ensures
            b == (self.insecure == Some(true)),
    {
        match self.insecure {
            Some(x) => x,
            None => false,
        }
    }

    /// The query that finds new messages: `NEW` by default.
    pub fn notify_query(&self) -> (q: String)
        ensures
            match self.notify_query {
                Some(x) => q@ == x@,
                None => q@ == "NEW"@,
            },
    {
        match &self.notify_query {
            Some(x) => x.clone(),
            None => string_of("NEW"),
        }
    }

    /// The watch commands: none by default.
    pub fn watch_cmds(&self) -> (v: Vec<String>)
        ensures
            match self.watch_cmds {
                Some(x) => v@ == x@,
                None => v@.len() == 0,
            },
    {
        match &self.watch_cmds {
            Some(x) => x.clone(),
            None => Vec::new(),
        }
    }

    /// The command that notifies a new message of the given id,
    /// subject and sender.
    pub fn notify_command(&self, id: u32, subject: &str, sender: &str) -> (cmd: String)
        ensures
            cmd@ == notify_command_spec(
                match self.notify_cmd {
                    Some(x) => x@,
                    None => default_notify_cmd(),
                },
                id,
                subject@,
                sender@,
            ),
    {
        let template = match &self.notify_cmd {
            Some(x) => x.clone(),
            None => string_of("notify-send \"\u{1F4EB} <sender>\" \"<subject>\""),
        };
        let id_str = crate::text::decimal_string(id as u64);
        proof {
            reveal_strlit("<id>");
            reveal_strlit("<subject>");
            reveal_strlit("<sender>");
        }
        let c1 = replace(template.as_str(), "<id>", id_str.as_str());
        let c2 = replace(c1.as_str(), "<subject>", subject);
        replace(c2.as_str(), "<sender>", sender)
    }
}

/// Filtering a sequence extended by one element.
pub proof fn lemma_filter_push<A>(s: Seq<A>, pred: spec_fn(A) -> bool, e: A)
    ensures
        pred(e) ==> s.push(e).filter(pred) == s.filter(pred).push(e),
        !pred(e) ==> s.push(e).filter(pred) == s.filter(pred),
{
    reveal(Seq::filter);
    assert(s.push(e).drop_last() =~= s);
}

/// The uids of the messages found that were not seen yet, in order.
pub open spec fn unseen_spec(seen: Seq<u32>, found: Seq<u32>) -> Seq<u32> {
    found.filter(|u: u32| !seen.contains(u))
}

/// The uids of the messages found that were not seen yet, in order.
pub fn unseen_uids(seen: &Vec<u32>, found: &Vec<u32>) -> (r: Vec<u32>)
    ensures
        r@ == unseen_spec(seen@, found@),
{
    let mut r: Vec<u32> = Vec::new();
    let mut i: usize = 0;
    while i < found.len()
        invariant
            i <= found.len(),
            r@ == found@.take(i as int).filter(|u: u32| !seen@.contains(u)),
        decreases found.len() - i,
    {
        let u = found[i];
        let mut seen_it = false;
        let mut j: usize = 0;
        while j < seen.len()
            invariant
                j <= seen.len(),
                seen_it == exists|k: int| 0 <= k < j && seen@[k] == u,
            decreases seen.len() - j,
        {
            if seen[j] == u {
                seen_it = true;
            }
            j += 1;
        }
        proof {
            vstd::seq_lib::lemma_seq_contains(seen@, u);
        }
        assert(found@.take(i + 1).drop_last() =~= found@.take(i as int));
        proof {
            lemma_filter_push(found@.take(i as int), |x: u32| !seen@.contains(x), u);
            assert(found@.take(i as int).push(u) =~= found@.take(i + 1));
        }
        if !seen_it {
            r.push(u);
        }
        i += 1;
    }
    assert(found@.take(i as int) =~= found@);
    r
}

/// The messages notified are those found and never seen before: each
/// of them was found, none was seen, and every found message that was
/// not seen is among them.
pub proof fn law_unseen_are_new(seen: Seq<u32>, found: Seq<u32>)
    ensures
        forall|u: u32| #[trigger] unseen_spec(seen, found).contains(u)
            <==> (found.contains(u) && !seen.contains(u)),
{
    let pred = |x: u32| !seen.contains(x);
    assert forall|u: u32| #[trigger] unseen_spec(seen, found).contains(u)
        <==> (found.contains(u) && !seen.contains(u)) by {
        if unseen_spec(seen, found).contains(u) {
            found.lemma_filter_contains_rev(pred, u);
            let k = choose|k: int| 0 <= k < unseen_spec(seen, found).len() && unseen_spec(seen, found)[k] == u;
            found.lemma_filter_pred(pred, k);
        }
        if found.contains(u) && !seen.contains(u) {
            let k = choose|k: int| 0 <= k < found.len() && found[k] == u;
            found.lemma_filter_contains(pred, k);
        }
    }
}

/// A new message fetched from the server: its uid, subject and sender.
#[derive(Debug, Clone)]
pub struct NewMessage {
    pub uid: u32,
    pub subject: String,
    pub sender: String,
}

impl NewMessage {
    /// A copy of the message.
    pub fn clone_message(&self) -> (r: NewMessage)
        ensures
            r == *self,
    {
        NewMessage { uid: self.uid, subject: self.subject.clone(), sender: self.sender.clone() }
    }
}

/// The notify command template of a configuration.
pub open spec fn notify_template(config: ImapConfig) -> Seq<char> {
    match config.notify_cmd {
        Some(x) => x@,
        None => default_notify_cmd(),
    }
}

/// The uids of the messages.
pub open spec fn uids_of(messages: Seq<NewMessage>) -> Seq<u32> {
    messages.map_values(|m: NewMessage| m.uid)
}

/// A message once notified is never notified again: after its uid
/// counts as seen, it is not among the new messages of any search.
pub proof fn law_notified_once(seen: Seq<u32>, notified: Seq<u32>, found: Seq<u32>, u: u32)
    requires
        notified.contains(u),
    ensures
        !unseen_spec(seen + notified, found).contains(u),
{
    law_unseen_are_new(seen + notified, found);
    let k = choose|k: int| 0 <= k < notified.len() && notified[k] == u;
    assert((seen + notified)[seen.len() + k] == u);
}

/// The IMAP sequence set of the given uids: the uids separated by
/// commas.
pub fn uid_set(uids: &Vec<u32>) -> (s: String)
    ensures
        s@ == join_spec(decimals(uids@), ","@),
{
    join_numbers(uids, ",")
}

/// The uid set of a page of the uids a search returned: the uids from
/// `page * page_size` on, at most `page_size` of them, clipped at the
/// end (none past the end); all the uids when the page size is zero.
pub open spec fn search_page_spec(uids: Seq<Seq<char>>, page: nat, page_size: nat) -> Seq<char> {
    if page_size > 0 {
        let begin = if page * page_size < uids.len() { page * page_size } else { uids.len() };
        let end = if begin + page_size < uids.len() { begin + page_size } else { uids.len() };
        join_spec(uids.subrange(begin as int, end as int), ","@)
    } else {
        join_spec(uids, ","@)
    }
}

/// The uid set of a page of the uids a search returned.
pub fn search_page_uid_set(uids: &Vec<String>, page: usize, page_size: usize) -> (s: String)
    ensures
        s@ == search_page_spec(uids@.map_values(|u: String| u@), page as nat, page_size as nat),
{
    let ghost views = uids@.map_values(|u: String| u@);
    if page_size > 0 {
        let n = uids.len();
        let begin = match page.checked_mul(page_size) {
            Some(cursor) => if cursor < n { cursor } else { n },
            None => n,
        };
        assert(begin == (if page * page_size < n { page * page_size } else { n as int })) by (nonlinear_arith)
            requires
                page_size > 0,
                page * page_size > usize::MAX ==> begin == n,
                page * page_size <= usize::MAX ==> begin == (if page * page_size < n { page * page_size } else { n as int }),
                n <= usize::MAX,
        ;
        let end = if page_size < n - begin { begin + page_size } else { n };
        let mut slice: Vec<String> = Vec::new();
        let mut i: usize = begin;
        while i < end
            invariant
                begin <= i <= end <= uids.len(),
                views == uids@.map_values(|u: String| u@),
                slice@.map_values(|u: String| u@) == views.subrange(begin as int, i as int),
            decreases end - i,
        {
            assert(views[i as int] == uids@[i as int]@);
            let ghost before = slice@.map_values(|u: String| u@);
            let c = uids[i].clone();
            assert(c@ == uids@[i as int]@);
            slice.push(c);
            assert(slice@.map_values(|u: String| u@) =~= before.push(c@));
            assert(views.subrange(begin as int, i + 1) =~= views.subrange(begin as int, i as int).push(views[i as int]));
            i += 1;
        }
        join(&slice, ",")
    } else {
        join(uids, ",")
    }
}

/// Whether every character lies in `0x20..=0x7f`, the range that the
/// IMAP variant of UTF-7 copies as it is.
pub open spec fn imap_printable(s: Seq<char>) -> bool {
    forall|i: int| 0 <= i < s.len() ==> 0x20 <= (#[trigger] s[i] as u32) <= 0x7f
}

/// The IMAP UTF-7 encoding of a mailbox name (RFC 3501, 5.1.3).
pub uninterp spec fn utf7_encoding_of(text: Seq<char>) -> Seq<char>;

/// Calls `utf7_imap::encode_utf7_imap`. The contract claims that the
/// encoding is a function of the text and, as the crate's source shows,
/// that a text of characters in `0x20..=0x7f` only has each `&` written
/// `&-`; how other characters are encoded is left to the name.
#[verifier::external_body]
fn encode_utf7(text: &str) -> (r: String)
    ensures
        r@ == utf7_encoding_of(text@),
        imap_printable(text@) ==> r@ == replace_spec(text@, "&"@, "&-"@),
{
    utf7_imap::encode_utf7_imap(text.to_owned())
}

/// The name under which the server knows a folder.
pub fn encode_folder(folder: &str) -> (r: String)
    ensures
        r@ == utf7_encoding_of(folder@),
        imap_printable(folder@) ==> r@ == replace_spec(folder@, "&"@, "&-"@),
{
    encode_utf7(folder)
}

/// Whether a folder carries the `NoSelect` attribute.
pub open spec fn no_select(attributes: Seq<Seq<char>>) -> bool {
    exists|i: int| 0 <= i < attributes.len() && attributes[i] == "NoSelect"@
}

/// The folder listed by the server under a (decoded) name and with the
/// given attributes: none for a folder that cannot be selected, else the
/// folder described by its attributes joined with `, `.
pub fn imap_folder(name: &str, attributes: &Vec<String>) -> (r: Option<Folder>)
    ensures
        no_select(attributes@.map_values(|a: String| a@)) <==> r is None,
        r matches Some(f) ==> f.name@ == name@
            && f.desc@ == join_spec(attributes@.map_values(|a: String| a@), ", "@),
{
    let ghost views = attributes@.map_values(|a: String| a@);
    let mut i: usize = 0;
    while i < attributes.len()
        invariant
            i <= attributes.len(),
            views == attributes@.map_values(|a: String| a@),
            forall|k: int| 0 <= k < i ==> views[k] != "NoSelect"@,
        decreases attributes.len() - i,
    {
        if str_eq(attributes[i].as_str(), "NoSelect") {
            assert(views[i as int] == "NoSelect"@);
            return None;
        }
        i += 1;
    }
    assert(!no_select(views)) by {
        if no_select(views) {
            let k = choose|k: int| 0 <= k < views.len() && views[k] == "NoSelect"@;
            assert(views[k] != "NoSelect"@);
        }
    }
    Some(Folder { name: name.to_owned(), desc: join(attributes, ", ") })
}

} // verus!
