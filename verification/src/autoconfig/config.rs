//! The Mozilla Autoconfiguration document: the root, the email
//! provider, its servers and documentation, with the getters that
//! select properties out of the document.

use std::time::Duration;

use vstd::prelude::*;

use crate::text::split_on_char;

verus! {

/// The root level of the Mozilla Autoconfiguration.
#[derive(Debug)]
pub struct AutoConfig {
    pub version: String,
    pub email_provider: EmailProvider,
    pub oauth2: Option<OAuth2Config>,
}

impl AutoConfig {
    /// Whether the email provider is Google Mail.
    pub fn is_gmail(&self) -> (b: bool)
        ensures
            b == (self.email_provider.id@ == "googlemail.com"@),
    {
        crate::text::str_eq(self.email_provider.id.as_str(), "googlemail.com")
    }

    /// The config version.
    pub fn version(&self) -> (v: &str)
        ensures
            v@ == self.version@,
    {
        self.version.as_str()
    }

    /// Information about the email provider for the given email
    /// address, e.g. Google or Microsoft.
    pub fn email_provider(&self) -> (p: &EmailProvider)
        ensures
            *p == self.email_provider,
    {
        &self.email_provider
    }

    /// The oAuth2 configuration, when the provider specifies one.
    pub fn oauth2(&self) -> (o: Option<&OAuth2Config>)
        ensures
            o matches Some(c) ==> self.oauth2 == Some(*c),
            o is None <==> self.oauth2 is None,
    {
        match &self.oauth2 {
            Some(c) => Some(c),
            None => None,
        }
    }
}

/// The oAuth2 parameters of an email provider.
#[derive(Debug)]
pub struct OAuth2Config {
    pub issuer: String,
    pub scope: String,
    pub auth_url: String,
    pub token_url: String,
}

impl OAuth2Config {
    /// The implementer of the oAuth2 protocol for this email
    /// provider, which is usually the email provider itself.
    pub fn issuer(&self) -> (s: &str)
        ensures
            s@ == self.issuer@,
    {
        self.issuer.as_str()
    }

    /// The scopes needed from the oAuth2 API: the scope field split
    /// on spaces.
    pub fn scope(&self) -> (v: Vec<&str>)
        ensures
            v@.map_values(|s: &str| s@) == crate::text::split_spec(self.scope@, ' '),
    {
        split_on_char(self.scope.as_str(), ' ')
    }

    /// The url where the initial oAuth2 login takes place.
    pub fn auth_url(&self) -> (s: &str)
        ensures
            s@ == self.auth_url@,
    {
        self.auth_url.as_str()
    }

    /// The url used to refresh the oAuth2 token.
    pub fn token_url(&self) -> (s: &str)
        ensures
            s@ == self.token_url@,
    {
        self.token_url.as_str()
    }
}

/// The email provider: its identifier and its properties.
#[derive(Debug)]
pub struct EmailProvider {
    pub id: String,
    pub properties: Vec<EmailProviderProperty>,
}

/// A property of an email provider.
#[derive(Debug)]
pub enum EmailProviderProperty {
    Domain(String),
    DisplayName(String),
    DisplayShortName(String),
    IncomingServer(Server),
    OutgoingServer(Server),
    Documentation(Documentation),
}

/// The domains listed in the properties, in order.
pub open spec fn domains_of(props: Seq<EmailProviderProperty>) -> Seq<Seq<char>>
    decreases props.len(),
{
    if props.len() == 0 {
        seq![]
    } else {
        let rest = domains_of(props.drop_last());
        match props.last() {
            EmailProviderProperty::Domain(d) => rest.push(d@),
            _ => rest,
        }
    }
}

/// The servers of the properties in order, incoming ones if `incoming`,
/// outgoing ones if `outgoing`.
pub open spec fn servers_of(props: Seq<EmailProviderProperty>, incoming: bool, outgoing: bool) -> Seq<Server>
    decreases props.len(),
{
    if props.len() == 0 {
        seq![]
    } else {
        let rest = servers_of(props.drop_last(), incoming, outgoing);
        match props.last() {
            EmailProviderProperty::IncomingServer(s) => if incoming { rest.push(s) } else { rest },
            EmailProviderProperty::OutgoingServer(s) => if outgoing { rest.push(s) } else { rest },
            _ => rest,
        }
    }
}

/// `idx` places each element of `a`, in order, at a position of `b`
/// that holds the same element.
pub open spec fn embeds<T>(a: Seq<T>, b: Seq<T>, idx: Seq<int>) -> bool {
    &&& idx.len() == a.len()
    &&& forall|i: int, j: int| 0 <= i < j < idx.len() ==> idx[i] < idx[j]
    &&& forall|i: int| 0 <= i < idx.len() ==> 0 <= #[trigger] idx[i] < b.len() && a[i] == b[idx[i]]
}

/// The servers of a provider are its incoming servers and its outgoing
/// servers interleaved: each list sits in order at its own positions of
/// the whole, the two sets of positions are disjoint, and together they
/// cover it.
pub proof fn law_servers_interleave(provider: EmailProvider) -> (pos: (Seq<int>, Seq<int>))
    ensures
        servers_of(provider.properties@, true, true).len() == servers_of(provider.properties@, true, false).len()
            + servers_of(provider.properties@, false, true).len(),
        embeds(servers_of(provider.properties@, true, false), servers_of(provider.properties@, true, true), pos.0),
        embeds(servers_of(provider.properties@, false, true), servers_of(provider.properties@, true, true), pos.1),
        forall|i: int, j: int| 0 <= i < pos.0.len() && 0 <= j < pos.1.len() ==> pos.0[i] != pos.1[j],
{
    lemma_servers_interleave(provider.properties@)
}

proof fn lemma_servers_interleave(props: Seq<EmailProviderProperty>) -> (pos: (Seq<int>, Seq<int>))
    ensures
        servers_of(props, true, true).len() == servers_of(props, true, false).len() + servers_of(props, false, true).len(),
        embeds(servers_of(props, true, false), servers_of(props, true, true), pos.0),
        embeds(servers_of(props, false, true), servers_of(props, true, true), pos.1),
        forall|i: int, j: int| 0 <= i < pos.0.len() && 0 <= j < pos.1.len() ==> pos.0[i] != pos.1[j],
    decreases props.len(),
{
    if props.len() == 0 {
        (seq![], seq![])
    } else {
        let rest = props.drop_last();
        let (a, b) = lemma_servers_interleave(rest);
        let all = servers_of(rest, true, true);
        let n = all.len() as int;
        match props.last() {
            EmailProviderProperty::IncomingServer(s) => {
                let a2 = a.push(n);
                assert forall|i: int| 0 <= i < a2.len() implies 0 <= #[trigger] a2[i] < all.push(s).len()
                    && servers_of(rest, true, false).push(s)[i] == all.push(s)[a2[i]] by {
                    if i < a.len() {
                        assert(a2[i] == a[i]);
                    }
                }
                assert forall|i: int| 0 <= i < b.len() implies 0 <= #[trigger] b[i] < all.push(s).len()
                    && servers_of(rest, false, true)[i] == all.push(s)[b[i]] by {}
                (a2, b)
            },
            EmailProviderProperty::OutgoingServer(s) => {
                let b2 = b.push(n);
                assert forall|i: int| 0 <= i < b2.len() implies 0 <= #[trigger] b2[i] < all.push(s).len()
                    && servers_of(rest, false, true).push(s)[i] == all.push(s)[b2[i]] by {
                    if i < b.len() {
                        assert(b2[i] == b[i]);
                    }
                }
                assert forall|i: int| 0 <= i < a.len() implies 0 <= #[trigger] a[i] < all.push(s).len()
                    && servers_of(rest, true, false)[i] == all.push(s)[a[i]] by {}
                (a, b2)
            },
            _ => (a, b),
        }
    }
}

impl EmailProvider {
    /// All the properties of the provider.
    pub fn properties(&self) -> (p: &Vec<EmailProviderProperty>)
        ensures
            p@ == self.properties@,
    {
        &self.properties
    }

    /// The email provider's unique id.
    pub fn id(&self) -> (s: &str)
        ensures
            s@ == self.id@,
    {
        self.id.as_str()
    }

    /// The domain names that the email provider uses in their email
    /// addresses, in the order of the properties.
    pub fn domain(&self) -> (v: Vec<&str>)
        ensures
            v@.map_values(|s: &str| s@) == domains_of(self.properties@),
    {
        let mut v: Vec<&str> = Vec::new();
        let mut i: usize = 0;
        while i < self.properties.len()
            invariant
                i <= self.properties.len(),
                v@.map_values(|s: &str| s@) == domains_of(self.properties@.take(i as int)),
            decreases self.properties.len() - i,
        {
            assert(self.properties@.take(i + 1).drop_last() =~= self.properties@.take(i as int));
            if let EmailProviderProperty::Domain(d) = &self.properties[i] {
                v.push(d.as_str());
            }
            assert(v@.map_values(|s: &str| s@) =~= domains_of(self.properties@.take(i + 1)));
            i += 1;
        }
        assert(self.properties@.take(i as int) =~= self.properties@);
        v
    }

    /// The email provider's display name, e.g. Google Mail: the first
    /// such property.
    pub fn display_name(&self) -> (r: Option<&str>)
        ensures
            match r {
                None => forall|j: int| 0 <= j < self.properties@.len()
                    ==> !(self.properties@[j] is DisplayName),
                Some(n) => exists|j: int| #![trigger self.properties@[j]] 0 <= j < self.properties@.len()
                    && (self.properties@[j] matches EmailProviderProperty::DisplayName(d) && d@ == n@)
                    && forall|k: int| 0 <= k < j ==> !(self.properties@[k] is DisplayName),
            },
    {
        let mut i: usize = 0;
        while i < self.properties.len()
            invariant
                i <= self.properties.len(),
                forall|k: int| 0 <= k < i ==> !(self.properties@[k] is DisplayName),
            decreases self.properties.len() - i,
        {
            if let EmailProviderProperty::DisplayName(d) = &self.properties[i] {
                return Some(d.as_str());
            }
            i += 1;
        }
        None
    }

    /// The email provider's short display name, e.g. GMail: the first
    /// such property.
    pub fn display_short_name(&self) -> (r: Option<&str>)
        ensures
            match r {
                None => forall|j: int| 0 <= j < self.properties@.len()
                    ==> !(self.properties@[j] is DisplayShortName),
                Some(n) => exists|j: int| #![trigger self.properties@[j]] 0 <= j < self.properties@.len()
                    && (self.properties@[j] matches EmailProviderProperty::DisplayShortName(d) && d@ == n@)
                    && forall|k: int| 0 <= k < j ==> !(self.properties@[k] is DisplayShortName),
            },
    {
        let mut i: usize = 0;
        while i < self.properties.len()
            invariant
                i <= self.properties.len(),
                forall|k: int| 0 <= k < i ==> !(self.properties@[k] is DisplayShortName),
            decreases self.properties.len() - i,
        {
            if let EmailProviderProperty::DisplayShortName(d) = &self.properties[i] {
                return Some(d.as_str());
            }
            i += 1;
        }
        None
    }

    /// The provider's incoming mail servers, in order.
    pub fn incoming_servers(&self) -> (v: Vec<&Server>)
        ensures
            v@.map_values(|s: &Server| *s) == servers_of(self.properties@, true, false),
    {
        self.select_servers(true, false)
    }

    /// The provider's outgoing mail servers, in order.
    pub fn outgoing_servers(&self) -> (v: Vec<&Server>)
        ensures
            v@.map_values(|s: &Server| *s) == servers_of(self.properties@, false, true),
    {
        self.select_servers(false, true)
    }

    /// All the provider's mail servers, incoming and outgoing, in the
    /// order of the properties.
    pub fn servers(&self) -> (v: Vec<&Server>)
        ensures
            v@.map_values(|s: &Server| *s) == servers_of(self.properties@, true, true),
    {
        self.select_servers(true, true)
    }

    fn select_servers(&self, incoming: bool, outgoing: bool) -> (v: Vec<&Server>)
        ensures
            v@.map_values(|s: &Server| *s) == servers_of(self.properties@, incoming, outgoing),
    {
        let mut v: Vec<&Server> = Vec::new();
        let mut i: usize = 0;
        while i < self.properties.len()
            invariant
                i <= self.properties.len(),
                v@.map_values(|s: &Server| *s) == servers_of(self.properties@.take(i as int), incoming, outgoing),
            decreases self.properties.len() - i,
        {
            assert(self.properties@.take(i + 1).drop_last() =~= self.properties@.take(i as int));
            match &self.properties[i] {
                EmailProviderProperty::IncomingServer(s) => {
                    if incoming {
                        v.push(s);
                    }
                },
                EmailProviderProperty::OutgoingServer(s) => {
                    if outgoing {
                        v.push(s);
                    }
                },
                _ => {},
            }
            assert(v@.map_values(|s: &Server| *s) =~= servers_of(self.properties@.take(i + 1), incoming, outgoing));
            i += 1;
        }
        assert(self.properties@.take(i as int) =~= self.properties@);
        v
    }

    /// Documentation on how to setup the email client, provided by
    /// the email provider: the first such property.
    pub fn documentation(&self) -> (r: Option<&Documentation>)
        ensures
            match r {
                None => forall|j: int| 0 <= j < self.properties@.len()
                    ==> !(self.properties@[j] is Documentation),
                Some(d) => exists|j: int| #![trigger self.properties@[j]] 0 <= j < self.properties@.len()
                    && self.properties@[j] == EmailProviderProperty::Documentation(*d)
                    && forall|k: int| 0 <= k < j ==> !(self.properties@[k] is Documentation),
            },
    {
        let mut i: usize = 0;
        while i < self.properties.len()
            invariant
                i <= self.properties.len(),
                forall|k: int| 0 <= k < i ==> !(self.properties@[k] is Documentation),
            decreases self.properties.len() - i,
        {
            if let EmailProviderProperty::Documentation(d) = &self.properties[i] {
                return Some(d);
            }
            i += 1;
        }
        None
    }
}

/// A mail server: its type and its properties.
#[derive(Debug)]
pub struct Server {
    pub server_type: ServerType,
    pub properties: Vec<ServerProperty>,
}

impl Server {
    /// All the properties of the server.
    pub fn properties(&self) -> (p: &Vec<ServerProperty>)
        ensures
            p@ == self.properties@,
    {
        &self.properties
    }

    /// What type of mail server this server is.
    pub fn server_type(&self) -> (t: &ServerType)
        ensures
            *t == self.server_type,
    {
        &self.server_type
    }

    /// The mail server's domain or IP: the first such property.
    pub fn hostname(&self) -> (r: Option<&str>)
        ensures
            match r {
                None => forall|j: int| 0 <= j < self.properties@.len()
                    ==> !(self.properties@[j] is Hostname),
                Some(h) => exists|j: int| #![trigger self.properties@[j]] 0 <= j < self.properties@.len()
                    && (self.properties@[j] matches ServerProperty::Hostname(x) && x@ == h@)
                    && forall|k: int| 0 <= k < j ==> !(self.properties@[k] is Hostname),
            },
    {
        let mut i: usize = 0;
        while i < self.properties.len()
            invariant
                i <= self.properties.len(),
                forall|k: int| 0 <= k < i ==> !(self.properties@[k] is Hostname),
            decreases self.properties.len() - i,
        {
            if let ServerProperty::Hostname(x) = &self.properties[i] {
                return Some(x.as_str());
            }
            i += 1;
        }
        None
    }

    /// The mail server's port: the first such property.
    pub fn port(&self) -> (r: Option<&u16>)
        ensures
            match r {
                None => forall|j: int| 0 <= j < self.properties@.len()
                    ==> !(self.properties@[j] is Port),
                Some(p) => exists|j: int| #![trigger self.properties@[j]] 0 <= j < self.properties@.len()
                    && self.properties@[j] == ServerProperty::Port(*p)
                    && forall|k: int| 0 <= k < j ==> !(self.properties@[k] is Port),
            },
    {
        let mut i: usize = 0;
        while i < self.properties.len()
            invariant
                i <= self.properties.len(),
                forall|k: int| 0 <= k < i ==> !(self.properties@[k] is Port),
            decreases self.properties.len() - i,
        {
            if let ServerProperty::Port(p) = &self.properties[i] {
                return Some(p);
            }
            i += 1;
        }
        None
    }

    /// The kind of security the mail server prefers: the first socket
    /// type property.
    pub fn security_type(&self) -> (r: Option<&SecurityType>)
        ensures
            match r {
                None => forall|j: int| 0 <= j < self.properties@.len()
                    ==> !(self.properties@[j] is SocketType),
                Some(t) => exists|j: int| #![trigger self.properties@[j]] 0 <= j < self.properties@.len()
                    && self.properties@[j] == ServerProperty::SocketType(*t)
                    && forall|k: int| 0 <= k < j ==> !(self.properties@[k] is SocketType),
            },
    {
        let mut i: usize = 0;
        while i < self.properties.len()
            invariant
                i <= self.properties.len(),
                forall|k: int| 0 <= k < i ==> !(self.properties@[k] is SocketType),
            decreases self.properties.len() - i,
        {
            if let ServerProperty::SocketType(t) = &self.properties[i] {
                return Some(t);
            }
            i += 1;
        }
        None
    }

    /// The kinds of authentication needed to log in to this mail
    /// server, in order.
    pub fn authentication_type(&self) -> (v: Vec<&AuthenticationType>)
        ensures
            v@.map_values(|a: &AuthenticationType| *a) == authentications_of(self.properties@),
    {
        let mut v: Vec<&AuthenticationType> = Vec::new();
        let mut i: usize = 0;
        while i < self.properties.len()
            invariant
                i <= self.properties.len(),
                v@.map_values(|a: &AuthenticationType| *a) == authentications_of(self.properties@.take(i as int)),
            decreases self.properties.len() - i,
        {
            assert(self.properties@.take(i + 1).drop_last() =~= self.properties@.take(i as int));
            if let ServerProperty::Authentication(a) = &self.properties[i] {
                v.push(a);
            }
            assert(v@.map_values(|a: &AuthenticationType| *a) =~= authentications_of(self.properties@.take(i + 1)));
            i += 1;
        }
        assert(self.properties@.take(i as int) =~= self.properties@);
        v
    }

    /// The user's username: the first such property.
    pub fn username(&self) -> (r: Option<&str>)
        ensures
            match r {
                None => forall|j: int| 0 <= j < self.properties@.len()
                    ==> !(self.properties@[j] is Username),
                Some(u) => exists|j: int| #![trigger self.properties@[j]] 0 <= j < self.properties@.len()
                    && (self.properties@[j] matches ServerProperty::Username(x) && x@ == u@)
                    && forall|k: int| 0 <= k < j ==> !(self.properties@[k] is Username),
            },
    {
        let mut i: usize = 0;
        while i < self.properties.len()
            invariant
                i <= self.properties.len(),
                forall|k: int| 0 <= k < i ==> !(self.properties@[k] is Username),
            decreases self.properties.len() - i,
        {
            if let ServerProperty::Username(x) = &self.properties[i] {
                return Some(x.as_str());
            }
            i += 1;
        }
        None
    }

    /// The user's password: the first such property.
    pub fn password(&self) -> (r: Option<&str>)
        ensures
            match r {
                None => forall|j: int| 0 <= j < self.properties@.len()
                    ==> !(self.properties@[j] is Password),
                Some(p) => exists|j: int| #![trigger self.properties@[j]] 0 <= j < self.properties@.len()
                    && (self.properties@[j] matches ServerProperty::Password(x) && x@ == p@)
                    && forall|k: int| 0 <= k < j ==> !(self.properties@[k] is Password),
            },
    {
        let mut i: usize = 0;
        while i < self.properties.len()
            invariant
                i <= self.properties.len(),
                forall|k: int| 0 <= k < i ==> !(self.properties@[k] is Password),
            decreases self.properties.len() - i,
        {
            if let ServerProperty::Password(x) = &self.properties[i] {
                return Some(x.as_str());
            }
            i += 1;
        }
        None
    }
}

/// The authentication types listed in the properties, in order.
pub open spec fn authentications_of(props: Seq<ServerProperty>) -> Seq<AuthenticationType>
    decreases props.len(),
{
    if props.len() == 0 {
        seq![]
    } else {
        let rest = authentications_of(props.drop_last());
        match props.last() {
            ServerProperty::Authentication(a) => rest.push(a),
            _ => rest,
        }
    }
}

/// A property of a mail server.
#[derive(Debug)]
pub enum ServerProperty {
    Hostname(String),
    Port(u16),
    SocketType(SecurityType),
    Authentication(AuthenticationType),
    OwaURL(String),
    EwsURL(String),
    UseGlobalPreferredServer(bool),
    Pop3(Pop3Config),
    Username(String),
    Password(String),
}

/// The kind of connection security of a server.
#[derive(Debug, Clone, Copy, PartialEq, Eq, Structural)]
pub enum SecurityType {
    Plain,
    Starttls,
    Tls,
}

/// The kind of a mail server.
#[derive(Debug, Clone, Copy, PartialEq, Eq, Structural)]
pub enum ServerType {
    Exchange,
    Imap,
    Smtp,
    Unknown,
}

/// A kind of authentication accepted by a mail server.
#[derive(Debug, Clone, Copy, PartialEq, Eq, Structural)]
pub enum AuthenticationType {
    PasswordCleartext,
    PasswordEncrypted,
    Ntlm,
    GsApi,
    ClientIPAddress,
    TlsClientCert,
    OAuth2,
    /// No authentication (`None` in the document).
    NoAuthentication,
}

/// The number of seconds in a day.
pub const SECONDS_PER_DAY: u64 = 86400;

/// The number of seconds in a minute.
pub const SECONDS_PER_MINUTE: u64 = 60;

/// The duration of the given number of seconds.
pub uninterp spec fn duration_of_secs(secs: u64) -> Duration;

/// `Duration::from_secs`: the duration of `secs` whole seconds.
#[verifier::external_body]
fn duration_from_secs(secs: u64) -> (d: Duration)
    ensures
        d == duration_of_secs(secs),
{
    Duration::from_secs(secs)
}

/// The POP3 settings of a server.
#[derive(Debug)]
pub struct Pop3Config {
    pub leave_messages_on_server: bool,
    pub download_on_biff: Option<bool>,
    pub days_to_leave_messages_on_server: Option<u64>,
    pub check_interval: Option<CheckInterval>,
}

/// The interval in which a POP3 server allows checks for new
/// messages.
#[derive(Debug)]
pub struct CheckInterval {
    pub minutes: Option<u64>,
}

impl Pop3Config {
    /// Whether the server keeps read messages after the client quits
    /// the connection.
    pub fn leave_messages_on_server(&self) -> (b: &bool)
        ensures
            *b == self.leave_messages_on_server,
    {
        &self.leave_messages_on_server
    }

    /// Whether messages are downloaded on biff.
    pub fn download_on_biff(&self) -> (b: Option<&bool>)
        ensures
            b matches Some(x) ==> self.download_on_biff == Some(*x),
            b is None <==> self.download_on_biff is None,
    {
        match &self.download_on_biff {
            Some(x) => Some(x),
            None => None,
        }
    }

    /// How long the messages are stored on the server: the number of
    /// days, in seconds.
    pub fn time_to_leave_messages_on_server(&self) -> (d: Option<Duration>)
        requires
            self.days_to_leave_messages_on_server matches Some(days)
                ==> days * SECONDS_PER_DAY <= u64::MAX,
        ensures
            match self.days_to_leave_messages_on_server {
                Some(days) => d == Some(duration_of_secs((days * SECONDS_PER_DAY) as u64)),
                None => d is None,
            },
    {
        match self.days_to_leave_messages_on_server {
            Some(days) => Some(duration_from_secs(days * SECONDS_PER_DAY)),
            None => None,
        }
    }

    /// The interval in which the server allows a check for new
    /// messages, when it gives one in minutes.
    pub fn check_interval(&self) -> (d: Option<Duration>)
        requires
            self.check_interval matches Some(c) ==> (c.minutes matches Some(m)
                ==> m * SECONDS_PER_MINUTE <= u64::MAX),
        ensures
            match self.check_interval {
                Some(c) => match c.minutes {
                    Some(m) => d == Some(duration_of_secs((m * SECONDS_PER_MINUTE) as u64)),
                    None => d is None,
                },
                None => d is None,
            },
    {
        match &self.check_interval {
            Some(interval) => match interval.minutes {
                Some(minutes) => Some(duration_from_secs(minutes * SECONDS_PER_MINUTE)),
                None => None,
            },
            None => None,
        }
    }
}

/// Documentation on how to set up the email client.
#[derive(Debug)]
pub struct Documentation {
    pub url: String,
    pub properties: Vec<DocumentationDescription>,
}

impl Documentation {
    /// Where the documentation can be found.
    pub fn url(&self) -> (s: &str)
        ensures
            s@ == self.url@,
    {
        self.url.as_str()
    }

    /// The documentation in different languages.
    pub fn properties(&self) -> (p: &Vec<DocumentationDescription>)
        ensures
            p@ == self.properties@,
    {
        &self.properties
    }
}

/// The documentation in one language.
#[derive(Debug)]
pub struct DocumentationDescription {
    pub lang: Option<String>,
    pub description: String,
}

impl DocumentationDescription {
    /// What language the documentation is in.
    pub fn language(&self) -> (l: Option<&str>)
        ensures
            match l {
                Some(x) => self.lang matches Some(y) && x@ == y@,
                None => self.lang is None,
            },
    {
        match &self.lang {
            Some(x) => Some(x.as_str()),
            None => None,
        }
    }

    /// The documentation.
    pub fn description(&self) -> (s: &str)
        ensures
            s@ == self.description@,
    {
        self.description.as_str()
    }
}

} // verus!
