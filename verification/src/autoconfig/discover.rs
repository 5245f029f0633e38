//! Discovery of an account configuration from an email address: the
//! locations to ask, the order in which they are asked, and the
//! configuration built from SRV records when nothing else answers.

use vstd::prelude::*;

use crate::autoconfig::config::{
    AuthenticationType, AutoConfig, EmailProvider, EmailProviderProperty, SecurityType, Server,
    ServerProperty, ServerType,
};
use crate::text::{from_chars, push_str, trim_matches_char, trim_matches_spec};

verus! {

/// Errors of account discovery that the library itself decides.
#[derive(Debug)]
pub enum DiscoveryError {
    /// The email address could not be parsed.
    ParsingEmailAddress(String, email_address::Error),
    /// No MX record was found at the given domain.
    GetMxRecordNotFoundError(String),
    /// No mailconf TXT record was found at the given domain.
    GetMailconfTxtRecordNotFoundError(String),
    /// No SRV record was found at the given domain.
    GetSrvRecordNotFoundError(String),
}

/// The domain of an address with its leading and trailing dots removed.
pub open spec fn clean_domain(domain: Seq<char>) -> Seq<char> {
    trim_matches_spec(domain, '.')
}

/// The main ISP location of the configuration of an address.
pub open spec fn main_isp_uri_spec(scheme: Seq<char>, addr: Seq<char>, domain: Seq<char>) -> Seq<char> {
    scheme + "://autoconfig."@ + clean_domain(domain) + "/mail/config-v1.1.xml?emailaddress="@ + addr
}

/// The alternative ISP location of the configuration of a domain.
pub open spec fn alt_isp_uri_spec(scheme: Seq<char>, domain: Seq<char>) -> Seq<char> {
    scheme + "://"@ + clean_domain(domain) + "/.well-known/autoconfig/mail/config-v1.1.xml"@
}

/// The Thunderbird ISPDB location of the configuration of a domain.
pub open spec fn ispdb_uri_spec(domain: Seq<char>) -> Seq<char> {
    "https://autoconfig.thunderbird.net/v1.1/"@ + clean_domain(domain)
}

/// The main ISP location: `{scheme}://autoconfig.{domain}/mail/config-v1.1.xml?emailaddress={addr}`.
pub fn main_isp_uri(scheme: &str, addr: &str, domain: &str) -> (uri: String)
    ensures
        uri@ == main_isp_uri_spec(scheme@, addr@, domain@),
{
    let mut v: Vec<char> = Vec::new();
    push_str(&mut v, scheme);
    push_str(&mut v, "://autoconfig.");
    let mut d = trim_matches_char(domain, '.');
    v.append(&mut d);
    push_str(&mut v, "/mail/config-v1.1.xml?emailaddress=");
    push_str(&mut v, addr);
    from_chars(&v)
}

/// The alternative ISP location: `{scheme}://{domain}/.well-known/autoconfig/mail/config-v1.1.xml`.
pub fn alt_isp_uri(scheme: &str, domain: &str) -> (uri: String)
    ensures
        uri@ == alt_isp_uri_spec(scheme@, domain@),
{
    let mut v: Vec<char> = Vec::new();
    push_str(&mut v, scheme);
    push_str(&mut v, "://");
    let mut d = trim_matches_char(domain, '.');
    v.append(&mut d);
    push_str(&mut v, "/.well-known/autoconfig/mail/config-v1.1.xml");
    from_chars(&v)
}

/// The Thunderbird ISPDB location: `https://autoconfig.thunderbird.net/v1.1/{domain}`.
pub fn ispdb_uri(domain: &str) -> (uri: String)
    ensures
        uri@ == ispdb_uri_spec(domain@),
{
    let mut v: Vec<char> = Vec::new();
    push_str(&mut v, "https://autoconfig.thunderbird.net/v1.1/");
    let mut d = trim_matches_char(domain, '.');
    v.append(&mut d);
    from_chars(&v)
}

/// The address of a local part at a domain: `{local}@{domain}`.
pub fn join_address(local: &str, domain: &str) -> (addr: String)
    ensures
        addr@ == local@ + seq!['@'] + domain@,
{
    let mut v: Vec<char> = Vec::new();
    push_str(&mut v, local);
    v.push('@');
    push_str(&mut v, domain);
    from_chars(&v)
}

/// The target of a SRV record: the host name (without its final dot)
/// and the port.
#[derive(Debug, Clone)]
pub struct SrvTarget {
    pub hostname: String,
    pub port: u16,
}

/// The security of a submission server, decided from its port: plain
/// on 25, STARTTLS on 587, TLS on any other port (465 included).
pub open spec fn submission_security_spec(port: u16) -> SecurityType {
    if port == 25 {
        SecurityType::Plain
    } else if port == 587 {
        SecurityType::Starttls
    } else {
        SecurityType::Tls
    }
}

/// The security of a submission server, decided from its port.
pub fn submission_security(port: u16) -> (t: SecurityType)
    ensures
        t == submission_security_spec(port),
{
    match port {
        25 => SecurityType::Plain,
        587 => SecurityType::Starttls,
        _ => SecurityType::Tls,
    }
}

/// The server built from a SRV target: hostname, port, the given
/// security, and cleartext password authentication.
pub open spec fn srv_server_matches(server: Server, kind: ServerType, target: SrvTarget, security: SecurityType) -> bool {
    &&& server.server_type == kind
    &&& server.properties@.len() == 4
    &&& server.properties@[0] matches ServerProperty::Hostname(h) && h@ == target.hostname@
    &&& server.properties@[1] == ServerProperty::Port(target.port)
    &&& server.properties@[2] == ServerProperty::SocketType(security)
    &&& server.properties@[3] == ServerProperty::Authentication(AuthenticationType::PasswordCleartext)
}

fn srv_server(kind: ServerType, target: &SrvTarget, security: SecurityType) -> (server: Server)
    ensures
        srv_server_matches(server, kind, *target, security),
{
    let mut properties: Vec<ServerProperty> = Vec::new();
    properties.push(ServerProperty::Hostname(target.hostname.clone()));
    properties.push(ServerProperty::Port(target.port));
    properties.push(ServerProperty::SocketType(security));
    properties.push(ServerProperty::Authentication(AuthenticationType::PasswordCleartext));
    Server { server_type: kind, properties }
}

/// The number of servers discovered from SRV records.
pub open spec fn srv_count(imap: Option<SrvTarget>, imaps: Option<SrvTarget>, submission: Option<SrvTarget>) -> nat {
    (if imap is Some { 1nat } else { 0nat }) + (if imaps is Some { 1nat } else { 0nat })
        + (if submission is Some { 1nat } else { 0nat })
}

/// Builds the configuration of a domain from its IMAP, IMAPS and
/// submission SRV records: version 1.1, the domain as identifier, no
/// oAuth2, and one server per record found, in that order. IMAP is
/// reached with STARTTLS, IMAPS with TLS, submission as its port
/// decides.
pub fn config_from_srv_records(
    domain: &str,
    imap: Option<SrvTarget>,
    imaps: Option<SrvTarget>,
    submission: Option<SrvTarget>,
) -> (config: AutoConfig)
    ensures
        config.version@ == "1.1"@,
        config.email_provider.id@ == domain@,
        config.oauth2 is None,
        config.email_provider.properties@.len() == srv_count(imap, imaps, submission),
        imap matches Some(t) ==> (config.email_provider.properties@[0] matches EmailProviderProperty::IncomingServer(s)
            && srv_server_matches(s, ServerType::Imap, t, SecurityType::Starttls)),
        imaps matches Some(t) ==> ({
            let i = if imap is Some { 1int } else { 0int };
            config.email_provider.properties@[i] matches EmailProviderProperty::IncomingServer(s)
                && srv_server_matches(s, ServerType::Imap, t, SecurityType::Tls)
        }),
        submission matches Some(t) ==> ({
            let i = srv_count(imap, imaps, None) as int;
            config.email_provider.properties@[i] matches EmailProviderProperty::OutgoingServer(s)
                && srv_server_matches(s, ServerType::Smtp, t, submission_security_spec(t.port))
        }),
{
    let mut properties: Vec<EmailProviderProperty> = Vec::new();
    if let Some(t) = &imap {
        properties.push(EmailProviderProperty::IncomingServer(srv_server(ServerType::Imap, t, SecurityType::Starttls)));
    }
    if let Some(t) = &imaps {
        properties.push(EmailProviderProperty::IncomingServer(srv_server(ServerType::Imap, t, SecurityType::Tls)));
    }
    if let Some(t) = &submission {
        let security = submission_security(t.port);
        properties.push(EmailProviderProperty::OutgoingServer(srv_server(ServerType::Smtp, t, security)));
    }
    AutoConfig {
        version: crate::text::string_of("1.1"),
        email_provider: EmailProvider { id: crate::text::string_of(domain), properties },
        oauth2: None,
    }
}

#[verifier::external_type_specification]
#[verifier::external_body]
pub struct ExEmailAddressError(email_address::Error);

/// What `email_address` makes of a text: its local part and its
/// domain when the text is a valid address.
pub uninterp spec fn email_address_parts(text: Seq<char>) -> Option<(Seq<char>, Seq<char>)>;

/// `EmailAddress::from_str`, then `local_part` and `domain` of the
/// parsed address. The contract ties the outcome to the text through
/// `email_address_parts` and states nothing more of the validation.
#[verifier::external_body]
fn parse_email_address(text: &str) -> (r: Result<(String, String), email_address::Error>)
    ensures
        match r {
            Ok((local, domain)) => email_address_parts(text@) == Some((local@, domain@)),
            Err(_) => email_address_parts(text@) is None,
        },
{
    match <email_address::EmailAddress as std::str::FromStr>::from_str(text) {
        Ok(addr) => Ok((addr.local_part().to_string(), addr.domain().to_string())),
        Err(err) => Err(err),
    }
}

/// A parsed email address: the text it was parsed from, its local
/// part and its domain.
#[derive(Debug, Clone)]
pub struct Address {
    pub text: String,
    pub local_part: String,
    pub domain: String,
}

impl Address {
    /// Whether this address is what the text parses to.
    pub open spec fn parsed_from(self, text: Seq<char>) -> bool {
        &&& self.text@ == text
        &&& email_address_parts(text) == Some((self.local_part@, self.domain@))
    }

    /// Parses an email address.
    pub fn parse(text: &str) -> (r: Result<Address, DiscoveryError>)
        ensures
            email_address_parts(text@) is Some <==> r is Ok,
            r matches Ok(a) ==> a.parsed_from(text@),
            r matches Err(e) ==> e matches DiscoveryError::ParsingEmailAddress(t, _) && t@ == text@,
    {
        match parse_email_address(text) {
            Ok((local_part, domain)) => Ok(Address { text: crate::text::string_of(text), local_part, domain }),
            Err(err) => Err(DiscoveryError::ParsingEmailAddress(crate::text::string_of(text), err)),
        }
    }
}

/// The ISP locations, asked in this order.
#[derive(Debug, Clone, Copy, PartialEq, Eq, Structural)]
pub enum IspStage {
    /// `autoconfig.{domain}`, over http and https.
    Main,
    /// `{domain}/.well-known`, over http and https.
    Alternative,
    /// The Thunderbird ISPDB.
    Database,
}

/// Where the discovery of a configuration stands.
#[derive(Debug, Clone)]
pub enum DiscoveryState {
    /// Asking the ISP locations of `addr`. `mx` holds the MX exchange
    /// domain when `addr` was built from it; `origin` is the cleaned
    /// domain of the address given by the user.
    Isp { addr: Address, stage: IspStage, mx: Option<String>, origin: String },
    /// Looking up the MX exchange of the domain of `addr`.
    Mx { addr: Address, origin: String },
    /// Looking up the mailconf TXT record of `domain`.
    Txt { domain: String, from_mx: bool, origin: String },
    /// Fetching the configuration at the URI of a mailconf TXT record.
    TxtFetch { from_mx: bool, origin: String },
    /// Looking up the IMAP, IMAPS and submission SRV records of `domain`.
    Srv { domain: String },
    /// Discovery has ended.
    Done,
}

/// What the caller has to do next.
#[derive(Debug)]
pub enum DiscoveryAction {
    /// Fetch the configuration at each URI; the first success wins.
    FetchAny(Vec<String>),
    /// Look up the MX exchange domain of the given domain.
    LookUpMx(String),
    /// Look up the mailconf URI of the TXT records of the given domain.
    LookUpMailconfTxt(String),
    /// Look up the SRV records of the given domain and build the
    /// configuration from them.
    LookUpSrv(String),
    /// Discovery stops with an error.
    Fail(DiscoveryError),
    /// Discovery has ended with the configuration last obtained.
    Finish,
}

/// What the caller learnt by doing the last action.
#[derive(Debug)]
pub enum DiscoveryEvent {
    /// Whether one of the fetches succeeded.
    Fetched(bool),
    /// The MX exchange domain, if one was found.
    MxFound(Option<String>),
    /// The mailconf URI, if one was found.
    TxtFound(Option<String>),
    /// The SRV records were looked up.
    SrvDone,
}

/// Whether the state waits for this kind of event.
pub open spec fn accepts_spec(state: DiscoveryState, event: DiscoveryEvent) -> bool {
    match state {
        DiscoveryState::Isp { .. } => event is Fetched,
        DiscoveryState::Mx { .. } => event is MxFound,
        DiscoveryState::Txt { .. } => event is TxtFound,
        DiscoveryState::TxtFetch { .. } => event is Fetched,
        DiscoveryState::Srv { .. } => event is SrvDone,
        DiscoveryState::Done => false,
    }
}

/// A measure that every step decreases.
pub open spec fn rank(state: DiscoveryState) -> nat {
    match state {
        DiscoveryState::Isp { stage, mx, .. } => {
            let base: nat = if mx is Some { 9 } else { 14 };
            base + match stage {
                IspStage::Main => 2nat,
                IspStage::Alternative => 1nat,
                IspStage::Database => 0nat,
            }
        },
        DiscoveryState::Mx { .. } => 13,
        DiscoveryState::Txt { from_mx, .. } => if from_mx { 8 } else { 4 },
        DiscoveryState::TxtFetch { from_mx, .. } => if from_mx { 7 } else { 3 },
        DiscoveryState::Srv { .. } => 2,
        DiscoveryState::Done => 0,
    }
}

/// The URIs to fetch for an ISP stage.
pub open spec fn isp_uris(addr: Address, stage: IspStage) -> Seq<Seq<char>> {
    match stage {
        IspStage::Main => seq![
            main_isp_uri_spec("http"@, addr.text@, addr.domain@),
            main_isp_uri_spec("https"@, addr.text@, addr.domain@),
        ],
        IspStage::Alternative => seq![
            alt_isp_uri_spec("http"@, addr.domain@),
            alt_isp_uri_spec("https"@, addr.domain@),
        ],
        IspStage::Database => seq![ispdb_uri_spec(addr.domain@)],
    }
}

/// Whether the action fetches exactly the given URIs.
pub open spec fn fetches(action: DiscoveryAction, uris: Seq<Seq<char>>) -> bool {
    action matches DiscoveryAction::FetchAny(v) && v@.map_values(|u: String| u@) == uris
}

fn isp_action(addr: &Address, stage: IspStage) -> (action: DiscoveryAction)
    ensures
        fetches(action, isp_uris(*addr, stage)),
{
    let mut v: Vec<String> = Vec::new();
    match stage {
        IspStage::Main => {
            v.push(main_isp_uri("http", addr.text.as_str(), addr.domain.as_str()));
            v.push(main_isp_uri("https", addr.text.as_str(), addr.domain.as_str()));
        },
        IspStage::Alternative => {
            v.push(alt_isp_uri("http", addr.domain.as_str()));
            v.push(alt_isp_uri("https", addr.domain.as_str()));
        },
        IspStage::Database => {
            v.push(ispdb_uri(addr.domain.as_str()));
        },
    }
    assert(v@.map_values(|u: String| u@) =~= isp_uris(*addr, stage));
    DiscoveryAction::FetchAny(v)
}

/// Starts the discovery of the configuration of an address: its main
/// ISP locations are asked first.
pub fn start_discovery(addr: Address) -> (res: (DiscoveryState, DiscoveryAction))
    ensures
        res.0 matches DiscoveryState::Isp { addr: a, stage, mx, origin }
            && a == addr && stage == IspStage::Main && mx is None
            && origin@ == clean_domain(addr.domain@),
        fetches(res.1, isp_uris(addr, IspStage::Main)),
{
    let action = isp_action(&addr, IspStage::Main);
    let d = trim_matches_char(addr.domain.as_str(), '.');
    let origin = from_chars(&d);
    (DiscoveryState::Isp { addr, stage: IspStage::Main, mx: None, origin }, action)
}

impl DiscoveryState {
    /// Whether the state waits for this kind of event.
    pub fn accepts(&self, event: &DiscoveryEvent) -> (b: bool)
        ensures
            b == accepts_spec(*self, *event),
    {
        match (self, event) {
            (DiscoveryState::Isp { .. }, DiscoveryEvent::Fetched(_)) => true,
            (DiscoveryState::Mx { .. }, DiscoveryEvent::MxFound(_)) => true,
            (DiscoveryState::Txt { .. }, DiscoveryEvent::TxtFound(_)) => true,
            (DiscoveryState::TxtFetch { .. }, DiscoveryEvent::Fetched(_)) => true,
            (DiscoveryState::Srv { .. }, DiscoveryEvent::SrvDone) => true,
            _ => false,
        }
    }
}

/// The fallback after a step failed: a step that came from the MX
/// exchange falls back to the TXT record of the user's domain, any
/// other to the SRV records of the user's domain.
pub open spec fn fall_back(from_mx: bool, origin: Seq<char>, next: DiscoveryState, action: DiscoveryAction) -> bool {
    if from_mx {
        &&& next matches DiscoveryState::Txt { domain, from_mx: f, origin: o }
        &&& domain@ == origin
        &&& !f
        &&& o@ == origin
        &&& action matches DiscoveryAction::LookUpMailconfTxt(d)
        &&& d@ == origin
    } else {
        &&& next matches DiscoveryState::Srv { domain }
        &&& domain@ == origin
        &&& action matches DiscoveryAction::LookUpSrv(d)
        &&& d@ == origin
    }
}

/// The step after the ISP locations of a stage gave nothing.
pub open spec fn isp_failed(addr: Address, stage: IspStage, mx: Option<String>, origin: String, next: DiscoveryState, action: DiscoveryAction) -> bool {
    match stage {
        IspStage::Main => {
            &&& next == DiscoveryState::Isp { addr, stage: IspStage::Alternative, mx, origin }
            &&& fetches(action, isp_uris(addr, IspStage::Alternative))
        },
        IspStage::Alternative => {
            &&& next == DiscoveryState::Isp { addr, stage: IspStage::Database, mx, origin }
            &&& fetches(action, isp_uris(addr, IspStage::Database))
        },
        IspStage::Database => match mx {
            None => {
                &&& next == DiscoveryState::Mx { addr, origin }
                &&& action matches DiscoveryAction::LookUpMx(d)
                &&& d@ == addr.domain@
            },
            Some(m) => {
                &&& next matches DiscoveryState::Txt { domain, from_mx, origin: o }
                &&& domain@ == m@
                &&& from_mx
                &&& o == origin
                &&& action matches DiscoveryAction::LookUpMailconfTxt(d)
                &&& d@ == m@
            },
        },
    }
}

/// The step after the MX exchange domain was found: the ISP locations
/// of the user's local part at that domain, or a failure when that is
/// no address.
pub open spec fn mx_found(addr: Address, origin: String, exchange: Seq<char>, next: DiscoveryState, action: DiscoveryAction) -> bool {
    let m = clean_domain(exchange);
    let text = addr.local_part@ + seq!['@'] + m;
    match email_address_parts(text) {
        Some(_) => {
            &&& next matches DiscoveryState::Isp { addr: a, stage, mx: Some(mm), origin: o }
            &&& a.parsed_from(text)
            &&& stage == IspStage::Main
            &&& mm@ == m
            &&& o == origin
            &&& fetches(action, isp_uris(a, IspStage::Main))
        },
        None => {
            &&& next is Done
            &&& action matches DiscoveryAction::Fail(DiscoveryError::ParsingEmailAddress(t, _))
            &&& t@ == text
        },
    }
}

/// The result of one step of discovery.
pub open spec fn step_spec(state: DiscoveryState, event: DiscoveryEvent, next: DiscoveryState, action: DiscoveryAction) -> bool {
    match (state, event) {
        (DiscoveryState::Isp { addr, stage, mx, origin }, DiscoveryEvent::Fetched(ok)) =>
            if ok {
                next is Done && action is Finish
            } else {
                isp_failed(addr, stage, mx, origin, next, action)
            },
        (DiscoveryState::Mx { addr, origin }, DiscoveryEvent::MxFound(found)) => match found {
            None => fall_back(true, origin@, next, action),
            Some(exchange) => mx_found(addr, origin, exchange@, next, action),
        },
        (DiscoveryState::Txt { domain, from_mx, origin }, DiscoveryEvent::TxtFound(found)) => match found {
            Some(uri) => next == DiscoveryState::TxtFetch { from_mx, origin } && fetches(action, seq![uri@]),
            None => fall_back(from_mx, origin@, next, action),
        },
        (DiscoveryState::TxtFetch { from_mx, origin }, DiscoveryEvent::Fetched(ok)) =>
            if ok {
                next is Done && action is Finish
            } else {
                fall_back(from_mx, origin@, next, action)
            },
        (DiscoveryState::Srv { .. }, DiscoveryEvent::SrvDone) => next is Done && action is Finish,
        _ => false,
    }
}

fn txt_failure(from_mx: bool, origin: String) -> (res: (DiscoveryState, DiscoveryAction))
    ensures
        fall_back(from_mx, origin@, res.0, res.1),
{
    if from_mx {
        let o = origin.clone();
        (DiscoveryState::Txt { domain: origin, from_mx: false, origin: o.clone() }, DiscoveryAction::LookUpMailconfTxt(o))
    } else {
        let o = origin.clone();
        (DiscoveryState::Srv { domain: origin }, DiscoveryAction::LookUpSrv(o))
    }
}

/// One step of discovery: from the current state and what the last
/// action taught, the next state and the next action.
///
/// ISP locations come first (main, alternative, ISPDB); then the MX
/// exchange of the domain, whose own ISP locations and TXT record are
/// asked; then the TXT record of the domain; then its SRV records.
pub fn discovery_step(state: DiscoveryState, event: DiscoveryEvent) -> (res: (DiscoveryState, DiscoveryAction))
    requires
        accepts_spec(state, event),
    ensures
        rank(res.0) < rank(state),
        res.0 is Done <==> (res.1 is Finish || res.1 is Fail),
        step_spec(state, event, res.0, res.1),
{
    match (state, event) {
        (DiscoveryState::Isp { addr, stage, mx, origin }, DiscoveryEvent::Fetched(ok)) => {
            if ok {
                return (DiscoveryState::Done, DiscoveryAction::Finish);
            }
            match stage {
                IspStage::Main => {
                    let action = isp_action(&addr, IspStage::Alternative);
                    (DiscoveryState::Isp { addr, stage: IspStage::Alternative, mx, origin }, action)
                },
                IspStage::Alternative => {
                    let action = isp_action(&addr, IspStage::Database);
                    (DiscoveryState::Isp { addr, stage: IspStage::Database, mx, origin }, action)
                },
                IspStage::Database => match mx {
                    None => {
                        let d = addr.domain.clone();
                        (DiscoveryState::Mx { addr, origin }, DiscoveryAction::LookUpMx(d))
                    },
                    Some(m) => {
                        let d = m.clone();
                        (DiscoveryState::Txt { domain: m, from_mx: true, origin }, DiscoveryAction::LookUpMailconfTxt(d))
                    },
                },
            }
        },
        (DiscoveryState::Mx { addr, origin }, DiscoveryEvent::MxFound(found)) => match found {
            None => {
                let o = origin.clone();
                (DiscoveryState::Txt { domain: origin, from_mx: false, origin: o.clone() }, DiscoveryAction::LookUpMailconfTxt(o))
            },
            Some(exchange) => {
                let m = trim_matches_char(exchange.as_str(), '.');
                let mx_domain = from_chars(&m);
                let text = join_address(addr.local_part.as_str(), mx_domain.as_str());
                match Address::parse(text.as_str()) {
                    Ok(a) => {
                        let action = isp_action(&a, IspStage::Main);
                        (DiscoveryState::Isp { addr: a, stage: IspStage::Main, mx: Some(mx_domain), origin }, action)
                    },
                    Err(e) => (DiscoveryState::Done, DiscoveryAction::Fail(e)),
                }
            },
        },
        (DiscoveryState::Txt { domain, from_mx, origin }, DiscoveryEvent::TxtFound(found)) => match found {
            Some(uri) => {
                let mut v: Vec<String> = Vec::new();
                v.push(uri);
                assert(v@.map_values(|u: String| u@) =~= seq![v@[0]@]);
                (DiscoveryState::TxtFetch { from_mx, origin }, DiscoveryAction::FetchAny(v))
            },
            None => txt_failure(from_mx, origin),
        },
        (DiscoveryState::TxtFetch { from_mx, origin }, DiscoveryEvent::Fetched(ok)) => {
            if ok {
                (DiscoveryState::Done, DiscoveryAction::Finish)
            } else {
                txt_failure(from_mx, origin)
            }
        },
        (_, _) => (DiscoveryState::Done, DiscoveryAction::Finish),
    }
}

/// When the ISP locations of an address built from the MX exchange `m`
/// of the user's domain have all failed, the next lookup is the mailconf
/// TXT record of `m` itself, marked as coming from the MX; the user's
/// own domain is not asked yet.
pub proof fn law_mx_txt_after_mx_isp(
    addr: Address,
    m: String,
    origin: String,
    next: DiscoveryState,
    action: DiscoveryAction,
)
    requires
        step_spec(
            DiscoveryState::Isp { addr, stage: IspStage::Database, mx: Some(m), origin },
            DiscoveryEvent::Fetched(false),
            next,
            action,
        ),
    ensures
        action matches DiscoveryAction::LookUpMailconfTxt(d) && d@ == m@,
        next matches DiscoveryState::Txt { domain, from_mx, origin: o } && domain@ == m@ && from_mx && o == origin,
{
}

/// When the mailconf TXT record of the MX exchange gives nothing, the
/// next lookup is the TXT record of the user's own domain.
pub proof fn law_origin_txt_after_mx_txt(
    domain: String,
    origin: String,
    next: DiscoveryState,
    action: DiscoveryAction,
)
    requires
        step_spec(
            DiscoveryState::Txt { domain, from_mx: true, origin },
            DiscoveryEvent::TxtFound(None),
            next,
            action,
        ),
    ensures
        action matches DiscoveryAction::LookUpMailconfTxt(d) && d@ == origin@,
        next matches DiscoveryState::Txt { domain: d2, from_mx, .. } && d2@ == origin@ && !from_mx,
{
}

/// A run of discovery: each action and next state is what a step gives
/// for the state and the event.
pub open spec fn is_run(states: Seq<DiscoveryState>, events: Seq<DiscoveryEvent>, actions: Seq<DiscoveryAction>) -> bool {
    &&& states.len() == events.len() + 1
    &&& actions.len() == events.len()
    &&& forall|i: int| 0 <= i < events.len() ==> #[trigger] step_spec(states[i], events[i], states[i + 1], actions[i])
}

/// Some action from `j` on, before `k`, asks the mailconf TXT record of `m`.
pub open spec fn txt_asked(actions: Seq<DiscoveryAction>, j: int, k: int, m: Seq<char>) -> bool {
    exists|x: int| j <= x < k && (#[trigger] actions[x] matches DiscoveryAction::LookUpMailconfTxt(d) && d@ == m)
}

/// From a state that asks the ISP locations of an address built from
/// the MX exchange `m` on, a run stays with such states, or has ended,
/// or has asked the TXT record of `m`.
proof fn lemma_mx_run(
    states: Seq<DiscoveryState>,
    events: Seq<DiscoveryEvent>,
    actions: Seq<DiscoveryAction>,
    j: int,
    m: Seq<char>,
    k: int,
)
    requires
        is_run(states, events, actions),
        0 <= j <= k < states.len(),
        states[j] matches DiscoveryState::Isp { mx: Some(x), .. } && x@ == m,
    ensures
        (states[k] matches DiscoveryState::Isp { mx: Some(x), .. } && x@ == m)
            || states[k] is Done
            || txt_asked(actions, j, k, m),
    decreases k - j,
{
    if k > j {
        lemma_mx_run(states, events, actions, j, m, k - 1);
        let p = k - 1;
        assert(step_spec(states[p], events[p], states[p + 1], actions[p]));
        if txt_asked(actions, j, p, m) {
            let x = choose|x: int| j <= x < p && (#[trigger] actions[x] matches DiscoveryAction::LookUpMailconfTxt(d) && d@ == m);
            assert(j <= x < k);
        } else {
            match states[p] {
                DiscoveryState::Isp { stage: IspStage::Database, mx: Some(x), .. } => {
                    if events[p] == DiscoveryEvent::Fetched(false) {
                        assert(actions[p] matches DiscoveryAction::LookUpMailconfTxt(d) && d@ == m);
                        assert(txt_asked(actions, j, k, m));
                    }
                },
                _ => {},
            }
        }
    }
}

/// In every run of discovery that asks the ISP locations of an address
/// built from the MX exchange `m` of the user's domain, the TXT record
/// of `m` is asked before the run turns to the TXT record of the user's
/// own domain.
pub proof fn law_mx_txt_before_origin_txt(
    states: Seq<DiscoveryState>,
    events: Seq<DiscoveryEvent>,
    actions: Seq<DiscoveryAction>,
    j: int,
    m: Seq<char>,
    i: int,
)
    requires
        is_run(states, events, actions),
        0 <= j <= i < events.len(),
        states[j] matches DiscoveryState::Isp { mx: Some(x), .. } && x@ == m,
        states[i + 1] matches DiscoveryState::Txt { from_mx, .. } && !from_mx,
    ensures
        txt_asked(actions, j, i, m),
{
    lemma_mx_run(states, events, actions, j, m, i);
    assert(step_spec(states[i], events[i], states[i + 1], actions[i]));
}

/// The order of discovery, step by step: a configuration found ends
/// it; the ISP locations go main, alternative, then ISPDB, for the same
/// address; after the ISPDB of the user's own address, the MX exchange
/// of its domain is looked up; without an MX exchange, the TXT record
/// of the user's domain; after that TXT record gives nothing, its SRV
/// records.
pub proof fn law_discovery_order(state: DiscoveryState, event: DiscoveryEvent, next: DiscoveryState, action: DiscoveryAction)
    requires
        step_spec(state, event, next, action),
    ensures
        event == DiscoveryEvent::Fetched(true) ==> next is Done && action is Finish,
        state matches DiscoveryState::Isp { addr, stage: IspStage::Main, mx, origin }
            ==> (event == DiscoveryEvent::Fetched(false) ==> next == DiscoveryState::Isp {
                addr,
                stage: IspStage::Alternative,
                mx,
                origin,
            }),
        state matches DiscoveryState::Isp { addr, stage: IspStage::Alternative, mx, origin }
            ==> (event == DiscoveryEvent::Fetched(false) ==> next == DiscoveryState::Isp {
                addr,
                stage: IspStage::Database,
                mx,
                origin,
            }),
        state matches DiscoveryState::Isp { addr, stage: IspStage::Database, mx: None, origin }
            ==> (event == DiscoveryEvent::Fetched(false) ==> next == DiscoveryState::Mx { addr, origin }
                && (action matches DiscoveryAction::LookUpMx(d) && d@ == addr.domain@)),
        state matches DiscoveryState::Mx { origin, .. } ==> (event == DiscoveryEvent::MxFound(None)
            ==> (next matches DiscoveryState::Txt { domain, from_mx, .. } && domain@ == origin@ && !from_mx)
                && (action matches DiscoveryAction::LookUpMailconfTxt(d) && d@ == origin@)),
        state matches DiscoveryState::Txt { from_mx: false, origin, .. } ==> (event == DiscoveryEvent::TxtFound(None)
            ==> (next matches DiscoveryState::Srv { domain } && domain@ == origin@)
                && (action matches DiscoveryAction::LookUpSrv(d) && d@ == origin@)),
{
}

} // verus!
