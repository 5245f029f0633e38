//! OAuth 2.0 configuration: the method, the scopes, and the redirect
//! parameters of the authorization code grant.

use vstd::prelude::*;

use crate::text::string_of;

verus! {

/// Errors related to the OAuth 2.0 configuration.
#[derive(Debug, Clone, Copy, PartialEq, Eq, Structural)]
pub enum OAuth2Error {
    /// No port of the dynamic range is available on localhost.
    GetAvailablePortError,
}

/// Method for presenting an OAuth 2.0 bearer token to a service for
/// authentication.
#[derive(Debug, Clone, Copy, PartialEq, Eq, Structural)]
pub enum OAuth2Method {
    XOAuth2,
    OAuthBearer,
}

impl OAuth2Method {
    /// The default method: XOAUTH2.
    pub fn default() -> (m: OAuth2Method)
        ensures
            m == OAuth2Method::XOAuth2,
    {
        OAuth2Method::XOAuth2
    }

    /// The name of the method, as announced to a server.
    pub fn to_string(&self) -> (s: String)
        ensures
            s@ == (match *self {
                OAuth2Method::XOAuth2 => "XOAUTH2"@,
                OAuth2Method::OAuthBearer => "OAUTHBEARER"@,
            }),
    {
        match self {
            OAuth2Method::XOAuth2 => string_of("XOAUTH2"),
            OAuth2Method::OAuthBearer => string_of("OAUTHBEARER"),
        }
    }
}

/// Access token scope(s), as defined by the authorization server.
#[derive(Debug, Clone)]
pub enum OAuth2Scopes {
    Scope(String),
    Scopes(Vec<String>),
}

impl OAuth2Scopes {
    /// The default scopes: none.
    pub fn default() -> (s: OAuth2Scopes)
        ensures
            s matches OAuth2Scopes::Scopes(v) && v@.len() == 0,
    {
        OAuth2Scopes::Scopes(Vec::new())
    }

    /// The scopes, one by one.
    pub fn into_vec(self) -> (v: Vec<String>)
        ensures
            match self {
                OAuth2Scopes::Scope(s) => v@ == seq![s],
                OAuth2Scopes::Scopes(scopes) => v@ == scopes@,
            },
    {
        match self {
            OAuth2Scopes::Scope(s) => {
                let mut v: Vec<String> = Vec::new();
                v.push(s);
                v
            },
            OAuth2Scopes::Scopes(scopes) => scopes,
        }
    }
}

/// The host of the redirection by default.
pub const LOCALHOST: &'static str = "localhost";

/// The first port of the range searched for an available one.
pub const FIRST_DYNAMIC_PORT: u16 = 49152;

/// The end (excluded) of the range searched for an available port.
pub const DYNAMIC_PORTS_END: u16 = 65535;

/// The redirection parameters of the authorization code grant, as
/// configured.
#[derive(Debug, Clone)]
pub struct OAuth2Redirect {
    pub scheme: Option<String>,
    pub host: Option<String>,
    pub port: Option<u16>,
}

/// The first port of the dynamic range that the probe finds available
/// on localhost.
pub fn get_first_available_port<F: Fn(u16) -> bool>(is_available: F) -> (r: Result<u16, OAuth2Error>)
    requires
        forall|p: u16| call_requires(is_available, (p,)),
    ensures
        match r {
            Ok(p) => FIRST_DYNAMIC_PORT <= p < DYNAMIC_PORTS_END
                && call_ensures(is_available, (p,), true)
                && forall|q: u16| FIRST_DYNAMIC_PORT <= q < p ==> call_ensures(is_available, (q,), false),
            Err(e) => e == OAuth2Error::GetAvailablePortError
                && forall|q: u16| FIRST_DYNAMIC_PORT <= q < DYNAMIC_PORTS_END
                    ==> call_ensures(is_available, (q,), false),
        },
{
    let mut port: u16 = FIRST_DYNAMIC_PORT;
    while port < DYNAMIC_PORTS_END
        invariant
            FIRST_DYNAMIC_PORT <= port <= DYNAMIC_PORTS_END,
            forall|p: u16| call_requires(is_available, (p,)),
            forall|q: u16| FIRST_DYNAMIC_PORT <= q < port ==> call_ensures(is_available, (q,), false),
        decreases DYNAMIC_PORTS_END - port,
    {
        if is_available(port) {
            return Ok(port);
        }
        port += 1;
    }
    Err(OAuth2Error::GetAvailablePortError)
}

impl OAuth2Redirect {
    /// The scheme of the redirection: `http` by default.
    pub fn scheme(&self) -> (s: String)
        ensures
            match self.scheme {
                Some(x) => s@ == x@,
                None => s@ == "http"@,
            },
    {
        match &self.scheme {
            Some(x) => x.clone(),
            None => string_of("http"),
        }
    }

    /// The host of the redirection: `localhost` by default.
    pub fn host(&self) -> (s: String)
        ensures
            match self.host {
                Some(x) => s@ == x@,
                None => s@ == LOCALHOST@,
            },
    {
        match &self.host {
            Some(x) => x.clone(),
            None => string_of(LOCALHOST),
        }
    }

    /// The port of the redirection: the configured one, otherwise the
    /// first available port of the dynamic range.
    pub fn port<F: Fn(u16) -> bool>(&self, is_available: F) -> (r: Result<u16, OAuth2Error>)
        requires
            forall|p: u16| call_requires(is_available, (p,)),
        ensures
            match self.port {
                Some(p) => r == Ok::<u16, OAuth2Error>(p),
                None => match r {
                    Ok(p) => FIRST_DYNAMIC_PORT <= p < DYNAMIC_PORTS_END
                        && call_ensures(is_available, (p,), true)
                        && forall|q: u16| FIRST_DYNAMIC_PORT <= q < p ==> call_ensures(is_available, (q,), false),
                    Err(e) => e == OAuth2Error::GetAvailablePortError
                        && forall|q: u16| FIRST_DYNAMIC_PORT <= q < DYNAMIC_PORTS_END
                            ==> call_ensures(is_available, (q,), false),
                },
            },
    {
        match self.port {
            Some(p) => Ok(p),
            None => get_first_available_port(is_available),
        }
    }
}

/// The OAuth 2.0 configuration of an account. The secrets themselves
/// (client secret, access and refresh tokens) live outside of it;
/// `has_client_secret` tells whether a client secret is configured.
#[derive(Debug, Clone)]
pub struct OAuth2Config {
    pub method: OAuth2Method,
    pub client_id: String,
    pub has_client_secret: bool,
    pub auth_url: String,
    pub token_url: String,
    pub pkce: bool,
    pub redirect: OAuth2Redirect,
    pub scopes: OAuth2Scopes,
}

/// The client of the authorization server, as the flows build it.
#[derive(Debug, Clone)]
pub struct OAuth2Client {
    pub client_id: String,
    pub client_secret: Option<String>,
    pub auth_url: String,
    pub token_url: String,
    pub redirect_scheme: String,
    pub redirect_host: String,
    pub redirect_port: u16,
}

/// Errors of the OAuth 2.0 flows, with what the failing service said.
#[derive(Debug, Clone)]
pub enum OAuth2FlowError {
    GetAvailablePortError,
    GetClientSecretFromUserOauthError(String),
    GetClientSecretFromKeyringOauthError(String),
    SetClientSecretIntoKeyringOauthError(String),
    BuildOauthClientError(String),
    WaitForOauthRedirectionError(String),
    GetRefreshTokenOauthError(String),
    RefreshAccessTokenOauthError(String),
    SetAccessTokenOauthError(String),
    SetRefreshTokenOauthError(String),
}

/// What the flows ask to be done next.
#[derive(Debug, Clone)]
pub enum OAuth2Work {
    /// Read the stored access token.
    ReadAccessToken,
    /// Find an available port on localhost.
    FindAvailablePort,
    /// Look the client secret up in the keyring.
    FindClientSecret,
    /// Ask the user for the client secret.
    AskClientSecret,
    /// Store the client secret in the keyring.
    StoreClientSecret(String),
    /// Read the stored client secret.
    ReadClientSecret,
    /// Build the client and run the authorization code grant, with PKCE
    /// or not, for the scopes.
    Authorize { client: OAuth2Client, pkce: bool, scopes: Vec<String> },
    /// Build the client, before the refresh token is read.
    BuildClient(OAuth2Client),
    /// Read the stored refresh token.
    ReadRefreshToken,
    /// Build the client and exchange the refresh token for new tokens.
    Refresh { client: OAuth2Client, refresh_token: String },
    /// Store the access token.
    StoreAccessToken(String),
    /// Store the refresh token.
    StoreRefreshToken(String),
    /// The flow is over; the refresh flow gives the new access token.
    Finish(Option<String>),
    /// The flow failed.
    Fail(OAuth2FlowError),
}

/// What came of the last work.
#[derive(Debug, Clone)]
pub enum OAuth2Event {
    /// Whether an access token is stored.
    AccessToken(bool),
    /// The available port found, none when there is none.
    Port(Option<u16>),
    /// The client secret found in the keyring, if any.
    SecretLookup(Option<String>),
    /// The client secret entered, stored or read.
    Secret(String),
    /// The access token and the refresh token, if any, obtained.
    Tokens(String, Option<String>),
    /// The stored refresh token.
    RefreshToken(String),
    /// The token was stored.
    Stored,
    /// The client was built.
    ClientBuilt,
    /// The client could not be built.
    ClientFailed(String),
    /// The work failed.
    Failed(String),
}

/// Where a flow stands.
#[derive(Debug, Clone)]
pub enum OAuth2State {
    CheckingAccessToken,
    FindingPort { refresh: bool },
    LookingUpSecret { port: u16 },
    AskingSecret { port: u16 },
    StoringSecret { port: u16 },
    ReadingSecret { port: u16 },
    BuildingClient { port: u16, secret: Option<String> },
    Authorizing,
    ReadingRefreshToken { port: u16, secret: Option<String> },
    Refreshing,
    StoringAccessToken { access: String, refresh: Option<String>, report: bool },
    StoringRefreshToken { access: String, report: bool },
    Finished,
}

/// The view of an optional string.
pub open spec fn opt_chars(o: Option<String>) -> Option<Seq<char>> {
    match o {
        Some(s) => Some(s@),
        None => None,
    }
}

/// Whether the client is the one of the configuration, redirected to
/// the port, with the client secret.
pub open spec fn client_of(config: OAuth2Config, port: u16, secret: Option<Seq<char>>, c: OAuth2Client) -> bool {
    &&& c.client_id@ == config.client_id@
    &&& opt_chars(c.client_secret) == secret
    &&& c.auth_url@ == config.auth_url@
    &&& c.token_url@ == config.token_url@
    &&& c.redirect_scheme@ == (match config.redirect.scheme {
        Some(x) => x@,
        None => "http"@,
    })
    &&& c.redirect_host@ == (match config.redirect.host {
        Some(x) => x@,
        None => LOCALHOST@,
    })
    &&& c.redirect_port == port
}

/// How far a flow is from its end.
pub open spec fn oauth2_rank(state: OAuth2State) -> nat {
    match state {
        OAuth2State::CheckingAccessToken => 13,
        OAuth2State::FindingPort { .. } => 12,
        OAuth2State::LookingUpSecret { .. } => 11,
        OAuth2State::AskingSecret { .. } => 10,
        OAuth2State::StoringSecret { .. } => 9,
        OAuth2State::ReadingSecret { .. } => 8,
        OAuth2State::BuildingClient { .. } => 7,
        OAuth2State::Authorizing => 5,
        OAuth2State::ReadingRefreshToken { .. } => 6,
        OAuth2State::Refreshing => 5,
        OAuth2State::StoringAccessToken { .. } => 4,
        OAuth2State::StoringRefreshToken { .. } => 3,
        OAuth2State::Finished => 0,
    }
}

/// Whether the event answers the work asked in the state.
pub open spec fn oauth2_accepts(state: OAuth2State, event: OAuth2Event) -> bool {
    match state {
        OAuth2State::Finished => false,
        OAuth2State::CheckingAccessToken => event is AccessToken,
        OAuth2State::FindingPort { .. } => event is Port,
        OAuth2State::LookingUpSecret { .. } => event is SecretLookup || event is Failed,
        OAuth2State::AskingSecret { .. } | OAuth2State::StoringSecret { .. }
        | OAuth2State::ReadingSecret { .. } => event is Secret || event is Failed,
        OAuth2State::Authorizing => event is Tokens || event is ClientFailed || event is Failed,
        OAuth2State::Refreshing => event is Tokens || event is Failed,
        OAuth2State::BuildingClient { .. } => event is ClientBuilt || event is ClientFailed,
        OAuth2State::ReadingRefreshToken { .. } => event is RefreshToken || event is Failed,
        OAuth2State::StoringAccessToken { .. } | OAuth2State::StoringRefreshToken { .. } =>
            event is Stored || event is Failed,
    }
}

/// The error of a failed work in a state.
pub open spec fn failure_spec(state: OAuth2State, msg: Seq<char>, e: OAuth2FlowError) -> bool {
    match state {
        OAuth2State::LookingUpSecret { .. } | OAuth2State::ReadingSecret { .. } =>
            e matches OAuth2FlowError::GetClientSecretFromKeyringOauthError(m) && m@ == msg,
        OAuth2State::AskingSecret { .. } =>
            e matches OAuth2FlowError::GetClientSecretFromUserOauthError(m) && m@ == msg,
        OAuth2State::StoringSecret { .. } =>
            e matches OAuth2FlowError::SetClientSecretIntoKeyringOauthError(m) && m@ == msg,
        OAuth2State::Authorizing =>
            e matches OAuth2FlowError::WaitForOauthRedirectionError(m) && m@ == msg,
        OAuth2State::Refreshing =>
            e matches OAuth2FlowError::RefreshAccessTokenOauthError(m) && m@ == msg,
        OAuth2State::ReadingRefreshToken { .. } =>
            e matches OAuth2FlowError::GetRefreshTokenOauthError(m) && m@ == msg,
        OAuth2State::StoringAccessToken { .. } =>
            e matches OAuth2FlowError::SetAccessTokenOauthError(m) && m@ == msg,
        OAuth2State::StoringRefreshToken { .. } =>
            e matches OAuth2FlowError::SetRefreshTokenOauthError(m) && m@ == msg,
        _ => false,
    }
}

/// The scopes, one by one, as views.
pub open spec fn scope_views(scopes: OAuth2Scopes) -> Seq<Seq<char>> {
    match scopes {
        OAuth2Scopes::Scope(s) => seq![s@],
        OAuth2Scopes::Scopes(v) => v@.map_values(|s: String| s@),
    }
}

fn scopes_of(scopes: &OAuth2Scopes) -> (v: Vec<String>)
    ensures
        v@.map_values(|s: String| s@) == scope_views(*scopes),
{
    match scopes {
        OAuth2Scopes::Scope(s) => {
            let mut v: Vec<String> = Vec::new();
            v.push(s.clone());
            assert(v@.map_values(|s: String| s@) =~= seq![s@]);
            v
        },
        OAuth2Scopes::Scopes(list) => {
            let mut v: Vec<String> = Vec::new();
            let mut i: usize = 0;
            while i < list.len()
                invariant
                    i <= list.len(),
                    v@.map_values(|s: String| s@) == list@.take(i as int).map_values(|s: String| s@),
                decreases list.len() - i,
            {
                let ghost before = v@.map_values(|s: String| s@);
                let c = list[i].clone();
                v.push(c);
                assert(v@.map_values(|s: String| s@) =~= before.push(c@));
                assert(list@.take(i + 1).map_values(|s: String| s@)
                    =~= list@.take(i as int).map_values(|s: String| s@).push(list@[i as int]@));
                i += 1;
            }
            assert(list@.take(i as int) =~= list@);
            v
        },
    }
}

fn build_client(config: &OAuth2Config, port: u16, secret: Option<String>) -> (c: OAuth2Client)
    ensures
        client_of(*config, port, opt_chars(secret), c),
{
    OAuth2Client {
        client_id: config.client_id.clone(),
        client_secret: secret,
        auth_url: config.auth_url.clone(),
        token_url: config.token_url.clone(),
        redirect_scheme: config.redirect.scheme(),
        redirect_host: config.redirect.host(),
        redirect_port: port,
    }
}

impl OAuth2Config {
    /// The authorization step of the configure flow, once the port and
    /// the client secret are known.
    fn authorize(&self, port: u16, secret: Option<String>) -> (res: (OAuth2State, OAuth2Work))
        ensures
            res.0 is Authorizing,
            res.1 matches OAuth2Work::Authorize { client, pkce, scopes }
                && client_of(*self, port, opt_chars(secret), client) && pkce == self.pkce
                && scopes@.map_values(|s: String| s@) == scope_views(self.scopes),
    {
        let client = build_client(self, port, secret);
        let scopes = scopes_of(&self.scopes);
        (OAuth2State::Authorizing, OAuth2Work::Authorize { client, pkce: self.pkce, scopes })
    }

    /// The step of the configure flow that follows the port: the client
    /// secret is looked up when one is configured.
    fn after_port(&self, port: u16) -> (res: (OAuth2State, OAuth2Work))
        ensures
            self.has_client_secret ==> (res.0 matches OAuth2State::LookingUpSecret { port: p } && p == port)
                && res.1 is FindClientSecret,
            !self.has_client_secret ==> res.0 is Authorizing
                && (res.1 matches OAuth2Work::Authorize { client, pkce, .. }
                    && client_of(*self, port, None, client) && pkce == self.pkce),
    {
        if self.has_client_secret {
            (OAuth2State::LookingUpSecret { port }, OAuth2Work::FindClientSecret)
        } else {
            self.authorize(port, None)
        }
    }

    /// The step of the refresh flow that follows the port: the client
    /// secret is read when one is configured, then the refresh token.
    fn refresh_after_port(&self, port: u16) -> (res: (OAuth2State, OAuth2Work))
        ensures
            self.has_client_secret ==> (res.0 matches OAuth2State::ReadingSecret { port: p } && p == port)
                && res.1 is ReadClientSecret,
            !self.has_client_secret ==> (res.0 matches OAuth2State::BuildingClient { port: p, secret: s }
                && p == port && s is None)
                && (res.1 matches OAuth2Work::BuildClient(c) && client_of(*self, port, None, c)),
    {
        if self.has_client_secret {
            (OAuth2State::ReadingSecret { port }, OAuth2Work::ReadClientSecret)
        } else {
            let client = build_client(self, port, None);
            (OAuth2State::BuildingClient { port, secret: None }, OAuth2Work::BuildClient(client))
        }
    }

    /// Starts the configure flow: the stored access token is read first.
    pub fn start_configure(&self) -> (res: (OAuth2State, OAuth2Work))
        ensures
            res.0 is CheckingAccessToken,
            res.1 is ReadAccessToken,
    {
        (OAuth2State::CheckingAccessToken, OAuth2Work::ReadAccessToken)
    }

    /// Starts the refresh flow: a port is found first when none is
    /// configured.
    pub fn start_refresh(&self) -> (res: (OAuth2State, OAuth2Work))
        ensures
            self.redirect.port is None ==> (res.0 matches OAuth2State::FindingPort { refresh } && refresh)
                && res.1 is FindAvailablePort,
            self.redirect.port matches Some(p) ==> (self.has_client_secret
                ==> (res.0 matches OAuth2State::ReadingSecret { port } && port == p) && res.1 is ReadClientSecret),
            self.redirect.port matches Some(p) ==> (!self.has_client_secret
                ==> (res.0 matches OAuth2State::BuildingClient { port, secret } && port == p && secret is None)
                && (res.1 matches OAuth2Work::BuildClient(c) && client_of(*self, p, None, c))),
    {
        match self.redirect.port {
            Some(p) => self.refresh_after_port(p),
            None => (OAuth2State::FindingPort { refresh: true }, OAuth2Work::FindAvailablePort),
        }
    }

    /// One step of a flow, from where it stands and what came of the
    /// last work. The configure flow does nothing when an access token
    /// is stored; otherwise it finds the redirection port, gets the
    /// client secret (from the keyring, else from the user, then stores
    /// it), runs the authorization code grant and stores the tokens. The
    /// refresh flow finds the port, reads the client secret, builds the
    /// client, reads the refresh token, exchanges it and stores the new
    /// tokens, giving the new access token. A failure ends the flow with the error of the
    /// step.
    pub fn oauth2_step(&self, state: OAuth2State, event: OAuth2Event) -> (res: (OAuth2State, OAuth2Work))
        requires
            oauth2_accepts(state, event),
        ensures
            oauth2_rank(res.0) < oauth2_rank(state),
            event matches OAuth2Event::Failed(m) ==> res.0 is Finished
                && (res.1 matches OAuth2Work::Fail(e) && failure_spec(state, m@, e)),
            event matches OAuth2Event::ClientFailed(m) ==> res.0 is Finished
                && (res.1 matches OAuth2Work::Fail(e)
                    && (e matches OAuth2FlowError::BuildOauthClientError(x) && x@ == m@)),
            event matches OAuth2Event::Port(None) ==> res.0 is Finished
                && (res.1 matches OAuth2Work::Fail(e) && e is GetAvailablePortError),
            state is CheckingAccessToken ==> (event matches OAuth2Event::AccessToken(found) ==> if found {
                res.0 is Finished && (res.1 matches OAuth2Work::Finish(t) && t is None)
            } else {
                match self.redirect.port {
                    None => (res.0 matches OAuth2State::FindingPort { refresh } && !refresh) && res.1 is FindAvailablePort,
                    Some(p) => if self.has_client_secret {
                        (res.0 matches OAuth2State::LookingUpSecret { port } && port == p) && res.1 is FindClientSecret
                    } else {
                        res.0 is Authorizing && (res.1 matches OAuth2Work::Authorize { client, pkce, .. }
                            && client_of(*self, p, None, client) && pkce == self.pkce)
                    },
                }
            }),
            state matches OAuth2State::FindingPort { refresh } ==> (event matches OAuth2Event::Port(found)
                ==> (found matches Some(p) ==> if refresh {
                    if self.has_client_secret {
                        (res.0 matches OAuth2State::ReadingSecret { port } && port == p) && res.1 is ReadClientSecret
                    } else {
                        (res.0 matches OAuth2State::BuildingClient { port, secret } && port == p && secret is None)
                            && (res.1 matches OAuth2Work::BuildClient(c) && client_of(*self, p, None, c))
                    }
                } else {
                    if self.has_client_secret {
                        (res.0 matches OAuth2State::LookingUpSecret { port } && port == p) && res.1 is FindClientSecret
                    } else {
                        res.0 is Authorizing && (res.1 matches OAuth2Work::Authorize { client, pkce, .. }
                            && client_of(*self, p, None, client) && pkce == self.pkce)
                    }
                })),
            state matches OAuth2State::LookingUpSecret { port } ==> (event matches OAuth2Event::SecretLookup(found)
                ==> match found {
                    None => (res.0 matches OAuth2State::AskingSecret { port: p } && p == port) && res.1 is AskClientSecret,
                    Some(s) => res.0 is Authorizing
                        && (res.1 matches OAuth2Work::Authorize { client, pkce, scopes }
                            && client_of(*self, port, Some(s@), client) && pkce == self.pkce
                            && scopes@.map_values(|x: String| x@) == scope_views(self.scopes)),
                }),
            state matches OAuth2State::AskingSecret { port } ==> (event matches OAuth2Event::Secret(s)
                ==> (res.0 matches OAuth2State::StoringSecret { port: p } && p == port)
                && (res.1 matches OAuth2Work::StoreClientSecret(x) && x@ == s@)),
            state matches OAuth2State::StoringSecret { port } ==> (event matches OAuth2Event::Secret(s)
                ==> res.0 is Authorizing
                && (res.1 matches OAuth2Work::Authorize { client, pkce, scopes }
                    && client_of(*self, port, Some(s@), client) && pkce == self.pkce
                    && scopes@.map_values(|x: String| x@) == scope_views(self.scopes))),
            state matches OAuth2State::ReadingSecret { port } ==> (event matches OAuth2Event::Secret(s)
                ==> (res.0 matches OAuth2State::BuildingClient { port: p, secret }
                    && p == port && opt_chars(secret) == Some(s@))
                && (res.1 matches OAuth2Work::BuildClient(c) && client_of(*self, port, Some(s@), c))),
            state matches OAuth2State::BuildingClient { port, secret } ==> (event is ClientBuilt
                ==> (res.0 matches OAuth2State::ReadingRefreshToken { port: p, secret: x }
                    && p == port && opt_chars(x) == opt_chars(secret)) && res.1 is ReadRefreshToken),
            state matches OAuth2State::ReadingRefreshToken { port, secret } ==> (event matches OAuth2Event::RefreshToken(t)
                ==> res.0 is Refreshing
                && (res.1 matches OAuth2Work::Refresh { client, refresh_token }
                    && client_of(*self, port, opt_chars(secret), client) && refresh_token@ == t@)),
            (state is Authorizing || state is Refreshing) ==> (event matches OAuth2Event::Tokens(a, r)
                ==> (res.0 matches OAuth2State::StoringAccessToken { access, refresh, report }
                    && access@ == a@ && opt_chars(refresh) == opt_chars(r) && report == (state is Refreshing))
                && (res.1 matches OAuth2Work::StoreAccessToken(x) && x@ == a@)),
            state matches OAuth2State::StoringAccessToken { access, refresh, report } ==> (event is Stored
                ==> match refresh {
                    Some(r) => (res.0 matches OAuth2State::StoringRefreshToken { access: a, report: b }
                        && a@ == access@ && b == report) && (res.1 matches OAuth2Work::StoreRefreshToken(x) && x@ == r@),
                    None => res.0 is Finished && (res.1 matches OAuth2Work::Finish(t)
                        && opt_chars(t) == (if report { Some(access@) } else { None })),
                }),
            state matches OAuth2State::StoringRefreshToken { access, report } ==> (event is Stored
                ==> res.0 is Finished && (res.1 matches OAuth2Work::Finish(t)
                    && opt_chars(t) == (if report { Some(access@) } else { None }))),
    {
        match event {
            OAuth2Event::Failed(m) => {
                let e = match state {
                    OAuth2State::LookingUpSecret { .. } | OAuth2State::ReadingSecret { .. } =>
                        OAuth2FlowError::GetClientSecretFromKeyringOauthError(m),
                    OAuth2State::AskingSecret { .. } => OAuth2FlowError::GetClientSecretFromUserOauthError(m),
                    OAuth2State::StoringSecret { .. } => OAuth2FlowError::SetClientSecretIntoKeyringOauthError(m),
                    OAuth2State::Authorizing => OAuth2FlowError::WaitForOauthRedirectionError(m),
                    OAuth2State::Refreshing => OAuth2FlowError::RefreshAccessTokenOauthError(m),
                    OAuth2State::ReadingRefreshToken { .. } => OAuth2FlowError::GetRefreshTokenOauthError(m),
                    OAuth2State::StoringAccessToken { .. } => OAuth2FlowError::SetAccessTokenOauthError(m),
                    _ => OAuth2FlowError::SetRefreshTokenOauthError(m),
                };
                return (OAuth2State::Finished, OAuth2Work::Fail(e));
            },
            OAuth2Event::ClientFailed(m) => {
                return (OAuth2State::Finished, OAuth2Work::Fail(OAuth2FlowError::BuildOauthClientError(m)));
            },
            _ => {},
        }
        match state {
            OAuth2State::CheckingAccessToken => match event {
                OAuth2Event::AccessToken(true) => (OAuth2State::Finished, OAuth2Work::Finish(None)),
                _ => match self.redirect.port {
                    Some(p) => self.after_port(p),
                    None => (OAuth2State::FindingPort { refresh: false }, OAuth2Work::FindAvailablePort),
                },
            },
            OAuth2State::FindingPort { refresh } => match event {
                OAuth2Event::Port(Some(p)) => if refresh {
                    self.refresh_after_port(p)
                } else {
                    self.after_port(p)
                },
                _ => (OAuth2State::Finished, OAuth2Work::Fail(OAuth2FlowError::GetAvailablePortError)),
            },
            OAuth2State::LookingUpSecret { port } => match event {
                OAuth2Event::SecretLookup(Some(s)) => self.authorize(port, Some(s)),
                _ => (OAuth2State::AskingSecret { port }, OAuth2Work::AskClientSecret),
            },
            OAuth2State::AskingSecret { port } => match event {
                OAuth2Event::Secret(s) => (OAuth2State::StoringSecret { port }, OAuth2Work::StoreClientSecret(s)),
                _ => (OAuth2State::Finished, OAuth2Work::Finish(None)),
            },
            OAuth2State::StoringSecret { port } => match event {
                OAuth2Event::Secret(s) => self.authorize(port, Some(s)),
                _ => (OAuth2State::Finished, OAuth2Work::Finish(None)),
            },
            OAuth2State::ReadingSecret { port } => match event {
                OAuth2Event::Secret(s) => {
                    let client = build_client(self, port, Some(s.clone()));
                    (OAuth2State::BuildingClient { port, secret: Some(s) }, OAuth2Work::BuildClient(client))
                },
                _ => (OAuth2State::Finished, OAuth2Work::Finish(None)),
            },
            OAuth2State::BuildingClient { port, secret } => (
                OAuth2State::ReadingRefreshToken { port, secret },
                OAuth2Work::ReadRefreshToken,
            ),
            OAuth2State::ReadingRefreshToken { port, secret } => match event {
                OAuth2Event::RefreshToken(t) => {
                    let client = build_client(self, port, secret);
                    (OAuth2State::Refreshing, OAuth2Work::Refresh { client, refresh_token: t })
                },
                _ => (OAuth2State::Finished, OAuth2Work::Finish(None)),
            },
            OAuth2State::Authorizing => match event {
                OAuth2Event::Tokens(a, r) => (
                    OAuth2State::StoringAccessToken { access: a.clone(), refresh: r, report: false },
                    OAuth2Work::StoreAccessToken(a),
                ),
                _ => (OAuth2State::Finished, OAuth2Work::Finish(None)),
            },
            OAuth2State::Refreshing => match event {
                OAuth2Event::Tokens(a, r) => (
                    OAuth2State::StoringAccessToken { access: a.clone(), refresh: r, report: true },
                    OAuth2Work::StoreAccessToken(a),
                ),
                _ => (OAuth2State::Finished, OAuth2Work::Finish(None)),
            },
            OAuth2State::StoringAccessToken { access, refresh, report } => match refresh {
                Some(r) => (OAuth2State::StoringRefreshToken { access, report }, OAuth2Work::StoreRefreshToken(r)),
                None => (OAuth2State::Finished, OAuth2Work::Finish(if report { Some(access) } else { None })),
            },
            OAuth2State::StoringRefreshToken { access, report } => (
                OAuth2State::Finished,
                OAuth2Work::Finish(if report { Some(access) } else { None }),
            ),
            OAuth2State::Finished => (OAuth2State::Finished, OAuth2Work::Finish(None)),
        }
    }
}

} // verus!
