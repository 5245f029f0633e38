use email::autoconfig::config::{
    AuthenticationType, AutoConfig, CheckInterval, Documentation, DocumentationDescription,
    EmailProvider, EmailProviderProperty, OAuth2Config, Pop3Config, SecurityType, Server,
    ServerProperty, ServerType,
};
use email::autoconfig::discover::{
    alt_isp_uri, config_from_srv_records, discovery_step, ispdb_uri, join_address, main_isp_uri,
    start_discovery, submission_security, Address, DiscoveryAction, DiscoveryError,
    DiscoveryEvent, DiscoveryState, IspStage, SrvTarget,
};
use email::autoconfig::dns::{
    best_mx_exchange, best_srv_record, mailconf_txt_uri, mailconf_uri_of, srv_domain, MxRecord,
    SrvRecord,
};
use std::time::Duration;

fn server() -> Server {
    Server {
        server_type: ServerType::Imap,
        properties: vec![
            ServerProperty::Hostname("imap.example.com".to_string()),
            ServerProperty::Port(993),
            ServerProperty::SocketType(SecurityType::Tls),
            ServerProperty::Authentication(AuthenticationType::PasswordCleartext),
            ServerProperty::Authentication(AuthenticationType::OAuth2),
            ServerProperty::Username("%EMAILADDRESS%".to_string()),
        ],
    }
}

fn provider() -> EmailProvider {
    EmailProvider {
        id: "example.com".to_string(),
        properties: vec![
            EmailProviderProperty::Domain("example.com".to_string()),
            EmailProviderProperty::DisplayName("Example Mail".to_string()),
            EmailProviderProperty::Domain("example.org".to_string()),
            EmailProviderProperty::IncomingServer(server()),
            EmailProviderProperty::OutgoingServer(Server { server_type: ServerType::Smtp, properties: vec![] }),
            EmailProviderProperty::Documentation(Documentation {
                url: "https://example.com/help".to_string(),
                properties: vec![DocumentationDescription { lang: Some("en".to_string()), description: "Help".to_string() }],
            }),
        ],
    }
}

#[test]
fn email_provider_getters() {
    let p = provider();
    assert_eq!(p.id(), "example.com");
    assert_eq!(p.domain(), vec!["example.com", "example.org"]);
    assert_eq!(p.display_name(), Some("Example Mail"));
    assert_eq!(p.display_short_name(), None);
    assert_eq!(p.incoming_servers().len(), 1);
    assert_eq!(p.outgoing_servers().len(), 1);
    assert_eq!(p.servers().len(), 2);
    let d = p.documentation().unwrap();
    assert_eq!(d.url(), "https://example.com/help");
    assert_eq!(d.properties()[0].language(), Some("en"));
    assert_eq!(d.properties()[0].description(), "Help");
    assert_eq!(p.properties().len(), 6);
}

#[test]
fn server_getters() {
    let s = server();
    assert!(matches!(s.server_type(), ServerType::Imap));
    assert_eq!(s.hostname(), Some("imap.example.com"));
    assert_eq!(s.port(), Some(&993));
    assert!(matches!(s.security_type(), Some(SecurityType::Tls)));
    assert_eq!(s.authentication_type().len(), 2);
    assert_eq!(s.username(), Some("%EMAILADDRESS%"));
    assert_eq!(s.password(), None);
    assert_eq!(s.properties().len(), 6);
}

#[test]
fn autoconfig_getters() {
    let c = AutoConfig {
        version: "1.1".to_string(),
        email_provider: provider(),
        oauth2: Some(OAuth2Config {
            issuer: "accounts.google.com".to_string(),
            scope: "mail openid".to_string(),
            auth_url: "https://a".to_string(),
            token_url: "https://t".to_string(),
        }),
    };
    assert_eq!(c.version(), "1.1");
    assert!(!c.is_gmail());
    let o = c.oauth2().unwrap();
    assert_eq!(o.issuer(), "accounts.google.com");
    assert_eq!(o.scope(), vec!["mail", "openid"]);
    assert_eq!(o.auth_url(), "https://a");
    assert_eq!(o.token_url(), "https://t");
    assert_eq!(c.email_provider().id(), "example.com");
    let mut c = c;
    c.email_provider.id = "googlemail.com".to_string();
    assert!(c.is_gmail());
}

#[test]
fn pop3_durations() {
    let p = Pop3Config {
        leave_messages_on_server: true,
        download_on_biff: Some(false),
        days_to_leave_messages_on_server: Some(2),
        check_interval: Some(CheckInterval { minutes: Some(15) }),
    };
    assert!(*p.leave_messages_on_server());
    assert_eq!(p.download_on_biff(), Some(&false));
    assert_eq!(p.time_to_leave_messages_on_server(), Some(Duration::from_secs(2 * 86400)));
    assert_eq!(p.check_interval(), Some(Duration::from_secs(15 * 60)));
}

#[test]
fn isp_uris() {
    assert_eq!(
        main_isp_uri("https", "me@example.com", ".example.com."),
        "https://autoconfig.example.com/mail/config-v1.1.xml?emailaddress=me@example.com"
    );
    assert_eq!(alt_isp_uri("http", "example.com"), "http://example.com/.well-known/autoconfig/mail/config-v1.1.xml");
    assert_eq!(ispdb_uri("example.com"), "https://autoconfig.thunderbird.net/v1.1/example.com");
    assert_eq!(join_address("me", "mx.example.com"), "me@mx.example.com");
}

#[test]
fn submission_security_by_port() {
    assert!(matches!(submission_security(25), SecurityType::Plain));
    assert!(matches!(submission_security(587), SecurityType::Starttls));
    assert!(matches!(submission_security(465), SecurityType::Tls));
}

#[test]
fn config_from_srv() {
    let c = config_from_srv_records(
        "example.com",
        None,
        Some(SrvTarget { hostname: "imap.example.com".to_string(), port: 993 }),
        Some(SrvTarget { hostname: "smtp.example.com".to_string(), port: 587 }),
    );
    assert_eq!(c.version, "1.1");
    assert_eq!(c.email_provider.id, "example.com");
    assert_eq!(c.email_provider.properties.len(), 2);
    let inc = c.email_provider.incoming_servers();
    assert_eq!(inc[0].hostname(), Some("imap.example.com"));
    assert!(matches!(inc[0].security_type(), Some(SecurityType::Tls)));
    let out = c.email_provider.outgoing_servers();
    assert_eq!(out[0].port(), Some(&587));
    assert!(matches!(out[0].security_type(), Some(SecurityType::Starttls)));
}

#[test]
fn address_parsing() {
    let a = Address::parse("me@example.com").unwrap();
    assert_eq!(a.local_part, "me");
    assert_eq!(a.domain, "example.com");
    assert!(matches!(Address::parse("not an address"), Err(DiscoveryError::ParsingEmailAddress(t, _)) if t == "not an address"));
}

#[test]
fn discovery_order() {
    let a = Address::parse("me@example.com").unwrap();
    let (s, act) = start_discovery(a);
    assert!(matches!(&act, DiscoveryAction::FetchAny(v) if v.len() == 2
        && v[1] == "https://autoconfig.example.com/mail/config-v1.1.xml?emailaddress=me@example.com"));
    assert!(matches!(&s, DiscoveryState::Isp { stage: IspStage::Main, .. }));
    let (s, act) = discovery_step(s, DiscoveryEvent::Fetched(false));
    assert!(matches!(&act, DiscoveryAction::FetchAny(v) if v[0] == "http://example.com/.well-known/autoconfig/mail/config-v1.1.xml"));
    let (s, act) = discovery_step(s, DiscoveryEvent::Fetched(false));
    assert!(matches!(&act, DiscoveryAction::FetchAny(v) if v.len() == 1 && v[0] == "https://autoconfig.thunderbird.net/v1.1/example.com"));
    let (s, act) = discovery_step(s, DiscoveryEvent::Fetched(false));
    assert!(matches!(&act, DiscoveryAction::LookUpMx(d) if d == "example.com"));
    let (s, act) = discovery_step(s, DiscoveryEvent::MxFound(None));
    assert!(matches!(&act, DiscoveryAction::LookUpMailconfTxt(d) if d == "example.com"));
    let (s, act) = discovery_step(s, DiscoveryEvent::TxtFound(None));
    assert!(matches!(&act, DiscoveryAction::LookUpSrv(d) if d == "example.com"));
    let (s, act) = discovery_step(s, DiscoveryEvent::SrvDone);
    assert!(matches!(s, DiscoveryState::Done));
    assert!(matches!(act, DiscoveryAction::Finish));
}

#[test]
fn discovery_through_mx() {
    let a = Address::parse("me@example.com").unwrap();
    let (s, _) = start_discovery(a);
    let (s, _) = discovery_step(s, DiscoveryEvent::Fetched(false));
    let (s, _) = discovery_step(s, DiscoveryEvent::Fetched(false));
    let (s, _) = discovery_step(s, DiscoveryEvent::Fetched(false));
    let (s, act) = discovery_step(s, DiscoveryEvent::MxFound(Some("mx.example.net.".to_string())));
    assert!(matches!(&act, DiscoveryAction::FetchAny(v)
        if v[0] == "http://autoconfig.mx.example.net/mail/config-v1.1.xml?emailaddress=me@mx.example.net"));
    let (s, act) = discovery_step(s, DiscoveryEvent::Fetched(true));
    assert!(matches!(s, DiscoveryState::Done));
    assert!(matches!(act, DiscoveryAction::Finish));
}

#[test]
fn mailconf_records() {
    assert_eq!(mailconf_uri_of("mailconf=https://example.com/config.xml"), Some("https://example.com/config.xml".to_string()));
    assert_eq!(mailconf_uri_of("v=spf1 -all"), None);
    let records = vec!["v=spf1 -all".to_string(), "mailconf=https://a.example/c.xml".to_string()];
    assert_eq!(mailconf_txt_uri("example.com", &records).unwrap(), "https://a.example/c.xml");
    assert!(matches!(mailconf_txt_uri("example.com", &vec![]), Err(DiscoveryError::GetMailconfTxtRecordNotFoundError(d)) if d == "example.com"));
}

#[test]
fn preferred_mx() {
    let records = vec![
        MxRecord::new(20, "b.example.com.".to_string()),
        MxRecord::new(10, "a.example.com.".to_string()),
        MxRecord::new(10, "c.example.com.".to_string()),
    ];
    assert_eq!(best_mx_exchange("example.com", &records).unwrap(), "a.example.com.");
    assert!(matches!(best_mx_exchange("example.com", &vec![]), Err(DiscoveryError::GetMxRecordNotFoundError(d)) if d == "example.com"));
}

#[test]
fn preferred_srv() {
    let rec = |priority, weight, target: &str, root| SrvRecord { priority, weight, port: 993, target: target.to_string(), target_is_root: root };
    let records = vec![rec(0, 0, ".", true), rec(10, 5, "b.", false), rec(10, 20, "c.", false), rec(20, 100, "d.", false)];
    assert_eq!(best_srv_record("_imaps._tcp.example.com", &records).unwrap().target, "c.");
    assert!(matches!(best_srv_record("_imap._tcp.example.com", &vec![rec(0, 0, ".", true)]),
        Err(DiscoveryError::GetSrvRecordNotFoundError(d)) if d == "_imap._tcp.example.com"));
    assert_eq!(srv_domain("example.com", "imaps"), "_imaps._tcp.example.com");
}

#[test]
fn mailconf_record_grammar() {
    assert_eq!(mailconf_uri_of("mailconf=https://a.example/c.xml?x=1"), Some("https://a.example/c.xml?x=1".to_string()));
    assert_eq!(mailconf_uri_of("mailconf=https://"), None);
    assert_eq!(mailconf_uri_of("mailconf=http://a.example/c.xml"), None);
    assert_eq!(mailconf_uri_of(" mailconf=https://a.example/c.xml"), None);
    assert_eq!(mailconf_uri_of("mailconf=https://a.example/c.xml\n"), None);
    assert_eq!(mailconf_uri_of("mailconf=https://a.example/ c.xml"), None);
    assert_eq!(mailconf_uri_of("mailconf=https://a.example/\u{a0}c.xml"), None);
    assert_eq!(mailconf_uri_of("Mailconf=https://a.example/c.xml"), None);
}
