use email::account::config::{
    get_download_file_path, AccountConfig, AccountError, Config, EnvelopeConfig, EnvelopeListConfig, FolderConfig,
    MessageConfig, MessageHeadersConfig, MessageSendConfig, NativePgpSecretKey, PgpNativeConfig,
    PgpConfig, PgpPublicKeysResolver, SyncConfig,
};
use email::account::oauth2::{
    get_first_available_port, OAuth2Config, OAuth2Error, OAuth2Event, OAuth2FlowError,
    OAuth2Method, OAuth2Redirect, OAuth2Scopes, OAuth2State, OAuth2Work,
};
use email::account::sync::{cache_root, hex_string, sync_dir_root, AccountSyncBuilder, FolderSyncStrategy, SyncRoot};

fn aliased(pairs: &[(&str, &str)]) -> AccountConfig {
    let mut c = AccountConfig::new("work", "me@example.com");
    c.folder = Some(FolderConfig {
        aliases: Some(pairs.iter().map(|(k, v)| (k.to_string(), v.to_string())).collect()),
    });
    c
}

#[test]
fn account_defaults() {
    let c = AccountConfig::new("work", "me@example.com");
    assert!(!c.is_sync_enabled());
    assert_eq!(c.get_envelope_list_page_size(), 10);
    assert_eq!(c.get_message_read_headers(), vec!["From", "To", "Cc", "Subject"]);
    assert_eq!(c.get_message_write_headers(), vec!["From", "To", "In-Reply-To", "Cc", "Subject"]);
    assert!(!c.should_save_copy_sent_message());
    assert_eq!(c.get_envelope_list_datetime_fmt(), "%F %R%:z");
    assert!(!c.has_envelope_list_datetime_local_tz());
    assert_eq!(c.signature_delim_or_default(), "-- \n");
}

#[test]
fn account_settings_override_defaults() {
    let mut c = AccountConfig::new("work", "me@example.com");
    c.sync = Some(SyncConfig { enable: Some(true), dir: None });
    c.envelope = Some(EnvelopeConfig {
        list: Some(EnvelopeListConfig {
            page_size: Some(25),
            datetime_fmt: Some("%D".to_string()),
            datetime_local_tz: Some(true),
        }),
    });
    c.message = Some(MessageConfig {
        read: Some(MessageHeadersConfig { headers: Some(vec!["Date".to_string()]) }),
        write: None,
        send: Some(MessageSendConfig { save_copy: Some(true) }),
    });
    assert!(c.is_sync_enabled());
    assert_eq!(c.get_envelope_list_page_size(), 25);
    assert_eq!(c.get_envelope_list_datetime_fmt(), "%D");
    assert!(c.has_envelope_list_datetime_local_tz());
    assert_eq!(c.get_message_read_headers(), vec!["Date"]);
    assert_eq!(c.get_message_write_headers().len(), 5);
    assert!(c.should_save_copy_sent_message());
}

#[test]
fn full_signature_is_delimited_and_trimmed() {
    let mut c = AccountConfig::new("work", "me@example.com");
    assert_eq!(c.full_signature("  Regards,\nMe \n"), "-- \nRegards,\nMe");
    c.signature_delim = Some("~~\n".to_string());
    assert_eq!(c.full_signature("Me"), "~~\nMe");
}

#[test]
fn special_folders_without_aliases() {
    let c = AccountConfig::new("work", "me@example.com");
    assert_eq!(c.get_inbox_folder_alias(), "INBOX");
    assert_eq!(c.get_sent_folder_alias(), "Sent");
    assert_eq!(c.get_drafts_folder_alias(), "Drafts");
    assert_eq!(c.get_trash_folder_alias(), "Trash");
    assert_eq!(c.get_folder_alias(" draft "), "Drafts");
    assert_eq!(c.get_folder_alias("Archives"), "Archives");
    assert_eq!(c.find_folder_alias("inbox"), None);
}

#[test]
fn folder_aliases_ignore_case_and_spaces() {
    let c = aliased(&[("inbox", "Boîte"), ("sent", "Envoyés")]);
    assert_eq!(c.find_folder_alias("  INBOX "), Some("Boîte".to_string()));
    assert_eq!(c.get_inbox_folder_alias(), "Boîte");
    assert_eq!(c.get_sent_folder_alias(), "Envoyés");
    assert_eq!(c.get_trash_folder_alias(), "Trash");
}

#[test]
fn account_from_shared_config() {
    let mut own = AccountConfig::new("", "me@example.com");
    own.signature = Some("own".to_string());
    let config = Config {
        display_name: Some("Me".to_string()),
        signature: Some("shared".to_string()),
        signature_delim: None,
        downloads_dir: Some("/tmp".to_string()),
        accounts: vec![("work".to_string(), own)],
    };
    let c = config.account("work").unwrap();
    assert_eq!(c.name, "work");
    assert_eq!(c.email, "me@example.com");
    assert_eq!(c.display_name, Some("Me".to_string()));
    assert_eq!(c.signature, Some("own".to_string()));
    assert_eq!(c.signature_delim, None);
    assert_eq!(c.downloads_dir, Some("/tmp".to_string()));
    assert!(matches!(
        config.account("home"),
        Err(AccountError::GetAccountConfigNotFoundError(n)) if n == "home"
    ));
}

#[test]
fn native_pgp_defaults() {
    let c = PgpNativeConfig::default();
    assert!(c.wkd);
    assert_eq!(c.key_servers, vec!["hkps://keys.openpgp.org", "hkps://keys.mailvelope.com"]);
    let r = c.public_keys_resolvers();
    assert_eq!(r.len(), 2);
    assert!(matches!(r[0], PgpPublicKeysResolver::Wkd));
    assert!(matches!(&r[1], PgpPublicKeysResolver::KeyServers(s) if s.len() == 2));
    assert_eq!(c.public_key_entry(), None);
    let c = PgpNativeConfig { secret_key: NativePgpSecretKey::Keyring("pgp".to_string()), wkd: false, key_servers: vec![] };
    assert_eq!(c.public_key_entry(), Some("pgp-pub".to_string()));
    assert_eq!(c.public_keys_resolvers().len(), 1);
}

#[test]
fn oauth2_method_and_scopes() {
    assert_eq!(OAuth2Method::default().to_string(), "XOAUTH2");
    assert_eq!(OAuth2Method::OAuthBearer.to_string(), "OAUTHBEARER");
    assert!(matches!(OAuth2Scopes::default(), OAuth2Scopes::Scopes(v) if v.is_empty()));
    assert_eq!(OAuth2Scopes::Scope("mail".to_string()).into_vec(), vec!["mail"]);
}

#[test]
fn oauth2_redirect_defaults() {
    let r = OAuth2Redirect { scheme: None, host: None, port: None };
    assert_eq!(r.scheme(), "http");
    assert_eq!(r.host(), "localhost");
    assert_eq!(r.port(|p| p == 49160), Ok(49160));
    let r = OAuth2Redirect { scheme: Some("https".to_string()), host: Some("h".to_string()), port: Some(8080) };
    assert_eq!(r.scheme(), "https");
    assert_eq!(r.host(), "h");
    assert_eq!(r.port(|_| false), Ok(8080));
}

#[test]
fn first_available_port() {
    assert_eq!(get_first_available_port(|p| p >= 50000), Ok(50000));
    assert_eq!(get_first_available_port(|_| true), Ok(49152));
    assert_eq!(get_first_available_port(|_| false), Err(OAuth2Error::GetAvailablePortError));
}

fn oauth2_config(secret: bool, port: Option<u16>) -> OAuth2Config {
    OAuth2Config {
        method: OAuth2Method::XOAuth2,
        client_id: "id".to_string(),
        has_client_secret: secret,
        auth_url: "https://auth".to_string(),
        token_url: "https://token".to_string(),
        pkce: true,
        redirect: OAuth2Redirect { scheme: None, host: None, port },
        scopes: OAuth2Scopes::Scope("mail".to_string()),
    }
}

#[test]
fn oauth2_configure_with_stored_token_does_nothing() {
    let c = oauth2_config(false, None);
    let (s, w) = c.start_configure();
    assert!(matches!(w, OAuth2Work::ReadAccessToken));
    let (s, w) = c.oauth2_step(s, OAuth2Event::AccessToken(true));
    assert!(matches!(s, OAuth2State::Finished));
    assert!(matches!(w, OAuth2Work::Finish(None)));
}

#[test]
fn oauth2_configure_flow() {
    let c = oauth2_config(true, None);
    let (s, _) = c.start_configure();
    let (s, w) = c.oauth2_step(s, OAuth2Event::AccessToken(false));
    assert!(matches!(w, OAuth2Work::FindAvailablePort));
    let (s, w) = c.oauth2_step(s, OAuth2Event::Port(Some(49200)));
    assert!(matches!(w, OAuth2Work::FindClientSecret));
    let (s, w) = c.oauth2_step(s, OAuth2Event::SecretLookup(None));
    assert!(matches!(w, OAuth2Work::AskClientSecret));
    let (s, w) = c.oauth2_step(s, OAuth2Event::Secret("sec".to_string()));
    assert!(matches!(&w, OAuth2Work::StoreClientSecret(x) if x == "sec"));
    let (s, w) = c.oauth2_step(s, OAuth2Event::Secret("sec".to_string()));
    match &w {
        OAuth2Work::Authorize { client, pkce, scopes } => {
            assert_eq!(client.client_id, "id");
            assert_eq!(client.client_secret, Some("sec".to_string()));
            assert_eq!(client.redirect_scheme, "http");
            assert_eq!(client.redirect_host, "localhost");
            assert_eq!(client.redirect_port, 49200);
            assert!(*pkce);
            assert_eq!(scopes, &vec!["mail".to_string()]);
        }
        _ => panic!("expected the authorization"),
    }
    let (s, w) = c.oauth2_step(s, OAuth2Event::Tokens("acc".to_string(), Some("ref".to_string())));
    assert!(matches!(&w, OAuth2Work::StoreAccessToken(x) if x == "acc"));
    let (s, w) = c.oauth2_step(s, OAuth2Event::Stored);
    assert!(matches!(&w, OAuth2Work::StoreRefreshToken(x) if x == "ref"));
    let (s, w) = c.oauth2_step(s, OAuth2Event::Stored);
    assert!(matches!(s, OAuth2State::Finished));
    assert!(matches!(w, OAuth2Work::Finish(None)));
}

#[test]
fn oauth2_refresh_flow_gives_access_token() {
    let c = oauth2_config(false, Some(8080));
    let (s, w) = c.start_refresh();
    assert!(matches!(&w, OAuth2Work::BuildClient(client) if client.redirect_port == 8080));
    let (s, w) = c.oauth2_step(s, OAuth2Event::ClientBuilt);
    assert!(matches!(w, OAuth2Work::ReadRefreshToken));
    let (s, w) = c.oauth2_step(s, OAuth2Event::RefreshToken("r".to_string()));
    assert!(matches!(&w, OAuth2Work::Refresh { client, refresh_token }
        if client.redirect_port == 8080 && client.client_secret.is_none() && refresh_token == "r"));
    let (s, _) = c.oauth2_step(s, OAuth2Event::Tokens("new".to_string(), None));
    let (s, w) = c.oauth2_step(s, OAuth2Event::Stored);
    assert!(matches!(s, OAuth2State::Finished));
    assert!(matches!(&w, OAuth2Work::Finish(Some(t)) if t == "new"));
}

#[test]
fn oauth2_failures_name_their_step() {
    let c = oauth2_config(true, None);
    let (s, _) = c.start_refresh();
    let (_, w) = c.oauth2_step(s, OAuth2Event::Port(None));
    assert!(matches!(w, OAuth2Work::Fail(OAuth2FlowError::GetAvailablePortError)));
    let (s, _) = c.start_refresh();
    let (s, _) = c.oauth2_step(s, OAuth2Event::Port(Some(1)));
    let (_, w) = c.oauth2_step(s, OAuth2Event::Failed("locked".to_string()));
    assert!(matches!(&w, OAuth2Work::Fail(OAuth2FlowError::GetClientSecretFromKeyringOauthError(m)) if m == "locked"));
    // the client is built before the refresh token is read: a bad client
    // fails the flow whatever the refresh token
    let c = oauth2_config(false, Some(1));
    let (s, _) = c.start_refresh();
    let (_, w) = c.oauth2_step(s, OAuth2Event::ClientFailed("bad url".to_string()));
    assert!(matches!(&w, OAuth2Work::Fail(OAuth2FlowError::BuildOauthClientError(m)) if m == "bad url"));
    let c = oauth2_config(true, Some(1));
    let (s, _) = c.start_refresh();
    let (s, w) = c.oauth2_step(s, OAuth2Event::Secret("sec".to_string()));
    assert!(matches!(&w, OAuth2Work::BuildClient(client) if client.client_secret.as_deref() == Some("sec")));
    let (s, _) = c.oauth2_step(s, OAuth2Event::ClientBuilt);
    let (_, w) = c.oauth2_step(s, OAuth2Event::Failed("no token".to_string()));
    assert!(matches!(&w, OAuth2Work::Fail(OAuth2FlowError::GetRefreshTokenOauthError(m)) if m == "no token"));
}

#[test]
fn sync_cache_configuration() {
    let mut c = AccountConfig::new("work", "me@example.com");
    c.sync = Some(SyncConfig { enable: Some(true), dir: Some("/sync".to_string()) });
    c.signature = Some("sig".to_string());
    let cache = AccountSyncBuilder::cache_account_config(&c);
    assert_eq!(cache.name, "work");
    assert_eq!(cache.signature, Some("sig".to_string()));
    assert!(cache.sync.is_none());
    assert!(!cache.is_sync_enabled());
    assert_eq!(AccountSyncBuilder::default_cache_dirs(0xabc), vec!["pimalaya", "email", "sync", "abc"]);
}

#[test]
fn hex_of_numbers() {
    assert_eq!(hex_string(0), "0");
    assert_eq!(hex_string(255), "ff");
    assert_eq!(hex_string(u64::MAX), "ffffffffffffffff");
}

#[test]
fn rename_file_if_duplicate() {
    let path = "downloads/file.ext".to_string();

    // when file path is unique
    assert!(matches!(
        email::account::config::rename_file_if_duplicate(&path, |_, _| false),
        Ok(path) if path == "downloads/file.ext"
    ));

    // when 1 file path already exist
    assert!(matches!(
        email::account::config::rename_file_if_duplicate(&path, |_, count| count < 1),
        Ok(path) if path == "downloads/file_1.ext"
    ));

    // when 5 file paths already exist
    assert!(matches!(
        email::account::config::rename_file_if_duplicate(&path, |_, count| count < 5),
        Ok(path) if path == "downloads/file_5.ext"
    ));

    // when file path has no extension
    let path = "downloads/file".to_string();
    assert!(matches!(
        email::account::config::rename_file_if_duplicate(&path, |_, count| count < 5),
        Ok(path) if path == "downloads/file_5"
    ));

    // when file path has 2 extensions
    let path = "downloads/file.ext.ext2".to_string();
    assert!(matches!(
        email::account::config::rename_file_if_duplicate(&path, |_, count| count < 5),
        Ok(path) if path == "downloads/file.ext_5.ext2"
    ));
}

#[test]
fn download_paths() {
    let dir = "/tmp/dl".to_string();
    assert_eq!(get_download_file_path(&dir, &"a/b/report.pdf".to_string(), |_, _| false), Ok("/tmp/dl/report.pdf".to_string()));
    assert_eq!(
        get_download_file_path(&dir, &"report.pdf".to_string(), |p, _| p == "/tmp/dl/report.pdf"),
        Ok("/tmp/dl/report_1.pdf".to_string())
    );
    assert!(matches!(
        get_download_file_path(&dir, &"/".to_string(), |_, _| false),
        Err(AccountError::GetFileNameFromPathError(p)) if p == "/"
    ));
    assert!(matches!(
        email::account::config::rename_file_if_duplicate(&"..".to_string(), |_, _| true),
        Err(AccountError::ParseDownloadFileNameError(p)) if p == ".."
    ));
}

#[test]
fn account_from_shared_config_keeps_pgp() {
    let mut own = AccountConfig::new("", "me@example.com");
    own.pgp = Some(PgpConfig::Native(PgpNativeConfig {
        secret_key: NativePgpSecretKey::Raw("key".to_string()),
        wkd: false,
        key_servers: vec!["hkps://keys.example.org".to_string()],
    }));
    let config = Config {
        display_name: None,
        signature: None,
        signature_delim: None,
        downloads_dir: None,
        accounts: vec![("work".to_string(), own)],
    };
    let c = config.account("work").unwrap();
    match c.pgp {
        Some(PgpConfig::Native(n)) => {
            assert!(matches!(n.secret_key, NativePgpSecretKey::Raw(k) if k == "key"));
            assert!(!n.wkd);
            assert_eq!(n.key_servers, vec!["hkps://keys.example.org"]);
        }
        other => panic!("unexpected pgp configuration: {other:?}"),
    }
    assert!(AccountConfig::new("a", "b").pgp.is_none());
}

#[test]
fn sync_cache_root_choices() {
    let r = cache_root(&Some("~/sync".to_string()), Some("/home/me/sync".to_string()), None, 1);
    assert!(matches!(r, Ok(SyncRoot::Custom(d)) if d == "/home/me/sync"));
    let r = cache_root(&Some("$UNSET/sync".to_string()), None, Some("/data".to_string()), 1);
    assert!(matches!(r, Err(AccountError::GetSyncDirInvalidError(d)) if d == "$UNSET/sync"));
    match cache_root(&None, None, Some("/data".to_string()), 0xabc) {
        Ok(SyncRoot::Default { data_dir, dirs }) => {
            assert_eq!(data_dir, "/data");
            assert_eq!(dirs, vec!["pimalaya", "email", "sync", "abc"]);
        }
        other => panic!("unexpected root: {other:?}"),
    }
    assert!(matches!(cache_root(&None, None, None, 1), Err(AccountError::GetXdgDataDirSyncError)));
}

#[test]
fn sync_cache_root_of_an_account() {
    let mut c = AccountConfig::new("work", "me@example.com");
    c.sync = Some(SyncConfig { enable: Some(true), dir: Some("/var/sync".to_string()) });
    assert!(matches!(
        AccountSyncBuilder::sync_cache_root(&c, 7),
        Ok(SyncRoot::Custom(d)) if d == "/var/sync"
    ));
    c.sync = Some(SyncConfig { enable: Some(true), dir: Some("$EMAIL_SYNC_DIR_SURELY_UNSET/x".to_string()) });
    assert!(matches!(
        AccountSyncBuilder::sync_cache_root(&c, 7),
        Err(AccountError::GetSyncDirInvalidError(d)) if d == "$EMAIL_SYNC_DIR_SURELY_UNSET/x"
    ));
    c.sync = None;
    match AccountSyncBuilder::sync_cache_root(&c, 0xabc) {
        Ok(SyncRoot::Default { dirs, .. }) => assert_eq!(dirs, vec!["pimalaya", "email", "sync", "abc"]),
        Err(AccountError::GetXdgDataDirSyncError) => {}
        other => panic!("unexpected root: {other:?}"),
    }
}

#[test]
fn download_path_of_a_parent_reference() {
    let dir = "/tmp/dl".to_string();
    assert_eq!(
        get_download_file_path(&dir, &"a/..".to_string(), |_, _| false),
        Err(AccountError::GetFileNameFromPathError("a/..".to_string()))
    );
    assert_eq!(
        get_download_file_path(&dir, &"notes.tar.gz".to_string(), |_, count| count < 2),
        Ok("/tmp/dl/notes.tar_2.gz".to_string())
    );
    assert_eq!(
        email::account::config::rename_file_if_duplicate(&".profile".to_string(), |_, count| count < 1),
        Ok(".profile_1".to_string())
    );
}

#[test]
fn sync_dir_of_an_account() {
    assert!(matches!(
        sync_dir_root(&Some("~/mail".to_string()), "/home/me/mail".to_string(), None, "work"),
        Ok(SyncRoot::Custom(d)) if d == "/home/me/mail"
    ));
    match sync_dir_root(&None, String::new(), Some("/data".to_string()), "work") {
        Ok(SyncRoot::Default { data_dir, dirs }) => {
            assert_eq!(data_dir, "/data");
            assert_eq!(dirs, vec!["himalaya", "work"]);
        }
        other => panic!("unexpected root: {other:?}"),
    }
    assert!(matches!(
        sync_dir_root(&None, String::new(), None, "work"),
        Err(AccountError::GetXdgDataDirError)
    ));
    let mut c = AccountConfig::new("work", "me@example.com");
    c.sync = Some(SyncConfig { enable: Some(true), dir: Some("/var/mail".to_string()) });
    assert!(matches!(c.get_sync_dir_root(), Ok(SyncRoot::Custom(d)) if d == "/var/mail"));
    c.sync = Some(SyncConfig { enable: Some(true), dir: Some("$EMAIL_SYNC_DIR_SURELY_UNSET/x".to_string()) });
    assert!(matches!(c.get_sync_dir_root(), Ok(SyncRoot::Custom(d)) if d == "$EMAIL_SYNC_DIR_SURELY_UNSET/x"));
    c.sync = None;
    match c.get_sync_dir_root() {
        Ok(SyncRoot::Default { dirs, .. }) => assert_eq!(dirs, vec!["himalaya", "work"]),
        Err(AccountError::GetXdgDataDirError) => {}
        other => panic!("unexpected root: {other:?}"),
    }
}

#[test]
fn rename_when_every_count_is_taken() {
    assert_eq!(
        email::account::config::rename_file_if_duplicate(&"a.txt".to_string(), |_, _| true),
        Err(AccountError::DuplicateFileCountOverflowError("a.txt".to_string()))
    );
    assert_eq!(
        email::account::config::rename_file_if_duplicate(&"a.txt".to_string(), |_, count| count < 255),
        Ok("a_255.txt".to_string())
    );
}

#[test]
fn sync_strategy_takes_folder_aliases() {
    let c = aliased(&[("sent", "Sent Items")]);
    assert_eq!(c.sync_folders_strategy(&FolderSyncStrategy::All), FolderSyncStrategy::All);
    assert_eq!(
        c.sync_folders_strategy(&FolderSyncStrategy::Include(vec!["Sent".to_string(), "inbox".to_string(), "Work".to_string()])),
        FolderSyncStrategy::Include(vec!["Sent Items".to_string(), "INBOX".to_string(), "Work".to_string()])
    );
    assert_eq!(
        c.sync_folders_strategy(&FolderSyncStrategy::Exclude(vec!["trash".to_string()])),
        FolderSyncStrategy::Exclude(vec!["Trash".to_string()])
    );
}
