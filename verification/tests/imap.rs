use email::imap::{added_email_uid, NewMessage, UidSetMember};
use email::notify::{NotifyAction, NotifyDaemon, NotifyEvent};
use email::account::oauth2::OAuth2Method;
use email::imap::{
    build_page_range, encode_folder, first_line, imap_folder, search_page_uid_set, uid_set,
    unseen_uids, ImapAuth, ImapConfig, ImapError, OAuthBearer, SessionAuth, XOAuth2,
};
use email::EmailError;

#[test]
fn build_page_range_out_of_bounds() {
    // page * page_size < size
    assert_eq!(build_page_range(0, 5, 5).unwrap(), "5,4,3,2,1");

    // page * page_size = size
    assert!(matches!(
        build_page_range(1, 5, 5).unwrap_err(),
        EmailError::ImapError(ImapError::BuildPageRangeOutOfBoundsError(2)),
    ));

    // page * page_size > size
    assert!(matches!(
        build_page_range(2, 5, 5).unwrap_err(),
        EmailError::ImapError(ImapError::BuildPageRangeOutOfBoundsError(3)),
    ));
}

#[test]
fn build_page_range_page_size_0() {
    assert_eq!(build_page_range(0, 0, 3).unwrap(), "1:*");
    assert_eq!(build_page_range(1, 0, 4).unwrap(), "1:*");
    assert_eq!(build_page_range(2, 0, 5).unwrap(), "1:*");
}

#[test]
fn build_page_range_page_size_smaller_than_size() {
    assert_eq!(build_page_range(0, 3, 5).unwrap(), "5,4,3");
    assert_eq!(build_page_range(1, 3, 5).unwrap(), "2,1");
    assert_eq!(build_page_range(1, 4, 5).unwrap(), "1");
}

#[test]
fn build_page_range_page_bigger_than_size() {
    assert_eq!(build_page_range(0, 10, 5).unwrap(), "5,4,3,2,1");
}

#[test]
fn build_page_range_empty_folder() {
    assert!(matches!(
        build_page_range(0, 10, 0).unwrap_err(),
        EmailError::ImapError(ImapError::BuildPageRangeOutOfBoundsError(1)),
    ));
}

#[test]
fn xoauth2_initial_response() {
    let a = XOAuth2::new("user@example.com".to_string(), "token".to_string());
    assert_eq!(a.process(b""), "user=user@example.com\x01auth=Bearer token\x01\x01");
}

#[test]
fn oauthbearer_initial_response() {
    let a = OAuthBearer::new(
        "user@example.com".to_string(),
        "imap.example.com".to_string(),
        993,
        "token".to_string(),
    );
    assert_eq!(
        a.process(b"challenge"),
        "n,a=user@example.com,\x01host=imap.example.com\x01port=993\x01auth=Bearer token\x01\x01"
    );
}

#[test]
fn first_line_of_secret() {
    assert_eq!(first_line("pass\r\nrest"), Some("pass".to_string()));
    assert_eq!(first_line("pass"), Some("pass".to_string()));
    assert_eq!(first_line("\nx"), Some("".to_string()));
    assert_eq!(first_line(""), None);
}

#[test]
fn password_credentials() {
    assert!(matches!(ImapAuth::from_password_secret("secret\nnext"), Ok(ImapAuth::Passwd(p)) if p == "secret"));
    assert!(matches!(ImapAuth::from_password_secret(""), Err(ImapError::GetPasswdEmptyError)));
}

fn config() -> ImapConfig {
    ImapConfig {
        host: "imap.example.com".to_string(),
        port: 993,
        ssl: None,
        starttls: None,
        insecure: None,
        login: "me".to_string(),
        notify_cmd: None,
        notify_query: None,
        watch_cmds: None,
    }
}

#[test]
fn imap_config_defaults() {
    let c = config();
    assert!(c.ssl());
    assert!(!c.starttls());
    assert!(!c.insecure());
    assert_eq!(c.notify_query(), "NEW");
    assert!(c.watch_cmds().is_empty());
}

#[test]
fn notify_command_replaces_placeholders() {
    let mut c = config();
    assert_eq!(
        c.notify_command(7, "Hello", "bob@example.com"),
        "notify-send \"\u{1F4EB} bob@example.com\" \"Hello\""
    );
    c.notify_cmd = Some("echo <id> <subject> <sender> <id>".to_string());
    assert_eq!(c.notify_command(42, "Hi", "me"), "echo 42 Hi me 42");
}

#[test]
fn session_auth_by_credentials() {
    let c = config();
    assert!(matches!(
        c.session_auth(&ImapAuth::Passwd("pw".to_string())),
        SessionAuth::Login { user, password } if user == "me" && password == "pw"
    ));
    assert!(matches!(
        c.session_auth(&ImapAuth::OAuth2AccessToken(OAuth2Method::XOAuth2, "t".to_string())),
        SessionAuth::Authenticate { mechanism, response }
            if mechanism == "XOAUTH2" && response == "user=me\x01auth=Bearer t\x01\x01"
    ));
    assert!(matches!(
        c.session_auth(&ImapAuth::OAuth2AccessToken(OAuth2Method::OAuthBearer, "t".to_string())),
        SessionAuth::Authenticate { mechanism, response }
            if mechanism == "OAUTHBEARER"
                && response == "n,a=me,\x01host=imap.example.com\x01port=993\x01auth=Bearer t\x01\x01"
    ));
}

#[test]
fn unseen_uids_are_new_ones() {
    let seen = vec![1, 2, 3];
    let found = vec![2, 4, 3, 5, 4];
    assert_eq!(unseen_uids(&seen, &found), vec![4, 5, 4]);
    assert_eq!(unseen_uids(&found, &found), Vec::<u32>::new());
}

#[test]
fn uid_set_of_uids() {
    assert_eq!(uid_set(&vec![4, 5, 10]), "4,5,10");
    assert_eq!(uid_set(&vec![]), "");
}

#[test]
fn search_page_of_uids() {
    let uids: Vec<String> = vec!["9", "8", "7", "6", "5"].into_iter().map(String::from).collect();
    assert_eq!(search_page_uid_set(&uids, 0, 2), "9,8");
    assert_eq!(search_page_uid_set(&uids, 1, 2), "7,6");
    assert_eq!(search_page_uid_set(&uids, 0, 0), "9,8,7,6,5");
    assert_eq!(search_page_uid_set(&uids, 0, 1), "9");
}

#[test]
fn search_pages_are_clipped_at_the_end() {
    let uids: Vec<String> = ["0", "1", "2", "3", "4"].iter().map(|s| s.to_string()).collect();
    assert_eq!(search_page_uid_set(&uids, 3, 1), "3");
    assert_eq!(search_page_uid_set(&uids, 1, 3), "3,4");
    assert_eq!(search_page_uid_set(&uids, 2, 3), "");
    assert_eq!(search_page_uid_set(&uids, usize::MAX, 2), "");
    assert_eq!(search_page_uid_set(&Vec::new(), 0, 2), "");
}

#[test]
fn utf7_folder_names() {
    assert_eq!(encode_folder("INBOX"), "INBOX");
    assert_eq!(encode_folder("A&B"), "A&-B");
    assert_eq!(encode_folder("Отправленные"), "&BB4EQgQ,BEAEMAQyBDsENQQ9BD0ESwQ1-");
}

#[test]
fn imap_folder_listing() {
    let attrs = vec!["Marked".to_string(), "HasChildren".to_string()];
    let f = imap_folder("Work", &attrs).unwrap();
    assert_eq!(f.name, "Work");
    assert_eq!(f.desc, "Marked, HasChildren");
    let attrs = vec!["HasNoChildren".to_string(), "NoSelect".to_string()];
    assert!(imap_folder("[Gmail]", &attrs).is_none());
}

fn message(uid: u32, subject: &str, sender: &str) -> NewMessage {
    NewMessage { uid, subject: subject.to_string(), sender: sender.to_string() }
}

#[test]
fn notify_daemon_notifies_each_new_message_once() {
    let mut c = config();
    c.notify_cmd = Some("notify <id> <sender>: <subject>".to_string());
    let (d, a) = NotifyDaemon::start("INBOX");
    assert!(matches!(a, NotifyAction::Examine(f) if f == "INBOX"));
    let (d, a) = d.step(&c, NotifyEvent::Examined);
    assert!(matches!(a, NotifyAction::Search(q) if q == "NEW"));
    let (d, a) = d.step(&c, NotifyEvent::Found(vec![1, 2]));
    assert!(matches!(a, NotifyAction::Idle));
    let (d, a) = d.step(&c, NotifyEvent::Woke);
    assert!(matches!(a, NotifyAction::Search(_)));
    let (d, a) = d.step(&c, NotifyEvent::Found(vec![1, 2, 3, 4]));
    assert!(matches!(a, NotifyAction::Fetch(s) if s == "3,4"));
    // the server answers twice for 3, and once for 1, which was there at the start
    let fetched = vec![message(3, "Hi", "a@b"), message(1, "Old", "x@y"), message(3, "Hi", "a@b"), message(4, "Yo", "c@d")];
    let (d, a) = d.step(&c, NotifyEvent::Fetched(fetched));
    match a {
        NotifyAction::Notify { messages, commands } => {
            assert_eq!(messages.iter().map(|m| m.uid).collect::<Vec<_>>(), vec![3, 4]);
            assert_eq!(commands, vec!["notify 3 a@b: Hi", "notify 4 c@d: Yo"]);
        }
        other => panic!("unexpected action: {other:?}"),
    }
    let (d, a) = d.step(&c, NotifyEvent::Notified);
    assert!(matches!(a, NotifyAction::Idle));
    let (d, _) = d.step(&c, NotifyEvent::Woke);
    let (d, a) = d.step(&c, NotifyEvent::Found(vec![1, 2, 3, 4]));
    assert!(matches!(a, NotifyAction::Idle));
    let (d, _) = d.step(&c, NotifyEvent::Woke);
    let (d, a) = d.step(&c, NotifyEvent::Found(vec![4, 5]));
    assert!(matches!(a, NotifyAction::Fetch(s) if s == "5"));
    assert!(!d.accepts(&NotifyEvent::Woke));
    let (d, a) = d.step(&c, NotifyEvent::Failed("connection lost".to_string()));
    assert!(matches!(a, NotifyAction::Fail(m) if m == "connection lost"));
    assert!(!d.accepts(&NotifyEvent::Failed("again".to_string())));
}

#[test]
fn uid_of_appended_message() {
    assert_eq!(added_email_uid(&Some(vec![UidSetMember::Uid(42)])), Ok(42));
    assert_eq!(added_email_uid(&Some(vec![UidSetMember::UidRange(7, 9)])), Ok(7));
    assert_eq!(
        added_email_uid(&Some(vec![UidSetMember::UidRange(9, 7)])),
        Err(ImapError::GetAddedEmailUidFromRangeError(String::new()))
    );
    assert_eq!(added_email_uid(&None), Err(ImapError::GetAddedEmailUidError));
    assert_eq!(
        added_email_uid(&Some(vec![UidSetMember::Uid(1), UidSetMember::Uid(2)])),
        Err(ImapError::GetAddedEmailUidError)
    );
}
