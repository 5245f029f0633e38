use email::maildir::{list_envelopes_page, preview_order, sort_by_date};
use email::maildir::{
    decode_folder, delete_plan, encode_folder, folder_dir_name, folder_locations, list_folders,
    page_bounds, subfolder_dir_name, DeletePlan, MaildirError, MaildirLocation,
};

#[test]
fn folder_names_round_trip() {
    for f in ["Archives", "Boîte d'envoi", "a/b c", "%41", "日本"] {
        assert_eq!(decode_folder(&encode_folder(f)), f);
    }
    assert_eq!(encode_folder("a b/c"), "a%20b%2Fc");
    assert_eq!(decode_folder("%FF"), "%FF");
}

#[test]
fn maildir_locations() {
    assert!(matches!(folder_locations("INBOX").as_slice(), [MaildirLocation::Root]));
    let l = folder_locations("Sent Items");
    assert_eq!(l.len(), 4);
    assert!(matches!(&l[3], MaildirLocation::InRoot(p) if p == ".Sent%20Items"));
    assert_eq!(subfolder_dir_name("x y"), ".x%20y");
    assert_eq!(folder_dir_name("INBOX"), "cur");
    assert_eq!(folder_dir_name("Trash"), ".Trash");
}

#[test]
fn maildir_folders() {
    let dirs = vec![".Sent".to_string(), ".notmuch".to_string(), ".a%20b".to_string()];
    let folders = list_folders("Inbox", &dirs).unwrap();
    assert_eq!(folders.len(), 3);
    assert_eq!(folders[0].name, "Inbox");
    assert_eq!(folders[0].desc, "INBOX");
    assert_eq!(folders[1].name, "Sent");
    assert_eq!(folders[2].name, "a b");
    assert_eq!(folders[2].desc, "a%20b");
    assert!(matches!(list_folders("Inbox", &vec![".".to_string()]), Err(MaildirError::ParseSubfolderError(d)) if d == "."));
}

#[test]
fn envelope_pages() {
    assert_eq!(page_bounds(25, 0, 10).ok(), Some((0, 10)));
    assert_eq!(page_bounds(25, 2, 10).ok(), Some((20, 25)));
    assert_eq!(page_bounds(25, 0, 0).ok(), Some((0, 25)));
    assert!(matches!(page_bounds(25, 3, 10), Err(MaildirError::GetEnvelopesOutOfBoundsError(31))));
}

#[test]
fn deleting_from_trash_flags() {
    assert_eq!(delete_plan("Trash", "Trash"), DeletePlan::FlagAsDeleted);
    assert_eq!(delete_plan("INBOX", "Trash"), DeletePlan::MoveToTrash);
}

#[test]
fn envelopes_latest_first() {
    let dates = vec![10, 30, 20, 30, 5];
    assert_eq!(sort_by_date(&dates), vec![1, 3, 2, 0, 4]);
    assert_eq!(sort_by_date(&vec![]), Vec::<usize>::new());
    assert_eq!(list_envelopes_page(&dates, 0, 2).unwrap(), vec![1, 3]);
    assert_eq!(list_envelopes_page(&dates, 2, 2).unwrap(), vec![4]);
    assert_eq!(list_envelopes_page(&dates, 0, 0).unwrap(), vec![1, 3, 2, 0, 4]);
    assert!(matches!(list_envelopes_page(&dates, 3, 2), Err(MaildirError::GetEnvelopesOutOfBoundsError(7))));
}

#[test]
fn previews_follow_the_request() {
    let strings = |v: &[&str]| v.iter().map(|s| s.to_string()).collect::<Vec<String>>();
    let requested = strings(&["c", "a", "x"]);
    let entries = strings(&["a", "b", "c", "a"]);
    assert_eq!(preview_order(&requested, &entries), vec![2, 0, 3]);
    assert_eq!(preview_order(&strings(&[]), &entries), Vec::<usize>::new());
}

#[test]
fn folder_names_percent_decode() {
    assert_eq!(decode_folder("%C3%A9t%C3%A9"), "été");
    assert_eq!(decode_folder("a%2fb%2Fc"), "a/b/c");
    assert_eq!(decode_folder("%4%41"), "%4A");
    assert_eq!(decode_folder("a%"), "a%");
    assert_eq!(decode_folder("a%4"), "a%4");
    assert_eq!(decode_folder("a+b"), "a+b");
    // the bytes decoded are not UTF-8: the name stays as it is
    assert_eq!(decode_folder("%e9"), "%e9");
}
