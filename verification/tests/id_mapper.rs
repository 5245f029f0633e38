use email::id_mapper::{build_table_name, lower_hex_string, parse_id, IdMapper, IdMapperError};

#[test]
fn table_name_is_md5_of_account_and_folder() {
    // md5("") is d41d8cd98f00b204e9800998ecf8427e
    assert_eq!(build_table_name("", ""), "id_mapper_d41d8cd98f00b204e9800998ecf8427e");
    // md5("abc") is 900150983cd24fb0d6963f7d28e17f72
    assert_eq!(build_table_name("ab", "c"), "id_mapper_900150983cd24fb0d6963f7d28e17f72");
    assert_eq!(IdMapper::new("a", "bc").table_name(), build_table_name("ab", "c"));
}

#[test]
fn id_mapper_statements() {
    let m = IdMapper::new("", "");
    let t = "id_mapper_d41d8cd98f00b204e9800998ecf8427e";
    assert_eq!(
        m.create_table_query(),
        format!("CREATE TABLE IF NOT EXISTS {t} (\n                id INTEGER PRIMARY KEY AUTOINCREMENT,\n                internal_id TEXT UNIQUE\n            )")
    );
    assert_eq!(m.insert_query(), format!("INSERT OR IGNORE INTO {t} (internal_id) VALUES (?)"));
    assert_eq!(m.select_id_query(), format!("SELECT id FROM {t} WHERE internal_id = ?"));
    assert_eq!(m.select_internal_id_query(), format!("SELECT internal_id FROM {t} WHERE id = ?"));
}

#[test]
fn rows_to_ids() {
    assert_eq!(IdMapper::id_from_rows(&vec![12, 3]), Some("12".to_string()));
    assert_eq!(IdMapper::id_from_rows(&vec![]), None);
    assert_eq!(IdMapper::internal_id_from_rows("3", &vec!["<a@b>".to_string()]), Ok("<a@b>".to_string()));
    assert_eq!(
        IdMapper::internal_id_from_rows("3", &vec![]),
        Err(IdMapperError::GetInternalIdFromId("3".to_string()))
    );
}

#[test]
fn ids_parse_back() {
    for n in [0usize, 7, 10, 4096, usize::MAX] {
        assert_eq!(parse_id(&n.to_string()), Some(n));
    }
    assert_eq!(parse_id("+42"), Some(42));
    assert_eq!(parse_id(""), None);
    assert_eq!(parse_id("+"), None);
    assert_eq!(parse_id("4a"), None);
    assert_eq!(parse_id("-1"), None);
    assert_eq!(parse_id("99999999999999999999999"), None);
}

#[test]
fn hex_of_bytes() {
    assert_eq!(lower_hex_string(&vec![0, 15, 16, 255]), "000f10ff");
}
