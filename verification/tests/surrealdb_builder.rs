use opendal_zig::codes::ErrorKind;
use opendal_zig::path::normalize_root;
use opendal_zig::surreal::{SurrealdbBuilder, SurrealdbConfig};

#[test]
fn roots_are_normalized() {
    assert_eq!(normalize_root(""), "/");
    assert_eq!(normalize_root("/"), "/");
    assert_eq!(normalize_root("///"), "/");
    assert_eq!(normalize_root("abc"), "/abc/");
    assert_eq!(normalize_root("/abc/def"), "/abc/def/");
    assert_eq!(normalize_root("abc//def/"), "/abc/def/");
    assert_eq!(normalize_root("//a///b//c"), "/a/b/c/");
    assert_eq!(normalize_root("über/ß"), "/über/ß/");
    let once = normalize_root("x//y");
    assert_eq!(normalize_root(&once), once);
}

#[test]
fn setters_ignore_empty_text() {
    let mut b = SurrealdbBuilder::default();
    b.table("kv").table("").url("ws://127.0.0.1:8000").username("root").password("pw");
    b.namespace("ns").database("db").key_field("").value_field("v").root("");
    assert_eq!(b.config.table.as_deref(), Some("kv"));
    assert_eq!(b.config.url.as_deref(), Some("ws://127.0.0.1:8000"));
    assert_eq!(b.config.username.as_deref(), Some("root"));
    assert_eq!(b.config.password.as_deref(), Some("pw"));
    assert_eq!(b.config.namespace.as_deref(), Some("ns"));
    assert_eq!(b.config.database.as_deref(), Some("db"));
    assert_eq!(b.config.key_field, None);
    assert_eq!(b.config.value_field.as_deref(), Some("v"));
    assert_eq!(b.config.root, None);
    b.table("other");
    assert_eq!(b.config.table.as_deref(), Some("other"));
    let c = SurrealdbConfig::default();
    assert!(c.url.is_none() && c.token.is_none() && c.auth_type.is_none());
}

#[test]
fn building_checks_url_then_table() {
    let mut b = SurrealdbBuilder::default();
    let err = b.build().unwrap_err();
    assert_eq!(err.kind, ErrorKind::ConfigInvalid);
    assert_eq!(err.message, "url is empty");
    assert_eq!(err.service, "surreal");
    b.table("kv");
    assert_eq!(b.build().unwrap_err().message, "url is empty");
    let mut b = SurrealdbBuilder::default();
    b.url("ws://db");
    let err = b.build().unwrap_err();
    assert_eq!(err.kind, ErrorKind::ConfigInvalid);
    assert_eq!(err.message, "table is empty");
}

#[test]
fn building_applies_defaults() {
    let mut b = SurrealdbBuilder::default();
    b.url("ws://db").table("kv");
    let s = b.build().unwrap();
    assert_eq!(s.table, "kv");
    assert_eq!(s.key_field, "key");
    assert_eq!(s.value_field, "value");
    assert_eq!(s.root, "/");
    b.key_field("k").value_field("v").root("data//objects");
    let s = b.build().unwrap();
    assert_eq!(s.key_field, "k");
    assert_eq!(s.value_field, "v");
    assert_eq!(s.root, "/data/objects/");
    let err = SurrealdbBuilder::connection_error();
    assert_eq!(err.kind, ErrorKind::ConfigInvalid);
    assert_eq!(err.message, "table is empty");
}
