use crusty::config::{AppConfig, StoreConfig};
use crusty::error::CrustyError;
use crusty::names::NameMap;
use crusty::store::{
    build_sqlite_store_uri, build_store_config, check_store_type, default_store_path,
    extract_store_path,
};

fn config_with_store(store: Option<StoreConfig>) -> AppConfig {
    AppConfig {
        mode: None,
        current_proxy: None,
        ai_proxies: NameMap::new(),
        current_provider: None,
        providers: NameMap::new(),
        plugins: vec![],
        store,
    }
}

#[test]
fn uri_round_trip() {
    let uri = build_sqlite_store_uri("  C:\\data\\store.db ");
    assert_eq!(uri, "sqlite:C:/data/store.db?mode=rwc");
    assert_eq!(extract_store_path(&uri), "C:/data/store.db");
    let uri = build_sqlite_store_uri("/var/lib/crusty/store.db");
    assert_eq!(extract_store_path(&uri), "/var/lib/crusty/store.db");
}

#[test]
fn extract_keeps_other_uris() {
    assert_eq!(extract_store_path("postgres://db"), "postgres://db");
    assert_eq!(extract_store_path("sqlite:x.db"), "sqlite:x.db");
    assert_eq!(extract_store_path("sqlite:?mode=rwc"), "");
}

#[test]
fn store_config_is_sqlite() {
    let s = build_store_config("/a/b.db".to_string());
    assert_eq!(s.store_type, "sqlite");
    assert_eq!(s.uri, "sqlite:/a/b.db?mode=rwc");
    assert!(check_store_type(&s).is_ok());
    let other = StoreConfig { store_type: "postgres".to_string(), uri: "x".to_string() };
    match check_store_type(&other) {
        Err(CrustyError::AgentMemoryError(m)) => assert_eq!(m, "Unsupported database postgres "),
        r => panic!("unexpected {:?}", r),
    }
}

#[test]
fn default_path_prefers_configured_store() {
    let c = config_with_store(Some(build_store_config("/x/y.db".to_string())));
    assert_eq!(default_store_path(&c, "C:\\data\\store.db"), "/x/y.db");
    let c = config_with_store(None);
    assert_eq!(default_store_path(&c, "C:\\data\\store.db"), "C:/data/store.db");
}

use crusty::store::{apply_store_edit, apply_store_reset, configured_store, store_settings_lines};

#[test]
fn store_settings_shown() {
    let c = config_with_store(Some(build_store_config("/x/y.db".to_string())));
    let lines = store_settings_lines(&c).expect("configured");
    assert_eq!(lines, vec!["Type: sqlite", "URI : sqlite:/x/y.db?mode=rwc", "Path: /x/y.db"]);
    assert!(store_settings_lines(&config_with_store(None)).is_none());
}

#[test]
fn store_edit_and_reset() {
    let mut c = config_with_store(None);
    assert_eq!(apply_store_edit(&mut c, "   ".to_string()), Err("Store path cannot be empty".to_string()));
    assert!(c.store.is_none());
    assert_eq!(apply_store_edit(&mut c, " D:\\db\\s.db ".to_string()), Ok(()));
    let s = c.store.clone().expect("set");
    assert_eq!(s.store_type, "sqlite");
    assert_eq!(s.uri, "sqlite:D:/db/s.db?mode=rwc");
    assert_eq!(default_store_path(&c, "unused"), "D:/db/s.db");
    apply_store_reset(&mut c, "/home/u/.local/share/crusty/store.db".to_string());
    assert_eq!(c.store.as_ref().map(|s| s.uri.as_str()), Some("sqlite:/home/u/.local/share/crusty/store.db?mode=rwc"));
}

#[test]
fn store_needed_for_memory() {
    let c = config_with_store(Some(build_store_config("/x/y.db".to_string())));
    assert_eq!(configured_store(&c).map(|s| s.uri), Ok("sqlite:/x/y.db?mode=rwc".to_string()));
    assert_eq!(
        configured_store(&config_with_store(None)).map(|s| s.uri),
        Err("Store not configured. Please setup your store.".to_string())
    );
}
