use crusty::config::{AIProxyConfig, AppConfig, PluginConfig, RunMode};
use crusty::error::CrustyError;
use crusty::names::NameMap;
use crusty::provider::ProviderConfig;

fn empty_config() -> AppConfig {
    AppConfig {
        mode: None,
        current_proxy: None,
        ai_proxies: NameMap::new(),
        current_provider: None,
        providers: NameMap::new(),
        plugins: vec![],
        store: None,
    }
}

fn proxy(port: u64) -> AIProxyConfig {
    AIProxyConfig {
        platform: "9router".to_string(),
        is_local: true,
        host: "localhost".to_string(),
        port,
        api_key: None,
        current_model: Some("crusty_combo".to_string()),
    }
}

fn config_message(e: CrustyError) -> String {
    match e {
        CrustyError::ConfigError(m) => m,
        other => panic!("unexpected error {:?}", other),
    }
}

#[test]
fn add_proxy_then_find_and_select_first() {
    let mut c = empty_config();
    c.add_proxy("a".to_string(), proxy(1)).unwrap();
    assert_eq!(c.current_proxy.as_deref(), Some("a"));
    c.add_proxy("b".to_string(), proxy(2)).unwrap();
    assert_eq!(c.current_proxy.as_deref(), Some("a"));
    assert_eq!(c.find_proxy_by_id("b").unwrap().port, 2);
    assert_eq!(c.get_current_proxy().unwrap().port, 1);
    assert!(c.find_proxy_by_id("c").is_none());
    assert_eq!(c.list_proxies(), vec!["a".to_string(), "b".to_string()]);
    c.add_proxy("a".to_string(), proxy(9)).unwrap();
    assert_eq!(c.find_proxy_by_id("a").unwrap().port, 9);
    assert_eq!(c.list_proxies(), vec!["a".to_string(), "b".to_string()]);
}

#[test]
fn remove_current_proxy_selects_first_remaining() {
    let mut c = empty_config();
    c.add_proxy("a".to_string(), proxy(1)).unwrap();
    c.add_proxy("b".to_string(), proxy(2)).unwrap();
    c.remove_proxy("a").unwrap();
    assert_eq!(c.current_proxy.as_deref(), Some("b"));
    assert!(c.find_proxy_by_id("a").is_none());
    c.remove_proxy("zzz").unwrap();
    assert_eq!(c.list_proxies(), vec!["b".to_string()]);
    c.remove_proxy("b").unwrap();
    assert_eq!(c.current_proxy, None);
    assert!(c.list_proxies().is_empty());
}

#[test]
fn remove_other_proxy_keeps_current() {
    let mut c = empty_config();
    c.add_proxy("a".to_string(), proxy(1)).unwrap();
    c.add_proxy("b".to_string(), proxy(2)).unwrap();
    c.remove_proxy("b").unwrap();
    assert_eq!(c.current_proxy.as_deref(), Some("a"));
}

#[test]
fn set_current_proxy_checks_name() {
    let mut c = empty_config();
    c.add_proxy("a".to_string(), proxy(1)).unwrap();
    c.add_proxy("b".to_string(), proxy(2)).unwrap();
    let e = c.set_current_proxy(Some("x".to_string())).unwrap_err();
    assert_eq!(config_message(e), "Proxy 'x' not found");
    assert_eq!(c.current_proxy.as_deref(), Some("a"));
    c.set_current_proxy(Some("b".to_string())).unwrap();
    assert_eq!(c.get_current_proxy().unwrap().port, 2);
    c.set_current_proxy(None).unwrap();
    assert!(c.get_current_proxy().is_none());
}

#[test]
fn providers_add_remove_switch() {
    let mut c = empty_config();
    let bad = ProviderConfig::new("openai", "api.openai.com", "k", None);
    let e = c.add_provider("bad".to_string(), bad).unwrap_err();
    assert_eq!(config_message(e), "Provider configuration is invalid (missing base_url or api_key)");
    assert!(c.list_providers().is_empty());

    let good = ProviderConfig::new("openai", "https://api.openai.com", "k", Some("gpt-4".to_string()));
    c.add_provider("p".to_string(), good).unwrap();
    assert_eq!(c.current_provider, None);
    assert_eq!(c.find_provider_by_id("p").unwrap().base_url, "https://api.openai.com/v1");

    let e = c.set_current_provider(Some("q".to_string())).unwrap_err();
    assert_eq!(config_message(e), "Provider 'q' not found");
    c.set_current_provider(Some("p".to_string())).unwrap();
    assert_eq!(c.get_current_provider().unwrap().api_key, "k");

    c.remove_provider("p").unwrap();
    assert_eq!(c.current_provider, None);
    assert!(c.find_provider_by_id("p").is_none());
}

#[test]
fn mode_rules() {
    let mut c = empty_config();
    assert_eq!(
        config_message(c.get_mode().unwrap_err()),
        "No mode selected. Please run 'crusty mode switch' to choose between 'proxy' and 'provider' mode."
    );
    assert!(c.is_proxy_mode().is_err());
    assert!(c.is_provider_mode().is_err());
    assert_eq!(
        config_message(c.set_mode(RunMode::Proxy).unwrap_err()),
        "No proxy configured. Please run 'crusty setup' first."
    );
    assert_eq!(
        config_message(c.set_mode(RunMode::Provider).unwrap_err()),
        "No provider configured. Please run 'crusty provider add' first."
    );
    assert_eq!(c.mode, None);

    c.add_proxy("a".to_string(), proxy(1)).unwrap();
    c.set_mode(RunMode::Proxy).unwrap();
    assert_eq!(c.get_mode().unwrap(), RunMode::Proxy);
    assert!(c.is_proxy_mode().unwrap());
    assert!(!c.is_provider_mode().unwrap());
    assert_eq!(RunMode::Proxy.to_string(), "proxy");
    assert_eq!(RunMode::Provider.to_string(), "provider");
}

#[test]
fn removing_active_provider_blocks_provider_mode() {
    let mut c = empty_config();
    c.add_provider("p".to_string(), ProviderConfig::new("openai", "https://h", "k", None)).unwrap();
    c.set_current_provider(Some("p".to_string())).unwrap();
    c.set_mode(RunMode::Provider).unwrap();
    c.remove_provider("p").unwrap();
    assert!(c.set_mode(RunMode::Provider).is_err());
    assert_eq!(c.mode, Some(RunMode::Provider));
}

#[test]
fn config_path_is_inside_config_dir() {
    let p = AppConfig::get_config_path("/home/u/.config/crusty");
    assert_eq!(p, "/home/u/.config/crusty/config.json");
    let p = AppConfig::get_config_path("/tmp/");
    assert_eq!(p, "/tmp/config.json");
}

#[test]
fn errors_display_heading_and_message() {
    assert_eq!(CrustyError::ConfigError("x".to_string()).to_string(), "Config Error: x");
    assert_eq!(CrustyError::SqliteError("db".to_string()).to_string(), "Database Error: db");
    assert_eq!(CrustyError::AIProxyError("p".to_string()).to_string(), "AI Proxy Error: p");
    assert_eq!(CrustyError::AgentMemoryError("m".to_string()).to_string(), "Agent Memory Error: m");
    assert_eq!(CrustyError::AgentError("a".to_string()).to_string(), "Agent Error: a");
    assert_eq!(CrustyError::InvalidDataError("d".to_string()).to_string(), "Invalid Data Error: d");
    assert_eq!(CrustyError::PackageError("n".to_string()).to_string(), "Package Error: n");
    assert_eq!(CrustyError::ProcessError("r".to_string()).to_string(), "Process Error: r");
    assert_eq!(CrustyError::PluginError("g".to_string()).to_string(), "Plugin Error: g");
    assert_eq!(CrustyError::ToolError("t".to_string()).to_string(), "Tool Error: t");
}

#[test]
fn clones_keep_content() {
    let p = proxy(7);
    let q = p.clone();
    assert_eq!(q.port, 7);
    assert_eq!(q.host, "localhost");
    let plugin = PluginConfig {
        name: "n".to_string(),
        id: "a/b".to_string(),
        file: "f".to_string(),
        features: Some(vec!["chat".to_string()]),
    };
    let copy = plugin.clone();
    assert_eq!(copy.features, Some(vec!["chat".to_string()]));
}

#[test]
fn remove_undoes_add() {
    let mut c = empty_config();
    c.add_proxy("a".to_string(), proxy(1)).unwrap();
    c.add_proxy("b".to_string(), proxy(2)).unwrap();
    let before = c.list_proxies();
    c.add_proxy("new".to_string(), proxy(3)).unwrap();
    c.remove_proxy("new").unwrap();
    assert_eq!(c.list_proxies(), before);
    assert_eq!(c.current_proxy.as_deref(), Some("a"));
    assert!(c.find_proxy_by_id("new").is_none());

    let p = ProviderConfig::new("openai", "https://api.openai.com", "k", Some("m".to_string()));
    c.add_provider("p".to_string(), p).unwrap();
    c.set_current_provider(Some("p".to_string())).unwrap();
    let before = c.list_providers();
    let q = ProviderConfig::new("custom", "http://localhost:1234", "k2", None);
    c.add_provider("q".to_string(), q).unwrap();
    c.remove_provider("q").unwrap();
    assert_eq!(c.list_providers(), before);
    assert_eq!(c.current_provider.as_deref(), Some("p"));
}

#[test]
fn remove_undoes_add_on_empty_config() {
    let mut c = empty_config();
    c.add_proxy("only".to_string(), proxy(5)).unwrap();
    assert_eq!(c.current_proxy.as_deref(), Some("only"));
    c.remove_proxy("only").unwrap();
    assert!(c.current_proxy.is_none());
    assert!(c.list_proxies().is_empty());
}
