use crusty::config::AIProxyConfig;
use crusty::error::CrustyError;
use crusty::proxy::{
    build_9router_proxy_config, get_proxy, proxy_host_default, proxy_prompt_defaults, AIProxy,
    ProxyAnswers, _9RouterAIProxy,
};

fn cfg(is_local: bool, host: &str, port: u64, key: Option<&str>) -> AIProxyConfig {
    AIProxyConfig {
        platform: "9router".to_string(),
        is_local,
        host: host.to_string(),
        port,
        api_key: key.map(|k| k.to_string()),
        current_model: Some("m".to_string()),
    }
}

#[test]
fn urls_of_local_and_remote_proxies() {
    let local = _9RouterAIProxy::from_config(&cfg(true, "localhost", 20128, Some("k")));
    assert_eq!(local.get_url(), "localhost:20128/v1");
    assert_eq!(local.get_dashboard_url(), "localhost:20128/dashboard");
    assert_eq!(local.probe_address(), "localhost:20128");
    assert_eq!(local.get_api_key(), "k");
    let remote = _9RouterAIProxy::from_config(&cfg(false, "https://router.example.com", 8000, None));
    assert_eq!(remote.get_url(), "https://router.example.com/v1");
    assert_eq!(remote.get_dashboard_url(), "https://router.example.com/dashboard");
    assert_eq!(remote.probe_address(), "router.example.com");
    assert_eq!(remote.get_api_key(), "");
    let odd = _9RouterAIProxy::from_config(&cfg(false, "http://a:1http://", 0, None));
    assert_eq!(odd.probe_address(), "a:1");
}

#[test]
fn start_arguments_and_timeout() {
    let p = _9RouterAIProxy::from_config(&cfg(true, "localhost", 0, None));
    assert_eq!(p.start_args(), vec!["9router", "--tray", "--no-browser", "--port", "0"]);
    match p.start_timeout_error() {
        CrustyError::AIProxyError(m) => assert_eq!(m, "Failed to start 9router on port 0"),
        e => panic!("unexpected {:?}", e),
    }
}

#[test]
fn platforms() {
    let c = cfg(true, "h", 5, None);
    assert!(matches!(get_proxy("9router", &c), Some(AIProxy::NineRouter(p)) if p.port == 5));
    assert!(matches!(get_proxy("omniroute", &c), Some(AIProxy::OmniRoute(p)) if p.host == "h"));
    assert!(get_proxy("other", &c).is_none());
}

#[test]
fn prompt_defaults() {
    let d = proxy_prompt_defaults(None);
    assert!(d.is_local);
    assert_eq!(d.port, "8000");
    assert_eq!(d.api_key, "");
    assert_eq!(d.current_model, "crusty_combo");
    let existing = cfg(false, "r.example", 9001, Some("key"));
    let d = proxy_prompt_defaults(Some(&existing));
    assert!(!d.is_local);
    assert_eq!(d.port, "9001");
    assert_eq!(d.api_key, "key");
    assert_eq!(d.current_model, "m");
    assert_eq!(proxy_host_default(Some(&existing), true), "localhost");
    assert_eq!(proxy_host_default(Some(&existing), false), "r.example");
    assert_eq!(proxy_host_default(None, false), "");
}

fn answers(is_local: bool, host: &str, port: &str, key: &str, model: &str) -> ProxyAnswers {
    ProxyAnswers {
        is_local,
        host: host.to_string(),
        port: port.to_string(),
        api_key: key.to_string(),
        current_model: model.to_string(),
    }
}

fn config_message(r: Result<AIProxyConfig, CrustyError>) -> String {
    match r {
        Err(CrustyError::ConfigError(m)) => m,
        other => panic!("unexpected {:?}", other.map(|c| c.port)),
    }
}

#[test]
fn answers_build_proxy_config() {
    let c = build_9router_proxy_config(None, answers(true, "ignored", " 8080 ", "  ", "combo")).unwrap();
    assert_eq!(c.platform, "9router");
    assert_eq!(c.host, "localhost");
    assert_eq!(c.port, 8080);
    assert_eq!(c.api_key, None);
    assert_eq!(c.current_model.as_deref(), Some("combo"));

    let existing = cfg(false, "old", 9001, None);
    let c = build_9router_proxy_config(Some(&existing), answers(false, "new.host", "x", " k ", "m")).unwrap();
    assert_eq!(c.host, "new.host");
    assert_eq!(c.port, 9001);
    assert_eq!(c.api_key.as_deref(), Some(" k "));

    let c = build_9router_proxy_config(None, answers(false, "h", "", "", "m")).unwrap();
    assert_eq!(c.port, 8000);
}

#[test]
fn answers_errors_match_std_messages() {
    for input in ["", "abc", "+", "-1", "99999999999999999999", "12a", "+7x", "99999999999999999999x", "1844674407370955161X", "18446744073709551616", " 7 8"] {
        let std_err = input.trim().parse::<u64>().unwrap_err();
        let msg = config_message(build_9router_proxy_config(None, answers(true, "", input, "", "m")));
        assert_eq!(msg, format!("Invalid proxy port '{}': {}", input, std_err));
    }
    let msg = config_message(build_9router_proxy_config(None, answers(true, "", "80", "", "   ")));
    assert_eq!(msg, "Current model cannot be empty");
    let c = build_9router_proxy_config(None, answers(true, "", "+80", "", "m")).unwrap();
    assert_eq!(c.port, 80);
}

#[test]
fn parse_agrees_with_std() {
    for input in ["0", "18446744073709551615", "+0", "007", "42"] {
        let c = build_9router_proxy_config(None, answers(true, "", input, "", "m")).unwrap();
        assert_eq!(c.port, input.parse::<u64>().unwrap());
    }
}

#[test]
fn edit_accepting_defaults_keeps_proxy() {
    let existing = cfg(true, "localhost", 20128, Some("sk-1"));
    let d = proxy_prompt_defaults(Some(&existing));
    let host = proxy_host_default(Some(&existing), d.is_local);
    let c = build_9router_proxy_config(
        Some(&existing),
        ProxyAnswers { is_local: d.is_local, host, port: d.port, api_key: d.api_key, current_model: d.current_model },
    )
    .unwrap();
    assert_eq!(c.platform, existing.platform);
    assert_eq!(c.is_local, existing.is_local);
    assert_eq!(c.host, existing.host);
    assert_eq!(c.port, existing.port);
    assert_eq!(c.api_key, existing.api_key);
    assert_eq!(c.current_model, existing.current_model);
}
