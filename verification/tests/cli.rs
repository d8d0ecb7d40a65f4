use crusty::active::{
    get_active_provider, get_agent_params, proxy_status_problem, remote_proxy_warning,
    resolve_active_provider, resolve_active_proxy, ActiveProviderError, ActiveProxyError,
};
use crusty::cli::chat::{
    banner_for_provider, banner_for_proxy, chat_model_for_provider, provider_404_hint,
    start_model_for_provider,
};
use crusty::cli::mode::{handle_mode_show, mode_from_choice, mode_menu_default, switch_mode, ModeSwitch};
use crusty::cli::provider::{
    handle_provider_list, handle_provider_remove, handle_provider_switch, provider_from_answers,
    provider_type_choice, ProviderAnswers, ProviderChoice,
};
use crusty::cli::proxy::{
    apply_proxy_edit, check_new_proxy_name, check_proxy_rename, handle_proxy_list,
    handle_proxy_remove, handle_proxy_start, handle_proxy_stop, handle_proxy_switch, ProxyChoice,
    Report,
};
use crusty::cli::setup::{
    apply_provider_setup, apply_proxy_setup, initial_setup_config, setup_platform_choice,
    setup_proxy_config, SetupPlatform,
};
use crusty::config::{AIProxyConfig, AppConfig, RunMode};
use crusty::error::CrustyError;
use crusty::menus::{
    handle_config_menu, handle_mode_settings_menu, handle_plugin_install_prompt,
    handle_plugin_settings_menu, handle_provider_settings_menu, handle_proxy_settings_menu,
    handle_store_settings_menu, ConfigArea, ModeAction, PluginAction, ProviderAction, ProxyAction,
    StoreAction,
};
use crusty::names::NameMap;
use crusty::provider::ProviderConfig;

fn empty() -> AppConfig {
    AppConfig {
        mode: None,
        current_proxy: None,
        ai_proxies: NameMap::new(),
        current_provider: None,
        providers: NameMap::new(),
        plugins: vec![],
        store: None,
    }
}

fn proxy(host: &str, port: u64, local: bool) -> AIProxyConfig {
    AIProxyConfig {
        platform: "9router".to_string(),
        is_local: local,
        host: host.to_string(),
        port,
        api_key: None,
        current_model: Some("crusty_combo".to_string()),
    }
}

fn msg(e: CrustyError) -> String {
    match e {
        CrustyError::ConfigError(m) => m,
        other => panic!("unexpected {:?}", other),
    }
}

#[test]
fn menus_map_choices() {
    assert_eq!(handle_config_menu(Some(0)), Some(ConfigArea::Mode));
    assert_eq!(handle_config_menu(Some(5)), Some(ConfigArea::Setup));
    assert_eq!(handle_config_menu(Some(6)), None);
    assert_eq!(handle_config_menu(None), None);
    assert_eq!(handle_mode_settings_menu(Some(1)), Some(ModeAction::Switch));
    assert_eq!(handle_mode_settings_menu(Some(2)), None);
    assert_eq!(handle_provider_settings_menu(Some(3)), Some(ProviderAction::Switch));
    assert_eq!(handle_proxy_settings_menu(Some(7)), Some(ProxyAction::Dashboard));
    assert_eq!(handle_proxy_settings_menu(Some(8)), None);
    assert_eq!(handle_plugin_settings_menu(Some(1)), Some(PluginAction::Install));
    assert_eq!(handle_store_settings_menu(Some(2)), Some(StoreAction::Reset));
    assert_eq!(handle_plugin_install_prompt(Some("  ./p  ".to_string())), Some("./p".to_string()));
    assert_eq!(handle_plugin_install_prompt(Some("   ".to_string())), None);
    assert_eq!(handle_plugin_install_prompt(None), None);
}

#[test]
fn agent_params() {
    let mut p = proxy("h", 1, true);
    assert_eq!(get_agent_params(&p), Some(("crusty_combo".to_string(), String::new())));
    p.api_key = Some("k".to_string());
    assert_eq!(get_agent_params(&p), Some(("crusty_combo".to_string(), "k".to_string())));
    p.current_model = None;
    assert_eq!(get_agent_params(&p), None);
}

#[test]
fn active_provider_reasons() {
    let mut c = empty();
    assert!(matches!(resolve_active_provider(&c), Err(ActiveProviderError::NoneSelected)));
    c.current_provider = Some("p".to_string());
    assert!(matches!(resolve_active_provider(&c), Err(ActiveProviderError::NotFound)));
    c.providers.insert("p".to_string(), ProviderConfig::new("openai", "no-scheme", "k", None));
    assert!(matches!(resolve_active_provider(&c), Err(ActiveProviderError::Invalid)));
    assert!(get_active_provider(&c).is_none());
    c.providers.insert("p".to_string(), ProviderConfig::new("openai", "https://h", "k", None));
    let (name, p) = get_active_provider(&c).unwrap();
    assert_eq!(name, "p");
    assert_eq!(p.base_url, "https://h/v1");
    assert_eq!(ActiveProviderError::NotFound.message(), "No provider found. Please setup first.");
}

#[test]
fn active_proxy_reasons() {
    let mut c = empty();
    assert!(matches!(resolve_active_proxy(&c), Err(ActiveProxyError::NoneSelected)));
    c.current_proxy = Some("a".to_string());
    assert!(matches!(resolve_active_proxy(&c), Err(ActiveProxyError::NotFound)));
    let mut odd = proxy("h", 1, true);
    odd.platform = "litellm".to_string();
    c.ai_proxies.insert("a".to_string(), odd);
    assert!(matches!(resolve_active_proxy(&c), Err(ActiveProxyError::UnsupportedPlatform)));
    c.ai_proxies.insert("a".to_string(), proxy("h", 2, true));
    let a = resolve_active_proxy(&c).ok().unwrap();
    assert_eq!(a.name, "a");
    assert_eq!(a.config.port, 2);
}

#[test]
fn proxy_messages() {
    let p = proxy("h", 3000, false);
    assert_eq!(
        remote_proxy_warning("a", &p, "start").unwrap(),
        "Proxy a (platform: 9router) is remote proxy from another address cannot start locally"
    );
    assert!(remote_proxy_warning("a", &proxy("h", 1, true), "start").is_none());
    assert!(proxy_status_problem("a", &p, &Ok(true)).is_none());
    assert_eq!(
        proxy_status_problem("a", &p, &Ok(false)).unwrap(),
        "Proxy a (platform: 9router) is offline. Please run proxy before."
    );
    assert_eq!(
        proxy_status_problem("a", &p, &Err(CrustyError::AIProxyError("x".into()))).unwrap(),
        "Cannot check status of proxy a (platform: 9router) on port 3000. Please check log for details."
    );
    match handle_proxy_start("a", &p, &Ok(())) {
        Report::Info(m) => assert_eq!(m, "Proxy a (platform: 9router) is started"),
        r => panic!("{:?}", r),
    }
    match handle_proxy_stop("a", &p, &Err(CrustyError::ProcessError("x".into()))) {
        Report::Error(m) => assert_eq!(
            m,
            "Cannot stop proxy a (platform: 9router) on port 3000. Please check log for details."
        ),
        r => panic!("{:?}", r),
    }
}

#[test]
fn mode_switching() {
    let mut c = empty();
    assert_eq!(mode_menu_default(&c), 0);
    assert_eq!(mode_from_choice(0), RunMode::Provider);
    assert_eq!(mode_from_choice(1), RunMode::Proxy);
    let e = switch_mode(&mut c, RunMode::Proxy).unwrap_err();
    assert_eq!(msg(e), "No proxy configured. Please run 'crusty setup' first.");
    c.add_proxy("a".to_string(), proxy("h", 1, true)).unwrap();
    match switch_mode(&mut c, RunMode::Proxy).unwrap() {
        ModeSwitch::Switched(active) => assert_eq!(active.as_deref(), Some("a")),
        m => panic!("{:?}", m),
    }
    assert_eq!(mode_menu_default(&c), 1);
    assert!(matches!(switch_mode(&mut c, RunMode::Proxy).unwrap(), ModeSwitch::AlreadyActive));
    c.add_proxy("b".to_string(), proxy("h", 2, true)).unwrap();
    let lines = handle_mode_show(&c).unwrap();
    assert_eq!(
        lines,
        vec![
            "\n📍 Current Mode: proxy".to_string(),
            "   Active Proxy: a".to_string(),
            "   Available Proxies: a, b".to_string(),
        ]
    );
    assert!(handle_mode_show(&empty()).is_err());
}

fn answers(name: &str, idx: usize, url: &str, key: &str, model: &str) -> ProviderAnswers {
    ProviderAnswers {
        name: name.to_string(),
        type_index: idx,
        base_url: url.to_string(),
        api_key: key.to_string(),
        default_model: model.to_string(),
    }
}

#[test]
fn provider_answers() {
    assert_eq!(provider_type_choice(0), "openai");
    assert_eq!(provider_type_choice(1), "anthropic");
    assert_eq!(provider_type_choice(2), "custom");
    assert_eq!(msg(provider_from_answers(answers("", 0, "u", "k", "m")).unwrap_err()), "Provider name cannot be empty");
    assert_eq!(msg(provider_from_answers(answers("n", 0, "", "k", "m")).unwrap_err()), "Base URL cannot be empty");
    assert_eq!(msg(provider_from_answers(answers("n", 0, "u", "", "m")).unwrap_err()), "API Key cannot be empty");
    assert_eq!(msg(provider_from_answers(answers("n", 0, "u", "k", "")).unwrap_err()), "Default model cannot be empty");
    let (name, p) = provider_from_answers(answers("n", 1, "https://api.example.com", "k", "model-x")).unwrap();
    assert_eq!(name, "n");
    assert_eq!(p.provider_type, "anthropic");
    assert_eq!(p.base_url, "https://api.example.com/v1");
    assert_eq!(p.default_model.as_deref(), Some("model-x"));
}

#[test]
fn provider_list_switch_remove() {
    let mut c = empty();
    assert!(matches!(handle_provider_switch(&mut c, Some(0)), ProviderChoice::NoProviders));
    c.add_provider("p".to_string(), ProviderConfig::new("openai", "https://h", "k", None)).unwrap();
    c.add_provider("q".to_string(), ProviderConfig::new("custom", "http://l:1", "k", None)).unwrap();
    assert!(matches!(handle_provider_switch(&mut c, None), ProviderChoice::Cancelled));
    assert!(matches!(handle_provider_switch(&mut c, Some(2)), ProviderChoice::Cancelled));
    match handle_provider_switch(&mut c, Some(1)) {
        ProviderChoice::Done(n) => assert_eq!(n, "q"),
        r => panic!("{:?}", r),
    }
    assert_eq!(c.current_provider.as_deref(), Some("q"));
    let rows = handle_provider_list(&c);
    assert_eq!(rows[0], format!("   {:<17} {:<20} {:<50}", "p", "openai", "https://h/v1"));
    assert_eq!(rows[1], format!(" ➜ {:<17} {:<20} {:<50}", "q", "custom", "http://l:1/v1"));
    assert!(matches!(handle_provider_remove(&mut c, Some(1), false), ProviderChoice::Cancelled));
    match handle_provider_remove(&mut c, Some(1), true) {
        ProviderChoice::Done(n) => assert_eq!(n, "q"),
        r => panic!("{:?}", r),
    }
    assert_eq!(c.current_provider, None);
    assert_eq!(c.list_providers(), vec!["p".to_string()]);
}

#[test]
fn proxy_list_switch_remove_edit() {
    let mut c = empty();
    assert!(matches!(handle_proxy_switch(&mut c, Some(0)), ProxyChoice::NoProxies));
    c.add_proxy("a".to_string(), proxy("localhost", 20128, true)).unwrap();
    c.add_proxy("b".to_string(), proxy("remote.example", 8000, false)).unwrap();
    match handle_proxy_switch(&mut c, Some(1)) {
        ProxyChoice::Done(n) => assert_eq!(n, "b"),
        r => panic!("{:?}", r),
    }
    let rows = handle_proxy_list(&c);
    assert_eq!(
        rows[0],
        format!("   {:<17} {:<16} {:<18} {:<10} {:<16}", "a", "9router", "localhost", 20128, "crusty_combo")
    );
    assert_eq!(
        rows[1],
        format!(" ➜ {:<17} {:<16} {:<18} {:<10} {:<16}", "b", "9router", "remote.example", 8000, "crusty_combo")
    );

    assert_eq!(msg(check_new_proxy_name(&c, "  ").unwrap_err()), "Proxy name cannot be empty");
    assert_eq!(msg(check_new_proxy_name(&c, "a").unwrap_err()), "Proxy 'a' already exists");
    assert!(check_new_proxy_name(&c, "z").is_ok());
    assert!(check_proxy_rename(&c, "b", "b").is_ok());
    assert_eq!(msg(check_proxy_rename(&c, "b", "a").unwrap_err()), "Proxy 'a' already exists");

    apply_proxy_edit(&mut c, "b", "c".to_string(), proxy("other", 9, false));
    assert_eq!(c.current_proxy.as_deref(), Some("c"));
    assert!(c.find_proxy_by_id("b").is_none());
    assert_eq!(c.find_proxy_by_id("c").unwrap().port, 9);

    assert!(matches!(handle_proxy_remove(&mut c, Some(0), false), ProxyChoice::Cancelled));
    match handle_proxy_remove(&mut c, Some(1), true) {
        ProxyChoice::Done(n) => assert_eq!(n, "c"),
        r => panic!("{:?}", r),
    }
    assert_eq!(c.current_proxy.as_deref(), Some("a"));
}

#[test]
fn setup_wizard() {
    let mut c = initial_setup_config("C:\\Users\\me\\store.db");
    let s = c.store.as_ref().unwrap();
    assert_eq!(s.store_type, "sqlite");
    assert_eq!(s.uri, "sqlite:C:/Users/me/store.db?mode=rwc");
    assert_eq!(setup_platform_choice(0), Some(SetupPlatform::NineRouter));
    assert_eq!(setup_platform_choice(2), None);
    let p = setup_proxy_config(SetupPlatform::OmniRoute, true, "ignored".to_string(), 20128);
    assert_eq!(p.platform, "omniroute");
    assert_eq!(p.host, "127.0.0.1");
    assert_eq!(p.port, 20128);
    let p = setup_proxy_config(SetupPlatform::NineRouter, false, "r.example".to_string(), 1);
    assert_eq!(p.host, "r.example");
    assert_eq!(p.port, 8000);
    assert_eq!(p.current_model.as_deref(), Some("crusty_combo"));
    let mode = apply_proxy_setup(&mut c, "main".to_string(), p);
    assert_eq!(mode, RunMode::Proxy);
    c.set_mode(mode).unwrap();
    assert_eq!(c.get_mode().unwrap(), RunMode::Proxy);

    let mut c = initial_setup_config("/d/store.db");
    let mode = apply_provider_setup(&mut c, "p".to_string(), ProviderConfig::new("openai", "https://h", "k", None));
    c.set_mode(mode).unwrap();
    assert!(c.is_provider_mode().unwrap());
}

#[test]
fn chat_helpers() {
    let mut p = ProviderConfig::new("openai", "https://h", "k", None);
    assert!(chat_model_for_provider(&p).is_err());
    assert_eq!(start_model_for_provider(&p), "gpt-3.5-turbo");
    p.default_model = Some("gpt-4".to_string());
    assert_eq!(chat_model_for_provider(&p).unwrap(), "gpt-4");
    assert_eq!(start_model_for_provider(&p), "gpt-4");
    let b = banner_for_provider("gpt-4", "p", &p, "s1");
    assert_eq!((b.host.as_str(), b.port, b.proxy_platform.as_str()), ("api", 0, "openai"));
    let b = banner_for_proxy("m", "a", &proxy("h", 5, true), "s2");
    assert_eq!((b.host.as_str(), b.port, b.session_id.as_str()), ("h", 5, "s2"));
    let name = "p".to_string();
    let url = "https://h/v1".to_string();
    assert_eq!(
        provider_404_hint(RunMode::Provider, "HTTP status 404 Not Found", Some(&name), Some(&url), "gpt-4").unwrap(),
        "Provider 'p' returned 404. Check Base URL and model. Current base_url='https://h/v1', model='gpt-4'. For OpenAI-compatible APIs, base_url usually ends with '/v1'."
    );
    assert_eq!(
        provider_404_hint(RunMode::Provider, "404", None, None, "m").unwrap(),
        "Provider '<unknown>' returned 404. Check Base URL and model. Current base_url='<unknown>', model='m'. For OpenAI-compatible APIs, base_url usually ends with '/v1'."
    );
    assert!(provider_404_hint(RunMode::Proxy, "404", None, None, "m").is_none());
    assert!(provider_404_hint(RunMode::Provider, "500", None, None, "m").is_none());
}

use crusty::menus::{handle_start_menu, StartAction};

#[test]
fn start_menu_steps() {
    assert_eq!(handle_start_menu(Some(0)), Some(StartAction::Chat));
    assert_eq!(handle_start_menu(Some(1)), Some(StartAction::Config));
    assert_eq!(handle_start_menu(Some(2)), Some(StartAction::Menu));
    assert_eq!(handle_start_menu(None), None);
}

use crusty::active::install_check_problem;
use crusty::cli::chat::{chat_input_step, ChatInput};
use crusty::cli::setup::{setup_install_step, InstallStep};

#[test]
fn install_checks() {
    let p = proxy("localhost", 20128, true);
    assert_eq!(install_check_problem("main", &p, &Ok(true)), None);
    assert_eq!(install_check_problem("main", &p, &Ok(false)), None);
    assert_eq!(
        install_check_problem("main", &p, &Err(CrustyError::PackageError("npm".to_string()))),
        Some("Platform 9router (for main) not install. Please run crusty setup first.".to_string())
    );
    assert_eq!(setup_install_step(&Ok(false)), InstallStep::Install);
    assert_eq!(setup_install_step(&Ok(true)), InstallStep::Skip);
    assert_eq!(setup_install_step(&Err(CrustyError::PackageError("npm".to_string()))), InstallStep::Fail);
}

#[test]
fn chat_inputs() {
    assert!(matches!(chat_input_step(None), ChatInput::Stop));
    assert!(matches!(chat_input_step(Some("  \t".to_string())), ChatInput::Skip));
    assert!(matches!(chat_input_step(Some(" hi ".to_string())), ChatInput::Send(p) if p == " hi "));
}

use crusty::agent::{assistant_turn_message, user_turn_message};
use crusty::cli::proxy::proceed_after_status;
use crusty::cli::setup::setup_base_config;
use crusty::config::{PluginConfig, StoreConfig};
use crusty::memory::HistoryMessage;
use crusty::menus::{start_flow, StartFlow};

#[test]
fn setup_adds_to_saved_config() {
    let mut saved = empty();
    saved.add_proxy("old".to_string(), proxy("localhost", 1, true)).unwrap();
    let p = ProviderConfig::new("openai", "https://api.openai.com", "k", Some("m".to_string()));
    saved.add_provider("prov".to_string(), p).unwrap();
    saved.plugins.push(PluginConfig { name: "T".to_string(), id: "t".to_string(), file: "f".to_string(), features: None });
    saved.store = Some(StoreConfig { store_type: "sqlite".to_string(), uri: "sqlite:/mine.db?mode=rwc".to_string() });
    let mut c = setup_base_config(Some(saved), "/data/store.db");
    assert_eq!(apply_proxy_setup(&mut c, "new".to_string(), proxy("localhost", 2, true)), RunMode::Proxy);
    assert_eq!(c.list_proxies(), vec!["old".to_string(), "new".to_string()]);
    assert_eq!(c.current_proxy.as_deref(), Some("new"));
    assert_eq!(c.list_providers(), vec!["prov".to_string()]);
    assert_eq!(c.plugins.len(), 1);
    assert_eq!(c.store.as_ref().map(|s| s.uri.as_str()), Some("sqlite:/mine.db?mode=rwc"));

    let fresh = setup_base_config(None, "C:\\data\\store.db");
    assert!(fresh.ai_proxies.is_empty() && fresh.providers.is_empty() && fresh.plugins.is_empty());
    assert_eq!(fresh.store.as_ref().map(|s| s.uri.as_str()), Some("sqlite:C:/data/store.db?mode=rwc"));

    let mut no_store = empty();
    no_store.add_proxy("x".to_string(), proxy("localhost", 3, true)).unwrap();
    let c = setup_base_config(Some(no_store), "/d/s.db");
    assert_eq!(c.store.as_ref().map(|s| s.uri.as_str()), Some("sqlite:/d/s.db?mode=rwc"));
    assert_eq!(c.list_proxies(), vec!["x".to_string()]);
}

#[test]
fn chat_turn_messages_and_start_steps() {
    assert!(matches!(user_turn_message("q"), HistoryMessage::User(p) if p == vec![Some("q".to_string())]));
    assert!(matches!(assistant_turn_message("a".to_string()), HistoryMessage::Assistant(p) if p == vec![Some("a".to_string())]));
    assert_eq!(start_flow(true), StartFlow::ChatOnce);
    assert_eq!(start_flow(false), StartFlow::Menu);
    assert!(proceed_after_status(Ok(false)).is_ok());
    assert!(proceed_after_status(Ok(true)).is_ok());
    assert!(matches!(proceed_after_status(Err(CrustyError::AIProxyError("dns".to_string()))), Err(CrustyError::AIProxyError(m)) if m == "dns"));
}
