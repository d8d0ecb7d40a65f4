use crusty::config::{AppConfig, PluginConfig};
use crusty::error::CrustyError;
use crusty::names::NameMap;
use crusty::plugin::{
    chat_plugin_ids, handle_plugin_list, load_all_plugin, missing_binary_error, plugin_dir_parts,
    register_plugin, remove_plugin_entry, PlatformInfo, PluginMetadata, PluginRegistry,
};

fn plugin(id: &str, features: Option<Vec<&str>>) -> PluginConfig {
    PluginConfig {
        name: format!("{} plugin", id),
        id: id.to_string(),
        file: format!("/data/{}/lib.so", id),
        features: features.map(|f| f.into_iter().map(|s| s.to_string()).collect()),
    }
}

fn meta() -> PluginMetadata {
    PluginMetadata {
        name: "Telegram".to_string(),
        id: "smtdfc/telegram".to_string(),
        version: Some("0.1.0".to_string()),
        platforms: vec![
            PlatformInfo { os: "windows".into(), arch: "x86_64".into(), file: "a.dll".into() },
            PlatformInfo { os: "linux".into(), arch: "x86_64".into(), file: "bin/a.so".into() },
            PlatformInfo { os: "linux".into(), arch: "x86_64".into(), file: "other.so".into() },
        ],
        features: Some(vec!["chat".to_string()]),
    }
}

#[test]
fn compatible_binary_is_first_match() {
    let m = meta();
    assert_eq!(m.find_compatible_binary("linux", "x86_64").map(|s| s.as_str()), Some("bin/a.so"));
    assert_eq!(m.find_compatible_binary("macos", "aarch64"), None);
    match m.unsupported_error() {
        CrustyError::PluginError(s) => assert_eq!(
            s,
            "The 'Telegram' plugin is not supported on this operating system or architecture! "
        ),
        e => panic!("{:?}", e),
    }
    match missing_binary_error("bin/a.so") {
        CrustyError::PluginError(s) => assert_eq!(s, "The binary file 'bin/a.so' is declared but does not exist!"),
        e => panic!("{:?}", e),
    }
    let e = m.plugin_entry("/d/bin/a.so".to_string());
    assert_eq!(e.id, "smtdfc/telegram");
    assert_eq!(e.features, Some(vec!["chat".to_string()]));
}

#[test]
fn dir_parts_split_like_std() {
    for id in ["smtdfc/telegram", "", "a//b", "/x/", "plain"] {
        let expected: Vec<String> = id.split('/').map(|s| s.to_string()).collect();
        assert_eq!(plugin_dir_parts(id), expected);
    }
}

#[test]
fn registry_and_chat_hooks() {
    let mut r = PluginRegistry::new();
    let plugins = vec![plugin("a", Some(vec!["chat"])), plugin("b", None), plugin("c", Some(vec!["x", "chat"]))];
    load_all_plugin(&mut r, &plugins);
    assert_eq!(r.plugins.len(), 3);
    assert_eq!(chat_plugin_ids(&r), vec!["a".to_string(), "c".to_string()]);
    register_plugin(&mut r, "a", &plugin("a", Some(vec!["other"])));
    assert_eq!(r.plugins.len(), 3);
    assert_eq!(chat_plugin_ids(&r), vec!["c".to_string()]);
}

#[test]
fn remove_and_list_plugins() {
    let mut c = AppConfig {
        mode: None,
        current_proxy: None,
        ai_proxies: NameMap::new(),
        current_provider: None,
        providers: NameMap::new(),
        plugins: vec![plugin("a", None), plugin("b", None), plugin("a", None)],
        store: None,
    };
    remove_plugin_entry(&mut c, "a");
    assert_eq!(c.plugins.len(), 1);
    assert_eq!(c.plugins[0].id, "b");
    let rows = handle_plugin_list(&c);
    assert_eq!(rows, vec![format!("{:<24} {:<24} {:<48}", "b plugin", "b", "/data/b/lib.so")]);
}

use crusty::plugin::plugin_choices;

#[test]
fn plugin_menu_entries() {
    let mut c = AppConfig {
        mode: None,
        current_proxy: None,
        ai_proxies: NameMap::new(),
        current_provider: None,
        providers: NameMap::new(),
        plugins: vec![plugin("a/b", None), plugin("c", Some(vec!["chat"]))],
        store: None,
    };
    assert_eq!(plugin_choices(&c), vec!["a/b plugin (a/b)", "c plugin (c)"]);
    remove_plugin_entry(&mut c, "a/b");
    assert_eq!(plugin_choices(&c), vec!["c plugin (c)"]);
}
