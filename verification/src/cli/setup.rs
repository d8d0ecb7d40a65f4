//! The setup wizard: the configuration it starts from and what each answer adds to it.
use vstd::prelude::*;

use crate::config::{AIProxyConfig, AppConfig, ConfigView, ProxyView, RunMode, StoreConfig, StoreView};
use crate::names::{assoc_insert, lemma_insert_distinct, NameMap};
use crate::provider::ProviderConfig;
use crate::store::{rwc_suffix, sqlite_prefix};
use crate::text::{append_chars, chars_of, replace_char, replace_char_seq, string_of};

verus! {

/// The SQLite URI the wizard writes for its database file (the path is not trimmed).
pub open spec fn setup_store_uri(db_path: Seq<char>) -> Seq<char> {
    sqlite_prefix() + replace_char_seq(db_path, '\\', '/') + rwc_suffix()
}

/// The store the wizard configures: SQLite at `db_path`.
pub fn setup_store_config(db_path: &str) -> (s: StoreConfig)
    ensures
        s@.store_type == "sqlite"@,
        s@.uri == setup_store_uri(db_path@),
{
    let mut v = chars_of("sqlite:");
    let p = chars_of(db_path);
    let body = replace_char(&p, '\\', '/');
    append_chars(&mut v, &body);
    let suffix = chars_of("?mode=rwc");
    append_chars(&mut v, &suffix);
    proof {
        reveal_strlit("sqlite:");
        reveal_strlit("?mode=rwc");
        assert(v@ =~= setup_store_uri(db_path@));
    }
    StoreConfig { store_type: "sqlite".to_owned(), uri: string_of(&v) }
}

/// The configuration the wizard starts from: no mode, proxies, providers or plugins, and
/// a SQLite store at `db_path`.
pub fn initial_setup_config(db_path: &str) -> (c: AppConfig)
    ensures
        c@.mode is None,
        c@.current_proxy is None,
        c@.proxies.len() == 0,
        c@.current_provider is None,
        c@.providers.len() == 0,
        c@.plugins.len() == 0,
        c@.store matches Some(s) && s.store_type == "sqlite"@ && s.uri == setup_store_uri(db_path@),
{
    AppConfig {
        mode: None,
        current_proxy: None,
        ai_proxies: NameMap::new(),
        current_provider: None,
        providers: NameMap::new(),
        plugins: Vec::new(),
        store: Some(setup_store_config(db_path)),
    }
}

/// The store the wizard configures for `db_path`.
pub open spec fn setup_store_view(db_path: Seq<char>) -> StoreView {
    StoreView { store_type: "sqlite"@, uri: setup_store_uri(db_path) }
}

/// The configuration the wizard adds to: the configuration already saved, if any, keeping
/// its proxies, providers, plugins, selections, mode and store (a store at `db_path` when it
/// has none); else a fresh configuration with a store at `db_path`.
pub open spec fn setup_base(existing: Option<ConfigView>, db_path: Seq<char>) -> ConfigView {
    match existing {
        Some(c) => ConfigView {
            store: match c.store {
                Some(s) => Some(s),
                None => Some(setup_store_view(db_path)),
            },
            ..c
        },
        None => ConfigView {
            mode: None,
            current_proxy: None,
            proxies: Seq::empty(),
            current_provider: None,
            providers: Seq::empty(),
            plugins: Seq::empty(),
            store: Some(setup_store_view(db_path)),
        },
    }
}

/// The configuration the wizard starts from: the saved one (`existing`), with a store at
/// `db_path` added when it has none, or a fresh one when nothing is saved yet.
pub fn setup_base_config(existing: Option<AppConfig>, db_path: &str) -> (c: AppConfig)
    ensures
        c@ == setup_base(
            match existing {
                Some(e) => Some(e@),
                None => None,
            },
            db_path@,
        ),
{
    match existing {
        Some(mut e) => {
            if e.store.is_none() {
                e.store = Some(setup_store_config(db_path));
            }
            e
        },
        None => {
            let c = initial_setup_config(db_path);
            assert(c@.proxies =~= Seq::<(Seq<char>, ProxyView)>::empty());
            assert(c@.providers =~= Seq::<(Seq<char>, crate::provider::ProviderView)>::empty());
            assert(c@.plugins =~= Seq::<crate::config::PluginView>::empty());
            c
        },
    }
}

/// Stores the provider the wizard set up under `name` and makes it active; the wizard then
/// runs in provider mode.
pub fn apply_provider_setup(config: &mut AppConfig, name: String, provider: ProviderConfig) -> (m: RunMode)
    ensures
        m == RunMode::Provider,
        final(config)@ == (ConfigView {
            providers: assoc_insert(old(config)@.providers, name@, provider@),
            current_provider: Some(name@),
            ..old(config)@
        }),
{
    let name_copy = name.clone();
    config.providers.insert(name, provider);
    config.current_provider = Some(name_copy);
    RunMode::Provider
}

/// Stores the proxy the wizard set up under `name` and makes it active; the wizard then
/// runs in proxy mode.
pub fn apply_proxy_setup(config: &mut AppConfig, name: String, proxy: AIProxyConfig) -> (m: RunMode)
    ensures
        m == RunMode::Proxy,
        final(config)@ == (ConfigView {
            proxies: assoc_insert(old(config)@.proxies, name@, proxy@),
            current_proxy: Some(name@),
            ..old(config)@
        }),
{
    let name_copy = name.clone();
    config.ai_proxies.insert(name, proxy);
    config.current_proxy = Some(name_copy);
    RunMode::Proxy
}

/// The proxy platforms the wizard offers.
#[derive(Debug, Clone, Copy, PartialEq, Eq, Structural)]
pub enum SetupPlatform {
    NineRouter,
    OmniRoute,
}

/// The platform chosen in the wizard's menu ("9router", "omniroute").
pub fn setup_platform_choice(i: usize) -> (p: Option<SetupPlatform>)
    ensures
        p == (if i == 0 {
            Some(SetupPlatform::NineRouter)
        } else if i == 1 {
            Some(SetupPlatform::OmniRoute)
        } else {
            None
        }),
{
    if i == 0 {
        Some(SetupPlatform::NineRouter)
    } else if i == 1 {
        Some(SetupPlatform::OmniRoute)
    } else {
        None
    }
}

/// The proxy the wizard configures: a local one at the platform's local host
/// (`localhost` for 9router, `127.0.0.1` for OmniRoute) and the typed port, a remote one at
/// the typed host and port 8000; no API key, and the `crusty_combo` model.
pub open spec fn setup_proxy(platform: SetupPlatform, is_local: bool, host: Seq<char>, port: u64) -> ProxyView {
    ProxyView {
        platform: match platform {
            SetupPlatform::NineRouter => "9router"@,
            SetupPlatform::OmniRoute => "omniroute"@,
        },
        is_local: is_local,
        host: if is_local {
            match platform {
                SetupPlatform::NineRouter => "localhost"@,
                SetupPlatform::OmniRoute => "127.0.0.1"@,
            }
        } else {
            host
        },
        port: if is_local {
            port
        } else {
            8000
        },
        api_key: None,
        current_model: Some("crusty_combo"@),
    }
}

/// Builds the proxy the wizard configures from its answers.
pub fn setup_proxy_config(platform: SetupPlatform, is_local: bool, host: String, port: u64) -> (c: AIProxyConfig)
    ensures
        c@ == setup_proxy(platform, is_local, host@, port),
        is_local ==> c.port == port,
        !is_local ==> c.port == 8000 && c.host@ == host@,
        c.is_local == is_local,
        c.platform@ == (match platform {
            SetupPlatform::NineRouter => "9router"@,
            SetupPlatform::OmniRoute => "omniroute"@,
        }),
{
    let host = if is_local {
        match platform {
            SetupPlatform::NineRouter => "localhost".to_owned(),
            SetupPlatform::OmniRoute => "127.0.0.1".to_owned(),
        }
    } else {
        host
    };
    AIProxyConfig {
        platform: match platform {
            SetupPlatform::NineRouter => "9router".to_owned(),
            SetupPlatform::OmniRoute => "omniroute".to_owned(),
        },
        is_local,
        host,
        port: if is_local {
            port
        } else {
            8000
        },
        api_key: None,
        current_model: Some("crusty_combo".to_owned()),
    }
}

/// What the wizard set up can be chosen as the running mode, and its choice is a
/// configured entry.
pub proof fn law_setup_mode_available(c: ConfigView, name: Seq<char>, proxy: ProxyView, provider: crate::provider::ProviderView)
    requires
        crate::names::distinct_keys(c.proxies),
        crate::names::distinct_keys(c.providers),
    ensures
        (ConfigView {
            proxies: assoc_insert(c.proxies, name, proxy),
            current_proxy: Some(name),
            ..c
        }).mode_available(RunMode::Proxy),
        (ConfigView {
            proxies: assoc_insert(c.proxies, name, proxy),
            current_proxy: Some(name),
            ..c
        }).proxy_selection_ok(),
        (ConfigView {
            providers: assoc_insert(c.providers, name, provider),
            current_provider: Some(name),
            ..c
        }).mode_available(RunMode::Provider),
        (ConfigView {
            providers: assoc_insert(c.providers, name, provider),
            current_provider: Some(name),
            ..c
        }).provider_selection_ok(),
{
    lemma_insert_distinct(c.proxies, name, proxy);
    lemma_insert_distinct(c.providers, name, provider);
}


/// What the wizard does after checking whether the proxy's package is installed.
#[derive(Debug, Clone, Copy, PartialEq, Eq, Structural)]
pub enum InstallStep {
    /// Not installed: install it.
    Install,
    /// Installed: nothing to do.
    Skip,
    /// The check failed: the setup fails.
    Fail,
}

/// The step after the installation check: install a missing package, skip an installed
/// one, fail when the check failed.
pub fn setup_install_step(installed: &Result<bool, crate::error::CrustyError>) -> (s: InstallStep)
    ensures
        s == (match installed {
            Ok(true) => InstallStep::Skip,
            Ok(false) => InstallStep::Install,
            Err(_) => InstallStep::Fail,
        }),
{
    match installed {
        Ok(false) => InstallStep::Install,
        Ok(true) => InstallStep::Skip,
        Err(_) => InstallStep::Fail,
    }
}


/// Running the wizard again adds to what was configured: after setting up a proxy (or a
/// provider) under `name`, every other proxy and every provider (or every other provider and
/// every proxy), the plugins and the store are as they were saved.
pub proof fn law_setup_keeps_existing(
    c: ConfigView,
    db_path: Seq<char>,
    name: Seq<char>,
    proxy: ProxyView,
    provider: crate::provider::ProviderView,
    other: Seq<char>,
)
    requires
        crate::names::distinct_keys(c.proxies),
        crate::names::distinct_keys(c.providers),
        other != name,
        c.store is Some,
    ensures
        ({
            let after = ConfigView {
                proxies: assoc_insert(setup_base(Some(c), db_path).proxies, name, proxy),
                current_proxy: Some(name),
                ..setup_base(Some(c), db_path)
            };
            &&& after.proxy(name) == Some(proxy)
            &&& after.proxy(other) == c.proxy(other)
            &&& after.providers == c.providers
            &&& after.plugins == c.plugins
            &&& after.store == c.store
        }),
        ({
            let after = ConfigView {
                providers: assoc_insert(setup_base(Some(c), db_path).providers, name, provider),
                current_provider: Some(name),
                ..setup_base(Some(c), db_path)
            };
            &&& after.provider(name) == Some(provider)
            &&& after.provider(other) == c.provider(other)
            &&& after.proxies == c.proxies
            &&& after.plugins == c.plugins
            &&& after.store == c.store
        }),
{
    crate::names::law_lookup_after_insert(c.proxies, name, proxy);
    crate::names::law_lookup_other_after_insert(c.proxies, name, other, proxy);
    crate::names::law_lookup_after_insert(c.providers, name, provider);
    crate::names::law_lookup_other_after_insert(c.providers, name, other, provider);
}


/// The proxy the wizard configures runs where the user said: a local one on the port the
/// user typed, whatever the platform; a remote one at the host the user typed, on port 8000;
/// and it is recorded under the platform chosen, local or remote, with the `crusty_combo`
/// model and no key.
pub proof fn law_setup_proxy_answers(platform: SetupPlatform, is_local: bool, host: Seq<char>, port: u64)
    ensures
        is_local ==> setup_proxy(platform, is_local, host, port).port == port,
        !is_local ==> setup_proxy(platform, is_local, host, port).port == 8000,
        !is_local ==> setup_proxy(platform, is_local, host, port).host == host,
        setup_proxy(platform, is_local, host, port).is_local == is_local,
        platform == SetupPlatform::NineRouter ==> setup_proxy(platform, is_local, host, port).platform
            == "9router"@,
        platform == SetupPlatform::OmniRoute ==> setup_proxy(platform, is_local, host, port).platform
            == "omniroute"@,
        setup_proxy(platform, is_local, host, port).api_key is None,
        setup_proxy(platform, is_local, host, port).current_model == Some("crusty_combo"@),
{
}

} // verus!
