//! The application configuration: proxies, providers, the run mode, plugins and the store.
use vstd::prelude::*;

use crate::error::{is_config_error, join3, CrustyError};
use crate::names::{
    assoc_insert, assoc_remove, distinct_keys, first_name, has_key, index_of_key, keys_of,
    law_lookup_after_insert, law_lookup_after_remove, law_lookup_other_after_insert,
    law_lookup_other_after_remove, law_remove_undoes_insert, lemma_index_of_key, lemma_insert_distinct, lemma_remove_distinct,
    lookup, opt_view, NameMap,
};
use crate::provider::{ProviderConfig, ProviderView, provider_is_valid};
use crate::text::{copy_opt_string, is_suffix, opt_text, texts_of};

verus! {

/// How the agent reaches a model: through a proxy/router, or directly through a provider.
#[derive(Debug, Clone, Copy, PartialEq, Eq, Structural)]
pub enum RunMode {
    Proxy,
    Provider,
}

/// The name under which each mode is written.
pub open spec fn run_mode_name(m: RunMode) -> Seq<char> {
    match m {
        RunMode::Proxy => "proxy"@,
        RunMode::Provider => "provider"@,
    }
}

impl RunMode {
    /// The name under which the mode is written (`proxy` or `provider`).
    pub fn to_string(&self) -> (s: String)
        ensures
            s@ == run_mode_name(*self),
    {
        match self {
            RunMode::Proxy => "proxy".to_owned(),
            RunMode::Provider => "provider".to_owned(),
        }
    }
}

/// An AI proxy/router: where it runs and which model it serves.
#[derive(Debug)]
pub struct AIProxyConfig {
    pub platform: String,
    pub is_local: bool,
    pub host: String,
    pub port: u64,
    pub api_key: Option<String>,
    pub current_model: Option<String>,
}

/// The text of a proxy configuration.
pub struct ProxyView {
    pub platform: Seq<char>,
    pub is_local: bool,
    pub host: Seq<char>,
    pub port: u64,
    pub api_key: Option<Seq<char>>,
    pub current_model: Option<Seq<char>>,
}

impl View for AIProxyConfig {
    type V = ProxyView;

    open spec fn view(&self) -> ProxyView {
        ProxyView {
            platform: self.platform@,
            is_local: self.is_local,
            host: self.host@,
            port: self.port,
            api_key: opt_text(self.api_key),
            current_model: opt_text(self.current_model),
        }
    }
}

impl Clone for AIProxyConfig {
    /// A copy with the same text.
    fn clone(&self) -> (r: Self)
        ensures
            r@ == self@,
    {
        AIProxyConfig {
            platform: self.platform.clone(),
            is_local: self.is_local,
            host: self.host.clone(),
            port: self.port,
            api_key: copy_opt_string(&self.api_key),
            current_model: copy_opt_string(&self.current_model),
        }
    }
}

/// An installed plugin.
#[derive(Debug)]
pub struct PluginConfig {
    pub name: String,
    pub id: String,
    /// Where the plugin's library was installed.
    pub file: String,
    /// The features that the plugin declared (such as `chat`).
    pub features: Option<Vec<String>>,
}

/// The text of a plugin entry.
pub struct PluginView {
    pub name: Seq<char>,
    pub id: Seq<char>,
    pub file: Seq<char>,
    pub features: Option<Seq<Seq<char>>>,
}

impl View for PluginConfig {
    type V = PluginView;

    open spec fn view(&self) -> PluginView {
        PluginView {
            name: self.name@,
            id: self.id@,
            file: self.file@,
            features: match self.features {
                Some(f) => Some(texts_of(f@)),
                None => None,
            },
        }
    }
}

/// A copy of a list of strings with the same texts.
pub fn copy_strings(v: &Vec<String>) -> (r: Vec<String>)
    ensures
        texts_of(r@) == texts_of(v@),
{
    let mut r: Vec<String> = Vec::new();
    let mut i: usize = 0;
    while i < v.len()
        invariant
            i <= v.len(),
            texts_of(r@) == texts_of(v@.take(i as int)),
        decreases v.len() - i,
    {
        let s = v[i].clone();
        let ghost prev = r@;
        r.push(s);
        assert(texts_of(r@) =~= texts_of(prev).push(s@));
        assert(texts_of(v@.take(i + 1)) =~= texts_of(v@.take(i as int)).push(v@[i as int]@));
        i = i + 1;
    }
    assert(v@.take(v.len() as int) =~= v@);
    r
}

impl Clone for PluginConfig {
    /// A copy with the same text.
    fn clone(&self) -> (r: Self)
        ensures
            r@ == self@,
    {
        let features = match &self.features {
            Some(f) => Some(copy_strings(f)),
            None => None,
        };
        PluginConfig {
            name: self.name.clone(),
            id: self.id.clone(),
            file: self.file.clone(),
            features,
        }
    }
}

/// The proxy section of the single-proxy configuration file format.
#[derive(Debug, Clone, Copy, PartialEq, Eq, Structural)]
pub struct ProxyConfig {
    pub port: i64,
}

/// Where the agent's memory is kept.
#[derive(Debug)]
pub struct StoreConfig {
    /// The kind of database (`sqlite`).
    pub store_type: String,
    /// The database's connection URI.
    pub uri: String,
}

/// The text of a store configuration.
pub struct StoreView {
    pub store_type: Seq<char>,
    pub uri: Seq<char>,
}

impl View for StoreConfig {
    type V = StoreView;

    open spec fn view(&self) -> StoreView {
        StoreView { store_type: self.store_type@, uri: self.uri@ }
    }
}

impl Clone for StoreConfig {
    /// A copy with the same text.
    fn clone(&self) -> (r: Self)
        ensures
            r@ == self@,
    {
        StoreConfig { store_type: self.store_type.clone(), uri: self.uri.clone() }
    }
}

/// The application configuration.
pub struct AppConfig {
    /// Current running mode (proxy or provider).
    pub mode: Option<RunMode>,
    /// The active proxy's name.
    pub current_proxy: Option<String>,
    /// The configured proxies, by name.
    pub ai_proxies: NameMap<AIProxyConfig>,
    /// The active provider's name.
    pub current_provider: Option<String>,
    /// The configured OpenAI-compatible providers, by name.
    pub providers: NameMap<ProviderConfig>,
    /// The installed plugins.
    pub plugins: Vec<PluginConfig>,
    /// Where the agent's memory is kept.
    pub store: Option<StoreConfig>,
}

/// The content of a configuration.
pub struct ConfigView {
    pub mode: Option<RunMode>,
    pub current_proxy: Option<Seq<char>>,
    pub proxies: Seq<(Seq<char>, ProxyView)>,
    pub current_provider: Option<Seq<char>>,
    pub providers: Seq<(Seq<char>, ProviderView)>,
    pub plugins: Seq<PluginView>,
    pub store: Option<StoreView>,
}

impl View for AppConfig {
    type V = ConfigView;

    open spec fn view(&self) -> ConfigView {
        ConfigView {
            mode: self.mode,
            current_proxy: opt_text(self.current_proxy),
            proxies: self.ai_proxies@,
            current_provider: opt_text(self.current_provider),
            providers: self.providers@,
            plugins: self.plugins@.map_values(|p: PluginConfig| p@),
            store: opt_view(self.store),
        }
    }
}

/// `Proxy '<name>' not found`
pub open spec fn proxy_not_found(name: Seq<char>) -> Seq<char> {
    "Proxy '"@ + name + "' not found"@
}

/// `Provider '<name>' not found`
pub open spec fn provider_not_found(name: Seq<char>) -> Seq<char> {
    "Provider '"@ + name + "' not found"@
}

/// The refusal of an invalid provider.
pub open spec fn invalid_provider_text() -> Seq<char> {
    "Provider configuration is invalid (missing base_url or api_key)"@
}

/// The answer when no mode is chosen.
pub open spec fn no_mode_text() -> Seq<char> {
    "No mode selected. Please run 'crusty mode switch' to choose between 'proxy' and 'provider' mode."@
}

/// The refusal of a mode whose configuration is missing.
pub open spec fn mode_unavailable_text(m: RunMode) -> Seq<char> {
    match m {
        RunMode::Proxy => "No proxy configured. Please run 'crusty setup' first."@,
        RunMode::Provider => "No provider configured. Please run 'crusty provider add' first."@,
    }
}

impl ConfigView {
    /// The proxy configured under `name`.
    pub open spec fn proxy(self, name: Seq<char>) -> Option<ProxyView> {
        lookup(self.proxies, name)
    }

    /// The provider configured under `name`.
    pub open spec fn provider(self, name: Seq<char>) -> Option<ProviderView> {
        lookup(self.providers, name)
    }

    /// The active proxy's configuration.
    pub open spec fn active_proxy(self) -> Option<ProxyView> {
        match self.current_proxy {
            Some(n) => self.proxy(n),
            None => None,
        }
    }

    /// The active provider's configuration.
    pub open spec fn active_provider(self) -> Option<ProviderView> {
        match self.current_provider {
            Some(n) => self.provider(n),
            None => None,
        }
    }

    /// The configuration with `p` stored under `name`; when no proxy was active, the first
    /// configured one becomes active.
    pub open spec fn with_proxy_added(self, name: Seq<char>, p: ProxyView) -> ConfigView {
        let proxies = assoc_insert(self.proxies, name, p);
        ConfigView {
            proxies: proxies,
            current_proxy: if self.current_proxy is None {
                first_name(proxies)
            } else {
                self.current_proxy
            },
            ..self
        }
    }

    /// The configuration without the proxy `name`; if it was active, the first remaining
    /// proxy (if any) becomes active.
    pub open spec fn with_proxy_removed(self, name: Seq<char>) -> ConfigView {
        let proxies = assoc_remove(self.proxies, name);
        ConfigView {
            proxies: proxies,
            current_proxy: if self.current_proxy == Some(name) {
                first_name(proxies)
            } else {
                self.current_proxy
            },
            ..self
        }
    }

    /// The configuration with another active proxy.
    pub open spec fn with_current_proxy(self, name: Option<Seq<char>>) -> ConfigView {
        ConfigView { current_proxy: name, ..self }
    }

    /// The configuration with `p` stored under `name`.
    pub open spec fn with_provider_added(self, name: Seq<char>, p: ProviderView) -> ConfigView {
        ConfigView { providers: assoc_insert(self.providers, name, p), ..self }
    }

    /// The configuration without the provider `name`; if it was active, none is.
    pub open spec fn with_provider_removed(self, name: Seq<char>) -> ConfigView {
        ConfigView {
            providers: assoc_remove(self.providers, name),
            current_provider: if self.current_provider == Some(name) {
                None
            } else {
                self.current_provider
            },
            ..self
        }
    }

    /// The configuration with another active provider.
    pub open spec fn with_current_provider(self, name: Option<Seq<char>>) -> ConfigView {
        ConfigView { current_provider: name, ..self }
    }

    /// The configuration running in mode `m`.
    pub open spec fn with_mode(self, m: RunMode) -> ConfigView {
        ConfigView { mode: Some(m), ..self }
    }

    /// Mode `m` can be chosen: something is active and configured for it.
    pub open spec fn mode_available(self, m: RunMode) -> bool {
        match m {
            RunMode::Proxy => self.current_proxy is Some && self.proxies.len() > 0,
            RunMode::Provider => self.current_provider is Some && self.providers.len() > 0,
        }
    }
}

impl AppConfig {
    /// The file that holds the configuration, `config.json` in `config_dir` (for a verbatim
    /// Windows directory, `\\?\...`, the path is normalised as a whole and left open here).
    pub fn get_config_path(config_dir: &str) -> (p: String)
        ensures
            !crate::paths::verbatim_path(config_dir@) ==> {
                &&& config_dir@.is_prefix_of(p@)
                &&& is_suffix("config.json"@, p@)
                &&& config_dir@.len() + 11 <= p@.len() <= config_dir@.len() + 12
            },
    {
        proof {
            reveal_strlit("config.json");
        }
        crate::paths::join_path(config_dir, "config.json")
    }

    /// The proxy configured under `name`.
    pub fn find_proxy_by_id(&self, name: &str) -> (r: Option<AIProxyConfig>)
        ensures
            opt_view(r) == self@.proxy(name@),
    {
        match self.ai_proxies.get(name) {
            Some(p) => Some(p.clone()),
            None => None,
        }
    }

    /// The active proxy's configuration.
    pub fn get_current_proxy(&self) -> (r: Option<AIProxyConfig>)
        ensures
            opt_view(r) == self@.active_proxy(),
    {
        match &self.current_proxy {
            Some(name) => self.find_proxy_by_id(name.as_str()),
            None => None,
        }
    }

    /// Makes `name` the active proxy; a name that is not configured is refused.
    pub fn set_current_proxy(&mut self, name: Option<String>) -> (r: Result<(), CrustyError>)
        ensures
            (if name is Some && !has_key(old(self)@.proxies, name->0@) {
                &&& r matches Err(e) && is_config_error(e, proxy_not_found(name->0@))
                &&& final(self)@ == old(self)@
            } else {
                &&& r is Ok
                &&& final(self)@ == old(self)@.with_current_proxy(opt_text(name))
            }),
    {
        if let Some(proxy_name) = &name {
            if !self.ai_proxies.contains_key(proxy_name.as_str()) {
                return Err(CrustyError::ConfigError(join3("Proxy '", proxy_name.as_str(), "' not found")));
            }
        }
        self.current_proxy = name;
        Ok(())
    }

    /// Stores `config` under `name`; when no proxy is active, the first one becomes active.
    pub fn add_proxy(&mut self, name: String, config: AIProxyConfig) -> (r: Result<(), CrustyError>)
        ensures
            r is Ok,
            final(self)@ == old(self)@.with_proxy_added(name@, config@),
    {
        self.ai_proxies.insert(name, config);
        if self.current_proxy.is_none() && !self.ai_proxies.is_empty() {
            self.current_proxy = self.ai_proxies.first_key();
        }
        Ok(())
    }

    /// Removes the proxy `name`; if it was active, the first remaining one becomes active.
    pub fn remove_proxy(&mut self, name: &str) -> (r: Result<(), CrustyError>)
        ensures
            r is Ok,
            final(self)@ == old(self)@.with_proxy_removed(name@),
    {
        self.ai_proxies.remove(name);
        let was_current = match &self.current_proxy {
            Some(current) => crate::text::same_text(current, name),
            None => false,
        };
        if was_current {
            self.current_proxy = self.ai_proxies.first_key();
        }
        Ok(())
    }

    /// The names of the configured proxies.
    pub fn list_proxies(&self) -> (r: Vec<String>)
        ensures
            r@.map_values(|s: String| s@) == keys_of(self@.proxies),
    {
        self.ai_proxies.keys()
    }

    /// The provider configured under `name`.
    pub fn find_provider_by_id(&self, name: &str) -> (r: Option<ProviderConfig>)
        ensures
            opt_view(r) == self@.provider(name@),
    {
        match self.providers.get(name) {
            Some(p) => Some(p.clone()),
            None => None,
        }
    }

    /// The active provider's configuration.
    pub fn get_current_provider(&self) -> (r: Option<ProviderConfig>)
        ensures
            opt_view(r) == self@.active_provider(),
    {
        match &self.current_provider {
            Some(name) => self.find_provider_by_id(name.as_str()),
            None => None,
        }
    }

    /// Makes `name` the active provider; a name that is not configured is refused.
    pub fn set_current_provider(&mut self, name: Option<String>) -> (r: Result<(), CrustyError>)
        ensures
            (if name is Some && !has_key(old(self)@.providers, name->0@) {
                &&& r matches Err(e) && is_config_error(e, provider_not_found(name->0@))
                &&& final(self)@ == old(self)@
            } else {
                &&& r is Ok
                &&& final(self)@ == old(self)@.with_current_provider(opt_text(name))
            }),
    {
        if let Some(provider_name) = &name {
            if !self.providers.contains_key(provider_name.as_str()) {
                return Err(
                    CrustyError::ConfigError(join3("Provider '", provider_name.as_str(), "' not found")),
                );
            }
        }
        self.current_provider = name;
        Ok(())
    }

    /// Stores a valid provider under `name`; an invalid one is refused.
    pub fn add_provider(&mut self, name: String, config: ProviderConfig) -> (r: Result<(), CrustyError>)
        ensures
            (if !provider_is_valid(config@) {
                &&& r matches Err(e) && is_config_error(e, invalid_provider_text())
                &&& final(self)@ == old(self)@
            } else {
                &&& r is Ok
                &&& final(self)@ == old(self)@.with_provider_added(name@, config@)
            }),
    {
        if !config.is_valid() {
            return Err(
                CrustyError::config("Provider configuration is invalid (missing base_url or api_key)"),
            );
        }
        self.providers.insert(name, config);
        Ok(())
    }

    /// Removes the provider `name`; if it was active, no provider is active any more.
    pub fn remove_provider(&mut self, name: &str) -> (r: Result<(), CrustyError>)
        ensures
            r is Ok,
            final(self)@ == old(self)@.with_provider_removed(name@),
    {
        self.providers.remove(name);
        let was_current = match &self.current_provider {
            Some(current) => crate::text::same_text(current, name),
            None => false,
        };
        if was_current {
            self.current_provider = None;
        }
        Ok(())
    }

    /// The names of the configured providers.
    pub fn list_providers(&self) -> (r: Vec<String>)
        ensures
            r@.map_values(|s: String| s@) == keys_of(self@.providers),
    {
        self.providers.keys()
    }

    /// The running mode; it must have been chosen.
    pub fn get_mode(&self) -> (r: Result<RunMode, CrustyError>)
        ensures
            match self.mode {
                Some(m) => r matches Ok(x) && x == m,
                None => r matches Err(e) && is_config_error(e, no_mode_text()),
            },
    {
        match self.mode {
            Some(mode) => Ok(mode),
            None => Err(
                CrustyError::config(
                    "No mode selected. Please run 'crusty mode switch' to choose between 'proxy' and 'provider' mode.",
                ),
            ),
        }
    }

    /// Chooses the running mode; a mode with nothing active and configured for it is refused.
    pub fn set_mode(&mut self, mode: RunMode) -> (r: Result<(), CrustyError>)
        ensures
            (if !old(self)@.mode_available(mode) {
                &&& r matches Err(e) && is_config_error(e, mode_unavailable_text(mode))
                &&& final(self)@ == old(self)@
            } else {
                &&& r is Ok
                &&& final(self)@ == old(self)@.with_mode(mode)
            }),
    {
        match mode {
            RunMode::Proxy => {
                if self.current_proxy.is_none() || self.ai_proxies.is_empty() {
                    return Err(CrustyError::config("No proxy configured. Please run 'crusty setup' first."));
                }
            },
            RunMode::Provider => {
                if self.current_provider.is_none() || self.providers.is_empty() {
                    return Err(
                        CrustyError::config(
                            "No provider configured. Please run 'crusty provider add' first.",
                        ),
                    );
                }
            },
        }
        self.mode = Some(mode);
        Ok(())
    }

    /// Whether the agent runs in provider mode; the mode must have been chosen.
    pub fn is_provider_mode(&self) -> (r: Result<bool, CrustyError>)
        ensures
            match self.mode {
                Some(m) => r matches Ok(b) && b == (m == RunMode::Provider),
                None => r matches Err(e) && is_config_error(e, no_mode_text()),
            },
    {
        let mode = self.get_mode()?;
        Ok(mode == RunMode::Provider)
    }

    /// Whether the agent runs in proxy mode; the mode must have been chosen.
    pub fn is_proxy_mode(&self) -> (r: Result<bool, CrustyError>)
        ensures
            match self.mode {
                Some(m) => r matches Ok(b) && b == (m == RunMode::Proxy),
                None => r matches Err(e) && is_config_error(e, no_mode_text()),
            },
    {
        let mode = self.get_mode()?;
        Ok(mode == RunMode::Proxy)
    }
}

impl ConfigView {
    /// The active proxy, if one is set, is a configured proxy.
    pub open spec fn proxy_selection_ok(self) -> bool {
        self.current_proxy matches Some(n) ==> has_key(self.proxies, n)
    }

    /// The active provider, if one is set, is a configured provider.
    pub open spec fn provider_selection_ok(self) -> bool {
        self.current_provider matches Some(n) ==> has_key(self.providers, n)
    }
}

/// A proxy that was just added is found under its name.
pub proof fn law_added_proxy_is_found(c: ConfigView, name: Seq<char>, p: ProxyView)
    requires
        distinct_keys(c.proxies),
    ensures
        c.with_proxy_added(name, p).proxy(name) == Some(p),
{
    law_lookup_after_insert(c.proxies, name, p);
}

/// Adding a proxy leaves the other proxies as they were.
pub proof fn law_add_proxy_keeps_others(c: ConfigView, name: Seq<char>, p: ProxyView, other: Seq<char>)
    requires
        distinct_keys(c.proxies),
        other != name,
    ensures
        c.with_proxy_added(name, p).proxy(other) == c.proxy(other),
{
    law_lookup_other_after_insert(c.proxies, name, other, p);
}

/// After adding a proxy some proxy is active, it is a configured one, and proxy mode can
/// be chosen.
pub proof fn law_add_proxy_selects(c: ConfigView, name: Seq<char>, p: ProxyView)
    requires
        distinct_keys(c.proxies),
        c.proxy_selection_ok(),
    ensures
        c.with_proxy_added(name, p).current_proxy is Some,
        c.with_proxy_added(name, p).proxy_selection_ok(),
        c.with_proxy_added(name, p).mode_available(RunMode::Proxy),
{
    let proxies = assoc_insert(c.proxies, name, p);
    lemma_insert_distinct(c.proxies, name, p);
    if let Some(n) = c.current_proxy {
        if n != name {
            law_lookup_other_after_insert(c.proxies, name, n, p);
        }
    } else {
        lemma_index_of_key(proxies, 0);
    }
}

/// A removed proxy is no longer found, and the active proxy stays a configured one.
pub proof fn law_remove_proxy(c: ConfigView, name: Seq<char>)
    requires
        distinct_keys(c.proxies),
        c.proxy_selection_ok(),
    ensures
        c.with_proxy_removed(name).proxy(name) is None,
        c.with_proxy_removed(name).proxy_selection_ok(),
{
    law_lookup_after_remove(c.proxies, name);
    let proxies = assoc_remove(c.proxies, name);
    lemma_remove_distinct(c.proxies, name);
    if let Some(n) = c.current_proxy {
        if n != name {
            law_lookup_other_after_remove(c.proxies, name, n);
            lemma_index_of_key(c.proxies, index_of_key(c.proxies, n));
        } else if proxies.len() > 0 {
            lemma_index_of_key(proxies, 0);
        }
    }
}

/// Choosing a configured proxy makes it the active one, so the active proxy is a
/// configured one.
pub proof fn law_set_current_proxy(c: ConfigView, name: Seq<char>)
    requires
        has_key(c.proxies, name),
    ensures
        c.with_current_proxy(Some(name)).proxy_selection_ok(),
        c.with_current_proxy(Some(name)).active_proxy() == c.proxy(name),
{
}

/// A provider that was just added is found under its name.
pub proof fn law_added_provider_is_found(c: ConfigView, name: Seq<char>, p: ProviderView)
    requires
        distinct_keys(c.providers),
    ensures
        c.with_provider_added(name, p).provider(name) == Some(p),
{
    law_lookup_after_insert(c.providers, name, p);
}

/// Adding, removing and choosing providers keep the active provider a configured one.
pub proof fn law_provider_selection_kept(c: ConfigView, name: Seq<char>, p: ProviderView)
    requires
        distinct_keys(c.providers),
        c.provider_selection_ok(),
    ensures
        c.with_provider_added(name, p).provider_selection_ok(),
        c.with_provider_removed(name).provider_selection_ok(),
        c.with_provider_removed(name).provider(name) is None,
        has_key(c.providers, name) ==> c.with_current_provider(Some(name)).provider_selection_ok(),
{
    lemma_insert_distinct(c.providers, name, p);
    lemma_remove_distinct(c.providers, name);
    law_lookup_after_remove(c.providers, name);
    if let Some(n) = c.current_provider {
        if n != name {
            law_lookup_other_after_insert(c.providers, name, n, p);
            law_lookup_other_after_remove(c.providers, name, n);
            lemma_index_of_key(c.providers, index_of_key(c.providers, n));
        }
    }
}

/// Removing the active provider makes provider mode unavailable until another is chosen.
pub proof fn law_remove_active_provider(c: ConfigView, name: Seq<char>)
    requires
        c.current_provider == Some(name),
    ensures
        c.with_provider_removed(name).current_provider is None,
        !c.with_provider_removed(name).mode_available(RunMode::Provider),
{
}

/// Removing a proxy just added under a new name restores the configuration, when a proxy
/// was already active or none was configured (with proxies configured but none active,
/// adding one makes the first of them active, which its removal does not undo).
pub proof fn law_remove_undoes_add_proxy(c: ConfigView, name: Seq<char>, p: ProxyView)
    requires
        distinct_keys(c.proxies),
        !has_key(c.proxies, name),
        c.current_proxy is Some || c.proxies.len() == 0,
        c.current_proxy != Some(name),
    ensures
        c.with_proxy_added(name, p).with_proxy_removed(name) == c,
{
    law_remove_undoes_insert(c.proxies, name, p);
    if c.current_proxy is None {
        assert(assoc_insert(c.proxies, name, p) =~= seq![(name, p)]);
    }
}

/// Removing a provider just added under a new name restores the configuration.
pub proof fn law_remove_undoes_add_provider(c: ConfigView, name: Seq<char>, p: ProviderView)
    requires
        distinct_keys(c.providers),
        !has_key(c.providers, name),
        c.current_provider != Some(name),
    ensures
        c.with_provider_added(name, p).with_provider_removed(name) == c,
{
    law_remove_undoes_insert(c.providers, name, p);
}

/// A chosen mode is the mode that is read back; choosing a mode changes nothing else.
pub proof fn law_mode_read_back(c: ConfigView, m: RunMode)
    ensures
        c.with_mode(m).mode == Some(m),
        c.with_mode(m).with_mode(m) == c.with_mode(m),
        (ConfigView { mode: c.mode, ..c.with_mode(m) }) == c,
{
}

} // verus!
