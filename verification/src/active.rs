//! Which proxy or provider the agent uses, and what it needs to talk to it.
use vstd::prelude::*;

use crate::config::{AIProxyConfig, AppConfig, ProxyView};
use crate::error::CrustyError;
use crate::provider::{provider_is_valid, ProviderConfig};
use crate::proxy::{get_proxy, supported_platform, AIProxy};
use crate::text::{append_chars, append_str, chars_of, decimal, decimal_chars, string_of};

verus! {

/// The model and API key to use through a proxy: its current model (required) and its
/// key (empty when none is set).
pub fn get_agent_params(proxy_config: &AIProxyConfig) -> (r: Option<(String, String)>)
    ensures
        r is Some <==> proxy_config@.current_model is Some,
        r matches Some(p) ==> p.0@ == proxy_config@.current_model->0 && p.1@ == (
        match proxy_config@.api_key {
            Some(k) => k,
            None => Seq::<char>::empty(),
        }),
{
    let model_name = match &proxy_config.current_model {
        Some(m) => m.clone(),
        None => {
            return None;
        },
    };
    let api_key = match &proxy_config.api_key {
        None => String::new(),
        Some(v) => v.clone(),
    };
    Some((model_name, api_key))
}

/// Why no provider can be used.
#[derive(Debug, Clone, Copy, PartialEq, Eq, Structural)]
pub enum ActiveProviderError {
    /// No provider is active.
    NoneSelected,
    /// The active provider is not configured.
    NotFound,
    /// The active provider lacks an `http(s)://` base URL or a key.
    Invalid,
}

impl ActiveProviderError {
    /// What the user is told.
    pub fn message(&self) -> (s: &'static str)
        ensures
            s@ == (match *self {
                ActiveProviderError::NoneSelected => "No provider configured. Please run 'crusty provider add' to add a provider."@,
                ActiveProviderError::NotFound => "No provider found. Please setup first."@,
                ActiveProviderError::Invalid => "Provider configuration is invalid (missing base_url or api_key)."@,
            }),
    {
        match self {
            ActiveProviderError::NoneSelected => "No provider configured. Please run 'crusty provider add' to add a provider.",
            ActiveProviderError::NotFound => "No provider found. Please setup first.",
            ActiveProviderError::Invalid => "Provider configuration is invalid (missing base_url or api_key).",
        }
    }
}

/// The active provider and its configuration, or why there is none.
pub fn resolve_active_provider(config: &AppConfig) -> (r: Result<(String, ProviderConfig), ActiveProviderError>)
    ensures
        config@.current_provider is None ==> r == Err::<(String, ProviderConfig), ActiveProviderError>(ActiveProviderError::NoneSelected),
        config@.current_provider is Some && config@.active_provider() is None ==> r == Err::<(String, ProviderConfig), ActiveProviderError>(ActiveProviderError::NotFound),
        config@.active_provider() matches Some(p) && !provider_is_valid(p) ==> r == Err::<(String, ProviderConfig), ActiveProviderError>(ActiveProviderError::Invalid),
        config@.active_provider() matches Some(p) && provider_is_valid(p) ==> (r matches Ok(a)
            && config@.current_provider == Some(a.0@) && config@.active_provider() == Some(a.1@)),
{
    let current = match &config.current_provider {
        Some(c) => c.clone(),
        None => {
            return Err(ActiveProviderError::NoneSelected);
        },
    };
    let provider_config = match config.find_provider_by_id(current.as_str()) {
        Some(p) => p,
        None => {
            return Err(ActiveProviderError::NotFound);
        },
    };
    if !provider_config.is_valid() {
        return Err(ActiveProviderError::Invalid);
    }
    Ok((current, provider_config))
}

/// The active provider and its configuration, when it is configured and valid.
pub fn get_active_provider(config: &AppConfig) -> (r: Option<(String, ProviderConfig)>)
    ensures
        r is Some <==> (config@.active_provider() matches Some(p) && provider_is_valid(p)),
        r matches Some(a) ==> config@.current_provider == Some(a.0@) && config@.active_provider()
            == Some(a.1@),
{
    match resolve_active_provider(config) {
        Ok(a) => Some(a),
        Err(_) => None,
    }
}

/// Why no proxy can be used.
#[derive(Debug, Clone, Copy, PartialEq, Eq, Structural)]
pub enum ActiveProxyError {
    /// No proxy is active.
    NoneSelected,
    /// The active proxy is not configured.
    NotFound,
    /// The active proxy's platform has no implementation.
    UnsupportedPlatform,
}

impl ActiveProxyError {
    /// What the user is told.
    pub fn message(&self) -> (s: &'static str)
        ensures
            s@ == (match *self {
                ActiveProxyError::NoneSelected => "No proxy select. Please setup first."@,
                ActiveProxyError::NotFound => "No proxy found. Please setup first."@,
                ActiveProxyError::UnsupportedPlatform => "Failed to init proxy. Please check logs for details."@,
            }),
    {
        match self {
            ActiveProxyError::NoneSelected => "No proxy select. Please setup first.",
            ActiveProxyError::NotFound => "No proxy found. Please setup first.",
            ActiveProxyError::UnsupportedPlatform => "Failed to init proxy. Please check logs for details.",
        }
    }
}

/// The active proxy: its name, its configuration and its implementation.
pub struct ActiveProxy {
    pub name: String,
    pub config: AIProxyConfig,
    pub proxy: AIProxy,
}

/// The active proxy, or why there is none.
pub fn resolve_active_proxy(config: &AppConfig) -> (r: Result<ActiveProxy, ActiveProxyError>)
    ensures
        config@.current_proxy is None ==> (r matches Err(e) && e == ActiveProxyError::NoneSelected),
        config@.current_proxy is Some && config@.active_proxy() is None ==> (r matches Err(e) && e
            == ActiveProxyError::NotFound),
        config@.active_proxy() matches Some(p) && !supported_platform(p.platform) ==> (r matches Err(e)
            && e == ActiveProxyError::UnsupportedPlatform),
        config@.active_proxy() matches Some(p) && supported_platform(p.platform) ==> (r matches Ok(a)
            && config@.current_proxy == Some(a.name@) && config@.active_proxy() == Some(a.config@)),
        r matches Ok(a) ==> (match a.proxy {
            AIProxy::NineRouter(p) => a.config@.platform == "9router"@ && p.is_local == a.config.is_local
                && p.host@ == a.config.host@ && p.port == a.config.port && crate::text::opt_text(p.api_key)
                == crate::text::opt_text(a.config.api_key),
            AIProxy::OmniRoute(p) => a.config@.platform == "omniroute"@ && p.is_local == a.config.is_local
                && p.host@ == a.config.host@ && p.port == a.config.port && crate::text::opt_text(p.api_key)
                == crate::text::opt_text(a.config.api_key),
        }),
{
    let current = match &config.current_proxy {
        Some(c) => c.clone(),
        None => {
            return Err(ActiveProxyError::NoneSelected);
        },
    };
    let proxy_config = match config.find_proxy_by_id(current.as_str()) {
        Some(p) => p,
        None => {
            return Err(ActiveProxyError::NotFound);
        },
    };
    let proxy = match get_proxy(proxy_config.platform.as_str(), &proxy_config) {
        Some(p) => p,
        None => {
            return Err(ActiveProxyError::UnsupportedPlatform);
        },
    };
    Ok(ActiveProxy { name: current, config: proxy_config, proxy })
}

/// `Proxy <name> (platform: <platform>)`
pub open spec fn proxy_label(name: Seq<char>, p: ProxyView) -> Seq<char> {
    "Proxy "@ + name + " (platform: "@ + p.platform + ")"@
}

fn proxy_label_chars(name: &str, config: &AIProxyConfig) -> (v: Vec<char>)
    ensures
        v@ == proxy_label(name@, config@),
{
    let mut v = chars_of("Proxy ");
    append_str(&mut v, name);
    append_str(&mut v, " (platform: ");
    append_str(&mut v, config.platform.as_str());
    append_str(&mut v, ")");
    v
}

/// The warning for a remote proxy that cannot be controlled locally (none for a local one).
pub fn remote_proxy_warning(name: &str, config: &AIProxyConfig, action: &str) -> (r: Option<String>)
    ensures
        config.is_local ==> r is None,
        !config.is_local ==> (r matches Some(s) && s@ == proxy_label(name@, config@)
            + " is remote proxy from another address cannot "@ + action@ + " locally"@),
{
    if config.is_local {
        None
    } else {
        let mut v = proxy_label_chars(name, config);
        append_str(&mut v, " is remote proxy from another address cannot ");
        append_str(&mut v, action);
        append_str(&mut v, " locally");
        Some(string_of(&v))
    }
}

/// What stands in the way of using a proxy, given whether it was found running: nothing
/// when it runs, a notice when it is offline, an error when its state could not be read.
pub fn proxy_status_problem(name: &str, config: &AIProxyConfig, running: &Result<bool, CrustyError>) -> (r: Option<String>)
    ensures
        running matches Ok(true) ==> r is None,
        running matches Ok(false) ==> (r matches Some(s) && s@ == proxy_label(name@, config@)
            + " is offline. Please run proxy before."@),
        running is Err ==> (r matches Some(s) && s@ == "Cannot check status of proxy "@ + name@
            + " (platform: "@ + config@.platform + ") on port "@ + decimal(config.port as nat)
            + ". Please check log for details."@),
{
    match running {
        Ok(true) => None,
        Ok(false) => {
            let mut v = proxy_label_chars(name, config);
            append_str(&mut v, " is offline. Please run proxy before.");
            Some(string_of(&v))
        },
        Err(_) => {
            let mut v = chars_of("Cannot check status of proxy ");
            append_str(&mut v, name);
            append_str(&mut v, " (platform: ");
            append_str(&mut v, config.platform.as_str());
            append_str(&mut v, ") on port ");
            let d = decimal_chars(config.port);
            append_chars(&mut v, &d);
            append_str(&mut v, ". Please check log for details.");
            Some(string_of(&v))
        },
    }
}


/// What the check of the proxy platform's installation means for using the proxy: an
/// error to report when the check itself failed; nothing when it answered, whatever it
/// answered.
pub fn install_check_problem(name: &str, config: &AIProxyConfig, installed: &Result<bool, CrustyError>) -> (r: Option<String>)
    ensures
        installed is Ok ==> r is None,
        installed is Err ==> (r matches Some(s) && s@ == "Platform "@ + config@.platform + " (for "@
            + name@ + ") not install. Please run crusty setup first."@),
{
    match installed {
        Ok(_) => None,
        Err(_) => {
            let mut v = chars_of("Platform ");
            append_str(&mut v, config.platform.as_str());
            append_str(&mut v, " (for ");
            append_str(&mut v, name);
            append_str(&mut v, ") not install. Please run crusty setup first.");
            Some(string_of(&v))
        },
    }
}

} // verus!
