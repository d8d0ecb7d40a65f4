//! Starting a chat: which model to use, what the banner shows, and the hint after a 404.
use vstd::prelude::*;

use crate::config::{AIProxyConfig, RunMode};
use crate::provider::ProviderConfig;
use crate::text::{append_str, chars_of, contains_chars, has_infix, string_of};

verus! {

/// The `chat` subcommands.
#[derive(Debug, Clone, Copy, PartialEq, Eq, Structural)]
pub enum ChatCommands {
    Start,
}

/// The model to chat with through a provider: its default model, which must be set.
pub fn chat_model_for_provider(provider: &ProviderConfig) -> (r: Result<String, String>)
    ensures
        provider@.default_model matches Some(m) ==> (r matches Ok(s) && s@ == m),
        provider@.default_model is None ==> (r matches Err(s) && s@ == "Provider mode is active but no default model is configured. Please re-run 'crusty provider add' and set a valid model."@),
{
    match &provider.default_model {
        Some(m) => Ok(m.clone()),
        None => Err(
            "Provider mode is active but no default model is configured. Please re-run 'crusty provider add' and set a valid model.".to_owned(),
        ),
    }
}

/// The model named on the start screen for a provider: its default model, else
/// `gpt-3.5-turbo`.
pub fn start_model_for_provider(provider: &ProviderConfig) -> (s: String)
    ensures
        s@ == (match provider@.default_model {
            Some(m) => m,
            None => "gpt-3.5-turbo"@,
        }),
{
    match &provider.default_model {
        Some(m) => m.clone(),
        None => "gpt-3.5-turbo".to_owned(),
    }
}

/// What the start banner shows.
pub struct BannerInfo {
    pub model_name: String,
    pub proxy_name: String,
    pub proxy_platform: String,
    pub host: String,
    pub port: u64,
    pub is_proxy_online: bool,
    pub session_id: String,
}

/// The banner for a chat through a provider: its type as platform, `api` as host, port 0.
pub fn banner_for_provider(model: &str, name: &str, provider: &ProviderConfig, session_id: &str) -> (b: BannerInfo)
    ensures
        b.model_name@ == model@,
        b.proxy_name@ == name@,
        b.proxy_platform@ == provider@.provider_type,
        b.host@ == "api"@,
        b.port == 0,
        b.is_proxy_online,
        b.session_id@ == session_id@,
{
    BannerInfo {
        model_name: model.to_owned(),
        proxy_name: name.to_owned(),
        proxy_platform: provider.provider_type.clone(),
        host: "api".to_owned(),
        port: 0,
        is_proxy_online: true,
        session_id: session_id.to_owned(),
    }
}

/// The banner for a chat through a proxy: its platform, host and port.
pub fn banner_for_proxy(model: &str, name: &str, proxy: &AIProxyConfig, session_id: &str) -> (b: BannerInfo)
    ensures
        b.model_name@ == model@,
        b.proxy_name@ == name@,
        b.proxy_platform@ == proxy@.platform,
        b.host@ == proxy@.host,
        b.port == proxy.port,
        b.is_proxy_online,
        b.session_id@ == session_id@,
{
    BannerInfo {
        model_name: model.to_owned(),
        proxy_name: name.to_owned(),
        proxy_platform: proxy.platform.clone(),
        host: proxy.host.clone(),
        port: proxy.port,
        is_proxy_online: true,
        session_id: session_id.to_owned(),
    }
}

/// `<unknown>` for a missing value.
pub open spec fn or_unknown(s: Option<Seq<char>>) -> Seq<char> {
    match s {
        Some(t) => t,
        None => "<unknown>"@,
    }
}

/// The hint shown when a provider answered 404.
pub open spec fn not_found_hint(name: Option<Seq<char>>, base_url: Option<Seq<char>>, model: Seq<char>) -> Seq<char> {
    "Provider '"@ + or_unknown(name) + "' returned 404. Check Base URL and model. Current base_url='"@
        + or_unknown(base_url) + "', model='"@ + model
        + "'. For OpenAI-compatible APIs, base_url usually ends with '/v1'."@
}

/// After a failed chat request: in provider mode, when the error mentions `404`, a hint
/// about the base URL and model; nothing otherwise.
pub fn provider_404_hint(mode: RunMode, error_text: &str, provider_name: Option<&String>, base_url: Option<&String>, model: &str) -> (r: Option<String>)
    ensures
        mode == RunMode::Provider && has_infix(error_text@, "404"@) ==> (r matches Some(s) && s@
            == not_found_hint(
            match provider_name {
                Some(n) => Some(n@),
                None => None,
            },
            match base_url {
                Some(u) => Some(u@),
                None => None,
            },
            model@,
        )),
        !(mode == RunMode::Provider && has_infix(error_text@, "404"@)) ==> r is None,
{
    if mode != RunMode::Provider {
        return None;
    }
    let e = chars_of(error_text);
    let code = chars_of("404");
    if !contains_chars(&e, &code) {
        return None;
    }
    let mut v = chars_of("Provider '");
    match provider_name {
        Some(n) => append_str(&mut v, n.as_str()),
        None => append_str(&mut v, "<unknown>"),
    }
    append_str(&mut v, "' returned 404. Check Base URL and model. Current base_url='");
    match base_url {
        Some(u) => append_str(&mut v, u.as_str()),
        None => append_str(&mut v, "<unknown>"),
    }
    append_str(&mut v, "', model='");
    append_str(&mut v, model);
    append_str(&mut v, "'. For OpenAI-compatible APIs, base_url usually ends with '/v1'.");
    Some(string_of(&v))
}


/// What the chat loop does with what the user typed.
#[derive(Debug)]
pub enum ChatInput {
    /// Send this prompt to the agent.
    Send(String),
    /// Nothing but white space: ask again.
    Skip,
    /// The input could not be read: leave the chat.
    Stop,
}

/// The chat loop's step for an input (`None` when reading it failed): a blank input is
/// skipped, any other is sent as typed.
pub fn chat_input_step(input: Option<String>) -> (r: ChatInput)
    ensures
        (match input {
            None => r is Stop,
            Some(p) => if crate::text::trim_seq(p@).len() == 0 {
                r is Skip
            } else {
                r matches ChatInput::Send(q) && q@ == p@
            },
        }),
{
    match input {
        None => ChatInput::Stop,
        Some(p) => if crate::text::is_blank(p.as_str()) {
            ChatInput::Skip
        } else {
            ChatInput::Send(p)
        },
    }
}

} // verus!
