//! AI proxies/routers: which platforms are supported, their addresses, and the proxy
//! configurations built from the user's answers.
use vstd::prelude::*;

use crate::config::{AIProxyConfig, ProxyView};
use crate::error::{is_config_error, CrustyError};
use crate::text::{
    append_chars, append_str, chars_of, copy_opt_string, decimal, decimal_chars, has_prefix,
    int_parse_error_message, opt_text, parse_error_text, parse_u64_chars, parse_u64_spec, slice_chars, string_of,
    trim_chars, trim_end_seq, trim_seq, trim_start_seq, u64_to_string, IntParseError,
};

verus! {

/// `s` with every occurrence of `p` removed, scanning left to right (what
/// `str::replace(p, "")` returns).
pub open spec fn remove_all(s: Seq<char>, p: Seq<char>) -> Seq<char>
    decreases s.len(),
{
    if p.len() == 0 || s.len() < p.len() {
        s
    } else if p.is_prefix_of(s) {
        remove_all(s.skip(p.len() as int), p)
    } else {
        seq![s[0]] + remove_all(s.drop_first(), p)
    }
}

proof fn lemma_remove_all_step(s: Seq<char>, p: Seq<char>, i: int)
    requires
        0 < p.len(),
        0 <= i < s.len(),
    ensures
        s.len() - i < p.len() ==> remove_all(s.skip(i), p) == s.skip(i),
        s.len() - i >= p.len() && p.is_prefix_of(s.skip(i)) ==> remove_all(s.skip(i), p)
            == remove_all(s.skip(i + p.len()), p),
        s.len() - i >= p.len() && !p.is_prefix_of(s.skip(i)) ==> remove_all(s.skip(i), p)
            == seq![s[i]] + remove_all(s.skip(i + 1), p),
{
    let t = s.skip(i);
    if t.len() >= p.len() {
        if p.is_prefix_of(t) {
            assert(t.skip(p.len() as int) =~= s.skip(i + p.len()));
        } else {
            assert(t.drop_first() =~= s.skip(i + 1));
        }
    }
}

/// `v` with every occurrence of `p` removed.
pub fn remove_all_chars(v: &Vec<char>, p: &Vec<char>) -> (r: Vec<char>)
    ensures
        r@ == remove_all(v@, p@),
{
    if p.len() == 0 {
        return slice_chars(v, 0, v.len());
    }
    let mut r: Vec<char> = Vec::new();
    let mut i: usize = 0;
    assert(v@.skip(0) =~= v@);
    while i < v.len()
        invariant
            0 < p.len(),
            i <= v.len(),
            remove_all(v@, p@) == r@ + remove_all(v@.skip(i as int), p@),
        decreases v.len() - i,
    {
        proof {
            lemma_remove_all_step(v@, p@, i as int);
        }
        if v.len() - i < p.len() {
            let tail = slice_chars(v, i, v.len());
            assert(tail@ =~= v@.skip(i as int));
            append_chars(&mut r, &tail);
            assert(v@.skip(v.len() as int) =~= Seq::<char>::empty());
            i = v.len();
        } else {
            let rest = slice_chars(v, i, v.len());
            assert(rest@ =~= v@.skip(i as int));
            if has_prefix(&rest, p) {
                i = i + p.len();
            } else {
                let ghost before = r@;
                r.push(v[i]);
                assert(r@ =~= before + seq![v@[i as int]]);
                i = i + 1;
            }
        }
    }
    assert(remove_all(v@.skip(i as int), p@) =~= Seq::<char>::empty()) by {
        assert(v@.skip(i as int) =~= Seq::<char>::empty());
    }
    assert(r@ + Seq::<char>::empty() =~= r@);
    r
}

/// The 9router proxy.
pub struct _9RouterAIProxy {
    pub is_local: bool,
    pub host: String,
    pub port: u64,
    pub api_key: Option<String>,
}

/// The OmniRoute proxy.
pub struct OmniRouteAIProxy {
    pub is_local: bool,
    pub host: String,
    pub port: u64,
    pub api_key: Option<String>,
}

/// A supported proxy/router.
pub enum AIProxy {
    NineRouter(_9RouterAIProxy),
    OmniRoute(OmniRouteAIProxy),
}

/// `host:port` for a local proxy, the host alone for a remote one.
pub open spec fn proxy_address(is_local: bool, host: Seq<char>, port: u64) -> Seq<char> {
    if is_local {
        host + seq![':'] + decimal(port as nat)
    } else {
        host
    }
}

/// `http://`
pub open spec fn http_text() -> Seq<char> {
    seq!['h', 't', 't', 'p', ':', '/', '/']
}

/// `https://`
pub open spec fn https_text() -> Seq<char> {
    seq!['h', 't', 't', 'p', 's', ':', '/', '/']
}

/// The address whose port is probed to see whether the proxy runs: `host:port` for a local
/// proxy; for a remote one the host with every `http://` and `https://` taken out.
pub open spec fn probe_address(is_local: bool, host: Seq<char>, port: u64) -> Seq<char> {
    if is_local {
        host + seq![':'] + decimal(port as nat)
    } else {
        remove_all(remove_all(host, http_text()), https_text())
    }
}

impl _9RouterAIProxy {
    /// The proxy described by a configuration.
    pub fn from_config(config: &AIProxyConfig) -> (r: Self)
        ensures
            r.is_local == config.is_local,
            r.host@ == config.host@,
            r.port == config.port,
            opt_text(r.api_key) == opt_text(config.api_key),
    {
        _9RouterAIProxy {
            is_local: config.is_local,
            host: config.host.clone(),
            port: config.port,
            api_key: copy_opt_string(&config.api_key),
        }
    }

    fn address_chars(&self) -> (v: Vec<char>)
        ensures
            v@ == proxy_address(self.is_local, self.host@, self.port),
    {
        let mut v = chars_of(self.host.as_str());
        if self.is_local {
            v.push(':');
            let d = decimal_chars(self.port);
            append_chars(&mut v, &d);
        }
        v
    }

    /// The API key, empty when none is set.
    pub fn get_api_key(&self) -> (s: String)
        ensures
            s@ == (match self.api_key {
                Some(k) => k@,
                None => Seq::<char>::empty(),
            }),
    {
        match &self.api_key {
            Some(k) => k.clone(),
            None => String::new(),
        }
    }

    /// The OpenAI-compatible API endpoint: the address, then `/v1`.
    pub fn get_url(&self) -> (s: String)
        ensures
            s@ == proxy_address(self.is_local, self.host@, self.port) + "/v1"@,
    {
        let mut v = self.address_chars();
        append_str(&mut v, "/v1");
        string_of(&v)
    }

    /// The dashboard's address: the address, then `/dashboard`.
    pub fn get_dashboard_url(&self) -> (s: String)
        ensures
            s@ == proxy_address(self.is_local, self.host@, self.port) + "/dashboard"@,
    {
        let mut v = self.address_chars();
        append_str(&mut v, "/dashboard");
        string_of(&v)
    }

    /// The address to connect to when checking whether the proxy runs.
    pub fn probe_address(&self) -> (s: String)
        ensures
            s@ == probe_address(self.is_local, self.host@, self.port),
    {
        if self.is_local {
            let v = self.address_chars();
            string_of(&v)
        } else {
            let h = chars_of(self.host.as_str());
            let http = chars_of("http://");
            let https = chars_of("https://");
            proof {
                reveal_strlit("http://");
                reveal_strlit("https://");
                assert(http@ =~= http_text());
                assert(https@ =~= https_text());
            }
            let a = remove_all_chars(&h, &http);
            let b = remove_all_chars(&a, &https);
            string_of(&b)
        }
    }

    /// The command line that starts the proxy through `npx`:
    /// `9router --tray --no-browser --port <port>`.
    pub fn start_args(&self) -> (args: Vec<String>)
        ensures
            args@.len() == 5,
            args@[0]@ == "9router"@,
            args@[1]@ == "--tray"@,
            args@[2]@ == "--no-browser"@,
            args@[3]@ == "--port"@,
            args@[4]@ == decimal(self.port as nat),
    {
        let mut args: Vec<String> = Vec::new();
        args.push("9router".to_owned());
        args.push("--tray".to_owned());
        args.push("--no-browser".to_owned());
        args.push("--port".to_owned());
        args.push(u64_to_string(self.port));
        args
    }

    /// The error when no process took the port before the start timed out.
    pub fn start_timeout_error(&self) -> (e: CrustyError)
        ensures
            e matches CrustyError::AIProxyError(m) && m@ == "Failed to start 9router on port "@
                + decimal(self.port as nat),
    {
        let mut v = chars_of("Failed to start 9router on port ");
        let d = decimal_chars(self.port);
        append_chars(&mut v, &d);
        CrustyError::AIProxyError(string_of(&v))
    }
}

/// The platform names that have a proxy implementation.
pub open spec fn supported_platform(name: Seq<char>) -> bool {
    name == "9router"@ || name == "omniroute"@
}

/// The proxy implementation for a platform name, set up from the configuration.
pub fn get_proxy(name: &str, proxy_config: &AIProxyConfig) -> (r: Option<AIProxy>)
    ensures
        r is Some <==> supported_platform(name@),
        name@ == "9router"@ ==> (r matches Some(AIProxy::NineRouter(p)) && p.is_local
            == proxy_config.is_local && p.host@ == proxy_config.host@ && p.port == proxy_config.port
            && opt_text(p.api_key) == opt_text(proxy_config.api_key)),
        name@ == "omniroute"@ ==> (r matches Some(AIProxy::OmniRoute(p)) && p.is_local
            == proxy_config.is_local && p.host@ == proxy_config.host@ && p.port == proxy_config.port
            && opt_text(p.api_key) == opt_text(proxy_config.api_key)),
{
    let n = name.to_owned();
    proof {
        reveal_strlit("9router");
        reveal_strlit("omniroute");
        assert("omniroute"@.len() == 9);
        assert("9router"@.len() == 7);
    }
    if crate::text::same_text(&n, "9router") {
        Some(AIProxy::NineRouter(_9RouterAIProxy::from_config(proxy_config)))
    } else if crate::text::same_text(&n, "omniroute") {
        Some(
            AIProxy::OmniRoute(
                OmniRouteAIProxy {
                    is_local: proxy_config.is_local,
                    host: proxy_config.host.clone(),
                    port: proxy_config.port,
                    api_key: copy_opt_string(&proxy_config.api_key),
                },
            ),
        )
    } else {
        None
    }
}

// ---------------------------------------------------------------------------
// Proxy configuration from the user's answers
// ---------------------------------------------------------------------------

/// The answers first offered when a proxy is added (`existing` is `None`) or edited.
pub struct ProxyPromptDefaults {
    pub is_local: bool,
    pub port: String,
    pub api_key: String,
    pub current_model: String,
}

/// The answers offered for a proxy, from the proxy being edited if any.
pub fn proxy_prompt_defaults(existing: Option<&AIProxyConfig>) -> (d: ProxyPromptDefaults)
    ensures
        d.is_local == (match existing {
            Some(p) => p.is_local,
            None => true,
        }),
        d.port@ == (match existing {
            Some(p) => decimal(p.port as nat),
            None => "8000"@,
        }),
        d.api_key@ == (match existing {
            Some(p) => match p@.api_key {
                Some(k) => k,
                None => Seq::<char>::empty(),
            },
            None => Seq::<char>::empty(),
        }),
        d.current_model@ == (match existing {
            Some(p) => match p@.current_model {
                Some(m) => m,
                None => "crusty_combo"@,
            },
            None => "crusty_combo"@,
        }),
{
    match existing {
        Some(p) => ProxyPromptDefaults {
            is_local: p.is_local,
            port: u64_to_string(p.port),
            api_key: match &p.api_key {
                Some(k) => k.clone(),
                None => String::new(),
            },
            current_model: match &p.current_model {
                Some(m) => m.clone(),
                None => "crusty_combo".to_owned(),
            },
        },
        None => ProxyPromptDefaults {
            is_local: true,
            port: "8000".to_owned(),
            api_key: String::new(),
            current_model: "crusty_combo".to_owned(),
        },
    }
}

/// The host offered for a proxy: `localhost` when it runs locally, else the edited proxy's
/// host (empty for a new proxy).
pub fn proxy_host_default(existing: Option<&AIProxyConfig>, is_local: bool) -> (h: String)
    ensures
        h@ == (if is_local {
            "localhost"@
        } else {
            match existing {
                Some(p) => p.host@,
                None => Seq::<char>::empty(),
            }
        }),
{
    if is_local {
        "localhost".to_owned()
    } else {
        match existing {
            Some(p) => p.host.clone(),
            None => String::new(),
        }
    }
}

/// What the user answered about a 9router proxy.
pub struct ProxyAnswers {
    pub is_local: bool,
    /// The host typed in (used only for a remote proxy).
    pub host: String,
    /// The port typed in (used only for a local proxy).
    pub port: String,
    pub api_key: String,
    pub current_model: String,
}

/// `Invalid proxy port '<input>': <reason>`
pub open spec fn invalid_port_text(input: Seq<char>, e: IntParseError) -> Seq<char> {
    "Invalid proxy port '"@ + input + "': "@ + parse_error_text(e)
}

/// The 9router proxy configuration that the answers describe.
pub open spec fn answered_proxy(existing: Option<ProxyView>, a_is_local: bool, host: Seq<char>, port: u64, api_key: Seq<char>, model: Seq<char>) -> ProxyView {
    ProxyView {
        platform: "9router"@,
        is_local: a_is_local,
        host: if a_is_local {
            "localhost"@
        } else {
            host
        },
        port: port,
        api_key: if trim_seq(api_key).len() == 0 {
            None
        } else {
            Some(api_key)
        },
        current_model: Some(model),
    }
}

/// Editing a local 9router proxy and accepting every answer offered (the port as written,
/// the key or nothing, the model) leaves it as it was: the offered port reads back, and the
/// proxy built from the answers is the proxy edited. A proxy whose key is blank or whose
/// model is unset is not rebuilt as it was, since a blank key is dropped and a missing model
/// is offered as `crusty_combo`.
pub proof fn law_edit_accepting_defaults(p: ProxyView)
    requires
        p.platform == "9router"@,
        p.is_local,
        p.host == "localhost"@,
        p.api_key matches Some(k) ==> trim_seq(k).len() > 0,
        p.current_model is Some,
    ensures
        parse_u64_spec(trim_seq(decimal(p.port as nat))) == Ok::<u64, IntParseError>(p.port),
        answered_proxy(
            Some(p),
            true,
            "localhost"@,
            p.port,
            match p.api_key {
                Some(k) => k,
                None => Seq::<char>::empty(),
            },
            p.current_model->0,
        ) == p,
{
    crate::text::law_decimal_round_trip(p.port);
    let blank = Seq::<char>::empty();
    assert(trim_start_seq(blank) == blank);
    assert(trim_end_seq(blank) == blank);
}

/// Builds a 9router proxy configuration from the user's answers: a local proxy lives on
/// `localhost` at the typed port, a remote one at the typed host on the edited proxy's port
/// (8000 for a new one); a blank API key means none; the model may not be blank.
pub fn build_9router_proxy_config(existing: Option<&AIProxyConfig>, answers: ProxyAnswers) -> (r: Result<AIProxyConfig, CrustyError>)
    ensures
        r matches Ok(c) ==> c@.platform == "9router"@ && c.is_local == answers.is_local
            && c@.current_model == Some(answers.current_model@),
        answers.is_local && parse_u64_spec(trim_seq(answers.port@)) is Err ==> (r matches Err(e)
            && is_config_error(
            e,
            invalid_port_text(answers.port@, parse_u64_spec(trim_seq(answers.port@))->Err_0),
        )),
        !(answers.is_local && parse_u64_spec(trim_seq(answers.port@)) is Err) && trim_seq(
            answers.current_model@,
        ).len() == 0 ==> (r matches Err(e) && is_config_error(e, "Current model cannot be empty"@)),
        !(answers.is_local && parse_u64_spec(trim_seq(answers.port@)) is Err) && trim_seq(
            answers.current_model@,
        ).len() != 0 ==> (r matches Ok(c) && c@ == answered_proxy(
            match existing {
                Some(p) => Some(p@),
                None => None,
            },
            answers.is_local,
            answers.host@,
            if answers.is_local {
                parse_u64_spec(trim_seq(answers.port@))->Ok_0
            } else {
                match existing {
                    Some(p) => p.port,
                    None => 8000,
                }
            },
            answers.api_key@,
            answers.current_model@,
        )),
{
    let ProxyAnswers { is_local, host, port: port_text, api_key, current_model } = answers;
    let host = if is_local {
        "localhost".to_owned()
    } else {
        host
    };
    let port: u64 = if is_local {
        let raw = chars_of(port_text.as_str());
        let trimmed = trim_chars(&raw);
        match parse_u64_chars(&trimmed) {
            Ok(p) => p,
            Err(e) => {
                let mut v = chars_of("Invalid proxy port '");
                append_str(&mut v, port_text.as_str());
                append_str(&mut v, "': ");
                append_str(&mut v, int_parse_error_message(e));
                return Err(CrustyError::ConfigError(string_of(&v)));
            },
        }
    } else {
        match existing {
            Some(p) => p.port,
            None => 8000,
        }
    };
    let key_chars = chars_of(api_key.as_str());
    let key_trimmed = trim_chars(&key_chars);
    let api_key = if key_trimmed.len() == 0 {
        None
    } else {
        Some(api_key)
    };
    let model_chars = chars_of(current_model.as_str());
    let model_trimmed = trim_chars(&model_chars);
    if model_trimmed.len() == 0 {
        return Err(CrustyError::config("Current model cannot be empty"));
    }
    Ok(
        AIProxyConfig {
            platform: "9router".to_owned(),
            is_local,
            host,
            port,
            api_key,
            current_model: Some(current_model),
        },
    )
}


/// Every proxy built from 9router answers is a 9router proxy, local or remote, and is
/// local exactly when the user said so; a local one runs on `localhost`, a remote one at the
/// host the user typed; it keeps the model typed and the key typed unless that is blank.
pub proof fn law_answered_proxy_is_9router(
    existing: Option<ProxyView>,
    is_local: bool,
    host: Seq<char>,
    port: u64,
    api_key: Seq<char>,
    model: Seq<char>,
)
    ensures
        answered_proxy(existing, is_local, host, port, api_key, model).platform == "9router"@,
        answered_proxy(existing, is_local, host, port, api_key, model).is_local == is_local,
        is_local ==> answered_proxy(existing, is_local, host, port, api_key, model).host == "localhost"@,
        !is_local ==> answered_proxy(existing, is_local, host, port, api_key, model).host == host,
        answered_proxy(existing, is_local, host, port, api_key, model).port == port,
        answered_proxy(existing, is_local, host, port, api_key, model).current_model == Some(model),
        trim_seq(api_key).len() > 0 ==> answered_proxy(existing, is_local, host, port, api_key, model).api_key
            == Some(api_key),
        trim_seq(api_key).len() == 0 ==> answered_proxy(existing, is_local, host, port, api_key, model).api_key
            is None,
{
}

} // verus!
