//! Listing, adding, editing, removing, switching, starting and stopping proxies.
use vstd::prelude::*;

use crate::active::proxy_label;
use crate::cli::provider::marker;
use crate::config::{AIProxyConfig, AppConfig, ConfigView, ProxyView};
use crate::error::{is_config_error, CrustyError};
use crate::menus::choose_index;
use crate::names::{
    assoc_insert, assoc_remove, distinct_keys, has_key, keys_of, law_lookup_after_insert,
    law_lookup_after_remove, law_lookup_other_after_insert, law_lookup_other_after_remove,
    lemma_index_of_key, lemma_insert_distinct, lemma_remove_distinct,
};
use crate::text::{
    append_chars, append_padded, append_str, chars_of, decimal, decimal_chars, pad_right,
    string_of, trim_chars, trim_seq,
};

verus! {

/// The `proxy` subcommands.
#[derive(Debug, Clone, Copy, PartialEq, Eq, Structural)]
pub enum ProxyCommands {
    /// Start the active AI proxy service.
    Start,
    /// Stop the currently running AI proxy service.
    Stop,
    /// Open the AI proxy dashboard in the browser.
    Dashboard,
}

/// A message for the user.
#[derive(Debug)]
pub enum Report {
    Info(String),
    Error(String),
}

/// `Cannot <verb> proxy <name> (platform: <platform>) on port <port>. Please check log for details.`
pub open spec fn control_failure(verb: Seq<char>, name: Seq<char>, p: ProxyView) -> Seq<char> {
    "Cannot "@ + verb + " proxy "@ + name + " (platform: "@ + p.platform + ") on port "@ + decimal(
        p.port as nat,
    ) + ". Please check log for details."@
}

fn control_failure_text(verb: &str, name: &str, config: &AIProxyConfig) -> (s: String)
    ensures
        s@ == control_failure(verb@, name@, config@),
{
    let mut v = chars_of("Cannot ");
    append_str(&mut v, verb);
    append_str(&mut v, " proxy ");
    append_str(&mut v, name);
    append_str(&mut v, " (platform: ");
    append_str(&mut v, config.platform.as_str());
    append_str(&mut v, ") on port ");
    let d = decimal_chars(config.port);
    append_chars(&mut v, &d);
    append_str(&mut v, ". Please check log for details.");
    string_of(&v)
}

/// What `proxy start` reports once the active proxy was checked and started (`outcome` is
/// the error of the status check or of the start, if any).
pub fn handle_proxy_start(name: &str, config: &AIProxyConfig, outcome: &Result<(), CrustyError>) -> (r: Report)
    ensures
        outcome is Ok ==> (r matches Report::Info(m) && m@ == proxy_label(name@, config@)
            + " is started"@),
        outcome is Err ==> (r matches Report::Error(m) && m@ == control_failure(
            "start"@,
            name@,
            config@,
        )),
{
    match outcome {
        Ok(()) => {
            let mut v = chars_of("Proxy ");
            append_str(&mut v, name);
            append_str(&mut v, " (platform: ");
            append_str(&mut v, config.platform.as_str());
            append_str(&mut v, ")");
            append_str(&mut v, " is started");
            Report::Info(string_of(&v))
        },
        Err(_) => Report::Error(control_failure_text("start", name, config)),
    }
}

/// What `proxy stop` reports once the active proxy was checked and stopped (`outcome` is
/// the error of the status check or of the stop, if any).
pub fn handle_proxy_stop(name: &str, config: &AIProxyConfig, outcome: &Result<(), CrustyError>) -> (r: Report)
    ensures
        outcome is Ok ==> (r matches Report::Info(m) && m@ == proxy_label(name@, config@)
            + " is stopped"@),
        outcome is Err ==> (r matches Report::Error(m) && m@ == control_failure(
            "stop"@,
            name@,
            config@,
        )),
{
    match outcome {
        Ok(()) => {
            let mut v = chars_of("Proxy ");
            append_str(&mut v, name);
            append_str(&mut v, " (platform: ");
            append_str(&mut v, config.platform.as_str());
            append_str(&mut v, ")");
            append_str(&mut v, " is stopped");
            Report::Info(string_of(&v))
        },
        Err(_) => Report::Error(control_failure_text("stop", name, config)),
    }
}

/// What choosing a proxy in the list of them led to.
#[derive(Debug)]
pub enum ProxyChoice {
    /// No proxy is configured.
    NoProxies,
    /// Nothing was chosen.
    Cancelled,
    /// The proxy was activated or removed.
    Done(String),
    /// The change was refused.
    Failed(CrustyError),
}

/// `proxy switch`: activates the proxy chosen in the list of configured proxies.
pub fn handle_proxy_switch(config: &mut AppConfig, choice: Option<usize>) -> (r: ProxyChoice)
    ensures
        old(config)@.proxies.len() == 0 ==> (r matches ProxyChoice::NoProxies && final(config)@
            == old(config)@),
        old(config)@.proxies.len() > 0 && (choice is None || choice->0 >= old(config)@.proxies.len())
            ==> (r matches ProxyChoice::Cancelled && final(config)@ == old(config)@),
        old(config)@.proxies.len() > 0 && choice is Some && choice->0 < old(config)@.proxies.len()
            ==> (r matches ProxyChoice::Done(n) && n@ == old(config)@.proxies[choice->0 as int].0
            && final(config)@ == old(config)@.with_current_proxy(Some(n@))),
{
    let names = config.list_proxies();
    assert(names@.map_values(|s: String| s@).len() == names@.len());
    assert(keys_of(config@.proxies).len() == config@.proxies.len());
    if names.len() == 0 {
        return ProxyChoice::NoProxies;
    }
    let idx = match choose_index(choice, names.len()) {
        Some(i) => i,
        None => {
            return ProxyChoice::Cancelled;
        },
    };
    let name = names[idx].clone();
    assert(names@.map_values(|s: String| s@)[idx as int] == name@);
    assert(keys_of(config@.proxies)[idx as int] == config@.proxies[idx as int].0);
    proof {
        use_type_invariant(&config.ai_proxies);
        lemma_index_of_key(config@.proxies, idx as int);
    }
    match config.set_current_proxy(Some(name.clone())) {
        Ok(()) => ProxyChoice::Done(name),
        Err(e) => ProxyChoice::Failed(e),
    }
}

/// `proxy remove`: removes the proxy chosen (and confirmed) in the list of configured proxies.
pub fn handle_proxy_remove(config: &mut AppConfig, choice: Option<usize>, confirmed: bool) -> (r: ProxyChoice)
    ensures
        old(config)@.proxies.len() == 0 ==> (r matches ProxyChoice::NoProxies && final(config)@
            == old(config)@),
        old(config)@.proxies.len() > 0 && (choice is None || choice->0 >= old(config)@.proxies.len()
            || !confirmed) ==> (r matches ProxyChoice::Cancelled && final(config)@ == old(config)@),
        old(config)@.proxies.len() > 0 && choice is Some && choice->0 < old(config)@.proxies.len()
            && confirmed ==> (r matches ProxyChoice::Done(n) && n@ == old(config)@.proxies[choice->0 as int].0
            && final(config)@ == old(config)@.with_proxy_removed(n@)),
{
    let names = config.list_proxies();
    assert(names@.map_values(|s: String| s@).len() == names@.len());
    assert(keys_of(config@.proxies).len() == config@.proxies.len());
    if names.len() == 0 {
        return ProxyChoice::NoProxies;
    }
    let idx = match choose_index(choice, names.len()) {
        Some(i) => i,
        None => {
            return ProxyChoice::Cancelled;
        },
    };
    if !confirmed {
        return ProxyChoice::Cancelled;
    }
    let name = names[idx].clone();
    assert(names@.map_values(|s: String| s@)[idx as int] == name@);
    assert(keys_of(config@.proxies)[idx as int] == config@.proxies[idx as int].0);
    match config.remove_proxy(name.as_str()) {
        Ok(()) => ProxyChoice::Done(name),
        Err(e) => ProxyChoice::Failed(e),
    }
}

/// One row of the proxy list: marker, then name, platform, host, port and model in columns.
pub open spec fn proxy_row(name: Seq<char>, p: ProxyView, active: bool) -> Seq<char> {
    marker(active) + pad_right(name, 17) + " "@ + pad_right(p.platform, 16) + " "@ + pad_right(
        p.host,
        18,
    ) + " "@ + pad_right(decimal(p.port as nat), 10) + " "@ + pad_right(
        match p.current_model {
            Some(m) => m,
            None => Seq::<char>::empty(),
        },
        16,
    )
}

/// The rows that `proxy list` prints, one per configured proxy, in order.
pub fn handle_proxy_list(config: &AppConfig) -> (rows: Vec<String>)
    ensures
        rows@.len() == config@.proxies.len(),
        forall|i: int|
            0 <= i < rows@.len() ==> #[trigger] rows@[i]@ == proxy_row(
                config@.proxies[i].0,
                config@.proxies[i].1,
                config@.current_proxy == Some(config@.proxies[i].0),
            ),
{
    let mut rows: Vec<String> = Vec::new();
    let n = config.ai_proxies.len();
    let mut i: usize = 0;
    while i < n
        invariant
            i <= n == config@.proxies.len(),
            rows@.len() == i,
            forall|k: int|
                0 <= k < i ==> #[trigger] rows@[k]@ == proxy_row(
                    config@.proxies[k].0,
                    config@.proxies[k].1,
                    config@.current_proxy == Some(config@.proxies[k].0),
                ),
        decreases n - i,
    {
        let (name, p) = config.ai_proxies.entry_at(i);
        let active = match &config.current_proxy {
            Some(c) => crate::text::same_text(c, name.as_str()),
            None => false,
        };
        let mut v = if active {
            chars_of(" ➜ ")
        } else {
            chars_of("   ")
        };
        let name_chars = chars_of(name.as_str());
        append_padded(&mut v, &name_chars, 17);
        v.push(' ');
        let platform = chars_of(p.platform.as_str());
        append_padded(&mut v, &platform, 16);
        v.push(' ');
        let host = chars_of(p.host.as_str());
        append_padded(&mut v, &host, 18);
        v.push(' ');
        let port = decimal_chars(p.port);
        append_padded(&mut v, &port, 10);
        v.push(' ');
        let model = match &p.current_model {
            Some(m) => chars_of(m.as_str()),
            None => Vec::new(),
        };
        append_padded(&mut v, &model, 16);
        let row = string_of(&v);
        proof {
            reveal_strlit(" ");
        }
        assert(row@ =~= proxy_row(
            config@.proxies[i as int].0,
            config@.proxies[i as int].1,
            config@.current_proxy == Some(config@.proxies[i as int].0),
        ));
        rows.push(row);
        i = i + 1;
    }
    rows
}

/// Accepts a name for a new proxy: it may not be blank or already taken.
pub fn check_new_proxy_name(config: &AppConfig, name: &str) -> (r: Result<(), CrustyError>)
    ensures
        trim_seq(name@).len() == 0 ==> (r matches Err(e) && is_config_error(e, "Proxy name cannot be empty"@)),
        trim_seq(name@).len() != 0 && has_key(config@.proxies, name@) ==> (r matches Err(e)
            && is_config_error(e, "Proxy '"@ + name@ + "' already exists"@)),
        trim_seq(name@).len() != 0 && !has_key(config@.proxies, name@) ==> r is Ok,
{
    let v = chars_of(name);
    if trim_chars(&v).len() == 0 {
        return Err(CrustyError::config("Proxy name cannot be empty"));
    }
    if config.ai_proxies.contains_key(name) {
        return Err(CrustyError::ConfigError(crate::error::join3("Proxy '", name, "' already exists")));
    }
    Ok(())
}

/// Accepts a new name for the proxy `old_name`: it may not be blank, or the name of another
/// configured proxy.
pub fn check_proxy_rename(config: &AppConfig, old_name: &str, new_name: &str) -> (r: Result<(), CrustyError>)
    ensures
        trim_seq(new_name@).len() == 0 ==> (r matches Err(e) && is_config_error(e, "Proxy name cannot be empty"@)),
        trim_seq(new_name@).len() != 0 && new_name@ != old_name@ && has_key(config@.proxies, new_name@)
            ==> (r matches Err(e) && is_config_error(e, "Proxy '"@ + new_name@ + "' already exists"@)),
        trim_seq(new_name@).len() != 0 && (new_name@ == old_name@ || !has_key(config@.proxies, new_name@))
            ==> r is Ok,
{
    let v = chars_of(new_name);
    if trim_chars(&v).len() == 0 {
        return Err(CrustyError::config("Proxy name cannot be empty"));
    }
    let same = crate::text::same_text(&new_name.to_owned(), old_name);
    if !same && config.ai_proxies.contains_key(new_name) {
        return Err(CrustyError::ConfigError(crate::error::join3("Proxy '", new_name, "' already exists")));
    }
    Ok(())
}

impl ConfigView {
    /// The configuration with the proxy `old_name` replaced by `p` under `new_name`; if
    /// `old_name` was active, `new_name` is.
    pub open spec fn with_proxy_renamed(self, old_name: Seq<char>, new_name: Seq<char>, p: ProxyView) -> ConfigView {
        ConfigView {
            proxies: assoc_insert(assoc_remove(self.proxies, old_name), new_name, p),
            current_proxy: if self.current_proxy == Some(old_name) {
                Some(new_name)
            } else {
                self.current_proxy
            },
            ..self
        }
    }
}

/// `proxy edit`: replaces the proxy `old_name` by `proxy` under `new_name`, keeping it active
/// if it was.
pub fn apply_proxy_edit(config: &mut AppConfig, old_name: &str, new_name: String, proxy: AIProxyConfig)
    ensures
        final(config)@ == old(config)@.with_proxy_renamed(old_name@, new_name@, proxy@),
{
    let was_current = match &config.current_proxy {
        Some(current) => crate::text::same_text(current, old_name),
        None => false,
    };
    config.ai_proxies.remove(old_name);
    let name_copy = new_name.clone();
    config.ai_proxies.insert(new_name, proxy);
    if was_current {
        config.current_proxy = Some(name_copy);
    }
}

/// After an edit the proxy is found under its new name, the old name is gone when it
/// changed, and the active proxy stays a configured one.
pub proof fn law_proxy_edit(c: ConfigView, old_name: Seq<char>, new_name: Seq<char>, p: ProxyView)
    requires
        distinct_keys(c.proxies),
        c.proxy_selection_ok(),
    ensures
        c.with_proxy_renamed(old_name, new_name, p).proxy(new_name) == Some(p),
        new_name != old_name ==> c.with_proxy_renamed(old_name, new_name, p).proxy(old_name) is None,
        c.with_proxy_renamed(old_name, new_name, p).proxy_selection_ok(),
{
    let removed = assoc_remove(c.proxies, old_name);
    lemma_remove_distinct(c.proxies, old_name);
    law_lookup_after_insert(removed, new_name, p);
    lemma_insert_distinct(removed, new_name, p);
    if new_name != old_name {
        law_lookup_other_after_insert(removed, new_name, old_name, p);
        law_lookup_after_remove(c.proxies, old_name);
    }
    let r = c.with_proxy_renamed(old_name, new_name, p);
    if let Some(n) = r.current_proxy {
        if n != new_name {
            assert(c.current_proxy == Some(n));
            assert(n != old_name);
            law_lookup_other_after_remove(c.proxies, old_name, n);
            law_lookup_other_after_insert(removed, new_name, n, p);
            lemma_index_of_key(c.proxies, crate::names::index_of_key(c.proxies, n));
        }
    }
}


/// Whether to go on with starting or stopping the proxy after reading its status: go on
/// whatever the status was, but not when it could not be read, whose error is then the
/// outcome.
pub fn proceed_after_status(running: Result<bool, CrustyError>) -> (r: Result<(), CrustyError>)
    ensures
        running is Ok ==> r is Ok,
        running matches Err(e) ==> r == Err::<(), CrustyError>(e),
{
    match running {
        Ok(_) => Ok(()),
        Err(e) => Err(e),
    }
}

} // verus!
