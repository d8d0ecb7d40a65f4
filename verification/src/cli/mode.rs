//! Showing and switching the running mode.
use vstd::prelude::*;

use crate::config::{run_mode_name, AppConfig, ConfigView, RunMode};
use crate::error::{is_config_error, CrustyError};
use crate::names::keys_of;
use crate::text::{append_str, chars_of, copy_opt_string, join_seq, join_strings, string_of, texts_of};

verus! {

/// The `mode` subcommands.
#[derive(Debug, Clone, Copy, PartialEq, Eq, Structural)]
pub enum ModeCommands {
    /// Show current mode.
    Show,
    /// Switch between proxy and provider mode.
    Switch,
}

/// `\n📍 Current Mode: <mode>`
pub open spec fn current_mode_line(m: RunMode) -> Seq<char> {
    "\n📍 Current Mode: "@ + run_mode_name(m)
}

/// The lines that describe the mode: the mode, the active proxy or provider (when one is
/// set) and the configured ones, comma-separated.
pub open spec fn mode_lines(c: ConfigView, m: RunMode) -> Seq<Seq<char>> {
    match m {
        RunMode::Proxy => {
            let active = match c.current_proxy {
                Some(n) => seq!["   Active Proxy: "@ + n],
                None => Seq::<Seq<char>>::empty(),
            };
            seq![current_mode_line(m)] + active + seq![
                "   Available Proxies: "@ + join_seq(keys_of(c.proxies), ", "@),
            ]
        },
        RunMode::Provider => {
            let active = match c.current_provider {
                Some(n) => seq!["   Active Provider: "@ + n],
                None => Seq::<Seq<char>>::empty(),
            };
            seq![current_mode_line(m)] + active + seq![
                "   Available Providers: "@ + join_seq(keys_of(c.providers), ", "@),
            ]
        },
    }
}

/// What `mode show` prints: the lines describing the mode, or the error when no mode is
/// chosen.
pub fn handle_mode_show(config: &AppConfig) -> (r: Result<Vec<String>, CrustyError>)
    ensures
        (match config@.mode {
            Some(m) => r matches Ok(lines) && texts_of(lines@) == mode_lines(config@, m),
            None => r matches Err(e) && is_config_error(e, crate::config::no_mode_text()),
        }),
{
    let mode = config.get_mode()?;
    let mut lines: Vec<String> = Vec::new();
    let mut first = chars_of("\n📍 Current Mode: ");
    let name = mode.to_string();
    append_str(&mut first, name.as_str());
    lines.push(string_of(&first));
    let ghost l0 = texts_of(lines@);
    match mode {
        RunMode::Proxy => {
            if let Some(n) = &config.current_proxy {
                let mut v = chars_of("   Active Proxy: ");
                append_str(&mut v, n.as_str());
                lines.push(string_of(&v));
            }
            let names = config.list_proxies();
            assert(texts_of(names@) == keys_of(config@.proxies));
            let joined = join_strings(&names, ", ");
            let mut v = chars_of("   Available Proxies: ");
            append_str(&mut v, joined.as_str());
            lines.push(string_of(&v));
            assert(texts_of(lines@) =~= mode_lines(config@, mode));
        },
        RunMode::Provider => {
            if let Some(n) = &config.current_provider {
                let mut v = chars_of("   Active Provider: ");
                append_str(&mut v, n.as_str());
                lines.push(string_of(&v));
            }
            let names = config.list_providers();
            assert(texts_of(names@) == keys_of(config@.providers));
            let joined = join_strings(&names, ", ");
            let mut v = chars_of("   Available Providers: ");
            append_str(&mut v, joined.as_str());
            lines.push(string_of(&v));
            assert(texts_of(lines@) =~= mode_lines(config@, mode));
        },
    }
    Ok(lines)
}

/// The entry of the mode menu ("Provider", "Proxy") that is offered first: the current
/// mode's, or "Provider" when no mode is chosen.
pub fn mode_menu_default(config: &AppConfig) -> (i: usize)
    ensures
        i == (match config.mode {
            Some(RunMode::Proxy) => 1usize,
            _ => 0usize,
        }),
{
    match config.mode {
        Some(RunMode::Provider) => 0,
        Some(RunMode::Proxy) => 1,
        None => 0,
    }
}

/// The mode chosen in the mode menu: the first entry is provider mode, any other proxy mode.
pub fn mode_from_choice(i: usize) -> (m: RunMode)
    ensures
        m == (if i == 0 {
            RunMode::Provider
        } else {
            RunMode::Proxy
        }),
{
    if i == 0 {
        RunMode::Provider
    } else {
        RunMode::Proxy
    }
}

/// What switching the mode did.
#[derive(Debug)]
pub enum ModeSwitch {
    /// The agent already ran in that mode; nothing changed.
    AlreadyActive,
    /// The mode changed; the active proxy or provider of the new mode, if any.
    Switched(Option<String>),
}

/// Switches to `new_mode`: nothing to do when it is already the mode; otherwise the mode
/// is set as `set_mode` allows.
pub fn switch_mode(config: &mut AppConfig, new_mode: RunMode) -> (r: Result<ModeSwitch, CrustyError>)
    ensures
        (if old(config).mode == Some(new_mode) {
            &&& r matches Ok(ModeSwitch::AlreadyActive)
            &&& final(config)@ == old(config)@
        } else if !old(config)@.mode_available(new_mode) {
            &&& r matches Err(e) && is_config_error(e, crate::config::mode_unavailable_text(new_mode))
            &&& final(config)@ == old(config)@
        } else {
            &&& r matches Ok(ModeSwitch::Switched(active)) && crate::text::opt_text(active) == (
            match new_mode {
                RunMode::Proxy => old(config)@.current_proxy,
                RunMode::Provider => old(config)@.current_provider,
            })
            &&& final(config)@ == old(config)@.with_mode(new_mode)
        }),
{
    if let Some(current) = config.mode {
        if current == new_mode {
            return Ok(ModeSwitch::AlreadyActive);
        }
    }
    config.set_mode(new_mode)?;
    let active = match new_mode {
        RunMode::Proxy => copy_opt_string(&config.current_proxy),
        RunMode::Provider => copy_opt_string(&config.current_provider),
    };
    Ok(ModeSwitch::Switched(active))
}


/// What `mode show` prints names the mode first and lists, last, exactly the configured
/// proxies (in proxy mode) or providers (in provider mode), by name, in order, joined by
/// `, `; between them stands the active one's name when one is set.
pub proof fn law_mode_lines(c: ConfigView, m: RunMode)
    ensures
        mode_lines(c, m)[0] == "\n📍 Current Mode: "@ + run_mode_name(m),
        m == RunMode::Proxy ==> mode_lines(c, m).last() == "   Available Proxies: "@ + join_seq(
            keys_of(c.proxies),
            ", "@,
        ),
        m == RunMode::Provider ==> mode_lines(c, m).last() == "   Available Providers: "@ + join_seq(
            keys_of(c.providers),
            ", "@,
        ),
        m == RunMode::Proxy ==> mode_lines(c, m).len() == (if c.current_proxy is Some { 3int } else { 2int }),
        m == RunMode::Provider ==> mode_lines(c, m).len() == (if c.current_provider is Some { 3int } else { 2int }),
        m == RunMode::Proxy && c.current_proxy is Some ==> mode_lines(c, m)[1] == "   Active Proxy: "@
            + c.current_proxy->0,
        m == RunMode::Provider && c.current_provider is Some ==> mode_lines(c, m)[1]
            == "   Active Provider: "@ + c.current_provider->0,
{
}

} // verus!
