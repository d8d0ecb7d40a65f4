//! The interactive menus: which area or action a menu choice stands for.
use vstd::prelude::*;

use crate::text::{chars_of, string_of, trim_chars, trim_seq};

verus! {

/// The position chosen in a menu of `n` entries, if the choice stands for one of them.
pub open spec fn picked(choice: Option<usize>, n: nat) -> Option<nat> {
    match choice {
        Some(i) => if i < n {
            Some(i as nat)
        } else {
            None
        },
        None => None,
    }
}

/// The areas of the configuration menu.
#[derive(Debug, Clone, Copy, PartialEq, Eq, Structural)]
pub enum ConfigArea {
    Mode,
    Provider,
    Plugin,
    Proxy,
    Store,
    Setup,
}

/// The configuration menu's entries, in order; the seventh entry is "Back".
pub open spec fn config_area_at(i: nat) -> ConfigArea {
    if i == 0 {
        ConfigArea::Mode
    } else if i == 1 {
        ConfigArea::Provider
    } else if i == 2 {
        ConfigArea::Plugin
    } else if i == 3 {
        ConfigArea::Proxy
    } else if i == 4 {
        ConfigArea::Store
    } else {
        ConfigArea::Setup
    }
}

/// The area to open for a choice in the configuration menu; `None` (back, or the menu was
/// dismissed) leaves the menu.
pub fn handle_config_menu(choice: Option<usize>) -> (r: Option<ConfigArea>)
    ensures
        r == (match picked(choice, 6) {
            Some(i) => Some(config_area_at(i)),
            None => None,
        }),
{
    match choice {
        Some(0) => Some(ConfigArea::Mode),
        Some(1) => Some(ConfigArea::Provider),
        Some(2) => Some(ConfigArea::Plugin),
        Some(3) => Some(ConfigArea::Proxy),
        Some(4) => Some(ConfigArea::Store),
        Some(5) => Some(ConfigArea::Setup),
        _ => None,
    }
}

/// The actions of the mode settings menu.
#[derive(Debug, Clone, Copy, PartialEq, Eq, Structural)]
pub enum ModeAction {
    Show,
    Switch,
}

/// The action for a choice in the mode settings menu ("Show mode", "Switch mode", "Back").
pub fn handle_mode_settings_menu(choice: Option<usize>) -> (r: Option<ModeAction>)
    ensures
        r == (match picked(choice, 2) {
            Some(i) => Some(if i == 0 {
                ModeAction::Show
            } else {
                ModeAction::Switch
            }),
            None => None,
        }),
{
    match choice {
        Some(0) => Some(ModeAction::Show),
        Some(1) => Some(ModeAction::Switch),
        _ => None,
    }
}

/// The actions of the provider settings menu.
#[derive(Debug, Clone, Copy, PartialEq, Eq, Structural)]
pub enum ProviderAction {
    List,
    Add,
    Remove,
    Switch,
}

/// The provider settings menu's entries, in order; the fifth entry is "Back".
pub open spec fn provider_action_at(i: nat) -> ProviderAction {
    if i == 0 {
        ProviderAction::List
    } else if i == 1 {
        ProviderAction::Add
    } else if i == 2 {
        ProviderAction::Remove
    } else {
        ProviderAction::Switch
    }
}

/// The action for a choice in the provider settings menu.
pub fn handle_provider_settings_menu(choice: Option<usize>) -> (r: Option<ProviderAction>)
    ensures
        r == (match picked(choice, 4) {
            Some(i) => Some(provider_action_at(i)),
            None => None,
        }),
{
    match choice {
        Some(0) => Some(ProviderAction::List),
        Some(1) => Some(ProviderAction::Add),
        Some(2) => Some(ProviderAction::Remove),
        Some(3) => Some(ProviderAction::Switch),
        _ => None,
    }
}

/// The actions of the proxy settings menu.
#[derive(Debug, Clone, Copy, PartialEq, Eq, Structural)]
pub enum ProxyAction {
    List,
    Add,
    Edit,
    Remove,
    Switch,
    Start,
    Stop,
    Dashboard,
}

/// The proxy settings menu's entries, in order; the ninth entry is "Back".
pub open spec fn proxy_action_at(i: nat) -> ProxyAction {
    if i == 0 {
        ProxyAction::List
    } else if i == 1 {
        ProxyAction::Add
    } else if i == 2 {
        ProxyAction::Edit
    } else if i == 3 {
        ProxyAction::Remove
    } else if i == 4 {
        ProxyAction::Switch
    } else if i == 5 {
        ProxyAction::Start
    } else if i == 6 {
        ProxyAction::Stop
    } else {
        ProxyAction::Dashboard
    }
}

/// The action for a choice in the proxy settings menu.
pub fn handle_proxy_settings_menu(choice: Option<usize>) -> (r: Option<ProxyAction>)
    ensures
        r == (match picked(choice, 8) {
            Some(i) => Some(proxy_action_at(i)),
            None => None,
        }),
{
    match choice {
        Some(0) => Some(ProxyAction::List),
        Some(1) => Some(ProxyAction::Add),
        Some(2) => Some(ProxyAction::Edit),
        Some(3) => Some(ProxyAction::Remove),
        Some(4) => Some(ProxyAction::Switch),
        Some(5) => Some(ProxyAction::Start),
        Some(6) => Some(ProxyAction::Stop),
        Some(7) => Some(ProxyAction::Dashboard),
        _ => None,
    }
}

/// The actions of the plugin settings menu.
#[derive(Debug, Clone, Copy, PartialEq, Eq, Structural)]
pub enum PluginAction {
    List,
    Install,
    Remove,
}

/// The action for a choice in the plugin settings menu ("List plugins", "Install plugin",
/// "Remove plugin", "Back").
pub fn handle_plugin_settings_menu(choice: Option<usize>) -> (r: Option<PluginAction>)
    ensures
        r == (match picked(choice, 3) {
            Some(i) => Some(if i == 0 {
                PluginAction::List
            } else if i == 1 {
                PluginAction::Install
            } else {
                PluginAction::Remove
            }),
            None => None,
        }),
{
    match choice {
        Some(0) => Some(PluginAction::List),
        Some(1) => Some(PluginAction::Install),
        Some(2) => Some(PluginAction::Remove),
        _ => None,
    }
}

/// The actions of the store settings menu.
#[derive(Debug, Clone, Copy, PartialEq, Eq, Structural)]
pub enum StoreAction {
    Show,
    Edit,
    Reset,
}

/// The action for a choice in the store settings menu ("Show store", "Edit store path",
/// "Reset store", "Back").
pub fn handle_store_settings_menu(choice: Option<usize>) -> (r: Option<StoreAction>)
    ensures
        r == (match picked(choice, 3) {
            Some(i) => Some(if i == 0 {
                StoreAction::Show
            } else if i == 1 {
                StoreAction::Edit
            } else {
                StoreAction::Reset
            }),
            None => None,
        }),
{
    match choice {
        Some(0) => Some(StoreAction::Show),
        Some(1) => Some(StoreAction::Edit),
        Some(2) => Some(StoreAction::Reset),
        _ => None,
    }
}

/// The plugin path to install from what was typed: nothing when the prompt failed or the
/// answer is blank, else the answer trimmed.
pub fn handle_plugin_install_prompt(answer: Option<String>) -> (r: Option<String>)
    ensures
        (match answer {
            Some(a) => if trim_seq(a@).len() == 0 {
                r is None
            } else {
                r matches Some(p) && p@ == trim_seq(a@)
            },
            None => r is None,
        }),
{
    match answer {
        Some(a) => {
            let v = chars_of(a.as_str());
            let t = trim_chars(&v);
            if t.len() == 0 {
                None
            } else {
                Some(string_of(&t))
            }
        },
        None => None,
    }
}

/// The entry picked in a list of `len` names: the choice when it is within the list.
pub fn choose_index(choice: Option<usize>, len: usize) -> (r: Option<usize>)
    ensures
        r == (match choice {
            Some(i) => if i < len {
                Some(i)
            } else {
                None
            },
            None => None,
        }),
{
    match choice {
        Some(i) => if i < len {
            Some(i)
        } else {
            None
        },
        None => None,
    }
}


/// What the start screen's menu ("Chat", "Config") leads to.
#[derive(Debug, Clone, Copy, PartialEq, Eq, Structural)]
pub enum StartAction {
    Chat,
    Config,
    /// No entry was chosen: the menu is shown again.
    Menu,
}

/// The step for a choice in the start screen's menu; `None` (the menu was dismissed) leaves
/// the start screen.
pub fn handle_start_menu(choice: Option<usize>) -> (r: Option<StartAction>)
    ensures
        choice is None ==> r is None,
        choice == Some(0usize) ==> r == Some(StartAction::Chat),
        choice == Some(1usize) ==> r == Some(StartAction::Config),
        (choice matches Some(i) && i >= 2) ==> r == Some(StartAction::Menu),
{
    match choice {
        None => None,
        Some(0) => Some(StartAction::Chat),
        Some(1) => Some(StartAction::Config),
        Some(_) => Some(StartAction::Menu),
    }
}


/// How the start screen goes on after its banner.
#[derive(Debug, Clone, Copy, PartialEq, Eq, Structural)]
pub enum StartFlow {
    /// `start --chat`: straight into one chat session, then leave.
    ChatOnce,
    /// The start menu, until it is dismissed.
    Menu,
}

/// The flow of `start`: straight into chat when `--chat` was given, else the menu.
pub fn start_flow(jump_to_chat: bool) -> (f: StartFlow)
    ensures
        f == (if jump_to_chat {
            StartFlow::ChatOnce
        } else {
            StartFlow::Menu
        }),
{
    if jump_to_chat {
        StartFlow::ChatOnce
    } else {
        StartFlow::Menu
    }
}

} // verus!
