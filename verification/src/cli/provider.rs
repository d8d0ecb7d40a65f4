//! Adding, listing, removing and switching providers.
use vstd::prelude::*;

use crate::config::AppConfig;
use crate::error::{is_config_error, CrustyError};
use crate::menus::choose_index;
use crate::names::keys_of;
use crate::provider::{normalized_base_url, ProviderConfig, ProviderView};
use crate::text::{append_padded, chars_of, pad_right, string_of};

verus! {

/// The `provider` subcommands.
#[derive(Debug, Clone, Copy, PartialEq, Eq, Structural)]
pub enum ProviderCommands {
    /// List all configured providers.
    List,
    /// Add a new OpenAI-compatible provider.
    Add,
    /// Remove a provider.
    Remove,
    /// Switch to a different provider.
    Switch,
}

/// The provider types offered when a provider is added, in menu order.
pub open spec fn offered_provider_type(i: nat) -> Seq<char> {
    if i == 0 {
        "openai"@
    } else if i == 1 {
        "anthropic"@
    } else {
        "custom"@
    }
}

/// The provider type at position `i` of the menu ("openai", "anthropic", "custom").
pub fn provider_type_choice(i: usize) -> (t: &'static str)
    requires
        i < 3,
    ensures
        t@ == offered_provider_type(i as nat),
{
    if i == 0 {
        "openai"
    } else if i == 1 {
        "anthropic"
    } else {
        "custom"
    }
}

/// What the user answered when adding a provider.
pub struct ProviderAnswers {
    pub name: String,
    /// The position chosen in the provider type menu.
    pub type_index: usize,
    pub base_url: String,
    pub api_key: String,
    pub default_model: String,
}

/// The provider that complete answers describe.
pub open spec fn answered_provider(a: ProviderAnswers) -> ProviderView {
    ProviderView {
        provider_type: offered_provider_type(a.type_index as nat),
        base_url: normalized_base_url(a.base_url@),
        api_key: a.api_key@,
        default_model: Some(a.default_model@),
        metadata: Seq::empty(),
    }
}

/// Builds a provider from the user's answers; the name, base URL, key and model must not be
/// empty, checked in that order.
pub fn provider_from_answers(answers: ProviderAnswers) -> (r: Result<(String, ProviderConfig), CrustyError>)
    requires
        answers.type_index < 3,
    ensures
        (if answers.name@.len() == 0 {
            r matches Err(e) && is_config_error(e, "Provider name cannot be empty"@)
        } else if answers.base_url@.len() == 0 {
            r matches Err(e) && is_config_error(e, "Base URL cannot be empty"@)
        } else if answers.api_key@.len() == 0 {
            r matches Err(e) && is_config_error(e, "API Key cannot be empty"@)
        } else if answers.default_model@.len() == 0 {
            r matches Err(e) && is_config_error(e, "Default model cannot be empty"@)
        } else {
            r matches Ok(p) && p.0@ == answers.name@ && p.1@ == answered_provider(answers)
        }),
{
    let ghost a = answers;
    let ProviderAnswers { name, type_index, base_url, api_key, default_model } = answers;
    if chars_of(name.as_str()).len() == 0 {
        return Err(CrustyError::config("Provider name cannot be empty"));
    }
    if chars_of(base_url.as_str()).len() == 0 {
        return Err(CrustyError::config("Base URL cannot be empty"));
    }
    if chars_of(api_key.as_str()).len() == 0 {
        return Err(CrustyError::config("API Key cannot be empty"));
    }
    if chars_of(default_model.as_str()).len() == 0 {
        return Err(CrustyError::config("Default model cannot be empty"));
    }
    let provider_type = provider_type_choice(type_index);
    let p = ProviderConfig::new(provider_type, base_url.as_str(), api_key.as_str(), Some(default_model));
    assert(p@.metadata =~= Seq::<(Seq<char>, Seq<char>)>::empty());
    Ok((name, p))
}

/// The marker in front of the active entry of a list.
pub open spec fn marker(active: bool) -> Seq<char> {
    if active {
        " ➜ "@
    } else {
        "   "@
    }
}

/// One row of the provider list: marker, name, type and base URL in columns.
pub open spec fn provider_row(name: Seq<char>, p: ProviderView, active: bool) -> Seq<char> {
    marker(active) + pad_right(name, 17) + " "@ + pad_right(p.provider_type, 20) + " "@ + pad_right(
        p.base_url,
        50,
    )
}

/// The rows that `provider list` prints, one per configured provider, in order.
pub fn handle_provider_list(config: &AppConfig) -> (rows: Vec<String>)
    ensures
        rows@.len() == config@.providers.len(),
        forall|i: int|
            0 <= i < rows@.len() ==> #[trigger] rows@[i]@ == provider_row(
                config@.providers[i].0,
                config@.providers[i].1,
                config@.current_provider == Some(config@.providers[i].0),
            ),
{
    let mut rows: Vec<String> = Vec::new();
    let n = config.providers.len();
    let mut i: usize = 0;
    while i < n
        invariant
            i <= n == config@.providers.len(),
            rows@.len() == i,
            forall|k: int|
                0 <= k < i ==> #[trigger] rows@[k]@ == provider_row(
                    config@.providers[k].0,
                    config@.providers[k].1,
                    config@.current_provider == Some(config@.providers[k].0),
                ),
        decreases n - i,
    {
        let (name, p) = config.providers.entry_at(i);
        let active = match &config.current_provider {
            Some(c) => crate::text::same_text(c, name.as_str()),
            None => false,
        };
        let mut v = if active {
            chars_of(" ➜ ")
        } else {
            chars_of("   ")
        };
        let name_chars = chars_of(name.as_str());
        append_padded(&mut v, &name_chars, 17);
        v.push(' ');
        let t = chars_of(p.provider_type.as_str());
        append_padded(&mut v, &t, 20);
        v.push(' ');
        let u = chars_of(p.base_url.as_str());
        append_padded(&mut v, &u, 50);
        let row = string_of(&v);
        proof {
            reveal_strlit(" ");
        }
        assert(row@ =~= provider_row(
            config@.providers[i as int].0,
            config@.providers[i as int].1,
            config@.current_provider == Some(config@.providers[i as int].0),
        ));
        rows.push(row);
        i = i + 1;
    }
    rows
}

/// What choosing a provider in a list of them led to.
#[derive(Debug)]
pub enum ProviderChoice {
    /// No provider is configured.
    NoProviders,
    /// Nothing was chosen.
    Cancelled,
    /// The provider was removed or activated.
    Done(String),
    /// The change was refused.
    Failed(CrustyError),
}

/// `provider switch`: activates the provider chosen in the list of configured providers.
pub fn handle_provider_switch(config: &mut AppConfig, choice: Option<usize>) -> (r: ProviderChoice)
    ensures
        old(config)@.providers.len() == 0 ==> (r matches ProviderChoice::NoProviders && final(config)@ == old(config)@),
        old(config)@.providers.len() > 0 && (choice is None || choice->0 >= old(config)@.providers.len()) ==> (r matches ProviderChoice::Cancelled && final(config)@ == old(config)@),
        old(config)@.providers.len() > 0 && choice is Some && choice->0 < old(config)@.providers.len()
            ==> (r matches ProviderChoice::Done(n) && n@ == old(config)@.providers[choice->0 as int].0
            && final(config)@ == old(config)@.with_current_provider(Some(n@))),
{
    let names = config.list_providers();
    assert(names@.map_values(|s: String| s@).len() == names@.len());
    assert(keys_of(config@.providers).len() == config@.providers.len());
    if names.len() == 0 {
        return ProviderChoice::NoProviders;
    }
    let idx = match choose_index(choice, names.len()) {
        Some(i) => i,
        None => {
            return ProviderChoice::Cancelled;
        },
    };
    let name = names[idx].clone();
    assert(names@.map_values(|s: String| s@)[idx as int] == name@);
    assert(keys_of(config@.providers)[idx as int] == config@.providers[idx as int].0);
    proof {
        use_type_invariant(&config.providers);
        crate::names::lemma_index_of_key(config@.providers, idx as int);
    }
    match config.set_current_provider(Some(name.clone())) {
        Ok(()) => ProviderChoice::Done(name),
        Err(e) => ProviderChoice::Failed(e),
    }
}

/// `provider remove`: removes the provider chosen (and confirmed) in the list of configured
/// providers.
pub fn handle_provider_remove(config: &mut AppConfig, choice: Option<usize>, confirmed: bool) -> (r: ProviderChoice)
    ensures
        old(config)@.providers.len() == 0 ==> (r matches ProviderChoice::NoProviders && final(config)@ == old(config)@),
        old(config)@.providers.len() > 0 && (choice is None || choice->0 >= old(config)@.providers.len() || !confirmed) ==> (r matches ProviderChoice::Cancelled && final(config)@
            == old(config)@),
        old(config)@.providers.len() > 0 && choice is Some && choice->0 < old(config)@.providers.len()
            && confirmed ==> (r matches ProviderChoice::Done(n) && n@ == old(config)@.providers[choice->0 as int].0 && final(config)@ == old(config)@.with_provider_removed(n@)),
{
    let names = config.list_providers();
    assert(names@.map_values(|s: String| s@).len() == names@.len());
    assert(keys_of(config@.providers).len() == config@.providers.len());
    if names.len() == 0 {
        return ProviderChoice::NoProviders;
    }
    let idx = match choose_index(choice, names.len()) {
        Some(i) => i,
        None => {
            return ProviderChoice::Cancelled;
        },
    };
    if !confirmed {
        return ProviderChoice::Cancelled;
    }
    let name = names[idx].clone();
    assert(names@.map_values(|s: String| s@)[idx as int] == name@);
    assert(keys_of(config@.providers)[idx as int] == config@.providers[idx as int].0);
    match config.remove_provider(name.as_str()) {
        Ok(()) => ProviderChoice::Done(name),
        Err(e) => ProviderChoice::Failed(e),
    }
}

} // verus!
