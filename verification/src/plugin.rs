//! Plugins: their metadata, where they are installed, and which of them are registered.
use vstd::prelude::*;

use crate::config::{copy_strings, AppConfig, PluginConfig, PluginView};
use crate::error::{join3, CrustyError};
use crate::names::{assoc_insert, NameMap};
use crate::text::{
    append_padded, chars_of, pad_right, same_text, split_on, split_on_char, string_of, texts_of,
};

verus! {

/// The `plugin` subcommands.
#[derive(Debug)]
pub enum PluginCommands {
    /// Install a plugin from a local package or manifest path.
    Install { path: String },
}

/// A build of a plugin for one operating system and architecture.
#[derive(Debug)]
pub struct PlatformInfo {
    pub os: String,
    pub arch: String,
    pub file: String,
}

/// What a plugin's `metadata.json` declares.
#[derive(Debug)]
pub struct PluginMetadata {
    pub name: String,
    pub id: String,
    pub version: Option<String>,
    pub platforms: Vec<PlatformInfo>,
    pub features: Option<Vec<String>>,
}

/// The build at `i` is for `os` and `arch`.
pub open spec fn platform_matches(p: Seq<PlatformInfo>, i: int, os: Seq<char>, arch: Seq<char>) -> bool {
    p[i].os@ == os && p[i].arch@ == arch
}

impl PluginMetadata {
    /// The library file of the first build for `os` and `arch`.
    pub fn find_compatible_binary(&self, os: &str, arch: &str) -> (r: Option<&String>)
        ensures
            (match r {
                Some(f) => exists|i: int|
                    0 <= i < self.platforms@.len() && platform_matches(self.platforms@, i, os@, arch@)
                        && f@ == self.platforms@[i].file@ && forall|j: int|
                        0 <= j < i ==> !platform_matches(self.platforms@, j, os@, arch@),
                None => forall|i: int|
                    0 <= i < self.platforms@.len() ==> !platform_matches(self.platforms@, i, os@, arch@),
            }),
    {
        let mut i: usize = 0;
        while i < self.platforms.len()
            invariant
                i <= self.platforms@.len(),
                forall|j: int| 0 <= j < i ==> !platform_matches(self.platforms@, j, os@, arch@),
            decreases self.platforms.len() - i,
        {
            let p = &self.platforms[i];
            if same_text(&p.os, os) && same_text(&p.arch, arch) {
                assert(platform_matches(self.platforms@, i as int, os@, arch@));
                return Some(&p.file);
            }
            i = i + 1;
        }
        None
    }

    /// The plugin entry to record for this plugin, whose library was installed at `file`.
    pub fn plugin_entry(&self, file: String) -> (p: PluginConfig)
        ensures
            p@.name == self.name@,
            p@.id == self.id@,
            p@.file == file@,
            p@.features == (match self.features {
                Some(f) => Some(texts_of(f@)),
                None => None,
            }),
    {
        PluginConfig {
            name: self.name.clone(),
            id: self.id.clone(),
            file,
            features: match &self.features {
                Some(f) => Some(copy_strings(f)),
                None => None,
            },
        }
    }

    /// The refusal of a plugin without a build for this system.
    pub fn unsupported_error(&self) -> (e: CrustyError)
        ensures
            e matches CrustyError::PluginError(m) && m@ == "The '"@ + self.name@
                + "' plugin is not supported on this operating system or architecture! "@,
    {
        CrustyError::PluginError(
            join3("The '", self.name.as_str(), "' plugin is not supported on this operating system or architecture! "),
        )
    }
}

/// The refusal of a declared library file that is missing.
pub fn missing_binary_error(file: &str) -> (e: CrustyError)
    ensures
        e matches CrustyError::PluginError(m) && m@ == "The binary file '"@ + file@
            + "' is declared but does not exist!"@,
{
    CrustyError::PluginError(join3("The binary file '", file, "' is declared but does not exist!"))
}

/// The directories, one inside the other, where a plugin with this id is installed: the
/// id's parts between `/`.
pub fn plugin_dir_parts(plugin_id: &str) -> (parts: Vec<String>)
    ensures
        texts_of(parts@) == split_on(plugin_id@, '/'),
{
    let s = chars_of(plugin_id);
    let pieces = split_on_char(&s, '/');
    let mut parts: Vec<String> = Vec::new();
    let mut i: usize = 0;
    while i < pieces.len()
        invariant
            i <= pieces.len(),
            pieces@.map_values(|v: Vec<char>| v@) == split_on(plugin_id@, '/'),
            texts_of(parts@) == split_on(plugin_id@, '/').take(i as int),
        decreases pieces.len() - i,
    {
        let piece = string_of(&pieces[i]);
        let ghost prev = parts@;
        parts.push(piece);
        assert(texts_of(parts@) =~= texts_of(prev).push(piece@));
        assert(split_on(plugin_id@, '/').take(i + 1) =~= split_on(plugin_id@, '/').take(i as int).push(
            pieces@[i as int]@,
        ));
        i = i + 1;
    }
    assert(split_on(plugin_id@, '/').take(pieces.len() as int) =~= split_on(plugin_id@, '/'));
    parts
}

/// The plugin list without the plugins that have the id `id`.
pub open spec fn without_plugin(plugins: Seq<PluginView>, id: Seq<char>) -> Seq<PluginView>
    decreases plugins.len(),
{
    if plugins.len() == 0 {
        Seq::empty()
    } else {
        let rest = without_plugin(plugins.drop_last(), id);
        if plugins.last().id == id {
            rest
        } else {
            rest.push(plugins.last())
        }
    }
}

/// Removes the plugins with the id `id` from the configuration; the others keep their order.
pub fn remove_plugin_entry(config: &mut AppConfig, id: &str)
    ensures
        final(config)@ == (crate::config::ConfigView {
            plugins: without_plugin(old(config)@.plugins, id@),
            ..old(config)@
        }),
{
    let mut plugins: Vec<PluginConfig> = Vec::new();
    std::mem::swap(&mut plugins, &mut config.plugins);
    let ghost all = plugins@.map_values(|p: PluginConfig| p@);
    let mut kept: Vec<PluginConfig> = Vec::new();
    let mut i: usize = 0;
    while i < plugins.len()
        invariant
            i <= plugins.len(),
            all == plugins@.map_values(|p: PluginConfig| p@),
            kept@.map_values(|p: PluginConfig| p@) == without_plugin(all.take(i as int), id@),
        decreases plugins.len() - i,
    {
        assert(all.take(i + 1).drop_last() =~= all.take(i as int));
        let p = plugins[i].clone();
        if !same_text(&p.id, id) {
            let ghost prev = kept@;
            kept.push(p);
            assert(kept@.map_values(|q: PluginConfig| q@) =~= prev.map_values(|q: PluginConfig| q@).push(p@));
        }
        i = i + 1;
    }
    assert(all.take(plugins.len() as int) =~= all);
    config.plugins = kept;
}

/// A removed plugin is gone, and every other plugin stays.
pub proof fn law_remove_plugin(plugins: Seq<PluginView>, id: Seq<char>)
    ensures
        forall|p: PluginView| without_plugin(plugins, id).contains(p) ==> p.id != id,
        forall|p: PluginView| plugins.contains(p) && p.id != id ==> without_plugin(plugins, id).contains(p),
    decreases plugins.len(),
{
    if plugins.len() > 0 {
        let d = plugins.drop_last();
        law_remove_plugin(d, id);
        let r = without_plugin(d, id);
        assert forall|p: PluginView| plugins.contains(p) && p.id != id implies without_plugin(
            plugins,
            id,
        ).contains(p) by {
            let k = choose|k: int| 0 <= k < plugins.len() && plugins[k] == p;
            if k < plugins.len() - 1 {
                assert(d[k] == p);
                assert(d.contains(p));
                assert(r.contains(p));
                let j = choose|j: int| 0 <= j < r.len() && r[j] == p;
                assert(without_plugin(plugins, id)[j] == p);
            } else {
                assert(without_plugin(plugins, id)[r.len() as int] == p);
            }
        }
        assert forall|p: PluginView| without_plugin(plugins, id).contains(p) implies p.id != id by {
            let w = without_plugin(plugins, id);
            let k = choose|k: int| 0 <= k < w.len() && w[k] == p;
            if k < r.len() {
                assert(r[k] == p);
                assert(r.contains(p));
            } else {
                assert(plugins.last() == p);
            }
        }
    }
}

/// `<name> (<id>)`: how a plugin is named in the menu that picks one to remove.
pub open spec fn plugin_choice(p: PluginView) -> Seq<char> {
    p.name + " ("@ + p.id + ")"@
}

/// The entries of the menu that picks a plugin to remove, one per installed plugin, in order.
pub fn plugin_choices(config: &AppConfig) -> (items: Vec<String>)
    ensures
        items@.len() == config@.plugins.len(),
        forall|i: int| 0 <= i < items@.len() ==> #[trigger] items@[i]@ == plugin_choice(config@.plugins[i]),
{
    let mut items: Vec<String> = Vec::new();
    let mut i: usize = 0;
    while i < config.plugins.len()
        invariant
            i <= config.plugins@.len(),
            items@.len() == i,
            forall|k: int| 0 <= k < i ==> #[trigger] items@[k]@ == plugin_choice(config@.plugins[k]),
        decreases config.plugins.len() - i,
    {
        let p = &config.plugins[i];
        let mut v = chars_of(p.name.as_str());
        crate::text::append_str(&mut v, " (");
        crate::text::append_str(&mut v, p.id.as_str());
        crate::text::append_str(&mut v, ")");
        items.push(string_of(&v));
        i = i + 1;
    }
    items
}

/// One row of the plugin list: name, id and library file in columns.
pub open spec fn plugin_row(p: PluginView) -> Seq<char> {
    pad_right(p.name, 24) + " "@ + pad_right(p.id, 24) + " "@ + pad_right(p.file, 48)
}

/// The rows that `plugin list` prints, one per installed plugin, in order.
pub fn handle_plugin_list(config: &AppConfig) -> (rows: Vec<String>)
    ensures
        rows@.len() == config@.plugins.len(),
        forall|i: int| 0 <= i < rows@.len() ==> #[trigger] rows@[i]@ == plugin_row(config@.plugins[i]),
{
    let mut rows: Vec<String> = Vec::new();
    let mut i: usize = 0;
    while i < config.plugins.len()
        invariant
            i <= config.plugins@.len(),
            rows@.len() == i,
            forall|k: int| 0 <= k < i ==> #[trigger] rows@[k]@ == plugin_row(config@.plugins[k]),
        decreases config.plugins.len() - i,
    {
        let p = &config.plugins[i];
        let mut v: Vec<char> = Vec::new();
        let name = chars_of(p.name.as_str());
        append_padded(&mut v, &name, 24);
        v.push(' ');
        let id = chars_of(p.id.as_str());
        append_padded(&mut v, &id, 24);
        v.push(' ');
        let file = chars_of(p.file.as_str());
        append_padded(&mut v, &file, 48);
        let row = string_of(&v);
        proof {
            reveal_strlit(" ");
        }
        assert(row@ =~= plugin_row(config@.plugins[i as int]));
        rows.push(row);
        i = i + 1;
    }
    rows
}

/// The plugins that are loaded, by id.
pub struct PluginRegistry {
    pub plugins: NameMap<PluginConfig>,
}

impl PluginRegistry {
    /// No plugin loaded.
    pub fn new() -> (r: Self)
        ensures
            r.plugins@.len() == 0,
    {
        PluginRegistry { plugins: NameMap::new() }
    }
}

/// Records the plugin `config` as loaded under `id`, replacing one loaded before under it.
pub fn register_plugin(registry: &mut PluginRegistry, id: &str, config: &PluginConfig)
    ensures
        final(registry).plugins@ == assoc_insert(old(registry).plugins@, id@, config@),
{
    registry.plugins.insert(id.to_owned(), config.clone());
}

/// The registry after loading each plugin of the list under its id, in order.
pub open spec fn registered_all(s: Seq<(Seq<char>, PluginView)>, plugins: Seq<PluginView>) -> Seq<(Seq<char>, PluginView)>
    decreases plugins.len(),
{
    if plugins.len() == 0 {
        s
    } else {
        let before = registered_all(s, plugins.drop_last());
        assoc_insert(before, plugins.last().id, plugins.last())
    }
}

/// Loads every plugin of the list, under its id.
pub fn load_all_plugin(registry: &mut PluginRegistry, plugins: &Vec<PluginConfig>)
    ensures
        final(registry).plugins@ == registered_all(
            old(registry).plugins@,
            plugins@.map_values(|p: PluginConfig| p@),
        ),
{
    let ghost start = registry.plugins@;
    let ghost all = plugins@.map_values(|p: PluginConfig| p@);
    let mut i: usize = 0;
    while i < plugins.len()
        invariant
            i <= plugins.len(),
            all == plugins@.map_values(|p: PluginConfig| p@),
            registry.plugins@ == registered_all(start, all.take(i as int)),
        decreases plugins.len() - i,
    {
        assert(all.take(i + 1).drop_last() =~= all.take(i as int));
        let p = &plugins[i];
        let id = p.id.clone();
        register_plugin(registry, id.as_str(), p);
        i = i + 1;
    }
    assert(all.take(plugins.len() as int) =~= all);
}

/// The plugin declared the `chat` feature.
pub open spec fn has_chat_feature(p: PluginView) -> bool {
    p.features matches Some(f) && f.contains("chat"@)
}

/// The ids of the registered plugins that declared `chat`, in order.
pub open spec fn chat_ids(s: Seq<(Seq<char>, PluginView)>) -> Seq<Seq<char>>
    decreases s.len(),
{
    if s.len() == 0 {
        Seq::empty()
    } else {
        let rest = chat_ids(s.drop_last());
        if has_chat_feature(s.last().1) {
            rest.push(s.last().0)
        } else {
            rest
        }
    }
}

/// Whether the plugin declared the `chat` feature.
pub fn declares_chat(p: &PluginConfig) -> (b: bool)
    ensures
        b == has_chat_feature(p@),
        b <==> (p.features matches Some(f) && exists|i: int| 0 <= i < f@.len() && #[trigger] f@[i]@ == "chat"@),
{
    match &p.features {
        Some(f) => {
            let mut i: usize = 0;
            while i < f.len()
                invariant
                    i <= f.len(),
                    p@.features == Some(texts_of(f@)),
                    forall|j: int| 0 <= j < i ==> f@[j]@ != "chat"@,
                decreases f.len() - i,
            {
                if same_text(&f[i], "chat") {
                    assert(texts_of(f@)[i as int] == "chat"@);
                    assert(texts_of(f@).contains("chat"@));
                    assert(p@.features == Some(texts_of(f@)));
                    return true;
                }
                i = i + 1;
            }
            assert forall|j: int| 0 <= j < texts_of(f@).len() implies texts_of(f@)[j] != "chat"@ by {
                assert(texts_of(f@)[j] == f@[j]@);
            }
            false
        },
        None => false,
    }
}

/// The ids of the loaded plugins whose chat hook is started.
pub fn chat_plugin_ids(registry: &PluginRegistry) -> (ids: Vec<String>)
    ensures
        texts_of(ids@) == chat_ids(registry.plugins@),
{
    let mut ids: Vec<String> = Vec::new();
    let n = registry.plugins.len();
    let mut i: usize = 0;
    while i < n
        invariant
            i <= n == registry.plugins@.len(),
            texts_of(ids@) == chat_ids(registry.plugins@.take(i as int)),
        decreases n - i,
    {
        assert(registry.plugins@.take(i + 1).drop_last() =~= registry.plugins@.take(i as int));
        let (id, p) = registry.plugins.entry_at(i);
        if declares_chat(p) {
            let ghost prev = ids@;
            let copy = id.clone();
            ids.push(copy);
            assert(texts_of(ids@) =~= texts_of(prev).push(copy@));
        }
        i = i + 1;
    }
    assert(registry.plugins@.take(n as int) =~= registry.plugins@);
    ids
}


/// A plugin declares chat exactly when `chat` is one of its features, wherever it stands
/// among them.
pub proof fn law_chat_feature_anywhere(p: PluginView)
    ensures
        has_chat_feature(p) <==> (p.features matches Some(f) && exists|i: int| 0 <= i < f.len() && #[trigger] f[i] == "chat"@),
{
}

} // verus!
