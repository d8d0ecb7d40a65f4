//! Where the agent's memory database lives: building and reading SQLite store URIs.
use vstd::prelude::*;

use crate::config::{AppConfig, ConfigView, StoreConfig, StoreView};
use crate::error::{join3, CrustyError};
use crate::text::concat2;
use crate::text::{
    append_chars, chars_of, has_prefix, has_suffix, is_suffix, replace_char, replace_char_seq,
    slice_chars, string_of, trim_chars, trim_seq,
};

verus! {

/// `sqlite:`
pub open spec fn sqlite_prefix() -> Seq<char> {
    seq!['s', 'q', 'l', 'i', 't', 'e', ':']
}

/// `?mode=rwc`
pub open spec fn rwc_suffix() -> Seq<char> {
    seq!['?', 'm', 'o', 'd', 'e', '=', 'r', 'w', 'c']
}

/// The database path named by a store URI: the text between `sqlite:` and `?mode=rwc`
/// when the URI has both, else the URI itself.
pub open spec fn store_path_of(uri: Seq<char>) -> Seq<char> {
    if sqlite_prefix().is_prefix_of(uri) && is_suffix(rwc_suffix(), uri.skip(7)) {
        uri.subrange(7, uri.len() - 9)
    } else {
        uri
    }
}

/// A path as written into a store URI: trimmed, with `\` turned into `/`.
pub open spec fn uri_path(path: Seq<char>) -> Seq<char> {
    replace_char_seq(trim_seq(path), '\\', '/')
}

/// The SQLite URI for a database path; the database is created when missing.
pub open spec fn sqlite_uri(path: Seq<char>) -> Seq<char> {
    sqlite_prefix() + uri_path(path) + rwc_suffix()
}

fn uri_parts() -> (r: (Vec<char>, Vec<char>))
    ensures
        r.0@ == sqlite_prefix(),
        r.1@ == rwc_suffix(),
{
    let p = chars_of("sqlite:");
    let s = chars_of("?mode=rwc");
    proof {
        reveal_strlit("sqlite:");
        reveal_strlit("?mode=rwc");
        assert(p@ =~= sqlite_prefix());
        assert(s@ =~= rwc_suffix());
    }
    (p, s)
}

/// The database path that a store URI names.
pub fn extract_store_path(uri: &str) -> (r: String)
    ensures
        r@ == store_path_of(uri@),
{
    let u = chars_of(uri);
    let (pre, suf) = uri_parts();
    if has_prefix(&u, &pre) {
        let rest = slice_chars(&u, 7, u.len());
        assert(rest@ =~= u@.skip(7));
        if has_suffix(&rest, &suf) {
            let path = slice_chars(&u, 7, u.len() - 9);
            return string_of(&path);
        }
    }
    string_of(&u)
}

/// The SQLite URI for the database at `path`.
pub fn build_sqlite_store_uri(path: &str) -> (r: String)
    ensures
        r@ == sqlite_uri(path@),
{
    let p = chars_of(path);
    let t = trim_chars(&p);
    let body = replace_char(&t, '\\', '/');
    let (pre, suf) = uri_parts();
    let mut v = pre;
    append_chars(&mut v, &body);
    append_chars(&mut v, &suf);
    string_of(&v)
}

/// A SQLite store for the database at `path`.
pub fn build_store_config(path: String) -> (r: StoreConfig)
    ensures
        r@.store_type == "sqlite"@,
        r@.uri == sqlite_uri(path@),
{
    StoreConfig { store_type: "sqlite".to_owned(), uri: build_sqlite_store_uri(path.as_str()) }
}

/// The database path to offer: the configured store's path, else `fallback` (the default
/// database file) written with `/` separators.
pub fn default_store_path(config: &AppConfig, fallback: &str) -> (r: String)
    ensures
        r@ == (match config@.store {
            Some(s) => store_path_of(s.uri),
            None => replace_char_seq(fallback@, '\\', '/'),
        }),
{
    match &config.store {
        Some(store) => extract_store_path(store.uri.as_str()),
        None => {
            let f = chars_of(fallback);
            let r = replace_char(&f, '\\', '/');
            string_of(&r)
        },
    }
}

/// The store's database kind is one the agent can use (`sqlite`).
pub open spec fn store_supported(s: StoreView) -> bool {
    s.store_type == "sqlite"@
}

/// Accepts a SQLite store; refuses any other kind of database.
pub fn check_store_type(store: &StoreConfig) -> (r: Result<(), CrustyError>)
    ensures
        store_supported(store@) ==> r is Ok,
        !store_supported(store@) ==> (r matches Err(CrustyError::AgentMemoryError(m)) && m@
            == "Unsupported database "@ + store@.store_type + " "@),
{
    if crate::text::same_text(&store.store_type, "sqlite") {
        Ok(())
    } else {
        Err(CrustyError::AgentMemoryError(join3("Unsupported database ", store.store_type.as_str(), " ")))
    }
}

/// Reading the path back from a URI built for it gives the path as it was written in.
pub proof fn law_store_path_round_trip(path: Seq<char>)
    ensures
        store_path_of(sqlite_uri(path)) == uri_path(path),
{
    let u = sqlite_uri(path);
    let body = uri_path(path);
    assert(sqlite_prefix().is_prefix_of(u)) by {
        assert(u.subrange(0, 7) =~= sqlite_prefix());
    }
    assert(u.skip(7) =~= body + rwc_suffix());
    assert(is_suffix(rwc_suffix(), u.skip(7))) by {
        let r = u.skip(7);
        assert(r.subrange(r.len() - 9, r.len() as int) =~= rwc_suffix());
    }
    assert(u.subrange(7, u.len() - 9) =~= body);
}


/// The SQLite store of the database at `path`.
pub open spec fn sqlite_store(path: Seq<char>) -> StoreView {
    StoreView { store_type: "sqlite"@, uri: sqlite_uri(path) }
}

/// The configuration with `s` as its store.
pub open spec fn with_store(c: ConfigView, s: StoreView) -> ConfigView {
    ConfigView { store: Some(s), ..c }
}

/// The store settings as shown: its type, its URI and its database path; `None` when no
/// store is configured.
pub fn store_settings_lines(config: &AppConfig) -> (r: Option<Vec<String>>)
    ensures
        config@.store is None ==> r is None,
        config@.store matches Some(s) ==> (r matches Some(v) && v@.len() == 3 && v@[0]@ == "Type: "@
            + s.store_type && v@[1]@ == "URI : "@ + s.uri && v@[2]@ == "Path: "@ + store_path_of(
            s.uri,
        )),
{
    match &config.store {
        None => None,
        Some(store) => {
            let mut v: Vec<String> = Vec::new();
            v.push(concat2("Type: ", store.store_type.as_str()));
            v.push(concat2("URI : ", store.uri.as_str()));
            let p = extract_store_path(store.uri.as_str());
            v.push(concat2("Path: ", p.as_str()));
            Some(v)
        },
    }
}

/// Points the store at the database `path` the user typed; a path that is blank once
/// trimmed is refused and leaves the configuration as it was.
pub fn apply_store_edit(config: &mut AppConfig, path: String) -> (r: Result<(), String>)
    ensures
        trim_seq(path@).len() == 0 ==> (r matches Err(m) && m@ == "Store path cannot be empty"@
            && final(config)@ == old(config)@),
        trim_seq(path@).len() > 0 ==> (r is Ok && final(config)@ == with_store(
            old(config)@,
            sqlite_store(path@),
        )),
{
    let v = chars_of(path.as_str());
    let t = trim_chars(&v);
    if t.len() == 0 {
        return Err("Store path cannot be empty".to_owned());
    }
    config.store = Some(build_store_config(path));
    Ok(())
}

/// Points the store back at the default database `default_path`.
pub fn apply_store_reset(config: &mut AppConfig, default_path: String)
    ensures
        final(config)@ == with_store(old(config)@, sqlite_store(default_path@)),
{
    config.store = Some(build_store_config(default_path));
}

/// After the store is pointed at a path, the path offered for the next edit is that path
/// as written into the URI (trimmed, with `/` separators).
pub proof fn law_store_edit_read_back(c: ConfigView, path: Seq<char>)
    ensures
        with_store(c, sqlite_store(path)).store matches Some(s) && store_path_of(s.uri) == uri_path(path),
{
    law_store_path_round_trip(path);
}


/// The store that the agent's memory opens: the configured one; without one the user is
/// told to set it up.
pub fn configured_store(config: &AppConfig) -> (r: Result<StoreConfig, String>)
    ensures
        config@.store matches Some(s) ==> (r matches Ok(c) && c@ == s),
        config@.store is None ==> (r matches Err(m) && m@ == "Store not configured. Please setup your store."@),
{
    match &config.store {
        Some(s) => Ok(s.clone()),
        None => Err("Store not configured. Please setup your store.".to_owned()),
    }
}

} // verus!
