//! OpenAI-compatible providers: their configuration, URL normalisation and validity.
use vstd::prelude::*;

use crate::names::NameMap;
use crate::text::{
    chars_of, contains_char, copy_opt_string, has_prefix, opt_text, same_text, slice_chars, string_of,
    is_white_space, trim_chars, trim_end_char, trim_end_char_seq, trim_end_seq, trim_seq,
    trim_start_seq,
};

verus! {

/// The kinds of provider that the configuration names.
#[derive(Debug, Clone, Copy, PartialEq, Eq, Structural)]
pub enum ProviderType {
    OpenAI,
    Anthropic,
    LocalProxy,
    Custom,
}

/// The name under which each provider type is written.
pub open spec fn provider_type_name(t: ProviderType) -> Seq<char> {
    match t {
        ProviderType::OpenAI => "openai"@,
        ProviderType::Anthropic => "anthropic"@,
        ProviderType::LocalProxy => "local-proxy"@,
        ProviderType::Custom => "custom"@,
    }
}

/// The provider type that a written name stands for; unknown names are `Custom`.
pub open spec fn provider_type_of(name: Seq<char>) -> ProviderType {
    if name == "openai"@ {
        ProviderType::OpenAI
    } else if name == "anthropic"@ {
        ProviderType::Anthropic
    } else if name == "local-proxy"@ {
        ProviderType::LocalProxy
    } else {
        ProviderType::Custom
    }
}

impl ProviderType {
    /// The name under which the type is written (`openai`, `anthropic`, `local-proxy`, `custom`).
    pub fn to_string(&self) -> (s: String)
        ensures
            s@ == provider_type_name(*self),
    {
        match self {
            ProviderType::OpenAI => "openai".to_owned(),
            ProviderType::Anthropic => "anthropic".to_owned(),
            ProviderType::LocalProxy => "local-proxy".to_owned(),
            ProviderType::Custom => "custom".to_owned(),
        }
    }
}

/// An OpenAI-compatible provider.
#[derive(Debug)]
pub struct ProviderConfig {
    /// Provider type (openai, anthropic, local-proxy, custom).
    pub provider_type: String,
    /// API base URL (e.g. `https://api.openai.com/v1`).
    pub base_url: String,
    /// API key for authentication.
    pub api_key: String,
    /// Default model for this provider.
    pub default_model: Option<String>,
    /// Additional metadata.
    pub metadata: NameMap<String>,
}

/// The text of a provider configuration.
pub struct ProviderView {
    pub provider_type: Seq<char>,
    pub base_url: Seq<char>,
    pub api_key: Seq<char>,
    pub default_model: Option<Seq<char>>,
    pub metadata: Seq<(Seq<char>, Seq<char>)>,
}

impl View for ProviderConfig {
    type V = ProviderView;

    open spec fn view(&self) -> ProviderView {
        ProviderView {
            provider_type: self.provider_type@,
            base_url: self.base_url@,
            api_key: self.api_key@,
            default_model: opt_text(self.default_model),
            metadata: self.metadata@,
        }
    }
}

impl Clone for ProviderConfig {
    /// A copy with the same text.
    fn clone(&self) -> (r: Self)
        ensures
            r@ == self@,
    {
        ProviderConfig {
            provider_type: self.provider_type.clone(),
            base_url: self.base_url.clone(),
            api_key: self.api_key.clone(),
            default_model: copy_opt_string(&self.default_model),
            metadata: self.metadata.clone(),
        }
    }
}

impl Default for ProviderConfig {
    /// A provider with empty type, URL and key, no model and no metadata.
    fn default() -> (r: Self)
        ensures
            r@.provider_type.len() == 0,
            r@.base_url.len() == 0,
            r@.api_key.len() == 0,
            r@.default_model is None,
            r@.metadata.len() == 0,
    {
        ProviderConfig {
            provider_type: String::new(),
            base_url: String::new(),
            api_key: String::new(),
            default_model: None,
            metadata: NameMap::new(),
        }
    }
}

/// `http://`
pub open spec fn http_scheme() -> Seq<char> {
    seq!['h', 't', 't', 'p', ':', '/', '/']
}

/// `https://`
pub open spec fn https_scheme() -> Seq<char> {
    seq!['h', 't', 't', 'p', 's', ':', '/', '/']
}

/// The URL starts with `http://` or `https://`.
pub open spec fn has_http_scheme(url: Seq<char>) -> bool {
    http_scheme().is_prefix_of(url) || https_scheme().is_prefix_of(url)
}

/// What follows the `://` of an `http://` or `https://` URL.
pub open spec fn after_scheme(url: Seq<char>) -> Seq<char> {
    if http_scheme().is_prefix_of(url) {
        url.skip(7)
    } else {
        url.skip(8)
    }
}

/// `/v1`
pub open spec fn v1_path() -> Seq<char> {
    seq!['/', 'v', '1']
}

/// The base URL as stored: surrounding white space and trailing `/`s removed, and, for an
/// `http(s)://` URL that has no path, `/v1` appended.
pub open spec fn normalized_base_url(url: Seq<char>) -> Seq<char> {
    let n = trim_end_char_seq(trim_seq(url), '/');
    if has_http_scheme(n) && !after_scheme(n).contains('/') {
        n + v1_path()
    } else {
        n
    }
}

/// A provider is usable: it has a key and an `http(s)://` base URL.
pub open spec fn provider_is_valid(p: ProviderView) -> bool {
    &&& p.base_url.len() > 0
    &&& p.api_key.len() > 0
    &&& has_http_scheme(p.base_url)
}

fn scheme_chars() -> (r: (Vec<char>, Vec<char>))
    ensures
        r.0@ == http_scheme(),
        r.1@ == https_scheme(),
{
    let h = chars_of("http://");
    let hs = chars_of("https://");
    proof {
        reveal_strlit("http://");
        reveal_strlit("https://");
        assert(h@ =~= http_scheme());
        assert(hs@ =~= https_scheme());
    }
    (h, hs)
}

/// Whether the characters start with `http://` or `https://`.
fn chars_have_http_scheme(v: &Vec<char>) -> (b: bool)
    ensures
        b == has_http_scheme(v@),
{
    let (h, hs) = scheme_chars();
    has_prefix(v, &h) || has_prefix(v, &hs)
}

impl ProviderConfig {
    /// Normalises a base URL: trims white space and trailing `/`, and appends `/v1` to an
    /// `http(s)://` URL that has no path, where OpenAI-compatible endpoints usually live.
    pub fn normalize_base_url(base_url: &str) -> (r: String)
        ensures
            r@ == normalized_base_url(base_url@),
    {
        let raw = chars_of(base_url);
        let trimmed = trim_chars(&raw);
        let mut n = trim_end_char(&trimmed, '/');
        if chars_have_http_scheme(&n) {
            let (h, _hs) = scheme_chars();
            let skip: usize = if has_prefix(&n, &h) {
                7
            } else {
                8
            };
            let rest = slice_chars(&n, skip, n.len());
            assert(rest@ =~= after_scheme(n@));
            if !contains_char(&rest, '/') {
                let ghost before = n@;
                n.push('/');
                n.push('v');
                n.push('1');
                assert(n@ =~= before + v1_path());
            }
        }
        string_of(&n)
    }

    /// A provider with a normalised base URL and no metadata.
    pub fn new(provider_type: &str, base_url: &str, api_key: &str, default_model: Option<String>) -> (r: Self)
        ensures
            r@.provider_type == provider_type@,
            r@.base_url == normalized_base_url(base_url@),
            r@.api_key == api_key@,
            r@.default_model == opt_text(default_model),
            r@.metadata.len() == 0,
    {
        ProviderConfig {
            provider_type: provider_type.to_owned(),
            base_url: Self::normalize_base_url(base_url),
            api_key: api_key.to_owned(),
            default_model,
            metadata: NameMap::new(),
        }
    }

    /// Whether the provider has an API key and an `http://` or `https://` base URL.
    pub fn is_valid(&self) -> (b: bool)
        ensures
            b == provider_is_valid(self@),
    {
        let url = chars_of(self.base_url.as_str());
        let key = chars_of(self.api_key.as_str());
        url.len() != 0 && key.len() != 0 && chars_have_http_scheme(&url)
    }

    /// The provider type that the configuration names; unknown names give `Custom`.
    pub fn get_provider_type(&self) -> (t: ProviderType)
        ensures
            t == provider_type_of(self@.provider_type),
    {
        if same_text(&self.provider_type, "openai") {
            ProviderType::OpenAI
        } else if same_text(&self.provider_type, "anthropic") {
            ProviderType::Anthropic
        } else if same_text(&self.provider_type, "local-proxy") {
            ProviderType::LocalProxy
        } else {
            ProviderType::Custom
        }
    }
}

proof fn lemma_trim_end_char_no_trailing(s: Seq<char>, c: char)
    ensures
        trim_end_char_seq(s, c).len() == 0 || trim_end_char_seq(s, c).last() != c,
        trim_end_char_seq(s, c).is_prefix_of(s),
    decreases s.len(),
{
    if s.len() > 0 && s.last() == c {
        lemma_trim_end_char_no_trailing(s.drop_last(), c);
        let r = trim_end_char_seq(s.drop_last(), c);
        assert(s.drop_last().subrange(0, r.len() as int) =~= s.subrange(0, r.len() as int));
    } else {
        assert(s.subrange(0, s.len() as int) =~= s);
    }
}

proof fn lemma_scheme_extends(n: Seq<char>, x: Seq<char>)
    requires
        has_http_scheme(n),
    ensures
        has_http_scheme(n + x),
        after_scheme(n + x) == after_scheme(n) + x,
{
    let m = n + x;
    if http_scheme().is_prefix_of(n) {
        assert(m.subrange(0, 7) =~= n.subrange(0, 7));
        assert(m.skip(7) =~= n.skip(7) + x);
    } else {
        assert(m.subrange(0, 8) =~= n.subrange(0, 8));
        assert(m.subrange(0, 7) =~= n.subrange(0, 7));
        assert(m.skip(8) =~= n.skip(8) + x);
    }
}

/// A normalised base URL never ends with `/`.
pub proof fn law_normalized_has_no_trailing_slash(url: Seq<char>)
    ensures
        normalized_base_url(url).len() == 0 || normalized_base_url(url).last() != '/',
{
    lemma_trim_end_char_no_trailing(trim_seq(url), '/');
}

/// A normalised `http(s)://` base URL always has a path after its host.
pub proof fn law_normalized_http_url_has_path(url: Seq<char>)
    ensures
        has_http_scheme(normalized_base_url(url)) ==> after_scheme(normalized_base_url(url)).contains('/'),
{
    let n = trim_end_char_seq(trim_seq(url), '/');
    if has_http_scheme(n) {
        if !after_scheme(n).contains('/') {
            lemma_scheme_extends(n, v1_path());
            let r = after_scheme(n) + v1_path();
            assert(r[after_scheme(n).len() as int] == '/');
        }
    } else {
        assert(normalized_base_url(url) == n);
    }
}

/// Leading white space is gone once trimmed from the start.
proof fn lemma_trim_start_head(s: Seq<char>)
    ensures
        trim_start_seq(s).len() == 0 || !is_white_space(trim_start_seq(s)[0]),
    decreases s.len(),
{
    if s.len() > 0 && is_white_space(s[0]) {
        lemma_trim_start_head(s.drop_first());
    }
}

/// Trimming the end keeps a prefix.
proof fn lemma_trim_end_prefix(s: Seq<char>)
    ensures
        trim_end_seq(s).len() <= s.len(),
        trim_end_seq(s) =~= s.subrange(0, trim_end_seq(s).len() as int),
    decreases s.len(),
{
    if s.len() > 0 && is_white_space(s.last()) {
        lemma_trim_end_prefix(s.drop_last());
    }
}

/// Removing trailing `c`s keeps a prefix.
proof fn lemma_trim_end_char_prefix(s: Seq<char>, c: char)
    ensures
        trim_end_char_seq(s, c).len() <= s.len(),
        trim_end_char_seq(s, c) =~= s.subrange(0, trim_end_char_seq(s, c).len() as int),
    decreases s.len(),
{
    if s.len() > 0 && s.last() == c {
        lemma_trim_end_char_prefix(s.drop_last(), c);
    }
}

/// Normalising a base URL twice gives what normalising it once gave, unless the URL
/// normalised once ends with white space (left behind by removing trailing `/`s, as in
/// `"x /"`), which the second pass trims.
pub proof fn law_normalize_idempotent(url: Seq<char>)
    requires
        normalized_base_url(url).len() == 0 || !is_white_space(normalized_base_url(url).last()),
    ensures
        normalized_base_url(normalized_base_url(url)) == normalized_base_url(url),
{
    let t = trim_seq(url);
    let n = trim_end_char_seq(t, '/');
    let m = normalized_base_url(url);
    lemma_trim_start_head(url);
    lemma_trim_end_prefix(trim_start_seq(url));
    lemma_trim_end_char_prefix(t, '/');
    if n.len() > 0 {
        assert(n[0] == t[0]);
        assert(t[0] == trim_start_seq(url)[0]);
        assert(m[0] == n[0]);
    }
    assert(trim_start_seq(m) == m);
    assert(trim_end_seq(m) == m);
    law_normalized_has_no_trailing_slash(url);
    assert(trim_end_char_seq(m, '/') == m);
    law_normalized_http_url_has_path(url);
}

/// A provider whose trimmed base URL starts with `http://` or `https://` and does not end
/// with `/` is valid as soon as its key is not empty.
pub proof fn law_new_provider_valid(url: Seq<char>, key: Seq<char>, ptype: Seq<char>, model: Option<Seq<char>>)
    requires
        has_http_scheme(trim_seq(url)),
        trim_seq(url).last() != '/',
        key.len() > 0,
    ensures
        provider_is_valid(
            ProviderView {
                provider_type: ptype,
                base_url: normalized_base_url(url),
                api_key: key,
                default_model: model,
                metadata: Seq::empty(),
            },
        ),
{
    let t = trim_seq(url);
    assert(t.len() >= 7);
    assert(trim_end_char_seq(t, '/') == t);
    if !after_scheme(t).contains('/') {
        lemma_scheme_extends(t, v1_path());
    }
}

} // verus!
