//! A one-layer config: provider entries that carry every key, and the MCP servers they select from.
//!
//! `~/.iota.yaml|yml` merged under `./.iota.yaml|yml`, or one file given by name; the key, the URL and the system
//! file are expanded once, when a file is merged.

use vstd::prelude::*;
use vstd::string::*;

use crate::app::env::{expand, expanded, Env, EnvView};
use crate::config::agent::{opt_strs, SystemSource};
use crate::config::error::ConfigError;
use crate::config::migrate::LegacyProviderEntry;
use crate::config::provider::or_else;
use crate::config::server::{McpServerConfig, ServerView};
use crate::config::{select_servers, selects, with_servers};
use crate::double::Double;
use crate::map::{pairs_of, Duplicate, StrMap};
use crate::provider::{effort_named, opt_view, set_text, Effort, ImageGenParams, InvalidEffort};
use crate::text::{copy_strs, lossy_text, own, push_text, read_lossy, strs};
use crate::yaml::Node;

verus! {

/// What a [`LegacyProviderEntry`] says.
pub struct FlatView {
    pub kind: Seq<char>,
    pub key: Seq<char>,
    pub url: Seq<char>,
    pub model: Seq<char>,
    pub context_window: Seq<char>,
    pub defer_mode: Seq<char>,
    pub effort: Seq<char>,
    pub temperature: Option<Double>,
    pub top_p: Option<Double>,
    pub image: bool,
    pub aspect_ratio: Seq<char>,
    pub image_size: Seq<char>,
    pub negative_prompt: Seq<char>,
    pub json_edits: bool,
    pub system: Seq<char>,
    pub system_file: Seq<char>,
    pub tools: Map<Seq<char>, Node>,
    pub mcp_servers: Option<Seq<Seq<char>>>,
    pub agent: bool,
    pub no_save: bool,
    pub notify: Option<bool>,
}

impl View for LegacyProviderEntry {
    type V = FlatView;

    open spec fn view(&self) -> FlatView {
        FlatView {
            kind: self.kind@,
            key: self.key@,
            url: self.url@,
            model: self.model@,
            context_window: self.context_window@,
            defer_mode: self.defer_mode@,
            effort: self.effort@,
            temperature: self.temperature,
            top_p: self.top_p,
            image: self.image,
            aspect_ratio: self.aspect_ratio@,
            image_size: self.image_size@,
            negative_prompt: self.negative_prompt@,
            json_edits: self.json_edits,
            system: self.system@,
            system_file: self.system_file@,
            tools: self.tools@,
            mcp_servers: opt_strs(self.mcp_servers),
            agent: self.agent,
            no_save: self.no_save,
            notify: self.notify,
        }
    }
}

/// The entry that says nothing.
pub open spec fn blank_entry() -> FlatView {
    FlatView {
        kind: Seq::empty(),
        key: Seq::empty(),
        url: Seq::empty(),
        model: Seq::empty(),
        context_window: Seq::empty(),
        defer_mode: Seq::empty(),
        effort: Seq::empty(),
        temperature: None,
        top_p: None,
        image: false,
        aspect_ratio: Seq::empty(),
        image_size: Seq::empty(),
        negative_prompt: Seq::empty(),
        json_edits: false,
        system: Seq::empty(),
        system_file: Seq::empty(),
        tools: Map::empty(),
        mcp_servers: None,
        agent: false,
        no_save: false,
        notify: None,
    }
}

impl Default for LegacyProviderEntry {
    /// The entry that says nothing.
    fn default() -> (r: LegacyProviderEntry)
        ensures
            r@ == blank_entry(),
    {
        LegacyProviderEntry {
            kind: String::new(),
            key: String::new(),
            url: String::new(),
            model: String::new(),
            context_window: String::new(),
            defer_mode: String::new(),
            effort: String::new(),
            temperature: None,
            top_p: None,
            image: false,
            aspect_ratio: String::new(),
            image_size: String::new(),
            negative_prompt: String::new(),
            json_edits: false,
            system: String::new(),
            system_file: String::new(),
            tools: StrMap::new(),
            mcp_servers: None,
            agent: false,
            no_save: false,
            notify: None,
        }
    }
}

impl Duplicate for LegacyProviderEntry {
    fn duplicate(&self) -> (r: LegacyProviderEntry) {
        LegacyProviderEntry {
            kind: self.kind.clone(),
            key: self.key.clone(),
            url: self.url.clone(),
            model: self.model.clone(),
            context_window: self.context_window.clone(),
            defer_mode: self.defer_mode.clone(),
            effort: self.effort.clone(),
            temperature: self.temperature,
            top_p: self.top_p,
            image: self.image,
            aspect_ratio: self.aspect_ratio.clone(),
            image_size: self.image_size.clone(),
            negative_prompt: self.negative_prompt.clone(),
            json_edits: self.json_edits,
            system: self.system.clone(),
            system_file: self.system_file.clone(),
            tools: self.tools.duplicate(),
            mcp_servers: match &self.mcp_servers {
                Some(v) => Some(copy_strs(v)),
                None => None,
            },
            agent: self.agent,
            no_save: self.no_save,
            notify: self.notify,
        }
    }
}

impl LegacyProviderEntry {
    /// `effort:` as a level; `Ok(None)` when the key is unset.
    pub fn effort(&self) -> (r: Result<Option<Effort>, InvalidEffort>)
        ensures
            self@.effort.len() == 0 ==> r == Ok::<Option<Effort>, InvalidEffort>(None),
            self@.effort.len() > 0 ==> match effort_named(self@.effort) {
                Some(e) => r == Ok::<Option<Effort>, InvalidEffort>(Some(e)),
                None => r matches Err(InvalidEffort(n)) && n@ == self@.effort,
            },
    {
        Effort::optional(self.effort.as_str())
    }

    /// `aspect_ratio:` / `image_size:` / `negative_prompt:`; an empty value is unset.
    pub fn image_gen_params(&self) -> (r: ImageGenParams)
        ensures
            opt_view(r.aspect_ratio) == set_text(self@.aspect_ratio),
            opt_view(r.image_size) == set_text(self@.image_size),
            opt_view(r.negative_prompt) == set_text(self@.negative_prompt),
    {
        ImageGenParams::from_raw(
            self.aspect_ratio.as_str(),
            self.image_size.as_str(),
            self.negative_prompt.as_str(),
        )
    }

    /// Where the system prompt comes from: inline `system` wins; else `system_file`.
    pub fn system_source(&self) -> (r: SystemSource)
        ensures
            match r {
                SystemSource::Inline(t) => (self@.system.len() > 0 || self@.system_file.len() == 0)
                    && t@ == self@.system,
                SystemSource::File(p) => self@.system.len() == 0 && self@.system_file.len() > 0
                    && p@ == self@.system_file,
            },
    {
        if !self.system.as_str().is_empty() || self.system_file.as_str().is_empty() {
            SystemSource::Inline(self.system.clone())
        } else {
            SystemSource::File(self.system_file.clone())
        }
    }

    /// The system prompt, given what reading the system file gave: its bytes, or the text of the failure.
    pub fn resolve_system(&self, read: Result<Vec<u8>, String>) -> (r: Result<String, ConfigError>)
        ensures
            self@.system.len() > 0 || self@.system_file.len() == 0 ==> (r matches Ok(t) && t@
                == self@.system),
            self@.system.len() == 0 && self@.system_file.len() > 0 ==> match read {
                Ok(data) => r matches Ok(t) && t@ == lossy_text(data@),
                Err(e) => r matches Err(ConfigError::SystemFile(m)) && m@ == "open "@
                    + self@.system_file + ": "@ + e@,
            },
    {
        match self.system_source() {
            SystemSource::Inline(t) => Ok(t),
            SystemSource::File(path) => match read {
                Ok(data) => Ok(read_lossy(data.as_slice())),
                Err(e) => {
                    let mut m: String = own("open ");
                    m.append(path.as_str());
                    m.append(": ");
                    m.append(e.as_str());
                    Err(ConfigError::SystemFile(m))
                },
            },
        }
    }
}

/// The whole of a one-layer config.
pub struct FlatConfig {
    /// `providers:` — aliases and per-type defaults, by name.
    pub providers: StrMap<LegacyProviderEntry>,
    /// `mcp_servers:` — the servers a provider may select, by name.
    pub mcp_servers: StrMap<McpServerConfig>,
}

/// What a [`FlatConfig`] says.
pub struct FlatConfigView {
    pub providers: Map<Seq<char>, FlatView>,
    pub mcp_servers: Map<Seq<char>, ServerView>,
}

impl View for FlatConfig {
    type V = FlatConfigView;

    open spec fn view(&self) -> FlatConfigView {
        FlatConfigView { providers: self.providers@, mcp_servers: self.mcp_servers@ }
    }
}

impl Default for FlatConfig {
    /// The config that declares nothing.
    fn default() -> (r: FlatConfig)
        ensures
            r@ == nothing_declared(),
    {
        FlatConfig { providers: StrMap::new(), mcp_servers: StrMap::new() }
    }
}

/// The config that declares nothing.
pub open spec fn nothing_declared() -> FlatConfigView {
    FlatConfigView { providers: Map::empty(), mcp_servers: Map::empty() }
}

/// What reading one file gave.
pub enum FlatRead {
    /// There is no such file.
    Missing,
    /// The file could not be read, with the text of the failure.
    Unreadable(String),
    /// The file is no config, with the text of the failure.
    Unparsed(String),
    /// The document.
    Document(FlatConfig),
}

/// An entry with its key, URL and system file expanded.
pub open spec fn expanded_entry(e: FlatView, env: EnvView) -> FlatView {
    FlatView {
        key: expanded(e.key, env),
        url: expanded(e.url, env),
        system_file: expanded(e.system_file, env),
        ..e
    }
}

/// `base` with each entry of `pairs`, expanded, in place of its namesake.
pub open spec fn with_entries(
    base: Map<Seq<char>, FlatView>,
    pairs: Seq<(Seq<char>, FlatView)>,
    env: EnvView,
) -> Map<Seq<char>, FlatView>
    decreases pairs.len(),
{
    if pairs.len() == 0 {
        base
    } else {
        with_entries(base, pairs.drop_last(), env).insert(
            pairs.last().0,
            expanded_entry(pairs.last().1, env),
        )
    }
}

/// `cfg` with a document merged over it, whole entry at a time, by name.
pub open spec fn flat_merged(cfg: FlatConfigView, file: FlatConfigView, env: EnvView) ->
    FlatConfigView {
    FlatConfigView {
        providers: with_entries(cfg.providers, pairs_of(file.providers), env),
        mcp_servers: with_servers(cfg.mcp_servers, pairs_of(file.mcp_servers)),
    }
}

/// `cfg` with one file merged over it; a file that cannot be had changes nothing.
pub open spec fn flat_step(cfg: FlatConfigView, read: FlatRead, env: EnvView) -> FlatConfigView {
    match read {
        FlatRead::Document(file) => flat_merged(cfg, file@, env),
        _ => cfg,
    }
}

/// What merging one file warns of: a missing file is silent, any other failure is loud.
pub open spec fn flat_warning(path: Seq<char>, read: FlatRead) -> Seq<Seq<char>> {
    match read {
        FlatRead::Unreadable(e) => seq!["Warning: config "@ + path + ": "@ + e@ + " (ignored)"@],
        FlatRead::Unparsed(e) => seq!["Warning: config "@ + path + ": "@ + e@ + " (file ignored)"@],
        _ => Seq::empty(),
    }
}

/// The first `n` files merged in order.
pub open spec fn flat_loaded(files: Seq<(String, FlatRead)>, env: EnvView, n: int) -> FlatConfigView
    decreases n,
{
    if n <= 0 {
        nothing_declared()
    } else {
        flat_step(flat_loaded(files, env, n - 1), files[n - 1].1, env)
    }
}

/// What merging the first `n` files warns of.
pub open spec fn flat_warnings(files: Seq<(String, FlatRead)>, n: int) -> Seq<Seq<char>>
    decreases n,
{
    if n <= 0 {
        Seq::empty()
    } else {
        flat_warnings(files, n - 1) + flat_warning(files[n - 1].0@, files[n - 1].1)
    }
}

/// The entry a provider name reaches; one that says nothing for a name no entry declares.
pub open spec fn entry_for(cfg: FlatConfigView, name: Seq<char>) -> FlatView {
    if cfg.providers.contains_key(name) {
        cfg.providers[name]
    } else {
        blank_entry()
    }
}

/// The provider TYPE behind a name: the entry's own, or the name.
pub open spec fn type_for(cfg: FlatConfigView, name: Seq<char>) -> Seq<char> {
    or_else(entry_for(cfg, name).kind, name)
}

impl FlatConfig {
    /// Merges a document over this config, whole entry at a time, by name.
    pub fn merge_document(&mut self, file: &FlatConfig, env: &Env)
        ensures
            final(self)@ == flat_merged(old(self)@, file@, env@),
    {
        let n: usize = file.providers.len();
        let ghost pairs = file.providers.pairs();
        let ghost was = self@;
        assert(pairs.take(0) =~= Seq::<(Seq<char>, FlatView)>::empty());
        for i in 0..n
            invariant
                n == pairs.len(),
                pairs == file.providers.pairs(),
                self@.mcp_servers == was.mcp_servers,
                self@.providers == with_entries(was.providers, pairs.take(i as int), env@),
        {
            let mut entry: LegacyProviderEntry = file.providers.value_at(i).duplicate();
            entry.key = expand(entry.key.as_str(), env);
            entry.url = expand(entry.url.as_str(), env);
            entry.system_file = expand(entry.system_file.as_str(), env);
            proof {
                assert(pairs.take(i + 1).drop_last() =~= pairs.take(i as int));
                assert(pairs.take(i + 1).last() == pairs[i as int]);
            }
            self.providers.insert(file.providers.key_at(i).clone(), entry);
        }
        assert(pairs.take(n as int) =~= pairs);
        let m: usize = file.mcp_servers.len();
        let ghost servers = file.mcp_servers.pairs();
        assert(servers.take(0) =~= Seq::<(Seq<char>, ServerView)>::empty());
        let ghost filled = self@.providers;
        for i in 0..m
            invariant
                m == servers.len(),
                servers == file.mcp_servers.pairs(),
                self@.providers == filled,
                self@.mcp_servers == with_servers(was.mcp_servers, servers.take(i as int)),
        {
            proof {
                assert(servers.take(i + 1).drop_last() =~= servers.take(i as int));
                assert(servers.take(i + 1).last() == servers[i as int]);
            }
            self.mcp_servers.insert(
                file.mcp_servers.key_at(i).clone(),
                file.mcp_servers.value_at(i).duplicate(),
            );
        }
        assert(servers.take(m as int) =~= servers);
    }

    /// Merges one file over this config. It never fails: what cannot be read or parsed is dropped, loudly.
    pub fn merge_file(&mut self, path: &str, read: &FlatRead, env: &Env, warn: &mut Vec<String>)
        ensures
            final(self)@ == flat_step(old(self)@, *read, env@),
            strs(final(warn)@) == strs(old(warn)@) + flat_warning(path@, *read),
    {
        assert(strs(old(warn)@) + Seq::<Seq<char>>::empty() =~= strs(old(warn)@));
        match read {
            FlatRead::Missing => {},
            FlatRead::Unreadable(e) => {
                push_text(warn, file_warning(path, e.as_str(), " (ignored)"));
                assert(strs(warn@) =~= strs(old(warn)@) + flat_warning(path@, *read));
            },
            FlatRead::Unparsed(e) => {
                push_text(warn, file_warning(path, e.as_str(), " (file ignored)"));
                assert(strs(warn@) =~= strs(old(warn)@) + flat_warning(path@, *read));
            },
            FlatRead::Document(file) => {
                self.merge_document(file, env);
            },
        }
    }

    /// Merges the files in order. It never fails.
    pub fn load(files: &Vec<(String, FlatRead)>, env: &Env, warn: &mut Vec<String>) -> (r: FlatConfig)
        ensures
            r@ == flat_loaded(files@, env@, files@.len() as int),
            strs(final(warn)@) == strs(old(warn)@) + flat_warnings(files@, files@.len() as int),
    {
        let mut cfg: FlatConfig = FlatConfig::default();
        let ghost was = strs(warn@);
        assert(was + Seq::<Seq<char>>::empty() =~= was);
        for i in 0..files.len()
            invariant
                cfg@ == flat_loaded(files@, env@, i as int),
                strs(warn@) == was + flat_warnings(files@, i as int),
        {
            cfg.merge_file(files[i].0.as_str(), &files[i].1, env, warn);
            assert(strs(warn@) =~= was + flat_warnings(files@, i + 1));
        }
        cfg
    }

    /// The type and the entry a provider name reaches; a name no entry declares is its own type.
    pub fn get(&self, name: &str) -> (r: (String, LegacyProviderEntry))
        ensures
            r.0@ == type_for(self@, name@),
            r.1@ == entry_for(self@, name@),
    {
        match self.providers.get(name) {
            None => (own(name), LegacyProviderEntry::default()),
            Some(entry) => {
                let kind: String = if entry.kind.as_str().is_empty() {
                    own(name)
                } else {
                    entry.kind.clone()
                };
                (kind, entry.duplicate())
            },
        }
    }

    /// The servers a provider entry loads: all when it names none, else exactly the named ones.
    pub fn mcp_servers_for(&self, entry: &LegacyProviderEntry) -> (r: Result<
        StrMap<McpServerConfig>,
        ConfigError,
    >)
        ensures
            selects(r, self@.mcp_servers, entry@.mcp_servers),
    {
        select_servers(&self.mcp_servers, &entry.mcp_servers)
    }
}

/// The warning of a file that was dropped.
fn file_warning(path: &str, e: &str, tail: &str) -> (r: String)
    ensures
        r@ == "Warning: config "@ + path@ + ": "@ + e@ + tail@,
{
    let mut r: String = own("Warning: config ");
    r.append(path);
    r.append(": ");
    r.append(e);
    r.append(tail);
    r
}

/// An entry of a later file replaces its namesake as a whole: nothing of the earlier one is left.
pub proof fn later_entry_replaces(
    cfg: FlatConfigView,
    pairs: Seq<(Seq<char>, FlatView)>,
    env: EnvView,
    name: Seq<char>,
)
    requires
        crate::map::rising(pairs),
    ensures
        forall|i: int|
            0 <= i < pairs.len() && #[trigger] pairs[i].0 == name ==> with_entries(
                cfg.providers,
                pairs,
                env,
            )[name] == expanded_entry(pairs[i].1, env),
        (forall|i: int| 0 <= i < pairs.len() ==> #[trigger] pairs[i].0 != name) ==> with_entries(
            cfg.providers,
            pairs,
            env,
        ).index_opt(name) == cfg.providers.index_opt(name),
    decreases pairs.len(),
{
    if pairs.len() > 0 {
        let init = pairs.drop_last();
        later_entry_replaces(cfg, init, env, name);
        assert forall|i: int| 0 <= i < init.len() implies #[trigger] init[i] == pairs[i] by {}
        assert forall|i: int| 0 <= i < pairs.len() && #[trigger] pairs[i].0 == name implies
            with_entries(cfg.providers, pairs, env)[name] == expanded_entry(pairs[i].1, env) by {
            if i < init.len() {
                assert(init[i].0 == name);
                crate::text::text_lt_total(pairs[i].0, pairs.last().0);
            }
        }
        if forall|i: int| 0 <= i < pairs.len() ==> #[trigger] pairs[i].0 != name {
            assert forall|i: int| 0 <= i < init.len() implies #[trigger] init[i].0 != name by {
                assert(pairs[i].0 != name);
            }
            assert(pairs[pairs.len() - 1].0 != name);
        }
    }
}

} // verus!
