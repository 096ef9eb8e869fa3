//! `providers.<name>` — the ENDPOINT layer: how to reach an API and how to authenticate, and nothing else.

use vstd::prelude::*;

use crate::app::env::{var_of, Env, EnvView};
use crate::map::Duplicate;
use crate::provider::Catalog;

verus! {

/// One `providers.<name>` entry; the three fields together are the whole endpoint.
pub struct ProviderConfig {
    /// `type:` — the built-in provider type behind an alias (`""` = the entry's own name is the type).
    pub kind: String,
    /// `key:` — the API key.
    pub key: String,
    /// `url:` — the base URL.
    pub url: String,
}

/// What a [`ProviderConfig`] says.
pub struct ProviderView {
    pub kind: Seq<char>,
    pub key: Seq<char>,
    pub url: Seq<char>,
}

impl View for ProviderConfig {
    type V = ProviderView;

    open spec fn view(&self) -> ProviderView {
        ProviderView { kind: self.kind@, key: self.key@, url: self.url@ }
    }
}

/// The entry that says nothing.
pub open spec fn blank_provider() -> ProviderView {
    ProviderView { kind: Seq::empty(), key: Seq::empty(), url: Seq::empty() }
}

impl Default for ProviderConfig {
    /// The entry that says nothing.
    fn default() -> (r: ProviderConfig)
        ensures
            r@ == blank_provider(),
    {
        ProviderConfig { kind: String::new(), key: String::new(), url: String::new() }
    }
}

impl Duplicate for ProviderConfig {
    fn duplicate(&self) -> (r: ProviderConfig) {
        ProviderConfig { kind: self.kind.clone(), key: self.key.clone(), url: self.url.clone() }
    }
}

/// `a`, or `b` when it is empty.
pub open spec fn or_else(a: Seq<char>, b: Seq<char>) -> Seq<char> {
    if a.len() == 0 {
        b
    } else {
        a
    }
}

impl ProviderConfig {
    /// The provider TYPE this entry names: `type:`, or `name` when the key is absent.
    pub fn kind_or<'a>(&'a self, name: &'a str) -> (r: &'a str)
        ensures
            r@ == or_else(self@.kind, name@),
    {
        if self.kind.as_str().is_empty() {
            name
        } else {
            self.kind.as_str()
        }
    }
}

/// A provider name resolved to its endpoint: the `providers:` entry (a default one for a name no entry
/// declares) and the TYPE string behind it.
pub struct Endpoint {
    /// The provider TYPE.
    pub kind: String,
    /// The entry: `key:` and `url:`.
    pub config: ProviderConfig,
}

/// Where a run's API key comes from: the TYPE's environment variable when it is set, else the entry's `key:`,
/// else nothing.
pub enum ApiKey {
    /// The variable is set: the run uses it, whatever `key:` says.
    Env {
        /// The variable.
        var: String,
        /// Its value.
        key: String,
    },
    /// `key:` in the config (the variable is unset).
    Config(String),
    /// Neither: `var` is what the user would set.
    Missing {
        /// The variable.
        var: String,
    },
}

/// What an [`ApiKey`] says.
pub enum KeyView {
    Env(Seq<char>, Seq<char>),
    Config(Seq<char>),
    Missing(Seq<char>),
}

impl View for ApiKey {
    type V = KeyView;

    open spec fn view(&self) -> KeyView {
        match *self {
            ApiKey::Env { var, key } => KeyView::Env(var@, key@),
            ApiKey::Config(key) => KeyView::Config(key@),
            ApiKey::Missing { var } => KeyView::Missing(var@),
        }
    }
}

/// Where the key of an endpoint comes from, given the variable of its type.
pub open spec fn key_from(var: Seq<char>, entry: ProviderView, env: EnvView) -> KeyView {
    match var_of(env, var) {
        Some(key) => KeyView::Env(var, key),
        None => if entry.key.len() > 0 {
            KeyView::Config(entry.key)
        } else {
            KeyView::Missing(var)
        },
    }
}

/// The key itself; `None` when there is none.
pub open spec fn key_value(k: KeyView) -> Option<Seq<char>> {
    match k {
        KeyView::Env(_, key) => Some(key),
        KeyView::Config(key) => Some(key),
        KeyView::Missing(_) => None,
    }
}

impl Endpoint {
    /// The environment variable this endpoint's key comes from.
    pub fn env_key(&self, catalog: &Catalog) -> (r: String)
        ensures
            r@ == catalog.key_variable(self.kind@),
    {
        catalog.env_key(self.kind.as_str())
    }

    /// Where this endpoint's API key comes from under `env`.
    pub fn api_key(&self, catalog: &Catalog, env: &Env) -> (r: ApiKey)
        ensures
            r@ == key_from(catalog.key_variable(self.kind@), self.config@, env@),
    {
        let var: String = self.env_key(catalog);
        match env.var(var.as_str()) {
            Some(key) => ApiKey::Env { var, key },
            None => if !self.config.key.as_str().is_empty() {
                ApiKey::Config(self.config.key.clone())
            } else {
                ApiKey::Missing { var }
            },
        }
    }
}

impl ApiKey {
    /// The key itself; `None` when there is none.
    pub fn value(&self) -> (r: Option<&str>)
        ensures
            match r {
                Some(k) => key_value(self@) == Some(k@),
                None => key_value(self@) is None,
            },
    {
        match self {
            ApiKey::Env { key, .. } => Some(key.as_str()),
            ApiKey::Config(key) => Some(key.as_str()),
            ApiKey::Missing { .. } => None,
        }
    }
}

} // verus!
