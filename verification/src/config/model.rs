//! `models.<name>` — the MODEL layer: which provider serves the model, its wire id, the properties that
//! belong to the model itself and the protocol its dialect decides, plus the defaults an agent may override.

use vstd::prelude::*;
use vstd::string::*;

use crate::config::error::{ConfigError, ConfigErrorView};
use crate::config::provider::or_else;
use crate::double::Double;
use crate::map::Duplicate;
use crate::provider::{
    defer_named, effort_named, opt_view, set_text, DeferMode, Effort, ImageGenParams, InvalidEffort,
};
use crate::text::{
    debug_text, first_at, first_at_is, is_white, own, quoted, same, split_once, trim, trim_end,
    trim_start, trimmed,
};
use crate::yaml::Yaml;

verus! {

/// How a model is named where one is referenced.
///
/// The separator is `:` with the PROVIDER first, and the id is everything after the first colon.
pub enum ModelRef {
    /// `sonnet` — a `models:` entry by name.
    Entry(String),
    /// `anthropic:sonnet-4` — a provider plus an inline model id.
    Inline {
        /// The `providers:` entry (or built-in type) that serves it.
        provider: String,
        /// The wire model id, verbatim.
        id: String,
    },
    /// `anthropic:*` — every model the provider lists.
    All {
        /// The `providers:` entry (or built-in type) to enumerate.
        provider: String,
    },
}

/// What a [`ModelRef`] says.
pub enum RefView {
    Entry(Seq<char>),
    Inline(Seq<char>, Seq<char>),
    All(Seq<char>),
}

impl View for ModelRef {
    type V = RefView;

    open spec fn view(&self) -> RefView {
        match *self {
            ModelRef::Entry(name) => RefView::Entry(name@),
            ModelRef::Inline { provider, id } => RefView::Inline(provider@, id@),
            ModelRef::All { provider } => RefView::All(provider@),
        }
    }
}

impl Duplicate for ModelRef {
    fn duplicate(&self) -> (r: ModelRef) {
        match self {
            ModelRef::Entry(name) => ModelRef::Entry(name.clone()),
            ModelRef::Inline { provider, id } => ModelRef::Inline {
                provider: provider.clone(),
                id: id.clone(),
            },
            ModelRef::All { provider } => ModelRef::All { provider: provider.clone() },
        }
    }
}

/// The views of a list of references.
pub open spec fn refs(v: Seq<ModelRef>) -> Seq<RefView> {
    Seq::new(v.len(), |i: int| v[i]@)
}

/// A copy of a list of references.
pub fn copy_refs(v: &Vec<ModelRef>) -> (r: Vec<ModelRef>)
    ensures
        refs(r@) == refs(v@),
{
    let mut r: Vec<ModelRef> = Vec::new();
    for i in 0..v.len()
        invariant
            r@.len() == i,
            forall|k: int| 0 <= k < i ==> (#[trigger] r@[k])@ == v@[k]@,
    {
        r.push(v[i].duplicate());
    }
    assert(refs(r@) =~= refs(v@));
    r
}

/// Why a model reference could not be read.
pub enum BadModelRef {
    /// The reference is empty (or all white space).
    Empty,
    /// Nothing before the colon (`:gpt-5`).
    NoProvider(String),
    /// Nothing after the colon (`openai:`).
    NoModel(String),
    /// A space after the colon made YAML read the item as a mapping.
    YamlMapping(String, String),
}

/// What a [`BadModelRef`] says.
pub enum BadRefView {
    Empty,
    NoProvider(Seq<char>),
    NoModel(Seq<char>),
    YamlMapping(Seq<char>, Seq<char>),
}

impl View for BadModelRef {
    type V = BadRefView;

    open spec fn view(&self) -> BadRefView {
        match *self {
            BadModelRef::Empty => BadRefView::Empty,
            BadModelRef::NoProvider(s) => BadRefView::NoProvider(s@),
            BadModelRef::NoModel(s) => BadRefView::NoModel(s@),
            BadModelRef::YamlMapping(k, v) => BadRefView::YamlMapping(k@, v@),
        }
    }
}

/// The text of an error.
pub open spec fn bad_ref_text(e: BadRefView) -> Seq<char> {
    match e {
        BadRefView::Empty => "a model reference must not be empty"@,
        BadRefView::NoProvider(s) => "model reference "@ + debug_text(s)
            + ": nothing before the ':' (want \"provider:model\")"@,
        BadRefView::NoModel(s) => "model reference "@ + debug_text(s)
            + ": nothing after the ':' (want \"provider:model\" or \"provider:*\")"@,
        BadRefView::YamlMapping(k, v) => "a model reference must be a string like \"provider:model\", but `"@
            + k + ": "@ + v + "` parses as a YAML mapping — remove the space after the colon (`"@
            + k + ":"@ + v + "`)"@,
    }
}

impl BadModelRef {
    /// The text of the error.
    pub fn message(&self) -> (r: String)
        ensures
            r@ == bad_ref_text(self@),
    {
        match self {
            BadModelRef::Empty => own("a model reference must not be empty"),
            BadModelRef::NoProvider(s) => {
                let mut m: String = own("model reference ");
                m.append(quoted(s.as_str()).as_str());
                m.append(": nothing before the ':' (want \"provider:model\")");
                m
            },
            BadModelRef::NoModel(s) => {
                let mut m: String = own("model reference ");
                m.append(quoted(s.as_str()).as_str());
                m.append(": nothing after the ':' (want \"provider:model\" or \"provider:*\")");
                m
            },
            BadModelRef::YamlMapping(k, v) => {
                let mut m: String = own(
                    "a model reference must be a string like \"provider:model\", but `",
                );
                m.append(k.as_str());
                m.append(": ");
                m.append(v.as_str());
                m.append("` parses as a YAML mapping — remove the space after the colon (`");
                m.append(k.as_str());
                m.append(":");
                m.append(v.as_str());
                m.append("`)");
                m
            },
        }
    }
}

/// What is wrong with a text that writes no reference.
pub open spec fn ref_fault(s: Seq<char>) -> BadRefView {
    let t = trimmed(s);
    if t.len() == 0 {
        BadRefView::Empty
    } else if trimmed(t.take(first_at(t, ':'))).len() == 0 {
        BadRefView::NoProvider(t)
    } else {
        BadRefView::NoModel(t)
    }
}

/// The reference that a text writes, its surrounding white space left aside; `None` when it writes none.
pub open spec fn ref_of(s: Seq<char>) -> Option<RefView> {
    let t = trimmed(s);
    let colon = first_at(t, ':');
    let provider = trimmed(t.take(colon));
    let id = trimmed(t.skip(colon + 1));
    if t.len() == 0 {
        None
    } else if colon == t.len() {
        Some(RefView::Entry(t))
    } else if provider.len() == 0 || id.len() == 0 {
        None
    } else if id == "*"@ {
        Some(RefView::All(provider))
    } else {
        Some(RefView::Inline(provider, id))
    }
}

/// A reference as it is written.
pub open spec fn ref_text(r: RefView) -> Seq<char> {
    match r {
        RefView::Entry(name) => name,
        RefView::Inline(provider, id) => provider + ":"@ + id,
        RefView::All(provider) => provider + ":*"@,
    }
}

impl ModelRef {
    /// The provider this reference names; `None` for a bare entry name.
    pub fn provider(&self) -> (r: Option<&str>)
        ensures
            match self@ {
                RefView::Entry(_) => r is None,
                RefView::Inline(p, _) => r matches Some(t) && t@ == p,
                RefView::All(p) => r matches Some(t) && t@ == p,
            },
    {
        match self {
            ModelRef::Entry(_) => None,
            ModelRef::Inline { provider, .. } => Some(provider.as_str()),
            ModelRef::All { provider } => Some(provider.as_str()),
        }
    }

    /// Whether this reference is the `provider:*` wildcard.
    pub fn is_wildcard(&self) -> (r: bool)
        ensures
            r == self@ is All,
    {
        match self {
            ModelRef::All { .. } => true,
            _ => false,
        }
    }

    /// The reference as it is written.
    pub fn to_text(&self) -> (r: String)
        ensures
            r@ == ref_text(self@),
    {
        match self {
            ModelRef::Entry(name) => name.clone(),
            ModelRef::Inline { provider, id } => {
                let mut t: String = provider.clone();
                t.append(":");
                t.append(id.as_str());
                t
            },
            ModelRef::All { provider } => {
                let mut t: String = provider.clone();
                t.append(":*");
                t
            },
        }
    }

    /// Reads a reference: no colon → an entry name; otherwise the left side is the provider and the WHOLE
    /// right side the model id (`*` alone being the wildcard).
    pub fn parse(s: &str) -> (r: Result<ModelRef, BadModelRef>)
        ensures
            match r {
                Ok(m) => ref_of(s@) == Some(m@),
                Err(e) => ref_of(s@) is None && e@ == ref_fault(s@),
            },
    {
        let t: String = trim(s);
        if t.as_str().is_empty() {
            return Err(BadModelRef::Empty);
        }
        match split_once(t.as_str(), ':') {
            None => Ok(ModelRef::Entry(t)),
            Some((left, right)) => {
                let provider: String = trim(left.as_str());
                let id: String = trim(right.as_str());
                if provider.as_str().is_empty() {
                    return Err(BadModelRef::NoProvider(t));
                }
                if id.as_str().is_empty() {
                    return Err(BadModelRef::NoModel(t));
                }
                if same(id.as_str(), "*") {
                    return Ok(ModelRef::All { provider });
                }
                Ok(ModelRef::Inline { provider, id })
            },
        }
    }
}

/// A trimmed text neither begins nor ends with white space, and is a part of the text it was trimmed from.
proof fn trimmed_is_bare(s: Seq<char>)
    ensures
        trimmed(s).len() > 0 ==> !is_white(trimmed(s)[0]) && !is_white(trimmed(s).last()),
        exists|a: int, b: int| 0 <= a <= b <= s.len() && trimmed(s) == #[trigger] s.subrange(a, b),
{
    trim_start_is_suffix(s);
    let t = trim_start(s);
    trim_end_is_prefix(t);
    let a = choose|a: int| 0 <= a <= s.len() && t == #[trigger] s.subrange(a, s.len() as int);
    let n = choose|n: int| 0 <= n <= t.len() && trim_end(t) == #[trigger] t.subrange(0, n);
    assert(trimmed(s) =~= s.subrange(a, a + n));
}

proof fn trim_start_is_suffix(s: Seq<char>)
    ensures
        exists|a: int|
            0 <= a <= s.len() && trim_start(s) == #[trigger] s.subrange(a, s.len() as int),
        trim_start(s).len() > 0 ==> !is_white(trim_start(s)[0]),
    decreases s.len(),
{
    if s.len() > 0 && is_white(s[0]) {
        let r = s.drop_first();
        trim_start_is_suffix(r);
        let a = choose|a: int|
            0 <= a <= r.len() && trim_start(r) == #[trigger] r.subrange(a, r.len() as int);
        assert(r.subrange(a, r.len() as int) =~= s.subrange(a + 1, s.len() as int));
    } else {
        assert(s =~= s.subrange(0, s.len() as int));
    }
}

proof fn trim_end_is_prefix(s: Seq<char>)
    ensures
        exists|n: int| 0 <= n <= s.len() && trim_end(s) == #[trigger] s.subrange(0, n),
        trim_end(s).len() > 0 ==> !is_white(trim_end(s).last()),
    decreases s.len(),
{
    if s.len() > 0 && is_white(s.last()) {
        let r = s.drop_last();
        trim_end_is_prefix(r);
        let n = choose|n: int| 0 <= n <= r.len() && trim_end(r) == #[trigger] r.subrange(0, n);
        assert(r.subrange(0, n) =~= s.subrange(0, n));
    } else {
        assert(s =~= s.subrange(0, s.len() as int));
    }
}

/// A text without white space at its ends is its own trimmed text.
proof fn bare_is_trimmed(s: Seq<char>)
    requires
        s.len() > 0 ==> !is_white(s[0]) && !is_white(s.last()),
    ensures
        trimmed(s) == s,
{
}

/// A reference that was read is read back from the way it is written.
pub proof fn written_reference_reads_back(s: Seq<char>)
    ensures
        ref_of(s) matches Some(r) ==> ref_of(ref_text(r)) == Some(r),
{
    reveal_strlit(":");
    reveal_strlit(":*");
    reveal_strlit("*");
    let t = trimmed(s);
    let colon = first_at(t, ':');
    trimmed_is_bare(s);
    if ref_of(s) is Some {
        let r = ref_of(s)->0;
        if colon == t.len() {
            bare_is_trimmed(t);
        } else {
            let left = t.take(colon);
            let right = t.skip(colon + 1);
            let p = trimmed(left);
            let id = trimmed(right);
            trimmed_is_bare(left);
            trimmed_is_bare(right);
            let w = p + ":"@ + id;
            assert(ref_text(r) =~= w);
            bare_is_trimmed(w);
            first_at_splits(t, ':');
            let (a, b) = choose|a: int, b: int|
                0 <= a <= b <= left.len() && p == #[trigger] left.subrange(a, b);
            assert forall|j: int| 0 <= j < p.len() implies w[j] != ':' by {
                assert(w[j] == t[a + j]);
            }
            first_at_is(w, ':', p.len() as int);
            assert(w.take(p.len() as int) =~= p);
            assert(w.skip((p.len() + 1) as int) =~= id);
            bare_is_trimmed(p);
            bare_is_trimmed(id);
        }
    }
}

/// Before the first `c` of a text there is no `c`.
proof fn first_at_splits(s: Seq<char>, c: char)
    ensures
        0 <= first_at(s, c) <= s.len(),
        forall|j: int| 0 <= j < first_at(s, c) ==> s[j] != c,
    decreases s.len(),
{
    if s.len() > 0 && s[0] != c {
        let r = s.drop_first();
        first_at_splits(r, c);
        assert forall|j: int| 0 <= j < first_at(s, c) implies s[j] != c by {
            if j > 0 {
                assert(s[j] == r[j - 1]);
            }
        }
    }
}

/// A YAML scalar as text; what is no scalar has none.
pub open spec fn scalar(y: Yaml) -> Option<Seq<char>> {
    match y {
        Yaml::Text(s) => Some(s@),
        Yaml::Bool(true) => Some("true"@),
        Yaml::Bool(false) => Some("false"@),
        Yaml::Number(n) => Some(n@),
        Yaml::Null => Some(Seq::empty()),
        _ => None,
    }
}

/// A YAML scalar as the user typed it; `other` for anything else.
pub fn scalar_text(y: &Yaml, other: &str) -> (r: String)
    ensures
        r@ == match scalar(*y) {
            Some(t) => t,
            None => other@,
        },
{
    match y {
        Yaml::Text(s) => s.clone(),
        Yaml::Bool(b) => if *b {
            own("true")
        } else {
            own("false")
        },
        Yaml::Number(n) => n.clone(),
        Yaml::Null => String::new(),
        _ => own(other),
    }
}

/// One configured model: the provider that serves it, its wire id, and everything that is a property of the
/// MODEL rather than of the endpoint or of a particular use.
pub struct ModelConfig {
    /// `provider:` — the `providers:` entry (or built-in type) that serves it; `""` = the entry's own name.
    pub provider: String,
    /// `id:` — the wire model id, verbatim. `""` leaves the model unchosen.
    pub id: String,
    /// `context_window:` — the budget compaction accounts against, as written.
    pub context_window: String,
    /// `defer_mode:` — `normal` (default) | `reference` | `tool-search` | `system-tools`.
    pub defer_mode: String,
    /// `effort:` — the default reasoning effort (`""` = provider default).
    pub effort: String,
    /// `temperature:` — the default sampling temperature.
    pub temperature: Option<Double>,
    /// `top_p:` — nucleus sampling.
    pub top_p: Option<Double>,
    /// `image:` — image-generation opt-in for providers that need one.
    pub image: bool,
    /// `aspect_ratio:` — image-provider generation default (`""` omits it).
    pub aspect_ratio: String,
    /// `image_size:` — image-provider generation default (`""` omits it).
    pub image_size: String,
    /// `negative_prompt:` — image-provider generation default (`""` omits it).
    pub negative_prompt: String,
    /// `json_edits:` — JSON-body image edits.
    pub json_edits: bool,
}

/// What a [`ModelConfig`] says.
pub struct ModelView {
    pub provider: Seq<char>,
    pub id: Seq<char>,
    pub context_window: Seq<char>,
    pub defer_mode: Seq<char>,
    pub effort: Seq<char>,
    pub temperature: Option<Double>,
    pub top_p: Option<Double>,
    pub image: bool,
    pub aspect_ratio: Seq<char>,
    pub image_size: Seq<char>,
    pub negative_prompt: Seq<char>,
    pub json_edits: bool,
}

impl View for ModelConfig {
    type V = ModelView;

    open spec fn view(&self) -> ModelView {
        ModelView {
            provider: self.provider@,
            id: self.id@,
            context_window: self.context_window@,
            defer_mode: self.defer_mode@,
            effort: self.effort@,
            temperature: self.temperature,
            top_p: self.top_p,
            image: self.image,
            aspect_ratio: self.aspect_ratio@,
            image_size: self.image_size@,
            negative_prompt: self.negative_prompt@,
            json_edits: self.json_edits,
        }
    }
}

/// The model that says nothing.
pub open spec fn blank_model() -> ModelView {
    ModelView {
        provider: Seq::empty(),
        id: Seq::empty(),
        context_window: Seq::empty(),
        defer_mode: Seq::empty(),
        effort: Seq::empty(),
        temperature: None,
        top_p: None,
        image: false,
        aspect_ratio: Seq::empty(),
        image_size: Seq::empty(),
        negative_prompt: Seq::empty(),
        json_edits: false,
    }
}

impl Default for ModelConfig {
    /// The model that says nothing.
    fn default() -> (r: ModelConfig)
        ensures
            r@ == blank_model(),
    {
        ModelConfig {
            provider: String::new(),
            id: String::new(),
            context_window: String::new(),
            defer_mode: String::new(),
            effort: String::new(),
            temperature: None,
            top_p: None,
            image: false,
            aspect_ratio: String::new(),
            image_size: String::new(),
            negative_prompt: String::new(),
            json_edits: false,
        }
    }
}

impl Duplicate for ModelConfig {
    fn duplicate(&self) -> (r: ModelConfig) {
        ModelConfig {
            provider: self.provider.clone(),
            id: self.id.clone(),
            context_window: self.context_window.clone(),
            defer_mode: self.defer_mode.clone(),
            effort: self.effort.clone(),
            temperature: self.temperature,
            top_p: self.top_p,
            image: self.image,
            aspect_ratio: self.aspect_ratio.clone(),
            image_size: self.image_size.clone(),
            negative_prompt: self.negative_prompt.clone(),
            json_edits: self.json_edits,
        }
    }
}

/// The model with its provider pinned to `name` when it names none.
pub open spec fn anchored(m: ModelView, name: Seq<char>) -> ModelView {
    ModelView { provider: or_else(m.provider, name), ..m }
}

/// The defer mode a model mounts deferred groups with: an empty or unknown spelling is `normal`.
pub open spec fn mode_of(m: ModelView) -> DeferMode {
    match defer_named(m.defer_mode) {
        Some(d) => d,
        None => DeferMode::Normal,
    }
}

impl ModelConfig {
    /// The provider this model names: `provider:`, or `name` when the key is absent.
    pub fn provider_or<'a>(&'a self, name: &'a str) -> (r: &'a str)
        ensures
            r@ == or_else(self@.provider, name@),
    {
        if self.provider.as_str().is_empty() {
            name
        } else {
            self.provider.as_str()
        }
    }

    /// Pins `provider:` to the entry's own name when the key was absent.
    pub fn anchor_provider(&mut self, name: &str)
        ensures
            final(self)@ == anchored(old(self)@, name@),
    {
        if self.provider.as_str().is_empty() {
            self.provider = own(name);
        }
    }

    /// `effort:` as a level; `Ok(None)` when the key is unset.
    pub fn effort(&self) -> (r: Result<Option<Effort>, InvalidEffort>)
        ensures
            self@.effort.len() == 0 ==> r == Ok::<Option<Effort>, InvalidEffort>(None),
            self@.effort.len() > 0 ==> match effort_named(self@.effort) {
                Some(e) => r == Ok::<Option<Effort>, InvalidEffort>(Some(e)),
                None => r matches Err(InvalidEffort(n)) && n@ == self@.effort,
            },
    {
        Effort::optional(self.effort.as_str())
    }

    /// `aspect_ratio:` / `image_size:` / `negative_prompt:`; an empty value is unset.
    pub fn image_gen_params(&self) -> (r: ImageGenParams)
        ensures
            opt_view(r.aspect_ratio) == set_text(self@.aspect_ratio),
            opt_view(r.image_size) == set_text(self@.image_size),
            opt_view(r.negative_prompt) == set_text(self@.negative_prompt),
    {
        ImageGenParams::from_raw(
            self.aspect_ratio.as_str(),
            self.image_size.as_str(),
            self.negative_prompt.as_str(),
        )
    }

    /// The defer mode this model mounts deferred groups with.
    pub fn defer_mode(&self) -> (r: DeferMode)
        ensures
            r == mode_of(self@),
    {
        match DeferMode::from_name(self.defer_mode.as_str()) {
            Some(m) => m,
            None => DeferMode::Normal,
        }
    }
}

/// One `models.<name>` entry as written: the shorthand `sonnet: anthropic:sonnet-4` or the full mapping.
pub enum ModelEntry {
    /// Provider and id in one string.
    Shorthand(String),
    /// The full mapping form.
    Full(Box<ModelConfig>),
}

/// What a [`ModelEntry`] says.
pub enum EntryView {
    Shorthand(Seq<char>),
    Full(ModelView),
}

impl View for ModelEntry {
    type V = EntryView;

    open spec fn view(&self) -> EntryView {
        match *self {
            ModelEntry::Shorthand(s) => EntryView::Shorthand(s@),
            ModelEntry::Full(m) => EntryView::Full(m@),
        }
    }
}

impl Duplicate for ModelEntry {
    fn duplicate(&self) -> (r: ModelEntry) {
        match self {
            ModelEntry::Shorthand(s) => ModelEntry::Shorthand(s.clone()),
            ModelEntry::Full(m) => ModelEntry::Full(Box::new(m.duplicate())),
        }
    }
}

/// The model an entry named `name` configures. The shorthand must name a provider AND a model: a bare name
/// would have no endpoint, and `provider:*` is a candidate SET, which only an agent can hold.
pub open spec fn entry_model(e: EntryView, name: Seq<char>) -> Result<ModelView, ConfigErrorView> {
    match e {
        EntryView::Full(m) => Ok(m),
        EntryView::Shorthand(s) => match ref_of(s) {
            None => Err(ConfigErrorView::Model(name, bad_ref_text(ref_fault(s)))),
            Some(RefView::Inline(provider, id)) => Ok(
                ModelView { provider, id, ..blank_model() },
            ),
            Some(RefView::Entry(_)) => Err(
                ConfigErrorView::Model(
                    name,
                    debug_text(s) + " names no provider (want \"provider:model\")"@,
                ),
            ),
            Some(RefView::All(_)) => Err(
                ConfigErrorView::Model(
                    name,
                    debug_text(s)
                        + " is a candidate set, not a model (use it in `agents.<name>.choices`)"@,
                ),
            ),
        },
    }
}

impl ModelEntry {
    /// The entry as a [`ModelConfig`].
    pub fn into_config(self, name: &str) -> (r: Result<ModelConfig, ConfigError>)
        ensures
            match r {
                Ok(m) => entry_model(self@, name@) == Ok::<ModelView, ConfigErrorView>(m@),
                Err(e) => entry_model(self@, name@) == Err::<ModelView, ConfigErrorView>(e@),
            },
    {
        match self {
            ModelEntry::Full(m) => Ok(*m),
            ModelEntry::Shorthand(s) => match ModelRef::parse(s.as_str()) {
                Err(e) => Err(ConfigError::Model(own(name), e.message())),
                Ok(ModelRef::Inline { provider, id }) => {
                    let mut m: ModelConfig = ModelConfig::default();
                    m.provider = provider;
                    m.id = id;
                    Ok(m)
                },
                Ok(ModelRef::Entry(_)) => {
                    let mut m: String = quoted(s.as_str());
                    m.append(" names no provider (want \"provider:model\")");
                    Err(ConfigError::Model(own(name), m))
                },
                Ok(ModelRef::All { .. }) => {
                    let mut m: String = quoted(s.as_str());
                    m.append(
                        " is a candidate set, not a model (use it in `agents.<name>.choices`)",
                    );
                    Err(ConfigError::Model(own(name), m))
                },
            },
        }
    }
}

} // verus!
