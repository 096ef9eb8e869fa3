//! What the configuration knows of a provider: its kinds, the levels of effort, the ways tools are deferred.

use vstd::prelude::*;

use crate::text::{own, same};

verus! {

/// The built-in provider types.
#[derive(Clone, Copy, Debug, PartialEq, Eq, Structural)]
pub enum ProviderKind {
    OpenAi,
    Anthropic,
    Gemini,
    VertexAi,
    OpenResponses,
    Imagen,
    Images,
}

/// The name a type is written with.
pub open spec fn kind_name(k: ProviderKind) -> Seq<char> {
    match k {
        ProviderKind::OpenAi => "openai"@,
        ProviderKind::Anthropic => "anthropic"@,
        ProviderKind::Gemini => "gemini"@,
        ProviderKind::VertexAi => "vertexai"@,
        ProviderKind::OpenResponses => "openresponses"@,
        ProviderKind::Imagen => "imagen"@,
        ProviderKind::Images => "images"@,
    }
}

/// Two types have two names.
pub proof fn kind_names_differ(a: ProviderKind, b: ProviderKind)
    requires
        kind_name(a) == kind_name(b),
    ensures
        a == b,
{
    reveal_strlit("openai");
    reveal_strlit("anthropic");
    reveal_strlit("gemini");
    reveal_strlit("vertexai");
    reveal_strlit("openresponses");
    reveal_strlit("imagen");
    reveal_strlit("images");
    let x = kind_name(a);
    assert(x.len() == kind_name(b).len());
    assert("openai"@[0] != "gemini"@[0]);
    assert("openai"@[0] != "imagen"@[0]);
    assert("openai"@[0] != "images"@[0]);
    assert("gemini"@[0] != "imagen"@[0]);
    assert("gemini"@[0] != "images"@[0]);
    assert("imagen"@[5] != "images"@[5]);
}

/// The type a name stands for.
pub open spec fn kind_named(name: Seq<char>) -> Option<ProviderKind> {
    if exists|k: ProviderKind| kind_name(k) == name {
        Some(choose|k: ProviderKind| kind_name(k) == name)
    } else {
        None
    }
}

impl ProviderKind {
    /// The name the type is written with.
    pub fn as_str(self) -> (r: &'static str)
        ensures
            r@ == kind_name(self),
    {
        match self {
            ProviderKind::OpenAi => "openai",
            ProviderKind::Anthropic => "anthropic",
            ProviderKind::Gemini => "gemini",
            ProviderKind::VertexAi => "vertexai",
            ProviderKind::OpenResponses => "openresponses",
            ProviderKind::Imagen => "imagen",
            ProviderKind::Images => "images",
        }
    }

    /// The type that `name` stands for.
    pub fn from_name(name: &str) -> (r: Option<ProviderKind>)
        ensures
            r == kind_named(name@),
            match r {
                Some(k) => kind_name(k) == name@,
                None => forall|k: ProviderKind| kind_name(k) != name@,
            },
    {
        let r = if same(name, "openai") {
            Some(ProviderKind::OpenAi)
        } else if same(name, "anthropic") {
            Some(ProviderKind::Anthropic)
        } else if same(name, "gemini") {
            Some(ProviderKind::Gemini)
        } else if same(name, "vertexai") {
            Some(ProviderKind::VertexAi)
        } else if same(name, "openresponses") {
            Some(ProviderKind::OpenResponses)
        } else if same(name, "imagen") {
            Some(ProviderKind::Imagen)
        } else if same(name, "images") {
            Some(ProviderKind::Images)
        } else {
            None
        };
        proof {
            if let Some(k) = r {
                assert(kind_name(k) == name@);
                let c = choose|c: ProviderKind| kind_name(c) == name@;
                kind_names_differ(k, c);
            }
        }
        r
    }

    /// Whether `name` is the name of a built-in type.
    pub fn is_known(name: &str) -> (r: bool)
        ensures
            r == kind_named(name@) is Some,
    {
        ProviderKind::from_name(name).is_some()
    }
}

/// The ways a deferred group of tools is mounted.
#[derive(Clone, Copy, Debug, PartialEq, Eq, Structural)]
pub enum DeferMode {
    Normal,
    Reference,
    ToolSearch,
    SystemTools,
}

/// The name a mode is written with.
pub open spec fn defer_name(m: DeferMode) -> Seq<char> {
    match m {
        DeferMode::Normal => "normal"@,
        DeferMode::Reference => "reference"@,
        DeferMode::ToolSearch => "tool-search"@,
        DeferMode::SystemTools => "system-tools"@,
    }
}

/// The mode a name stands for.
pub open spec fn defer_named(name: Seq<char>) -> Option<DeferMode> {
    if name == "normal"@ {
        Some(DeferMode::Normal)
    } else if name == "reference"@ {
        Some(DeferMode::Reference)
    } else if name == "tool-search"@ {
        Some(DeferMode::ToolSearch)
    } else if name == "system-tools"@ {
        Some(DeferMode::SystemTools)
    } else {
        None
    }
}

/// Every mode is read back from its name.
pub proof fn defer_name_reads_back(m: DeferMode)
    ensures
        defer_named(defer_name(m)) == Some(m),
{
    reveal_strlit("normal");
    reveal_strlit("reference");
    reveal_strlit("tool-search");
    reveal_strlit("system-tools");
    assert(defer_name(m).len() == 6 || defer_name(m).len() == 9 || defer_name(m).len() == 11
        || defer_name(m).len() == 12);
}

impl DeferMode {
    /// The name the mode is written with.
    pub fn name(self) -> (r: &'static str)
        ensures
            r@ == defer_name(self),
    {
        match self {
            DeferMode::Normal => "normal",
            DeferMode::Reference => "reference",
            DeferMode::ToolSearch => "tool-search",
            DeferMode::SystemTools => "system-tools",
        }
    }

    /// The mode that `name` stands for.
    pub fn from_name(name: &str) -> (r: Option<DeferMode>)
        ensures
            r == defer_named(name@),
    {
        if same(name, "normal") {
            Some(DeferMode::Normal)
        } else if same(name, "reference") {
            Some(DeferMode::Reference)
        } else if same(name, "tool-search") {
            Some(DeferMode::ToolSearch)
        } else if same(name, "system-tools") {
            Some(DeferMode::SystemTools)
        } else {
            None
        }
    }
}

/// The levels of reasoning effort.
#[derive(Clone, Copy, Debug, PartialEq, Eq, Structural)]
pub enum Effort {
    Low,
    Medium,
    High,
    XHigh,
    Max,
}

/// The name a level is written with.
pub open spec fn effort_name(e: Effort) -> Seq<char> {
    match e {
        Effort::Low => "low"@,
        Effort::Medium => "medium"@,
        Effort::High => "high"@,
        Effort::XHigh => "xhigh"@,
        Effort::Max => "max"@,
    }
}

/// The level a name stands for.
pub open spec fn effort_named(name: Seq<char>) -> Option<Effort> {
    if name == "low"@ {
        Some(Effort::Low)
    } else if name == "medium"@ {
        Some(Effort::Medium)
    } else if name == "high"@ {
        Some(Effort::High)
    } else if name == "xhigh"@ {
        Some(Effort::XHigh)
    } else if name == "max"@ {
        Some(Effort::Max)
    } else {
        None
    }
}

/// Every level is read back from its name.
pub proof fn effort_name_reads_back(e: Effort)
    ensures
        effort_named(effort_name(e)) == Some(e),
{
    reveal_strlit("low");
    reveal_strlit("medium");
    reveal_strlit("high");
    reveal_strlit("xhigh");
    reveal_strlit("max");
    assert("low"@.len() == 3 && "medium"@.len() == 6 && "high"@.len() == 4 && "xhigh"@.len() == 5
        && "max"@.len() == 3);
    assert("low"@[0] != "max"@[0]);
}

/// No level is written with nothing.
pub proof fn no_effort_has_no_name()
    ensures
        effort_named(Seq::empty()) is None,
{
    reveal_strlit("low");
    reveal_strlit("medium");
    reveal_strlit("high");
    reveal_strlit("xhigh");
    reveal_strlit("max");
    assert("low"@.len() == 3 && "medium"@.len() == 6 && "high"@.len() == 4 && "xhigh"@.len() == 5
        && "max"@.len() == 3);
}

/// A level that is not one of the five.
pub struct InvalidEffort(pub String);

impl Effort {
    /// The level that `name` stands for.
    pub fn parse(name: &str) -> (r: Result<Effort, InvalidEffort>)
        ensures
            match effort_named(name@) {
                Some(e) => r == Ok::<Effort, InvalidEffort>(e),
                None => r matches Err(InvalidEffort(n)) && n@ == name@,
            },
    {
        if same(name, "low") {
            Ok(Effort::Low)
        } else if same(name, "medium") {
            Ok(Effort::Medium)
        } else if same(name, "high") {
            Ok(Effort::High)
        } else if same(name, "xhigh") {
            Ok(Effort::XHigh)
        } else if same(name, "max") {
            Ok(Effort::Max)
        } else {
            Err(InvalidEffort(own(name)))
        }
    }

    /// The level that `name` stands for; no level when it is empty.
    pub fn optional(name: &str) -> (r: Result<Option<Effort>, InvalidEffort>)
        ensures
            name@.len() == 0 ==> r == Ok::<Option<Effort>, InvalidEffort>(None),
            name@.len() > 0 ==> match effort_named(name@) {
                Some(e) => r == Ok::<Option<Effort>, InvalidEffort>(Some(e)),
                None => r matches Err(InvalidEffort(n)) && n@ == name@,
            },
    {
        if name.is_empty() {
            return Ok(None);
        }
        match Effort::parse(name) {
            Ok(e) => Ok(Some(e)),
            Err(e) => Err(e),
        }
    }
}

/// What sets one provider type apart.
pub struct Dialect {
    /// The type.
    pub kind: ProviderKind,
    /// The environment variable that holds its API key.
    pub env_key: String,
    /// The defer modes its protocol can speak.
    pub defer_modes: Vec<DeferMode>,
}

/// The provider types a program is built with.
pub struct Catalog {
    /// One entry for each type; the first entry of a type speaks for it.
    pub dialects: Vec<Dialect>,
}

impl Catalog {
    /// The entry of a type from `i` on.
    pub open spec fn entry_from(&self, kind: ProviderKind, i: int) -> Option<Dialect>
        decreases self.dialects@.len() - i,
    {
        if i < 0 || i >= self.dialects@.len() {
            None
        } else if self.dialects@[i].kind == kind {
            Some(self.dialects@[i])
        } else {
            self.entry_from(kind, i + 1)
        }
    }

    /// Whether a type can speak a defer mode.
    pub open spec fn speaks(&self, mode: DeferMode, kind: ProviderKind) -> bool {
        match self.entry_from(kind, 0) {
            Some(d) => d.defer_modes@.contains(mode),
            None => false,
        }
    }

    /// The environment variable of the key of a type, given by name.
    pub open spec fn key_variable(&self, kind: Seq<char>) -> Seq<char> {
        match kind_named(kind) {
            Some(k) => match self.entry_from(k, 0) {
                Some(d) => d.env_key@,
                None => "API_KEY"@,
            },
            None => "API_KEY"@,
        }
    }

    /// The entry of a type.
    fn entry(&self, kind: ProviderKind) -> (r: Option<&Dialect>)
        ensures
            match r {
                Some(d) => self.entry_from(kind, 0) == Some(*d),
                None => self.entry_from(kind, 0) is None,
            },
    {
        let mut i: usize = 0;
        while i < self.dialects.len()
            invariant
                i <= self.dialects.len(),
                self.entry_from(kind, 0) == self.entry_from(kind, i as int),
            decreases self.dialects.len() - i,
        {
            if self.dialects[i].kind == kind {
                return Some(&self.dialects[i]);
            }
            i += 1;
        }
        None
    }

    /// Whether the type `kind` can speak the defer mode `mode`.
    pub fn supports(&self, mode: DeferMode, kind: ProviderKind) -> (r: bool)
        ensures
            r == self.speaks(mode, kind),
    {
        match self.entry(kind) {
            Some(d) => {
                for i in 0..d.defer_modes.len()
                    invariant
                        self.entry_from(kind, 0) == Some(*d),
                        forall|k: int| 0 <= k < i ==> d.defer_modes@[k] != mode,
                {
                    if d.defer_modes[i] == mode {
                        assert(d.defer_modes@.contains(mode));
                        return true;
                    }
                }
                false
            },
            None => false,
        }
    }

    /// The environment variable that holds the API key of the type named `kind`; `API_KEY` for a type that
    /// is not known.
    pub fn env_key(&self, kind: &str) -> (r: String)
        ensures
            r@ == self.key_variable(kind@),
    {
        match ProviderKind::from_name(kind) {
            Some(k) => match self.entry(k) {
                Some(d) => d.env_key.clone(),
                None => own("API_KEY"),
            },
            None => own("API_KEY"),
        }
    }
}

/// The generation defaults of an image provider.
pub struct ImageGenParams {
    pub aspect_ratio: Option<String>,
    pub image_size: Option<String>,
    pub negative_prompt: Option<String>,
}

/// A text, unset when it is empty.
pub open spec fn set_text(s: Seq<char>) -> Option<Seq<char>> {
    if s.len() == 0 {
        None
    } else {
        Some(s)
    }
}

/// The view of an optional text.
pub open spec fn opt_view(o: Option<String>) -> Option<Seq<char>> {
    match o {
        Some(s) => Some(s@),
        None => None,
    }
}

/// A text, unset when it is empty.
pub fn set(s: &str) -> (r: Option<String>)
    ensures
        opt_view(r) == set_text(s@),
{
    if s.is_empty() {
        None
    } else {
        Some(own(s))
    }
}

impl ImageGenParams {
    /// The parameters as written; an empty value is unset.
    pub fn from_raw(aspect_ratio: &str, image_size: &str, negative_prompt: &str) -> (r:
        ImageGenParams)
        ensures
            opt_view(r.aspect_ratio) == set_text(aspect_ratio@),
            opt_view(r.image_size) == set_text(image_size@),
            opt_view(r.negative_prompt) == set_text(negative_prompt@),
    {
        ImageGenParams {
            aspect_ratio: set(aspect_ratio),
            image_size: set(image_size),
            negative_prompt: set(negative_prompt),
        }
    }
}

} // verus!
