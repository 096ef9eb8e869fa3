//! A one-layer `providers.<name>` block — every key under the provider — split into the three entries it means.
//!
//! The split is mechanical and total: the endpoint keys stay, the model-level keys become an implicit
//! `models.<name>`, and the usage keys become an implicit `agents.<name>` whose candidate set is that model, or
//! `<name>:*` when the block never named one. Each split block prints ONE deprecation line.

use vstd::prelude::*;
use vstd::string::*;

use crate::config::agent::{blank_agent, opt_strs, AgentConfig, AgentView};
use crate::config::model::{refs, ModelConfig, ModelRef, ModelView, RefView};
use crate::config::provider::{ProviderConfig, ProviderView};
use crate::double::Double;
use crate::map::{pairs_of, StrMap};
use crate::text::{join, joined, own, push_text, strs};
use crate::yaml::{Node, Yaml};

verus! {

/// The toolset that used to be called `agent`.
pub const OLD_SKILLS_SET: &'static str = "agent";

/// The name it has now.
pub const SKILLS_SET: &'static str = "skills";

/// One `providers.<name>` entry as a one-layer config writes it: the endpoint keys plus every model- and
/// agent-level key that used to live here.
pub struct LegacyProviderEntry {
    pub kind: String,
    pub key: String,
    pub url: String,
    /// The default model id; becomes the id of the implicit model.
    pub model: String,
    pub context_window: String,
    pub defer_mode: String,
    pub effort: String,
    pub temperature: Option<Double>,
    pub top_p: Option<Double>,
    pub image: bool,
    pub aspect_ratio: String,
    pub image_size: String,
    pub negative_prompt: String,
    pub json_edits: bool,
    pub system: String,
    pub system_file: String,
    pub tools: StrMap<Yaml>,
    pub mcp_servers: Option<Vec<String>>,
    /// Now spelled `workspace:` on an agent.
    pub agent: bool,
    pub no_save: bool,
    pub notify: Option<bool>,
}

/// What one `providers.<name>` block splits into.
pub struct Split {
    /// The endpoint entry (always present).
    pub provider: ProviderConfig,
    /// The implicit `models.<name>`, when the block carried model-level keys.
    pub model: Option<ModelConfig>,
    /// The implicit `agents.<name>`, when the block carried agent-level keys.
    pub agent: Option<AgentConfig>,
}

/// A key that carries a value which DOES something.
pub open spec fn mark(present: bool, key: Seq<char>) -> Seq<Seq<char>> {
    if present {
        seq![key]
    } else {
        Seq::empty()
    }
}

impl LegacyProviderEntry {
    /// The model-level keys of the block, in the order they are reported.
    pub open spec fn model_marks(&self) -> Seq<Seq<char>> {
        mark(self.model@.len() > 0, "model"@) + mark(
            self.context_window@.len() > 0,
            "context_window"@,
        ) + mark(self.defer_mode@.len() > 0, "defer_mode"@) + mark(
            self.effort@.len() > 0,
            "effort"@,
        ) + mark(self.temperature is Some, "temperature"@) + mark(self.top_p is Some, "top_p"@)
            + mark(self.image, "image"@) + mark(self.aspect_ratio@.len() > 0, "aspect_ratio"@)
            + mark(self.image_size@.len() > 0, "image_size"@) + mark(
            self.negative_prompt@.len() > 0,
            "negative_prompt"@,
        ) + mark(self.json_edits, "json_edits"@)
    }

    /// The agent-level keys of the block, in the order they are reported.
    pub open spec fn agent_marks(&self) -> Seq<Seq<char>> {
        mark(self.system@.len() > 0, "system"@) + mark(self.system_file@.len() > 0, "system_file"@)
            + mark(pairs_of(self.tools@).len() > 0, "tools"@) + mark(
            self.mcp_servers is Some,
            "mcp_servers"@,
        ) + mark(self.agent, "agent"@) + mark(self.no_save, "no_save"@) + mark(
            self.notify is Some,
            "notify"@,
        )
    }

    /// The implicit model of the block.
    pub open spec fn implied_model(&self, name: Seq<char>) -> ModelView {
        ModelView {
            provider: name,
            id: self.model@,
            context_window: self.context_window@,
            defer_mode: self.defer_mode@,
            effort: self.effort@,
            temperature: self.temperature,
            top_p: self.top_p,
            image: self.image,
            aspect_ratio: self.aspect_ratio@,
            image_size: self.image_size@,
            negative_prompt: self.negative_prompt@,
            json_edits: self.json_edits,
        }
    }

    /// The implicit agent of the block.
    pub open spec fn implied_agent(&self, name: Seq<char>) -> AgentView {
        AgentView {
            models: seq![
                if self.model_marks().len() > 0 {
                    RefView::Entry(name)
                } else {
                    RefView::All(name)
                },
            ],
            system: self.system@,
            system_file: self.system_file@,
            tools: self.tools@,
            mcp_servers: opt_strs(self.mcp_servers),
            workspace: self.agent,
            no_save: self.no_save,
            notify: self.notify,
            ..blank_agent()
        }
    }

    /// The deprecation line of the block; none when nothing migrated.
    pub open spec fn split_warning(&self, name: Seq<char>) -> Seq<Seq<char>> {
        let moved = self.model_marks() + self.agent_marks();
        if moved.len() == 0 {
            Seq::empty()
        } else {
            seq![
                "Warning: config providers."@ + name + ": "@ + joined(moved, ", "@)
                    + " now belong under `models:` / `agents:` (still accepted; see README)"@,
            ]
        }
    }

    /// The model-level keys of the block.
    fn mark_model(&self) -> (r: Vec<String>)
        ensures
            strs(r@) == self.model_marks(),
    {
        let mut r: Vec<String> = Vec::new();
        add_mark(&mut r, !self.model.as_str().is_empty(), "model");
        assert(strs(r@) =~= mark(self.model@.len() > 0, "model"@));
        add_mark(&mut r, !self.context_window.as_str().is_empty(), "context_window");
        add_mark(&mut r, !self.defer_mode.as_str().is_empty(), "defer_mode");
        add_mark(&mut r, !self.effort.as_str().is_empty(), "effort");
        add_mark(&mut r, self.temperature.is_some(), "temperature");
        add_mark(&mut r, self.top_p.is_some(), "top_p");
        add_mark(&mut r, self.image, "image");
        add_mark(&mut r, !self.aspect_ratio.as_str().is_empty(), "aspect_ratio");
        add_mark(&mut r, !self.image_size.as_str().is_empty(), "image_size");
        add_mark(&mut r, !self.negative_prompt.as_str().is_empty(), "negative_prompt");
        add_mark(&mut r, self.json_edits, "json_edits");
        r
    }

    /// The agent-level keys of the block.
    fn mark_agent(&self) -> (r: Vec<String>)
        ensures
            strs(r@) == self.agent_marks(),
    {
        let mut r: Vec<String> = Vec::new();
        add_mark(&mut r, !self.system.as_str().is_empty(), "system");
        assert(strs(r@) =~= mark(self.system@.len() > 0, "system"@));
        add_mark(&mut r, !self.system_file.as_str().is_empty(), "system_file");
        add_mark(&mut r, self.tools.len() > 0, "tools");
        add_mark(&mut r, self.mcp_servers.is_some(), "mcp_servers");
        add_mark(&mut r, self.agent, "agent");
        add_mark(&mut r, self.no_save, "no_save");
        add_mark(&mut r, self.notify.is_some(), "notify");
        r
    }

    /// Splits the block, naming every migrated key in ONE warning line.
    pub fn split(self, name: &str, warn: &mut Vec<String>) -> (r: Split)
        ensures
            strs(final(warn)@) == strs(old(warn)@) + self.split_warning(name@),
            r.provider@ == (ProviderView { kind: self.kind@, key: self.key@, url: self.url@ }),
            match r.model {
                Some(m) => self.model_marks().len() > 0 && m@ == self.implied_model(name@),
                None => self.model_marks().len() == 0,
            },
            match r.agent {
                Some(a) => self.agent_marks().len() > 0 && a@ == self.implied_agent(name@),
                None => self.agent_marks().len() == 0,
            },
    {
        let mut moved: Vec<String> = self.mark_model();
        assert(strs(moved@).len() == moved@.len());
        let model_keys: usize = moved.len();
        let mut more: Vec<String> = self.mark_agent();
        assert(strs(more@).len() == more@.len());
        let agent_keys: usize = more.len();
        moved.append(&mut more);
        assert(strs(moved@) =~= self.model_marks() + self.agent_marks());
        let all_keys: usize = moved.len();
        if all_keys > 0 {
            let mut line: String = own("Warning: config providers.");
            line.append(name);
            line.append(": ");
            line.append(join(&moved, ", ").as_str());
            line.append(" now belong under `models:` / `agents:` (still accepted; see README)");
            let ghost text = line@;
            push_text(warn, line);
            assert(strs(old(warn)@).push(text) =~= strs(old(warn)@) + seq![text]);
        } else {
            assert(strs(old(warn)@) + Seq::<Seq<char>>::empty() =~= strs(old(warn)@));
        }
        let agent: Option<AgentConfig> = if agent_keys > 0 {
            let mut models: Vec<ModelRef> = Vec::new();
            models.push(
                if model_keys > 0 {
                    ModelRef::Entry(own(name))
                } else {
                    ModelRef::All { provider: own(name) }
                },
            );
            assert(refs(models@) =~= self.implied_agent(name@).models);
            Some(
                AgentConfig {
                    models,
                    system: self.system,
                    system_file: self.system_file,
                    tools: self.tools,
                    mcp_servers: self.mcp_servers,
                    workspace: self.agent,
                    no_save: self.no_save,
                    notify: self.notify,
                    description: String::new(),
                    context_window: String::new(),
                    effort: String::new(),
                    temperature: None,
                    top_p: None,
                },
            )
        } else {
            None
        };
        let model: Option<ModelConfig> = if model_keys > 0 {
            Some(
                ModelConfig {
                    provider: own(name),
                    id: self.model,
                    context_window: self.context_window,
                    defer_mode: self.defer_mode,
                    effort: self.effort,
                    temperature: self.temperature,
                    top_p: self.top_p,
                    image: self.image,
                    aspect_ratio: self.aspect_ratio,
                    image_size: self.image_size,
                    negative_prompt: self.negative_prompt,
                    json_edits: self.json_edits,
                },
            )
        } else {
            None
        };
        let provider = ProviderConfig { kind: self.kind, key: self.key, url: self.url };
        Split { provider, model, agent }
    }
}

/// Appends a key that carries a value which does something.
fn add_mark(moved: &mut Vec<String>, present: bool, key: &str)
    ensures
        strs(final(moved)@) == strs(old(moved)@) + mark(present, key@),
{
    if present {
        push_text(moved, own(key));
    }
    assert(strs(moved@) =~= strs(old(moved)@) + mark(present, key@));
}

/// The toolsets after the rename: an explicit `skills` already present wins and the old key is dropped.
pub open spec fn renamed_sets(tools: Map<Seq<char>, Node>) -> Map<Seq<char>, Node> {
    if !tools.contains_key(OLD_SKILLS_SET@) {
        tools
    } else if tools.remove(OLD_SKILLS_SET@).contains_key(SKILLS_SET@) {
        tools.remove(OLD_SKILLS_SET@)
    } else {
        tools.remove(OLD_SKILLS_SET@).insert(SKILLS_SET@, tools[OLD_SKILLS_SET@])
    }
}

/// Renames the `agent` toolset key to `skills` in place, warning once and naming the coordinate `at`.
pub fn rename_skills_set(tools: &mut StrMap<Yaml>, at: &str, warn: &mut Vec<String>)
    ensures
        final(tools)@ == renamed_sets(old(tools)@),
        strs(final(warn)@) == if old(tools)@.contains_key(OLD_SKILLS_SET@) {
            strs(old(warn)@).push(
                "Warning: config "@ + at@ + ": toolset `"@ + OLD_SKILLS_SET@ + "` is now `"@
                    + SKILLS_SET@ + "` (still accepted; see README)"@,
            )
        } else {
            strs(old(warn)@)
        },
{
    let node: Yaml = match tools.remove(OLD_SKILLS_SET) {
        Some(node) => node,
        None => {
            assert(tools@ =~= old(tools)@);
            return ;
        },
    };
    let mut line: String = own("Warning: config ");
    line.append(at);
    line.append(": toolset `");
    line.append(OLD_SKILLS_SET);
    line.append("` is now `");
    line.append(SKILLS_SET);
    line.append("` (still accepted; see README)");
    push_text(warn, line);
    if !tools.contains_key(SKILLS_SET) {
        tools.insert(own(SKILLS_SET), node);
    }
}

} // verus!
