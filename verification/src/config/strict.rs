//! The key audit: every key of a config document is checked against the layer it was written in, BEFORE the
//! document is decoded. A key the layer does not own is a mistake, and the error says which layer owns it
//! rather than silently doing nothing.

use vstd::prelude::*;
use vstd::string::*;

use crate::config::error::{ConfigError, ConfigErrorView};
use crate::text::{holds, join, joined, own, same, strs};
use crate::yaml::{text_in, Node, Yaml};

verus! {

/// The top-level maps.
pub open spec fn top_keys() -> Seq<Seq<char>> {
    seq!["providers"@, "models"@, "agents"@, "mcp_servers"@]
}

/// Every key a `providers.<name>` entry accepts.
pub open spec fn provider_keys() -> Seq<Seq<char>> {
    seq!["type"@, "key"@, "url"@]
}

/// Every key a `models.<name>` entry accepts.
pub open spec fn model_keys() -> Seq<Seq<char>> {
    seq![
        "provider"@,
        "id"@,
        "context_window"@,
        "defer_mode"@,
        "effort"@,
        "temperature"@,
        "top_p"@,
        "image"@,
        "aspect_ratio"@,
        "image_size"@,
        "negative_prompt"@,
        "json_edits"@,
    ]
}

/// Every key an `agents.<name>` entry accepts.
pub open spec fn agent_keys() -> Seq<Seq<char>> {
    seq![
        "models"@,
        "system"@,
        "system_file"@,
        "tools"@,
        "mcp_servers"@,
        "workspace"@,
        "no_save"@,
        "notify"@,
        "description"@,
        "context_window"@,
        "effort"@,
        "temperature"@,
        "top_p"@,
    ]
}

/// The keys of an `mcp_servers.<name>` entry that the message on an unknown one names.
pub open spec fn server_keys() -> Seq<Seq<char>> {
    seq!["command"@, "args"@, "url"@, "env"@, "headers"@, "defer"@]
}

/// The keys of an `mcp_servers.<name>` entry that say how to sign in to it.
pub open spec fn sign_in_keys() -> Seq<Seq<char>> {
    seq!["auth"@, "client_id"@, "client_secret"@]
}

/// The built-in toolsets.
pub open spec fn set_names() -> Seq<Seq<char>> {
    seq!["shell"@, "skills"@, "code"@, "ask"@]
}

/// The keys of the entries of a section that the message on an unknown one names.
pub open spec fn keys_of(section: Seq<char>) -> Seq<Seq<char>> {
    if section == "providers"@ {
        provider_keys()
    } else if section == "models"@ {
        model_keys()
    } else if section == "agents"@ {
        agent_keys()
    } else {
        server_keys()
    }
}

/// Whether the entries of a section accept a key.
pub open spec fn accepted(section: Seq<char>, key: Seq<char>) -> bool {
    ||| keys_of(section).contains(key)
    ||| section == "mcp_servers"@ && sign_in_keys().contains(key)
}

/// The layer that owns a key its own section does not accept; `None` when none does.
pub open spec fn owner_of(section: Seq<char>, key: Seq<char>) -> Option<Seq<char>> {
    if section == "providers"@ {
        if model_keys().contains(key) {
            Some("models"@)
        } else if agent_keys().contains(key) {
            Some("agents"@)
        } else {
            None
        }
    } else if section == "models"@ {
        if agent_keys().contains(key) {
            Some("agents"@)
        } else if provider_keys().contains(key) {
            Some("providers"@)
        } else {
            None
        }
    } else if section == "agents"@ {
        if model_keys().contains(key) {
            Some("models"@)
        } else if provider_keys().contains(key) {
            Some("providers"@)
        } else {
            None
        }
    } else {
        None
    }
}

/// What replaced a retired key.
pub open spec fn retired_key(key: Seq<char>) -> Option<Seq<char>> {
    if key == "model"@ {
        Some(
            "`model` is now a `models:` entry — write `models.<name>: <provider>:<id>` and list it in `agents.<name>.models`"@,
        )
    } else if key == "agent"@ {
        Some("`agent` is now `workspace:` on an `agents:` entry"@)
    } else {
        None
    }
}

/// What became of a toolset that was removed or renamed.
pub open spec fn retired_set(name: Seq<char>) -> Option<Seq<char>> {
    if name == "agent"@ {
        Some("the `agent` toolset is now called `skills` (the word `agent` names a config layer)"@)
    } else if name == "delegate"@ {
        Some("the `delegate` toolset was removed — run child agents from bash instead (see README)"@)
    } else {
        None
    }
}

/// What is wrong with the key `<section>.<entry>.<key>`: retired, owned by another layer, or unknown.
pub open spec fn key_fault(section: Seq<char>, entry: Seq<char>, key: Seq<char>) -> Option<
    ConfigErrorView,
> {
    let at = section + "."@ + entry + "."@ + key;
    if accepted(section, key) {
        None
    } else if retired_key(key) is Some {
        Some(ConfigErrorView::Key(at, retired_key(key)->0))
    } else if owner_of(section, key) is Some {
        Some(
            ConfigErrorView::Key(
                at,
                "`"@ + key + "` belongs under `"@ + owner_of(section, key)->0
                    + ":` (see README, \"The three layers\")"@,
            ),
        )
    } else {
        Some(
            ConfigErrorView::Key(
                at,
                "unknown key (want "@ + joined(keys_of(section), ", "@) + ")"@,
            ),
        )
    }
}

/// What is wrong with the first misnamed toolset from `i` on.
pub open spec fn sets_fault(agent: Seq<char>, sets: Seq<(Node, Node)>, i: int) -> Option<
    ConfigErrorView,
>
    decreases sets.len() - i,
{
    if i < 0 || i >= sets.len() {
        None
    } else {
        match text_in(sets[i].0) {
            Some(name) => if set_names().contains(name) {
                sets_fault(agent, sets, i + 1)
            } else {
                Some(
                    ConfigErrorView::Key(
                        "agents."@ + agent + ".tools."@ + name,
                        match retired_set(name) {
                            Some(hint) => hint,
                            None => "unknown toolset (want "@ + joined(set_names(), ", "@) + ")"@,
                        },
                    ),
                )
            },
            None => sets_fault(agent, sets, i + 1),
        }
    }
}

/// What is wrong with the toolsets of an agent.
pub open spec fn tools_fault(agent: Seq<char>, tools: Node) -> Option<ConfigErrorView> {
    match tools {
        Node::Mapping(sets) => sets_fault(agent, sets, 0),
        _ => None,
    }
}

/// What is wrong with the first faulty field from `i` on.
pub open spec fn fields_fault(
    section: Seq<char>,
    entry: Seq<char>,
    fields: Seq<(Node, Node)>,
    i: int,
) -> Option<ConfigErrorView>
    decreases fields.len() - i,
{
    if i < 0 || i >= fields.len() {
        None
    } else {
        match text_in(fields[i].0) {
            Some(key) => if key_fault(section, entry, key) is Some {
                key_fault(section, entry, key)
            } else if section == "agents"@ && key == "tools"@ && tools_fault(
                entry,
                fields[i].1,
            ) is Some {
                tools_fault(entry, fields[i].1)
            } else {
                fields_fault(section, entry, fields, i + 1)
            },
            None => fields_fault(section, entry, fields, i + 1),
        }
    }
}

/// What is wrong with the first faulty entry from `i` on. Only an entry that is a mapping has keys.
pub open spec fn entries_fault(section: Seq<char>, entries: Seq<(Node, Node)>, i: int) -> Option<
    ConfigErrorView,
>
    decreases entries.len() - i,
{
    if i < 0 || i >= entries.len() {
        None
    } else {
        match (text_in(entries[i].0), entries[i].1) {
            (Some(name), Node::Mapping(fields)) => if fields_fault(
                section,
                name,
                fields,
                0,
            ) is Some {
                fields_fault(section, name, fields, 0)
            } else {
                entries_fault(section, entries, i + 1)
            },
            _ => entries_fault(section, entries, i + 1),
        }
    }
}

/// What is wrong with a section.
pub open spec fn section_fault(section: Seq<char>, entries: Node) -> Option<ConfigErrorView> {
    match entries {
        Node::Mapping(m) => entries_fault(section, m, 0),
        _ => None,
    }
}

/// What is wrong with the first faulty top-level key from `i` on.
pub open spec fn top_fault(top: Seq<(Node, Node)>, i: int) -> Option<ConfigErrorView>
    decreases top.len() - i,
{
    if i < 0 || i >= top.len() {
        None
    } else {
        match text_in(top[i].0) {
            Some(name) => if !top_keys().contains(name) {
                Some(
                    ConfigErrorView::Key(
                        name,
                        "unknown top-level key (want providers:, models:, agents:, mcp_servers:)"@,
                    ),
                )
            } else if section_fault(name, top[i].1) is Some {
                section_fault(name, top[i].1)
            } else {
                top_fault(top, i + 1)
            },
            None => top_fault(top, i + 1),
        }
    }
}

/// The first fault of a document, in its own order; `None` when every key stands where it belongs.
pub open spec fn document_fault(doc: Node) -> Option<ConfigErrorView> {
    match doc {
        Node::Mapping(top) => top_fault(top, 0),
        _ => None,
    }
}

/// Whether the result of a check is the fault `want`.
pub open spec fn reports(r: Result<(), ConfigError>, want: Option<ConfigErrorView>) -> bool {
    match r {
        Ok(_) => want is None,
        Err(e) => want == Some(e@),
    }
}

/// Owned copies of a list of literals.
fn owned(list: &[&'static str]) -> (r: Vec<String>)
    ensures
        r@.len() == list@.len(),
        forall|i: int| 0 <= i < list@.len() ==> (#[trigger] r@[i])@ == list@[i]@,
{
    let mut r: Vec<String> = Vec::new();
    for i in 0..list.len()
        invariant
            r@.len() == i,
            forall|k: int| 0 <= k < i ==> (#[trigger] r@[k])@ == list@[k]@,
    {
        r.push(own(list[i]));
    }
    r
}

fn top_list() -> (r: Vec<String>)
    ensures
        strs(r@) == top_keys(),
{
    let r: Vec<String> = owned(&["providers", "models", "agents", "mcp_servers"]);
    assert(strs(r@) =~= top_keys());
    r
}

fn provider_list() -> (r: Vec<String>)
    ensures
        strs(r@) == provider_keys(),
{
    let r: Vec<String> = owned(&["type", "key", "url"]);
    assert(strs(r@) =~= provider_keys());
    r
}

fn model_list() -> (r: Vec<String>)
    ensures
        strs(r@) == model_keys(),
{
    let r: Vec<String> = owned(
        &[
            "provider",
            "id",
            "context_window",
            "defer_mode",
            "effort",
            "temperature",
            "top_p",
            "image",
            "aspect_ratio",
            "image_size",
            "negative_prompt",
            "json_edits",
        ],
    );
    assert(strs(r@) =~= model_keys());
    r
}

fn agent_list() -> (r: Vec<String>)
    ensures
        strs(r@) == agent_keys(),
{
    let r: Vec<String> = owned(
        &[
            "models",
            "system",
            "system_file",
            "tools",
            "mcp_servers",
            "workspace",
            "no_save",
            "notify",
            "description",
            "context_window",
            "effort",
            "temperature",
            "top_p",
        ],
    );
    assert(strs(r@) =~= agent_keys());
    r
}

fn server_list() -> (r: Vec<String>)
    ensures
        strs(r@) == server_keys(),
{
    let r: Vec<String> = owned(&["command", "args", "url", "env", "headers", "defer"]);
    assert(strs(r@) =~= server_keys());
    r
}

fn set_list() -> (r: Vec<String>)
    ensures
        strs(r@) == set_names(),
{
    let r: Vec<String> = owned(&["shell", "skills", "code", "ask"]);
    assert(strs(r@) =~= set_names());
    r
}

fn sign_in_list() -> (r: Vec<String>)
    ensures
        strs(r@) == sign_in_keys(),
{
    let r: Vec<String> = owned(&["auth", "client_id", "client_secret"]);
    assert(strs(r@) =~= sign_in_keys());
    r
}

/// The keys of the entries of a section that the message on an unknown one names.
fn key_list(section: &str) -> (r: Vec<String>)
    ensures
        strs(r@) == keys_of(section@),
{
    if same(section, "providers") {
        provider_list()
    } else if same(section, "models") {
        model_list()
    } else if same(section, "agents") {
        agent_list()
    } else {
        server_list()
    }
}

/// The layer that owns a key its own section does not accept.
fn owner(section: &str, key: &str) -> (r: Option<&'static str>)
    ensures
        match r {
            Some(layer) => owner_of(section@, key@) == Some(layer@),
            None => owner_of(section@, key@) is None,
        },
{
    if same(section, "providers") {
        if holds(&model_list(), key) {
            Some("models")
        } else if holds(&agent_list(), key) {
            Some("agents")
        } else {
            None
        }
    } else if same(section, "models") {
        if holds(&agent_list(), key) {
            Some("agents")
        } else if holds(&provider_list(), key) {
            Some("providers")
        } else {
            None
        }
    } else if same(section, "agents") {
        if holds(&model_list(), key) {
            Some("models")
        } else if holds(&provider_list(), key) {
            Some("providers")
        } else {
            None
        }
    } else {
        None
    }
}

/// One `<section>.<entry>.<key>`: accepted, retired (with its replacement), owned by another layer, or unknown.
pub fn check_key(section: &str, entry: &str, key: &str) -> (r: Result<(), ConfigError>)
    ensures
        reports(r, key_fault(section@, entry@, key@)),
{
    let own_keys: Vec<String> = key_list(section);
    if holds(&own_keys, key) || (same(section, "mcp_servers") && holds(&sign_in_list(), key)) {
        return Ok(());
    }
    let mut at: String = own(section);
    at.append(".");
    at.append(entry);
    at.append(".");
    at.append(key);
    if same(key, "model") {
        return Err(
            ConfigError::Key {
                at,
                message: own(
                    "`model` is now a `models:` entry — write `models.<name>: <provider>:<id>` and list it in `agents.<name>.models`",
                ),
            },
        );
    }
    if same(key, "agent") {
        return Err(
            ConfigError::Key {
                at,
                message: own("`agent` is now `workspace:` on an `agents:` entry"),
            },
        );
    }
    if let Some(layer) = owner(section, key) {
        let mut message: String = own("`");
        message.append(key);
        message.append("` belongs under `");
        message.append(layer);
        message.append(":` (see README, \"The three layers\")");
        return Err(ConfigError::Key { at, message });
    }
    let mut message: String = own("unknown key (want ");
    message.append(join(&own_keys, ", ").as_str());
    message.append(")");
    Err(ConfigError::Key { at, message })
}

/// `agents.<name>.tools`: every key names a built-in toolset.
pub fn check_tools(agent: &str, tools: &Yaml) -> (r: Result<(), ConfigError>)
    ensures
        reports(r, tools_fault(agent@, tools@)),
{
    match tools {
        Yaml::Mapping(sets) => {
            let ghost all = tools@->Mapping_0;
            for i in 0..sets.len()
                invariant
                    tools@ == Node::Mapping(all),
                    tools == Yaml::Mapping(*sets),
                    all.len() == sets@.len(),
                    sets_fault(agent@, all, 0) == sets_fault(agent@, all, i as int),
            {
                assert(all[i as int] == (sets@[i as int].0@, sets@[i as int].1@));
                if let Some(name) = sets[i].0.as_text() {
                    if !holds(&set_list(), name.as_str()) {
                        let mut at: String = own("agents.");
                        at.append(agent);
                        at.append(".tools.");
                        at.append(name.as_str());
                        if same(name.as_str(), "agent") {
                            return Err(
                                ConfigError::Key {
                                    at,
                                    message: own(
                                        "the `agent` toolset is now called `skills` (the word `agent` names a config layer)",
                                    ),
                                },
                            );
                        }
                        if same(name.as_str(), "delegate") {
                            return Err(
                                ConfigError::Key {
                                    at,
                                    message: own(
                                        "the `delegate` toolset was removed — run child agents from bash instead (see README)",
                                    ),
                                },
                            );
                        }
                        let mut message: String = own("unknown toolset (want ");
                        message.append(join(&set_list(), ", ").as_str());
                        message.append(")");
                        return Err(ConfigError::Key { at, message });
                    }
                }
            }
            Ok(())
        },
        _ => Ok(()),
    }
}

/// The keys of one entry.
fn check_fields(section: &str, entry: &str, fields: &Vec<(Yaml, Yaml)>, Ghost(all): Ghost<
    Seq<(Node, Node)>,
>) -> (r: Result<(), ConfigError>)
    requires
        all.len() == fields@.len(),
        forall|i: int|
            0 <= i < all.len() ==> #[trigger] all[i] == (fields@[i].0@, fields@[i].1@),
    ensures
        reports(r, fields_fault(section@, entry@, all, 0)),
{
    for i in 0..fields.len()
        invariant
            all.len() == fields@.len(),
            forall|i: int|
                0 <= i < all.len() ==> #[trigger] all[i] == (fields@[i].0@, fields@[i].1@),
            fields_fault(section@, entry@, all, 0) == fields_fault(
                section@,
                entry@,
                all,
                i as int,
            ),
    {
        assert(all[i as int] == (fields@[i as int].0@, fields@[i as int].1@));
        if let Some(key) = fields[i].0.as_text() {
            if let Err(e) = check_key(section, entry, key.as_str()) {
                return Err(e);
            }
            if same(section, "agents") && same(key.as_str(), "tools") {
                if let Err(e) = check_tools(entry, &fields[i].1) {
                    return Err(e);
                }
            }
        }
    }
    Ok(())
}

/// One top-level map: every entry that is a mapping has its keys checked against `section`'s own set.
pub fn audit_section(section: &str, entries: &Yaml) -> (r: Result<(), ConfigError>)
    ensures
        reports(r, section_fault(section@, entries@)),
{
    match entries {
        Yaml::Mapping(list) => {
            let ghost all = entries@->Mapping_0;
            for i in 0..list.len()
                invariant
                    entries@ == Node::Mapping(all),
                    entries == Yaml::Mapping(*list),
                    all.len() == list@.len(),
                    entries_fault(section@, all, 0) == entries_fault(section@, all, i as int),
            {
                assert(all[i as int] == (list@[i as int].0@, list@[i as int].1@));
                if let (Some(name), Yaml::Mapping(fields)) = (list[i].0.as_text(), &list[i].1) {
                    let ghost inner = list@[i as int].1@->Mapping_0;
                    if let Err(e) = check_fields(section, name.as_str(), fields, Ghost(inner)) {
                        return Err(e);
                    }
                }
            }
            Ok(())
        },
        _ => Ok(()),
    }
}

/// Checks every key of one document. `Ok(())` means that the decode which follows sees nothing it would have
/// to ignore.
pub fn audit(doc: &Yaml) -> (r: Result<(), ConfigError>)
    ensures
        reports(r, document_fault(doc@)),
{
    match doc {
        Yaml::Mapping(top) => {
            let ghost all = doc@->Mapping_0;
            for i in 0..top.len()
                invariant
                    doc@ == Node::Mapping(all),
                    doc == Yaml::Mapping(*top),
                    all.len() == top@.len(),
                    top_fault(all, 0) == top_fault(all, i as int),
            {
                assert(all[i as int] == (top@[i as int].0@, top@[i as int].1@));
                if let Some(name) = top[i].0.as_text() {
                    if !holds(&top_list(), name.as_str()) {
                        return Err(
                            ConfigError::Key {
                                at: name.clone(),
                                message: own(
                                    "unknown top-level key (want providers:, models:, agents:, mcp_servers:)",
                                ),
                            },
                        );
                    }
                    if let Err(e) = audit_section(name.as_str(), &top[i].1) {
                        return Err(e);
                    }
                }
            }
            Ok(())
        },
        _ => Ok(()),
    }
}

} // verus!
