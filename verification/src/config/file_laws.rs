//! What a config file may hold, what becomes of one in the old form, and what an edit of one leaves alone.

use vstd::prelude::*;
use vstd::string::*;

use crate::cmd::show_laws::stands_between;
use crate::config::edit::{
    blank_line_after, block_of, closed_up, key_line, key_of, line_at, line_end, line_end_advances,
    unquoted, without_newlines, EditError,
};
use crate::config::error::{error_text, ConfigErrorView};
use crate::config::migrate::{mark, renamed_sets, LegacyProviderEntry};
use crate::config::model::RefView;
use crate::config::strict::{
    accepted, agent_keys, entries_fault, fields_fault, key_fault, keys_of, model_keys, owner_of,
    provider_keys, retired_key, section_fault, set_names, sets_fault, tools_fault, top_fault,
    top_keys,
};
use crate::provider::{kind_name, Catalog, ProviderKind};
use crate::text::{
    begins, debug_text, ends, first_at, first_at_is, is_white, joined, occurs, trim_end,
};
use crate::yaml::{entry_from, field_in, text_in, Node};

verus! {

// ---------------------------------------------------------------- which keys a file may have

/// A file is refused exactly where one of its sections is unknown or faulty, and for the first such.
pub proof fn the_first_fault_is_reported(top: Seq<(Node, Node)>, from: int, k: int)
    requires
        0 <= from <= k <= top.len(),
        forall|i: int|
            from <= i < k ==> match text_in((#[trigger] top[i]).0) {
                Some(name) => top_keys().contains(name) && section_fault(name, top[i].1) is None,
                None => true,
            },
    ensures
        k == top.len() ==> top_fault(top, from) is None,
        k < top.len() ==> (text_in(top[k].0) matches Some(name) ==> {
            &&& !top_keys().contains(name) ==> (top_fault(top, from) matches Some(
                ConfigErrorView::Key(at, _),
            ) && at == name)
            &&& top_keys().contains(name) && section_fault(name, top[k].1) is Some ==> top_fault(
                top,
                from,
            ) == section_fault(name, top[k].1)
        }),
    decreases k - from,
{
    if from < k {
        assert(match text_in(top[from].0) {
            Some(name) => top_keys().contains(name) && section_fault(name, top[from].1) is None,
            None => true,
        });
        the_first_fault_is_reported(top, from + 1, k);
    }
}

/// A file that is accepted has known sections alone, none of them faulty.
pub proof fn accepted_files_have_known_sections(top: Seq<(Node, Node)>, from: int, i: int)
    requires
        0 <= from <= i < top.len(),
        top_fault(top, from) is None,
    ensures
        text_in(top[i].0) matches Some(name) ==> (name == "providers"@ || name == "models"@ || name
            == "agents"@ || name == "mcp_servers"@) && section_fault(name, top[i].1) is None,
    decreases i - from,
{
    if from < i {
        accepted_files_have_known_sections(top, from + 1, i);
    }
}

/// Every entry of an accepted section has accepted keys alone.
pub proof fn accepted_entries_have_known_keys(
    section: Seq<char>,
    entries: Seq<(Node, Node)>,
    from: int,
    i: int,
)
    requires
        0 <= from <= i < entries.len(),
        entries_fault(section, entries, from) is None,
    ensures
        text_in(entries[i].0) matches Some(name) ==> (entries[i].1 matches Node::Mapping(fields)
            ==> fields_fault(section, name, fields, 0) is None),
    decreases i - from,
{
    if from < i {
        accepted_entries_have_known_keys(section, entries, from + 1, i);
    }
}

/// A key of an accepted entry is one of its section's, and the tools of an agent are known sets.
pub proof fn accepted_fields_are_known(
    section: Seq<char>,
    entry: Seq<char>,
    fields: Seq<(Node, Node)>,
    from: int,
    i: int,
)
    requires
        0 <= from <= i < fields.len(),
        fields_fault(section, entry, fields, from) is None,
    ensures
        text_in(fields[i].0) matches Some(key) ==> accepted(section, key) && (section == "agents"@
            && key == "tools"@ ==> tools_fault(entry, fields[i].1) is None),
    decreases i - from,
{
    if from < i {
        accepted_fields_are_known(section, entry, fields, from + 1, i);
    }
}

/// An entry of known keys is accepted.
pub proof fn known_fields_are_accepted(
    section: Seq<char>,
    entry: Seq<char>,
    fields: Seq<(Node, Node)>,
    from: int,
)
    requires
        0 <= from <= fields.len(),
        forall|i: int|
            from <= i < fields.len() ==> match text_in((#[trigger] fields[i]).0) {
                Some(key) => accepted(section, key) && (section == "agents"@ && key == "tools"@
                    ==> tools_fault(entry, fields[i].1) is None),
                None => true,
            },
    ensures
        fields_fault(section, entry, fields, from) is None,
    decreases fields.len() - from,
{
    if from < fields.len() {
        assert(match text_in(fields[from].0) {
            Some(key) => accepted(section, key) && (section == "agents"@ && key == "tools"@
                ==> tools_fault(entry, fields[from].1) is None),
            None => true,
        });
        known_fields_are_accepted(section, entry, fields, from + 1);
    }
}

/// The toolsets of an agent are of the four there are; the first that is not is named.
pub proof fn toolsets_are_known(agent: Seq<char>, sets: Seq<(Node, Node)>, from: int, k: int)
    requires
        0 <= from <= k <= sets.len(),
        forall|i: int|
            from <= i < k ==> match text_in((#[trigger] sets[i]).0) {
                Some(name) => name == "shell"@ || name == "skills"@ || name == "code"@ || name
                    == "ask"@,
                None => true,
            },
    ensures
        k == sets.len() ==> sets_fault(agent, sets, from) is None,
        k < sets.len() ==> (text_in(sets[k].0) matches Some(name) ==> (name != "shell"@ && name
            != "skills"@ && name != "code"@ && name != "ask"@ ==> (sets_fault(
            agent,
            sets,
            from,
        ) matches Some(ConfigErrorView::Key(at, _)) && at == "agents."@ + agent + ".tools."@
            + name))),
    decreases k - from,
{
    let known = set_names();
    assert(known[0] == "shell"@ && known[1] == "skills"@ && known[2] == "code"@ && known[3]
        == "ask"@);
    if from < k {
        assert(match text_in(sets[from].0) {
            Some(name) => name == "shell"@ || name == "skills"@ || name == "code"@ || name
                == "ask"@,
            None => true,
        });
        toolsets_are_known(agent, sets, from + 1, k);
    } else if k < sets.len() {
        match text_in(sets[k].0) {
            Some(name) => {
                if known.contains(name) {
                    let i = choose|i: int| 0 <= i < known.len() && known[i] == name;
                    assert(i == 0 || i == 1 || i == 2 || i == 3);
                }
            },
            None => {},
        }
    }
}

/// A key that is not accepted is named with its section and its entry.
pub proof fn refused_keys_are_named(section: Seq<char>, entry: Seq<char>, key: Seq<char>)
    ensures
        accepted(section, key) <==> key_fault(section, entry, key) is None,
        key_fault(section, entry, key) matches Some(e) ==> (e matches ConfigErrorView::Key(at, _)
            && at == section + "."@ + entry + "."@ + key),
        key_fault(section, entry, key) is Some && retired_key(key) is None && owner_of(section, key)
            is None ==> (key_fault(section, entry, key) matches Some(
            ConfigErrorView::Key(_, message),
        ) && occurs(message, joined(keys_of(section), ", "@))),
        key_fault(section, entry, key) is Some && retired_key(key) is None ==> (owner_of(
            section,
            key,
        ) matches Some(owner) ==> (key_fault(section, entry, key) matches Some(
            ConfigErrorView::Key(_, message),
        ) && begins(message, "`"@ + key + "` belongs under `"@ + owner + ":`"@))),
{
    stands_between("unknown key (want "@, joined(keys_of(section), ", "@), ")"@);
    match owner_of(section, key) {
        Some(owner) => {
            let message = "`"@ + key + "` belongs under `"@ + owner
                + ":` (see README, \"The three layers\")"@;
            reveal_strlit(":` (see README, \"The three layers\")");
            reveal_strlit(":`");
            let head = "`"@ + key + "` belongs under `"@ + owner + ":`"@;
            assert(message.subrange(0, head.len() as int) =~= head);
        },
        None => {},
    }
}

/// A key that another layer has is sent there: a model's or an agent's from a provider, an agent's or a
/// provider's from a model, a model's or a provider's from an agent.
pub proof fn keys_are_sent_to_their_layer(key: Seq<char>)
    ensures
        model_keys().contains(key) ==> owner_of("providers"@, key) == Some("models"@) && owner_of(
            "agents"@,
            key,
        ) == Some("models"@),
        agent_keys().contains(key) ==> owner_of("models"@, key) == Some("agents"@),
        agent_keys().contains(key) && !model_keys().contains(key) ==> owner_of("providers"@, key)
            == Some("agents"@),
        provider_keys().contains(key) && !model_keys().contains(key) ==> owner_of("agents"@, key)
            == Some("providers"@),
        provider_keys().contains(key) && !agent_keys().contains(key) ==> owner_of("models"@, key)
            == Some("providers"@),
        owner_of("mcp_servers"@, key) is None,
{
    sections_differ();
}

proof fn sections_differ()
    ensures
        "providers"@ != "models"@,
        "providers"@ != "agents"@,
        "models"@ != "agents"@,
        "mcp_servers"@ != "providers"@,
        "mcp_servers"@ != "models"@,
        "mcp_servers"@ != "agents"@,
{
    reveal_strlit("providers");
    reveal_strlit("models");
    reveal_strlit("agents");
    reveal_strlit("mcp_servers");
    assert("models"@[0] == 'm' && "agents"@[0] == 'a');
    assert("providers"@.len() == 9 && "models"@.len() == 6 && "agents"@.len() == 6);
    assert("mcp_servers"@.len() == 11);
}

/// Every layer has the keys of its own settings.
pub proof fn layers_have_their_keys()
    ensures
        forall|key: Seq<char>| #[trigger]
            keys_of("providers"@).contains(key) <==> key == "type"@ || key == "key"@ || key == "url"@,
        forall|key: Seq<char>| #[trigger]
            keys_of("models"@).contains(key) <==> key == "provider"@ || key == "id"@ || key
                == "context_window"@ || key == "defer_mode"@ || key == "effort"@ || key
                == "temperature"@ || key == "top_p"@ || key == "image"@ || key == "aspect_ratio"@
                || key == "image_size"@ || key == "negative_prompt"@ || key == "json_edits"@,
        forall|key: Seq<char>| #[trigger]
            keys_of("agents"@).contains(key) <==> key == "models"@ || key == "system"@ || key
                == "system_file"@ || key == "tools"@ || key == "mcp_servers"@ || key == "workspace"@
                || key == "no_save"@ || key == "notify"@ || key == "description"@ || key
                == "context_window"@ || key == "effort"@ || key == "temperature"@ || key
                == "top_p"@,
{
    sections_differ();
    assert forall|key: Seq<char>| #[trigger]
        keys_of("providers"@).contains(key) <==> key == "type"@ || key == "key"@ || key == "url"@ by {
        let k = provider_keys();
        assert(k[0] == "type"@ && k[1] == "key"@ && k[2] == "url"@);
        if k.contains(key) {
            let i = choose|i: int| 0 <= i < k.len() && k[i] == key;
        }
    }
    assert forall|key: Seq<char>| #[trigger]
        keys_of("models"@).contains(key) <==> key == "provider"@ || key == "id"@ || key
            == "context_window"@ || key == "defer_mode"@ || key == "effort"@ || key
            == "temperature"@ || key == "top_p"@ || key == "image"@ || key == "aspect_ratio"@ || key
            == "image_size"@ || key == "negative_prompt"@ || key == "json_edits"@ by {
        let k = model_keys();
        assert(k[0] == "provider"@ && k[1] == "id"@ && k[2] == "context_window"@ && k[3]
            == "defer_mode"@ && k[4] == "effort"@ && k[5] == "temperature"@ && k[6] == "top_p"@
            && k[7] == "image"@ && k[8] == "aspect_ratio"@ && k[9] == "image_size"@ && k[10]
            == "negative_prompt"@ && k[11] == "json_edits"@);
        if k.contains(key) {
            let i = choose|i: int| 0 <= i < k.len() && k[i] == key;
        }
    }
    assert forall|key: Seq<char>| #[trigger]
        keys_of("agents"@).contains(key) <==> key == "models"@ || key == "system"@ || key
            == "system_file"@ || key == "tools"@ || key == "mcp_servers"@ || key == "workspace"@
            || key == "no_save"@ || key == "notify"@ || key == "description"@ || key
            == "context_window"@ || key == "effort"@ || key == "temperature"@ || key == "top_p"@ by {
        let k = agent_keys();
        assert(k[0] == "models"@ && k[1] == "system"@ && k[2] == "system_file"@ && k[3]
            == "tools"@ && k[4] == "mcp_servers"@ && k[5] == "workspace"@ && k[6] == "no_save"@
            && k[7] == "notify"@ && k[8] == "description"@ && k[9] == "context_window"@ && k[10]
            == "effort"@ && k[11] == "temperature"@ && k[12] == "top_p"@);
        if k.contains(key) {
            let i = choose|i: int| 0 <= i < k.len() && k[i] == key;
        }
    }
}

// ---------------------------------------------------------------- the old form

/// A provider in the old form implies a model exactly where it says anything of one.
pub proof fn old_entries_imply_their_model(e: LegacyProviderEntry)
    ensures
        e.model_marks().len() == 0 <==> e.model@.len() == 0 && e.context_window@.len() == 0
            && e.defer_mode@.len() == 0 && e.effort@.len() == 0 && e.temperature is None && e.top_p
            is None && !e.image && e.aspect_ratio@.len() == 0 && e.image_size@.len() == 0
            && e.negative_prompt@.len() == 0 && !e.json_edits,
{
    let a = mark(e.model@.len() > 0, "model"@) + mark(
        e.context_window@.len() > 0,
        "context_window"@,
    ) + mark(e.defer_mode@.len() > 0, "defer_mode"@) + mark(e.effort@.len() > 0, "effort"@) + mark(
        e.temperature is Some,
        "temperature"@,
    ) + mark(e.top_p is Some, "top_p"@);
    first_marks(e);
    later_marks(e, a);
}

proof fn first_marks(e: LegacyProviderEntry)
    ensures
        (mark(e.model@.len() > 0, "model"@) + mark(e.context_window@.len() > 0, "context_window"@)
            + mark(e.defer_mode@.len() > 0, "defer_mode"@) + mark(e.effort@.len() > 0, "effort"@)
            + mark(e.temperature is Some, "temperature"@) + mark(e.top_p is Some, "top_p"@)).len()
            == 0 <==> e.model@.len() == 0 && e.context_window@.len() == 0 && e.defer_mode@.len()
            == 0 && e.effort@.len() == 0 && e.temperature is None && e.top_p is None,
{
}

proof fn later_marks(e: LegacyProviderEntry, s: Seq<Seq<char>>)
    ensures
        (s + mark(e.image, "image"@) + mark(e.aspect_ratio@.len() > 0, "aspect_ratio"@) + mark(
            e.image_size@.len() > 0,
            "image_size"@,
        ) + mark(e.negative_prompt@.len() > 0, "negative_prompt"@) + mark(
            e.json_edits,
            "json_edits"@,
        )).len() == 0 <==> s.len() == 0 && !e.image && e.aspect_ratio@.len() == 0
            && e.image_size@.len() == 0 && e.negative_prompt@.len() == 0 && !e.json_edits,
{
}

/// A provider in the old form implies an agent exactly where it says anything of one.
pub proof fn old_entries_imply_their_agent(e: LegacyProviderEntry)
    ensures
        e.agent_marks().len() == 0 <==> e.system@.len() == 0 && e.system_file@.len() == 0
            && crate::map::pairs_of(e.tools@).len() == 0 && e.mcp_servers is None && !e.agent
            && !e.no_save && e.notify is None,
{
    let a = mark(e.system@.len() > 0, "system"@);
    let b = mark(e.system_file@.len() > 0, "system_file"@);
    let c = mark(crate::map::pairs_of(e.tools@).len() > 0, "tools"@);
    let d = mark(e.mcp_servers is Some, "mcp_servers"@);
    let f = mark(e.agent, "agent"@);
    let g = mark(e.no_save, "no_save"@);
    let h = mark(e.notify is Some, "notify"@);
    assert(e.agent_marks() == a + b + c + d + f + g + h);
    assert(e.agent_marks().len() == a.len() + b.len() + c.len() + d.len() + f.len() + g.len()
        + h.len());
}

/// The model that an old entry implies stands at that entry and has its settings.
pub proof fn implied_models_keep_their_settings(e: LegacyProviderEntry, name: Seq<char>)
    ensures
        ({
            let m = e.implied_model(name);
            &&& m.provider == name
            &&& m.id == e.model@
            &&& m.context_window == e.context_window@
            &&& m.defer_mode == e.defer_mode@
            &&& m.effort == e.effort@
            &&& m.temperature == e.temperature
            &&& m.top_p == e.top_p
            &&& m.image == e.image
            &&& m.aspect_ratio == e.aspect_ratio@
            &&& m.image_size == e.image_size@
            &&& m.negative_prompt == e.negative_prompt@
            &&& m.json_edits == e.json_edits
        }),
{
}

/// The agent that an old entry implies runs its model, or any of the provider's where it implies none, and has
/// its settings.
pub proof fn implied_agents_keep_their_settings(e: LegacyProviderEntry, name: Seq<char>)
    ensures
        ({
            let a = e.implied_agent(name);
            &&& a.models.len() == 1
            &&& e.model@.len() > 0 ==> a.models[0] == RefView::Entry(name)
            &&& e.model_marks().len() == 0 ==> a.models[0] == RefView::All(name)
            &&& a.system == e.system@
            &&& a.system_file == e.system_file@
            &&& a.tools == e.tools@
            &&& a.workspace == e.agent
            &&& a.no_save == e.no_save
            &&& a.notify == e.notify
            &&& e.mcp_servers is None <==> a.mcp_servers is None
            &&& e.mcp_servers matches Some(v) ==> a.mcp_servers == Some(crate::text::strs(v@))
            &&& a.context_window.len() == 0 && a.effort.len() == 0 && a.temperature is None
                && a.top_p is None
        }),
{
}

/// What moved is warned of, once, with the provider's name; an entry that moved nothing is not.
pub proof fn what_moved_is_warned_of(e: LegacyProviderEntry, name: Seq<char>)
    ensures
        e.model_marks().len() == 0 && e.agent_marks().len() == 0 <==> e.split_warning(name).len()
            == 0,
        e.split_warning(name).len() <= 1,
        e.split_warning(name).len() == 1 ==> begins(
            e.split_warning(name)[0],
            "Warning: config providers."@ + name + ": "@ + joined(
                e.model_marks() + e.agent_marks(),
                ", "@,
            ),
        ),
{
    let moved = e.model_marks() + e.agent_marks();
    if moved.len() > 0 {
        let w = e.split_warning(name)[0];
        let head = "Warning: config providers."@ + name + ": "@ + joined(moved, ", "@);
        assert(w.subrange(0, head.len() as int) =~= head);
    }
}

/// The old name of the skills toolset is no longer there; its settings are under the new one unless that was
/// there already, and every other toolset is as it was.
pub proof fn the_skills_set_is_renamed(tools: Map<Seq<char>, Node>, other: Seq<char>)
    requires
        other != "agent"@,
        other != "skills"@,
    ensures
        ({
            let now = renamed_sets(tools);
            &&& !now.contains_key("agent"@)
            &&& now.contains_key(other) <==> tools.contains_key(other)
            &&& tools.contains_key(other) ==> now[other] == tools[other]
            &&& tools.contains_key("skills"@) ==> now.contains_key("skills"@) && now["skills"@]
                == tools["skills"@]
            &&& !tools.contains_key("skills"@) && tools.contains_key("agent"@)
                ==> now.contains_key("skills"@) && now["skills"@] == tools["agent"@]
            &&& !tools.contains_key("skills"@) && !tools.contains_key("agent"@)
                ==> !now.contains_key("skills"@)
        }),
{
    reveal_strlit("agent");
    reveal_strlit("skills");
    assert("agent"@.len() == 5 && "skills"@.len() == 6);
}

// ---------------------------------------------------------------- editing

proof fn lines_end_at_breaks(s: Seq<char>, i: int)
    requires
        0 <= i < s.len(),
    ensures
        line_end(s, i) == s.len() || s[line_end(s, i) - 1] == '\n',
        forall|k: int| i < k < line_end(s, i) ==> #[trigger] s[k - 1] != '\n',
    decreases s.len() - i,
{
    line_end_advances(s, i);
    if s[i] != '\n' && i + 1 < s.len() {
        lines_end_at_breaks(s, i + 1);
        line_end_advances(s, i + 1);
        assert forall|k: int| i < k < line_end(s, i) implies #[trigger] s[k - 1] != '\n' by {
            if k > i + 1 {
                assert(s[k - 1] != '\n');
            }
        }
    }
}

/// Whether a line begins at `j`.
pub open spec fn begins_line(s: Seq<char>, j: int) -> bool {
    j == 0 || (0 < j && s[j - 1] == '\n')
}

proof fn key_line_is_first(s: Seq<char>, key: Seq<char>, i: int)
    requires
        0 <= i <= s.len(),
        i < s.len() ==> begins_line(s, i),
    ensures
        key_line(s, key, i) matches Some(a) ==> i <= a < s.len() && begins_line(s, a) && key_of(
            line_at(s, a),
        ) == Some(key) && forall|j: int|
            i <= j < a && begins_line(s, j) ==> key_of(#[trigger] line_at(s, j)) != Some(key),
        key_line(s, key, i) is None ==> forall|j: int|
            i <= j < s.len() && begins_line(s, j) ==> key_of(#[trigger] line_at(s, j)) != Some(key),
    decreases s.len() - i,
{
    if i < s.len() {
        line_end_advances(s, i);
        lines_end_at_breaks(s, i);
        if key_of(line_at(s, i)) != Some(key) {
            key_line_is_first(s, key, line_end(s, i));
            let e = line_end(s, i);
            let r = key_line(s, key, i);
            let until = match r {
                Some(a) => a,
                None => s.len() as int,
            };
            assert forall|j: int| i <= j < until && begins_line(s, j) implies key_of(
                #[trigger] line_at(s, j),
            ) != Some(key) by {
                if i < j < e {
                    assert(s[j - 1] != '\n');
                }
            }
        }
    }
}

/// A block begins with the first line that has its key, and there is none where no line has it.
pub proof fn blocks_begin_at_their_key(s: Seq<char>, key: Seq<char>)
    ensures
        block_of(s, key) matches Some((a, _)) ==> 0 <= a < s.len() && begins_line(s, a) && key_of(
            line_at(s, a),
        ) == Some(key) && forall|j: int|
            0 <= j < a && begins_line(s, j) ==> key_of(#[trigger] line_at(s, j)) != Some(key),
        block_of(s, key) is None ==> forall|j: int|
            0 <= j < s.len() && begins_line(s, j) ==> key_of(#[trigger] line_at(s, j)) != Some(key),
{
    key_line_is_first(s, key, 0);
}

/// A line that begins with white space or as a comment has no key.
pub proof fn only_bare_lines_have_keys(line: Seq<char>)
    ensures
        line.len() > 0 && (is_white(line[0]) || line[0] == '#' || line[0] == '-') ==> key_of(line)
            is None,
        line.len() == 0 ==> key_of(line) is None,
        !line.contains(':') ==> key_of(line) is None,
{
    let marks = seq!['#', '-', '%', '.', '[', '{'];
    assert(marks[0] == '#' && marks[1] == '-');
    if !line.contains(':') {
        crate::text::first_at_bounds(line, ':');
        let c = first_at(line, ':');
        if c < line.len() {
            assert(line.contains(line[c]));
        }
    }
}

/// A line's key is what stands before its colon, without quotes.
pub proof fn keys_stand_before_the_colon(key: Seq<char>, rest: Seq<char>)
    requires
        key.len() > 0,
        'a' <= key[0] <= 'z' || 'A' <= key[0] <= 'Z' || key[0] == '_',
        !key.contains(':'),
        !is_white(key.last()),
        rest.len() == 0 || rest[0] == ' ' || rest[0] == '\t',
    ensures
        key_of(key.push(':') + rest) == Some(key),
{
    let line = key.push(':') + rest;
    let n = key.len() as int;
    assert forall|j: int| 0 <= j < n implies line[j] != ':' by {
        assert(key.contains(key[j]));
    }
    first_at_is(line, ':', n);
    assert(line.take(n) =~= key);
    assert(line[0] == key[0]);
    let marks = seq!['#', '-', '%', '.', '[', '{'];
    if marks.contains(line[0]) {
        let i = choose|i: int| 0 <= i < marks.len() && marks[i] == line[0];
        assert(marks[i] == '#' || marks[i] == '-' || marks[i] == '%' || marks[i] == '.' || marks[i]
            == '[' || marks[i] == '{');
    }
    assert(trim_end(key) == key);
    if rest.len() > 0 {
        assert(line[n + 1] == rest[0]);
    }
}

/// A quoted key is the key in the quotes.
pub proof fn quotes_are_taken_off(key: Seq<char>)
    ensures
        unquoted(seq!['"'] + key + seq!['"']) == key,
        unquoted(seq!['\''] + key + seq!['\'']) == key,
        key.len() > 0 && key[0] != '"' && key[0] != '\'' ==> unquoted(key) == key,
{
    let a = seq!['"'] + key + seq!['"'];
    assert(a.subrange(1, a.len() - 1) =~= key);
    let b = seq!['\''] + key + seq!['\''];
    assert(b.subrange(1, b.len() - 1) =~= key);
}

/// A block that is added stands behind the text as it was and one blank line.
pub proof fn added_blocks_follow_a_blank_line(s: Seq<char>)
    ensures
        ({
            let t = blank_line_after(s);
            &&& begins(t, s)
            &&& forall|i: int| s.len() <= i < t.len() ==> #[trigger] t[i] == '\n'
            &&& t.len() <= s.len() + 2
            &&& s.len() == 0 ==> t.len() == 0
            &&& s.len() >= 1 && s.last() != '\n' ==> t == s + seq!['\n', '\n']
            &&& s.len() >= 2 && s.last() == '\n' && s[s.len() - 2] != '\n' ==> t == s + seq!['\n']
            &&& s.len() >= 2 && s.last() == '\n' && s[s.len() - 2] == '\n' ==> t == s
        }),
{
    let t = blank_line_after(s);
    assert(t.subrange(0, s.len() as int) =~= s);
    if s.len() >= 1 && s.last() != '\n' {
        assert(t =~= s + seq!['\n', '\n']);
    }
    if s.len() >= 2 && s.last() == '\n' && s[s.len() - 2] != '\n' {
        assert(t =~= s + seq!['\n']);
    }
}

/// A text that is closed up ends in one newline, and loses nothing but newlines at its end.
pub proof fn closing_up_takes_newlines_alone(s: Seq<char>)
    ensures
        ({
            let t = closed_up(s);
            &&& t.len() == 0 || (t.last() == '\n' && t.len() >= 2 && t[t.len() - 2] != '\n')
            &&& t.len() > 0 ==> begins(s, t.drop_last()) && forall|i: int|
                t.len() - 1 <= i < s.len() ==> #[trigger] s[i] == '\n'
            &&& t.len() == 0 ==> forall|i: int| 0 <= i < s.len() ==> #[trigger] s[i] == '\n'
        }),
{
    crate::agents::laws::only_newlines_are_dropped(s);
    let kept = without_newlines(s);
    let t = closed_up(s);
    if kept.len() > 0 {
        assert(t.drop_last() =~= kept);
        assert(s.subrange(0, kept.len() as int) =~= kept);
    }
}

/// A file that cannot be read or written is named with what went wrong.
pub proof fn edit_errors_name_the_file(e: EditError)
    ensures
        e matches EditError::Read { path, source } ==> begins(e.text(), "config "@ + path@) && ends(
            e.text(),
            source@,
        ),
        e matches EditError::Config { path, source } ==> begins(e.text(), "config "@ + path@)
            && ends(e.text(), source@),
        e matches EditError::Write { path, source } ==> begins(e.text(), "config "@ + path@) && ends(
            e.text(),
            source@,
        ),
{
    match e {
        EditError::Read { path, source } | EditError::Config { path, source }
        | EditError::Write { path, source } => {
            let t = e.text();
            let head = "config "@ + path@;
            assert(t.subrange(0, head.len() as int) =~= head);
            assert(t.subrange(t.len() - source@.len(), t.len() - source@.len() + source@.len())
                =~= source@);
        },
        _ => {},
    }
}

// ---------------------------------------------------------------- documents

/// A field of a document is the first entry of its key.
pub proof fn the_first_entry_is_the_field(entries: Seq<(Node, Node)>, key: Seq<char>, from: int, k: int)
    requires
        0 <= from <= k <= entries.len(),
        forall|i: int| from <= i < k ==> (#[trigger] entries[i]).0 != Node::Text(key),
        k < entries.len() ==> entries[k].0 == Node::Text(key),
    ensures
        k < entries.len() ==> entry_from(entries, key, from) == Some(entries[k].1),
        k == entries.len() ==> entry_from(entries, key, from) is None,
    decreases k - from,
{
    if from < k {
        assert(entries[from].0 != Node::Text(key));
        the_first_entry_is_the_field(entries, key, from + 1, k);
    }
}

/// A tag changes nothing of what a document holds.
pub proof fn tags_change_nothing(tag: Seq<char>, n: Node, key: Seq<char>)
    ensures
        field_in(Node::Tagged(tag, Box::new(n)), key) == field_in(n, key),
        text_in(Node::Tagged(tag, Box::new(n))) == text_in(n),
{
}

/// An error of a file says which; one of an entry says which, under its section.
pub proof fn config_errors_say_where(path: Seq<char>, name: Seq<char>, m: Seq<char>, e: ConfigErrorView)
    ensures
        error_text(ConfigErrorView::File(path, Box::new(e))) == "config "@ + path + ": "@ + error_text(
            e,
        ),
        begins(error_text(ConfigErrorView::Model(name, m)), "models."@ + name),
        begins(error_text(ConfigErrorView::Agent(name, m)), "agents."@ + name),
        begins(error_text(ConfigErrorView::McpServer(name, m)), "mcp_servers."@ + name),
        ends(error_text(ConfigErrorView::Model(name, m)), m),
        ends(error_text(ConfigErrorView::Agent(name, m)), m),
        ends(error_text(ConfigErrorView::McpServer(name, m)), m),
        begins(error_text(ConfigErrorView::Key(name, m)), name),
        ends(error_text(ConfigErrorView::Key(name, m)), m),
        error_text(ConfigErrorView::Parse(m)) == m,
        ends(error_text(ConfigErrorView::SystemFile(m)), m),
        occurs(error_text(ConfigErrorView::UnknownMcpServer(name)), debug_text(name)),
{
    let t1 = error_text(ConfigErrorView::Model(name, m));
    let h1 = "models."@ + name;
    assert(t1.subrange(0, h1.len() as int) =~= h1);
    assert(t1.subrange(t1.len() - m.len(), t1.len() - m.len() + m.len()) =~= m);
    let t2 = error_text(ConfigErrorView::Agent(name, m));
    let h2 = "agents."@ + name;
    assert(t2.subrange(0, h2.len() as int) =~= h2);
    assert(t2.subrange(t2.len() - m.len(), t2.len() - m.len() + m.len()) =~= m);
    let t3 = error_text(ConfigErrorView::McpServer(name, m));
    let h3 = "mcp_servers."@ + name;
    assert(t3.subrange(0, h3.len() as int) =~= h3);
    assert(t3.subrange(t3.len() - m.len(), t3.len() - m.len() + m.len()) =~= m);
    let t4 = error_text(ConfigErrorView::Key(name, m));
    assert(t4.subrange(0, name.len() as int) =~= name);
    assert(t4.subrange(t4.len() - m.len(), t4.len() - m.len() + m.len()) =~= m);
    let t5 = error_text(ConfigErrorView::SystemFile(m));
    assert(t5.subrange(t5.len() - m.len(), t5.len() - m.len() + m.len()) =~= m);
    stands_between(
        "mcp_servers: "@,
        debug_text(name),
        " is not defined under the top-level mcp_servers"@,
    );
}

// ---------------------------------------------------------------- providers

/// A dialect is the first of its kind, and a mode is spoken exactly where that dialect has it.
pub proof fn dialects_are_found_by_kind(c: Catalog, kind: ProviderKind, from: int, k: int)
    requires
        0 <= from <= k <= c.dialects@.len(),
        forall|i: int| from <= i < k ==> (#[trigger] c.dialects@[i]).kind != kind,
        k < c.dialects@.len() ==> c.dialects@[k].kind == kind,
    ensures
        k < c.dialects@.len() ==> c.entry_from(kind, from) == Some(c.dialects@[k]),
        k == c.dialects@.len() ==> c.entry_from(kind, from) is None,
        from == 0 && k < c.dialects@.len() ==> c.key_variable(kind_name(kind))
            == c.dialects@[k].env_key@,
        from == 0 && k < c.dialects@.len() ==> forall|m: crate::provider::DeferMode|
            c.speaks(m, kind) <==> #[trigger] c.dialects@[k].defer_modes@.contains(m),
    decreases k - from,
{
    if from < k {
        assert(c.dialects@[from].kind != kind);
        dialects_are_found_by_kind(c, kind, from + 1, k);
    }
    let name = kind_name(kind);
    let found = choose|x: ProviderKind| kind_name(x) == name;
    crate::provider::kind_names_differ(found, kind);
}

/// Every kind of provider has its own name.
pub proof fn kinds_have_their_names(k: ProviderKind)
    ensures
        kind_name(k) == "openai"@ <==> k == ProviderKind::OpenAi,
        kind_name(k) == "anthropic"@ <==> k == ProviderKind::Anthropic,
        kind_name(k) == "gemini"@ <==> k == ProviderKind::Gemini,
        kind_name(k) == "vertexai"@ <==> k == ProviderKind::VertexAi,
        kind_name(k) == "openresponses"@ <==> k == ProviderKind::OpenResponses,
        kind_name(k) == "imagen"@ <==> k == ProviderKind::Imagen,
        kind_name(k) == "images"@ <==> k == ProviderKind::Images,
{
    if kind_name(k) == kind_name(ProviderKind::OpenAi) {
        crate::provider::kind_names_differ(k, ProviderKind::OpenAi);
    }
    if kind_name(k) == kind_name(ProviderKind::Anthropic) {
        crate::provider::kind_names_differ(k, ProviderKind::Anthropic);
    }
    if kind_name(k) == kind_name(ProviderKind::Gemini) {
        crate::provider::kind_names_differ(k, ProviderKind::Gemini);
    }
    if kind_name(k) == kind_name(ProviderKind::VertexAi) {
        crate::provider::kind_names_differ(k, ProviderKind::VertexAi);
    }
    if kind_name(k) == kind_name(ProviderKind::OpenResponses) {
        crate::provider::kind_names_differ(k, ProviderKind::OpenResponses);
    }
    if kind_name(k) == kind_name(ProviderKind::Imagen) {
        crate::provider::kind_names_differ(k, ProviderKind::Imagen);
    }
    if kind_name(k) == kind_name(ProviderKind::Images) {
        crate::provider::kind_names_differ(k, ProviderKind::Images);
    }
}

} // verus!
