//! What is shown and what is tuned: the lists of agents, models, providers and sessions, the verdict on a config, the
//! size of a window, and which settings land on a provider.

use vstd::arithmetic::power2::*;
use vstd::prelude::*;
use vstd::string::*;

use crate::app::env::{var_of, EnvView};
use crate::cmd::config_cmd::{
    check_text, check_warning, first_config, lines, marked_paths, nothing_found, paths,
    starter_path,
};
use crate::cmd::list::{
    agent_line, agent_lines, choice_row, choice_rows, choice_text, choices_of, key_text,
    model_lines, pair_text, provider_rows, provider_text, session_lines, start_of, start_text,
    PICKER,
};
use crate::cmd::table::padded;
use crate::cmd::tuning::{
    bad_effort, bad_top_p, effort_of, effort_warning, image_warning, lands, later_warnings,
    top_p_of, tuning_warnings, Capabilities, Tuning,
};
use crate::cmd::window::{counted, is_size, parts_in, tokens_in, WindowValue};
use crate::color::{mode_in, ColorMode};
use crate::config::agent::AgentView;
use crate::config::model::{ModelView, RefView};
use crate::config::provider::KeyView;
use crate::config::{endpoint_entry, endpoint_kind, ConfigView, ResolvedView};
use crate::double::Double;
use crate::map::pairs_of;
use crate::provider::{effort_named, opt_view, Catalog, ProviderKind};
use crate::text::{decimal_of, occurs, occurs_at};

verus! {

// ---------------------------------------------------------------- lines and columns

/// A text stands in any text that has it between two others.
pub proof fn stands_between(a: Seq<char>, p: Seq<char>, b: Seq<char>)
    ensures
        occurs(a + p + b, p),
{
    let s = a + p + b;
    assert(s.subrange(a.len() as int, (a.len() + p.len()) as int) =~= p);
    assert(occurs_at(s, p, a.len() as int));
}

/// A padded text begins with itself, goes on with spaces alone, and is as wide as asked for, or as wide as it is.
pub proof fn padding_is_spaces(s: Seq<char>, width: int)
    ensures
        padded(s, width).take(s.len() as int) == s,
        padded(s, width).len() == if width > s.len() { width } else { s.len() as int },
        forall|i: int| s.len() <= i < padded(s, width).len() ==> #[trigger] padded(s, width)[i] == ' ',
{
    assert(padded(s, width).take(s.len() as int) =~= s);
}

/// Texts print one line each, in order.
pub proof fn every_text_is_a_line(a: Seq<Seq<char>>, x: Seq<char>)
    ensures
        lines(Seq::empty()).len() == 0,
        lines(a.push(x)) == lines(a) + x + "\n"@,
{
    assert(a.push(x).drop_last() =~= a);
}

// ---------------------------------------------------------------- agents and models

/// An agent starts with its first model, unless that is a whole provider, which is for the picker to choose from;
/// its choices are its own models in order, or every declared model where it has none.
pub proof fn agents_offer_their_models(cfg: ConfigView, a: AgentView)
    ensures
        a.models.len() > 0 && !(a.models[0] is All) ==> start_of(a) == Some(a.models[0]),
        a.models.len() == 0 || a.models[0] is All ==> start_of(a) is None && start_text(a)
            == PICKER@,
        a.models.len() > 0 ==> choices_of(cfg, a) == a.models,
        a.models.len() == 0 ==> choices_of(cfg, a).len() == pairs_of(cfg.models).len()
            && forall|i: int|
            0 <= i < pairs_of(cfg.models).len() ==> #[trigger] choices_of(cfg, a)[i]
                == RefView::Entry(pairs_of(cfg.models)[i].0),
        start_of(a) matches Some(RefView::Entry(name)) ==> start_text(a) == name,
        start_of(a) matches Some(RefView::Inline(p, id)) ==> start_text(a) == p + ":"@ + id,
{
}

/// An agent's line begins with its name, shows the model it starts with and how many choices it has, and ends with
/// its description; every agent has its line, in name order.
pub proof fn every_agent_has_its_line(cfg: ConfigView, width: int, start_width: int, i: int)
    requires
        0 <= i < pairs_of(cfg.agents).len(),
    ensures
        ({
            let (name, a) = pairs_of(cfg.agents)[i];
            let line = agent_line(cfg, name, a, width, start_width);
            let lead = "  "@ + name;
            &&& line.len() >= lead.len() && line.take(lead.len() as int) == lead
            &&& occurs(line, start_text(a))
            &&& occurs(line, decimal_of(choices_of(cfg, a).len()) + " choice"@)
                || choices_of(cfg, a).len() == 1 && occurs(line, "1 choice"@)
            &&& occurs(line, a.description)
            &&& agent_lines(cfg, width, start_width, i + 1) == agent_lines(
                cfg,
                width,
                start_width,
                i,
            ) + line + "\n"@
            &&& agent_lines(cfg, width, start_width, 0) == "Agents:\n"@
        }),
{
    reveal_strlit(" choices");
    reveal_strlit(" choice");
    let (name, a) = pairs_of(cfg.agents)[i];
    let line = agent_line(cfg, name, a, width, start_width);
    let lead = "  "@ + name;
    let n = choices_of(cfg, a).len();
    let head = "  "@ + padded(name, width) + "  "@;
    let start = start_text(a);
    let count = crate::cmd::list::choices_text(n);
    let before = head + padded(start, start_width) + "  "@;
    let base = before + count;
    let tail = if a.description.len() == 0 { Seq::<char>::empty() } else { "  "@ + a.description };
    assert(line =~= base + tail);
    assert(line.take(lead.len() as int) =~= lead);
    let rest = line.skip((head.len() + start.len()) as int);
    assert(line =~= head + start + rest);
    stands_between(head, start, rest);
    if n == 1 {
        assert(line =~= before + "1 choice"@ + tail);
        stands_between(before, "1 choice"@, tail);
    } else {
        let said = decimal_of(n) + " choice"@;
        assert(" choices"@.len() == 8 && " choice"@.len() == 7);
        assert(count =~= said + seq!['s']) by {
            assert(" choices"@ =~= " choice"@ + seq!['s']);
        }
        assert(line =~= before + said + (seq!['s'] + tail));
        stands_between(before, said, seq!['s'] + tail);
    }
    if a.description.len() == 0 {
        assert(line =~= Seq::<char>::empty() + a.description + line);
        stands_between(Seq::empty(), a.description, line);
    } else {
        assert(line =~= (base + "  "@) + a.description + Seq::<char>::empty());
        stands_between(base + "  "@, a.description, Seq::empty());
    }
}

/// A model is shown by its name and the pair it stands for; every model has its line, in name order.
pub proof fn every_model_has_its_line(pairs: Seq<(Seq<char>, ModelView)>, width: int, i: int)
    requires
        0 <= i < pairs.len(),
    ensures
        model_lines(pairs, width, 0) == "Models:\n"@,
        model_lines(pairs, width, i + 1) == model_lines(pairs, width, i) + ("  "@ + padded(
            pairs[i].0,
            width,
        ) + "  "@ + pair_text(pairs[i].0, pairs[i].1) + "\n"@),
        pairs[i].1.provider.len() > 0 ==> pair_text(pairs[i].0, pairs[i].1) == pairs[i].1.provider
            + ":"@ + pairs[i].1.id,
        pairs[i].1.provider.len() == 0 ==> pair_text(pairs[i].0, pairs[i].1) == pairs[i].0 + ":"@
            + pairs[i].1.id,
{
    assert(model_lines(pairs, width, i + 1) =~= model_lines(pairs, width, i) + ("  "@ + padded(
        pairs[i].0,
        width,
    ) + "  "@ + pair_text(pairs[i].0, pairs[i].1) + "\n"@));
}

/// A choice is marked exactly where it is the model that the agent starts with; every choice has its row, in order.
pub proof fn the_start_is_marked(
    head: Seq<char>,
    cfg: ConfigView,
    choices: Seq<RefView>,
    v: ResolvedView,
    i: int,
)
    requires
        0 <= i < choices.len(),
    ensures
        ({
            let row = choice_row(cfg, choices[i], v);
            let starts = start_of(v.agent) is Some && match choices[i] {
                RefView::Entry(e) => cfg.models.contains_key(e) && cfg.models[e].id == v.model.id && (
                if cfg.models[e].provider.len() > 0 {
                    cfg.models[e].provider
                } else {
                    e
                }) == v.provider_name,
                RefView::Inline(p, id) => p == v.provider_name && id == v.model.id,
                RefView::All(_) => false,
            };
            &&& starts ==> row == "* "@ + choice_text(cfg, choices[i]) + "\n"@
            &&& !starts ==> row == "  "@ + choice_text(cfg, choices[i]) + "\n"@
            &&& choice_rows(head, cfg, choices, v, i + 1) == choice_rows(head, cfg, choices, v, i)
                + row
            &&& choice_rows(head, cfg, choices, v, 0) == head
        }),
        choices[i] matches RefView::Inline(p, id) ==> choice_text(cfg, choices[i]) == p + ":"@ + id,
        choices[i] matches RefView::Entry(e) ==> (cfg.models.contains_key(e) ==> choice_text(
            cfg,
            choices[i],
        ) == e + " ("@ + pair_text(e, cfg.models[e]) + ")"@),
{
}

/// A provider is shown by its name, with its type where that differs from the name and its url where it has one.
pub proof fn providers_show_their_type_and_url(name: Seq<char>, kind: Seq<char>, url: Seq<char>)
    ensures
        provider_text(name, kind, url).take(name.len() as int) == name,
        kind == name && url.len() == 0 ==> provider_text(name, kind, url) == name,
        kind != name ==> occurs(provider_text(name, kind, url), "type: "@ + kind),
        url.len() > 0 ==> occurs(provider_text(name, kind, url), "url: "@ + url),
{
    reveal_strlit(" (type: ");
    reveal_strlit(" (url: ");
    reveal_strlit(", url: ");
    reveal_strlit("type: ");
    reveal_strlit("url: ");
    let shown = provider_text(name, kind, url);
    let two = seq![' ', '('];
    assert(" (type: "@ =~= two + "type: "@);
    assert(" (url: "@ =~= two + "url: "@);
    assert(", url: "@ =~= seq![',', ' '] + "url: "@);
    assert(shown.take(name.len() as int) =~= name);
    if kind != name {
        let said = "type: "@ + kind;
        let rest = shown.skip((name.len() + 2 + said.len()) as int);
        assert(shown =~= (name + two) + said + rest);
        stands_between(name + two, said, rest);
    }
    if url.len() > 0 {
        let said = "url: "@ + url;
        let open = if kind != name {
            name + " (type: "@ + kind + seq![',', ' ']
        } else {
            name + two
        };
        assert(shown =~= open + said + ")"@);
        stands_between(open, said, ")"@);
    }
}

/// A key is shown by where it comes from, and never by its value: the variable, the config, or the variable to set.
pub proof fn keys_are_shown_by_their_source(var: Seq<char>, a: Seq<char>, b: Seq<char>)
    ensures
        key_text(KeyView::Env(var, a)) == key_text(KeyView::Env(var, b)),
        key_text(KeyView::Env(var, a)) == "key: "@ + var,
        key_text(KeyView::Config(a)) == key_text(KeyView::Config(b)),
        key_text(KeyView::Config(a)) == "key: config"@,
        key_text(KeyView::Missing(var)) == "no key: set "@ + var,
{
}

/// Every declared provider has its row, in name order: what it is, and where the key of its type comes from.
pub proof fn every_provider_has_its_row(cfg: ConfigView, catalog: Catalog, env: EnvView, i: int)
    requires
        0 <= i < pairs_of(cfg.providers).len(),
    ensures
        ({
            let name = pairs_of(cfg.providers)[i].0;
            let kind = endpoint_kind(cfg, name);
            let entry = endpoint_entry(cfg, name);
            let var = catalog.key_variable(kind);
            let key = match var_of(env, var) {
                Some(_) => "key: "@ + var,
                None => if entry.key.len() > 0 { "key: config"@ } else { "no key: set "@ + var },
            };
            let row = "  "@ + provider_text(name, kind, entry.url) + "  ["@ + key + "]\n"@;
            &&& provider_rows(cfg, catalog, env, i + 1) == provider_rows(cfg, catalog, env, i) + row
            &&& provider_rows(cfg, catalog, env, 0) == "Providers:\n"@
        }),
{
}

/// Every session has its line, in order, with its name and what is said of it.
pub proof fn every_session_has_its_line(sessions: Seq<(String, String)>, width: int, i: int)
    requires
        0 <= i < sessions.len(),
    ensures
        session_lines(sessions, width, 0) == "Sessions:\n"@,
        session_lines(sessions, width, i + 1) == session_lines(sessions, width, i) + ("  "@ + padded(
            sessions[i].0@,
            width,
        ) + "  "@ + sessions[i].1@ + "\n"@),
{
    assert(session_lines(sessions, width, i + 1) =~= session_lines(sessions, width, i) + ("  "@
        + padded(sessions[i].0@, width) + "  "@ + sessions[i].1@ + "\n"@));
}

// ---------------------------------------------------------------- the verdict on a config

/// A check lists the files in order and counts what they declare; without a file it says that there is none. It
/// warns exactly where a bare run would have no agent.
pub proof fn checks_count_what_is_declared(files: Seq<(String, bool)>, cfg: ConfigView)
    ensures
        files.len() == 0 ==> check_text(files, cfg) == nothing_found() && check_warning(
            files,
            cfg,
        ).len() == 0,
        files.len() > 0 ==> ({
            let head = lines(paths(files));
            &&& check_text(files, cfg).take(head.len() as int) == head
            &&& occurs(check_text(files, cfg), decimal_of(pairs_of(cfg.providers).len())
                + " provider(s)"@)
            &&& occurs(check_text(files, cfg), decimal_of(pairs_of(cfg.models).len())
                + " model(s)"@)
            &&& occurs(check_text(files, cfg), decimal_of(pairs_of(cfg.agents).len())
                + " agent(s)"@)
            &&& occurs(check_text(files, cfg), decimal_of(pairs_of(cfg.mcp_servers).len())
                + " mcp server(s)"@)
        }),
        files.len() > 0 && cfg.agents.contains_key("default"@) ==> check_warning(files, cfg).len()
            == 0,
        files.len() > 0 && !cfg.agents.contains_key("default"@) ==> check_warning(files, cfg).len()
            > 0,
        paths(files).len() == files.len(),
        forall|i: int| 0 <= i < files.len() ==> #[trigger] paths(files)[i] == files[i].0@,
        forall|i: int|
            0 <= i < files.len() ==> (#[trigger] marked_paths(files)[i]).take(
                files[i].0@.len() as int,
            ) == files[i].0@ && (files[i].1 ==> marked_paths(files)[i] == files[i].0@) && (
            !files[i].1 ==> marked_paths(files)[i] == files[i].0@ + "  (missing)"@),
{
    reveal_strlit("Warning: no `agents.");
    reveal_strlit(" provider(s), ");
    reveal_strlit(" provider(s)");
    reveal_strlit(" model(s), ");
    reveal_strlit(" model(s)");
    reveal_strlit(" agent(s), ");
    reveal_strlit(" agent(s)");
    assert forall|i: int| 0 <= i < files.len() implies (#[trigger] marked_paths(files)[i]).take(
        files[i].0@.len() as int,
    ) == files[i].0@ && (files[i].1 ==> marked_paths(files)[i] == files[i].0@) && (!files[i].1
        ==> marked_paths(files)[i] == files[i].0@ + "  (missing)"@) by {
        assert(marked_paths(files)[i].take(files[i].0@.len() as int) =~= files[i].0@);
        if files[i].1 {
            assert(marked_paths(files)[i] =~= files[i].0@);
        }
    }
    if files.len() > 0 {
        let head = lines(paths(files));
        let text = check_text(files, cfg);
        assert(text.take(head.len() as int) =~= head);
        let p = decimal_of(pairs_of(cfg.providers).len());
        let m = decimal_of(pairs_of(cfg.models).len());
        let a = decimal_of(pairs_of(cfg.agents).len());
        let s = decimal_of(pairs_of(cfg.mcp_servers).len());
        let sep = seq![',', ' '];
        assert(" provider(s), "@ =~= " provider(s)"@ + sep);
        assert(" model(s), "@ =~= " model(s)"@ + sep);
        assert(" agent(s), "@ =~= " agent(s)"@ + sep);
        let x1 = head + "OK: "@;
        let y1 = sep + m + " model(s), "@ + a + " agent(s), "@ + s + " mcp server(s)"@ + "\n"@;
        assert(text =~= x1 + (p + " provider(s)"@) + y1);
        stands_between(x1, p + " provider(s)"@, y1);
        let x2 = x1 + p + " provider(s), "@;
        let y2 = sep + a + " agent(s), "@ + s + " mcp server(s)"@ + "\n"@;
        assert(text =~= x2 + (m + " model(s)"@) + y2);
        stands_between(x2, m + " model(s)"@, y2);
        let x3 = x2 + m + " model(s), "@;
        let y3 = sep + s + " mcp server(s)"@ + "\n"@;
        assert(text =~= x3 + (a + " agent(s)"@) + y3);
        stands_between(x3, a + " agent(s)"@, y3);
        let x4 = x3 + a + " agent(s), "@;
        assert(text =~= x4 + (s + " mcp server(s)"@) + "\n"@);
        stands_between(x4, s + " mcp server(s)"@, "\n"@);
    }
}

/// A starter config goes to the file that was named, or into the home directory; a first run writes one only where
/// no file was named and none was found.
pub proof fn starters_go_home(explicit: Option<String>, home: Option<String>, found: nat)
    ensures
        explicit matches Some(p) ==> starter_path(explicit, home) == Some(p@),
        explicit is None && home is None ==> starter_path(explicit, home) is None,
        explicit is None && home is Some ==> starter_path(explicit, home) is Some,
        first_config(explicit, found, home) is Some == (explicit is None && found == 0 && home
            is Some),
{
}

// ---------------------------------------------------------------- windows

/// A size ends in its unit: k, m and b are thousands, millions and billions of what stands before them, and any
/// other size is its own number.
pub proof fn units_scale_by_thousands(t: Seq<char>)
    ensures
        parts_in(t.push('k')) == Some((1_000u64, t)),
        parts_in(t.push('m')) == Some((1_000_000u64, t)),
        parts_in(t.push('b')) == Some((1_000_000_000u64, t)),
        t.len() > 0 && t.last() != 'k' && t.last() != 'm' && t.last() != 'b' ==> parts_in(t) == Some(
            (1u64, t),
        ),
        t.len() == 0 ==> parts_in(t) is None,
{
    assert(t.push('k').drop_last() =~= t);
    assert(t.push('m').drop_last() =~= t);
    assert(t.push('b').drop_last() =~= t);
}

/// A size is at least one token, and counts as many tokens as it has wholes: no more than its value, and less than
/// one below it.
pub proof fn sizes_count_whole_tokens(d: Double)
    requires
        is_size(d),
    ensures
        tokens_in(d) >= 1,
        tokens_in(d) * pow2(1074) <= d.magnitude(),
        d.magnitude() < (tokens_in(d) + 1) * pow2(1074),
{
    lemma_pow2_pos(1074);
    let m = d.magnitude() as int;
    let p = pow2(1074) as int;
    vstd::arithmetic::div_mod::lemma_fundamental_div_mod(m, p);
    vstd::arithmetic::div_mod::lemma_mod_bound(m, p);
    assert(m / p >= 1) by (nonlinear_arith)
        requires
            m >= p,
            p > 0,
            m == p * (m / p) + m % p,
            0 <= m % p < p,
    ;
    assert((m / p) * p <= m && m < (m / p + 1) * p) by (nonlinear_arith)
        requires
            m == p * (m / p) + m % p,
            0 <= m % p < p,
    ;
}

/// Only a number above zero counts.
pub proof fn only_positive_numbers_count(read: Option<WindowValue>)
    ensures
        counted(read) is Some == (read is Some && read->0.value.positive()),
        counted(read) matches Some(d) ==> d == read->0.scaled,
{
}

// ---------------------------------------------------------------- tuning

/// The agent's effort and `top_p` come before the model's.
pub proof fn agents_tune_before_models(r: ResolvedView)
    ensures
        r.agent.effort.len() > 0 ==> effort_of(r) == r.agent.effort,
        r.agent.effort.len() == 0 ==> effort_of(r) == r.model.effort,
        r.agent.top_p is Some ==> top_p_of(r) == r.agent.top_p,
        r.agent.top_p is None ==> top_p_of(r) == r.model.top_p,
        bad_effort(r) ==> effort_named(effort_of(r)) is None,
        bad_top_p(r) ==> (top_p_of(r) matches Some(p) && !p.from_zero_to_pow2(0)),
{
}

/// A setting lands on a provider that can take it, with the value that was set, and on no other.
pub proof fn settings_land_where_they_apply(t: Tuning, c: Capabilities, r: ResolvedView)
    requires
        lands(t, c, r),
    ensures
        !c.image ==> !t.image_output,
        c.image ==> t.image_output == r.model.image,
        !c.tunable ==> t.effort is None,
        c.tunable && effort_of(r).len() > 0 ==> t.effort == effort_named(effort_of(r)),
        effort_of(r).len() == 0 ==> t.effort is None,
        !c.top_p ==> t.top_p is None,
        c.top_p ==> t.top_p == top_p_of(r),
        !c.json_edits ==> !t.json_edits,
        c.json_edits ==> t.json_edits == r.model.json_edits,
        !c.image_gen ==> t.image_gen is None,
        c.image_gen && r.model.aspect_ratio.len() > 0 ==> (t.image_gen matches Some(p) && opt_view(
            p.aspect_ratio,
        ) == Some(r.model.aspect_ratio)),
        c.image_gen && r.model.image_size.len() > 0 ==> (t.image_gen matches Some(p) && opt_view(
            p.image_size,
        ) == Some(r.model.image_size)),
        c.image_gen && r.model.negative_prompt.len() > 0 ==> (t.image_gen matches Some(p)
            && opt_view(p.negative_prompt) == Some(r.model.negative_prompt)),
{
}

/// A provider that can take everything is warned of nothing; each setting that does not apply is one warning.
pub proof fn idle_settings_are_warned_of(
    c: Capabilities,
    k: ProviderKind,
    r: ResolvedView,
    temperature: bool,
)
    ensures
        c.image && c.tunable && c.top_p && c.json_edits && c.image_gen ==> tuning_warnings(
            c,
            k,
            r,
            temperature,
        ).len() == 0,
        effort_warning(c, k, r).len() == if effort_of(r).len() > 0 && !c.tunable { 1int } else { 0 },
        image_warning(c, k, r).len() == if r.model.image && !c.image && c.image_gen { 1int } else {
            0
        },
        later_warnings(c, k, r, temperature).len() == (if top_p_of(r) is Some && !c.top_p {
            1int
        } else {
            0
        }) + (if temperature && !c.tunable { 1int } else { 0 }) + (if r.model.json_edits
            && !c.json_edits { 1int } else { 0 }) + (if (r.model.aspect_ratio.len() > 0
            || r.model.image_size.len() > 0 || r.model.negative_prompt.len() > 0) && !c.image_gen {
            1int
        } else {
            0
        }),
{
}

// ---------------------------------------------------------------- color

/// Color is on exactly on a terminal that is not dumb, unless the environment asks for none.
pub proof fn color_needs_a_terminal(env: EnvView, terminal: bool)
    ensures
        !terminal ==> mode_in(env, terminal) == ColorMode::Off,
        env.vars.contains_key("NO_COLOR"@) && env.vars["NO_COLOR"@].len() > 0 ==> mode_in(
            env,
            terminal,
        ) == ColorMode::Off,
        env.vars.contains_key("TERM"@) && env.vars["TERM"@] == "dumb"@ ==> mode_in(env, terminal)
            == ColorMode::Off,
        terminal && !env.vars.contains_key("NO_COLOR"@) && !env.vars.contains_key("TERM"@)
            ==> mode_in(env, terminal) == ColorMode::On,
{
    reveal_strlit("dumb");
}

} // verus!
