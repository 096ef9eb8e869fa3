//! What is printed of one thing in detail, what is printed where there is nothing, and which of the configured
//! things a run takes.

use vstd::prelude::*;
use vstd::string::*;

use crate::app::env::EnvView;
use crate::chat::once::{is_report, left_by, OnceOutcome};
use crate::chat::report::{no_tokens, spent_of, DelegationLedger, RecordView, RunReport};
use crate::chat::run::RunOutcome;
use crate::cmd::args::{ListCmd, ListWhat};
use crate::cmd::assemble::{group_warning, group_warnings};
use crate::cmd::config_cmd::wrote_text;
use crate::cmd::delegate::{
    agent_case, fault_text, is_delegation, plans_case, AgentRefView, ChildTools, DelegateError,
    DelegateFault, Delegation,
};
use crate::cmd::error::{ArgsError, CliError, SetupError};
use crate::cmd::list::{
    agent_models_text, agents_text, choice_rows, choice_text, choices_of, models_text, names_start,
    providers_text, start_of, what_of, what_word,
};
use crate::cmd::mcp_cmd::{is_fault, AddFault};
use crate::cmd::mcp_view::{
    arg_lines, auth_line, concatenated, field_line, get_parts, is_unknown, list_text, map_lines,
    names_of, pair_lines, probe_node, row_node, rows_node, values_of, DeclaredView, Login,
    ProbeStatus,
};
use crate::cmd::resolve::{is_case, RunCase, RunSettings, SettingsView};
use crate::cmd::run::{bad_selection, idle_tools, selected_servers};
use crate::cmd::tuning::Capabilities;
use crate::cmd::show_laws::stands_between;
use crate::config::flat::{
    expanded_entry, flat_loaded, flat_merged, flat_warning, flat_warnings, with_entries,
    FlatConfigView, FlatRead, FlatView,
};
use crate::config::server::{listed, AuthMode, ServerView};
use crate::config::{with_servers, ConfigView, ResolvedView};
use crate::headless::error::ChatError;
use crate::host::laws::objects_have_their_members;
use crate::json::{member, JsonNode};
use crate::map::{map_of, pairs_of};
use crate::provider::{kind_name, opt_view, Catalog, ProviderKind};
use crate::text::{begins, debug_text, ends, occurs, occurs_at, strs};

verus! {

// ---------------------------------------------------------------- one server in detail

/// A field has a line of its own exactly where it has a value.
pub proof fn fields_have_a_line(label: Seq<char>, value: Seq<char>)
    ensures
        value.len() == 0 ==> field_line(label, value).len() == 0,
        value.len() > 0 ==> field_line(label, value) == "  "@ + label + ": "@ + value + "\n"@,
{
}

/// Every argument has a line of its own, in order.
pub proof fn every_argument_has_its_line(args: Seq<Seq<char>>, n: int)
    requires
        0 < n <= args.len(),
    ensures
        arg_lines(args, n) == arg_lines(args, n - 1) + ("    - "@ + args[n - 1] + "\n"@),
        begins(arg_lines(args, 0), "  args:\n"@),
{
    assert(arg_lines(args, n) =~= arg_lines(args, n - 1) + ("    - "@ + args[n - 1] + "\n"@));
    assert(arg_lines(args, 0).subrange(0, "  args:\n"@.len() as int) =~= "  args:\n"@);
}

/// Every pair has a line of its own with its name and its value, in order, and no pairs have none.
pub proof fn every_pair_has_its_line(
    label: Seq<char>,
    pairs: Seq<(Seq<char>, Seq<char>)>,
    n: int,
    m: Map<Seq<char>, Seq<char>>,
)
    requires
        0 < n <= pairs.len(),
    ensures
        pair_lines(label, pairs, n) == pair_lines(label, pairs, n - 1) + ("    "@ + pairs[n - 1].0
            + ": "@ + pairs[n - 1].1 + "\n"@),
        pair_lines(label, pairs, 0) == "  "@ + label + ":\n"@,
        pairs_of(m).len() == 0 ==> map_lines(label, m).len() == 0,
        pairs_of(m).len() > 0 ==> map_lines(label, m) == pair_lines(
            label,
            pairs_of(m),
            pairs_of(m).len() as int,
        ),
{
    assert(pair_lines(label, pairs, n) =~= pair_lines(label, pairs, n - 1) + ("    "@ + pairs[n
        - 1].0 + ": "@ + pairs[n - 1].1 + "\n"@));
}

/// A server that is signed in to shows its state and where its tokens are kept; another shows how it is reached.
pub proof fn sign_in_is_shown(s: ServerView, login: Login)
    ensures
        s.auth == AuthMode::Oauth && login.path is None ==> auth_line(s, login)
            == "  auth: oauth ("@ + login.state@ + ")\n"@,
        s.auth == AuthMode::Oauth ==> (login.path matches Some(p) ==> auth_line(s, login)
            == "  auth: oauth ("@ + login.state@ + "; "@ + p@ + ")\n"@),
        s.auth == AuthMode::Unset && pairs_of(s.headers).len() > 0 ==> auth_line(s, login)
            == "  auth: "@ + "header"@ + "\n"@,
        s.auth == AuthMode::Unset && pairs_of(s.headers).len() == 0 ==> auth_line(s, login)
            == "  auth: "@ + "none"@ + "\n"@,
{
    match login.path {
        Some(p) => {
            assert("  auth: oauth ("@ + login.state@ + ("; "@ + p@) + ")\n"@
                =~= "  auth: oauth ("@ + login.state@ + "; "@ + p@ + ")\n"@);
        },
        None => {
            assert("  auth: oauth ("@ + login.state@ + Seq::<char>::empty() + ")\n"@
                =~= "  auth: oauth ("@ + login.state@ + ")\n"@);
        },
    }
}

/// Every part stands in the whole, behind those before it.
pub proof fn every_part_is_printed(parts: Seq<Seq<char>>, i: int)
    requires
        0 <= i < parts.len(),
    ensures
        occurs_at(concatenated(parts), parts[i], concatenated(parts.take(i)).len() as int),
    decreases parts.len(),
{
    let whole = concatenated(parts);
    let before = concatenated(parts.drop_last());
    if i == parts.len() - 1 {
        assert(parts.take(i) =~= parts.drop_last());
        let k = before.len() as int;
        assert(whole.subrange(k, k + parts[i].len()) =~= parts[i]);
    } else {
        every_part_is_printed(parts.drop_last(), i);
        assert(parts.drop_last().take(i) =~= parts.take(i));
        let k = concatenated(parts.take(i)).len() as int;
        assert(whole.subrange(k, k + parts[i].len()) =~= before.subrange(k, k + parts[i].len()));
    }
}

/// A server in detail shows its name, the file that declares it, how it is reached, and what it is declared with.
pub proof fn details_show_what_is_declared(d: DeclaredView, login: Login)
    ensures
        ({
            let t = concatenated(get_parts(d, login));
            &&& begins(t, d.name + ":\n"@)
            &&& occurs(t, "  file: "@ + d.file + "\n"@)
            &&& d.entry.url.len() == 0 ==> occurs(t, "  transport: "@ + "stdio"@ + "\n"@)
            &&& d.entry.url.len() > 0 ==> occurs(t, "  transport: "@ + "http"@ + "\n"@)
            &&& occurs(t, field_line("command"@, d.entry.command))
            &&& d.entry.args.len() > 0 ==> occurs(
                t,
                arg_lines(d.entry.args, d.entry.args.len() as int),
            )
            &&& occurs(t, field_line("url"@, d.entry.url))
            &&& occurs(t, map_lines("env"@, d.entry.env))
            &&& occurs(t, map_lines("headers"@, d.entry.headers))
            &&& d.entry.defer matches Some(s) ==> occurs(t, "  defer: "@ + s + "\n"@)
            &&& occurs(t, field_line("client_id"@, d.entry.client_id))
            &&& occurs(t, field_line("client_secret"@, d.entry.client_secret))
            &&& occurs(t, auth_line(d.entry, login))
        }),
{
    let p = get_parts(d, login);
    assert forall|i: int| 0 <= i < p.len() implies occurs(concatenated(p), #[trigger] p[i]) by {
        every_part_is_printed(p, i);
    }
    every_part_is_printed(p, 0);
    assert(p.take(0) =~= Seq::<Seq<char>>::empty());
    assert(p.len() == 12);
    assert(p[0] == d.name + ":\n"@);
    assert(p[1] == "  file: "@ + d.file + "\n"@);
    assert(occurs(concatenated(p), p[2]));
    assert(occurs(concatenated(p), p[3]));
    assert(occurs(concatenated(p), p[4]));
    assert(occurs(concatenated(p), p[5]));
    assert(occurs(concatenated(p), p[6]));
    assert(occurs(concatenated(p), p[7]));
    assert(occurs(concatenated(p), p[8]));
    assert(occurs(concatenated(p), p[9]));
    assert(occurs(concatenated(p), p[10]));
    assert(occurs(concatenated(p), p[11]));
}

/// A probe says whether the server answered, which tools it offers, and what went wrong.
pub proof fn probes_are_told(p: ProbeStatus)
    ensures
        p.connected ==> member(probe_node(p), "state"@) == Some(JsonNode::Text("connected"@)),
        !p.connected ==> member(probe_node(p), "state"@) == Some(JsonNode::Text("failed"@)),
        member(probe_node(p), "tools"@) == Some(
            JsonNode::List(Seq::new(p.tools@.len(), |i: int| JsonNode::Text(p.tools@[i]@))),
        ),
        p.error matches Some(e) ==> member(probe_node(p), "error"@) == Some(JsonNode::Text(e@)),
        p.error is None ==> member(probe_node(p), "error"@) == Some(JsonNode::Null),
{
    reveal_strlit("state");
    reveal_strlit("tools");
    reveal_strlit("error");
    assert("state"@[0] == 's' && "tools"@[0] == 't' && "error"@[0] == 'e');
    let s = seq![
        (
            "state"@,
            JsonNode::Text(
                if p.connected {
                    "connected"@
                } else {
                    "failed"@
                },
            ),
        ),
        ("tools"@, crate::cmd::mcp_view::text_list(strs(p.tools@))),
        ("error"@, crate::cmd::mcp_view::text_or_null(opt_view(p.error))),
    ];
    assert(probe_node(p) == crate::json::object_node(s));
    objects_have_their_members(s, 0);
    objects_have_their_members(s, 1);
    objects_have_their_members(s, 2);
    assert(crate::cmd::mcp_view::text_list(strs(p.tools@)) == JsonNode::List(
        Seq::new(p.tools@.len(), |i: int| JsonNode::Text(p.tools@[i]@)),
    )) by {
        let a = Seq::new(strs(p.tools@).len(), |i: int| JsonNode::Text(strs(p.tools@)[i]));
        let b = Seq::new(p.tools@.len(), |i: int| JsonNode::Text(p.tools@[i]@));
        assert(a =~= b);
    }
}

/// Every declared server has its row, in order, with its probe where it was probed.
pub proof fn every_server_has_its_row(
    declared: Seq<DeclaredView>,
    states: Seq<Seq<char>>,
    probes: Vec<ProbeStatus>,
    i: int,
)
    requires
        0 <= i < declared.len(),
        i < probes@.len(),
    ensures
        rows_node(declared, states, Some(probes)) matches JsonNode::List(v) && v.len()
            == declared.len() && member(v[i], "probe"@) == Some(probe_node(probes@[i])),
        rows_node(declared, states, None) matches JsonNode::List(v) && v.len() == declared.len()
            && v[i] == row_node(declared[i], states[i], None),
{
    let fields = crate::cmd::mcp_view::row_fields(declared[i], states[i]).push(
        ("probe"@, probe_node(probes@[i])),
    );
    objects_have_their_members(fields, fields.len() - 1);
}

/// Where no server is declared the list says so, and where one is it lists them.
pub proof fn empty_lists_say_so(
    declared: Seq<DeclaredView>,
    states: Seq<Seq<char>>,
    width: int,
    file_width: int,
    probes: Option<Vec<ProbeStatus>>,
)
    ensures
        declared.len() == 0 ==> begins(
            list_text(declared, states, width, file_width, probes),
            "No MCP servers configured."@,
        ),
        declared.len() > 0 ==> list_text(declared, states, width, file_width, probes)
            == crate::cmd::mcp_view::list_lines(
            declared,
            states,
            width,
            file_width,
            probes,
            declared.len() as int,
        ),
{
    if declared.len() == 0 {
        reveal_strlit("No MCP servers configured.");
        reveal_strlit("No MCP servers configured. Add one with `iota mcp add <name> -- <command>` or `iota mcp add <name> --url <url>`.\n");
        let t = list_text(declared, states, width, file_width, probes);
        let h = "No MCP servers configured."@;
        assert(t.subrange(0, h.len() as int) =~= h);
    }
}

/// A server that is not known is reported by the name that was asked for and the names that are declared.
pub proof fn unknown_servers_are_reported(e: SetupError, name: Seq<char>, declared: Seq<DeclaredView>)
    requires
        is_unknown(e, name, declared),
    ensures
        e matches SetupError::McpUnknown { name: n, servers } && n@ == name && servers@.len()
            == declared.len() && forall|i: int|
            0 <= i < declared.len() ==> (#[trigger] servers@[i])@ == declared[i].name,
{
    match e {
        SetupError::McpUnknown { name: n, servers } => {
            assert(strs(servers@).len() == names_of(declared).len());
            assert(servers@.len() == declared.len());
            assert forall|i: int| 0 <= i < declared.len() implies (#[trigger] servers@[i])@
                == declared[i].name by {
                assert(strs(servers@)[i] == names_of(declared)[i]);
            }
        },
        _ => {},
    }
}

/// The values of a map stand in the order of its names.
pub proof fn values_stand_in_name_order<T>(m: Map<Seq<char>, T>, i: int)
    requires
        0 <= i < pairs_of(m).len(),
    ensures
        values_of(m).len() == pairs_of(m).len(),
        values_of(m)[i] == pairs_of(m)[i].1,
{
}

/// A description that is refused is refused for what is wrong with it, shown as it was given.
pub proof fn refused_descriptions_are_shown(e: ArgsError, f: AddFault)
    requires
        is_fault(e, f),
    ensures
        f matches AddFault::UrlScheme(u) ==> ends(e.text(), debug_text(u)),
        f matches AddFault::BadHeader(h) ==> ends(e.text(), debug_text(h)),
        f matches AddFault::SecretEnv(v) ==> ends(e.text(), debug_text(v)),
        f matches AddFault::BadEnv(v) ==> ends(e.text(), debug_text(v)),
        f matches AddFault::Flag(a, b) ==> e.text() == "mcp add: "@ + a + " applies to "@ + b
            + " servers only"@,
        f is Target ==> e is McpAddTarget,
{
    match e {
        ArgsError::McpUrlScheme(v) | ArgsError::McpBadHeader(v) | ArgsError::McpClientSecretEnv(v)
        | ArgsError::McpBadEnv(v) => {
            crate::cmd::outcome_laws::refused_arguments_are_shown(v);
        },
        _ => {},
    }
}

// ---------------------------------------------------------------- the other lists

/// A list is of what was asked for, and of the agents where nothing was.
pub proof fn lists_are_of_what_was_asked_for(cmd: ListCmd)
    ensures
        cmd.what matches Some(w) ==> what_of(cmd) == w,
        cmd.what is None ==> what_word(what_of(cmd)) == "agents"@,
        what_word(ListWhat::Agents) == "agents"@,
        what_word(ListWhat::Models) == "models"@,
        what_word(ListWhat::Providers) == "providers"@,
        what_word(ListWhat::Sessions) == "sessions"@,
{
}

/// Where nothing is configured the list says so and how to begin; where something is, it is listed.
pub proof fn empty_configs_say_so(
    cfg: ConfigView,
    catalog: Catalog,
    env: EnvView,
    width: int,
    start_width: int,
)
    ensures
        pairs_of(cfg.agents).len() == 0 ==> begins(
            agents_text(cfg, width, start_width),
            "No agents configured."@,
        ),
        pairs_of(cfg.models).len() == 0 ==> begins(
            models_text(cfg, width),
            "No models configured."@,
        ),
        pairs_of(cfg.providers).len() == 0 ==> begins(
            providers_text(cfg, catalog, env),
            "No providers configured."@,
        ),
        pairs_of(cfg.agents).len() > 0 ==> agents_text(cfg, width, start_width)
            == crate::cmd::list::agent_lines(
            cfg,
            width,
            start_width,
            pairs_of(cfg.agents).len() as int,
        ),
        pairs_of(cfg.models).len() > 0 ==> models_text(cfg, width) == crate::cmd::list::model_lines(
            pairs_of(cfg.models),
            width,
            pairs_of(cfg.models).len() as int,
        ),
        pairs_of(cfg.providers).len() > 0 ==> providers_text(cfg, catalog, env)
            == crate::cmd::list::provider_rows(
            cfg,
            catalog,
            env,
            pairs_of(cfg.providers).len() as int,
        ),
{
    reveal_strlit("No agents configured.");
    reveal_strlit("No models configured.");
    reveal_strlit("No providers configured.");
    reveal_strlit("No agents configured. Run `iota config init` to write a starter config.\n");
    reveal_strlit("No models configured. Add a `models:` entry (see `iota config path`).\n");
    reveal_strlit("No providers configured. Run `iota config init` to write a starter config.\n");
    if pairs_of(cfg.agents).len() == 0 {
        let h = "No agents configured."@;
        assert(agents_text(cfg, width, start_width).subrange(0, h.len() as int) =~= h);
    }
    if pairs_of(cfg.models).len() == 0 {
        let h = "No models configured."@;
        assert(models_text(cfg, width).subrange(0, h.len() as int) =~= h);
    }
    if pairs_of(cfg.providers).len() == 0 {
        let h = "No providers configured."@;
        assert(providers_text(cfg, catalog, env).subrange(0, h.len() as int) =~= h);
    }
}

proof fn rows_keep_the_head(
    head: Seq<char>,
    cfg: ConfigView,
    choices: Seq<crate::config::model::RefView>,
    v: ResolvedView,
    n: int,
)
    requires
        0 <= n,
    ensures
        begins(choice_rows(head, cfg, choices, v, n), head),
    decreases n,
{
    let t = choice_rows(head, cfg, choices, v, n);
    if n > 0 {
        rows_keep_the_head(head, cfg, choices, v, n - 1);
        let s = choice_rows(head, cfg, choices, v, n - 1);
        assert(t.subrange(0, head.len() as int) =~= s.subrange(0, head.len() as int));
    } else {
        assert(t.subrange(0, head.len() as int) =~= head);
    }
}

/// The models of an agent are headed by its name; the model it starts on stands first, marked, where no choice
/// names it.
pub proof fn an_agents_models_are_headed_by_its_name(cfg: ConfigView, name: Seq<char>, v: ResolvedView)
    ensures
        begins(agent_models_text(cfg, name, v), "Models for agent "@ + name + ":\n"@),
        (forall|i: int|
            0 <= i < choices_of(cfg, v.agent).len() ==> !#[trigger] names_start(
                cfg,
                choices_of(cfg, v.agent)[i],
                v,
            )) ==> (start_of(v.agent) matches Some(r) ==> begins(
            agent_models_text(cfg, name, v),
            "Models for agent "@ + name + ":\n"@ + "* "@ + choice_text(cfg, r) + "\n"@,
        )),
{
    let choices = choices_of(cfg, v.agent);
    let heading = "Models for agent "@ + name + ":\n"@;
    let named = exists|i: int| 0 <= i < choices.len() && #[trigger] names_start(cfg, choices[i], v);
    let head = match start_of(v.agent) {
        Some(r) => if named {
            heading
        } else {
            heading + "* "@ + choice_text(cfg, r) + "\n"@
        },
        None => heading,
    };
    let t = agent_models_text(cfg, name, v);
    rows_keep_the_head(head, cfg, choices, v, choices.len() as int);
    assert(t.subrange(0, heading.len() as int) =~= t.subrange(0, head.len() as int).subrange(
        0,
        heading.len() as int,
    ));
    assert(head.subrange(0, heading.len() as int) =~= heading);
}

/// A starter that was written is named.
pub proof fn written_files_are_named(path: Seq<char>)
    ensures
        begins(wrote_text(path), "Wrote "@ + path + "\n"@),
{
    reveal_strlit("\nNext: export OPENAI_API_KEY=... (or put `key:` in the file), then run `iota`.\n");
    reveal_strlit("\n");
    let h = "Wrote "@ + path + "\n"@;
    assert(wrote_text(path).subrange(0, h.len() as int) =~= h);
}

// ---------------------------------------------------------------- what a run takes

/// A run takes the servers its selection names, as they are declared, and all of them where it has none.
pub proof fn runs_take_the_servers_they_name(cfg: ConfigView, names: Seq<Seq<char>>, name: Seq<char>)
    ensures
        selected_servers(cfg, None) == cfg.mcp_servers,
        selected_servers(cfg, Some(names)).contains_key(name) <==> names.contains(name)
            && cfg.mcp_servers.contains_key(name),
        names.contains(name) && cfg.mcp_servers.contains_key(name) ==> selected_servers(
            cfg,
            Some(names),
        )[name] == cfg.mcp_servers[name],
{
    assert(names.to_set().contains(name) <==> names.contains(name));
}

proof fn unknown_is_first(
    servers: Map<Seq<char>, ServerView>,
    names: Seq<Seq<char>>,
    from: int,
    k: int,
)
    requires
        0 <= from <= k <= names.len(),
        forall|i: int| from <= i < k ==> servers.contains_key(#[trigger] names[i]),
        k < names.len() ==> !servers.contains_key(names[k]),
    ensures
        crate::config::first_unknown(servers, names, from) == if k < names.len() {
            Some(names[k])
        } else {
            None::<Seq<char>>
        },
    decreases k - from,
{
    if from < k {
        assert(servers.contains_key(names[from]));
        unknown_is_first(servers, names, from + 1, k);
    }
}

/// A selection is refused for the first name it has that is not declared, and for none other.
pub proof fn selections_name_declared_servers(cfg: ConfigView, names: Seq<Seq<char>>, k: int)
    requires
        0 <= k <= names.len(),
        forall|i: int| 0 <= i < k ==> cfg.mcp_servers.contains_key(#[trigger] names[i]),
        k < names.len() ==> !cfg.mcp_servers.contains_key(names[k]),
    ensures
        bad_selection(cfg, None) is None,
        k == names.len() ==> bad_selection(cfg, Some(names)) is None,
        k < names.len() ==> bad_selection(cfg, Some(names)) == Some(names[k]),
{
    unknown_is_first(cfg.mcp_servers, names, 0, k);
}

/// Tools are warned of exactly where there are any and the provider calls none.
pub proof fn idle_tools_are_warned_of(
    settings: SettingsView,
    kind: ProviderKind,
    c: Capabilities,
    servers: nat,
)
    ensures
        idle_tools(settings, kind, c, servers).len() == 0 <==> c.tools || (pairs_of(
            settings.resolved.agent.tools,
        ).len() == 0 && servers == 0),
        idle_tools(settings, kind, c, servers).len() <= 1,
        idle_tools(settings, kind, c, servers).len() == 1 ==> occurs(
            idle_tools(settings, kind, c, servers)[0],
            kind_name(kind),
        ),
{
    stands_between(
        "Warning: tools/mcp_servers do not apply to provider type "@,
        kind_name(kind),
        " (no tool calling)"@,
    );
}

/// What was settled is what comes back: the settings where the run is ready, and else the fault that was found.
pub proof fn settled_runs_come_back(r: Result<RunSettings, CliError>, case: RunCase, cfg: ConfigView)
    requires
        is_case(r, case, cfg),
    ensures
        case is Ready <==> r is Ok,
        case matches RunCase::Ready(s) ==> (r matches Ok(v) && v@ == s),
        case matches RunCase::UnknownAgent(n) ==> (r matches Err(
            CliError::Args(ArgsError::UnknownAgent { name, agents }),
        ) && name@ == n && agents@.len() == pairs_of(cfg.agents).len()),
        case matches RunCase::KeyMissing(var, p) ==> (r matches Err(
            CliError::Setup(SetupError::ApiKeyRequired { env, provider }),
        ) && env@ == var && provider@ == p),
        case matches RunCase::ModelMissing(n) ==> (r matches Err(
            CliError::Args(ArgsError::ModelRequired { agent }),
        ) && agent@ == n),
        case matches RunCase::StdinFailed(e) ==> (r matches Err(
            CliError::Args(ArgsError::Stdin(m)),
        ) && m@ == e),
        case is NoAgent ==> (r matches Err(CliError::Args(ArgsError::NoAgent))),
        case is StdinEmpty ==> (r matches Err(CliError::Args(ArgsError::EmptyStdin))),
        case is MessageEmpty ==> (r matches Err(CliError::Args(ArgsError::MessageEmpty))),
{
    match case {
        RunCase::UnknownAgent(n) => {
            match r {
                Err(CliError::Args(ArgsError::UnknownAgent { name, agents })) => {
                    assert(strs(agents@).len() == agents@.len());
                },
                _ => {},
            }
        },
        _ => {},
    }
}

/// A server whose summary is blank is warned of, by its name; no other is.
pub proof fn blank_summaries_are_warned_of(pairs: Seq<(Seq<char>, ServerView)>, n: int)
    requires
        0 < n <= pairs.len(),
    ensures
        ({
            let s = pairs[n - 1].1;
            let before = group_warnings(pairs, n - 1);
            let now = group_warnings(pairs, n);
            &&& s.defer is None ==> now == before
            &&& s.defer matches Some(t) ==> if crate::text::trimmed(t).len() == 0 {
                now.len() == before.len() + 1 && now.drop_last() == before && occurs(
                    now.last(),
                    pairs[n - 1].0,
                )
            } else {
                now == before
            }
        }),
{
    let name = pairs[n - 1].0;
    let before = group_warnings(pairs, n - 1);
    let more = group_warning(name, pairs[n - 1].1);
    stands_between(
        "Warning: mcp server "@,
        name,
        ": defer needs a one-line summary of the server's tools (not deferred)"@,
    );
    if more.len() == 0 {
        assert(before + more =~= before);
    } else {
        assert((before + more).drop_last() =~= before);
        assert((before + more).last() == more[0]);
    }
}

// ---------------------------------------------------------------- what a run reports

/// A report is of the run it came from: its model, its time, its rounds and their tokens; and of what it came to,
/// a reply with its images or an error, never both.
pub proof fn reports_are_of_their_run(
    r: RunReport,
    rec: RecordView,
    kind: ProviderKind,
    model: Seq<char>,
    result: Result<RunOutcome, ChatError>,
    duration_ms: u64,
)
    requires
        is_report(r, rec, kind, model, result, duration_ms),
    ensures
        r.provider@ == kind_name(kind),
        r.model@ == model,
        r.duration_ms == duration_ms,
        rec.rounds.len() <= u32::MAX ==> r.rounds == rec.rounds.len(),
        r.usage == rec.total,
        r.round_usage@.len() == rec.rounds.len(),
        result matches Ok(o) ==> r.reply@ == o.reply@ && r.error@.len() == 0 && r.images@.len()
            == o.images@.len(),
        result matches Err(e) ==> r.error@ == e.text() && r.reply@.len() == 0 && r.images@.len()
            == 0,
{
    assert(crate::map::views(r.round_usage@).len() == r.round_usage@.len());
    match result {
        Ok(o) => {
            assert(strs(r.images@).len() == strs(o.images@).len());
        },
        Err(_) => {},
    }
}

/// A run leaves what it added to the conversation, or its error.
pub proof fn runs_leave_what_they_added(
    result: Result<RunOutcome, ChatError>,
    r: Result<OnceOutcome, ChatError>,
)
    requires
        left_by(result, r),
    ensures
        result matches Ok(o) ==> (r matches Ok(x) && x.delta == o.delta),
        result matches Err(e) ==> r == Err::<OnceOutcome, ChatError>(e),
{
}

/// Nothing is spent before anything is.
pub proof fn nothing_is_spent_at_first(l: DelegationLedger)
    ensures
        l.spent is None ==> spent_of(l) == (0u32, no_tokens()),
        l.spent matches Some(s) ==> spent_of(l) == s,
{
}

// ---------------------------------------------------------------- flat configs

proof fn entries_stand(
    base: Map<Seq<char>, FlatView>,
    pairs: Seq<(Seq<char>, FlatView)>,
    env: EnvView,
    name: Seq<char>,
)
    ensures
        map_of(pairs).contains_key(name) ==> with_entries(base, pairs, env).contains_key(name)
            && with_entries(base, pairs, env)[name] == expanded_entry(map_of(pairs)[name], env),
        !map_of(pairs).contains_key(name) ==> (with_entries(base, pairs, env).contains_key(name)
            <==> base.contains_key(name)) && (base.contains_key(name) ==> with_entries(
            base,
            pairs,
            env,
        )[name] == base[name]),
    decreases pairs.len(),
{
    if pairs.len() > 0 {
        entries_stand(base, pairs.drop_last(), env, name);
    }
}

proof fn servers_stand(
    base: Map<Seq<char>, ServerView>,
    pairs: Seq<(Seq<char>, ServerView)>,
    name: Seq<char>,
)
    ensures
        map_of(pairs).contains_key(name) ==> with_servers(base, pairs).contains_key(name)
            && with_servers(base, pairs)[name] == map_of(pairs)[name],
        !map_of(pairs).contains_key(name) ==> (with_servers(base, pairs).contains_key(name)
            <==> base.contains_key(name)) && (base.contains_key(name) ==> with_servers(
            base,
            pairs,
        )[name] == base[name]),
    decreases pairs.len(),
{
    if pairs.len() > 0 {
        servers_stand(base, pairs.drop_last(), name);
    }
}

/// Of two files that declare an entry the later counts, with its references expanded; what it does not declare
/// stays.
pub proof fn the_later_flat_file_counts(
    cfg: FlatConfigView,
    file: FlatConfigView,
    env: EnvView,
    name: Seq<char>,
)
    requires
        listed(file.providers),
        listed(file.mcp_servers),
    ensures
        ({
            let now = flat_merged(cfg, file, env);
            &&& file.providers.contains_key(name) ==> now.providers.contains_key(name)
                && now.providers[name] == expanded_entry(file.providers[name], env)
            &&& !file.providers.contains_key(name) ==> (now.providers.contains_key(name)
                <==> cfg.providers.contains_key(name)) && (cfg.providers.contains_key(name)
                ==> now.providers[name] == cfg.providers[name])
            &&& file.mcp_servers.contains_key(name) ==> now.mcp_servers.contains_key(name)
                && now.mcp_servers[name] == file.mcp_servers[name]
            &&& !file.mcp_servers.contains_key(name) ==> (now.mcp_servers.contains_key(name)
                <==> cfg.mcp_servers.contains_key(name)) && (cfg.mcp_servers.contains_key(name)
                ==> now.mcp_servers[name] == cfg.mcp_servers[name])
        }),
{
    entries_stand(cfg.providers, pairs_of(file.providers), env, name);
    servers_stand(cfg.mcp_servers, pairs_of(file.mcp_servers), name);
}

/// A file that cannot be read or parsed changes nothing and is warned of by its path and what is wrong with it;
/// one that can is taken, after those before it, without a word.
pub proof fn bad_flat_files_change_nothing(files: Seq<(String, FlatRead)>, env: EnvView, n: int)
    requires
        0 < n <= files.len(),
    ensures
        ({
            let read = files[n - 1].1;
            let before = flat_loaded(files, env, n - 1);
            let said = flat_warnings(files, n - 1);
            &&& read is Unreadable || read is Unparsed ==> flat_loaded(files, env, n) == before
                && flat_warnings(files, n).len() == said.len() + 1 && begins(
                flat_warnings(files, n).last(),
                "Warning: config "@ + files[n - 1].0@ + ": "@,
            )
            &&& read matches FlatRead::Unreadable(e) ==> occurs(flat_warnings(files, n).last(), e@)
            &&& read matches FlatRead::Unparsed(e) ==> occurs(flat_warnings(files, n).last(), e@)
            &&& read matches FlatRead::Document(file) ==> flat_loaded(files, env, n) == flat_merged(
                before,
                file@,
                env,
            ) && flat_warnings(files, n) == said
            &&& flat_loaded(files, env, 0).providers == Map::<Seq<char>, FlatView>::empty()
        }),
{
    let path = files[n - 1].0@;
    let said = flat_warnings(files, n - 1);
    let more = flat_warning(path, files[n - 1].1);
    match files[n - 1].1 {
        FlatRead::Unreadable(e) => {
            let head = "Warning: config "@ + path + ": "@;
            stands_between(head, e@, " (ignored)"@);
            assert(more[0].subrange(0, head.len() as int) =~= head);
            assert((said + more).last() == more[0]);
        },
        FlatRead::Unparsed(e) => {
            let head = "Warning: config "@ + path + ": "@;
            stands_between(head, e@, " (file ignored)"@);
            assert(more[0].subrange(0, head.len() as int) =~= head);
            assert((said + more).last() == more[0]);
        },
        _ => {
            assert(said + more =~= said);
        },
    }
}

// ---------------------------------------------------------------- delegation

/// A fault of an agent names it, and one of its provider names that too.
pub proof fn faults_name_the_agent(a: Seq<char>, p: Seq<char>, e: Seq<char>, number: Seq<char>)
    ensures
        begins(fault_text(DelegateFault::NoProvider(a), number), "agent "@ + debug_text(a) + ": "@),
        fault_text(DelegateFault::Provider(a, e), number) == "agent "@ + debug_text(a) + ": "@ + e,
        fault_text(DelegateFault::Toolset(a, e), number) == "agent "@ + debug_text(a) + ": "@ + e,
        begins(
            fault_text(DelegateFault::NoModel(a, p), number),
            "agent "@ + debug_text(a) + ": "@ + ("provider "@ + debug_text(p)),
        ),
        begins(
            fault_text(DelegateFault::Effort(a, p, e), number),
            "agent "@ + debug_text(a) + ": "@ + ("provider "@ + debug_text(p)),
        ),
        occurs(fault_text(DelegateFault::Effort(a, p, e), number), debug_text(e)),
        occurs(fault_text(DelegateFault::ApiKey(a, e), number), e),
        begins(fault_text(DelegateFault::ApiKey(a, e), number), "agent "@ + debug_text(a) + ": "@),
        fault_text(DelegateFault::UnknownAgent(a), number) == "unknown agent "@ + debug_text(a),
        ends(fault_text(DelegateFault::Config(e), number), e),
{
    let h = "agent "@ + debug_text(a) + ": "@;
    let hp = h + ("provider "@ + debug_text(p));
    let t1 = fault_text(DelegateFault::NoProvider(a), number);
    assert(t1.subrange(0, h.len() as int) =~= h);
    let t2 = fault_text(DelegateFault::NoModel(a, p), number);
    assert(t2.subrange(0, hp.len() as int) =~= hp);
    let t3 = fault_text(DelegateFault::Effort(a, p, e), number);
    assert(t3.subrange(0, hp.len() as int) =~= hp);
    let d = debug_text(e);
    let tail = ": want low|medium|high|xhigh|max"@;
    assert(t3 =~= (hp + " has effort "@) + d + tail);
    stands_between(hp + " has effort "@, d, tail);
    let t4 = fault_text(DelegateFault::ApiKey(a, e), number);
    assert(t4.subrange(0, h.len() as int) =~= h);
    assert(t4 =~= (h + "API key is required (set "@) + e + " or `key:`)"@);
    stands_between(h + "API key is required (set "@, e, " or `key:`)"@);
    let t5 = fault_text(DelegateFault::Config(e), number);
    assert(t5.subrange(t5.len() - e.len(), t5.len() - e.len() + e.len()) =~= e);
}

/// A delegation that stands has a plan for every agent and caps each child where a cap is set.
pub proof fn delegations_plan_every_agent(
    r: Result<Delegation, DelegateError>,
    cfg: FlatConfigView,
    pairs: Seq<(Seq<char>, AgentRefView)>,
    max_turns: i64,
    built: Seq<ChildTools>,
)
    requires
        is_delegation(r, cfg, pairs, max_turns, built),
        r is Ok,
    ensures
        r matches Ok(d) && d.plans@ == plans_case(cfg, pairs, pairs.len() as int) && (0 < max_turns
            <= u32::MAX ==> d.max_turns == Some(max_turns as u32)) && (max_turns <= 0
            ==> d.max_turns is None),
        built.len() == pairs.len(),
{
}

/// Each agent is planned by its own provider entry.
pub proof fn plans_belong_to_their_agents(
    cfg: FlatConfigView,
    pairs: Seq<(Seq<char>, AgentRefView)>,
    n: int,
    i: int,
)
    requires
        0 <= i < n <= pairs.len(),
        forall|j: int| i < j < n ==> (#[trigger] pairs[j]).0 != pairs[i].0,
    ensures
        plans_case(cfg, pairs, n).contains_key(pairs[i].0),
        agent_case(cfg, pairs[i].0, pairs[i].1.provider) matches Ok(plan) ==> plans_case(
            cfg,
            pairs,
            n,
        )[pairs[i].0] == plan,
    decreases n,
{
    if i < n - 1 {
        assert(pairs[n - 1].0 != pairs[i].0);
        plans_belong_to_their_agents(cfg, pairs, n - 1, i);
    }
}

} // verus!
