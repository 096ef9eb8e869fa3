//! The MCP servers a run connects to, and the parts its tools come from.

use vstd::prelude::*;
use vstd::string::*;

use crate::cmd::error::{ArgsError, CliError, SetupError};
use crate::config::error::ConfigErrorView;
use crate::config::first_unknown;
use crate::config::flat::FlatConfig;
use crate::config::migrate::LegacyProviderEntry;
use crate::config::server::{AuthMode, McpServerConfig, ServerView};
use crate::map::{pairs_of, views, Duplicate, StrMap};
use crate::provider::{defer_named, kind_name, Catalog, DeferMode, ProviderKind};
use crate::text::{
    copy_strs, debug_text, own, push_text, push_texts, quoted, strs, trim, trimmed,
};

verus! {

// ---------------------------------------------------------------- the servers

/// One server as the connections take it.
pub struct ServerConfig {
    pub name: String,
    pub command: String,
    pub args: Vec<String>,
    pub url: String,
    pub env: StrMap<String>,
    pub headers: StrMap<String>,
    pub auth: AuthMode,
    pub client_id: String,
    pub client_secret: String,
}

/// What a [`ServerConfig`] says.
pub struct ServerConfigView {
    pub name: Seq<char>,
    pub command: Seq<char>,
    pub args: Seq<Seq<char>>,
    pub url: Seq<char>,
    pub env: Map<Seq<char>, Seq<char>>,
    pub headers: Map<Seq<char>, Seq<char>>,
    pub auth: AuthMode,
    pub client_id: Seq<char>,
    pub client_secret: Seq<char>,
}

impl View for ServerConfig {
    type V = ServerConfigView;

    open spec fn view(&self) -> ServerConfigView {
        ServerConfigView {
            name: self.name@,
            command: self.command@,
            args: strs(self.args@),
            url: self.url@,
            env: self.env@,
            headers: self.headers@,
            auth: self.auth,
            client_id: self.client_id@,
            client_secret: self.client_secret@,
        }
    }
}

/// The server of an entry.
pub open spec fn server_of(name: Seq<char>, s: ServerView) -> ServerConfigView {
    ServerConfigView {
        name,
        command: s.command,
        args: s.args,
        url: s.url,
        env: s.env,
        headers: s.headers,
        auth: s.auth,
        client_id: s.client_id,
        client_secret: s.client_secret,
    }
}

/// The server of an entry.
pub fn server_config(name: &str, entry: &McpServerConfig) -> (r: ServerConfig)
    ensures
        r@ == server_of(name@, entry@),
{
    ServerConfig {
        name: own(name),
        command: entry.command.clone(),
        args: copy_strs(&entry.args),
        url: entry.url.clone(),
        env: entry.env.duplicate(),
        headers: entry.headers.duplicate(),
        auth: entry.auth,
        client_id: entry.client_id.clone(),
        client_secret: entry.client_secret.clone(),
    }
}

/// A server whose tools are loaded on demand, with the line the model finds them by.
pub struct DeferredGroup {
    pub name: String,
    pub summary: String,
}

/// What a [`DeferredGroup`] says.
pub struct GroupView {
    pub name: Seq<char>,
    pub summary: Seq<char>,
}

impl View for DeferredGroup {
    type V = GroupView;

    open spec fn view(&self) -> GroupView {
        GroupView { name: self.name@, summary: self.summary@ }
    }
}

/// The group of an entry that opts into deferred loading; a blank summary defeats the point.
pub open spec fn group_of(name: Seq<char>, s: ServerView) -> Seq<GroupView> {
    match s.defer {
        Some(raw) => if trimmed(raw).len() > 0 {
            seq![GroupView { name, summary: trimmed(raw) }]
        } else {
            Seq::empty()
        },
        None => Seq::empty(),
    }
}

/// What an entry is warned of: a blank summary.
pub open spec fn group_warning(name: Seq<char>, s: ServerView) -> Seq<Seq<char>> {
    if s.defer is Some && trimmed(s.defer->0).len() == 0 {
        seq![
            "Warning: mcp server "@ + name
                + ": defer needs a one-line summary of the server's tools (not deferred)"@,
        ]
    } else {
        Seq::empty()
    }
}

/// The groups of the first `n` entries.
pub open spec fn groups_of(pairs: Seq<(Seq<char>, ServerView)>, n: int) -> Seq<GroupView>
    decreases n,
{
    if n <= 0 {
        Seq::empty()
    } else {
        groups_of(pairs, n - 1) + group_of(pairs[n - 1].0, pairs[n - 1].1)
    }
}

/// What the first `n` entries are warned of.
pub open spec fn group_warnings(pairs: Seq<(Seq<char>, ServerView)>, n: int) -> Seq<Seq<char>>
    decreases n,
{
    if n <= 0 {
        Seq::empty()
    } else {
        group_warnings(pairs, n - 1) + group_warning(pairs[n - 1].0, pairs[n - 1].1)
    }
}

/// The servers of the entries, in name order.
pub open spec fn servers_of(pairs: Seq<(Seq<char>, ServerView)>) -> Seq<ServerConfigView> {
    Seq::new(pairs.len(), |i: int| server_of(pairs[i].0, pairs[i].1))
}

/// Whether every flag describes a server.
pub open spec fn all_read(flags: Seq<Option<ServerConfig>>) -> bool {
    forall|i: int| 0 <= i < flags.len() ==> #[trigger] flags[i] is Some
}

/// The servers that flags describe, in flag order.
pub open spec fn flag_servers(flags: Seq<Option<ServerConfig>>) -> Seq<ServerConfigView> {
    Seq::new(flags.len(), |i: int| flags[i]->0@)
}

/// Whether a result is what a selection of entries and the flags give.
pub open spec fn mounts(
    r: Result<(Vec<ServerConfig>, Vec<DeferredGroup>), CliError>,
    selected: Map<Seq<char>, ServerView>,
    flags: Seq<Option<ServerConfig>>,
) -> bool {
    let pairs = pairs_of(selected);
    if all_read(flags) {
        r matches Ok((configs, defers)) && views(configs@) == servers_of(pairs) + flag_servers(
            flags,
        ) && views(defers@) == groups_of(pairs, pairs.len() as int)
    } else {
        r matches Err(CliError::Args(ArgsError::McpFlag))
    }
}

/// One more value at the end of a list.
proof fn views_push<T: View>(v: Seq<T>, x: T)
    ensures
        views(v.push(x)) == views(v).push(x@),
{
    assert(views(v.push(x)) =~= views(v).push(x@));
}

/// The servers of a selection, in name order, then those of the flags, in flag order. A flag always loads; one
/// that describes no server (`None`) is an error. The deferred groups come in name order.
pub fn mount_servers(
    selected: &StrMap<McpServerConfig>,
    flags: Vec<Option<ServerConfig>>,
    warn: &mut Vec<String>,
) -> (r: Result<(Vec<ServerConfig>, Vec<DeferredGroup>), CliError>)
    ensures
        mounts(r, selected@, flags@),
        strs(final(warn)@) == strs(old(warn)@) + group_warnings(
            pairs_of(selected@),
            pairs_of(selected@).len() as int,
        ),
{
    let n: usize = selected.len();
    let ghost pairs = selected.pairs();
    let mut configs: Vec<ServerConfig> = Vec::new();
    let mut defers: Vec<DeferredGroup> = Vec::new();
    let mut said: Vec<String> = Vec::new();
    assert(strs(said@) =~= Seq::<Seq<char>>::empty());
    assert(views(defers@) =~= Seq::<GroupView>::empty());
    for i in 0..n
        invariant
            n == pairs.len(),
            pairs == selected.pairs(),
            configs@.len() == i,
            forall|k: int|
                0 <= k < i ==> (#[trigger] configs@[k])@ == server_of(pairs[k].0, pairs[k].1),
            views(defers@) == groups_of(pairs, i as int),
            strs(said@) == group_warnings(pairs, i as int),
    {
        let name: &String = selected.key_at(i);
        let entry: &McpServerConfig = selected.value_at(i);
        configs.push(server_config(name.as_str(), entry));
        let ghost groups = views(defers@);
        let ghost words = strs(said@);
        if let Some(raw) = &entry.defer {
            let summary: String = trim(raw.as_str());
            if summary.as_str().is_empty() {
                let mut w: String = own("Warning: mcp server ");
                w.append(name.as_str());
                w.append(": defer needs a one-line summary of the server's tools (not deferred)");
                push_text(&mut said, w);
            } else {
                let group = DeferredGroup { name: name.clone(), summary };
                proof {
                    views_push(defers@, group);
                }
                defers.push(group);
            }
        }
        assert(views(defers@) =~= groups + group_of(name@, entry@));
        assert(strs(said@) =~= words + group_warning(name@, entry@));
    }
    push_texts(warn, said);
    assert(views(configs@) =~= servers_of(pairs));
    let total: usize = flags.len();
    let mut rest: Vec<Option<ServerConfig>> = flags;
    let ghost all = flags@;
    let mut k: usize = 0;
    while rest.len() > 0
        invariant
            all == flags@,
            pairs == pairs_of(selected@),
            strs(warn@) == strs(old(warn)@) + group_warnings(pairs, pairs.len() as int),
            k + rest@.len() == total,
            total == all.len(),
            rest@ == all.skip(k as int),
            forall|j: int| 0 <= j < k ==> #[trigger] all[j] is Some,
            views(configs@) == servers_of(pairs) + flag_servers(all.take(k as int)),
        decreases rest@.len(),
    {
        assert(rest@[0] == all[k as int]);
        match rest.remove(0) {
            None => {
                return Err(CliError::Args(ArgsError::McpFlag));
            },
            Some(c) => {
                proof {
                    views_push(configs@, c);
                    assert(flag_servers(all.take(k + 1)) =~= flag_servers(
                        all.take(k as int),
                    ).push(c@));
                    assert(servers_of(pairs) + flag_servers(all.take(k as int)).push(c@) =~= (
                    servers_of(pairs) + flag_servers(all.take(k as int))).push(c@));
                }
                configs.push(c);
            },
        }
        k += 1;
        assert(rest@ =~= all.skip(k as int));
    }
    assert(all.take(k as int) =~= all);
    Ok((configs, defers))
}

/// The servers a provider entry selects, then those of the flags. An unknown name in the selection is an error.
pub fn build_mcp_configs(
    cfg: &FlatConfig,
    entry: &LegacyProviderEntry,
    flags: Vec<Option<ServerConfig>>,
    warn: &mut Vec<String>,
) -> (r: Result<(Vec<ServerConfig>, Vec<DeferredGroup>), CliError>)
    ensures
        ({
            let servers = cfg@.mcp_servers;
            match entry@.mcp_servers {
                Some(names) if first_unknown(servers, names, 0) is Some => {
                    &&& r matches Err(CliError::Setup(SetupError::Config(e))) && e@
                        == ConfigErrorView::UnknownMcpServer(first_unknown(servers, names, 0)->0)
                    &&& strs(final(warn)@) == strs(old(warn)@)
                },
                _ => {
                    let selected = match entry@.mcp_servers {
                        None => servers,
                        Some(names) => servers.restrict(names.to_set()),
                    };
                    &&& mounts(r, selected, flags@)
                    &&& strs(final(warn)@) == strs(old(warn)@) + group_warnings(
                        pairs_of(selected),
                        pairs_of(selected).len() as int,
                    )
                },
            }
        }),
{
    match cfg.mcp_servers_for(entry) {
        Err(e) => Err(CliError::Setup(SetupError::Config(e))),
        Ok(selected) => mount_servers(&selected, flags, warn),
    }
}

// ---------------------------------------------------------------- the parts

/// The toolset with which skills are activated.
pub const AGENT_SET: &'static str = "agent";

/// The toolset with which the user is asked.
pub const ASK_SET: &'static str = "ask";

/// The toolsets a run enables beyond those its entry names: the agent set in agent mode, the ask set in a run
/// that can ask, unless the entry disables it.
pub fn extra_sets(agent_mode: bool, can_ask: bool, ask_disabled: bool) -> (r: Vec<&'static str>)
    ensures
        Seq::new(r@.len(), |i: int| r@[i]@) == (if agent_mode {
            seq![AGENT_SET@]
        } else {
            Seq::empty()
        }) + (if can_ask && !ask_disabled {
            seq![ASK_SET@]
        } else {
            Seq::empty()
        }),
{
    let mut r: Vec<&'static str> = Vec::new();
    if agent_mode {
        r.push(AGENT_SET);
    }
    if can_ask && !ask_disabled {
        r.push(ASK_SET);
    }
    r
}

/// The defer mode that an entry asks for, as far as the provider type speaks it: no mode and an unknown one are
/// `normal`, and so is one that the type does not speak.
pub open spec fn mode_for(raw: Seq<char>, kind: ProviderKind, catalog: Catalog) -> DeferMode {
    match defer_named(raw) {
        Some(m) => if catalog.speaks(m, kind) {
            m
        } else {
            DeferMode::Normal
        },
        None => DeferMode::Normal,
    }
}

/// What the choice of the mode is warned of.
pub open spec fn mode_warning(raw: Seq<char>, kind: ProviderKind, catalog: Catalog) -> Seq<
    Seq<char>,
> {
    match defer_named(raw) {
        Some(m) => if catalog.speaks(m, kind) {
            Seq::empty()
        } else {
            seq![
                "defer_mode "@ + debug_text(raw) + " does not apply to provider type "@ + kind_name(
                    kind,
                ) + " (using normal)"@,
            ]
        },
        None => if raw.len() == 0 {
            Seq::empty()
        } else {
            seq!["unknown defer_mode "@ + debug_text(raw) + " (using normal)"@]
        },
    }
}

/// The defer mode that an entry asks for, as far as the provider type speaks it.
pub fn resolve_defer_mode(
    raw: &str,
    kind: ProviderKind,
    catalog: &Catalog,
    warn: &mut Vec<String>,
) -> (r: DeferMode)
    ensures
        r == mode_for(raw@, kind, *catalog),
        strs(final(warn)@) == strs(old(warn)@) + mode_warning(raw@, kind, *catalog),
{
    assert(strs(old(warn)@) + Seq::<Seq<char>>::empty() =~= strs(old(warn)@));
    match DeferMode::from_name(raw) {
        Some(m) => if catalog.supports(m, kind) {
            m
        } else {
            let mut w: String = own("defer_mode ");
            w.append(quoted(raw).as_str());
            w.append(" does not apply to provider type ");
            w.append(kind.as_str());
            w.append(" (using normal)");
            push_text(warn, w);
            assert(strs(warn@) =~= strs(old(warn)@) + mode_warning(raw@, kind, *catalog));
            DeferMode::Normal
        },
        None => {
            if !raw.is_empty() {
                let mut w: String = own("unknown defer_mode ");
                w.append(quoted(raw).as_str());
                w.append(" (using normal)");
                push_text(warn, w);
                assert(strs(warn@) =~= strs(old(warn)@) + mode_warning(raw@, kind, *catalog));
            }
            DeferMode::Normal
        },
    }
}

/// How the MCP tools are mounted.
#[derive(Clone, Copy, Debug, PartialEq, Eq, Structural)]
pub enum McpMount {
    /// There is no server.
    Absent,
    /// All tools are advertised.
    Full,
    /// The deferred groups are found by their summaries, in this mode.
    Deferred(DeferMode),
}

/// The parts the tools come from, in order: the built-in ones win any collision of names.
pub struct Parts {
    /// Whether the built-in tools are a part.
    pub builtin: bool,
    /// How the MCP tools are.
    pub mcp: McpMount,
}

/// How the MCP tools are mounted.
pub open spec fn mount_of(
    raw: Seq<char>,
    kind: ProviderKind,
    catalog: Catalog,
    connected: bool,
    groups: nat,
) -> McpMount {
    if !connected {
        McpMount::Absent
    } else if groups == 0 {
        McpMount::Full
    } else {
        McpMount::Deferred(mode_for(raw, kind, catalog))
    }
}

/// What the assembly of the parts is warned of.
pub open spec fn parts_warning(
    raw: Seq<char>,
    kind: ProviderKind,
    catalog: Catalog,
    connected: bool,
    groups: nat,
) -> Seq<Seq<char>> {
    if !connected {
        Seq::empty()
    } else if groups > 0 {
        mode_warning(raw, kind, catalog)
    } else if raw.len() > 0 {
        seq![
            "defer_mode has no effect without a deferred mcp server (add `defer: \"<summary>\"` to one)"@,
        ]
    } else {
        Seq::empty()
    }
}

/// Assembles the parts: the built-in tools when there are any, then the MCP tools, deferred when a server opted
/// in. The mode is checked against the RESOLVED provider kind.
pub fn build_dispatcher(
    defer_mode: &str,
    kind: ProviderKind,
    catalog: &Catalog,
    builtin_tools: usize,
    connected: bool,
    defers: &Vec<DeferredGroup>,
    warn: &mut Vec<String>,
) -> (r: Parts)
    ensures
        r.builtin == (builtin_tools > 0),
        r.mcp == mount_of(defer_mode@, kind, *catalog, connected, defers@.len()),
        strs(final(warn)@) == strs(old(warn)@) + parts_warning(
            defer_mode@,
            kind,
            *catalog,
            connected,
            defers@.len(),
        ),
{
    assert(strs(old(warn)@) + Seq::<Seq<char>>::empty() =~= strs(old(warn)@));
    let mcp: McpMount = if !connected {
        McpMount::Absent
    } else if defers.len() == 0 {
        if !defer_mode.is_empty() {
            push_text(
                warn,
                own(
                    "defer_mode has no effect without a deferred mcp server (add `defer: \"<summary>\"` to one)",
                ),
            );
            assert(strs(warn@) =~= strs(old(warn)@) + parts_warning(
                defer_mode@,
                kind,
                *catalog,
                connected,
                defers@.len(),
            ));
        }
        McpMount::Full
    } else {
        McpMount::Deferred(resolve_defer_mode(defer_mode, kind, catalog, warn))
    };
    Parts { builtin: builtin_tools > 0, mcp }
}

/// A group is found by a summary that is not blank, and its server is one of those that are mounted.
pub proof fn groups_are_servers(pairs: Seq<(Seq<char>, ServerView)>, n: int, i: int)
    requires
        0 <= n <= pairs.len(),
        0 <= i < groups_of(pairs, n).len(),
    ensures
        groups_of(pairs, n)[i].summary.len() > 0,
        exists|k: int| 0 <= k < n && #[trigger] pairs[k].0 == groups_of(pairs, n)[i].name,
    decreases n,
{
    let before = groups_of(pairs, n - 1);
    if i < before.len() {
        groups_are_servers(pairs, n - 1, i);
        let k = choose|k: int| 0 <= k < n - 1 && #[trigger] pairs[k].0 == before[i].name;
        assert(pairs[k].0 == groups_of(pairs, n)[i].name);
    } else {
        assert(pairs[n - 1].0 == groups_of(pairs, n)[i].name);
    }
}

} // verus!
