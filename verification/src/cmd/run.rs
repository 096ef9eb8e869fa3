//! The run pipeline: what is refused before anything is read, the tool side, and the headless branch.

use vstd::prelude::*;
use vstd::string::*;

use crate::chat::once::OnceOptions;
use crate::cmd::args::{Invocation, Resume};
use crate::cmd::assemble::{group_warnings, mount_servers, mounts, DeferredGroup, ServerConfig};
use crate::cmd::error::{ArgsError, CliError, RunError, SetupError};
use crate::cmd::interactive::wire::{resumed_line, resumed_text};
use crate::cmd::io::Streams;
use crate::cmd::resolve::{RunSettings, SettingsView};
use crate::cmd::tuning::{line_if, warn_tools_without_calling, Capabilities};
use crate::config::error::ConfigErrorView;
use crate::config::server::ServerView;
use crate::config::{first_unknown, Config, ConfigView};
use crate::headless::error::ChatError;
use crate::headless::{format_named, parse_output_format, AgentOptions, OutputFormat};
use crate::map::{pairs_of, views};
use crate::message::Message;
use crate::provider::{kind_name, opt_view, ProviderKind};
use crate::session::SessionMeta;
use crate::text::{own, same, strs};

verus! {

/// What the version prints.
pub fn version_line(version: &str) -> (r: String)
    ensures
        r@ == "iota "@ + version@ + "\n"@,
{
    let mut r: String = own("iota ");
    r.append(version);
    r.append("\n");
    r
}

/// Refuses, before anything is read, what a headless run cannot mean.
pub fn check_invocation(inv: &Invocation) -> (r: Result<(), CliError>)
    ensures
        if inv.args.message is None {
            r is Ok
        } else if inv.args.no_save {
            r matches Err(CliError::Args(ArgsError::UnsupportedFlag(f))) && f@ == "--no-save"@
        } else if inv.resume == Some(Resume::Pick) {
            r matches Err(CliError::Args(ArgsError::ResumeIdRequired))
        } else {
            r is Ok
        },
{
    if inv.args.message.is_none() {
        return Ok(());
    }
    if let Err(e) = inv.args.reject_unsupported() {
        return Err(CliError::Args(e));
    }
    match &inv.resume {
        Some(Resume::Pick) => Err(CliError::Args(ArgsError::ResumeIdRequired)),
        _ => Ok(()),
    }
}

/// The output format of a run. The flag describes a run with a message: a misplaced one is an error rather than
/// a quiet fall back to text.
pub fn output_format(settings: &RunSettings) -> (r: Result<OutputFormat, CliError>)
    ensures
        match settings@.output_format_raw {
            None => r == Ok::<OutputFormat, CliError>(OutputFormat::Text),
            Some(raw) => match format_named(raw) {
                None => r matches Err(CliError::Run(RunError::Chat(ChatError::BadFormat(t)))) && t@
                    == raw,
                Some(f) => if settings@.message is None {
                    r matches Err(CliError::Args(ArgsError::OutputFormatWithoutMessage))
                } else {
                    r == Ok::<OutputFormat, CliError>(f)
                },
            },
        },
{
    match &settings.output_format_raw {
        None => Ok(OutputFormat::Text),
        Some(raw) => match parse_output_format(raw.as_str()) {
            Err(e) => Err(CliError::Run(RunError::Chat(e))),
            Ok(f) => if settings.message.is_none() {
                Err(CliError::Args(ArgsError::OutputFormatWithoutMessage))
            } else {
                Ok(f)
            },
        },
    }
}

// ---------------------------------------------------------------- the tool side

/// Where a run works.
pub struct Place {
    /// The project root of the working directory, when that is known.
    pub project_root: Option<String>,
    /// The working directory.
    pub cwd: Option<String>,
    /// The home directory.
    pub home: Option<String>,
    /// Why the working directory is unknown, when it is.
    pub cwd_error: String,
}

/// Whether options are those of agent mode at a place.
pub open spec fn works_at(a: AgentOptions, root: Seq<char>, p: Place) -> bool {
    a.enabled && a.root@ == root && opt_view(a.cwd) == opt_view(p.cwd) && opt_view(a.home)
        == opt_view(p.home)
}

/// The agent-mode options of a run. Only agent mode makes a missing working directory fatal.
pub fn agent_options(agent_mode: bool, p: &Place) -> (r: Result<AgentOptions, CliError>)
    ensures
        if !agent_mode {
            r matches Ok(a) && !a.enabled && a.root@.len() == 0 && a.cwd is None && a.home is None
        } else {
            match p.project_root {
                None => r matches Err(CliError::Setup(SetupError::Cwd(m))) && m@ == p.cwd_error@,
                Some(root) => r matches Ok(a) && works_at(a, root@, *p),
            }
        },
{
    if !agent_mode {
        return Ok(AgentOptions::default());
    }
    match &p.project_root {
        None => Err(CliError::Setup(SetupError::Cwd(p.cwd_error.clone()))),
        Some(root) => Ok(
            AgentOptions {
                enabled: true,
                root: root.clone(),
                cwd: p.cwd.clone(),
                home: p.home.clone(),
            },
        ),
    }
}

/// The tool side of a run, assembled once and consumed by whichever branch runs.
pub struct ToolAssembly {
    /// The MCP servers: those of the config in name order, then those of the flags.
    pub mcp_configs: Vec<ServerConfig>,
    /// The deferred groups.
    pub mcp_defers: Vec<DeferredGroup>,
    /// Agent-mode options.
    pub agent: AgentOptions,
    /// Whether the user can be asked: only an interactive run can.
    pub asks: bool,
}

/// The servers that an agent selects.
pub open spec fn selected_servers(cfg: ConfigView, wanted: Option<Seq<Seq<char>>>) -> Map<
    Seq<char>,
    ServerView,
> {
    match wanted {
        None => cfg.mcp_servers,
        Some(names) => cfg.mcp_servers.restrict(names.to_set()),
    }
}

/// The name in a selection that no server has.
pub open spec fn bad_selection(cfg: ConfigView, wanted: Option<Seq<Seq<char>>>) -> Option<Seq<char>> {
    match wanted {
        None => None,
        Some(names) => first_unknown(cfg.mcp_servers, names, 0),
    }
}

/// The line about tools on a provider that calls none.
pub open spec fn idle_tools(
    settings: SettingsView,
    kind: ProviderKind,
    c: Capabilities,
    servers: nat,
) -> Seq<Seq<char>> {
    line_if(
        !c.tools && (pairs_of(settings.resolved.agent.tools).len() > 0 || servers > 0),
        "Warning: tools/mcp_servers do not apply to provider type "@ + kind_name(kind)
            + " (no tool calling)"@,
    )
}

/// Assembles the tool side: the servers, the line about tools that can never be called, then the agent options —
/// each step's error before the next step's.
pub fn assemble_tools(
    cfg: &Config,
    settings: &RunSettings,
    kind: ProviderKind,
    c: Capabilities,
    flags: Vec<Option<ServerConfig>>,
    place: &Place,
    warn: &mut Vec<String>,
) -> (r: Result<ToolAssembly, CliError>)
    ensures
        ({
            let wanted = settings@.resolved.agent.mcp_servers;
            let selected = selected_servers(cfg@, wanted);
            let groups = group_warnings(pairs_of(selected), pairs_of(selected).len() as int);
            match bad_selection(cfg@, wanted) {
                Some(name) => {
                    &&& r matches Err(CliError::Setup(SetupError::Config(e))) && e@
                        == ConfigErrorView::UnknownMcpServer(name)
                    &&& strs(final(warn)@) == strs(old(warn)@)
                },
                None => if !crate::cmd::assemble::all_read(flags@) {
                    &&& r matches Err(CliError::Args(ArgsError::McpFlag))
                    &&& strs(final(warn)@) == strs(old(warn)@) + groups
                } else {
                    &&& strs(final(warn)@) == strs(old(warn)@) + groups + idle_tools(
                        settings@,
                        kind,
                        c,
                        pairs_of(selected).len() + flags@.len(),
                    )
                    &&& match place.project_root {
                        None if settings@.agent_mode => r matches Err(
                            CliError::Setup(SetupError::Cwd(m)),
                        ) && m@ == place.cwd_error@,
                        _ => r matches Ok(t) && t.asks == (settings@.message is None) && mounts(
                            Ok((t.mcp_configs, t.mcp_defers)),
                            selected,
                            flags@,
                        ) && if settings@.agent_mode {
                            works_at(t.agent, place.project_root->0@, *place)
                        } else {
                            !t.agent.enabled
                        },
                    }
                },
            }
        }),
{
    let selected = match cfg.mcp_servers_for(&settings.resolved.agent) {
        Ok(s) => s,
        Err(e) => return Err(CliError::Setup(SetupError::Config(e))),
    };
    let (mcp_configs, mcp_defers) = match mount_servers(&selected, flags, warn) {
        Ok(m) => m,
        Err(e) => return Err(e),
    };
    assert(views(mcp_configs@).len() == mcp_configs@.len());
    warn_tools_without_calling(kind, c, &settings.resolved.agent, mcp_configs.len(), warn);
    let agent: AgentOptions = match agent_options(settings.agent_mode, place) {
        Ok(a) => a,
        Err(e) => return Err(e),
    };
    Ok(ToolAssembly { mcp_configs, mcp_defers, agent, asks: settings.message.is_none() })
}

/// How the connection to a server ended.
pub struct Connection {
    pub name: String,
    pub connected: bool,
    /// What went wrong; empty when nothing is known.
    pub error: String,
}

/// What the first `n` connections are warned of: a server that was configured and did not answer.
pub open spec fn connect_warnings(v: Seq<Connection>, n: int) -> Seq<char>
    decreases n,
{
    if n <= 0 {
        Seq::empty()
    } else if v[n - 1].connected {
        connect_warnings(v, n - 1)
    } else {
        connect_warnings(v, n - 1) + ("Warning: mcp server "@ + v[n - 1].name@ + ": "@ + v[n
            - 1].error@ + "\n"@)
    }
}

/// Warns of each server that did not answer.
pub fn warn_connections(v: &Vec<Connection>, io: &mut Streams)
    ensures
        final(io).stdout == old(io).stdout,
        final(io).stderr@ == old(io).stderr@ + connect_warnings(v@, v@.len() as int),
{
    let ghost was = io.stderr@;
    assert(was + Seq::<char>::empty() =~= was);
    for i in 0..v.len()
        invariant
            io.stdout == old(io).stdout,
            io.stderr@ == was + connect_warnings(v@, i as int),
    {
        if !v[i].connected {
            let mut line: String = own("Warning: mcp server ");
            line.append(v[i].name.as_str());
            line.append(": ");
            line.append(v[i].error.as_str());
            line.append("\n");
            io.stderr.append(line.as_str());
            assert(io.stderr@ =~= was + connect_warnings(v@, i + 1));
        }
    }
}

// ---------------------------------------------------------------- the headless branch

/// Whether the run names its own model, which a session that is resumed must not overwrite.
pub fn model_overridden(settings: &RunSettings) -> (r: bool)
    ensures
        r == (settings@.model.len() > 0),
{
    !settings.model.as_str().is_empty()
}

/// Whether the agent that a session ran under is still in the config.
pub fn session_agent_exists(cfg: &Config, meta: &SessionMeta) -> (r: bool)
    ensures
        r == cfg@.agents.contains_key(meta.agent@),
{
    cfg.agents.contains_key(meta.agent.as_str())
}

/// The model a resumed run uses: the run's own; without one, that of the session, when it was recorded under
/// this provider type.
pub open spec fn model_after(settings: SettingsView, kind: ProviderKind, meta: SessionMeta) -> Seq<
    char,
> {
    if settings.model.len() == 0 && meta.provider@ == kind_name(kind) {
        meta.model@
    } else {
        settings.model
    }
}

/// Resumes a session without an interface: the model it goes on with, or the complaint that there is none.
/// Nothing is replayed or announced before that is known.
pub fn resume_headless(settings: &RunSettings, kind: ProviderKind, meta: &SessionMeta) -> (r: Result<
    String,
    CliError,
>)
    ensures
        if model_after(settings@, kind, *meta).len() == 0 {
            r matches Err(CliError::Args(ArgsError::ModelRequired { agent })) && agent@
                == settings@.name
        } else {
            r matches Ok(m) && m@ == model_after(settings@, kind, *meta)
        },
{
    let replays = !model_overridden(settings) && same(meta.provider.as_str(), kind.as_str());
    let model: String = if replays {
        meta.model.clone()
    } else {
        settings.model.clone()
    };
    if model.as_str().is_empty() {
        return Err(CliError::Args(ArgsError::ModelRequired { agent: settings.name.clone() }));
    }
    Ok(model)
}

/// Says which session was resumed, once its settings were replayed. The announcement goes to standard error,
/// because standard output is the reply alone.
pub fn announce_headless(id: &str, messages: usize, io: &mut Streams)
    ensures
        final(io).stdout == old(io).stdout,
        final(io).stderr@ == old(io).stderr@ + resumed_text(id@, messages as nat) + "\n"@,
{
    io.warning(resumed_line(id, messages).as_str());
}

/// A session that a headless run goes on with.
pub struct ResumedSession {
    pub history: Vec<Message>,
    /// The directory of its own images.
    pub images: String,
}

/// What a headless run is started with. A resumed run keeps its images inside its session, so that what it
/// persists can be read again.
pub fn once_options(
    message: String,
    settings: RunSettings,
    agent: AgentOptions,
    format: OutputFormat,
    home_images: Option<String>,
    session: Option<ResumedSession>,
) -> (r: OnceOptions)
    ensures
        r.message == message,
        r.system == settings.system,
        r.agent == agent,
        r.max_turns == settings.max_turns,
        r.format == format,
        match session {
            Some(s) => r.images_dir == Some(s.images) && r.history == s.history,
            None => r.images_dir == home_images && r.history@.len() == 0,
        },
{
    let (images_dir, history) = match session {
        Some(s) => (Some(s.images), s.history),
        None => (home_images, Vec::new()),
    };
    OnceOptions {
        message,
        system: settings.system,
        agent,
        max_turns: settings.max_turns,
        format,
        images_dir,
        history,
    }
}

/// What is said of a turn that could not be saved.
pub fn save_warning(e: &str, io: &mut Streams)
    ensures
        final(io).stdout == old(io).stdout,
        final(io).stderr@ == old(io).stderr@ + ("Warning: failed to save session: "@ + e@ + "\n"@),
{
    let mut line: String = own("Warning: failed to save session: ");
    line.append(e);
    line.append("\n");
    io.stderr.append(line.as_str());
}

} // verus!
