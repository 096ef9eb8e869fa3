//! The wiring of a session: resume, create or defer; the parameters it runs under; and the titles.

use vstd::prelude::*;
use vstd::string::*;

use crate::cmd::assemble::{build_dispatcher, mount_of, parts_warning, DeferredGroup, Parts};
use crate::cmd::error::{CliError, SetupError};
use crate::cmd::io::Streams;
use crate::cmd::resolve::{RunSettings, SettingsView};
use crate::cmd::window::{
    counted, is_size, parse_window_size, size_parts, tokens_in, WindowSizeError, WindowValue,
};
use crate::config::model::mode_of;
use crate::config::params::{
    all_anchored, declarations, evaluated, resumed, window_of, Declared, LayersView, ParamLayers,
    WindowDecl, MODEL_WINDOW_LABEL,
};
use crate::config::{Config, ConfigView, Resolved, ResolvedView};
use crate::double::Double;
use crate::provider::{kind_name, Catalog, ProviderKind};
use crate::session::{default_params, LayeredParams, ParamsView, SessionMeta};
use crate::text::{decimal, decimal_of, own, same, strs};

verus! {

// ---------------------------------------------------------------- which session

/// Which session a resume is about: the one its id resolved to, or the one that was picked. `resolved` is what
/// resolving the id gave: the id in full, or the text of the failure.
pub fn resume_target(
    fragment: &Option<String>,
    resolved: Result<String, String>,
    picked: &Option<String>,
) -> (r: Result<String, CliError>)
    ensures
        match *fragment {
            Some(_) => match resolved {
                Err(e) => r matches Err(CliError::Setup(SetupError::Session(m))) && m@ == e@,
                Ok(id) => if id@.len() == 0 {
                    r matches Err(CliError::Setup(SetupError::NoSessionToResume))
                } else {
                    r matches Ok(t) && t@ == id@
                },
            },
            None => match *picked {
                Some(id) if id@.len() > 0 => r matches Ok(t) && t@ == id@,
                _ => r matches Err(CliError::Setup(SetupError::NoSessionToResume)),
            },
        },
{
    let id: String = match fragment {
        Some(_) => match resolved {
            Ok(id) => id,
            Err(e) => return Err(CliError::Setup(SetupError::Session(e))),
        },
        None => match picked {
            Some(id) => id.clone(),
            None => String::new(),
        },
    };
    if id.as_str().is_empty() {
        return Err(CliError::Setup(SetupError::NoSessionToResume));
    }
    Ok(id)
}

/// `Resumed session <id> (<n> messages)`.
pub open spec fn resumed_text(id: Seq<char>, messages: nat) -> Seq<char> {
    "Resumed session "@ + id + " ("@ + decimal_of(messages) + " messages)"@
}

/// The line that announces a resumed session.
pub fn resumed_line(id: &str, messages: usize) -> (r: String)
    ensures
        r@ == resumed_text(id@, messages as nat),
{
    let mut r: String = own("Resumed session ");
    r.append(id);
    r.append(" (");
    r.append(decimal(messages as u64).as_str());
    r.append(" messages)");
    r
}

/// Announces a resumed session on standard output, with a blank line: the last thing printed before the
/// interface.
pub fn announce_resume(id: &str, messages: usize, io: &mut Streams)
    ensures
        final(io).stdout@ == old(io).stdout@ + resumed_text(id@, messages as nat) + "\n\n"@,
        final(io).stderr == old(io).stderr,
{
    io.stdout.append(resumed_line(id, messages).as_str());
    io.stdout.append("\n\n");
}

/// What a new session is made with.
pub struct NewSession {
    pub kind: ProviderKind,
    pub model: String,
    pub temperature: Option<Double>,
    pub base_url: String,
    pub cwd: String,
    /// Whether it belongs to the project it was started in.
    pub project: bool,
    pub agent: String,
}

impl NewSession {
    /// A copy.
    pub fn copy(&self) -> (r: NewSession)
        ensures
            r == *self,
    {
        NewSession {
            kind: self.kind,
            model: self.model.clone(),
            temperature: self.temperature,
            base_url: self.base_url.clone(),
            cwd: self.cwd.clone(),
            project: self.project,
            agent: self.agent.clone(),
        }
    }
}

/// What becomes of the session of a run.
pub enum SessionPlan {
    /// The one that was resumed goes on.
    Resumed,
    /// A new one is created now.
    CreateNow(NewSession),
    /// A new one is created when the user asks for it.
    CreateLater(NewSession),
}

/// Where a session says it was started: the project's root when it belongs to a project, else the working
/// directory.
pub open spec fn session_cwd(scope: Option<String>, cwd: Option<String>) -> Seq<char> {
    match scope {
        Some(root) => root@,
        None => match cwd {
            Some(dir) => dir@,
            None => Seq::empty(),
        },
    }
}

/// Whether a new session is made with what the settings say; `live` is the temperature that the provider runs
/// with.
pub open spec fn is_new(
    s: NewSession,
    settings: SettingsView,
    kind: ProviderKind,
    model: Seq<char>,
    temperature: Option<Double>,
    cwd: Seq<char>,
) -> bool {
    &&& s.kind == kind
    &&& s.model@ == model
    &&& s.temperature == temperature
    &&& s.base_url@ == settings.base_url
    &&& s.cwd@ == cwd
    &&& s.project == settings.agent_mode
    &&& s.agent@ == settings.resolved.agent_name
}

/// The directories and the live provider that a plan depends on.
pub struct Live {
    /// The project root in agent mode, else `None`.
    pub scope: Option<String>,
    /// The working directory.
    pub cwd: Option<String>,
    /// The model the provider runs.
    pub model: String,
    /// The temperature it runs with, when it can be tuned and has one.
    pub temperature: Option<Double>,
}

/// Whether a plan is the one for the session of a run.
pub open spec fn is_plan(
    r: SessionPlan,
    resumed: bool,
    ephemeral: bool,
    settings: SettingsView,
    kind: ProviderKind,
    live: Live,
) -> bool {
    if resumed {
        r is Resumed
    } else if ephemeral {
        r matches SessionPlan::CreateLater(s) && is_new(
            s,
            settings,
            kind,
            live.model@,
            if live.temperature is Some {
                live.temperature
            } else {
                settings.temperature
            },
            session_cwd(live.scope, live.cwd),
        )
    } else {
        r matches SessionPlan::CreateNow(s) && is_new(
            s,
            settings,
            kind,
            live.model@,
            settings.temperature,
            session_cwd(live.scope, live.cwd),
        )
    }
}

/// The plan for the session of a run. A fresh run creates its session at once; an ephemeral one defers it, with
/// the temperature the provider is actually running with.
pub fn session_plan(
    resumed: bool,
    ephemeral: bool,
    settings: &RunSettings,
    kind: ProviderKind,
    live: &Live,
) -> (r: SessionPlan)
    ensures
        is_plan(r, resumed, ephemeral, settings@, kind, *live),
{
    if resumed {
        return SessionPlan::Resumed;
    }
    let cwd: String = match &live.scope {
        Some(root) => root.clone(),
        None => match &live.cwd {
            Some(dir) => dir.clone(),
            None => String::new(),
        },
    };
    assert(cwd@ =~= session_cwd(live.scope, live.cwd));
    let temperature: Option<Double> = if ephemeral && live.temperature.is_some() {
        live.temperature
    } else {
        settings.temperature
    };
    let s = NewSession {
        kind,
        model: live.model.clone(),
        temperature,
        base_url: settings.base_url.clone(),
        cwd,
        project: settings.agent_mode,
        agent: settings.resolved.agent_name.clone(),
    };
    if ephemeral {
        SessionPlan::CreateLater(s)
    } else {
        SessionPlan::CreateNow(s)
    }
}

// ---------------------------------------------------------------- the parameters

impl Resolved {
    /// The `context_window:` that applies, or `None` when neither layer wrote one.
    pub fn window_decl(&self) -> (r: Option<WindowDecl>)
        ensures
            match r {
                Some(w) => window_of(self@.agent, self@.model) == Some((w.raw@, w.label@)),
                None => window_of(self@.agent, self@.model) is None,
            },
    {
        Declared::window_decl(&self.agent, &self.model)
    }

    /// What the two config layers declare; `window` is the `context_window:` parsed.
    pub fn declared(&self, window: Option<u64>) -> (r: Declared)
        ensures
            r@ == declarations(self@.agent, self@.model, window),
    {
        Declared::of(&self.agent, &self.model, window)
    }
}

/// The declared window in tokens, or what is wrong with it: its label, and the case of the error.
pub enum WindowCase {
    Undeclared,
    Empty(Seq<char>),
    NotANumber(Seq<char>, Seq<char>),
    OutOfRange(Seq<char>),
    Tokens(u64),
}

/// The declared window of a run; `read` is what reading and scaling its number gave.
pub open spec fn window_case(r: ResolvedView, read: Option<WindowValue>) -> WindowCase {
    match window_of(r.agent, r.model) {
        None => WindowCase::Undeclared,
        Some((raw, label)) => match size_parts(raw) {
            None => WindowCase::Empty(label),
            Some((_, text)) => match counted(read) {
                None => WindowCase::NotANumber(label, text),
                Some(d) => if is_size(d) {
                    WindowCase::Tokens(tokens_in(d) as u64)
                } else {
                    WindowCase::OutOfRange(label)
                },
            },
        },
    }
}

/// The parameters that a run starts under, given its declared window: what a resumed session recorded under this
/// provider type comes back, and everything else is evaluated.
pub open spec fn start_params(
    r: ResolvedView,
    window: Option<u64>,
    kind: ProviderKind,
    meta: Option<SessionMeta>,
) -> ParamsView {
    let d = declarations(r.agent, r.model, window);
    match meta {
        Some(m) => resumed(d, m, m.provider@ == kind_name(kind)),
        None => evaluated(d, default_params()),
    }
}

/// The warning for a window on a provider that cannot count tokens.
pub open spec fn window_warning(tokens: u64, reports_usage: bool, kind: ProviderKind) -> Seq<char> {
    if tokens > 0 && !reports_usage {
        "Warning: context window does not apply to provider type "@ + kind_name(kind)
            + " (no token accounting)\n"@
    } else {
        Seq::empty()
    }
}

/// Warns of a window on a provider that cannot count tokens.
fn warn_window(tokens: u64, reports_usage: bool, kind: ProviderKind, io: &mut Streams)
    ensures
        final(io).stdout == old(io).stdout,
        final(io).stderr@ == old(io).stderr@ + window_warning(tokens, reports_usage, kind),
{
    if tokens > 0 && !reports_usage {
        let mut w: String = own("Warning: context window does not apply to provider type ");
        w.append(kind.as_str());
        w.append(" (no token accounting)\n");
        io.stderr.append(w.as_str());
    } else {
        assert(io.stderr@ + Seq::<char>::empty() =~= io.stderr@);
    }
}

/// The parameters that a run starts under. A window that does not parse aborts the run: at startup there is
/// nothing yet to keep going with, and the label says which layer wrote it.
pub fn resolve_params(
    r: &Resolved,
    read: Option<WindowValue>,
    kind: ProviderKind,
    reports_usage: bool,
    meta: Option<&SessionMeta>,
    io: &mut Streams,
) -> (p: Result<LayeredParams, CliError>)
    ensures
        final(io).stdout == old(io).stdout,
        p is Err ==> final(io).stderr == old(io).stderr,
        ({
            let m = match meta {
                Some(m) => Some(*m),
                None => None,
            };
            let good = |window: Option<u64>|
                {
                    &&& p matches Ok(v) && v@ == start_params(r@, window, kind, m)
                    &&& final(io).stderr@ == old(io).stderr@ + window_warning(
                        start_params(r@, window, kind, m).context_window.value,
                        reports_usage,
                        kind,
                    )
                };
            match window_case(r@, read) {
                WindowCase::Undeclared => good(None),
                WindowCase::Tokens(n) => good(Some(n)),
                WindowCase::Empty(l) => p matches Err(
                    CliError::Setup(SetupError::ContextWindow { label, source }),
                ) && label@ == l && source is Empty,
                WindowCase::NotANumber(l, t) => p matches Err(
                    CliError::Setup(SetupError::ContextWindow { label, source }),
                ) && label@ == l && (source matches WindowSizeError::NotANumber(x) && x@ == t),
                WindowCase::OutOfRange(l) => p matches Err(
                    CliError::Setup(SetupError::ContextWindow { label, source }),
                ) && label@ == l && source is OutOfRange,
            }
        }),
{
    let window: Option<u64> = match r.window_decl() {
        None => None,
        Some(decl) => match parse_window_size(decl.raw.as_str(), read) {
            Ok(n) => Some(n),
            Err(source) => {
                return Err(
                    CliError::Setup(
                        SetupError::ContextWindow { label: own(decl.label), source },
                    ),
                );
            },
        },
    };
    let declared: Declared = r.declared(window);
    let params: LayeredParams = match meta {
        Some(m) => declared.resume(m, same(m.provider.as_str(), kind.as_str())),
        None => declared.evaluate(&LayeredParams::default()),
    };
    warn_window(params.context_window.value, reports_usage, kind, io);
    Ok(params)
}

/// The window that a session alone or the model's own declaration gives, without layers: what the session
/// recorded, else what is declared, else none.
pub fn resolve_context_window(
    session_window: Option<u64>,
    raw: &str,
    read: Option<WindowValue>,
    reports_usage: bool,
    kind: ProviderKind,
    io: &mut Streams,
) -> (r: Result<u64, CliError>)
    ensures
        final(io).stdout == old(io).stdout,
        r is Err ==> final(io).stderr == old(io).stderr,
        r matches Ok(n) ==> final(io).stderr@ == old(io).stderr@ + window_warning(
            n,
            reports_usage,
            kind,
        ),
        match session_window {
            Some(w) if w > 0 => r matches Ok(n) && n == w,
            _ => if raw@.len() == 0 {
                r matches Ok(n) && n == 0
            } else {
                match (size_parts(raw@), counted(read)) {
                    (Some(_), Some(d)) if is_size(d) => r matches Ok(n) && n == tokens_in(d),
                    (parts, _) => r matches Err(
                        CliError::Setup(SetupError::ContextWindow { label, source }),
                    ) && label@ == MODEL_WINDOW_LABEL@ && match (parts, counted(read)) {
                        (None, _) => source is Empty,
                        (Some((_, text)), None) => source matches WindowSizeError::NotANumber(x)
                            && x@ == text,
                        (Some(_), Some(_)) => source is OutOfRange,
                    },
                }
            },
        },
{
    let recorded: u64 = match session_window {
        Some(w) => w,
        None => 0,
    };
    let window: u64 = if recorded > 0 {
        recorded
    } else if raw.is_empty() {
        0
    } else {
        match parse_window_size(raw, read) {
            Ok(n) => n,
            Err(source) => {
                return Err(
                    CliError::Setup(
                        SetupError::ContextWindow { label: own(MODEL_WINDOW_LABEL), source },
                    ),
                );
            },
        }
    };
    warn_window(window, reports_usage, kind, io);
    Ok(window)
}

/// A resumed session whose record is complete runs under what it recorded, whatever the config has come to say.
pub proof fn resumed_params_ignore_the_config(
    a: ResolvedView,
    b: ResolvedView,
    wa: Option<u64>,
    wb: Option<u64>,
    kind: ProviderKind,
    meta: SessionMeta,
)
    requires
        meta.provider@ == kind_name(kind),
        meta.param_sources is Some,
    ensures
        start_params(a, wa, kind, Some(meta)) == start_params(b, wb, kind, Some(meta)),
{
}

// ---------------------------------------------------------------- the titles

/// What the provider that writes the titles is made with: an instance of its own, because a title is written
/// while a turn is still streaming. A provider that paints gets none.
pub struct TitleProvider {
    pub kind: ProviderKind,
    pub api_key: String,
    pub base_url: String,
    pub model: String,
    pub temperature: Option<Double>,
}

impl TitleProvider {
    /// A copy.
    pub fn copy(&self) -> (r: TitleProvider)
        ensures
            r == *self,
    {
        TitleProvider {
            kind: self.kind,
            api_key: self.api_key.clone(),
            base_url: self.base_url.clone(),
            model: self.model.clone(),
            temperature: self.temperature,
        }
    }
}

/// Whether the titles are written with what the settings say, or not at all.
pub open spec fn is_title(
    r: Option<TitleProvider>,
    settings: SettingsView,
    kind: ProviderKind,
    paints: bool,
) -> bool {
    if paints {
        r is None
    } else {
        r matches Some(t) && t.kind == kind && t.api_key@ == settings.api_key && t.base_url@
            == settings.base_url && t.model@ == settings.model && t.temperature
            == settings.temperature
    }
}

/// What the provider that writes the titles is made with.
pub fn title_provider(settings: &RunSettings, kind: ProviderKind, paints: bool) -> (r: Option<
    TitleProvider,
>)
    ensures
        is_title(r, settings@, kind, paints),
{
    if paints {
        return None;
    }
    Some(
        TitleProvider {
            kind,
            api_key: settings.api_key.clone(),
            base_url: settings.base_url.clone(),
            model: settings.model.clone(),
            temperature: settings.temperature,
        },
    )
}

// ---------------------------------------------------------------- the rest of the wiring

/// What the outside says of the live run.
pub struct WireFacts {
    /// What reading and scaling the number of the declared window gave.
    pub window: Option<WindowValue>,
    /// Whether the provider counts tokens.
    pub reports_usage: bool,
    /// Whether the provider paints.
    pub paints: bool,
    /// How many built-in tools there are.
    pub builtin_tools: usize,
    /// Whether there are MCP servers.
    pub connected: bool,
    /// The deferred groups.
    pub defers: Vec<DeferredGroup>,
}

/// What a chat starts with, beside its session.
pub struct Wiring {
    /// The parameters it starts under.
    pub params: LayeredParams,
    /// What a switch of the model evaluates them against.
    pub layers: ParamLayers,
    /// The parts its tools come from.
    pub parts: Parts,
    /// What the provider that writes the titles is made with.
    pub title: Option<TitleProvider>,
}

/// Cautions, each on a line.
pub open spec fn caution_lines(v: Seq<Seq<char>>) -> Seq<char>
    decreases v.len(),
{
    if v.len() == 0 {
        Seq::empty()
    } else {
        caution_lines(v.drop_last()) + ("⚠ "@ + v.last() + "\n"@)
    }
}

/// Prints cautions.
fn print_cautions(v: &Vec<String>, io: &mut Streams)
    ensures
        final(io).stdout == old(io).stdout,
        final(io).stderr@ == old(io).stderr@ + caution_lines(strs(v@)),
{
    let ghost all = strs(v@);
    let ghost was = io.stderr@;
    assert(all.take(0) =~= Seq::<Seq<char>>::empty());
    assert(was + caution_lines(all.take(0)) =~= was);
    for i in 0..v.len()
        invariant
            all == strs(v@),
            io.stdout == old(io).stdout,
            io.stderr@ == was + caution_lines(all.take(i as int)),
    {
        io.caution(v[i].as_str());
        proof {
            assert(all[i as int] == v@[i as int]@);
            assert(all.take(i + 1).drop_last() =~= all.take(i as int));
            assert(io.stderr@ =~= was + caution_lines(all.take(i + 1)));
        }
    }
    assert(all.take(all.len() as int) =~= all);
}

/// The cautions of the assembly of the parts.
pub open spec fn part_cautions(
    settings: SettingsView,
    kind: ProviderKind,
    catalog: Catalog,
    facts: WireFacts,
) -> Seq<char> {
    caution_lines(
        parts_warning(
            settings.resolved.model.defer_mode,
            kind,
            catalog,
            facts.connected,
            facts.defers@.len(),
        ),
    )
}

/// Whether a wiring is what the settings and a window come to.
pub open spec fn is_wired(
    w: Wiring,
    cfg: ConfigView,
    settings: SettingsView,
    kind: ProviderKind,
    catalog: Catalog,
    meta: Option<SessionMeta>,
    window: Option<u64>,
    facts: WireFacts,
) -> bool {
    &&& w.params@ == start_params(settings.resolved, window, kind, meta)
    &&& w.layers@ == (LayersView {
        agent: settings.resolved.agent,
        provider: settings.resolved.provider_name,
        models: all_anchored(cfg.models),
        defer_mode: mode_of(settings.resolved.model),
    })
    &&& w.parts.builtin == (facts.builtin_tools > 0)
    &&& w.parts.mcp == mount_of(
        settings.resolved.model.defer_mode,
        kind,
        catalog,
        facts.connected,
        facts.defers@.len(),
    )
    &&& is_title(w.title, settings, kind, facts.paints)
}

/// Whether `r` is what the settings and the facts of the live run come to, with `said` on standard error.
pub open spec fn comes_to_wiring(
    cfg: ConfigView,
    settings: SettingsView,
    kind: ProviderKind,
    catalog: Catalog,
    meta: Option<SessionMeta>,
    facts: WireFacts,
    r: Result<Wiring, CliError>,
    said: Seq<char>,
) -> bool {
    let good = |window: Option<u64>|
        {
            &&& r matches Ok(w) && is_wired(w, cfg, settings, kind, catalog, meta, window, facts)
            &&& said == window_warning(
                start_params(settings.resolved, window, kind, meta).context_window.value,
                facts.reports_usage,
                kind,
            ) + part_cautions(settings, kind, catalog, facts)
        };
    match window_case(settings.resolved, facts.window) {
        WindowCase::Undeclared => good(None),
        WindowCase::Tokens(n) => good(Some(n)),
        WindowCase::Empty(l) => said.len() == 0 && (r matches Err(
            CliError::Setup(SetupError::ContextWindow { label, source }),
        ) && label@ == l && source is Empty),
        WindowCase::NotANumber(l, t) => said.len() == 0 && (r matches Err(
            CliError::Setup(SetupError::ContextWindow { label, source }),
        ) && label@ == l && (source matches WindowSizeError::NotANumber(x) && x@ == t)),
        WindowCase::OutOfRange(l) => said.len() == 0 && (r matches Err(
            CliError::Setup(SetupError::ContextWindow { label, source }),
        ) && label@ == l && source is OutOfRange),
    }
}

/// What was appended to a text.
pub open spec fn added(before: Seq<char>, after: Seq<char>) -> Seq<char> {
    after.skip(before.len() as int)
}

/// Wires what is left once the session is decided: the parameters, which can still fail; the parts of the tools;
/// and the titles. All of it while the terminal is still the shell's.
pub fn finish_wiring(
    cfg: &Config,
    settings: &RunSettings,
    kind: ProviderKind,
    catalog: &Catalog,
    meta: Option<&SessionMeta>,
    facts: &WireFacts,
    io: &mut Streams,
) -> (r: Result<Wiring, CliError>)
    ensures
        final(io).stdout == old(io).stdout,
        final(io).stderr@ == old(io).stderr@ + added(old(io).stderr@, final(io).stderr@),
        comes_to_wiring(
            cfg@,
            settings@,
            kind,
            *catalog,
            match meta {
                Some(m) => Some(*m),
                None => None,
            },
            *facts,
            r,
            added(old(io).stderr@, final(io).stderr@),
        ),
{
    let params: LayeredParams = match resolve_params(
        &settings.resolved,
        facts.window,
        kind,
        facts.reports_usage,
        meta,
        io,
    ) {
        Ok(p) => p,
        Err(e) => {
            assert(added(old(io).stderr@, io.stderr@) =~= Seq::<char>::empty());
            assert(io.stderr@ =~= old(io).stderr@ + added(old(io).stderr@, io.stderr@));
            return Err(e);
        },
    };
    let ghost warned = added(old(io).stderr@, io.stderr@);
    let ghost was = io.stderr@;
    assert(warned =~= window_warning(params@.context_window.value, facts.reports_usage, kind));
    let mut said: Vec<String> = Vec::new();
    let parts: Parts = build_dispatcher(
        settings.resolved.model.defer_mode.as_str(),
        kind,
        catalog,
        facts.builtin_tools,
        facts.connected,
        &facts.defers,
        &mut said,
    );
    assert(strs(said@) =~= parts_warning(
        settings@.resolved.model.defer_mode,
        kind,
        *catalog,
        facts.connected,
        facts.defers@.len(),
    ));
    print_cautions(&said, io);
    assert(io.stderr@ =~= old(io).stderr@ + (warned + part_cautions(settings@, kind, *catalog, *facts)));
    assert(added(old(io).stderr@, io.stderr@) =~= warned + part_cautions(
        settings@,
        kind,
        *catalog,
        *facts,
    ));
    let title: Option<TitleProvider> = title_provider(settings, kind, facts.paints);
    let layers: ParamLayers = ParamLayers::new(cfg, &settings.resolved);
    Ok(Wiring { params, layers, parts, title })
}

} // verus!
