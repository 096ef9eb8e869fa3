//! The session of a chat from end to end: which one is resumed, what is replayed of it and announced, whether a
//! new one is created now or later; and then the parameters and the titles.
//!
//! All of it happens while the terminal is still the shell's, and every step can still end the run.

use vstd::prelude::*;
use vstd::string::*;

use crate::cmd::error::{CliError, SetupError};
use crate::cmd::interactive::wire::{
    added, announce_resume, comes_to_wiring, finish_wiring, is_plan, resume_target, resumed_text,
    session_plan, Live, NewSession, SessionPlan, TitleProvider, WireFacts, Wiring,
};
use crate::cmd::io::Streams;
use crate::cmd::resolve::RunSettings;
use crate::cmd::run::{model_overridden, session_agent_exists};
use crate::config::Config;
use crate::provider::{Catalog, ProviderKind};
use crate::session::SessionMeta;

verus! {

/// What a wiring is made for.
pub struct WireContext<'a> {
    pub cfg: &'a Config,
    pub settings: &'a RunSettings,
    pub kind: ProviderKind,
    pub catalog: &'a Catalog,
}

/// What is to be done next.
pub enum WireAction {
    /// Resolve the id that a resume was given.
    ResolveId(String),
    /// Resume the session with this id.
    Resume(String),
    /// Replay what the session recorded onto the provider: all of it, but for a model that the run names itself;
    /// and say so when the agent it ran under is gone.
    Replay {
        overrides_model: bool,
        agent_exists: bool,
    },
    /// Create a session.
    Create(NewSession),
    /// Ask what holds of the live run.
    Survey,
    /// Make the provider that writes the titles.
    MakeTitles(TitleProvider),
    /// The wiring is over.
    Finished(Result<Wired, CliError>),
}

/// What an action gave.
pub enum WireEvent {
    /// The id in full, or the text of the failure.
    Resolved(Result<String, String>),
    /// The session, or the text of the failure.
    Resumed(Result<Bundle, String>),
    Replayed,
    /// Whether the session was created, or the text of the failure.
    Created(Result<(), String>),
    Surveyed(WireFacts),
    /// Whether the provider was made, or the text of the failure.
    Titled(Result<(), String>),
}

/// A session that was resumed.
pub struct Bundle {
    pub meta: SessionMeta,
    /// How many messages it holds.
    pub messages: usize,
}

/// A chat that can start.
pub struct Wired {
    pub plan: SessionPlan,
    pub wiring: Wiring,
}

/// How far the wiring is.
pub enum WireStage {
    Resolving,
    Resuming {
        id: String,
    },
    Replaying {
        id: String,
        bundle: Bundle,
    },
    Creating,
    Surveying {
        meta: Option<SessionMeta>,
    },
    Titling {
        wiring: Wiring,
    },
    Over,
}

/// Whether an event is the answer that a stage waits for.
pub open spec fn awaits(s: WireStage, e: WireEvent) -> bool {
    match s {
        WireStage::Resolving => e is Resolved,
        WireStage::Resuming { .. } => e is Resumed,
        WireStage::Replaying { .. } => e is Replayed,
        WireStage::Creating => e is Created,
        WireStage::Surveying { .. } => e is Surveyed,
        WireStage::Titling { .. } => e is Titled,
        WireStage::Over => false,
    }
}

/// Whether a wiring ends with a failure to find a session to resume.
pub open spec fn ends_without_session(s: WireStage, a: WireAction) -> bool {
    s is Over && (a matches WireAction::Finished(Err(CliError::Setup(SetupError::NoSessionToResume))))
}

/// Whether a wiring goes on to resume the session `id`, or ends because there is no id.
pub open spec fn resumes(id: Seq<char>, s: WireStage, a: WireAction) -> bool {
    if id.len() == 0 {
        ends_without_session(s, a)
    } else {
        &&& s matches WireStage::Resuming { id: i } && i@ == id
        &&& a matches WireAction::Resume(i) && i@ == id
    }
}

/// How a wiring begins: a resume with an id resolves it; one that was picked goes by the id that was picked, and
/// ends at once when none was; a fresh run creates its session, and an ephemeral one does not.
pub open spec fn begins_with(
    resume: Option<Option<String>>,
    picked: Option<String>,
    plan: SessionPlan,
    s: WireStage,
    a: WireAction,
) -> bool {
    match resume {
        Some(Some(fragment)) => s is Resolving && (a matches WireAction::ResolveId(f) && f@
            == fragment@),
        Some(None) => resumes(
            match picked {
                Some(id) => id@,
                None => Seq::empty(),
            },
            s,
            a,
        ),
        None => match plan {
            SessionPlan::CreateNow(n) => s is Creating && a == WireAction::Create(n),
            _ => s == (WireStage::Surveying { meta: None }) && a is Survey,
        },
    }
}

/// What follows an answer: the next stage and action, and what is said on standard output and standard error.
pub open spec fn leads_to(
    ctx: WireContext<'_>,
    plan: SessionPlan,
    before: WireStage,
    e: WireEvent,
    s: WireStage,
    a: WireAction,
    out: Seq<char>,
    err: Seq<char>,
) -> bool {
    match (before, e) {
        (WireStage::Resolving, WireEvent::Resolved(r)) => out.len() == 0 && err.len() == 0
            && match r {
            Ok(id) => resumes(id@, s, a),
            Err(text) => s is Over && (a matches WireAction::Finished(
                Err(CliError::Setup(SetupError::Session(m))),
            ) && m@ == text@),
        },
        (WireStage::Resuming { id }, WireEvent::Resumed(r)) => out.len() == 0 && err.len() == 0
            && match r {
            Ok(bundle) => s == (WireStage::Replaying { id, bundle }) && a == (WireAction::Replay {
                overrides_model: ctx.settings@.model.len() > 0,
                agent_exists: ctx.cfg@.agents.contains_key(bundle.meta.agent@),
            }),
            Err(text) => s is Over && a == WireAction::Finished(
                Err(CliError::Setup(SetupError::Session(text))),
            ),
        },
        (WireStage::Replaying { id, bundle }, WireEvent::Replayed) => {
            &&& s == (WireStage::Surveying { meta: Some(bundle.meta) })
            &&& a is Survey
            &&& out == resumed_text(id@, bundle.messages as nat) + "\n\n"@
            &&& err.len() == 0
        },
        (WireStage::Creating, WireEvent::Created(r)) => out.len() == 0 && err.len() == 0 && match r {
            Ok(_) => s == (WireStage::Surveying { meta: None }) && a is Survey,
            Err(text) => s is Over && a == WireAction::Finished(
                Err(CliError::Setup(SetupError::CreateSession(text))),
            ),
        },
        (WireStage::Surveying { meta }, WireEvent::Surveyed(facts)) => {
            let wired = |r: Result<Wiring, CliError>|
                comes_to_wiring(
                    ctx.cfg@,
                    ctx.settings@,
                    ctx.kind,
                    *ctx.catalog,
                    meta,
                    facts,
                    r,
                    err,
                );
            out.len() == 0 && match a {
                WireAction::MakeTitles(t) => (s matches WireStage::Titling { wiring }
                    && wiring.title == Some(t) && wired(Ok(wiring))),
                WireAction::Finished(Ok(w)) => s is Over && w.plan == plan && w.wiring.title is None
                    && wired(Ok(w.wiring)),
                WireAction::Finished(Err(x)) => s is Over && wired(Err(x)),
                _ => false,
            }
        },
        (WireStage::Titling { wiring }, WireEvent::Titled(r)) => out.len() == 0 && err.len() == 0
            && s is Over && match r {
            Ok(_) => a == WireAction::Finished(Ok(Wired { plan, wiring })),
            Err(text) => a == WireAction::Finished(
                Err(CliError::Setup(SetupError::Provider(text))),
            ),
        },
        _ => false,
    }
}

/// The wiring of a session.
pub struct SessionWiring {
    plan: SessionPlan,
    stage: WireStage,
}

impl SessionWiring {
    /// What becomes of the session.
    pub closed spec fn plan(&self) -> SessionPlan {
        self.plan
    }

    /// How far the wiring is.
    pub closed spec fn at(&self) -> WireStage {
        self.stage
    }

    /// Begins the wiring of a run. `resume` is `None` for a fresh run, and else the id that was given, if any;
    /// `picked` is the id that was picked.
    pub fn begin(
        settings: &RunSettings,
        kind: ProviderKind,
        resume: &Option<Option<String>>,
        ephemeral: bool,
        picked: &Option<String>,
        live: &Live,
    ) -> (r: (SessionWiring, WireAction))
        ensures
            is_plan(r.0.plan(), *resume is Some, ephemeral, settings@, kind, *live),
            begins_with(*resume, *picked, r.0.plan(), r.0.at(), r.1),
    {
        let plan: SessionPlan = session_plan(resume.is_some(), ephemeral, settings, kind, live);
        match resume {
            Some(Some(fragment)) => (
                SessionWiring { plan, stage: WireStage::Resolving },
                WireAction::ResolveId(fragment.clone()),
            ),
            Some(None) => resuming(plan, resume_target(&None, Err(String::new()), picked)),
            None => match &plan {
                SessionPlan::CreateNow(n) => {
                    let action = WireAction::Create(n.copy());
                    (SessionWiring { plan, stage: WireStage::Creating }, action)
                },
                _ => (
                    SessionWiring { plan, stage: WireStage::Surveying { meta: None } },
                    WireAction::Survey,
                ),
            },
        }
    }

    /// Takes the answer to the last action and says what is next. A session that was resumed is announced on
    /// standard output once it is replayed; what the wiring has to warn of goes to standard error.
    pub fn wire_session(self, ctx: &WireContext<'_>, event: WireEvent, io: &mut Streams) -> (r: (
        SessionWiring,
        WireAction,
    ))
        requires
            awaits(self.at(), event),
        ensures
            r.0.plan() == self.plan(),
            final(io).stdout@ == old(io).stdout@ + added(old(io).stdout@, final(io).stdout@),
            final(io).stderr@ == old(io).stderr@ + added(old(io).stderr@, final(io).stderr@),
            leads_to(
                *ctx,
                self.plan(),
                self.at(),
                event,
                r.0.at(),
                r.1,
                added(old(io).stdout@, final(io).stdout@),
                added(old(io).stderr@, final(io).stderr@),
            ),
    {
        let plan: SessionPlan = self.plan;
        proof {
            nothing_added(io.stdout@);
            nothing_added(io.stderr@);
        }
        match (self.stage, event) {
            (WireStage::Resolving, WireEvent::Resolved(r)) => resuming(
                plan,
                resume_target(&Some(String::new()), r, &None),
            ),
            (WireStage::Resuming { id }, WireEvent::Resumed(r)) => match r {
                Ok(bundle) => {
                    let action = WireAction::Replay {
                        overrides_model: model_overridden(ctx.settings),
                        agent_exists: session_agent_exists(ctx.cfg, &bundle.meta),
                    };
                    (SessionWiring { plan, stage: WireStage::Replaying { id, bundle } }, action)
                },
                Err(text) => failed(plan, SetupError::Session(text)),
            },
            (WireStage::Replaying { id, bundle }, WireEvent::Replayed) => {
                announce_resume(id.as_str(), bundle.messages, io);
                proof {
                    let line = resumed_text(id@, bundle.messages as nat) + "\n\n"@;
                    assert(io.stdout@ =~= old(io).stdout@ + line);
                    assert(added(old(io).stdout@, io.stdout@) =~= line);
                }
                (
                    SessionWiring { plan, stage: WireStage::Surveying { meta: Some(bundle.meta) } },
                    WireAction::Survey,
                )
            },
            (WireStage::Creating, WireEvent::Created(r)) => match r {
                Ok(_) => (
                    SessionWiring { plan, stage: WireStage::Surveying { meta: None } },
                    WireAction::Survey,
                ),
                Err(text) => failed(plan, SetupError::CreateSession(text)),
            },
            (WireStage::Surveying { meta }, WireEvent::Surveyed(facts)) => {
                let known: Option<&SessionMeta> = match &meta {
                    Some(m) => Some(m),
                    None => None,
                };
                match finish_wiring(
                    ctx.cfg,
                    ctx.settings,
                    ctx.kind,
                    ctx.catalog,
                    known,
                    &facts,
                    io,
                ) {
                    Err(e) => (
                        SessionWiring { plan, stage: WireStage::Over },
                        WireAction::Finished(Err(e)),
                    ),
                    Ok(wiring) => match &wiring.title {
                        Some(t) => {
                            let action = WireAction::MakeTitles(t.copy());
                            (SessionWiring { plan, stage: WireStage::Titling { wiring } }, action)
                        },
                        None => over(plan, wiring),
                    },
                }
            },
            (WireStage::Titling { wiring }, WireEvent::Titled(r)) => match r {
                Ok(_) => over(plan, wiring),
                Err(text) => failed(plan, SetupError::Provider(text)),
            },
            (stage, _) => (SessionWiring { plan, stage }, WireAction::Survey),
        }
    }
}

/// Nothing was appended to a text that stayed.
proof fn nothing_added(s: Seq<char>)
    ensures
        added(s, s).len() == 0,
        s == s + added(s, s),
{
    assert(s =~= s + added(s, s));
}

/// Goes on to resume a session, or ends.
fn resuming(plan: SessionPlan, target: Result<String, CliError>) -> (r: (SessionWiring, WireAction))
    ensures
        r.0.plan() == plan,
        match target {
            Ok(id) => {
                &&& r.0.at() matches WireStage::Resuming { id: i } && i@ == id@
                &&& r.1 matches WireAction::Resume(i) && i@ == id@
            },
            Err(e) => r.0.at() is Over && r.1 == WireAction::Finished(Err(e)),
        },
{
    match target {
        Ok(id) => {
            let action = WireAction::Resume(id.clone());
            (SessionWiring { plan, stage: WireStage::Resuming { id } }, action)
        },
        Err(e) => (SessionWiring { plan, stage: WireStage::Over }, WireAction::Finished(Err(e))),
    }
}

/// Ends with a failure.
fn failed(plan: SessionPlan, e: SetupError) -> (r: (SessionWiring, WireAction))
    ensures
        r.0.plan() == plan,
        r.0.at() is Over,
        r.1 == WireAction::Finished(Err(CliError::Setup(e))),
{
    (SessionWiring { plan, stage: WireStage::Over }, WireAction::Finished(Err(CliError::Setup(e))))
}

/// Ends with a chat that can start; the plan goes with it.
fn over(plan: SessionPlan, wiring: Wiring) -> (r: (SessionWiring, WireAction))
    ensures
        r.0.plan() == plan,
        r.0.at() is Over,
        r.1 == WireAction::Finished(Ok(Wired { plan, wiring })),
{
    let kept: SessionPlan = match &plan {
        SessionPlan::Resumed => SessionPlan::Resumed,
        SessionPlan::CreateNow(n) => SessionPlan::CreateNow(n.copy()),
        SessionPlan::CreateLater(n) => SessionPlan::CreateLater(n.copy()),
    };
    (
        SessionWiring { plan: kept, stage: WireStage::Over },
        WireAction::Finished(Ok(Wired { plan, wiring })),
    )
}

// ---------------------------------------------------------------- laws

/// A wiring as it went: the stages and the actions from the first on, and the answers between them.
pub struct WireTrace {
    pub stages: Seq<WireStage>,
    pub actions: Seq<WireAction>,
    pub events: Seq<WireEvent>,
}

/// Whether a wiring can have gone this way.
pub open spec fn is_trace(
    ctx: WireContext<'_>,
    resume: Option<Option<String>>,
    picked: Option<String>,
    plan: SessionPlan,
    t: WireTrace,
) -> bool {
    &&& t.stages.len() == t.actions.len() == t.events.len() + 1
    &&& begins_with(resume, picked, plan, t.stages[0], t.actions[0])
    &&& forall|i: int|
        #![trigger t.events[i]]
        0 <= i < t.events.len() ==> exists|out: Seq<char>, err: Seq<char>| #[trigger]
            leads_to(
                ctx,
                plan,
                t.stages[i],
                t.events[i],
                t.stages[i + 1],
                t.actions[i + 1],
                out,
                err,
            )
}

/// The place of an action in the order of a wiring.
pub open spec fn place_of(a: WireAction) -> int {
    match a {
        WireAction::ResolveId(_) => 0,
        WireAction::Resume(_) => 1,
        WireAction::Replay { .. } => 2,
        WireAction::Create(_) => 3,
        WireAction::Survey => 4,
        WireAction::MakeTitles(_) => 5,
        WireAction::Finished(_) => 6,
    }
}

/// Whether a stage waits for the answer to an action.
spec fn waits_for(s: WireStage, a: WireAction) -> bool {
    match s {
        WireStage::Resolving => a is ResolveId,
        WireStage::Resuming { .. } => a is Resume,
        WireStage::Replaying { .. } => a is Replay,
        WireStage::Creating => a is Create,
        WireStage::Surveying { .. } => a is Survey,
        WireStage::Titling { .. } => a is MakeTitles,
        WireStage::Over => a is Finished,
    }
}

/// Every stage of a wiring waits for the answer to the last action; it came by the one before it.
proof fn stages_wait(
    ctx: WireContext<'_>,
    resume: Option<Option<String>>,
    picked: Option<String>,
    plan: SessionPlan,
    t: WireTrace,
    i: int,
)
    requires
        is_trace(ctx, resume, picked, plan, t),
        0 <= i < t.actions.len(),
    ensures
        waits_for(t.stages[i], t.actions[i]),
        t.actions[i] matches WireAction::Finished(Ok(w)) ==> w.plan == plan,
        t.stages[i] is Creating ==> resume is None && plan is CreateNow,
    decreases i,
{
    if i > 0 {
        stages_wait(ctx, resume, picked, plan, t, i - 1);
        let e = t.events[i - 1];
        let (out, err) = choose|out: Seq<char>, err: Seq<char>| #[trigger]
            leads_to(ctx, plan, t.stages[i - 1], e, t.stages[i], t.actions[i], out, err);
        assert(leads_to(ctx, plan, t.stages[i - 1], e, t.stages[i], t.actions[i], out, err));
    }
}

/// The order of a wiring: resolve, resume, replay, create, then the parameters, the titles and the end; no action
/// comes twice, and none after one that stands later in the order.
pub proof fn wiring_keeps_its_order(
    ctx: WireContext<'_>,
    resume: Option<Option<String>>,
    picked: Option<String>,
    plan: SessionPlan,
    t: WireTrace,
    i: int,
    j: int,
)
    requires
        is_trace(ctx, resume, picked, plan, t),
        0 <= i < j < t.actions.len(),
    ensures
        place_of(t.actions[i]) < place_of(t.actions[j]),
    decreases j,
{
    stages_wait(ctx, resume, picked, plan, t, j - 1);
    stages_wait(ctx, resume, picked, plan, t, j);
    let e = t.events[j - 1];
    let (out, err) = choose|out: Seq<char>, err: Seq<char>| #[trigger]
        leads_to(ctx, plan, t.stages[j - 1], e, t.stages[j], t.actions[j], out, err);
    assert(leads_to(ctx, plan, t.stages[j - 1], e, t.stages[j], t.actions[j], out, err));
    assert(place_of(t.actions[j - 1]) < place_of(t.actions[j]));
    if i < j - 1 {
        wiring_keeps_its_order(ctx, resume, picked, plan, t, i, j - 1);
    }
}

/// A chat that starts has its session made later if and only if it is ephemeral and resumes none; a session is
/// created on the way only where a fresh run is saved.
pub proof fn sessions_are_deferred_for_ephemeral_runs(
    ctx: WireContext<'_>,
    resume: Option<Option<String>>,
    picked: Option<String>,
    ephemeral: bool,
    live: Live,
    plan: SessionPlan,
    t: WireTrace,
)
    requires
        is_plan(plan, resume is Some, ephemeral, ctx.settings@, ctx.kind, live),
        is_trace(ctx, resume, picked, plan, t),
    ensures
        forall|i: int|
            0 <= i < t.actions.len() ==> (#[trigger] t.actions[i] is Create ==> resume is None
                && !ephemeral),
        t.actions.last() matches WireAction::Finished(Ok(w)) ==> (w.plan is CreateLater <==> ephemeral
            && resume is None) && (w.plan is Resumed <==> resume is Some),
{
    stages_wait(ctx, resume, picked, plan, t, t.actions.len() - 1);
    assert forall|i: int| 0 <= i < t.actions.len() && #[trigger] t.actions[i] is Create implies resume is None
        && !ephemeral by {
        stages_wait(ctx, resume, picked, plan, t, i);
    }
}

/// A resume without an id for which nothing was picked ends at once, before any action: nothing is resolved,
/// replayed or created.
pub proof fn nothing_to_resume_ends_at_once(
    ctx: WireContext<'_>,
    picked: Option<String>,
    plan: SessionPlan,
    t: WireTrace,
)
    requires
        picked matches Some(id) ==> id@.len() == 0,
        is_trace(ctx, Some(None), picked, plan, t),
    ensures
        t.actions.len() == 1,
        t.actions[0] matches WireAction::Finished(
            Err(CliError::Setup(SetupError::NoSessionToResume)),
        ),
{
    if t.events.len() > 0 {
        let e = t.events[0];
        let (out, err) = choose|out: Seq<char>, err: Seq<char>| #[trigger]
            leads_to(ctx, plan, t.stages[0], e, t.stages[1], t.actions[1], out, err);
        assert(leads_to(ctx, plan, t.stages[0], e, t.stages[1], t.actions[1], out, err));
        assert(false);
    }
}

} // verus!
