//! Host integration: the terminal or terminal multiplexer the chat runs inside is told what the conversation is
//! doing, through capabilities a host may or may not have. The [`Presenter`] hands one call to the FIRST host
//! that has the capability, drops repeated states, and gates pings on a switch.
//!
//! The innermost host is exclusive: of the detected hosts only the first is kept, herdr before cmux, because a
//! pane inherits the environment of the program that spawned it.

use vstd::prelude::*;

pub mod ansi;
pub mod background;
pub mod cmux;
pub mod herdr;
pub mod laws;

use crate::app::env::{Env, EnvView};
use crate::host::ansi::{calls, progress, AnsiHost, UiView};
use crate::host::cmux::{detect_cmux, final_batch, state_batch, surface_in, waiting, CmuxHost, CMUX_NAME};
use crate::host::herdr::{
    detect_herdr, facts, inside_herdr, is_pane_host, lifecycle_of, pane_facts, posted, released, HerdrHost,
    ReportView, HERDR_NAME,
};
use crate::text::{own, strs};

verus! {

/// What the conversation is doing.
#[derive(Clone, Copy, Debug, PartialEq, Eq, Structural)]
pub enum State {
    /// Waiting for the user.
    Idle,
    /// A turn is running.
    Busy,
    /// Blocked on the user mid-turn.
    NeedsInput,
    /// The turn failed.
    Error,
}

/// Why the user is being pinged.
#[derive(Clone, Copy, Debug, PartialEq, Eq, Structural)]
pub enum Kind {
    /// The turn is blocked on the user.
    NeedsInput,
    /// The reply landed.
    Done,
    /// The turn failed.
    Failed,
}

/// One attention ping.
pub struct Event {
    /// Why.
    pub kind: Kind,
    /// The banner text.
    pub text: String,
}

/// The capabilities of a host.
#[derive(Clone, Copy, Debug, PartialEq, Eq, Structural)]
pub struct Caps {
    /// Shows states.
    pub state: bool,
    /// Pings the user.
    pub notify: bool,
    /// Knows the background.
    pub background: bool,
    /// Cleans up on exit.
    pub close: bool,
    /// Is told the session.
    pub session: bool,
    /// Tells the model where it runs.
    pub environment: bool,
}

impl Default for Caps {
    /// None.
    fn default() -> (r: Caps)
        ensures
            r == no_caps(),
    {
        Caps {
            state: false,
            notify: false,
            background: false,
            close: false,
            session: false,
            environment: false,
        }
    }
}

/// No capability.
pub open spec fn no_caps() -> Caps {
    Caps {
        state: false,
        notify: false,
        background: false,
        close: false,
        session: false,
        environment: false,
    }
}

/// Shows the conversation's state.
pub trait StateReporter: Sized {
    /// What showing `s` makes of a host.
    spec fn state_shown(pre: Self, s: State, post: Self) -> bool;

    /// Shows `s`.
    fn set_state(&mut self, s: State)
        ensures
            Self::state_shown(*old(self), s, *final(self)),
    ;
}

/// Pings the user.
pub trait Notifier: Sized {
    /// What a ping makes of a host.
    spec fn pinged(pre: Self, e: Event, post: Self) -> bool;

    /// Shows `e`.
    fn notify(&mut self, e: &Event)
        ensures
            Self::pinged(*old(self), *e, *final(self)),
    ;
}

/// Knows whether the terminal background is dark.
pub trait BackgroundReporter: Sized {
    /// What the host knows.
    spec fn tone(&self) -> Option<bool>;

    /// `Some(dark)` when the host knows.
    fn dark_background(&self) -> (r: Option<bool>)
        ensures
            r == self.tone(),
    ;
}

/// Cleans up on exit.
pub trait Closer: Sized {
    /// What closing makes of a host.
    spec fn closed_up(pre: Self, post: Self) -> bool;

    /// Clears whatever the host shows for this chat.
    fn close(&mut self)
        ensures
            Self::closed_up(*old(self), *final(self)),
    ;
}

/// Is told which session the chat persists into.
pub trait SessionReporter: Sized {
    /// What the report makes of a host.
    spec fn session_told(pre: Self, id: Seq<char>, path: Seq<char>, post: Self) -> bool;

    /// Records session `id`, whose bundle is the directory `path`.
    fn report_session(&mut self, id: &str, path: &str)
        ensures
            Self::session_told(*old(self), id@, path@, *final(self)),
    ;
}

/// Tells the model where it runs.
pub trait EnvironmentContributor: Sized {
    /// The facts.
    spec fn told_facts(&self) -> Seq<(Seq<char>, Seq<char>)>;

    /// `(key, value)` pairs, each printed as one line.
    fn environment(&self) -> (r: Vec<(String, String)>)
        ensures
            facts(r@) == self.told_facts(),
    ;
}

/// A host the chat runs inside; every capability is optional, and a method of one it lacks is never called.
pub trait Host:
    StateReporter + Notifier + BackgroundReporter + Closer + SessionReporter + EnvironmentContributor {
    /// The name.
    spec fn name_view(&self) -> Seq<char>;

    /// The capabilities.
    spec fn caps_view(&self) -> Caps;

    /// A host keeps its capabilities when it is shown a state.
    proof fn showing_keeps_caps(pre: Self, s: State, post: Self)
        requires
            Self::state_shown(pre, s, post),
        ensures
            post.caps_view() == pre.caps_view(),
    ;

    /// The host's name.
    fn name(&self) -> (r: String)
        ensures
            r@ == self.name_view(),
    ;

    /// The host's capabilities.
    fn caps(&self) -> (r: Caps)
        ensures
            r == self.caps_view(),
    ;
}

/// What the detectors read: the run's environment, and where cmux was found on the path.
pub struct Probe {
    /// The run's environment.
    pub env: Env,
    /// The path of cmux; `None` when it was not found.
    pub cmux_path: Option<String>,
}

// ---------------------------------------------------------------- hosts

/// A host that keeps what it was told.
pub struct RecordingHost {
    /// Its name.
    pub name: String,
    /// The capabilities it advertises.
    pub caps: Caps,
    /// The states it was shown.
    pub states: Vec<State>,
    /// The pings it was sent.
    pub events: Vec<Event>,
    /// The sessions it was told.
    pub sessions: Vec<(String, String)>,
    /// Whether it was closed.
    pub closed: bool,
    /// What it tells the model.
    pub env: Vec<(String, String)>,
    /// What it knows of the background.
    pub dark: Option<bool>,
}

impl RecordingHost {
    /// A host that was told nothing.
    pub fn new(name: &str, caps: Caps) -> (r: RecordingHost)
        ensures
            r.name@ == name@,
            r.caps == caps,
            r.states@.len() == 0,
            r.events@.len() == 0,
            r.sessions@.len() == 0,
            !r.closed,
            r.env@.len() == 0,
            r.dark is None,
    {
        RecordingHost {
            name: own(name),
            caps,
            states: Vec::new(),
            events: Vec::new(),
            sessions: Vec::new(),
            closed: false,
            env: Vec::new(),
            dark: None,
        }
    }
}

/// Any of the hosts.
pub enum AnyHost {
    /// The herdr multiplexer.
    Herdr(HerdrHost),
    /// The cmux multiplexer; it knows the background once it was asked.
    Cmux(CmuxHost, Option<bool>),
    /// The plain terminal.
    Terminal(AnsiHost),
    /// A host that keeps what it was told.
    Recording(RecordingHost),
}

/// A copy of a list of facts.
fn copy_facts(v: &Vec<(String, String)>) -> (r: Vec<(String, String)>)
    ensures
        facts(r@) == facts(v@),
{
    let mut r: Vec<(String, String)> = Vec::new();
    for i in 0..v.len()
        invariant
            r@.len() == i,
            forall|k: int|
                0 <= k < i ==> (#[trigger] r@[k]).0@ == v@[k].0@ && r@[k].1@ == v@[k].1@,
    {
        r.push((v[i].0.clone(), v[i].1.clone()));
    }
    assert(facts(r@) =~= facts(v@));
    r
}

impl StateReporter for AnyHost {
    open spec fn state_shown(pre: AnyHost, s: State, post: AnyHost) -> bool {
        match (pre, post) {
            (AnyHost::Herdr(a), AnyHost::Herdr(b)) => b@ == posted(
                a@,
                ReportView::State(lifecycle_of(s)),
            ) && b.pane == a.pane,
            (AnyHost::Cmux(a, x), AnyHost::Cmux(b, y)) => {
                &&& x == y
                &&& waiting(b.mailbox) == if a.closed {
                    waiting(a.mailbox)
                } else {
                    Some(state_batch(s))
                }
                &&& b.closed == a.closed
                &&& b.surface == a.surface
                &&& b.program == a.program
            },
            (AnyHost::Terminal(a), AnyHost::Terminal(b)) => calls(b.pending@) == calls(
                a.pending@,
            ).push(UiView::Progress(progress(s))),
            (AnyHost::Recording(a), AnyHost::Recording(b)) => b == (RecordingHost {
                states: b.states,
                ..a
            }) && b.states@ == a.states@.push(s),
            _ => false,
        }
    }

    fn set_state(&mut self, s: State) {
        match self {
            AnyHost::Herdr(h) => h.set_state(s),
            AnyHost::Cmux(h, _) => h.set_state(s),
            AnyHost::Terminal(h) => h.set_state(s),
            AnyHost::Recording(h) => h.states.push(s),
        }
    }
}

impl Notifier for AnyHost {
    open spec fn pinged(pre: AnyHost, e: Event, post: AnyHost) -> bool {
        match (pre, post) {
            (AnyHost::Terminal(a), AnyHost::Terminal(b)) => calls(b.pending@) == calls(
                a.pending@,
            ).push(UiView::Notify(e.text@)),
            (AnyHost::Recording(a), AnyHost::Recording(b)) => {
                &&& b == (RecordingHost { events: b.events, ..a })
                &&& b.events@.len() == a.events@.len() + 1
                &&& b.events@.drop_last() == a.events@
                &&& b.events@.last() == e
            },
            (a, b) => a == b,
        }
    }

    fn notify(&mut self, e: &Event) {
        match self {
            AnyHost::Terminal(h) => h.notify(e),
            AnyHost::Recording(h) => {
                let ghost was = h.events@;
                h.events.push(Event { kind: e.kind, text: e.text.clone() });
                assert(h.events@.drop_last() =~= was);
            },
            _ => {},
        }
    }
}

impl BackgroundReporter for AnyHost {
    open spec fn tone(&self) -> Option<bool> {
        match *self {
            AnyHost::Cmux(_, dark) => dark,
            AnyHost::Recording(h) => h.dark,
            _ => None,
        }
    }

    fn dark_background(&self) -> (r: Option<bool>) {
        match self {
            AnyHost::Cmux(_, dark) => *dark,
            AnyHost::Recording(h) => h.dark,
            _ => None,
        }
    }
}

impl Closer for AnyHost {
    open spec fn closed_up(pre: AnyHost, post: AnyHost) -> bool {
        match (pre, post) {
            (AnyHost::Herdr(a), AnyHost::Herdr(b)) => b@ == released(a@) && b.pane == a.pane,
            (AnyHost::Cmux(a, x), AnyHost::Cmux(b, y)) => {
                &&& x == y
                &&& waiting(b.mailbox) == if a.closed {
                    waiting(a.mailbox)
                } else {
                    Some(final_batch())
                }
                &&& b.closed
                &&& b.surface == a.surface
                &&& b.program == a.program
            },
            (AnyHost::Recording(a), AnyHost::Recording(b)) => b == (RecordingHost {
                closed: true,
                ..a
            }),
            (a, b) => a == b,
        }
    }

    fn close(&mut self) {
        match self {
            AnyHost::Herdr(h) => h.close(),
            AnyHost::Cmux(h, _) => h.close(),
            AnyHost::Terminal(_) => {},
            AnyHost::Recording(h) => h.closed = true,
        }
    }
}

impl SessionReporter for AnyHost {
    open spec fn session_told(pre: AnyHost, id: Seq<char>, path: Seq<char>, post: AnyHost) -> bool {
        match (pre, post) {
            (AnyHost::Herdr(a), AnyHost::Herdr(b)) => b@ == posted(
                a@,
                ReportView::Session(id, path),
            ) && b.pane == a.pane,
            (AnyHost::Recording(a), AnyHost::Recording(b)) => b == (RecordingHost {
                sessions: b.sessions,
                ..a
            }) && facts(b.sessions@) == facts(a.sessions@).push((id, path)),
            (a, b) => a == b,
        }
    }

    fn report_session(&mut self, id: &str, path: &str) {
        match self {
            AnyHost::Herdr(h) => h.report_session(id, path),
            AnyHost::Recording(h) => {
                let ghost was = facts(h.sessions@);
                h.sessions.push((own(id), own(path)));
                assert(facts(h.sessions@) =~= was.push((id@, path@)));
            },
            _ => {},
        }
    }
}

impl EnvironmentContributor for AnyHost {
    open spec fn told_facts(&self) -> Seq<(Seq<char>, Seq<char>)> {
        match *self {
            AnyHost::Herdr(h) => pane_facts(h.pane),
            AnyHost::Recording(h) => facts(h.env@),
            _ => Seq::empty(),
        }
    }

    fn environment(&self) -> (r: Vec<(String, String)>) {
        match self {
            AnyHost::Herdr(h) => h.environment(),
            AnyHost::Recording(h) => copy_facts(&h.env),
            _ => {
                let none: Vec<(String, String)> = Vec::new();
                assert(facts(none@) =~= Seq::<(Seq<char>, Seq<char>)>::empty());
                none
            },
        }
    }
}

impl Host for AnyHost {
    open spec fn name_view(&self) -> Seq<char> {
        match *self {
            AnyHost::Herdr(_) => HERDR_NAME@,
            AnyHost::Cmux(_, _) => CMUX_NAME@,
            AnyHost::Terminal(_) => "terminal"@,
            AnyHost::Recording(h) => h.name@,
        }
    }

    open spec fn caps_view(&self) -> Caps {
        match *self {
            AnyHost::Herdr(_) => Caps {
                state: true,
                close: true,
                session: true,
                environment: true,
                ..no_caps()
            },
            AnyHost::Cmux(_, _) => Caps {
                state: true,
                background: true,
                close: true,
                ..no_caps()
            },
            AnyHost::Terminal(_) => Caps { state: true, notify: true, ..no_caps() },
            AnyHost::Recording(h) => h.caps,
        }
    }

    proof fn showing_keeps_caps(pre: AnyHost, s: State, post: AnyHost) {
    }

    fn name(&self) -> (r: String) {
        match self {
            AnyHost::Herdr(h) => own(h.name()),
            AnyHost::Cmux(h, _) => own(h.name()),
            AnyHost::Terminal(h) => own(h.name()),
            AnyHost::Recording(h) => h.name.clone(),
        }
    }

    fn caps(&self) -> (r: Caps) {
        let mut c: Caps = Caps::default();
        match self {
            AnyHost::Herdr(_) => {
                c.state = true;
                c.close = true;
                c.session = true;
                c.environment = true;
            },
            AnyHost::Cmux(_, _) => {
                c.state = true;
                c.background = true;
                c.close = true;
            },
            AnyHost::Terminal(_) => {
                c.state = true;
                c.notify = true;
            },
            AnyHost::Recording(h) => {
                c = h.caps;
            },
        }
        c
    }
}

// ---------------------------------------------------------------- the presenter

/// One capability.
#[derive(Clone, Copy, Debug, PartialEq, Eq, Structural)]
pub enum Cap {
    State,
    Notify,
    Background,
    Close,
    Session,
    Environment,
}

/// Whether a capability is among the others.
pub open spec fn has_cap(caps: Caps, c: Cap) -> bool {
    match c {
        Cap::State => caps.state,
        Cap::Notify => caps.notify,
        Cap::Background => caps.background,
        Cap::Close => caps.close,
        Cap::Session => caps.session,
        Cap::Environment => caps.environment,
    }
}

/// Whether a capability is among the others.
fn offers(caps: Caps, c: Cap) -> (r: bool)
    ensures
        r == has_cap(caps, c),
{
    match c {
        Cap::State => caps.state,
        Cap::Notify => caps.notify,
        Cap::Background => caps.background,
        Cap::Close => caps.close,
        Cap::Session => caps.session,
        Cap::Environment => caps.environment,
    }
}

/// The first host from `i` on that has a capability; the number of hosts when none has.
pub open spec fn first_with<H: Host>(hosts: Seq<H>, c: Cap, i: int) -> int
    decreases hosts.len() - i,
{
    if i < 0 || i >= hosts.len() {
        hosts.len() as int
    } else if has_cap(hosts[i].caps_view(), c) {
        i
    } else {
        first_with(hosts, c, i + 1)
    }
}

/// Whether two lists of hosts are the same but for the host at `i`.
pub open spec fn same_but<H: Host>(before: Seq<H>, after: Seq<H>, i: int) -> bool {
    &&& after.len() == before.len()
    &&& forall|k: int| 0 <= k < before.len() && k != i ==> after[k] == before[k]
}

/// What showing a state makes of a presenter: the first host that shows states is shown it, unless it was shown
/// last.
pub open spec fn state_set<H: Host>(pre: Presenter<H>, s: State, post: Presenter<H>) -> bool {
    let i = first_with(pre.hosts@, Cap::State, 0);
    &&& post.state == s
    &&& post.notify_on == pre.notify_on
    &&& if pre.state == s || i == pre.hosts@.len() {
        post.hosts@ == pre.hosts@
    } else {
        same_but(pre.hosts@, post.hosts@, i) && H::state_shown(pre.hosts@[i], s, post.hosts@[i])
    }
}

/// What the first `n` hosts tell the model, in host order.
pub open spec fn gathered<H: Host>(hosts: Seq<H>, n: int) -> Seq<(Seq<char>, Seq<char>)>
    decreases n,
{
    if n <= 0 || n > hosts.len() {
        Seq::empty()
    } else if hosts[n - 1].caps_view().environment {
        gathered(hosts, n - 1) + hosts[n - 1].told_facts()
    } else {
        gathered(hosts, n - 1)
    }
}

/// The names of the closing hosts from the last down to `n`, in the order they are closed.
pub open spec fn closing_names<H: Host>(hosts: Seq<H>, n: int) -> Seq<Seq<char>>
    decreases hosts.len() - n,
{
    if n < 0 || n >= hosts.len() {
        Seq::empty()
    } else if hosts[n].caps_view().close {
        closing_names(hosts, n + 1).push(hosts[n].name_view())
    } else {
        closing_names(hosts, n + 1)
    }
}

/// What the first host from `i` on that knows says of the background.
pub open spec fn known_tone<H: Host>(hosts: Seq<H>, i: int) -> Option<bool>
    decreases hosts.len() - i,
{
    if i < 0 || i >= hosts.len() {
        None
    } else if hosts[i].caps_view().background && hosts[i].tone() is Some {
        hosts[i].tone()
    } else {
        known_tone(hosts, i + 1)
    }
}

/// Hands the conversation's signals to the hosts.
pub struct Presenter<H: Host> {
    /// The hosts, innermost first.
    pub hosts: Vec<H>,
    /// Whether pings are sent.
    pub notify_on: bool,
    /// The state that was shown last.
    pub state: State,
}

impl<H: Host> Presenter<H> {
    /// A presenter over a list of hosts.
    pub fn with_hosts(hosts: Vec<H>, notify: bool) -> (r: Presenter<H>)
        ensures
            r.hosts == hosts,
            r.notify_on == notify,
            r.state == State::Idle,
    {
        Presenter { hosts, notify_on: notify, state: State::Idle }
    }

    /// The first host that has a capability.
    fn first(&self, c: Cap) -> (r: Option<usize>)
        ensures
            match r {
                Some(i) => first_with(self.hosts@, c, 0) == i && i < self.hosts@.len(),
                None => first_with(self.hosts@, c, 0) == self.hosts@.len(),
            },
    {
        let mut i: usize = 0;
        while i < self.hosts.len()
            invariant
                i <= self.hosts.len(),
                first_with(self.hosts@, c, 0) == first_with(self.hosts@, c, i as int),
            decreases self.hosts.len() - i,
        {
            if offers(self.hosts[i].caps(), c) {
                return Some(i);
            }
            i += 1;
        }
        None
    }

    /// Shows `s` on the first host that shows states; a repeated state is not shown again.
    pub fn set_state(&mut self, s: State)
        ensures
            state_set(*old(self), s, *final(self)),
    {
        if self.state == s {
            return ;
        }
        self.state = s;
        if let Some(i) = self.first(Cap::State) {
            self.hosts[i].set_state(s);
        }
    }

    /// Pings the first host that pings, unless pings are switched off.
    pub fn notify(&mut self, e: Event)
        ensures
            final(self).state == old(self).state,
            final(self).notify_on == old(self).notify_on,
            ({
                let i = first_with(old(self).hosts@, Cap::Notify, 0);
                if !old(self).notify_on || i == old(self).hosts@.len() {
                    final(self).hosts@ == old(self).hosts@
                } else {
                    same_but(old(self).hosts@, final(self).hosts@, i) && H::pinged(
                        old(self).hosts@[i],
                        e,
                        final(self).hosts@[i],
                    )
                }
            }),
    {
        if !self.notify_on {
            return ;
        }
        if let Some(i) = self.first(Cap::Notify) {
            self.hosts[i].notify(&e);
        }
    }

    /// Tells the first host that is told sessions which one the chat persists into.
    pub fn set_session(&mut self, id: &str, path: &str)
        ensures
            final(self).state == old(self).state,
            final(self).notify_on == old(self).notify_on,
            ({
                let i = first_with(old(self).hosts@, Cap::Session, 0);
                if i == old(self).hosts@.len() {
                    final(self).hosts@ == old(self).hosts@
                } else {
                    same_but(old(self).hosts@, final(self).hosts@, i) && H::session_told(
                        old(self).hosts@[i],
                        id@,
                        path@,
                        final(self).hosts@[i],
                    )
                }
            }),
    {
        if let Some(i) = self.first(Cap::Session) {
            self.hosts[i].report_session(id, path);
        }
    }

    /// What EVERY host tells the model, in host order.
    pub fn environment(&self) -> (r: Vec<(String, String)>)
        ensures
            facts(r@) == gathered(self.hosts@, self.hosts@.len() as int),
    {
        let mut out: Vec<(String, String)> = Vec::new();
        assert(facts(out@) =~= Seq::<(Seq<char>, Seq<char>)>::empty());
        for i in 0..self.hosts.len()
            invariant
                facts(out@) == gathered(self.hosts@, i as int),
        {
            if self.hosts[i].caps().environment {
                let ghost was = facts(out@);
                let mut more: Vec<(String, String)> = self.hosts[i].environment();
                let ghost told = facts(more@);
                out.append(&mut more);
                assert(facts(out@) =~= was + told);
            }
        }
        out
    }

    /// Closes every host that cleans up, last host first; gives their names in that order.
    pub fn close(&mut self) -> (r: Vec<String>)
        ensures
            strs(r@) == closing_names(old(self).hosts@, 0),
            final(self).state == old(self).state,
            final(self).notify_on == old(self).notify_on,
            final(self).hosts@.len() == old(self).hosts@.len(),
            forall|i: int|
                0 <= i < old(self).hosts@.len() ==> {
                    if (#[trigger] old(self).hosts@[i]).caps_view().close {
                        H::closed_up(old(self).hosts@[i], final(self).hosts@[i])
                    } else {
                        final(self).hosts@[i] == old(self).hosts@[i]
                    }
                },
    {
        let mut names: Vec<String> = Vec::new();
        let mut n: usize = self.hosts.len();
        assert(strs(names@) =~= Seq::<Seq<char>>::empty());
        let ghost before = self.hosts@;
        while n > 0
            invariant
                n <= self.hosts@.len() == before.len(),
                before == old(self).hosts@,
                strs(names@) == closing_names(before, n as int),
                self.state == old(self).state,
                self.notify_on == old(self).notify_on,
                forall|i: int| 0 <= i < n ==> self.hosts@[i] == before[i],
                forall|i: int|
                    n <= i < before.len() ==> {
                        if (#[trigger] before[i]).caps_view().close {
                            H::closed_up(before[i], self.hosts@[i])
                        } else {
                            self.hosts@[i] == before[i]
                        }
                    },
            decreases n,
        {
            n -= 1;
            if self.hosts[n].caps().close {
                let ghost was = strs(names@);
                let name: String = self.hosts[n].name();
                names.push(name);
                assert(strs(names@) =~= was.push(name@));
                self.hosts[n].close();
            }
        }
        names
    }

    /// What the first host that knows says of the background.
    pub fn dark_background(&self) -> (r: Option<bool>)
        ensures
            r == known_tone(self.hosts@, 0),
    {
        let mut i: usize = 0;
        while i < self.hosts.len()
            invariant
                i <= self.hosts.len(),
                known_tone(self.hosts@, 0) == known_tone(self.hosts@, i as int),
            decreases self.hosts.len() - i,
        {
            if self.hosts[i].caps().background {
                if let Some(dark) = self.hosts[i].dark_background() {
                    return Some(dark);
                }
            }
            i += 1;
        }
        None
    }

    /// The hosts' names, in order.
    pub fn host_names(&self) -> (r: Vec<String>)
        ensures
            strs(r@) == Seq::new(self.hosts@.len(), |i: int| self.hosts@[i].name_view()),
    {
        let mut names: Vec<String> = Vec::new();
        for i in 0..self.hosts.len()
            invariant
                names@.len() == i,
                forall|k: int|
                    0 <= k < i ==> (#[trigger] names@[k])@ == self.hosts@[k].name_view(),
        {
            names.push(self.hosts[i].name());
        }
        assert(strs(names@) =~= Seq::new(self.hosts@.len(), |i: int| self.hosts@[i].name_view()));
        names
    }
}

/// Whether cmux is to be looked up at all: only when the environment is inside it and not inside herdr.
pub open spec fn looks_for_cmux(env: EnvView, sockets: bool) -> bool {
    !inside_herdr(env, sockets) && surface_in(env) is Some
}

/// Whether cmux is to be looked up at all.
pub fn wants_cmux(env: &Env, sockets: bool) -> (r: bool)
    ensures
        r == looks_for_cmux(env@, sockets),
{
    detect_herdr(env, sockets, 0).is_none() && env.var(crate::host::cmux::CMUX_ENV).is_some()
}

/// A fallback host as a list.
pub open spec fn fallback_list(fallback: Option<AnyHost>) -> Seq<AnyHost> {
    match fallback {
        Some(h) => seq![h],
        None => Seq::empty(),
    }
}

impl Presenter<AnyHost> {
    /// The innermost host that the environment shows, and no other, then the fallback.
    pub fn new(
        probe: &Probe,
        sockets: bool,
        first_seq: u64,
        fallback: Option<AnyHost>,
        notify: bool,
    ) -> (r: Presenter<AnyHost>)
        ensures
            r.notify_on == notify,
            r.state == State::Idle,
            if inside_herdr(probe.env@, sockets) {
                &&& r.hosts@.len() == 1 + fallback_list(fallback).len()
                &&& r.hosts@[0] matches AnyHost::Herdr(h) && is_pane_host(h, probe.env@, first_seq)
                &&& r.hosts@.skip(1) == fallback_list(fallback)
            } else if surface_in(probe.env@) is Some && probe.cmux_path is Some {
                &&& r.hosts@.len() == 1 + fallback_list(fallback).len()
                &&& r.hosts@[0] matches AnyHost::Cmux(h, dark) && surface_in(probe.env@) == Some(
                    h.surface@,
                ) && probe.cmux_path->0@ == h.program@ && h.mailbox is None && !h.closed
                    && dark is None
                &&& r.hosts@.skip(1) == fallback_list(fallback)
            } else {
                r.hosts@ == fallback_list(fallback)
            },
    {
        let mut hosts: Vec<AnyHost> = Vec::new();
        match detect_herdr(&probe.env, sockets, first_seq) {
            Some(h) => hosts.push(AnyHost::Herdr(h)),
            None => {
                if let Some(h) = detect_cmux(&probe.env, probe.cmux_path.clone()) {
                    hosts.push(AnyHost::Cmux(h, None));
                }
            },
        }
        let ghost found = hosts@;
        if let Some(f) = fallback {
            hosts.push(f);
        }
        assert(hosts@ =~= found + fallback_list(fallback));
        assert(found.len() == 1 ==> hosts@.skip(1) =~= fallback_list(fallback));
        Presenter::with_hosts(hosts, notify)
    }
}

/// A chat inside both multiplexers talks to herdr alone: cmux is neither looked up nor among the hosts.
pub proof fn innermost_host_is_exclusive(env: EnvView, sockets: bool)
    requires
        inside_herdr(env, sockets),
    ensures
        !looks_for_cmux(env, sockets),
{
}

// ---------------------------------------------------------------- states, one after the other

/// The state before the `k`th of a run of states: idle before the first.
pub open spec fn state_before(states: Seq<State>, k: int) -> State {
    if k <= 0 {
        State::Idle
    } else {
        states[k - 1]
    }
}

/// Whether presenters follow each other by showing states, the first of them fresh.
pub open spec fn is_run<H: Host>(p: Seq<Presenter<H>>, states: Seq<State>) -> bool {
    &&& p.len() == states.len() + 1
    &&& p[0].state == State::Idle
    &&& forall|k: int|
        0 <= k < states.len() ==> #[trigger] state_set(p[k], states[k], p[k + 1])
}

/// The first host with a capability is at a place, or there is none.
proof fn first_with_bounds<H: Host>(hosts: Seq<H>, c: Cap, i: int)
    requires
        0 <= i <= hosts.len(),
    ensures
        i <= first_with(hosts, c, i) <= hosts.len(),
    decreases hosts.len() - i,
{
    if i < hosts.len() && !has_cap(hosts[i].caps_view(), c) {
        first_with_bounds(hosts, c, i + 1);
    }
}

/// Hosts with the same capabilities have the same first one.
proof fn same_first<H: Host>(a: Seq<H>, b: Seq<H>, c: Cap, i: int)
    requires
        a.len() == b.len(),
        forall|k: int| 0 <= k < a.len() ==> (#[trigger] a[k]).caps_view() == b[k].caps_view(),
    ensures
        first_with(a, c, i) == first_with(b, c, i),
    decreases a.len() - i,
{
    if 0 <= i < a.len() {
        assert(a[i].caps_view() == b[i].caps_view());
        same_first(a, b, c, i + 1);
    }
}

/// Of a run of states the first host that shows states is shown exactly those that differ from the one before,
/// in order, and no other host is shown any; whether pings are sent changes nothing of it.
pub proof fn changes_reach_the_first_host<H: Host>(
    p: Seq<Presenter<H>>,
    states: Seq<State>,
    k: int,
)
    requires
        is_run(p, states),
        0 <= k < states.len(),
    ensures
        ({
            let at = first_with(p[0].hosts@, Cap::State, 0);
            &&& p[k].state == state_before(states, k)
            &&& p[k + 1].hosts@.len() == p[k].hosts@.len() == p[0].hosts@.len()
            &&& forall|h: int|
                0 <= h < p[0].hosts@.len() && h != at ==> #[trigger] p[k + 1].hosts@[h]
                    == p[0].hosts@[h]
            &&& at < p[0].hosts@.len() ==> if states[k] != state_before(states, k) {
                H::state_shown(p[k].hosts@[at], states[k], p[k + 1].hosts@[at])
            } else {
                p[k + 1].hosts@[at] == p[k].hosts@[at]
            }
        }),
{
    run_keeps_caps(p, states, k);
    first_with_bounds(p[0].hosts@, Cap::State, 0);
    same_first(p[0].hosts@, p[k].hosts@, Cap::State, 0);
    assert(state_set(p[k], states[k], p[k + 1]));
    let at = first_with(p[0].hosts@, Cap::State, 0);
    assert forall|h: int| 0 <= h < p[0].hosts@.len() && h != at implies #[trigger] p[k
        + 1].hosts@[h] == p[0].hosts@[h] by {
        assert(p[k + 1].hosts@[h] == p[k].hosts@[h]);
    }
}

/// The hosts of a run keep their capabilities, and all but the first that shows states are left alone.
proof fn run_keeps_caps<H: Host>(p: Seq<Presenter<H>>, states: Seq<State>, k: int)
    requires
        is_run(p, states),
        0 <= k <= states.len(),
    ensures
        p[k].state == state_before(states, k),
        p[k].hosts@.len() == p[0].hosts@.len(),
        forall|h: int|
            0 <= h < p[0].hosts@.len() ==> (#[trigger] p[0].hosts@[h]).caps_view()
                == p[k].hosts@[h].caps_view(),
        forall|h: int|
            0 <= h < p[0].hosts@.len() && h != first_with(p[0].hosts@, Cap::State, 0)
                ==> #[trigger] p[k].hosts@[h] == p[0].hosts@[h],
    decreases k,
{
    if k > 0 {
        run_keeps_caps(p, states, k - 1);
        same_first(p[0].hosts@, p[k - 1].hosts@, Cap::State, 0);
        first_with_bounds(p[0].hosts@, Cap::State, 0);
        let at = first_with(p[0].hosts@, Cap::State, 0);
        assert(state_set(p[k - 1], states[k - 1], p[k - 1 + 1]));
        if p[k - 1].state != states[k - 1] && at < p[0].hosts@.len() {
            H::showing_keeps_caps(p[k - 1].hosts@[at], states[k - 1], p[k].hosts@[at]);
        }
        assert forall|h: int| 0 <= h < p[0].hosts@.len() implies (#[trigger] p[0].hosts@[h]).caps_view()
            == p[k].hosts@[h].caps_view() by {
            if h != at {
                assert(p[k].hosts@[h] == p[k - 1].hosts@[h]);
            }
        }
        assert forall|h: int| 0 <= h < p[0].hosts@.len() && h != at implies #[trigger] p[k].hosts@[h]
            == p[0].hosts@[h] by {
            assert(p[k].hosts@[h] == p[k - 1].hosts@[h]);
        }
    }
}

} // verus!
