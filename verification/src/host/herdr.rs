//! The herdr host. herdr is a terminal multiplexer that is TOLD what the agent in a pane does: the conversation's
//! state becomes the pane's lifecycle, the session it writes into the pane's agent session, and the exit
//! releases the pane.
//!
//! The queue keeps order: a session report and the release are not states that a newer state may replace.

use vstd::prelude::*;
use vstd::string::*;

use crate::app::env::{var_of, Env, EnvView};
use crate::app::NAME;
use crate::host::State;
use crate::json::{
    buildable, entry_views, json_line_of, object_node, print, Json, JsonNode,
};
use crate::provider::opt_view;
use crate::text::{decimal, decimal_of, own, same, strs};

verus! {

/// The host's name.
pub const HERDR_NAME: &'static str = "herdr";

/// `1` means "inside herdr".
pub const HERDR_ENV: &'static str = "HERDR_ENV";

/// The pane the chat runs in.
pub const HERDR_PANE_ID: &'static str = "HERDR_PANE_ID";

/// The socket that takes the requests.
pub const HERDR_SOCKET_PATH: &'static str = "HERDR_SOCKET_PATH";

/// The program that takes them where there are no sockets.
pub const HERDR_BIN_PATH: &'static str = "HERDR_BIN_PATH";

/// The pane's workspace.
pub const HERDR_WORKSPACE_ID: &'static str = "HERDR_WORKSPACE_ID";

/// The pane's tab.
pub const HERDR_TAB_ID: &'static str = "HERDR_TAB_ID";

/// How long one request may take, in milliseconds.
pub const HERDR_TIMEOUT_MS: u64 = 500;

/// How long closing waits for the release, in milliseconds.
pub const HERDR_CLOSE_WAIT_MS: u64 = 2000;

/// Requests that may wait; one past this is dropped.
pub const HERDR_QUEUE: usize = 32;

/// What one request says.
pub enum Report {
    /// The lifecycle state.
    State(&'static str),
    /// The session the chat persists into.
    Session {
        /// The session id.
        id: String,
        /// The bundle directory.
        path: String,
    },
    /// The exit.
    Release,
}

/// What a [`Report`] says.
pub enum ReportView {
    State(Seq<char>),
    Session(Seq<char>, Seq<char>),
    Release,
}

impl View for Report {
    type V = ReportView;

    open spec fn view(&self) -> ReportView {
        match *self {
            Report::State(s) => ReportView::State(s@),
            Report::Session { id, path } => ReportView::Session(id@, path@),
            Report::Release => ReportView::Release,
        }
    }
}

/// One request: the pane, the sequence number and the report.
pub struct Request {
    /// The pane.
    pub pane: String,
    /// Rises with every request.
    pub seq: u64,
    /// What it says.
    pub report: Report,
}

/// What a [`Request`] says.
pub struct RequestView {
    pub pane: Seq<char>,
    pub seq: u64,
    pub report: ReportView,
}

impl View for Request {
    type V = RequestView;

    open spec fn view(&self) -> RequestView {
        RequestView { pane: self.pane@, seq: self.seq, report: self.report@ }
    }
}

/// The views of a list of requests.
pub open spec fn requests(v: Seq<Request>) -> Seq<RequestView> {
    Seq::new(v.len(), |i: int| v[i]@)
}

/// The method of a report.
pub open spec fn method_of(r: ReportView) -> Seq<char> {
    match r {
        ReportView::State(_) => "pane.report_agent"@,
        ReportView::Session(_, _) => "pane.report_agent_session"@,
        ReportView::Release => "pane.release_agent"@,
    }
}

/// The verb of a report on the command line.
pub open spec fn verb_of(r: ReportView) -> Seq<char> {
    match r {
        ReportView::State(_) => "report-agent"@,
        ReportView::Session(_, _) => "report-agent-session"@,
        ReportView::Release => "release-agent"@,
    }
}

/// The arguments that a report adds on the command line.
pub open spec fn report_args(r: ReportView) -> Seq<Seq<char>> {
    match r {
        ReportView::State(s) => seq!["--state"@, s],
        ReportView::Session(id, path) => seq![
            "--agent-session-id"@,
            id,
            "--agent-session-path"@,
            path,
        ],
        ReportView::Release => Seq::empty(),
    }
}

/// The command line of a request.
pub open spec fn argv_of(r: RequestView) -> Seq<Seq<char>> {
    seq![
        "pane"@,
        verb_of(r.report),
        r.pane,
        "--source"@,
        NAME@,
        "--agent"@,
        NAME@,
        "--seq"@,
        decimal_of(r.seq as nat),
    ] + report_args(r.report)
}

/// A text member of an object.
pub open spec fn text_member(key: Seq<char>, value: Seq<char>) -> (Seq<char>, JsonNode) {
    (key, JsonNode::Text(value))
}

/// The members that a report adds to its parameters.
pub open spec fn report_members(r: ReportView) -> Seq<(Seq<char>, JsonNode)> {
    match r {
        ReportView::State(s) => seq![text_member("state"@, s)],
        ReportView::Session(id, path) => seq![
            text_member("agent_session_id"@, id),
            text_member("agent_session_path"@, path),
        ],
        ReportView::Release => Seq::empty(),
    }
}

/// The parameters of a request.
pub open spec fn params_node(r: RequestView) -> JsonNode {
    object_node(
        seq![
            text_member("pane_id"@, r.pane),
            text_member("source"@, NAME@),
            text_member("agent"@, NAME@),
            ("seq"@, JsonNode::Number(decimal_of(r.seq as nat))),
        ] + report_members(r.report),
    )
}

/// The request as a JSON object: its id, its method and its parameters.
pub open spec fn request_node(r: RequestView) -> JsonNode {
    object_node(
        seq![
            text_member("id"@, NAME@ + ":"@ + decimal_of(r.seq as nat)),
            text_member("method"@, method_of(r.report)),
            ("params"@, params_node(r)),
        ],
    )
}

/// A text member of an object.
fn add_text(out: &mut Vec<(String, Json)>, key: &str, value: &str)
    requires
        forall|i: int| 0 <= i < old(out)@.len() ==> buildable((#[trigger] old(out)@[i]).1),
    ensures
        entry_views(final(out)@) == entry_views(old(out)@).push(text_member(key@, value@)),
        forall|i: int| 0 <= i < final(out)@.len() ==> buildable((#[trigger] final(out)@[i]).1),
{
    out.push((own(key), Json::Text(own(value))));
    assert(entry_views(out@) =~= entry_views(old(out)@).push(text_member(key@, value@)));
}

impl Request {
    /// The method.
    pub fn method(&self) -> (r: &'static str)
        ensures
            r@ == method_of(self@.report),
    {
        match &self.report {
            Report::State(_) => "pane.report_agent",
            Report::Session { .. } => "pane.report_agent_session",
            Report::Release => "pane.release_agent",
        }
    }

    /// The request id.
    pub fn id(&self) -> (r: String)
        ensures
            r@ == NAME@ + ":"@ + decimal_of(self@.seq as nat),
    {
        let mut r: String = own(NAME);
        r.append(":");
        r.append(decimal(self.seq).as_str());
        r
    }

    /// The parameters as a JSON object.
    fn params(&self) -> (r: Json)
        ensures
            r@ == params_node(self@),
            buildable(r),
    {
        let mut out: Vec<(String, Json)> = Vec::new();
        add_text(&mut out, "pane_id", self.pane.as_str());
        add_text(&mut out, "source", NAME);
        add_text(&mut out, "agent", NAME);
        let ghost three = entry_views(out@);
        out.push((own("seq"), Json::Count(self.seq)));
        let ghost seq_member = ("seq"@, JsonNode::Number(decimal_of(self.seq as nat)));
        assert(entry_views(out@) =~= three.push(seq_member));
        let ghost four = entry_views(out@);
        assert(four =~= seq![
            text_member("pane_id"@, self@.pane),
            text_member("source"@, NAME@),
            text_member("agent"@, NAME@),
            seq_member,
        ]);
        match &self.report {
            Report::State(s) => add_text(&mut out, "state", s),
            Report::Session { id, path } => {
                add_text(&mut out, "agent_session_id", id.as_str());
                add_text(&mut out, "agent_session_path", path.as_str());
            },
            Report::Release => {},
        }
        assert(entry_views(out@) =~= four + report_members(self@.report));
        assert forall|i: int| 0 <= i < out@.len() implies buildable((#[trigger] out@[i]).1) by {}
        Json::Object(out)
    }

    /// The request as one line of JSON, without its newline.
    pub fn json_line(&self) -> (r: String)
        ensures
            r@ == json_line_of(request_node(self@)),
    {
        let mut out: Vec<(String, Json)> = Vec::new();
        add_text(&mut out, "id", self.id().as_str());
        add_text(&mut out, "method", self.method());
        let ghost two = entry_views(out@);
        out.push((own("params"), self.params()));
        assert(entry_views(out@) =~= two.push(("params"@, params_node(self@))));
        assert(entry_views(out@) =~= seq![
            text_member("id"@, NAME@ + ":"@ + decimal_of(self@.seq as nat)),
            text_member("method"@, method_of(self@.report)),
            ("params"@, params_node(self@)),
        ]);
        print(&Json::Object(out))
    }

    /// The request as a command line.
    pub fn argv(&self) -> (r: Vec<String>)
        ensures
            strs(r@) == argv_of(self@),
    {
        let verb: &str = match &self.report {
            Report::State(_) => "report-agent",
            Report::Session { .. } => "report-agent-session",
            Report::Release => "release-agent",
        };
        let mut r: Vec<String> = Vec::new();
        r.push(own("pane"));
        r.push(own(verb));
        r.push(self.pane.clone());
        r.push(own("--source"));
        r.push(own(NAME));
        r.push(own("--agent"));
        r.push(own(NAME));
        r.push(own("--seq"));
        r.push(decimal(self.seq));
        match &self.report {
            Report::State(s) => {
                r.push(own("--state"));
                r.push(own(s));
            },
            Report::Session { id, path } => {
                r.push(own("--agent-session-id"));
                r.push(id.clone());
                r.push(own("--agent-session-path"));
                r.push(path.clone());
            },
            Report::Release => {},
        }
        assert(strs(r@) =~= argv_of(self@));
        r
    }
}

/// The lifecycle word of a state. `Error` is `idle`: the turn is over and the user may type.
pub open spec fn lifecycle_of(s: State) -> Seq<char> {
    match s {
        State::Busy => "working"@,
        State::NeedsInput => "blocked"@,
        State::Idle => "idle"@,
        State::Error => "idle"@,
    }
}

/// The lifecycle word of a state.
pub fn lifecycle(s: State) -> (r: &'static str)
    ensures
        r@ == lifecycle_of(s),
{
    match s {
        State::Busy => "working",
        State::NeedsInput => "blocked",
        State::Idle => "idle",
        State::Error => "idle",
    }
}

/// The pane's identity.
pub struct Pane {
    /// The pane.
    pub id: String,
    /// Its workspace, when known.
    pub workspace: Option<String>,
    /// Its tab, when known.
    pub tab: Option<String>,
}

/// One fact for the model, when its value is known.
pub open spec fn known_fact(key: Seq<char>, value: Option<String>) -> Seq<(Seq<char>, Seq<char>)> {
    match value {
        Some(v) => seq![(key, v@)],
        None => Seq::empty(),
    }
}

/// What the host tells the model: itself, the pane, and the workspace and the tab when they are known.
pub open spec fn pane_facts(p: Pane) -> Seq<(Seq<char>, Seq<char>)> {
    seq![("host"@, HERDR_NAME@), ("herdr pane"@, p.id@)] + known_fact(
        "herdr workspace"@,
        p.workspace,
    ) + known_fact("herdr tab"@, p.tab)
}

/// The views of a list of facts.
pub open spec fn facts(v: Seq<(String, String)>) -> Seq<(Seq<char>, Seq<char>)> {
    Seq::new(v.len(), |i: int| (v[i].0@, v[i].1@))
}

/// The herdr host: a bounded, ordered queue of numbered requests.
pub struct HerdrHost {
    /// The pane.
    pub pane: Pane,
    /// The next sequence number.
    pub seq: u64,
    /// The requests that wait, oldest first.
    pub queue: Vec<Request>,
    /// Whether the host was closed.
    pub closed: bool,
}

/// What a [`HerdrHost`] holds beside its pane.
pub struct HerdrView {
    pub pane: Seq<char>,
    pub seq: u64,
    pub queue: Seq<RequestView>,
    pub closed: bool,
}

impl View for HerdrHost {
    type V = HerdrView;

    open spec fn view(&self) -> HerdrView {
        HerdrView {
            pane: self.pane.id@,
            seq: self.seq,
            queue: requests(self.queue@),
            closed: self.closed,
        }
    }
}

/// The host after a report: it is numbered, and waits unless the queue is full or closed.
pub open spec fn posted(h: HerdrView, report: ReportView) -> HerdrView {
    HerdrView {
        seq: if h.seq == u64::MAX {
            0
        } else {
            (h.seq + 1) as u64
        },
        queue: if h.closed || h.queue.len() >= HERDR_QUEUE {
            h.queue
        } else {
            h.queue.push(RequestView { pane: h.pane, seq: h.seq, report })
        },
        ..h
    }
}

/// The host after it was closed.
pub open spec fn released(h: HerdrView) -> HerdrView {
    HerdrView { closed: true, ..posted(h, ReportView::Release) }
}

/// Whether the numbers of the waiting requests rise, all of them below the next one.
pub open spec fn numbered(h: HerdrView) -> bool {
    &&& forall|i: int| 0 <= i < h.queue.len() ==> (#[trigger] h.queue[i]).seq < h.seq
    &&& forall|i: int, j: int|
        0 <= i < j < h.queue.len() ==> (#[trigger] h.queue[i]).seq < (#[trigger] h.queue[j]).seq
}

/// Requests leave in the order of the calls, their numbers rising: herdr, which ignores a number that is not
/// newer than the last, ignores none of them.
pub proof fn numbers_rise(h: HerdrView, report: ReportView)
    requires
        numbered(h),
        h.seq < u64::MAX,
    ensures
        numbered(posted(h, report)),
{
    let after = posted(h, report);
    assert forall|i: int| 0 <= i < after.queue.len() implies (#[trigger] after.queue[i]).seq
        < after.seq by {
        if i < h.queue.len() {
            assert(after.queue[i] == h.queue[i]);
        }
    }
    assert forall|i: int, j: int| 0 <= i < j < after.queue.len() implies (
    #[trigger] after.queue[i]).seq < (#[trigger] after.queue[j]).seq by {
        assert(after.queue[i] == h.queue[i]);
        if j < h.queue.len() {
            assert(after.queue[j] == h.queue[j]);
        }
    }
}

/// Closing twice queues nothing more than closing once, and a closed host takes no report.
pub proof fn closing_is_final(h: HerdrView, report: ReportView)
    ensures
        released(released(h)).queue == released(h).queue,
        posted(released(h), report).queue == released(h).queue,
        released(h).closed,
{
}

/// The queue is bounded.
pub proof fn queue_is_bounded(h: HerdrView, report: ReportView)
    requires
        h.queue.len() <= HERDR_QUEUE,
    ensures
        posted(h, report).queue.len() <= HERDR_QUEUE,
{
}

impl HerdrHost {
    /// A host for a pane that numbers its requests from `first_seq`.
    pub fn new(pane: Pane, first_seq: u64) -> (r: HerdrHost)
        ensures
            r.pane == pane,
            r@ == (HerdrView {
                pane: pane.id@,
                seq: first_seq,
                queue: Seq::empty(),
                closed: false,
            }),
    {
        let r = HerdrHost { pane, seq: first_seq, queue: Vec::new(), closed: false };
        assert(r@.queue =~= Seq::<RequestView>::empty());
        r
    }

    /// The name of the host.
    pub fn name(&self) -> (r: &'static str)
        ensures
            r@ == HERDR_NAME@,
    {
        HERDR_NAME
    }

    /// Numbers a report and queues it. Never waits: a full or a closed queue drops the request.
    fn post(&mut self, report: Report)
        ensures
            final(self)@ == posted(old(self)@, report@),
            final(self).pane == old(self).pane,
    {
        let req = Request { pane: self.pane.id.clone(), seq: self.seq, report };
        self.seq = self.seq.wrapping_add(1);
        if !self.closed && self.queue.len() < HERDR_QUEUE {
            self.queue.push(req);
            assert(requests(self.queue@) =~= requests(old(self).queue@).push(req@));
        }
    }

    /// Takes the oldest request that waits.
    pub fn next(&mut self) -> (r: Option<Request>)
        ensures
            final(self).pane == old(self).pane,
            match r {
                None => old(self)@.queue.len() == 0 && final(self)@ == old(self)@,
                Some(req) => {
                    &&& old(self)@.queue.len() > 0
                    &&& req@ == old(self)@.queue[0]
                    &&& final(self)@ == (HerdrView {
                        queue: old(self)@.queue.drop_first(),
                        ..old(self)@
                    })
                },
            },
    {
        if self.queue.len() == 0 {
            return None;
        }
        let req: Request = self.queue.remove(0);
        assert(requests(self.queue@) =~= requests(old(self).queue@).drop_first());
        Some(req)
    }

    /// Reports a state.
    pub fn set_state(&mut self, s: State)
        ensures
            final(self)@ == posted(old(self)@, ReportView::State(lifecycle_of(s))),
            final(self).pane == old(self).pane,
    {
        self.post(Report::State(lifecycle(s)));
    }

    /// Reports the session.
    pub fn report_session(&mut self, id: &str, path: &str)
        ensures
            final(self)@ == posted(old(self)@, ReportView::Session(id@, path@)),
            final(self).pane == old(self).pane,
    {
        self.post(Report::Session { id: own(id), path: own(path) });
    }

    /// Releases the pane and closes the queue; what waits, the release last, still leaves.
    pub fn close(&mut self)
        ensures
            final(self)@ == released(old(self)@),
            final(self).pane == old(self).pane,
    {
        self.post(Report::Release);
        self.closed = true;
    }

    /// What the host tells the model.
    pub fn environment(&self) -> (r: Vec<(String, String)>)
        ensures
            facts(r@) == pane_facts(self.pane),
    {
        let mut out: Vec<(String, String)> = Vec::new();
        out.push((own("host"), own(HERDR_NAME)));
        out.push((own("herdr pane"), self.pane.id.clone()));
        if let Some(ws) = &self.pane.workspace {
            out.push((own("herdr workspace"), ws.clone()));
        }
        if let Some(tab) = &self.pane.tab {
            out.push((own("herdr tab"), tab.clone()));
        }
        assert(facts(out@) =~= pane_facts(self.pane));
        out
    }
}

/// Whether an environment is inside herdr: the marker is `1`, the pane and the socket are there — and, on a
/// platform without sockets, the program.
pub open spec fn inside_herdr(env: EnvView, sockets: bool) -> bool {
    &&& var_of(env, HERDR_ENV@) == Some("1"@)
    &&& var_of(env, HERDR_PANE_ID@) is Some
    &&& var_of(env, HERDR_SOCKET_PATH@) is Some
    &&& sockets || var_of(env, HERDR_BIN_PATH@) is Some
}

/// Whether a host is the fresh one of the pane that the environment names.
pub open spec fn is_pane_host(h: HerdrHost, env: EnvView, first_seq: u64) -> bool {
    &&& var_of(env, HERDR_PANE_ID@) == Some(h.pane.id@)
    &&& var_of(env, HERDR_WORKSPACE_ID@) == opt_view(h.pane.workspace)
    &&& var_of(env, HERDR_TAB_ID@) == opt_view(h.pane.tab)
    &&& h@ == (HerdrView {
        pane: h.pane.id@,
        seq: first_seq,
        queue: Seq::empty(),
        closed: false,
    })
}

/// The herdr host of an environment; its requests are numbered from `first_seq`.
pub fn detect_herdr(env: &Env, sockets: bool, first_seq: u64) -> (r: Option<HerdrHost>)
    ensures
        match r {
            Some(h) => inside_herdr(env@, sockets) && is_pane_host(h, env@, first_seq),
            None => !inside_herdr(env@, sockets),
        },
{
    match env.var(HERDR_ENV) {
        Some(v) => if !same(v.as_str(), "1") {
            return None;
        },
        None => return None,
    }
    let id: String = match env.var(HERDR_PANE_ID) {
        Some(id) => id,
        None => return None,
    };
    if env.var(HERDR_SOCKET_PATH).is_none() {
        return None;
    }
    if !sockets && env.var(HERDR_BIN_PATH).is_none() {
        return None;
    }
    let pane = Pane { id, workspace: env.var(HERDR_WORKSPACE_ID), tab: env.var(HERDR_TAB_ID) };
    Some(HerdrHost::new(pane, first_seq))
}

} // verus!
