//! An interactive run from end to end: the listing a picker needs, the connection to the servers, the opening of
//! the interface, the chat, and the way out.
//!
//! What can fail with nothing to clean up comes first; from the connection on, every way out closes the servers.

use vstd::prelude::*;

use crate::cmd::args::{Invocation, Resume};
use crate::cmd::error::{ArgsError, CliError, RunError, SetupError};
use crate::cmd::interactive::open::{
    awaits as opening_awaits, step as opening_step, OpenAction, OpenEvent, Opening, Stage,
};
use crate::cmd::interactive::picker::SessionInfo;
use crate::cmd::interactive::{
    ended_with, interactive_start, repl_error, starts_ephemeral, Closing, ReplError, Start,
};

verus! {

/// What is to be done next.
pub enum RunAction {
    /// List the saved sessions.
    List,
    /// Start connecting to the servers, in the background.
    Connect,
    /// One action of the opening.
    Open(OpenAction),
    /// Run the chat over this background.
    Chat {
        dark: bool,
    },
    /// One step of the way out.
    Close(Closing),
    /// The run is over.
    Finished(Result<(), CliError>),
}

/// What an action gave.
pub enum RunEvent {
    /// The saved sessions, or the text of the failure.
    Listed(Result<Vec<SessionInfo>, String>),
    Connected,
    /// The answer to an action of the opening.
    Opened(OpenEvent),
    Chatted(Result<(), ReplError>),
    /// Whether a step of the way out failed, with the text of the failure.
    Closed(Result<(), String>),
}

/// How far the run is.
pub enum RunStage {
    Listing,
    Connecting,
    Opening(Opening),
    Chatting,
    /// The way out: whether there is an interface to close, the step that is under way, what the run came to,
    /// and what closing the interface gave.
    Leaving {
        opened: bool,
        at: usize,
        outcome: Result<(), CliError>,
        closed: Result<(), String>,
    },
    Over,
}

/// What a [`RunStage`] says.
pub enum RunStageView {
    Listing,
    Connecting,
    Opening(bool, Stage),
    Chatting,
    Leaving(bool, int, Result<(), CliError>, Result<(), String>),
    Over,
}

impl View for RunStage {
    type V = RunStageView;

    open spec fn view(&self) -> RunStageView {
        match *self {
            RunStage::Listing => RunStageView::Listing,
            RunStage::Connecting => RunStageView::Connecting,
            RunStage::Opening(o) => RunStageView::Opening(o.picks(), o.at()),
            RunStage::Chatting => RunStageView::Chatting,
            RunStage::Leaving { opened, at, outcome, closed } => RunStageView::Leaving(
                opened,
                at as int,
                outcome,
                closed,
            ),
            RunStage::Over => RunStageView::Over,
        }
    }
}

/// The steps of the way out.
pub open spec fn way_out(opened: bool) -> Seq<Closing> {
    if opened {
        seq![Closing::Interface, Closing::Title, Closing::Connect, Closing::Servers]
    } else {
        seq![Closing::Connect, Closing::Servers]
    }
}

/// What a run comes to: its own failure first, else that of closing the interface.
pub open spec fn comes_to(outcome: Result<(), CliError>, closed: Result<(), String>) -> Result<
    (),
    CliError,
> {
    match outcome {
        Err(e) => Err(e),
        Ok(_) => match closed {
            Err(e) => Err(CliError::Run(RunError::Io(e))),
            Ok(_) => Ok(()),
        },
    }
}

/// Whether a stage is one that a run can be in.
pub open spec fn sound(s: RunStageView) -> bool {
    match s {
        RunStageView::Leaving(opened, at, _, _) => 0 <= at < way_out(opened).len(),
        _ => true,
    }
}

/// Whether an event is the answer that a stage waits for.
pub open spec fn awaits(s: RunStageView, e: RunEvent) -> bool {
    match s {
        RunStageView::Listing => e is Listed,
        RunStageView::Connecting => e is Connected,
        RunStageView::Opening(_, at) => e matches RunEvent::Opened(x) && opening_awaits(at, x),
        RunStageView::Chatting => e is Chatted,
        RunStageView::Leaving(_, _, _, _) => e is Closed,
        RunStageView::Over => false,
    }
}

/// The way out, from its first step on.
pub open spec fn leave(opened: bool, outcome: Result<(), CliError>) -> (RunStageView, RunAction) {
    (
        RunStageView::Leaving(opened, 0, outcome, Ok(())),
        RunAction::Close(way_out(opened)[0]),
    )
}

/// What follows an action of the opening.
pub open spec fn opening_on(picks: bool, stage: Stage, action: OpenAction) -> (
    RunStageView,
    RunAction,
) {
    match action {
        OpenAction::Finished(Ok(dark)) => (RunStageView::Chatting, RunAction::Chat { dark }),
        OpenAction::Finished(Err(e)) => leave(false, Err(e)),
        a => (RunStageView::Opening(picks, stage), RunAction::Open(a)),
    }
}

/// The next step of the way out, or the end.
pub open spec fn leave_on(
    opened: bool,
    at: int,
    outcome: Result<(), CliError>,
    closed: Result<(), String>,
) -> (RunStageView, RunAction) {
    if at + 1 < way_out(opened).len() {
        (
            RunStageView::Leaving(opened, at + 1, outcome, closed),
            RunAction::Close(way_out(opened)[at + 1]),
        )
    } else {
        (RunStageView::Over, RunAction::Finished(comes_to(outcome, closed)))
    }
}

/// The stage and the action that follow an answer; `rows` are the sessions that a picker shows.
pub open spec fn step(rows: nat, s: RunStageView, e: RunEvent) -> (RunStageView, RunAction)
    recommends
        awaits(s, e),
{
    match (s, e) {
        (RunStageView::Listing, RunEvent::Listed(r)) => match r {
            Err(text) => (
                RunStageView::Over,
                RunAction::Finished(Err(CliError::Setup(SetupError::ListSessions(text)))),
            ),
            Ok(_) => (RunStageView::Connecting, RunAction::Connect),
        },
        (RunStageView::Connecting, RunEvent::Connected) => (
            RunStageView::Opening(rows > 0, Stage::Detecting),
            RunAction::Open(OpenAction::Detect),
        ),
        (RunStageView::Opening(picks, stage), RunEvent::Opened(x)) => {
            let (next, action) = opening_step(picks, stage, x);
            opening_on(picks, next, action)
        },
        (RunStageView::Chatting, RunEvent::Chatted(r)) => match r {
            Ok(_) => leave(true, Ok(())),
            Err(e) => leave(true, Err(ended_with(e))),
        },
        (RunStageView::Leaving(opened, at, outcome, closed), RunEvent::Closed(r)) => {
            let first = if opened && at == 0 {
                r
            } else {
                closed
            };
            leave_on(opened, at, outcome, first)
        },
        _ => (s, RunAction::Connect),
    }
}

/// The sessions that a picker shows after an answer.
pub open spec fn rows_after(rows: nat, e: RunEvent) -> nat {
    match e {
        RunEvent::Listed(Ok(v)) => v@.len(),
        _ => rows,
    }
}

/// An interactive run.
pub struct InteractiveRun {
    rows: Vec<SessionInfo>,
    stage: RunStage,
}

impl InteractiveRun {
    /// How far the run is.
    pub closed spec fn at(&self) -> RunStageView {
        self.stage@
    }

    /// The sessions that a picker shows.
    pub closed spec fn listed(&self) -> Seq<SessionInfo> {
        self.rows@
    }

    #[verifier::type_invariant]
    closed spec fn inv(&self) -> bool {
        sound(self.stage@)
    }

    /// Begins a run. What is wrong with the invocation, or with the terminal, is said before anything is done;
    /// a run that picks its session lists them first, so that an unreadable store fails with nothing to clean up.
    pub fn begin(inv: &Invocation, no_save: bool, is_terminal: bool) -> (r: Result<
        (InteractiveRun, RunAction, Start),
        CliError,
    >)
        ensures
            if inv.args.no_save && inv.resume is Some {
                r matches Err(CliError::Args(ArgsError::NoSaveWithResume))
            } else if !is_terminal {
                r matches Err(CliError::Setup(SetupError::NotATerminal))
            } else {
                r matches Ok((run, action, s)) && run.listed().len() == 0 && s.ephemeral
                    == starts_ephemeral(*inv, no_save) && s.resume_given == inv.resume is Some
                    && s.pick == (inv.resume == Some(Resume::Pick)) && if s.pick {
                    run.at() == RunStageView::Listing && action is List
                } else {
                    run.at() == RunStageView::Connecting && action is Connect
                }
            },
    {
        let start: Start = match interactive_start(inv, no_save, is_terminal) {
            Ok(s) => s,
            Err(e) => return Err(e),
        };
        if start.pick {
            let run = InteractiveRun { rows: Vec::new(), stage: RunStage::Listing };
            Ok((run, RunAction::List, start))
        } else {
            let run = InteractiveRun { rows: Vec::new(), stage: RunStage::Connecting };
            Ok((run, RunAction::Connect, start))
        }
    }

    /// The sessions that a picker shows.
    pub fn rows(&self) -> (r: &Vec<SessionInfo>)
        ensures
            r@ == self.listed(),
    {
        &self.rows
    }

    /// Takes the answer to the last action and says what is next.
    pub fn run_interactive(self, event: RunEvent) -> (r: (InteractiveRun, RunAction))
        requires
            awaits(self.at(), event),
        ensures
            (r.0.at(), r.1) == step(self.listed().len(), self.at(), event),
            match event {
                RunEvent::Listed(Ok(v)) => r.0.listed() == v@,
                _ => r.0.listed() == self.listed(),
            },
    {
        proof {
            use_type_invariant(&self);
        }
        let mut rows: Vec<SessionInfo> = self.rows;
        let (stage, action) = match (self.stage, event) {
            (RunStage::Listing, RunEvent::Listed(r)) => match r {
                Err(text) => (
                    RunStage::Over,
                    RunAction::Finished(Err(CliError::Setup(SetupError::ListSessions(text)))),
                ),
                Ok(v) => {
                    rows = v;
                    (RunStage::Connecting, RunAction::Connect)
                },
            },
            (RunStage::Connecting, RunEvent::Connected) => {
                let (opening, action) = Opening::begin(rows.len() > 0);
                (RunStage::Opening(opening), RunAction::Open(action))
            },
            (RunStage::Opening(opening), RunEvent::Opened(x)) => {
                let (next, action) = opening.open_ui(x);
                match action {
                    OpenAction::Finished(Ok(dark)) => (
                        RunStage::Chatting,
                        RunAction::Chat { dark },
                    ),
                    OpenAction::Finished(Err(e)) => leaving(false, Err(e)),
                    a => (RunStage::Opening(next), RunAction::Open(a)),
                }
            },
            (RunStage::Chatting, RunEvent::Chatted(r)) => match r {
                Ok(_) => leaving(true, Ok(())),
                Err(e) => leaving(true, Err(repl_error(e))),
            },
            (RunStage::Leaving { opened, at, outcome, closed }, RunEvent::Closed(r)) => {
                let first: Result<(), String> = if opened && at == 0 {
                    r
                } else {
                    closed
                };
                leaving_on(opened, at, outcome, first)
            },
            (stage, _) => (stage, RunAction::Connect),
        };
        (InteractiveRun { rows, stage }, action)
    }
}

/// The way out, from its first step on.
fn leaving(opened: bool, outcome: Result<(), CliError>) -> (r: (RunStage, RunAction))
    ensures
        (r.0@, r.1) == leave(opened, outcome),
        sound(r.0@),
{
    let first: Closing = if opened {
        Closing::Interface
    } else {
        Closing::Connect
    };
    (RunStage::Leaving { opened, at: 0, outcome, closed: Ok(()) }, RunAction::Close(first))
}

/// The next step of the way out, or the end.
fn leaving_on(
    opened: bool,
    at: usize,
    outcome: Result<(), CliError>,
    closed: Result<(), String>,
) -> (r: (RunStage, RunAction))
    requires
        at < way_out(opened).len(),
    ensures
        (r.0@, r.1) == leave_on(opened, at as int, outcome, closed),
        sound(r.0@),
{
    let next: Option<Closing> = if opened {
        if at == 0 {
            Some(Closing::Title)
        } else if at == 1 {
            Some(Closing::Connect)
        } else if at == 2 {
            Some(Closing::Servers)
        } else {
            None
        }
    } else if at == 0 {
        Some(Closing::Servers)
    } else {
        None
    };
    match next {
        Some(c) => (
            RunStage::Leaving { opened, at: at + 1, outcome, closed },
            RunAction::Close(c),
        ),
        None => {
            let end: Result<(), CliError> = match outcome {
                Err(e) => Err(e),
                Ok(_) => match closed {
                    Err(e) => Err(CliError::Run(RunError::Io(e))),
                    Ok(_) => Ok(()),
                },
            };
            (RunStage::Over, RunAction::Finished(end))
        },
    }
}

// ---------------------------------------------------------------- laws

/// The stage that a run of answers leads to, the sessions listed, and the actions on the way.
pub open spec fn ran(picks: bool, events: Seq<RunEvent>) -> (RunStageView, nat, Seq<RunAction>)
    decreases events.len(),
{
    if events.len() == 0 {
        if picks {
            (RunStageView::Listing, 0, seq![RunAction::List])
        } else {
            (RunStageView::Connecting, 0, seq![RunAction::Connect])
        }
    } else {
        let (stage, rows, actions) = ran(picks, events.drop_last());
        let (next, action) = step(rows, stage, events.last());
        (next, rows_after(rows, events.last()), actions.push(action))
    }
}

/// Whether every event of a run answers the action before it.
pub open spec fn answered(picks: bool, events: Seq<RunEvent>) -> bool
    decreases events.len(),
{
    events.len() == 0 || (answered(picks, events.drop_last()) && awaits(
        ran(picks, events.drop_last()).0,
        events.last(),
    ))
}

/// Whether some action connects.
pub open spec fn connects(actions: Seq<RunAction>) -> bool {
    exists|i: int| 0 <= i < actions.len() && #[trigger] actions[i] is Connect
}

/// The last action of a stage, with what has gone before it.
spec fn consistent(s: RunStageView, actions: Seq<RunAction>) -> bool {
    let n = actions.len() as int;
    &&& n > 0
    &&& sound(s)
    &&& match s {
        RunStageView::Listing => !connects(actions) && actions.last() is List,
        RunStageView::Connecting => connects(actions) && actions.last() is Connect,
        RunStageView::Opening(_, _) => connects(actions),
        RunStageView::Chatting => connects(actions) && actions.last() is Chat,
        RunStageView::Leaving(opened, at, _, _) => {
            &&& connects(actions)
            &&& n > at
            &&& forall|k: int|
                0 <= k <= at ==> #[trigger] actions[n - 1 - at + k] == RunAction::Close(
                    way_out(opened)[k],
                )
        },
        RunStageView::Over => {
            &&& actions.last() is Finished
            &&& connects(actions) ==> n > 2 && actions[n - 2] == RunAction::Close(Closing::Servers)
                && actions[n - 3] == RunAction::Close(Closing::Connect)
        },
    }
}

/// What connected stays connected, and one more action joins.
proof fn connects_grows(actions: Seq<RunAction>, a: RunAction)
    ensures
        connects(actions.push(a)) == (connects(actions) || a is Connect),
{
    let all = actions.push(a);
    if connects(actions) {
        let i = choose|i: int| 0 <= i < actions.len() && #[trigger] actions[i] is Connect;
        assert(all[i] is Connect);
    }
    if a is Connect {
        assert(all[actions.len() as int] is Connect);
    }
    if connects(all) && !(a is Connect) {
        let i = choose|i: int| 0 <= i < all.len() && #[trigger] all[i] is Connect;
        assert(actions[i] is Connect);
    }
}

/// Every run of answers keeps its stage and its actions consistent.
proof fn runs_are_consistent(picks: bool, events: Seq<RunEvent>)
    requires
        answered(picks, events),
    ensures
        consistent(ran(picks, events).0, ran(picks, events).2),
    decreases events.len(),
{
    let (stage, rows, actions) = ran(picks, events);
    if events.len() == 0 {
        if !picks {
            assert(actions[0] is Connect);
        }
    } else {
        runs_are_consistent(picks, events.drop_last());
        let (before, r, past) = ran(picks, events.drop_last());
        let action = actions.last();
        connects_grows(past, action);
        assert(actions =~= past.push(action));
        match before {
            RunStageView::Leaving(opened, at, outcome, closed) => {
                let n = actions.len() as int;
                if at + 1 < way_out(opened).len() {
                    assert forall|k: int| 0 <= k <= at + 1 implies #[trigger] actions[n - 1 - (at
                        + 1) + k] == RunAction::Close(way_out(opened)[k]) by {
                        if k <= at {
                            assert(past[past.len() - 1 - at + k] == RunAction::Close(
                                way_out(opened)[k],
                            ));
                        }
                    }
                } else {
                    let m = past.len() as int;
                    assert(past[m - 1 - at + at] == RunAction::Close(way_out(opened)[at]));
                    assert(past[m - 1 - at + (at - 1)] == RunAction::Close(way_out(opened)[at - 1]));
                }
            },
            _ => {},
        }
    }
}

/// Every run that connected to its servers ends by stopping the connection and closing them, whatever happened in
/// between; and one whose sessions could not be listed never connected.
pub proof fn every_way_out_closes_the_servers(picks: bool, events: Seq<RunEvent>)
    requires
        answered(picks, events),
        ran(picks, events).2.last() is Finished,
    ensures
        ({
            let actions = ran(picks, events).2;
            let n = actions.len() as int;
            connects(actions) ==> n > 2 && actions[n - 2] == RunAction::Close(Closing::Servers)
                && actions[n - 3] == RunAction::Close(Closing::Connect)
        }),
{
    runs_are_consistent(picks, events);
}

/// A chat that was run closes its interface first, then hands the title back, then stops the connection and closes
/// its servers.
pub proof fn chat_leaves_in_order(picks: bool, events: Seq<RunEvent>)
    requires
        answered(picks, events),
        ran(picks, events).0 matches RunStageView::Leaving(opened, at, _, _) && opened && at == 3,
    ensures
        ({
            let actions = ran(picks, events).2;
            let n = actions.len() as int;
            &&& actions[n - 4] == RunAction::Close(Closing::Interface)
            &&& actions[n - 3] == RunAction::Close(Closing::Title)
            &&& actions[n - 2] == RunAction::Close(Closing::Connect)
            &&& actions[n - 1] == RunAction::Close(Closing::Servers)
        }),
{
    runs_are_consistent(picks, events);
    let actions = ran(picks, events).2;
    let n = actions.len() as int;
    assert(actions[n - 1 - 3 + 0] == RunAction::Close(way_out(true)[0]));
    assert(actions[n - 1 - 3 + 1] == RunAction::Close(way_out(true)[1]));
    assert(actions[n - 1 - 3 + 2] == RunAction::Close(way_out(true)[2]));
    assert(actions[n - 1 - 3 + 3] == RunAction::Close(way_out(true)[3]));
}

} // verus!
