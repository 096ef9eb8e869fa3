//! The plain-terminal host: the fallback every run appends. It maps the conversation state onto the terminal's
//! progress indicator and forwards attention pings as notifications.

use vstd::prelude::*;

use crate::host::{Event, State};

verus! {

/// The states of the terminal's progress indicator.
#[derive(Clone, Copy, Debug, PartialEq, Eq, Structural)]
pub enum ProgressState {
    /// No indicator.
    Clear,
    Busy,
    Input,
    Error,
}

/// The progress state of a conversation state.
pub open spec fn progress(s: State) -> ProgressState {
    match s {
        State::Busy => ProgressState::Busy,
        State::NeedsInput => ProgressState::Input,
        State::Error => ProgressState::Error,
        State::Idle => ProgressState::Clear,
    }
}

/// The progress state of a conversation state.
pub fn progress_of(s: State) -> (r: ProgressState)
    ensures
        r == progress(s),
{
    match s {
        State::Busy => ProgressState::Busy,
        State::NeedsInput => ProgressState::Input,
        State::Error => ProgressState::Error,
        State::Idle => ProgressState::Clear,
    }
}

/// Two states of a conversation are two states of the indicator.
pub proof fn progress_tells_states_apart(a: State, b: State)
    requires
        progress(a) == progress(b),
    ensures
        a == b,
{
}

/// One thing the terminal is asked to show.
pub enum UiCall {
    /// A state of the progress indicator.
    Progress(ProgressState),
    /// A notification.
    Notify(String),
}

/// What a [`UiCall`] asks for.
pub enum UiView {
    Progress(ProgressState),
    Notify(Seq<char>),
}

impl View for UiCall {
    type V = UiView;

    open spec fn view(&self) -> UiView {
        match *self {
            UiCall::Progress(p) => UiView::Progress(p),
            UiCall::Notify(t) => UiView::Notify(t@),
        }
    }
}

/// The views of a list of calls.
pub open spec fn calls(v: Seq<UiCall>) -> Seq<UiView> {
    Seq::new(v.len(), |i: int| v[i]@)
}

/// The terminal host, with what it asked the terminal to show and was not yet shown.
pub struct AnsiHost {
    /// The calls, oldest first.
    pub pending: Vec<UiCall>,
}

impl AnsiHost {
    /// A host that has asked for nothing.
    pub fn new() -> (r: AnsiHost)
        ensures
            r.pending@.len() == 0,
    {
        AnsiHost { pending: Vec::new() }
    }

    /// The name of the host.
    pub fn name(&self) -> (r: &'static str)
        ensures
            r@ == "terminal"@,
    {
        "terminal"
    }

    /// Shows a state.
    pub fn set_state(&mut self, s: State)
        ensures
            calls(final(self).pending@) == calls(old(self).pending@).push(
                UiView::Progress(progress(s)),
            ),
    {
        self.pending.push(UiCall::Progress(progress_of(s)));
        assert(calls(self.pending@) =~= calls(old(self).pending@).push(
            UiView::Progress(progress(s)),
        ));
    }

    /// Pings the user.
    pub fn notify(&mut self, e: &Event)
        ensures
            calls(final(self).pending@) == calls(old(self).pending@).push(UiView::Notify(e.text@)),
    {
        self.pending.push(UiCall::Notify(e.text.clone()));
        assert(calls(self.pending@) =~= calls(old(self).pending@).push(UiView::Notify(e.text@)));
    }
}

} // verus!
