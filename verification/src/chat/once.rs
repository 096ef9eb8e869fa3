//! A headless run: one message in, the reply (or the report) out.

use vstd::prelude::*;
use vstd::string::*;

use crate::chat::report::{clamped, RecordView, RunRecorder, RunReport};
use crate::chat::run::RunOutcome;
use crate::headless::error::ChatError;
use crate::headless::{AgentOptions, OutputFormat};
use crate::map::views;
use crate::message::Message;
use crate::provider::{kind_name, ProviderKind};
use crate::text::{copy_strs, strs};

verus! {

/// Everything a headless run needs beyond the provider and the tools.
pub struct OnceOptions {
    /// The user message.
    pub message: String,
    /// The system prompt (empty = none).
    pub system: String,
    /// Agent-mode overlay settings.
    pub agent: AgentOptions,
    /// `--max-turns`; `None` = unlimited.
    pub max_turns: Option<u32>,
    /// `--output-format`.
    pub format: OutputFormat,
    /// Where generated images are saved; `None` = the home directory is unknown.
    pub images_dir: Option<String>,
    /// The resumed conversation; empty for a stateless run.
    pub history: Vec<Message>,
}

/// What a headless run produced beyond its output: what it appended to the conversation.
pub struct OnceOutcome {
    /// Everything past the imported history.
    pub delta: Vec<Message>,
}

/// The lead of each line about a saved image.
pub const IMAGE_SAVED_PREFIX: &'static str = "🖼 saved: ";

/// The lines of a list, each with a lead and a newline.
pub open spec fn lines_of(lead: Seq<char>, list: Seq<Seq<char>>) -> Seq<char>
    decreases list.len(),
{
    if list.len() == 0 {
        Seq::empty()
    } else {
        lines_of(lead, list.drop_last()) + (lead + list.last() + "\n"@)
    }
}

/// What a run prints as text: the reply when it is not empty, a line for each saved image, and the lines about
/// the images that could not be saved.
pub open spec fn printed(reply: Seq<char>, images: Seq<Seq<char>>, errors: Seq<Seq<char>>) -> Seq<
    char,
> {
    let head = if reply.len() > 0 {
        reply + "\n"@
    } else {
        Seq::empty()
    };
    head + lines_of(IMAGE_SAVED_PREFIX@, images) + lines_of(Seq::empty(), errors)
}

/// Appends the lines of a list.
fn add_lines(out: &mut String, lead: &str, list: &Vec<String>)
    ensures
        final(out)@ == old(out)@ + lines_of(lead@, strs(list@)),
{
    let ghost all = strs(list@);
    let ghost before = out@;
    assert(all.take(0) =~= Seq::<Seq<char>>::empty());
    assert(before + lines_of(lead@, all.take(0)) =~= before);
    for i in 0..list.len()
        invariant
            all == strs(list@),
            out@ == before + lines_of(lead@, all.take(i as int)),
    {
        let ghost was = lines_of(lead@, all.take(i as int));
        out.append(lead);
        out.append(list[i].as_str());
        out.append("\n");
        assert(all.take(i + 1).drop_last() =~= all.take(i as int));
        assert(all.take(i + 1).last() == list@[i as int]@);
        assert(out@ =~= before + (was + (lead@ + list@[i as int]@ + "\n"@)));
    }
    assert(all.take(all.len() as int) =~= all);
}

/// What a run prints as text.
pub fn text_output(outcome: &RunOutcome) -> (r: String)
    ensures
        r@ == printed(outcome.reply@, strs(outcome.images@), strs(outcome.image_errors@)),
{
    let mut out: String = String::new();
    if !outcome.reply.as_str().is_empty() {
        out.append(outcome.reply.as_str());
        out.append("\n");
    }
    assert(out@ =~= if outcome.reply@.len() > 0 {
        outcome.reply@ + "\n"@
    } else {
        Seq::empty()
    });
    let none: String = String::new();
    add_lines(&mut out, IMAGE_SAVED_PREFIX, &outcome.images);
    add_lines(&mut out, none.as_str(), &outcome.image_errors);
    out
}

/// The result of a run that may have been cancelled: every failure of a cancelled run is the interruption.
pub open spec fn settled(result: Result<RunOutcome, ChatError>, cancelled: bool) -> Result<
    RunOutcome,
    ChatError,
> {
    if result is Err && cancelled {
        Err(ChatError::Interrupted)
    } else {
        result
    }
}

/// The result of a run that may have been cancelled.
pub fn settle(result: Result<RunOutcome, ChatError>, cancelled: bool) -> (r: Result<
    RunOutcome,
    ChatError,
>)
    ensures
        r == settled(result, cancelled),
{
    match result {
        Err(e) => if cancelled {
            Err(ChatError::Interrupted)
        } else {
            Err(e)
        },
        Ok(o) => Ok(o),
    }
}

/// Whether `r` is the report of a run.
pub open spec fn is_report(
    r: RunReport,
    rec: RecordView,
    kind: ProviderKind,
    model: Seq<char>,
    result: Result<RunOutcome, ChatError>,
    duration_ms: u64,
) -> bool {
    &&& r.kind@ == "result"@
    &&& r.provider@ == kind_name(kind)
    &&& r.model@ == model
    &&& r.duration_ms == duration_ms
    &&& r.rounds == clamped(rec.rounds.len())
    &&& r.usage == rec.total
    &&& views(r.round_usage@) == rec.rounds
    &&& r.delegated is None
    &&& match result {
        Ok(o) => {
            &&& r.reply@ == o.reply@
            &&& r.error@.len() == 0
            &&& strs(r.images@) == strs(o.images@)
            &&& strs(r.image_errors@) == strs(o.image_errors@)
        },
        Err(e) => {
            &&& r.reply@.len() == 0
            &&& r.error@ == e.text()
            &&& r.images@.len() == 0
            &&& r.image_errors@.len() == 0
        },
    }
}

/// The report of a run, whether or not it succeeded: what completed was billed.
pub fn report_of(
    rec: &RunRecorder,
    kind: ProviderKind,
    model: &str,
    result: &Result<RunOutcome, ChatError>,
    duration_ms: u64,
) -> (r: RunReport)
    ensures
        is_report(r, rec@, kind, model@, *result, duration_ms),
{
    match result {
        Ok(o) => rec.report(
            kind,
            model,
            o.reply.as_str(),
            copy_strs(&o.images),
            copy_strs(&o.image_errors),
            None,
            None,
            duration_ms,
        ),
        Err(e) => {
            let none: String = String::new();
            rec.report(
                kind,
                model,
                none.as_str(),
                Vec::new(),
                Vec::new(),
                None,
                Some(e.message()),
                duration_ms,
            )
        },
    }
}

/// What a run leaves to persist: what it appended, or its error.
pub open spec fn left_by(
    result: Result<RunOutcome, ChatError>,
    r: Result<OnceOutcome, ChatError>,
) -> bool {
    match result {
        Ok(o) => r == Ok::<OnceOutcome, ChatError>(OnceOutcome { delta: o.delta }),
        Err(e) => r == Err::<OnceOutcome, ChatError>(e),
    }
}

/// What a headless run prints, and what it leaves. As JSON the report IS the output whether or not the run
/// succeeded, one line break after it, and a report that cannot be printed is the failure of the run; as text a
/// run that failed prints nothing. `render` prints a report, or gives the text of the failure.
pub fn once_output<F: FnOnce(RunReport) -> Result<String, String>>(
    format: OutputFormat,
    result: Result<RunOutcome, ChatError>,
    cancelled: bool,
    rec: &RunRecorder,
    kind: ProviderKind,
    model: &str,
    duration_ms: u64,
    render: F,
) -> (r: (String, Result<OnceOutcome, ChatError>))
    requires
        format is Json ==> forall|report: RunReport|
            is_report(report, rec@, kind, model@, settled(result, cancelled), duration_ms)
                ==> #[trigger] render.requires((report,)),
    ensures
        match format {
            OutputFormat::Text => {
                &&& left_by(settled(result, cancelled), r.1)
                &&& r.0@ == match result {
                    Ok(o) => printed(o.reply@, strs(o.images@), strs(o.image_errors@)),
                    Err(_) => Seq::empty(),
                }
            },
            OutputFormat::Json => exists|report: RunReport, text: Result<String, String>|
                {
                    &&& is_report(
                        report,
                        rec@,
                        kind,
                        model@,
                        settled(result, cancelled),
                        duration_ms,
                    )
                    &&& #[trigger] render.ensures((report,), text)
                    &&& match text {
                        Ok(t) => r.0@ == t@ + "\n"@ && left_by(settled(result, cancelled), r.1),
                        Err(e) => r.0@.len() == 0 && r.1 == Err::<OnceOutcome, ChatError>(
                            ChatError::Io(e),
                        ),
                    }
                },
        },
{
    let result: Result<RunOutcome, ChatError> = settle(result, cancelled);
    match format {
        OutputFormat::Text => match result {
            Ok(o) => {
                let out: String = text_output(&o);
                (out, Ok(OnceOutcome { delta: o.delta }))
            },
            Err(e) => {
                let none: String = String::new();
                assert(none@ =~= Seq::<char>::empty());
                (none, Err(e))
            },
        },
        OutputFormat::Json => {
            let report: RunReport = report_of(rec, kind, model, &result, duration_ms);
            match render(report) {
                Ok(t) => {
                    let mut out: String = t;
                    out.append("\n");
                    match result {
                        Ok(o) => (out, Ok(OnceOutcome { delta: o.delta })),
                        Err(e) => (out, Err(e)),
                    }
                },
                Err(e) => (String::new(), Err(ChatError::Io(e))),
            }
        },
    }
}

} // verus!
