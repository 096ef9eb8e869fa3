//! Provider tuning from the config: image, effort, nucleus, temperature, JSON edits and generation parameters, in
//! that order — each lands when the provider has the capability, and warns when it does not.

use vstd::prelude::*;
use vstd::string::*;

use crate::cmd::error::SetupError;
use crate::config::agent::AgentConfig;
use crate::config::model::ModelView;
use crate::config::provider::or_else;
use crate::config::{Resolved, ResolvedView};
use crate::double::Double;
use crate::map::pairs_of;
use crate::provider::{
    effort_named, kind_name, opt_view, set_text, Effort, ImageGenParams, ProviderKind,
};
use crate::text::{own, push_text, push_texts, strs};

verus! {

/// What a provider can be tuned by.
#[derive(Clone, Copy, Debug, PartialEq, Eq, Structural)]
pub struct Capabilities {
    /// Images can be switched on.
    pub image: bool,
    /// Images are what it always generates.
    pub image_gen: bool,
    /// It takes an effort and a temperature.
    pub tunable: bool,
    /// It takes a nucleus.
    pub top_p: bool,
    /// It takes JSON edits.
    pub json_edits: bool,
    /// It calls tools.
    pub tools: bool,
}

/// What lands on a provider.
pub struct Tuning {
    /// Switch images on.
    pub image_output: bool,
    /// The effort.
    pub effort: Option<Effort>,
    /// The nucleus.
    pub top_p: Option<Double>,
    /// Switch JSON edits on.
    pub json_edits: bool,
    /// The generation parameters.
    pub image_gen: Option<ImageGenParams>,
}

/// A line that is printed under a condition.
pub open spec fn line_if(cond: bool, line: Seq<char>) -> Seq<Seq<char>> {
    if cond {
        seq![line]
    } else {
        Seq::empty()
    }
}

/// The nucleus of a resolution: the agent's, else the model's.
pub open spec fn top_p_of(r: ResolvedView) -> Option<Double> {
    if r.agent.top_p is Some {
        r.agent.top_p
    } else {
        r.model.top_p
    }
}

/// The effort of a resolution: the agent's, else the model's.
pub open spec fn effort_of(r: ResolvedView) -> Seq<char> {
    or_else(r.agent.effort, r.model.effort)
}

/// Whether a model sets generation parameters.
pub open spec fn sets_gen_params(m: ModelView) -> bool {
    m.aspect_ratio.len() > 0 || m.image_size.len() > 0 || m.negative_prompt.len() > 0
}

/// The warning about images.
pub open spec fn image_warning(c: Capabilities, k: ProviderKind, r: ResolvedView) -> Seq<Seq<char>> {
    line_if(
        r.model.image && !c.image && c.image_gen,
        "Warning: `image: true` is redundant for provider type "@ + kind_name(k)
            + " (it always generates images)"@,
    )
}

/// The warning about the effort.
pub open spec fn effort_warning(c: Capabilities, k: ProviderKind, r: ResolvedView) -> Seq<
    Seq<char>,
> {
    line_if(
        effort_of(r).len() > 0 && !c.tunable,
        "Warning: `effort` does not apply to provider type "@ + kind_name(k) + " (ignored)"@,
    )
}

/// The warnings that follow the effort's: the nucleus, the temperature, the JSON edits, the parameters.
pub open spec fn later_warnings(
    c: Capabilities,
    k: ProviderKind,
    r: ResolvedView,
    temperature: bool,
) -> Seq<Seq<char>> {
    line_if(
        top_p_of(r) is Some && !c.top_p,
        "Warning: `top_p` does not apply to provider type "@ + kind_name(k) + " (ignored)"@,
    ) + line_if(
        temperature && !c.tunable,
        "Warning: temperature does not apply to provider type "@ + kind_name(k) + " (ignored)"@,
    ) + line_if(
        r.model.json_edits && !c.json_edits,
        "Warning: `json_edits` applies only to the images provider type (ignored for "@ + kind_name(
            k,
        ) + ")"@,
    ) + line_if(
        sets_gen_params(r.model) && !c.image_gen,
        "Warning: aspect_ratio/image_size/negative_prompt apply only to image providers (ignored for type "@
            + kind_name(k) + ")"@,
    )
}

/// Whether the effort of a resolution is no level.
pub open spec fn bad_effort(r: ResolvedView) -> bool {
    effort_of(r).len() > 0 && effort_named(effort_of(r)) is None
}

/// Whether the nucleus of a resolution is out of its range.
pub open spec fn bad_top_p(r: ResolvedView) -> bool {
    top_p_of(r) is Some && !top_p_of(r)->0.from_zero_to_pow2(0)
}

/// The warnings of a tuning, up to the first error.
pub open spec fn tuning_warnings(
    c: Capabilities,
    k: ProviderKind,
    r: ResolvedView,
    temperature: bool,
) -> Seq<Seq<char>> {
    if bad_effort(r) {
        image_warning(c, k, r)
    } else if bad_top_p(r) {
        image_warning(c, k, r) + effort_warning(c, k, r)
    } else {
        image_warning(c, k, r) + effort_warning(c, k, r) + later_warnings(c, k, r, temperature)
    }
}

/// What lands on a provider.
pub open spec fn lands(t: Tuning, c: Capabilities, r: ResolvedView) -> bool {
    &&& t.image_output == (r.model.image && c.image)
    &&& t.effort == if c.tunable && effort_of(r).len() > 0 {
        effort_named(effort_of(r))
    } else {
        None
    }
    &&& t.top_p == if c.top_p {
        top_p_of(r)
    } else {
        None
    }
    &&& t.json_edits == (r.model.json_edits && c.json_edits)
    &&& match t.image_gen {
        Some(p) => {
            &&& sets_gen_params(r.model) && c.image_gen
            &&& opt_view(p.aspect_ratio) == set_text(r.model.aspect_ratio)
            &&& opt_view(p.image_size) == set_text(r.model.image_size)
            &&& opt_view(p.negative_prompt) == set_text(r.model.negative_prompt)
        },
        None => !(sets_gen_params(r.model) && c.image_gen),
    }
}

/// Appends a line under a condition.
fn warn_if(warn: &mut Vec<String>, cond: bool, lead: &str, kind: ProviderKind, tail: &str)
    ensures
        strs(final(warn)@) == strs(old(warn)@) + line_if(cond, lead@ + kind_name(kind) + tail@),
{
    if cond {
        let mut w: String = own(lead);
        w.append(kind.as_str());
        w.append(tail);
        push_text(warn, w);
    }
    assert(strs(warn@) =~= strs(old(warn)@) + line_if(cond, lead@ + kind_name(kind) + tail@));
}

/// Whether generation parameters are set.
fn gen_params_set(p: &ImageGenParams) -> (r: bool)
    ensures
        r == (p.aspect_ratio is Some || p.image_size is Some || p.negative_prompt is Some),
{
    p.aspect_ratio.is_some() || p.image_size.is_some() || p.negative_prompt.is_some()
}

/// The warnings that follow the effort's.
fn warn_later(
    kind: ProviderKind,
    c: Capabilities,
    resolved: &Resolved,
    temperature: bool,
    has_top_p: bool,
    has_params: bool,
) -> (r: Vec<String>)
    requires
        has_top_p == top_p_of(resolved@) is Some,
        has_params == sets_gen_params(resolved@.model),
    ensures
        strs(r@) == later_warnings(c, kind, resolved@, temperature),
{
    let mut w: Vec<String> = Vec::new();
    assert(strs(w@) =~= Seq::<Seq<char>>::empty());
    warn_if(
        &mut w,
        has_top_p && !c.top_p,
        "Warning: `top_p` does not apply to provider type ",
        kind,
        " (ignored)",
    );
    let ghost first = line_if(
        top_p_of(resolved@) is Some && !c.top_p,
        "Warning: `top_p` does not apply to provider type "@ + kind_name(kind) + " (ignored)"@,
    );
    assert(Seq::<Seq<char>>::empty() + first =~= first);
    warn_if(
        &mut w,
        temperature && !c.tunable,
        "Warning: temperature does not apply to provider type ",
        kind,
        " (ignored)",
    );
    warn_if(
        &mut w,
        resolved.model.json_edits && !c.json_edits,
        "Warning: `json_edits` applies only to the images provider type (ignored for ",
        kind,
        ")",
    );
    warn_if(
        &mut w,
        has_params && !c.image_gen,
        "Warning: aspect_ratio/image_size/negative_prompt apply only to image providers (ignored for type ",
        kind,
        ")",
    );
    w
}

/// Tunes a provider of type `kind` with the capabilities `c`. `temperature` says whether the run has one: it
/// went into the provider's construction already.
pub fn apply(
    kind: ProviderKind,
    c: Capabilities,
    resolved: &Resolved,
    temperature: bool,
    warn: &mut Vec<String>,
) -> (r: Result<Tuning, SetupError>)
    ensures
        strs(final(warn)@) == strs(old(warn)@) + tuning_warnings(c, kind, resolved@, temperature),
        if bad_effort(resolved@) {
            r matches Err(SetupError::ConfigEffort(e)) && e@ == effort_of(resolved@)
        } else if bad_top_p(resolved@) {
            r matches Err(SetupError::ConfigTopP(p)) && Some(p) == top_p_of(resolved@)
        } else {
            r matches Ok(t) && lands(t, c, resolved@)
        },
{
    let mut w: Vec<String> = Vec::new();
    warn_if(
        &mut w,
        resolved.model.image && !c.image && c.image_gen,
        "Warning: `image: true` is redundant for provider type ",
        kind,
        " (it always generates images)",
    );
    assert(strs(w@) =~= image_warning(c, kind, resolved@));
    let effort: Option<Effort> = match Effort::optional(resolved.effort()) {
        Ok(e) => e,
        Err(_) => {
            push_texts(warn, w);
            return Err(SetupError::ConfigEffort(own(resolved.effort())));
        },
    };
    warn_if(
        &mut w,
        effort.is_some() && !c.tunable,
        "Warning: `effort` does not apply to provider type ",
        kind,
        " (ignored)",
    );
    let top_p: Option<Double> = resolved.top_p();
    if let Some(p) = top_p {
        if !p.in_unit_range() {
            push_texts(warn, w);
            return Err(SetupError::ConfigTopP(p));
        }
    }
    let params: ImageGenParams = resolved.model.image_gen_params();
    let has_params = gen_params_set(&params);
    let later: Vec<String> = warn_later(
        kind,
        c,
        resolved,
        temperature,
        top_p.is_some(),
        has_params,
    );
    push_texts(&mut w, later);
    push_texts(warn, w);
    Ok(
        Tuning {
            image_output: resolved.model.image && c.image,
            effort: if c.tunable {
                effort
            } else {
                None
            },
            top_p: if c.top_p {
                top_p
            } else {
                None
            },
            json_edits: resolved.model.json_edits && c.json_edits,
            image_gen: if has_params && c.image_gen {
                Some(params)
            } else {
                None
            },
        },
    )
}

/// The line about tools that can never be called.
pub fn warn_tools_without_calling(
    kind: ProviderKind,
    c: Capabilities,
    agent: &AgentConfig,
    mcp_count: usize,
    warn: &mut Vec<String>,
)
    ensures
        strs(final(warn)@) == strs(old(warn)@) + line_if(
            !c.tools && (pairs_of(agent@.tools).len() > 0 || mcp_count > 0),
            "Warning: tools/mcp_servers do not apply to provider type "@ + kind_name(kind)
                + " (no tool calling)"@,
        ),
{
    let configured = agent.tools.len() > 0 || mcp_count > 0;
    warn_if(
        warn,
        !c.tools && configured,
        "Warning: tools/mcp_servers do not apply to provider type ",
        kind,
        " (no tool calling)",
    );
}

} // verus!
