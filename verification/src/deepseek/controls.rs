//! DeepSeek's model selector and its Deep-thinking and Smart-search
//! toggles: reading their state from template matches, and deciding
//! whether to click.
use vstd::prelude::*;
use crate::adapter::{AdapterError, Region, div_toward_zero, half_toward_zero};
use crate::session::DeepSeekModelMode;

verus! {

/// A toggle's state as its templates show it.
#[derive(Clone, Copy, Debug, PartialEq, Eq, Structural)]
pub enum ToggleState {
    On,
    Off,
    Unknown,
}

/// The state from which templates matched: when both did, the one that
/// scored at least as well as the other (`on_not_worse`: the On match did).
pub open spec fn toggle_state_spec(on_hit: bool, off_hit: bool, on_not_worse: bool) -> ToggleState {
    if on_hit && off_hit {
        if on_not_worse { ToggleState::On } else { ToggleState::Off }
    } else if on_hit {
        ToggleState::On
    } else if off_hit {
        ToggleState::Off
    } else {
        ToggleState::Unknown
    }
}

pub fn toggle_state(on_hit: bool, off_hit: bool, on_not_worse: bool) -> (s: ToggleState)
    ensures
        s == toggle_state_spec(on_hit, off_hit, on_not_worse),
{
    if on_hit && off_hit {
        if on_not_worse { ToggleState::On } else { ToggleState::Off }
    } else if on_hit {
        ToggleState::On
    } else if off_hit {
        ToggleState::Off
    } else {
        ToggleState::Unknown
    }
}

/// The toggle shows the wanted state.
pub open spec fn shows(enabled: bool, s: ToggleState) -> bool {
    (enabled && s == ToggleState::On) || (!enabled && s == ToggleState::Off)
}

/// What to do about a toggle.
#[derive(Clone, Copy, Debug, PartialEq, Eq, Structural)]
pub enum TogglePlan {
    /// It already shows the wanted state.
    AlreadySet,
    /// Neither template matched: its state is unknown.
    StateUnknown,
    /// The two templates scored too close to tell: leave it alone.
    LeaveAmbiguous,
    /// Click it.
    Click,
}

/// The plan before clicking: `ambiguous` when the On and Off scores lie
/// closer than the noise floor.
pub open spec fn toggle_plan_spec(enabled: bool, s: ToggleState, ambiguous: bool) -> TogglePlan {
    if shows(enabled, s) {
        TogglePlan::AlreadySet
    } else if s == ToggleState::Unknown {
        TogglePlan::StateUnknown
    } else if ambiguous {
        TogglePlan::LeaveAmbiguous
    } else {
        TogglePlan::Click
    }
}

pub fn toggle_plan(enabled: bool, s: ToggleState, ambiguous: bool) -> (p: TogglePlan)
    ensures
        p == toggle_plan_spec(enabled, s, ambiguous),
{
    let on = match s {
        ToggleState::On => true,
        _ => false,
    };
    let off = match s {
        ToggleState::Off => true,
        _ => false,
    };
    if (enabled && on) || (!enabled && off) {
        TogglePlan::AlreadySet
    } else if !on && !off {
        TogglePlan::StateUnknown
    } else if ambiguous {
        TogglePlan::LeaveAmbiguous
    } else {
        TogglePlan::Click
    }
}

/// After the click: the toggle shows the wanted state, or its scores are
/// too close to tell (a correct click does not always move them).
pub fn toggle_click_accepted(enabled: bool, after: ToggleState, ambiguous: bool) -> (b: bool)
    ensures
        b == (shows(enabled, after) || ambiguous),
{
    let shown = match after {
        ToggleState::On => enabled,
        ToggleState::Off => !enabled,
        ToggleState::Unknown => false,
    };
    shown || ambiguous
}

/// The selected model from which selector templates matched: when both
/// did, Expert if its match scored at least as well (`expert_not_worse`).
pub open spec fn selected_model_spec(instant_hit: bool, expert_hit: bool, expert_not_worse: bool) -> Option<DeepSeekModelMode> {
    if instant_hit && expert_hit {
        if expert_not_worse { Some(DeepSeekModelMode::Expert) } else { Some(DeepSeekModelMode::Instant) }
    } else if expert_hit {
        Some(DeepSeekModelMode::Expert)
    } else if instant_hit {
        Some(DeepSeekModelMode::Instant)
    } else {
        None
    }
}

pub fn selected_model(instant_hit: bool, expert_hit: bool, expert_not_worse: bool) -> (m: Option<DeepSeekModelMode>)
    ensures
        m == selected_model_spec(instant_hit, expert_hit, expert_not_worse),
{
    if instant_hit && expert_hit {
        if expert_not_worse { Some(DeepSeekModelMode::Expert) } else { Some(DeepSeekModelMode::Instant) }
    } else if expert_hit {
        Some(DeepSeekModelMode::Expert)
    } else if instant_hit {
        Some(DeepSeekModelMode::Instant)
    } else {
        None
    }
}

/// Where to click in the selector's matched bounds: a quarter across for
/// Instant, three quarters across for Expert, at mid-height.
pub open spec fn model_click_spec(b: Region, model: DeepSeekModelMode) -> (int, int) {
    let w = b.x2 - b.x1;
    (
        match model {
            DeepSeekModelMode::Instant => b.x1 + div_toward_zero(w, 4),
            DeepSeekModelMode::Expert => b.x1 + div_toward_zero(w * 3, 4),
        },
        half_toward_zero(b.y1 + b.y2),
    )
}

pub fn model_click_point(b: Region, model: DeepSeekModelMode) -> (p: (i32, i32))
    requires
        i32::MIN <= b.x2 - b.x1 <= i32::MAX,
        i32::MIN <= (b.x2 - b.x1) * 3 <= i32::MAX,
        i32::MIN <= b.y1 + b.y2 <= i32::MAX,
        i32::MIN <= b.x1 + div_toward_zero((b.x2 - b.x1) * 3, 4) <= i32::MAX,
        i32::MIN <= b.x1 + div_toward_zero(b.x2 - b.x1, 4) <= i32::MAX,
    ensures
        p.0 == model_click_spec(b, model).0,
        p.1 == model_click_spec(b, model).1,
{
    let w = b.x2 - b.x1;
    let x = match model {
        DeepSeekModelMode::Instant => b.x1 + w / 4,
        DeepSeekModelMode::Expert => b.x1 + w * 3 / 4,
    };
    (x, (b.y1 + b.y2) / 2)
}

/// The model the selector shows, as the adapter reports it.
pub fn model_name(m: Option<DeepSeekModelMode>) -> (r: Option<&'static str>)
    ensures
        match m {
            Some(DeepSeekModelMode::Expert) => r matches Some(s) && s@ == "Expert"@,
            Some(DeepSeekModelMode::Instant) => r matches Some(s) && s@ == "Instant"@,
            None => r is None,
        },
{
    match m {
        Some(DeepSeekModelMode::Expert) => Some("Expert"),
        Some(DeepSeekModelMode::Instant) => Some("Instant"),
        None => None,
    }
}

/// What to do about the model selector.
#[derive(Clone, Copy, Debug, PartialEq, Eq, Structural)]
pub enum ModelPlan {
    /// The wanted model is selected.
    AlreadySelected,
    /// No selector template matched.
    SelectorNotFound,
    /// Click the wanted half of the selector.
    Click,
}

pub open spec fn model_plan_spec(current: Option<DeepSeekModelMode>, wanted: DeepSeekModelMode) -> ModelPlan {
    if current == Some(wanted) {
        ModelPlan::AlreadySelected
    } else if current is None {
        ModelPlan::SelectorNotFound
    } else {
        ModelPlan::Click
    }
}

pub fn model_plan(current: Option<DeepSeekModelMode>, wanted: DeepSeekModelMode) -> (p: ModelPlan)
    ensures
        p == model_plan_spec(current, wanted),
{
    match current {
        None => ModelPlan::SelectorNotFound,
        Some(m) => {
            if m == wanted {
                ModelPlan::AlreadySelected
            } else {
                ModelPlan::Click
            }
        },
    }
}

/// The error for a selector or toggle whose state no template showed:
/// `NotFound` of the given thing.
pub fn state_not_found(what: &str) -> (e: AdapterError)
    ensures
        e matches AdapterError::NotFound { what: w } && w@ == what@,
{
    AdapterError::NotFound { what: String::from_str(what) }
}

/// The thing not found when a toggle's state is unknown: "DeepSeek
/// <label> toggle state".
pub fn toggle_state_what(label: &str) -> (s: String)
    ensures
        s@ == "DeepSeek "@ + label@ + " toggle state"@,
{
    let mut s = String::from_str("DeepSeek ");
    s.append(label);
    s.append(" toggle state");
    s
}

pub open spec fn bool_text(b: bool) -> Seq<char> {
    if b { "true"@ } else { "false"@ }
}

/// The error when a toggle click did not show the wanted state.
pub fn toggle_unverified_error(label: &str, enabled: bool) -> (e: AdapterError)
    ensures
        e matches AdapterError::Input(s)
            && s@ == "DeepSeek "@ + label@ + " toggle click did not verify target state "@ + bool_text(enabled),
{
    let mut s = String::from_str("DeepSeek ");
    s.append(label);
    s.append(" toggle click did not verify target state ");
    if enabled {
        s.append("true");
    } else {
        s.append("false");
    }
    AdapterError::Input(s)
}

} // verus!
