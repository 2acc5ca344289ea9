//! Classifying the screen by a plan of probes.
//!
//! An adapter reads the screen by probes (a template match in a region, a
//! pixel scan). Which probes run, in which order, and what each answer means is a plan: the first
//! probe that fires decides the state. `Detection` walks a plan; the caller
//! runs each probe it asks for and records the answer.
use vstd::prelude::*;
use crate::adapter::{Region, WebUiState};
use crate::stats::{PixelStats, spread_of, var_gt};

verus! {

/// One look at the screen.
#[derive(Clone, Copy, Debug, PartialEq, Eq, Structural)]
pub enum Probe {
    /// The conversation-too-long modal's template.
    ChatFullModal,
    /// The error banner's template.
    ErrorBanner,
    /// Click Arena's white stop square when it shows (fires when clicked).
    /// An action, run before detection and never in a detection plan.
    StopSquareWatchdog,
    /// The send button's template in the region.
    SendTemplate(Region),
    /// The stop button's template in the region.
    StopTemplate(Region),
    /// The copy button's template in the region.
    CopyTemplate(Region),
    /// The response-actions row's template in the region.
    ResponseActionsTemplate(Region),
    /// The code panel's Download button: active, dimmed or absent.
    DownloadButton,
    /// Whether the code panel is open.
    CodePanel,
    /// Arena's stop square in the text layout.
    TextStopSquare,
    /// A stop button anywhere along the prompt's right edge.
    StopButtonOnScreen,
    /// The Skip button of Arena's A/B response chooser.
    ChoiceSkipButton,
    /// The rerun icon in the prompt's action slot.
    RerunButton,
    /// The latest text response's copy button.
    LatestCopyButton,
    /// A send button anywhere along the prompt's right edge.
    SendButtonOnScreen,
    /// Close DeepSeek's document preview panel when it is open.
    DismissDocPanel,
    /// DeepSeek's model selector on the home page.
    ModelSelector,
    /// DeepSeek's white stop square in the region.
    WhiteStopSquare(Region),
    /// DeepSeek's send button (template or blue fill) in the region.
    SendButtonIn(Region),
    /// DeepSeek's submit-time "New chat" pill.
    SubmitNewChatButton,
}

/// What a probe found.
#[derive(Clone, Copy, Debug, PartialEq, Eq, Structural)]
pub enum Answer {
    /// Whether the probe fired.
    Seen(bool),
    /// The Download button: `Some(active)`, or `None` when absent.
    Download(Option<bool>),
}

/// One step of a plan.
#[derive(Clone, Copy, Debug, PartialEq, Eq, Structural)]
pub enum Check {
    /// Run the probe; when it fires, the screen is in this state.
    Fires(Probe, WebUiState),
    /// Run the probe for its effect; the answer decides nothing.
    Act(Probe),
    /// The Download button: active means Complete, dimmed Generating,
    /// absent goes on.
    DownloadButton,
    /// Note whether the code panel is open, for a later `CodePanelSeen`.
    NoteCodePanel,
    /// The state when the noted code panel was open; no probe.
    CodePanelSeen(WebUiState),
}

/// A probe that looks for a stop control: it shows only while a response
/// is being generated.
pub open spec fn stop_probe(p: Probe) -> bool {
    match p {
        Probe::TextStopSquare | Probe::StopTemplate(_) | Probe::StopButtonOnScreen | Probe::WhiteStopSquare(_) => true,
        _ => false,
    }
}

/// A probe that looks for the controls under a finished response (its copy
/// button or its row of response actions).
pub open spec fn finished_probe(p: Probe) -> bool {
    match p {
        Probe::CopyTemplate(_) | Probe::ResponseActionsTemplate(_) | Probe::LatestCopyButton => true,
        _ => false,
    }
}

/// The plan reads the screen as the controls mean: a stop control that
/// fires decides Generating, a finished response's controls decide
/// Complete, and every stop control is looked for before any of those; the
/// full-chat modal means ChatFull and the error banner Error.
pub open spec fn reads_controls_faithfully(c: Seq<Check>) -> bool {
    &&& forall|i: int| 0 <= i < c.len() ==> (#[trigger] c[i] matches Check::Fires(p, s) ==> (stop_probe(p) ==> s == WebUiState::Generating))
    &&& forall|i: int| 0 <= i < c.len() ==> (#[trigger] c[i] matches Check::Fires(p, s) ==> (finished_probe(p) ==> s == WebUiState::Complete))
    &&& forall|i: int, j: int| 0 <= i < c.len() && 0 <= j < c.len() && stop_check(#[trigger] c[i]) && finished_check(#[trigger] c[j]) ==> i < j
    &&& forall|i: int| 0 <= i < c.len() ==> (#[trigger] c[i] matches Check::Fires(p, s) ==> (p == Probe::ChatFullModal ==> s == WebUiState::ChatFull))
    &&& forall|i: int| 0 <= i < c.len() ==> (#[trigger] c[i] matches Check::Fires(p, s) ==> (p == Probe::ErrorBanner ==> s == WebUiState::Error))
}

/// A check that fires on a stop control.
pub open spec fn stop_check(c: Check) -> bool {
    c matches Check::Fires(p, _) && stop_probe(p)
}

/// A check that fires on a finished response's controls.
pub open spec fn finished_check(c: Check) -> bool {
    c matches Check::Fires(p, _) && finished_probe(p)
}

/// What decides when no check fired.
#[derive(Clone, Copy, Debug, PartialEq, Eq, Structural)]
pub enum Fallback {
    State(WebUiState),
    /// Compare the conversation's variance with the previous poll.
    Variance,
}

/// What the caller does next.
#[derive(Clone, Copy, Debug, PartialEq, Eq, Structural)]
pub enum DetectStep {
    /// Run this probe and record its answer.
    Run(Probe),
    /// The screen is in this state.
    Verdict(WebUiState),
    /// Read the conversation's variance and decide with `VarianceTrack`.
    VarianceFallback,
}

/// The probe a check runs.
pub open spec fn probe_of(c: Check) -> Probe {
    match c {
        Check::Fires(p, _) => p,
        Check::Act(p) => p,
        Check::DownloadButton => Probe::DownloadButton,
        Check::NoteCodePanel => Probe::CodePanel,
        Check::CodePanelSeen(_) => Probe::CodePanel,
    }
}

/// From check `i` on, the first check that needs a probe, skipping
/// `CodePanelSeen` checks; the flag says a `CodePanelSeen` there fires
/// (the code panel was noted open).
pub open spec fn settle(checks: Seq<Check>, i: int, code_panel: bool) -> (int, bool)
    decreases checks.len() - i,
{
    if i < 0 || i >= checks.len() {
        (checks.len() as int, false)
    } else if checks[i] is CodePanelSeen {
        if code_panel {
            (i, true)
        } else {
            settle(checks, i + 1, code_panel)
        }
    } else {
        (i, false)
    }
}

fn is_panel_seen(c: Check) -> (b: bool)
    ensures
        b == (c is CodePanelSeen),
{
    match c {
        Check::CodePanelSeen(_) => true,
        _ => false,
    }
}

/// A plan being walked.
pub struct Detection {
    checks: Vec<Check>,
    fallback: Fallback,
    cursor: usize,
    code_panel: bool,
    decided: Option<WebUiState>,
}

impl Detection {
    pub closed spec fn checks_spec(&self) -> Seq<Check> {
        self.checks@
    }

    pub closed spec fn fallback_spec(&self) -> Fallback {
        self.fallback
    }

    pub closed spec fn cursor_spec(&self) -> int {
        self.cursor as int
    }

    pub closed spec fn code_panel_spec(&self) -> bool {
        self.code_panel
    }

    pub closed spec fn decided_spec(&self) -> Option<WebUiState> {
        self.decided
    }

    pub closed spec fn wf(&self) -> bool {
        self.cursor <= self.checks.len()
    }

    /// Start walking `checks`, with `fallback` when none fires.
    pub fn new(checks: Vec<Check>, fallback: Fallback) -> (d: Self)
        ensures
            d.wf(),
            d.checks_spec() == checks@,
            d.fallback_spec() == fallback,
            d.cursor_spec() == 0,
            !d.code_panel_spec(),
            d.decided_spec() is None,
    {
        Detection { checks, fallback, cursor: 0, code_panel: false, decided: None }
    }

    /// What to do next: run the next probe, or the verdict.
    pub fn next(&mut self) -> (step: DetectStep)
        requires
            old(self).wf(),
        ensures
            final(self).wf(),
            final(self).checks_spec() == old(self).checks_spec(),
            final(self).fallback_spec() == old(self).fallback_spec(),
            final(self).code_panel_spec() == old(self).code_panel_spec(),
            old(self).decided_spec() matches Some(s) ==> step == DetectStep::Verdict(s) && *final(self) == *old(self),
            old(self).decided_spec() is None ==> ({
                let st = settle(old(self).checks_spec(), old(self).cursor_spec(), old(self).code_panel_spec());
                &&& final(self).cursor_spec() == st.0
                &&& if st.1 {
                    step == DetectStep::Verdict(old(self).checks_spec()[st.0]->CodePanelSeen_0)
                        && final(self).decided_spec() == Some(old(self).checks_spec()[st.0]->CodePanelSeen_0)
                } else if st.0 >= old(self).checks_spec().len() {
                    final(self).decided_spec() is None && step == match old(self).fallback_spec() {
                        Fallback::State(s) => DetectStep::Verdict(s),
                        Fallback::Variance => DetectStep::VarianceFallback,
                    }
                } else {
                    final(self).decided_spec() is None && step == DetectStep::Run(probe_of(old(self).checks_spec()[st.0]))
                }
            }),
    {
        if let Some(s) = self.decided {
            return DetectStep::Verdict(s);
        }
        let mut i = self.cursor;
        while i < self.checks.len() && !self.code_panel && is_panel_seen(self.checks[i])
            invariant
                self.cursor <= i <= self.checks.len(),
                settle(self.checks@, self.cursor as int, self.code_panel) == settle(self.checks@, i as int, self.code_panel),
            decreases self.checks.len() - i,
        {
            i += 1;
        }
        self.cursor = i;
        if i < self.checks.len() {
            match self.checks[i] {
                Check::CodePanelSeen(s) => {
                    self.decided = Some(s);
                    DetectStep::Verdict(s)
                },
                Check::Fires(p, _) => DetectStep::Run(p),
                Check::Act(p) => DetectStep::Run(p),
                Check::DownloadButton => DetectStep::Run(Probe::DownloadButton),
                Check::NoteCodePanel => DetectStep::Run(Probe::CodePanel),
            }
        } else {
            match self.fallback {
                Fallback::State(s) => DetectStep::Verdict(s),
                Fallback::Variance => DetectStep::VarianceFallback,
            }
        }
    }

    /// Record the answer of the probe `next` asked for.
    pub fn record(&mut self, a: Answer)
        requires
            old(self).wf(),
            old(self).decided_spec() is None,
            old(self).cursor_spec() < old(self).checks_spec().len(),
        ensures
            final(self).wf(),
            final(self).checks_spec() == old(self).checks_spec(),
            final(self).fallback_spec() == old(self).fallback_spec(),
            ({
                let c = old(self).checks_spec()[old(self).cursor_spec()];
                let next = old(self).cursor_spec() + 1;
                match c {
                    Check::Fires(_, s) => final(self).code_panel_spec() == old(self).code_panel_spec() && if a
                        == Answer::Seen(true) {
                        final(self).decided_spec() == Some(s) && final(self).cursor_spec() == old(self).cursor_spec()
                    } else {
                        final(self).decided_spec() is None && final(self).cursor_spec() == next
                    },
                    Check::DownloadButton => final(self).code_panel_spec() == old(self).code_panel_spec() && if a
                        == Answer::Download(Some(true)) {
                        final(self).decided_spec() == Some(WebUiState::Complete)
                            && final(self).cursor_spec() == old(self).cursor_spec()
                    } else if a == Answer::Download(Some(false)) {
                        final(self).decided_spec() == Some(WebUiState::Generating)
                            && final(self).cursor_spec() == old(self).cursor_spec()
                    } else {
                        final(self).decided_spec() is None && final(self).cursor_spec() == next
                    },
                    Check::NoteCodePanel => final(self).decided_spec() is None && final(self).cursor_spec() == next
                        && final(self).code_panel_spec() == (a == Answer::Seen(true)),
                    _ => final(self).decided_spec() is None && final(self).cursor_spec() == next
                        && final(self).code_panel_spec() == old(self).code_panel_spec(),
                }
            }),
    {
        let c = self.checks[self.cursor];
        match c {
            Check::Fires(_, s) => {
                if a == Answer::Seen(true) {
                    self.decided = Some(s);
                } else {
                    self.cursor = self.cursor + 1;
                }
            },
            Check::DownloadButton => {
                if a == Answer::Download(Some(true)) {
                    self.decided = Some(WebUiState::Complete);
                } else if a == Answer::Download(Some(false)) {
                    self.decided = Some(WebUiState::Generating);
                } else {
                    self.cursor = self.cursor + 1;
                }
            },
            Check::NoteCodePanel => {
                self.code_panel = a == Answer::Seen(true);
                self.cursor = self.cursor + 1;
            },
            _ => {
                self.cursor = self.cursor + 1;
            },
        }
    }
}

// ── The variance fallback ───────────────────────────────────────────────────

/// How the conversation's pixel variance compares with the previous poll.
#[derive(Clone, Copy, Debug, PartialEq, Eq, Structural)]
pub enum VarianceReading {
    /// No previous poll to compare with.
    First,
    /// It moved by more than 50: content is streaming.
    Jump,
    /// It is above 200 and moved by less than 20.
    Steady,
    /// Anything else.
    Other,
}

/// The reading of the conversation's variance now (`cur`) against the
/// previous poll (`prev`), both statistics of captures of the same region:
/// a move of more than 50 is a jump; a variance above 200 that moved by
/// less than 20 is steady, when steadiness counts.
pub open spec fn reading_spec(prev: Option<PixelStats>, cur: PixelStats, steady_counts: bool) -> VarianceReading {
    match prev {
        None => VarianceReading::First,
        Some(p) => {
            let n = cur.n as int;
            let vc = spread_of(n, cur.sum as int, cur.sq_sum as int);
            let vp = spread_of(n, p.sum as int, p.sq_sum as int);
            if vc - vp > 50 * n * n || vp - vc > 50 * n * n {
                VarianceReading::Jump
            } else if steady_counts && var_gt(n, cur.sum as int, cur.sq_sum as int, 200) && vc - vp < 20 * n * n
                && vp - vc < 20 * n * n {
                VarianceReading::Steady
            } else {
                VarianceReading::Other
            }
        },
    }
}

pub fn variance_reading(prev: Option<PixelStats>, cur: PixelStats, steady_counts: bool) -> (r: VarianceReading)
    requires
        cur.wf(),
        match prev {
            Some(p) => p.wf() && p.n == cur.n,
            None => true,
        },
    ensures
        r == reading_spec(prev, cur, steady_counts),
{
    match prev {
        None => VarianceReading::First,
        Some(p) => {
            if cur.n == 0 {
                return VarianceReading::Other;
            }
            if cur.variances_combo_above(&p, 1, 1, 50) || p.variances_combo_above(&cur, 1, 1, 50) {
                VarianceReading::Jump
            } else if steady_counts && cur.variance_above(200) && !cur.variances_combo_at_least(&p, 1, 1, 20)
                && !p.variances_combo_at_least(&cur, 1, 1, 20) {
                VarianceReading::Steady
            } else {
                VarianceReading::Other
            }
        },
    }
}

/// The previous sample when it can be compared with `cur`: plausible and
/// of the same size (a region that changed size is not comparable).
pub open spec fn comparable(prev: Option<PixelStats>, cur: PixelStats) -> Option<PixelStats> {
    match prev {
        Some(p) => if p.wf() && p.n == cur.n { Some(p) } else { None },
        None => None,
    }
}

/// The reading of two samples as they come from the screen: an implausible
/// current sample reads as `Other`; a previous sample that cannot be
/// compared counts as none.
pub open spec fn sample_reading_spec(prev: Option<PixelStats>, cur: PixelStats, steady_counts: bool) -> VarianceReading {
    if !cur.wf() {
        VarianceReading::Other
    } else {
        reading_spec(comparable(prev, cur), cur, steady_counts)
    }
}

pub fn sample_reading(prev: Option<PixelStats>, cur: PixelStats, steady_counts: bool) -> (r: VarianceReading)
    ensures
        r == sample_reading_spec(prev, cur, steady_counts),
{
    if !cur.plausible() {
        return VarianceReading::Other;
    }
    let usable = match prev {
        Some(p) => if p.plausible() && p.n == cur.n { Some(p) } else { None },
        None => None,
    };
    variance_reading(usable, cur, steady_counts)
}

/// What the variance fallback remembers between polls.
#[derive(Clone, Copy, Debug, PartialEq, Eq, Structural)]
pub struct VarianceTrack {
    /// Consecutive steady polls.
    pub stable_polls: u32,
    /// Whether the variance jumped since the last submission.
    pub saw_change: bool,
}

impl VarianceTrack {
    /// A fresh track, as after a submission.
    pub fn new() -> (t: Self)
        ensures
            t.stable_polls == 0,
            !t.saw_change,
    {
        VarianceTrack { stable_polls: 0, saw_change: false }
    }

    /// Decide a poll by the variance. A jump means Generating. Steady
    /// variance after an earlier jump still means Generating (completion
    /// must be shown by a ready UI signal); steady variance that never
    /// jumped, and anything else, is Unknown.
    pub fn decide(&mut self, reading: VarianceReading) -> (s: WebUiState)
        ensures
            reading == VarianceReading::Jump ==> s == WebUiState::Generating && final(self).saw_change
                && final(self).stable_polls == 0,
            reading == VarianceReading::Steady ==> s == (if old(self).saw_change {
                WebUiState::Generating
            } else {
                WebUiState::Unknown
            }) && final(self).saw_change == old(self).saw_change && final(self).stable_polls == (if old(
                self,
            ).stable_polls < u32::MAX {
                old(self).stable_polls + 1
            } else {
                old(self).stable_polls as int
            }),
            (reading == VarianceReading::First || reading == VarianceReading::Other) ==> s == WebUiState::Unknown
                && final(self).saw_change == old(self).saw_change && final(self).stable_polls == 0,
    {
        match reading {
            VarianceReading::Jump => {
                self.stable_polls = 0;
                self.saw_change = true;
                WebUiState::Generating
            },
            VarianceReading::Steady => {
                if self.stable_polls < u32::MAX {
                    self.stable_polls = self.stable_polls + 1;
                }
                if self.saw_change {
                    WebUiState::Generating
                } else {
                    WebUiState::Unknown
                }
            },
            _ => {
                self.stable_polls = 0;
                WebUiState::Unknown
            },
        }
    }
}

} // verus!
