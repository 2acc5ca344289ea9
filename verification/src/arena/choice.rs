//! Arena's A/B response chooser: finding its Skip button, and waiting,
//! after a Skip, for the single response it regenerates.
use vstd::prelude::*;
use crate::arena::regions::ArenaSurface;

verus! {

/// Where to click Skip. The Text surface has no chooser. A template match
/// counts only when the chooser's button row shows; with no match, a
/// showing row is clicked at its expected Skip point.
pub open spec fn skip_button_spec(
    surface: ArenaSurface,
    template_hit: Option<(i32, i32)>,
    row_visible: bool,
    expected: (i32, i32),
) -> Option<(i32, i32)> {
    if surface == ArenaSurface::Text {
        None
    } else {
        match template_hit {
            Some(p) => if row_visible { Some(p) } else { None },
            None => if row_visible { Some(expected) } else { None },
        }
    }
}

pub fn skip_button(
    surface: ArenaSurface,
    template_hit: Option<(i32, i32)>,
    row_visible: bool,
    expected: (i32, i32),
) -> (p: Option<(i32, i32)>)
    ensures
        p == skip_button_spec(surface, template_hit, row_visible, expected),
{
    match surface {
        ArenaSurface::Text => None,
        ArenaSurface::Code => match template_hit {
            Some(p) => if row_visible { Some(p) } else { None },
            None => if row_visible { Some(expected) } else { None },
        },
    }
}

/// Skip clicks repeated while the chooser keeps showing, at most.
pub const MAX_EXTRA_SKIP_CLICKS: u32 = 3;
/// Pause after seeing the Skip button, in milliseconds.
pub const SKIP_SETTLE_MS: u64 = 1200;
/// Pause between other polls, in milliseconds.
pub const POLL_MS: u64 = 1500;

/// What one poll after a Skip saw, in the order it is looked at; a later
/// field matters only when the earlier ones decided nothing.
#[derive(Clone, Copy, Debug)]
pub struct ChoicePoll {
    /// The three-minute deadline has passed.
    pub timed_out: bool,
    /// The Skip button, where it still shows.
    pub skip: Option<(i32, i32)>,
    /// A stop button or stop square shows: still generating.
    pub generating: bool,
    /// Text surface: the latest response's copy button shows.
    pub copy_ready: bool,
    /// Code surface: the Download button's state, if found.
    pub download_active: Option<bool>,
    /// Code surface: the code panel is open.
    pub code_panel: bool,
}

/// What to do after a poll.
#[derive(Clone, Copy, Debug, PartialEq, Eq, Structural)]
pub enum ChoiceAction {
    /// Give up: the single response never came.
    TimedOut,
    /// Click Skip again at the point, then pause for `SKIP_SETTLE_MS`.
    ClickSkip(i32, i32),
    /// Pause for the given milliseconds and poll again.
    Wait(u64),
    /// The single response is ready.
    Ready,
}

/// The waiting state: how many extra Skip clicks were made.
#[derive(Clone, Copy, Debug)]
pub struct ChoiceWait {
    pub extra_clicks: u32,
}

/// The response is ready on the surface: the copy button (Text), or an
/// active Download button or an open code panel (Code).
pub open spec fn response_ready(surface: ArenaSurface, poll: ChoicePoll) -> bool {
    if surface == ArenaSurface::Text {
        poll.copy_ready
    } else {
        poll.download_active == Some(true) || poll.code_panel
    }
}

/// One poll: the next state and the action.
pub open spec fn choice_step_spec(st: ChoiceWait, surface: ArenaSurface, poll: ChoicePoll) -> (ChoiceWait, ChoiceAction) {
    if poll.timed_out {
        (st, ChoiceAction::TimedOut)
    } else {
        match poll.skip {
            Some(p) => if st.extra_clicks < MAX_EXTRA_SKIP_CLICKS {
                (ChoiceWait { extra_clicks: (st.extra_clicks + 1) as u32 }, ChoiceAction::ClickSkip(p.0, p.1))
            } else {
                (st, ChoiceAction::Wait(SKIP_SETTLE_MS))
            },
            None => if poll.generating {
                (st, ChoiceAction::Wait(POLL_MS))
            } else if response_ready(surface, poll) {
                (st, ChoiceAction::Ready)
            } else {
                (st, ChoiceAction::Wait(POLL_MS))
            },
        }
    }
}

impl ChoiceWait {
    /// No extra clicks yet.
    pub fn new() -> (w: Self)
        ensures
            w.extra_clicks == 0,
    {
        ChoiceWait { extra_clicks: 0 }
    }

    /// Decide on one poll.
    pub fn step(&mut self, surface: ArenaSurface, poll: ChoicePoll) -> (a: ChoiceAction)
        requires
            old(self).extra_clicks <= MAX_EXTRA_SKIP_CLICKS,
        ensures
            (*final(self), a) == choice_step_spec(*old(self), surface, poll),
            final(self).extra_clicks <= MAX_EXTRA_SKIP_CLICKS,
    {
        if poll.timed_out {
            return ChoiceAction::TimedOut;
        }
        match poll.skip {
            Some(p) => {
                if self.extra_clicks < MAX_EXTRA_SKIP_CLICKS {
                    self.extra_clicks = self.extra_clicks + 1;
                    ChoiceAction::ClickSkip(p.0, p.1)
                } else {
                    ChoiceAction::Wait(SKIP_SETTLE_MS)
                }
            },
            None => {
                if poll.generating {
                    return ChoiceAction::Wait(POLL_MS);
                }
                let ready = match surface {
                    ArenaSurface::Text => poll.copy_ready,
                    ArenaSurface::Code => {
                        let active = match poll.download_active {
                            Some(b) => b,
                            None => false,
                        };
                        active || poll.code_panel
                    },
                };
                if ready {
                    ChoiceAction::Ready
                } else {
                    ChoiceAction::Wait(POLL_MS)
                }
            },
        }
    }
}

/// The state and the number of Skip clicks after a run of polls from the
/// start.
pub open spec fn choice_run(surface: ArenaSurface, polls: Seq<ChoicePoll>) -> (ChoiceWait, nat)
    decreases polls.len(),
{
    if polls.len() == 0 {
        (ChoiceWait { extra_clicks: 0 }, 0)
    } else {
        let prev = choice_run(surface, polls.drop_last());
        let next = choice_step_spec(prev.0, surface, polls.last());
        (next.0, if next.1 is ClickSkip { prev.1 + 1 } else { prev.1 })
    }
}

/// However many polls come back with the Skip button still showing, the
/// wait clicks Skip again at most three times.
pub proof fn law_skip_clicks_bounded(surface: ArenaSurface, polls: Seq<ChoicePoll>)
    ensures
        choice_run(surface, polls).1 <= MAX_EXTRA_SKIP_CLICKS,
        choice_run(surface, polls).1 == choice_run(surface, polls).0.extra_clicks,
    decreases polls.len(),
{
    if polls.len() > 0 {
        law_skip_clicks_bounded(surface, polls.drop_last());
    }
}

/// A poll past the deadline always ends the wait, and a poll that finds
/// the response ready with no Skip button and nothing generating always
/// reports it ready.
pub proof fn law_choice_wait_ends(st: ChoiceWait, surface: ArenaSurface, poll: ChoicePoll)
    ensures
        poll.timed_out ==> choice_step_spec(st, surface, poll).1 == ChoiceAction::TimedOut,
        !poll.timed_out && poll.skip is None && !poll.generating && response_ready(surface, poll)
            ==> choice_step_spec(st, surface, poll).1 == ChoiceAction::Ready,
{
}

} // verus!
