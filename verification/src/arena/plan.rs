//! How the Arena adapter classifies the screen: its plan of probes.
use vstd::prelude::*;
use crate::adapter::WebUiState;
use crate::arena::detect::UrlClass;
use crate::arena::regions::{ArenaSurface, Regions};
use crate::detection::{Check, Fallback, Probe, reads_controls_faithfully};

verus! {

/// Checks in a conversation on the Text surface.
pub open spec fn text_chat_checks(r: Regions) -> Seq<Check> {
    seq![
        Check::Fires(Probe::TextStopSquare, WebUiState::Generating),
        Check::Fires(Probe::ChoiceSkipButton, WebUiState::Complete),
        Check::Fires(Probe::RerunButton, WebUiState::Complete),
        Check::Fires(Probe::LatestCopyButton, WebUiState::Complete),
        Check::Fires(Probe::CopyTemplate(r.message_footer), WebUiState::Complete),
        Check::Fires(Probe::CopyTemplate(r.message_footer_inchat), WebUiState::Complete),
        Check::Fires(Probe::SendTemplate(r.send_or_stop_inchat), WebUiState::Complete),
        Check::Fires(Probe::SendButtonOnScreen, WebUiState::Complete),
    ]
}

/// Checks in a conversation on the Code surface: the Download button and
/// the code panel come first, then the stop button wherever it can sit,
/// then the signs of a finished response.
pub open spec fn code_chat_checks(r: Regions) -> Seq<Check> {
    seq![
        Check::DownloadButton,
        Check::NoteCodePanel,
        Check::Fires(Probe::StopTemplate(r.send_or_stop), WebUiState::Generating),
        Check::Fires(Probe::StopTemplate(r.send_or_stop_inchat), WebUiState::Generating),
        Check::Fires(Probe::StopTemplate(r.send_or_stop_code_mode), WebUiState::Generating),
        Check::Fires(Probe::StopButtonOnScreen, WebUiState::Generating),
        Check::Fires(Probe::ChoiceSkipButton, WebUiState::Complete),
        Check::Fires(Probe::RerunButton, WebUiState::Complete),
        Check::CodePanelSeen(WebUiState::Complete),
        Check::Fires(Probe::CopyTemplate(r.message_footer), WebUiState::Complete),
        Check::Fires(Probe::CopyTemplate(r.message_footer_inchat), WebUiState::Complete),
        Check::Fires(Probe::SendTemplate(r.send_or_stop), WebUiState::Complete),
        Check::Fires(Probe::SendTemplate(r.send_or_stop_inchat), WebUiState::Complete),
        Check::Fires(Probe::SendTemplate(r.send_or_stop_code_mode), WebUiState::Complete),
        Check::Fires(Probe::SendButtonOnScreen, WebUiState::Complete),
    ]
}

/// Arena's plan, made only of reads: a full-chat modal or an error banner
/// wins anywhere; then, off the site, nothing is known; the home page is
/// Ready; in a conversation the surface's checks run and the
/// conversation's variance decides last; with no URL the calibrated prompt
/// button decides.
pub open spec fn arena_plan_spec(url: UrlClass, r: Regions) -> (Seq<Check>, Fallback) {
    let head = seq![
        Check::Fires(Probe::ChatFullModal, WebUiState::ChatFull),
        Check::Fires(Probe::ErrorBanner, WebUiState::Error),
    ];
    match url {
        UrlClass::OffSite => (head, Fallback::State(WebUiState::Unknown)),
        UrlClass::Home => (
            head + seq![Check::Fires(Probe::SendTemplate(r.send_or_stop), WebUiState::Ready)],
            Fallback::State(WebUiState::Ready),
        ),
        UrlClass::InChat => (
            head + if r.surface == ArenaSurface::Text {
                text_chat_checks(r)
            } else {
                code_chat_checks(r)
            },
            Fallback::Variance,
        ),
        UrlClass::Unknown => (
            head + seq![
                Check::Fires(Probe::StopTemplate(r.send_or_stop), WebUiState::Generating),
                Check::Fires(Probe::SendTemplate(r.send_or_stop), WebUiState::Ready),
            ],
            Fallback::State(WebUiState::Unknown),
        ),
    }
}

/// Whatever the page and the layout, Arena's plan takes a stop control
/// (the text layout's stop square, the stop button's template anywhere, a
/// stop button along the prompt's edge) for Generating and a finished
/// response's copy button for Complete, and looks for every stop control
/// first. In a conversation the plan does look for them: the stop square on
/// the Text surface, and on the Code surface the stop button along the
/// prompt's edge and its template at each calibrated place.
pub proof fn law_arena_plan_reads_controls(url: UrlClass, r: Regions)
    ensures
        reads_controls_faithfully(arena_plan_spec(url, r).0),
        url == UrlClass::InChat && r.surface == ArenaSurface::Text
            ==> arena_plan_spec(url, r).0.contains(Check::Fires(Probe::TextStopSquare, WebUiState::Generating)),
        url == UrlClass::InChat && r.surface == ArenaSurface::Code ==> {
            let c = arena_plan_spec(url, r).0;
            &&& c.contains(Check::Fires(Probe::StopButtonOnScreen, WebUiState::Generating))
            &&& c.contains(Check::Fires(Probe::StopTemplate(r.send_or_stop), WebUiState::Generating))
            &&& c.contains(Check::Fires(Probe::StopTemplate(r.send_or_stop_inchat), WebUiState::Generating))
            &&& c.contains(Check::Fires(Probe::StopTemplate(r.send_or_stop_code_mode), WebUiState::Generating))
        },
        arena_plan_spec(url, r).0[0] == Check::Fires(Probe::ChatFullModal, WebUiState::ChatFull),
        arena_plan_spec(url, r).0[1] == Check::Fires(Probe::ErrorBanner, WebUiState::Error),
        url == UrlClass::Home ==> arena_plan_spec(url, r).0.contains(Check::Fires(Probe::SendTemplate(r.send_or_stop), WebUiState::Ready))
            && arena_plan_spec(url, r).1 == Fallback::State(WebUiState::Ready),
        url == UrlClass::OffSite ==> arena_plan_spec(url, r).1 == Fallback::State(WebUiState::Unknown),
        url == UrlClass::InChat ==> arena_plan_spec(url, r).1 == Fallback::Variance,
{
    let c = arena_plan_spec(url, r).0;
    if url == UrlClass::Home {
        assert(c[2] == Check::Fires(Probe::SendTemplate(r.send_or_stop), WebUiState::Ready));
    }
    if url == UrlClass::InChat && r.surface == ArenaSurface::Text {
        assert(c[2] == Check::Fires(Probe::TextStopSquare, WebUiState::Generating));
    }
    if url == UrlClass::InChat && r.surface == ArenaSurface::Code {
        assert(c[4] == Check::Fires(Probe::StopTemplate(r.send_or_stop), WebUiState::Generating));
        assert(c[5] == Check::Fires(Probe::StopTemplate(r.send_or_stop_inchat), WebUiState::Generating));
        assert(c[6] == Check::Fires(Probe::StopTemplate(r.send_or_stop_code_mode), WebUiState::Generating));
        assert(c[7] == Check::Fires(Probe::StopButtonOnScreen, WebUiState::Generating));
    }
}

fn fires(v: &mut Vec<Check>, p: Probe, s: WebUiState)
    ensures
        final(v)@ == old(v)@.push(Check::Fires(p, s)),
{
    v.push(Check::Fires(p, s));
}

/// The plan for the page the browser shows.
pub fn arena_detection_plan(url: UrlClass, r: &Regions) -> (plan: (Vec<Check>, Fallback))
    ensures
        plan.0@ == arena_plan_spec(url, *r).0,
        plan.1 == arena_plan_spec(url, *r).1,
{
    let mut v: Vec<Check> = Vec::new();
    fires(&mut v, Probe::ChatFullModal, WebUiState::ChatFull);
    fires(&mut v, Probe::ErrorBanner, WebUiState::Error);
    let fallback = match url {
        UrlClass::OffSite => Fallback::State(WebUiState::Unknown),
        UrlClass::Home => {
            fires(&mut v, Probe::SendTemplate(r.send_or_stop), WebUiState::Ready);
            Fallback::State(WebUiState::Ready)
        },
        UrlClass::InChat => {
            match r.surface {
                ArenaSurface::Text => {
                    fires(&mut v, Probe::TextStopSquare, WebUiState::Generating);
                    fires(&mut v, Probe::ChoiceSkipButton, WebUiState::Complete);
                    fires(&mut v, Probe::RerunButton, WebUiState::Complete);
                    fires(&mut v, Probe::LatestCopyButton, WebUiState::Complete);
                    fires(&mut v, Probe::CopyTemplate(r.message_footer), WebUiState::Complete);
                    fires(&mut v, Probe::CopyTemplate(r.message_footer_inchat), WebUiState::Complete);
                    fires(&mut v, Probe::SendTemplate(r.send_or_stop_inchat), WebUiState::Complete);
                    fires(&mut v, Probe::SendButtonOnScreen, WebUiState::Complete);
                },
                ArenaSurface::Code => {
                    v.push(Check::DownloadButton);
                    v.push(Check::NoteCodePanel);
                    fires(&mut v, Probe::StopTemplate(r.send_or_stop), WebUiState::Generating);
                    fires(&mut v, Probe::StopTemplate(r.send_or_stop_inchat), WebUiState::Generating);
                    fires(&mut v, Probe::StopTemplate(r.send_or_stop_code_mode), WebUiState::Generating);
                    fires(&mut v, Probe::StopButtonOnScreen, WebUiState::Generating);
                    fires(&mut v, Probe::ChoiceSkipButton, WebUiState::Complete);
                    fires(&mut v, Probe::RerunButton, WebUiState::Complete);
                    v.push(Check::CodePanelSeen(WebUiState::Complete));
                    fires(&mut v, Probe::CopyTemplate(r.message_footer), WebUiState::Complete);
                    fires(&mut v, Probe::CopyTemplate(r.message_footer_inchat), WebUiState::Complete);
                    fires(&mut v, Probe::SendTemplate(r.send_or_stop), WebUiState::Complete);
                    fires(&mut v, Probe::SendTemplate(r.send_or_stop_inchat), WebUiState::Complete);
                    fires(&mut v, Probe::SendTemplate(r.send_or_stop_code_mode), WebUiState::Complete);
                    fires(&mut v, Probe::SendButtonOnScreen, WebUiState::Complete);
                },
            }
            Fallback::Variance
        },
        UrlClass::Unknown => {
            fires(&mut v, Probe::StopTemplate(r.send_or_stop), WebUiState::Generating);
            fires(&mut v, Probe::SendTemplate(r.send_or_stop), WebUiState::Ready);
            Fallback::State(WebUiState::Unknown)
        },
    };
    proof {
        assert(v@ =~= arena_plan_spec(url, *r).0);
    }
    (v, fallback)
}

/// Whether Arena's stop-square watchdog runs before a detection: on the
/// site (or when the URL could not be read), never off it. The watchdog
/// clicks, so it is kept out of the detection plan, which only reads.
pub open spec fn watchdog_applies(url: UrlClass) -> bool {
    url != UrlClass::OffSite
}

/// The actions to run before detecting: the stop-square watchdog where it
/// applies.
pub fn arena_watchdog_plan(url: UrlClass) -> (v: Vec<Probe>)
    ensures
        v@ == (if watchdog_applies(url) { seq![Probe::StopSquareWatchdog] } else { Seq::empty() }),
{
    match url {
        UrlClass::OffSite => Vec::new(),
        _ => vec![Probe::StopSquareWatchdog],
    }
}

/// The detection plan never clicks: it holds no watchdog.
pub proof fn law_detection_only_reads(url: UrlClass, r: Regions)
    ensures
        forall|i: int| 0 <= i < arena_plan_spec(url, r).0.len()
            ==> #[trigger] arena_plan_spec(url, r).0[i] != Check::Fires(Probe::StopSquareWatchdog, WebUiState::Unknown),
{
}

} // verus!
