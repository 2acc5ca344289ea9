//! How the DeepSeek adapter classifies the screen: its plan of probes.
use vstd::prelude::*;
use crate::adapter::{Region, WebUiState};
use crate::deepseek::detect::UrlClass;
use crate::deepseek::layout::send_scan_regions_for_current_input;
use crate::deepseek::regions::Regions;
use crate::detection::{Check, Fallback, Probe, reads_controls_faithfully};

verus! {

/// The send-rail regions in the order the current layout tries them.
pub open spec fn send_order(r: Regions, url: UrlClass) -> (Region, Region) {
    if url == UrlClass::InChat {
        (r.send_scan_inchat, r.send_scan_fresh)
    } else {
        (r.send_scan_fresh, r.send_scan_inchat)
    }
}

/// DeepSeek's plan: off the site nothing is known. Elsewhere the document
/// preview panel is closed first; on the home page the model selector
/// means Ready; a stop square in either send rail means Generating; a send
/// button means Complete in a conversation and Ready otherwise; the
/// "New chat" pill means Ready; in a conversation the copy button or the
/// response actions mean Complete, and the conversation's variance
/// decides last.
pub open spec fn deepseek_plan_spec(url: UrlClass, r: Regions) -> (Seq<Check>, Fallback) {
    let (a, b) = send_order(r, url);
    let sent = if url == UrlClass::InChat { WebUiState::Complete } else { WebUiState::Ready };
    if url == UrlClass::OffSite {
        (Seq::empty(), Fallback::State(WebUiState::Unknown))
    } else {
        (
            seq![Check::Act(Probe::DismissDocPanel)]
                + (if url == UrlClass::Home {
                seq![Check::Fires(Probe::ModelSelector, WebUiState::Ready)]
            } else {
                Seq::empty()
            })
                + seq![
                Check::Fires(Probe::StopTemplate(a), WebUiState::Generating),
                Check::Fires(Probe::WhiteStopSquare(a), WebUiState::Generating),
                Check::Fires(Probe::StopTemplate(b), WebUiState::Generating),
                Check::Fires(Probe::WhiteStopSquare(b), WebUiState::Generating),
                Check::Fires(Probe::SendButtonIn(a), sent),
                Check::Fires(Probe::SendButtonIn(b), sent),
                Check::Fires(Probe::SubmitNewChatButton, WebUiState::Ready),
            ]
                + (if url == UrlClass::InChat {
                seq![
                    Check::Fires(Probe::CopyTemplate(r.copy_scan), WebUiState::Complete),
                    Check::Fires(Probe::ResponseActionsTemplate(r.response_actions), WebUiState::Complete),
                ]
            } else {
                Seq::empty()
            }),
            if url == UrlClass::InChat {
                Fallback::Variance
            } else {
                Fallback::State(WebUiState::Unknown)
            },
        )
    }
}

/// Whatever the page and the layout, DeepSeek's plan takes a stop control
/// for Generating and a finished reply's copy button or action row for
/// Complete, and looks for every stop control first. In a conversation it
/// does look for the copy button under the latest reply and for the reply's
/// action row, and for the stop square in both send rails.
pub proof fn law_deepseek_plan_reads_controls(url: UrlClass, r: Regions)
    ensures
        reads_controls_faithfully(deepseek_plan_spec(url, r).0),
        url == UrlClass::InChat ==> {
            let c = deepseek_plan_spec(url, r).0;
            &&& c.contains(Check::Fires(Probe::CopyTemplate(r.copy_scan), WebUiState::Complete))
            &&& c.contains(Check::Fires(Probe::ResponseActionsTemplate(r.response_actions), WebUiState::Complete))
            &&& c.contains(Check::Fires(Probe::WhiteStopSquare(r.send_scan_inchat), WebUiState::Generating))
            &&& c.contains(Check::Fires(Probe::WhiteStopSquare(r.send_scan_fresh), WebUiState::Generating))
            &&& c.contains(Check::Fires(Probe::SendButtonIn(r.send_scan_inchat), WebUiState::Complete))
            &&& deepseek_plan_spec(url, r).1 == Fallback::Variance
        },
        url == UrlClass::Home ==> deepseek_plan_spec(url, r).0.contains(Check::Fires(Probe::ModelSelector, WebUiState::Ready)),
        url != UrlClass::InChat ==> forall|i: int| 0 <= i < deepseek_plan_spec(url, r).0.len()
            ==> (#[trigger] deepseek_plan_spec(url, r).0[i] matches Check::Fires(p, s) ==> s != WebUiState::Complete),
        url == UrlClass::OffSite ==> deepseek_plan_spec(url, r).0.len() == 0
            && deepseek_plan_spec(url, r).1 == Fallback::State(WebUiState::Unknown),
{
    let c = deepseek_plan_spec(url, r).0;
    if url == UrlClass::InChat {
        assert(c[2] == Check::Fires(Probe::WhiteStopSquare(r.send_scan_inchat), WebUiState::Generating));
        assert(c[4] == Check::Fires(Probe::WhiteStopSquare(r.send_scan_fresh), WebUiState::Generating));
        assert(c[8] == Check::Fires(Probe::CopyTemplate(r.copy_scan), WebUiState::Complete));
        assert(c[9] == Check::Fires(Probe::ResponseActionsTemplate(r.response_actions), WebUiState::Complete));
        assert(c[5] == Check::Fires(Probe::SendButtonIn(r.send_scan_inchat), WebUiState::Complete));
    }
    if url == UrlClass::Home {
        assert(c[1] == Check::Fires(Probe::ModelSelector, WebUiState::Ready));
    }
}

fn fires(v: &mut Vec<Check>, p: Probe, s: WebUiState)
    ensures
        final(v)@ == old(v)@.push(Check::Fires(p, s)),
{
    v.push(Check::Fires(p, s));
}

/// The plan for the page the browser shows.
pub fn deepseek_detection_plan(url: UrlClass, r: &Regions) -> (plan: (Vec<Check>, Fallback))
    ensures
        plan.0@ == deepseek_plan_spec(url, *r).0,
        plan.1 == deepseek_plan_spec(url, *r).1,
{
    let mut v: Vec<Check> = Vec::new();
    let in_chat = match url {
        UrlClass::InChat => true,
        _ => false,
    };
    let home = match url {
        UrlClass::Home => true,
        _ => false,
    };
    match url {
        UrlClass::OffSite => {
            proof {
                assert(v@ =~= deepseek_plan_spec(url, *r).0);
            }
            return (v, Fallback::State(WebUiState::Unknown));
        },
        _ => {},
    }
    v.push(Check::Act(Probe::DismissDocPanel));
    if home {
        fires(&mut v, Probe::ModelSelector, WebUiState::Ready);
    }
    let sends = send_scan_regions_for_current_input(r, url);
    let a = sends[0];
    let b = sends[1];
    let sent = if in_chat { WebUiState::Complete } else { WebUiState::Ready };
    fires(&mut v, Probe::StopTemplate(a), WebUiState::Generating);
    fires(&mut v, Probe::WhiteStopSquare(a), WebUiState::Generating);
    fires(&mut v, Probe::StopTemplate(b), WebUiState::Generating);
    fires(&mut v, Probe::WhiteStopSquare(b), WebUiState::Generating);
    fires(&mut v, Probe::SendButtonIn(a), sent);
    fires(&mut v, Probe::SendButtonIn(b), sent);
    fires(&mut v, Probe::SubmitNewChatButton, WebUiState::Ready);
    if in_chat {
        fires(&mut v, Probe::CopyTemplate(r.copy_scan), WebUiState::Complete);
        fires(&mut v, Probe::ResponseActionsTemplate(r.response_actions), WebUiState::Complete);
    }
    proof {
        assert(v@ =~= deepseek_plan_spec(url, *r).0);
    }
    (v, if in_chat { Fallback::Variance } else { Fallback::State(WebUiState::Unknown) })
}

} // verus!
