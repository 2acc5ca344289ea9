use web_ai_automation::adapter::Region;
use web_ai_automation::arena::choice::{skip_button, ChoiceAction, ChoicePoll, ChoiceWait};
use web_ai_automation::arena::layout::{send_button_scan_regions, stop_button_scan_regions};
use web_ai_automation::arena::regions::{ArenaSurface, Regions};

fn rect(x1: i32, y1: i32, x2: i32, y2: i32) -> Region {
    Region { x1, y1, x2, y2 }
}

fn idle() -> ChoicePoll {
    ChoicePoll {
        timed_out: false,
        skip: None,
        generating: false,
        copy_ready: false,
        download_active: None,
        code_panel: false,
    }
}

#[test]
fn skip_needs_the_button_row() {
    let code = ArenaSurface::Code;
    assert_eq!(skip_button(code, Some((700, 480)), true, (785, 479)), Some((700, 480)));
    assert_eq!(skip_button(code, Some((700, 480)), false, (785, 479)), None);
    assert_eq!(skip_button(code, None, true, (785, 479)), Some((785, 479)));
    assert_eq!(skip_button(code, None, false, (785, 479)), None);
    assert_eq!(skip_button(ArenaSurface::Text, Some((700, 480)), true, (785, 479)), None);
}

#[test]
fn skip_is_clicked_again_at_most_three_times() {
    let mut w = ChoiceWait::new();
    let showing = ChoicePoll { skip: Some((700, 480)), ..idle() };
    assert_eq!(w.step(ArenaSurface::Code, showing), ChoiceAction::ClickSkip(700, 480));
    assert_eq!(w.step(ArenaSurface::Code, showing), ChoiceAction::ClickSkip(700, 480));
    assert_eq!(w.step(ArenaSurface::Code, showing), ChoiceAction::ClickSkip(700, 480));
    assert_eq!(w.step(ArenaSurface::Code, showing), ChoiceAction::Wait(1200));
    assert_eq!(w.step(ArenaSurface::Code, showing), ChoiceAction::Wait(1200));
    assert_eq!(w.extra_clicks, 3);
}

#[test]
fn waiting_ends_when_ready_or_past_the_deadline() {
    let mut w = ChoiceWait::new();
    assert_eq!(w.step(ArenaSurface::Code, ChoicePoll { generating: true, code_panel: true, ..idle() }), ChoiceAction::Wait(1500));
    assert_eq!(w.step(ArenaSurface::Code, ChoicePoll { download_active: Some(false), ..idle() }), ChoiceAction::Wait(1500));
    assert_eq!(w.step(ArenaSurface::Code, ChoicePoll { download_active: Some(true), ..idle() }), ChoiceAction::Ready);
    assert_eq!(w.step(ArenaSurface::Code, ChoicePoll { code_panel: true, ..idle() }), ChoiceAction::Ready);
    assert_eq!(w.step(ArenaSurface::Text, ChoicePoll { code_panel: true, ..idle() }), ChoiceAction::Wait(1500));
    assert_eq!(w.step(ArenaSurface::Text, ChoicePoll { copy_ready: true, ..idle() }), ChoiceAction::Ready);
    let late = ChoicePoll { timed_out: true, skip: Some((1, 1)), copy_ready: true, ..idle() };
    assert_eq!(w.step(ArenaSurface::Text, late), ChoiceAction::TimedOut);
    assert_eq!(w.extra_clicks, 0);
}

#[test]
fn send_button_scan_on_the_code_surface() {
    let r = Regions::mac_1512x982();
    let v = send_button_scan_regions(&r);
    let labels: Vec<&str> = v.iter().map(|e| e.0).collect();
    assert_eq!(
        labels,
        vec!["fresh_send", "code_send", "inchat_send", "fresh_input_right", "code_input_right", "inchat_input_right"]
    );
    assert_eq!(v[3], ("fresh_input_right", rect(1060, 650, 1190, 815), 740));
    assert_eq!(v[4], ("code_input_right", rect(390, 857, 500, 962), 760));
    assert_eq!(v[5], ("inchat_input_right", rect(900, 857, 1180, 962), 760));
    let s = stop_button_scan_regions(&r);
    assert_eq!(s.len(), 4);
    assert_eq!(s[0], ("code_stop", r.send_or_stop_code_mode, 780));
    assert_eq!(s[1], ("inchat_stop", r.send_or_stop_inchat, 780));
}

#[test]
fn send_button_scan_on_the_text_surface() {
    let r = Regions::mac_1512x982_text_scaffold();
    assert_eq!(r.surface, ArenaSurface::Text);
    let v = send_button_scan_regions(&r);
    let labels: Vec<&str> = v.iter().map(|e| e.0).collect();
    assert_eq!(labels, vec!["fresh_send", "text_inchat_send", "fresh_input_right", "text_input_right"]);
    assert!(stop_button_scan_regions(&r).is_empty());
}
