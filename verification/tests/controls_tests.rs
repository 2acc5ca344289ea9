use web_ai_automation::adapter::{AdapterError, Region};
use web_ai_automation::deepseek::controls::{
    model_click_point, model_name, model_plan, selected_model, state_not_found, toggle_click_accepted, toggle_plan, toggle_state,
    toggle_state_what, toggle_unverified_error, ModelPlan, TogglePlan, ToggleState,
};
use web_ai_automation::deepseek::submit::{
    input_consumed, latest_copy_button, send_arrow_target, send_button_missing, url_moved_to_chat, ArrowHit,
};
use web_ai_automation::matrix::GrayMatrix;
use web_ai_automation::session::DeepSeekModelMode;

#[test]
fn toggle_state_from_matches() {
    assert_eq!(toggle_state(true, true, true), ToggleState::On);
    assert_eq!(toggle_state(true, true, false), ToggleState::Off);
    assert_eq!(toggle_state(true, false, false), ToggleState::On);
    assert_eq!(toggle_state(false, true, true), ToggleState::Off);
    assert_eq!(toggle_state(false, false, true), ToggleState::Unknown);
}

#[test]
fn toggle_plans() {
    assert_eq!(toggle_plan(true, ToggleState::On, false), TogglePlan::AlreadySet);
    assert_eq!(toggle_plan(false, ToggleState::Off, true), TogglePlan::AlreadySet);
    assert_eq!(toggle_plan(true, ToggleState::Unknown, false), TogglePlan::StateUnknown);
    assert_eq!(toggle_plan(true, ToggleState::Off, true), TogglePlan::LeaveAmbiguous);
    assert_eq!(toggle_plan(false, ToggleState::On, false), TogglePlan::Click);
    assert!(toggle_click_accepted(true, ToggleState::On, false));
    assert!(toggle_click_accepted(true, ToggleState::Off, true));
    assert!(!toggle_click_accepted(true, ToggleState::Off, false));
    assert!(!toggle_click_accepted(false, ToggleState::Unknown, false));
}

#[test]
fn toggle_errors() {
    match state_not_found(&toggle_state_what("smart search")) {
        AdapterError::NotFound { what } => assert_eq!(what, "DeepSeek smart search toggle state"),
        _ => panic!("expected NotFound"),
    }
    match toggle_unverified_error("deep thinking", true) {
        AdapterError::Input(s) => assert_eq!(s, "DeepSeek deep thinking toggle click did not verify target state true"),
        _ => panic!("expected Input"),
    }
}

#[test]
fn model_selector() {
    assert_eq!(selected_model(true, true, true), Some(DeepSeekModelMode::Expert));
    assert_eq!(selected_model(true, true, false), Some(DeepSeekModelMode::Instant));
    assert_eq!(selected_model(false, true, false), Some(DeepSeekModelMode::Expert));
    assert_eq!(selected_model(true, false, true), Some(DeepSeekModelMode::Instant));
    assert_eq!(selected_model(false, false, true), None);
    assert_eq!(model_name(Some(DeepSeekModelMode::Expert)), Some("Expert"));
    assert_eq!(model_name(Some(DeepSeekModelMode::Instant)), Some("Instant"));
    assert_eq!(model_name(None), None);
    let b = Region { x1: 600, y1: 700, x2: 800, y2: 731 };
    assert_eq!(model_click_point(b, DeepSeekModelMode::Instant), (650, 715));
    assert_eq!(model_click_point(b, DeepSeekModelMode::Expert), (750, 715));
    assert_eq!(model_plan(Some(DeepSeekModelMode::Expert), DeepSeekModelMode::Expert), ModelPlan::AlreadySelected);
    assert_eq!(model_plan(None, DeepSeekModelMode::Expert), ModelPlan::SelectorNotFound);
    assert_eq!(model_plan(Some(DeepSeekModelMode::Instant), DeepSeekModelMode::Expert), ModelPlan::Click);
}

#[test]
fn deepseek_send_confirmation() {
    let typed = GrayMatrix { width: 4, height: 1, data: vec![0, 100, 0, 100] };
    // Variance 2500 falling to 1600 is below 65 %; to 1681 it is not.
    assert!(input_consumed(&typed, &GrayMatrix { width: 4, height: 1, data: vec![0, 80, 0, 80] }));
    assert!(!input_consumed(&typed, &GrayMatrix { width: 4, height: 1, data: vec![0, 82, 0, 82] }));
    let faint = GrayMatrix { width: 2, height: 1, data: vec![0, 8] };
    assert!(!input_consumed(&faint, &GrayMatrix { width: 2, height: 1, data: vec![0, 0] }));
    assert!(url_moved_to_chat("https://chat.deepseek.com/", "https://chat.deepseek.com/a/chat/s/1"));
    assert!(!url_moved_to_chat("", "https://chat.deepseek.com/a/chat/s/1"));
    assert!(!url_moved_to_chat("https://chat.deepseek.com/a/chat/s/1", "https://chat.deepseek.com/a/chat/s/1"));
    assert!(!url_moved_to_chat("https://chat.deepseek.com/", "https://chat.deepseek.com/settings"));
    match send_button_missing(true) {
        AdapterError::NotFound { what } => assert_eq!(what, "DeepSeek send button by matrix in follow-up prompt regions"),
        _ => panic!("expected NotFound"),
    }
    match send_button_missing(false) {
        AdapterError::NotFound { what } => assert_eq!(what, "DeepSeek send button by matrix in first prompt regions"),
        _ => panic!("expected NotFound"),
    }
}

fn arrow(x1: i32, y1: i32, x2: i32, y2: i32, score: u32) -> ArrowHit {
    ArrowHit { bounds: Region { x1, y1, x2, y2 }, score }
}

#[test]
fn send_arrow_is_the_lowest_on_the_right_rail() {
    let hits = vec![
        arrow(1230, 900, 1250, 920, 5),
        arrow(1100, 950, 1120, 970, 9),
        arrow(1230, 940, 1250, 960, 2),
        arrow(1232, 940, 1252, 960, 4),
        arrow(1234, 940, 1254, 960, 4),
    ];
    // (1100, 950) is left of the rail; of the rows at 950, the better
    // scored (4) wins, the first of the two.
    assert_eq!(send_arrow_target(&hits), Some((1242, 950)));
    assert_eq!(send_arrow_target(&vec![arrow(1000, 900, 1020, 920, 1)]), None);
}

#[test]
fn latest_copy_is_the_last_of_the_lowest_in_its_column() {
    let hits = vec![(510, 400), (505, 700), (600, 900), (515, 700), (520, 300)];
    assert_eq!(latest_copy_button(&hits), Some((515, 700)));
    assert_eq!(latest_copy_button(&vec![(499, 800), (521, 800)]), None);
}
