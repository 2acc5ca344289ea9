use web_ai_automation::arena::regions::Regions;
use web_ai_automation::adapter::Region;
use web_ai_automation::arena::submit::{
    input_measure_region, paste_attempts, paste_registered, paste_strip, send_candidates, send_region, PasteAttempt,
};
use web_ai_automation::matrix::GrayMatrix;

fn at(x: i32, y: i32, code_mode: bool) -> PasteAttempt {
    PasteAttempt { x, y, code_mode }
}

#[test]
fn fresh_page_pastes_around_the_centred_input() {
    let r = Regions::mac_1512x982();
    let v = paste_attempts(&r, false, false);
    assert_eq!(
        v,
        vec![
            at(785, 551, false),
            at(785, 543, false),
            at(785, 559, false),
            at(785, 535, false),
            at(785, 567, false),
        ]
    );
}

#[test]
fn conversation_tries_bottom_input_then_code_input() {
    let r = Regions::mac_1512x982();
    let v = paste_attempts(&r, true, false);
    assert_eq!(v.len(), 10);
    assert_eq!(v[0], at(685, 925, false));
    assert_eq!(v[4], at(685, 941, false));
    assert_eq!(v[5], at(260, 925, true));
    assert_eq!(v[9], at(260, 941, true));
}

#[test]
fn open_code_panel_pastes_in_code_mode_first() {
    let r = Regions::mac_1512x982();
    let v = paste_attempts(&r, true, true);
    assert_eq!(v.len(), 10);
    assert!(v.iter().all(|a| a.code_mode));
    assert_eq!(v[0], at(260, 925, true));
    let fresh = paste_attempts(&r, false, true);
    assert_eq!(fresh.len(), 5);
    assert_eq!(fresh[0], at(260, 925, true));
}

#[test]
fn send_region_follows_the_page() {
    let r = Regions::mac_1512x982();
    assert_eq!(send_region(&r, false), r.send_or_stop);
    assert_eq!(send_region(&r, true), r.send_or_stop_inchat);
}

#[test]
fn send_candidates_in_a_conversation_use_only_the_found_icon() {
    assert_eq!(send_candidates(false, true, Some((10, 20)), Some((1, 1)), (5, 5)), vec![(10, 20)]);
    assert_eq!(send_candidates(true, false, None, Some((1, 1)), (5, 5)), Vec::<(i32, i32)>::new());
}

#[test]
fn send_candidates_on_a_fresh_page_are_sorted_without_repeats() {
    assert_eq!(send_candidates(false, false, None, None, (1140, 755)), vec![(1140, 755)]);
    assert_eq!(
        send_candidates(false, false, None, Some((1200, 700)), (1140, 755)),
        vec![(1140, 755), (1200, 700)]
    );
    assert_eq!(
        send_candidates(false, false, None, Some((1140, 700)), (1140, 755)),
        vec![(1140, 700), (1140, 755)]
    );
    assert_eq!(
        send_candidates(false, false, None, Some((1140, 755)), (1140, 755)),
        vec![(1140, 755)]
    );
}

#[test]
fn measured_input_is_where_the_paste_landed() {
    let r = Regions::mac_1512x982();
    assert_eq!(input_measure_region(&r, true, true), r.input_focus_point_code_mode);
    assert_eq!(input_measure_region(&r, false, true), r.input_focus_point_inchat);
    assert_eq!(input_measure_region(&r, false, false), r.input_focus_point);
}

fn strip_row(data: Vec<u8>) -> GrayMatrix {
    GrayMatrix { width: data.len(), height: 1, data }
}

#[test]
fn paste_strip_around_the_click() {
    assert_eq!(paste_strip(785, 551), Region { x1: 535, y1: 536, x2: 1035, y2: 566 });
    assert_eq!(paste_strip(100, 5), Region { x1: 0, y1: 0, x2: 350, y2: 20 });
}

#[test]
fn paste_registers_by_variance_or_changed_pixels() {
    let blank = strip_row(vec![20; 10]);
    let mut text = vec![20u8; 10];
    text[0] = 40;
    text[1] = 40;
    let faint = strip_row(text);
    // Variance 0 to 64: a rise of at least 30.
    assert!(paste_registered(&blank, &faint, None));
    assert!(!paste_registered(&blank, &blank, None));
    // One pixel in ten changed: 10 %.
    assert!(paste_registered(&blank, &blank, Some(1)));
    assert!(!paste_registered(&strip_row(vec![20; 11]), &strip_row(vec![20; 11]), Some(1)));
    // A busy strip (variance 400 → 900) rose by more than 30 anyway.
    let busy = strip_row(vec![0, 40, 0, 40]);
    let busier = strip_row(vec![0, 60, 0, 60]);
    assert!(paste_registered(&busy, &busier, None));
    // Falling variance with no changed count is not a paste.
    assert!(!paste_registered(&busier, &busy, None));
    assert!(!paste_registered(&strip_row(vec![]), &strip_row(vec![]), Some(0)));
}
