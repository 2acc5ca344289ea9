use web_ai_automation::adapter::Region;
use web_ai_automation::arena::detect::{ButtonCandidate, UrlClass};
use web_ai_automation::arena::probes::{
    candidate_active, chip_close_target, chip_region, choice_band, choice_row_visible, download_active, download_probe, download_state,
    download_toolbars, has_code_panel, menu_region_is_open, preview_body, text_stop_core, text_stop_visible,
    upload_done_by_variance, visual_panel,
};
use web_ai_automation::arena::regions::Regions;
use web_ai_automation::matrix::GrayMatrix;

fn rect(x1: i32, y1: i32, x2: i32, y2: i32) -> Region {
    Region { x1, y1, x2, y2 }
}

fn flat(width: usize, height: usize, v: u8) -> GrayMatrix {
    GrayMatrix { width, height, data: vec![v; width * height] }
}

fn from_rows(rows: &[Vec<u8>]) -> GrayMatrix {
    let width = rows[0].len();
    let mut data = Vec::new();
    for r in rows {
        data.extend_from_slice(r);
    }
    GrayMatrix { width, height: rows.len(), data }
}

#[test]
fn chooser_band_sits_around_the_skip_point() {
    let r = Regions::mac_1512x982();
    assert_eq!(choice_band(&r, UrlClass::Home), rect(665, 444, 905, 514));
    assert_eq!(choice_band(&r, UrlClass::InChat), rect(665, 819, 905, 889));
}

#[test]
fn chooser_row_needs_two_long_edges() {
    let bright = vec![200u8; 100];
    let dark = vec![0u8; 100];
    let two = from_rows(&[bright.clone(), dark.clone(), bright.clone(), dark.clone()]);
    assert!(choice_row_visible(&two));
    let one = from_rows(&[bright.clone(), dark.clone(), dark.clone(), dark.clone()]);
    assert!(!choice_row_visible(&one));
    let short_edge = from_rows(&[vec![200u8; 80], vec![0u8; 80], vec![200u8; 80], vec![0u8; 80]]);
    assert!(!choice_row_visible(&short_edge));
    assert!(!choice_row_visible(&GrayMatrix { width: 0, height: 0, data: vec![] }));
}

#[test]
fn chooser_row_needs_contrast() {
    // Long edges of luma 80 on a background of 76: variance 4, nothing at 120.
    let rows = from_rows(&[vec![80u8; 100], vec![76u8; 100], vec![80u8; 100], vec![76u8; 100]]);
    assert!(!choice_row_visible(&rows));
}

#[test]
fn text_stop_core_is_28_pixels_around_the_send_button() {
    let r = Regions::mac_1512x982();
    assert_eq!(text_stop_core(&r), rect(1026, 916, 1054, 944));
}

#[test]
fn text_stop_square_needs_18_percent_bright() {
    let mut data = vec![0u8; 100];
    for v in data.iter_mut().take(18) {
        *v = 190;
    }
    assert!(text_stop_visible(&GrayMatrix { width: 10, height: 10, data: data.clone() }));
    data[17] = 189;
    assert!(!text_stop_visible(&GrayMatrix { width: 10, height: 10, data }));
    assert!(!text_stop_visible(&GrayMatrix { width: 0, height: 0, data: vec![] }));
}

#[test]
fn preview_body_and_visual_panel() {
    let r = Regions::mac_1512x982();
    assert_eq!(preview_body(&r), rect(490, 210, 1512, 700));
    let busy = GrayMatrix { width: 2, height: 2, data: vec![50, 90, 50, 90] };
    assert!(visual_panel(&busy));
    assert!(!visual_panel(&flat(2, 2, 70)));
    // Mean exactly 60 is not above 60.
    assert!(!visual_panel(&GrayMatrix { width: 2, height: 1, data: vec![40, 80] }));
    assert!(has_code_panel(true, &flat(2, 2, 0)));
    assert!(!has_code_panel(false, &flat(2, 2, 0)));
    assert!(has_code_panel(false, &busy));
}

#[test]
fn download_regions() {
    let r = Regions::mac_1512x982();
    let (expected, wide) = download_toolbars(&r);
    assert_eq!(expected, rect(490, 130, 1512, 225));
    assert_eq!(wide, rect(490, 130, 1512, 220));
    assert_eq!(download_probe(&r, (1500, 140)), rect(1440, 122, 1512, 158));
    assert_eq!(download_probe(&r, (10, 5)), rect(0, 0, 70, 23));
}

#[test]
fn download_button_is_active_at_mean_185() {
    assert!(download_active(&flat(4, 4, 185)));
    assert!(!download_active(&flat(4, 4, 184)));
    let c = ButtonCandidate { center: (0, 0), bounds: rect(0, 0, 1, 1), area: 10, sum: 1850 };
    assert!(candidate_active(&c));
    let dim = ButtonCandidate { sum: 1849, ..c };
    assert!(!candidate_active(&dim));
    assert_eq!(download_state(Some(&flat(2, 2, 200)), Some(dim)), Some(true));
    assert_eq!(download_state(None, Some(c)), Some(true));
    assert_eq!(download_state(None, Some(dim)), Some(false));
    assert_eq!(download_state(None, None), None);
}

#[test]
fn menu_is_open_above_whole_number_mean_65() {
    assert!(menu_region_is_open(&flat(3, 3, 66)));
    assert!(!menu_region_is_open(&flat(3, 3, 65)));
    // (65 + 66) / 2 is 65 in whole numbers.
    assert!(!menu_region_is_open(&GrayMatrix { width: 2, height: 1, data: vec![65, 66] }));
    assert!(!menu_region_is_open(&GrayMatrix { width: 0, height: 0, data: vec![] }));
}

#[test]
fn chip_region_in_the_input_box() {
    let r = Regions::mac_1512x982();
    assert_eq!(chip_region(r.input_box), rect(400, 636, 746, 698));
}

fn x_glyph() -> GrayMatrix {
    let mut cap = flat(40, 40, 0);
    for i in 0..10 {
        cap.data[(10 + i) * 40 + (10 + i)] = 255;
        cap.data[(19 - i) * 40 + (10 + i)] = 255;
    }
    cap
}

#[test]
fn attached_chip_close_button() {
    let chip = rect(400, 636, 746, 698);
    assert_eq!(chip_close_target(chip, &x_glyph(), None), Some((414, 650)));
    assert_eq!(chip_close_target(chip, &x_glyph(), Some((500, 660))), Some((500, 660)));
    // A flat chip region holds no attachment, whatever matched.
    assert_eq!(chip_close_target(chip, &flat(40, 40, 30), Some((500, 660))), None);
    // Busy but without a close glyph.
    let busy = GrayMatrix { width: 2, height: 2, data: vec![0, 60, 0, 60] };
    assert_eq!(chip_close_target(chip, &busy, None), None);
}

#[test]
fn upload_finishes_when_send_region_turns_busy() {
    assert!(upload_done_by_variance(&GrayMatrix { width: 2, height: 1, data: vec![0, 40] }));
    assert!(!upload_done_by_variance(&GrayMatrix { width: 2, height: 1, data: vec![0, 28] }));
    assert!(!upload_done_by_variance(&flat(3, 3, 200)));
}
