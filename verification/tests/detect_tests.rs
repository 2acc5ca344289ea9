use web_ai_automation::adapter::Region;
use web_ai_automation::arena::detect::{
    arena_find_close_button_pixel, classify_url, find_bright_stop_square_in_region, find_bright_toolbar_button,
    has_dark_frame_around_component, UrlClass,
};
use web_ai_automation::arena::session_setup::{cluster_close_peaks, is_marketing_title, model_search_input_region, SetupReport};
use web_ai_automation::blobs::bright_components;
use web_ai_automation::deepseek::detect::{
    classify_url as deepseek_classify_url, find_blue_send_button, find_white_stop_square, UrlClass as DeepSeekUrlClass,
};
use web_ai_automation::matrix::{GrayMatrix, RgbMatrix};

fn gray(width: usize, height: usize, fill: u8) -> GrayMatrix {
    GrayMatrix { width, height, data: vec![fill; width * height] }
}

fn paint(m: &mut GrayMatrix, x0: usize, y0: usize, w: usize, h: usize, v: u8) {
    for y in y0..y0 + h {
        for x in x0..x0 + w {
            m.data[y * m.width + x] = v;
        }
    }
}

// ── Components ──────────────────────────────────────────────────────────────

#[test]
fn components_are_listed_once_in_scan_order() {
    let mut m = gray(10, 6, 0);
    // An L shape and, separately, a diagonal pair that touches at a corner.
    paint(&mut m, 5, 1, 3, 1, 220);
    paint(&mut m, 5, 2, 1, 2, 220);
    m.data[1 * 10 + 1] = 240;
    m.data[2 * 10 + 2] = 240;
    let blobs = bright_components(&m, 200);
    assert_eq!(blobs.len(), 2);
    let a = &blobs[0];
    assert_eq!((a.seed_x, a.seed_y), (1, 1));
    assert_eq!((a.min_x, a.max_x, a.min_y, a.max_y), (1, 2, 1, 2));
    assert_eq!(a.area, 2);
    assert_eq!(a.sum, 480);
    let b = &blobs[1];
    assert_eq!((b.seed_x, b.seed_y), (5, 1));
    assert_eq!((b.min_x, b.max_x, b.min_y, b.max_y), (5, 7, 1, 3));
    assert_eq!(b.area, 5);
    assert_eq!(b.sum, 5 * 220);
    // Below the threshold nothing is lit.
    assert!(bright_components(&m, 250).is_empty());
}

// ── Arena: stop square, toolbar button, close button ────────────────────────

#[test]
fn dark_frame_needs_room_and_darkness() {
    let mut m = gray(60, 60, 0);
    paint(&mut m, 10, 10, 40, 40, 255);
    assert!(has_dark_frame_around_component(&m, 10, 49, 10, 49));
    // Too close to the edge for a 7-pixel band.
    assert!(!has_dark_frame_around_component(&m, 5, 49, 10, 49));
    // A bright surround is no dark frame.
    let mut lit = gray(60, 60, 200);
    paint(&mut lit, 10, 10, 40, 40, 255);
    assert!(!has_dark_frame_around_component(&lit, 10, 49, 10, 49));
}

#[test]
fn white_stop_square_is_found_in_its_dark_frame() {
    let mut m = gray(60, 60, 0);
    paint(&mut m, 10, 10, 40, 40, 255);
    let region = Region { x1: 100, y1: 200, x2: 160, y2: 260 };
    assert_eq!(find_bright_stop_square_in_region(&m, region, (0, 0)), Some((130, 230)));
    // The capture-to-mouse offset shifts the click point.
    assert_eq!(find_bright_stop_square_in_region(&m, region, (-3, 4)), Some((127, 234)));
}

#[test]
fn stop_square_rejects_wrong_shapes() {
    // Too small.
    let mut small = gray(60, 60, 0);
    paint(&mut small, 10, 10, 20, 20, 255);
    let region = Region { x1: 0, y1: 0, x2: 60, y2: 60 };
    assert_eq!(find_bright_stop_square_in_region(&small, region, (0, 0)), None);
    // Too elongated (40 × 60 sides differ by 20).
    let mut long = gray(90, 90, 0);
    paint(&mut long, 10, 10, 40, 60, 255);
    assert_eq!(find_bright_stop_square_in_region(&long, region, (0, 0)), None);
    // Not bright enough on average (mean 210 < 230).
    let mut dim = gray(60, 60, 0);
    paint(&mut dim, 10, 10, 40, 40, 210);
    assert_eq!(find_bright_stop_square_in_region(&dim, region, (0, 0)), None);
}

#[test]
fn toolbar_button_is_the_rightmost_bright_box() {
    let mut m = gray(300, 50, 10);
    paint(&mut m, 20, 5, 100, 30, 200);
    paint(&mut m, 150, 5, 100, 30, 180);
    let region = Region { x1: 1200, y1: 100, x2: 1500, y2: 150 };
    let c = find_bright_toolbar_button(&m, region, 1512, (0, 0)).expect("button");
    // The right box wins although it is darker: (1350 + 1450) / 2 = 1400.
    assert_eq!(c.center, (1400, 120));
    assert_eq!(c.bounds, Region { x1: 1350, y1: 105, x2: 1450, y2: 135 });
    assert_eq!(c.area, 3000);
    assert_eq!(c.sum, 3000 * 180);
    // Far from the right edge of a wide screen: rejected.
    assert!(find_bright_toolbar_button(&m, region, 3000, (0, 0)).is_none());
}

#[test]
fn close_button_glyph_is_found_by_window_scan() {
    let mut m = gray(40, 40, 0);
    for i in 0..9 {
        m.data[(10 + i) * 40 + (10 + i)] = 255;
        m.data[(10 + i) * 40 + (18 - i)] = 255;
    }
    assert_eq!(arena_find_close_button_pixel(&m), Some((14, 14)));
    assert_eq!(arena_find_close_button_pixel(&gray(40, 40, 0)), None);
    // A solid bright block has too many pixels for a glyph.
    let mut block = gray(40, 40, 0);
    paint(&mut block, 5, 5, 20, 20, 255);
    assert_eq!(arena_find_close_button_pixel(&block), None);
}

// ── DeepSeek: stop square, blue send button ─────────────────────────────────

#[test]
fn deepseek_white_stop_square() {
    let mut m = gray(20, 20, 0);
    paint(&mut m, 4, 4, 12, 12, 255);
    assert!(find_white_stop_square(&m));
    // 94 white pixels in the best window are not enough.
    let mut sparse = gray(12, 12, 0);
    let mut n = 0;
    for k in 0..144 {
        if n < 94 {
            sparse.data[k] = 230;
            n += 1;
        }
    }
    assert!(!find_white_stop_square(&sparse));
    sparse.data[100] = 230;
    assert!(find_white_stop_square(&sparse));
    assert!(!find_white_stop_square(&gray(10, 30, 255)));
}

#[test]
fn deepseek_blue_send_button() {
    let mut m = RgbMatrix { width: 60, height: 60, data: vec![[20, 20, 20]; 3600] };
    for y in 10..50 {
        for x in 10..50 {
            m.data[y * 60 + x] = [50, 100, 200];
        }
    }
    let region = Region { x1: 1200, y1: 500, x2: 1260, y2: 560 };
    assert_eq!(find_blue_send_button(&m, region), Some((1229, 529)));
    // Too few blue pixels.
    let small = RgbMatrix { width: 10, height: 10, data: vec![[50, 100, 200]; 100] };
    assert_eq!(find_blue_send_button(&small, region), None);
    // Blue, but not blue enough against red (200 ≤ 160 + 45).
    let mut reddish = RgbMatrix { width: 60, height: 60, data: vec![[20, 20, 20]; 3600] };
    for y in 10..50 {
        for x in 10..50 {
            reddish.data[y * 60 + x] = [160, 100, 200];
        }
    }
    assert_eq!(find_blue_send_button(&reddish, region), None);
}

// ── URLs and titles ─────────────────────────────────────────────────────────

#[test]
fn arena_url_classes() {
    assert_eq!(classify_url(&Ok(String::from("https://arena.ai/c/0193-abc"))), UrlClass::InChat);
    assert_eq!(classify_url(&Ok(String::from("HTTPS://LMARENA.AI/?mode=direct"))), UrlClass::Home);
    assert_eq!(classify_url(&Ok(String::from("https://arena.ai/code/new"))), UrlClass::Home);
    assert_eq!(classify_url(&Ok(String::from("https://www.google.com/"))), UrlClass::OffSite);
    assert_eq!(classify_url(&Err(String::from("no browser"))), UrlClass::Unknown);
}

#[test]
fn deepseek_url_classes() {
    assert_eq!(deepseek_classify_url(&Ok(String::from("https://chat.deepseek.com/a/chat/s/42"))), DeepSeekUrlClass::InChat);
    assert_eq!(deepseek_classify_url(&Ok(String::from("https://Chat.DeepSeek.com/"))), DeepSeekUrlClass::Home);
    assert_eq!(deepseek_classify_url(&Ok(String::from("https://deepseek.com/chat/"))), DeepSeekUrlClass::OffSite);
    assert_eq!(deepseek_classify_url(&Err(String::new())), DeepSeekUrlClass::Unknown);
}

#[test]
fn marketing_titles() {
    assert!(is_marketing_title("LMArena Leaderboard"));
    assert!(is_marketing_title("Model RANKING | Arena"));
    assert!(is_marketing_title("The Official Arena"));
    assert!(!is_marketing_title("gpt-4o · Arena"));
}

// ── Row peaks ───────────────────────────────────────────────────────────────

#[test]
fn close_peaks_merge_into_their_mean() {
    assert_eq!(cluster_close_peaks(&[10, 12, 14, 40, 41, 100], 5), vec![12, 40, 100]);
    assert_eq!(cluster_close_peaks(&[], 5), Vec::<i32>::new());
    assert_eq!(cluster_close_peaks(&[7], 5), vec![7]);
    // The mean rounds toward zero.
    assert_eq!(cluster_close_peaks(&[-3, -2], 5), vec![-2]);
    // A gap of exactly `min_gap` starts a new group.
    assert_eq!(cluster_close_peaks(&[0, 5, 10], 5), vec![0, 5, 10]);
    // The gap is measured from the group's last peak, so a chain keeps growing.
    assert_eq!(cluster_close_peaks(&[0, 4, 8, 12], 5), vec![6]);
}

#[test]
fn model_search_row_is_inset_in_the_menu() {
    let menu = Region { x1: 160, y1: 155, x2: 600, y2: 700 };
    assert_eq!(model_search_input_region(menu), Region { x1: 190, y1: 163, x2: 570, y2: 203 });
}

#[test]
fn setup_report_starts_empty() {
    let r = SetupReport::default();
    assert!(!r.browser_focused && !r.model_selected && !r.forced_direct_mode);
    let d = web_ai_automation::deepseek::session_setup::SetupReport::default();
    assert!(!d.navigated_to_deepseek && !d.smart_search_set);
}
