use web_ai_automation::adapter::Region;
use web_ai_automation::arena::regions::Regions;
use web_ai_automation::arena::setup_steps::{
    busiest_patch, category_target, dropdown_step, DropdownStep, direct_row_point, scan_grid, scan_patch, dropdown_scan_half, model_picker_points, new_chat_button, new_chat_needed,
    new_chat_verified, frontmost_is_chrome, in_direct_mode, menu_panel_open, model_already_selected,
    model_header, needs_category_navigation, on_arena, search_click_point, search_needs_clearing,
    search_paste_verified, search_rows_region, window_fills_width,
};
use web_ai_automation::arena::submit::{input_cleared, started_stop_regions, url_shows_conversation};
use web_ai_automation::matrix::GrayMatrix;
use web_ai_automation::session::PromptMode;

fn row(data: Vec<u8>) -> GrayMatrix {
    GrayMatrix { width: data.len(), height: 1, data }
}

#[test]
fn chrome_in_front_and_category_pages() {
    assert!(frontmost_is_chrome("Google Chrome"));
    assert!(!frontmost_is_chrome("Terminal"));
    assert_eq!(category_target(PromptMode::Coding), ("https://arena.ai/code/direct", "/code/"));
    assert_eq!(category_target(PromptMode::Research), ("https://arena.ai/text/direct", "/text/"));
    assert!(!needs_category_navigation("https://arena.ai/code/direct", "Arena", PromptMode::Coding));
    assert!(needs_category_navigation("https://arena.ai/code/direct", "Arena", PromptMode::Research));
    assert!(needs_category_navigation(
        "https://arena.ai/code/direct",
        "LLM Leaderboard - the official ranking",
        PromptMode::Coding
    ));
    assert!(on_arena("https://lmarena.ai/c/123"));
    assert!(!on_arena("https://example.com"));
    assert!(in_direct_mode("https://arena.ai/text/direct"));
    assert!(!in_direct_mode("https://arena.ai/c/123"));
}

#[test]
fn window_width_within_eight_pixels() {
    assert!(window_fills_width(1504, 1512));
    assert!(!window_fills_width(1503, 1512));
    assert!(window_fills_width(i32::MIN, i32::MIN));
}

#[test]
fn model_already_named_in_the_title() {
    assert!(model_already_selected(&Some(String::from("Gemini-3-Flash")), "gemini-3"));
    assert!(!model_already_selected(&Some(String::from("gpt-5")), "gemini-3"));
    assert!(!model_already_selected(&None, "gemini-3"));
}

#[test]
fn picker_geometry() {
    let r = Regions::mac_1512x982();
    assert_eq!(model_header(&r, true), r.model_dropdown_expanded);
    assert_eq!(model_header(&r, false), r.model_dropdown);
    let menu = r.model_menu_expanded;
    assert_eq!(search_rows_region(menu), Region { x1: 180, y1: 159, x2: 580, y2: 235 });
    assert_eq!(search_click_point(menu, &vec![190, 230]), (380, 190));
    assert_eq!(search_click_point(menu, &vec![]), (380, 180));
    assert_eq!(dropdown_scan_half(r.model_dropdown), (41, 13));
    assert_eq!(dropdown_scan_half(Region { x1: 0, y1: 0, x2: 10, y2: 10 }), (16, 8));
}

#[test]
fn search_field_clearing_and_paste_check() {
    assert!(search_needs_clearing(&row(vec![0, 30])));
    assert!(!search_needs_clearing(&row(vec![0, 28])));
    let before = row(vec![10; 100]);
    let mut typed = vec![10u8; 100];
    for v in typed.iter_mut().take(10) {
        *v = 100;
    }
    let after = row(typed);
    assert!(search_paste_verified(&before, &after, 10));
    assert!(!search_paste_verified(&before, &after, 1));
    assert!(!search_paste_verified(&before, &before, 100));
    assert!(!search_paste_verified(&row(vec![]), &row(vec![]), 5));
}

#[test]
fn menu_closed_after_picking() {
    assert!(menu_panel_open(&row(vec![60, 60])));
    assert!(menu_panel_open(&row(vec![0, 40])));
    assert!(!menu_panel_open(&row(vec![20, 40])));
}

#[test]
fn send_consumed_the_input() {
    let typed = row(vec![0, 100, 0, 100]);
    let empty = row(vec![0, 0, 0, 0]);
    assert!(input_cleared(&typed, &empty));
    // Variance 2500 falling to 1600 is not below half; to 1225 it is.
    let half = row(vec![0, 0, 100, 0, 0, 0, 0, 0, 0, 0, 0, 0, 0, 0, 0, 100]);
    assert!(!input_cleared(&typed, &row(vec![0, 80, 0, 80])));
    assert!(input_cleared(&typed, &row(vec![0, 70, 0, 70])));
    assert!(!input_cleared(&empty, &empty));
    assert!(!input_cleared(&half, &half));
    assert!(url_shows_conversation("https://arena.ai/c/abc"));
    assert!(!url_shows_conversation("https://arena.ai/text/direct"));
}

#[test]
fn stop_regions_after_a_send() {
    let r = Regions::mac_1512x982();
    assert_eq!(started_stop_regions(&r), vec![r.send_or_stop, r.send_or_stop_inchat, r.send_or_stop_code_mode]);
}

#[test]
fn new_chat_and_menus() {
    let r = Regions::mac_1512x982();
    assert!(new_chat_needed("https://arena.ai/c/abc"));
    assert!(!new_chat_needed("https://arena.ai/text/direct"));
    assert_eq!(new_chat_button(&r, true), r.new_chat_button_when_collapsed);
    assert_eq!(new_chat_button(&r, false), r.new_chat_button_when_expanded);
    assert_eq!(direct_row_point(r.mode_menu_expanded), (210, 337));
    assert_eq!(model_picker_points(r.model_menu_expanded), ((380, 172), (380, 295)));
}

#[test]
fn new_chat_click_verified() {
    let busy = row(vec![0, 100, 0, 100]);
    let calm = row(vec![0, 70, 0, 70]);
    let calmer = row(vec![0, 76, 0, 76]);
    let c = "https://arena.ai/c/abc";
    assert!(new_chat_verified(c, "https://arena.ai/text/direct", &busy, &busy));
    assert!(new_chat_verified(c, "https://arena.ai/c/def", &busy, &busy));
    // Variance 2500 to 1225 dropped 51 %; to 1444 only 42 %; both count.
    assert!(new_chat_verified(c, c, &busy, &calm));
    assert!(new_chat_verified(c, c, &busy, &calmer));
    // To 1600 is a 36 % drop.
    assert!(!new_chat_verified(c, c, &busy, &row(vec![0, 80, 0, 80])));
    // A quiet conversation (variance 100) cannot show the drop.
    assert!(!new_chat_verified(c, c, &row(vec![0, 20, 0, 20]), &row(vec![0, 0, 0, 0])));
}

#[test]
fn scan_grid_row_by_row() {
    let g = scan_grid(100, 50, 14, 7);
    assert_eq!(g, vec![(86, 43), (100, 43), (114, 43), (86, 57), (100, 57), (114, 57)]);
    let g = scan_grid(100, 50, 20, 14);
    assert_eq!(g, vec![(80, 36), (94, 36), (108, 36), (80, 50), (94, 50), (108, 50), (80, 64), (94, 64), (108, 64)]);
    assert_eq!(scan_grid(100, 50, -1, 14), Vec::<(i32, i32)>::new());
    assert_eq!(scan_patch((100, 50)), Region { x1: 94, y1: 44, x2: 106, y2: 56 });
}

#[test]
fn busiest_patch_above_the_floor() {
    let points = vec![(1, 1), (2, 2), (3, 3), (4, 4)];
    let patches = vec![
        row(vec![0, 20, 0, 20]),
        row(vec![0, 40, 0, 40]),
        row(vec![0, 30, 0, 30]),
        row(vec![0, 40, 0, 40]),
    ];
    // Variances 100, 400, 225, 400: the first 400 wins.
    assert_eq!(busiest_patch(&points, &patches, 200), Some((2, 2)));
    assert_eq!(busiest_patch(&points, &patches, 100), Some((2, 2)));
    assert_eq!(busiest_patch(&points, &patches, 401), None);
    assert_eq!(busiest_patch(&Vec::new(), &Vec::new(), 0), None);
}

#[test]
fn dropdown_opening_clicks() {
    assert_eq!(dropdown_step(0, true), DropdownStep::Opened);
    assert_eq!(dropdown_step(0, false), DropdownStep::ClickExpected);
    assert_eq!(dropdown_step(1, false), DropdownStep::ClickScanned);
    assert_eq!(dropdown_step(3, false), DropdownStep::ClickScanned);
    assert_eq!(dropdown_step(4, false), DropdownStep::GiveUp);
    assert_eq!(dropdown_step(4, true), DropdownStep::Opened);
}
