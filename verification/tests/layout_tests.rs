use web_ai_automation::adapter::Region;
use web_ai_automation::arena::detect::UrlClass;
use web_ai_automation::arena::layout::{
    central_white_square_region, park_point, prompt_button_scan_regions, response_choice_scan_region,
    response_choice_skip_expected_point, text_copy_scan_region,
};
use web_ai_automation::arena::regions::Regions;
use web_ai_automation::arena::templates as arena_templates;
use web_ai_automation::deepseek::detect::UrlClass as DeepSeekUrlClass;
use web_ai_automation::deepseek::layout::{
    attach_scan_for_followup_layout, current_input_regions, send_scan_regions_for_current_input, submit_new_chat_scan_region,
};
use web_ai_automation::deepseek::regions::Regions as DeepSeekRegions;
use web_ai_automation::deepseek::templates as deepseek_templates;

#[test]
fn arena_scan_regions_follow_the_layout() {
    let r = Regions::mac_1512x982_code();
    assert_eq!(text_copy_scan_region(&r), Region { x1: 240, y1: 440, x2: 430, y2: 535 });
    assert_eq!(central_white_square_region(&r), Region { x1: 378, y1: 196, x2: 1134, y2: 654 });
    assert_eq!(response_choice_skip_expected_point(&r, UrlClass::InChat), (785, 854));
    assert_eq!(response_choice_skip_expected_point(&r, UrlClass::Home), (785, 479));
}

#[test]
fn prompt_button_regions_depend_on_the_surface() {
    let code = prompt_button_scan_regions(&Regions::mac_1512x982_code());
    assert_eq!(code.len(), 7);
    assert_eq!(code[0], ("fresh_prompt_button", Region { x1: 1110, y1: 725, x2: 1170, y2: 785 }));
    assert_eq!(code[2], ("fresh_input_right", Region { x1: 1060, y1: 650, x2: 1190, y2: 815 }));
    assert_eq!(code[3], ("inchat_input_right", Region { x1: 900, y1: 857, x2: 1180, y2: 962 }));
    assert_eq!(code[6], ("code_input_right", Region { x1: 390, y1: 857, x2: 500, y2: 962 }));
    let text = prompt_button_scan_regions(&Regions::mac_1512x982_text_scaffold());
    assert_eq!(text.len(), 5);
    assert_eq!(text[4], ("text_prompt_column", Region { x1: 1010, y1: 640, x2: 1210, y2: 982 }));
}

#[test]
fn deepseek_scan_regions_follow_the_url() {
    let r = DeepSeekRegions::mac_1512x982();
    let fresh_first = send_scan_regions_for_current_input(&r, DeepSeekUrlClass::Home);
    assert_eq!(fresh_first[0], r.send_scan_fresh);
    assert_eq!(fresh_first[1], r.send_scan_inchat);
    let inchat_first = send_scan_regions_for_current_input(&r, DeepSeekUrlClass::InChat);
    assert_eq!(inchat_first[0], r.send_scan_inchat);
    assert_eq!(current_input_regions(&r, DeepSeekUrlClass::InChat), (r.input_box_inchat, r.input_focus_inchat));
    assert_eq!(current_input_regions(&r, DeepSeekUrlClass::OffSite), (r.input_box_fresh, r.input_focus_fresh));
    assert_eq!(submit_new_chat_scan_region(&r, DeepSeekUrlClass::Home), Region { x1: 995, y1: 470, x2: 1295, y2: 835 });
}

#[test]
fn followup_attach_scan_moves_left_of_the_new_chat_pill() {
    let base = Region { x1: 1100, y1: 875, x2: 1230, y2: 965 };
    assert_eq!(attach_scan_for_followup_layout(base, None), base);
    let pill = Region { x1: 1150, y1: 880, x2: 1275, y2: 930 };
    assert_eq!(
        attach_scan_for_followup_layout(base, Some(pill)),
        Region { x1: 1050, y1: 875, x2: 1142, y2: 965 }
    );
}

#[test]
fn template_sets_list_their_asset_variants() {
    assert_eq!(
        arena_templates::send_button(),
        vec![
            arena_templates::SEND_BUTTON_DARK_100,
            arena_templates::SEND_BUTTON_DARK_125,
            arena_templates::SEND_BUTTON_LIGHT_100
        ]
    );
    assert_eq!(
        arena_templates::new_chat_button(),
        vec![arena_templates::NEW_CHAT_DARK_COLLAPSED, arena_templates::NEW_CHAT_DARK_EXPANDED]
    );
    assert_eq!(arena_templates::stop_button(), vec!["assets/macos/arena.ai/templates/stop_button_dark_100.png"]);
    assert_eq!(
        deepseek_templates::attach_button(),
        vec![deepseek_templates::ATTACH_BUTTON_DARK_INCHAT, deepseek_templates::ATTACH_BUTTON_DARK_FRESH]
    );
    assert_eq!(deepseek_templates::server_busy(), vec!["assets/macos/deepseek/templates/server_busy_dark.png"]);
}

#[test]
fn chooser_scan_band_and_parking_point() {
    let r = Regions::mac_1512x982();
    assert_eq!(response_choice_scan_region(&r, UrlClass::Home), Region { x1: 484, y1: 415, x2: 1058, y2: 559 });
    assert_eq!(response_choice_scan_region(&r, UrlClass::InChat), Region { x1: 484, y1: 790, x2: 1058, y2: 934 });
    assert_eq!(park_point(&r), (360, 255));
}
