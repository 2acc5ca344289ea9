use web_ai_automation::adapter::{region_center, Region};
use web_ai_automation::arena::regions::{center, ArenaSurface, Regions};
use web_ai_automation::deepseek::regions::Regions as DeepSeekRegions;
use web_ai_automation::session::PromptMode;

#[test]
fn arena_surface_tracks_prompt_mode_without_sharing_identity() {
    assert_eq!(
        ArenaSurface::from_prompt_mode(PromptMode::Coding),
        ArenaSurface::Code
    );
    assert_eq!(
        ArenaSurface::from_prompt_mode(PromptMode::Research),
        ArenaSurface::Text
    );

    let code = Regions::for_screen_and_surface(1512, 982, ArenaSurface::Code);
    let text = Regions::for_screen_and_surface(1512, 982, ArenaSurface::Text);

    assert_eq!(code.surface, ArenaSurface::Code);
    assert_eq!(text.surface, ArenaSurface::Text);
}

#[test]
fn region_width_and_height_are_exclusive_spans() {
    let r = Region { x1: 10, y1: 20, x2: 110, y2: 70 };
    assert_eq!(r.width(), 100);
    assert_eq!(r.height(), 50);
}

#[test]
fn region_center_rounds_toward_zero() {
    assert_eq!(region_center(Region { x1: 0, y1: 0, x2: 5, y2: 7 }), (2, 3));
    assert_eq!(region_center(Region { x1: -5, y1: -7, x2: 0, y2: 0 }), (-2, -3));
    assert_eq!(center(Region { x1: 1110, y1: 725, x2: 1170, y2: 785 }), (1140, 755));
}

#[test]
fn center_lies_inside_a_nonempty_region() {
    let r = Region { x1: 3, y1: 4, x2: 4, y2: 5 };
    let (cx, cy) = region_center(r);
    assert!(r.x1 <= cx && cx < r.x2);
    assert!(r.y1 <= cy && cy < r.y2);
}

#[test]
fn mac_code_preset_holds_calibrated_rectangles() {
    let r = Regions::mac_1512x982_code();
    assert_eq!(r.screen_width, 1512);
    assert_eq!(r.screen_height, 982);
    assert_eq!(r.send_or_stop, Region { x1: 1110, y1: 725, x2: 1170, y2: 785 });
    assert_eq!(r.input_box, Region { x1: 400, y1: 535, x2: 1170, y2: 720 });
    assert_eq!(Regions::mac_1512x982().send_or_stop, r.send_or_stop);
}

#[test]
fn text_scaffold_retunes_input_and_conversation() {
    let t = Regions::mac_1512x982_text_scaffold();
    let c = Regions::mac_1512x982_code();
    assert_eq!(t.surface, ArenaSurface::Text);
    assert_eq!(t.input_box, Region { x1: 380, y1: 830, x2: 1190, y2: 960 });
    assert_eq!(t.conversation, Region { x1: 360, y1: 170, x2: 1200, y2: 835 });
    assert_eq!(t.message_footer_inchat, t.message_footer);
    // Untouched rectangles stay as in the Code layout.
    assert_eq!(t.send_or_stop, c.send_or_stop);
    assert_eq!(t.chat_full_modal, c.chat_full_modal);
}

#[test]
fn windows_preset_scales_mac_calibration() {
    let w = Regions::win_1920x1080();
    assert_eq!(w.screen_width, 1920);
    assert_eq!(w.screen_height, 1080);
    assert_eq!(w.surface, ArenaSurface::Code);
    // 1110·1920/1512 = 1409.52 → 1410; 725·1080/982 = 797.35 → 797.
    assert_eq!(w.send_or_stop.x1, 1410);
    assert_eq!(w.send_or_stop.y1, 797);
    // 1170·1920/1512 = 1485.71 → 1486; 785·1080/982 = 863.34 → 863.
    assert_eq!(w.send_or_stop.x2, 1486);
    assert_eq!(w.send_or_stop.y2, 863);
    assert_eq!(Regions::win_1920x1080_for(ArenaSurface::Text).surface, ArenaSurface::Text);
}

#[test]
fn for_screen_picks_exact_then_closest_preset() {
    assert_eq!(Regions::for_screen(1512, 982).screen_width, 1512);
    assert_eq!(Regions::for_screen(1920, 1080).screen_width, 1920);
    // 1440×900 is closer to the Mac area than to 1920×1080.
    assert_eq!(Regions::for_screen(1440, 900).screen_width, 1512);
    // 2560×1440 is closer to 1920×1080.
    let big = Regions::for_screen_and_surface(2560, 1440, ArenaSurface::Text);
    assert_eq!(big.screen_width, 1920);
    assert_eq!(big.surface, ArenaSurface::Text);
}

#[test]
fn deepseek_layout_scales_to_the_screen() {
    let mac = DeepSeekRegions::mac_1512x982();
    assert_eq!(mac.screen_width, 1512);
    assert_eq!(mac.new_chat_button, Region { x1: 5, y1: 185, x2: 255, y2: 250 });
    // Reading the screen size failed: the calibration is used as is.
    let fallback = DeepSeekRegions::for_primary_screen(Err(String::from("no display")));
    assert_eq!(fallback.input_box_fresh, mac.input_box_fresh);
    // Twice the calibrated size doubles every coordinate.
    let double = DeepSeekRegions::for_primary_screen(Ok((3024, 1964)));
    assert_eq!(double.screen_width, 3024);
    assert_eq!(double.new_chat_button, Region { x1: 10, y1: 370, x2: 510, y2: 500 });
}
