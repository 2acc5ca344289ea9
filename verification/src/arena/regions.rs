//! Bounded screen regions for Arena.ai, calibrated against 1512×982 logical
//! screenshots. A Windows 1920×1080 preset is a proportional scale of the Mac
//! calibration.
//!
//! Click coordinates are computed by callers from `center`; when the layout
//! shifts, only one rectangle here needs retuning.
use vstd::prelude::*;
use crate::adapter::{Region, center_spec, region_center};
use crate::session::PromptMode;

verus! {

/// Arena has different UI surfaces for its Code and Text filters.
#[derive(Clone, Copy, Debug, PartialEq, Eq, Structural)]
pub enum ArenaSurface {
    Code,
    Text,
}

impl ArenaSurface {
    pub fn from_prompt_mode(mode: PromptMode) -> (s: Self)
        ensures
            s == (match mode {
                PromptMode::Coding => ArenaSurface::Code,
                PromptMode::Research => ArenaSurface::Text,
            }),
    {
        match mode {
            PromptMode::Coding => ArenaSurface::Code,
            PromptMode::Research => ArenaSurface::Text,
        }
    }
}

/// All bounded rectangles the Arena adapter looks at.
#[derive(Clone, Copy, Debug)]
pub struct Regions {
    pub surface: ArenaSurface,
    pub screen_width: i32,
    pub screen_height: i32,
    pub sidebar_expanded: Region,
    pub sidebar_collapsed: Region,
    pub sidebar_toggle: Region,
    pub sidebar_toggle_when_expanded: Region,
    pub sidebar_toggle_when_collapsed: Region,
    pub new_chat_button_when_collapsed: Region,
    pub new_chat_button_when_expanded: Region,
    pub mode_dropdown: Region,
    pub mode_dropdown_expanded: Region,
    pub mode_menu_expanded: Region,
    pub model_dropdown: Region,
    pub model_dropdown_expanded: Region,
    pub model_menu_expanded: Region,
    pub input_box: Region,
    pub input_focus_point: Region,
    pub input_focus_point_inchat: Region,
    pub send_or_stop: Region,
    pub send_or_stop_inchat: Region,
    pub greeting: Region,
    pub conversation: Region,
    pub message_footer: Region,
    pub message_footer_inchat: Region,
    pub error_banner: Region,
    pub chat_full_modal: Region,
    pub code_panel: Region,
    pub preview_toggle: Region,
    pub code_toggle: Region,
    pub download_button: Region,
    pub send_or_stop_code_mode: Region,
    pub input_focus_point_code_mode: Region,
    pub attach_scan_fresh: Region,
    pub attach_scan_inchat: Region,
}

pub open spec fn rect(x1: i32, y1: i32, x2: i32, y2: i32) -> Region {
    Region { x1, y1, x2, y2 }
}

fn mk(x1: i32, y1: i32, x2: i32, y2: i32) -> (r: Region)
    ensures
        r == rect(x1, y1, x2, y2),
{
    Region { x1, y1, x2, y2 }
}

/// The calibrated Code-filter layout at 1512×982.
pub open spec fn mac_code_spec() -> Regions {
    Regions {
        surface: ArenaSurface::Code,
        screen_width: 1512,
        screen_height: 982,
        sidebar_expanded: rect(0, 130, 220, 982),
        sidebar_collapsed: rect(0, 130, 55, 982),
        sidebar_toggle: rect(0, 130, 230, 170),
        sidebar_toggle_when_expanded: rect(180, 130, 230, 170),
        sidebar_toggle_when_collapsed: rect(0, 130, 55, 170),
        new_chat_button_when_collapsed: rect(0, 170, 55, 230),
        new_chat_button_when_expanded: rect(0, 175, 220, 230),
        mode_dropdown: rect(75, 128, 165, 158),
        mode_dropdown_expanded: rect(240, 120, 330, 155),
        mode_menu_expanded: rect(60, 155, 360, 420),
        model_dropdown: rect(180, 128, 270, 158),
        model_dropdown_expanded: rect(340, 120, 500, 155),
        model_menu_expanded: rect(160, 155, 600, 700),
        input_box: rect(400, 535, 1170, 720),
        input_focus_point: rect(430, 537, 1140, 565),
        input_focus_point_inchat: rect(380, 910, 990, 940),
        send_or_stop: rect(1110, 725, 1170, 785),
        send_or_stop_inchat: rect(1015, 910, 1065, 950),
        greeting: rect(490, 460, 1020, 510),
        conversation: rect(240, 165, 1170, 700),
        message_footer: rect(240, 600, 1170, 720),
        message_footer_inchat: rect(240, 850, 1170, 960),
        error_banner: rect(240, 165, 1170, 320),
        chat_full_modal: rect(436, 251, 1076, 731),
        code_panel: rect(490, 130, 1512, 982),
        preview_toggle: rect(500, 130, 545, 165),
        code_toggle: rect(545, 130, 595, 165),
        download_button: rect(900, 130, 1020, 165),
        send_or_stop_code_mode: rect(425, 905, 485, 965),
        input_focus_point_code_mode: rect(100, 910, 420, 940),
        attach_scan_fresh: rect(1040, 725, 1110, 785),
        attach_scan_inchat: rect(945, 910, 1015, 950),
    }
}

/// `a` lies inside `b`.
pub open spec fn region_within(a: Region, b: Region) -> bool {
    b.x1 <= a.x1 && a.x2 <= b.x2 && b.y1 <= a.y1 && a.y2 <= b.y2
}

/// The Text-filter layout: the Code layout with the input (its focus
/// point inside it), conversation, footer and model-picker rectangles
/// retuned.
pub open spec fn mac_text_spec() -> Regions {
    Regions {
        surface: ArenaSurface::Text,
        input_box: rect(380, 830, 1190, 960),
        input_focus_point: rect(400, 845, 980, 885),
        input_focus_point_inchat: rect(400, 845, 980, 885),
        send_or_stop_inchat: rect(1135, 910, 1185, 960),
        conversation: rect(360, 170, 1200, 835),
        message_footer: rect(360, 250, 620, 835),
        message_footer_inchat: rect(360, 250, 620, 835),
        model_menu_expanded: rect(185, 160, 690, 570),
        ..mac_code_spec()
    }
}

/// `num / den` rounded to the nearest integer, halves away from zero.
pub open spec fn round_div(num: int, den: int) -> int {
    if num >= 0 {
        (2 * num + den) / (2 * den)
    } else {
        -((-2 * num + den) / (2 * den))
    }
}

/// `v` clamped into the range of `i32`.
pub open spec fn clamp_i32(v: int) -> i32 {
    if v < i32::MIN {
        i32::MIN
    } else if v > i32::MAX {
        i32::MAX
    } else {
        v as i32
    }
}

/// One coordinate scaled by `new / old`, rounded and clamped.
pub open spec fn scale_coord_spec(v: i32, new: i32, old: i32) -> i32 {
    clamp_i32(round_div(v * new, old as int))
}

pub open spec fn scale_region_spec(r: Region, w: i32, h: i32, sw: i32, sh: i32) -> Region {
    Region {
        x1: scale_coord_spec(r.x1, w, sw),
        y1: scale_coord_spec(r.y1, h, sh),
        x2: scale_coord_spec(r.x2, w, sw),
        y2: scale_coord_spec(r.y2, h, sh),
    }
}

/// Every rectangle of `r` scaled linearly from its screen size to `w`×`h`.
pub open spec fn scale_spec(r: Regions, w: i32, h: i32) -> Regions {
    Regions {
        surface: r.surface,
        screen_width: w,
        screen_height: h,
        sidebar_expanded: scale_region_spec(r.sidebar_expanded, w, h, r.screen_width, r.screen_height),
        sidebar_collapsed: scale_region_spec(r.sidebar_collapsed, w, h, r.screen_width, r.screen_height),
        sidebar_toggle: scale_region_spec(r.sidebar_toggle, w, h, r.screen_width, r.screen_height),
        sidebar_toggle_when_expanded: scale_region_spec(r.sidebar_toggle_when_expanded, w, h, r.screen_width, r.screen_height),
        sidebar_toggle_when_collapsed: scale_region_spec(r.sidebar_toggle_when_collapsed, w, h, r.screen_width, r.screen_height),
        new_chat_button_when_collapsed: scale_region_spec(r.new_chat_button_when_collapsed, w, h, r.screen_width, r.screen_height),
        new_chat_button_when_expanded: scale_region_spec(r.new_chat_button_when_expanded, w, h, r.screen_width, r.screen_height),
        mode_dropdown: scale_region_spec(r.mode_dropdown, w, h, r.screen_width, r.screen_height),
        mode_dropdown_expanded: scale_region_spec(r.mode_dropdown_expanded, w, h, r.screen_width, r.screen_height),
        mode_menu_expanded: scale_region_spec(r.mode_menu_expanded, w, h, r.screen_width, r.screen_height),
        model_dropdown: scale_region_spec(r.model_dropdown, w, h, r.screen_width, r.screen_height),
        model_dropdown_expanded: scale_region_spec(r.model_dropdown_expanded, w, h, r.screen_width, r.screen_height),
        model_menu_expanded: scale_region_spec(r.model_menu_expanded, w, h, r.screen_width, r.screen_height),
        input_box: scale_region_spec(r.input_box, w, h, r.screen_width, r.screen_height),
        input_focus_point: scale_region_spec(r.input_focus_point, w, h, r.screen_width, r.screen_height),
        input_focus_point_inchat: scale_region_spec(r.input_focus_point_inchat, w, h, r.screen_width, r.screen_height),
        send_or_stop: scale_region_spec(r.send_or_stop, w, h, r.screen_width, r.screen_height),
        send_or_stop_inchat: scale_region_spec(r.send_or_stop_inchat, w, h, r.screen_width, r.screen_height),
        greeting: scale_region_spec(r.greeting, w, h, r.screen_width, r.screen_height),
        conversation: scale_region_spec(r.conversation, w, h, r.screen_width, r.screen_height),
        message_footer: scale_region_spec(r.message_footer, w, h, r.screen_width, r.screen_height),
        message_footer_inchat: scale_region_spec(r.message_footer_inchat, w, h, r.screen_width, r.screen_height),
        error_banner: scale_region_spec(r.error_banner, w, h, r.screen_width, r.screen_height),
        chat_full_modal: scale_region_spec(r.chat_full_modal, w, h, r.screen_width, r.screen_height),
        code_panel: scale_region_spec(r.code_panel, w, h, r.screen_width, r.screen_height),
        preview_toggle: scale_region_spec(r.preview_toggle, w, h, r.screen_width, r.screen_height),
        code_toggle: scale_region_spec(r.code_toggle, w, h, r.screen_width, r.screen_height),
        download_button: scale_region_spec(r.download_button, w, h, r.screen_width, r.screen_height),
        send_or_stop_code_mode: scale_region_spec(r.send_or_stop_code_mode, w, h, r.screen_width, r.screen_height),
        input_focus_point_code_mode: scale_region_spec(r.input_focus_point_code_mode, w, h, r.screen_width, r.screen_height),
        attach_scan_fresh: scale_region_spec(r.attach_scan_fresh, w, h, r.screen_width, r.screen_height),
        attach_scan_inchat: scale_region_spec(r.attach_scan_inchat, w, h, r.screen_width, r.screen_height),
    }
}

/// The preset for a surface at 1512×982.
pub open spec fn mac_for_spec(surface: ArenaSurface) -> Regions {
    match surface {
        ArenaSurface::Code => mac_code_spec(),
        ArenaSurface::Text => mac_text_spec(),
    }
}

/// The preset `for_screen_and_surface` picks: exact matches first, then the
/// preset closest by screen area (ties go to the Mac preset).
pub open spec fn for_screen_spec(width: i32, height: i32, surface: ArenaSurface) -> Regions {
    let host = width * height;
    let mac_d = if host - 1512 * 982 >= 0 { host - 1512 * 982 } else { 1512 * 982 - host };
    let win_d = if host - 1920 * 1080 >= 0 { host - 1920 * 1080 } else { 1920 * 1080 - host };
    if width == 1512 && height == 982 {
        mac_for_spec(surface)
    } else if width == 1920 && height == 1080 {
        scale_spec(mac_for_spec(surface), 1920, 1080)
    } else if mac_d <= win_d {
        mac_for_spec(surface)
    } else {
        scale_spec(mac_for_spec(surface), 1920, 1080)
    }
}

/// One coordinate scaled by `new / old`, rounded half away from zero and
/// clamped into `i32`.
fn scale_coord(v: i32, new: i32, old: i32) -> (r: i32)
    requires
        old > 0,
    ensures
        r == scale_coord_spec(v, new, old),
{
    assert(-0x4000_0000_0000_0000 <= (v as int) * (new as int) <= 0x4000_0000_0000_0000) by (nonlinear_arith)
        requires
            i32::MIN <= v <= i32::MAX,
            i32::MIN <= new <= i32::MAX,
    ;
    let num: i128 = (v as i128) * (new as i128);
    let den: i128 = old as i128;
    let q: i128 = if num >= 0 {
        (2 * num + den) / (2 * den)
    } else {
        -((-2 * num + den) / (2 * den))
    };
    if q < i32::MIN as i128 {
        i32::MIN
    } else if q > i32::MAX as i128 {
        i32::MAX
    } else {
        q as i32
    }
}

/// One coordinate scaled by `new / old`, rounded half away from zero and
/// clamped into `i32`.
pub(crate) fn scale_coord_pub(v: i32, new: i32, old: i32) -> (r: i32)
    requires
        old > 0,
    ensures
        r == scale_coord_spec(v, new, old),
{
    scale_coord(v, new, old)
}

fn scale_region(r: Region, w: i32, h: i32, sw: i32, sh: i32) -> (s: Region)
    requires
        sw > 0,
        sh > 0,
    ensures
        s == scale_region_spec(r, w, h, sw, sh),
{
    Region {
        x1: scale_coord(r.x1, w, sw),
        y1: scale_coord(r.y1, h, sh),
        x2: scale_coord(r.x2, w, sw),
        y2: scale_coord(r.y2, h, sh),
    }
}

/// Per-rectangle linear scale.
fn scale(r: Regions, w: i32, h: i32) -> (s: Regions)
    requires
        r.screen_width > 0,
        r.screen_height > 0,
    ensures
        s == scale_spec(r, w, h),
{
    let sw = r.screen_width;
    let sh = r.screen_height;
    Regions {
        surface: r.surface,
        screen_width: w,
        screen_height: h,
        sidebar_expanded: scale_region(r.sidebar_expanded, w, h, sw, sh),
        sidebar_collapsed: scale_region(r.sidebar_collapsed, w, h, sw, sh),
        sidebar_toggle: scale_region(r.sidebar_toggle, w, h, sw, sh),
        sidebar_toggle_when_expanded: scale_region(r.sidebar_toggle_when_expanded, w, h, sw, sh),
        sidebar_toggle_when_collapsed: scale_region(r.sidebar_toggle_when_collapsed, w, h, sw, sh),
        new_chat_button_when_collapsed: scale_region(r.new_chat_button_when_collapsed, w, h, sw, sh),
        new_chat_button_when_expanded: scale_region(r.new_chat_button_when_expanded, w, h, sw, sh),
        mode_dropdown: scale_region(r.mode_dropdown, w, h, sw, sh),
        mode_dropdown_expanded: scale_region(r.mode_dropdown_expanded, w, h, sw, sh),
        mode_menu_expanded: scale_region(r.mode_menu_expanded, w, h, sw, sh),
        model_dropdown: scale_region(r.model_dropdown, w, h, sw, sh),
        model_dropdown_expanded: scale_region(r.model_dropdown_expanded, w, h, sw, sh),
        model_menu_expanded: scale_region(r.model_menu_expanded, w, h, sw, sh),
        input_box: scale_region(r.input_box, w, h, sw, sh),
        input_focus_point: scale_region(r.input_focus_point, w, h, sw, sh),
        input_focus_point_inchat: scale_region(r.input_focus_point_inchat, w, h, sw, sh),
        send_or_stop: scale_region(r.send_or_stop, w, h, sw, sh),
        send_or_stop_inchat: scale_region(r.send_or_stop_inchat, w, h, sw, sh),
        greeting: scale_region(r.greeting, w, h, sw, sh),
        conversation: scale_region(r.conversation, w, h, sw, sh),
        message_footer: scale_region(r.message_footer, w, h, sw, sh),
        message_footer_inchat: scale_region(r.message_footer_inchat, w, h, sw, sh),
        error_banner: scale_region(r.error_banner, w, h, sw, sh),
        chat_full_modal: scale_region(r.chat_full_modal, w, h, sw, sh),
        code_panel: scale_region(r.code_panel, w, h, sw, sh),
        preview_toggle: scale_region(r.preview_toggle, w, h, sw, sh),
        code_toggle: scale_region(r.code_toggle, w, h, sw, sh),
        download_button: scale_region(r.download_button, w, h, sw, sh),
        send_or_stop_code_mode: scale_region(r.send_or_stop_code_mode, w, h, sw, sh),
        input_focus_point_code_mode: scale_region(r.input_focus_point_code_mode, w, h, sw, sh),
        attach_scan_fresh: scale_region(r.attach_scan_fresh, w, h, sw, sh),
        attach_scan_inchat: scale_region(r.attach_scan_inchat, w, h, sw, sh),
    }
}

/// Absolute value, as `i32::abs` (which overflows only on `i32::MIN`).
fn abs_i32(v: i32) -> (r: i32)
    requires
        v > i32::MIN,
    ensures
        r == if v >= 0 { v as int } else { -v },
{
    if v >= 0 { v } else { -v }
}

impl Regions {
    /// Calibration measured from macOS screenshots (1512×982 logical).
    pub fn mac_1512x982() -> (r: Self)
        ensures
            r == mac_code_spec(),
    {
        Self::mac_1512x982_code()
    }

    /// The calibrated Code-filter layout.
    pub fn mac_1512x982_code() -> (r: Self)
        ensures
            r == mac_code_spec(),
            region_within(r.input_focus_point, r.input_box),
    {
        Regions {
            surface: ArenaSurface::Code,
            screen_width: 1512,
            screen_height: 982,
            sidebar_expanded: mk(0, 130, 220, 982),
            sidebar_collapsed: mk(0, 130, 55, 982),
            sidebar_toggle: mk(0, 130, 230, 170),
            sidebar_toggle_when_expanded: mk(180, 130, 230, 170),
            sidebar_toggle_when_collapsed: mk(0, 130, 55, 170),
            new_chat_button_when_collapsed: mk(0, 170, 55, 230),
            new_chat_button_when_expanded: mk(0, 175, 220, 230),
            mode_dropdown: mk(75, 128, 165, 158),
            mode_dropdown_expanded: mk(240, 120, 330, 155),
            mode_menu_expanded: mk(60, 155, 360, 420),
            model_dropdown: mk(180, 128, 270, 158),
            model_dropdown_expanded: mk(340, 120, 500, 155),
            model_menu_expanded: mk(160, 155, 600, 700),
            input_box: mk(400, 535, 1170, 720),
            input_focus_point: mk(430, 537, 1140, 565),
            input_focus_point_inchat: mk(380, 910, 990, 940),
            send_or_stop: mk(1110, 725, 1170, 785),
            send_or_stop_inchat: mk(1015, 910, 1065, 950),
            greeting: mk(490, 460, 1020, 510),
            conversation: mk(240, 165, 1170, 700),
            message_footer: mk(240, 600, 1170, 720),
            message_footer_inchat: mk(240, 850, 1170, 960),
            error_banner: mk(240, 165, 1170, 320),
            chat_full_modal: mk(436, 251, 1076, 731),
            code_panel: mk(490, 130, 1512, 982),
            preview_toggle: mk(500, 130, 545, 165),
            code_toggle: mk(545, 130, 595, 165),
            download_button: mk(900, 130, 1020, 165),
            send_or_stop_code_mode: mk(425, 905, 485, 965),
            input_focus_point_code_mode: mk(100, 910, 420, 940),
            attach_scan_fresh: mk(1040, 725, 1110, 785),
            attach_scan_inchat: mk(945, 910, 1015, 950),
        }
    }

    /// The Text-filter layout, retuned from the Code layout.
    pub fn mac_1512x982_text_scaffold() -> (r: Self)
        ensures
            r == mac_text_spec(),
            region_within(r.input_focus_point, r.input_box),
            region_within(r.input_focus_point_inchat, r.input_box),
    {
        let mut regions = Self::mac_1512x982_code();
        regions.surface = ArenaSurface::Text;
        regions.input_box = mk(380, 830, 1190, 960);
        regions.input_focus_point = mk(400, 845, 980, 885);
        regions.input_focus_point_inchat = mk(400, 845, 980, 885);
        regions.send_or_stop_inchat = mk(1135, 910, 1185, 960);
        regions.conversation = mk(360, 170, 1200, 835);
        regions.message_footer = mk(360, 250, 620, 835);
        regions.message_footer_inchat = regions.message_footer;
        regions.model_menu_expanded = mk(185, 160, 690, 570);
        regions
    }

    /// Linear scaling of the Mac Code calibration to 1920×1080.
    pub fn win_1920x1080() -> (r: Self)
        ensures
            r == scale_spec(mac_code_spec(), 1920, 1080),
    {
        Self::win_1920x1080_for(ArenaSurface::Code)
    }

    pub fn win_1920x1080_for(surface: ArenaSurface) -> (r: Self)
        ensures
            r == scale_spec(mac_for_spec(surface), 1920, 1080),
    {
        let base = match surface {
            ArenaSurface::Code => Self::mac_1512x982_code(),
            ArenaSurface::Text => Self::mac_1512x982_text_scaffold(),
        };
        scale(base, 1920, 1080)
    }

    /// The closest Code preset for the screen size.
    pub fn for_screen(width: i32, height: i32) -> (r: Self)
        requires
            i32::MIN + 1920 * 1080 + 1 <= width * height <= i32::MAX,
        ensures
            r == for_screen_spec(width, height, ArenaSurface::Code),
    {
        Self::for_screen_and_surface(width, height, ArenaSurface::Code)
    }

    /// The closest preset for the screen size and surface: an exact match
    /// wins, otherwise the preset closest by area.
    pub fn for_screen_and_surface(width: i32, height: i32, surface: ArenaSurface) -> (r: Self)
        requires
            i32::MIN + 1920 * 1080 + 1 <= width * height <= i32::MAX,
        ensures
            r == for_screen_spec(width, height, surface),
    {
        if width == 1512 && height == 982 {
            return match surface {
                ArenaSurface::Code => Self::mac_1512x982_code(),
                ArenaSurface::Text => Self::mac_1512x982_text_scaffold(),
            };
        }
        if width == 1920 && height == 1080 {
            return Self::win_1920x1080_for(surface);
        }
        let mac_area: i32 = 1512 * 982;
        let win_area: i32 = 1920 * 1080;
        let host_area: i32 = width * height;
        if abs_i32(host_area - mac_area) <= abs_i32(host_area - win_area) {
            match surface {
                ArenaSurface::Code => Self::mac_1512x982_code(),
                ArenaSurface::Text => Self::mac_1512x982_text_scaffold(),
            }
        } else {
            Self::win_1920x1080_for(surface)
        }
    }
}

/// Rectangle centre.
pub fn center(r: Region) -> (c: (i32, i32))
    requires
        i32::MIN <= r.x1 + r.x2 <= i32::MAX,
        i32::MIN <= r.y1 + r.y2 <= i32::MAX,
    ensures
        c == center_spec(r),
{
    region_center(r)
}

proof fn lemma_round_div_exact(v: int, w: int)
    requires
        w > 0,
    ensures
        round_div(v * w, w) == v,
{
    if v >= 0 {
        assert(2 * (v * w) + w == v * (2 * w) + w) by (nonlinear_arith);
        vstd::arithmetic::div_mod::lemma_fundamental_div_mod_converse(2 * (v * w) + w, 2 * w, v, w);
    } else {
        assert(v * w < 0) by (nonlinear_arith)
            requires
                v < 0,
                w > 0,
        ;
        assert(-2 * (v * w) + w == (-v) * (2 * w) + w) by (nonlinear_arith);
        vstd::arithmetic::div_mod::lemma_fundamental_div_mod_converse(-2 * (v * w) + w, 2 * w, -v, w);
    }
}

proof fn lemma_scale_region_identity(r: Region, w: i32, h: i32)
    requires
        w > 0,
        h > 0,
    ensures
        scale_region_spec(r, w, h, w, h) == r,
{
    lemma_round_div_exact(r.x1 as int, w as int);
    lemma_round_div_exact(r.y1 as int, h as int);
    lemma_round_div_exact(r.x2 as int, w as int);
    lemma_round_div_exact(r.y2 as int, h as int);
}

/// Scaling a layout to the screen size it was calibrated for changes
/// nothing.
pub proof fn law_scale_identity(r: Regions)
    requires
        r.screen_width > 0,
        r.screen_height > 0,
    ensures
        scale_spec(r, r.screen_width, r.screen_height) == r,
{
    lemma_scale_region_identity(r.sidebar_expanded, r.screen_width, r.screen_height);
    lemma_scale_region_identity(r.sidebar_collapsed, r.screen_width, r.screen_height);
    lemma_scale_region_identity(r.sidebar_toggle, r.screen_width, r.screen_height);
    lemma_scale_region_identity(r.sidebar_toggle_when_expanded, r.screen_width, r.screen_height);
    lemma_scale_region_identity(r.sidebar_toggle_when_collapsed, r.screen_width, r.screen_height);
    lemma_scale_region_identity(r.new_chat_button_when_collapsed, r.screen_width, r.screen_height);
    lemma_scale_region_identity(r.new_chat_button_when_expanded, r.screen_width, r.screen_height);
    lemma_scale_region_identity(r.mode_dropdown, r.screen_width, r.screen_height);
    lemma_scale_region_identity(r.mode_dropdown_expanded, r.screen_width, r.screen_height);
    lemma_scale_region_identity(r.mode_menu_expanded, r.screen_width, r.screen_height);
    lemma_scale_region_identity(r.model_dropdown, r.screen_width, r.screen_height);
    lemma_scale_region_identity(r.model_dropdown_expanded, r.screen_width, r.screen_height);
    lemma_scale_region_identity(r.model_menu_expanded, r.screen_width, r.screen_height);
    lemma_scale_region_identity(r.input_box, r.screen_width, r.screen_height);
    lemma_scale_region_identity(r.input_focus_point, r.screen_width, r.screen_height);
    lemma_scale_region_identity(r.input_focus_point_inchat, r.screen_width, r.screen_height);
    lemma_scale_region_identity(r.send_or_stop, r.screen_width, r.screen_height);
    lemma_scale_region_identity(r.send_or_stop_inchat, r.screen_width, r.screen_height);
    lemma_scale_region_identity(r.greeting, r.screen_width, r.screen_height);
    lemma_scale_region_identity(r.conversation, r.screen_width, r.screen_height);
    lemma_scale_region_identity(r.message_footer, r.screen_width, r.screen_height);
    lemma_scale_region_identity(r.message_footer_inchat, r.screen_width, r.screen_height);
    lemma_scale_region_identity(r.error_banner, r.screen_width, r.screen_height);
    lemma_scale_region_identity(r.chat_full_modal, r.screen_width, r.screen_height);
    lemma_scale_region_identity(r.code_panel, r.screen_width, r.screen_height);
    lemma_scale_region_identity(r.preview_toggle, r.screen_width, r.screen_height);
    lemma_scale_region_identity(r.code_toggle, r.screen_width, r.screen_height);
    lemma_scale_region_identity(r.download_button, r.screen_width, r.screen_height);
    lemma_scale_region_identity(r.send_or_stop_code_mode, r.screen_width, r.screen_height);
    lemma_scale_region_identity(r.input_focus_point_code_mode, r.screen_width, r.screen_height);
    lemma_scale_region_identity(r.attach_scan_fresh, r.screen_width, r.screen_height);
    lemma_scale_region_identity(r.attach_scan_inchat, r.screen_width, r.screen_height);
}

/// Whatever the screen size, the layout picked is the one for the
/// requested surface; on the calibrated 1512×982 screen it is the
/// calibrated preset itself.
pub proof fn law_surface_kept(width: i32, height: i32, surface: ArenaSurface)
    ensures
        for_screen_spec(width, height, surface).surface == surface,
        width == 1512 && height == 982 ==> for_screen_spec(width, height, surface) == mac_for_spec(surface),
{
}

} // verus!
