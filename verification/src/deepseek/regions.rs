//! Bounded screen regions for DeepSeek, calibrated from 1512×982 logical
//! macOS fullscreen screenshots and scaled linearly to other screens.
use vstd::prelude::*;
use crate::adapter::{Region, center_spec, region_center};
use crate::arena::regions::scale_coord_spec;

verus! {

#[derive(Clone, Copy, Debug)]
pub struct Regions {
    pub screen_width: i32,
    pub screen_height: i32,
    pub new_chat_button: Region,
    pub model_segment: Region,
    pub model_scan: Region,
    pub instant_button: Region,
    pub expert_button: Region,
    pub input_box_fresh: Region,
    pub input_focus_fresh: Region,
    pub input_box_inchat: Region,
    pub input_focus_inchat: Region,
    pub deep_thinking: Region,
    pub deep_thinking_scan: Region,
    pub smart_search: Region,
    pub smart_search_scan: Region,
    pub send_or_stop_fresh: Region,
    pub send_or_stop_inchat: Region,
    pub send_scan_fresh: Region,
    pub send_scan_inchat: Region,
    pub conversation: Region,
    pub response_actions: Region,
    pub copy_scan: Region,
    pub attach_scan_fresh: Region,
    pub attach_scan_inchat: Region,
    pub doc_panel_close_scan: Region,
    pub panel_toggle_scan: Region,
    pub chip_strip_fresh: Region,
    pub chip_strip_inchat: Region,
}

/// A calibrated 1512×982 rectangle scaled to a `w`×`h` screen.
pub open spec fn calibrated(x1: i32, y1: i32, x2: i32, y2: i32, w: i32, h: i32) -> Region {
    Region {
        x1: scale_coord_spec(x1, w, 1512),
        y1: scale_coord_spec(y1, h, 982),
        x2: scale_coord_spec(x2, w, 1512),
        y2: scale_coord_spec(y2, h, 982),
    }
}

/// The DeepSeek layout on a `w`×`h` screen.
pub open spec fn scaled_spec(w: i32, h: i32) -> Regions {
    Regions {
        screen_width: w,
        screen_height: h,
        new_chat_button: calibrated(5, 185, 255, 250, w, h),
        model_segment: calibrated(745, 440, 1035, 505, w, h),
        model_scan: calibrated(735, 220, 1050, 540, w, h),
        instant_button: calibrated(750, 445, 890, 500, w, h),
        expert_button: calibrated(890, 445, 1030, 500, w, h),
        input_box_fresh: calibrated(495, 385, 1280, 790, w, h),
        input_focus_fresh: calibrated(515, 405, 1220, 760, w, h),
        input_box_inchat: calibrated(495, 830, 1280, 955, w, h),
        input_focus_inchat: calibrated(515, 850, 1220, 885, w, h),
        deep_thinking: calibrated(505, 590, 655, 655, w, h),
        deep_thinking_scan: calibrated(500, 580, 660, 670, w, h),
        smart_search: calibrated(645, 590, 805, 655, w, h),
        smart_search_scan: calibrated(640, 580, 815, 670, w, h),
        send_or_stop_fresh: calibrated(1220, 585, 1275, 800, w, h),
        send_or_stop_inchat: calibrated(1220, 900, 1275, 950, w, h),
        send_scan_fresh: calibrated(1225, 500, 1275, 820, w, h),
        send_scan_inchat: calibrated(1225, 875, 1275, 965, w, h),
        conversation: calibrated(500, 135, 1280, 820, w, h),
        response_actions: calibrated(490, 700, 760, 800, w, h),
        copy_scan: calibrated(485, 450, 590, 850, w, h),
        attach_scan_fresh: calibrated(1180, 600, 1230, 820, w, h),
        attach_scan_inchat: calibrated(1100, 875, 1230, 965, w, h),
        doc_panel_close_scan: calibrated(1420, 115, 1510, 200, w, h),
        panel_toggle_scan: calibrated(15, 130, 250, 220, w, h),
        chip_strip_fresh: calibrated(495, 470, 1280, 565, w, h),
        chip_strip_inchat: calibrated(495, 735, 1280, 900, w, h),
    }
}

fn scale_coord(v: i32, new: i32, old: i32) -> (r: i32)
    requires
        old > 0,
    ensures
        r == scale_coord_spec(v, new, old),
{
    crate::arena::regions::scale_coord_pub(v, new, old)
}

fn calibrate(x1: i32, y1: i32, x2: i32, y2: i32, w: i32, h: i32) -> (r: Region)
    ensures
        r == calibrated(x1, y1, x2, y2, w, h),
{
    Region {
        x1: scale_coord(x1, w, 1512),
        y1: scale_coord(y1, h, 982),
        x2: scale_coord(x2, w, 1512),
        y2: scale_coord(y2, h, 982),
    }
}

impl Regions {
    /// The layout for the primary screen, given its size as read from the
    /// display (or the failure to read it, which falls back to 1512×982).
    pub fn for_primary_screen(screen_size: Result<(i32, i32), String>) -> (r: Self)
        ensures
            r == match screen_size {
                Ok((w, h)) => scaled_spec(w, h),
                Err(_) => scaled_spec(1512, 982),
            },
    {
        match screen_size {
            Ok((w, h)) => Self::scaled(w, h),
            Err(_) => Self::mac_1512x982(),
        }
    }

    pub fn mac_1512x982() -> (r: Self)
        ensures
            r == scaled_spec(1512, 982),
    {
        Self::scaled(1512, 982)
    }

    /// Every calibrated rectangle scaled by `screen_width / 1512` and
    /// `screen_height / 982`, rounded to the nearest pixel.
    fn scaled(screen_width: i32, screen_height: i32) -> (r: Self)
        ensures
            r == scaled_spec(screen_width, screen_height),
    {
        let w = screen_width;
        let h = screen_height;
        Regions {
            screen_width,
            screen_height,
            new_chat_button: calibrate(5, 185, 255, 250, w, h),
            model_segment: calibrate(745, 440, 1035, 505, w, h),
            model_scan: calibrate(735, 220, 1050, 540, w, h),
            instant_button: calibrate(750, 445, 890, 500, w, h),
            expert_button: calibrate(890, 445, 1030, 500, w, h),
            input_box_fresh: calibrate(495, 385, 1280, 790, w, h),
            input_focus_fresh: calibrate(515, 405, 1220, 760, w, h),
            input_box_inchat: calibrate(495, 830, 1280, 955, w, h),
            input_focus_inchat: calibrate(515, 850, 1220, 885, w, h),
            deep_thinking: calibrate(505, 590, 655, 655, w, h),
            deep_thinking_scan: calibrate(500, 580, 660, 670, w, h),
            smart_search: calibrate(645, 590, 805, 655, w, h),
            smart_search_scan: calibrate(640, 580, 815, 670, w, h),
            send_or_stop_fresh: calibrate(1220, 585, 1275, 800, w, h),
            send_or_stop_inchat: calibrate(1220, 900, 1275, 950, w, h),
            send_scan_fresh: calibrate(1225, 500, 1275, 820, w, h),
            send_scan_inchat: calibrate(1225, 875, 1275, 965, w, h),
            conversation: calibrate(500, 135, 1280, 820, w, h),
            response_actions: calibrate(490, 700, 760, 800, w, h),
            copy_scan: calibrate(485, 450, 590, 850, w, h),
            attach_scan_fresh: calibrate(1180, 600, 1230, 820, w, h),
            attach_scan_inchat: calibrate(1100, 875, 1230, 965, w, h),
            doc_panel_close_scan: calibrate(1420, 115, 1510, 200, w, h),
            panel_toggle_scan: calibrate(15, 130, 250, 220, w, h),
            chip_strip_fresh: calibrate(495, 470, 1280, 565, w, h),
            chip_strip_inchat: calibrate(495, 735, 1280, 900, w, h),
        }
    }
}

/// Rectangle centre.
pub fn center(region: Region) -> (c: (i32, i32))
    requires
        i32::MIN <= region.x1 + region.x2 <= i32::MAX,
        i32::MIN <= region.y1 + region.y2 <= i32::MAX,
    ensures
        c == center_spec(region),
{
    region_center(region)
}

} // verus!
