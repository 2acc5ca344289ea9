//! Scan regions the DeepSeek adapter derives from its calibrated layout and
//! from where the browser is.
use vstd::prelude::*;
use crate::adapter::Region;
use crate::deepseek::detect::UrlClass;
use crate::deepseek::regions::Regions;

verus! {

pub open spec fn min_i(a: int, b: int) -> int {
    if a <= b { a } else { b }
}

pub open spec fn max_i(a: int, b: int) -> int {
    if a >= b { a } else { b }
}

fn min32(a: i32, b: i32) -> (m: i32)
    ensures
        m == min_i(a as int, b as int),
{
    if a <= b { a } else { b }
}

fn max32(a: i32, b: i32) -> (m: i32)
    ensures
        m == max_i(a as int, b as int),
{
    if a >= b { a } else { b }
}

/// The send-rail scan regions to try, the current layout's first.
pub fn send_scan_regions_for_current_input(r: &Regions, url: UrlClass) -> (g: [Region; 2])
    ensures
        g@ == if url == UrlClass::InChat {
            seq![r.send_scan_inchat, r.send_scan_fresh]
        } else {
            seq![r.send_scan_fresh, r.send_scan_inchat]
        },
{
    let g = match url {
        UrlClass::InChat => [r.send_scan_inchat, r.send_scan_fresh],
        _ => [r.send_scan_fresh, r.send_scan_inchat],
    };
    assert(g@ =~= if url == UrlClass::InChat {
        seq![r.send_scan_inchat, r.send_scan_fresh]
    } else {
        seq![r.send_scan_fresh, r.send_scan_inchat]
    });
    g
}

/// The input box and its focus point for the current layout.
pub fn current_input_regions(r: &Regions, url: UrlClass) -> (g: (Region, Region))
    ensures
        g == if url == UrlClass::InChat {
            (r.input_box_inchat, r.input_focus_inchat)
        } else {
            (r.input_box_fresh, r.input_focus_fresh)
        },
{
    match url {
        UrlClass::InChat => (r.input_box_inchat, r.input_focus_inchat),
        _ => (r.input_box_fresh, r.input_focus_fresh),
    }
}

/// The right side of the composer where the wide submit-time "New chat"
/// pill appears: from 280 pixels left of the send rail's right edge to 20
/// pixels right of it, 30 pixels above to 15 below, clipped to the screen.
pub open spec fn submit_new_chat_scan_spec(r: Regions, url: UrlClass) -> Region {
    let region = if url == UrlClass::InChat { r.send_scan_inchat } else { r.send_scan_fresh };
    Region {
        x1: max_i(region.x2 - 280, 0) as i32,
        y1: max_i(region.y1 - 30, 0) as i32,
        x2: min_i(region.x2 + 20, r.screen_width as int) as i32,
        y2: min_i(region.y2 + 15, r.screen_height as int) as i32,
    }
}

pub fn submit_new_chat_scan_region(r: &Regions, url: UrlClass) -> (g: Region)
    requires
        r.send_scan_inchat.x2 + 20 <= i32::MAX,
        r.send_scan_fresh.x2 + 20 <= i32::MAX,
        r.send_scan_inchat.y2 + 15 <= i32::MAX,
        r.send_scan_fresh.y2 + 15 <= i32::MAX,
        r.send_scan_inchat.x2 - 280 >= i32::MIN,
        r.send_scan_fresh.x2 - 280 >= i32::MIN,
        r.send_scan_inchat.y1 - 30 >= i32::MIN,
        r.send_scan_fresh.y1 - 30 >= i32::MIN,
    ensures
        g == submit_new_chat_scan_spec(*r, url),
{
    let region = match url {
        UrlClass::InChat => r.send_scan_inchat,
        _ => r.send_scan_fresh,
    };
    Region {
        x1: max32(region.x2 - 280, 0),
        y1: max32(region.y1 - 30, 0),
        x2: min32(region.x2 + 20, r.screen_width),
        y2: min32(region.y2 + 15, r.screen_height),
    }
}

/// The paperclip scan once a "New chat" pill took the send slot: the band
/// from 100 to 8 pixels left of the pill (within `base`); without a pill,
/// `base` itself.
pub open spec fn followup_attach_scan_spec(base: Region, new_chat_hit: Option<Region>) -> Region {
    match new_chat_hit {
        None => base,
        Some(nc) => Region {
            x1: max_i(nc.x1 - 100, 0) as i32,
            y1: base.y1,
            x2: min_i(nc.x1 - 8, base.x2 as int) as i32,
            y2: base.y2,
        },
    }
}

pub fn attach_scan_for_followup_layout(base: Region, new_chat_hit: Option<Region>) -> (g: Region)
    requires
        new_chat_hit matches Some(nc) ==> nc.x1 - 100 >= i32::MIN,
    ensures
        g == followup_attach_scan_spec(base, new_chat_hit),
{
    match new_chat_hit {
        None => base,
        Some(nc) => Region { x1: max32(nc.x1 - 100, 0), y1: base.y1, x2: min32(nc.x1 - 8, base.x2), y2: base.y2 },
    }
}

} // verus!
