//! Scan regions the Arena adapter derives from its calibrated layout.
use vstd::prelude::*;
use crate::adapter::{Region, div_toward_zero, half_toward_zero};
use crate::arena::detect::UrlClass;
use crate::arena::regions::{ArenaSurface, Regions, scale_coord_pub, scale_coord_spec};

verus! {

pub open spec fn min_i(a: int, b: int) -> int {
    if a <= b { a } else { b }
}

pub open spec fn max_i(a: int, b: int) -> int {
    if a >= b { a } else { b }
}

/// Where a text response's copy button can sit: the 95-pixel band above
/// the input box (within the conversation), 190 pixels wide from the
/// conversation's left edge.
pub open spec fn text_copy_scan_spec(r: Regions) -> Region {
    let y2 = min_i(r.input_box.y1 as int, r.conversation.y2 as int);
    Region {
        x1: r.conversation.x1,
        y1: max_i(y2 - 95, r.conversation.y1 as int) as i32,
        x2: min_i(r.conversation.x1 + 190, r.screen_width as int) as i32,
        y2: y2 as i32,
    }
}

pub fn text_copy_scan_region(r: &Regions) -> (g: Region)
    requires
        r.conversation.x1 + 190 <= i32::MAX,
        r.input_box.y1 - 95 >= i32::MIN,
        r.conversation.y2 - 95 >= i32::MIN,
    ensures
        g == text_copy_scan_spec(*r),
{
    let y2 = if r.input_box.y1 <= r.conversation.y2 { r.input_box.y1 } else { r.conversation.y2 };
    let y1 = if y2 - 95 >= r.conversation.y1 { y2 - 95 } else { r.conversation.y1 };
    let x1 = r.conversation.x1;
    let x2 = if x1 + 190 <= r.screen_width { x1 + 190 } else { r.screen_width };
    Region { x1, y1, x2, y2 }
}

/// The middle of the screen where the large white stop square appears:
/// from a quarter to three quarters of the width, from a fifth to two
/// thirds of the height.
pub open spec fn central_white_square_spec(r: Regions) -> Region {
    let sw = r.screen_width as int;
    let sh = r.screen_height as int;
    Region {
        x1: max_i(div_toward_zero(sw, 4), 0) as i32,
        y1: max_i(div_toward_zero(sh, 5), 0) as i32,
        x2: min_i(div_toward_zero(sw * 3, 4), sw) as i32,
        y2: min_i(div_toward_zero(sh * 2, 3), sh) as i32,
    }
}

pub fn central_white_square_region(r: &Regions) -> (g: Region)
    requires
        i32::MIN <= r.screen_width * 3 <= i32::MAX,
        i32::MIN <= r.screen_height * 2 <= i32::MAX,
    ensures
        g == central_white_square_spec(*r),
{
    let sw = r.screen_width;
    let sh = r.screen_height;
    let qx = sw / 4;
    let qy = sh / 5;
    let tx = sw * 3 / 4;
    let ty = sh * 2 / 3;
    Region {
        x1: if qx >= 0 { qx } else { 0 },
        y1: if qy >= 0 { qy } else { 0 },
        x2: if tx <= sw { tx } else { sw },
        y2: if ty <= sh { ty } else { sh },
    }
}

pub(crate) fn min32(a: i32, b: i32) -> (m: i32)
    ensures
        m == min_i(a as int, b as int),
{
    if a <= b { a } else { b }
}

pub(crate) fn max32(a: i32, b: i32) -> (m: i32)
    ensures
        m == max_i(a as int, b as int),
{
    if a >= b { a } else { b }
}

/// The right end of the fresh-chat input.
pub open spec fn fresh_input_right(r: Regions) -> Region {
    Region {
        x1: min_i(1060, r.screen_width as int) as i32,
        y1: min_i(650, r.screen_height as int) as i32,
        x2: min_i(1190, r.screen_width as int) as i32,
        y2: min_i(815, r.screen_height as int) as i32,
    }
}

/// The right end of the input in code mode.
pub open spec fn code_input_right(r: Regions) -> Region {
    Region {
        x1: min_i(390, r.screen_width as int) as i32,
        y1: max_i(r.screen_height - 125, 0) as i32,
        x2: min_i(500, r.screen_width as int) as i32,
        y2: max_i(r.screen_height - 20, 0) as i32,
    }
}

/// The right end of the input inside a conversation.
pub open spec fn inchat_input_right(r: Regions) -> Region {
    Region {
        x1: min_i(900, r.screen_width as int) as i32,
        y1: max_i(r.screen_height - 125, 0) as i32,
        x2: min_i(1180, r.screen_width as int) as i32,
        y2: max_i(r.screen_height - 20, 0) as i32,
    }
}

/// The column under the text-mode prompt.
pub open spec fn text_prompt_column(r: Regions) -> Region {
    Region {
        x1: min_i(1010, r.screen_width as int) as i32,
        y1: min_i(640, r.screen_height as int) as i32,
        x2: min_i(1210, r.screen_width as int) as i32,
        y2: r.screen_height,
    }
}

/// The labelled places where the send / stop / rerun button can sit: the
/// calibrated prompt buttons and the right ends of the inputs, plus the
/// code-mode places on the code surface.
pub open spec fn prompt_button_scan_spec(r: Regions) -> Seq<(Seq<char>, Region)> {
    let base = seq![
        ("fresh_prompt_button"@, r.send_or_stop),
        ("inchat_prompt_button"@, r.send_or_stop_inchat),
        ("fresh_input_right"@, fresh_input_right(r)),
        ("inchat_input_right"@, inchat_input_right(r)),
        ("text_prompt_column"@, text_prompt_column(r)),
    ];
    if r.surface == ArenaSurface::Code {
        base + seq![("code_prompt_button"@, r.send_or_stop_code_mode), ("code_input_right"@, code_input_right(r))]
    } else {
        base
    }
}

pub open spec fn labelled_view(v: Seq<(&str, Region)>) -> Seq<(Seq<char>, Region)> {
    v.map_values(|e: (&str, Region)| (e.0@, e.1))
}

pub fn prompt_button_scan_regions(r: &Regions) -> (g: Vec<(&'static str, Region)>)
    requires
        r.screen_height - 125 >= i32::MIN,
    ensures
        labelled_view(g@) == prompt_button_scan_spec(*r),
{
    let sw = r.screen_width;
    let sh = r.screen_height;
    let fresh = Region { x1: min32(1060, sw), y1: min32(650, sh), x2: min32(1190, sw), y2: min32(815, sh) };
    let code = Region { x1: min32(390, sw), y1: max32(sh - 125, 0), x2: min32(500, sw), y2: max32(sh - 20, 0) };
    let inchat = Region { x1: min32(900, sw), y1: max32(sh - 125, 0), x2: min32(1180, sw), y2: max32(sh - 20, 0) };
    let column = Region { x1: min32(1010, sw), y1: min32(640, sh), x2: min32(1210, sw), y2: sh };
    let mut v: Vec<(&'static str, Region)> = Vec::new();
    v.push(("fresh_prompt_button", r.send_or_stop));
    v.push(("inchat_prompt_button", r.send_or_stop_inchat));
    v.push(("fresh_input_right", fresh));
    v.push(("inchat_input_right", inchat));
    v.push(("text_prompt_column", column));
    let is_code = match r.surface {
        ArenaSurface::Code => true,
        ArenaSurface::Text => false,
    };
    if is_code {
        v.push(("code_prompt_button", r.send_or_stop_code_mode));
        v.push(("code_input_right", code));
    }
    proof {
        reveal_strlit("fresh_prompt_button");
        reveal_strlit("inchat_prompt_button");
        reveal_strlit("fresh_input_right");
        reveal_strlit("inchat_input_right");
        reveal_strlit("text_prompt_column");
        reveal_strlit("code_prompt_button");
        reveal_strlit("code_input_right");
        assert(labelled_view(v@) =~= prompt_button_scan_spec(*r));
    }
    v
}

/// A labelled scan region with its match threshold in thousandths.
pub open spec fn thresholded_view(v: Seq<(&str, Region, u32)>) -> Seq<(Seq<char>, Region, u32)> {
    v.map_values(|e: (&str, Region, u32)| (e.0@, e.1, e.2))
}

/// Where the send button is searched, in order, each place with its match
/// threshold in thousandths: only where the input's action button can
/// sit.
pub open spec fn send_button_scan_spec(r: Regions) -> Seq<(Seq<char>, Region, u32)> {
    if r.surface == ArenaSurface::Text {
        seq![
            ("fresh_send"@, r.send_or_stop, 780u32),
            ("text_inchat_send"@, r.send_or_stop_inchat, 780u32),
            ("fresh_input_right"@, fresh_input_right(r), 740u32),
            ("text_input_right"@, inchat_input_right(r), 760u32),
        ]
    } else {
        seq![
            ("fresh_send"@, r.send_or_stop, 780u32),
            ("code_send"@, r.send_or_stop_code_mode, 780u32),
            ("inchat_send"@, r.send_or_stop_inchat, 780u32),
            ("fresh_input_right"@, fresh_input_right(r), 740u32),
            ("code_input_right"@, code_input_right(r), 760u32),
            ("inchat_input_right"@, inchat_input_right(r), 760u32),
        ]
    }
}

pub fn send_button_scan_regions(r: &Regions) -> (g: Vec<(&'static str, Region, u32)>)
    requires
        r.screen_height - 125 >= i32::MIN,
    ensures
        thresholded_view(g@) == send_button_scan_spec(*r),
{
    let sw = r.screen_width;
    let sh = r.screen_height;
    let fresh = Region { x1: min32(1060, sw), y1: min32(650, sh), x2: min32(1190, sw), y2: min32(815, sh) };
    let code = Region { x1: min32(390, sw), y1: max32(sh - 125, 0), x2: min32(500, sw), y2: max32(sh - 20, 0) };
    let inchat = Region { x1: min32(900, sw), y1: max32(sh - 125, 0), x2: min32(1180, sw), y2: max32(sh - 20, 0) };
    let mut v: Vec<(&'static str, Region, u32)> = Vec::new();
    match r.surface {
        ArenaSurface::Text => {
            v.push(("fresh_send", r.send_or_stop, 780));
            v.push(("text_inchat_send", r.send_or_stop_inchat, 780));
            v.push(("fresh_input_right", fresh, 740));
            v.push(("text_input_right", inchat, 760));
        },
        ArenaSurface::Code => {
            v.push(("fresh_send", r.send_or_stop, 780));
            v.push(("code_send", r.send_or_stop_code_mode, 780));
            v.push(("inchat_send", r.send_or_stop_inchat, 780));
            v.push(("fresh_input_right", fresh, 740));
            v.push(("code_input_right", code, 760));
            v.push(("inchat_input_right", inchat, 760));
        },
    }
    proof {
        reveal_strlit("fresh_send");
        reveal_strlit("text_inchat_send");
        reveal_strlit("fresh_input_right");
        reveal_strlit("text_input_right");
        reveal_strlit("code_send");
        reveal_strlit("inchat_send");
        reveal_strlit("code_input_right");
        reveal_strlit("inchat_input_right");
        assert(thresholded_view(v@) =~= send_button_scan_spec(*r));
    }
    v
}

/// Where the stop button is searched on the Code surface, in order, with
/// thresholds in thousandths: the stop buttons, then the right ends of the
/// code and in-chat inputs. The Text surface looks at its stop square
/// instead, so it has none.
pub open spec fn stop_button_scan_spec(r: Regions) -> Seq<(Seq<char>, Region, u32)> {
    if r.surface == ArenaSurface::Text {
        Seq::empty()
    } else {
        seq![
            ("code_stop"@, r.send_or_stop_code_mode, 780u32),
            ("inchat_stop"@, r.send_or_stop_inchat, 780u32),
            ("code_input_right"@, code_input_right(r), 760u32),
            ("inchat_input_right"@, inchat_input_right(r), 760u32),
        ]
    }
}

pub fn stop_button_scan_regions(r: &Regions) -> (g: Vec<(&'static str, Region, u32)>)
    requires
        r.screen_height - 125 >= i32::MIN,
    ensures
        thresholded_view(g@) == stop_button_scan_spec(*r),
{
    let sw = r.screen_width;
    let sh = r.screen_height;
    let code = Region { x1: min32(390, sw), y1: max32(sh - 125, 0), x2: min32(500, sw), y2: max32(sh - 20, 0) };
    let inchat = Region { x1: min32(900, sw), y1: max32(sh - 125, 0), x2: min32(1180, sw), y2: max32(sh - 20, 0) };
    let mut v: Vec<(&'static str, Region, u32)> = Vec::new();
    match r.surface {
        ArenaSurface::Text => {},
        ArenaSurface::Code => {
            v.push(("code_stop", r.send_or_stop_code_mode, 780));
            v.push(("inchat_stop", r.send_or_stop_inchat, 780));
            v.push(("code_input_right", code, 760));
            v.push(("inchat_input_right", inchat, 760));
        },
    }
    proof {
        reveal_strlit("code_stop");
        reveal_strlit("inchat_stop");
        reveal_strlit("code_input_right");
        reveal_strlit("inchat_input_right");
        assert(thresholded_view(v@) =~= stop_button_scan_spec(*r));
    }
    v
}

/// Where the A/B chooser's Skip button is searched: from 120 pixels above
/// the input's top (not above the conversation) to 24 below it (within the
/// screen), across 32 % to 70 % of the screen's width (rounded half away
/// from zero).
pub open spec fn choice_scan_spec(r: Regions, url: UrlClass) -> Region {
    let input_top = if url == UrlClass::InChat { r.input_focus_point_inchat.y1 } else { r.input_box.y1 };
    Region {
        x1: max_i(scale_coord_spec(r.screen_width, 32, 100) as int, 0) as i32,
        y1: max_i(input_top - 120, r.conversation.y1 as int) as i32,
        x2: min_i(scale_coord_spec(r.screen_width, 70, 100) as int, r.screen_width as int) as i32,
        y2: min_i(input_top + 24, r.screen_height as int) as i32,
    }
}

pub fn response_choice_scan_region(r: &Regions, url: UrlClass) -> (g: Region)
    requires
        r.input_box.y1 - 120 >= i32::MIN,
        r.input_box.y1 + 24 <= i32::MAX,
        r.input_focus_point_inchat.y1 - 120 >= i32::MIN,
        r.input_focus_point_inchat.y1 + 24 <= i32::MAX,
    ensures
        g == choice_scan_spec(*r, url),
{
    let input_top = match url {
        UrlClass::InChat => r.input_focus_point_inchat.y1,
        _ => r.input_box.y1,
    };
    let x1 = scale_coord_pub(r.screen_width, 32, 100);
    let x2 = scale_coord_pub(r.screen_width, 70, 100);
    Region {
        x1: max32(x1, 0),
        y1: max32(input_top - 120, r.conversation.y1),
        x2: min32(x2, r.screen_width),
        y2: min32(input_top + 24, r.screen_height),
    }
}

/// Where the pointer is parked off the prompt's buttons: 120 pixels into
/// the conversation and 90 down, at least 20 pixels inside the screen's
/// right and bottom edges.
pub open spec fn park_point_spec(r: Regions) -> (int, int) {
    (
        min_i(r.conversation.x1 + 120, r.screen_width - 20),
        min_i(r.conversation.y1 + 90, r.screen_height - 20),
    )
}

pub fn park_point(r: &Regions) -> (p: (i32, i32))
    requires
        r.conversation.x1 + 120 <= i32::MAX,
        r.conversation.y1 + 90 <= i32::MAX,
        r.screen_width - 20 >= i32::MIN,
        r.screen_height - 20 >= i32::MIN,
    ensures
        p.0 == park_point_spec(*r).0,
        p.1 == park_point_spec(*r).1,
{
    (min32(r.conversation.x1 + 120, r.screen_width - 20), min32(r.conversation.y1 + 90, r.screen_height - 20))
}

/// Where the Skip button of Arena's A/B response chooser is expected: under
/// the middle of the input, 56 pixels above the input's top (not above the
/// conversation's top).
pub open spec fn skip_point_spec(r: Regions, url: UrlClass) -> (int, int) {
    let input_top = if url == UrlClass::InChat { r.input_focus_point_inchat.y1 } else { r.input_box.y1 };
    (half_toward_zero(r.input_box.x1 + r.input_box.x2), max_i(input_top - 56, r.conversation.y1 as int))
}

pub fn response_choice_skip_expected_point(r: &Regions, url: UrlClass) -> (p: (i32, i32))
    requires
        i32::MIN <= r.input_box.x1 + r.input_box.x2 <= i32::MAX,
        r.input_box.y1 - 56 >= i32::MIN,
        r.input_focus_point_inchat.y1 - 56 >= i32::MIN,
    ensures
        p.0 == skip_point_spec(*r, url).0,
        p.1 == skip_point_spec(*r, url).1,
{
    let input_top = match url {
        UrlClass::InChat => r.input_focus_point_inchat.y1,
        _ => r.input_box.y1,
    };
    let cx = (r.input_box.x1 + r.input_box.x2) / 2;
    (cx, max32(input_top - 56, r.conversation.y1))
}

} // verus!
