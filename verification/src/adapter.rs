//! Shared types every per-site adapter speaks: perceived screen state and regions.
use vstd::prelude::*;
use crate::matrix::GrayMatrix;
use crate::parse::{trim_bounds, trim_spec};
use crate::stats::{PixelStats, variances_combo};
use crate::text::{chars_eq, chars_of, decimal, push_decimal};

verus! {

/// What the adapter thinks the screen is showing right now.
#[derive(Clone, Copy, Debug, PartialEq, Eq, Structural)]
pub enum WebUiState {
    Ready,
    Submitting,
    Generating,
    Complete,
    Error,
    ChatFull,
    Unknown,
}

/// The display name of a screen state.
pub open spec fn state_name(s: WebUiState) -> Seq<char> {
    match s {
        WebUiState::Ready => "Ready"@,
        WebUiState::Submitting => "Submitting"@,
        WebUiState::Generating => "Generating"@,
        WebUiState::Complete => "Complete"@,
        WebUiState::Error => "Error"@,
        WebUiState::ChatFull => "ChatFull"@,
        WebUiState::Unknown => "Unknown"@,
    }
}

impl WebUiState {
    /// The text the state is displayed as.
    pub fn as_str(&self) -> (r: &'static str)
        ensures
            r@ == state_name(*self),
    {
        match self {
            WebUiState::Ready => "Ready",
            WebUiState::Submitting => "Submitting",
            WebUiState::Generating => "Generating",
            WebUiState::Complete => "Complete",
            WebUiState::Error => "Error",
            WebUiState::ChatFull => "ChatFull",
            WebUiState::Unknown => "Unknown",
        }
    }
}

/// A bounded rectangle on the screen, in absolute screen coordinates.
/// `x2`/`y2` are exclusive.
#[derive(Clone, Copy, Debug, PartialEq, Eq, Structural)]
pub struct Region {
    pub x1: i32,
    pub y1: i32,
    pub x2: i32,
    pub y2: i32,
}

impl Region {
    pub fn width(self) -> (w: i32)
        requires
            i32::MIN <= self.x2 - self.x1 <= i32::MAX,
        ensures
            w == self.x2 - self.x1,
    {
        self.x2 - self.x1
    }

    pub fn height(self) -> (h: i32)
        requires
            i32::MIN <= self.y2 - self.y1 <= i32::MAX,
        ensures
            h == self.y2 - self.y1,
    {
        self.y2 - self.y1
    }
}

/// `a / b` rounded toward zero (`b > 0`), as integer division does.
pub open spec fn div_toward_zero(a: int, b: int) -> int {
    if a >= 0 {
        a / b
    } else {
        -((-a) / b)
    }
}

/// `v / 2` rounded toward zero, as integer division does.
pub open spec fn half_toward_zero(v: int) -> int {
    if v >= 0 {
        v / 2
    } else {
        -((-v) / 2)
    }
}

/// The centre point of a region.
pub open spec fn center_spec(r: Region) -> (i32, i32) {
    (half_toward_zero(r.x1 + r.x2) as i32, half_toward_zero(r.y1 + r.y2) as i32)
}

fn half(v: i32) -> (h: i32)
    requires
        v > i32::MIN,
    ensures
        h == half_toward_zero(v as int),
{
    if v >= 0 {
        v / 2
    } else {
        -((-v) / 2)
    }
}

/// The centre point of a region; the coordinate sums must fit in `i32`.
pub fn region_center(r: Region) -> (c: (i32, i32))
    requires
        i32::MIN <= r.x1 + r.x2 <= i32::MAX,
        i32::MIN <= r.y1 + r.y2 <= i32::MAX,
    ensures
        c == center_spec(r),
{
    let sx = r.x1 + r.x2;
    let sy = r.y1 + r.y2;
    let cx = if sx == i32::MIN { -1073741824i32 } else { half(sx) };
    let cy = if sy == i32::MIN { -1073741824i32 } else { half(sy) };
    (cx, cy)
}

/// The centre of a non-empty region with non-negative corners lies inside
/// it (`x2`/`y2` exclusive).
pub proof fn law_center_inside(r: Region)
    requires
        0 <= r.x1,
        0 <= r.y1,
        r.x1 < r.x2,
        r.y1 < r.y2,
        i32::MIN <= r.x1 + r.x2 <= i32::MAX,
        i32::MIN <= r.y1 + r.y2 <= i32::MAX,
    ensures
        r.x1 <= center_spec(r).0 < r.x2,
        r.y1 <= center_spec(r).1 < r.y2,
{
}

/// Errors a per-site adapter can return, categorised so recovery can
/// pattern-match on them without parsing strings.
#[derive(Debug)]
pub enum AdapterError {
    /// An expected element was not on screen within the allotted time.
    NotFound { what: String },
    /// An operation timed out.
    Timeout { what: String, after_ms: u64 },
    /// Screen capture failed.
    Capture(String),
    /// Mouse/keyboard input simulation failed.
    Input(String),
    /// Clipboard read/write failed.
    Clipboard(String),
    /// An asset (template PNG) could not be loaded.
    Asset { path: String, reason: String },
    /// Any other adapter-level failure.
    Other(String),
}

/// The text an adapter error is displayed as.
pub open spec fn adapter_error_text(e: AdapterError) -> Seq<char> {
    match e {
        AdapterError::NotFound { what } => "not found: "@ + what@,
        AdapterError::Timeout { what, after_ms } =>
            "timeout waiting for "@ + what@ + " after "@ + decimal(after_ms as nat) + "ms"@,
        AdapterError::Capture(s) => "capture failed: "@ + s@,
        AdapterError::Input(s) => "input failed: "@ + s@,
        AdapterError::Clipboard(s) => "clipboard failed: "@ + s@,
        AdapterError::Asset { path, reason } => "asset load failed: "@ + path@ + " ("@ + reason@ + ")"@,
        AdapterError::Other(s) => s@,
    }
}

impl AdapterError {
    /// The human-readable description of the error.
    pub fn describe(&self) -> (r: String)
        ensures
            r@ == adapter_error_text(*self),
    {
        match self {
            AdapterError::NotFound { what } => {
                let mut r = String::from_str("not found: ");
                r.append(what.as_str());
                r
            },
            AdapterError::Timeout { what, after_ms } => {
                let mut r = String::from_str("timeout waiting for ");
                r.append(what.as_str());
                r.append(" after ");
                push_decimal(&mut r, *after_ms);
                r.append("ms");
                r
            },
            AdapterError::Capture(s) => {
                let mut r = String::from_str("capture failed: ");
                r.append(s.as_str());
                r
            },
            AdapterError::Input(s) => {
                let mut r = String::from_str("input failed: ");
                r.append(s.as_str());
                r
            },
            AdapterError::Clipboard(s) => {
                let mut r = String::from_str("clipboard failed: ");
                r.append(s.as_str());
                r
            },
            AdapterError::Asset { path, reason } => {
                let mut r = String::from_str("asset load failed: ");
                r.append(path.as_str());
                r.append(" (");
                r.append(reason.as_str());
                r.append(")");
                r
            },
            AdapterError::Other(s) => s.clone(),
        }
    }
}

/// The screen point of a template match: the captured region's corner,
/// plus the match's column and row in the capture, plus half the
/// template's width and height (rounded down).
pub open spec fn match_center_spec(region: Region, col: int, row: int, tw: int, th: int) -> (int, int) {
    (region.x1 + col + tw / 2, region.y1 + row + th / 2)
}

pub fn match_center(region: Region, col: usize, row: usize, tw: usize, th: usize) -> (p: (i32, i32))
    requires
        col <= i32::MAX,
        row <= i32::MAX,
        tw <= i32::MAX,
        th <= i32::MAX,
        match_center_spec(region, col as int, row as int, tw as int, th as int).0 <= i32::MAX,
        match_center_spec(region, col as int, row as int, tw as int, th as int).1 <= i32::MAX,
    ensures
        p.0 == match_center_spec(region, col as int, row as int, tw as int, th as int).0,
        p.1 == match_center_spec(region, col as int, row as int, tw as int, th as int).1,
{
    let c = col as i32;
    let r = row as i32;
    let hw = (tw / 2) as i32;
    let hh = (th / 2) as i32;
    (region.x1 + c + hw, region.y1 + r + hh)
}

// ── File dialogs ────────────────────────────────────────────────────────────

/// The file dialog opened after the attach click: the watched region's
/// variance moved by at least 100 either way. `pre` and `post` capture the
/// same region.
pub open spec fn dialog_appeared_spec(pre: Seq<u8>, post: Seq<u8>) -> bool {
    pre.len() > 0 && (variances_combo(post, pre, 1, 1, 100) || variances_combo(pre, post, 1, 1, 100))
}

pub fn dialog_appeared(pre: &GrayMatrix, post: &GrayMatrix) -> (b: bool)
    requires
        pre.data@.len() == post.data@.len(),
    ensures
        b == dialog_appeared_spec(pre.data@, post.data@),
{
    let a = PixelStats::of_all(&pre.data);
    let z = PixelStats::of_all(&post.data);
    if a.n == 0 {
        return false;
    }
    z.variances_combo_at_least(&a, 1, 1, 100) || a.variances_combo_at_least(&z, 1, 1, 100)
}

/// The error when no file dialog opened.
pub fn dialog_missing() -> (e: AdapterError)
    ensures
        e matches AdapterError::NotFound { what } && what@ == "file dialog did not appear after clicking attach button"@,
{
    AdapterError::NotFound { what: String::from_str("file dialog did not appear after clicking attach button") }
}

// ── Clipboard ───────────────────────────────────────────────────────────────

/// A click copied the response: the clipboard changed and holds more than
/// whitespace.
pub open spec fn took_copy(pre: Seq<char>, post: Seq<char>) -> bool {
    post != pre && trim_spec(post).len() > 0
}

pub fn clipboard_took_copy(pre: &str, post: &str) -> (b: bool)
    ensures
        b == took_copy(pre@, post@),
{
    let a = chars_of(pre);
    let p = chars_of(post);
    if chars_eq(&a, &p) {
        return false;
    }
    let (lo, hi) = trim_bounds(&p, 0, p.len());
    proof {
        assert(p@.subrange(0, p@.len() as int) =~= p@);
    }
    lo < hi
}

} // verus!
