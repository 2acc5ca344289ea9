//! Picking a model in Arena's model dropdown, as a checked protocol: open
//! the dropdown (clicking its header up to four times), put the model's
//! name on the clipboard, click the search field, clear old text, paste,
//! check the paste filled the field, pick the first match with Down and
//! Return, check the picker closed and, where a calibrated image of the
//! header exists, that it matches; the user's clipboard is restored.
use vstd::prelude::*;
use crate::arena::setup_steps::{DropdownStep, dropdown_step, dropdown_step_spec};
use crate::text::{decimal, int_text, push_decimal, push_int};

verus! {

/// Where the pick stands: which observation it waits for.
#[derive(Clone, Copy, Debug, PartialEq, Eq, Structural)]
pub enum PickPhase {
    /// Whether the dropdown's search row shows is due, after `clicks` header clicks.
    CheckingOpen { clicks: u32 },
    /// The busiest spot of the header is due.
    Scanning { clicks: u32 },
    /// Header click number `clicks` was made.
    Clicking { clicks: u32 },
    /// Whether the search field holds old text is due.
    ReadingSearch,
    /// The clipboard was to be saved and given the model's name.
    Preparing,
    /// Where to click the search field is due.
    LocatingSearch,
    /// The search field was clicked.
    ClickingSearch,
    /// Old text was to be cleared.
    Clearing,
    /// The paste was made.
    Pasting,
    /// Whether the paste filled the field is due.
    CheckingPaste,
    /// Down was pressed.
    PressingDown,
    /// Return was pressed.
    PressingReturn,
    /// Whether the picker closed is due.
    CheckingClosed,
    /// The comparison with a calibrated header image is due.
    CheckingHeader,
    /// The clipboard was to be restored; the outcome follows.
    Restoring,
    /// The outcome was reported.
    Finished,
}

/// The pick's state.
pub struct PickState {
    pub phase: PickPhase,
    /// The header's expected centre, and where later clicks go.
    pub header: (i32, i32),
    pub click_at: (i32, i32),
    /// The search field needs clearing before the paste.
    pub needs_clearing: bool,
    /// Where the search field was clicked.
    pub search_at: (i32, i32),
    /// How the pick ends once the clipboard is restored: picked (`None`)
    /// or failed with this message.
    pub pending: Option<String>,
}

/// What the caller observed after performing the requested action.
pub enum PickEvent {
    /// How an action that can fail went.
    Outcome(Result<(), String>),
    /// Whether the dropdown's search row shows.
    MenuOpen(bool),
    /// The busiest spot in the header, if any was busy enough.
    Scanned(Option<(i32, i32)>),
    /// Whether the search field holds old text, or `None` when it could not
    /// be captured.
    SearchRead(Option<bool>),
    /// Where to click the search field.
    SearchAt((i32, i32)),
    /// Whether the paste filled the field (`None`: no capture), with the
    /// readings as the report prints them and the captures to compare.
    PasteChecked { filled: Option<bool>, detail: String, compare: String },
    /// Whether the picker is still open, with the readings as printed.
    Closed { still_open: bool, detail: String },
    /// Whether the header matches its calibrated image (`None`: no image
    /// exists), with the score as printed.
    Header { matches: Option<bool>, detail: String },
}

/// What the caller should do next.
pub enum PickAction {
    /// Report whether the dropdown's search row shows.
    CheckOpen,
    /// Click the header there.
    ClickHeader((i32, i32)),
    /// Report the busiest spot inside the header.
    ScanHeader,
    /// Report whether the search field holds old text.
    ReadSearch,
    /// Save the clipboard's text and put the model's name on it.
    PrepareClipboard,
    /// Report where to click the search field.
    LocateSearch,
    /// Click the search field there.
    ClickSearch((i32, i32)),
    /// Select all and delete in the search field.
    ClearSearch,
    /// Paste.
    Paste,
    /// Report whether the paste filled the field.
    CheckPaste,
    PressDown,
    PressReturn,
    /// Report whether the picker is still open.
    CheckClosed,
    /// Compare the header with its calibrated image, if one exists.
    CheckHeader,
    /// Put the saved text back on the clipboard.
    RestoreClipboard,
    /// The pick's outcome.
    Finish(Result<(), String>),
}

// ── Messages ────────────────────────────────────────────────────────────────

pub open spec fn not_opened_msg() -> Seq<char> {
    "verify failed step 6: model dropdown did not open after retry+scan"@
}

pub open spec fn header_click_msg(n: nat, e: Seq<char>) -> Seq<char> {
    "model click "@ + decimal(n) + ": "@ + e
}

pub open spec fn not_filled_msg(detail: Seq<char>, at: (i32, i32), compare: Seq<char>) -> Seq<char> {
    "verify failed step 6: cmd+v paste did NOT fill model search input. "@ + detail
        + " Search input wasn't focused at ("@ + int_text(at.0 as int) + ","@ + int_text(at.1 as int) + "). "@ + compare
}

pub open spec fn pick_unexpected_msg() -> Seq<char> {
    "model pick: the event does not answer the pending step"@
}

// ── The protocol ────────────────────────────────────────────────────────────

/// `t` is `s` moved on to `phase`, nothing else changed.
pub open spec fn kept(s: PickState, t: PickState, phase: PickPhase) -> bool {
    &&& t.phase == phase
    &&& t.header == s.header
    &&& t.click_at == s.click_at
    &&& t.needs_clearing == s.needs_clearing
    &&& t.search_at == s.search_at
    &&& t.pending == s.pending
}

/// The pick ends at once with the failure `msg`, the clipboard as it is.
pub open spec fn fails(s: PickState, t: PickState, a: PickAction, msg: Seq<char>) -> bool {
    kept(s, t, PickPhase::Finished) && (a matches PickAction::Finish(Err(m)) && m@ == msg)
}

/// The clipboard is restored next, to end with `ok` or the failure `msg`.
pub open spec fn restore_to(s: PickState, t: PickState, a: PickAction, ok: bool, msg: Seq<char>) -> bool {
    &&& t.phase == PickPhase::Restoring
    &&& t.header == s.header
    &&& t.click_at == s.click_at
    &&& t.needs_clearing == s.needs_clearing
    &&& t.search_at == s.search_at
    &&& if ok {
        t.pending is None
    } else {
        t.pending matches Some(m) && m@ == msg
    }
    &&& a is RestoreClipboard
}

pub open spec fn pick_rel(s: PickState, e: PickEvent, t: PickState, a: PickAction) -> bool {
    match s.phase {
        PickPhase::CheckingOpen { clicks } => match e {
            PickEvent::MenuOpen(open) => match dropdown_step_spec(clicks, open) {
                DropdownStep::Opened => kept(s, t, PickPhase::ReadingSearch) && a is ReadSearch,
                DropdownStep::ClickExpected => kept(s, t, PickPhase::Clicking { clicks: 1 }) && a == PickAction::ClickHeader(s.header),
                DropdownStep::ClickScanned => if clicks == 1 {
                    kept(s, t, PickPhase::Scanning { clicks }) && a is ScanHeader
                } else {
                    kept(s, t, PickPhase::Clicking { clicks: (clicks + 1) as u32 }) && a == PickAction::ClickHeader(s.click_at)
                },
                DropdownStep::GiveUp => fails(s, t, a, not_opened_msg()),
            },
            _ => fails(s, t, a, pick_unexpected_msg()),
        },
        PickPhase::Scanning { clicks } => match e {
            PickEvent::Scanned(found) => {
                let at = match found {
                    Some(p) => p,
                    None => s.header,
                };
                &&& t.phase == (PickPhase::Clicking { clicks: if clicks < u32::MAX { (clicks + 1) as u32 } else { clicks } })
                &&& t.header == s.header
                &&& t.click_at == at
                &&& t.needs_clearing == s.needs_clearing
                &&& t.search_at == s.search_at
                &&& t.pending == s.pending
                &&& a == PickAction::ClickHeader(at)
            },
            _ => fails(s, t, a, pick_unexpected_msg()),
        },
        PickPhase::Clicking { clicks } => match e {
            PickEvent::Outcome(Ok(())) => kept(s, t, PickPhase::CheckingOpen { clicks }) && a is CheckOpen,
            PickEvent::Outcome(Err(m)) => fails(s, t, a, header_click_msg(clicks as nat, m@)),
            _ => fails(s, t, a, pick_unexpected_msg()),
        },
        PickPhase::ReadingSearch => match e {
            PickEvent::SearchRead(Some(old_text)) => {
                &&& t.phase == PickPhase::Preparing
                &&& t.header == s.header
                &&& t.click_at == s.click_at
                &&& t.needs_clearing == old_text
                &&& t.search_at == s.search_at
                &&& t.pending == s.pending
                &&& a is PrepareClipboard
            },
            PickEvent::SearchRead(None) => fails(s, t, a, "verify failed step 6: could not capture search-input pre-state"@),
            _ => fails(s, t, a, pick_unexpected_msg()),
        },
        PickPhase::Preparing => match e {
            PickEvent::Outcome(Ok(())) => kept(s, t, PickPhase::LocatingSearch) && a is LocateSearch,
            PickEvent::Outcome(Err(m)) => fails(s, t, a, m@),
            _ => fails(s, t, a, pick_unexpected_msg()),
        },
        PickPhase::LocatingSearch => match e {
            PickEvent::SearchAt(p) => {
                &&& t.phase == PickPhase::ClickingSearch
                &&& t.header == s.header
                &&& t.click_at == s.click_at
                &&& t.needs_clearing == s.needs_clearing
                &&& t.search_at == p
                &&& t.pending == s.pending
                &&& a == PickAction::ClickSearch(p)
            },
            _ => fails(s, t, a, pick_unexpected_msg()),
        },
        PickPhase::ClickingSearch => match e {
            PickEvent::Outcome(Ok(())) => if s.needs_clearing {
                kept(s, t, PickPhase::Clearing) && a is ClearSearch
            } else {
                kept(s, t, PickPhase::Pasting) && a is Paste
            },
            PickEvent::Outcome(Err(m)) => fails(s, t, a, "search click: "@ + m@),
            _ => fails(s, t, a, pick_unexpected_msg()),
        },
        PickPhase::Clearing => match e {
            PickEvent::Outcome(Ok(())) => kept(s, t, PickPhase::Pasting) && a is Paste,
            PickEvent::Outcome(Err(_)) => fails(s, t, a, "verify failed step 6: could not re-capture search-input post-clear"@),
            _ => fails(s, t, a, pick_unexpected_msg()),
        },
        PickPhase::Pasting => match e {
            PickEvent::Outcome(Ok(())) => kept(s, t, PickPhase::CheckingPaste) && a is CheckPaste,
            PickEvent::Outcome(Err(m)) => fails(s, t, a, "press_key cmd+v: "@ + m@),
            _ => fails(s, t, a, pick_unexpected_msg()),
        },
        PickPhase::CheckingPaste => match e {
            PickEvent::PasteChecked { filled: Some(true), .. } => kept(s, t, PickPhase::PressingDown) && a is PressDown,
            PickEvent::PasteChecked { filled: Some(false), detail, compare } => restore_to(s, t, a, false, not_filled_msg(detail@, s.search_at, compare@)),
            PickEvent::PasteChecked { filled: None, .. } => fails(s, t, a, "verify failed step 6: could not capture search-input post-paste"@),
            _ => fails(s, t, a, pick_unexpected_msg()),
        },
        PickPhase::PressingDown => match e {
            PickEvent::Outcome(Ok(())) => kept(s, t, PickPhase::PressingReturn) && a is PressReturn,
            PickEvent::Outcome(Err(m)) => fails(s, t, a, "press_key down: "@ + m@),
            _ => fails(s, t, a, pick_unexpected_msg()),
        },
        PickPhase::PressingReturn => match e {
            PickEvent::Outcome(Ok(())) => kept(s, t, PickPhase::CheckingClosed) && a is CheckClosed,
            PickEvent::Outcome(Err(m)) => fails(s, t, a, "press_key return: "@ + m@),
            _ => fails(s, t, a, pick_unexpected_msg()),
        },
        PickPhase::CheckingClosed => match e {
            PickEvent::Closed { still_open, detail } => if still_open {
                restore_to(s, t, a, false, "verify failed step 6: picker still open after Down+Enter ("@ + detail@)
            } else {
                kept(s, t, PickPhase::CheckingHeader) && a is CheckHeader
            },
            _ => fails(s, t, a, pick_unexpected_msg()),
        },
        PickPhase::CheckingHeader => match e {
            PickEvent::Header { matches: Some(false), detail } => fails(s, t, a, "verify failed step 6: model header doesn't match calibrated "@ + detail@),
            PickEvent::Header { .. } => restore_to(s, t, a, true, Seq::empty()),
            _ => fails(s, t, a, pick_unexpected_msg()),
        },
        PickPhase::Restoring => match e {
            PickEvent::Outcome(_) => kept(s, t, PickPhase::Finished) && match s.pending {
                None => a == PickAction::Finish(Ok(())),
                Some(m) => a matches PickAction::Finish(Err(x)) && x@ == m@,
            },
            _ => fails(s, t, a, pick_unexpected_msg()),
        },
        PickPhase::Finished => fails(s, t, a, pick_unexpected_msg()),
    }
}

/// A pick reports success only out of the clipboard restore, after the
/// paste filled the search field, the picker closed and the header did not
/// contradict a calibrated image; and it clicks the header at most four
/// times.
pub proof fn law_pick_step(s: PickState, e: PickEvent, t: PickState, a: PickAction)
    requires
        pick_rel(s, e, t, a),
        s.phase matches PickPhase::CheckingOpen { clicks } ==> clicks <= 4,
        s.phase matches PickPhase::Clicking { clicks } ==> 1 <= clicks <= 4,
        s.phase matches PickPhase::Scanning { clicks } ==> clicks == 1,
    ensures
        a matches PickAction::Finish(Ok(())) ==> s.phase is Restoring && s.pending is None,
        t.phase is Restoring && t.pending is None && !(s.phase is Restoring) ==> s.phase is CheckingHeader,
        t.phase is CheckingHeader ==> s.phase is CheckingClosed && (e matches PickEvent::Closed { still_open, .. } && !still_open),
        s.phase is CheckingClosed ==> (t.phase is CheckingHeader || t.phase is Restoring || t.phase is Finished),
        t.phase is CheckingClosed ==> s.phase is PressingReturn || s.phase is CheckingClosed,
        t.phase is PressingDown ==> s.phase is CheckingPaste && (e matches PickEvent::PasteChecked { filled: Some(true), .. }),
        t.phase matches PickPhase::Clicking { clicks } ==> 1 <= clicks <= 4,
        t.phase matches PickPhase::CheckingOpen { clicks } ==> clicks <= 4,
{
}

// ── Running it ──────────────────────────────────────────────────────────────

fn keep(s: &PickState, phase: PickPhase) -> (t: PickState)
    ensures
        kept(*s, t, phase),
{
    PickState {
        phase,
        header: s.header,
        click_at: s.click_at,
        needs_clearing: s.needs_clearing,
        search_at: s.search_at,
        pending: s.pending.clone(),
    }
}

fn fail_with(s: &PickState, msg: String) -> (r: (PickState, PickAction))
    ensures
        fails(*s, r.0, r.1, msg@),
{
    (keep(s, PickPhase::Finished), PickAction::Finish(Err(msg)))
}

fn restore_with(s: &PickState, pending: Option<String>) -> (r: (PickState, PickAction))
    ensures
        restore_to(*s, r.0, r.1, pending is None, match pending {
            Some(m) => m@,
            None => Seq::empty(),
        }),
{
    let mut t = keep(s, PickPhase::Restoring);
    t.pending = pending;
    (t, PickAction::RestoreClipboard)
}

fn lit(a: &str) -> (r: String)
    ensures
        r@ == a@,
{
    let mut r = String::new();
    r.append(a);
    r
}

fn lit2(a: &str, b: &str) -> (r: String)
    ensures
        r@ == a@ + b@,
{
    let mut r = lit(a);
    r.append(b);
    r
}

fn unexpected_pick(s: &PickState) -> (r: (PickState, PickAction))
    ensures
        fails(*s, r.0, r.1, pick_unexpected_msg()),
{
    fail_with(s, lit("model pick: the event does not answer the pending step"))
}

/// A pick whose dropdown header is centred at `header`. It begins by
/// checking whether the dropdown is already open.
pub fn pick_begin(header: (i32, i32)) -> (r: (PickState, PickAction))
    ensures
        r.0.phase == (PickPhase::CheckingOpen { clicks: 0 }),
        r.0.header == header,
        r.0.click_at == header,
        r.0.pending is None,
        r.1 is CheckOpen,
{
    (PickState { phase: PickPhase::CheckingOpen { clicks: 0 }, header, click_at: header, needs_clearing: false, search_at: header, pending: None },
        PickAction::CheckOpen)
}

fn pick_open(state: &PickState, event: PickEvent) -> (r: (PickState, PickAction))
    requires
        state.phase is CheckingOpen || state.phase is Scanning || state.phase is Clicking,
    ensures
        pick_rel(*state, event, r.0, r.1),
{
    match state.phase {
        PickPhase::CheckingOpen { clicks } => match event {
            PickEvent::MenuOpen(open) => match dropdown_step(clicks, open) {
                DropdownStep::Opened => (keep(state, PickPhase::ReadingSearch), PickAction::ReadSearch),
                DropdownStep::ClickExpected => (keep(state, PickPhase::Clicking { clicks: 1 }), PickAction::ClickHeader(state.header)),
                DropdownStep::ClickScanned => if clicks == 1 {
                    (keep(state, PickPhase::Scanning { clicks }), PickAction::ScanHeader)
                } else {
                    (keep(state, PickPhase::Clicking { clicks: clicks + 1 }), PickAction::ClickHeader(state.click_at))
                },
                DropdownStep::GiveUp => fail_with(state, lit("verify failed step 6: model dropdown did not open after retry+scan")),
            },
            _ => unexpected_pick(state),
        },
        PickPhase::Scanning { clicks } => match event {
            PickEvent::Scanned(found) => {
                let at = match found {
                    Some(p) => p,
                    None => state.header,
                };
                if clicks < u32::MAX {
                    let mut t = keep(state, PickPhase::Clicking { clicks: clicks + 1 });
                    t.click_at = at;
                    (t, PickAction::ClickHeader(at))
                } else {
                    let mut t = keep(state, PickPhase::Clicking { clicks });
                    t.click_at = at;
                    (t, PickAction::ClickHeader(at))
                }
            },
            _ => unexpected_pick(state),
        },
        PickPhase::Clicking { clicks } => match event {
            PickEvent::Outcome(Ok(())) => (keep(state, PickPhase::CheckingOpen { clicks }), PickAction::CheckOpen),
            PickEvent::Outcome(Err(m)) => {
                let mut msg = lit("model click ");
                push_decimal(&mut msg, clicks as u64);
                msg.append(": ");
                msg.append(m.as_str());
                fail_with(state, msg)
            },
            _ => unexpected_pick(state),
        },
        _ => unexpected_pick(state),
    }
}

fn pick_search(state: &PickState, event: PickEvent) -> (r: (PickState, PickAction))
    requires
        !(state.phase is CheckingOpen || state.phase is Scanning || state.phase is Clicking),
    ensures
        pick_rel(*state, event, r.0, r.1),
{
    match state.phase {
        PickPhase::ReadingSearch => match event {
            PickEvent::SearchRead(Some(old_text)) => {
                let mut t = keep(state, PickPhase::Preparing);
                t.needs_clearing = old_text;
                (t, PickAction::PrepareClipboard)
            },
            PickEvent::SearchRead(None) => fail_with(state, lit("verify failed step 6: could not capture search-input pre-state")),
            _ => unexpected_pick(state),
        },
        PickPhase::Preparing => match event {
            PickEvent::Outcome(Ok(())) => (keep(state, PickPhase::LocatingSearch), PickAction::LocateSearch),
            PickEvent::Outcome(Err(m)) => fail_with(state, m),
            _ => unexpected_pick(state),
        },
        PickPhase::LocatingSearch => match event {
            PickEvent::SearchAt(p) => {
                let mut t = keep(state, PickPhase::ClickingSearch);
                t.search_at = p;
                (t, PickAction::ClickSearch(p))
            },
            _ => unexpected_pick(state),
        },
        PickPhase::ClickingSearch => match event {
            PickEvent::Outcome(Ok(())) => if state.needs_clearing {
                (keep(state, PickPhase::Clearing), PickAction::ClearSearch)
            } else {
                (keep(state, PickPhase::Pasting), PickAction::Paste)
            },
            PickEvent::Outcome(Err(m)) => fail_with(state, lit2("search click: ", m.as_str())),
            _ => unexpected_pick(state),
        },
        PickPhase::Clearing => match event {
            PickEvent::Outcome(Ok(())) => (keep(state, PickPhase::Pasting), PickAction::Paste),
            PickEvent::Outcome(Err(_)) => fail_with(state, lit("verify failed step 6: could not re-capture search-input post-clear")),
            _ => unexpected_pick(state),
        },
        PickPhase::Pasting => match event {
            PickEvent::Outcome(Ok(())) => (keep(state, PickPhase::CheckingPaste), PickAction::CheckPaste),
            PickEvent::Outcome(Err(m)) => fail_with(state, lit2("press_key cmd+v: ", m.as_str())),
            _ => unexpected_pick(state),
        },
        PickPhase::CheckingPaste => match event {
            PickEvent::PasteChecked { filled: Some(true), .. } => (keep(state, PickPhase::PressingDown), PickAction::PressDown),
            PickEvent::PasteChecked { filled: Some(false), detail, compare } => {
                let mut msg = lit2("verify failed step 6: cmd+v paste did NOT fill model search input. ", detail.as_str());
                msg.append(" Search input wasn't focused at (");
                push_int(&mut msg, state.search_at.0);
                msg.append(",");
                push_int(&mut msg, state.search_at.1);
                msg.append("). ");
                msg.append(compare.as_str());
                restore_with(state, Some(msg))
            },
            PickEvent::PasteChecked { filled: None, .. } => fail_with(state, lit("verify failed step 6: could not capture search-input post-paste")),
            _ => unexpected_pick(state),
        },
        PickPhase::PressingDown => match event {
            PickEvent::Outcome(Ok(())) => (keep(state, PickPhase::PressingReturn), PickAction::PressReturn),
            PickEvent::Outcome(Err(m)) => fail_with(state, lit2("press_key down: ", m.as_str())),
            _ => unexpected_pick(state),
        },
        PickPhase::PressingReturn => match event {
            PickEvent::Outcome(Ok(())) => (keep(state, PickPhase::CheckingClosed), PickAction::CheckClosed),
            PickEvent::Outcome(Err(m)) => fail_with(state, lit2("press_key return: ", m.as_str())),
            _ => unexpected_pick(state),
        },
        PickPhase::CheckingClosed => match event {
            PickEvent::Closed { still_open, detail } => if still_open {
                restore_with(state, Some(lit2("verify failed step 6: picker still open after Down+Enter (", detail.as_str())))
            } else {
                (keep(state, PickPhase::CheckingHeader), PickAction::CheckHeader)
            },
            _ => unexpected_pick(state),
        },
        PickPhase::CheckingHeader => match event {
            PickEvent::Header { matches: Some(false), detail } => {
                fail_with(state, lit2("verify failed step 6: model header doesn't match calibrated ", detail.as_str()))
            },
            PickEvent::Header { .. } => restore_with(state, None),
            _ => unexpected_pick(state),
        },
        PickPhase::Restoring => match event {
            PickEvent::Outcome(_) => {
                let x = match &state.pending {
                    None => Ok(()),
                    Some(m) => Err(m.clone()),
                };
                (keep(state, PickPhase::Finished), PickAction::Finish(x))
            },
            _ => unexpected_pick(state),
        },
        _ => unexpected_pick(state),
    }
}

/// One step of a model pick.
pub fn pick_next(state: &PickState, event: PickEvent) -> (r: (PickState, PickAction))
    ensures
        pick_rel(*state, event, r.0, r.1),
{
    match state.phase {
        PickPhase::CheckingOpen { .. } | PickPhase::Scanning { .. } | PickPhase::Clicking { .. } => pick_open(state, event),
        _ => pick_search(state, event),
    }
}

} // verus!
