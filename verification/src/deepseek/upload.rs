//! Attaching a file on DeepSeek: where to click the paperclip, how to read
//! the polls that follow, and what to do about each outcome.
use vstd::prelude::*;
use crate::adapter::{AdapterError, Region, half_toward_zero};

verus! {

/// The error text that tells the runner the page was reloaded after
/// "Server busy" and the whole upload batch must start over.
pub const SERVER_BUSY_RESTART_SENTINEL: &'static str = "deepseek_server_busy_reload_restart_batch";

/// The error text that tells the runner one file was rejected too often:
/// its chip is deleted, the file is deferred, the batch goes on.
pub const FILE_REJECTED_DEFER_SENTINEL: &'static str = "deepseek_file_rejected_defer_continue";

/// The error text that tells the runner DeepSeek rolled over to a new chat
/// and every file must be uploaded again.
pub const NEW_CHAT_TRIGGERED_SENTINEL: &'static str = "deepseek_new_chat_triggered_reupload_all";

/// Pixels below the paperclip's centre that the click lands.
pub const ATTACH_CLICK_DY: i32 = 8;

/// Where to click the paperclip: with the wide New Chat pill shown, 25
/// pixels left of the pill at its mid-height; otherwise the matched
/// paperclip. The click lands `ATTACH_CLICK_DY` lower.
pub open spec fn attach_click_spec(new_chat: Option<Region>, found: (i32, i32)) -> (int, int) {
    match new_chat {
        Some(b) => (b.x1 - 25, half_toward_zero(b.y1 + b.y2) + ATTACH_CLICK_DY),
        None => (found.0 as int, found.1 + ATTACH_CLICK_DY),
    }
}

pub fn attach_click_point(new_chat: Option<Region>, found: (i32, i32)) -> (p: (i32, i32))
    requires
        match new_chat {
            Some(b) => b.x1 - 25 >= i32::MIN && i32::MIN <= b.y1 + b.y2 <= i32::MAX
                && half_toward_zero(b.y1 + b.y2) + ATTACH_CLICK_DY <= i32::MAX,
            None => found.1 + ATTACH_CLICK_DY <= i32::MAX,
        },
    ensures
        p.0 == attach_click_spec(new_chat, found).0,
        p.1 == attach_click_spec(new_chat, found).1,
{
    match new_chat {
        Some(b) => (b.x1 - 25, (b.y1 + b.y2) / 2 + ATTACH_CLICK_DY),
        None => (found.0, found.1 + ATTACH_CLICK_DY),
    }
}

// ── Polling after the file is picked ────────────────────────────────────────

/// How a run of upload polls ended.
#[derive(Clone, Copy, Debug, PartialEq, Eq, Structural)]
pub enum UploadPollOutcome {
    /// The send button turned blue (or the New Chat pill showed): ready.
    Complete,
    /// A chip shows "Server busy": the page must be reloaded.
    ServerBusy,
    /// The chip finished but the send button stayed dull: rejected.
    Rejected,
    /// Polled to the cap without a verdict.
    Timeout,
}

/// What one upload poll saw, in the order it is looked at.
#[derive(Clone, Copy, Debug)]
pub struct UploadSigns {
    pub server_busy: bool,
    pub new_chat_pill: bool,
    pub send_active: bool,
    pub chip_visible: bool,
}

/// Wait before the first poll, in milliseconds: a normal upload briefly
/// shows a finished chip beside a dull send button.
pub const UPLOAD_WARMUP_MS: u64 = 15_000;
/// Polls, at most.
pub const MAX_UPLOAD_POLLS: u32 = 15;
/// Wait between polls, in milliseconds.
pub const UPLOAD_POLL_MS: u64 = 15_000;

/// What to do after a poll.
#[derive(Clone, Copy, Debug, PartialEq, Eq, Structural)]
pub enum UploadPollStep {
    Finished(UploadPollOutcome),
    /// Wait this many milliseconds and poll again.
    Wait(u64),
}

/// How many polls were made.
#[derive(Clone, Copy, Debug)]
pub struct UploadPoll {
    pub polls: u32,
}

/// The verdict of poll number `n` (counting from 1).
pub open spec fn upload_poll_spec(n: int, s: UploadSigns) -> UploadPollStep {
    if s.server_busy {
        UploadPollStep::Finished(UploadPollOutcome::ServerBusy)
    } else if s.new_chat_pill || s.send_active {
        UploadPollStep::Finished(UploadPollOutcome::Complete)
    } else if s.chip_visible {
        UploadPollStep::Finished(UploadPollOutcome::Rejected)
    } else if n < MAX_UPLOAD_POLLS {
        UploadPollStep::Wait(UPLOAD_POLL_MS)
    } else {
        UploadPollStep::Finished(UploadPollOutcome::Timeout)
    }
}

impl UploadPoll {
    pub fn new() -> (p: Self)
        ensures
            p.polls == 0,
    {
        UploadPoll { polls: 0 }
    }

    /// Read one poll.
    pub fn step(&mut self, s: UploadSigns) -> (r: UploadPollStep)
        requires
            old(self).polls < MAX_UPLOAD_POLLS,
        ensures
            final(self).polls == old(self).polls + 1,
            r == upload_poll_spec(final(self).polls as int, s),
    {
        self.polls = self.polls + 1;
        if s.server_busy {
            UploadPollStep::Finished(UploadPollOutcome::ServerBusy)
        } else if s.new_chat_pill || s.send_active {
            UploadPollStep::Finished(UploadPollOutcome::Complete)
        } else if s.chip_visible {
            UploadPollStep::Finished(UploadPollOutcome::Rejected)
        } else if self.polls < MAX_UPLOAD_POLLS {
            UploadPollStep::Wait(UPLOAD_POLL_MS)
        } else {
            UploadPollStep::Finished(UploadPollOutcome::Timeout)
        }
    }
}

/// The outcome after reading `signs` poll by poll, if one came.
pub open spec fn upload_run(signs: Seq<UploadSigns>) -> Option<UploadPollOutcome>
    decreases signs.len(),
{
    if signs.len() == 0 {
        None
    } else {
        match upload_run(signs.drop_last()) {
            Some(o) => Some(o),
            None => match upload_poll_spec(signs.len() as int, signs.last()) {
                UploadPollStep::Finished(o) => Some(o),
                UploadPollStep::Wait(_) => None,
            },
        }
    }
}

/// Whatever the polls show, the upload has an outcome by the last poll.
pub proof fn law_upload_poll_ends(signs: Seq<UploadSigns>)
    requires
        signs.len() >= MAX_UPLOAD_POLLS,
    ensures
        upload_run(signs) is Some,
    decreases signs.len(),
{
    if signs.len() > MAX_UPLOAD_POLLS {
        law_upload_poll_ends(signs.drop_last());
    }
}

// ── What each outcome leads to ──────────────────────────────────────────────

/// Repair retries after a rejection: one, so two attempts in all.
pub const MAX_REPAIR_RETRIES: u32 = 1;

/// What the upload does after a poll outcome.
#[derive(Debug)]
pub enum UploadNext {
    /// The file is attached: report success.
    Attached,
    /// Reload DeepSeek's home page, reset the panels, start a new chat,
    /// then fail with the error.
    ReloadThenFail(AdapterError),
    /// Delete the rejected chip and attach the file again; fail with the
    /// error if the chip cannot be deleted.
    DeleteChipThenRetry(AdapterError),
    /// Delete the rejected chip (whether or not that works), then fail
    /// with the error.
    DeleteChipThenFail(AdapterError),
    /// Fail with the error.
    Fail(AdapterError),
}

/// The error `Other` with the given text.
pub open spec fn other_error(e: AdapterError, text: Seq<char>) -> bool {
    e matches AdapterError::Other(s) && s@ == text
}

/// After attempt `attempt` (from 0) ended in `outcome`: success, a reload
/// after "Server busy", one delete-and-retry after a rejection, then, on
/// a second rejection, defer the file (or, when the chat is to be kept,
/// report that the deferred file still fails), and a timeout error.
pub open spec fn upload_next_spec(attempt: u32, outcome: UploadPollOutcome, preserve_chat: bool, n: UploadNext) -> bool {
    match outcome {
        UploadPollOutcome::Complete => n is Attached,
        UploadPollOutcome::ServerBusy => n matches UploadNext::ReloadThenFail(e)
            && other_error(e, SERVER_BUSY_RESTART_SENTINEL@),
        UploadPollOutcome::Rejected => if attempt < MAX_REPAIR_RETRIES {
            n matches UploadNext::DeleteChipThenRetry(e)
                && other_error(e, "upload rejected and × delete failed — cannot recover"@)
        } else if preserve_chat {
            n matches UploadNext::DeleteChipThenFail(e) && other_error(e, "deferred upload still failing"@)
        } else {
            n matches UploadNext::DeleteChipThenFail(e) && other_error(e, FILE_REJECTED_DEFER_SENTINEL@)
        },
        UploadPollOutcome::Timeout => n matches UploadNext::Fail(e)
            && e matches AdapterError::Timeout { what, after_ms }
            && what@ == "upload polling timed out without chip or active send button"@
            && after_ms == 150_000,
    }
}

pub fn upload_next(attempt: u32, outcome: UploadPollOutcome, preserve_chat: bool) -> (n: UploadNext)
    ensures
        upload_next_spec(attempt, outcome, preserve_chat, n),
{
    match outcome {
        UploadPollOutcome::Complete => UploadNext::Attached,
        UploadPollOutcome::ServerBusy => UploadNext::ReloadThenFail(
            AdapterError::Other(String::from_str(SERVER_BUSY_RESTART_SENTINEL)),
        ),
        UploadPollOutcome::Rejected => {
            if attempt < MAX_REPAIR_RETRIES {
                UploadNext::DeleteChipThenRetry(
                    AdapterError::Other(String::from_str("upload rejected and × delete failed — cannot recover")),
                )
            } else if preserve_chat {
                UploadNext::DeleteChipThenFail(AdapterError::Other(String::from_str("deferred upload still failing")))
            } else {
                UploadNext::DeleteChipThenFail(AdapterError::Other(String::from_str(FILE_REJECTED_DEFER_SENTINEL)))
            }
        },
        UploadPollOutcome::Timeout => UploadNext::Fail(
            AdapterError::Timeout {
                what: String::from_str("upload polling timed out without chip or active send button"),
                after_ms: 150_000,
            },
        ),
    }
}

/// Only a rejection on the first attempt is retried, so a file is
/// attached at most twice.
pub proof fn law_one_repair_retry(attempt: u32, outcome: UploadPollOutcome, preserve_chat: bool, n: UploadNext)
    requires
        upload_next_spec(attempt, outcome, preserve_chat, n),
        n is DeleteChipThenRetry,
    ensures
        attempt < MAX_REPAIR_RETRIES,
        outcome == UploadPollOutcome::Rejected,
{
}

} // verus!
