//! Environment invariants — what must stay true while the FSM drives the UI.
//!
//! Reading the browser (frontmost app, active URL, fullscreen flag, cursor)
//! happens outside; each invariant here judges such a reading. Where the
//! platform could not answer, the reading is an `Err` and the invariant
//! reports `Ok`, so the watchdog never raises a problem it cannot later
//! resolve.
use vstd::prelude::*;
use crate::recovery::Problem;
use crate::text::{has_substr, str_contains};

verus! {

/// Result of a single invariant check.
#[derive(Debug)]
pub enum InvariantResult {
    Holds,
    Violated(Problem),
}

/// The browser application must be the frontmost app.
#[derive(Clone, Copy, Debug)]
pub struct BrowserForegroundInvariant {
    pub expected_app_substr: &'static str,
}

impl BrowserForegroundInvariant {
    pub fn name(&self) -> (r: &'static str)
        ensures
            r@ == "browser_foreground"@,
    {
        "browser_foreground"
    }

    /// Judge the frontmost app's name (or the failure to read it).
    pub fn judge(&self, frontmost: Result<String, String>) -> (r: InvariantResult)
        ensures
            frontmost matches Ok(name) ==> if has_substr(name@, self.expected_app_substr@) {
                r is Holds
            } else {
                r == InvariantResult::Violated(Problem::BrowserNotForeground { seen_title: name })
            },
            frontmost is Err ==> r is Holds,
    {
        match frontmost {
            Ok(name) => {
                if str_contains(name.as_str(), self.expected_app_substr) {
                    InvariantResult::Holds
                } else {
                    InvariantResult::Violated(Problem::BrowserNotForeground { seen_title: name })
                }
            },
            Err(_) => InvariantResult::Holds,
        }
    }
}

/// The active tab must be on the configured site.
#[derive(Clone, Copy, Debug)]
pub struct ActiveSiteInvariant {
    pub expected_url_substr: &'static str,
    pub expected_title_substr: &'static str,
}

impl ActiveSiteInvariant {
    pub fn name(&self) -> (r: &'static str)
        ensures
            r@ == "active_site"@,
    {
        "active_site"
    }

    /// Judge the active tab's URL. When the URL cannot be read, the page
    /// title is the only fallback, and neither outcome of it raises a
    /// problem: the check is then `Ok`.
    pub fn judge(&self, url: Result<String, String>) -> (r: InvariantResult)
        ensures
            url matches Ok(u) ==> if has_substr(u@, self.expected_url_substr@) {
                r is Holds
            } else {
                r == InvariantResult::Violated(Problem::WrongUrl { seen_url: u })
            },
            url is Err ==> r is Holds,
    {
        match url {
            Ok(u) => {
                if str_contains(u.as_str(), self.expected_url_substr) {
                    InvariantResult::Holds
                } else {
                    InvariantResult::Violated(Problem::WrongUrl { seen_url: u })
                }
            },
            Err(_) => InvariantResult::Holds,
        }
    }
}

/// The browser's front window must be in native fullscreen.
#[derive(Clone, Copy, Debug)]
pub struct BrowserFullscreenInvariant;

impl BrowserFullscreenInvariant {
    pub fn name(&self) -> (r: &'static str)
        ensures
            r@ == "browser_fullscreen"@,
    {
        "browser_fullscreen"
    }

    pub fn judge(&self, fullscreen: Result<bool, String>) -> (r: InvariantResult)
        ensures
            fullscreen == Ok::<bool, String>(false) ==> r == InvariantResult::Violated(Problem::BrowserNotFullscreen),
            fullscreen != Ok::<bool, String>(false) ==> r is Holds,
    {
        match fullscreen {
            Ok(true) => InvariantResult::Holds,
            Ok(false) => InvariantResult::Violated(Problem::BrowserNotFullscreen),
            Err(_) => InvariantResult::Holds,
        }
    }
}

/// The mouse must not have been moved by the user since the last look.
#[derive(Clone, Copy, Debug)]
pub struct UserActivityInvariant {
    pub last_known: Option<(i32, i32)>,
}

impl UserActivityInvariant {
    pub fn new() -> (r: Self)
        ensures
            r.last_known is None,
    {
        UserActivityInvariant { last_known: None }
    }

    pub fn name(&self) -> (r: &'static str)
        ensures
            r@ == "user_activity"@,
    {
        "user_activity"
    }

    /// Judge the cursor position. `bot_moved_here` says whether `pos` is where
    /// the automation itself last put the mouse; that movement is not the
    /// user's.
    pub fn judge(&mut self, pos: Result<(i32, i32), String>, bot_moved_here: bool) -> (r: InvariantResult)
        ensures
            pos is Err ==> r is Holds && final(self).last_known == old(self).last_known,
            pos matches Ok(p) ==> final(self).last_known == Some(p) && (if old(self).last_known
                matches Some(prev) && prev != p && !bot_moved_here {
                r == InvariantResult::Violated(Problem::UserActivity)
            } else {
                r is Holds
            }),
    {
        match pos {
            Err(_) => InvariantResult::Holds,
            Ok(p) => {
                let result = match self.last_known {
                    Some(prev) => {
                        if (prev.0 != p.0 || prev.1 != p.1) && !bot_moved_here {
                            InvariantResult::Violated(Problem::UserActivity)
                        } else {
                            InvariantResult::Holds
                        }
                    },
                    None => InvariantResult::Holds,
                };
                self.last_known = Some(p);
                result
            },
        }
    }
}

impl Default for UserActivityInvariant {
    fn default() -> (r: Self)
        ensures
            r.last_known is None,
    {
        Self::new()
    }
}

/// The checks an invariant can perform.
#[derive(Clone, Copy, Debug)]
pub enum CheckKind {
    BrowserForeground(BrowserForegroundInvariant),
    ActiveSite(ActiveSiteInvariant),
    BrowserFullscreen(BrowserFullscreenInvariant),
    UserActivity(UserActivityInvariant),
}

pub open spec fn check_name(k: CheckKind) -> Seq<char> {
    match k {
        CheckKind::BrowserForeground(_) => "browser_foreground"@,
        CheckKind::ActiveSite(_) => "active_site"@,
        CheckKind::BrowserFullscreen(_) => "browser_fullscreen"@,
        CheckKind::UserActivity(_) => "user_activity"@,
    }
}

impl CheckKind {
    pub fn name(&self) -> (r: &'static str)
        ensures
            r@ == check_name(*self),
    {
        match self {
            CheckKind::BrowserForeground(i) => i.name(),
            CheckKind::ActiveSite(i) => i.name(),
            CheckKind::BrowserFullscreen(i) => i.name(),
            CheckKind::UserActivity(i) => i.name(),
        }
    }
}

/// Whether a throttled check last run at `last` is due again at `now`.
pub open spec fn check_due(last: Option<u64>, interval: u64, now: u64) -> bool {
    !(last matches Some(l) && (if now >= l { now - l } else { 0 }) < interval)
}

/// A throttled check runs at most once per interval: after a run at `t`,
/// it is not due again before `t + interval`, and it is due from then on.
pub proof fn law_throttled_once_per_interval(t: u64, interval: u64, now: u64)
    requires
        t <= now,
    ensures
        now < t + interval ==> !check_due(Some(t), interval, now),
        now >= t + interval ==> check_due(Some(t), interval, now),
{
}

/// Run an invariant at most once per interval; between checks it is `Ok`.
#[derive(Clone, Copy, Debug)]
pub struct PeriodicInvariant {
    pub inner: CheckKind,
    pub interval_ms: u64,
    pub last_checked_ms: Option<u64>,
}

impl PeriodicInvariant {
    pub fn new(inner: CheckKind, interval_ms: u64) -> (r: Self)
        ensures
            r.inner == inner,
            r.interval_ms == interval_ms,
            r.last_checked_ms is None,
    {
        PeriodicInvariant { inner, interval_ms, last_checked_ms: None }
    }

    pub fn name(&self) -> (r: &'static str)
        ensures
            r@ == check_name(self.inner),
    {
        self.inner.name()
    }

    /// Whether the inner check is due at `now_ms`. When it is, the check
    /// time is recorded; when it is not, the invariant reports `Ok`.
    pub fn due(&mut self, now_ms: u64) -> (b: bool)
        ensures
            final(self).inner == old(self).inner,
            final(self).interval_ms == old(self).interval_ms,
            b == check_due(old(self).last_checked_ms, old(self).interval_ms, now_ms),
            b ==> final(self).last_checked_ms == Some(now_ms),
            !b ==> final(self).last_checked_ms == old(self).last_checked_ms,
    {
        match self.last_checked_ms {
            Some(last) => {
                if now_ms.saturating_sub(last) < self.interval_ms {
                    return false;
                }
            },
            None => {},
        }
        self.last_checked_ms = Some(now_ms);
        true
    }
}

/// One invariant of a watch list: throttled or checked on every poll.
#[derive(Clone, Copy, Debug)]
pub enum WatchedInvariant {
    Periodic(PeriodicInvariant),
    Always(CheckKind),
}

/// The problems among the results, in order.
pub open spec fn problems_of(results: Seq<InvariantResult>) -> Seq<Problem>
    decreases results.len(),
{
    if results.len() == 0 {
        Seq::empty()
    } else {
        let rest = problems_of(results.drop_first());
        match results[0] {
            InvariantResult::Holds => rest,
            InvariantResult::Violated(p) => seq![p] + rest,
        }
    }
}

/// Collect every violation found by a round of checks, in check order.
pub fn check_all(results: Vec<InvariantResult>) -> (problems: Vec<Problem>)
    ensures
        problems@ == problems_of(results@),
{
    let mut results = results;
    let ghost all = results@;
    let mut problems: Vec<Problem> = Vec::new();
    while results.len() > 0
        invariant
            problems@ + problems_of(results@) == problems_of(all),
        decreases results.len(),
    {
        let ghost before = results@;
        let r = results.remove(0);
        proof {
            assert(results@ == before.drop_first());
        }
        match r {
            InvariantResult::Holds => {},
            InvariantResult::Violated(p) => {
                proof {
                    assert(problems@.push(p) + problems_of(results@) == problems@ + (seq![p] + problems_of(results@)));
                }
                problems.push(p);
            },
        }
    }
    proof {
        assert(problems@ + Seq::<Problem>::empty() == problems@);
    }
    problems
}

/// The default watch list: the browser-foreground and active-site checks,
/// each at most every 10 s, and the user-activity check on every poll.
pub fn default_invariants(
    browser_title_substr: &'static str,
    site_url_substr: &'static str,
    site_title_substr: &'static str,
) -> (v: Vec<WatchedInvariant>)
    ensures
        v@ == seq![
            WatchedInvariant::Periodic(PeriodicInvariant {
                inner: CheckKind::BrowserForeground(BrowserForegroundInvariant { expected_app_substr: browser_title_substr }),
                interval_ms: 10_000,
                last_checked_ms: None,
            }),
            WatchedInvariant::Periodic(PeriodicInvariant {
                inner: CheckKind::ActiveSite(ActiveSiteInvariant {
                    expected_url_substr: site_url_substr,
                    expected_title_substr: site_title_substr,
                }),
                interval_ms: 10_000,
                last_checked_ms: None,
            }),
            WatchedInvariant::Always(CheckKind::UserActivity(UserActivityInvariant { last_known: None })),
        ],
{
    vec![
        WatchedInvariant::Periodic(PeriodicInvariant::new(
            CheckKind::BrowserForeground(BrowserForegroundInvariant { expected_app_substr: browser_title_substr }),
            10_000,
        )),
        WatchedInvariant::Periodic(PeriodicInvariant::new(
            CheckKind::ActiveSite(ActiveSiteInvariant {
                expected_url_substr: site_url_substr,
                expected_title_substr: site_title_substr,
            }),
            10_000,
        )),
        WatchedInvariant::Always(CheckKind::UserActivity(UserActivityInvariant::new())),
    ]
}

} // verus!
