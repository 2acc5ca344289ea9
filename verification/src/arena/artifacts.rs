//! Downloaded artifacts: which downloads are unfinished, which finished one
//! is newest, and the numbered name used when a file's name is taken.
use vstd::prelude::*;
use crate::adapter::AdapterError;
use crate::text::{chars_eq, chars_of, decimal, push_decimal};

verus! {

/// A download still in progress: Chrome's `.crdownload`, Safari's
/// `.download`, or a `.tmp` file.
pub open spec fn partial_extension(ext: Option<Seq<char>>) -> bool {
    match ext {
        Some(e) => e == "crdownload"@ || e == "download"@ || e == "tmp"@,
        None => false,
    }
}

fn str_eq(a: &str, b: &str) -> (r: bool)
    ensures
        r == (a@ == b@),
{
    let x = chars_of(a);
    let y = chars_of(b);
    chars_eq(&x, &y)
}

pub fn is_partial_download(ext: Option<&str>) -> (b: bool)
    ensures
        b == partial_extension(match ext {
            Some(e) => Some(e@),
            None => None,
        }),
{
    match ext {
        Some(e) => str_eq(e, "crdownload") || str_eq(e, "download") || str_eq(e, "tmp"),
        None => false,
    }
}

/// The `n`-th other name for a file whose name is taken in the artifact
/// folder: its stem ("artifact" when it has none), an underscore, `n`,
/// and its extension when it has a non-empty one.
pub open spec fn numbered_name_spec(stem: Option<Seq<char>>, ext: Option<Seq<char>>, n: nat) -> Seq<char> {
    let s = match stem {
        Some(t) => t,
        None => "artifact"@,
    };
    let e = match ext {
        Some(x) => x,
        None => Seq::empty(),
    };
    if e.len() == 0 {
        s + "_"@ + decimal(n)
    } else {
        s + "_"@ + decimal(n) + "."@ + e
    }
}

pub fn numbered_name(stem: Option<&str>, ext: Option<&str>, n: u32) -> (r: String)
    ensures
        r@ == numbered_name_spec(
            match stem {
                Some(t) => Some(t@),
                None => None,
            },
            match ext {
                Some(x) => Some(x@),
                None => None,
            },
            n as nat,
        ),
{
    let mut s = match stem {
        Some(t) => String::from_str(t),
        None => String::from_str("artifact"),
    };
    s.append("_");
    push_decimal(&mut s, n as u64);
    match ext {
        Some(x) => {
            let v = chars_of(x);
            if v.len() > 0 {
                s.append(".");
                s.append(x);
            }
        },
        None => {},
    }
    s
}

/// A directory entry as the download watcher sees it: when it was last
/// modified (nanoseconds since the epoch), whether it is a regular file,
/// and whether its extension marks an unfinished download.
#[derive(Clone, Copy, Debug, PartialEq, Eq, Structural)]
pub struct DownloadEntry {
    pub modified_ns: u128,
    pub is_file: bool,
    pub partial: bool,
}

/// Among the first `k` entries, the first most recently modified finished
/// file.
pub open spec fn newest_upto(s: Seq<DownloadEntry>, k: int) -> Option<int>
    decreases k,
{
    if k <= 0 {
        None
    } else {
        let prev = newest_upto(s, k - 1);
        let e = s[k - 1];
        if !e.is_file || e.partial {
            prev
        } else {
            match prev {
                Some(b) => if s[b].modified_ns >= e.modified_ns { Some(b) } else { Some(k - 1) },
                None => Some(k - 1),
            }
        }
    }
}

/// The newest finished download among the directory's entries, by index.
pub fn newest_download(entries: &Vec<DownloadEntry>) -> (r: Option<usize>)
    ensures
        r == (match newest_upto(entries@, entries@.len() as int) {
            Some(i) => Some(i as usize),
            None => None,
        }),
{
    let mut best: Option<usize> = None;
    let mut i: usize = 0;
    while i < entries.len()
        invariant
            i <= entries.len(),
            match newest_upto(entries@, i as int) {
                Some(b) => best == Some(b as usize) && 0 <= b < i,
                None => best is None,
            },
        decreases entries.len() - i,
    {
        let e = entries[i];
        if e.is_file && !e.partial {
            match best {
                Some(b) => {
                    if entries[b].modified_ns < e.modified_ns {
                        best = Some(i);
                    }
                },
                None => {
                    best = Some(i);
                },
            }
        }
        i += 1;
    }
    best
}

// ── Waiting for a download to land ──────────────────────────────────────────

/// The newest file in the downloads folder is the one the click produced:
/// it differs from the newest one before the click (or there was none) and
/// is not still downloading.
pub open spec fn download_landed_spec(before: Option<Seq<char>>, newest: Seq<char>, ext: Option<Seq<char>>) -> bool {
    (match before {
        Some(b) => b != newest,
        None => true,
    }) && !partial_extension(ext)
}

pub fn download_landed(before: Option<&str>, newest: &str, ext: Option<&str>) -> (b: bool)
    ensures
        b == download_landed_spec(
            match before {
                Some(x) => Some(x@),
                None => None,
            },
            newest@,
            match ext {
                Some(e) => Some(e@),
                None => None,
            },
        ),
{
    let fresh = match before {
        Some(x) => !str_eq(x, newest),
        None => true,
    };
    fresh && !is_partial_download(ext)
}

/// What to do after a poll of the downloads folder.
pub enum DownloadPoll {
    /// Move the landed file into the artifact folder.
    Move,
    /// Wait a second and look again.
    Wait,
    /// Give up: nothing landed within the 30 polls.
    GiveUp(AdapterError),
}

/// After poll number `polls_done` (from 1) saw a landed file or not: move
/// it, wait for the next poll, or give up after the 30th poll, about 30
/// seconds.
pub fn download_poll(polls_done: u32, landed: bool) -> (r: DownloadPoll)
    ensures
        landed ==> r is Move,
        !landed && polls_done < 30 ==> r is Wait,
        !landed && polls_done >= 30 ==> (r matches DownloadPoll::GiveUp(AdapterError::Timeout { what, after_ms })
            && what@ == "download file in ~/Downloads"@ && after_ms == 30_000),
{
    if landed {
        DownloadPoll::Move
    } else if polls_done < 30 {
        DownloadPoll::Wait
    } else {
        let mut what = String::new();
        what.append("download file in ~/Downloads");
        DownloadPoll::GiveUp(AdapterError::Timeout { what, after_ms: 30_000 })
    }
}

} // verus!
