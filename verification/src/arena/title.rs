//! What the Arena tab's title says: the model in Direct mode, and whether
//! a side-by-side mode is on.
use vstd::prelude::*;
use crate::parse::{trim_spec, trim_string};
use crate::text::{chars_of, has_substr, lower_text, str_contains, string_of, to_lowercase};

verus! {

/// `s` without the suffix `suf`, when it ends with it (as `strip_suffix`).
pub open spec fn strip_suffix_spec(s: Seq<char>, suf: Seq<char>) -> Option<Seq<char>> {
    if suf.len() <= s.len() && s.subrange(s.len() - suf.len(), s.len() as int) == suf {
        Some(s.take(s.len() - suf.len()))
    } else {
        None
    }
}

/// The title Arena gives a Direct-mode chat ends with this.
pub open spec fn arena_title_suffix() -> Seq<char> {
    " · Arena"@
}

fn strip_suffix(s: &str, suf: &str) -> (r: Option<String>)
    ensures
        match strip_suffix_spec(s@, suf@) {
            Some(p) => r matches Some(x) && x@ == p,
            None => r is None,
        },
{
    let v = chars_of(s);
    let w = chars_of(suf);
    if w.len() > v.len() {
        return None;
    }
    let start = v.len() - w.len();
    let mut i: usize = 0;
    while i < w.len()
        invariant
            v@ == s@,
            w@ == suf@,
            start + w.len() == v.len(),
            i <= w.len(),
            forall|k: int| 0 <= k < i ==> v@[start + k] == w@[k],
        decreases w.len() - i,
    {
        if v[start + i] != w[i] {
            assert(v@.subrange(start as int, v@.len() as int)[i as int] != w@[i as int]);
            return None;
        }
        i += 1;
    }
    assert(v@.subrange(start as int, v@.len() as int) =~= w@);
    assert(v@.subrange(0, start as int) =~= v@.take(start as int));
    Some(string_of(&v, 0, start))
}

/// The model a Direct-mode title names (`"<model> · Arena"`): none for a
/// missing suffix, an empty name, or a Battle / Side by Side title.
pub open spec fn title_model_spec(title: Seq<char>) -> Option<Seq<char>> {
    match strip_suffix_spec(trim_spec(title), arena_title_suffix()) {
        None => None,
        Some(prefix) => {
            let p = trim_spec(prefix);
            if p.len() == 0 || has_substr(p, "Battle"@) || has_substr(p, "Side by Side"@) {
                None
            } else {
                Some(p)
            }
        },
    }
}

/// The model named by the active tab's title (the result of reading it).
pub fn title_model(title: &Result<String, String>) -> (r: Option<String>)
    ensures
        match title {
            Ok(t) => match title_model_spec(t@) {
                Some(m) => r matches Some(x) && x@ == m,
                None => r is None,
            },
            Err(_) => r is None,
        },
{
    let t = match title {
        Ok(t) => trim_string(t.as_str()),
        Err(_) => return None,
    };
    proof {
        reveal_strlit(" · Arena");
    }
    let prefix = match strip_suffix(t.as_str(), " · Arena") {
        Some(p) => trim_string(p.as_str()),
        None => return None,
    };
    if prefix.as_str().unicode_len() == 0 || str_contains(prefix.as_str(), "Battle") || str_contains(
        prefix.as_str(),
        "Side by Side",
    ) {
        return None;
    }
    Some(prefix)
}

/// A title without any side-by-side mode in it (lowercased): anything but
/// Battle, Side by Side and Compare counts as Direct, the bare home title
/// included.
pub open spec fn direct_mode_title(title: Seq<char>) -> bool {
    let lower = lower_text(trim_spec(title));
    !(has_substr(lower, "battle"@) || has_substr(lower, "side by side"@) || has_substr(lower, "side-by-side"@)
        || has_substr(lower, "compare"@))
}

/// Whether the active tab's title shows Direct mode; an unreadable title
/// does not.
pub fn verify_direct_mode(title: &Result<String, String>) -> (b: bool)
    ensures
        match title {
            Ok(t) => b == direct_mode_title(t@),
            Err(_) => !b,
        },
{
    match title {
        Ok(t) => {
            let trimmed = trim_string(t.as_str());
            let lower = to_lowercase(trimmed.as_str());
            let l = lower.as_str();
            !(str_contains(l, "battle") || str_contains(l, "side by side") || str_contains(l, "side-by-side")
                || str_contains(l, "compare"))
        },
        Err(_) => false,
    }
}

/// The model a title names for `detect_model`: the text before the
/// `" · Arena"` suffix, trimmed, when not empty.
pub open spec fn title_model_name(title: Seq<char>) -> Option<Seq<char>> {
    match strip_suffix_spec(title, arena_title_suffix()) {
        Some(s) => if trim_spec(s).len() > 0 {
            Some(trim_spec(s))
        } else {
            None
        },
        None => None,
    }
}

/// The active model: the one the title names, remembered in `last_model`;
/// otherwise the last one remembered.
pub fn detect_model(title: &Result<String, String>, last_model: &mut Option<String>) -> (r: Option<String>)
    ensures
        match title {
            Ok(t) => match title_model_name(t@) {
                Some(m) => (r matches Some(x) && x@ == m) && (*final(last_model) matches Some(y) && y@ == m),
                None => r == *old(last_model) && *final(last_model) == *old(last_model),
            },
            Err(_) => r == *old(last_model) && *final(last_model) == *old(last_model),
        },
{
    proof {
        reveal_strlit(" · Arena");
    }
    if let Ok(t) = title {
        if let Some(stripped) = strip_suffix(t.as_str(), " · Arena") {
            let m = trim_string(stripped.as_str());
            if m.as_str().unicode_len() > 0 {
                *last_model = Some(m.clone());
                return Some(m);
            }
        }
    }
    last_model.clone()
}

} // verus!
