//! The commit record produced by the history walk, and the relative-date
//! rendering used in the history table.

use vstd::prelude::*;
use crate::strutil::{dec_seq, dec_string};

verus! {

/// A single commit. The id is the full hex object id; the timestamp is the
/// author time in seconds since the epoch.
#[derive(Debug, Clone, PartialEq)]
pub struct Commit {
    pub id: String,
    pub short_id: String,
    pub author: String,
    pub author_email: String,
    pub timestamp: i64,
    pub summary: String,
    pub message: String,
    pub refs: Vec<String>,
}

/// One count-with-unit phrase, pluralised exactly as rendered: for instance
/// a count of 1 gives "1 minute ago", a count of 2 gives "2 minutes ago".
pub open spec fn unit_phrase_spec(count: int, unit: Seq<char>) -> Seq<char> {
    dec_seq(count) + " "@ + unit + (if count == 1 {
        Seq::<char>::empty()
    } else {
        "s"@
    }) + " ago"@
}

/// The relative rendering of an age of `delta` seconds.
pub open spec fn relative_date_spec(delta: int) -> Seq<char> {
    if delta < 60 {
        "just now"@
    } else if delta / 60 < 60 {
        unit_phrase_spec(delta / 60, "minute"@)
    } else if delta / 3600 < 24 {
        unit_phrase_spec(delta / 3600, "hour"@)
    } else if delta / 86400 < 7 {
        unit_phrase_spec(delta / 86400, "day"@)
    } else if delta / 604800 < 4 {
        unit_phrase_spec(delta / 604800, "week"@)
    } else if delta / 86400 < 365 {
        unit_phrase_spec(delta / 86400 / 30, "month"@)
    } else {
        unit_phrase_spec(delta / 86400 / 365, "year"@)
    }
}

/// Builds one pluralised phrase, e.g. "2 hours ago".
fn unit_phrase(count: u64, unit: &str) -> (r: String)
    ensures
        r@ == unit_phrase_spec(count as int, unit@),
{
    let mut s = dec_string(count);
    s.append(" ");
    s.append(unit);
    if count != 1 {
        s.append("s");
    }
    s.append(" ago");
    s
}

impl Commit {
    /// Renders the age of the commit relative to `now_ts` (seconds since the
    /// epoch), e.g. "just now", "5 minutes ago", "2 years ago".
    pub fn relative_date(&self, now_ts: i64) -> (r: String)
        ensures
            r@ == relative_date_spec(now_ts - self.timestamp),
    {
        let delta: i128 = now_ts as i128 - self.timestamp as i128;
        if delta < 60 {
            return String::from_str("just now");
        }
        let minutes = delta / 60;
        if minutes < 60 {
            return unit_phrase(minutes as u64, "minute");
        }
        let hours = delta / 3600;
        if hours < 24 {
            return unit_phrase(hours as u64, "hour");
        }
        let days = delta / 86400;
        if days < 7 {
            return unit_phrase(days as u64, "day");
        }
        let weeks = delta / 604800;
        if weeks < 4 {
            return unit_phrase(weeks as u64, "week");
        }
        if days < 365 {
            return unit_phrase((days / 30) as u64, "month");
        }
        unit_phrase((days / 365) as u64, "year")
    }
}

} // verus!
