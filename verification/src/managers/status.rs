//! What is shown of a repository: how old its latest snapshot is, whether
//! that is healthy, and whether a check found errors.

use crate::text::{
    concat3, contains_chars, find_char, has_prefix, has_sub, lemma_find_char, lower, lower_chars,
    position_of_char, same_text, starts_with, to_chars,
};
use crate::utils::restic::{Snapshot, SnapshotView};
use crate::utils::time::{parse_rfc3339, rfc3339_seconds};
use vstd::prelude::*;

verus! {

/// How fresh the latest backup is.
#[derive(Debug, Clone, Copy, PartialEq, Eq, Structural)]
pub enum Health {
    /// Less than a day old.
    Healthy,
    /// One to two days old.
    Warning,
    /// More than two days old.
    Critical,
}

/// The full hours from `from` to `to`, both in seconds since the epoch;
/// negative where `to` is the earlier.
pub open spec fn hours_between(from: i64, to: i64) -> int {
    if to >= from {
        (to - from) / 3600
    } else {
        -((from - to) / 3600)
    }
}

/// The health of a backup of the given age in hours.
pub open spec fn health_spec(hours: int) -> Health {
    if hours < 24 {
        Health::Healthy
    } else if hours < 48 {
        Health::Warning
    } else {
        Health::Critical
    }
}

/// The age in hours and the health of a snapshot taken at `time`, seen at
/// `now`; `None` where the time cannot be read.
pub open spec fn snapshot_health_spec(time: Seq<char>, now: i64) -> Option<(int, Health)> {
    match rfc3339_seconds(time) {
        Some(taken) => Some((hours_between(taken, now), health_spec(hours_between(taken, now)))),
        None => None,
    }
}

/// The full hours from `from` to `to`.
pub fn age_hours(from: i64, to: i64) -> (r: i128)
    ensures
        r == hours_between(from, to),
{
    let from: i128 = from as i128;
    let to: i128 = to as i128;
    if to >= from {
        (to - from) / 3600
    } else {
        -((from - to) / 3600)
    }
}

/// The health of a backup of the given age in hours.
pub fn health_for_age(hours: i128) -> (r: Health)
    ensures
        r == health_spec(hours as int),
{
    if hours < 24 {
        Health::Healthy
    } else if hours < 48 {
        Health::Warning
    } else {
        Health::Critical
    }
}

/// The age in hours and the health of a snapshot taken at `taken`, seen at
/// `now`.
pub fn health_at(taken: Option<i64>, now: i64) -> (r: Option<(i128, Health)>)
    ensures
        match taken {
            Some(t) => r == Some((hours_between(t, now) as i128, health_spec(hours_between(t, now)))),
            None => r is None,
        },
{
    match taken {
        Some(t) => {
            let hours = age_hours(t, now);
            Some((hours, health_for_age(hours)))
        },
        None => None,
    }
}

/// The age in hours and the health of a snapshot, seen at `now`.
pub fn snapshot_health(snapshot: &Snapshot, now: i64) -> (r: Option<(i128, Health)>)
    ensures
        match snapshot_health_spec(snapshot@.time, now) {
            Some((hours, health)) => r == Some((hours as i128, health)),
            None => r is None,
        },
{
    health_at(parse_rfc3339(snapshot.time.as_str()), now)
}

/// The time of a snapshot for the reader: the date, a blank, and the time
/// of day without its fraction.
pub open spec fn display_time_spec(time: Seq<char>) -> Seq<char> {
    let t = find_char(time, 'T', 0);
    let date = time.subrange(0, t);
    if t >= time.len() {
        date + " "@
    } else {
        let next = find_char(time, 'T', t + 1);
        let clock = time.subrange(t + 1, next);
        let dot = find_char(clock, '.', 0);
        date + " "@ + clock.subrange(0, dot)
    }
}

/// The time of a snapshot for the reader.
pub fn display_time(time: &str) -> (r: String)
    ensures
        r@ == display_time_spec(time@),
{
    let v = to_chars(time);
    let t = position_of_char(&v, 'T', 0);
    proof {
        lemma_find_char(time@, 'T', 0);
    }
    let date = time.substring_char(0, t);
    if t >= v.len() {
        return crate::text::concat2(date, " ");
    }
    let next = position_of_char(&v, 'T', t + 1);
    proof {
        lemma_find_char(time@, 'T', t + 1);
    }
    let clock = time.substring_char(t + 1, next);
    let c = to_chars(clock);
    let dot = position_of_char(&c, '.', 0);
    proof {
        lemma_find_char(clock@, '.', 0);
    }
    concat3(date, " ", clock.substring_char(0, dot))
}

/// Whether what a check wrote speaks of errors: it holds `error` or
/// `fatal`, in letters of any case.
pub open spec fn reports_errors_spec(output: Seq<char>) -> bool {
    has_sub(lower(output), "error"@) || has_sub(lower(output), "fatal"@)
}

/// Whether what a check wrote speaks of errors.
pub fn reports_errors(output: &str) -> (r: bool)
    ensures
        r == reports_errors_spec(output@),
{
    let low = lower_chars(output);
    contains_chars(&low, &to_chars("error")) || contains_chars(&low, &to_chars("fatal"))
}

/// Whether `id` names the snapshot: it opens the snapshot's identifier, or
/// is its short identifier.
pub open spec fn names_snapshot(snapshot: SnapshotView, id: Seq<char>) -> bool {
    has_prefix(snapshot.id, id) || snapshot.short_id == id
}

/// Whether `id` names one of the snapshots.
pub fn has_snapshot(snapshots: &Vec<Snapshot>, id: &str) -> (r: bool)
    ensures
        r == exists|i: int|
            0 <= i < snapshots@.len() && names_snapshot(#[trigger] snapshots.deep_view()[i], id@),
{
    let mut i: usize = 0;
    while i < snapshots.len()
        invariant
            i <= snapshots@.len(),
            forall|j: int| 0 <= j < i ==> !names_snapshot(#[trigger] snapshots.deep_view()[j], id@),
        decreases snapshots@.len() - i,
    {
        assert(snapshots.deep_view()[i as int] == snapshots@[i as int]@);
        if starts_with(snapshots[i].id.as_str(), id) || same_text(
            snapshots[i].short_id.as_str(),
            id,
        ) {
            return true;
        }
        i = i + 1;
    }
    false
}

/// The seconds granted to a check: half an hour where it reads all data,
/// five minutes where it does not.
pub fn check_timeout_secs(read_data: bool) -> (r: u64)
    ensures
        r == if read_data {
            1800u64
        } else {
            300u64
        },
{
    if read_data {
        1800
    } else {
        300
    }
}

} // verus!
