use vstd::prelude::*;

verus! {

/// A validity window in epoch seconds. No start means "valid since the
/// epoch"; no end means "never expires".
#[derive(Clone, Copy, Debug, PartialEq, Eq)]
pub struct TimeRange {
    pub start: Option<i64>,
    pub end: Option<i64>,
}

/// The validity policy, in order of precedence:
/// 1. no range at all: valid;
/// 2. `now` before the start: invalid, whatever `allow_expired` says;
/// 3. `allow_expired`: valid (the end is ignored);
/// 4. no end: valid;
/// 5. otherwise valid exactly when `now` is at or before the end.
pub open spec fn time_range_valid(range: Option<TimeRange>, allow_expired: bool, now: int) -> bool {
    match range {
        Option::None => true,
        Option::Some(r) => {
            if (match r.start {
                Option::Some(s) => now < s as int,
                Option::None => false,
            }) {
                false
            } else if allow_expired {
                true
            } else {
                match r.end {
                    Option::None => true,
                    Option::Some(e) => now <= e as int,
                }
            }
        },
    }
}

/// The value behind an optional borrowed range, for use in contracts.
pub open spec fn deref_range(range: Option<&TimeRange>) -> Option<TimeRange> {
    match range {
        Option::Some(r) => Option::Some(*r),
        Option::None => Option::None,
    }
}

/// Checks that `now` is not before the range's start and, unless
/// `allow_expired` is set, not after its end.
pub fn is_timerange_valid(range: Option<&TimeRange>, allow_expired: bool, now: i64) -> (r: bool)
    ensures
        r == time_range_valid(deref_range(range), allow_expired, now as int),
{
    match range {
        Option::None => true,
        Option::Some(r) => {
            let not_yet_active = match r.start {
                Option::Some(s) => now < s,
                Option::None => false,
            };
            if not_yet_active {
                false
            } else if allow_expired {
                true
            } else {
                match r.end {
                    Option::None => true,
                    Option::Some(e) => now <= e,
                }
            }
        },
    }
}

/// A window with neither start nor end (or no window at all) is valid at
/// every instant, in both modes.
pub proof fn lemma_unbounded_always_valid(range: Option<TimeRange>, allow_expired: bool, now: int)
    requires
        range matches Option::Some(r) ==> r.start is None && r.end is None,
    ensures
        time_range_valid(range, allow_expired, now),
{
}

/// Material that is not yet active is never accepted, in either mode.
pub proof fn lemma_not_yet_active_never_valid(r: TimeRange, allow_expired: bool, now: int)
    requires
        r.start matches Option::Some(s) && now < s as int,
    ensures
        !time_range_valid(Option::Some(r), allow_expired, now),
{
}

/// An instant inside a bounded window is accepted even in strict mode.
pub proof fn lemma_valid_within_window(s: i64, e: i64, now: i64)
    requires
        s <= now <= e,
    ensures
        time_range_valid(
            Option::Some(TimeRange { start: Option::Some(s), end: Option::Some(e) }),
            false,
            now as int,
        ),
{
}

/// A window that has ended is accepted exactly when expiry is allowed,
/// provided the window had already begun (a start in the future is refused
/// in both modes).
pub proof fn lemma_expired_window(r: TimeRange, now: int)
    requires
        r.end matches Option::Some(e) && (e as int) < now,
        r.start matches Option::Some(s) ==> s as int <= now,
    ensures
        time_range_valid(Option::Some(r), true, now),
        !time_range_valid(Option::Some(r), false, now),
{
}

} // verus!
