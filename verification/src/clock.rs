//! The two clocks a record draws on: the wall clock for the absolute start
//! instant, the monotonic clock for the duration.

use vstd::prelude::*;
use crate::record::TimeVal;

verus! {

#[verifier::external_type_specification]
#[verifier::external_body]
pub struct ExSystemTime(std::time::SystemTime);

#[verifier::external_type_specification]
#[verifier::external_body]
pub struct ExInstant(std::time::Instant);

/// Relies on std::time::SystemTime::now: a wall-clock reading; nothing is
/// promised of its value.
#[verifier::external_body]
pub fn wall_clock_now() -> (t: std::time::SystemTime) {
    std::time::SystemTime::now()
}

/// Relies on std::time::SystemTime::duration_since(UNIX_EPOCH): the time
/// since the epoch, or nothing when the reading lies before the epoch; a
/// returned duration carries less than a whole second of nanoseconds.
#[verifier::external_body]
pub fn since_epoch(t: &std::time::SystemTime) -> (r: Option<TimeVal>)
    ensures
        r matches Some(v) ==> v.wf(),
{
    match t.duration_since(std::time::UNIX_EPOCH) {
        Ok(d) => Some(TimeVal { secs: d.as_secs(), nanos: d.subsec_nanos() }),
        Err(_) => None,
    }
}

/// Relies on std::time::Instant::now: a monotonic reading; nothing is
/// promised of its value.
#[verifier::external_body]
pub fn monotonic_now() -> (t: std::time::Instant) {
    std::time::Instant::now()
}

/// Relies on std::time::Instant::duration_since: the time elapsed from
/// `earlier` to `later`, or zero when `earlier` is the later one; never
/// negative, with less than a whole second of nanoseconds.
#[verifier::external_body]
pub fn monotonic_elapsed(later: &std::time::Instant, earlier: &std::time::Instant) -> (t: TimeVal)
    ensures
        t.wf(),
{
    let d = later.duration_since(*earlier);
    TimeVal { secs: d.as_secs(), nanos: d.subsec_nanos() }
}

/// Runs `f` between a wall-clock reading and two monotonic marks: the
/// wall-clock start (absent when the clock read before the epoch), the
/// elapsed monotonic time of the call — unaffected by any wall-clock
/// adjustment, and never negative — and `f`'s own result, untouched.
pub fn time_it<T, F: FnOnce() -> T>(f: F) -> (r: (Option<TimeVal>, TimeVal, T))
    requires
        call_requires(f, ()),
    ensures
        call_ensures(f, (), r.2),
        r.1.wf(),
        r.0 matches Some(t) ==> t.wf(),
{
    let wall = wall_clock_now();
    let start = since_epoch(&wall);
    let before = monotonic_now();
    let result = f();
    let after = monotonic_now();
    let timing = monotonic_elapsed(&after, &before);
    (start, timing, result)
}

} // verus!
