//! The statistics record for one completed request, and the modelled
//! outcome of the wrapped handler.

use vstd::prelude::*;

verus! {

/// A point in time or a span of time, split into whole seconds and the
/// nanoseconds of the started second. Used both for the wall-clock start
/// (seconds since the epoch) and for the monotonic duration of a request.
#[derive(Clone, Copy, PartialEq, Eq, Structural, Debug)]
pub struct TimeVal {
    pub secs: u64,
    pub nanos: u32,
}

impl TimeVal {
    /// The fractional part never reaches a whole second.
    pub open spec fn wf(self) -> bool {
        self.nanos < 1_000_000_000
    }

    pub fn new(secs: u64, nanos: u32) -> (t: TimeVal)
        requires
            nanos < 1_000_000_000,
        ensures
            t.secs == secs,
            t.nanos == nanos,
            t.wf(),
    {
        TimeVal { secs, nanos }
    }
}

/// One row of statistics describing a single completed request attempt.
///
/// `status` is absent only when the handler's outcome carried none; an
/// absent status is never replaced by a made-up code.
#[derive(Debug)]
pub struct LogPacket {
    pub url: String,
    pub ip: String,
    pub status: Option<u16>,
    pub start: TimeVal,
    pub timing: TimeVal,
}

impl LogPacket {
    pub fn new(url: String, ip: String, status: Option<u16>, start: TimeVal, timing: TimeVal) -> (p:
        LogPacket)
        ensures
            p.url == url,
            p.ip == ip,
            p.status == status,
            p.start == start,
            p.timing == timing,
    {
        LogPacket { url, ip, status, start, timing }
    }
}

/// What the inner handler's call came back as: a success or a handler-level
/// failure, each carrying the status of the response it stands for.
#[derive(Clone, Copy, PartialEq, Eq, Structural, Debug)]
pub enum HandlerOutcome {
    Success { status: Option<u16> },
    Failure { status: Option<u16> },
}

/// The status carried by either branch of an outcome.
pub open spec fn outcome_status(o: HandlerOutcome) -> Option<u16> {
    match o {
        HandlerOutcome::Success { status } => status,
        HandlerOutcome::Failure { status } => status,
    }
}

/// Pulls the status out of whichever branch occurred; defined for both, so
/// extraction never fails.
pub fn extract_status(o: &HandlerOutcome) -> (s: Option<u16>)
    ensures
        s == outcome_status(*o),
{
    match *o {
        HandlerOutcome::Success { status } => status,
        HandlerOutcome::Failure { status } => status,
    }
}

} // verus!
