//! The asynchronous delivery pipeline: producer handles that submit
//! records over an unbounded FIFO queue, and the single consumer that
//! forwards them to a sink, one at a time, in the order received.

use vstd::prelude::*;
use crate::clock::time_it;
use crate::codec::row_of;
use crate::record::{outcome_status, extract_status, HandlerOutcome, LogPacket};
use crate::sink::LogWriter;

verus! {

#[verifier::external_type_specification]
#[verifier::external_body]
#[verifier::reject_recursive_types(T)]
pub struct ExSender<T>(std::sync::mpsc::Sender<T>);

#[verifier::external_type_specification]
#[verifier::external_body]
#[verifier::reject_recursive_types(T)]
pub struct ExReceiver<T>(std::sync::mpsc::Receiver<T>);

/// Relies on std::sync::mpsc::channel: a fresh unbounded FIFO queue,
/// returned as its submission and its consumption side.
#[verifier::external_body]
fn channel_pair() -> (r: (std::sync::mpsc::Sender<LogPacket>, std::sync::mpsc::Receiver<
    LogPacket,
>)) {
    std::sync::mpsc::channel()
}

/// Relies on std::sync::mpsc::Sender::send: enqueues without blocking on
/// the consumer; fails only when the consumer is gone, and then hands the
/// unsent record back.
#[verifier::external_body]
fn send_packet(tx: &std::sync::mpsc::Sender<LogPacket>, packet: LogPacket) -> (r: Result<
    (),
    LogPacket,
>)
    ensures
        r matches Err(p) ==> p == packet,
{
    tx.send(packet).map_err(|e| e.0)
}

/// Relies on std::sync::mpsc::Sender::clone: another submission handle of
/// the same queue.
#[verifier::external_body]
fn clone_sender(tx: &std::sync::mpsc::Sender<LogPacket>) -> (r: std::sync::mpsc::Sender<
    LogPacket,
>) {
    tx.clone()
}

/// Relies on std::sync::mpsc::Receiver::recv: the next record in the order
/// the queue observed the submissions, blocking while the queue is empty;
/// nothing, once every submission handle is gone and the queue is drained.
#[verifier::external_body]
fn recv_packet(rx: &std::sync::mpsc::Receiver<LogPacket>) -> (r: Option<LogPacket>) {
    rx.recv().ok()
}

/// Why a record could not be recorded.
#[derive(Debug)]
pub enum LogError {
    /// The wall clock read before the epoch, so no valid start time exists;
    /// the record was abandoned rather than written corrupt.
    StartTimeUnavailable,
    /// The consumer is gone; the unsent record is handed back.
    Disconnected(LogPacket),
}

/// A submission handle of the logging pipeline. Cloneable and cheap: many
/// request threads may hold one each; `submitted()` is the sequence of
/// records this handle has enqueued, oldest first.
pub struct StatisticLogger {
    tx: std::sync::mpsc::Sender<LogPacket>,
    history: Ghost<Seq<LogPacket>>,
}

impl StatisticLogger {
    /// The records submitted through this handle, in submission order.
    pub closed spec fn submitted(&self) -> Seq<LogPacket> {
        self.history@
    }

    /// Opens a fresh pipeline: a handle to submit on, and the consumption
    /// side for exactly one worker, which takes records off it in queue
    /// order and forwards each through `worker_step`.
    pub fn new() -> (r: (StatisticLogger, std::sync::mpsc::Receiver<LogPacket>))
        ensures
            r.0.submitted() == Seq::<LogPacket>::empty(),
    {
        let (tx, rx) = channel_pair();
        (StatisticLogger { tx, history: Ghost(Seq::empty()) }, rx)
    }

    /// Another handle of the same pipeline, with its own (empty) submission
    /// history.
    pub fn clone_handle(&self) -> (r: StatisticLogger)
        ensures
            r.submitted() == Seq::<LogPacket>::empty(),
    {
        StatisticLogger { tx: clone_sender(&self.tx), history: Ghost(Seq::empty()) }
    }

    /// Enqueues one record; returns at once, never waiting on sink I/O.
    /// Fails only when the consumer is gone, and then hands the record
    /// back unchanged.
    pub fn submit(&mut self, packet: LogPacket) -> (r: Result<(), LogError>)
        ensures
            r is Ok ==> final(self).submitted() == old(self).submitted().push(packet),
            r is Err ==> final(self).submitted() == old(self).submitted() && r->Err_0
                == LogError::Disconnected(packet),
    {
        let ghost p = packet;
        match send_packet(&self.tx, packet) {
            Ok(()) => {
                self.history = Ghost(self.history@.push(p));
                Ok(())
            },
            Err(returned) => Err(LogError::Disconnected(returned)),
        }
    }
}

/// The rows of a sequence of records, in the same order.
pub open spec fn rows_of(packets: Seq<LogPacket>) -> Seq<Seq<u8>> {
    packets.map_values(|p: LogPacket| row_of(p))
}

/// One step of the consumer: takes the record the queue handed out next
/// and forwards it to the sink. A sink failure is returned, never
/// swallowed; the worker that drives these steps stops on it — fail fast
/// rather than drop or corrupt records silently. The unbounded loop around
/// this step blocks on the queue, so it lives with the thread that runs it,
/// outside this crate's verified core.
pub fn worker_step<W: LogWriter>(sink: &mut W, packet: LogPacket) -> (r: Result<(), W::Error>)
    ensures
        r is Ok ==> final(sink).rows() == old(sink).rows().push(row_of(packet)),
        r is Err ==> final(sink).rows() == old(sink).rows(),
{
    sink.log(&packet)
}

/// Takes up to `max` records off the queue, in queue order, stopping early
/// once every submission handle is gone and the queue is drained. While a
/// handle is still live and the queue is empty, this waits for the next
/// record, as the consumer does.
pub fn take_queued(rx: &std::sync::mpsc::Receiver<LogPacket>, max: usize) -> (r: Vec<LogPacket>)
    ensures
        r@.len() <= max,
{
    let mut taken: Vec<LogPacket> = Vec::new();
    let mut i: usize = 0;
    while i < max
        invariant
            taken@.len() <= i <= max,
        decreases max - i,
    {
        match recv_packet(rx) {
            None => {
                return taken;
            },
            Some(packet) => {
                taken.push(packet);
                i = i + 1;
            },
        }
    }
    taken
}

/// Forwards a batch of records to the sink in order. On success the sink
/// accepted exactly one row per record — no loss, no duplication, no
/// reordering. On a sink failure the worker policy applies: the records up
/// to the failing one are written, the rest are not, and the error is
/// returned.
pub fn drain<W: LogWriter>(sink: &mut W, packets: &Vec<LogPacket>) -> (r: Result<(), W::Error>)
    ensures
        r is Ok ==> final(sink).rows() == old(sink).rows() + rows_of(packets@),
        r is Err ==> exists|k: int|
            0 <= k < packets@.len() && final(sink).rows() == old(sink).rows() + rows_of(
                packets@.take(k),
            ),
{
    let ghost rows0 = sink.rows();
    let mut i: usize = 0;
    proof {
        assert(sink.rows() =~= rows0 + rows_of(packets@.take(0)));
    }
    while i < packets.len()
        invariant
            i <= packets@.len(),
            sink.rows() == rows0 + rows_of(packets@.take(i as int)),
            rows0 == old(sink).rows(),
        decreases packets@.len() - i,
    {
        match sink.log(&packets[i]) {
            Ok(()) => {
                proof {
                    assert(packets@.take(i + 1) =~= packets@.take(i as int).push(packets@[i as int]));
                    assert(rows_of(packets@.take(i + 1)) =~= rows_of(packets@.take(i as int)).push(
                        row_of(packets@[i as int]),
                    ));
                }
                i = i + 1;
            },
            Err(e) => {
                return Err(e);
            },
        }
    }
    proof {
        assert(packets@.take(packets@.len() as int) =~= packets@);
    }
    Ok(())
}

/// Exact delivery: when a sink went from `before` to `before` plus the
/// rows of `packets` — what `drain` establishes for a batch, and `submit`
/// plus the queue's FIFO order hand the worker — the sink accepted exactly
/// one row per record, each the unaltered encoding of its record, in
/// submission order, with everything older untouched: no loss, no
/// duplication, no reordering.
pub proof fn lemma_delivery_exact(before: Seq<Seq<u8>>, after: Seq<Seq<u8>>, packets: Seq<LogPacket>)
    requires
        after == before + rows_of(packets),
    ensures
        after.len() == before.len() + packets.len(),
        forall|i: int| 0 <= i < packets.len() ==> after[before.len() + i] == row_of(packets[i]),
        forall|i: int| 0 <= i < before.len() ==> after[i] == before[i],
{
}

/// True of a record built for a request with the given url, client address
/// and extracted status, with well-formed time fields.
pub open spec fn records_request(
    p: LogPacket,
    url: Seq<char>,
    ip: Seq<char>,
    status: Option<u16>,
) -> bool {
    &&& p.url@ == url
    &&& p.ip@ == ip
    &&& p.status == status
    &&& p.start.wf()
    &&& p.timing.wf()
}

impl StatisticLogger {
    /// The per-request protocol of the timing middleware: read the wall
    /// clock and a monotonic mark, run the inner handler, measure the
    /// elapsed monotonic time, extract the status from whichever branch
    /// the outcome took, build the record and submit it. The inner
    /// handler's own result is returned unchanged, whatever came of the
    /// logging; a submission failure is reported beside it, never in it.
    pub fn handle_timed<T, F: FnOnce() -> (T, HandlerOutcome)>(
        &mut self,
        url: String,
        ip: String,
        inner: F,
    ) -> (r: (T, Result<(), LogError>))
        requires
            call_requires(inner, ()),
        ensures
            exists|o: HandlerOutcome|
                {
                    &&& #[trigger] call_ensures(inner, (), (r.0, o))
                    &&& match r.1 {
                        Ok(()) => exists|p: LogPacket|
                            final(self).submitted() == old(self).submitted().push(p)
                                && records_request(p, url@, ip@, outcome_status(o)),
                        Err(LogError::StartTimeUnavailable) => final(self).submitted() == old(
                            self,
                        ).submitted(),
                        Err(LogError::Disconnected(p)) => final(self).submitted() == old(
                            self,
                        ).submitted() && records_request(p, url@, ip@, outcome_status(o)),
                    }
                },
    {
        let (start_opt, timing, inner_result) = time_it(inner);
        let (out, outcome) = inner_result;
        let status = extract_status(&outcome);
        match start_opt {
            None => {
                let r = (out, Err::<(), LogError>(LogError::StartTimeUnavailable));
                proof {
                    assert(call_ensures(inner, (), (r.0, outcome)));
                }
                r
            },
            Some(start) => {
                let packet = LogPacket { url, ip, status, start, timing };
                let ghost pk = packet;
                match self.submit(packet) {
                    Ok(()) => {
                        let r = (out, Ok::<(), LogError>(()));
                        proof {
                            assert(call_ensures(inner, (), (r.0, outcome)));
                            assert(self.submitted() == old(self).submitted().push(pk));
                            assert(records_request(pk, url@, ip@, outcome_status(outcome)));
                        }
                        r
                    },
                    Err(e) => {
                        let r = (out, Err::<(), LogError>(e));
                        proof {
                            assert(call_ensures(inner, (), (r.0, outcome)));
                        }
                        r
                    },
                }
            },
        }
    }
}

} // verus!
