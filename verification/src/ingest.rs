//! The ingest side of the pipeline: device reads into the history.
//!
//! The loop's I/O happens outside the library; each completed read is
//! classified into a [`ReadEvent`] and handed to [`IngestLoop::step`],
//! which owns every decision: a non-empty chunk is stored and the renderer
//! told to redraw, an empty or timed-out read is silently retried, and a
//! device loss stops the loop and raises exactly one shutdown notice,
//! after which nothing is mutated again.

use vstd::prelude::*;

use crate::history::{push_model, HistoryBuffer};

verus! {

/// One completed read from the serial link, as the loop classifies it.
#[derive(Debug)]
pub enum ReadEvent {
    /// The read completed with these bytes (possibly none).
    Data(Vec<u8>),
    /// The read timed out with no data: recoverable, retried silently.
    Timeout,
    /// The device is gone: fatal for the session, not a crash.
    Disconnected,
}

/// What the caller must do after one step.
#[derive(Clone, Copy, Debug, PartialEq, Eq, Structural)]
pub enum IngestAction {
    /// A chunk was stored; notify the renderer to redraw.
    StoredChunk,
    /// Nothing happened; read again.
    Retry,
    /// The device is gone; notify the renderer to shut down.  Raised at
    /// most once per loop.
    DeviceLost,
    /// The loop had already stopped; do nothing.
    Stopped,
}

/// One decision step: from liveness, buffer contents and event to the new
/// liveness, the new contents and the demanded action.
pub open spec fn step_model(alive: bool, buf: Seq<Seq<u8>>, cap: nat, event: ReadEvent) -> (
    bool,
    Seq<Seq<u8>>,
    IngestAction,
) {
    if !alive {
        (false, buf, IngestAction::Stopped)
    } else {
        match event {
            ReadEvent::Data(chunk) => if chunk@.len() > 0 {
                (true, push_model(buf, cap, chunk@), IngestAction::StoredChunk)
            } else {
                (true, buf, IngestAction::Retry)
            },
            ReadEvent::Timeout => (true, buf, IngestAction::Retry),
            ReadEvent::Disconnected => (false, buf, IngestAction::DeviceLost),
        }
    }
}

/// A whole run of steps, oldest event first.
pub open spec fn run_model(alive: bool, buf: Seq<Seq<u8>>, cap: nat, events: Seq<ReadEvent>) -> (
    bool,
    Seq<Seq<u8>>,
    Seq<IngestAction>,
)
    decreases events.len(),
{
    if events.len() == 0 {
        (alive, buf, Seq::<IngestAction>::empty())
    } else {
        let (alive1, buf1, act) = step_model(alive, buf, cap, events[0]);
        let (alive2, buf2, acts) = run_model(alive1, buf1, cap, events.skip(1));
        (alive2, buf2, seq![act] + acts)
    }
}

/// How many shutdown notices a run of actions raises.
pub open spec fn shutdown_count(acts: Seq<IngestAction>) -> nat
    decreases acts.len(),
{
    if acts.len() == 0 {
        0
    } else {
        (if acts[0] is DeviceLost {
            1nat
        } else {
            0nat
        }) + shutdown_count(acts.skip(1))
    }
}

/// True when some event in the sequence reports the device gone.
pub open spec fn contains_disconnect(events: Seq<ReadEvent>) -> bool {
    exists|i: int| 0 <= i < events.len() && events[i] is Disconnected
}

/// The ingest side's decision state: whether the loop is still running.
pub struct IngestLoop {
    alive: bool,
}

impl IngestLoop {
    /// True until the device is reported gone.
    pub closed spec fn is_alive(&self) -> bool {
        self.alive
    }

    /// A freshly started loop.
    pub fn new() -> (loop_state: IngestLoop)
        ensures
            loop_state.is_alive(),
    {
        IngestLoop { alive: true }
    }

    /// Processes one classified read, following `step_model` exactly.
    pub fn step(&mut self, buffer: &mut HistoryBuffer, event: ReadEvent) -> (act: IngestAction)
        requires
            old(buffer).wf(),
        ensures
            final(buffer).wf(),
            final(buffer).cap() == old(buffer).cap(),
            (final(self).is_alive(), final(buffer)@, act) == step_model(
                old(self).is_alive(),
                old(buffer)@,
                old(buffer).cap(),
                event,
            ),
    {
        if !self.alive {
            return IngestAction::Stopped;
        }
        match event {
            ReadEvent::Data(chunk) => {
                if chunk.len() > 0 {
                    buffer.push(chunk);
                    IngestAction::StoredChunk
                } else {
                    IngestAction::Retry
                }
            },
            ReadEvent::Timeout => IngestAction::Retry,
            ReadEvent::Disconnected => {
                self.alive = false;
                IngestAction::DeviceLost
            },
        }
    }
}

/// A stopped loop is inert: however many further events arrive, the buffer
/// is never mutated again and no further notice of any kind is raised.
pub proof fn lemma_stopped_loop_inert(buf: Seq<Seq<u8>>, cap: nat, events: Seq<ReadEvent>)
    ensures
        ({
            let (alive2, buf2, acts) = run_model(false, buf, cap, events);
            &&& !alive2
            &&& buf2 == buf
            &&& shutdown_count(acts) == 0
        }),
    decreases events.len(),
{
    if events.len() > 0 {
        lemma_stopped_loop_inert(buf, cap, events.skip(1));
        let (alive2, buf2, acts) = run_model(false, buf, cap, events);
        assert(acts =~= seq![IngestAction::Stopped] + run_model(false, buf, cap, events.skip(1)).2);
        assert(acts.skip(1) =~= run_model(false, buf, cap, events.skip(1)).2);
    }
}

/// A live loop raises exactly one shutdown notice when some event reports
/// the device gone, and none otherwise.
pub proof fn lemma_one_shutdown_notice(buf: Seq<Seq<u8>>, cap: nat, events: Seq<ReadEvent>)
    ensures
        shutdown_count(run_model(true, buf, cap, events).2) == (if contains_disconnect(events) {
            1nat
        } else {
            0nat
        }),
    decreases events.len(),
{
    if events.len() == 0 {
    } else {
        let (alive1, buf1, act) = step_model(true, buf, cap, events[0]);
        let rest = events.skip(1);
        let (alive2, buf2, acts) = run_model(alive1, buf1, cap, rest);
        assert(run_model(true, buf, cap, events).2 =~= seq![act] + acts);
        assert((seq![act] + acts).skip(1) =~= acts);
        if events[0] is Disconnected {
            lemma_stopped_loop_inert(buf1, cap, rest);
            assert(contains_disconnect(events));
        } else {
            lemma_one_shutdown_notice(buf1, cap, rest);
            assert(contains_disconnect(rest) ==> contains_disconnect(events)) by {
                if contains_disconnect(rest) {
                    let i = choose|i: int| 0 <= i < rest.len() && rest[i] is Disconnected;
                    assert(events[i + 1] is Disconnected);
                }
            }
            assert(contains_disconnect(events) ==> contains_disconnect(rest)) by {
                if contains_disconnect(events) {
                    let i = choose|i: int|
                        0 <= i < events.len() && events[i] is Disconnected;
                    assert(i != 0);
                    assert(rest[i - 1] is Disconnected);
                }
            }
        }
    }
}

/// Once a run has seen the device disconnect, any further events leave the
/// history exactly as it was and raise no further notice.
pub proof fn lemma_disconnect_is_final(
    buf: Seq<Seq<u8>>,
    cap: nat,
    before: Seq<ReadEvent>,
    after: Seq<ReadEvent>,
)
    requires
        !run_model(true, buf, cap, before).0,
    ensures
        ({
            let (_, stopped_buf, acts_before) = run_model(true, buf, cap, before);
            let (_, final_buf, acts_all) = run_model(true, buf, cap, before + after);
            &&& final_buf == stopped_buf
            &&& shutdown_count(acts_all) == shutdown_count(acts_before)
        }),
{
    lemma_run_append(true, buf, cap, before, after);
    let (alive1, buf1, acts1) = run_model(true, buf, cap, before);
    lemma_stopped_loop_inert(buf1, cap, after);
    let (_, _, acts2) = run_model(alive1, buf1, cap, after);
    lemma_shutdown_count_add(acts1, acts2);
}

/// Running a concatenated event sequence is running the two halves in turn.
pub proof fn lemma_run_append(
    alive: bool,
    buf: Seq<Seq<u8>>,
    cap: nat,
    first: Seq<ReadEvent>,
    second: Seq<ReadEvent>,
)
    ensures
        ({
            let (alive1, buf1, acts1) = run_model(alive, buf, cap, first);
            let (alive2, buf2, acts2) = run_model(alive1, buf1, cap, second);
            run_model(alive, buf, cap, first + second) == (alive2, buf2, acts1 + acts2)
        }),
    decreases first.len(),
{
    let whole = first + second;
    if first.len() == 0 {
        assert(whole =~= second);
        let (alive1, buf1, acts1) = run_model(alive, buf, cap, first);
        let (alive2, buf2, acts2) = run_model(alive1, buf1, cap, second);
        assert(acts1 + acts2 =~= acts2);
    } else {
        let (alive0, buf0, act) = step_model(alive, buf, cap, first[0]);
        lemma_run_append(alive0, buf0, cap, first.skip(1), second);
        assert(whole[0] == first[0]);
        assert(whole.skip(1) =~= first.skip(1) + second);
        let (alive1, buf1, acts1) = run_model(alive, buf, cap, first);
        let (alive2, buf2, acts2) = run_model(alive1, buf1, cap, second);
        assert(run_model(alive, buf, cap, whole).2 =~= acts1 + acts2);
    }
}

/// Shutdown notices add up over concatenated action sequences.
pub proof fn lemma_shutdown_count_add(first: Seq<IngestAction>, second: Seq<IngestAction>)
    ensures
        shutdown_count(first + second) == shutdown_count(first) + shutdown_count(second),
    decreases first.len(),
{
    if first.len() == 0 {
        assert(first + second =~= second);
    } else {
        lemma_shutdown_count_add(first.skip(1), second);
        assert((first + second)[0] == first[0]);
        assert((first + second).skip(1) =~= first.skip(1) + second);
    }
}

} // verus!
