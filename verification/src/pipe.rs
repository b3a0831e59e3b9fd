use crate::copier::{copy_step, failure_of, initial_copier, pending_action};
use crate::copier::{ChunkedCopier, CopyAction, CopyEvent, CopyPhase, Endpoint};
use vstd::prelude::*;

verus! {

/// The bytes around a running copier: a model of its source, its chunk
/// buffer and its sink, against which the copier's decisions are proved.
pub struct Pipe {
    /// Every byte that the source yields before it ends.
    pub source: Seq<u8>,
    /// How many of them have been read so far.
    pub taken: nat,
    /// The bytes that the last read put into the chunk buffer.
    pub chunk: Seq<u8>,
    /// The bytes that the sink has accepted, in order.
    pub sink: Seq<u8>,
    /// How many of the accepted bytes a flush has pushed through.
    pub flushed: nat,
}

/// The pipe before the first read: nothing taken, nothing delivered.
pub open spec fn fresh_pipe(source: Seq<u8>) -> Pipe {
    Pipe { source, taken: 0, chunk: Seq::empty(), sink: Seq::empty(), flushed: 0 }
}

/// Whether `event` is what a sound source and sink can report when the
/// pending action of `c` is carried out on `p`: a read yields at most one
/// chunk of what is left and yields nothing only at the end, a write takes at
/// least one and at most all of the bytes offered, a flush succeeds.
pub open spec fn honest(c: ChunkedCopier, p: Pipe, event: CopyEvent) -> bool {
    match c.phase {
        CopyPhase::Reading => match event {
            CopyEvent::Read { count } => {
                &&& count <= c.chunk_size
                &&& p.taken + count <= p.source.len()
                &&& count == 0 ==> p.taken == p.source.len()
            },
            _ => false,
        },
        CopyPhase::Writing { from, to } => match event {
            CopyEvent::Wrote { count } => 1 <= count <= to - from,
            _ => false,
        },
        CopyPhase::Flushing => event == CopyEvent::Flushed,
        CopyPhase::Done => false,
        CopyPhase::Failed { error } => false,
    }
}

/// The pipe after the pending action of `c` was carried out on `p` and
/// reported as `event`.
pub open spec fn pipe_after(c: ChunkedCopier, p: Pipe, event: CopyEvent) -> Pipe {
    match (c.phase, event) {
        (CopyPhase::Reading, CopyEvent::Read { count }) => Pipe {
            taken: (p.taken + count) as nat,
            chunk: p.source.subrange(p.taken as int, p.taken + count),
            ..p
        },
        (CopyPhase::Writing { from, to }, CopyEvent::Wrote { count }) => Pipe {
            sink: p.sink + p.chunk.subrange(from as int, from + count),
            ..p
        },
        (CopyPhase::Flushing, CopyEvent::Flushed) => Pipe { flushed: p.sink.len(), ..p },
        _ => p,
    }
}

/// What holds of a copier and its pipe at every point of a sound run: the
/// counter equals what was read, the sink holds a prefix of the source, what
/// is still to be written is the rest of the current chunk, no more than one
/// chunk is ever unflushed, and nothing is unflushed when a read is asked for.
pub open spec fn consistent(c: ChunkedCopier, p: Pipe) -> bool {
    &&& c.wf()
    &&& p.source.len() <= u64::MAX
    &&& p.taken <= p.source.len()
    &&& c.total_bytes == p.taken
    &&& p.flushed <= p.sink.len() <= p.flushed + c.chunk_size
    &&& match c.phase {
        CopyPhase::Reading => p.sink == p.source.take(p.taken as int) && p.flushed == p.taken,
        CopyPhase::Writing { from, to } => {
            &&& to <= p.taken
            &&& p.chunk == p.source.subrange(p.taken - to, p.taken as int)
            &&& p.sink == p.source.take(p.taken - to + from)
            &&& p.flushed == p.taken - to
        },
        CopyPhase::Flushing => p.sink == p.source.take(p.taken as int),
        CopyPhase::Done => {
            &&& p.taken == p.source.len()
            &&& p.sink == p.source
            &&& p.flushed == p.source.len()
        },
        CopyPhase::Failed { error } => false,
    }
}

/// An upper bound on the number of reports that a sound run can still take.
pub open spec fn steps_left(c: ChunkedCopier, p: Pipe) -> int {
    3 * (p.source.len() - p.taken) + match c.phase {
        CopyPhase::Reading => 1int,
        CopyPhase::Writing { from, to } => to - from + 2,
        CopyPhase::Flushing => 2int,
        CopyPhase::Done => 0int,
        CopyPhase::Failed { error } => 0int,
    }
}

/// The copier and pipe after the reports `events`, taken in order.
pub open spec fn copy_run(c: ChunkedCopier, p: Pipe, events: Seq<CopyEvent>) -> (ChunkedCopier, Pipe)
    decreases events.len(),
{
    if events.len() == 0 {
        (c, p)
    } else {
        copy_run(copy_step(c, events[0]), pipe_after(c, p, events[0]), events.drop_first())
    }
}

/// Whether each of `events` is an honest report at the point where it comes.
pub open spec fn honest_run(c: ChunkedCopier, p: Pipe, events: Seq<CopyEvent>) -> bool
    decreases events.len(),
{
    events.len() > 0 ==> {
        &&& honest(c, p, events[0])
        &&& honest_run(copy_step(c, events[0]), pipe_after(c, p, events[0]), events.drop_first())
    }
}

/// The copier and pipe that a copy of `bytes` has reached, from its start,
/// after the reports `events`.
pub open spec fn copy_of(
    source: Endpoint,
    sink: Endpoint,
    chunk_size: usize,
    bytes: Seq<u8>,
    events: Seq<CopyEvent>,
) -> (ChunkedCopier, Pipe) {
    copy_run(initial_copier(source, sink, chunk_size), fresh_pipe(bytes), events)
}

/// Whether `events` is a sound run of a copy of `bytes` from its start.
pub open spec fn sound_copy(
    source: Endpoint,
    sink: Endpoint,
    chunk_size: usize,
    bytes: Seq<u8>,
    events: Seq<CopyEvent>,
) -> bool {
    honest_run(initial_copier(source, sink, chunk_size), fresh_pipe(bytes), events)
}

/// A new copier and a fresh pipe are consistent.
pub proof fn lemma_start_consistent(
    source: Endpoint,
    sink: Endpoint,
    chunk_size: usize,
    bytes: Seq<u8>,
)
    requires
        bytes.len() <= u64::MAX,
    ensures
        consistent(initial_copier(source, sink, chunk_size), fresh_pipe(bytes)),
        steps_left(initial_copier(source, sink, chunk_size), fresh_pipe(bytes)) == 3 * bytes.len()
            + 1,
{
    assert(fresh_pipe(bytes).sink =~= bytes.take(0));
}

/// An honest report keeps copier and pipe consistent, never gives the copy
/// up, and brings the end at least one step nearer.
pub proof fn lemma_step_consistent(c: ChunkedCopier, p: Pipe, event: CopyEvent)
    requires
        consistent(c, p),
        honest(c, p, event),
    ensures
        consistent(copy_step(c, event), pipe_after(c, p, event)),
        steps_left(copy_step(c, event), pipe_after(c, p, event)) < steps_left(c, p),
        pipe_after(c, p, event).source == p.source,
{
    let after = pipe_after(c, p, event);
    match c.phase {
        CopyPhase::Reading => {
            if event->Read_count == 0 {
                assert(p.source.take(p.taken as int) =~= p.source);
            }
        },
        CopyPhase::Writing { from, to } => {
            assert(after.sink =~= p.source.take(p.taken - to + from + event->Wrote_count));
        },
        _ => {},
    }
}

/// Unless the copy is done, some honest report can always follow: a sound
/// run with a chunk size above zero is never stuck.
pub proof fn lemma_never_stuck(c: ChunkedCopier, p: Pipe)
    requires
        consistent(c, p),
        c.chunk_size > 0,
        c.phase != CopyPhase::Done,
    ensures
        exists|event: CopyEvent| honest(c, p, event),
{
    match c.phase {
        CopyPhase::Reading => {
            let count: usize = if p.taken == p.source.len() {
                0
            } else {
                1
            };
            assert(honest(c, p, CopyEvent::Read { count }));
        },
        CopyPhase::Writing { from, to } => {
            assert(honest(c, p, CopyEvent::Wrote { count: 1 }));
        },
        _ => {
            assert(honest(c, p, CopyEvent::Flushed));
        },
    }
}

/// A sound run stays consistent throughout and uses up its step bound.
pub proof fn lemma_run_consistent(c: ChunkedCopier, p: Pipe, events: Seq<CopyEvent>)
    requires
        consistent(c, p),
        honest_run(c, p, events),
    ensures
        consistent(copy_run(c, p, events).0, copy_run(c, p, events).1),
        copy_run(c, p, events).1.source == p.source,
        events.len() + steps_left(copy_run(c, p, events).0, copy_run(c, p, events).1)
            <= steps_left(c, p),
    decreases events.len(),
{
    if events.len() > 0 {
        lemma_step_consistent(c, p, events[0]);
        lemma_run_consistent(
            copy_step(c, events[0]),
            pipe_after(c, p, events[0]),
            events.drop_first(),
        );
    }
}

/// A run changes neither the endpoints nor the chunk size of a copier.
pub proof fn lemma_run_keeps_settings(c: ChunkedCopier, p: Pipe, events: Seq<CopyEvent>)
    ensures
        copy_run(c, p, events).0.source == c.source,
        copy_run(c, p, events).0.sink == c.sink,
        copy_run(c, p, events).0.chunk_size == c.chunk_size,
    decreases events.len(),
{
    if events.len() > 0 {
        lemma_run_keeps_settings(
            copy_step(c, events[0]),
            pipe_after(c, p, events[0]),
            events.drop_first(),
        );
    }
}

/// The copier delivers exactly what its source holds, whatever the sizes of
/// the reads and writes and however the length relates to the chunk size.
///
/// Take any bytes, any chunk size and any sound run from the start. The run
/// is never given up and has at most `3 * bytes.len() + 1` reports, and with
/// a chunk size above zero it can always go on until the copier is done. At
/// every point the sink holds a prefix of the bytes. Once the copier is done,
/// the sink holds all of them, all are flushed, and the count that the copier
/// reports is their number.
pub proof fn theorem_copy_is_exact(
    source: Endpoint,
    sink: Endpoint,
    chunk_size: usize,
    bytes: Seq<u8>,
    events: Seq<CopyEvent>,
)
    requires
        bytes.len() <= u64::MAX,
        sound_copy(source, sink, chunk_size, bytes, events),
    ensures
        ({
            let (c, p) = copy_of(source, sink, chunk_size, bytes, events);
            &&& events.len() <= 3 * bytes.len() + 1
            &&& !(c.phase is Failed)
            &&& p.sink.is_prefix_of(bytes)
            &&& c.phase == CopyPhase::Done ==> {
                &&& p.sink == bytes
                &&& p.flushed == bytes.len()
                &&& pending_action(c) == CopyAction::Finish { total_bytes: bytes.len() as u64 }
            }
            &&& c.phase != CopyPhase::Done && chunk_size > 0 ==> exists|next: CopyEvent|
                honest(c, p, next)
        }),
{
    let c0 = initial_copier(source, sink, chunk_size);
    let p0 = fresh_pipe(bytes);
    lemma_start_consistent(source, sink, chunk_size, bytes);
    lemma_run_consistent(c0, p0, events);
    let (c, p) = copy_run(c0, p0, events);
    lemma_run_keeps_settings(c0, p0, events);
    if c.phase != CopyPhase::Done && chunk_size > 0 {
        lemma_never_stuck(c, p);
    }
    assert(p.sink.is_prefix_of(bytes)) by {
        match c.phase {
            CopyPhase::Writing { from, to } => {
                assert(p.sink =~= bytes.take(p.taken - to + from));
            },
            _ => {
                assert(p.sink =~= bytes.take(p.taken as int));
            },
        }
    }
}

/// A source without bytes gives a transfer of zero bytes that ends well: the
/// only honest first report is the empty read, and it completes the copy.
pub proof fn lemma_empty_source_finishes(
    source: Endpoint,
    sink: Endpoint,
    chunk_size: usize,
    event: CopyEvent,
)
    requires
        honest(initial_copier(source, sink, chunk_size), fresh_pipe(Seq::empty()), event),
    ensures
        event == (CopyEvent::Read { count: 0 }),
        copy_step(initial_copier(source, sink, chunk_size), event).phase == CopyPhase::Done,
        pending_action(copy_step(initial_copier(source, sink, chunk_size), event))
            == (CopyAction::Finish { total_bytes: 0 }),
{
}

/// A failure ends the copy at once and undoes nothing: when a sound run is
/// cut short by a failed operation, the copier asks for nothing more than to
/// give up, with the error of the endpoint that was being worked on, and the
/// sink keeps the prefix of the bytes that it had taken by then.
pub proof fn theorem_failure_keeps_a_prefix(
    source: Endpoint,
    sink: Endpoint,
    chunk_size: usize,
    bytes: Seq<u8>,
    events: Seq<CopyEvent>,
)
    requires
        bytes.len() <= u64::MAX,
        sound_copy(source, sink, chunk_size, bytes, events),
        copy_of(source, sink, chunk_size, bytes, events).0.phase != CopyPhase::Done,
    ensures
        ({
            let (c, p) = copy_of(source, sink, chunk_size, bytes, events);
            let failed = copy_step(c, CopyEvent::Failed);
            let at_fault = if c.phase == CopyPhase::Reading {
                source
            } else {
                sink
            };
            &&& pending_action(failed) == CopyAction::Abort { error: failure_of(at_fault) }
            &&& pipe_after(c, p, CopyEvent::Failed) == p
            &&& p.sink.is_prefix_of(bytes)
            &&& forall|later: CopyEvent| copy_step(failed, later) == failed
        }),
{
    let c0 = initial_copier(source, sink, chunk_size);
    let p0 = fresh_pipe(bytes);
    theorem_copy_is_exact(source, sink, chunk_size, bytes, events);
    lemma_run_keeps_settings(c0, p0, events);
}

/// Two copiers in a row, the second fed with what the first delivered, hand
/// on the bytes unchanged: what the sender's pipeline produced is, byte for
/// byte, what the receiver's file holds once both copies are done.
pub proof fn theorem_relay_is_exact(
    chunk_size: usize,
    bytes: Seq<u8>,
    sent: Seq<CopyEvent>,
    received: Seq<CopyEvent>,
)
    requires
        bytes.len() <= u64::MAX,
        sound_copy(Endpoint::Codec, Endpoint::Channel, chunk_size, bytes, sent),
        copy_of(Endpoint::Codec, Endpoint::Channel, chunk_size, bytes, sent).0.phase
            == CopyPhase::Done,
        sound_copy(
            Endpoint::Channel,
            Endpoint::File,
            chunk_size,
            copy_of(Endpoint::Codec, Endpoint::Channel, chunk_size, bytes, sent).1.sink,
            received,
        ),
        copy_of(
            Endpoint::Channel,
            Endpoint::File,
            chunk_size,
            copy_of(Endpoint::Codec, Endpoint::Channel, chunk_size, bytes, sent).1.sink,
            received,
        ).0.phase == CopyPhase::Done,
    ensures
        copy_of(
            Endpoint::Channel,
            Endpoint::File,
            chunk_size,
            copy_of(Endpoint::Codec, Endpoint::Channel, chunk_size, bytes, sent).1.sink,
            received,
        ).1.sink == bytes,
        copy_of(
            Endpoint::Channel,
            Endpoint::File,
            chunk_size,
            copy_of(Endpoint::Codec, Endpoint::Channel, chunk_size, bytes, sent).1.sink,
            received,
        ).0.total_bytes == bytes.len(),
{
    theorem_copy_is_exact(Endpoint::Codec, Endpoint::Channel, chunk_size, bytes, sent);
    theorem_copy_is_exact(Endpoint::Channel, Endpoint::File, chunk_size, bytes, received);
}

} // verus!
