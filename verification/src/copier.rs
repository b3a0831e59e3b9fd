use crate::error::TransferError;
use vstd::prelude::*;

verus! {

/// The recommended chunk size: large enough to amortise a flush per chunk,
/// small enough to keep the receiver's view of the stream fresh.
pub const BUFFER_SIZE: usize = 1024 * 15;

/// What stands at one end of a copy.
#[derive(Clone, Copy, Debug, PartialEq, Eq, Structural)]
pub enum Endpoint {
    /// The encrypted channel to the peer.
    Channel,
    /// A local file.
    File,
    /// The compressing pipeline that produces the archive.
    Codec,
}

/// The error that a failure at `endpoint` is reported as.
pub open spec fn failure_of(endpoint: Endpoint) -> TransferError {
    match endpoint {
        Endpoint::Channel => TransferError::Transport,
        Endpoint::File => TransferError::Filesystem,
        Endpoint::Codec => TransferError::Codec,
    }
}

impl Endpoint {
    /// The error that a failure at this endpoint is reported as.
    pub fn failure(&self) -> (error: TransferError)
        ensures
            error == failure_of(*self),
    {
        match self {
            Endpoint::Channel => TransferError::Transport,
            Endpoint::File => TransferError::Filesystem,
            Endpoint::Codec => TransferError::Codec,
        }
    }
}

/// Where a copy stands between two operations on its endpoints.
#[derive(Clone, Copy, Debug, PartialEq, Eq, Structural)]
pub enum CopyPhase {
    /// A read of up to one chunk from the source is awaited.
    Reading,
    /// Bytes `from..to` of the chunk buffer still have to reach the sink, and
    /// a write of them is awaited.
    Writing { from: usize, to: usize },
    /// The whole chunk has been written and a flush of the sink is awaited.
    Flushing,
    /// The source reported its end; every byte read was written and flushed.
    Done,
    /// The copy was given up.
    Failed { error: TransferError },
}

/// What the caller reports back after carrying out a [`CopyAction`].
#[derive(Clone, Copy, Debug, PartialEq, Eq, Structural)]
pub enum CopyEvent {
    /// The source put this many bytes at the start of the chunk buffer;
    /// zero means that the source has ended.
    Read { count: usize },
    /// The sink accepted this many of the bytes it was offered.
    Wrote { count: usize },
    /// The sink was flushed.
    Flushed,
    /// The operation failed.
    Failed,
}

/// What the caller has to do next.
#[derive(Clone, Copy, Debug, PartialEq, Eq, Structural)]
pub enum CopyAction {
    /// Read up to `max` bytes from the source into the start of the chunk buffer.
    Read { max: usize },
    /// Offer bytes `from..to` of the chunk buffer to the sink.
    Write { from: usize, to: usize },
    /// Flush the sink.
    Flush,
    /// The copy is complete: `total_bytes` bytes went from source to sink.
    Finish { total_bytes: u64 },
    /// The copy was given up with `error`; what was written stays written.
    Abort { error: TransferError },
}

/// A byte pump between a source and a sink that moves one chunk at a time
/// and flushes the sink after every chunk. It holds the decisions only: the
/// caller performs each [`CopyAction`] and reports the [`CopyEvent`].
///
/// The end of the transfer is the source's zero-length read and nothing else,
/// so a peer that stops mid-stream is indistinguishable from one that is done.
#[derive(Clone, Copy, Debug, PartialEq, Eq, Structural)]
pub struct ChunkedCopier {
    pub source: Endpoint,
    pub sink: Endpoint,
    pub chunk_size: usize,
    pub total_bytes: u64,
    pub phase: CopyPhase,
}

/// The copier before its first read.
pub open spec fn initial_copier(source: Endpoint, sink: Endpoint, chunk_size: usize) -> ChunkedCopier {
    ChunkedCopier { source, sink, chunk_size, total_bytes: 0, phase: CopyPhase::Reading }
}

/// The copier `c` with its phase replaced.
pub open spec fn in_phase(c: ChunkedCopier, phase: CopyPhase) -> ChunkedCopier {
    ChunkedCopier { phase, ..c }
}

/// The copier `c` given up because of a failure at `endpoint`.
pub open spec fn failed_at(c: ChunkedCopier, endpoint: Endpoint) -> ChunkedCopier {
    in_phase(c, CopyPhase::Failed { error: failure_of(endpoint) })
}

/// The state that follows `c` when `event` is reported.
///
/// A read of zero bytes ends the copy. A read of `n` bytes is counted and has
/// to be written in full, in as many writes as the sink needs, and then
/// flushed before the next read. Every other report gives the copy up: a
/// failure, a report that the phase does not await, a read of more than a
/// chunk or past what a `u64` counts (a fault of the source), a write of no
/// byte or of more than was offered (a fault of the sink). Once done or given
/// up, the copier stays as it is.
pub open spec fn copy_step(c: ChunkedCopier, event: CopyEvent) -> ChunkedCopier {
    match c.phase {
        CopyPhase::Reading => match event {
            CopyEvent::Read { count } => if count == 0 {
                in_phase(c, CopyPhase::Done)
            } else if count <= c.chunk_size && c.total_bytes + count <= u64::MAX {
                ChunkedCopier {
                    total_bytes: (c.total_bytes + count) as u64,
                    phase: CopyPhase::Writing { from: 0, to: count },
                    ..c
                }
            } else {
                failed_at(c, c.source)
            },
            _ => failed_at(c, c.source),
        },
        CopyPhase::Writing { from, to } => match event {
            CopyEvent::Wrote { count } => if 0 < count && from + count < to {
                in_phase(c, CopyPhase::Writing { from: (from + count) as usize, to })
            } else if 0 < count && from + count == to {
                in_phase(c, CopyPhase::Flushing)
            } else {
                failed_at(c, c.sink)
            },
            _ => failed_at(c, c.sink),
        },
        CopyPhase::Flushing => match event {
            CopyEvent::Flushed => in_phase(c, CopyPhase::Reading),
            _ => failed_at(c, c.sink),
        },
        CopyPhase::Done => c,
        CopyPhase::Failed { error } => c,
    }
}

/// What the caller of `c` has to do next.
pub open spec fn pending_action(c: ChunkedCopier) -> CopyAction {
    match c.phase {
        CopyPhase::Reading => CopyAction::Read { max: c.chunk_size },
        CopyPhase::Writing { from, to } => CopyAction::Write { from, to },
        CopyPhase::Flushing => CopyAction::Flush,
        CopyPhase::Done => CopyAction::Finish { total_bytes: c.total_bytes },
        CopyPhase::Failed { error } => CopyAction::Abort { error },
    }
}

impl ChunkedCopier {
    /// The range that a pending write covers lies in the chunk and is not empty.
    pub open spec fn wf(self) -> bool {
        match self.phase {
            CopyPhase::Writing { from, to } => from < to <= self.chunk_size,
            _ => true,
        }
    }

    /// A copier from `source` to `sink` that has not read anything yet.
    pub fn new(source: Endpoint, sink: Endpoint, chunk_size: usize) -> (copier: ChunkedCopier)
        ensures
            copier == initial_copier(source, sink, chunk_size),
            copier.wf(),
    {
        ChunkedCopier { source, sink, chunk_size, total_bytes: 0, phase: CopyPhase::Reading }
    }

    /// What the caller has to do next.
    pub fn action(&self) -> (action: CopyAction)
        ensures
            action == pending_action(*self),
    {
        match self.phase {
            CopyPhase::Reading => CopyAction::Read { max: self.chunk_size },
            CopyPhase::Writing { from, to } => CopyAction::Write { from, to },
            CopyPhase::Flushing => CopyAction::Flush,
            CopyPhase::Done => CopyAction::Finish { total_bytes: self.total_bytes },
            CopyPhase::Failed { error } => CopyAction::Abort { error },
        }
    }

    /// Takes in what happened to the last action and says what to do next.
    pub fn step(&mut self, event: CopyEvent) -> (action: CopyAction)
        ensures
            *final(self) == copy_step(*old(self), event),
            action == pending_action(*final(self)),
            old(self).wf() ==> final(self).wf(),
    {
        match self.phase {
            CopyPhase::Reading => {
                match event {
                    CopyEvent::Read { count } => {
                        if count == 0 {
                            self.phase = CopyPhase::Done;
                        } else if count <= self.chunk_size && count as u64 <= u64::MAX
                            - self.total_bytes {
                            self.total_bytes = self.total_bytes + count as u64;
                            self.phase = CopyPhase::Writing { from: 0, to: count };
                        } else {
                            self.phase = CopyPhase::Failed { error: self.source.failure() };
                        }
                    },
                    _ => {
                        self.phase = CopyPhase::Failed { error: self.source.failure() };
                    },
                }
            },
            CopyPhase::Writing { from, to } => {
                match event {
                    CopyEvent::Wrote { count } => {
                        if 0 < count && from < to && count < to - from {
                            self.phase = CopyPhase::Writing { from: from + count, to };
                        } else if 0 < count && from < to && count == to - from {
                            self.phase = CopyPhase::Flushing;
                        } else {
                            self.phase = CopyPhase::Failed { error: self.sink.failure() };
                        }
                    },
                    _ => {
                        self.phase = CopyPhase::Failed { error: self.sink.failure() };
                    },
                }
            },
            CopyPhase::Flushing => {
                match event {
                    CopyEvent::Flushed => {
                        self.phase = CopyPhase::Reading;
                    },
                    _ => {
                        self.phase = CopyPhase::Failed { error: self.sink.failure() };
                    },
                }
            },
            CopyPhase::Done => {},
            CopyPhase::Failed { error } => {},
        }
        self.action()
    }

    /// Whether the copy has ended, well or badly.
    pub fn is_over(&self) -> (over: bool)
        ensures
            over == (self.phase == CopyPhase::Done || self.phase is Failed),
    {
        match self.phase {
            CopyPhase::Done => true,
            CopyPhase::Failed { error } => true,
            _ => false,
        }
    }
}

} // verus!
