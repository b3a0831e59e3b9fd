use file_backup_service::copier::{
    ChunkedCopier, CopyAction, CopyEvent, CopyPhase, Endpoint, BUFFER_SIZE,
};
use file_backup_service::error::TransferError;
use file_backup_service::metrics::TransferMetrics;

/// What a pump run left behind.
struct Pumped {
    sink: Vec<u8>,
    total_bytes: u64,
    reads: usize,
    flushes: usize,
    most_unflushed: usize,
    read_with_unflushed: bool,
}

/// Drives a copier over an in-memory source. Reads give at most `read_cap`
/// bytes, writes take at most `write_cap`.
fn pump(source: &[u8], chunk_size: usize, read_cap: usize, write_cap: usize) -> Pumped {
    let mut copier = ChunkedCopier::new(Endpoint::Codec, Endpoint::Channel, chunk_size);
    let mut buffer = vec![0u8; chunk_size];
    let mut taken = 0usize;
    let mut out = Pumped {
        sink: Vec::new(),
        total_bytes: 0,
        reads: 0,
        flushes: 0,
        most_unflushed: 0,
        read_with_unflushed: false,
    };
    let mut unflushed = 0usize;
    let mut action = copier.action();
    loop {
        let event = match action {
            CopyAction::Read { max } => {
                assert_eq!(max, chunk_size);
                if unflushed != 0 {
                    out.read_with_unflushed = true;
                }
                let count = max.min(read_cap).min(source.len() - taken);
                buffer[..count].copy_from_slice(&source[taken..taken + count]);
                taken += count;
                out.reads += 1;
                CopyEvent::Read { count }
            }
            CopyAction::Write { from, to } => {
                assert!(from < to && to <= chunk_size);
                let count = (to - from).min(write_cap);
                out.sink.extend_from_slice(&buffer[from..from + count]);
                unflushed += count;
                out.most_unflushed = out.most_unflushed.max(unflushed);
                CopyEvent::Wrote { count }
            }
            CopyAction::Flush => {
                unflushed = 0;
                out.flushes += 1;
                CopyEvent::Flushed
            }
            CopyAction::Finish { total_bytes } => {
                out.total_bytes = total_bytes;
                assert!(copier.is_over());
                return out;
            }
            CopyAction::Abort { error } => panic!("a sound run was given up: {:?}", error),
        };
        action = copier.step(event);
    }
}

fn patterned(length: usize) -> Vec<u8> {
    (0..length).map(|i| (i * 31 + i / 7) as u8).collect()
}

#[test]
fn buffer_size_is_fifteen_kibibytes() {
    assert_eq!(BUFFER_SIZE, 15_360);
}

#[test]
fn copies_one_mebibyte_in_fifteen_kibibyte_chunks() {
    let source = patterned(1_048_576);
    let out = pump(&source, BUFFER_SIZE, usize::MAX, usize::MAX);
    assert_eq!(out.total_bytes, 1_048_576);
    assert_eq!(out.sink, source);
    assert_eq!(out.flushes, 69);
    assert_eq!(out.reads, 70);
}

#[test]
fn copies_one_byte_more_than_a_mebibyte() {
    let source = patterned(1_048_577);
    let out = pump(&source, BUFFER_SIZE, usize::MAX, usize::MAX);
    assert_eq!(out.total_bytes, 1_048_577);
    assert_eq!(out.sink, source);
}

#[test]
fn copies_an_exact_multiple_of_the_chunk_size() {
    let source = patterned(BUFFER_SIZE * 4);
    let out = pump(&source, BUFFER_SIZE, usize::MAX, usize::MAX);
    assert_eq!(out.total_bytes, (BUFFER_SIZE * 4) as u64);
    assert_eq!(out.sink, source);
    assert_eq!(out.flushes, 4);
    assert_eq!(out.reads, 5);
}

#[test]
fn copies_whatever_the_sizes_of_reads_and_writes() {
    for length in [1usize, 2, 15, 16, 17, 1000] {
        for chunk in [1usize, 2, 16, 4096] {
            for read_cap in [1usize, 3, 4096] {
                for write_cap in [1usize, 5, 4096] {
                    let source = patterned(length);
                    let out = pump(&source, chunk, read_cap, write_cap);
                    assert_eq!(out.total_bytes, length as u64);
                    assert_eq!(out.sink, source);
                }
            }
        }
    }
}

#[test]
fn flushes_after_every_chunk() {
    let source = patterned(10_000);
    let out = pump(&source, 256, 100, 7);
    assert_eq!(out.flushes, 100);
    assert!(!out.read_with_unflushed);
    assert!(out.most_unflushed <= 256);
    assert_eq!(out.sink, source);
}

#[test]
fn empty_source_is_a_transfer_of_zero_bytes() {
    let out = pump(&[], BUFFER_SIZE, usize::MAX, usize::MAX);
    assert_eq!(out.total_bytes, 0);
    assert!(out.sink.is_empty());
    assert_eq!(out.reads, 1);
    assert_eq!(out.flushes, 0);

    let mut copier = ChunkedCopier::new(Endpoint::File, Endpoint::Channel, BUFFER_SIZE);
    assert_eq!(copier.step(CopyEvent::Read { count: 0 }), CopyAction::Finish { total_bytes: 0 });
    assert_eq!(copier.phase, CopyPhase::Done);
}

#[test]
fn a_new_copier_asks_for_one_chunk() {
    let copier = ChunkedCopier::new(Endpoint::Channel, Endpoint::File, 4096);
    assert_eq!(copier.action(), CopyAction::Read { max: 4096 });
    assert_eq!(copier.total_bytes, 0);
    assert!(!copier.is_over());
}

#[test]
fn a_short_write_is_followed_by_the_rest() {
    let mut copier = ChunkedCopier::new(Endpoint::Codec, Endpoint::Channel, 100);
    assert_eq!(copier.step(CopyEvent::Read { count: 100 }), CopyAction::Write { from: 0, to: 100 });
    assert_eq!(copier.step(CopyEvent::Wrote { count: 40 }), CopyAction::Write { from: 40, to: 100 });
    assert_eq!(copier.step(CopyEvent::Wrote { count: 59 }), CopyAction::Write { from: 99, to: 100 });
    assert_eq!(copier.step(CopyEvent::Wrote { count: 1 }), CopyAction::Flush);
    assert_eq!(copier.step(CopyEvent::Flushed), CopyAction::Read { max: 100 });
    assert_eq!(copier.total_bytes, 100);
}

#[test]
fn failures_are_named_after_the_endpoint() {
    assert_eq!(Endpoint::Channel.failure(), TransferError::Transport);
    assert_eq!(Endpoint::File.failure(), TransferError::Filesystem);
    assert_eq!(Endpoint::Codec.failure(), TransferError::Codec);

    let mut reading = ChunkedCopier::new(Endpoint::Codec, Endpoint::Channel, 8);
    assert_eq!(reading.step(CopyEvent::Failed), CopyAction::Abort { error: TransferError::Codec });

    let mut writing = ChunkedCopier::new(Endpoint::Channel, Endpoint::File, 8);
    writing.step(CopyEvent::Read { count: 8 });
    assert_eq!(writing.step(CopyEvent::Failed), CopyAction::Abort { error: TransferError::Filesystem });

    let mut flushing = ChunkedCopier::new(Endpoint::File, Endpoint::Channel, 8);
    flushing.step(CopyEvent::Read { count: 3 });
    flushing.step(CopyEvent::Wrote { count: 3 });
    assert_eq!(flushing.step(CopyEvent::Failed), CopyAction::Abort { error: TransferError::Transport });
    assert_eq!(flushing.total_bytes, 3);
}

#[test]
fn a_failure_stops_the_copy_for_good() {
    let mut copier = ChunkedCopier::new(Endpoint::Channel, Endpoint::File, 8);
    copier.step(CopyEvent::Read { count: 8 });
    copier.step(CopyEvent::Failed);
    assert!(copier.is_over());
    for event in [
        CopyEvent::Read { count: 0 },
        CopyEvent::Read { count: 4 },
        CopyEvent::Wrote { count: 8 },
        CopyEvent::Flushed,
        CopyEvent::Failed,
    ] {
        assert_eq!(copier.step(event), CopyAction::Abort { error: TransferError::Filesystem });
        assert_eq!(copier.phase, CopyPhase::Failed { error: TransferError::Filesystem });
    }
}

#[test]
fn a_finished_copy_stays_finished() {
    let mut copier = ChunkedCopier::new(Endpoint::Channel, Endpoint::File, 8);
    copier.step(CopyEvent::Read { count: 5 });
    copier.step(CopyEvent::Wrote { count: 5 });
    copier.step(CopyEvent::Flushed);
    assert_eq!(copier.step(CopyEvent::Read { count: 0 }), CopyAction::Finish { total_bytes: 5 });
    assert_eq!(copier.step(CopyEvent::Read { count: 3 }), CopyAction::Finish { total_bytes: 5 });
    assert_eq!(copier.step(CopyEvent::Failed), CopyAction::Finish { total_bytes: 5 });
}

#[test]
fn reports_that_cannot_be_true_give_the_copy_up() {
    let mut too_much = ChunkedCopier::new(Endpoint::Codec, Endpoint::Channel, 8);
    assert_eq!(too_much.step(CopyEvent::Read { count: 9 }), CopyAction::Abort { error: TransferError::Codec });

    let mut no_progress = ChunkedCopier::new(Endpoint::Codec, Endpoint::Channel, 8);
    no_progress.step(CopyEvent::Read { count: 8 });
    assert_eq!(no_progress.step(CopyEvent::Wrote { count: 0 }), CopyAction::Abort { error: TransferError::Transport });

    let mut overshoot = ChunkedCopier::new(Endpoint::Codec, Endpoint::Channel, 8);
    overshoot.step(CopyEvent::Read { count: 4 });
    assert_eq!(overshoot.step(CopyEvent::Wrote { count: 5 }), CopyAction::Abort { error: TransferError::Transport });

    let mut out_of_turn = ChunkedCopier::new(Endpoint::Codec, Endpoint::Channel, 8);
    assert_eq!(out_of_turn.step(CopyEvent::Flushed), CopyAction::Abort { error: TransferError::Codec });

    let mut early_read = ChunkedCopier::new(Endpoint::Codec, Endpoint::File, 8);
    early_read.step(CopyEvent::Read { count: 4 });
    assert_eq!(early_read.step(CopyEvent::Read { count: 4 }), CopyAction::Abort { error: TransferError::Filesystem });
}

#[test]
fn a_count_past_the_counter_gives_the_copy_up() {
    let mut copier = ChunkedCopier {
        source: Endpoint::Channel,
        sink: Endpoint::File,
        chunk_size: 16,
        total_bytes: u64::MAX - 3,
        phase: CopyPhase::Reading,
    };
    assert_eq!(copier.step(CopyEvent::Read { count: 4 }), CopyAction::Abort { error: TransferError::Transport });
    let mut fits = ChunkedCopier { total_bytes: u64::MAX - 3, ..ChunkedCopier::new(Endpoint::Channel, Endpoint::File, 16) };
    assert_eq!(fits.step(CopyEvent::Read { count: 3 }), CopyAction::Write { from: 0, to: 3 });
    assert_eq!(fits.total_bytes, u64::MAX);
}

#[test]
fn throughput_counts_a_short_transfer_as_one_second() {
    assert_eq!(TransferMetrics::new(1000, 0).bytes_per_second(), 1000);
    assert_eq!(TransferMetrics::new(1000, 1).bytes_per_second(), 1000);
    assert_eq!(TransferMetrics::new(1000, 3).bytes_per_second(), 333);
    assert_eq!(TransferMetrics::new(0, 0).bytes_per_second(), 0);
    assert_eq!(TransferMetrics::new(5, 10).bytes_per_second(), 0);
    assert_eq!(TransferMetrics::new(u64::MAX, 2).bytes_per_second(), u64::MAX / 2);
}
