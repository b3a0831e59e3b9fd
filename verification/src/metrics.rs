use vstd::prelude::*;

verus! {

/// What a finished copy is logged with: how much went through and how long
/// it took. It never travels on the wire.
#[derive(Clone, Copy, Debug, PartialEq, Eq, Structural)]
pub struct TransferMetrics {
    pub total_bytes: u64,
    pub elapsed_seconds: u64,
}

/// Bytes per second over whole seconds, a transfer of under one second
/// counted as one second.
pub open spec fn throughput(total_bytes: u64, elapsed_seconds: u64) -> int {
    if elapsed_seconds == 0 {
        total_bytes as int
    } else {
        total_bytes as int / elapsed_seconds as int
    }
}

impl TransferMetrics {
    /// The metrics of a copy of `total_bytes` bytes that took
    /// `elapsed_seconds` whole seconds.
    pub fn new(total_bytes: u64, elapsed_seconds: u64) -> (metrics: TransferMetrics)
        ensures
            metrics == (TransferMetrics { total_bytes, elapsed_seconds }),
    {
        TransferMetrics { total_bytes, elapsed_seconds }
    }

    /// The transfer speed in bytes per second.
    pub fn bytes_per_second(&self) -> (speed: u64)
        ensures
            speed == throughput(self.total_bytes, self.elapsed_seconds),
            speed <= self.total_bytes,
    {
        let seconds: u64 = if self.elapsed_seconds == 0 {
            1
        } else {
            self.elapsed_seconds
        };
        let speed: u64 = self.total_bytes / seconds;
        assert(speed <= self.total_bytes) by (nonlinear_arith)
            requires
                speed == self.total_bytes / seconds,
                seconds >= 1,
        ;
        speed
    }
}

} // verus!
