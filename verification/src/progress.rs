//! The progress aggregator: from raw byte counts to throttled snapshots.
//!
//! The copy engine reports after every chunk. [`ProgressThrottle`] lets at
//! most one report through per [`MIN_INTERVAL_NANOS`] and turns it into a
//! [`ProgressUpdate`] that carries what a display needs: how many bytes moved
//! since the last snapshot and in how much time, and how many bytes of the
//! current file are still to come. Rates and estimates are quotients of these
//! whole numbers; dividing them is left to whoever shows them.

use vstd::prelude::*;

verus! {

/// The shortest time between two snapshots: 50 ms, in nanoseconds.
pub const MIN_INTERVAL_NANOS: u64 = 50_000_000;

/// One raw report of the copy engine.
#[derive(Debug, Clone, PartialEq, Eq)]
pub struct ProgressEvent {
    /// The name of the file being copied.
    pub file_name: String,
    /// The size the file was planned with.
    pub file_size: u64,
    /// The bytes of this file written so far.
    pub bytes_copied: u64,
    /// The position that the report carries for the file.
    pub file_index: usize,
    /// The bytes written in this run so far, over all files.
    pub total_bytes: u64,
}

/// A [`ProgressEvent`] with its text as a sequence of characters.
pub struct ProgressEventView {
    pub file_name: Seq<char>,
    pub file_size: u64,
    pub bytes_copied: u64,
    pub file_index: usize,
    pub total_bytes: u64,
}

impl View for ProgressEvent {
    type V = ProgressEventView;

    open spec fn view(&self) -> ProgressEventView {
        ProgressEventView {
            file_name: self.file_name@,
            file_size: self.file_size,
            bytes_copied: self.bytes_copied,
            file_index: self.file_index,
            total_bytes: self.total_bytes,
        }
    }
}

/// Bytes moved over a stretch of time. It stands for the rate
/// `bytes / (nanos / 1e9)` bytes per second, which is zero where `bytes` is.
#[derive(Debug, Clone, Copy, PartialEq, Eq, Structural)]
pub struct Throughput {
    pub bytes: u64,
    pub nanos: u64,
}

/// What the display is told.
#[derive(Debug, Clone, PartialEq, Eq)]
pub enum ProgressUpdate {
    /// A snapshot of the file being copied.
    File {
        name: String,
        size: u64,
        progress: u64,
        index: u64,
        /// The throughput since the last snapshot.
        rate: Throughput,
        total_bytes: u64,
        /// The bytes of this file still to come, from which the time left is
        /// estimated; `None` where no estimate can be made.
        remaining_bytes: Option<u64>,
    },
    /// A stop has been requested.
    Stop,
    /// The run is over: no update follows.
    Complete,
}

/// A [`ProgressUpdate`] with its text as a sequence of characters.
pub enum ProgressUpdateView {
    File {
        name: Seq<char>,
        size: u64,
        progress: u64,
        index: u64,
        rate: Throughput,
        total_bytes: u64,
        remaining_bytes: Option<u64>,
    },
    Stop,
    Complete,
}

impl View for ProgressUpdate {
    type V = ProgressUpdateView;

    open spec fn view(&self) -> ProgressUpdateView {
        match self {
            ProgressUpdate::File { name, size, progress, index, rate, total_bytes, remaining_bytes } =>
                ProgressUpdateView::File {
                name: name@,
                size: *size,
                progress: *progress,
                index: *index,
                rate: *rate,
                total_bytes: *total_bytes,
                remaining_bytes: *remaining_bytes,
            },
            ProgressUpdate::Stop => ProgressUpdateView::Stop,
            ProgressUpdate::Complete => ProgressUpdateView::Complete,
        }
    }
}

/// The view of an optional update.
pub open spec fn update_view(u: Option<ProgressUpdate>) -> Option<ProgressUpdateView> {
    match u {
        Some(update) => Some(update@),
        None => None,
    }
}

/// What the throttle remembers of the last snapshot it let through: when it
/// was, on a clock that counts nanoseconds and never runs backwards, and
/// which byte count it carried.
#[derive(Debug, Clone, Copy, PartialEq, Eq, Structural)]
pub struct ProgressThrottle {
    pub last_emit_nanos: u64,
    pub last_bytes: u64,
}

impl ProgressThrottle {
    /// The time since the last snapshot; none where the clock reads earlier
    /// than it did then.
    pub open spec fn elapsed(self, now_nanos: u64) -> u64 {
        if now_nanos >= self.last_emit_nanos {
            (now_nanos - self.last_emit_nanos) as u64
        } else {
            0
        }
    }

    /// Whether a report at `now_nanos` is let through.
    pub open spec fn is_due(self, now_nanos: u64) -> bool {
        self.elapsed(now_nanos) >= MIN_INTERVAL_NANOS
    }

    /// The bytes that moved since the last snapshot. A count below the last
    /// one means that a new file has begun: it is taken as it stands, as
    /// counted from nothing.
    pub open spec fn bytes_since_last(self, bytes_copied: u64) -> u64 {
        if bytes_copied >= self.last_bytes {
            (bytes_copied - self.last_bytes) as u64
        } else {
            bytes_copied
        }
    }

    /// The bytes of the file still to come, as far as an estimate of the time
    /// left can rest on them: none where nothing moved since the last
    /// snapshot, the rate being zero, and none where more was copied than the
    /// file was planned with.
    pub open spec fn remaining_bytes(self, event: ProgressEventView) -> Option<u64> {
        if self.bytes_since_last(event.bytes_copied) > 0 && event.bytes_copied <= event.file_size {
            Some((event.file_size - event.bytes_copied) as u64)
        } else {
            None
        }
    }

    /// The snapshot made of a report that is let through.
    pub open spec fn snapshot(self, now_nanos: u64, event: ProgressEventView) -> ProgressUpdateView {
        ProgressUpdateView::File {
            name: event.file_name,
            size: event.file_size,
            progress: event.bytes_copied,
            index: event.file_index as u64,
            rate: Throughput {
                bytes: self.bytes_since_last(event.bytes_copied),
                nanos: self.elapsed(now_nanos),
            },
            total_bytes: event.total_bytes,
            remaining_bytes: self.remaining_bytes(event),
        }
    }

    /// What the throttle says of a report at `now_nanos`: the snapshot where
    /// one is due, nothing otherwise.
    pub open spec fn answer(self, now_nanos: u64, event: ProgressEventView) -> Option<
        ProgressUpdateView,
    > {
        if self.is_due(now_nanos) {
            Some(self.snapshot(now_nanos, event))
        } else {
            None
        }
    }

    /// What the throttle remembers after a report at `now_nanos`.
    pub open spec fn after(self, now_nanos: u64, event: ProgressEventView) -> ProgressThrottle {
        if self.is_due(now_nanos) {
            ProgressThrottle { last_emit_nanos: now_nanos, last_bytes: event.bytes_copied }
        } else {
            self
        }
    }

    /// A throttle that starts counting at `now_nanos`, from no bytes.
    pub fn new(now_nanos: u64) -> (r: ProgressThrottle)
        ensures
            r == (ProgressThrottle { last_emit_nanos: now_nanos, last_bytes: 0 }),
    {
        ProgressThrottle { last_emit_nanos: now_nanos, last_bytes: 0 }
    }

    /// Takes one raw report, made at `now_nanos`. Where the last snapshot is
    /// at least [`MIN_INTERVAL_NANOS`] old, the report becomes the next one and
    /// the throttle remembers it; otherwise the report is dropped and nothing
    /// changes.
    pub fn observe(&mut self, now_nanos: u64, event: &ProgressEvent) -> (r: Option<ProgressUpdate>)
        ensures
            update_view(r) == old(self).answer(now_nanos, event@),
            *final(self) == old(self).after(now_nanos, event@),
    {
        let elapsed = if now_nanos >= self.last_emit_nanos {
            now_nanos - self.last_emit_nanos
        } else {
            0
        };
        if elapsed < MIN_INTERVAL_NANOS {
            return None;
        }
        let bytes_since_last = if event.bytes_copied >= self.last_bytes {
            event.bytes_copied - self.last_bytes
        } else {
            event.bytes_copied
        };
        let remaining_bytes = if bytes_since_last > 0 && event.bytes_copied <= event.file_size {
            Some(event.file_size - event.bytes_copied)
        } else {
            None
        };
        let update = ProgressUpdate::File {
            name: event.file_name.clone(),
            size: event.file_size,
            progress: event.bytes_copied,
            index: event.file_index as u64,
            rate: Throughput { bytes: bytes_since_last, nanos: elapsed },
            total_bytes: event.total_bytes,
            remaining_bytes,
        };
        self.last_emit_nanos = now_nanos;
        self.last_bytes = event.bytes_copied;
        Some(update)
    }
}

/// Snapshots are at least [`MIN_INTERVAL_NANOS`] apart: after a report that
/// was let through at `first`, no report made less than that much later is.
pub proof fn lemma_snapshots_are_spaced(
    throttle: ProgressThrottle,
    first: u64,
    event: ProgressEventView,
    second: u64,
)
    requires
        throttle.is_due(first),
        second < first + MIN_INTERVAL_NANOS,
    ensures
        !throttle.after(first, event).is_due(second),
{
}

/// A report that is let through carries the time since the last snapshot,
/// which is never short of the interval, and an estimate exactly where bytes
/// have moved and the file still has some to come or is just done.
pub proof fn lemma_snapshot_rate(throttle: ProgressThrottle, now_nanos: u64, event: ProgressEventView)
    requires
        throttle.is_due(now_nanos),
    ensures
        throttle.answer(now_nanos, event) matches Some(
            ProgressUpdateView::File { rate, remaining_bytes, progress, size, .. },
        ) && rate.nanos >= MIN_INTERVAL_NANOS && (remaining_bytes is Some <==> rate.bytes > 0
            && progress <= size) && (remaining_bytes matches Some(left) ==> left + progress
            == size),
{
}

} // verus!
