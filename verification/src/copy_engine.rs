//! The copy engine's decisions.
//!
//! Moving bytes is the caller's work. The engine says what to do next and
//! keeps the books: [`FileCopy`] counts the bytes of one file, chunk by
//! chunk, and [`CopyRun`] walks the planned files in order, honours a stop
//! request between two files, and records each file it is done with.

use vstd::prelude::*;
use crate::organized_file::{task_views, OrganizedFile, OrganizedFileView};
use crate::progress::{ProgressEvent, ProgressEventView};
use crate::save_state::{ProcessedFileView, SaveState, SaveStateView};
use crate::timestamp::Timestamp;

verus! {

/// The size of the buffer a file is copied through. Any positive size gives
/// the same copy.
pub const BUFFER_SIZE: usize = 8192;

/// The count of the bytes of one file that is being copied.
#[derive(Debug, Clone, Copy, PartialEq, Eq, Structural)]
pub struct FileCopy {
    /// The bytes written so far.
    pub bytes_copied: u64,
    /// Whether the source has been read to its end.
    pub finished: bool,
}

/// What follows one read from the source.
#[derive(Debug, Clone, Copy, PartialEq, Eq, Structural)]
pub enum ChunkStep {
    /// Write the first `len` bytes of the buffer in full, then report
    /// `progress` bytes as copied.
    Write { len: usize, progress: u64 },
    /// The source is exhausted: report `progress`, the bytes written in all,
    /// one last time and stop.
    Finish { progress: u64 },
}

impl ChunkStep {
    /// The number handed to the progress observer at this step.
    pub open spec fn progress(self) -> u64 {
        match self {
            ChunkStep::Write { progress, .. } => progress,
            ChunkStep::Finish { progress } => progress,
        }
    }
}

impl FileCopy {
    /// The step that a read of `bytes_read` bytes calls for. A read of
    /// nothing ends the copy and reports the bytes written in all; any other
    /// read is written and adds to the count.
    pub open spec fn step_for(self, bytes_read: usize) -> ChunkStep {
        if bytes_read == 0 {
            ChunkStep::Finish { progress: self.bytes_copied }
        } else {
            ChunkStep::Write { len: bytes_read, progress: (self.bytes_copied + bytes_read) as u64 }
        }
    }

    /// The count after a read of `bytes_read` bytes.
    pub open spec fn after_read(self, bytes_read: usize) -> FileCopy {
        if bytes_read == 0 {
            FileCopy { finished: true, ..self }
        } else {
            FileCopy { bytes_copied: (self.bytes_copied + bytes_read) as u64, ..self }
        }
    }

    /// The numbers reported while a copy in this state takes `reads` in turn.
    pub open spec fn reports(self, reads: Seq<usize>) -> Seq<u64>
        decreases reads.len(),
    {
        if reads.len() == 0 {
            Seq::empty()
        } else {
            seq![self.step_for(reads[0]).progress()] + self.after_read(reads[0]).reports(
                reads.drop_first(),
            )
        }
    }

    /// The count at the start of a copy: nothing written.
    pub fn new() -> (r: FileCopy)
        ensures
            r == (FileCopy { bytes_copied: 0, finished: false }),
    {
        FileCopy { bytes_copied: 0, finished: false }
    }

    /// Takes note of a read of `bytes_read` bytes and says what to do with
    /// them. The count must still fit in a `u64`.
    pub fn on_read(&mut self, bytes_read: usize) -> (step: ChunkStep)
        requires
            !old(self).finished,
            old(self).bytes_copied + bytes_read <= u64::MAX,
        ensures
            step == old(self).step_for(bytes_read),
            *final(self) == old(self).after_read(bytes_read),
    {
        if bytes_read == 0 {
            self.finished = true;
            ChunkStep::Finish { progress: self.bytes_copied }
        } else {
            self.bytes_copied = self.bytes_copied + bytes_read as u64;
            ChunkStep::Write { len: bytes_read, progress: self.bytes_copied }
        }
    }
}

/// The sum of the sizes of a sequence of reads.
pub open spec fn total_read(reads: Seq<usize>) -> int
    decreases reads.len(),
{
    if reads.len() == 0 {
        0
    } else {
        reads[0] + total_read(reads.drop_first())
    }
}

/// A sum of read sizes is never negative.
pub proof fn lemma_total_read_nonnegative(reads: Seq<usize>)
    ensures
        total_read(reads) >= 0,
    decreases reads.len(),
{
    if reads.len() > 0 {
        lemma_total_read_nonnegative(reads.drop_first());
    }
}

/// Progress of one file never goes back and ends at the size of the file:
/// while a copy takes the reads of `chunks` and then the empty read that ends
/// it, each number reported is at least the one before, and the last one is
/// the number of bytes that were read and written in all. The one premise is
/// that of [`FileCopy::on_read`]: the count fits in a `u64`.
pub proof fn lemma_progress_is_monotonic(copy: FileCopy, chunks: Seq<usize>)
    requires
        copy.bytes_copied + total_read(chunks) <= u64::MAX,
    ensures
        copy.reports(chunks.push(0)).len() == chunks.len() + 1,
        forall|i: int|
            0 <= i < chunks.len() + 1 ==> copy.bytes_copied <= #[trigger] copy.reports(
                chunks.push(0),
            )[i] <= copy.bytes_copied + total_read(chunks),
        forall|i: int, j: int|
            0 <= i <= j < chunks.len() + 1 ==> copy.reports(chunks.push(0))[i] <= copy.reports(
                chunks.push(0),
            )[j],
        copy.reports(chunks.push(0)).last() == copy.bytes_copied + total_read(chunks),
    decreases chunks.len(),
{
    let reads = chunks.push(0);
    if chunks.len() == 0 {
        assert(reads.drop_first() =~= Seq::<usize>::empty());
        assert(copy.after_read(0).reports(reads.drop_first()) =~= Seq::<u64>::empty());
        assert(copy.reports(reads) =~= seq![copy.bytes_copied]);
    } else {
        let next = copy.after_read(chunks[0]);
        let rest = chunks.drop_first();
        assert(reads[0] == chunks[0]);
        assert(reads.drop_first() =~= rest.push(0));
        lemma_total_read_nonnegative(rest);
        assert(next.bytes_copied == copy.bytes_copied + chunks[0]);
        lemma_progress_is_monotonic(next, rest);
        let tail = next.reports(rest.push(0));
        assert(copy.reports(reads) =~= seq![next.bytes_copied] + tail);
        assert forall|i: int, j: int| 0 <= i <= j < chunks.len() + 1 implies copy.reports(reads)[i]
            <= copy.reports(reads)[j] by {
            if i > 0 {
                assert(copy.reports(reads)[i] == tail[i - 1]);
            }
            if j > 0 {
                assert(copy.reports(reads)[j] == tail[j - 1]);
            }
        }
        assert forall|i: int| 0 <= i < chunks.len() + 1 implies copy.bytes_copied
            <= #[trigger] copy.reports(reads)[i] <= copy.bytes_copied + total_read(chunks) by {
            if i > 0 {
                assert(copy.reports(reads)[i] == tail[i - 1]);
                assert(next.bytes_copied <= tail[i - 1]);
            }
        }
        assert(copy.reports(reads).last() == tail.last());
    }
}

/// What the engine does next.
#[derive(Debug, Clone, Copy, PartialEq, Eq, Structural)]
pub enum CopyStep {
    /// Copy the planned file at this position.
    Copy(usize),
    /// A stop was requested and is honoured: nothing more is copied.
    Interrupted,
    /// Every planned file has been copied.
    Completed,
}

/// The record of a planned file that was copied, its source having been
/// modified last at `modified`.
pub open spec fn record_of(file: OrganizedFileView, modified: Timestamp) -> ProcessedFileView {
    ProcessedFileView {
        path: file.source_path,
        name: file.file_name,
        size: file.size,
        modified: modified,
    }
}

/// The records of the planned files from position `from` up to position `to`,
/// each with the time at the same position of `stamps`.
pub open spec fn records_between(
    files: Seq<OrganizedFileView>,
    stamps: Seq<Timestamp>,
    from: int,
    to: int,
) -> Seq<ProcessedFileView> {
    Seq::new((to - from) as nat, |i: int| record_of(files[from + i], stamps[from + i]))
}

/// Whether a record is that of a planned file: same source path, same name,
/// same size.
pub open spec fn records_file(record: ProcessedFileView, file: OrganizedFileView) -> bool {
    &&& record.path == file.source_path
    &&& record.name == file.file_name
    &&& record.size == file.size
}

/// A byte count as a `u64`: the count itself, or the largest `u64` where it
/// does not fit.
pub open spec fn capped(n: int) -> u64 {
    if n > u64::MAX {
        u64::MAX
    } else {
        n as u64
    }
}

/// One run of the copy engine over the planned files, in order.
#[derive(Debug, Clone, PartialEq, Eq)]
pub struct CopyRun {
    /// The planned files.
    pub files: Vec<OrganizedFile>,
    /// How many of them have been copied: the position of the next one.
    pub copied: usize,
    /// The bytes written for the files copied so far.
    pub bytes_done: u64,
    /// The record of the files copied so far.
    pub save_state: SaveState,
}

/// A [`CopyRun`] as mathematical data.
pub struct CopyRunView {
    pub files: Seq<OrganizedFileView>,
    pub copied: nat,
    pub bytes_done: u64,
    pub save_state: SaveStateView,
}

impl View for CopyRun {
    type V = CopyRunView;

    open spec fn view(&self) -> CopyRunView {
        CopyRunView {
            files: task_views(self.files@),
            copied: self.copied as nat,
            bytes_done: self.bytes_done,
            save_state: self.save_state@,
        }
    }
}

impl CopyRunView {
    /// The state a run starts in.
    pub open spec fn initial(
        files: Seq<OrganizedFileView>,
        input_path: Seq<char>,
        output_path: Seq<char>,
    ) -> CopyRunView {
        CopyRunView {
            files: files,
            copied: 0,
            bytes_done: 0,
            save_state: SaveStateView {
                input_path: input_path,
                output_path: output_path,
                processed_files: Seq::empty(),
            },
        }
    }

    /// The books are in order: the records are those of the files before the
    /// current position, one each and in the same order.
    pub open spec fn wf(self) -> bool {
        &&& self.copied <= self.files.len()
        &&& self.save_state.processed_files.len() == self.copied
        &&& forall|i: int|
            0 <= i < self.copied ==> records_file(
                #[trigger] self.save_state.processed_files[i],
                self.files[i],
            )
    }

    /// What the engine does next in this state. A stop request is looked at
    /// between two files only: never before the first file, so that every run
    /// makes progress, and no more once the last file is done.
    pub open spec fn step(self, stop_requested: bool) -> CopyStep {
        if self.copied >= self.files.len() {
            CopyStep::Completed
        } else if stop_requested && self.copied > 0 {
            CopyStep::Interrupted
        } else {
            CopyStep::Copy(self.copied as usize)
        }
    }

    /// The state after the current file has been copied with `bytes_copied`
    /// bytes written: it is recorded, its bytes count for the run, and the
    /// file after it becomes the current one.
    pub open spec fn after_file(self, modified: Timestamp, bytes_copied: u64) -> CopyRunView {
        CopyRunView {
            files: self.files,
            copied: self.copied + 1,
            bytes_done: capped(self.bytes_done + bytes_copied),
            save_state: self.save_state.with_record(
                record_of(self.files[self.copied as int], modified),
            ),
        }
    }

    /// The report made while the current file is being copied, `bytes_copied`
    /// bytes of it being written: it carries the file's position counted from
    /// one, and the bytes of the run so far.
    pub open spec fn chunk_report(self, bytes_copied: u64) -> ProgressEventView {
        ProgressEventView {
            file_name: self.files[self.copied as int].file_name,
            file_size: self.files[self.copied as int].size,
            bytes_copied: bytes_copied,
            file_index: (self.copied + 1) as usize,
            total_bytes: capped(self.bytes_done + bytes_copied),
        }
    }

    /// The report made when the current file is done with `bytes_copied`
    /// bytes written: it carries that count, the same as the last report of
    /// the copy, and the file's position counted from zero.
    pub open spec fn completion_report(self, bytes_copied: u64) -> ProgressEventView {
        ProgressEventView {
            file_name: self.files[self.copied as int].file_name,
            file_size: self.files[self.copied as int].size,
            bytes_copied: bytes_copied,
            file_index: self.copied as usize,
            total_bytes: capped(self.bytes_done + bytes_copied),
        }
    }

    /// How a run ends that goes on from this state with no copy failing:
    /// with the checkpoint of an interrupted run, or with nothing where every
    /// file was copied. `stops` says for each position whether a stop was
    /// requested when the file there came up, `stamps` when the source of the
    /// file there was modified last, and `counts` how many bytes were written
    /// for it.
    pub open spec fn outcome(
        self,
        stops: Seq<bool>,
        stamps: Seq<Timestamp>,
        counts: Seq<u64>,
    ) -> Option<SaveStateView>
        decreases self.files.len() - self.copied,
    {
        match self.step(stops[self.copied as int]) {
            CopyStep::Completed => None,
            CopyStep::Interrupted => Some(self.save_state),
            CopyStep::Copy(_) => self.after_file(
                stamps[self.copied as int],
                counts[self.copied as int],
            ).outcome(stops, stamps, counts),
        }
    }
}

impl CopyRun {
    /// The books are in order, as [`CopyRunView::wf`] says.
    pub open spec fn wf(&self) -> bool {
        self@.wf()
    }

    /// Starts a run over the planned files, between the two folders of the
    /// run. Nothing is copied and nothing recorded yet.
    pub fn new(organized_files: Vec<OrganizedFile>, input_path: String, output_path: String) -> (run:
        CopyRun)
        ensures
            run.wf(),
            run.files == organized_files,
            run@ == CopyRunView::initial(task_views(organized_files@), input_path@, output_path@),
    {
        let save_state = SaveState::new(input_path, output_path);
        CopyRun { files: organized_files, copied: 0, bytes_done: 0, save_state }
    }

    /// Says what to do next, given whether a stop has been requested.
    pub fn next_step(&self, stop_requested: bool) -> (r: CopyStep)
        ensures
            r == self@.step(stop_requested),
    {
        if self.copied >= self.files.len() {
            CopyStep::Completed
        } else if stop_requested && self.copied > 0 {
            CopyStep::Interrupted
        } else {
            CopyStep::Copy(self.copied)
        }
    }

    /// The file to copy next.
    pub fn current(&self) -> (file: &OrganizedFile)
        requires
            self.copied < self.files.len(),
        ensures
            *file == self.files[self.copied as int],
    {
        &self.files[self.copied]
    }

    /// The report to make after a chunk of the current file has been written.
    pub fn chunk_event(&self, bytes_copied: u64) -> (event: ProgressEvent)
        requires
            self.copied < self.files.len(),
        ensures
            event@ == self@.chunk_report(bytes_copied),
    {
        ProgressEvent {
            file_name: self.files[self.copied].file_name.clone(),
            file_size: self.files[self.copied].size,
            bytes_copied,
            file_index: self.copied + 1,
            total_bytes: self.bytes_done.saturating_add(bytes_copied),
        }
    }

    /// Takes note that the current file has been written in full, with
    /// `bytes_copied` bytes: it is recorded, with the time its source was
    /// last modified, and the run moves on to the next file. The report of
    /// the file's completion comes back. Books that were in order stay so.
    pub fn file_copied(&mut self, modified: Timestamp, bytes_copied: u64) -> (event: ProgressEvent)
        requires
            old(self).copied < old(self).files.len(),
        ensures
            old(self).wf() ==> final(self).wf(),
            final(self).files == old(self).files,
            final(self)@ == old(self)@.after_file(modified, bytes_copied),
            event@ == old(self)@.completion_report(bytes_copied),
    {
        let path = self.files[self.copied].source_path.clone();
        let name = self.files[self.copied].file_name.clone();
        let size = self.files[self.copied].size;
        let event = ProgressEvent {
            file_name: name.clone(),
            file_size: size,
            bytes_copied,
            file_index: self.copied,
            total_bytes: self.bytes_done.saturating_add(bytes_copied),
        };
        self.save_state.add_processed_file(path, name, size, modified);
        self.bytes_done = event.total_bytes;
        self.copied = self.copied + 1;
        proof {
            if old(self).wf() {
                lemma_after_file_keeps_the_books(old(self)@, modified, bytes_copied);
            }
        }
        event
    }

    /// Whether the books are in order: one record for each file before the
    /// current position, in order, with the file's source path, name and
    /// size.
    pub fn is_wf(&self) -> (ok: bool)
        ensures
            ok == self.wf(),
    {
        if self.copied > self.files.len() || self.save_state.processed_files.len() != self.copied {
            return false;
        }
        let mut i: usize = 0;
        while i < self.copied
            invariant
                i <= self.copied <= self.files.len(),
                self.save_state.processed_files.len() == self.copied,
                forall|j: int|
                    0 <= j < i ==> records_file(
                        #[trigger] self@.save_state.processed_files[j],
                        self@.files[j],
                    ),
            decreases self.copied - i,
        {
            let record = &self.save_state.processed_files[i];
            let file = &self.files[i];
            let same = record.path == file.source_path && record.name == file.file_name
                && record.size == file.size;
            assert(same == records_file(
                self@.save_state.processed_files[i as int],
                self@.files[i as int],
            ));
            if !same {
                return false;
            }
            i += 1;
        }
        true
    }

    /// Ends the run and hands out the record of what was copied.
    pub fn into_save_state(self) -> (state: SaveState)
        ensures
            state == self.save_state,
    {
        self.save_state
    }
}

/// Copying a file keeps the books in order.
pub proof fn lemma_after_file_keeps_the_books(
    run: CopyRunView,
    modified: Timestamp,
    bytes_copied: u64,
)
    requires
        run.wf(),
        run.copied < run.files.len(),
    ensures
        run.after_file(modified, bytes_copied).wf(),
{
    let next = run.after_file(modified, bytes_copied);
    assert forall|i: int| 0 <= i < next.copied implies records_file(
        #[trigger] next.save_state.processed_files[i],
        next.files[i],
    ) by {
        if i < run.copied {
            assert(next.save_state.processed_files[i] == run.save_state.processed_files[i]);
        }
    }
}

/// A run that goes on from position `run.copied`, with no stop requested
/// before any file up to position `k` and one requested when the file at `k`
/// comes up, ends interrupted, and its checkpoint holds what it held plus the
/// records of the files from `run.copied` up to `k`.
pub proof fn lemma_outcome_of_stop(
    run: CopyRunView,
    stops: Seq<bool>,
    stamps: Seq<Timestamp>,
    counts: Seq<u64>,
    k: int,
)
    requires
        run.copied <= k < run.files.len(),
        0 < k,
        stops.len() == run.files.len(),
        stamps.len() == run.files.len(),
        counts.len() == run.files.len(),
        forall|j: int| 0 < j < k ==> !stops[j],
        stops[k],
    ensures
        run.outcome(stops, stamps, counts) == Some(
            run.save_state.followed_by(
                records_between(run.files, stamps, run.copied as int, k),
            ),
        ),
    decreases k - run.copied,
{
    if run.copied == k {
        assert(records_between(run.files, stamps, k, k) =~= Seq::empty());
        assert(run.save_state.followed_by(Seq::empty()).processed_files
            =~= run.save_state.processed_files);
    } else {
        let c = run.copied as int;
        let next = run.after_file(stamps[c], counts[c]);
        lemma_outcome_of_stop(next, stops, stamps, counts, k);
        assert(next.save_state.followed_by(
            records_between(run.files, stamps, c + 1, k),
        ).processed_files =~= run.save_state.followed_by(
            records_between(run.files, stamps, c, k),
        ).processed_files);
    }
}

/// A stop leaves exactly the finished files in the checkpoint. A fresh run
/// over `files` during which a stop is requested before the file at position
/// `k` begins, counted from zero and not the first, and not before, ends
/// interrupted; its checkpoint holds the records of the files before `k`, one
/// each and in order, and none of the file at `k` or of any after it.
pub proof fn lemma_stop_keeps_finished_files(
    files: Seq<OrganizedFileView>,
    input_path: Seq<char>,
    output_path: Seq<char>,
    stops: Seq<bool>,
    stamps: Seq<Timestamp>,
    counts: Seq<u64>,
    k: int,
)
    requires
        0 < k < files.len(),
        stops.len() == files.len(),
        stamps.len() == files.len(),
        counts.len() == files.len(),
        forall|j: int| 0 < j < k ==> !stops[j],
        stops[k],
    ensures
        CopyRunView::initial(files, input_path, output_path).outcome(stops, stamps, counts)
            == Some(
            SaveStateView {
                input_path: input_path,
                output_path: output_path,
                processed_files: records_between(files, stamps, 0, k),
            },
        ),
        records_between(files, stamps, 0, k).len() == k,
        forall|i: int|
            0 <= i < k ==> #[trigger] records_between(files, stamps, 0, k)[i] == record_of(
                files[i],
                stamps[i],
            ),
{
    let start = CopyRunView::initial(files, input_path, output_path);
    lemma_outcome_of_stop(start, stops, stamps, counts, k);
    assert(start.save_state.followed_by(records_between(files, stamps, 0, k)).processed_files
        =~= records_between(files, stamps, 0, k));
}

/// A run during which no stop is requested between two files copies every
/// file and leaves no checkpoint; a stop requested before the first file
/// changes nothing of that.
pub proof fn lemma_outcome_without_stop(
    run: CopyRunView,
    stops: Seq<bool>,
    stamps: Seq<Timestamp>,
    counts: Seq<u64>,
)
    requires
        run.copied <= run.files.len(),
        stops.len() == run.files.len(),
        stamps.len() == run.files.len(),
        counts.len() == run.files.len(),
        forall|j: int| 0 < j < run.files.len() ==> !stops[j],
    ensures
        run.outcome(stops, stamps, counts) is None,
    decreases run.files.len() - run.copied,
{
    if run.copied < run.files.len() {
        lemma_outcome_without_stop(
            run.after_file(stamps[run.copied as int], counts[run.copied as int]),
            stops,
            stamps,
            counts,
        );
    }
}

/// In every state whose books are in order, a stop is honoured exactly
/// between two files, and the checkpoint then holds the records of the files
/// copied so far.
pub proof fn lemma_stop_is_honoured_between_files(run: CopyRunView, stop_requested: bool)
    requires
        run.wf(),
    ensures
        run.step(stop_requested) == CopyStep::Interrupted <==> stop_requested && 0 < run.copied
            < run.files.len(),
        run.copied == 0 && run.files.len() > 0 ==> run.step(stop_requested) == CopyStep::Copy(0),
        run.copied == run.files.len() ==> run.step(stop_requested) == CopyStep::Completed,
        run.save_state.processed_files.len() == run.copied,
{
}

} // verus!
