//! The checkpoint: which files a run has already copied.

use vstd::prelude::*;
use vstd::hash_set::StringHashSet;
use crate::file::CustomFile;
use crate::timestamp::Timestamp;

verus! {

/// The record of one file that was copied in full.
#[derive(Debug, Clone, PartialEq, Eq)]
pub struct ProcessedFile {
    pub path: String,
    pub name: String,
    pub size: u64,
    pub modified: Timestamp,
}

/// A [`ProcessedFile`] with its texts as sequences of characters.
pub struct ProcessedFileView {
    pub path: Seq<char>,
    pub name: Seq<char>,
    pub size: u64,
    pub modified: Timestamp,
}

impl View for ProcessedFile {
    type V = ProcessedFileView;

    open spec fn view(&self) -> ProcessedFileView {
        ProcessedFileView {
            path: self.path@,
            name: self.name@,
            size: self.size,
            modified: self.modified,
        }
    }
}

/// The views of a sequence of records.
pub open spec fn record_views(records: Seq<ProcessedFile>) -> Seq<ProcessedFileView> {
    records.map_values(|r: ProcessedFile| r@)
}

/// The progress of a run: the two folders it works between and, in the order
/// in which they were copied, the files it is done with.
#[derive(Debug, Clone, PartialEq, Eq)]
pub struct SaveState {
    pub input_path: String,
    pub output_path: String,
    pub processed_files: Vec<ProcessedFile>,
}

/// A [`SaveState`] as mathematical data.
pub struct SaveStateView {
    pub input_path: Seq<char>,
    pub output_path: Seq<char>,
    pub processed_files: Seq<ProcessedFileView>,
}

impl View for SaveState {
    type V = SaveStateView;

    open spec fn view(&self) -> SaveStateView {
        SaveStateView {
            input_path: self.input_path@,
            output_path: self.output_path@,
            processed_files: record_views(self.processed_files@),
        }
    }
}

/// The source paths that a sequence of records names.
pub open spec fn processed_paths(records: Seq<ProcessedFileView>) -> Set<Seq<char>> {
    Set::new(|p: Seq<char>| exists|i: int| 0 <= i < records.len() && #[trigger] records[i].path == p)
}

/// The files of a scan that are still to be copied: those whose path is not
/// in `done`, in the order of the scan.
pub open spec fn remaining(files: Seq<CustomFile>, done: Set<Seq<char>>) -> Seq<CustomFile> {
    files.filter(|f: CustomFile| !done.contains(f.path@))
}

impl SaveStateView {
    /// This state with one more record at the end.
    pub open spec fn with_record(self, record: ProcessedFileView) -> SaveStateView {
        SaveStateView { processed_files: self.processed_files.push(record), ..self }
    }

    /// This state followed by the records of a later run.
    pub open spec fn followed_by(self, later: Seq<ProcessedFileView>) -> SaveStateView {
        SaveStateView { processed_files: self.processed_files + later, ..self }
    }
}

impl SaveState {
    /// The state at the start of a fresh run: nothing copied yet.
    pub fn new(input_path: String, output_path: String) -> (r: SaveState)
        ensures
            r@ == (SaveStateView {
                input_path: input_path@,
                output_path: output_path@,
                processed_files: Seq::empty(),
            }),
    {
        let r = SaveState { input_path, output_path, processed_files: Vec::new() };
        assert(r@.processed_files =~= Seq::empty());
        r
    }

    /// Records one more file as copied, after those recorded so far.
    pub fn add_processed_file(&mut self, path: String, name: String, size: u64, modified: Timestamp)
        ensures
            final(self)@ == old(self)@.with_record(
                ProcessedFileView { path: path@, name: name@, size: size, modified: modified },
            ),
    {
        self.processed_files.push(ProcessedFile { path, name, size, modified });
        assert(final(self)@.processed_files =~= old(self)@.processed_files.push(
            ProcessedFileView { path: path@, name: name@, size: size, modified: modified },
        ));
    }

    /// Appends the records of a later run to this state. Nothing is dropped
    /// or reordered, and a path recorded on both sides stays on both.
    pub fn extend(&mut self, later: Vec<ProcessedFile>)
        ensures
            final(self)@ == old(self)@.followed_by(record_views(later@)),
    {
        let ghost added = later@;
        let mut later = later;
        self.processed_files.append(&mut later);
        assert(self@.processed_files =~= old(self)@.processed_files + record_views(added));
    }

    /// The set of source paths that this state records.
    pub fn processed_path_set(&self) -> (set: StringHashSet)
        ensures
            set@ == processed_paths(self@.processed_files),
    {
        let mut set = StringHashSet::new();
        let mut i: usize = 0;
        while i < self.processed_files.len()
            invariant
                i <= self.processed_files.len(),
                set@ == processed_paths(self@.processed_files.take(i as int)),
            decreases self.processed_files.len() - i,
        {
            let ghost before = self@.processed_files.take(i as int);
            let ghost after = self@.processed_files.take(i + 1);
            set.insert(self.processed_files[i].path.clone());
            proof {
                assert(after[i as int].path == self.processed_files[i as int].path@);
                assert forall|p: Seq<char>|
                    processed_paths(before).insert(after[i as int].path).contains(p)
                        <==> processed_paths(after).contains(p) by {
                    if processed_paths(after).contains(p) {
                        let j = choose|j: int| 0 <= j < after.len() && #[trigger] after[j].path == p;
                        if j < i {
                            assert(before[j].path == p);
                        }
                    }
                    if processed_paths(before).contains(p) {
                        let j = choose|j: int|
                            0 <= j < before.len() && #[trigger] before[j].path == p;
                        assert(after[j].path == p);
                    }
                }
                assert(set@ =~= processed_paths(after));
            }
            i += 1;
        }
        assert(self@.processed_files.take(i as int) =~= self@.processed_files);
        set
    }

    /// The part of a scan that a resumed run still has to copy: every file of
    /// `all_files` whose path this state does not record, in scan order.
    pub fn remaining_files(&self, all_files: Vec<CustomFile>) -> (r: Vec<CustomFile>)
        ensures
            r@ == remaining(all_files@, processed_paths(self@.processed_files)),
    {
        let done = self.processed_path_set();
        let ghost pending = |f: CustomFile| !done@.contains(f.path@);
        let mut r: Vec<CustomFile> = Vec::new();
        for file in it: all_files
            invariant
                it.seq() == all_files@,
                pending == |f: CustomFile| !done@.contains(f.path@),
                r@ == it.seq().take(it.index() as int).filter(pending),
        {
            proof {
                let upto = it.seq().take(it.index() + 1);
                assert(upto.drop_last() =~= it.seq().take(it.index() as int));
                assert(upto.last() == file);
                reveal(Seq::filter);
            }
            if !done.contains(file.path.as_str()) {
                r.push(file);
            }
        }
        assert(all_files@.take(all_files@.len() as int) =~= all_files@);
        r
    }
}

/// How often a file occurs among those that remain: not at all where its
/// path is recorded, as often as in the scan otherwise.
pub proof fn lemma_remaining_count(files: Seq<CustomFile>, done: Set<Seq<char>>, file: CustomFile)
    ensures
        remaining(files, done).to_multiset().count(file) == if done.contains(file.path@) {
            0
        } else {
            files.to_multiset().count(file)
        },
    decreases files.len(),
{
    broadcast use vstd::multiset::group_multiset_axioms;

    let pending = |f: CustomFile| !done.contains(f.path@);
    if files.len() == 0 {
        reveal(Seq::filter);
        assert(files.filter(pending) =~= Seq::<CustomFile>::empty());
        vstd::seq_lib::to_multiset_contains(files, file);
        vstd::seq_lib::to_multiset_contains(remaining(files, done), file);
    } else {
        let front = files.drop_last();
        let last = files.last();
        assert(files =~= front.push(last));
        lemma_remaining_count(front, done, file);
        front.lemma_filter_push(last, pending);
        vstd::seq_lib::to_multiset_build(front, last);
        if pending(last) {
            vstd::seq_lib::to_multiset_build(front.filter(pending), last);
        }
    }
}

/// Resuming yields the set difference, whatever the order of the scan: two
/// scans that found the same files, in any order, leave the same files to
/// copy, each as often as it was found.
pub proof fn lemma_resume_ignores_scan_order(
    first: Seq<CustomFile>,
    second: Seq<CustomFile>,
    done: Set<Seq<char>>,
)
    requires
        first.to_multiset() == second.to_multiset(),
    ensures
        remaining(first, done).to_multiset() == remaining(second, done).to_multiset(),
{
    assert forall|file: CustomFile|
        remaining(first, done).to_multiset().count(file) == remaining(
            second,
            done,
        ).to_multiset().count(file) by {
        lemma_remaining_count(first, done, file);
        lemma_remaining_count(second, done, file);
    }
    assert(remaining(first, done).to_multiset() =~= remaining(second, done).to_multiset());
}

/// Resuming never offers a recorded file again and never loses another: a
/// file remains if and only if the scan found it and its path is not
/// recorded.
pub proof fn lemma_remaining_is_the_difference(
    files: Seq<CustomFile>,
    done: Set<Seq<char>>,
    file: CustomFile,
)
    ensures
        remaining(files, done).contains(file) <==> files.contains(file) && !done.contains(
            file.path@,
        ),
{
    lemma_remaining_count(files, done, file);
    vstd::seq_lib::to_multiset_contains(files, file);
    vstd::seq_lib::to_multiset_contains(remaining(files, done), file);
}

} // verus!
