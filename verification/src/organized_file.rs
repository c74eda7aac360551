//! A planned transfer.

use vstd::prelude::*;

verus! {

/// One file with its destination fully resolved, ready to be copied. The
/// target directory has to exist before the file is written; making it is
/// the caller's work.
#[derive(Debug, Clone, PartialEq, Eq)]
pub struct OrganizedFile {
    pub source_path: String,
    /// The directory the file goes into.
    pub target_dir: String,
    /// The path the file is written to, inside `target_dir`.
    pub target_path: String,
    pub file_name: String,
    pub size: u64,
}

/// An [`OrganizedFile`] with its texts as sequences of characters.
pub struct OrganizedFileView {
    pub source_path: Seq<char>,
    pub target_dir: Seq<char>,
    pub target_path: Seq<char>,
    pub file_name: Seq<char>,
    pub size: u64,
}

impl View for OrganizedFile {
    type V = OrganizedFileView;

    open spec fn view(&self) -> OrganizedFileView {
        OrganizedFileView {
            source_path: self.source_path@,
            target_dir: self.target_dir@,
            target_path: self.target_path@,
            file_name: self.file_name@,
            size: self.size,
        }
    }
}

/// The views of a sequence of planned transfers.
pub open spec fn task_views(tasks: Seq<OrganizedFile>) -> Seq<OrganizedFileView> {
    tasks.map_values(|t: OrganizedFile| t@)
}

} // verus!
