//! Sorts the files of a folder into `<output>/<Category>/<YYYY-MM-DD>/`.
//!
//! The library holds the decisions of the organize-and-copy pipeline:
//! classifying a file, planning its destination, accounting for the bytes of
//! a copy, honouring a stop request between files, and keeping the record
//! from which an interrupted run resumes. Reading directories, moving bytes
//! and drawing progress are the caller's part; each of them hands the library
//! plain values and acts on what it answers.

pub mod copy_engine;
pub mod display;
pub mod error;
pub mod file;
pub mod file_type;
pub mod organized_file;
pub mod paths;
pub mod processor;
pub mod progress;
pub mod save_state;
pub mod session;
pub mod text;
pub mod timestamp;

pub use copy_engine::{ChunkStep, CopyRun, CopyStep, FileCopy, BUFFER_SIZE};
pub use display::{format_size, ProgressState};
pub use error::{OrganizeError, PlanError};
pub use file::CustomFile;
pub use file_type::FileType;
pub use organized_file::OrganizedFile;
pub use paths::Paths;
pub use processor::organize_files;
pub use progress::{ProgressEvent, ProgressThrottle, ProgressUpdate, Throughput};
pub use save_state::{ProcessedFile, SaveState};
pub use session::{
    handle_organization_result, FinalAction, InterruptChoice, ResumedFrom, RunEvent, RunPhase,
};
pub use timestamp::{LocalTime, Timestamp};
