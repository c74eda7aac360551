//! What can go wrong, and how each failure reads to the user.

use vstd::prelude::*;
use vstd::string::StringExecFns;

verus! {

/// A failure of the pipeline as a whole.
#[derive(Debug, Clone, PartialEq, Eq)]
pub enum OrganizeError {
    NoPathSelected,
    InvalidFolderName,
    NoParentDirectory,
    DirectoryCreationFailed(String),
    FileCopyFailed(String),
    UserInputError(String),
    InvalidOutputPath(String),
}

/// An [`OrganizeError`] with its detail as a sequence of characters.
pub enum OrganizeErrorView {
    NoPathSelected,
    InvalidFolderName,
    NoParentDirectory,
    DirectoryCreationFailed(Seq<char>),
    FileCopyFailed(Seq<char>),
    UserInputError(Seq<char>),
    InvalidOutputPath(Seq<char>),
}

impl View for OrganizeError {
    type V = OrganizeErrorView;

    open spec fn view(&self) -> OrganizeErrorView {
        match self {
            OrganizeError::NoPathSelected => OrganizeErrorView::NoPathSelected,
            OrganizeError::InvalidFolderName => OrganizeErrorView::InvalidFolderName,
            OrganizeError::NoParentDirectory => OrganizeErrorView::NoParentDirectory,
            OrganizeError::DirectoryCreationFailed(d) => OrganizeErrorView::DirectoryCreationFailed(
                d@,
            ),
            OrganizeError::FileCopyFailed(d) => OrganizeErrorView::FileCopyFailed(d@),
            OrganizeError::UserInputError(d) => OrganizeErrorView::UserInputError(d@),
            OrganizeError::InvalidOutputPath(d) => OrganizeErrorView::InvalidOutputPath(d@),
        }
    }
}

impl OrganizeErrorView {
    /// The text shown for this error.
    pub open spec fn message(self) -> Seq<char> {
        match self {
            OrganizeErrorView::NoPathSelected => "No folder selected"@,
            OrganizeErrorView::InvalidFolderName => "Invalid folder name"@,
            OrganizeErrorView::NoParentDirectory => "Could not determine parent directory"@,
            OrganizeErrorView::DirectoryCreationFailed(d) => "Failed to create directory: "@ + d,
            OrganizeErrorView::FileCopyFailed(d) => "Failed to copy file: "@ + d,
            OrganizeErrorView::UserInputError(d) => "User input error: "@ + d,
            OrganizeErrorView::InvalidOutputPath(d) => "Invalid output path: "@ + d,
        }
    }
}

/// `prefix` followed by `detail`.
fn prefixed(prefix: &str, detail: &str) -> (r: String)
    ensures
        r@ == prefix@ + detail@,
{
    let mut out = prefix.to_string();
    out.append(detail);
    out
}

impl OrganizeError {
    /// The text shown for this error.
    pub fn message(&self) -> (r: String)
        ensures
            r@ == self@.message(),
    {
        match self {
            OrganizeError::NoPathSelected => "No folder selected".to_string(),
            OrganizeError::InvalidFolderName => "Invalid folder name".to_string(),
            OrganizeError::NoParentDirectory => "Could not determine parent directory".to_string(),
            OrganizeError::DirectoryCreationFailed(d) => prefixed(
                "Failed to create directory: ",
                d.as_str(),
            ),
            OrganizeError::FileCopyFailed(d) => prefixed("Failed to copy file: ", d.as_str()),
            OrganizeError::UserInputError(d) => prefixed("User input error: ", d.as_str()),
            OrganizeError::InvalidOutputPath(d) => prefixed("Invalid output path: ", d.as_str()),
        }
    }
}

/// Why one file could not be planned.
#[derive(Debug, Clone, PartialEq, Eq)]
pub enum PlanError {
    /// The file carries no creation time.
    MissingCreationTime,
    /// The destination directory could not be made; the detail says why.
    DirectoryCreateFailed(String),
}

/// A [`PlanError`] with its detail as a sequence of characters.
pub enum PlanErrorView {
    MissingCreationTime,
    DirectoryCreateFailed(Seq<char>),
}

impl View for PlanError {
    type V = PlanErrorView;

    open spec fn view(&self) -> PlanErrorView {
        match self {
            PlanError::MissingCreationTime => PlanErrorView::MissingCreationTime,
            PlanError::DirectoryCreateFailed(d) => PlanErrorView::DirectoryCreateFailed(d@),
        }
    }
}

/// The text of the error for a file whose day of creation is not to be
/// had; `reason` says why.
pub open spec fn creation_time_error(path: Seq<char>, reason: Seq<char>) -> Seq<char> {
    "Failed to get creation time for '"@ + path + "': "@ + reason
}

/// The reason given where a planning failure comes without one.
pub open spec fn no_creation_time() -> Seq<char> {
    "creation time not available"@
}

/// Writes the error for a file whose day of creation is not to be had.
pub fn creation_time_message(path: &str, reason: &str) -> (r: String)
    ensures
        r@ == creation_time_error(path@, reason@),
{
    let mut msg = prefixed("Failed to get creation time for '", path);
    msg.append("': ");
    msg.append(reason);
    msg
}

/// How a planning failure for the file at `path` reads at the level of the
/// whole run.
pub open spec fn plan_error_as_organize_error(e: PlanErrorView, path: Seq<char>) -> OrganizeErrorView {
    match e {
        PlanErrorView::MissingCreationTime => OrganizeErrorView::UserInputError(
            creation_time_error(path, no_creation_time()),
        ),
        PlanErrorView::DirectoryCreateFailed(d) => OrganizeErrorView::DirectoryCreationFailed(d),
    }
}

impl OrganizeError {
    /// Turns the failure to plan the file at `path` into an error of the run:
    /// a missing creation time is reported as a user-input error that names
    /// the file, a directory failure keeps its detail.
    pub fn from_plan_error(e: PlanError, path: &str) -> (r: OrganizeError)
        ensures
            r@ == plan_error_as_organize_error(e@, path@),
    {
        match e {
            PlanError::MissingCreationTime => OrganizeError::UserInputError(
                creation_time_message(path, "creation time not available"),
            ),
            PlanError::DirectoryCreateFailed(d) => OrganizeError::DirectoryCreationFailed(d),
        }
    }
}

} // verus!
