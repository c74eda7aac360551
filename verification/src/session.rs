//! The course of a run and what is done when it ends.
//!
//! A run scans, plans and copies, and ends completed or interrupted. An
//! interrupted run is then either saved as a checkpoint or discarded. What is
//! done at the end depends on how the run ended and on whether it had resumed
//! from a checkpoint; the decision is made here and carried out by the
//! caller.

use vstd::prelude::*;
use vstd::string::StringExecFns;
use crate::error::{OrganizeError, OrganizeErrorView};
use crate::save_state::{SaveState, SaveStateView};

verus! {

/// Where a run stands.
#[derive(Debug, Clone, Copy, PartialEq, Eq, Structural)]
pub enum RunPhase {
    Scanning,
    Planning,
    Copying,
    Completed,
    Interrupted,
    CheckpointSaved,
    Discarded,
}

/// What moves a run on.
#[derive(Debug, Clone, Copy, PartialEq, Eq, Structural)]
pub enum RunEvent {
    /// The input folder has been scanned.
    Scanned,
    /// Every file has its destination.
    Planned,
    /// The last file has been copied.
    AllCopied,
    /// A stop request has been honoured between two files.
    Stopped,
    /// The user had the progress saved.
    Saved,
    /// The user gave the output up.
    Abandoned,
}

impl RunPhase {
    /// The phase that follows this one on `event`, if the event belongs to
    /// this phase.
    pub open spec fn after(self, event: RunEvent) -> Option<RunPhase> {
        match (self, event) {
            (RunPhase::Scanning, RunEvent::Scanned) => Some(RunPhase::Planning),
            (RunPhase::Planning, RunEvent::Planned) => Some(RunPhase::Copying),
            (RunPhase::Copying, RunEvent::AllCopied) => Some(RunPhase::Completed),
            (RunPhase::Copying, RunEvent::Stopped) => Some(RunPhase::Interrupted),
            (RunPhase::Interrupted, RunEvent::Saved) => Some(RunPhase::CheckpointSaved),
            (RunPhase::Interrupted, RunEvent::Abandoned) => Some(RunPhase::Discarded),
            _ => None,
        }
    }

    /// A phase that nothing follows.
    pub open spec fn is_final(self) -> bool {
        self == RunPhase::Completed || self == RunPhase::CheckpointSaved || self
            == RunPhase::Discarded
    }

    /// Moves the run on by one event; `None` where the event does not belong
    /// to the phase the run is in.
    pub fn advance(self, event: RunEvent) -> (r: Option<RunPhase>)
        ensures
            r == self.after(event),
    {
        match (self, event) {
            (RunPhase::Scanning, RunEvent::Scanned) => Some(RunPhase::Planning),
            (RunPhase::Planning, RunEvent::Planned) => Some(RunPhase::Copying),
            (RunPhase::Copying, RunEvent::AllCopied) => Some(RunPhase::Completed),
            (RunPhase::Copying, RunEvent::Stopped) => Some(RunPhase::Interrupted),
            (RunPhase::Interrupted, RunEvent::Saved) => Some(RunPhase::CheckpointSaved),
            (RunPhase::Interrupted, RunEvent::Abandoned) => Some(RunPhase::Discarded),
            _ => None,
        }
    }
}

/// No event moves a run out of a final phase, and an interrupted run is
/// never saved or discarded without the user's say: it leaves `Interrupted`
/// on `Saved` or `Abandoned` only.
pub proof fn lemma_phases(phase: RunPhase, event: RunEvent)
    ensures
        phase.is_final() ==> phase.after(event) is None,
        phase.after(event) == Some(RunPhase::CheckpointSaved) ==> phase == RunPhase::Interrupted
            && event == RunEvent::Saved,
        phase.after(event) == Some(RunPhase::Discarded) ==> phase == RunPhase::Interrupted && event
            == RunEvent::Abandoned,
{
}

/// What the caller does once the copying is over.
#[derive(Debug, Clone, PartialEq, Eq)]
pub enum FinalAction {
    /// The run had resumed from the checkpoint at `path` and was interrupted
    /// again: write `state` there.
    UpdateCheckpoint { path: String, state: SaveState },
    /// A fresh run was interrupted: ask whether `state` is to be saved or the
    /// output given up.
    AskToSave { state: SaveState },
    /// Every file is copied: remove the checkpoint the run had resumed from,
    /// if there is one.
    Finished { remove_checkpoint: Option<String> },
    /// The run failed: report `error`, and remove the output folder where
    /// `cleanup_output` says so.
    Failed { error: OrganizeError, cleanup_output: bool },
}

/// A [`FinalAction`] as mathematical data.
pub enum FinalActionView {
    UpdateCheckpoint { path: Seq<char>, state: SaveStateView },
    AskToSave { state: SaveStateView },
    Finished { remove_checkpoint: Option<Seq<char>> },
    Failed { error: OrganizeErrorView, cleanup_output: bool },
}

impl View for FinalAction {
    type V = FinalActionView;

    open spec fn view(&self) -> FinalActionView {
        match self {
            FinalAction::UpdateCheckpoint { path, state } => FinalActionView::UpdateCheckpoint {
                path: path@,
                state: state@,
            },
            FinalAction::AskToSave { state } => FinalActionView::AskToSave { state: state@ },
            FinalAction::Finished { remove_checkpoint } => FinalActionView::Finished {
                remove_checkpoint: match remove_checkpoint {
                    Some(p) => Some(p@),
                    None => None,
                },
            },
            FinalAction::Failed { error, cleanup_output } => FinalActionView::Failed {
                error: error@,
                cleanup_output: *cleanup_output,
            },
        }
    }
}

/// How the copying ended, as mathematical data: with every file copied
/// (`Ok(None)`), interrupted with the record of what was copied
/// (`Ok(Some(..))`), or failed.
pub open spec fn result_view(result: Result<Option<SaveState>, OrganizeError>) -> Result<
    Option<SaveStateView>,
    OrganizeErrorView,
> {
    match result {
        Ok(Some(state)) => Ok(Some(state@)),
        Ok(None) => Ok(None),
        Err(e) => Err(e@),
    }
}

/// The checkpoint that a run resumed from: the path of its file, and what
/// loading the file gave at the end of the run, the state it holds or the
/// reason why it could not be loaded.
#[derive(Debug, PartialEq, Eq)]
pub struct ResumedFrom {
    pub path: String,
    pub loaded: Result<SaveState, String>,
}

/// A [`ResumedFrom`] as mathematical data.
pub struct ResumedFromView {
    pub path: Seq<char>,
    pub loaded: Result<SaveStateView, Seq<char>>,
}

impl View for ResumedFrom {
    type V = ResumedFromView;

    open spec fn view(&self) -> ResumedFromView {
        ResumedFromView {
            path: self.path@,
            loaded: match self.loaded {
                Ok(state) => Ok(state@),
                Err(reason) => Err(reason@),
            },
        }
    }
}

/// The view of the checkpoint that a run resumed from, if it did.
pub open spec fn resumed_view(resumed: Option<ResumedFrom>) -> Option<ResumedFromView> {
    match resumed {
        Some(r) => Some(r@),
        None => None,
    }
}

/// The error for a checkpoint that could not be loaded or written back
/// (`updating`), or could not be saved for the first time; `detail` says why.
pub open spec fn save_failure(updating: bool, detail: Seq<char>) -> OrganizeErrorView {
    if updating {
        OrganizeErrorView::FileCopyFailed("Failed to update save file: "@ + detail)
    } else {
        OrganizeErrorView::FileCopyFailed("Failed to save progress: "@ + detail)
    }
}

/// What is done at the end of a run.
///
/// * Interrupted after resuming from a checkpoint that loads: the checkpoint
///   is written again, with the records of this run after those it held.
/// * Interrupted after resuming from a checkpoint that does not load: the
///   run fails with the reason. The checkpoint file is not touched and the
///   output folder stays.
/// * Interrupted otherwise: the user is asked.
/// * Completed: the checkpoint that the run had resumed from goes.
/// * Failed: the error is reported. The output folder is removed with it,
///   unless the run had resumed from a checkpoint: the folder then holds the
///   files of the earlier run.
pub open spec fn final_action(
    result: Result<Option<SaveStateView>, OrganizeErrorView>,
    resumed: Option<ResumedFromView>,
) -> FinalActionView {
    match result {
        Ok(Some(state)) => match resumed {
            Some(from) => match from.loaded {
                Ok(earlier) => FinalActionView::UpdateCheckpoint {
                    path: from.path,
                    state: earlier.followed_by(state.processed_files),
                },
                Err(reason) => FinalActionView::Failed {
                    error: save_failure(true, reason),
                    cleanup_output: false,
                },
            },
            None => FinalActionView::AskToSave { state: state },
        },
        Ok(None) => FinalActionView::Finished {
            remove_checkpoint: match resumed {
                Some(from) => Some(from.path),
                None => None,
            },
        },
        Err(e) => FinalActionView::Failed { error: e, cleanup_output: resumed is None },
    }
}

/// Joins the checkpoint that a run had resumed from with the state of the
/// run: the earlier records come first, those of the run follow, and the
/// folders are those of the earlier checkpoint.
pub fn merge_states(earlier: SaveState, state: SaveState) -> (r: SaveState)
    ensures
        r@ == earlier@.followed_by(state@.processed_files),
{
    let mut all = earlier;
    all.extend(state.processed_files);
    all
}

/// Builds the error for a checkpoint that could not be loaded or written.
pub fn save_failed(updating: bool, detail: &str) -> (r: OrganizeError)
    ensures
        r@ == save_failure(updating, detail@),
{
    let mut msg = if updating {
        "Failed to update save file: ".to_string()
    } else {
        "Failed to save progress: ".to_string()
    };
    msg.append(detail);
    OrganizeError::FileCopyFailed(msg)
}

/// Decides what is done at the end of a run: `result` is how the copying
/// ended, and `resumed` the checkpoint that the run had resumed from, if
/// any, with what loading it gave.
pub fn handle_organization_result(
    result: Result<Option<SaveState>, OrganizeError>,
    resumed: Option<ResumedFrom>,
) -> (r: FinalAction)
    ensures
        r@ == final_action(result_view(result), resumed_view(resumed)),
{
    match result {
        Ok(Some(state)) => match resumed {
            Some(from) => match from.loaded {
                Ok(earlier) => FinalAction::UpdateCheckpoint {
                    path: from.path,
                    state: merge_states(earlier, state),
                },
                Err(reason) => FinalAction::Failed {
                    error: save_failed(true, reason.as_str()),
                    cleanup_output: false,
                },
            },
            None => FinalAction::AskToSave { state },
        },
        Ok(None) => FinalAction::Finished {
            remove_checkpoint: match resumed {
                Some(from) => Some(from.path),
                None => None,
            },
        },
        Err(error) => {
            let cleanup_output = resumed.is_none();
            FinalAction::Failed { error, cleanup_output }
        },
    }
}

/// What the user decided for an interrupted run.
#[derive(Debug, Clone, Copy, PartialEq, Eq, Structural)]
pub enum InterruptChoice {
    /// Keep the output and save the progress.
    Save,
    /// Give the output up.
    Discard,
}

/// The decision that stands behind the entry of the menu that was selected:
/// the first entry saves, any other discards.
pub fn interrupt_choice(selection: usize) -> (r: InterruptChoice)
    ensures
        r == if selection == 0 {
            InterruptChoice::Save
        } else {
            InterruptChoice::Discard
        },
{
    if selection == 0 {
        InterruptChoice::Save
    } else {
        InterruptChoice::Discard
    }
}

} // verus!
