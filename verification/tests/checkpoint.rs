use file_organizer::session::{interrupt_choice, merge_states, save_failed};
use file_organizer::{
    handle_organization_result, CustomFile, FinalAction, InterruptChoice, OrganizeError,
    ProcessedFile, ResumedFrom, RunEvent, RunPhase, SaveState, Timestamp,
};

fn record(path: &str, size: u64) -> ProcessedFile {
    ProcessedFile {
        path: path.to_string(),
        name: path.rsplit('/').next().unwrap().to_string(),
        size,
        modified: Timestamp::new(size as i64, 7),
    }
}

fn state_with(paths: &[&str]) -> SaveState {
    let mut state = SaveState::new("/in".to_string(), "/out".to_string());
    for (i, p) in paths.iter().enumerate() {
        let r = record(p, i as u64);
        state.add_processed_file(r.path, r.name, r.size, r.modified);
    }
    state
}

fn scan(paths: &[&str]) -> Vec<CustomFile> {
    paths.iter().map(|p| CustomFile::from_path(p, 1, Err(String::new())).unwrap()).collect()
}

fn paths_of(files: &[CustomFile]) -> Vec<String> {
    files.iter().map(|f| f.path.clone()).collect()
}

#[test]
fn fresh_state_is_empty() {
    let state = SaveState::new("/in".to_string(), "/out".to_string());
    assert_eq!(state.input_path, "/in");
    assert_eq!(state.output_path, "/out");
    assert!(state.processed_files.is_empty());
}

#[test]
fn records_are_appended_in_order() {
    let mut state = SaveState::new("/in".to_string(), "/out".to_string());
    state.add_processed_file("/in/a.jpg".to_string(), "a.jpg".to_string(), 10, Timestamp::new(1, 2));
    state.add_processed_file("/in/b.jpg".to_string(), "b.jpg".to_string(), 20, Timestamp::new(3, 4));
    assert_eq!(
        state.processed_files,
        vec![
            ProcessedFile {
                path: "/in/a.jpg".to_string(),
                name: "a.jpg".to_string(),
                size: 10,
                modified: Timestamp { secs: 1, nanos: 2 },
            },
            ProcessedFile {
                path: "/in/b.jpg".to_string(),
                name: "b.jpg".to_string(),
                size: 20,
                modified: Timestamp { secs: 3, nanos: 4 },
            },
        ]
    );
    assert_eq!(state.input_path, "/in");
    assert_eq!(state.output_path, "/out");
}

#[test]
fn extend_concatenates_and_keeps_duplicates() {
    let mut state = state_with(&["/in/a.jpg", "/in/b.jpg"]);
    state.extend(vec![record("/in/b.jpg", 9), record("/in/c.jpg", 8)]);
    let paths: Vec<&str> = state.processed_files.iter().map(|r| r.path.as_str()).collect();
    assert_eq!(paths, vec!["/in/a.jpg", "/in/b.jpg", "/in/b.jpg", "/in/c.jpg"]);
    assert_eq!(state.processed_files[2].size, 9);
    state.extend(Vec::new());
    assert_eq!(state.processed_files.len(), 4);
}

#[test]
fn resume_skips_exactly_the_recorded_paths() {
    let state = state_with(&["/in/a.jpg", "/in/c.jpg", "/gone/z.jpg"]);
    let rest = state.remaining_files(scan(&["/in/a.jpg", "/in/b.jpg", "/in/c.jpg", "/in/d.jpg"]));
    assert_eq!(paths_of(&rest), vec!["/in/b.jpg", "/in/d.jpg"]);
    let all = state_with(&[]).remaining_files(scan(&["/in/a.jpg", "/in/b.jpg"]));
    assert_eq!(paths_of(&all), vec!["/in/a.jpg", "/in/b.jpg"]);
    let none = state.remaining_files(scan(&["/in/c.jpg", "/in/a.jpg"]));
    assert!(none.is_empty());
    assert!(state.remaining_files(Vec::new()).is_empty());
}

#[test]
fn resume_does_not_depend_on_scan_order() {
    let state = state_with(&["/in/b.jpg", "/in/e.jpg", "/in/b.jpg"]);
    let forward = ["/in/a.jpg", "/in/b.jpg", "/in/c.jpg", "/in/d.jpg", "/in/e.jpg"];
    let shuffled = ["/in/d.jpg", "/in/e.jpg", "/in/a.jpg", "/in/c.jpg", "/in/b.jpg"];
    let mut one = paths_of(&state.remaining_files(scan(&forward)));
    let mut two = paths_of(&state.remaining_files(scan(&shuffled)));
    assert_eq!(two, vec!["/in/d.jpg", "/in/a.jpg", "/in/c.jpg"]);
    one.sort();
    two.sort();
    assert_eq!(one, two);
    assert_eq!(one, vec!["/in/a.jpg", "/in/c.jpg", "/in/d.jpg"]);
}

#[test]
fn recorded_paths_are_compared_as_text() {
    let state = state_with(&["/in/a.jpg"]);
    let rest = state.remaining_files(scan(&["/in/A.jpg", "/in/./a.jpg", "/in/a.jpg"]));
    assert_eq!(paths_of(&rest), vec!["/in/A.jpg", "/in/./a.jpg"]);
    let set = state.processed_path_set();
    assert!(set.contains("/in/a.jpg"));
    assert!(!set.contains("/in/b.jpg"));
    assert_eq!(set.len(), 1);
}

fn resumed(loaded: Result<SaveState, String>) -> Option<ResumedFrom> {
    Some(ResumedFrom { path: "/saves/x.forg".to_string(), loaded })
}

#[test]
fn interrupted_fresh_run_asks_the_user() {
    let state = state_with(&["/in/a.jpg"]);
    assert_eq!(
        handle_organization_result(Ok(Some(state.clone())), None),
        FinalAction::AskToSave { state }
    );
}

#[test]
fn interrupted_resumed_run_updates_its_checkpoint() {
    let earlier = state_with(&["/in/a.jpg", "/in/b.jpg"]);
    let mut now = SaveState::new("/in/sub".to_string(), "/out/Picture".to_string());
    now.add_processed_file("/in/c.jpg".to_string(), "c.jpg".to_string(), 3, Timestamp::new(9, 9));
    let action = handle_organization_result(Ok(Some(now.clone())), resumed(Ok(earlier.clone())));
    let mut expected = earlier.clone();
    expected.processed_files.extend(now.processed_files.clone());
    assert_eq!(
        action,
        FinalAction::UpdateCheckpoint { path: "/saves/x.forg".to_string(), state: expected.clone() }
    );
    assert_eq!(expected.input_path, "/in");
    assert_eq!(expected.processed_files.len(), 3);
    assert_eq!(merge_states(earlier, now), expected);
}

#[test]
fn checkpoint_that_does_not_load_fails_the_update() {
    let now = state_with(&["/in/c.jpg"]);
    let action = handle_organization_result(
        Ok(Some(now)),
        resumed(Err("expected value at line 1 column 1".to_string())),
    );
    assert_eq!(
        action,
        FinalAction::Failed {
            error: OrganizeError::FileCopyFailed(
                "Failed to update save file: expected value at line 1 column 1".to_string()
            ),
            cleanup_output: false,
        }
    );
}

#[test]
fn completed_run_removes_its_checkpoint() {
    assert_eq!(
        handle_organization_result(Ok(None), resumed(Ok(state_with(&["/in/a.jpg"])))),
        FinalAction::Finished { remove_checkpoint: Some("/saves/x.forg".to_string()) }
    );
    assert_eq!(
        handle_organization_result(Ok(None), resumed(Err("gone".to_string()))),
        FinalAction::Finished { remove_checkpoint: Some("/saves/x.forg".to_string()) }
    );
    assert_eq!(
        handle_organization_result(Ok(None), None),
        FinalAction::Finished { remove_checkpoint: None }
    );
}

#[test]
fn failed_run_cleans_up_unless_it_had_resumed() {
    let error = OrganizeError::FileCopyFailed("disk full".to_string());
    assert_eq!(
        handle_organization_result(Err(error.clone()), None),
        FinalAction::Failed { error: error.clone(), cleanup_output: true }
    );
    assert_eq!(
        handle_organization_result(Err(error.clone()), resumed(Ok(state_with(&[])))),
        FinalAction::Failed { error: error.clone(), cleanup_output: false }
    );
    assert_eq!(
        handle_organization_result(Err(error.clone()), resumed(Err("gone".to_string()))),
        FinalAction::Failed { error, cleanup_output: false }
    );
}

#[test]
fn only_the_first_menu_entry_saves() {
    assert_eq!(interrupt_choice(0), InterruptChoice::Save);
    assert_eq!(interrupt_choice(1), InterruptChoice::Discard);
    assert_eq!(interrupt_choice(usize::MAX), InterruptChoice::Discard);
}

#[test]
fn checkpoint_write_failures() {
    assert_eq!(
        save_failed(true, "read-only file system"),
        OrganizeError::FileCopyFailed(
            "Failed to update save file: read-only file system".to_string()
        )
    );
    assert_eq!(
        save_failed(false, "no space"),
        OrganizeError::FileCopyFailed("Failed to save progress: no space".to_string())
    );
    assert_eq!(
        save_failed(false, "no space").message(),
        "Failed to copy file: Failed to save progress: no space"
    );
}

#[test]
fn phases_follow_the_course_of_a_run() {
    assert_eq!(RunPhase::Scanning.advance(RunEvent::Scanned), Some(RunPhase::Planning));
    assert_eq!(RunPhase::Planning.advance(RunEvent::Planned), Some(RunPhase::Copying));
    assert_eq!(RunPhase::Copying.advance(RunEvent::AllCopied), Some(RunPhase::Completed));
    assert_eq!(RunPhase::Copying.advance(RunEvent::Stopped), Some(RunPhase::Interrupted));
    assert_eq!(RunPhase::Interrupted.advance(RunEvent::Saved), Some(RunPhase::CheckpointSaved));
    assert_eq!(RunPhase::Interrupted.advance(RunEvent::Abandoned), Some(RunPhase::Discarded));
}

#[test]
fn events_out_of_place_move_nothing() {
    let events = [
        RunEvent::Scanned,
        RunEvent::Planned,
        RunEvent::AllCopied,
        RunEvent::Stopped,
        RunEvent::Saved,
        RunEvent::Abandoned,
    ];
    for phase in [RunPhase::Completed, RunPhase::CheckpointSaved, RunPhase::Discarded] {
        for event in events {
            assert_eq!(phase.advance(event), None);
        }
    }
    assert_eq!(RunPhase::Scanning.advance(RunEvent::Planned), None);
    assert_eq!(RunPhase::Scanning.advance(RunEvent::Stopped), None);
    assert_eq!(RunPhase::Planning.advance(RunEvent::Scanned), None);
    assert_eq!(RunPhase::Copying.advance(RunEvent::Saved), None);
    assert_eq!(RunPhase::Interrupted.advance(RunEvent::AllCopied), None);
}
