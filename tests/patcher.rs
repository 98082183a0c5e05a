use std::sync::mpsc;

use rpatchur::apply::{ApplyRun, ApplyStep, PatcherCache};
use rpatchur::archive::{
    check_downloaded_archive, is_archive_valid, plan_application, ApplyPlan, GrfPatchingMethod,
    IntegrityCheck, PatchError, PatchingOptions,
};
use rpatchur::assets::{get_cache_file_path, get_instance_asset_file_name, get_update_lock_file_path};
use rpatchur::command::{
    cancellation_requested, command_outcome, poll_commands, process_incoming_commands, wait_for_cancellation, CommandPoll,
    InterruptibleFnError, PatcherCommand,
};
use rpatchur::controller::{
    controller_step, manual_patch_status, run_finished_status, stage_error, ControllerAction, ControllerState,
    UpdateStage,
};
use rpatchur::mirror::{liveness_target, MirrorInfo, MirrorSearch, SearchAction};
use rpatchur::pipeline::{filter_patch_list, sort_pending_patches, PendingPatch};
use rpatchur::plist::{parse_patch_list, PatchInfo};
use rpatchur::progress::{DownloadProgress, ProgressWindow};
use rpatchur::session::{UpdateAction, UpdateEvent, UpdateSession};
use rpatchur::status::{PatchingStatus, UiController};

fn info(index: u64, name: &str) -> PatchInfo {
    PatchInfo { index, file_name: name.to_string() }
}

fn pending(index: u64, name: &str) -> PendingPatch {
    PendingPatch { info: info(index, name), local_file_path: format!("/tmp/dl/{}", name) }
}

fn pairs(list: &[PatchInfo]) -> Vec<(u64, String)> {
    list.iter().map(|p| (p.index, p.file_name.clone())).collect()
}

fn indexes(list: &[PatchInfo]) -> Vec<u64> {
    list.iter().map(|p| p.index).collect()
}

fn mirror(name: &str) -> MirrorInfo {
    MirrorInfo {
        name: name.to_string(),
        plist_url: format!("http://{}/plist.txt", name),
        patch_url: format!("http://{}/data/", name),
    }
}

/// Runs the apply engine over `queue`, every patch applying cleanly; returns
/// the cache records written and the statuses sent.
fn apply_all(queue: Vec<PendingPatch>, cached: Option<u64>) -> (Vec<u64>, Vec<PatchingStatus>, Vec<u64>) {
    let mut run = ApplyRun::new(queue, cached);
    let mut records = Vec::new();
    let mut statuses = vec![run.started_status()];
    let mut order = Vec::new();
    loop {
        match run.next_step(CommandPoll::Empty) {
            ApplyStep::Apply(i) => {
                let p = run.current().unwrap();
                assert_eq!(i, records.len());
                order.push(p.info.index);
                let (cache, status) = run.record_applied().unwrap();
                records.push(cache.last_patch_index);
                statuses.push(status);
            }
            ApplyStep::Cancelled => panic!("no cancellation was sent"),
            ApplyStep::Done => break,
        }
    }
    (records, statuses, order)
}

#[test]
fn parse_two_entries() {
    let list = parse_patch_list("1 a.thor\n2 b.thor\n");
    assert_eq!(pairs(&list), vec![(1, "a.thor".to_string()), (2, "b.thor".to_string())]);
}

#[test]
fn parse_skips_blank_comment_and_malformed_lines() {
    let text = "// header\n\n3 c.thor\nnot a line\n4\n5 e.thor extra\n6x f.thor\n  7\tg.thor  \r\n//8 h.thor\n";
    let list = parse_patch_list(text);
    assert_eq!(pairs(&list), vec![(3, "c.thor".to_string()), (7, "g.thor".to_string())]);
}

#[test]
fn parse_keeps_file_order_and_last_line_without_break() {
    let list = parse_patch_list("9 z.thor\r\n2 b.thor");
    assert_eq!(indexes(&list), vec![9, 2]);
    assert_eq!(list[1].file_name, "b.thor");
}

#[test]
fn parse_index_bounds() {
    let list = parse_patch_list("18446744073709551615 max.thor\n18446744073709551616 over.thor\n0 zero.thor\n");
    assert_eq!(pairs(&list), vec![(u64::MAX, "max.thor".to_string()), (0, "zero.thor".to_string())]);
}

#[test]
fn parse_empty_text() {
    assert!(parse_patch_list("").is_empty());
    assert!(parse_patch_list("\n\n").is_empty());
}

#[test]
fn cold_start_two_patches() {
    let mirror_list = parse_patch_list("1 a.thor\n2 b.thor\n");
    let wanted = filter_patch_list(&mirror_list, None);
    assert_eq!(indexes(&wanted), vec![1, 2]);
    // downloads complete in reverse order
    let downloaded = vec![pending(2, "b.thor"), pending(1, "a.thor")];
    let (records, statuses, order) = apply_all(downloaded, None);
    assert_eq!(order, vec![1, 2]);
    assert_eq!(records, vec![1, 2]);
    assert_eq!(
        statuses,
        vec![
            PatchingStatus::InstallationInProgress(0, 2),
            PatchingStatus::InstallationInProgress(1, 2),
            PatchingStatus::InstallationInProgress(2, 2),
        ]
    );
    assert_eq!(run_finished_status(Ok(())), PatchingStatus::Ready);
}

#[test]
fn cold_start_statuses_through_session() {
    let mut session = UpdateSession::new();
    let list = parse_patch_list("1 a.thor\n2 b.thor\n");
    let wanted = match session.step(UpdateEvent::MirrorFound(list, None)) {
        UpdateAction::Download(v) => v,
        other => panic!("unexpected {:?}", other),
    };
    let mut statuses = Vec::new();
    let mut progress = DownloadProgress::new(wanted.len(), 0);
    statuses.push(progress.started_status());
    let _ = progress.on_chunk(100, 10);
    progress.on_archive_done();
    let _ = progress.on_chunk(200, 10);
    progress.on_archive_done();
    let run = match session.step(UpdateEvent::Downloaded(vec![pending(2, "b.thor"), pending(1, "a.thor")])) {
        UpdateAction::Apply(run) => run,
        other => panic!("unexpected {:?}", other),
    };
    let mut run = run;
    statuses.push(run.started_status());
    let mut records = Vec::new();
    while let ApplyStep::Apply(_) = run.next_step(CommandPoll::Empty) {
        let (cache, status) = run.record_applied().unwrap();
        records.push(cache.last_patch_index);
        statuses.push(status);
    }
    match session.step(UpdateEvent::Applied) {
        UpdateAction::Finish(status) => statuses.push(status),
        other => panic!("unexpected {:?}", other),
    }
    assert_eq!(records, vec![1, 2]);
    assert_eq!(
        statuses,
        vec![
            PatchingStatus::DownloadInProgress(0, 2, 0),
            PatchingStatus::InstallationInProgress(0, 2),
            PatchingStatus::InstallationInProgress(1, 2),
            PatchingStatus::InstallationInProgress(2, 2),
            PatchingStatus::Ready,
        ]
    );
}

#[test]
fn incremental_update() {
    let mirror_list = vec![info(4, "d"), info(5, "e"), info(6, "f"), info(7, "g")];
    let wanted = filter_patch_list(&mirror_list, Some(5));
    assert_eq!(indexes(&wanted), vec![6, 7]);
    let downloaded = vec![pending(7, "g"), pending(6, "f")];
    let (records, _, order) = apply_all(downloaded, Some(5));
    assert_eq!(order, vec![6, 7]);
    assert_eq!(*records.last().unwrap(), 7);
}

#[test]
fn cache_ahead_of_mirror() {
    let mirror_list: Vec<PatchInfo> = (1..=10).map(|i| info(i, &format!("p{}.thor", i))).collect();
    let wanted = filter_patch_list(&mirror_list, Some(99));
    assert_eq!(indexes(&wanted), (1..=10).collect::<Vec<u64>>());
    let downloaded: Vec<PendingPatch> = wanted.iter().rev().map(|p| pending(p.index, &p.file_name)).collect();
    let (records, _, order) = apply_all(downloaded, Some(99));
    assert_eq!(order, (1..=10).collect::<Vec<u64>>());
    assert_eq!(*records.last().unwrap(), 10);
}

#[test]
fn up_to_date_installation_downloads_nothing() {
    let mirror_list = vec![info(1, "a"), info(2, "b"), info(3, "c")];
    assert!(filter_patch_list(&mirror_list, Some(3)).is_empty());
}

#[test]
fn second_run_is_noop() {
    let mirror_list = vec![info(3, "c"), info(1, "a"), info(2, "b")];
    let wanted = filter_patch_list(&mirror_list, None);
    let queue: Vec<PendingPatch> = wanted.iter().map(|p| pending(p.index, &p.file_name)).collect();
    let (records, _, _) = apply_all(queue, None);
    let last = *records.last().unwrap();
    assert_eq!(last, 3);
    assert!(filter_patch_list(&mirror_list, Some(last)).is_empty());
}

#[test]
fn filter_with_missing_cache_keeps_everything() {
    let mirror_list = vec![info(2, "b"), info(1, "a")];
    assert_eq!(indexes(&filter_patch_list(&mirror_list, None)), vec![2, 1]);
    assert!(filter_patch_list(&Vec::new(), Some(1)).is_empty());
}

#[test]
fn sort_orders_by_index() {
    let sorted = sort_pending_patches(vec![pending(5, "e"), pending(1, "a"), pending(3, "c"), pending(2, "b")]);
    let order: Vec<u64> = sorted.iter().map(|p| p.info.index).collect();
    assert_eq!(order, vec![1, 2, 3, 5]);
    assert_eq!(sorted[3].local_file_path, "/tmp/dl/e");
    assert!(sort_pending_patches(Vec::new()).is_empty());
}

#[test]
fn cancel_before_apply_keeps_cache() {
    let mut run = ApplyRun::new(vec![pending(1, "a"), pending(2, "b")], Some(0));
    assert_eq!(run.next_step(CommandPoll::Empty), ApplyStep::Apply(0));
    let (cache, _) = run.record_applied().unwrap();
    assert_eq!(cache, PatcherCache { last_patch_index: 1 });
    assert_eq!(run.next_step(CommandPoll::Received(PatcherCommand::CancelUpdate)), ApplyStep::Cancelled);
    assert_eq!(run.next_step(CommandPoll::Received(PatcherCommand::Quit)), ApplyStep::Cancelled);
    assert_eq!(run.next_step(CommandPoll::Disconnected), ApplyStep::Cancelled);
    assert_eq!(run.next_step(CommandPoll::Received(PatcherCommand::StartUpdate)), ApplyStep::Apply(1));
    assert_eq!(run_finished_status(Err(InterruptibleFnError::Interrupted)), PatchingStatus::Ready);
}

#[test]
fn apply_failure_names_the_patch() {
    let run = ApplyRun::new(vec![pending(4, "d.thor")], None);
    let err = run.failure("bad entry");
    assert_eq!(err.message(), "Failed to apply patch 'd.thor': bad entry.");
    assert_eq!(
        run_finished_status(Err(err)),
        PatchingStatus::Error("Failed to apply patch 'd.thor': bad entry.".to_string())
    );
}

#[test]
fn finished_run_has_nothing_left() {
    let mut run = ApplyRun::new(Vec::new(), Some(3));
    assert_eq!(run.len(), 0);
    assert_eq!(run.next_step(CommandPoll::Received(PatcherCommand::CancelUpdate)), ApplyStep::Done);
    assert!(run.current().is_none());
    assert!(run.record_applied().is_none());
}

#[test]
fn empty_mirror_list_has_no_mirror() {
    let mut search = MirrorSearch::new(&Vec::new(), &None);
    assert_eq!(search.next_action(false), SearchAction::NoMirrorAvailable);
    let mut search = MirrorSearch::new(&Vec::new(), &Some("main".to_string()));
    assert_eq!(search.next_action(false), SearchAction::NoMirrorAvailable);
}

#[test]
fn preferred_mirror_is_probed_first_and_once() {
    let servers = vec![mirror("a"), mirror("b"), mirror("c")];
    let mut search = MirrorSearch::new(&servers, &Some("b".to_string()));
    assert!(!search.needs_poll());
    assert_eq!(search.next_action(true), SearchAction::Probe(1));
    assert!(search.needs_poll());
    assert_eq!(search.next_action(false), SearchAction::Probe(0));
    assert_eq!(search.next_action(false), SearchAction::Probe(2));
    assert_eq!(search.next_action(false), SearchAction::NoMirrorAvailable);
}

#[test]
fn unknown_preferred_mirror_falls_back_to_list_order() {
    let servers = vec![mirror("a"), mirror("b")];
    let mut search = MirrorSearch::new(&servers, &Some("zzz".to_string()));
    assert_eq!(search.next_action(false), SearchAction::Probe(0));
    assert_eq!(search.next_action(false), SearchAction::Probe(1));
    assert_eq!(search.next_action(false), SearchAction::NoMirrorAvailable);
}

#[test]
fn cancel_during_mirror_search() {
    let servers = vec![mirror("a"), mirror("b")];
    let mut search = MirrorSearch::new(&servers, &None);
    assert_eq!(search.next_action(false), SearchAction::Probe(0));
    assert_eq!(search.next_action(true), SearchAction::Interrupted);
}

#[test]
fn single_entry_list_is_checked_for_liveness() {
    let list = parse_patch_list("1 only.thor\n");
    assert_eq!(liveness_target(&list), Some("only.thor".to_string()));
    assert_eq!(liveness_target(&Vec::new()), None);
}

#[test]
fn integrity_failure_is_corrupt() {
    let name = "b.thor".to_string();
    assert_eq!(
        check_downloaded_archive(true, &name, IntegrityCheck::Invalid),
        Err(PatchError::Corrupt(name.clone()))
    );
    assert_eq!(
        check_downloaded_archive(true, &name, IntegrityCheck::RecordUnreadable),
        Err(PatchError::Corrupt(name.clone()))
    );
    assert_eq!(
        check_downloaded_archive(true, &name, IntegrityCheck::ArchiveUnreadable),
        Err(PatchError::DownloadFailed(name.clone()))
    );
    assert_eq!(check_downloaded_archive(true, &name, IntegrityCheck::NoRecord), Ok(()));
    assert_eq!(check_downloaded_archive(true, &name, IntegrityCheck::Valid), Ok(()));
    assert_eq!(check_downloaded_archive(false, &name, IntegrityCheck::Invalid), Ok(()));
    assert_eq!(PatchError::Corrupt(name).message(), "Archive 'b.thor' is corrupt");
}

#[test]
fn archive_validity() {
    assert_eq!(is_archive_valid(IntegrityCheck::Valid), Ok(true));
    assert_eq!(is_archive_valid(IntegrityCheck::NoRecord), Ok(true));
    assert_eq!(is_archive_valid(IntegrityCheck::Invalid), Ok(false));
    assert_eq!(is_archive_valid(IntegrityCheck::RecordUnreadable), Err(IntegrityCheck::RecordUnreadable));
}

#[test]
fn error_messages() {
    assert_eq!(PatchError::AlreadyRunning.message(), "Another instance of the patcher is already running");
    assert_eq!(
        PatchError::NoMirrorAvailable.message(),
        "None of the patch servers are available at the moment"
    );
    assert_eq!(PatchError::DownloadFailed("x".to_string()).message(), "Failed to download file 'x'");
    assert_eq!(PatchError::ApplyFailed("y".to_string()).message(), "Failed to apply patch 'y'");
    assert_eq!(PatchError::Interrupted.into_interruptible(), InterruptibleFnError::Interrupted);
    assert_eq!(
        PatchError::AlreadyRunning.into_interruptible(),
        InterruptibleFnError::Error("Another instance of the patcher is already running".to_string())
    );
    assert_eq!(InterruptibleFnError::Interrupted.message(), "Operation was interrupted");
    assert_eq!(InterruptibleFnError::Error("boom".to_string()).message(), "boom");
}

#[test]
fn application_plan() {
    let opts = PatchingOptions { check_integrity: true, in_place: true, create_grf: false };
    let default = "data.grf".to_string();
    assert_eq!(
        plan_application(true, &String::new(), &opts, &default),
        ApplyPlan::Grf { method: GrfPatchingMethod::InPlace, create_if_missing: false, target: "data.grf".to_string() }
    );
    let opts = PatchingOptions { check_integrity: true, in_place: false, create_grf: true };
    assert_eq!(
        plan_application(true, &"rdata.grf".to_string(), &opts, &default),
        ApplyPlan::Grf { method: GrfPatchingMethod::OutOfPlace, create_if_missing: true, target: "rdata.grf".to_string() }
    );
    assert_eq!(plan_application(false, &"rdata.grf".to_string(), &opts, &default), ApplyPlan::Disk);
}

#[test]
fn controller_table() {
    assert_eq!(controller_step(ControllerState::Idle, Some(PatcherCommand::StartUpdate)), (ControllerState::Updating, ControllerAction::RunUpdate));
    assert_eq!(controller_step(ControllerState::Idle, Some(PatcherCommand::ManualPatch("p.thor".to_string()))), (ControllerState::Applying, ControllerAction::RunManualPatch("p.thor".to_string())));
    assert_eq!(controller_step(ControllerState::Idle, Some(PatcherCommand::ResetCache)), (ControllerState::Idle, ControllerAction::DeleteCache));
    assert_eq!(controller_step(ControllerState::Idle, Some(PatcherCommand::CancelUpdate)), (ControllerState::Idle, ControllerAction::Ignore));
    assert_eq!(controller_step(ControllerState::Idle, Some(PatcherCommand::Quit)), (ControllerState::Terminated, ControllerAction::Terminate));
    assert_eq!(controller_step(ControllerState::Idle, None), (ControllerState::Terminated, ControllerAction::Terminate));
    assert_eq!(controller_step(ControllerState::Updating, Some(PatcherCommand::StartUpdate)), (ControllerState::Updating, ControllerAction::Ignore));
    assert_eq!(controller_step(ControllerState::Updating, Some(PatcherCommand::ResetCache)), (ControllerState::Updating, ControllerAction::Ignore));
    assert_eq!(controller_step(ControllerState::Updating, Some(PatcherCommand::CancelUpdate)), (ControllerState::Idle, ControllerAction::Cancel));
    assert_eq!(controller_step(ControllerState::Applying, Some(PatcherCommand::CancelUpdate)), (ControllerState::Idle, ControllerAction::Cancel));
    assert_eq!(controller_step(ControllerState::Applying, Some(PatcherCommand::ManualPatch("p.thor".to_string()))), (ControllerState::Applying, ControllerAction::Ignore));
    assert_eq!(controller_step(ControllerState::Updating, Some(PatcherCommand::Quit)), (ControllerState::Terminated, ControllerAction::CancelAndTerminate));
    assert_eq!(controller_step(ControllerState::Applying, None), (ControllerState::Terminated, ControllerAction::CancelAndTerminate));
}

#[test]
fn command_polls() {
    assert_eq!(command_outcome(CommandPoll::Empty), Ok(()));
    assert_eq!(command_outcome(CommandPoll::Received(PatcherCommand::ResetCache)), Ok(()));
    assert_eq!(command_outcome(CommandPoll::Received(PatcherCommand::CancelUpdate)), Err(InterruptibleFnError::Interrupted));
    assert_eq!(command_outcome(CommandPoll::Disconnected), Err(InterruptibleFnError::Interrupted));
}

#[test]
fn channel_commands() {
    let (tx, mut rx) = mpsc::channel();
    assert_eq!(process_incoming_commands(&mut rx), Ok(()));
    tx.send(PatcherCommand::StartUpdate).unwrap();
    assert_eq!(process_incoming_commands(&mut rx), Ok(()));
    tx.send(PatcherCommand::CancelUpdate).unwrap();
    assert_eq!(process_incoming_commands(&mut rx), Err(InterruptibleFnError::Interrupted));
    tx.send(PatcherCommand::ResetCache).unwrap();
    assert_eq!(wait_for_cancellation(&mut rx), None);
    tx.send(PatcherCommand::StartUpdate).unwrap();
    assert_eq!(wait_for_cancellation(&mut rx), None);
    tx.send(PatcherCommand::Quit).unwrap();
    assert_eq!(wait_for_cancellation(&mut rx), Some(InterruptibleFnError::Interrupted));
    tx.send(PatcherCommand::CancelUpdate).unwrap();
    assert_eq!(wait_for_cancellation(&mut rx), Some(InterruptibleFnError::Interrupted));
    drop(tx);
    assert_eq!(process_incoming_commands(&mut rx), Err(InterruptibleFnError::Interrupted));
    assert_eq!(wait_for_cancellation(&mut rx), Some(InterruptibleFnError::Interrupted));
}

#[test]
fn commands_that_end_a_running_task() {
    assert!(cancellation_requested(&Some(PatcherCommand::CancelUpdate)));
    assert!(cancellation_requested(&Some(PatcherCommand::Quit)));
    assert!(cancellation_requested(&None));
    assert!(!cancellation_requested(&Some(PatcherCommand::StartUpdate)));
    assert!(!cancellation_requested(&Some(PatcherCommand::ResetCache)));
    assert!(!cancellation_requested(&Some(PatcherCommand::ManualPatch("x.thor".to_string()))));
}

#[test]
fn ui_controller_sends_statuses() {
    let (tx, rx) = mpsc::channel();
    let mut ui = UiController::new(tx);
    ui.set_patching_in_progress(true);
    ui.dispatch_patching_status(PatchingStatus::InstallationInProgress(1, 2));
    ui.set_patching_in_progress(false);
    let got: Vec<PatchingStatus> = rx.try_iter().collect();
    assert_eq!(
        got,
        vec![
            PatchingStatus::DownloadInProgress(0, 0, 0),
            PatchingStatus::InstallationInProgress(1, 2),
            PatchingStatus::Ready,
        ]
    );
}

#[test]
fn progress_window_reports_speed_each_second() {
    let mut w = ProgressWindow::new(1_000);
    assert_eq!(w.observe(1_500, 4_000), None);
    assert_eq!(w, ProgressWindow { start_ms: 1_000, bytes: 4_000 });
    assert_eq!(w.observe(3_000, 6_000), Some(5_000));
    assert_eq!(w, ProgressWindow { start_ms: 3_000, bytes: 0 });
    assert_eq!(w.observe(2_000, 10), None);
    assert_eq!(w.observe(4_000, u64::MAX), Some(u64::MAX));
}

#[test]
fn asset_file_names() {
    assert_eq!(get_cache_file_path("rpatchur"), "rpatchur.dat");
    assert_eq!(get_update_lock_file_path("rpatchur"), "rpatchur.lock");
    assert_eq!(get_instance_asset_file_name("patcher.old", "dat"), "patcher.dat");
}

#[test]
fn cache_record_bytes() {
    let c = PatcherCache { last_patch_index: 0x0102_0304_0506_0708 };
    assert_eq!(c.to_bytes(), vec![8, 7, 6, 5, 4, 3, 2, 1]);
    assert_eq!(PatcherCache::from_bytes(&c.to_bytes()), Some(c));
    assert_eq!(PatcherCache::from_bytes(&[1, 2, 3]), None);
    assert_eq!(PatcherCache::from_bytes(&[]), None);
    assert_eq!(PatcherCache::from_bytes(&[2, 0, 0, 0, 0, 0, 0, 0]), Some(PatcherCache { last_patch_index: 2 }));
}

#[test]
fn channel_poll_results() {
    let (tx, mut rx) = mpsc::channel();
    assert_eq!(poll_commands(&mut rx), CommandPoll::Empty);
    tx.send(PatcherCommand::Quit).unwrap();
    assert_eq!(poll_commands(&mut rx), CommandPoll::Received(PatcherCommand::Quit));
    drop(tx);
    assert_eq!(poll_commands(&mut rx), CommandPoll::Disconnected);
}

#[test]
fn stage_errors_are_prefixed() {
    assert_eq!(
        stage_error(UpdateStage::Download, InterruptibleFnError::Error("Archive 'b.thor' is corrupt".to_string())),
        InterruptibleFnError::Error("Failed to download patches: Archive 'b.thor' is corrupt".to_string())
    );
    assert_eq!(
        stage_error(UpdateStage::Apply, InterruptibleFnError::Error("x".to_string())),
        InterruptibleFnError::Error("Failed to apply patches: x".to_string())
    );
    assert_eq!(
        stage_error(UpdateStage::MirrorSearch, InterruptibleFnError::Error("none".to_string())),
        InterruptibleFnError::Error("none".to_string())
    );
    assert_eq!(stage_error(UpdateStage::Download, InterruptibleFnError::Interrupted), InterruptibleFnError::Interrupted);
}

#[test]
fn entries_with_equal_index_are_equal() {
    assert_eq!(info(3, "a.thor"), info(3, "b.thor"));
    assert_ne!(info(3, "a.thor"), info(4, "a.thor"));
}

#[test]
fn manual_patch_statuses() {
    assert_eq!(
        manual_patch_status("x.thor".to_string(), Ok(())),
        PatchingStatus::ManualPatchApplied("x.thor".to_string())
    );
    assert_eq!(
        manual_patch_status("x.thor".to_string(), Err("broken".to_string())),
        PatchingStatus::Error("broken".to_string())
    );
}

#[test]
fn download_progress_counts_complete_archives() {
    let mut p = DownloadProgress::new(2, 0);
    assert_eq!(p.started_status(), PatchingStatus::DownloadInProgress(0, 2, 0));
    assert_eq!(p.on_chunk(400, 1_000), None);
    p.on_archive_done();
    assert_eq!(p.on_chunk(2_000, 3_000), Some(PatchingStatus::DownloadInProgress(1, 2, 2_000)));
    p.on_archive_done();
    p.on_archive_done();
    assert_eq!(p.done(), 2);
    assert_eq!(p.total(), 2);
    assert_eq!(p.on_chunk(3_000, 500), Some(PatchingStatus::DownloadInProgress(2, 2, 500)));
}

#[test]
fn session_cold_start_downloads_then_applies() {
    let mut session = UpdateSession::new();
    let list = parse_patch_list("1 a.thor\n2 b.thor\n");
    let to_download = match session.step(UpdateEvent::MirrorFound(list, None)) {
        UpdateAction::Download(v) => v,
        other => panic!("unexpected {:?}", other),
    };
    assert_eq!(indexes(&to_download), vec![1, 2]);
    let run = match session.step(UpdateEvent::Downloaded(vec![pending(2, "b.thor"), pending(1, "a.thor")])) {
        UpdateAction::Apply(run) => run,
        other => panic!("unexpected {:?}", other),
    };
    assert_eq!(run.len(), 2);
    assert_eq!(run.current().unwrap().info.index, 1);
    match session.step(UpdateEvent::Applied) {
        UpdateAction::Finish(status) => assert_eq!(status, PatchingStatus::Ready),
        other => panic!("unexpected {:?}", other),
    }
}

#[test]
fn session_up_to_date_finishes_without_download() {
    let mut session = UpdateSession::new();
    let list = vec![info(1, "a"), info(2, "b")];
    match session.step(UpdateEvent::MirrorFound(list, Some(2))) {
        UpdateAction::Finish(status) => assert_eq!(status, PatchingStatus::Ready),
        other => panic!("unexpected {:?}", other),
    }
}

#[test]
fn session_reports_stage_failures() {
    let mut session = UpdateSession::new();
    match session.step(UpdateEvent::StageFailed(PatchError::NoMirrorAvailable.into_interruptible())) {
        UpdateAction::Finish(status) => assert_eq!(
            status,
            PatchingStatus::Error("None of the patch servers are available at the moment".to_string())
        ),
        other => panic!("unexpected {:?}", other),
    }
    let mut session = UpdateSession::new();
    let _ = session.step(UpdateEvent::MirrorFound(vec![info(1, "a.thor")], None));
    match session.step(UpdateEvent::StageFailed(PatchError::Corrupt("a.thor".to_string()).into_interruptible())) {
        UpdateAction::Finish(status) => assert_eq!(
            status,
            PatchingStatus::Error("Failed to download patches: Archive 'a.thor' is corrupt".to_string())
        ),
        other => panic!("unexpected {:?}", other),
    }
    let mut session = UpdateSession::new();
    let _ = session.step(UpdateEvent::MirrorFound(vec![info(1, "a.thor")], None));
    match session.step(UpdateEvent::StageFailed(InterruptibleFnError::Interrupted)) {
        UpdateAction::Finish(status) => assert_eq!(status, PatchingStatus::Ready),
        other => panic!("unexpected {:?}", other),
    }
}

#[test]
fn session_rejects_events_out_of_order() {
    let mut session = UpdateSession::new();
    match session.step(UpdateEvent::Applied) {
        UpdateAction::Finish(status) => {
            assert_eq!(status, PatchingStatus::Error("update events came out of order".to_string()))
        }
        other => panic!("unexpected {:?}", other),
    }
}
