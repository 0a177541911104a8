use chord::deps::DepStatus;
use chord::install::InstallGuard;
use chord::downloads::DownloadRequest;
use chord::error::{AppError, ErrorCategory};
use chord::state::{
    restored_status, DownloadStatus, DownloadTask, InnerState, PermitChange, PlaylistMetadata,
    SubTask,
};

fn request(url: &str) -> DownloadRequest {
    DownloadRequest {
        url: url.to_string(),
        media_type: "audio".to_string(),
        format: "mp3".to_string(),
        quality: "best".to_string(),
        output_path: "/music".to_string(),
        is_playlist: false,
        existing_id: None,
    }
}

fn enqueue(s: &mut InnerState, req: &DownloadRequest, id: &str) -> Result<DownloadTask, AppError> {
    s.admit_download(req, id, vec!["-f".to_string()], "/music".to_string(), format!("/ws/{}", id), 1000)
}

fn task(id: &str, status: DownloadStatus) -> DownloadTask {
    DownloadTask {
        id: id.to_string(),
        url: format!("https://example.com/{}", id),
        title: format!("Title {}", id),
        media_type: "audio".to_string(),
        format: "m4a".to_string(),
        quality: "best".to_string(),
        output_path: "/out".to_string(),
        is_playlist: true,
        timestamp: 42,
        args: vec![],
        temp_path: format!("/ws/{}", id),
        pid: None,
        current_file: None,
        status,
        children: vec![],
    }
}

fn downloading(progress: i64, meta: Option<(usize, usize, &str)>) -> DownloadStatus {
    DownloadStatus::Downloading {
        progress,
        speed: "1MiB/s".to_string(),
        eta: "00:01".to_string(),
        playlist: meta.map(|(c, t, title)| PlaylistMetadata {
            current_index: c,
            total_items: t,
            item_title: title.to_string(),
        }),
    }
}

#[test]
fn admitted_task_is_queued_and_runnable() {
    let mut s = InnerState::new();
    let t = enqueue(&mut s, &request("https://youtu.be/a"), "t1").unwrap();
    assert!(matches!(t.status, DownloadStatus::Queued));
    assert_eq!(t.title, "Fetching metadata...");
    assert_eq!(t.timestamp, 1000);
    assert_eq!(t.temp_path, "/ws/t1");
    assert!(s.is_task_runnable("t1"));
    assert!(!s.is_task_runnable("t2"));
    assert_eq!(s.get_all_tasks().len(), 1);
}

#[test]
fn second_admission_of_same_task_is_refused() {
    let mut s = InnerState::new();
    enqueue(&mut s, &request("https://youtu.be/a"), "t1").unwrap();
    match enqueue(&mut s, &request("https://youtu.be/b"), "t1") {
        Err(AppError::Internal(m)) => assert_eq!(m, "Task 'Fetching metadata...' is already active or queued."),
        other => panic!("unexpected {:?}", other),
    }
    match s.check_restartable("t1") {
        Err(AppError::Internal(m)) => assert_eq!(m, "Task is already queued."),
        other => panic!("unexpected {:?}", other),
    }
}

#[test]
fn duplicate_url_is_refused() {
    let mut s = InnerState::new();
    enqueue(&mut s, &request("https://youtu.be/a"), "t1").unwrap();
    match enqueue(&mut s, &request("https://youtu.be/a"), "t2") {
        Err(AppError::Internal(m)) => assert_eq!(m, "This URL is already in the queue."),
        other => panic!("unexpected {:?}", other),
    }
    assert_eq!(s.get_all_tasks().len(), 1);
}

#[test]
fn url_is_free_again_after_failure() {
    let mut s = InnerState::new();
    enqueue(&mut s, &request("https://youtu.be/a"), "t1").unwrap();
    let failed = DownloadStatus::Failed {
        reason: "x".to_string(),
        progress: 0,
        category: ErrorCategory::Generic,
    };
    assert!(s.update_task_status("t1", failed).is_some());
    assert!(enqueue(&mut s, &request("https://youtu.be/a"), "t2").is_ok());
}

#[test]
fn active_task_cannot_restart() {
    let mut s = InnerState::new();
    s.put_task(task("t1", downloading(500, None)));
    match s.check_restartable("t1") {
        Err(AppError::Internal(m)) => assert_eq!(m, "Task 'Title t1' is already active. Please wait."),
        other => panic!("unexpected {:?}", other),
    }
    assert!(s.check_restartable("unknown").is_ok());
}

#[test]
fn resume_keeps_title_timestamp_and_items() {
    let mut s = InnerState::new();
    let mut t = task("t1", DownloadStatus::Paused { progress: 3000 });
    t.children.push(SubTask {
        id: "t1-item-1".to_string(),
        title: "First".to_string(),
        status: DownloadStatus::Paused { progress: 3000 },
    });
    s.put_task(t);
    let req = s.resume_request("t1").unwrap();
    assert_eq!(req.url, "https://example.com/t1");
    assert_eq!(req.format, "m4a");
    assert!(req.is_playlist);
    assert_eq!(req.existing_id.as_deref(), Some("t1"));
    assert!(s.check_restartable("t1").is_ok());
    let again = s
        .admit_download(&req, "t1", vec![], req.output_path.clone(), "/ws/t1".to_string(), 9999)
        .unwrap();
    assert_eq!(again.title, "Title t1");
    assert_eq!(again.timestamp, 42);
    assert_eq!(again.children.len(), 1);
    assert!(matches!(again.status, DownloadStatus::Queued));
    match s.resume_request("missing") {
        Err(AppError::Internal(m)) => assert_eq!(m, "Task not found"),
        other => panic!("unexpected {:?}", other.map(|r| r.url)),
    }
}

#[test]
fn pause_then_failure_is_not_reported() {
    let mut s = InnerState::new();
    s.put_task(task("t1", downloading(2500, None)));
    let (pid, paused) = s.pause_status("t1");
    assert_eq!(pid, None);
    assert!(matches!(paused, DownloadStatus::Paused { progress: 2500 }));
    assert!(s.update_task_status("t1", paused).is_some());
    assert!(s.failure_status_for("t1", &AppError::YtDlpNetworkError).is_none());
    // A running download is still paused afterwards: volatile reports are refused.
    assert!(s.update_task_status("t1", downloading(2600, None)).is_none());
    assert!(matches!(s.get_task("t1").unwrap().status, DownloadStatus::Paused { progress: 2500 }));
}

#[test]
fn failure_keeps_progress_and_category() {
    let mut s = InnerState::new();
    s.put_task(task("t1", downloading(2500, Some((2, 4, "x")))));
    match s.failure_status_for("t1", &AppError::YtDlpRateLimited) {
        Some(DownloadStatus::Failed { reason, progress, category }) => {
            assert_eq!(reason, "YouTube rate limited. Try again in an hour.");
            assert_eq!(progress, 3125);
            assert_eq!(category, ErrorCategory::RateLimited);
        }
        other => panic!("unexpected {:?}", other),
    }
    assert!(s.failure_status_for("none", &AppError::Cancelled).is_none());
    assert!(matches!(s.pause_status("none").1, DownloadStatus::Paused { progress: 0 }));
}

#[test]
fn terminal_status_removes_task() {
    let mut s = InnerState::new();
    s.put_task(task("t1", downloading(100, None)));
    let title = s.update_task_status("t1", DownloadStatus::Completed { filename: "f.mp3".to_string() });
    assert_eq!(title.as_deref(), Some("Title t1"));
    assert!(s.get_task("t1").is_none());
    assert!(s.update_task_status("t1", DownloadStatus::Queued).is_none());
}

#[test]
fn cancel_targets_and_runtime_info() {
    let mut s = InnerState::new();
    s.put_task(task("t1", downloading(100, None)));
    s.set_task_runtime_info("t1", Some(77), Some("/ws/t1/a.part".to_string()));
    s.set_task_runtime_info("t1", None, None);
    let t = s.get_task("t1").unwrap();
    assert_eq!(t.pid, Some(77));
    assert_eq!(t.current_file.as_deref(), Some("/ws/t1/a.part"));
    let (pid, ws) = s.cancel_targets("t1").unwrap();
    assert_eq!(pid, Some(77));
    assert_eq!(ws, "/ws/t1");
    assert!(s.cancel_targets("t2").is_none());
    assert!(s.update_task_status("t1", DownloadStatus::Cancelled).is_some());
    assert!(s.get_task("t1").is_none());
    assert!(s.failure_status_for("t1", &AppError::YtDlpNetworkError).is_none());
}

#[test]
fn stopping_status_reaches_unfinished_children() {
    let mut s = InnerState::new();
    let mut t = task("p", downloading(0, Some((2, 3, "B"))));
    t.children.push(SubTask {
        id: "p-item-1".to_string(),
        title: "A".to_string(),
        status: DownloadStatus::Completed { filename: "A".to_string() },
    });
    t.children.push(SubTask { id: "p-item-2".to_string(), title: "B".to_string(), status: downloading(10, None) });
    s.put_task(t);
    s.update_task_status("p", DownloadStatus::Paused { progress: 4000 });
    let t = s.get_task("p").unwrap();
    assert!(matches!(t.children[0].status, DownloadStatus::Completed { .. }));
    assert!(matches!(t.children[1].status, DownloadStatus::Paused { progress: 4000 }));
}

#[test]
fn playlist_progress_updates_children() {
    let mut s = InnerState::new();
    s.put_task(task("p", DownloadStatus::Queued));
    s.update_task_status("p", downloading(0, Some((1, 3, "One"))));
    s.update_task_status("p", downloading(5000, Some((3, 3, "Three"))));
    let t = s.get_task("p").unwrap();
    assert_eq!(t.children.len(), 2);
    assert_eq!(t.children[0].id, "p-item-1");
    assert!(matches!(t.children[0].status, DownloadStatus::Completed { ref filename } if filename == "One"));
    assert_eq!(t.children[1].id, "p-item-3");
    assert_eq!(t.children[1].title, "Three");
    assert!(matches!(t.children[1].status, DownloadStatus::Downloading { progress: 5000, .. }));
}

#[test]
fn title_update_keeps_status() {
    let mut s = InnerState::new();
    s.put_task(task("t1", downloading(100, None)));
    let st = s.update_task_title("t1", "Real Title").unwrap();
    assert!(matches!(st, DownloadStatus::Downloading { progress: 100, .. }));
    assert_eq!(s.get_task("t1").unwrap().title, "Real Title");
    assert!(s.update_task_title("zz", "x").is_none());
}

#[test]
fn transition_rule() {
    let completed = DownloadStatus::Completed { filename: "f".to_string() };
    let paused = DownloadStatus::Paused { progress: 10 };
    let merging = DownloadStatus::Merging { playlist: None };
    let finalizing = DownloadStatus::Finalizing { playlist: None };
    let interrupted = DownloadStatus::Interrupted { progress: 5 };
    assert!(!completed.can_be_overwritten_by(&DownloadStatus::Queued));
    assert!(!DownloadStatus::Cancelled.can_be_overwritten_by(&paused));
    assert!(!paused.can_be_overwritten_by(&downloading(1, None)));
    assert!(!paused.can_be_overwritten_by(&merging));
    assert!(!paused.can_be_overwritten_by(&DownloadStatus::FetchingMetadata));
    assert!(paused.can_be_overwritten_by(&DownloadStatus::Queued));
    assert!(!merging.can_be_overwritten_by(&downloading(1, None)));
    assert!(merging.can_be_overwritten_by(&downloading(1, Some((2, 3, "next")))));
    assert!(merging.can_be_overwritten_by(&DownloadStatus::FetchingMetadata));
    assert!(!finalizing.can_be_overwritten_by(&downloading(1, None)));
    assert!(!finalizing.can_be_overwritten_by(&merging));
    assert!(finalizing.can_be_overwritten_by(&completed));
    assert!(!downloading(1, None).can_be_overwritten_by(&DownloadStatus::FetchingMetadata));
    assert!(!interrupted.can_be_overwritten_by(&downloading(1, None)));
    assert!(interrupted.can_be_overwritten_by(&DownloadStatus::Queued));
    assert!(downloading(1, None).can_be_overwritten_by(&DownloadStatus::Cancelled));
}

#[test]
fn status_predicates() {
    assert!(DownloadStatus::Cancelled.is_terminal());
    assert!(DownloadStatus::Completed { filename: String::new() }.is_terminal());
    assert!(!DownloadStatus::Paused { progress: 0 }.is_terminal());
    assert!(!downloading(0, None).is_persisted());
    assert!(DownloadStatus::Queued.is_persisted());
    let m = downloading(0, Some((1, 2, "Item")));
    assert_eq!(m.item_title().as_deref(), Some("Item"));
    assert_eq!(m.playlist_meta().unwrap().total_items, 2);
    assert!(DownloadStatus::Queued.item_title().is_none());
}

#[test]
fn global_progress() {
    assert_eq!(downloading(5000, Some((2, 4, "x"))).calculate_global_progress(), 3750);
    assert_eq!(downloading(5000, None).calculate_global_progress(), 5000);
    assert_eq!(downloading(5000, Some((2, 0, "x"))).calculate_global_progress(), 5000);
    assert_eq!(
        DownloadStatus::Merging {
            playlist: Some(PlaylistMetadata { current_index: 1, total_items: 3, item_title: String::new() })
        }
        .calculate_global_progress(),
        3333
    );
    assert_eq!(DownloadStatus::Finalizing { playlist: None }.calculate_global_progress(), 10000);
    assert_eq!(DownloadStatus::Completed { filename: String::new() }.calculate_global_progress(), 10000);
    assert_eq!(DownloadStatus::Interrupted { progress: 9900 }.calculate_global_progress(), 9900);
    assert_eq!(DownloadStatus::Queued.calculate_global_progress(), 0);
    // The first item of a playlist at 0% counts as no progress at all.
    assert_eq!(downloading(0, Some((0, 4, "x"))).calculate_global_progress(), -2500);
}

#[test]
fn restore_marks_interrupted() {
    assert!(matches!(restored_status(&DownloadStatus::Queued), DownloadStatus::Interrupted { progress: 0 }));
    assert!(matches!(restored_status(&downloading(4200, None)), DownloadStatus::Interrupted { progress: 4200 }));
    assert!(matches!(
        restored_status(&DownloadStatus::Merging { playlist: None }),
        DownloadStatus::Interrupted { progress: 9900 }
    ));
    assert!(matches!(restored_status(&DownloadStatus::Paused { progress: 7 }), DownloadStatus::Paused { progress: 7 }));

    let mut s = InnerState::new();
    s.restore_tasks(vec![task("a", DownloadStatus::Starting), task("b", DownloadStatus::Paused { progress: 1 })]);
    assert!(matches!(s.get_task("a").unwrap().status, DownloadStatus::Interrupted { progress: 0 }));
    assert!(matches!(s.get_task("b").unwrap().status, DownloadStatus::Paused { progress: 1 }));
}

#[test]
fn persistence_skips_running_downloads() {
    let mut s = InnerState::new();
    s.put_task(task("a", downloading(10, None)));
    s.put_task(task("b", DownloadStatus::Queued));
    let v = s.tasks_to_persist();
    assert_eq!(v.len(), 1);
    assert_eq!(v[0].id, "b");
    assert!(s.task_to_persist("a").is_none());
    assert!(s.task_to_persist("b").is_some());
    assert!(s.task_to_persist("c").is_none());
}

#[test]
fn removing_tasks() {
    let mut s = InnerState::new();
    s.put_task(task("a", DownloadStatus::Queued));
    assert_eq!(s.remove_task("a").unwrap().id, "a");
    assert!(s.remove_task("a").is_none());
}

#[test]
fn download_limit_changes() {
    let mut s = InnerState::new();
    assert_eq!(s.current_limit, 3);
    assert_eq!(s.update_download_limit(5), PermitChange::Add(2));
    assert_eq!(s.update_download_limit(1), PermitChange::Forget(4));
    assert_eq!(s.update_download_limit(1), PermitChange::Unchanged);
    assert_eq!(s.current_limit, 1);
}

#[test]
fn install_claims() {
    let mut s = InnerState::new();
    let ffmpeg = InstallGuard::new(&mut s, "ffprobe").unwrap();
    assert_eq!(ffmpeg.target, "ffmpeg");
    assert_eq!(
        InstallGuard::new(&mut s, "ffmpeg").err().unwrap(),
        "Installation for ffmpeg is already in progress"
    );
    assert_eq!(
        InstallGuard::new(&mut s, "all").err().unwrap(),
        "Cannot start full installation while individual components are installing"
    );
    let deno = InstallGuard::new(&mut s, "deno").unwrap();
    assert_eq!(deno.target, "deno");
    ffmpeg.release(&mut s);
    deno.release(&mut s);
    assert!(s.installing.is_empty());
    let all = InstallGuard::new(&mut s, "all").unwrap();
    assert_eq!(all.target, "all");
    assert_eq!(
        InstallGuard::new(&mut s, "yt-dlp").err().unwrap(),
        "Full dependency installation already in progress"
    );
    all.release(&mut s);
    assert!(s.installing.is_empty());
}

#[test]
fn cookie_check_gate() {
    let mut s = InnerState::new();
    assert_eq!(s.begin_cookie_check(), Some("Cookies disabled in settings"));
    s.config.cookies_enabled = true;
    assert_eq!(s.begin_cookie_check(), None);
    assert!(s.cookie_check_in_progress);
    assert_eq!(s.begin_cookie_check(), Some("Check already in progress"));
    s.end_cookie_check();
    assert!(!s.cookie_check_in_progress);
    assert_eq!(s.begin_cookie_check(), None);
}

#[test]
fn resumable_tasks_are_paused_failed_or_interrupted() {
    let mut s = InnerState::new();
    s.restore_tasks(vec![
        task("a", DownloadStatus::Paused { progress: 1 }),
        task("b", DownloadStatus::Completed { filename: String::new() }),
        task("c", DownloadStatus::Cancelled),
        task("e", DownloadStatus::Interrupted { progress: 5 }),
        task("f", DownloadStatus::Failed {
            reason: String::new(),
            progress: 0,
            category: ErrorCategory::Generic,
        }),
    ]);
    s.put_task(task("d", DownloadStatus::Queued));
    s.put_task(task("g", DownloadStatus::Downloading {
        progress: 1,
        speed: String::new(),
        eta: String::new(),
        playlist: None,
    }));
    let ids: Vec<String> = s.resumable_tasks().into_iter().map(|t| t.id).collect();
    assert_eq!(ids, vec!["a".to_string(), "e".to_string(), "f".to_string()]);
    assert_eq!(s.get_all_tasks().len(), 7);
}

#[test]
fn protected_ids_cover_unfinished_tasks() {
    let mut s = InnerState::new();
    s.put_task(task("a", DownloadStatus::Paused { progress: 1 }));
    s.put_task(task("b", DownloadStatus::Completed { filename: String::new() }));
    s.put_task(task("c", DownloadStatus::Failed {
        reason: String::new(),
        progress: 0,
        category: ErrorCategory::Generic,
    }));
    let p = s.protected_ids();
    assert_eq!(p, vec!["a".to_string(), "c".to_string()]);
    assert!(!chord::downloads::is_orphan_workspace("a", &p));
    assert!(chord::downloads::is_orphan_workspace("b", &p));
}

fn latest_state(s: &InnerState, target: &str) -> Option<(DepStatus, i64)> {
    s.dependency_states.iter().rev().find(|r| r.target == target).map(|r| (r.status, r.progress))
}

#[test]
fn full_install_run() {
    let mut s = InnerState::new();
    s.config.custom_deps = true;
    let mut run = s.start_install(None);
    assert!(run.full);
    assert!(s.config.setup_shown && !s.config.custom_deps);
    assert_eq!(latest_state(&s, "all"), Some((DepStatus::Starting, 0)));

    let step = s.install_step(&mut run);
    assert_eq!((step.completed, step.fetch), (None, Some("yt-dlp")));
    assert_eq!(latest_state(&s, "yt-dlp"), Some((DepStatus::Downloading, 0)));
    s.set_dependency_state("yt-dlp", DepStatus::Finalizing, 10000);
    let step = s.install_step(&mut run);
    assert_eq!((step.completed, step.fetch), (Some("yt-dlp"), Some("ffmpeg")));
    let step = s.install_step(&mut run);
    assert_eq!((step.completed, step.fetch), (Some("ffmpeg"), Some("deno")));
    let step = s.install_step(&mut run);
    assert_eq!((step.completed, step.fetch), (Some("deno"), None));
    for c in ["yt-dlp", "ffmpeg", "deno", "all"] {
        assert_eq!(latest_state(&s, c), Some((DepStatus::Complete, 10000)), "{}", c);
    }
}

#[test]
fn single_component_install_run() {
    let mut s = InnerState::new();
    let mut run = s.start_install(Some("ffprobe"));
    assert!(!run.full);
    assert!(!s.config.setup_shown);
    let step = s.install_step(&mut run);
    assert_eq!(step.fetch, Some("ffmpeg"));
    let step = s.install_step(&mut run);
    assert_eq!((step.completed, step.fetch), (Some("ffmpeg"), None));
    assert!(latest_state(&s, "yt-dlp").is_none());
}
