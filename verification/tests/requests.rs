use chord::downloads::{
    auth_check_outcome, cleanup_summary, completion_status, finalizing_status, is_delivered_file,
    is_ghost_task, is_managed_process_name, is_playlist_only_url, playlist_only,
    resolve_output_dir, should_kill, task_created_event, validate_download_request, DownloadRequest,
};
use chord::error::{AppError, ErrorCategory};
use chord::state::{DownloadStatus, PlaylistMetadata};

fn request(url: &str, is_playlist: bool, output_path: &str, media_type: &str) -> DownloadRequest {
    DownloadRequest {
        url: url.to_string(),
        media_type: media_type.to_string(),
        format: "mp4".to_string(),
        quality: "1080".to_string(),
        output_path: output_path.to_string(),
        is_playlist,
        existing_id: None,
    }
}

#[test]
fn empty_url_is_rejected() {
    match validate_download_request(&request("   ", false, "", "audio")) {
        Err(AppError::Internal(m)) => assert_eq!(m, "URL cannot be empty"),
        other => panic!("unexpected {:?}", other),
    }
    match validate_download_request(&request("", true, "", "audio")) {
        Err(AppError::Internal(m)) => assert_eq!(m, "URL cannot be empty"),
        other => panic!("unexpected {:?}", other),
    }
}

#[test]
fn playlist_url_in_single_mode_is_rejected() {
    let url = "https://www.youtube.com/playlist?list=PL123";
    assert!(is_playlist_only_url(url));
    assert!(matches!(
        validate_download_request(&request(url, false, "", "audio")),
        Err(AppError::PlaylistUrlInSingleMode)
    ));
    assert!(validate_download_request(&request(url, true, "", "audio")).is_ok());
}

#[test]
fn video_urls_are_accepted() {
    for url in [
        "https://www.youtube.com/watch?v=abc&list=PL123",
        "https://www.youtube.com/watch?v=abc",
        "https://youtu.be/abc",
        "not a url at all",
    ] {
        assert!(!is_playlist_only_url(url), "{}", url);
        assert!(validate_download_request(&request(url, false, "", "audio")).is_ok(), "{}", url);
    }
}

#[test]
fn query_key_rule() {
    let keys = |v: &[&str]| Some(v.iter().map(|x| x.to_string()).collect::<Vec<_>>());
    assert!(playlist_only(&keys(&["list"])));
    assert!(playlist_only(&keys(&["index", "list"])));
    assert!(!playlist_only(&keys(&["list", "v"])));
    assert!(!playlist_only(&keys(&[])));
    assert!(!playlist_only(&None));
}

#[test]
fn output_directory() {
    assert_eq!(resolve_output_dir(&request("u", false, "/mine", "video"), "/v", "/a"), "/mine");
    assert_eq!(resolve_output_dir(&request("u", false, "", "video"), "/v", "/a"), "/v");
    assert_eq!(resolve_output_dir(&request("u", false, "", "audio"), "/v", "/a"), "/a");
}

#[test]
fn ghost_tasks() {
    assert!(is_ghost_task(&DownloadStatus::Paused { progress: 1 }, false));
    assert!(!is_ghost_task(&DownloadStatus::Paused { progress: 1 }, true));
    assert!(!is_ghost_task(&DownloadStatus::Queued, false));
    assert!(!is_ghost_task(&DownloadStatus::Starting, false));
    assert!(!is_ghost_task(&DownloadStatus::FetchingMetadata, false));
}

#[test]
fn cleanup_report() {
    assert_eq!(cleanup_summary(3, 1), "Cleanup Complete: Removed 3 orphan workspaces and 1 ghost entries");
    assert_eq!(cleanup_summary(0, 0), "Cleanup Complete: Removed 0 orphan workspaces and 0 ghost entries");
}

#[test]
fn finishing_statuses() {
    let current = Some(DownloadStatus::Merging {
        playlist: Some(PlaylistMetadata { current_index: 4, total_items: 9, item_title: "x".to_string() }),
    });
    match finalizing_status("song.m4a".to_string(), &current) {
        DownloadStatus::Finalizing { playlist: Some(m) } => {
            assert_eq!(m.current_index, 4);
            assert_eq!(m.total_items, 9);
            assert_eq!(m.item_title, "song.m4a");
        }
        other => panic!("unexpected {:?}", other),
    }
    match finalizing_status("a".to_string(), &None) {
        DownloadStatus::Finalizing { playlist: Some(m) } => {
            assert_eq!((m.current_index, m.total_items), (0, 0));
        }
        other => panic!("unexpected {:?}", other),
    }
    assert!(matches!(
        completion_status(true, "f.mp3".to_string()),
        DownloadStatus::Completed { ref filename } if filename == "f.mp3"
    ));
    match completion_status(false, "f.mp3".to_string()) {
        DownloadStatus::Failed { reason, progress, category } => {
            assert_eq!(reason, "Finalizing error: File copy failed");
            assert_eq!(progress, 10000);
            assert_eq!(category, ErrorCategory::Generic);
        }
        other => panic!("unexpected {:?}", other),
    }
}

#[test]
fn process_names_and_files() {
    assert!(is_managed_process_name("yt-dlp.exe"));
    assert!(is_managed_process_name("ffmpeg"));
    assert!(!is_managed_process_name("python3.11"));
    assert!(!is_managed_process_name("bash"));
    assert!(!is_delivered_file("archive.txt"));
    assert!(is_delivered_file("song.m4a"));
}

#[test]
fn cookie_check_outcomes() {
    assert!(matches!(auth_check_outcome("ERROR: Database is locked", true), Err(AppError::YtDlpBrowserLock)));
    assert!(matches!(auth_check_outcome("sqlite3.OperationalError", false), Err(AppError::YtDlpBrowserLock)));
    assert_eq!(auth_check_outcome("", true).unwrap(), "Cookies found ✓");
    assert_eq!(auth_check_outcome("Sign in to confirm you're not a bot", false).unwrap(), "Sign in required in Firefox");
    assert_eq!(auth_check_outcome("other", false).unwrap(), "Cookies not found or invalid");
}

#[test]
fn created_event_for_new_requests_only() {
    let req = request("https://youtu.be/a", true, "", "video");
    let e = task_created_event("id-1", &req, "/videos").unwrap();
    assert_eq!(e.id, "id-1");
    assert_eq!(e.title, "Queued...");
    assert_eq!(e.media_type, "video");
    assert!(e.is_playlist);
    assert_eq!(e.output_path, "/videos");
    let mut again = request("https://youtu.be/a", true, "", "video");
    again.existing_id = Some("id-1".to_string());
    assert!(task_created_event("id-1", &again, "/videos").is_none());
}

#[test]
fn kill_only_recorded_managed_processes() {
    assert!(should_kill(42, Some("yt-dlp")));
    assert!(!should_kill(42, Some("python3")));
    assert!(!should_kill(0, Some("yt-dlp")));
    assert!(!should_kill(42, Some("firefox")));
    assert!(!should_kill(42, None));
}
