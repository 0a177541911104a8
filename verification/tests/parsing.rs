use chord::error::AppError;
use chord::output::{classify_line, OutputLine};
use chord::state::DownloadStatus;
use chord::ytdlp::{is_retry_line, parse_ytdlp_output_line, retry_status, run_failure, OutputTracker};

fn downloading(s: &Option<DownloadStatus>) -> (i64, String, String, Option<(usize, usize, String)>) {
    match s {
        Some(DownloadStatus::Downloading { progress, speed, eta, playlist }) => (
            *progress,
            speed.clone(),
            eta.clone(),
            playlist.as_ref().map(|p| (p.current_index, p.total_items, p.item_title.clone())),
        ),
        other => panic!("expected a download report, got {:?}", other),
    }
}

#[test]
fn item_count_line() {
    let (title, status) = parse_ytdlp_output_line("[download] Downloading item 10 of 39", "x");
    assert!(title.is_none());
    let (p, speed, eta, meta) = downloading(&status);
    assert_eq!(p, 0);
    assert_eq!(speed, "—");
    assert_eq!(eta, "Starting...");
    assert_eq!(meta, Some((10, 39, "Starting item...".to_string())));
}

#[test]
fn progress_line_with_speed_and_eta() {
    let (title, status) =
        parse_ytdlp_output_line("[download]   2.3% of 10.00MiB at 1.2MiB/s ETA 00:05", "x");
    assert!(title.is_none());
    let (p, speed, eta, meta) = downloading(&status);
    assert_eq!(p, 230);
    assert_eq!(speed, "1.2MiB/s");
    assert_eq!(eta, "00:05");
    assert_eq!(meta, None);
}

#[test]
fn progress_line_with_two_decimals() {
    let (_, status) =
        parse_ytdlp_output_line("[download]  45.67% of ~ 3.20MiB at  512.00KiB/s ETA 00:04 (frag 3/9)", "x");
    let (p, speed, eta, _) = downloading(&status);
    assert_eq!(p, 4567);
    assert_eq!(speed, "512.00KiB/s");
    assert_eq!(eta, "00:04 (frag 3/9)");
}

#[test]
fn fully_downloaded_line() {
    let (title, status) = parse_ytdlp_output_line("[download] 100% of 10.00MiB in 00:00:03", "x");
    assert!(title.is_none());
    let (p, speed, eta, meta) = downloading(&status);
    assert_eq!(p, 10000);
    assert_eq!(speed, "—");
    assert_eq!(eta, "Done");
    assert_eq!(meta, None);
}

#[test]
fn simple_progress_lines() {
    let (_, status) = parse_ytdlp_output_line("[download]   45.0%", "x");
    let (p, speed, eta, _) = downloading(&status);
    assert_eq!(p, 4500);
    assert_eq!(speed, "...");
    assert_eq!(eta, "...");

    let (_, status) = parse_ytdlp_output_line("[download]  100.0%", "x");
    let (p, speed, eta, _) = downloading(&status);
    assert_eq!(p, 10000);
    assert_eq!(speed, "—");
    assert_eq!(eta, "Done");
}

#[test]
fn destination_line_gives_file_name() {
    let (title, status) = parse_ytdlp_output_line("[download] Destination: /tmp/ws/My Song.webm", "x");
    assert_eq!(title.as_deref(), Some("My Song.webm"));
    assert!(status.is_none());

    let (title, _) = parse_ytdlp_output_line("[download] Destination: C:\\ws\\Track.m4a", "x");
    assert_eq!(title.as_deref(), Some("Track.m4a"));

    let (title, _) = parse_ytdlp_output_line("[download] Destination:   plain.mp3  ", "x");
    assert_eq!(title.as_deref(), Some("plain.mp3"));
}

#[test]
fn playlist_title_line() {
    let (title, status) = parse_ytdlp_output_line("[download] Downloading playlist: Best Hits ", "x");
    assert_eq!(title.as_deref(), Some("Best Hits"));
    assert!(status.is_none());
}

#[test]
fn already_downloaded_line() {
    let (title, status) =
        parse_ytdlp_output_line("[download]  /tmp/ws/Old Song.m4a has already been downloaded", "x");
    assert!(title.is_none());
    let (p, speed, eta, meta) = downloading(&status);
    assert_eq!(p, 10000);
    assert_eq!(speed, "—");
    assert_eq!(eta, "Done");
    assert_eq!(meta, Some((0, 0, "Old Song.m4a".to_string())));
}

#[test]
fn merger_line() {
    let (title, status) =
        parse_ytdlp_output_line("[Merger] Merging formats into \"/tmp/ws/Clip.mp4\"", "x");
    assert!(title.is_none());
    match status {
        Some(DownloadStatus::Merging { playlist: Some(m) }) => {
            assert_eq!(m.current_index, 0);
            assert_eq!(m.total_items, 0);
            assert_eq!(m.item_title, "Clip.mp4");
        }
        other => panic!("expected a merge, got {:?}", other),
    }
}

#[test]
fn postprocessing_line_uses_current_title() {
    let (title, status) = parse_ytdlp_output_line("[ExtractAudio] Destination: a.mp3", "Current");
    assert!(title.is_none());
    match status {
        Some(DownloadStatus::Merging { playlist: Some(m) }) => assert_eq!(m.item_title, "Current"),
        other => panic!("expected a merge, got {:?}", other),
    }
    let (_, status) = parse_ytdlp_output_line("[FixupM4a] Correcting container", "T");
    assert!(matches!(status, Some(DownloadStatus::Merging { .. })));
}

#[test]
fn other_lines_are_ignored() {
    for line in [
        "[youtube] abc: Downloading webpage",
        "[download] Got error: timed out",
        "[download]2.3%",
        "plain text",
        "",
        "[Merger] something else",
    ] {
        let (title, status) = parse_ytdlp_output_line(line, "x");
        assert!(title.is_none(), "{}", line);
        assert!(status.is_none(), "{}", line);
        assert!(matches!(classify_line(line), OutputLine::Other), "{}", line);
    }
}

#[test]
fn tracker_follows_a_playlist() {
    let mut t = OutputTracker::new();
    let out = t.on_stdout_line("[download] Downloading item 2 of 5", true);
    assert!(out.title.is_none());
    let (p, speed, _, meta) = downloading(&out.status);
    assert_eq!(p, 0);
    assert_eq!(speed, "—");
    assert_eq!(meta, Some((2, 5, "Downloading...".to_string())));
    assert_eq!(t.current_item, 2);
    assert_eq!(t.total_items, 5);

    let out = t.on_stdout_line("[download] Destination: /w/Song Two.m4a", true);
    assert_eq!(out.title.as_deref(), Some("Song Two.m4a"));
    assert_eq!(t.current_title, "Song Two.m4a");
    assert_eq!(t.last_filename, "Song Two.m4a");

    let throttled = t.on_stdout_line("[download]   50.0% of 3MiB at 1MiB/s ETA 00:03", false);
    assert!(throttled.status.is_none());

    let out = t.on_stdout_line("[download]   50.0% of 3MiB at Unknown B/s ETA Unknown", true);
    let (p, speed, eta, meta) = downloading(&out.status);
    assert_eq!(p, 5000);
    assert_eq!(speed, "---");
    assert_eq!(eta, "---");
    assert_eq!(meta, Some((2, 5, "Song Two.m4a".to_string())));

    let done = t.on_stdout_line("[download] 100% of 3MiB", false);
    assert!(done.status.is_some());
    assert_eq!(t.finished_name(), "Song Two.m4a");
}

#[test]
fn tracker_takes_merge_output_as_file_name() {
    let mut t = OutputTracker::new();
    t.on_stdout_line("[download] Destination: /w/video.f137.mp4", true);
    t.on_stdout_line("[Merger] Merging formats into \"/w/Final Cut.mp4\"", true);
    assert_eq!(t.last_filename, "Final Cut.mp4");
    match t.run_result(true, "") {
        Ok(name) => assert_eq!(name, "Final Cut.mp4"),
        Err(e) => panic!("unexpected error {:?}", e),
    }
}

#[test]
fn finished_name_falls_back_to_title() {
    let t = OutputTracker::new();
    assert_eq!(t.finished_name(), "Downloading...");
}

#[test]
fn run_failures_by_precedence() {
    assert!(matches!(run_failure("ERROR: ffprobe not found"), AppError::DependencyMissing(ref s) if s == "ffprobe"));
    assert!(matches!(run_failure("ffmpeg not found; ffprobe not found"), AppError::DependencyMissing(ref s) if s == "ffprobe"));
    assert!(matches!(run_failure("ERROR: ffmpeg not found"), AppError::DependencyMissing(ref s) if s == "ffmpeg"));
    assert!(matches!(
        run_failure("No supported JavaScript runtime could be found"),
        AppError::DependencyMissing(ref s) if s == "deno"
    ));
    assert!(matches!(run_failure("Sign in to confirm you are not a bot"), AppError::YtDlpLoginRequired));
    assert!(matches!(run_failure("Sign in to confirm your age"), AppError::YtDlpLoginRequired));
    assert!(matches!(run_failure("sqlite3.OperationalError: Database is locked"), AppError::YtDlpBrowserLock));
    assert!(matches!(run_failure("HTTP Error 429: Too Many Requests"), AppError::YtDlpRateLimited));
    assert!(matches!(run_failure("ERROR: Video unavailable"), AppError::YtDlpUnavailable));
    assert!(matches!(run_failure("This video is unavailable"), AppError::YtDlpUnavailable));
    assert!(matches!(run_failure("fragment 3 not found"), AppError::YtDlpNetworkError));
    assert!(matches!(run_failure("Could not resolve host: youtube.com"), AppError::YtDlpNetworkError));
    assert!(matches!(run_failure("  \n "), AppError::YtDlp(ref s) if s == "Unknown yt-dlp error"));
    assert!(matches!(run_failure("  boom\n"), AppError::YtDlp(ref s) if s == "boom"));
}

#[test]
fn run_result_on_failure() {
    let t = OutputTracker::new();
    assert!(matches!(t.run_result(false, "HTTP Error 429"), Err(AppError::YtDlpRateLimited)));
}

#[test]
fn retry_lines() {
    assert!(is_retry_line("[download] Got error: timed out. Retrying (1/inf)..."));
    assert!(is_retry_line("Got error while download"));
    assert!(!is_retry_line("Got error"));
    assert!(!is_retry_line("ERROR: unavailable"));
    match retry_status() {
        DownloadStatus::Downloading { progress, speed, eta, playlist } => {
            assert_eq!(progress, 0);
            assert_eq!(speed, "Network Error");
            assert_eq!(eta, "Retrying...");
            assert!(playlist.is_none());
        }
        other => panic!("unexpected {:?}", other),
    }
}

#[test]
fn numbers_in_other_scripts_match_without_value() {
    let (_, status) = parse_ytdlp_output_line("[download] Downloading item \u{663} of 5", "x");
    let (p, _, _, meta) = downloading(&status);
    assert_eq!(p, 0);
    assert_eq!(meta, Some((1, 5, "Starting item...".to_string())));

    let (_, status) =
        parse_ytdlp_output_line("[download]   \u{664}\u{665}.0% of 3MiB at 1MiB/s ETA 00:03", "x");
    let (p, speed, eta, _) = downloading(&status);
    assert_eq!(p, 0);
    assert_eq!(speed, "1MiB/s");
    assert_eq!(eta, "00:03");

    let (_, status) = parse_ytdlp_output_line("[download]   \u{664}\u{665}%", "x");
    let (p, speed, _, _) = downloading(&status);
    assert_eq!(p, 0);
    assert_eq!(speed, "...");
}

#[test]
fn lines_give_a_title_or_a_status() {
    for line in ["download 50%", "  [download] 50.0%", "Merging formats into \"a.mkv\"", "", "ERROR: x"] {
        let (title, status) = parse_ytdlp_output_line(line, "t");
        assert!(title.is_none() && status.is_none(), "{line}");
    }
    for line in [
        "[download] Destination: /tmp/a.mp4",
        "[download] Downloading playlist: Mix",
        "[download]  12.5% of 3.00MiB at 1.00MiB/s ETA 00:02",
        "[Merger] Merging formats into \"/tmp/a.mkv\"",
        "[ExtractAudio] Destination: a.mp3",
        "[info] something",
    ] {
        let (title, status) = parse_ytdlp_output_line(line, "t");
        assert!(!(title.is_some() && status.is_some()), "{line}");
        assert!(
            matches!(status, None | Some(DownloadStatus::Downloading { .. }) | Some(DownloadStatus::Merging { .. })),
            "{line}"
        );
    }
}
