use chord::args::{auth_check_args, build_ytdlp_args, ytdlp_args_with};
use chord::deps::{
    archive_entry_target, bin_folder_name, dependency_report, deno_update_available,
    deno_version_from_output, executable_file_name, get_deno_download_url, get_ffmpeg_download_url,
    get_ytdlp_download_url, github_release_api_url, install_plan, latest_cache_is_fresh,
    missing_binaries_message, tool_probe, verify_download_size,
    ytdlp_update_available, DepStatus, InstallPlan, Platform, ToolProbe,
    release_tag, update_check, UpdateCheck,
};
use chord::state::InnerState;

fn s(v: &[&str]) -> Vec<String> {
    v.iter().map(|x| x.to_string()).collect()
}

#[test]
fn download_urls() {
    assert_eq!(
        get_ytdlp_download_url(Platform::Windows),
        "https://github.com/yt-dlp/yt-dlp/releases/latest/download/yt-dlp.exe"
    );
    assert_eq!(
        get_ytdlp_download_url(Platform::MacosAarch64),
        "https://github.com/yt-dlp/yt-dlp/releases/latest/download/yt-dlp_macos"
    );
    assert_eq!(
        get_ytdlp_download_url(Platform::Linux),
        "https://github.com/yt-dlp/yt-dlp/releases/latest/download/yt-dlp"
    );
    assert_eq!(get_ffmpeg_download_url(Platform::MacosX86_64), "https://evermeet.cx/ffmpeg/getrelease/zip");
    assert_eq!(
        get_ffmpeg_download_url(Platform::Linux),
        "https://github.com/BtbN/FFmpeg-Builds/releases/download/latest/ffmpeg-master-latest-linux64-gpl.tar.xz"
    );
    assert_eq!(
        get_ffmpeg_download_url(Platform::Windows),
        "https://github.com/BtbN/FFmpeg-Builds/releases/download/latest/ffmpeg-master-latest-win64-gpl.zip"
    );
    assert_eq!(
        get_deno_download_url(Platform::MacosAarch64),
        "https://github.com/denoland/deno/releases/latest/download/deno-aarch64-apple-darwin.zip"
    );
    assert_eq!(
        get_deno_download_url(Platform::MacosX86_64),
        "https://github.com/denoland/deno/releases/latest/download/deno-x86_64-apple-darwin.zip"
    );
    assert_eq!(
        get_deno_download_url(Platform::Linux),
        "https://github.com/denoland/deno/releases/latest/download/deno-x86_64-unknown-linux-gnu.zip"
    );
    assert_eq!(
        get_deno_download_url(Platform::Windows),
        "https://github.com/denoland/deno/releases/latest/download/deno-x86_64-pc-windows-msvc.zip"
    );
    assert_eq!(
        github_release_api_url("yt-dlp/yt-dlp"),
        "https://api.github.com/repos/yt-dlp/yt-dlp/releases/latest"
    );
}

#[test]
fn install_steps_and_plans() {
    assert_eq!(DepStatus::Starting.as_str(), "starting");
    assert_eq!(DepStatus::Downloading.as_str(), "downloading");
    assert_eq!(DepStatus::Finalizing.as_str(), "finalizing");
    assert_eq!(DepStatus::Complete.as_str(), "complete");
    assert_eq!(install_plan(None), InstallPlan { ytdlp: true, ffmpeg: true, deno: true });
    assert_eq!(install_plan(Some("ffprobe")), InstallPlan { ytdlp: false, ffmpeg: true, deno: false });
    assert_eq!(install_plan(Some("yt-dlp")), InstallPlan { ytdlp: true, ffmpeg: false, deno: false });
    assert_eq!(install_plan(Some("deno")), InstallPlan { ytdlp: false, ffmpeg: false, deno: true });
    assert_eq!(install_plan(Some("all")), InstallPlan { ytdlp: false, ffmpeg: false, deno: false });
}

#[test]
fn binary_locations() {
    assert_eq!(bin_folder_name(true), "custombin");
    assert_eq!(bin_folder_name(false), "bin");
    assert_eq!(executable_file_name("yt-dlp", true), "yt-dlp.exe");
    assert_eq!(executable_file_name("ffprobe", false), "ffprobe");
    assert_eq!(tool_probe(true), ToolProbe::RunVersion);
    assert_eq!(tool_probe(false), ToolProbe::FileExists);
}

#[test]
fn deno_versions() {
    assert_eq!(
        deno_version_from_output("deno 2.1.4 (stable, release, x86_64-unknown-linux-gnu)\nv8 13.0\n").as_deref(),
        Some("2.1.4")
    );
    assert_eq!(deno_version_from_output("deno 1.46.3\r\nv8").as_deref(), Some("1.46.3"));
    assert_eq!(deno_version_from_output("").as_deref(), None);
    assert_eq!(deno_version_from_output("\nsecond").as_deref(), Some(""));
}

#[test]
fn update_checks() {
    let some = |x: &str| Some(x.to_string());
    assert!(ytdlp_update_available(&some("2024.01.01"), &some("2024.02.01")));
    assert!(!ytdlp_update_available(&some("2024.02.01"), &some("2024.02.01")));
    assert!(!ytdlp_update_available(&None, &some("2024.02.01")));
    assert!(!deno_update_available(&some("2.1.4"), &some("v2.1.4")));
    assert!(deno_update_available(&some("2.1.3"), &some("v2.1.4")));
    assert!(!deno_update_available(&some("2.1.3"), &None));
    assert!(latest_cache_is_fresh(Some(3599)));
    assert!(!latest_cache_is_fresh(Some(3600)));
    assert!(!latest_cache_is_fresh(None));
}

#[test]
fn latest_versions_cache() {
    let mut st = InnerState::new();
    let (y, d) = st.record_latest_versions(Some("2024.03.10".to_string()), None);
    assert_eq!(y.as_deref(), Some("2024.03.10"));
    assert_eq!(d, None);
    let (y, d) = st.record_latest_versions(None, Some("v2.0.0".to_string()));
    assert_eq!(y.as_deref(), Some("2024.03.10"));
    assert_eq!(d.as_deref(), Some("v2.0.0"));
}

#[test]
fn dependency_report_fields() {
    let r = dependency_report(
        Some("2024.01.01".to_string()),
        true,
        false,
        true,
        Some("2.0.0".to_string()),
        Some((Some("2024.02.02".to_string()), Some("v2.0.0".to_string()))),
        true,
        false,
        true,
    );
    assert!(r.yt_dlp_installed);
    assert!(r.yt_dlp_update_available);
    assert!(!r.deno_update_available);
    assert!(r.binaries_missing);
    assert!(r.installation_in_progress);
    assert_eq!(r.yt_dlp_latest_version.as_deref(), Some("2024.02.02"));

    let r = dependency_report(None, true, true, true, None, None, false, true, false);
    assert!(!r.yt_dlp_installed);
    assert!(r.binaries_missing);
    assert!(!r.yt_dlp_update_available);
    assert!(r.yt_dlp_latest_version.is_none());
    assert!(r.custom_deps);
}

#[test]
fn download_size_check() {
    assert!(verify_download_size(0, 123).is_ok());
    assert!(verify_download_size(10, 10).is_ok());
    assert_eq!(verify_download_size(10, 7).unwrap_err(), "Download incomplete: expected 10 bytes, got 7");
}

#[test]
fn archive_entries() {
    let m = vec![("ffmpeg".to_string(), "ffmpeg".to_string()), ("ffprobe".to_string(), "ffprobe".to_string())];
    assert_eq!(archive_entry_target("ffmpeg-7.0/bin/ffmpeg", &m), Some(0));
    assert_eq!(archive_entry_target("ffprobe", &m), Some(1));
    assert_eq!(archive_entry_target("bin/ffplay", &m), None);
    assert_eq!(archive_entry_target("", &m), None);
    assert_eq!(
        missing_binaries_message(1, 2, "ffmpeg"),
        "Could only find 1/2 binaries in the archive for ffmpeg"
    );
}

#[test]
fn ytdlp_command_line() {
    let args = ytdlp_args_with(
        "https://youtu.be/x".to_string(),
        "video".to_string(),
        "mp4".to_string(),
        "720".to_string(),
        false,
        "/ws".to_string(),
        "/ws/archive.txt".to_string(),
        true,
        1,
        Some("/bin".to_string()),
        Some("/bin/deno".to_string()),
    );
    let expected = s(&[
        "-f",
        "bestvideo[ext=mp4][height<=720]+bestaudio[ext=m4a]/best[ext=mp4]/best",
        "--merge-output-format",
        "mp4",
        "--remux-video",
        "mp4",
        "--ffmpeg-location",
        "/bin",
        "--js-runtimes",
        "deno:/bin/deno",
        "--embed-metadata",
        "--embed-thumbnail",
        "--download-archive",
        "/ws/archive.txt",
        "--output",
        "%(title)s.%(ext)s",
        "--progress",
        "--newline",
        "-P",
        "home:/ws",
        "-P",
        "temp:/ws",
        "--retries",
        "infinite",
        "--fragment-retries",
        "infinite",
        "--retry-sleep",
        "5",
        "--retry-sleep",
        "fragment:5",
        "--socket-timeout",
        "30",
        "--concurrent-fragments",
        "1",
        "--impersonate",
        "chrome",
        "--extractor-retries",
        "5",
        "--encoding",
        "utf-8",
        "--windows-filenames",
        "--replace-in-metadata",
        "title",
        r"[\U00010000-\U0010ffff]",
        "",
        "--cookies-from-browser",
        "firefox",
        "--no-playlist",
        "https://youtu.be/x",
    ]);
    assert_eq!(args, expected);
}

#[test]
fn audio_command_lines() {
    let a = ytdlp_args_with(
        "u".to_string(),
        "audio".to_string(),
        "opus".to_string(),
        "".to_string(),
        true,
        "/w".to_string(),
        "/w/archive.txt".to_string(),
        false,
        4,
        None,
        None,
    );
    assert_eq!(&a[..7], &s(&["-f", "bestaudio", "--extract-audio", "--audio-format", "opus", "--audio-quality", "0"])[..]);
    assert_eq!(a[7], "--embed-metadata");
    assert_eq!(a[12], "%(playlist_title|%(channel|%(uploader|Unknown)s)s)s/%(title)s.%(ext)s");
    assert_eq!(&a[a.len() - 3..], &s(&["--no-abort-on-error", "--yes-playlist", "u"])[..]);
    assert!(a.contains(&"4".to_string()));

    let b = build_ytdlp_args(
        "u".to_string(),
        "audio".to_string(),
        "m4a".to_string(),
        "".to_string(),
        false,
        "/w".to_string(),
        false,
        1,
        None,
        None,
    );
    assert_eq!(&b[..5], &s(&["-f", "bestaudio/best", "--extract-audio", "--audio-format", "m4a"])[..]);
    let archive = std::path::Path::new("/w").join("archive.txt").to_string_lossy().to_string();
    assert_eq!(b[8], archive);

    let v = ytdlp_args_with(
        "u".to_string(),
        "video".to_string(),
        "mkv".to_string(),
        "480".to_string(),
        false,
        "/w".to_string(),
        "a".to_string(),
        false,
        1,
        None,
        None,
    );
    assert_eq!(v[1], "bestvideo[height<=480]+bestaudio/best");
    let w = ytdlp_args_with(
        "u".to_string(),
        "video".to_string(),
        "webm".to_string(),
        "1080".to_string(),
        false,
        "/w".to_string(),
        "a".to_string(),
        false,
        1,
        None,
        None,
    );
    assert_eq!(w[1], "bestvideo[ext=webm][height<=1080]+bestaudio[ext=webm]/best");
}

#[test]
fn cookie_check_command_line() {
    assert_eq!(
        auth_check_args(None),
        s(&[
            "--simulate",
            "--cookies-from-browser",
            "firefox",
            "--impersonate",
            "chrome",
            "https://www.youtube.com/watch?v=qpgTC9MDx1o"
        ])
    );
    let a = auth_check_args(Some("/d/deno".to_string()));
    assert_eq!(a[5], "--js-runtimes");
    assert_eq!(a[6], "deno:/d/deno");
    assert_eq!(a.len(), 8);
}

#[test]
fn update_checks_by_mode() {
    assert_eq!(update_check(true, None), UpdateCheck::Skip);
    assert_eq!(update_check(true, Some(10)), UpdateCheck::Skip);
    assert_eq!(update_check(false, Some(10)), UpdateCheck::UseCache);
    assert_eq!(update_check(false, Some(4000)), UpdateCheck::Fetch);
    assert_eq!(update_check(false, None), UpdateCheck::Fetch);
}

#[test]
fn custom_mode_reports_no_updates() {
    let r = dependency_report(
        Some("1".to_string()),
        true,
        true,
        true,
        Some("1".to_string()),
        Some((Some("2".to_string()), Some("v2".to_string()))),
        false,
        true,
        true,
    );
    assert!(r.yt_dlp_latest_version.is_none());
    assert!(r.deno_latest_version.is_none());
    assert!(!r.yt_dlp_update_available);
    assert!(!r.deno_update_available);
}

#[test]
fn release_tags() {
    assert_eq!(release_tag(r#"{"tag_name": "2024.08.06", "name": "x"}"#, "yt-dlp/yt-dlp").unwrap(), "2024.08.06");
    assert_eq!(release_tag(r#"{"name": "x"}"#, "denoland/deno").unwrap_err(), "Failed to parse version for denoland/deno");
    assert_eq!(release_tag("not json", "a/b").unwrap_err(), "error decoding response body");
    assert_eq!(release_tag("", "a/b").unwrap_err(), "error decoding response body");
    assert_eq!(release_tag("[1, 2]", "a/b").unwrap_err(), "Failed to parse version for a/b");
    assert_eq!(release_tag(r#"{"tag_name": 5}"#, "a/b").unwrap_err(), "Failed to parse version for a/b");
}

#[test]
fn archive_path_joins_workspace() {
    let b = build_ytdlp_args(
        "u".to_string(),
        "audio".to_string(),
        "m4a".to_string(),
        "".to_string(),
        false,
        "/w/ws".to_string(),
        false,
        1,
        None,
        None,
    );
    assert_eq!(b[8], "/w/ws/archive.txt");
    let c = build_ytdlp_args(
        "u".to_string(),
        "audio".to_string(),
        "m4a".to_string(),
        "".to_string(),
        false,
        "/w/ws/".to_string(),
        false,
        1,
        None,
        None,
    );
    assert_eq!(c[8], "/w/ws/archive.txt");
}
