use chord::error::{AppError, ErrorCategory, ErrorSeverity};
use chord::logs::{
    app_log_line, column_migration, debug_transition, is_engine_source, level_icon, pad_right_exec,
    rotation_names, ytdlp_log_line, LogAction, APP_LOG_MAX_BYTES, YTDLP_LOG_MAX_BYTES,
};

#[test]
fn error_messages() {
    assert_eq!(AppError::Database("x".to_string()).message(), "Database error: x");
    assert_eq!(AppError::YtDlp("boom".to_string()).message(), "yt-dlp error: boom");
    assert_eq!(AppError::YtDlpLoginRequired.message(), "Login required. Use Firefox Auth.");
    assert_eq!(AppError::YtDlpRateLimited.message(), "Too many requests (429). Try again later.");
    assert_eq!(AppError::YtDlpUnavailable.message(), "Video unavailable (Geo-block/Private/Deleted).");
    assert_eq!(AppError::YtDlpNetworkError.message(), "Network error during download.");
    assert_eq!(
        AppError::YtDlpBrowserLock.message(),
        "Browser cookies locked (Firefox is running). Please close Firefox and retry."
    );
    assert_eq!(AppError::DependencyMissing("deno".to_string()).message(), "Dependency missing: deno");
    assert_eq!(AppError::Internal("oops".to_string()).message(), "Internal error: oops");
    assert_eq!(AppError::Cancelled.message(), "Cancelled");
    assert_eq!(
        AppError::PlaylistUrlInSingleMode.message(),
        "Playlist URL detected. Please switch to Playlist mode."
    );
    let io = AppError::Io(std::io::Error::new(std::io::ErrorKind::Other, "disk full"));
    assert_eq!(io.message(), "IO error: disk full");
    assert_eq!(io.user_message(), "IO error: disk full");
}

#[test]
fn user_messages() {
    assert_eq!(AppError::YtDlpLoginRequired.user_message(), "Bot detection triggered. Please sign in to Firefox.");
    assert_eq!(AppError::YtDlpBrowserLock.user_message(), "Firefox cookies are locked. Close Firefox and retry.");
    assert_eq!(AppError::YtDlpRateLimited.user_message(), "YouTube rate limited. Try again in an hour.");
    assert_eq!(
        AppError::YtDlpUnavailable.user_message(),
        "This video is unavailable (region-locked or private)."
    );
    assert_eq!(
        AppError::PlaylistUrlInSingleMode.user_message(),
        "This is a playlist URL — switch to Playlist mode."
    );
    assert_eq!(AppError::YtDlpNetworkError.user_message(), "Network error during download.");
}

#[test]
fn severities() {
    assert_eq!(AppError::YtDlpLoginRequired.severity(), ErrorSeverity::Warning);
    assert_eq!(AppError::PlaylistUrlInSingleMode.severity(), ErrorSeverity::Warning);
    assert_eq!(AppError::YtDlpNetworkError.severity(), ErrorSeverity::Error);
    assert_eq!(AppError::YtDlp(String::new()).severity(), ErrorSeverity::Error);
    assert_eq!(AppError::Database(String::new()).severity(), ErrorSeverity::Critical);
    assert_eq!(AppError::Internal(String::new()).severity(), ErrorSeverity::Critical);
    assert_eq!(AppError::Cancelled.severity(), ErrorSeverity::Info);
}

#[test]
fn recovery_actions_and_categories() {
    assert_eq!(AppError::YtDlpLoginRequired.recovery_action(), Some("open_settings"));
    assert_eq!(AppError::YtDlpBrowserLock.recovery_action(), Some("retry"));
    assert_eq!(AppError::YtDlpRateLimited.recovery_action(), Some("retry"));
    assert_eq!(AppError::DependencyMissing("x".to_string()).recovery_action(), Some("open_setup"));
    assert_eq!(AppError::Cancelled.recovery_action(), None);
    assert_eq!(AppError::YtDlpLoginRequired.category(), ErrorCategory::AuthRequired);
    assert_eq!(AppError::YtDlpRateLimited.category(), ErrorCategory::RateLimited);
    assert_eq!(AppError::YtDlpUnavailable.category(), ErrorCategory::Unavailable);
    assert_eq!(AppError::YtDlpBrowserLock.category(), ErrorCategory::BrowserLock);
    assert_eq!(AppError::DependencyMissing("x".to_string()).category(), ErrorCategory::DependencyMissing);
    assert_eq!(AppError::YtDlpNetworkError.category(), ErrorCategory::Generic);
}

#[test]
fn log_rotation() {
    assert_eq!(APP_LOG_MAX_BYTES, 2_000_000);
    assert_eq!(YTDLP_LOG_MAX_BYTES, 5_000_000);
    assert_eq!(
        rotation_names("app.log", Some(2_000_001), APP_LOG_MAX_BYTES),
        Some(("app.log.1".to_string(), "app.log.2".to_string()))
    );
    assert_eq!(rotation_names("app.log", Some(2_000_000), APP_LOG_MAX_BYTES), None);
    assert_eq!(rotation_names("app.log", None, APP_LOG_MAX_BYTES), None);
}

#[test]
fn debug_switch() {
    assert_eq!(debug_transition(false, true), LogAction::Open);
    assert_eq!(debug_transition(true, true), LogAction::Keep);
    assert_eq!(debug_transition(true, false), LogAction::Close);
    assert_eq!(debug_transition(false, false), LogAction::Close);
}

#[test]
fn log_lines() {
    assert_eq!(pad_right_exec("INFO", 5), "INFO ");
    assert_eq!(pad_right_exec("ERROR", 5), "ERROR");
    assert_eq!(pad_right_exec("", 3), "   ");
    assert_eq!(pad_right_exec("LONGER", 2), "LONGER");
    assert_eq!(
        app_log_line("2024-01-01 10:00:00", "INFO", "hello"),
        format!("[{}] {:<5} | {}\n", "2024-01-01 10:00:00", "INFO", "hello")
    );
    assert_eq!(ytdlp_log_line("t", "m"), "[t] m\n");
}

#[test]
fn log_routing() {
    assert!(is_engine_source("ytdlp"));
    assert!(is_engine_source("stderr"));
    assert!(!is_engine_source("app"));
    assert_eq!(level_icon("ERROR"), "❌ ");
    assert_eq!(level_icon("WARN"), "⚠ ");
    assert_eq!(level_icon("INFO"), "→ ");
    assert_eq!(level_icon("DEBUG"), "");
}

#[test]
fn schema_migration() {
    let cols = vec!["id".to_string(), "url".to_string(), "args".to_string()];
    assert_eq!(column_migration(&cols, "args", "TEXT NOT NULL DEFAULT '{}'"), None);
    assert_eq!(
        column_migration(&cols, "children", "TEXT NOT NULL DEFAULT '[]'").as_deref(),
        Some("ALTER TABLE tasks ADD COLUMN children TEXT NOT NULL DEFAULT '[]'")
    );
}
