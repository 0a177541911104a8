//! Application errors, their user-facing messages, categories and severities.
use crate::text::concat2;
use vstd::prelude::*;

verus! {

#[verifier::external_type_specification]
#[verifier::external_body]
pub struct ExIoError(std::io::Error);

/// Coarse classification of an error, used by the UI to pick a recovery path.
#[derive(Clone, Copy, Debug, PartialEq, Eq, Structural)]
pub enum ErrorCategory {
    AuthRequired,
    RateLimited,
    Unavailable,
    BrowserLock,
    DependencyMissing,
    Generic,
}

/// How serious an error is.
#[derive(Clone, Copy, Debug, PartialEq, Eq, Structural)]
pub enum ErrorSeverity {
    Info,
    Warning,
    Error,
    Critical,
}

/// Every error the application reports.
#[derive(Debug)]
pub enum AppError {
    Io(std::io::Error),
    Database(String),
    YtDlp(String),
    YtDlpLoginRequired,
    YtDlpRateLimited,
    YtDlpUnavailable,
    YtDlpNetworkError,
    YtDlpBrowserLock,
    DependencyMissing(String),
    Internal(String),
    Cancelled,
    PlaylistUrlInSingleMode,
}

/// The display text of every error but `Io`, whose text comes from the operating system.
pub open spec fn spec_message(e: AppError) -> Seq<char> {
    match e {
        AppError::Io(_) => "IO error: "@,
        AppError::Database(s) => "Database error: "@ + s@,
        AppError::YtDlp(s) => "yt-dlp error: "@ + s@,
        AppError::YtDlpLoginRequired => "Login required. Use Firefox Auth."@,
        AppError::YtDlpRateLimited => "Too many requests (429). Try again later."@,
        AppError::YtDlpUnavailable => "Video unavailable (Geo-block/Private/Deleted)."@,
        AppError::YtDlpNetworkError => "Network error during download."@,
        AppError::YtDlpBrowserLock =>
            "Browser cookies locked (Firefox is running). Please close Firefox and retry."@,
        AppError::DependencyMissing(s) => "Dependency missing: "@ + s@,
        AppError::Internal(s) => "Internal error: "@ + s@,
        AppError::Cancelled => "Cancelled"@,
        AppError::PlaylistUrlInSingleMode =>
            "Playlist URL detected. Please switch to Playlist mode."@,
    }
}

/// The message shown to the user.
pub open spec fn spec_user_message(e: AppError) -> Seq<char> {
    match e {
        AppError::YtDlpLoginRequired => "Bot detection triggered. Please sign in to Firefox."@,
        AppError::YtDlpBrowserLock => "Firefox cookies are locked. Close Firefox and retry."@,
        AppError::YtDlpRateLimited => "YouTube rate limited. Try again in an hour."@,
        AppError::YtDlpUnavailable => "This video is unavailable (region-locked or private)."@,
        AppError::PlaylistUrlInSingleMode => "This is a playlist URL — switch to Playlist mode."@,
        _ => spec_message(e),
    }
}

pub open spec fn spec_severity(e: AppError) -> ErrorSeverity {
    match e {
        AppError::YtDlpLoginRequired
        | AppError::YtDlpBrowserLock
        | AppError::PlaylistUrlInSingleMode
        | AppError::YtDlpRateLimited => ErrorSeverity::Warning,
        AppError::YtDlpUnavailable
        | AppError::YtDlpNetworkError
        | AppError::YtDlp(_)
        | AppError::Io(_) => ErrorSeverity::Error,
        AppError::Database(_) | AppError::DependencyMissing(_) | AppError::Internal(_) =>
            ErrorSeverity::Critical,
        AppError::Cancelled => ErrorSeverity::Info,
    }
}

/// The recovery action the UI offers for an error.
pub open spec fn spec_recovery_action(e: AppError) -> Option<Seq<char>> {
    match e {
        AppError::YtDlpLoginRequired => Some("open_settings"@),
        AppError::YtDlpBrowserLock | AppError::YtDlpRateLimited => Some("retry"@),
        AppError::DependencyMissing(_) => Some("open_setup"@),
        _ => None,
    }
}

pub open spec fn spec_category(e: AppError) -> ErrorCategory {
    match e {
        AppError::YtDlpLoginRequired => ErrorCategory::AuthRequired,
        AppError::YtDlpRateLimited => ErrorCategory::RateLimited,
        AppError::YtDlpUnavailable => ErrorCategory::Unavailable,
        AppError::YtDlpBrowserLock => ErrorCategory::BrowserLock,
        AppError::DependencyMissing(_) => ErrorCategory::DependencyMissing,
        _ => ErrorCategory::Generic,
    }
}

/// The text of an I/O error (`io::Error`'s `Display`).
/// Nothing is stated of it: it depends on the operating system.
#[verifier::external_body]
fn io_error_text(e: &std::io::Error) -> String {
    e.to_string()
}

impl AppError {
    /// The error's display text. For `Io` it is `"IO error: "` followed by the
    /// operating system's text.
    pub fn message(&self) -> (r: String)
        ensures
            !(self is Io) ==> r@ == spec_message(*self),
            self is Io ==> r@.len() >= 10 && r@.subrange(0, 10) == "IO error: "@,
    {
        match self {
            AppError::Io(e) => {
                let t = io_error_text(e);
                let r = concat2("IO error: ", t.as_str());
                proof {
                    reveal_strlit("IO error: ");
                    assert(r@.subrange(0, 10) =~= "IO error: "@);
                }
                r
            },
            AppError::Database(s) => concat2("Database error: ", s.as_str()),
            AppError::YtDlp(s) => concat2("yt-dlp error: ", s.as_str()),
            AppError::YtDlpLoginRequired => String::from_str("Login required. Use Firefox Auth."),
            AppError::YtDlpRateLimited => String::from_str(
                "Too many requests (429). Try again later.",
            ),
            AppError::YtDlpUnavailable => String::from_str(
                "Video unavailable (Geo-block/Private/Deleted).",
            ),
            AppError::YtDlpNetworkError => String::from_str("Network error during download."),
            AppError::YtDlpBrowserLock => String::from_str(
                "Browser cookies locked (Firefox is running). Please close Firefox and retry.",
            ),
            AppError::DependencyMissing(s) => concat2("Dependency missing: ", s.as_str()),
            AppError::Internal(s) => concat2("Internal error: ", s.as_str()),
            AppError::Cancelled => String::from_str("Cancelled"),
            AppError::PlaylistUrlInSingleMode => String::from_str(
                "Playlist URL detected. Please switch to Playlist mode.",
            ),
        }
    }

    /// How serious the error is.
    pub fn severity(&self) -> (r: ErrorSeverity)
        ensures
            r == spec_severity(*self),
    {
        match self {
            AppError::YtDlpLoginRequired
            | AppError::YtDlpBrowserLock
            | AppError::PlaylistUrlInSingleMode
            | AppError::YtDlpRateLimited => ErrorSeverity::Warning,
            AppError::YtDlpUnavailable
            | AppError::YtDlpNetworkError
            | AppError::YtDlp(_)
            | AppError::Io(_) => ErrorSeverity::Error,
            AppError::Database(_) | AppError::DependencyMissing(_) | AppError::Internal(_) => {
                ErrorSeverity::Critical
            },
            AppError::Cancelled => ErrorSeverity::Info,
        }
    }

    /// The message shown to the user: a friendlier text for the errors the user
    /// can act on, the display text otherwise.
    pub fn user_message(&self) -> (r: String)
        ensures
            !(self is Io) ==> r@ == spec_user_message(*self),
            self is Io ==> r@.len() >= 10 && r@.subrange(0, 10) == "IO error: "@,
    {
        match self {
            AppError::YtDlpLoginRequired => String::from_str(
                "Bot detection triggered. Please sign in to Firefox.",
            ),
            AppError::YtDlpBrowserLock => String::from_str(
                "Firefox cookies are locked. Close Firefox and retry.",
            ),
            AppError::YtDlpRateLimited => String::from_str(
                "YouTube rate limited. Try again in an hour.",
            ),
            AppError::YtDlpUnavailable => String::from_str(
                "This video is unavailable (region-locked or private).",
            ),
            AppError::PlaylistUrlInSingleMode => String::from_str(
                "This is a playlist URL — switch to Playlist mode.",
            ),
            _ => self.message(),
        }
    }

    /// The UI action that helps the user recover, where there is one.
    pub fn recovery_action(&self) -> (r: Option<&'static str>)
        ensures
            (match r {
                Some(a) => Some(a@),
                None => None,
            }) == spec_recovery_action(*self),
    {
        match self {
            AppError::YtDlpLoginRequired => Some("open_settings"),
            AppError::YtDlpBrowserLock | AppError::YtDlpRateLimited => Some("retry"),
            AppError::DependencyMissing(_) => Some("open_setup"),
            _ => None,
        }
    }

    /// The category the UI uses to choose a recovery path.
    pub fn category(&self) -> (r: ErrorCategory)
        ensures
            r == spec_category(*self),
    {
        match self {
            AppError::YtDlpLoginRequired => ErrorCategory::AuthRequired,
            AppError::YtDlpRateLimited => ErrorCategory::RateLimited,
            AppError::YtDlpUnavailable => ErrorCategory::Unavailable,
            AppError::YtDlpBrowserLock => ErrorCategory::BrowserLock,
            AppError::DependencyMissing(_) => ErrorCategory::DependencyMissing,
            _ => ErrorCategory::Generic,
        }
    }
}

/// The mathematical value of an [`AppError`]; an I/O error is known by its variant only.
pub enum AppErrorView {
    Io,
    Database(Seq<char>),
    YtDlp(Seq<char>),
    YtDlpLoginRequired,
    YtDlpRateLimited,
    YtDlpUnavailable,
    YtDlpNetworkError,
    YtDlpBrowserLock,
    DependencyMissing(Seq<char>),
    Internal(Seq<char>),
    Cancelled,
    PlaylistUrlInSingleMode,
}

impl View for AppError {
    type V = AppErrorView;

    open spec fn view(&self) -> AppErrorView {
        match *self {
            AppError::Io(_) => AppErrorView::Io,
            AppError::Database(s) => AppErrorView::Database(s@),
            AppError::YtDlp(s) => AppErrorView::YtDlp(s@),
            AppError::YtDlpLoginRequired => AppErrorView::YtDlpLoginRequired,
            AppError::YtDlpRateLimited => AppErrorView::YtDlpRateLimited,
            AppError::YtDlpUnavailable => AppErrorView::YtDlpUnavailable,
            AppError::YtDlpNetworkError => AppErrorView::YtDlpNetworkError,
            AppError::YtDlpBrowserLock => AppErrorView::YtDlpBrowserLock,
            AppError::DependencyMissing(s) => AppErrorView::DependencyMissing(s@),
            AppError::Internal(s) => AppErrorView::Internal(s@),
            AppError::Cancelled => AppErrorView::Cancelled,
            AppError::PlaylistUrlInSingleMode => AppErrorView::PlaylistUrlInSingleMode,
        }
    }
}

/// Result type of the application's fallible operations.
pub type AppResult<T> = Result<T, AppError>;

} // verus!
