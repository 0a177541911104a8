//! User settings: defaults, repair of invalid values, and what a load from disk yields.
use crate::text::{copy_string, decimal, push_decimal};
use vstd::prelude::*;
use vstd::string::*;

verus! {

/// Core application configuration.
#[derive(Debug)]
pub struct AppConfig {
    pub download_path: Option<String>,
    pub video_path: Option<String>,
    pub default_format: String,
    pub video_format: String,
    pub video_quality: String,
    pub max_concurrent_downloads: usize,
    pub cookies_enabled: bool,
    pub debug_logging: bool,
    pub custom_deps: bool,
    pub setup_shown: bool,
}

/// The mathematical value of an [`AppConfig`].
pub struct AppConfigView {
    pub download_path: Option<Seq<char>>,
    pub video_path: Option<Seq<char>>,
    pub default_format: Seq<char>,
    pub video_format: Seq<char>,
    pub video_quality: Seq<char>,
    pub max_concurrent_downloads: usize,
    pub cookies_enabled: bool,
    pub debug_logging: bool,
    pub custom_deps: bool,
    pub setup_shown: bool,
}

pub open spec fn opt_view(o: Option<String>) -> Option<Seq<char>> {
    match o {
        Some(s) => Some(s@),
        None => None,
    }
}

impl View for AppConfig {
    type V = AppConfigView;

    open spec fn view(&self) -> AppConfigView {
        AppConfigView {
            download_path: opt_view(self.download_path),
            video_path: opt_view(self.video_path),
            default_format: self.default_format@,
            video_format: self.video_format@,
            video_quality: self.video_quality@,
            max_concurrent_downloads: self.max_concurrent_downloads,
            cookies_enabled: self.cookies_enabled,
            debug_logging: self.debug_logging,
            custom_deps: self.custom_deps,
            setup_shown: self.setup_shown,
        }
    }
}

pub fn copy_opt_string(o: &Option<String>) -> (r: Option<String>)
    ensures
        r == *o,
{
    match o {
        Some(s) => Some(copy_string(s)),
        None => None,
    }
}

impl AppConfig {
    /// A copy of the configuration.
    pub fn duplicate(&self) -> (r: AppConfig)
        ensures
            r == *self,
    {
        AppConfig {
            download_path: copy_opt_string(&self.download_path),
            video_path: copy_opt_string(&self.video_path),
            default_format: copy_string(&self.default_format),
            video_format: copy_string(&self.video_format),
            video_quality: copy_string(&self.video_quality),
            max_concurrent_downloads: self.max_concurrent_downloads,
            cookies_enabled: self.cookies_enabled,
            debug_logging: self.debug_logging,
            custom_deps: self.custom_deps,
            setup_shown: self.setup_shown,
        }
    }
}

/// The configuration a fresh installation starts with.
pub open spec fn default_config_view() -> AppConfigView {
    AppConfigView {
        download_path: None,
        video_path: None,
        default_format: "m4a"@,
        video_format: "mp4"@,
        video_quality: "1080"@,
        max_concurrent_downloads: 3,
        cookies_enabled: false,
        debug_logging: false,
        custom_deps: false,
        setup_shown: false,
    }
}

impl Default for AppConfig {
    fn default() -> (r: AppConfig)
        ensures
            r@ == default_config_view(),
    {
        AppConfig {
            download_path: None,
            video_path: None,
            default_format: default_format(),
            video_format: default_video_format(),
            video_quality: default_video_quality(),
            max_concurrent_downloads: default_max_concurrent(),
            cookies_enabled: false,
            debug_logging: false,
            custom_deps: false,
            setup_shown: false,
        }
    }
}

/// Default of the `debug_logging` setting.
pub fn default_false() -> (r: bool)
    ensures
        r == false,
{
    false
}

/// Default audio format.
pub fn default_format() -> (r: String)
    ensures
        r@ == "m4a"@,
{
    String::from_str("m4a")
}

/// Default video container.
pub fn default_video_format() -> (r: String)
    ensures
        r@ == "mp4"@,
{
    String::from_str("mp4")
}

/// Default maximal video height.
pub fn default_video_quality() -> (r: String)
    ensures
        r@ == "1080"@,
{
    String::from_str("1080")
}

/// Default number of downloads that run at once.
pub fn default_max_concurrent() -> (r: usize)
    ensures
        r == 3,
{
    3
}

// ─── Default output directories ─────────────────────────────

/// `dirs::audio_dir()`, as text. Which directory it is depends on the user's
/// environment and is not stated; a directory it names is a non-empty path (an
/// absolute one, or one joined to the home directory).
#[verifier::external_body]
fn os_audio_dir() -> (r: Option<String>)
    ensures
        r matches Some(s) ==> s@.len() > 0,
{
    match dirs::audio_dir() {
        Some(p) => Some(p.to_string_lossy().to_string()),
        None => None,
    }
}

/// `dirs::video_dir()`, as text. Which directory it is depends on the user's
/// environment and is not stated; a directory it names is a non-empty path (an
/// absolute one, or one joined to the home directory).
#[verifier::external_body]
fn os_video_dir() -> (r: Option<String>)
    ensures
        r matches Some(s) ==> s@.len() > 0,
{
    match dirs::video_dir() {
        Some(p) => Some(p.to_string_lossy().to_string()),
        None => None,
    }
}

/// `dirs::download_dir()`, as text. Which directory it is depends on the user's
/// environment and is not stated; a directory it names is a non-empty path (an
/// absolute one, or one joined to the home directory).
#[verifier::external_body]
fn os_download_dir() -> (r: Option<String>)
    ensures
        r matches Some(s) ==> s@.len() > 0,
{
    match dirs::download_dir() {
        Some(p) => Some(p.to_string_lossy().to_string()),
        None => None,
    }
}

/// The preferred directory, else the fallback, else the current directory.
pub open spec fn spec_choose_dir(preferred: Option<Seq<char>>, fallback: Option<Seq<char>>) -> Seq<
    char,
> {
    match preferred {
        Some(p) => p,
        None => match fallback {
            Some(f) => f,
            None => "."@,
        },
    }
}

/// Picks the preferred directory, else the fallback, else `"."`.
pub fn choose_dir(preferred: Option<String>, fallback: Option<String>) -> (r: String)
    ensures
        r@ == spec_choose_dir(opt_view(preferred), opt_view(fallback)),
{
    match preferred {
        Some(p) => p,
        None => match fallback {
            Some(f) => f,
            None => String::from_str("."),
        },
    }
}

/// Default directory for audio downloads: the audio directory, else the download directory, else `"."`.
pub fn get_default_download_path() -> (r: String)
    ensures
        r@.len() > 0,
{
    let r = choose_dir(os_audio_dir(), os_download_dir());
    proof {
        reveal_strlit(".");
    }
    r
}

/// Default directory for video downloads: the video directory, else the download directory, else `"."`.
pub fn get_default_video_path() -> (r: String)
    ensures
        r@.len() > 0,
{
    let r = choose_dir(os_video_dir(), os_download_dir());
    proof {
        reveal_strlit(".");
    }
    r
}

// ─── Repair ─────────────────────────────────────────────────

/// A path setting that must be replaced by its default.
pub open spec fn path_missing(p: Option<Seq<char>>) -> bool {
    match p {
        Some(s) => s.len() == 0,
        None => true,
    }
}

/// Whether [`sanitize_config`] changes anything.
pub open spec fn needs_repair(c: AppConfigView) -> bool {
    ||| c.max_concurrent_downloads == 0
    ||| path_missing(c.download_path)
    ||| path_missing(c.video_path)
    ||| c.default_format.len() == 0
    ||| c.video_format.len() == 0
    ||| c.video_quality.len() == 0
}

/// The repaired configuration, given the default download and video directories.
pub open spec fn spec_sanitized(c: AppConfigView, download_dir: Seq<char>, video_dir: Seq<char>) -> AppConfigView {
    AppConfigView {
        max_concurrent_downloads: if c.max_concurrent_downloads == 0 {
            3
        } else {
            c.max_concurrent_downloads
        },
        download_path: if path_missing(c.download_path) {
            Some(download_dir)
        } else {
            c.download_path
        },
        video_path: if path_missing(c.video_path) {
            Some(video_dir)
        } else {
            c.video_path
        },
        default_format: if c.default_format.len() == 0 {
            "m4a"@
        } else {
            c.default_format
        },
        video_format: if c.video_format.len() == 0 {
            "mp4"@
        } else {
            c.video_format
        },
        video_quality: if c.video_quality.len() == 0 {
            "1080"@
        } else {
            c.video_quality
        },
        ..c
    }
}

fn path_missing_exec(p: &Option<String>) -> (r: bool)
    ensures
        r == path_missing(opt_view(*p)),
{
    match p {
        Some(s) => s.unicode_len() == 0,
        None => true,
    }
}

/// Repairs invalid settings with the given default directories. Returns whether
/// anything changed.
pub fn sanitize_config_with(config: &mut AppConfig, download_dir: String, video_dir: String) -> (changed: bool)
    ensures
        changed == needs_repair(old(config)@),
        final(config)@ == spec_sanitized(old(config)@, download_dir@, video_dir@),
{
    let mut changed = false;
    if config.max_concurrent_downloads == 0 {
        config.max_concurrent_downloads = default_max_concurrent();
        changed = true;
    }
    if path_missing_exec(&config.download_path) {
        config.download_path = Some(download_dir);
        changed = true;
    }
    if path_missing_exec(&config.video_path) {
        config.video_path = Some(video_dir);
        changed = true;
    }
    if config.default_format.unicode_len() == 0 {
        config.default_format = default_format();
        changed = true;
    }
    if config.video_format.unicode_len() == 0 {
        config.video_format = default_video_format();
        changed = true;
    }
    if config.video_quality.unicode_len() == 0 {
        config.video_quality = default_video_quality();
        changed = true;
    }
    changed
}

/// Ensures config values are valid, repairing them if necessary: a concurrency of
/// zero, missing or empty directories and empty formats are replaced by their
/// defaults. Returns whether anything changed.
pub fn sanitize_config(config: &mut AppConfig) -> (changed: bool)
    ensures
        changed == needs_repair(old(config)@),
        exists|d: Seq<char>, v: Seq<char>|
            d.len() > 0 && v.len() > 0 && final(config)@ == spec_sanitized(old(config)@, d, v),
        !needs_repair(final(config)@),
{
    // A directory that is kept needs no default; "." stands in for it unused.
    let download_dir = if path_missing_exec(&config.download_path) {
        get_default_download_path()
    } else {
        String::from_str(".")
    };
    let video_dir = if path_missing_exec(&config.video_path) {
        get_default_video_path()
    } else {
        String::from_str(".")
    };
    proof {
        reveal_strlit(".");
    }
    let ghost (d, v) = (download_dir@, video_dir@);
    let changed = sanitize_config_with(config, download_dir, video_dir);
    proof {
        lemma_sanitize_idempotent(old(config)@, d, v, d, v);
    }
    changed
}

/// A configuration that needs no repair is left as it is.
pub proof fn lemma_sanitize_keeps_valid(c: AppConfigView, d: Seq<char>, v: Seq<char>)
    requires
        !needs_repair(c),
    ensures
        spec_sanitized(c, d, v) == c,
{
}

/// Repairing twice changes nothing the second time, as long as the default
/// directories are not empty.
pub proof fn lemma_sanitize_idempotent(
    c: AppConfigView,
    d1: Seq<char>,
    v1: Seq<char>,
    d2: Seq<char>,
    v2: Seq<char>,
)
    requires
        d1.len() > 0,
        v1.len() > 0,
    ensures
        !needs_repair(spec_sanitized(c, d1, v1)),
        spec_sanitized(spec_sanitized(c, d1, v1), d2, v2) == spec_sanitized(c, d1, v1),
{
    reveal_strlit("m4a");
    reveal_strlit("mp4");
    reveal_strlit("1080");
}

// ─── Changing settings ──────────────────────────────────────

impl AppConfig {
    /// Switches between bundled and user-provided tools.
    pub fn set_custom_mode(&mut self, enabled: bool)
        ensures
            final(self)@ == (AppConfigView { custom_deps: enabled, ..old(self)@ }),
    {
        self.custom_deps = enabled;
    }

    /// Records that the first-start setup is done, with the chosen tool mode.
    pub fn mark_setup_done(&mut self, custom: bool)
        ensures
            final(self)@ == (AppConfigView { custom_deps: custom, setup_shown: true, ..old(self)@ }),
    {
        self.setup_shown = true;
        self.custom_deps = custom;
    }
}

/// The log lines that report a change of settings, in order: the download limit,
/// then debug logging, each only when it changed.
pub open spec fn spec_change_messages(
    old_limit: usize,
    new_limit: usize,
    old_debug: bool,
    new_debug: bool,
) -> Seq<Seq<char>> {
    let a = if old_limit != new_limit {
        seq![
            "Concurrent download limit changed from "@ + decimal(old_limit as nat) + " to "@
                + decimal(new_limit as nat),
        ]
    } else {
        Seq::empty()
    };
    let b = if old_debug != new_debug {
        seq![
            if new_debug {
                "Debug logging enabled"@
            } else {
                "Debug logging disabled"@
            },
        ]
    } else {
        Seq::empty()
    };
    a + b
}

/// The log lines that report a change of settings.
pub fn change_messages(old_limit: usize, new_limit: usize, old_debug: bool, new_debug: bool) -> (r:
    Vec<String>)
    ensures
        crate::state::string_views(r@) == spec_change_messages(
            old_limit,
            new_limit,
            old_debug,
            new_debug,
        ),
{
    let mut r: Vec<String> = Vec::new();
    if old_limit != new_limit {
        let mut m = String::from_str("Concurrent download limit changed from ");
        push_decimal(&mut m, old_limit as u64);
        m.append(" to ");
        push_decimal(&mut m, new_limit as u64);
        r.push(m);
    }
    let ghost first = r@;
    if old_debug != new_debug {
        if new_debug {
            r.push(String::from_str("Debug logging enabled"));
        } else {
            r.push(String::from_str("Debug logging disabled"));
        }
    }
    assert(crate::state::string_views(r@) =~= spec_change_messages(
        old_limit,
        new_limit,
        old_debug,
        new_debug,
    ));
    r
}

// ─── Loading ────────────────────────────────────────────────

/// What a load from disk yields.
pub struct LoadedConfig {
    /// The configuration to use.
    pub config: AppConfig,
    /// No configuration file existed (first start).
    pub is_fresh: bool,
    /// The repaired configuration must be written back to the file.
    pub should_write: bool,
}

/// The configuration that a load starts from, before repair.
pub open spec fn load_base(file_exists: bool, loaded: Option<AppConfig>) -> AppConfigView {
    if file_exists && loaded is Some {
        loaded->0@
    } else {
        default_config_view()
    }
}

/// Settles the configuration after an attempt to read it from disk.
/// `path_known` says whether the configuration file's location could be
/// determined, `file_exists` whether the file exists, and `loaded` what could be
/// read and parsed from it.
pub fn finish_config_load(path_known: bool, file_exists: bool, loaded: Option<AppConfig>) -> (r:
    LoadedConfig)
    ensures
        r.is_fresh == !(path_known && file_exists),
        !path_known ==> r.config@ == default_config_view() && !r.should_write,
        path_known ==> r.should_write == (file_exists && needs_repair(
            load_base(file_exists, loaded),
        )),
        path_known ==> exists|d: Seq<char>, v: Seq<char>|
            d.len() > 0 && v.len() > 0 && r.config@ == spec_sanitized(
                load_base(file_exists, loaded),
                d,
                v,
            ),
        path_known ==> !needs_repair(r.config@),
{
    let mut config = AppConfig::default();
    let mut is_fresh = true;
    let mut should_write = false;
    if path_known {
        if file_exists {
            is_fresh = false;
            if let Some(c) = loaded {
                config = c;
            }
        }
        let ghost base = config@;
        assert(base == load_base(file_exists, loaded));
        let changed = sanitize_config(&mut config);
        if changed && !is_fresh {
            should_write = true;
        }
        proof {
            let (d, v) = choose|d: Seq<char>, v: Seq<char>|
                d.len() > 0 && v.len() > 0 && config@ == spec_sanitized(base, d, v);
            assert(config@ == spec_sanitized(base, d, v));
        }
    }
    LoadedConfig { config, is_fresh, should_write }
}

} // verus!
