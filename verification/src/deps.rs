//! The external tools (yt-dlp, ffmpeg, deno): where they come from, how their
//! installation is planned, and how their versions are judged.
use crate::text::{
    char_is_space, chars_of, concat3, contains, decimal, ends_with, is_space, occurs_at,
    occurs_at_exec, push_decimal, skip_space, skip_space_exec, substring,
};
use crate::config::copy_opt_string;
use crate::state::InnerState;
use vstd::prelude::*;
use vstd::string::*;

verus! {

/// The platforms the application ships for.
#[derive(Debug, Clone, Copy, PartialEq, Eq, Structural)]
pub enum Platform {
    Windows,
    MacosAarch64,
    MacosX86_64,
    Linux,
}

/// Download URL of yt-dlp for the platform.
pub fn get_ytdlp_download_url(platform: Platform) -> (r: &'static str)
    ensures
        r@ == match platform {
            Platform::Windows => "https://github.com/yt-dlp/yt-dlp/releases/latest/download/yt-dlp.exe"@,
            Platform::MacosAarch64 | Platform::MacosX86_64 =>
                "https://github.com/yt-dlp/yt-dlp/releases/latest/download/yt-dlp_macos"@,
            Platform::Linux => "https://github.com/yt-dlp/yt-dlp/releases/latest/download/yt-dlp"@,
        },
{
    match platform {
        Platform::Windows => "https://github.com/yt-dlp/yt-dlp/releases/latest/download/yt-dlp.exe",
        Platform::MacosAarch64 | Platform::MacosX86_64 => {
            "https://github.com/yt-dlp/yt-dlp/releases/latest/download/yt-dlp_macos"
        },
        Platform::Linux => "https://github.com/yt-dlp/yt-dlp/releases/latest/download/yt-dlp",
    }
}

/// Download URL of ffmpeg for the platform.
pub fn get_ffmpeg_download_url(platform: Platform) -> (r: &'static str)
    ensures
        r@ == match platform {
            Platform::Windows =>
                "https://github.com/BtbN/FFmpeg-Builds/releases/download/latest/ffmpeg-master-latest-win64-gpl.zip"@,
            Platform::MacosAarch64 | Platform::MacosX86_64 =>
                "https://evermeet.cx/ffmpeg/getrelease/zip"@,
            Platform::Linux =>
                "https://github.com/BtbN/FFmpeg-Builds/releases/download/latest/ffmpeg-master-latest-linux64-gpl.tar.xz"@,
        },
{
    match platform {
        Platform::Windows => {
            "https://github.com/BtbN/FFmpeg-Builds/releases/download/latest/ffmpeg-master-latest-win64-gpl.zip"
        },
        Platform::MacosAarch64 | Platform::MacosX86_64 => "https://evermeet.cx/ffmpeg/getrelease/zip",
        Platform::Linux => {
            "https://github.com/BtbN/FFmpeg-Builds/releases/download/latest/ffmpeg-master-latest-linux64-gpl.tar.xz"
        },
    }
}

/// Download URL of deno for the platform.
pub fn get_deno_download_url(platform: Platform) -> (r: &'static str)
    ensures
        r@ == match platform {
            Platform::Windows =>
                "https://github.com/denoland/deno/releases/latest/download/deno-x86_64-pc-windows-msvc.zip"@,
            Platform::MacosAarch64 =>
                "https://github.com/denoland/deno/releases/latest/download/deno-aarch64-apple-darwin.zip"@,
            Platform::MacosX86_64 =>
                "https://github.com/denoland/deno/releases/latest/download/deno-x86_64-apple-darwin.zip"@,
            Platform::Linux =>
                "https://github.com/denoland/deno/releases/latest/download/deno-x86_64-unknown-linux-gnu.zip"@,
        },
{
    match platform {
        Platform::Windows => {
            "https://github.com/denoland/deno/releases/latest/download/deno-x86_64-pc-windows-msvc.zip"
        },
        Platform::MacosAarch64 => {
            "https://github.com/denoland/deno/releases/latest/download/deno-aarch64-apple-darwin.zip"
        },
        Platform::MacosX86_64 => {
            "https://github.com/denoland/deno/releases/latest/download/deno-x86_64-apple-darwin.zip"
        },
        Platform::Linux => {
            "https://github.com/denoland/deno/releases/latest/download/deno-x86_64-unknown-linux-gnu.zip"
        },
    }
}

/// The GitHub API address of a repository's latest release.
pub fn github_release_api_url(repo: &str) -> (r: String)
    ensures
        r@ == "https://api.github.com/repos/"@ + repo@ + "/releases/latest"@,
{
    concat3("https://api.github.com/repos/", repo, "/releases/latest")
}

/// What `serde_json` reads from a text: nothing when it is no JSON; else the
/// string value of its top-level field `key`, if that field is a string.
pub uninterp spec fn json_string_field(body: Seq<char>, key: Seq<char>) -> Option<Option<Seq<char>>>;

/// Parses a JSON text with `serde_json::from_str` into a `Value` and reads the
/// string field `key` (`Value::as_str`): `None` when the text does not parse.
/// The result is what `json_string_field` names.
#[verifier::external_body]
fn json_field_str(body: &str, key: &str) -> (r: Option<Option<String>>)
    ensures
        match r {
            Some(f) => json_string_field(body@, key@) == Some(opt_view(f)),
            None => json_string_field(body@, key@) is None,
        },
{
    match serde_json::from_str::<serde_json::Value>(body) {
        Ok(v) => match v[key].as_str() {
            Some(t) => Some(Some(t.to_string())),
            None => Some(None),
        },
        Err(_) => None,
    }
}

/// The error the HTTP client reports for an answer that is no JSON.
pub open spec fn undecodable_body_message() -> Seq<char> {
    "error decoding response body"@
}

/// The tag of a repository's latest release from the GitHub API's answer.
pub fn release_tag(body: &str, repo: &str) -> (r: Result<String, String>)
    ensures
        match json_string_field(body@, "tag_name"@) {
            Some(Some(t)) => r matches Ok(x) && x@ == t,
            Some(None) => r matches Err(m) && m@ == "Failed to parse version for "@ + repo@,
            None => r matches Err(m) && m@ == undecodable_body_message(),
        },
{
    match json_field_str(body, "tag_name") {
        Some(Some(t)) => Ok(t),
        Some(None) => Err(crate::text::concat2("Failed to parse version for ", repo)),
        None => {
            let m = String::from_str("error decoding response body");
            proof {
                reveal_strlit("error decoding response body");
            }
            Err(m)
        },
    }
}

/// The steps of a component installation.
#[derive(Debug, Clone, Copy, PartialEq, Eq, Structural)]
pub enum DepStatus {
    Starting,
    Downloading,
    Finalizing,
    Complete,
}

impl DepStatus {
    /// The name the UI knows the step by.
    pub fn as_str(&self) -> (r: &'static str)
        ensures
            r@ == match *self {
                DepStatus::Starting => "starting"@,
                DepStatus::Downloading => "downloading"@,
                DepStatus::Finalizing => "finalizing"@,
                DepStatus::Complete => "complete"@,
            },
    {
        match self {
            DepStatus::Starting => "starting",
            DepStatus::Downloading => "downloading",
            DepStatus::Finalizing => "finalizing",
            DepStatus::Complete => "complete",
        }
    }
}

/// Which components an installation request covers.
#[derive(Debug, Clone, Copy, PartialEq, Eq, Structural)]
pub struct InstallPlan {
    pub ytdlp: bool,
    pub ffmpeg: bool,
    pub deno: bool,
}

pub open spec fn spec_install_plan(target: Option<Seq<char>>) -> InstallPlan {
    match target {
        None => InstallPlan { ytdlp: true, ffmpeg: true, deno: true },
        Some(t) => InstallPlan {
            ytdlp: t == "yt-dlp"@,
            ffmpeg: t == "ffmpeg"@ || t == "ffprobe"@,
            deno: t == "deno"@,
        },
    }
}

/// The components that an installation request covers: every component when no
/// target is named, `ffmpeg` for `ffmpeg` or `ffprobe`.
pub fn install_plan(target: Option<&str>) -> (r: InstallPlan)
    ensures
        r == spec_install_plan(match target {
            Some(t) => Some(t@),
            None => None,
        }),
{
    match target {
        None => InstallPlan { ytdlp: true, ffmpeg: true, deno: true },
        Some(t) => {
            let s = String::from_str(t);
            InstallPlan {
                ytdlp: s == String::from_str("yt-dlp"),
                ffmpeg: s == String::from_str("ffmpeg") || s == String::from_str("ffprobe"),
                deno: s == String::from_str("deno"),
            }
        },
    }
}

/// The directory name of the installed tools: a separate one in custom mode.
pub fn bin_folder_name(custom_deps: bool) -> (r: &'static str)
    ensures
        r@ == (if custom_deps {
            "custombin"@
        } else {
            "bin"@
        }),
{
    if custom_deps {
        "custombin"
    } else {
        "bin"
    }
}

/// The file name of a tool's executable: with `.exe` on Windows.
pub fn executable_file_name(tool: &str, windows: bool) -> (r: String)
    ensures
        r@ == (if windows {
            tool@ + ".exe"@
        } else {
            tool@
        }),
{
    if windows {
        crate::text::concat2(tool, ".exe")
    } else {
        String::from_str(tool)
    }
}

/// How the presence of ffmpeg, ffprobe and deno is checked.
#[derive(Debug, Clone, Copy, PartialEq, Eq, Structural)]
pub enum ToolProbe {
    /// Run the tool with its version flag; it is present when that succeeds.
    RunVersion,
    /// It is present when its file exists.
    FileExists,
}

/// User-provided tools are checked by running them; bundled ones by their files.
pub fn tool_probe(custom_deps: bool) -> (r: ToolProbe)
    ensures
        r == (if custom_deps {
            ToolProbe::RunVersion
        } else {
            ToolProbe::FileExists
        }),
{
    if custom_deps {
        ToolProbe::RunVersion
    } else {
        ToolProbe::FileExists
    }
}

// ─── Versions ───────────────────────────────────────────────

/// The first line of a text (what `str::lines` yields first): up to the first line
/// feed, without a carriage return before it. An empty text has no line.
pub open spec fn first_line(s: Seq<char>) -> Option<Seq<char>> {
    if s.len() == 0 {
        None
    } else {
        let end = match first_char_from(s, '\n', 0) {
            Some(i) => i,
            None => s.len() as int,
        };
        let l = s.subrange(0, end);
        if l.len() > 0 && l.last() == '\r' && end < s.len() {
            Some(l.drop_last())
        } else {
            Some(l)
        }
    }
}

/// Index of the first `c` at or after `i`.
pub open spec fn first_char_from(s: Seq<char>, c: char, i: int) -> Option<int>
    decreases s.len() - i,
{
    if i < 0 || i >= s.len() {
        None
    } else if s[i] == c {
        Some(i)
    } else {
        first_char_from(s, c, i + 1)
    }
}

/// `s` with every occurrence of `p`, read from the left without overlap, removed.
pub open spec fn remove_all(s: Seq<char>, p: Seq<char>) -> Seq<char>
    decreases s.len(),
{
    if p.len() == 0 || s.len() == 0 {
        s
    } else if occurs_at(s, p, 0) {
        remove_all(s.subrange(p.len() as int, s.len() as int), p)
    } else {
        seq![s[0]] + remove_all(s.subrange(1, s.len() as int), p)
    }
}

/// End of the run of non-whitespace characters starting at `i`.
pub open spec fn token_end(s: Seq<char>, i: int) -> int
    decreases s.len() - i,
{
    if i < 0 || i >= s.len() || is_space(s[i]) {
        i
    } else {
        token_end(s, i + 1)
    }
}

/// The first whitespace-separated word of `s`, or the empty text.
pub open spec fn first_word(s: Seq<char>) -> Seq<char> {
    let a = skip_space(s, 0);
    s.subrange(a, token_end(s, a))
}

/// The version `deno --version` reports: the first word of its first line once
/// every `deno ` is removed.
pub open spec fn spec_deno_version(out: Seq<char>) -> Option<Seq<char>> {
    match first_line(out) {
        Some(l) => Some(first_word(remove_all(l, "deno "@))),
        None => None,
    }
}

proof fn lemma_first_char_from(s: Seq<char>, c: char, i: int)
    requires
        0 <= i,
    ensures
        first_char_from(s, c, i) matches Some(k) ==> i <= k < s.len() && s[k] == c,
    decreases s.len() - i,
{
    if i < s.len() && s[i] != c {
        lemma_first_char_from(s, c, i + 1);
    }
}

proof fn lemma_token_end(s: Seq<char>, i: int)
    requires
        0 <= i <= s.len(),
    ensures
        i <= token_end(s, i) <= s.len(),
    decreases s.len() - i,
{
    if i < s.len() && !is_space(s[i]) {
        lemma_token_end(s, i + 1);
    }
}

fn first_line_exec(s: &str) -> (r: Option<String>)
    ensures
        match r {
            Some(l) => first_line(s@) == Some(l@),
            None => first_line(s@) is None,
        },
{
    let cs = chars_of(s);
    let n = cs.len();
    if n == 0 {
        return None;
    }
    let mut i: usize = 0;
    while i < n && cs[i] != '\n'
        invariant
            i <= n,
            n == cs@.len(),
            cs@ == s@,
            first_char_from(s@, '\n', i as int) == first_char_from(s@, '\n', 0),
        decreases n - i,
    {
        i = i + 1;
    }
    proof {
        if i == n {
            assert(first_char_from(s@, '\n', n as int) is None);
        }
    }
    if i > 0 && cs[i - 1] == '\r' && i < n {
        let l = substring(s, 0, i - 1);
        assert(l@ =~= s@.subrange(0, i as int).drop_last());
        Some(l)
    } else {
        Some(substring(s, 0, i))
    }
}

fn remove_all_exec(s: &str, p: &str) -> (r: String)
    ensures
        r@ == remove_all(s@, p@),
{
    let cs = chars_of(s);
    let pc = chars_of(p);
    let n = cs.len();
    let mut out = String::new();
    let mut i: usize = 0;
    if pc.len() == 0 {
        return String::from_str(s);
    }
    assert(s@.subrange(0, n as int) =~= s@);
    assert(out@ + remove_all(s@, p@) =~= remove_all(s@, p@));
    while i < n
        invariant
            i <= n,
            n == cs@.len(),
            cs@ == s@,
            pc@ == p@,
            p@.len() > 0,
            out@ + remove_all(s@.subrange(i as int, n as int), p@) == remove_all(s@, p@),
        decreases n - i,
    {
        let ghost rest = s@.subrange(i as int, n as int);
        if occurs_at_exec(&cs, &pc, i) {
            proof {
                assert(rest.subrange(0, p@.len() as int) =~= s@.subrange(
                    i as int,
                    i + p@.len(),
                ));
                assert(rest.subrange(p@.len() as int, rest.len() as int) =~= s@.subrange(
                    i + p@.len(),
                    n as int,
                ));
            }
            i = i + pc.len();
        } else {
            proof {
                if occurs_at(rest, p@, 0) {
                    assert(rest.subrange(0, p@.len() as int) =~= s@.subrange(
                        i as int,
                        i + p@.len(),
                    ));
                }
                assert(rest.subrange(1, rest.len() as int) =~= s@.subrange(i + 1, n as int));
            }
            let piece = substring(s, i, i + 1);
            assert(piece@ =~= seq![rest[0]]);
            let ghost before = out@;
            out.append(piece.as_str());
            assert(out@ + remove_all(s@.subrange(i + 1, n as int), p@) =~= before + remove_all(
                rest,
                p@,
            ));
            i = i + 1;
        }
    }
    assert(s@.subrange(n as int, n as int).len() == 0);
    assert(out@ =~= remove_all(s@, p@));
    out
}

fn first_word_exec(s: &str) -> (r: String)
    ensures
        r@ == first_word(s@),
{
    let cs = chars_of(s);
    let a = skip_space_exec(&cs, 0);
    let mut b = a;
    while b < cs.len() && !char_is_space(cs[b])
        invariant
            a <= b <= cs@.len(),
            cs@ == s@,
            token_end(s@, b as int) == token_end(s@, a as int),
        decreases cs@.len() - b,
    {
        b = b + 1;
    }
    substring(s, a, b)
}

/// The version that `deno --version` reports.
pub fn deno_version_from_output(out: &str) -> (r: Option<String>)
    ensures
        match r {
            Some(v) => spec_deno_version(out@) == Some(v@),
            None => spec_deno_version(out@) is None,
        },
{
    match first_line_exec(out) {
        Some(l) => {
            let stripped = remove_all_exec(l.as_str(), "deno ");
            Some(first_word_exec(stripped.as_str()))
        },
        None => None,
    }
}

/// `s` without its leading `v`s.
pub open spec fn strip_v(s: Seq<char>) -> Seq<char>
    decreases s.len(),
{
    if s.len() > 0 && s[0] == 'v' {
        strip_v(s.subrange(1, s.len() as int))
    } else {
        s
    }
}

pub open spec fn spec_update_available(
    current: Option<Seq<char>>,
    latest: Option<Seq<char>>,
    strip: bool,
) -> bool {
    match (current, latest) {
        (Some(c), Some(l)) => c != (if strip {
            strip_v(l)
        } else {
            l
        }),
        _ => false,
    }
}

pub open spec fn opt_view(o: Option<String>) -> Option<Seq<char>> {
    match o {
        Some(s) => Some(s@),
        None => None,
    }
}

fn strip_v_exec(s: &str) -> (r: String)
    ensures
        r@ == strip_v(s@),
{
    let cs = chars_of(s);
    let mut i: usize = 0;
    assert(s@.subrange(0, s@.len() as int) =~= s@);
    while i < cs.len() && cs[i] == 'v'
        invariant
            i <= cs@.len(),
            cs@ == s@,
            strip_v(s@.subrange(i as int, s@.len() as int)) == strip_v(s@),
        decreases cs@.len() - i,
    {
        proof {
            let t = s@.subrange(i as int, s@.len() as int);
            assert(t.subrange(1, t.len() as int) =~= s@.subrange(i + 1, s@.len() as int));
        }
        i = i + 1;
    }
    assert(s@.subrange(0, s@.len() as int) =~= s@);
    substring(s, i, cs.len())
}

/// Whether a newer yt-dlp is available: the installed and the latest version are
/// both known and differ.
pub fn ytdlp_update_available(current: &Option<String>, latest: &Option<String>) -> (r: bool)
    ensures
        r == spec_update_available(opt_view(*current), opt_view(*latest), false),
{
    match (current, latest) {
        (Some(c), Some(l)) => *c != *l,
        _ => false,
    }
}

/// Whether a newer deno is available: the installed version differs from the
/// latest release tag without its leading `v`s.
pub fn deno_update_available(current: &Option<String>, latest: &Option<String>) -> (r: bool)
    ensures
        r == spec_update_available(opt_view(*current), opt_view(*latest), true),
{
    match (current, latest) {
        (Some(c), Some(l)) => *c != strip_v_exec(l.as_str()),
        _ => false,
    }
}

/// Cached release versions are used for an hour.
pub fn latest_cache_is_fresh(elapsed_secs: Option<u64>) -> (r: bool)
    ensures
        r == match elapsed_secs {
            Some(e) => e < 3600,
            None => false,
        },
{
    match elapsed_secs {
        Some(e) => e < 3600,
        None => false,
    }
}

impl InnerState {
    /// Stores freshly fetched release versions of yt-dlp and deno; a version that
    /// was not fetched keeps the cached one. Returns the versions to report.
    pub fn record_latest_versions(&mut self, ytdlp: Option<String>, deno: Option<String>) -> (r: (
        Option<String>,
        Option<String>,
    ))
        requires
            old(self).wf(),
        ensures
            final(self).wf(),
            final(self).downloads == old(self).downloads,
            final(self).config == old(self).config,
            final(self).current_limit == old(self).current_limit,
            final(self).installing == old(self).installing,
            final(self).cookie_check_in_progress == old(self).cookie_check_in_progress,
            final(self).cached_ytdlp_latest == (if ytdlp is Some {
                ytdlp
            } else {
                old(self).cached_ytdlp_latest
            }),
            final(self).cached_deno_latest == (if deno is Some {
                deno
            } else {
                old(self).cached_deno_latest
            }),
            r.0 == final(self).cached_ytdlp_latest,
            r.1 == final(self).cached_deno_latest,
    {
        if ytdlp.is_some() {
            self.cached_ytdlp_latest = ytdlp;
        }
        if deno.is_some() {
            self.cached_deno_latest = deno;
        }
        (copy_opt_string(&self.cached_ytdlp_latest), copy_opt_string(&self.cached_deno_latest))
    }
}

/// How the latest release versions are obtained for a dependency check.
#[derive(Debug, Clone, Copy, PartialEq, Eq, Structural)]
pub enum UpdateCheck {
    /// Custom mode: no update check is made.
    Skip,
    /// The cached versions are fresh enough.
    UseCache,
    /// The versions are looked up again.
    Fetch,
}

/// No update check in custom mode; otherwise the cache serves for an hour after
/// the last lookup (`elapsed_secs` ago, if one was made).
pub fn update_check(custom_deps: bool, elapsed_secs: Option<u64>) -> (r: UpdateCheck)
    ensures
        custom_deps ==> r == UpdateCheck::Skip,
        !custom_deps ==> r == (if (match elapsed_secs {
            Some(e) => e < 3600,
            None => false,
        }) {
            UpdateCheck::UseCache
        } else {
            UpdateCheck::Fetch
        }),
{
    if custom_deps {
        UpdateCheck::Skip
    } else if latest_cache_is_fresh(elapsed_secs) {
        UpdateCheck::UseCache
    } else {
        UpdateCheck::Fetch
    }
}

/// Installation and update state of the tools, as the UI shows it.
#[derive(Debug)]
pub struct DependencyStatus {
    pub yt_dlp_installed: bool,
    pub yt_dlp_version: Option<String>,
    pub yt_dlp_update_available: bool,
    pub yt_dlp_latest_version: Option<String>,
    pub ffmpeg_installed: bool,
    pub ffprobe_installed: bool,
    pub deno_installed: bool,
    pub deno_version: Option<String>,
    pub deno_update_available: bool,
    pub deno_latest_version: Option<String>,
    pub binaries_missing: bool,
    pub installation_in_progress: bool,
    pub custom_deps: bool,
    pub setup_shown: bool,
}

/// Gathers the dependency report. `yt_dlp_version` is what `yt-dlp --version`
/// printed, where it ran; `latest` holds the latest release versions of yt-dlp and
/// deno, where they were looked up. In custom mode no update check is made: the
/// report holds no latest versions and no update, whatever `latest` holds.
pub fn dependency_report(
    yt_dlp_version: Option<String>,
    ffmpeg_installed: bool,
    ffprobe_installed: bool,
    deno_installed: bool,
    deno_version: Option<String>,
    latest: Option<(Option<String>, Option<String>)>,
    installation_in_progress: bool,
    custom_deps: bool,
    setup_shown: bool,
) -> (r: DependencyStatus)
    ensures
        r.yt_dlp_installed == yt_dlp_version is Some,
        r.yt_dlp_version == yt_dlp_version,
        r.ffmpeg_installed == ffmpeg_installed,
        r.ffprobe_installed == ffprobe_installed,
        r.deno_installed == deno_installed,
        r.deno_version == deno_version,
        r.binaries_missing == (yt_dlp_version is None || !ffmpeg_installed || !ffprobe_installed
            || !deno_installed),
        r.installation_in_progress == installation_in_progress,
        r.custom_deps == custom_deps,
        r.setup_shown == setup_shown,
        match (if custom_deps { None } else { latest }) {
            Some((ly, ld)) => {
                &&& r.yt_dlp_latest_version == ly
                &&& r.deno_latest_version == ld
                &&& r.yt_dlp_update_available == spec_update_available(
                    opt_view(yt_dlp_version),
                    opt_view(ly),
                    false,
                )
                &&& r.deno_update_available == spec_update_available(
                    opt_view(deno_version),
                    opt_view(ld),
                    true,
                )
            },
            None => {
                &&& r.yt_dlp_latest_version is None
                &&& r.deno_latest_version is None
                &&& !r.yt_dlp_update_available
                &&& !r.deno_update_available
            },
        },
{
    let yt_dlp_installed = yt_dlp_version.is_some();
    let checked = if custom_deps {
        None
    } else {
        latest
    };
    let (ly, ld, yu, du) = match checked {
        Some((ly, ld)) => {
            let yu = ytdlp_update_available(&yt_dlp_version, &ly);
            let du = deno_update_available(&deno_version, &ld);
            (ly, ld, yu, du)
        },
        None => (None, None, false, false),
    };
    let binaries_missing = !yt_dlp_installed || !ffmpeg_installed || !ffprobe_installed
        || !deno_installed;
    DependencyStatus {
        yt_dlp_installed,
        yt_dlp_version,
        yt_dlp_update_available: yu,
        yt_dlp_latest_version: ly,
        ffmpeg_installed,
        ffprobe_installed,
        deno_installed,
        deno_version,
        deno_update_available: du,
        deno_latest_version: ld,
        binaries_missing,
        installation_in_progress,
        custom_deps,
        setup_shown,
    }
}

// ─── Downloads and archives ─────────────────────────────────

/// Checks a finished download against the announced size (0 when none was announced).
pub fn verify_download_size(total_size: u64, downloaded: u64) -> (r: Result<(), String>)
    ensures
        r is Ok <==> (total_size == 0 || downloaded == total_size),
        r matches Err(m) ==> m@ == "Download incomplete: expected "@ + decimal(total_size as nat)
            + " bytes, got "@ + decimal(downloaded as nat),
{
    if total_size > 0 && downloaded != total_size {
        let mut m = String::from_str("Download incomplete: expected ");
        push_decimal(&mut m, total_size);
        m.append(" bytes, got ");
        push_decimal(&mut m, downloaded);
        Err(m)
    } else {
        Ok(())
    }
}

/// Index of the first mapping whose archive suffix ends the entry name.
pub open spec fn spec_entry_target(name: Seq<char>, suffixes: Seq<Seq<char>>) -> Option<int> {
    first_suffix_from(name, suffixes, 0)
}

pub open spec fn first_suffix_from(name: Seq<char>, suffixes: Seq<Seq<char>>, i: int) -> Option<
    int,
>
    decreases suffixes.len() - i,
{
    if i < 0 || i >= suffixes.len() {
        None
    } else if ends_with(name, suffixes[i]) {
        Some(i)
    } else {
        first_suffix_from(name, suffixes, i + 1)
    }
}

/// Which binary an archive entry is: the index of the first `(suffix, target)`
/// mapping whose suffix ends the entry's name.
pub fn archive_entry_target(entry_name: &str, mappings: &Vec<(String, String)>) -> (r: Option<
    usize,
>)
    ensures
        match r {
            Some(i) => spec_entry_target(
                entry_name@,
                mappings@.map_values(|m: (String, String)| m.0@),
            ) == Some(i as int),
            None => spec_entry_target(
                entry_name@,
                mappings@.map_values(|m: (String, String)| m.0@),
            ) is None,
        },
{
    let ghost sfx = mappings@.map_values(|m: (String, String)| m.0@);
    let name = chars_of(entry_name);
    let mut i: usize = 0;
    while i < mappings.len()
        invariant
            i <= mappings@.len(),
            sfx == mappings@.map_values(|m: (String, String)| m.0@),
            name@ == entry_name@,
            first_suffix_from(entry_name@, sfx, i as int) == spec_entry_target(entry_name@, sfx),
        decreases mappings@.len() - i,
    {
        let suffix = chars_of(mappings[i].0.as_str());
        assert(suffix@ == sfx[i as int]);
        if suffix.len() <= name.len() && occurs_at_exec(&name, &suffix, name.len() - suffix.len()) {
            return Some(i);
        }
        i = i + 1;
    }
    None
}

/// The error of an archive that lacks some of the expected binaries.
pub fn missing_binaries_message(found: usize, expected: usize, name: &str) -> (r: String)
    ensures
        r@ == "Could only find "@ + decimal(found as nat) + "/"@ + decimal(expected as nat)
            + " binaries in the archive for "@ + name@,
{
    let mut m = String::from_str("Could only find ");
    push_decimal(&mut m, found as u64);
    m.append("/");
    push_decimal(&mut m, expected as u64);
    m.append(" binaries in the archive for ");
    m.append(name);
    m
}

} // verus!
