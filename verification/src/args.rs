//! Command lines for yt-dlp.
use crate::state::string_views;
use crate::text::{chars_of, concat2, concat3, decimal, decimal_string, starts_with};
use vstd::prelude::*;
use vstd::string::*;

verus! {

/// The format selector for a video download.
pub open spec fn video_format_spec(format: Seq<char>, quality: Seq<char>) -> Seq<char> {
    if format == "mp4"@ {
        "bestvideo[ext=mp4][height<="@ + quality + "]+bestaudio[ext=m4a]/best[ext=mp4]/best"@
    } else if format == "webm"@ {
        "bestvideo[ext=webm][height<="@ + quality + "]+bestaudio[ext=webm]/best"@
    } else {
        "bestvideo[height<="@ + quality + "]+bestaudio/best"@
    }
}

/// Format selection and conversion arguments.
pub open spec fn format_args(media_type: Seq<char>, format: Seq<char>, quality: Seq<char>) -> Seq<
    Seq<char>,
> {
    if media_type == "video"@ {
        seq![
            "-f"@,
            video_format_spec(format, quality),
            "--merge-output-format"@,
            format,
            "--remux-video"@,
            format,
        ]
    } else if format == "mp3"@ || format == "opus"@ {
        seq![
            "-f"@,
            "bestaudio"@,
            "--extract-audio"@,
            "--audio-format"@,
            format,
            "--audio-quality"@,
            "0"@,
        ]
    } else {
        seq!["-f"@, "bestaudio/best"@, "--extract-audio"@, "--audio-format"@, format]
    }
}

/// Where the installed ffmpeg and deno are, when they are installed.
pub open spec fn tool_args(ffmpeg_dir: Option<Seq<char>>, deno_path: Option<Seq<char>>) -> Seq<
    Seq<char>,
> {
    (match ffmpeg_dir {
        Some(d) => seq!["--ffmpeg-location"@, d],
        None => Seq::empty(),
    }) + (match deno_path {
        Some(p) => seq!["--js-runtimes"@, "deno:"@ + p],
        None => Seq::empty(),
    })
}

/// The output template.
pub open spec fn output_template(is_playlist: bool) -> Seq<char> {
    if is_playlist {
        "%(playlist_title|%(channel|%(uploader|Unknown)s)s)s/%(title)s.%(ext)s"@
    } else {
        "%(title)s.%(ext)s"@
    }
}

/// Arguments every download takes.
pub open spec fn common_args(
    archive_path: Seq<char>,
    workspace: Seq<char>,
    is_playlist: bool,
    concurrent_fragments: usize,
) -> Seq<Seq<char>> {
    seq![
        "--embed-metadata"@,
        "--embed-thumbnail"@,
        "--download-archive"@,
        archive_path,
        "--output"@,
        output_template(is_playlist),
        "--progress"@,
        "--newline"@,
        "-P"@,
        "home:"@ + workspace,
        "-P"@,
        "temp:"@ + workspace,
        "--retries"@,
        "infinite"@,
        "--fragment-retries"@,
        "infinite"@,
        "--retry-sleep"@,
        "5"@,
        "--retry-sleep"@,
        "fragment:5"@,
        "--socket-timeout"@,
        "30"@,
        "--concurrent-fragments"@,
        decimal(concurrent_fragments as nat),
        "--impersonate"@,
        "chrome"@,
        "--extractor-retries"@,
        "5"@,
        "--encoding"@,
        "utf-8"@,
        "--windows-filenames"@,
        "--replace-in-metadata"@,
        "title"@,
        "[\\U00010000-\\U0010ffff]"@,
        ""@,
    ]
}

/// The closing arguments: cookies, playlist handling and the URL.
pub open spec fn closing_args(url: Seq<char>, is_playlist: bool, cookies_enabled: bool) -> Seq<
    Seq<char>,
> {
    (if cookies_enabled {
        seq!["--cookies-from-browser"@, "firefox"@]
    } else {
        Seq::empty()
    }) + (if is_playlist {
        seq!["--no-abort-on-error"@, "--yes-playlist"@]
    } else {
        seq!["--no-playlist"@]
    }) + seq![url]
}

/// The complete yt-dlp command line for a download.
pub open spec fn spec_ytdlp_args(
    url: Seq<char>,
    media_type: Seq<char>,
    format: Seq<char>,
    quality: Seq<char>,
    is_playlist: bool,
    workspace: Seq<char>,
    archive_path: Seq<char>,
    cookies_enabled: bool,
    concurrent_fragments: usize,
    ffmpeg_dir: Option<Seq<char>>,
    deno_path: Option<Seq<char>>,
) -> Seq<Seq<char>> {
    format_args(media_type, format, quality) + tool_args(ffmpeg_dir, deno_path) + common_args(
        archive_path,
        workspace,
        is_playlist,
        concurrent_fragments,
    ) + closing_args(url, is_playlist, cookies_enabled)
}

/// The command line opens with the format selection. A video takes the best
/// video stream up to the chosen height (in the chosen container where that is
/// mp4 or webm) with the best audio, and is merged and remuxed into the chosen
/// container. Audio is extracted in the chosen format:
/// mp3 and opus from the best audio stream at the best quality (`0`), any other
/// format from the best audio or, failing that, the best stream, at yt-dlp's
/// default quality.
pub proof fn lemma_ytdlp_args_format(
    url: Seq<char>,
    media_type: Seq<char>,
    format: Seq<char>,
    quality: Seq<char>,
    is_playlist: bool,
    workspace: Seq<char>,
    archive_path: Seq<char>,
    cookies_enabled: bool,
    concurrent_fragments: usize,
    ffmpeg_dir: Option<Seq<char>>,
    deno_path: Option<Seq<char>>,
)
    ensures
        ({
            let a = spec_ytdlp_args(
                url,
                media_type,
                format,
                quality,
                is_playlist,
                workspace,
                archive_path,
                cookies_enabled,
                concurrent_fragments,
                ffmpeg_dir,
                deno_path,
            );
            let rest = tool_args(ffmpeg_dir, deno_path) + common_args(
                archive_path,
                workspace,
                is_playlist,
                concurrent_fragments,
            ) + closing_args(url, is_playlist, cookies_enabled);
            let video_selector = if format == "mp4"@ {
                "bestvideo[ext=mp4][height<="@ + quality + "]+bestaudio[ext=m4a]/best[ext=mp4]/best"@
            } else if format == "webm"@ {
                "bestvideo[ext=webm][height<="@ + quality + "]+bestaudio[ext=webm]/best"@
            } else {
                "bestvideo[height<="@ + quality + "]+bestaudio/best"@
            };
            &&& media_type == "video"@ ==> a == seq![
                "-f"@,
                video_selector,
                "--merge-output-format"@,
                format,
                "--remux-video"@,
                format,
            ] + rest
            &&& media_type != "video"@ && (format == "mp3"@ || format == "opus"@) ==> a == seq![
                "-f"@,
                "bestaudio"@,
                "--extract-audio"@,
                "--audio-format"@,
                format,
                "--audio-quality"@,
                "0"@,
            ] + rest
            &&& media_type != "video"@ && format != "mp3"@ && format != "opus"@ ==> a == seq![
                "-f"@,
                "bestaudio/best"@,
                "--extract-audio"@,
                "--audio-format"@,
                format,
            ] + rest
        }),
{
}

/// The command line ends with the playlist switch and the URL; `--no-abort-on-error`
/// comes just before the switch exactly for a playlist, and the cookie pair just
/// before those exactly when cookies are enabled.
pub proof fn lemma_ytdlp_args_end(
    url: Seq<char>,
    media_type: Seq<char>,
    format: Seq<char>,
    quality: Seq<char>,
    is_playlist: bool,
    workspace: Seq<char>,
    archive_path: Seq<char>,
    cookies_enabled: bool,
    concurrent_fragments: usize,
    ffmpeg_dir: Option<Seq<char>>,
    deno_path: Option<Seq<char>>,
)
    ensures
        ({
            let a = spec_ytdlp_args(
                url,
                media_type,
                format,
                quality,
                is_playlist,
                workspace,
                archive_path,
                cookies_enabled,
                concurrent_fragments,
                ffmpeg_dir,
                deno_path,
            );
            let start = format_args(media_type, format, quality) + tool_args(ffmpeg_dir, deno_path)
                + common_args(archive_path, workspace, is_playlist, concurrent_fragments);
            &&& a == start + closing_args(url, is_playlist, cookies_enabled)
            &&& a.last() == url
            &&& a[a.len() - 2] == (if is_playlist {
                "--yes-playlist"@
            } else {
                "--no-playlist"@
            })
            &&& closing_args(url, is_playlist, cookies_enabled) == (if cookies_enabled {
                seq!["--cookies-from-browser"@, "firefox"@]
            } else {
                Seq::empty()
            }) + (if is_playlist {
                seq!["--no-abort-on-error"@, "--yes-playlist"@]
            } else {
                seq!["--no-playlist"@]
            }) + seq![url]
        }),
{
    let a = spec_ytdlp_args(
        url,
        media_type,
        format,
        quality,
        is_playlist,
        workspace,
        archive_path,
        cookies_enabled,
        concurrent_fragments,
        ffmpeg_dir,
        deno_path,
    );
    let start = format_args(media_type, format, quality) + tool_args(ffmpeg_dir, deno_path)
        + common_args(archive_path, workspace, is_playlist, concurrent_fragments);
    let c = closing_args(url, is_playlist, cookies_enabled);
    assert(a == start + c);
    assert(c.last() == url);
    assert(c[c.len() - 2] == (if is_playlist {
        "--yes-playlist"@
    } else {
        "--no-playlist"@
    }));
    assert(a[a.len() - 2] == c[c.len() - 2]);
}

pub open spec fn opt_view(o: Option<String>) -> Option<Seq<char>> {
    match o {
        Some(s) => Some(s@),
        None => None,
    }
}

fn push_str(v: &mut Vec<String>, s: &str)
    ensures
        string_views(final(v)@) == string_views(old(v)@).push(s@),
{
    v.push(String::from_str(s));
    assert(string_views(v@) =~= string_views(old(v)@).push(s@));
}

fn push_string(v: &mut Vec<String>, s: String)
    ensures
        string_views(final(v)@) == string_views(old(v)@).push(s@),
{
    v.push(s);
    assert(string_views(v@) =~= string_views(old(v)@).push(s@));
}

fn same_text(a: &String, b: &str) -> (r: bool)
    ensures
        r == (a@ == b@),
{
    *a == String::from_str(b)
}

fn push_format_args(v: &mut Vec<String>, media_type: &String, format: &String, quality: &String)
    ensures
        string_views(final(v)@) == string_views(old(v)@) + format_args(
            media_type@,
            format@,
            quality@,
        ),
{
    let ghost start = string_views(v@);
    if same_text(media_type, "video") {
        let spec = if same_text(format, "mp4") {
            concat3(
                "bestvideo[ext=mp4][height<=",
                quality.as_str(),
                "]+bestaudio[ext=m4a]/best[ext=mp4]/best",
            )
        } else if same_text(format, "webm") {
            concat3(
                "bestvideo[ext=webm][height<=",
                quality.as_str(),
                "]+bestaudio[ext=webm]/best",
            )
        } else {
            concat3("bestvideo[height<=", quality.as_str(), "]+bestaudio/best")
        };
        push_str(v, "-f");
        push_string(v, spec);
        push_str(v, "--merge-output-format");
        push_str(v, format.as_str());
        push_str(v, "--remux-video");
        push_str(v, format.as_str());
    } else if same_text(format, "mp3") || same_text(format, "opus") {
        push_str(v, "-f");
        push_str(v, "bestaudio");
        push_str(v, "--extract-audio");
        push_str(v, "--audio-format");
        push_str(v, format.as_str());
        push_str(v, "--audio-quality");
        push_str(v, "0");
    } else {
        push_str(v, "-f");
        push_str(v, "bestaudio/best");
        push_str(v, "--extract-audio");
        push_str(v, "--audio-format");
        push_str(v, format.as_str());
    }
    assert(string_views(v@) =~= start + format_args(media_type@, format@, quality@));
}

fn push_tool_args(v: &mut Vec<String>, ffmpeg_dir: &Option<String>, deno_path: &Option<String>)
    ensures
        string_views(final(v)@) == string_views(old(v)@) + tool_args(
            opt_view(*ffmpeg_dir),
            opt_view(*deno_path),
        ),
{
    let ghost start = string_views(v@);
    if let Some(d) = ffmpeg_dir {
        push_str(v, "--ffmpeg-location");
        push_str(v, d.as_str());
    }
    if let Some(p) = deno_path {
        push_str(v, "--js-runtimes");
        push_string(v, concat2("deno:", p.as_str()));
    }
    assert(string_views(v@) =~= start + tool_args(opt_view(*ffmpeg_dir), opt_view(*deno_path)));
}

fn push_common_args(
    v: &mut Vec<String>,
    archive_path: &String,
    workspace: &String,
    is_playlist: bool,
    concurrent_fragments: usize,
)
    ensures
        string_views(final(v)@) == string_views(old(v)@) + common_args(
            archive_path@,
            workspace@,
            is_playlist,
            concurrent_fragments,
        ),
{
    let ghost start = string_views(v@);
    push_str(v, "--embed-metadata");
    push_str(v, "--embed-thumbnail");
    push_str(v, "--download-archive");
    push_str(v, archive_path.as_str());
    push_str(v, "--output");
    if is_playlist {
        push_str(v, "%(playlist_title|%(channel|%(uploader|Unknown)s)s)s/%(title)s.%(ext)s");
    } else {
        push_str(v, "%(title)s.%(ext)s");
    }
    push_str(v, "--progress");
    push_str(v, "--newline");
    push_str(v, "-P");
    push_string(v, concat2("home:", workspace.as_str()));
    push_str(v, "-P");
    push_string(v, concat2("temp:", workspace.as_str()));
    push_str(v, "--retries");
    push_str(v, "infinite");
    push_str(v, "--fragment-retries");
    push_str(v, "infinite");
    push_str(v, "--retry-sleep");
    push_str(v, "5");
    push_str(v, "--retry-sleep");
    push_str(v, "fragment:5");
    push_str(v, "--socket-timeout");
    push_str(v, "30");
    push_str(v, "--concurrent-fragments");
    push_string(v, decimal_string(concurrent_fragments as u64));
    push_str(v, "--impersonate");
    push_str(v, "chrome");
    push_str(v, "--extractor-retries");
    push_str(v, "5");
    push_str(v, "--encoding");
    push_str(v, "utf-8");
    push_str(v, "--windows-filenames");
    push_str(v, "--replace-in-metadata");
    push_str(v, "title");
    push_str(v, "[\\U00010000-\\U0010ffff]");
    push_str(v, "");
    assert(string_views(v@) =~= start + common_args(
        archive_path@,
        workspace@,
        is_playlist,
        concurrent_fragments,
    ));
}

fn push_closing_args(v: &mut Vec<String>, url: String, is_playlist: bool, cookies_enabled: bool)
    ensures
        string_views(final(v)@) == string_views(old(v)@) + closing_args(
            url@,
            is_playlist,
            cookies_enabled,
        ),
{
    let ghost start = string_views(v@);
    let ghost u = url@;
    if cookies_enabled {
        push_str(v, "--cookies-from-browser");
        push_str(v, "firefox");
    }
    if is_playlist {
        push_str(v, "--no-abort-on-error");
        push_str(v, "--yes-playlist");
    } else {
        push_str(v, "--no-playlist");
    }
    push_string(v, url);
    assert(string_views(v@) =~= start + closing_args(u, is_playlist, cookies_enabled));
}

/// The yt-dlp command line for a download, given where the download archive file lies.
pub fn ytdlp_args_with(
    url: String,
    media_type: String,
    format: String,
    quality: String,
    is_playlist: bool,
    workspace_path: String,
    archive_path: String,
    cookies_enabled: bool,
    concurrent_fragments: usize,
    ffmpeg_dir: Option<String>,
    deno_path: Option<String>,
) -> (r: Vec<String>)
    ensures
        string_views(r@) == spec_ytdlp_args(
            url@,
            media_type@,
            format@,
            quality@,
            is_playlist,
            workspace_path@,
            archive_path@,
            cookies_enabled,
            concurrent_fragments,
            opt_view(ffmpeg_dir),
            opt_view(deno_path),
        ),
{
    let mut v: Vec<String> = Vec::new();
    let ghost u = url@;
    assert(string_views(v@) =~= Seq::<Seq<char>>::empty());
    push_format_args(&mut v, &media_type, &format, &quality);
    push_tool_args(&mut v, &ffmpeg_dir, &deno_path);
    push_common_args(&mut v, &archive_path, &workspace_path, is_playlist, concurrent_fragments);
    push_closing_args(&mut v, url, is_playlist, cookies_enabled);
    assert(string_views(v@) =~= spec_ytdlp_args(
        u,
        media_type@,
        format@,
        quality@,
        is_playlist,
        workspace_path@,
        archive_path@,
        cookies_enabled,
        concurrent_fragments,
        opt_view(ffmpeg_dir),
        opt_view(deno_path),
    ));
    v
}

/// A path that starts with the Windows verbatim prefix `\\?\`, whose components
/// `Path::join` rebuilds.
pub open spec fn verbatim_path(p: Seq<char>) -> bool {
    starts_with(p, "\\\\?\\"@)
}

/// `leaf` is a plain relative file name: no separator, no drive colon.
pub open spec fn plain_file_name(leaf: Seq<char>) -> bool {
    &&& leaf.len() > 0
    &&& !leaf.contains('/')
    &&& !leaf.contains('\\')
    &&& !leaf.contains(':')
}

/// What `Path::join` may give for a plain file name on any platform: the base,
/// then a separator where the base does not end with one, then the file name.
pub open spec fn joined_path(base: Seq<char>, leaf: Seq<char>, r: Seq<char>) -> bool {
    ||| verbatim_path(base)
    ||| r == base + leaf
    ||| r == base + "/"@ + leaf
    ||| r == base + "\\"@ + leaf
}

/// `Path::join` of a base path and a plain file name, converted to text. Which
/// separator is put between them depends on the platform and on how the base
/// ends; the contract says only that the result is the base, maybe a separator,
/// and the file name (for a Windows verbatim base it says nothing).
#[verifier::external_body]
fn join_path(base: &str, leaf: &str) -> (r: String)
    requires
        plain_file_name(leaf@),
    ensures
        joined_path(base@, leaf@, r@),
{
    std::path::Path::new(base).join(leaf).to_string_lossy().to_string()
}

/// Builds the yt-dlp command line for a download. `ffmpeg_dir` is the directory
/// of the installed ffmpeg and `deno_path` the installed deno, where they are
/// installed. The download archive lies in the workspace, as `archive.txt`.
pub fn build_ytdlp_args(
    url: String,
    media_type: String,
    format: String,
    quality: String,
    is_playlist: bool,
    workspace_path: String,
    cookies_enabled: bool,
    concurrent_fragments: usize,
    ffmpeg_dir: Option<String>,
    deno_path: Option<String>,
) -> (r: Vec<String>)
    ensures
        exists|archive: Seq<char>|
            joined_path(workspace_path@, "archive.txt"@, archive) && string_views(r@)
                == #[trigger] spec_ytdlp_args(
                url@,
                media_type@,
                format@,
                quality@,
                is_playlist,
                workspace_path@,
                archive,
                cookies_enabled,
                concurrent_fragments,
                opt_view(ffmpeg_dir),
                opt_view(deno_path),
            ),
{
    proof {
        reveal_strlit("archive.txt");
        assert("archive.txt"@[7] == '.');
    }
    let archive_path = join_path(workspace_path.as_str(), "archive.txt");
    let ghost a = archive_path@;
    let r = ytdlp_args_with(
        url,
        media_type,
        format,
        quality,
        is_playlist,
        workspace_path,
        archive_path,
        cookies_enabled,
        concurrent_fragments,
        ffmpeg_dir,
        deno_path,
    );
    r
}

/// The arguments of the browser cookie check, with the installed deno where there is one.
pub open spec fn spec_auth_check_args(deno_path: Option<Seq<char>>) -> Seq<Seq<char>> {
    seq!["--simulate"@, "--cookies-from-browser"@, "firefox"@, "--impersonate"@, "chrome"@]
        + (match deno_path {
        Some(p) => seq!["--js-runtimes"@, "deno:"@ + p],
        None => Seq::empty(),
    }) + seq!["https://www.youtube.com/watch?v=qpgTC9MDx1o"@]
}

/// The arguments of the browser cookie check: a simulated download of an
/// age-restricted video with the browser's cookies.
pub fn auth_check_args(deno_path: Option<String>) -> (r: Vec<String>)
    ensures
        string_views(r@) == spec_auth_check_args(opt_view(deno_path)),
{
    let mut v: Vec<String> = Vec::new();
    assert(string_views(v@) =~= Seq::<Seq<char>>::empty());
    push_str(&mut v, "--simulate");
    push_str(&mut v, "--cookies-from-browser");
    push_str(&mut v, "firefox");
    push_str(&mut v, "--impersonate");
    push_str(&mut v, "chrome");
    if let Some(p) = &deno_path {
        push_str(&mut v, "--js-runtimes");
        push_string(&mut v, concat2("deno:", p.as_str()));
    }
    push_str(&mut v, "https://www.youtube.com/watch?v=qpgTC9MDx1o");
    assert(string_views(v@) =~= spec_auth_check_args(opt_view(deno_path)));
    v
}

} // verus!
