//! What a yt-dlp run reports: status updates from its output and the error its
//! failure stands for.
use crate::error::{AppError, AppErrorView};
use crate::output::{classify_line, last_segment, spec_classify, trimmed, OutputLine, OutputLineView};
use crate::state::{copy_meta, meta_view, status_view, DownloadStatus, MetaView, PlaylistMetadata, StatusView};
use crate::text::{chars_of, contains, copy_string, starts_with, str_contains, trim};
use vstd::prelude::*;
use vstd::string::*;

verus! {

/// A path whose file name is the same on every platform: no backslash, no drive
/// colon, no leading `//`, and a last `/`-separated part that is a real name.
pub open spec fn plain_path(p: Seq<char>) -> bool {
    &&& !p.contains('\\')
    &&& !p.contains(':')
    &&& !starts_with(p, "//"@)
    &&& last_segment(p).len() > 0
    &&& last_segment(p) != "."@
    &&& last_segment(p) != ".."@
}

/// What holds of the file name `f` that `Path::file_name` gives for `p`: a
/// non-empty part of `p`, and for a plain path the text after its last `/`.
pub open spec fn file_name_fits(p: Seq<char>, f: Option<Seq<char>>) -> bool {
    &&& (f matches Some(n) ==> n.len() > 0 && contains(p, n))
    &&& (plain_path(p) ==> f == Some(last_segment(p)))
}

/// `Path::file_name` of a path given as text, converted to text. A name it gives
/// is a non-empty part of the path; for a plain path it is the text after the
/// last `/`. Other paths are read by the platform's rules, which are not stated.
#[verifier::external_body]
fn path_file_name(p: &str) -> (r: Option<String>)
    ensures
        file_name_fits(p@, opt_str_view(r)),
{
    match std::path::Path::new(p).file_name() {
        Some(n) => Some(n.to_string_lossy().to_string()),
        None => None,
    }
}

/// The file name handed to [`line_update`] fits the line: the file name of the
/// reported path for a merge or an already downloaded file, nothing otherwise.
pub open spec fn reported_name_fits(k: OutputLineView, f: Option<Seq<char>>) -> bool {
    match k {
        OutputLineView::AlreadyDownloaded { path } => file_name_fits(path, f),
        OutputLineView::Merging { path } => file_name_fits(path, f),
        _ => f is None,
    }
}

pub open spec fn opt_str_view(o: Option<String>) -> Option<Seq<char>> {
    match o {
        Some(s) => Some(s@),
        None => None,
    }
}

/// The item name for a reported path: its file name where one was found, else the path.
pub open spec fn item_name(path: Seq<char>, file_name: Option<Seq<char>>) -> Seq<char> {
    match file_name {
        Some(n) => n,
        None => path,
    }
}

/// The title update and status update that a classified line stands for.
/// `file_name` is the file name of the path that the line reports, where it has one.
pub open spec fn line_update(
    k: OutputLineView,
    current_title: Seq<char>,
    file_name: Option<Seq<char>>,
) -> (Option<Seq<char>>, Option<StatusView>) {
    match k {
        OutputLineView::ItemCount { current, total } => (
            None,
            Some(
                StatusView::Downloading {
                    progress: 0,
                    speed: "—"@,
                    eta: "Starting..."@,
                    playlist: Some(
                        MetaView {
                            current_index: current,
                            total_items: total,
                            item_title: "Starting item..."@,
                        },
                    ),
                },
            ),
        ),
        OutputLineView::Progress { progress, speed, eta } => (
            None,
            Some(StatusView::Downloading { progress, speed, eta, playlist: None }),
        ),
        OutputLineView::FullyDownloaded => (
            None,
            Some(
                StatusView::Downloading {
                    progress: 10000,
                    speed: "—"@,
                    eta: "Done"@,
                    playlist: None,
                },
            ),
        ),
        OutputLineView::SimpleProgress { progress } => (
            None,
            Some(
                StatusView::Downloading {
                    progress,
                    speed: if progress >= 10000 {
                        "—"@
                    } else {
                        "..."@
                    },
                    eta: if progress >= 10000 {
                        "Done"@
                    } else {
                        "..."@
                    },
                    playlist: None,
                },
            ),
        ),
        OutputLineView::Destination { name } => (Some(name), None),
        OutputLineView::PlaylistTitle { title } => (Some(title), None),
        OutputLineView::AlreadyDownloaded { path } => (
            None,
            Some(
                StatusView::Downloading {
                    progress: 10000,
                    speed: "—"@,
                    eta: "Done"@,
                    playlist: Some(
                        MetaView {
                            current_index: 0,
                            total_items: 0,
                            item_title: item_name(path, file_name),
                        },
                    ),
                },
            ),
        ),
        OutputLineView::Merging { path } => (
            None,
            Some(
                StatusView::Merging {
                    playlist: Some(
                        MetaView {
                            current_index: 0,
                            total_items: 0,
                            item_title: item_name(path, file_name),
                        },
                    ),
                },
            ),
        ),
        OutputLineView::PostProcessing => (
            None,
            Some(
                StatusView::Merging {
                    playlist: Some(
                        MetaView { current_index: 0, total_items: 0, item_title: current_title },
                    ),
                },
            ),
        ),
        OutputLineView::Other => (None, None),
    }
}

fn meta(current_index: usize, total_items: usize, item_title: String) -> (m: Option<
    PlaylistMetadata,
>)
    ensures
        meta_view(m) == Some(MetaView { current_index, total_items, item_title: item_title@ }),
{
    Some(PlaylistMetadata { current_index, total_items, item_title })
}

/// The updates that a classified line stands for, given the file name of the path it reports.
pub fn line_update_exec(k: OutputLine, current_title: &str, file_name: Option<String>) -> (r: (
    Option<String>,
    Option<DownloadStatus>,
))
    ensures
        (opt_str_view(r.0), status_view(r.1)) == line_update(
            k@,
            current_title@,
            opt_str_view(file_name),
        ),
{
    match k {
        OutputLine::ItemCount { current, total } => (
            None,
            Some(
                DownloadStatus::Downloading {
                    progress: 0,
                    speed: String::from_str("—"),
                    eta: String::from_str("Starting..."),
                    playlist: meta(current, total, String::from_str("Starting item...")),
                },
            ),
        ),
        OutputLine::Progress { progress, speed, eta } => (
            None,
            Some(DownloadStatus::Downloading { progress, speed, eta, playlist: None }),
        ),
        OutputLine::FullyDownloaded => (
            None,
            Some(
                DownloadStatus::Downloading {
                    progress: 10000,
                    speed: String::from_str("—"),
                    eta: String::from_str("Done"),
                    playlist: None,
                },
            ),
        ),
        OutputLine::SimpleProgress { progress } => {
            let done = progress >= 10000;
            (
                None,
                Some(
                    DownloadStatus::Downloading {
                        progress,
                        speed: if done {
                            String::from_str("—")
                        } else {
                            String::from_str("...")
                        },
                        eta: if done {
                            String::from_str("Done")
                        } else {
                            String::from_str("...")
                        },
                        playlist: None,
                    },
                ),
            )
        },
        OutputLine::Destination { name } => (Some(name), None),
        OutputLine::PlaylistTitle { title } => (Some(title), None),
        OutputLine::AlreadyDownloaded { path } => {
            let name = match file_name {
                Some(n) => n,
                None => path,
            };
            (
                None,
                Some(
                    DownloadStatus::Downloading {
                        progress: 10000,
                        speed: String::from_str("—"),
                        eta: String::from_str("Done"),
                        playlist: meta(0, 0, name),
                    },
                ),
            )
        },
        OutputLine::Merging { path } => {
            let name = match file_name {
                Some(n) => n,
                None => path,
            };
            (None, Some(DownloadStatus::Merging { playlist: meta(0, 0, name) }))
        },
        OutputLine::PostProcessing => (
            None,
            Some(DownloadStatus::Merging { playlist: meta(0, 0, String::from_str(current_title)) }),
        ),
        OutputLine::Other => (None, None),
    }
}

/// A prefix that starts with `[` makes the line start with `[`.
proof fn lemma_bracket_prefix(l: Seq<char>, p: Seq<char>)
    requires
        p.len() >= 1,
        p[0] == '[',
        starts_with(l, p),
    ensures
        starts_with(l, "["@),
{
    reveal_strlit("[");
    assert(l[0] == p[0]);
    assert(l.subrange(0, 1) =~= "["@);
}

/// A line of yt-dlp's output gives a title or a status, never both; a status is
/// always "downloading" or "merging"; and a line that does not start with `[`
/// gives neither.
pub proof fn lemma_line_update_shape(line: Seq<char>, current_title: Seq<char>, file_name: Option<Seq<char>>)
    ensures
        ({
            let (t, s) = line_update(spec_classify(line), current_title, file_name);
            &&& !(t is Some && s is Some)
            &&& (s matches Some(st) ==> (st is Downloading || st is Merging))
            &&& (!starts_with(line, "["@) ==> t is None && s is None)
        }),
{
    if !starts_with(line, "["@) {
        reveal_strlit("[download] ");
        reveal_strlit("[Merger] ");
        reveal_strlit("[ExtractAudio]");
        reveal_strlit("[FixupM4a]");
        reveal_strlit("[Fixup]");
        reveal_strlit("[ModifyChapters]");
        reveal_strlit("[EmbedThumbnail]");
        reveal_strlit("[MetadataParser]");
        if starts_with(line, "[download] "@) {
            lemma_bracket_prefix(line, "[download] "@);
        }
        if starts_with(line, "[Merger] "@) {
            lemma_bracket_prefix(line, "[Merger] "@);
        }
        if starts_with(line, "[ExtractAudio]"@) {
            lemma_bracket_prefix(line, "[ExtractAudio]"@);
        }
        if starts_with(line, "[FixupM4a]"@) {
            lemma_bracket_prefix(line, "[FixupM4a]"@);
        }
        if starts_with(line, "[Fixup]"@) {
            lemma_bracket_prefix(line, "[Fixup]"@);
        }
        if starts_with(line, "[ModifyChapters]"@) {
            lemma_bracket_prefix(line, "[ModifyChapters]"@);
        }
        if starts_with(line, "[EmbedThumbnail]"@) {
            lemma_bracket_prefix(line, "[EmbedThumbnail]"@);
        }
        if starts_with(line, "[MetadataParser]"@) {
            lemma_bracket_prefix(line, "[MetadataParser]"@);
        }
        assert(spec_classify(line) == OutputLineView::Other);
    }
}

/// Parses one line of yt-dlp's standard output into a possible title update and
/// a possible status update. The item name of an already downloaded file or of a
/// merge target is the file name of the reported path.
pub fn parse_ytdlp_output_line(line: &str, current_title: &str) -> (r: (
    Option<String>,
    Option<DownloadStatus>,
))
    requires
        !line@.contains('\n'),
    ensures
        exists|f: Option<Seq<char>>|
            reported_name_fits(spec_classify(line@), f) && (opt_str_view(r.0), status_view(r.1))
                == line_update(spec_classify(line@), current_title@, f),
        !(r.0 is Some && r.1 is Some),
        r.1 matches Some(st) ==> (st is Downloading || st is Merging),
        !starts_with(line@, "["@) ==> r.0 is None && r.1 is None,
{
    let k = classify_line(line);
    let file_name = match &k {
        OutputLine::AlreadyDownloaded { path } => path_file_name(path.as_str()),
        OutputLine::Merging { path } => path_file_name(path.as_str()),
        _ => None,
    };
    let ghost f = opt_str_view(file_name);
    let r = line_update_exec(k, current_title, file_name);
    assert(reported_name_fits(spec_classify(line@), f));
    assert((opt_str_view(r.0), status_view(r.1)) == line_update(spec_classify(line@), current_title@, f));
    proof {
        lemma_line_update_shape(line@, current_title@, f);
    }
    r
}

// ─── Following a run ────────────────────────────────────────

/// What the run has reported so far.
pub struct OutputTracker {
    /// Title of what is being downloaded.
    pub current_title: String,
    /// Name of the last file written.
    pub last_filename: String,
    /// Playlist position last reported.
    pub current_item: usize,
    /// Playlist size last reported.
    pub total_items: usize,
}

/// What one line of output asks to announce.
pub struct LineOutcome {
    /// A new title.
    pub title: Option<String>,
    /// A status to announce.
    pub status: Option<DownloadStatus>,
}

/// The mathematical value of an [`OutputTracker`].
pub struct TrackerView {
    pub current_title: Seq<char>,
    pub last_filename: Seq<char>,
    pub current_item: usize,
    pub total_items: usize,
}

impl View for OutputTracker {
    type V = TrackerView;

    open spec fn view(&self) -> TrackerView {
        TrackerView {
            current_title: self.current_title@,
            last_filename: self.last_filename@,
            current_item: self.current_item,
            total_items: self.total_items,
        }
    }
}

/// Playlist metadata completed with what the run knows: a missing position or
/// size takes the last reported one, a placeholder title takes the current title.
pub open spec fn completed_meta(p: MetaView, t: TrackerView) -> MetaView {
    MetaView {
        current_index: if p.current_index > 0 {
            p.current_index
        } else {
            t.current_item
        },
        total_items: if p.total_items > 0 {
            p.total_items
        } else {
            t.total_items
        },
        item_title: if p.item_title == "Starting item..."@ || p.item_title.len() == 0 {
            t.current_title
        } else {
            p.item_title
        },
    }
}

/// The playlist field of a status after merging what the run knows.
pub open spec fn merged_playlist(p: Option<MetaView>, t: TrackerView) -> Option<MetaView> {
    match p {
        Some(m) => Some(completed_meta(m, t)),
        None => if t.total_items > 1 {
            Some(
                MetaView {
                    current_index: t.current_item,
                    total_items: t.total_items,
                    item_title: t.current_title,
                },
            )
        } else {
            None
        },
    }
}

/// A placeholder text replaced by `---`.
pub open spec fn normalized(s: Seq<char>, placeholder: Seq<char>) -> Seq<char> {
    if s == placeholder {
        "---"@
    } else {
        s
    }
}

/// The status announced for a reported status.
pub open spec fn merged_status(s: StatusView, t: TrackerView) -> StatusView {
    match s {
        StatusView::Downloading { progress, speed, eta, playlist } => StatusView::Downloading {
            progress,
            speed: normalized(speed, "Unknown B/s"@),
            eta: normalized(eta, "Unknown"@),
            playlist: merged_playlist(playlist, t),
        },
        StatusView::Merging { playlist } => StatusView::Merging {
            playlist: merged_playlist(playlist, t),
        },
        StatusView::Finalizing { playlist } => StatusView::Finalizing {
            playlist: merged_playlist(playlist, t),
        },
        _ => s,
    }
}

/// The playlist position and size the run knows after a report.
pub open spec fn tracked_after(s: StatusView, t: TrackerView) -> TrackerView {
    let p = match s {
        StatusView::Downloading { playlist, .. } => playlist,
        StatusView::Merging { playlist } => playlist,
        StatusView::Finalizing { playlist } => playlist,
        _ => None,
    };
    match p {
        Some(m) => TrackerView {
            current_item: if m.current_index > 0 {
                m.current_index
            } else {
                t.current_item
            },
            total_items: if m.total_items > 0 {
                m.total_items
            } else {
                t.total_items
            },
            ..t
        },
        None => t,
    }
}

/// The last file name after an announced status: a merge names its output file.
pub open spec fn filename_after(s: StatusView, last: Seq<char>) -> Seq<char> {
    match s {
        StatusView::Merging { playlist: Some(m) } => if m.item_title.len() > 0 && m.item_title
            != "Downloading..."@ {
            m.item_title
        } else {
            last
        },
        _ => last,
    }
}

/// Whether a status is announced: progress reports only when the throttle interval
/// passed or the download is complete; everything else always.
pub open spec fn announced(s: StatusView, throttle_elapsed: bool) -> bool {
    match s {
        StatusView::Downloading { progress, .. } => progress >= 10000 || throttle_elapsed,
        _ => true,
    }
}

/// What the run knows and announces after a title update and a status update.
pub open spec fn spec_apply(
    t0: TrackerView,
    tu: Option<Seq<char>>,
    su: Option<StatusView>,
    throttle_elapsed: bool,
) -> (TrackerView, Option<Seq<char>>, Option<StatusView>) {
    let t1 = match tu {
        Some(t) => TrackerView { current_title: t, last_filename: t, ..t0 },
        None => t0,
    };
    match su {
        None => (t1, tu, None),
        Some(s) => {
            let m = merged_status(s, t1);
            (
                TrackerView { last_filename: filename_after(m, t1.last_filename), ..tracked_after(s, t1) },
                tu,
                if announced(m, throttle_elapsed) {
                    Some(m)
                } else {
                    None
                },
            )
        },
    }
}

fn normalize_text(s: String, placeholder: &str) -> (r: String)
    ensures
        r@ == normalized(s@, placeholder@),
{
    let p = String::from_str(placeholder);
    if s == p {
        String::from_str("---")
    } else {
        s
    }
}

impl OutputTracker {
    /// The state at the start of a run.
    pub fn new() -> (r: OutputTracker)
        ensures
            r@ == (TrackerView {
                current_title: "Downloading..."@,
                last_filename: Seq::empty(),
                current_item: 1,
                total_items: 1,
            }),
    {
        OutputTracker {
            current_title: String::from_str("Downloading..."),
            last_filename: String::new(),
            current_item: 1,
            total_items: 1,
        }
    }

    fn merge_playlist(&self, p: Option<PlaylistMetadata>) -> (r: Option<PlaylistMetadata>)
        ensures
            meta_view(r) == merged_playlist(meta_view(p), self@),
    {
        match p {
            Some(m) => {
                let starting = String::from_str("Starting item...");
                let title = if m.item_title == starting || m.item_title.unicode_len() == 0 {
                    copy_string(&self.current_title)
                } else {
                    m.item_title
                };
                Some(
                    PlaylistMetadata {
                        current_index: if m.current_index > 0 {
                            m.current_index
                        } else {
                            self.current_item
                        },
                        total_items: if m.total_items > 0 {
                            m.total_items
                        } else {
                            self.total_items
                        },
                        item_title: title,
                    },
                )
            },
            None => if self.total_items > 1 {
                Some(
                    PlaylistMetadata {
                        current_index: self.current_item,
                        total_items: self.total_items,
                        item_title: copy_string(&self.current_title),
                    },
                )
            } else {
                None
            },
        }
    }

    /// Takes in a title update and a status update parsed from one output line.
    /// A new title becomes the current title and the last file name; a status is
    /// completed with the playlist position and title the run knows, placeholder
    /// speeds and estimates become `---`, and it is returned when it is to be announced.
    pub fn apply_update(
        &mut self,
        title_update: Option<String>,
        status_update: Option<DownloadStatus>,
        throttle_elapsed: bool,
    ) -> (r: LineOutcome)
        ensures
            (final(self)@, opt_str_view(r.title), status_view(r.status)) == spec_apply(
                old(self)@,
                opt_str_view(title_update),
                status_view(status_update),
                throttle_elapsed,
            ),
    {
        let title = match title_update {
            Some(t) => {
                self.current_title = copy_string(&t);
                self.last_filename = copy_string(&t);
                Some(t)
            },
            None => None,
        };
        let status = match status_update {
            None => {
                return LineOutcome { title, status: None };
            },
            Some(s) => s,
        };
        let merged = match status {
            DownloadStatus::Downloading { progress, speed, eta, playlist } => {
                let pl = self.merge_playlist(copy_meta(&playlist));
                self.track(&playlist);
                DownloadStatus::Downloading {
                    progress,
                    speed: normalize_text(speed, "Unknown B/s"),
                    eta: normalize_text(eta, "Unknown"),
                    playlist: pl,
                }
            },
            DownloadStatus::Merging { playlist } => {
                let pl = self.merge_playlist(copy_meta(&playlist));
                self.track(&playlist);
                DownloadStatus::Merging { playlist: pl }
            },
            DownloadStatus::Finalizing { playlist } => {
                let pl = self.merge_playlist(copy_meta(&playlist));
                self.track(&playlist);
                DownloadStatus::Finalizing { playlist: pl }
            },
            other => other,
        };
        if let DownloadStatus::Merging { playlist: Some(m) } = &merged {
            let placeholder = String::from_str("Downloading...");
            if m.item_title.unicode_len() > 0 && m.item_title != placeholder {
                self.last_filename = copy_string(&m.item_title);
            }
        }
        let announce = match &merged {
            DownloadStatus::Downloading { progress, .. } => *progress >= 10000 || throttle_elapsed,
            _ => true,
        };
        LineOutcome {
            title,
            status: if announce {
                Some(merged)
            } else {
                None
            },
        }
    }

    fn track(&mut self, p: &Option<PlaylistMetadata>)
        ensures
            final(self).current_title == old(self).current_title,
            final(self).last_filename == old(self).last_filename,
            match meta_view(*p) {
                Some(m) => final(self).current_item == (if m.current_index > 0 {
                    m.current_index
                } else {
                    old(self).current_item
                }) && final(self).total_items == (if m.total_items > 0 {
                    m.total_items
                } else {
                    old(self).total_items
                }),
                None => final(self).current_item == old(self).current_item
                    && final(self).total_items == old(self).total_items,
            },
    {
        if let Some(m) = p {
            if m.current_index > 0 {
                self.current_item = m.current_index;
            }
            if m.total_items > 0 {
                self.total_items = m.total_items;
            }
        }
    }

    /// Follows one line of standard output: parses it and takes in the updates.
    pub fn on_stdout_line(&mut self, line: &str, throttle_elapsed: bool) -> (r: LineOutcome)
        requires
            !line@.contains('\n'),
        ensures
            exists|f: Option<Seq<char>>|
                reported_name_fits(spec_classify(line@), f) && (
                final(self)@,
                opt_str_view(r.title),
                status_view(r.status),
            ) == spec_apply(
                    old(self)@,
                    #[trigger] line_update(spec_classify(line@), old(self)@.current_title, f).0,
                    line_update(spec_classify(line@), old(self)@.current_title, f).1,
                    throttle_elapsed,
                ),
    {
        let (tu, su) = parse_ytdlp_output_line(line, self.current_title.as_str());
        let ghost f = choose|f: Option<Seq<char>>|
            reported_name_fits(spec_classify(line@), f) && (opt_str_view(tu), status_view(su))
                == line_update(
                spec_classify(line@),
                old(self)@.current_title,
                f,
            );
        let r = self.apply_update(tu, su, throttle_elapsed);
        assert(line_update(spec_classify(line@), old(self)@.current_title, f).0 == opt_str_view(tu));
        r
    }

    /// The file name a successful run reports: the last file name, or the current
    /// title when none was seen.
    pub fn finished_name(&self) -> (r: String)
        ensures
            r@ == (if self.last_filename@.len() == 0 {
                self.current_title@
            } else {
                self.last_filename@
            }),
    {
        if self.last_filename.unicode_len() == 0 {
            copy_string(&self.current_title)
        } else {
            copy_string(&self.last_filename)
        }
    }
}

// ─── Run results ────────────────────────────────────────────

/// The error that a failed run's error output stands for, by the first matching
/// symptom in a fixed order of precedence.
pub open spec fn spec_run_failure(e: Seq<char>) -> AppErrorView {
    if contains(e, "ffprobe not found"@) {
        AppErrorView::DependencyMissing("ffprobe"@)
    } else if contains(e, "ffmpeg not found"@) {
        AppErrorView::DependencyMissing("ffmpeg"@)
    } else if contains(e, "No supported JavaScript runtime could be found"@) {
        AppErrorView::DependencyMissing("deno"@)
    } else if contains(e, "Sign in to confirm you are not a bot"@) || contains(
        e,
        "Sign in to confirm your age"@,
    ) {
        AppErrorView::YtDlpLoginRequired
    } else if contains(e, "Database is locked"@) || contains(e, "sqlite3.OperationalError"@) {
        AppErrorView::YtDlpBrowserLock
    } else if contains(e, "HTTP Error 429"@) {
        AppErrorView::YtDlpRateLimited
    } else if contains(e, "Video unavailable"@) || contains(e, "This video is unavailable"@) {
        AppErrorView::YtDlpUnavailable
    } else if (contains(e, "fragment"@) && contains(e, "not found"@)) || contains(
        e,
        "Could not resolve host"@,
    ) {
        AppErrorView::YtDlpNetworkError
    } else if trim(e).len() == 0 {
        AppErrorView::YtDlp("Unknown yt-dlp error"@)
    } else {
        AppErrorView::YtDlp(trim(e))
    }
}

/// Each symptom in a failed run's error output gives its error, unless a symptom
/// of higher precedence is present too: missing ffprobe, ffmpeg or JavaScript
/// runtime; a sign-in request; a locked browser cookie database (`Database is
/// locked` or `sqlite3.OperationalError`); HTTP 429; an unavailable video; a
/// network failure. Output with none of them is reported as it is, trimmed, or
/// as an unknown error when it is blank.
pub proof fn lemma_run_failure_symptoms(e: Seq<char>)
    ensures
        ({
            let dep = contains(e, "ffprobe not found"@) || contains(e, "ffmpeg not found"@)
                || contains(e, "No supported JavaScript runtime could be found"@);
            let login = contains(e, "Sign in to confirm you are not a bot"@) || contains(
                e,
                "Sign in to confirm your age"@,
            );
            let lock = contains(e, "Database is locked"@) || contains(
                e,
                "sqlite3.OperationalError"@,
            );
            let rate = contains(e, "HTTP Error 429"@);
            let gone = contains(e, "Video unavailable"@) || contains(
                e,
                "This video is unavailable"@,
            );
            let net = (contains(e, "fragment"@) && contains(e, "not found"@)) || contains(
                e,
                "Could not resolve host"@,
            );
            &&& contains(e, "ffprobe not found"@) ==> spec_run_failure(e)
                == AppErrorView::DependencyMissing("ffprobe"@)
            &&& !contains(e, "ffprobe not found"@) && contains(e, "ffmpeg not found"@)
                ==> spec_run_failure(e) == AppErrorView::DependencyMissing("ffmpeg"@)
            &&& !contains(e, "ffprobe not found"@) && !contains(e, "ffmpeg not found"@)
                && contains(e, "No supported JavaScript runtime could be found"@)
                ==> spec_run_failure(e) == AppErrorView::DependencyMissing("deno"@)
            &&& !dep && login ==> spec_run_failure(e) == AppErrorView::YtDlpLoginRequired
            &&& !dep && !login && lock ==> spec_run_failure(e) == AppErrorView::YtDlpBrowserLock
            &&& !dep && !login && !lock && rate ==> spec_run_failure(e)
                == AppErrorView::YtDlpRateLimited
            &&& !dep && !login && !lock && !rate && gone ==> spec_run_failure(e)
                == AppErrorView::YtDlpUnavailable
            &&& !dep && !login && !lock && !rate && !gone && net ==> spec_run_failure(e)
                == AppErrorView::YtDlpNetworkError
            &&& !dep && !login && !lock && !rate && !gone && !net ==> spec_run_failure(e)
                == AppErrorView::YtDlp(
                if trim(e).len() == 0 {
                    "Unknown yt-dlp error"@
                } else {
                    trim(e)
                },
            )
            &&& spec_run_failure(e) is YtDlpBrowserLock ==> lock
        }),
{
}

/// The error that a failed run's error output stands for.
pub fn run_failure(stderr: &str) -> (r: AppError)
    ensures
        r@ == spec_run_failure(stderr@),
{
    let e = chars_of(stderr);
    if str_contains(&e, "ffprobe not found") {
        AppError::DependencyMissing(String::from_str("ffprobe"))
    } else if str_contains(&e, "ffmpeg not found") {
        AppError::DependencyMissing(String::from_str("ffmpeg"))
    } else if str_contains(&e, "No supported JavaScript runtime could be found") {
        AppError::DependencyMissing(String::from_str("deno"))
    } else if str_contains(&e, "Sign in to confirm you are not a bot") || str_contains(
        &e,
        "Sign in to confirm your age",
    ) {
        AppError::YtDlpLoginRequired
    } else if str_contains(&e, "Database is locked") || str_contains(&e, "sqlite3.OperationalError") {
        AppError::YtDlpBrowserLock
    } else if str_contains(&e, "HTTP Error 429") {
        AppError::YtDlpRateLimited
    } else if str_contains(&e, "Video unavailable") || str_contains(&e, "This video is unavailable") {
        AppError::YtDlpUnavailable
    } else if (str_contains(&e, "fragment") && str_contains(&e, "not found")) || str_contains(
        &e,
        "Could not resolve host",
    ) {
        AppError::YtDlpNetworkError
    } else {
        let t = trimmed(stderr);
        if t.unicode_len() == 0 {
            AppError::YtDlp(String::from_str("Unknown yt-dlp error"))
        } else {
            AppError::YtDlp(t)
        }
    }
}

impl OutputTracker {
    /// The outcome of a finished run: on success the reported file name, otherwise
    /// the error its error output stands for.
    pub fn run_result(&self, success: bool, stderr: &str) -> (r: Result<String, AppError>)
        ensures
            success ==> (r matches Ok(n) && n@ == (if self.last_filename@.len() == 0 {
                self.current_title@
            } else {
                self.last_filename@
            })),
            !success ==> (r matches Err(e) && e@ == spec_run_failure(stderr@)),
    {
        if success {
            Ok(self.finished_name())
        } else {
            Err(run_failure(stderr))
        }
    }
}

/// An error-output line that reports a retry after a network problem.
pub open spec fn spec_is_retry_line(l: Seq<char>) -> bool {
    contains(l, "Retrying"@) || (contains(l, "Got error"@) && contains(l, "download"@))
}

/// Whether an error-output line reports a retry after a network problem.
pub fn is_retry_line(line: &str) -> (r: bool)
    ensures
        r == spec_is_retry_line(line@),
{
    let l = chars_of(line);
    str_contains(&l, "Retrying") || (str_contains(&l, "Got error") && str_contains(&l, "download"))
}

/// The status announced while yt-dlp retries after a network problem.
pub fn retry_status() -> (r: DownloadStatus)
    ensures
        r@ == (StatusView::Downloading {
            progress: 0,
            speed: "Network Error"@,
            eta: "Retrying..."@,
            playlist: None,
        }),
{
    DownloadStatus::Downloading {
        progress: 0,
        speed: String::from_str("Network Error"),
        eta: String::from_str("Retrying..."),
        playlist: None,
    }
}

} // verus!
