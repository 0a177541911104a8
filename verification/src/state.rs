//! Download tasks and the life cycle of their status.
//!
//! Progress values are hundredths of a percent: `10000` is 100%.
use crate::error::ErrorCategory;
use crate::config::AppConfig;
use crate::text::{concat2, copy_string, decimal, push_decimal};
use vstd::prelude::*;
use vstd::string::*;

verus! {

/// Progress of a finished item, in hundredths of a percent.
pub const FULL_PROGRESS: i64 = 10000;

/// Metadata for a specific item within a batch or playlist.
#[derive(Debug)]
pub struct PlaylistMetadata {
    pub current_index: usize,
    pub total_items: usize,
    pub item_title: String,
}

/// An individual item of a playlist task.
#[derive(Debug)]
pub struct SubTask {
    pub id: String,
    pub title: String,
    pub status: DownloadStatus,
}

/// The life cycle of a download.
#[derive(Debug)]
pub enum DownloadStatus {
    Queued,
    Starting,
    FetchingMetadata,
    Downloading {
        progress: i64,
        speed: String,
        eta: String,
        playlist: Option<PlaylistMetadata>,
    },
    Merging { playlist: Option<PlaylistMetadata> },
    Finalizing { playlist: Option<PlaylistMetadata> },
    Completed { filename: String },
    Failed { reason: String, progress: i64, category: ErrorCategory },
    Cancelled,
    Paused { progress: i64 },
    /// Marked on startup for tasks that were in progress when the app closed.
    Interrupted { progress: i64 },
}

/// A download task with all the metadata needed to resume it.
#[derive(Debug)]
pub struct DownloadTask {
    pub id: String,
    pub url: String,
    pub title: String,
    pub media_type: String,
    pub format: String,
    pub quality: String,
    pub output_path: String,
    pub is_playlist: bool,
    pub timestamp: u64,
    /// Arguments used to start yt-dlp (kept for resume).
    pub args: Vec<String>,
    /// Scratch directory of the task.
    pub temp_path: String,
    /// Process id of the yt-dlp child (runtime only).
    pub pid: Option<u32>,
    /// File being downloaded (runtime only).
    pub current_file: Option<String>,
    pub status: DownloadStatus,
    /// Individual items if this is a playlist.
    pub children: Vec<SubTask>,
}

// ─── Views ──────────────────────────────────────────────────

/// The mathematical value of a [`PlaylistMetadata`].
pub struct MetaView {
    pub current_index: usize,
    pub total_items: usize,
    pub item_title: Seq<char>,
}

impl View for PlaylistMetadata {
    type V = MetaView;

    open spec fn view(&self) -> MetaView {
        MetaView {
            current_index: self.current_index,
            total_items: self.total_items,
            item_title: self.item_title@,
        }
    }
}

pub open spec fn meta_view(m: Option<PlaylistMetadata>) -> Option<MetaView> {
    match m {
        Some(p) => Some(p@),
        None => None,
    }
}

/// The mathematical value of a [`DownloadStatus`]: its strings become sequences.
pub enum StatusView {
    Queued,
    Starting,
    FetchingMetadata,
    Downloading {
        progress: i64,
        speed: Seq<char>,
        eta: Seq<char>,
        playlist: Option<MetaView>,
    },
    Merging { playlist: Option<MetaView> },
    Finalizing { playlist: Option<MetaView> },
    Completed { filename: Seq<char> },
    Failed { reason: Seq<char>, progress: i64, category: ErrorCategory },
    Cancelled,
    Paused { progress: i64 },
    Interrupted { progress: i64 },
}

impl View for DownloadStatus {
    type V = StatusView;

    open spec fn view(&self) -> StatusView {
        match *self {
            DownloadStatus::Queued => StatusView::Queued,
            DownloadStatus::Starting => StatusView::Starting,
            DownloadStatus::FetchingMetadata => StatusView::FetchingMetadata,
            DownloadStatus::Downloading { progress, speed, eta, playlist } => StatusView::Downloading {
                progress,
                speed: speed@,
                eta: eta@,
                playlist: meta_view(playlist),
            },
            DownloadStatus::Merging { playlist } => StatusView::Merging {
                playlist: meta_view(playlist),
            },
            DownloadStatus::Finalizing { playlist } => StatusView::Finalizing {
                playlist: meta_view(playlist),
            },
            DownloadStatus::Completed { filename } => StatusView::Completed { filename: filename@ },
            DownloadStatus::Failed { reason, progress, category } => StatusView::Failed {
                reason: reason@,
                progress,
                category,
            },
            DownloadStatus::Cancelled => StatusView::Cancelled,
            DownloadStatus::Paused { progress } => StatusView::Paused { progress },
            DownloadStatus::Interrupted { progress } => StatusView::Interrupted { progress },
        }
    }
}

pub open spec fn status_view(s: Option<DownloadStatus>) -> Option<StatusView> {
    match s {
        Some(x) => Some(x@),
        None => None,
    }
}

// ─── Copies ─────────────────────────────────────────────────

impl PlaylistMetadata {
    pub fn duplicate(&self) -> (r: PlaylistMetadata)
        ensures
            r == *self,
    {
        PlaylistMetadata {
            current_index: self.current_index,
            total_items: self.total_items,
            item_title: copy_string(&self.item_title),
        }
    }
}

pub fn copy_meta(m: &Option<PlaylistMetadata>) -> (r: Option<PlaylistMetadata>)
    ensures
        r == *m,
{
    match m {
        Some(p) => Some(p.duplicate()),
        None => None,
    }
}

impl DownloadStatus {
    pub fn duplicate(&self) -> (r: DownloadStatus)
        ensures
            r == *self,
    {
        match self {
            DownloadStatus::Queued => DownloadStatus::Queued,
            DownloadStatus::Starting => DownloadStatus::Starting,
            DownloadStatus::FetchingMetadata => DownloadStatus::FetchingMetadata,
            DownloadStatus::Downloading { progress, speed, eta, playlist } => {
                DownloadStatus::Downloading {
                    progress: *progress,
                    speed: copy_string(speed),
                    eta: copy_string(eta),
                    playlist: copy_meta(playlist),
                }
            },
            DownloadStatus::Merging { playlist } => DownloadStatus::Merging {
                playlist: copy_meta(playlist),
            },
            DownloadStatus::Finalizing { playlist } => DownloadStatus::Finalizing {
                playlist: copy_meta(playlist),
            },
            DownloadStatus::Completed { filename } => DownloadStatus::Completed {
                filename: copy_string(filename),
            },
            DownloadStatus::Failed { reason, progress, category } => DownloadStatus::Failed {
                reason: copy_string(reason),
                progress: *progress,
                category: *category,
            },
            DownloadStatus::Cancelled => DownloadStatus::Cancelled,
            DownloadStatus::Paused { progress } => DownloadStatus::Paused { progress: *progress },
            DownloadStatus::Interrupted { progress } => DownloadStatus::Interrupted {
                progress: *progress,
            },
        }
    }
}

impl SubTask {
    pub fn duplicate(&self) -> (r: SubTask)
        ensures
            r == *self,
    {
        SubTask {
            id: copy_string(&self.id),
            title: copy_string(&self.title),
            status: self.status.duplicate(),
        }
    }
}

pub fn copy_strings(v: &Vec<String>) -> (r: Vec<String>)
    ensures
        r@ == v@,
{
    let mut r: Vec<String> = Vec::new();
    let mut i: usize = 0;
    while i < v.len()
        invariant
            i <= v@.len(),
            r@ == v@.subrange(0, i as int),
        decreases v@.len() - i,
    {
        r.push(copy_string(&v[i]));
        i = i + 1;
        assert(r@ =~= v@.subrange(0, i as int));
    }
    assert(r@ =~= v@);
    r
}

pub fn copy_subtasks(v: &Vec<SubTask>) -> (r: Vec<SubTask>)
    ensures
        r@ == v@,
{
    let mut r: Vec<SubTask> = Vec::new();
    let mut i: usize = 0;
    while i < v.len()
        invariant
            i <= v@.len(),
            r@ == v@.subrange(0, i as int),
        decreases v@.len() - i,
    {
        r.push(v[i].duplicate());
        i = i + 1;
        assert(r@ =~= v@.subrange(0, i as int));
    }
    assert(r@ =~= v@);
    r
}

/// The mathematical value of a [`DownloadTask`]: its vectors become sequences.
pub struct DownloadTaskView {
    pub id: String,
    pub url: String,
    pub title: String,
    pub media_type: String,
    pub format: String,
    pub quality: String,
    pub output_path: String,
    pub is_playlist: bool,
    pub timestamp: u64,
    pub args: Seq<String>,
    pub temp_path: String,
    pub pid: Option<u32>,
    pub current_file: Option<String>,
    pub status: DownloadStatus,
    pub children: Seq<SubTask>,
}

impl View for DownloadTask {
    type V = DownloadTaskView;

    open spec fn view(&self) -> DownloadTaskView {
        DownloadTaskView {
            id: self.id,
            url: self.url,
            title: self.title,
            media_type: self.media_type,
            format: self.format,
            quality: self.quality,
            output_path: self.output_path,
            is_playlist: self.is_playlist,
            timestamp: self.timestamp,
            args: self.args@,
            temp_path: self.temp_path,
            pid: self.pid,
            current_file: self.current_file,
            status: self.status,
            children: self.children@,
        }
    }
}

impl DownloadTask {
    pub fn duplicate(&self) -> (r: DownloadTask)
        ensures
            r@ == self@,
    {
        DownloadTask {
            id: copy_string(&self.id),
            url: copy_string(&self.url),
            title: copy_string(&self.title),
            media_type: copy_string(&self.media_type),
            format: copy_string(&self.format),
            quality: copy_string(&self.quality),
            output_path: copy_string(&self.output_path),
            is_playlist: self.is_playlist,
            timestamp: self.timestamp,
            args: copy_strings(&self.args),
            temp_path: copy_string(&self.temp_path),
            pid: self.pid,
            current_file: crate::config::copy_opt_string(&self.current_file),
            status: self.status.duplicate(),
            children: copy_subtasks(&self.children),
        }
    }
}

// ─── Status specifications ──────────────────────────────────

/// Completed and cancelled tasks are finished for good.
pub open spec fn spec_is_terminal(s: DownloadStatus) -> bool {
    s is Completed || s is Cancelled
}

/// States that end the work on a task and on its unfinished items.
pub open spec fn spec_is_stopping(s: DownloadStatus) -> bool {
    spec_is_terminal(s) || s is Failed || s is Interrupted || s is Paused
}

/// The transition rule: whether `new` may replace `cur`.
pub open spec fn spec_can_overwrite(cur: DownloadStatus, new: DownloadStatus) -> bool {
    if spec_is_terminal(cur) {
        false
    } else if cur is Paused && (new is Downloading || new is Merging || new is FetchingMetadata) {
        false
    } else if cur is Merging && ((new is Downloading && spec_playlist_meta(new) is Some)
        || new is FetchingMetadata) {
        true
    } else {
        !((cur is Finalizing && (new is Downloading || new is Merging
            || new is FetchingMetadata))
        || (cur is Merging && (new is Downloading || new is FetchingMetadata))
        || (cur is Downloading && new is FetchingMetadata)
        || (cur is Interrupted && new is Downloading))
    }
}

/// The playlist metadata a status carries.
pub open spec fn spec_playlist_meta(s: DownloadStatus) -> Option<PlaylistMetadata> {
    match s {
        DownloadStatus::Downloading { playlist, .. } => playlist,
        DownloadStatus::Merging { playlist } => playlist,
        DownloadStatus::Finalizing { playlist } => playlist,
        _ => None,
    }
}

/// Integer division rounded toward zero.
pub open spec fn trunc_div(n: int, d: int) -> int {
    if n >= 0 {
        n / d
    } else {
        -((-n) / d)
    }
}

/// `x` limited to the range of `i64`.
pub open spec fn clamp_i64(x: int) -> i64 {
    if x > i64::MAX {
        i64::MAX
    } else if x < i64::MIN {
        i64::MIN
    } else {
        x as i64
    }
}

/// Flattened progress of a whole task, in hundredths of a percent, rounded toward zero.
/// Within a playlist, every item counts for an equal share.
pub open spec fn spec_global_progress(s: DownloadStatus) -> i64 {
    match s {
        DownloadStatus::Downloading { progress, playlist, .. } => match playlist {
            Some(p) => if p.total_items > 0 {
                clamp_i64(
                    trunc_div((p.current_index - 1) * 10000 + progress, p.total_items as int),
                )
            } else {
                progress
            },
            None => progress,
        },
        DownloadStatus::Merging { playlist } | DownloadStatus::Finalizing { playlist } =>
            match playlist {
            Some(p) => if p.total_items > 0 {
                clamp_i64(trunc_div(p.current_index * 10000, p.total_items as int))
            } else {
                10000
            },
            None => 10000,
        },
        DownloadStatus::Completed { .. } => 10000,
        DownloadStatus::Failed { progress, .. } => progress,
        DownloadStatus::Paused { progress } => progress,
        DownloadStatus::Interrupted { progress } => progress,
        _ => 0,
    }
}

/// A status that carries its own progress shows that progress: a paused, failed
/// or interrupted task, and a download outside a playlist. A finished task, and a
/// merge or finalization outside a playlist, show 100%; a task not yet
/// downloading, or cancelled, shows nothing.
pub proof fn lemma_global_progress_own(s: DownloadStatus)
    ensures
        (s matches DownloadStatus::Paused { progress } ==> spec_global_progress(s) == progress),
        (s matches DownloadStatus::Failed { progress, .. } ==> spec_global_progress(s)
            == progress),
        (s matches DownloadStatus::Interrupted { progress } ==> spec_global_progress(s)
            == progress),
        (s matches DownloadStatus::Downloading { progress, playlist: None, .. }
            ==> spec_global_progress(s) == progress),
        s is Completed ==> spec_global_progress(s) == 10000,
        (s is Merging || s is Finalizing) && spec_playlist_meta(s) is None ==> spec_global_progress(
            s,
        ) == 10000,
        s is Queued || s is Starting || s is FetchingMetadata || s is Cancelled
            ==> spec_global_progress(s) == 0,
{
}

/// Within a playlist of `n` items, every item is an equal share: while item `i`
/// downloads, the task's progress lies between the share of the `i - 1` items
/// before it and the share of the `i` items up to it; while item `i` merges or is
/// finalized, it is the share of the `i` items up to it.
pub proof fn lemma_global_progress_share(s: DownloadStatus, p: PlaylistMetadata)
    requires
        spec_playlist_meta(s) == Some(p),
        1 <= p.current_index <= p.total_items,
    ensures
        (s matches DownloadStatus::Downloading { progress, .. } && 0 <= progress <= 10000 ==> {
            &&& ((p.current_index - 1) * 10000) / (p.total_items as int) <= spec_global_progress(s)
            &&& spec_global_progress(s) <= (p.current_index * 10000) / (p.total_items as int)
        }),
        (s is Merging || s is Finalizing) ==> spec_global_progress(s) == (p.current_index * 10000)
            / (p.total_items as int),
        (s is Merging || s is Finalizing) && p.current_index == p.total_items
            ==> spec_global_progress(s) == 10000,
{
    let n = p.total_items as int;
    let c = p.current_index as int;
    vstd::arithmetic::div_mod::lemma_div_is_ordered(c * 10000, n * 10000, n);
    vstd::arithmetic::div_mod::lemma_div_multiples_vanish(10000, n);
    assert(n * 10000 == 10000 * n) by (nonlinear_arith);
    assert(c * 10000 >= 0) by (nonlinear_arith)
        requires
            c >= 1,
    ;
    vstd::arithmetic::div_mod::lemma_div_is_ordered(0, c * 10000, n);
    assert(0int / n == 0) by (nonlinear_arith)
        requires
            n > 0,
    ;
    if let DownloadStatus::Downloading { progress, .. } = s {
        if 0 <= progress <= 10000 {
            let x = (c - 1) * 10000 + progress;
            assert((c - 1) * 10000 == c * 10000 - 10000) by (nonlinear_arith);
            vstd::arithmetic::div_mod::lemma_div_is_ordered((c - 1) * 10000, x, n);
            vstd::arithmetic::div_mod::lemma_div_is_ordered(x, c * 10000, n);
            vstd::arithmetic::div_mod::lemma_div_is_ordered(0, (c - 1) * 10000, n);
        }
    }
}

/// The phases of the work on a task, in order (`-1` for the stopped states).
pub open spec fn phase_rank(s: DownloadStatus) -> int {
    match s {
        DownloadStatus::Queued => 0,
        DownloadStatus::Starting => 1,
        DownloadStatus::FetchingMetadata => 2,
        DownloadStatus::Downloading { .. } => 3,
        DownloadStatus::Merging { .. } => 4,
        DownloadStatus::Finalizing { .. } => 5,
        DownloadStatus::Completed { .. } => 6,
        _ => -1,
    }
}

/// A task at work accepts any report of the same or a later phase: a download
/// may move on to merging, a merge to finalizing, and any of them to completion.
pub proof fn lemma_forward_accepted(cur: DownloadStatus, new: DownloadStatus)
    requires
        0 <= phase_rank(cur) < 6,
        phase_rank(cur) <= phase_rank(new),
    ensures
        spec_can_overwrite(cur, new),
{
}

/// Finished statuses never change again.
pub proof fn lemma_terminal_is_final(cur: DownloadStatus, new: DownloadStatus)
    requires
        spec_is_terminal(cur),
    ensures
        !spec_can_overwrite(cur, new),
{
}

/// A paused task ignores progress reports until it is restarted.
pub proof fn lemma_paused_blocks_progress(cur: DownloadStatus, new: DownloadStatus)
    requires
        cur is Paused,
        new is Downloading || new is Merging || new is FetchingMetadata,
    ensures
        !spec_can_overwrite(cur, new),
{
}

/// A task never moves back from finalizing to an earlier phase, never from
/// downloading back to fetching metadata, and an interrupted task never resumes
/// downloading without being restarted.
pub proof fn lemma_no_demotion(cur: DownloadStatus, new: DownloadStatus)
    requires
        (cur is Finalizing && (new is Downloading || new is Merging || new is FetchingMetadata))
            || (cur is Downloading && new is FetchingMetadata) || (cur is Interrupted
            && new is Downloading),
    ensures
        !spec_can_overwrite(cur, new),
{
}

/// A playlist may go from merging one item back to downloading the next, when the
/// download report carries playlist metadata, or to fetching the next.
pub proof fn lemma_merging_allows_next_item(cur: DownloadStatus, new: DownloadStatus)
    requires
        cur is Merging,
        (new is Downloading && spec_playlist_meta(new) is Some) || new is FetchingMetadata,
    ensures
        spec_can_overwrite(cur, new),
{
}

/// A download report without playlist metadata never takes a task back from merging.
pub proof fn lemma_merging_keeps_single_download(cur: DownloadStatus, new: DownloadStatus)
    requires
        cur is Merging,
        new is Downloading,
        spec_playlist_meta(new) is None,
    ensures
        !spec_can_overwrite(cur, new),
{
}

/// Failure, pause, interruption and cancellation are always accepted by an unfinished task.
pub proof fn lemma_stop_always_accepted(cur: DownloadStatus, new: DownloadStatus)
    requires
        !spec_is_terminal(cur),
        spec_is_stopping(new),
    ensures
        spec_can_overwrite(cur, new),
{
}

impl Default for DownloadStatus {
    fn default() -> (r: DownloadStatus)
        ensures
            r is Starting,
    {
        DownloadStatus::Starting
    }
}

impl DownloadStatus {
    /// Whether this state is worth a database write (every state but `Downloading`).
    pub fn is_persisted(&self) -> (r: bool)
        ensures
            r == !(*self is Downloading),
    {
        !matches!(self, DownloadStatus::Downloading { .. })
    }

    /// Whether the task is finished and should leave memory.
    pub fn is_terminal(&self) -> (r: bool)
        ensures
            r == spec_is_terminal(*self),
    {
        matches!(self, DownloadStatus::Completed { .. } | DownloadStatus::Cancelled)
    }

    /// Whether this status belongs to a stopped task.
    pub fn is_stopping(&self) -> (r: bool)
        ensures
            r == spec_is_stopping(*self),
    {
        matches!(
            self,
            DownloadStatus::Completed { .. } | DownloadStatus::Cancelled | DownloadStatus::Failed {
                ..
            } | DownloadStatus::Interrupted { .. } | DownloadStatus::Paused { .. }
        )
    }

    /// Whether a new status is allowed to replace this one.
    pub fn can_be_overwritten_by(&self, new: &DownloadStatus) -> (r: bool)
        ensures
            r == spec_can_overwrite(*self, *new),
    {
        if matches!(self, DownloadStatus::Completed { .. } | DownloadStatus::Cancelled) {
            return false;
        }
        let new_is_volatile = matches!(
            new,
            DownloadStatus::Downloading { .. } | DownloadStatus::Merging { .. }
                | DownloadStatus::FetchingMetadata
        );
        if matches!(self, DownloadStatus::Paused { .. }) && new_is_volatile {
            return false;
        }
        let new_is_earlier = matches!(
            new,
            DownloadStatus::Downloading { playlist: Some(_), .. } | DownloadStatus::FetchingMetadata
        );
        if matches!(self, DownloadStatus::Merging { .. }) && new_is_earlier {
            return true;
        }
        let finalizing_back = matches!(self, DownloadStatus::Finalizing { .. }) && new_is_volatile;
        let downloading_back = matches!(self, DownloadStatus::Downloading { .. }) && matches!(
            new,
            DownloadStatus::FetchingMetadata
        );
        let interrupted_forward = matches!(self, DownloadStatus::Interrupted { .. }) && matches!(
            new,
            DownloadStatus::Downloading { .. }
        );
        let merging_back = matches!(self, DownloadStatus::Merging { .. }) && matches!(
            new,
            DownloadStatus::Downloading { .. } | DownloadStatus::FetchingMetadata
        );
        !(finalizing_back || merging_back || downloading_back || interrupted_forward)
    }

    /// The playlist metadata of this status, where it has any.
    pub fn playlist_meta(&self) -> (r: Option<&PlaylistMetadata>)
        ensures
            match r {
                Some(m) => spec_playlist_meta(*self) == Some(*m),
                None => spec_playlist_meta(*self) is None,
            },
    {
        match self {
            DownloadStatus::Downloading { playlist, .. } => playlist.as_ref(),
            DownloadStatus::Merging { playlist } => playlist.as_ref(),
            DownloadStatus::Finalizing { playlist } => playlist.as_ref(),
            _ => None,
        }
    }

    /// Flattened progress of the whole task, in hundredths of a percent.
    pub fn calculate_global_progress(&self) -> (r: i64)
        ensures
            r == spec_global_progress(*self),
    {
        match self {
            DownloadStatus::Downloading { progress, playlist, .. } => {
                match playlist {
                    Some(p) => {
                        if p.total_items > 0 {
                            let num: i128 = (p.current_index as i128 - 1) * 10000
                                + *progress as i128;
                            divide_clamped(num, p.total_items)
                        } else {
                            *progress
                        }
                    },
                    None => *progress,
                }
            },
            DownloadStatus::Merging { playlist } | DownloadStatus::Finalizing { playlist } => {
                match playlist {
                    Some(p) => {
                        if p.total_items > 0 {
                            let num: i128 = p.current_index as i128 * 10000;
                            divide_clamped(num, p.total_items)
                        } else {
                            FULL_PROGRESS
                        }
                    },
                    None => FULL_PROGRESS,
                }
            },
            DownloadStatus::Completed { .. } => FULL_PROGRESS,
            DownloadStatus::Failed { progress, .. } => *progress,
            DownloadStatus::Paused { progress } => *progress,
            DownloadStatus::Interrupted { progress } => *progress,
            _ => 0,
        }
    }

    /// The title of the current playlist item, where known.
    pub fn item_title(&self) -> (r: Option<String>)
        ensures
            match spec_playlist_meta(*self) {
                Some(m) => r == Some(m.item_title),
                None => r is None,
            },
    {
        match self.playlist_meta() {
            Some(m) => Some(copy_string(&m.item_title)),
            None => None,
        }
    }
}

/// `n / d` rounded toward zero and limited to `i64`.
fn divide_clamped(n: i128, d: usize) -> (r: i64)
    requires
        d > 0,
        n > i128::MIN,
    ensures
        r == clamp_i64(trunc_div(n as int, d as int)),
{
    let dd = d as i128;
    let q: i128 = if n >= 0 {
        n / dd
    } else {
        let m: i128 = -n;
        -(m / dd)
    };
    if q > i64::MAX as i128 {
        i64::MAX
    } else if q < i64::MIN as i128 {
        i64::MIN
    } else {
        q as i64
    }
}


// ─── Playlist items ─────────────────────────────────────────

/// The id of the `i`-th item of the playlist task `task_id`.
pub open spec fn item_id(task_id: Seq<char>, i: nat) -> Seq<char> {
    task_id + "-item-"@ + decimal(i)
}

/// Index of the first child with id `cid`, searching from `j`.
pub open spec fn first_child_from(cs: Seq<SubTask>, cid: Seq<char>, j: int) -> Option<int>
    decreases cs.len() - j,
{
    if j < 0 || j >= cs.len() {
        None
    } else if cs[j].id@ == cid {
        Some(j)
    } else {
        first_child_from(cs, cid, j + 1)
    }
}

/// Index of the first child with id `cid`.
pub open spec fn first_child(cs: Seq<SubTask>, cid: Seq<char>) -> Option<int> {
    first_child_from(cs, cid, 0)
}

pub proof fn lemma_first_child_from(cs: Seq<SubTask>, cid: Seq<char>, j: int)
    requires
        0 <= j,
    ensures
        first_child_from(cs, cid, j) matches Some(k) ==> j <= k < cs.len() && cs[k].id@ == cid
            && forall|m: int| j <= m < k ==> cs[m].id@ != cid,
        first_child_from(cs, cid, j) is None ==> forall|m: int|
            j <= m < cs.len() ==> cs[m].id@ != cid,
    decreases cs.len() - j,
{
    if j < cs.len() && cs[j].id@ != cid {
        lemma_first_child_from(cs, cid, j + 1);
    }
}

/// Marks the first child with id `cid` completed, unless it is already finished.
pub open spec fn complete_child(cs: Seq<SubTask>, cid: Seq<char>) -> Seq<SubTask> {
    match first_child(cs, cid) {
        Some(j) => if spec_is_terminal(cs[j].status) {
            cs
        } else {
            cs.update(
                j,
                SubTask { status: DownloadStatus::Completed { filename: cs[j].title }, ..cs[j] },
            )
        },
        None => cs,
    }
}

/// Marks the items `1 .. n - 1` of the playlist task `tid` completed.
pub open spec fn complete_items(cs: Seq<SubTask>, tid: Seq<char>, n: nat) -> Seq<SubTask>
    decreases n,
{
    if n <= 1 {
        cs
    } else {
        complete_child(complete_items(cs, tid, (n - 1) as nat), item_id(tid, (n - 1) as nat))
    }
}

/// Every unfinished child takes the stopping status.
pub open spec fn stop_children(cs: Seq<SubTask>, status: DownloadStatus) -> Seq<SubTask> {
    Seq::new(
        cs.len(),
        |j: int|
            if spec_is_terminal(cs[j].status) {
                cs[j]
            } else {
                SubTask { status: status, ..cs[j] }
            },
    )
}

/// `after` is `before` with the child `cid` replaced, or appended, with the given title and status.
pub open spec fn upserted(
    before: Seq<SubTask>,
    after: Seq<SubTask>,
    cid: Seq<char>,
    title: String,
    status: DownloadStatus,
) -> bool {
    match first_child(before, cid) {
        Some(j) => {
            &&& after.len() == before.len()
            &&& forall|k: int| 0 <= k < before.len() && k != j ==> after[k] == before[k]
            &&& after[j].id@ == cid
            &&& after[j].title == title
            &&& after[j].status == status
        },
        None => {
            &&& after.len() == before.len() + 1
            &&& after.subrange(0, before.len() as int) == before
            &&& after.last().id@ == cid
            &&& after.last().title == title
            &&& after.last().status == status
        },
    }
}

/// How a status update changes a task's children: a stop reaches every unfinished
/// child; a playlist report completes the earlier items and records the current one.
pub open spec fn children_updated(t: DownloadTaskView, after: Seq<SubTask>, status: DownloadStatus) -> bool {
    if spec_is_stopping(status) {
        after == stop_children(t.children, status)
    } else {
        match spec_playlist_meta(status) {
            Some(m) => upserted(
                complete_items(t.children, t.id@, m.current_index as nat),
                after,
                item_id(t.id@, m.current_index as nat),
                m.item_title,
                status,
            ),
            None => after == t.children,
        }
    }
}

/// `after` is `before` with the new status applied.
pub open spec fn status_applied(before: DownloadTaskView, after: DownloadTaskView, status: DownloadStatus) -> bool {
    &&& after == DownloadTaskView { status: status, children: after.children, ..before }
    &&& children_updated(before, after.children, status)
}

/// The id of the `i`-th item of the playlist task `task_id`.
pub fn make_item_id(task_id: &String, i: usize) -> (r: String)
    ensures
        r@ == item_id(task_id@, i as nat),
{
    let mut s = concat2(task_id.as_str(), "-item-");
    push_decimal(&mut s, i as u64);
    s
}

fn find_child(cs: &Vec<SubTask>, cid: &String) -> (r: Option<usize>)
    ensures
        match r {
            Some(j) => first_child(cs@, cid@) == Some(j as int),
            None => first_child(cs@, cid@) is None,
        },
{
    let mut j: usize = 0;
    while j < cs.len()
        invariant
            j <= cs@.len(),
            first_child_from(cs@, cid@, j as int) == first_child(cs@, cid@),
        decreases cs@.len() - j,
    {
        if cs[j].id == *cid {
            return Some(j);
        }
        j = j + 1;
    }
    None
}

fn complete_child_exec(cs: &mut Vec<SubTask>, cid: &String)
    ensures
        final(cs)@ == complete_child(old(cs)@, cid@),
{
    proof {
        lemma_first_child_from(cs@, cid@, 0);
    }
    match find_child(cs, cid) {
        Some(j) => {
            if !cs[j].status.is_terminal() {
                let c = SubTask {
                    id: copy_string(&cs[j].id),
                    title: copy_string(&cs[j].title),
                    status: DownloadStatus::Completed { filename: copy_string(&cs[j].title) },
                };
                cs.set(j, c);
            }
        },
        None => {},
    }
}

fn complete_items_exec(cs: &mut Vec<SubTask>, tid: &String, n: usize)
    ensures
        final(cs)@ == complete_items(old(cs)@, tid@, n as nat),
{
    let ghost orig = cs@;
    assert(orig == old(cs)@);
    let mut i: usize = 1;
    while i < n
        invariant
            1 <= i,
            i <= n || (n == 0 && i == 1),
            cs@ == complete_items(orig, tid@, i as nat),
        decreases n - i,
    {
        let cid = make_item_id(tid, i);
        complete_child_exec(cs, &cid);
        i = i + 1;
    }
    proof {
        if n == 0 {
            assert(complete_items(orig, tid@, 0) == orig);
            assert(complete_items(orig, tid@, 1) == orig);
        }
    }
}

fn stop_children_exec(cs: &mut Vec<SubTask>, status: &DownloadStatus)
    ensures
        final(cs)@ == stop_children(old(cs)@, *status),
{
    let ghost orig = cs@;
    let mut j: usize = 0;
    while j < cs.len()
        invariant
            j <= cs@.len(),
            cs@.len() == orig.len(),
            forall|k: int| 0 <= k < j ==> cs@[k] == stop_children(orig, *status)[k],
            forall|k: int| j <= k < cs@.len() ==> cs@[k] == orig[k],
        decreases cs@.len() - j,
    {
        if !cs[j].status.is_terminal() {
            let c = SubTask {
                id: copy_string(&cs[j].id),
                title: copy_string(&cs[j].title),
                status: status.duplicate(),
            };
            cs.set(j, c);
        }
        j = j + 1;
    }
    assert(cs@ =~= stop_children(orig, *status));
}

fn upsert_child(cs: &mut Vec<SubTask>, cid: String, title: String, status: DownloadStatus)
    ensures
        upserted(old(cs)@, final(cs)@, cid@, title, status),
{
    proof {
        lemma_first_child_from(cs@, cid@, 0);
    }
    let found = find_child(cs, &cid);
    let c = SubTask { id: cid, title, status };
    match found {
        Some(j) => {
            cs.set(j, c);
        },
        None => {
            cs.push(c);
            assert(cs@.subrange(0, old(cs)@.len() as int) =~= old(cs)@);
        },
    }
}

/// Sets the task's status and updates its children accordingly.
pub fn apply_status(task: &mut DownloadTask, status: DownloadStatus)
    ensures
        status_applied(old(task)@, final(task)@, status),
{
    if status.is_stopping() {
        stop_children_exec(&mut task.children, &status);
    } else {
        match status.playlist_meta() {
            Some(m) => {
                complete_items_exec(&mut task.children, &task.id, m.current_index);
                let cid = make_item_id(&task.id, m.current_index);
                upsert_child(&mut task.children, cid, copy_string(&m.item_title), status.duplicate());
            },
            None => {},
        }
    }
    task.status = status;
}

// ─── The task table ─────────────────────────────────────────

/// No two tasks share an id.
pub open spec fn ids_distinct(s: Seq<DownloadTask>) -> bool {
    forall|i: int, j: int|
        0 <= i < s.len() && 0 <= j < s.len() && i != j ==> s[i].id@ != s[j].id@
}

/// Some task has the id `k`.
pub open spec fn has_id(s: Seq<DownloadTask>, k: Seq<char>) -> bool {
    exists|i: int| 0 <= i < s.len() && s[i].id@ == k
}

/// An index of a task with id `k`.
pub open spec fn index_of_id(s: Seq<DownloadTask>, k: Seq<char>) -> int {
    choose|i: int| 0 <= i < s.len() && s[i].id@ == k
}

/// The tasks by id.
pub open spec fn task_map(s: Seq<DownloadTask>) -> Map<Seq<char>, DownloadTaskView> {
    Map::new(|k: Seq<char>| has_id(s, k), |k: Seq<char>| s[index_of_id(s, k)]@)
}

pub proof fn lemma_map_lookup(s: Seq<DownloadTask>, i: int)
    requires
        ids_distinct(s),
        0 <= i < s.len(),
    ensures
        task_map(s).contains_key(s[i].id@),
        task_map(s)[s[i].id@] == s[i]@,
{
    assert(has_id(s, s[i].id@));
    let j = index_of_id(s, s[i].id@);
    assert(j == i);
}

pub proof fn lemma_map_same_views(s1: Seq<DownloadTask>, s2: Seq<DownloadTask>)
    requires
        ids_distinct(s1),
        s1.len() == s2.len(),
        forall|i: int| 0 <= i < s1.len() ==> #[trigger] s1[i]@ == s2[i]@,
    ensures
        ids_distinct(s2),
        task_map(s1) == task_map(s2),
{
    assert forall|i: int, j: int|
        0 <= i < s2.len() && 0 <= j < s2.len() && i != j implies s2[i].id@ != s2[j].id@ by {
        assert(s1[i]@ == s2[i]@ && s1[j]@ == s2[j]@);
    }
    assert forall|k: Seq<char>| has_id(s1, k) == has_id(s2, k) by {
        if has_id(s1, k) {
            let i = index_of_id(s1, k);
            assert(s2[i]@ == s1[i]@);
        }
        if has_id(s2, k) {
            let i = index_of_id(s2, k);
            assert(s2[i]@ == s1[i]@);
        }
    }
    assert forall|k: Seq<char>| task_map(s1).contains_key(k) implies task_map(s1)[k]
        == task_map(s2)[k] by {
        let i = index_of_id(s1, k);
        let j = index_of_id(s2, k);
        assert(s1[j]@ == s2[j]@);
        assert(i == j);
    }
    assert(task_map(s1) =~= task_map(s2));
}

pub proof fn lemma_map_update(s: Seq<DownloadTask>, i: int, t: DownloadTask)
    requires
        ids_distinct(s),
        0 <= i < s.len(),
        t.id@ == s[i].id@,
    ensures
        ids_distinct(s.update(i, t)),
        task_map(s.update(i, t)) == task_map(s).insert(t.id@, t@),
{
    let s2 = s.update(i, t);
    assert forall|a: int, b: int|
        0 <= a < s2.len() && 0 <= b < s2.len() && a != b implies s2[a].id@ != s2[b].id@ by {
        assert(s2[a].id@ == s[a].id@ && s2[b].id@ == s[b].id@);
    }
    assert forall|k: Seq<char>| has_id(s2, k) == (has_id(s, k) || k == t.id@) by {
        if has_id(s2, k) {
            let j = index_of_id(s2, k);
            assert(s[j].id@ == s2[j].id@);
        }
        if has_id(s, k) {
            let j = index_of_id(s, k);
            assert(s[j].id@ == s2[j].id@);
        }
        if k == t.id@ {
            assert(s2[i].id@ == k);
        }
    }
    assert forall|k: Seq<char>| task_map(s2).contains_key(k) implies task_map(s2)[k]
        == task_map(s).insert(t.id@, t@)[k] by {
        let j = index_of_id(s2, k);
        if k == t.id@ {
            assert(j == i);
        } else {
            lemma_map_lookup(s, j);
            assert(s[j].id@ == s2[j].id@);
        }
    }
    assert(task_map(s2) =~= task_map(s).insert(t.id@, t@));
}

pub proof fn lemma_map_remove(s: Seq<DownloadTask>, i: int)
    requires
        ids_distinct(s),
        0 <= i < s.len(),
    ensures
        ids_distinct(s.remove(i)),
        task_map(s.remove(i)) == task_map(s).remove(s[i].id@),
{
    let s2 = s.remove(i);
    let k0 = s[i].id@;
    assert forall|a: int| 0 <= a < s2.len() implies #[trigger] s2[a] == (if a < i {
        s[a]
    } else {
        s[a + 1]
    }) by {}
    assert forall|a: int, b: int|
        0 <= a < s2.len() && 0 <= b < s2.len() && a != b implies s2[a].id@ != s2[b].id@ by {
        let a1 = if a < i { a } else { a + 1 };
        let b1 = if b < i { b } else { b + 1 };
        assert(s2[a] == s[a1] && s2[b] == s[b1]);
    }
    assert forall|k: Seq<char>| has_id(s2, k) == (has_id(s, k) && k != k0) by {
        if has_id(s2, k) {
            let j = index_of_id(s2, k);
            let j1 = if j < i { j } else { j + 1 };
            assert(s2[j] == s[j1]);
            assert(j1 != i);
        }
        if has_id(s, k) && k != k0 {
            let j = index_of_id(s, k);
            assert(j != i);
            let j2 = if j < i { j } else { j - 1 };
            assert(s2[j2] == s[j]);
        }
    }
    assert forall|k: Seq<char>| task_map(s2).contains_key(k) implies task_map(s2)[k]
        == task_map(s)[k] by {
        let j = index_of_id(s2, k);
        let j1 = if j < i { j } else { j + 1 };
        assert(s2[j] == s[j1]);
        lemma_map_lookup(s, j1);
    }
    assert(task_map(s2) =~= task_map(s).remove(k0));
}

pub proof fn lemma_map_push(s: Seq<DownloadTask>, t: DownloadTask)
    requires
        ids_distinct(s),
        !has_id(s, t.id@),
    ensures
        ids_distinct(s.push(t)),
        task_map(s.push(t)) == task_map(s).insert(t.id@, t@),
{
    let s2 = s.push(t);
    assert forall|a: int, b: int|
        0 <= a < s2.len() && 0 <= b < s2.len() && a != b implies s2[a].id@ != s2[b].id@ by {
        if a < s.len() && b < s.len() {
            assert(s2[a] == s[a] && s2[b] == s[b]);
        } else if a < s.len() {
            assert(s2[a] == s[a]);
        } else if b < s.len() {
            assert(s2[b] == s[b]);
        }
    }
    assert forall|k: Seq<char>| has_id(s2, k) == (has_id(s, k) || k == t.id@) by {
        if has_id(s2, k) {
            let j = index_of_id(s2, k);
            if j < s.len() {
                assert(s2[j] == s[j]);
            }
        }
        if has_id(s, k) {
            let j = index_of_id(s, k);
            assert(s2[j] == s[j]);
        }
        if k == t.id@ {
            assert(s2[s.len() as int] == t);
        }
    }
    assert forall|k: Seq<char>| task_map(s2).contains_key(k) implies task_map(s2)[k]
        == task_map(s).insert(t.id@, t@)[k] by {
        let j = index_of_id(s2, k);
        if j < s.len() {
            assert(s2[j] == s[j]);
            lemma_map_lookup(s, j);
        } else {
            assert(s2[j] == t);
        }
    }
    assert(task_map(s2) =~= task_map(s).insert(t.id@, t@));
}

/// The change of the download slot count that a new limit asks for.
#[derive(Debug, Clone, Copy, PartialEq, Eq, Structural)]
pub enum PermitChange {
    /// The limit did not change.
    Unchanged,
    /// This many slots must be added.
    Add(usize),
    /// This many slots must be withdrawn.
    Forget(usize),
}

/// The mutable state shared by all commands: the download tasks and the settings.
pub struct InnerState {
    /// Active download tasks; no two share an id.
    pub downloads: Vec<DownloadTask>,
    pub config: AppConfig,
    /// The number of downloads that may run at once.
    pub current_limit: usize,
    pub cookie_check_in_progress: bool,
    /// Components being installed; no entry occurs twice.
    pub installing: Vec<String>,
    pub cached_ytdlp_latest: Option<String>,
    pub cached_deno_latest: Option<String>,
    /// Reports on component installations, oldest first; the latest one for a
    /// component is its state.
    pub dependency_states: Vec<crate::install::DependencyRecord>,
}

/// The strings of `s`, by view.
pub open spec fn string_views(s: Seq<String>) -> Seq<Seq<char>> {
    s.map_values(|x: String| x@)
}

impl InnerState {
    /// The state's invariant.
    pub open spec fn wf(&self) -> bool {
        &&& ids_distinct(self.downloads@)
        &&& string_views(self.installing@).no_duplicates()
    }

    /// The tasks by id.
    pub open spec fn tasks(&self) -> Map<Seq<char>, DownloadTaskView> {
        task_map(self.downloads@)
    }

    /// Everything but the tasks is the same in `self` and `other`.
    pub open spec fn same_besides_tasks(&self, other: &InnerState) -> bool {
        &&& self.config == other.config
        &&& self.current_limit == other.current_limit
        &&& self.cookie_check_in_progress == other.cookie_check_in_progress
        &&& self.installing == other.installing
        &&& self.cached_ytdlp_latest == other.cached_ytdlp_latest
        &&& self.cached_deno_latest == other.cached_deno_latest
        &&& self.dependency_states == other.dependency_states
    }

    /// A fresh state: no tasks, default settings, three download slots.
    pub fn new() -> (r: InnerState)
        ensures
            r.wf(),
            r.tasks() == Map::<Seq<char>, DownloadTaskView>::empty(),
            r.config@ == crate::config::default_config_view(),
            r.current_limit == 3,
            !r.cookie_check_in_progress,
            r.installing@.len() == 0,
            r.cached_ytdlp_latest is None,
            r.cached_deno_latest is None,
    {
        let r = InnerState {
            downloads: Vec::new(),
            config: AppConfig::default(),
            current_limit: 3,
            cookie_check_in_progress: false,
            installing: Vec::new(),
            cached_ytdlp_latest: None,
            cached_deno_latest: None,
            dependency_states: Vec::new(),
        };
        assert(r.tasks() =~= Map::<Seq<char>, DownloadTaskView>::empty());
        assert(string_views(r.installing@) =~= Seq::<Seq<char>>::empty());
        r
    }

    /// Index of the task with the given id.
    pub fn find_task(&self, key: &String) -> (r: Option<usize>)
        ensures
            match r {
                Some(i) => i < self.downloads@.len() && self.downloads@[i as int].id@ == key@,
                None => !has_id(self.downloads@, key@),
            },
    {
        let mut i: usize = 0;
        while i < self.downloads.len()
            invariant
                i <= self.downloads@.len(),
                forall|j: int| 0 <= j < i ==> self.downloads@[j].id@ != key@,
            decreases self.downloads@.len() - i,
        {
            if self.downloads[i].id == *key {
                return Some(i);
            }
            i = i + 1;
        }
        None
    }

    /// A copy of the task with the given id.
    pub fn get_task(&self, id: &str) -> (r: Option<DownloadTask>)
        requires
            self.wf(),
        ensures
            match r {
                Some(t) => self.tasks().contains_key(id@) && t@ == self.tasks()[id@],
                None => !self.tasks().contains_key(id@),
            },
    {
        let key = String::from_str(id);
        match self.find_task(&key) {
            Some(i) => {
                proof {
                    lemma_map_lookup(self.downloads@, i as int);
                }
                Some(self.downloads[i].duplicate())
            },
            None => None,
        }
    }

    /// Copies of all tasks.
    pub fn get_all_tasks(&self) -> (r: Vec<DownloadTask>)
        requires
            self.wf(),
        ensures
            ids_distinct(r@),
            task_map(r@) == self.tasks(),
            r@.len() == self.downloads@.len(),
    {
        let mut r: Vec<DownloadTask> = Vec::new();
        let mut i: usize = 0;
        while i < self.downloads.len()
            invariant
                i <= self.downloads@.len(),
                r@.len() == i,
                forall|j: int| 0 <= j < i ==> #[trigger] r@[j]@ == self.downloads@[j]@,
            decreases self.downloads@.len() - i,
        {
            r.push(self.downloads[i].duplicate());
            i = i + 1;
        }
        proof {
            lemma_map_same_views(self.downloads@, r@);
        }
        r
    }

    /// Removes the task with the given id and returns it.
    pub fn remove_task(&mut self, id: &str) -> (r: Option<DownloadTask>)
        requires
            old(self).wf(),
        ensures
            final(self).wf(),
            final(self).same_besides_tasks(old(self)),
            final(self).tasks() == old(self).tasks().remove(id@),
            match r {
                Some(t) => old(self).tasks().contains_key(id@) && t@ == old(self).tasks()[id@],
                None => !old(self).tasks().contains_key(id@),
            },
    {
        let key = String::from_str(id);
        match self.find_task(&key) {
            Some(i) => {
                proof {
                    lemma_map_lookup(self.downloads@, i as int);
                    lemma_map_remove(self.downloads@, i as int);
                }
                let t = self.downloads.remove(i);
                Some(t)
            },
            None => {
                assert(self.tasks() =~= old(self).tasks().remove(id@));
                None
            },
        }
    }

    /// Applies a status report to a task, if the task exists and the transition rule
    /// admits the new status. A finished task leaves the table; otherwise its children
    /// follow the status. Returns the task's title when the status was applied.
    pub fn update_task_status(&mut self, id: &str, status: DownloadStatus) -> (r: Option<String>)
        requires
            old(self).wf(),
        ensures
            final(self).wf(),
            final(self).same_besides_tasks(old(self)),
            !old(self).tasks().contains_key(id@) ==> r is None && final(self).tasks() == old(
                self,
            ).tasks(),
            old(self).tasks().contains_key(id@) && !spec_can_overwrite(
                old(self).tasks()[id@].status,
                status,
            ) ==> r is None && final(self).tasks() == old(self).tasks(),
            old(self).tasks().contains_key(id@) && spec_can_overwrite(
                old(self).tasks()[id@].status,
                status,
            ) ==> {
                &&& r == Some(old(self).tasks()[id@].title)
                &&& spec_is_terminal(status) ==> final(self).tasks() == old(self).tasks().remove(
                    id@,
                )
                &&& !spec_is_terminal(status) ==> {
                    &&& final(self).tasks().contains_key(id@)
                    &&& final(self).tasks() == old(self).tasks().insert(
                        id@,
                        final(self).tasks()[id@],
                    )
                    &&& status_applied(old(self).tasks()[id@], final(self).tasks()[id@], status)
                }
            },
    {
        let key = String::from_str(id);
        match self.find_task(&key) {
            None => None,
            Some(i) => {
                proof {
                    lemma_map_lookup(self.downloads@, i as int);
                }
                if !self.downloads[i].status.can_be_overwritten_by(&status) {
                    return None;
                }
                let ghost before = self.downloads@;
                let terminal = status.is_terminal();
                let mut task = self.downloads.remove(i);
                let title = copy_string(&task.title);
                apply_status(&mut task, status);
                proof {
                    lemma_map_remove(before, i as int);
                }
                if !terminal {
                    self.downloads.insert(i, task);
                    proof {
                        assert(self.downloads@ =~= before.update(i as int, task));
                        lemma_map_update(before, i as int, task);
                        lemma_map_lookup(self.downloads@, i as int);
                    }
                }
                Some(title)
            },
        }
    }

    /// Sets the title of a task. Returns a copy of the task's status when the task exists.
    pub fn update_task_title(&mut self, id: &str, title: &str) -> (r: Option<DownloadStatus>)
        requires
            old(self).wf(),
        ensures
            final(self).wf(),
            final(self).same_besides_tasks(old(self)),
            !old(self).tasks().contains_key(id@) ==> r is None && final(self).tasks() == old(
                self,
            ).tasks(),
            old(self).tasks().contains_key(id@) ==> {
                &&& r == Some(old(self).tasks()[id@].status)
                &&& final(self).tasks().contains_key(id@)
                &&& final(self).tasks() == old(self).tasks().insert(id@, final(self).tasks()[id@])
                &&& final(self).tasks()[id@].title@ == title@
                &&& final(self).tasks()[id@] == DownloadTaskView {
                    title: final(self).tasks()[id@].title,
                    ..old(self).tasks()[id@]
                }
            },
    {
        let key = String::from_str(id);
        match self.find_task(&key) {
            None => None,
            Some(i) => {
                proof {
                    lemma_map_lookup(self.downloads@, i as int);
                }
                let ghost before = self.downloads@;
                let mut task = self.downloads.remove(i);
                task.title = String::from_str(title);
                let status = task.status.duplicate();
                self.downloads.insert(i, task);
                proof {
                    assert(self.downloads@ =~= before.update(i as int, task));
                    lemma_map_update(before, i as int, task);
                    lemma_map_lookup(self.downloads@, i as int);
                }
                Some(status)
            },
        }
    }

    /// Records the process id and current file of a running task. Absent values
    /// leave the recorded ones unchanged.
    pub fn set_task_runtime_info(&mut self, id: &str, pid: Option<u32>, file: Option<String>)
        requires
            old(self).wf(),
        ensures
            final(self).wf(),
            final(self).same_besides_tasks(old(self)),
            !old(self).tasks().contains_key(id@) ==> final(self).tasks() == old(self).tasks(),
            old(self).tasks().contains_key(id@) ==> final(self).tasks() == old(self).tasks().insert(
                id@,
                DownloadTaskView {
                    pid: if pid is Some {
                        pid
                    } else {
                        old(self).tasks()[id@].pid
                    },
                    current_file: if file is Some {
                        file
                    } else {
                        old(self).tasks()[id@].current_file
                    },
                    ..old(self).tasks()[id@]
                },
            ),
    {
        let key = String::from_str(id);
        match self.find_task(&key) {
            None => {},
            Some(i) => {
                proof {
                    lemma_map_lookup(self.downloads@, i as int);
                }
                let ghost before = self.downloads@;
                let mut task = self.downloads.remove(i);
                if pid.is_some() {
                    task.pid = pid;
                }
                if file.is_some() {
                    task.current_file = file;
                }
                self.downloads.insert(i, task);
                proof {
                    assert(self.downloads@ =~= before.update(i as int, task));
                    lemma_map_update(before, i as int, task);
                }
            },
        }
    }

    /// Sets the number of downloads that may run at once and says how the pool of
    /// download slots must change.
    pub fn update_download_limit(&mut self, limit: usize) -> (r: PermitChange)
        requires
            old(self).wf(),
        ensures
            final(self).wf(),
            final(self).current_limit == limit,
            final(self).downloads == old(self).downloads,
            final(self).config == old(self).config,
            final(self).installing == old(self).installing,
            final(self).cookie_check_in_progress == old(self).cookie_check_in_progress,
            final(self).cached_ytdlp_latest == old(self).cached_ytdlp_latest,
            final(self).cached_deno_latest == old(self).cached_deno_latest,
            r == spec_permit_change(old(self).current_limit, limit),
    {
        let old_limit = self.current_limit;
        let r = if limit > old_limit {
            PermitChange::Add(limit - old_limit)
        } else if limit < old_limit {
            PermitChange::Forget(old_limit - limit)
        } else {
            PermitChange::Unchanged
        };
        self.current_limit = limit;
        r
    }
}

/// What replacing the settings changed.
pub struct ConfigChange {
    /// The download limit of the former settings.
    pub old_limit: usize,
    /// The debug flag of the former settings.
    pub old_debug: bool,
    /// How the pool of download slots must change.
    pub permits: PermitChange,
}

impl InnerState {
    /// Replaces the settings and takes over their download limit.
    pub fn apply_config(&mut self, config: AppConfig) -> (r: ConfigChange)
        requires
            old(self).wf(),
        ensures
            final(self).wf(),
            final(self).config == config,
            final(self).current_limit == config.max_concurrent_downloads,
            final(self).downloads == old(self).downloads,
            final(self).installing == old(self).installing,
            final(self).cookie_check_in_progress == old(self).cookie_check_in_progress,
            final(self).cached_ytdlp_latest == old(self).cached_ytdlp_latest,
            final(self).cached_deno_latest == old(self).cached_deno_latest,
            r.old_limit == old(self).config.max_concurrent_downloads,
            r.old_debug == old(self).config.debug_logging,
            r.permits == spec_permit_change(
                old(self).current_limit,
                config.max_concurrent_downloads,
            ),
    {
        let old_limit = self.config.max_concurrent_downloads;
        let old_debug = self.config.debug_logging;
        let limit = config.max_concurrent_downloads;
        self.config = config;
        let permits = self.update_download_limit(limit);
        ConfigChange { old_limit, old_debug, permits }
    }
}

/// How the pool of download slots changes when the limit goes from `old` to `new`.
pub open spec fn spec_permit_change(old: usize, new: usize) -> PermitChange {
    if new > old {
        PermitChange::Add((new - old) as usize)
    } else if new < old {
        PermitChange::Forget((old - new) as usize)
    } else {
        PermitChange::Unchanged
    }
}

/// The slot count after applying a change.
pub open spec fn apply_permit_change(count: int, c: PermitChange) -> int {
    match c {
        PermitChange::Unchanged => count,
        PermitChange::Add(n) => count + n,
        PermitChange::Forget(n) => count - n,
    }
}

/// Applying the change that a new limit asks for turns the old slot count into the new limit.
pub proof fn lemma_permit_change_reaches_limit(old: usize, new: usize)
    ensures
        apply_permit_change(old as int, spec_permit_change(old, new)) == new,
{
}

/// A status report that the transition rule admits for an existing, unfinished
/// outcome is what a later read of the task returns.
pub proof fn lemma_status_read_after_write(
    before: InnerState,
    after: InnerState,
    id: Seq<char>,
    status: DownloadStatus,
)
    requires
        before.tasks().contains_key(id),
        spec_can_overwrite(before.tasks()[id].status, status),
        !spec_is_terminal(status),
        after.tasks().contains_key(id),
        status_applied(before.tasks()[id], after.tasks()[id], status),
    ensures
        after.tasks()[id].status == status,
        after.tasks()[id].id == before.tasks()[id].id,
        after.tasks()[id].title == before.tasks()[id].title,
{
}

// ─── Restoring, persisting ──────────────────────────────────

/// The status a stored task takes when the application starts again: work that
/// was under way is marked interrupted.
pub open spec fn spec_restored_status(s: DownloadStatus) -> DownloadStatus {
    match s {
        DownloadStatus::Queued | DownloadStatus::Starting | DownloadStatus::FetchingMetadata =>
            DownloadStatus::Interrupted { progress: 0 },
        DownloadStatus::Downloading { progress, .. } => DownloadStatus::Interrupted { progress },
        DownloadStatus::Merging { .. } | DownloadStatus::Finalizing { .. } =>
            DownloadStatus::Interrupted { progress: 9900 },
        _ => s,
    }
}

/// Statuses of work under way.
pub open spec fn spec_is_active(s: DownloadStatus) -> bool {
    s is Queued || s is Starting || s is FetchingMetadata || s is Downloading || s is Merging
        || s is Finalizing
}

/// On restart, work that was under way is marked interrupted and keeps the
/// progress it had reached: a download its own progress, a merge or finalization
/// 99%, and work that had not started downloading none.
pub proof fn lemma_restored_progress(s: DownloadStatus)
    ensures
        spec_is_active(s) ==> spec_restored_status(s) is Interrupted,
        (s matches DownloadStatus::Downloading { progress, .. } ==> spec_restored_status(s)
            == (DownloadStatus::Interrupted { progress })),
        s is Merging || s is Finalizing ==> spec_restored_status(s) == (DownloadStatus::Interrupted {
            progress: 9900,
        }),
        s is Queued || s is Starting || s is FetchingMetadata ==> spec_restored_status(s)
            == (DownloadStatus::Interrupted { progress: 0 }),
        (s matches DownloadStatus::Downloading { playlist: None, .. } ==> spec_global_progress(
            spec_restored_status(s),
        ) == spec_global_progress(s)),
{
}

/// No restored task claims to be under way.
pub proof fn lemma_restored_not_active(s: DownloadStatus)
    ensures
        !spec_is_active(spec_restored_status(s)),
        !spec_is_active(s) ==> spec_restored_status(s) == s,
{
}

/// The status a stored task takes on restart.
pub fn restored_status(s: &DownloadStatus) -> (r: DownloadStatus)
    ensures
        r == spec_restored_status(*s),
{
    match s {
        DownloadStatus::Queued | DownloadStatus::Starting | DownloadStatus::FetchingMetadata => {
            DownloadStatus::Interrupted { progress: 0 }
        },
        DownloadStatus::Downloading { progress, .. } => DownloadStatus::Interrupted {
            progress: *progress,
        },
        DownloadStatus::Merging { .. } | DownloadStatus::Finalizing { .. } => {
            DownloadStatus::Interrupted { progress: 9900 }
        },
        _ => s.duplicate(),
    }
}

/// The table after restoring the stored tasks `ts` in order into `m`.
pub open spec fn restored_map(m: Map<Seq<char>, DownloadTaskView>, ts: Seq<DownloadTask>) -> Map<
    Seq<char>,
    DownloadTaskView,
>
    decreases ts.len(),
{
    if ts.len() == 0 {
        m
    } else {
        restored_map(m, ts.drop_last()).insert(
            ts.last().id@,
            DownloadTaskView { status: spec_restored_status(ts.last().status), ..ts.last()@ },
        )
    }
}

/// The views of the tasks worth a database write, in order.
pub open spec fn persisted_views(s: Seq<DownloadTask>) -> Seq<DownloadTaskView>
    decreases s.len(),
{
    if s.len() == 0 {
        Seq::empty()
    } else if s.last().status is Downloading {
        persisted_views(s.drop_last())
    } else {
        persisted_views(s.drop_last()).push(s.last()@)
    }
}

/// A task in this status can be resumed.
pub open spec fn spec_is_resumable(s: DownloadStatus) -> bool {
    s is Paused || s is Failed || s is Interrupted
}

/// The views of the resumable tasks, in order.
pub open spec fn resumable_views(s: Seq<DownloadTask>) -> Seq<DownloadTaskView>
    decreases s.len(),
{
    if s.len() == 0 {
        Seq::empty()
    } else if spec_is_resumable(s.last().status) {
        resumable_views(s.drop_last()).push(s.last()@)
    } else {
        resumable_views(s.drop_last())
    }
}

/// The display text of a component name with `ffprobe` folded into `ffmpeg`.
pub open spec fn normalized_target(t: Seq<char>) -> Seq<char> {
    if t == "ffprobe"@ {
        "ffmpeg"@
    } else {
        t
    }
}

impl InnerState {
    /// Inserts a task, replacing any task with the same id.
    pub fn put_task(&mut self, t: DownloadTask)
        requires
            old(self).wf(),
        ensures
            final(self).wf(),
            final(self).same_besides_tasks(old(self)),
            final(self).tasks() == old(self).tasks().insert(t.id@, t@),
    {
        let key = copy_string(&t.id);
        match self.find_task(&key) {
            Some(i) => {
                proof {
                    lemma_map_update(self.downloads@, i as int, t);
                }
                self.downloads.set(i, t);
            },
            None => {
                proof {
                    lemma_map_push(self.downloads@, t);
                }
                self.downloads.push(t);
            },
        }
    }

    /// Restores stored tasks on startup; work that was under way becomes interrupted.
    pub fn restore_tasks(&mut self, tasks: Vec<DownloadTask>)
        requires
            old(self).wf(),
        ensures
            final(self).wf(),
            final(self).same_besides_tasks(old(self)),
            final(self).tasks() == restored_map(old(self).tasks(), tasks@),
    {
        let mut i: usize = 0;
        while i < tasks.len()
            invariant
                i <= tasks@.len(),
                self.wf(),
                self.same_besides_tasks(old(self)),
                self.tasks() == restored_map(old(self).tasks(), tasks@.subrange(0, i as int)),
            decreases tasks@.len() - i,
        {
            let mut t = tasks[i].duplicate();
            t.status = restored_status(&tasks[i].status);
            self.put_task(t);
            proof {
                let p = tasks@.subrange(0, i + 1);
                assert(p.drop_last() =~= tasks@.subrange(0, i as int));
                assert(p.last() == tasks@[i as int]);
            }
            i = i + 1;
        }
        assert(tasks@.subrange(0, tasks@.len() as int) =~= tasks@);
    }

    /// Copies of the tasks worth a database write (every task not in `Downloading`).
    pub fn tasks_to_persist(&self) -> (r: Vec<DownloadTask>)
        ensures
            r@.map_values(|t: DownloadTask| t@) == persisted_views(self.downloads@),
    {
        let mut r: Vec<DownloadTask> = Vec::new();
        let mut i: usize = 0;
        while i < self.downloads.len()
            invariant
                i <= self.downloads@.len(),
                r@.map_values(|t: DownloadTask| t@) == persisted_views(
                    self.downloads@.subrange(0, i as int),
                ),
            decreases self.downloads@.len() - i,
        {
            let ghost before = r@;
            if self.downloads[i].status.is_persisted() {
                r.push(self.downloads[i].duplicate());
                assert(r@.map_values(|t: DownloadTask| t@) =~= before.map_values(
                    |t: DownloadTask| t@,
                ).push(self.downloads@[i as int]@));
            }
            proof {
                let p = self.downloads@.subrange(0, i + 1);
                assert(p.drop_last() =~= self.downloads@.subrange(0, i as int));
            }
            i = i + 1;
        }
        assert(self.downloads@.subrange(0, self.downloads@.len() as int) =~= self.downloads@);
        r
    }

    /// Copies of the tasks that can be resumed: the paused, failed and interrupted
    /// ones, in table order.
    pub fn resumable_tasks(&self) -> (r: Vec<DownloadTask>)
        ensures
            r@.map_values(|t: DownloadTask| t@) == resumable_views(self.downloads@),
    {
        let mut r: Vec<DownloadTask> = Vec::new();
        let mut i: usize = 0;
        while i < self.downloads.len()
            invariant
                i <= self.downloads@.len(),
                r@.map_values(|t: DownloadTask| t@) == resumable_views(
                    self.downloads@.subrange(0, i as int),
                ),
            decreases self.downloads@.len() - i,
        {
            let ghost before = r@;
            if matches!(
                self.downloads[i].status,
                DownloadStatus::Paused { .. } | DownloadStatus::Failed { .. }
                    | DownloadStatus::Interrupted { .. }
            ) {
                r.push(self.downloads[i].duplicate());
                assert(r@.map_values(|t: DownloadTask| t@) =~= before.map_values(
                    |t: DownloadTask| t@,
                ).push(self.downloads@[i as int]@));
            }
            proof {
                let p = self.downloads@.subrange(0, i + 1);
                assert(p.drop_last() =~= self.downloads@.subrange(0, i as int));
            }
            i = i + 1;
        }
        assert(self.downloads@.subrange(0, self.downloads@.len() as int) =~= self.downloads@);
        r
    }

    /// A copy of the task with the given id, if it exists and is worth a database write.
    pub fn task_to_persist(&self, id: &str) -> (r: Option<DownloadTask>)
        requires
            self.wf(),
        ensures
            match r {
                Some(t) => self.tasks().contains_key(id@) && t@ == self.tasks()[id@] && !(
                t@.status is Downloading),
                None => !self.tasks().contains_key(id@) || self.tasks()[id@].status is Downloading,
            },
    {
        match self.get_task(id) {
            Some(t) => if t.status.is_persisted() {
                Some(t)
            } else {
                None
            },
            None => None,
        }
    }

    /// The components being installed, by name.
    pub open spec fn installing_views(&self) -> Seq<Seq<char>> {
        string_views(self.installing@)
    }

    fn installing_contains(&self, name: &String) -> (r: bool)
        ensures
            r == self.installing_views().contains(name@),
    {
        let mut i: usize = 0;
        while i < self.installing.len()
            invariant
                i <= self.installing@.len(),
                forall|j: int| 0 <= j < i ==> self.installing@[j]@ != name@,
            decreases self.installing@.len() - i,
        {
            if self.installing[i] == *name {
                assert(self.installing_views()[i as int] == name@);
                return true;
            }
            i = i + 1;
        }
        proof {
            if self.installing_views().contains(name@) {
                let j = choose|j: int|
                    0 <= j < self.installing_views().len() && self.installing_views()[j]
                        == name@;
                assert(self.installing@[j]@ == name@);
            }
        }
        false
    }

    /// Claims the installation of a component (`ffprobe` counts as `ffmpeg`; `all`
    /// is every component). Fails while a full installation runs, when a full
    /// installation is asked for while any component installs, or when the
    /// component already installs. Returns the claimed name.
    pub(crate) fn begin_install(&mut self, target: &str) -> (r: Result<String, String>)
        requires
            old(self).wf(),
        ensures
            final(self).wf(),
            final(self).downloads == old(self).downloads,
            final(self).config == old(self).config,
            final(self).current_limit == old(self).current_limit,
            final(self).cookie_check_in_progress == old(self).cookie_check_in_progress,
            final(self).cached_ytdlp_latest == old(self).cached_ytdlp_latest,
            final(self).cached_deno_latest == old(self).cached_deno_latest,
            final(self).dependency_states == old(self).dependency_states,
            old(self).installing_views().contains("all"@) ==> (r matches Err(e) && e@
                == "Full dependency installation already in progress"@),
            !old(self).installing_views().contains("all"@) && normalized_target(target@)
                == "all"@ && old(self).installing_views().len() > 0 ==> (r matches Err(e) && e@
                == "Cannot start full installation while individual components are installing"@),
            !old(self).installing_views().contains("all"@) && !(normalized_target(target@)
                == "all"@ && old(self).installing_views().len() > 0)
                && old(self).installing_views().contains(normalized_target(target@)) ==> (r matches Err(e) && e@
                == "Installation for "@ + normalized_target(target@) + " is already in progress"@),
            r is Err ==> final(self).installing == old(self).installing,
            r is Ok <==> (!old(self).installing_views().contains("all"@) && !(normalized_target(
                target@,
            ) == "all"@ && old(self).installing_views().len() > 0)
                && !old(self).installing_views().contains(normalized_target(target@))),
            r matches Ok(n) ==> n@ == normalized_target(target@) && final(self).installing_views()
                == old(self).installing_views().push(n@),
    {
        let requested = String::from_str(target);
        let probe = String::from_str("ffprobe");
        let name = if requested == probe {
            String::from_str("ffmpeg")
        } else {
            requested
        };
        let all = String::from_str("all");
        if self.installing_contains(&all) {
            return Err(String::from_str("Full dependency installation already in progress"));
        }
        if name == all && self.installing.len() > 0 {
            return Err(
                String::from_str(
                    "Cannot start full installation while individual components are installing",
                ),
            );
        }
        if self.installing_contains(&name) {
            return Err(
                crate::text::concat3("Installation for ", name.as_str(), " is already in progress"),
            );
        }
        let ghost before = self.installing@;
        self.installing.push(copy_string(&name));
        proof {
            assert(string_views(self.installing@) =~= string_views(before).push(name@));
        }
        Ok(name)
    }

    /// Releases a claimed installation.
    pub(crate) fn end_install(&mut self, name: &String)
        requires
            old(self).wf(),
        ensures
            final(self).wf(),
            final(self).downloads == old(self).downloads,
            final(self).config == old(self).config,
            final(self).current_limit == old(self).current_limit,
            final(self).cookie_check_in_progress == old(self).cookie_check_in_progress,
            final(self).cached_ytdlp_latest == old(self).cached_ytdlp_latest,
            final(self).cached_deno_latest == old(self).cached_deno_latest,
            final(self).dependency_states == old(self).dependency_states,
            !final(self).installing_views().contains(name@),
            forall|x: Seq<char>|
                x != name@ ==> final(self).installing_views().contains(x) == old(
                    self,
                ).installing_views().contains(x),
    {
        let mut i: usize = 0;
        while i < self.installing.len()
            invariant
                i <= self.installing@.len(),
                self == old(self),
                old(self).wf(),
                forall|j: int| 0 <= j < i ==> self.installing@[j]@ != name@,
            decreases self.installing@.len() - i,
        {
            if self.installing[i] == *name {
                let ghost before = self.installing@;
                self.installing.remove(i);
                proof {
                    let bv = string_views(before);
                    let av = string_views(self.installing@);
                    assert(av =~= bv.remove(i as int));
                    assert forall|x: Seq<char>| x != name@ implies av.contains(x) == bv.contains(
                        x,
                    ) by {
                        if bv.contains(x) {
                            let j = choose|j: int| 0 <= j < bv.len() && bv[j] == x;
                            assert(j != i);
                            if j < i {
                                assert(av[j] == x);
                            } else {
                                assert(av[j - 1] == x);
                            }
                        }
                        if av.contains(x) {
                            let j = choose|j: int| 0 <= j < av.len() && av[j] == x;
                            if j < i {
                                assert(bv[j] == x);
                            } else {
                                assert(bv[j + 1] == x);
                            }
                        }
                    }
                    assert(!av.contains(name@)) by {
                        if av.contains(name@) {
                            let j = choose|j: int| 0 <= j < av.len() && av[j] == name@;
                            if j < i {
                                assert(bv[j] == name@);
                            } else {
                                assert(bv[j + 1] == name@);
                                assert(bv[i as int] == name@);
                            }
                        }
                    }
                    assert(av.no_duplicates());
                }
                return;
            }
            i = i + 1;
        }
        proof {
            if self.installing_views().contains(name@) {
                let j = choose|j: int|
                    0 <= j < self.installing_views().len() && self.installing_views()[j]
                        == name@;
                assert(self.installing@[j]@ == name@);
            }
        }
    }

    /// Claiming an installation and releasing it again leaves the set of
    /// installing components as it was.
    pub proof fn lemma_install_released(
        before: InnerState,
        claimed: InnerState,
        released: InnerState,
        name: Seq<char>,
    )
        requires
            before.wf(),
            !before.installing_views().contains(name),
            claimed.installing_views() == before.installing_views().push(name),
            !released.installing_views().contains(name),
            forall|x: Seq<char>|
                x != name ==> released.installing_views().contains(x)
                    == claimed.installing_views().contains(x),
        ensures
            forall|x: Seq<char>|
                released.installing_views().contains(x) == before.installing_views().contains(x),
    {
        assert forall|x: Seq<char>|
            released.installing_views().contains(x) == before.installing_views().contains(x) by {
            vstd::seq_lib::lemma_seq_contains_after_push(before.installing_views(), name, x);
        }
    }

    /// The message a cookie check request is answered with instead of a check:
    /// when cookies are disabled, or while a check runs.
    pub open spec fn spec_cookie_check_refusal(&self) -> Option<Seq<char>> {
        if !self.config.cookies_enabled {
            Some("Cookies disabled in settings"@)
        } else if self.cookie_check_in_progress {
            Some("Check already in progress"@)
        } else {
            None
        }
    }

    /// Starts a browser cookie check. Returns the message to report instead when
    /// cookies are disabled or a check already runs; otherwise marks a check as running.
    pub fn begin_cookie_check(&mut self) -> (r: Option<&'static str>)
        requires
            old(self).wf(),
        ensures
            final(self).wf(),
            final(self).downloads == old(self).downloads,
            final(self).config == old(self).config,
            final(self).installing == old(self).installing,
            (match r {
                Some(m) => Some(m@),
                None => None,
            }) == old(self).spec_cookie_check_refusal(),
            r is None ==> final(self).cookie_check_in_progress,
            r is Some ==> final(self).cookie_check_in_progress == old(self).cookie_check_in_progress,
    {
        if !self.config.cookies_enabled {
            return Some("Cookies disabled in settings");
        }
        if self.cookie_check_in_progress {
            return Some("Check already in progress");
        }
        self.cookie_check_in_progress = true;
        None
    }

    /// Ends a browser cookie check, whatever its outcome.
    pub fn end_cookie_check(&mut self)
        requires
            old(self).wf(),
        ensures
            final(self).wf(),
            !final(self).cookie_check_in_progress,
            final(self).downloads == old(self).downloads,
            final(self).config == old(self).config,
            final(self).installing == old(self).installing,
            final(self).current_limit == old(self).current_limit,
            final(self).cached_ytdlp_latest == old(self).cached_ytdlp_latest,
            final(self).cached_deno_latest == old(self).cached_deno_latest,
    {
        self.cookie_check_in_progress = false;
    }

    /// Once a check has ended, the next request may run one again, unless cookies
    /// are disabled.
    pub proof fn lemma_cookie_check_reopens(after: InnerState)
        requires
            !after.cookie_check_in_progress,
            after.config.cookies_enabled,
        ensures
            after.spec_cookie_check_refusal() is None,
    {
    }

    /// While a cookie check runs, another request is refused.
    pub proof fn lemma_single_cookie_check(before: InnerState, after: InnerState)
        requires
            before.spec_cookie_check_refusal() is None,
            after.config == before.config,
            after.cookie_check_in_progress,
        ensures
            after.spec_cookie_check_refusal() == Some("Check already in progress"@),
    {
    }
}

} // verus!
