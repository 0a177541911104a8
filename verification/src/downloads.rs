//! Download requests: validation, admission into the task table, and the
//! statuses that end a download.

use crate::error::{spec_category, spec_user_message, AppError, AppErrorView, ErrorCategory};
use crate::state::{
    copy_strings, copy_subtasks, has_id, ids_distinct, lemma_map_lookup, meta_view,
    spec_global_progress, spec_is_terminal, string_views, DownloadStatus, DownloadTask,
    DownloadTaskView, InnerState, MetaView, PlaylistMetadata, StatusView, SubTask,
};
use crate::text::{chars_of, concat3, contains, copy_string, decimal, push_decimal, str_contains, trim};
use vstd::prelude::*;
use vstd::string::*;

verus! {

/// A request to download a video, an audio track or a playlist.
#[derive(Debug)]
pub struct DownloadRequest {
    pub url: String,
    pub media_type: String,
    pub format: String,
    pub quality: String,
    pub output_path: String,
    pub is_playlist: bool,
    /// The task to restart, when the request resumes one.
    pub existing_id: Option<String>,
}

// ─── URL checks ─────────────────────────────────────────────

/// The keys of the query pairs of a URL, in order, as `url::Url::parse` and
/// `Url::query_pairs` decode them; nothing when the text is no valid URL.
pub uninterp spec fn url_query_keys(url: Seq<char>) -> Option<Seq<Seq<char>>>;

/// Parses `url` with `url::Url::parse` and lists the keys of `Url::query_pairs`.
/// The result is what `url_query_keys` names.
#[verifier::external_body]
fn query_keys(url: &str) -> (r: Option<Vec<String>>)
    ensures
        match r {
            Some(v) => url_query_keys(url@) == Some(string_views(v@)),
            None => url_query_keys(url@) is None,
        },
{
    match url::Url::parse(url) {
        Ok(parsed) => Some(parsed.query_pairs().map(|(k, _)| k.into_owned()).collect()),
        Err(_) => None,
    }
}

/// A URL that names a playlist and no video.
pub open spec fn spec_playlist_only(keys: Option<Seq<Seq<char>>>) -> bool {
    match keys {
        Some(ks) => ks.contains("list"@) && !ks.contains("v"@),
        None => false,
    }
}

fn keys_contain(ks: &Vec<String>, key: &str) -> (r: bool)
    ensures
        r == string_views(ks@).contains(key@),
{
    let k = String::from_str(key);
    let mut i: usize = 0;
    while i < ks.len()
        invariant
            i <= ks@.len(),
            k@ == key@,
            forall|j: int| 0 <= j < i ==> ks@[j]@ != key@,
        decreases ks@.len() - i,
    {
        if ks[i] == k {
            assert(string_views(ks@)[i as int] == key@);
            return true;
        }
        i = i + 1;
    }
    proof {
        if string_views(ks@).contains(key@) {
            let j = choose|j: int|
                0 <= j < string_views(ks@).len() && string_views(ks@)[j] == key@;
            assert(ks@[j]@ == key@);
        }
    }
    false
}

/// Whether query keys name a playlist (`list`) and no video (`v`).
pub fn playlist_only(keys: &Option<Vec<String>>) -> (r: bool)
    ensures
        r == spec_playlist_only(match keys {
            Some(v) => Some(string_views(v@)),
            None => None,
        }),
{
    match keys {
        Some(ks) => keys_contain(ks, "list") && !keys_contain(ks, "v"),
        None => false,
    }
}

/// Whether a URL names a playlist and no video.
pub fn is_playlist_only_url(url: &str) -> (r: bool)
    ensures
        r == spec_playlist_only(url_query_keys(url@)),
{
    let keys = query_keys(url);
    playlist_only(&keys)
}

/// Rejects an empty URL, and a playlist URL in single mode.
pub fn validate_download_request(req: &DownloadRequest) -> (r: Result<(), AppError>)
    ensures
        trim(req.url@).len() == 0 ==> (r matches Err(e) && e@ == AppErrorView::Internal(
            "URL cannot be empty"@,
        )),
        trim(req.url@).len() != 0 && !req.is_playlist && spec_playlist_only(
            url_query_keys(req.url@),
        ) ==> (r matches Err(e) && e@ == AppErrorView::PlaylistUrlInSingleMode),
        r is Ok <==> (trim(req.url@).len() != 0 && (req.is_playlist || !spec_playlist_only(
            url_query_keys(req.url@),
        ))),
{
    let t = crate::output::trimmed(req.url.as_str());
    if t.unicode_len() == 0 {
        return Err(AppError::Internal(String::from_str("URL cannot be empty")));
    }
    if !req.is_playlist && is_playlist_only_url(req.url.as_str()) {
        return Err(AppError::PlaylistUrlInSingleMode);
    }
    Ok(())
}

/// The output directory of a request: the requested one, or else the default
/// directory for its media type (`video_default` for videos, `audio_default` otherwise).
pub fn resolve_output_dir(req: &DownloadRequest, video_default: &str, audio_default: &str) -> (r:
    String)
    ensures
        r@ == (if req.output_path@.len() != 0 {
            req.output_path@
        } else if req.media_type@ == "video"@ {
            video_default@
        } else {
            audio_default@
        }),
{
    if req.output_path.unicode_len() == 0 {
        if req.media_type == String::from_str("video") {
            String::from_str(video_default)
        } else {
            String::from_str(audio_default)
        }
    } else {
        copy_string(&req.output_path)
    }
}

/// The announcement that a new task exists.
#[derive(Debug)]
pub struct TaskCreatedEvent {
    pub id: String,
    pub title: String,
    pub media_type: String,
    pub is_playlist: bool,
    pub output_path: String,
}

/// The announcement of the task a request creates: shown as queued until its
/// title is known. A request that restarts a task announces nothing.
pub fn task_created_event(id: &str, req: &DownloadRequest, output_dir: &str) -> (r: Option<
    TaskCreatedEvent,
>)
    ensures
        req.existing_id is Some ==> r is None,
        req.existing_id is None ==> (r matches Some(e) && e.id@ == id@ && e.title@ == "Queued..."@
            && e.media_type@ == req.media_type@ && e.is_playlist == req.is_playlist
            && e.output_path@ == output_dir@),
{
    if req.existing_id.is_some() {
        return None;
    }
    Some(
        TaskCreatedEvent {
            id: String::from_str(id),
            title: String::from_str("Queued..."),
            media_type: copy_string(&req.media_type),
            is_playlist: req.is_playlist,
            output_path: String::from_str(output_dir),
        },
    )
}

// ─── Admission ──────────────────────────────────────────────

/// Statuses of a task that runs or waits to run.
pub open spec fn spec_is_busy(s: DownloadStatus) -> bool {
    s is Queued || s is Starting || s is FetchingMetadata || s is Downloading || s is Merging
        || s is Finalizing
}

/// Statuses after which the same URL may be queued again.
pub open spec fn spec_frees_url(s: DownloadStatus) -> bool {
    s is Completed || s is Failed || s is Cancelled
}

/// Some task that still holds its URL downloads `url`.
pub open spec fn url_in_queue(tasks: Map<Seq<char>, DownloadTaskView>, url: Seq<char>) -> bool {
    exists|k: Seq<char>|
        tasks.contains_key(k) && tasks[k].url@ == url && !spec_frees_url(tasks[k].status)
}

/// The error for a request that restarts a task that runs or waits, as the
/// first check reports it.
pub open spec fn spec_restart_conflict(t: DownloadTaskView) -> Option<AppErrorView> {
    if t.status is Queued {
        Some(AppErrorView::Internal("Task is already queued."@))
    } else if spec_is_busy(t.status) {
        Some(AppErrorView::Internal("Task '"@ + t.title@ + "' is already active. Please wait."@))
    } else {
        None
    }
}

/// The task a request creates or restarts.
pub open spec fn admitted_task(
    req: DownloadRequest,
    id: Seq<char>,
    args: Seq<String>,
    output_dir: Seq<char>,
    workspace: Seq<char>,
    old: Option<DownloadTaskView>,
    now: u64,
    t: DownloadTaskView,
) -> bool {
    &&& t.id@ == id
    &&& t.url == req.url
    &&& t.media_type == req.media_type
    &&& t.format == req.format
    &&& t.quality == req.quality
    &&& t.output_path@ == output_dir
    &&& t.is_playlist == req.is_playlist
    &&& t.args == args
    &&& t.temp_path@ == workspace
    &&& t.pid is None
    &&& t.current_file is None
    &&& t.status is Queued
    &&& match old {
        Some(o) => t.title == o.title && t.timestamp == o.timestamp && t.children == o.children,
        None => t.title@ == "Fetching metadata..."@ && t.timestamp == now && t.children.len() == 0,
    }
}

fn busy(s: &DownloadStatus) -> (r: bool)
    ensures
        r == spec_is_busy(*s),
{
    matches!(
        s,
        DownloadStatus::Queued | DownloadStatus::Starting | DownloadStatus::FetchingMetadata
            | DownloadStatus::Downloading { .. } | DownloadStatus::Merging { .. }
            | DownloadStatus::Finalizing { .. }
    )
}

impl InnerState {
    /// The first check of a request for `task_id`: a task with that id must not run
    /// or wait to run.
    pub fn check_restartable(&self, task_id: &str) -> (r: Result<(), AppError>)
        requires
            self.wf(),
        ensures
            !self.tasks().contains_key(task_id@) ==> r is Ok,
            self.tasks().contains_key(task_id@) ==> match spec_restart_conflict(
                self.tasks()[task_id@],
            ) {
                Some(e) => r matches Err(x) && x@ == e,
                None => r is Ok,
            },
    {
        match self.get_task(task_id) {
            None => Ok(()),
            Some(t) => {
                if matches!(t.status, DownloadStatus::Queued) {
                    Err(AppError::Internal(String::from_str("Task is already queued.")))
                } else if busy(&t.status) {
                    Err(
                        AppError::Internal(
                            concat3("Task '", t.title.as_str(), "' is already active. Please wait."),
                        ),
                    )
                } else {
                    Ok(())
                }
            },
        }
    }

    fn url_in_queue_exec(&self, url: &String) -> (r: bool)
        requires
            self.wf(),
        ensures
            r == url_in_queue(self.tasks(), url@),
    {
        let mut i: usize = 0;
        while i < self.downloads.len()
            invariant
                self.wf(),
                i <= self.downloads@.len(),
                forall|j: int|
                    0 <= j < i ==> !(self.downloads@[j].url@ == url@ && !spec_frees_url(
                        self.downloads@[j].status,
                    )),
            decreases self.downloads@.len() - i,
        {
            let t = &self.downloads[i];
            let frees = matches!(
                t.status,
                DownloadStatus::Completed { .. } | DownloadStatus::Failed { .. }
                    | DownloadStatus::Cancelled
            );
            if t.url == *url && !frees {
                proof {
                    lemma_map_lookup(self.downloads@, i as int);
                }
                return true;
            }
            i = i + 1;
        }
        proof {
            if url_in_queue(self.tasks(), url@) {
                let k = choose|k: Seq<char>|
                    self.tasks().contains_key(k) && self.tasks()[k].url@ == url@
                        && !spec_frees_url(self.tasks()[k].status);
                let j = crate::state::index_of_id(self.downloads@, k);
                lemma_map_lookup(self.downloads@, j);
            }
        }
        false
    }

    /// Admits a request into the table as a queued task, in one step with the
    /// checks: a task with the same id must not run or wait, and a new request must
    /// not repeat a URL that an unfinished task holds. A restarted task keeps its
    /// title, creation time and items. Returns a copy of the queued task.
    pub fn admit_download(
        &mut self,
        req: &DownloadRequest,
        task_id: &str,
        args: Vec<String>,
        output_dir: String,
        workspace: String,
        now_secs: u64,
    ) -> (r: Result<DownloadTask, AppError>)
        requires
            old(self).wf(),
        ensures
            final(self).wf(),
            final(self).same_besides_tasks(old(self)),
            old(self).tasks().contains_key(task_id@) && spec_is_busy(
                old(self).tasks()[task_id@].status,
            ) ==> (r matches Err(e) && e@ == AppErrorView::Internal(
                "Task '"@ + old(self).tasks()[task_id@].title@ + "' is already active or queued."@,
            )),
            !(old(self).tasks().contains_key(task_id@) && spec_is_busy(
                old(self).tasks()[task_id@].status,
            )) && req.existing_id is None && url_in_queue(old(self).tasks(), req.url@)
                ==> (r matches Err(e) && e@ == AppErrorView::Internal(
                "This URL is already in the queue."@,
            )),
            r is Ok <==> !(old(self).tasks().contains_key(task_id@) && spec_is_busy(
                old(self).tasks()[task_id@].status,
            )) && !(req.existing_id is None && url_in_queue(old(self).tasks(), req.url@)),
            r is Err ==> final(self).tasks() == old(self).tasks(),
            r matches Ok(t) ==> {
                &&& admitted_task(
                    *req,
                    task_id@,
                    args@,
                    output_dir@,
                    workspace@,
                    if old(self).tasks().contains_key(task_id@) {
                        Some(old(self).tasks()[task_id@])
                    } else {
                        None
                    },
                    now_secs,
                    t@,
                )
                &&& final(self).tasks() == old(self).tasks().insert(task_id@, t@)
            },
    {
        let existing = self.get_task(task_id);
        if let Some(t) = &existing {
            if busy(&t.status) {
                return Err(
                    AppError::Internal(
                        concat3("Task '", t.title.as_str(), "' is already active or queued."),
                    ),
                );
            }
        }
        if req.existing_id.is_none() && self.url_in_queue_exec(&req.url) {
            return Err(AppError::Internal(String::from_str("This URL is already in the queue.")));
        }
        let (title, timestamp, children) = match &existing {
            Some(old) => (copy_string(&old.title), old.timestamp, copy_subtasks(&old.children)),
            None => (String::from_str("Fetching metadata..."), now_secs, Vec::new()),
        };
        let task = DownloadTask {
            id: String::from_str(task_id),
            url: copy_string(&req.url),
            title,
            media_type: copy_string(&req.media_type),
            format: copy_string(&req.format),
            quality: copy_string(&req.quality),
            output_path: output_dir,
            is_playlist: req.is_playlist,
            timestamp,
            args,
            temp_path: workspace,
            pid: None,
            current_file: None,
            status: DownloadStatus::Queued,
            children,
        };
        let copy = task.duplicate();
        self.put_task(task);
        Ok(copy)
    }

    /// Whether the task exists and still waits in the queue.
    pub fn is_task_runnable(&self, task_id: &str) -> (r: bool)
        requires
            self.wf(),
        ensures
            r == (self.tasks().contains_key(task_id@) && self.tasks()[task_id@].status is Queued),
    {
        match self.get_task(task_id) {
            Some(t) => matches!(t.status, DownloadStatus::Queued),
            None => false,
        }
    }

    /// The request that restarts a stored task.
    pub fn resume_request(&self, id: &str) -> (r: Result<DownloadRequest, AppError>)
        requires
            self.wf(),
        ensures
            !self.tasks().contains_key(id@) ==> (r matches Err(e) && e@ == AppErrorView::Internal(
                "Task not found"@,
            )),
            self.tasks().contains_key(id@) ==> (r matches Ok(q) && {
                let t = self.tasks()[id@];
                &&& q.url == t.url
                &&& q.media_type == t.media_type
                &&& q.format == t.format
                &&& q.quality == t.quality
                &&& q.output_path == t.output_path
                &&& q.is_playlist == t.is_playlist
                &&& q.existing_id matches Some(x) && x@ == id@
            }),
    {
        match self.get_task(id) {
            None => Err(AppError::Internal(String::from_str("Task not found"))),
            Some(t) => Ok(
                DownloadRequest {
                    url: t.url,
                    media_type: t.media_type,
                    format: t.format,
                    quality: t.quality,
                    output_path: t.output_path,
                    is_playlist: t.is_playlist,
                    existing_id: Some(String::from_str(id)),
                },
            ),
        }
    }

    /// The failure status to report for a failed run, unless the task is gone or
    /// was paused or cancelled meanwhile. The failure keeps the task's progress.
    pub fn failure_status_for(&self, task_id: &str, err: &AppError) -> (r: Option<DownloadStatus>)
        requires
            self.wf(),
        ensures
            !self.tasks().contains_key(task_id@) ==> r is None,
            self.tasks().contains_key(task_id@) && (self.tasks()[task_id@].status is Paused
                || self.tasks()[task_id@].status is Cancelled) ==> r is None,
            self.tasks().contains_key(task_id@) && !(self.tasks()[task_id@].status is Paused
                || self.tasks()[task_id@].status is Cancelled) ==> (r matches Some(
                DownloadStatus::Failed { reason, progress, category },
            ) && progress == spec_global_progress(self.tasks()[task_id@].status) && category
                == spec_category(*err) && (!(*err is Io) ==> reason@ == spec_user_message(*err))),
    {
        match self.get_task(task_id) {
            None => None,
            Some(t) => {
                if matches!(t.status, DownloadStatus::Paused { .. } | DownloadStatus::Cancelled) {
                    None
                } else {
                    Some(
                        DownloadStatus::Failed {
                            reason: err.user_message(),
                            progress: t.status.calculate_global_progress(),
                            category: err.category(),
                        },
                    )
                }
            },
        }
    }

    /// The status a pause request reports: paused at the task's progress (0 for an
    /// unknown task), and the process to stop.
    pub fn pause_status(&self, task_id: &str) -> (r: (Option<u32>, DownloadStatus))
        requires
            self.wf(),
        ensures
            !self.tasks().contains_key(task_id@) ==> r.0 is None && r.1 == (DownloadStatus::Paused {
                progress: 0,
            }),
            self.tasks().contains_key(task_id@) ==> r.0 == self.tasks()[task_id@].pid && r.1
                == (DownloadStatus::Paused {
                progress: spec_global_progress(self.tasks()[task_id@].status),
            }),
    {
        match self.get_task(task_id) {
            None => (None, DownloadStatus::Paused { progress: 0 }),
            Some(t) => (t.pid, DownloadStatus::Paused { progress: t.status.calculate_global_progress() }),
        }
    }

    /// What a cancellation needs: the process to stop and the workspace to remove.
    pub fn cancel_targets(&self, task_id: &str) -> (r: Option<(Option<u32>, String)>)
        requires
            self.wf(),
        ensures
            !self.tasks().contains_key(task_id@) ==> r is None,
            self.tasks().contains_key(task_id@) ==> (r matches Some((pid, ws)) && pid
                == self.tasks()[task_id@].pid && ws == self.tasks()[task_id@].temp_path),
    {
        match self.get_task(task_id) {
            None => None,
            Some(t) => Some((t.pid, t.temp_path)),
        }
    }

    /// The ids of tasks whose workspaces must be kept: every unfinished task.
    pub fn protected_ids(&self) -> (r: Vec<String>)
        requires
            self.wf(),
        ensures
            forall|k: Seq<char>|
                string_views(r@).contains(k) <==> (self.tasks().contains_key(k)
                    && !spec_is_terminal(self.tasks()[k].status)),
    {
        let mut r: Vec<String> = Vec::new();
        let mut i: usize = 0;
        while i < self.downloads.len()
            invariant
                self.wf(),
                i <= self.downloads@.len(),
                forall|k: Seq<char>|
                    string_views(r@).contains(k) <==> exists|j: int|
                        0 <= j < i && #[trigger] self.downloads@[j].id@ == k && !spec_is_terminal(
                            self.downloads@[j].status,
                        ),
            decreases self.downloads@.len() - i,
        {
            let ghost before = r@;
            let ghost id_i = self.downloads@[i as int].id@;
            if !self.downloads[i].status.is_terminal() {
                r.push(copy_string(&self.downloads[i].id));
                proof {
                    assert(string_views(r@) =~= string_views(before).push(id_i));
                }
            }
            proof {
                assert forall|k: Seq<char>|
                    string_views(r@).contains(k) <==> exists|j: int|
                        0 <= j < i + 1 && #[trigger] self.downloads@[j].id@ == k
                            && !spec_is_terminal(self.downloads@[j].status) by {
                    assert(string_views(before).contains(k) <==> exists|j: int|
                        0 <= j < i && #[trigger] self.downloads@[j].id@ == k && !spec_is_terminal(
                            self.downloads@[j].status,
                        ));
                    vstd::seq_lib::lemma_seq_contains_after_push(string_views(before), id_i, k);
                    if exists|j: int|
                        0 <= j < i + 1 && #[trigger] self.downloads@[j].id@ == k
                            && !spec_is_terminal(self.downloads@[j].status) {
                        let j = choose|j: int|
                            0 <= j < i + 1 && #[trigger] self.downloads@[j].id@ == k
                                && !spec_is_terminal(self.downloads@[j].status);
                        if j < i {
                            assert(string_views(before).contains(k));
                        }
                    }
                }
            }
            i = i + 1;
        }
        proof {
            assert forall|k: Seq<char>|
                string_views(r@).contains(k) <==> (self.tasks().contains_key(k)
                    && !spec_is_terminal(self.tasks()[k].status)) by {
                if self.tasks().contains_key(k) {
                    let j = crate::state::index_of_id(self.downloads@, k);
                    lemma_map_lookup(self.downloads@, j);
                }
                if exists|j: int|
                    0 <= j < self.downloads@.len() && #[trigger] self.downloads@[j].id@ == k
                        && !spec_is_terminal(self.downloads@[j].status) {
                    let j = choose|j: int|
                        0 <= j < self.downloads@.len() && #[trigger] self.downloads@[j].id@ == k
                            && !spec_is_terminal(self.downloads@[j].status);
                    lemma_map_lookup(self.downloads@, j);
                }
            }
        }
        r
    }
}

/// A task is a ghost when its workspace is gone although it should have one:
/// every task past the start of its run has a workspace.
pub fn is_ghost_task(status: &DownloadStatus, workspace_exists: bool) -> (r: bool)
    ensures
        r == (!workspace_exists && !(status is Queued || status is Starting
            || status is FetchingMetadata)),
{
    !workspace_exists && !matches!(
        status,
        DownloadStatus::Queued | DownloadStatus::Starting | DownloadStatus::FetchingMetadata
    )
}

/// Whether a workspace directory belongs to no protected task.
pub fn is_orphan_workspace(name: &str, protected: &Vec<String>) -> (r: bool)
    ensures
        r == !string_views(protected@).contains(name@),
{
    let n = String::from_str(name);
    let mut i: usize = 0;
    while i < protected.len()
        invariant
            i <= protected@.len(),
            n@ == name@,
            forall|j: int| 0 <= j < i ==> protected@[j]@ != name@,
        decreases protected@.len() - i,
    {
        if protected[i] == n {
            assert(string_views(protected@)[i as int] == name@);
            return false;
        }
        i = i + 1;
    }
    proof {
        if string_views(protected@).contains(name@) {
            let j = choose|j: int|
                0 <= j < string_views(protected@).len() && string_views(protected@)[j] == name@;
            assert(protected@[j]@ == name@);
        }
    }
    true
}

/// The report of a cleanup.
pub fn cleanup_summary(cleaned: usize, ghosts: usize) -> (r: String)
    ensures
        r@ == "Cleanup Complete: Removed "@ + decimal(cleaned as nat) + " orphan workspaces and "@
            + decimal(ghosts as nat) + " ghost entries"@,
{
    let mut m = String::from_str("Cleanup Complete: Removed ");
    push_decimal(&mut m, cleaned as u64);
    m.append(" orphan workspaces and ");
    push_decimal(&mut m, ghosts as u64);
    m.append(" ghost entries");
    m
}

// ─── Laws of admission ──────────────────────────────────────

/// A task that a request admits waits in the queue, so it is runnable.
pub proof fn lemma_admitted_is_runnable(
    before: InnerState,
    after: InnerState,
    req: DownloadRequest,
    id: Seq<char>,
    args: Seq<String>,
    output_dir: Seq<char>,
    workspace: Seq<char>,
    now: u64,
    t: DownloadTaskView,
)
    requires
        admitted_task(
            req,
            id,
            args,
            output_dir,
            workspace,
            if before.tasks().contains_key(id) {
                Some(before.tasks()[id])
            } else {
                None
            },
            now,
            t,
        ),
        after.tasks() == before.tasks().insert(id, t),
    ensures
        after.tasks().contains_key(id),
        after.tasks()[id].status is Queued,
{
}

/// Once a request is admitted, a second request for the same task is refused:
/// the task is busy.
pub proof fn lemma_no_double_admission(
    before: InnerState,
    after: InnerState,
    req: DownloadRequest,
    id: Seq<char>,
    args: Seq<String>,
    output_dir: Seq<char>,
    workspace: Seq<char>,
    now: u64,
    t: DownloadTaskView,
)
    requires
        admitted_task(
            req,
            id,
            args,
            output_dir,
            workspace,
            if before.tasks().contains_key(id) {
                Some(before.tasks()[id])
            } else {
                None
            },
            now,
            t,
        ),
        after.tasks() == before.tasks().insert(id, t),
    ensures
        after.tasks().contains_key(id) && spec_is_busy(after.tasks()[id].status),
{
}

/// Once a request is admitted, its URL is in the queue, so a new request for the
/// same URL is refused.
pub proof fn lemma_url_taken_after_admission(
    before: InnerState,
    after: InnerState,
    req: DownloadRequest,
    id: Seq<char>,
    args: Seq<String>,
    output_dir: Seq<char>,
    workspace: Seq<char>,
    now: u64,
    t: DownloadTaskView,
)
    requires
        admitted_task(
            req,
            id,
            args,
            output_dir,
            workspace,
            if before.tasks().contains_key(id) {
                Some(before.tasks()[id])
            } else {
                None
            },
            now,
            t,
        ),
        after.tasks() == before.tasks().insert(id, t),
    ensures
        url_in_queue(after.tasks(), req.url@),
{
    assert(after.tasks().contains_key(id) && after.tasks()[id].url@ == req.url@ && !spec_frees_url(
        after.tasks()[id].status,
    ));
}

/// Resuming a stored task restarts it with its own URL and settings, and keeps its
/// title, creation time and items.
pub proof fn lemma_resume_keeps_task(
    before: InnerState,
    id: Seq<char>,
    req: DownloadRequest,
    args: Seq<String>,
    workspace: Seq<char>,
    now: u64,
    t: DownloadTaskView,
)
    requires
        before.tasks().contains_key(id),
        req.url == before.tasks()[id].url,
        req.media_type == before.tasks()[id].media_type,
        req.format == before.tasks()[id].format,
        req.quality == before.tasks()[id].quality,
        req.output_path == before.tasks()[id].output_path,
        req.is_playlist == before.tasks()[id].is_playlist,
        admitted_task(req, id, args, req.output_path@, workspace, Some(before.tasks()[id]), now, t),
    ensures
        t.url == before.tasks()[id].url,
        t.media_type == before.tasks()[id].media_type,
        t.format == before.tasks()[id].format,
        t.quality == before.tasks()[id].quality,
        t.output_path@ == before.tasks()[id].output_path@,
        t.is_playlist == before.tasks()[id].is_playlist,
        t.title == before.tasks()[id].title,
        t.timestamp == before.tasks()[id].timestamp,
        t.children == before.tasks()[id].children,
{
}

/// A pause that the transition rule admits is what a later failure report sees,
/// so the failure is not reported.
pub proof fn lemma_pause_suppresses_failure(
    before: InnerState,
    after: InnerState,
    id: Seq<char>,
    progress: i64,
)
    requires
        before.tasks().contains_key(id),
        !spec_is_terminal(before.tasks()[id].status),
        after.tasks().contains_key(id),
        crate::state::status_applied(
            before.tasks()[id],
            after.tasks()[id],
            DownloadStatus::Paused { progress },
        ),
    ensures
        crate::state::spec_can_overwrite(before.tasks()[id].status, DownloadStatus::Paused { progress }),
        after.tasks()[id].status is Paused,
{
}

/// A cancellation that the transition rule admits removes the task, so a later
/// failure report finds nothing to report.
pub proof fn lemma_cancel_suppresses_failure(before: InnerState, after: InnerState, id: Seq<char>)
    requires
        before.tasks().contains_key(id),
        !spec_is_terminal(before.tasks()[id].status),
        after.tasks() == before.tasks().remove(id),
    ensures
        crate::state::spec_can_overwrite(before.tasks()[id].status, DownloadStatus::Cancelled),
        !after.tasks().contains_key(id),
{
}

/// The workspace of an unfinished task is never taken for an orphan.
pub proof fn lemma_unfinished_workspace_kept(s: InnerState, protected: Seq<String>, id: Seq<char>)
    requires
        forall|k: Seq<char>|
            string_views(protected).contains(k) <==> (s.tasks().contains_key(k)
                && !spec_is_terminal(s.tasks()[k].status)),
        s.tasks().contains_key(id),
        !spec_is_terminal(s.tasks()[id].status),
    ensures
        string_views(protected).contains(id),
{
}

// ─── Ending a download ──────────────────────────────────────

/// The status reported once yt-dlp succeeded: finalizing the named file, at the
/// playlist position the task last reported.
pub fn finalizing_status(filename: String, current: &Option<DownloadStatus>) -> (r: DownloadStatus)
    ensures
        r@ == (StatusView::Finalizing {
            playlist: Some(
                MetaView {
                    current_index: match current {
                        Some(s) => match meta_view(crate::state::spec_playlist_meta(*s)) {
                            Some(m) => m.current_index,
                            None => 0,
                        },
                        None => 0,
                    },
                    total_items: match current {
                        Some(s) => match meta_view(crate::state::spec_playlist_meta(*s)) {
                            Some(m) => m.total_items,
                            None => 0,
                        },
                        None => 0,
                    },
                    item_title: filename@,
                },
            ),
        }),
{
    let (ci, ti) = match current {
        Some(s) => match s.playlist_meta() {
            Some(m) => (m.current_index, m.total_items),
            None => (0, 0),
        },
        None => (0, 0),
    };
    DownloadStatus::Finalizing {
        playlist: Some(PlaylistMetadata { current_index: ci, total_items: ti, item_title: filename }),
    }
}

/// The status after moving the finished files to the output directory.
pub fn completion_status(copied: bool, filename: String) -> (r: DownloadStatus)
    ensures
        copied ==> r@ == (StatusView::Completed { filename: filename@ }),
        !copied ==> r@ == (StatusView::Failed {
            reason: "Finalizing error: File copy failed"@,
            progress: 10000,
            category: ErrorCategory::Generic,
        }),
{
    if copied {
        DownloadStatus::Completed { filename }
    } else {
        DownloadStatus::Failed {
            reason: String::from_str("Finalizing error: File copy failed"),
            progress: 10000,
            category: ErrorCategory::Generic,
        }
    }
}

/// Whether a process (by its lower-case name) is yt-dlp or ffmpeg, the tools this
/// application runs.
pub fn is_managed_process_name(name: &str) -> (r: bool)
    ensures
        r == (contains(name@, "yt-dlp"@) || contains(name@, "ffmpeg"@)),
{
    let n = chars_of(name);
    str_contains(&n, "yt-dlp") || str_contains(&n, "ffmpeg")
}

/// Whether the process recorded for a task is to be killed: a recorded id (0 marks
/// one already cleared) of a running process that this application started.
/// `process_name` is the lower-case name of the running process with that id.
pub fn should_kill(pid: u32, process_name: Option<&str>) -> (r: bool)
    ensures
        r == (pid != 0 && match process_name {
            Some(n) => contains(n@, "yt-dlp"@) || contains(n@, "ffmpeg"@),
            None => false,
        }),
{
    if pid == 0 {
        return false;
    }
    match process_name {
        Some(n) => is_managed_process_name(n),
        None => false,
    }
}

/// Whether a workspace file goes to the output directory: the download archive does not.
pub fn is_delivered_file(name: &str) -> (r: bool)
    ensures
        r == (name@ != "archive.txt"@),
{
    String::from_str(name) != String::from_str("archive.txt")
}

/// The verdict of a browser cookie check from its outcome and error output.
pub open spec fn spec_auth_outcome(stderr: Seq<char>, success: bool) -> Result<Seq<char>, AppErrorView> {
    if contains(stderr, "Database is locked"@) || contains(stderr, "sqlite3.OperationalError"@) {
        Err(AppErrorView::YtDlpBrowserLock)
    } else if success {
        Ok("Cookies found ✓"@)
    } else if contains(stderr, "Sign in to confirm"@) {
        Ok("Sign in required in Firefox"@)
    } else {
        Ok("Cookies not found or invalid"@)
    }
}

/// Judges a browser cookie check.
pub fn auth_check_outcome(stderr: &str, success: bool) -> (r: Result<String, AppError>)
    ensures
        match (r, spec_auth_outcome(stderr@, success)) {
            (Ok(m), Ok(s)) => m@ == s,
            (Err(e), Err(v)) => e@ == v,
            _ => false,
        },
{
    let e = chars_of(stderr);
    if str_contains(&e, "Database is locked") || str_contains(&e, "sqlite3.OperationalError") {
        Err(AppError::YtDlpBrowserLock)
    } else if success {
        Ok(String::from_str("Cookies found ✓"))
    } else if str_contains(&e, "Sign in to confirm") {
        Ok(String::from_str("Sign in required in Firefox"))
    } else {
        Ok(String::from_str("Cookies not found or invalid"))
    }
}

} // verus!
