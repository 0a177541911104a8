//! The course of a component installation: which components are fetched, in
//! which order, and what state each is reported in.
use crate::config::AppConfigView;
use crate::deps::{install_plan, spec_install_plan, DepStatus, InstallPlan};
use crate::state::{normalized_target, InnerState};
use vstd::prelude::*;
use vstd::string::*;

verus! {

/// A report on the installation of a component (or of `all`); progress is in
/// hundredths of a percent.
#[derive(Debug)]
pub struct DependencyRecord {
    pub target: String,
    pub status: DepStatus,
    pub progress: i64,
}

/// The latest report on `k` among the records `s`.
pub open spec fn latest_dep_state(s: Seq<DependencyRecord>, k: Seq<char>) -> Option<(DepStatus, i64)>
    decreases s.len(),
{
    if s.len() == 0 {
        None
    } else if s.last().target@ == k {
        Some((s.last().status, s.last().progress))
    } else {
        latest_dep_state(s.drop_last(), k)
    }
}

/// The components, in the order they are installed.
pub open spec fn component(k: int) -> Seq<char> {
    if k == 0 {
        "yt-dlp"@
    } else if k == 1 {
        "ffmpeg"@
    } else {
        "deno"@
    }
}

proof fn lemma_components_distinct()
    ensures
        forall|i: int, j: int|
            0 <= i < 3 && 0 <= j < 3 && i != j ==> #[trigger] component(i) != #[trigger] component(
                j,
            ),
        forall|i: int| 0 <= i < 3 ==> #[trigger] component(i) != "all"@,
{
    reveal_strlit("yt-dlp");
    reveal_strlit("ffmpeg");
    reveal_strlit("deno");
    reveal_strlit("all");
    assert(component(0)[0] != component(1)[0]);
    assert(component(0).len() != component(2).len());
    assert(component(1).len() != component(2).len());
    assert(component(0).len() != "all"@.len());
    assert(component(1).len() != "all"@.len());
    assert(component(2).len() != "all"@.len());
}

/// Whether the plan covers component `k`.
pub open spec fn planned(plan: InstallPlan, k: int) -> bool {
    ||| (k == 0 && plan.ytdlp)
    ||| (k == 1 && plan.ffmpeg)
    ||| (k == 2 && plan.deno)
}

/// The first planned component at or after `k`.
pub open spec fn next_planned(plan: InstallPlan, k: int) -> Option<int>
    decreases 3 - k,
{
    if k < 0 || k >= 3 {
        None
    } else if planned(plan, k) {
        Some(k)
    } else {
        next_planned(plan, k + 1)
    }
}

/// An installation under way.
pub struct InstallRun {
    /// The components it covers.
    pub plan: InstallPlan,
    /// Whether it installs every component (the installation of the setup screen).
    pub full: bool,
    /// The component to consider next, by position.
    pub next: usize,
    /// The component being fetched, by position.
    pub fetching: Option<usize>,
}

impl InstallRun {
    pub open spec fn wf(&self) -> bool {
        &&& self.next <= 3
        &&& (self.fetching matches Some(k) ==> k < self.next)
    }
}

/// What one step of an installation did and asks for.
pub struct InstallStep {
    /// The component whose fetch ended and that is now reported complete.
    pub completed: Option<&'static str>,
    /// The component to fetch now; when none is left, `all` is reported complete.
    pub fetch: Option<&'static str>,
}

fn component_name(k: usize) -> (r: &'static str)
    requires
        k < 3,
    ensures
        r@ == component(k as int),
{
    if k == 0 {
        "yt-dlp"
    } else if k == 1 {
        "ffmpeg"
    } else {
        "deno"
    }
}

fn is_planned(plan: InstallPlan, k: usize) -> (r: bool)
    ensures
        r == planned(plan, k as int),
{
    (k == 0 && plan.ytdlp) || (k == 1 && plan.ffmpeg) || (k == 2 && plan.deno)
}

impl InnerState {
    /// The state of a component's installation: its latest report.
    pub open spec fn dependency_state(&self, k: Seq<char>) -> Option<(DepStatus, i64)> {
        latest_dep_state(self.dependency_states@, k)
    }

    /// Reports the state of a component's installation.
    pub fn set_dependency_state(&mut self, target: &str, status: DepStatus, progress: i64)
        requires
            old(self).wf(),
        ensures
            final(self).wf(),
            final(self).downloads == old(self).downloads,
            final(self).config == old(self).config,
            final(self).installing == old(self).installing,
            final(self).current_limit == old(self).current_limit,
            final(self).cookie_check_in_progress == old(self).cookie_check_in_progress,
            final(self).cached_ytdlp_latest == old(self).cached_ytdlp_latest,
            final(self).cached_deno_latest == old(self).cached_deno_latest,
            forall|k: Seq<char>|
                #[trigger] final(self).dependency_state(k) == if k == target@ {
                    Some((status, progress))
                } else {
                    old(self).dependency_state(k)
                },
    {
        let ghost before = self.dependency_states@;
        self.dependency_states.push(
            DependencyRecord { target: String::from_str(target), status, progress },
        );
        proof {
            assert(self.dependency_states@.drop_last() =~= before);
        }
    }

    /// Starts an installation of the component `target` (all of them when none is
    /// named): a full installation first records that the setup is done, with the
    /// bundled tools. `all` is reported starting.
    pub fn start_install(&mut self, target: Option<&str>) -> (r: InstallRun)
        requires
            old(self).wf(),
        ensures
            final(self).wf(),
            r.wf(),
            r.plan == spec_install_plan(
                match target {
                    Some(t) => Some(t@),
                    None => None,
                },
            ),
            r.full == target is None,
            r.next == 0,
            r.fetching is None,
            target is None ==> final(self).config@ == (AppConfigView {
                setup_shown: true,
                custom_deps: false,
                ..old(self).config@
            }),
            target is Some ==> final(self).config == old(self).config,
            final(self).downloads == old(self).downloads,
            final(self).installing == old(self).installing,
            forall|k: Seq<char>|
                #[trigger] final(self).dependency_state(k) == if k == "all"@ {
                    Some((DepStatus::Starting, 0))
                } else {
                    old(self).dependency_state(k)
                },
    {
        let plan = install_plan(target);
        let full = target.is_none();
        if full {
            self.config.mark_setup_done(false);
        }
        self.set_dependency_state("all", DepStatus::Starting, 0);
        InstallRun { plan, full, next: 0, fetching: None }
    }

    /// The next step of an installation, once the previous fetch succeeded: the
    /// component just fetched is reported complete, and the next planned one is
    /// reported downloading and returned to be fetched. When none is left, `all`
    /// is reported complete.
    pub fn install_step(&mut self, run: &mut InstallRun) -> (r: InstallStep)
        requires
            old(self).wf(),
            old(run).wf(),
        ensures
            final(self).wf(),
            final(run).wf(),
            final(run).plan == old(run).plan,
            final(run).full == old(run).full,
            final(self).downloads == old(self).downloads,
            final(self).config == old(self).config,
            final(self).installing == old(self).installing,
            match old(run).fetching {
                Some(k) => r.completed matches Some(c) && c@ == component(k as int)
                    && final(self).dependency_state(component(k as int)) == Some(
                    (DepStatus::Complete, 10000i64),
                ),
                None => r.completed is None,
            },
            match next_planned(old(run).plan, old(run).next as int) {
                Some(n) => {
                    &&& r.fetch matches Some(c) && c@ == component(n)
                    &&& final(self).dependency_state(component(n)) == Some(
                        (DepStatus::Downloading, 0i64),
                    )
                    &&& final(run).fetching == Some(n as usize)
                    &&& final(run).next == n + 1
                },
                None => {
                    &&& r.fetch is None
                    &&& final(self).dependency_state("all"@) == Some(
                        (DepStatus::Complete, 10000i64),
                    )
                    &&& final(run).fetching is None
                    &&& final(run).next == 3
                },
            },
            forall|k: Seq<char>|
                k != "all"@ && (old(run).fetching matches Some(f) ==> k != component(f as int))
                    && (next_planned(old(run).plan, old(run).next as int) matches Some(n) ==> k
                    != component(n)) ==> #[trigger] final(self).dependency_state(k) == old(
                    self,
                ).dependency_state(k),
    {
        let completed = match run.fetching {
            Some(k) => {
                let c = component_name(k);
                self.set_dependency_state(c, DepStatus::Complete, 10000);
                Some(c)
            },
            None => None,
        };
        proof {
            lemma_components_distinct();
        }
        let mut k = run.next;
        while k < 3 && !is_planned(run.plan, k)
            invariant
                run.next <= k <= 3,
                next_planned(run.plan, k as int) == next_planned(run.plan, run.next as int),
            decreases 3 - k,
        {
            k = k + 1;
        }
        if k < 3 {
            let c = component_name(k);
            self.set_dependency_state(c, DepStatus::Downloading, 0);
            run.fetching = Some(k);
            run.next = k + 1;
            InstallStep { completed, fetch: Some(c) }
        } else {
            self.set_dependency_state("all", DepStatus::Complete, 10000);
            run.fetching = None;
            run.next = 3;
            InstallStep { completed, fetch: None }
        }
    }
}

/// The claim on the installation of a component (`ffprobe` counts as `ffmpeg`;
/// `all` is every component), held while it installs and released with
/// [`InstallGuard::release`].
pub struct InstallGuard {
    /// The claimed name.
    pub target: String,
}

impl InstallGuard {
    /// Claims the installation of `target`. Fails while a full installation runs,
    /// when a full installation is asked for while any component installs, or when
    /// the component already installs; the set of installing components is then
    /// unchanged.
    pub fn new(inner: &mut InnerState, target: &str) -> (r: Result<InstallGuard, String>)
        requires
            old(inner).wf(),
        ensures
            final(inner).wf(),
            final(inner).downloads == old(inner).downloads,
            final(inner).config == old(inner).config,
            final(inner).current_limit == old(inner).current_limit,
            final(inner).cookie_check_in_progress == old(inner).cookie_check_in_progress,
            final(inner).cached_ytdlp_latest == old(inner).cached_ytdlp_latest,
            final(inner).cached_deno_latest == old(inner).cached_deno_latest,
            final(inner).dependency_states == old(inner).dependency_states,
            old(inner).installing_views().contains("all"@) ==> (r matches Err(e) && e@
                == "Full dependency installation already in progress"@),
            !old(inner).installing_views().contains("all"@) && normalized_target(target@)
                == "all"@ && old(inner).installing_views().len() > 0 ==> (r matches Err(e) && e@
                == "Cannot start full installation while individual components are installing"@),
            !old(inner).installing_views().contains("all"@) && !(normalized_target(target@)
                == "all"@ && old(inner).installing_views().len() > 0)
                && old(inner).installing_views().contains(normalized_target(target@)) ==> (r matches Err(e) && e@
                == "Installation for "@ + normalized_target(target@) + " is already in progress"@),
            r is Err ==> final(inner).installing == old(inner).installing,
            r is Ok <==> (!old(inner).installing_views().contains("all"@) && !(normalized_target(
                target@,
            ) == "all"@ && old(inner).installing_views().len() > 0)
                && !old(inner).installing_views().contains(normalized_target(target@))),
            r matches Ok(g) ==> g.target@ == normalized_target(target@)
                && final(inner).installing_views() == old(inner).installing_views().push(g.target@),
    {
        match inner.begin_install(target) {
            Ok(name) => Ok(InstallGuard { target: name }),
            Err(e) => Err(e),
        }
    }

    /// Releases the claim: the component no longer counts as installing, and the
    /// others are as they were.
    pub fn release(&self, inner: &mut InnerState)
        requires
            old(inner).wf(),
        ensures
            final(inner).wf(),
            final(inner).downloads == old(inner).downloads,
            final(inner).config == old(inner).config,
            final(inner).current_limit == old(inner).current_limit,
            final(inner).cookie_check_in_progress == old(inner).cookie_check_in_progress,
            final(inner).cached_ytdlp_latest == old(inner).cached_ytdlp_latest,
            final(inner).cached_deno_latest == old(inner).cached_deno_latest,
            final(inner).dependency_states == old(inner).dependency_states,
            !final(inner).installing_views().contains(self.target@),
            forall|x: Seq<char>|
                x != self.target@ ==> final(inner).installing_views().contains(x) == old(
                    inner,
                ).installing_views().contains(x),
    {
        inner.end_install(&self.target);
    }
}

/// A run fetches exactly the planned components, in order: stepping from the
/// start visits the first planned component, and each step the next one.
pub proof fn lemma_install_visits_plan(plan: InstallPlan, k: int)
    requires
        0 <= k <= 3,
    ensures
        next_planned(plan, k) matches Some(n) ==> k <= n < 3 && planned(plan, n) && forall|m: int|
            k <= m < n ==> !planned(plan, m),
        next_planned(plan, k) is None ==> forall|m: int| k <= m < 3 ==> !planned(plan, m),
    decreases 3 - k,
{
    if k < 3 && !planned(plan, k) {
        lemma_install_visits_plan(plan, k + 1);
    }
}

} // verus!
