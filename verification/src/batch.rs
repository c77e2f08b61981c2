//! A run over several videos, one job after the other.
//!
//! A job that fails is reported and the run goes on with the next video: no failure of one
//! video keeps another from being processed, and the run itself always completes.
use crate::job::{
    action_of, action_view, job_action, job_advance, next_state, scene_job, Action, ActionView,
    Failure, JobState, Pipeline, PipelineView, SceneJob, SceneJobView,
};
use crate::tool::words;
use vstd::prelude::*;

verus! {

/// How the job of one video ended.
#[derive(Clone, Copy, Debug, PartialEq, Eq, Structural)]
pub enum JobReport {
    /// The scene existed and was kept.
    Skipped,
    /// The pipeline ran to its end; `exported` tells whether a model was there to export.
    Finished { exported: bool },
    Failed(Failure),
}

impl JobReport {
    /// The video's slot counts as a success.
    pub open spec fn is_success(self) -> bool {
        !(self is Failed)
    }

    /// Whether the video's slot counts as a success.
    pub fn succeeded(self) -> (out: bool)
        ensures
            out == self.is_success(),
    {
        match self {
            JobReport::Failed(_) => false,
            _ => true,
        }
    }
}

/// The report of a job that came to rest in `state`.
pub open spec fn report_of(state: JobState) -> JobReport {
    match state {
        JobState::SkippedExisting => JobReport::Skipped,
        JobState::ExportedText => JobReport::Finished { exported: true },
        JobState::Failed(failure) => JobReport::Failed(failure),
        _ => JobReport::Finished { exported: false },
    }
}

/// The views of the jobs of a vector, in order.
pub open spec fn job_views(jobs: Seq<SceneJob>) -> Seq<SceneJobView> {
    Seq::new(jobs.len(), |i: int| jobs[i]@)
}

/// The jobs of the videos that have one, in the order of the videos.
pub open spec fn planned_jobs(videos: Seq<Seq<char>>, root: Seq<char>) -> Seq<SceneJobView>
    decreases videos.len(),
{
    if videos.len() == 0 {
        Seq::empty()
    } else {
        let front = planned_jobs(videos.drop_last(), root);
        match scene_job(videos.last(), root) {
            Some(job) => front.push(job),
            None => front,
        }
    }
}

/// The videos that have no job, in the order of the videos.
pub open spec fn rejected_videos(videos: Seq<Seq<char>>, root: Seq<char>) -> Seq<Seq<char>>
    decreases videos.len(),
{
    if videos.len() == 0 {
        Seq::empty()
    } else {
        let front = rejected_videos(videos.drop_last(), root);
        match scene_job(videos.last(), root) {
            Some(_) => front,
            None => front.push(videos.last()),
        }
    }
}

/// The videos of a run, told apart by whether they have a job.
#[derive(Debug, PartialEq, Eq)]
pub struct JobPlan {
    /// The jobs of the videos that have one.
    pub jobs: Vec<SceneJob>,
    /// The videos whose path names no file, so that no scene can be named after them.
    pub rejected: Vec<String>,
}

/// Forms the job of each video below the scenes directory `scenes_root`. A video whose
/// path names no file has no job; it is set aside, and the other videos keep theirs.
pub fn plan_jobs(videos: &Vec<String>, scenes_root: &str) -> (out: JobPlan)
    ensures
        job_views(out.jobs@) == planned_jobs(words(videos@), scenes_root@),
        words(out.rejected@) == rejected_videos(words(videos@), scenes_root@),
{
    let mut jobs: Vec<SceneJob> = Vec::new();
    let mut rejected: Vec<String> = Vec::new();
    let ghost all = words(videos@);
    assert(all.take(0) =~= Seq::<Seq<char>>::empty());
    assert(job_views(jobs@) =~= Seq::<SceneJobView>::empty());
    assert(words(rejected@) =~= Seq::<Seq<char>>::empty());
    let mut i: usize = 0;
    while i < videos.len()
        invariant
            i <= videos.len(),
            all == words(videos@),
            job_views(jobs@) == planned_jobs(all.take(i as int), scenes_root@),
            words(rejected@) == rejected_videos(all.take(i as int), scenes_root@),
        decreases videos.len() - i,
    {
        let video = &videos[i];
        let ghost before_jobs = job_views(jobs@);
        let ghost before_rejected = words(rejected@);
        proof {
            assert(all.take(i + 1).drop_last() =~= all.take(i as int));
            assert(all.take(i + 1).last() == video@);
        }
        match SceneJob::new(video.as_str(), scenes_root) {
            Some(job) => {
                let ghost view = job@;
                jobs.push(job);
                assert(job_views(jobs@) =~= before_jobs.push(view));
            },
            None => {
                rejected.push(video.clone());
                assert(words(rejected@) =~= before_rejected.push(video@));
            },
        }
        i = i + 1;
    }
    assert(all.take(videos.len() as int) =~= all);
    JobPlan { jobs, rejected }
}

/// A run as plain values. The job in work is the one that has no report yet.
pub struct BatchView {
    pub ctx: PipelineView,
    pub jobs: Seq<SceneJobView>,
    /// The state of the job in work; `Pending` where every job has its report.
    pub state: JobState,
    /// The reports of the jobs that are over, in the order of the jobs.
    pub reports: Seq<JobReport>,
}

impl BatchView {
    /// Every job has its report.
    pub open spec fn is_finished(self) -> bool {
        self.reports.len() >= self.jobs.len()
    }

    /// The action that is due; none where the run is finished.
    pub open spec fn action(self) -> Option<ActionView> {
        if self.is_finished() {
            None
        } else {
            action_of(self.ctx, self.jobs[self.reports.len() as int], self.state)
        }
    }

    /// The run after the action that was due ended with `outcome`. A job that comes to rest
    /// is reported, whatever its end, and the next job is taken up. A finished run stays as
    /// it is.
    pub open spec fn step(self, outcome: bool) -> BatchView {
        if self.is_finished() {
            self
        } else {
            let next = next_state(self.ctx, self.state, outcome);
            if next.is_at_rest() {
                BatchView {
                    state: JobState::Pending,
                    reports: self.reports.push(report_of(next)),
                    ..self
                }
            } else {
                BatchView { state: next, ..self }
            }
        }
    }

    /// The run after the actions that were due ended with `outcomes`, one after the other.
    pub open spec fn after(self, outcomes: Seq<bool>) -> BatchView
        decreases outcomes.len(),
    {
        if outcomes.len() == 0 {
            self
        } else {
            self.step(outcomes[0]).after(outcomes.drop_first())
        }
    }

    /// The actions that were due while the run went through `outcomes`, in order: the one
    /// due now first, the one due after the last outcome last.
    pub open spec fn trace(self, outcomes: Seq<bool>) -> Seq<ActionView>
        decreases outcomes.len(),
    {
        match self.action() {
            None => Seq::empty(),
            Some(action) => if outcomes.len() == 0 {
                seq![action]
            } else {
                seq![action] + self.step(outcomes[0]).trace(outcomes.drop_first())
            },
        }
    }

    /// The run is as a run can be: no more reports than jobs, and a job in work is not at
    /// rest.
    pub open spec fn wf(self) -> bool {
        &&& self.reports.len() <= self.jobs.len()
        &&& self.reports.len() < self.jobs.len() ==> !self.state.is_at_rest()
        &&& self.reports.len() == self.jobs.len() ==> self.state == JobState::Pending
    }
}

/// The most actions that a job in `state` can still ask for.
pub open spec fn actions_left(state: JobState) -> nat {
    match state {
        JobState::Pending => 11,
        JobState::Overwriting => 10,
        JobState::Cleared => 9,
        JobState::Prepared => 8,
        JobState::FramesExtracted => 7,
        JobState::FeaturesExtracted => 6,
        JobState::FeaturesMatched => 5,
        JobState::Reconstructed => 4,
        JobState::ModelFound => 3,
        JobState::ModelNormalized => 2,
        JobState::ExportedText => 1,
        JobState::SkippedExisting | JobState::Done | JobState::Failed(_) => 0,
    }
}

/// The most actions that a run can still ask for.
pub open spec fn budget(run: BatchView) -> nat {
    if run.is_finished() {
        0
    } else {
        (actions_left(run.state) + 11 * (run.jobs.len() - run.reports.len() - 1)) as nat
    }
}

/// Every outcome brings a run nearer to its end, whatever the outcome is: a run cannot be
/// held up, and is finished after at most eleven outcomes for each video.
pub proof fn lemma_step_nears_the_end(run: BatchView, outcome: bool)
    requires
        run.wf(),
        !run.is_finished(),
    ensures
        run.step(outcome).wf(),
        budget(run.step(outcome)) < budget(run),
        budget(run) <= 11 * (run.jobs.len() - run.reports.len()),
{
}

/// A video whose scene exists and is kept fills its slot with a success: the job is
/// reported as skipped at once, and the next video is taken up.
pub proof fn lemma_skipped_slot_succeeds(run: BatchView)
    requires
        run.wf(),
        !run.is_finished(),
        run.state is Pending,
        !run.ctx.force_overwrite,
    ensures
        run.step(true).reports == run.reports.push(JobReport::Skipped),
        JobReport::Skipped.is_success(),
        run.step(true).state is Pending,
{
}

/// A job that fails takes nothing from the jobs behind it: it gets its report, and the
/// next video is taken up from the start.
pub proof fn lemma_failure_is_isolated(run: BatchView, outcome: bool)
    requires
        run.wf(),
        !run.is_finished(),
        next_state(run.ctx, run.state, outcome) is Failed,
    ensures
        run.step(outcome).reports == run.reports.push(
            JobReport::Failed(next_state(run.ctx, run.state, outcome)->0),
        ),
        run.step(outcome).jobs == run.jobs,
        run.step(outcome).state == JobState::Pending,
        !run.step(outcome).is_finished() ==> run.step(outcome).action() == Some(
            ActionView::ProbeSceneDir {
                path: run.jobs[run.reports.len() as int + 1].scene_dir,
            },
        ),
{
}

/// A run over several videos.
pub struct Batch {
    ctx: Pipeline,
    jobs: Vec<SceneJob>,
    state: JobState,
    reports: Vec<JobReport>,
}

impl View for Batch {
    type V = BatchView;

    closed spec fn view(&self) -> BatchView {
        BatchView {
            ctx: self.ctx@,
            jobs: job_views(self.jobs@),
            state: self.state,
            reports: self.reports@,
        }
    }
}

impl Batch {
    #[verifier::type_invariant]
    spec fn inv(self) -> bool {
        self@.wf()
    }

    /// A run over `jobs` that has not begun.
    pub fn new(ctx: Pipeline, jobs: Vec<SceneJob>) -> (out: Batch)
        ensures
            out@ == (BatchView {
                ctx: ctx@,
                jobs: job_views(jobs@),
                state: JobState::Pending,
                reports: Seq::empty(),
            }),
            out@.wf(),
    {
        Batch { ctx, jobs, state: JobState::Pending, reports: Vec::new() }
    }

    /// Whether every job has its report.
    pub fn is_finished(&self) -> (out: bool)
        ensures
            out == self@.is_finished(),
            self@.wf(),
    {
        proof {
            use_type_invariant(self);
        }
        self.reports.len() >= self.jobs.len()
    }

    /// The action that is due; none where the run is finished.
    pub fn pending(&self) -> (out: Option<Action>)
        ensures
            action_view(out) == self@.action(),
            out is None == self@.is_finished(),
            self@.wf(),
    {
        proof {
            use_type_invariant(self);
        }
        let at: usize = self.reports.len();
        if at < self.jobs.len() {
            job_action(&self.ctx, &self.jobs[at], self.state)
        } else {
            None
        }
    }

    /// The job in work; none where the run is finished.
    pub fn current(&self) -> (out: Option<&SceneJob>)
        ensures
            out is None == self@.is_finished(),
            out matches Some(job) ==> job@ == self@.jobs[self@.reports.len() as int],
    {
        proof {
            use_type_invariant(self);
        }
        let at: usize = self.reports.len();
        if at < self.jobs.len() {
            Some(&self.jobs[at])
        } else {
            None
        }
    }

    /// The state of the job in work.
    pub fn state(&self) -> (out: JobState)
        ensures
            out == self@.state,
    {
        self.state
    }

    /// The reports of the jobs that are over, in the order of the jobs.
    pub fn reports(&self) -> (out: &Vec<JobReport>)
        ensures
            out@ == self@.reports,
    {
        &self.reports
    }

    /// The run after the action that was due ended with `outcome`.
    pub fn advance(self, outcome: bool) -> (out: Batch)
        ensures
            out@ == self@.step(outcome),
            out@.wf(),
    {
        proof {
            use_type_invariant(&self);
        }
        if self.reports.len() >= self.jobs.len() {
            return self;
        }
        let Batch { ctx, jobs, state, reports } = self;
        let next = job_advance(&ctx, state, outcome);
        if next.at_rest() {
            let mut reports = reports;
            reports.push(conclude(next));
            Batch { ctx, jobs, state: JobState::Pending, reports }
        } else {
            Batch { ctx, jobs, state: next, reports }
        }
    }

    /// The exit code of a run that got as far as its first video: 0, whatever the videos'
    /// reports say.
    pub fn exit_code(&self) -> (out: i32)
        ensures
            out == 0,
    {
        0
    }
}

/// The report of a job that came to rest in `state`.
pub fn conclude(state: JobState) -> (out: JobReport)
    ensures
        out == report_of(state),
{
    match state {
        JobState::SkippedExisting => JobReport::Skipped,
        JobState::ExportedText => JobReport::Finished { exported: true },
        JobState::Failed(failure) => JobReport::Failed(failure),
        _ => JobReport::Finished { exported: false },
    }
}

} // verus!
