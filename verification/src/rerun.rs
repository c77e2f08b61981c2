//! What a second run over the same videos does.
//!
//! The jobs' actions are carried out by the caller, so what they do to the disk is stated
//! here as a model: which scene directories exist, and how the removal and the creation of
//! a job change that. Processes are taken to leave the scene directories where they are.
use crate::batch::{BatchView, JobReport};
use crate::job::{Failure, JobState, SceneJobView};
use vstd::prelude::*;

verus! {

/// The scene directories that exist after the action that was due for `job` in `state`
/// ended with `outcome`: a removal that succeeded takes the job's scene away, a creation
/// that succeeded puts it there, and nothing else changes what exists. Of a creation that
/// failed nothing is known; it is taken to change nothing.
pub open spec fn scenes_after(
    scenes: Set<Seq<char>>,
    job: SceneJobView,
    state: JobState,
    outcome: bool,
) -> Set<Seq<char>> {
    match state {
        JobState::Overwriting => if outcome {
            scenes.remove(job.scene_dir)
        } else {
            scenes
        },
        JobState::Cleared => if outcome {
            scenes.insert(job.scene_dir)
        } else {
            scenes
        },
        _ => scenes,
    }
}

impl BatchView {
    /// The job in work.
    pub open spec fn current(self) -> SceneJobView
        recommends
            !self.is_finished(),
    {
        self.jobs[self.reports.len() as int]
    }

    /// The scene directories that exist after the action that was due ended with `outcome`.
    pub open spec fn scenes_after_step(self, scenes: Set<Seq<char>>, outcome: bool) -> Set<
        Seq<char>,
    > {
        if self.is_finished() {
            scenes
        } else {
            scenes_after(scenes, self.current(), self.state, outcome)
        }
    }

    /// The scene directories that exist after the run went through `outcomes`.
    pub open spec fn scenes_after_run(self, scenes: Set<Seq<char>>, outcomes: Seq<bool>) -> Set<
        Seq<char>,
    >
        decreases outcomes.len(),
    {
        if outcomes.len() == 0 {
            scenes
        } else {
            self.step(outcomes[0]).scenes_after_run(
                self.scenes_after_step(scenes, outcomes[0]),
                outcomes.drop_first(),
            )
        }
    }

    /// The outcomes fit the scene directories: each look at a scene directory found it
    /// exactly where it exists.
    pub open spec fn probes_are_true(self, scenes: Set<Seq<char>>, outcomes: Seq<bool>) -> bool
        decreases outcomes.len(),
    {
        outcomes.len() == 0 || {
            &&& !self.is_finished() && self.state is Pending ==> outcomes[0] == scenes.contains(
                self.current().scene_dir,
            )
            &&& self.step(outcomes[0]).probes_are_true(
                self.scenes_after_step(scenes, outcomes[0]),
                outcomes.drop_first(),
            )
        }
    }

    /// No job was left without its directories: none has failed at creating them.
    pub open spec fn every_scene_was_created(self) -> bool {
        forall|k: int|
            0 <= k < self.reports.len() ==> #[trigger] self.reports[k] != JobReport::Failed(
                Failure::CreateDirs,
            )
    }
}

/// What a run without overwriting keeps true of the scene directories: the scene of every
/// job that is over exists, unless the job failed at creating it, and so does the scene of
/// the job in work once its directories were created.
spec fn scenes_follow(run: BatchView, scenes: Set<Seq<char>>) -> bool {
    &&& run.wf()
    &&& !run.ctx.force_overwrite
    &&& forall|k: int|
        0 <= k < run.reports.len() ==> scenes.contains(#[trigger] run.jobs[k].scene_dir)
            || run.reports[k] == JobReport::Failed(Failure::CreateDirs)
    &&& !run.is_finished() ==> {
        &&& !(run.state is Overwriting)
        &&& !(run.state is Pending) && !(run.state is Cleared) ==> scenes.contains(
            run.current().scene_dir,
        )
    }
}

proof fn lemma_scenes_follow(run: BatchView, scenes: Set<Seq<char>>, outcomes: Seq<bool>)
    requires
        scenes_follow(run, scenes),
        run.probes_are_true(scenes, outcomes),
    ensures
        scenes_follow(run.after(outcomes), run.scenes_after_run(scenes, outcomes)),
    decreases outcomes.len(),
{
    if outcomes.len() > 0 {
        let next = run.step(outcomes[0]);
        let after = run.scenes_after_step(scenes, outcomes[0]);
        if !run.is_finished() {
            assert forall|k: int| 0 <= k < next.reports.len() implies after.contains(
                #[trigger] next.jobs[k].scene_dir,
            ) || next.reports[k] == JobReport::Failed(Failure::CreateDirs) by {
                if k < run.reports.len() {
                    assert(scenes.contains(run.jobs[k].scene_dir) || run.reports[k]
                        == JobReport::Failed(Failure::CreateDirs));
                    assert(next.reports[k] == run.reports[k]);
                }
            }
        }
        lemma_scenes_follow(next, after, outcomes.drop_first());
    }
}

proof fn lemma_all_skipped(run: BatchView, scenes: Set<Seq<char>>, outcomes: Seq<bool>)
    requires
        run.wf(),
        !run.ctx.force_overwrite,
        run.is_finished() || run.state is Pending,
        forall|k: int| 0 <= k < run.jobs.len() ==> scenes.contains(#[trigger] run.jobs[k].scene_dir),
        run.probes_are_true(scenes, outcomes),
    ensures
        forall|i: int|
            0 <= i < run.trace(outcomes).len() ==> (#[trigger] run.trace(outcomes)[i])
                is ProbeSceneDir,
        run.scenes_after_run(scenes, outcomes) == scenes,
        run.after(outcomes).jobs == run.jobs,
        run.after(outcomes).reports.len() >= run.reports.len(),
        forall|k: int|
            run.reports.len() <= k < run.after(outcomes).reports.len() ==> (
            #[trigger] run.after(outcomes).reports[k]) == JobReport::Skipped,
    decreases outcomes.len(),
{
    let trace = run.trace(outcomes);
    if outcomes.len() > 0 && !run.is_finished() {
        let next = run.step(outcomes[0]);
        let rest = outcomes.drop_first();
        assert(scenes.contains(run.jobs[run.reports.len() as int].scene_dir));
        assert(outcomes[0]);
        assert(next.reports == run.reports.push(JobReport::Skipped));
        lemma_all_skipped(next, scenes, rest);
        let tail = next.trace(rest);
        assert forall|i: int| 0 <= i < trace.len() implies (#[trigger] trace[i])
            is ProbeSceneDir by {
            if i > 0 {
                assert(trace[i] == tail[i - 1]);
            }
        }
        assert forall|k: int| run.reports.len() <= k < run.after(outcomes).reports.len() implies (
        #[trigger] run.after(outcomes).reports[k]) == JobReport::Skipped by {
            if k == run.reports.len() {
                lemma_reports_are_kept(next, rest, k);
            }
        }
    } else if outcomes.len() > 0 {
        lemma_all_skipped(run.step(outcomes[0]), scenes, outcomes.drop_first());
    }
}

/// A report that was given is never changed.
pub proof fn lemma_reports_are_kept(run: BatchView, outcomes: Seq<bool>, k: int)
    requires
        0 <= k < run.reports.len(),
    ensures
        run.after(outcomes).reports.len() >= run.reports.len(),
        run.after(outcomes).reports[k] == run.reports[k],
    decreases outcomes.len(),
{
    if outcomes.len() > 0 {
        lemma_reports_are_kept(run.step(outcomes[0]), outcomes.drop_first(), k);
    }
}

/// A second run over the same videos starts no process. Take a run without overwriting
/// that went through all its videos and created the directories of every job that it did
/// not skip. In a run over the same videos that finds the scene directories as the first
/// run left them, every action is a look at a scene directory: no process is run and
/// nothing is removed or created. Every video is reported as skipped, and the scene
/// directories stay as they were.
pub proof fn lemma_second_run_skips_all(
    run: BatchView,
    scenes: Set<Seq<char>>,
    first: Seq<bool>,
    second: Seq<bool>,
)
    requires
        run.wf(),
        run.reports.len() == 0,
        run.state is Pending,
        !run.ctx.force_overwrite,
        run.probes_are_true(scenes, first),
        run.after(first).is_finished(),
        run.after(first).every_scene_was_created(),
        run.probes_are_true(run.scenes_after_run(scenes, first), second),
    ensures
        forall|i: int|
            0 <= i < run.trace(second).len() ==> (#[trigger] run.trace(second)[i])
                is ProbeSceneDir,
        forall|k: int|
            0 <= k < run.after(second).reports.len() ==> (#[trigger] run.after(second).reports[k])
                == JobReport::Skipped,
        run.scenes_after_run(run.scenes_after_run(scenes, first), second) == run.scenes_after_run(
            scenes,
            first,
        ),
{
    let done = run.after(first);
    let left = run.scenes_after_run(scenes, first);
    lemma_scenes_follow(run, scenes, first);
    lemma_jobs_are_kept(run, first);
    assert forall|k: int| 0 <= k < run.jobs.len() implies left.contains(
        #[trigger] run.jobs[k].scene_dir,
    ) by {
        assert(left.contains(done.jobs[k].scene_dir) || done.reports[k] == JobReport::Failed(
            Failure::CreateDirs,
        ));
        assert(done.reports[k] != JobReport::Failed(Failure::CreateDirs));
    }
    lemma_all_skipped(run, left, second);
}

/// A run keeps its jobs and its settings.
pub proof fn lemma_jobs_are_kept(run: BatchView, outcomes: Seq<bool>)
    ensures
        run.after(outcomes).jobs == run.jobs,
        run.after(outcomes).ctx == run.ctx,
    decreases outcomes.len(),
{
    if outcomes.len() > 0 {
        lemma_jobs_are_kept(run.step(outcomes[0]), outcomes.drop_first());
    }
}

} // verus!
