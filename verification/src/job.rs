//! One video's job: its directories, and the state machine that takes it through the
//! pipeline.
//!
//! The machine never acts. In each state it names the one action that is due, and the
//! caller reports how that action ended: `true` where a probe found what it looked for or
//! an operation succeeded, `false` otherwise.
use crate::command::{
    convert_model, converter_command, extract_features, extract_frames, extractor_command,
    frames_command, map_scene, mapper_command, match_features, matcher_command, CommandLine,
    CommandLineView,
};
use crate::paths::{base_name, file_stem, join, joined};
use crate::tool::Tool;
use vstd::prelude::*;
use vstd::string::*;

verus! {

/// The paths of one video's job. They follow from the video's base name and the scenes
/// directory.
#[derive(Debug, PartialEq, Eq)]
pub struct SceneJob {
    /// The base name of the video, which names the scene.
    pub name: String,
    pub video_path: String,
    pub scene_dir: String,
    pub images_dir: String,
    pub sparse_dir: String,
    pub database_path: String,
}

/// What a `SceneJob` holds, as text.
pub struct SceneJobView {
    pub name: Seq<char>,
    pub video_path: Seq<char>,
    pub scene_dir: Seq<char>,
    pub images_dir: Seq<char>,
    pub sparse_dir: Seq<char>,
    pub database_path: Seq<char>,
}

impl View for SceneJob {
    type V = SceneJobView;

    open spec fn view(&self) -> SceneJobView {
        SceneJobView {
            name: self.name@,
            video_path: self.video_path@,
            scene_dir: self.scene_dir@,
            images_dir: self.images_dir@,
            sparse_dir: self.sparse_dir@,
            database_path: self.database_path@,
        }
    }
}

impl Clone for SceneJob {
    fn clone(&self) -> (out: Self)
        ensures
            out@ == self@,
    {
        SceneJob {
            name: self.name.clone(),
            video_path: self.video_path.clone(),
            scene_dir: self.scene_dir.clone(),
            images_dir: self.images_dir.clone(),
            sparse_dir: self.sparse_dir.clone(),
            database_path: self.database_path.clone(),
        }
    }
}

/// The job of `video` below the scenes directory `root`: the scene is named after the
/// video's base name and holds `images`, `sparse` and `database.db`. There is none where
/// the video has no base name.
pub open spec fn scene_job(video: Seq<char>, root: Seq<char>) -> Option<SceneJobView> {
    match base_name(video) {
        Some(name) => {
            let scene = joined(root, name);
            Some(
                SceneJobView {
                    name,
                    video_path: video,
                    scene_dir: scene,
                    images_dir: joined(scene, "images"@),
                    sparse_dir: joined(scene, "sparse"@),
                    database_path: joined(scene, "database.db"@),
                },
            )
        },
        None => None,
    }
}

/// Where the mapper leaves its first model.
pub open spec fn model_dir(job: SceneJobView) -> Seq<char> {
    joined(job.sparse_dir, "0"@)
}

impl SceneJob {
    /// The job of `video` below the scenes directory `scenes_root`.
    pub fn new(video: &str, scenes_root: &str) -> (out: Option<SceneJob>)
        ensures
            out is Some == scene_job(video@, scenes_root@) is Some,
            out matches Some(job) ==> job@ == scene_job(video@, scenes_root@)->0,
    {
        match file_stem(video) {
            Some(name) => {
                let scene_dir = join(scenes_root, name.as_str());
                let images_dir = join(scene_dir.as_str(), "images");
                let sparse_dir = join(scene_dir.as_str(), "sparse");
                let database_path = join(scene_dir.as_str(), "database.db");
                Some(
                    SceneJob {
                        name,
                        video_path: String::from_str(video),
                        scene_dir,
                        images_dir,
                        sparse_dir,
                        database_path,
                    },
                )
            },
            None => None,
        }
    }
}

/// The executables that the steps run.
#[derive(Debug, PartialEq, Eq)]
pub struct Toolchain {
    /// The frame extractor.
    pub ffmpeg: String,
    /// The reconstruction tool, which maps.
    pub mapper: String,
    /// COLMAP, which extracts, matches and converts: the reconstruction tool itself or its
    /// companion.
    pub colmap: String,
}

/// What a `Toolchain` holds, as text.
pub struct ToolchainView {
    pub ffmpeg: Seq<char>,
    pub mapper: Seq<char>,
    pub colmap: Seq<char>,
}

impl View for Toolchain {
    type V = ToolchainView;

    open spec fn view(&self) -> ToolchainView {
        ToolchainView { ffmpeg: self.ffmpeg@, mapper: self.mapper@, colmap: self.colmap@ }
    }
}

impl Clone for Toolchain {
    fn clone(&self) -> (out: Self)
        ensures
            out@ == self@,
    {
        Toolchain {
            ffmpeg: self.ffmpeg.clone(),
            mapper: self.mapper.clone(),
            colmap: self.colmap.clone(),
        }
    }
}

/// What every job of one run shares.
#[derive(Debug, PartialEq, Eq)]
pub struct Pipeline {
    pub tool: Tool,
    /// Whether a scene that exists is removed and built again.
    pub force_overwrite: bool,
    pub tools: Toolchain,
    /// The number of threads that the mapper is told, where it takes one.
    pub threads: usize,
}

/// What a `Pipeline` holds, as plain values.
pub struct PipelineView {
    pub tool: Tool,
    pub force_overwrite: bool,
    pub tools: ToolchainView,
    pub threads: nat,
}

impl View for Pipeline {
    type V = PipelineView;

    open spec fn view(&self) -> PipelineView {
        PipelineView {
            tool: self.tool,
            force_overwrite: self.force_overwrite,
            tools: self.tools@,
            threads: self.threads as nat,
        }
    }
}

/// A step of the pipeline that runs a process.
#[derive(Clone, Copy, Debug, PartialEq, Eq, Structural)]
pub enum Step {
    ExtractFrames,
    FeatureExtractor,
    SequentialMatcher,
    Mapper,
    /// The conversion of a model onto itself that one tool needs before the export.
    NormalizeModel,
    ExportText,
}

/// What went wrong in a job.
#[derive(Clone, Copy, Debug, PartialEq, Eq, Structural)]
pub enum Failure {
    /// The scene directory that exists could not be removed.
    RemoveScene,
    /// The directories of the job could not be created.
    CreateDirs,
    /// The process of a step could not be started or ended with a failure.
    StepFailed(Step),
}

impl Step {
    /// The name under which the step is reported.
    pub open spec fn name_text(self) -> Seq<char> {
        match self {
            Step::ExtractFrames => "extract_frames"@,
            Step::FeatureExtractor => "feature_extractor"@,
            Step::SequentialMatcher => "sequential_matcher"@,
            Step::Mapper => "mapper"@,
            Step::NormalizeModel => "model_converter (for glomap)"@,
            Step::ExportText => "model_converter"@,
        }
    }

    /// The name under which the step is reported.
    pub fn name(self) -> (out: &'static str)
        ensures
            out@ == self.name_text(),
    {
        match self {
            Step::ExtractFrames => "extract_frames",
            Step::FeatureExtractor => "feature_extractor",
            Step::SequentialMatcher => "sequential_matcher",
            Step::Mapper => "mapper",
            Step::NormalizeModel => "model_converter (for glomap)",
            Step::ExportText => "model_converter",
        }
    }
}

impl Failure {
    /// The name of what failed.
    pub open spec fn stage_text(self) -> Seq<char> {
        match self {
            Failure::RemoveScene => "remove_scene"@,
            Failure::CreateDirs => "create_dirs"@,
            Failure::StepFailed(step) => step.name_text(),
        }
    }

    /// What is reported of the failure for the video named `video`.
    pub open spec fn message_text(self, video: Seq<char>) -> Seq<char> {
        self.stage_text() + " failed for "@ + video
    }

    /// The name of what failed.
    pub fn stage(self) -> (out: &'static str)
        ensures
            out@ == self.stage_text(),
    {
        match self {
            Failure::RemoveScene => "remove_scene",
            Failure::CreateDirs => "create_dirs",
            Failure::StepFailed(step) => step.name(),
        }
    }

    /// What is reported of the failure for the video named `video`.
    pub fn message(self, video: &str) -> (out: String)
        ensures
            out@ == self.message_text(video@),
    {
        let mut out = String::from_str(self.stage());
        out.append(" failed for ");
        out.append(video);
        out
    }
}

/// Where a job stands.
#[derive(Clone, Copy, Debug, PartialEq, Eq, Structural)]
pub enum JobState {
    /// Nothing is known yet; the scene directory is to be probed.
    Pending,
    /// The scene exists and is kept: the job is over, with success and without any work.
    SkippedExisting,
    /// The scene exists and is to be removed.
    Overwriting,
    /// No scene directory is left, or none was there; the job's directories are to be
    /// created.
    Cleared,
    /// The directories exist; the frames are to be extracted.
    Prepared,
    FramesExtracted,
    FeaturesExtracted,
    FeaturesMatched,
    /// The mapper has run; its model is to be probed.
    Reconstructed,
    /// The mapper left a model, which is to be exported.
    ModelFound,
    /// The model was rewritten in place and is to be exported.
    ModelNormalized,
    /// The model was exported as text. Nothing is left to do.
    ExportedText,
    /// The job is over, with success.
    Done,
    /// The job is over, with a failure.
    Failed(Failure),
}

/// What the caller is asked to do for a job.
#[derive(Debug, PartialEq, Eq)]
pub enum Action {
    /// Find out whether the scene directory exists.
    ProbeSceneDir { path: String },
    /// Remove the scene directory with all that is in it.
    RemoveSceneDir { path: String },
    /// Create the two directories, and with them the scene directory above them.
    CreateDirs { images: String, sparse: String },
    /// Run a process and wait for it.
    Run { step: Step, command: CommandLine },
    /// Find out whether the mapper left a model.
    ProbeModel { path: String },
}

/// What an `Action` holds, as text.
pub enum ActionView {
    ProbeSceneDir { path: Seq<char> },
    RemoveSceneDir { path: Seq<char> },
    CreateDirs { images: Seq<char>, sparse: Seq<char> },
    Run { step: Step, command: CommandLineView },
    ProbeModel { path: Seq<char> },
}

impl View for Action {
    type V = ActionView;

    open spec fn view(&self) -> ActionView {
        match self {
            Action::ProbeSceneDir { path } => ActionView::ProbeSceneDir { path: path@ },
            Action::RemoveSceneDir { path } => ActionView::RemoveSceneDir { path: path@ },
            Action::CreateDirs { images, sparse } => ActionView::CreateDirs {
                images: images@,
                sparse: sparse@,
            },
            Action::Run { step, command } => ActionView::Run { step: *step, command: command@ },
            Action::ProbeModel { path } => ActionView::ProbeModel { path: path@ },
        }
    }
}

/// The view of an action that may be missing.
pub open spec fn action_view(action: Option<Action>) -> Option<ActionView> {
    match action {
        Some(a) => Some(a@),
        None => None,
    }
}

/// The conversion that exports the model: from the model's directory to the one above it.
pub open spec fn export_action(ctx: PipelineView, job: SceneJobView) -> ActionView {
    ActionView::Run {
        step: Step::ExportText,
        command: converter_command(ctx.tools.colmap, model_dir(job), job.sparse_dir),
    }
}

/// The conversion that rewrites the model in place.
pub open spec fn normalize_action(ctx: PipelineView, job: SceneJobView) -> ActionView {
    ActionView::Run {
        step: Step::NormalizeModel,
        command: converter_command(ctx.tools.colmap, model_dir(job), model_dir(job)),
    }
}

/// The action that is due in `state`; none where the job is at rest.
pub open spec fn action_of(ctx: PipelineView, job: SceneJobView, state: JobState) -> Option<
    ActionView,
> {
    match state {
        JobState::Pending => Some(ActionView::ProbeSceneDir { path: job.scene_dir }),
        JobState::Overwriting => Some(ActionView::RemoveSceneDir { path: job.scene_dir }),
        JobState::Cleared => Some(
            ActionView::CreateDirs { images: job.images_dir, sparse: job.sparse_dir },
        ),
        JobState::Prepared => Some(
            ActionView::Run {
                step: Step::ExtractFrames,
                command: frames_command(ctx.tools.ffmpeg, job.video_path, job.images_dir),
            },
        ),
        JobState::FramesExtracted => Some(
            ActionView::Run {
                step: Step::FeatureExtractor,
                command: extractor_command(
                    ctx.tools.colmap,
                    job.database_path,
                    job.images_dir,
                    ctx.tool,
                ),
            },
        ),
        JobState::FeaturesExtracted => Some(
            ActionView::Run {
                step: Step::SequentialMatcher,
                command: matcher_command(ctx.tools.colmap, job.database_path, ctx.tool),
            },
        ),
        JobState::FeaturesMatched => Some(
            ActionView::Run {
                step: Step::Mapper,
                command: mapper_command(
                    ctx.tools.mapper,
                    job.database_path,
                    job.images_dir,
                    job.sparse_dir,
                    ctx.tool,
                    ctx.threads,
                ),
            },
        ),
        JobState::Reconstructed => Some(ActionView::ProbeModel { path: model_dir(job) }),
        JobState::ModelFound => if ctx.tool.export_pass_count() > 1 {
            Some(normalize_action(ctx, job))
        } else {
            Some(export_action(ctx, job))
        },
        JobState::ModelNormalized => Some(export_action(ctx, job)),
        JobState::SkippedExisting | JobState::ExportedText | JobState::Done | JobState::Failed(
            _,
        ) => None,
    }
}

/// The state that follows when a step's process ended: `next` on success, a failure of
/// `step` otherwise.
pub open spec fn after_step(step: Step, next: JobState, ok: bool) -> JobState {
    if ok {
        next
    } else {
        JobState::Failed(Failure::StepFailed(step))
    }
}

/// The state that follows `state` when its action ended with `outcome`. A job that is over
/// stays as it is.
pub open spec fn next_state(ctx: PipelineView, state: JobState, outcome: bool) -> JobState {
    match state {
        JobState::Pending => if !outcome {
            JobState::Cleared
        } else if ctx.force_overwrite {
            JobState::Overwriting
        } else {
            JobState::SkippedExisting
        },
        JobState::Overwriting => if outcome {
            JobState::Cleared
        } else {
            JobState::Failed(Failure::RemoveScene)
        },
        JobState::Cleared => if outcome {
            JobState::Prepared
        } else {
            JobState::Failed(Failure::CreateDirs)
        },
        JobState::Prepared => after_step(Step::ExtractFrames, JobState::FramesExtracted, outcome),
        JobState::FramesExtracted => after_step(
            Step::FeatureExtractor,
            JobState::FeaturesExtracted,
            outcome,
        ),
        JobState::FeaturesExtracted => after_step(
            Step::SequentialMatcher,
            JobState::FeaturesMatched,
            outcome,
        ),
        JobState::FeaturesMatched => after_step(Step::Mapper, JobState::Reconstructed, outcome),
        JobState::Reconstructed => if outcome {
            JobState::ModelFound
        } else {
            JobState::Done
        },
        JobState::ModelFound => if ctx.tool.export_pass_count() > 1 {
            after_step(Step::NormalizeModel, JobState::ModelNormalized, outcome)
        } else {
            after_step(Step::ExportText, JobState::ExportedText, outcome)
        },
        JobState::ModelNormalized => after_step(Step::ExportText, JobState::ExportedText, outcome),
        JobState::ExportedText => JobState::Done,
        JobState::SkippedExisting | JobState::Done | JobState::Failed(_) => state,
    }
}

impl JobState {
    /// The job is over: it was skipped, is done or has failed.
    pub open spec fn is_final(self) -> bool {
        self is SkippedExisting || self is Done || self is Failed
    }

    /// No action is due: the job is over, or its export is written.
    pub open spec fn is_at_rest(self) -> bool {
        self.is_final() || self is ExportedText
    }

    /// The job ended, or will end, without a failure.
    pub open spec fn is_success(self) -> bool {
        self is SkippedExisting || self is Done || self is ExportedText
    }

    /// Whether no action is due.
    pub fn at_rest(self) -> (out: bool)
        ensures
            out == self.is_at_rest(),
    {
        match self {
            JobState::SkippedExisting | JobState::ExportedText | JobState::Done | JobState::Failed(
                _,
            ) => true,
            _ => false,
        }
    }
}

/// The state of a job after the actions that were due ended with `outcomes`, one after
/// the other.
pub open spec fn job_run(ctx: PipelineView, state: JobState, outcomes: Seq<bool>) -> JobState
    decreases outcomes.len(),
{
    if outcomes.len() == 0 {
        state
    } else {
        job_run(ctx, next_state(ctx, state, outcomes[0]), outcomes.drop_first())
    }
}

/// The actions that were due while a job went through `outcomes`, in order and up to the
/// point where it came to rest: the one due in `state` first, the one due after the last
/// outcome last.
pub open spec fn job_trace(
    ctx: PipelineView,
    job: SceneJobView,
    state: JobState,
    outcomes: Seq<bool>,
) -> Seq<ActionView>
    decreases outcomes.len(),
{
    match action_of(ctx, job, state) {
        None => Seq::empty(),
        Some(action) => if outcomes.len() == 0 {
            seq![action]
        } else {
            seq![action] + job_trace(
                ctx,
                job,
                next_state(ctx, state, outcomes[0]),
                outcomes.drop_first(),
            )
        },
    }
}

/// A job that is over stays as it is.
pub proof fn lemma_final_stays(ctx: PipelineView, state: JobState, outcomes: Seq<bool>)
    requires
        state.is_final(),
    ensures
        job_run(ctx, state, outcomes) == state,
    decreases outcomes.len(),
{
    if outcomes.len() > 0 {
        lemma_final_stays(ctx, state, outcomes.drop_first());
    }
}

/// A scene that exists is kept where overwriting was not asked for. The job does nothing
/// but look whether the scene is there: no process is run and the directory is neither
/// removed nor created. The job ends at once, skipped, and counts as a success.
pub proof fn lemma_existing_scene_is_skipped(
    ctx: PipelineView,
    job: SceneJobView,
    outcomes: Seq<bool>,
)
    requires
        !ctx.force_overwrite,
        outcomes.len() > 0,
        outcomes[0],
    ensures
        job_trace(ctx, job, JobState::Pending, outcomes) == seq![
            ActionView::ProbeSceneDir { path: job.scene_dir },
        ],
        job_run(ctx, JobState::Pending, outcomes) == JobState::SkippedExisting,
        JobState::SkippedExisting.is_final(),
        JobState::SkippedExisting.is_success(),
{
    lemma_final_stays(ctx, JobState::SkippedExisting, outcomes.drop_first());
    assert(job_trace(ctx, job, JobState::SkippedExisting, outcomes.drop_first()) == Seq::<
        ActionView,
    >::empty());
}

/// A process is run only after the directories were created, and after the removal where
/// one was due.
proof fn lemma_runs_come_after_preparation(
    ctx: PipelineView,
    job: SceneJobView,
    state: JobState,
    outcomes: Seq<bool>,
    i: int,
)
    requires
        state is Overwriting || state is Cleared || state.is_final(),
        0 <= i < job_trace(ctx, job, state, outcomes).len(),
        job_trace(ctx, job, state, outcomes)[i] is Run,
    ensures
        match state {
            JobState::Overwriting => {
                &&& i >= 2
                &&& outcomes.len() >= 2
                &&& outcomes[0]
                &&& outcomes[1]
                &&& job_trace(ctx, job, state, outcomes)[1] == (ActionView::CreateDirs {
                    images: job.images_dir,
                    sparse: job.sparse_dir,
                })
            },
            JobState::Cleared => i >= 1 && outcomes.len() >= 1 && outcomes[0],
            _ => false,
        },
    decreases outcomes.len(),
{
    reveal_with_fuel(job_trace, 3);
    let trace = job_trace(ctx, job, state, outcomes);
    if state is Overwriting {
        assert(i >= 1);
        assert(outcomes.len() >= 1);
        let rest = outcomes.drop_first();
        let next = next_state(ctx, state, outcomes[0]);
        let tail = job_trace(ctx, job, next, rest);
        assert(trace[i] == tail[i - 1]);
        lemma_runs_come_after_preparation(ctx, job, next, rest, i - 1);
        assert(tail[0] == trace[1]);
    } else if state is Cleared {
        assert(i >= 1);
        let rest = outcomes.drop_first();
        let next = next_state(ctx, state, outcomes[0]);
        let tail = job_trace(ctx, job, next, rest);
        assert(trace[i] == tail[i - 1]);
        if !outcomes[0] {
            assert(tail.len() == 0);
        }
    }
}

/// The action at place `at` of a job's trace is the creation of its directories, and it
/// succeeded.
pub open spec fn created_at(
    ctx: PipelineView,
    job: SceneJobView,
    outcomes: Seq<bool>,
    at: int,
) -> bool {
    &&& 0 <= at < outcomes.len()
    &&& outcomes[at]
    &&& at < job_trace(ctx, job, JobState::Pending, outcomes).len()
    &&& job_trace(ctx, job, JobState::Pending, outcomes)[at] == (ActionView::CreateDirs {
        images: job.images_dir,
        sparse: job.sparse_dir,
    })
}

/// The directories of a job are created before any of its steps runs. Whatever the
/// outcomes are: where the job comes to run a process at all, the creation of its
/// directories is among the actions before it, and it succeeded.
pub proof fn lemma_directories_come_first(ctx: PipelineView, job: SceneJobView, outcomes: Seq<bool>)
    ensures
        forall|i: int|
            0 <= i < job_trace(ctx, job, JobState::Pending, outcomes).len() && (
            #[trigger] job_trace(ctx, job, JobState::Pending, outcomes)[i]) is Run ==> exists|
                at: int,
            | at < i && #[trigger] created_at(ctx, job, outcomes, at),
{
    let trace = job_trace(ctx, job, JobState::Pending, outcomes);
    assert forall|i: int| 0 <= i < trace.len() && (#[trigger] trace[i]) is Run implies exists|
        at: int,
    | at < i && #[trigger] created_at(ctx, job, outcomes, at) by {
        assert(i >= 1);
        let rest = outcomes.drop_first();
        let next = next_state(ctx, JobState::Pending, outcomes[0]);
        let tail = job_trace(ctx, job, next, rest);
        assert(trace == seq![ActionView::ProbeSceneDir { path: job.scene_dir }] + tail);
        assert(trace[i] == tail[i - 1]);
        lemma_runs_come_after_preparation(ctx, job, next, rest, i - 1);
        if next is Overwriting {
            assert(tail[1] == trace[2]);
            assert(rest[1] == outcomes[2]);
            assert(created_at(ctx, job, outcomes, 2));
        } else {
            assert(next is Cleared);
            reveal_with_fuel(job_trace, 2);
            assert(tail[0] == trace[1]);
            assert(rest[0] == outcomes[1]);
            assert(created_at(ctx, job, outcomes, 1));
        }
    }
}

/// A scene that exists is removed and created anew before any step runs, where overwriting
/// was asked for. Whatever the outcomes are: where the job comes to run a process at all,
/// the removal of the scene directory and the creation of the job's directories were its
/// second and third action, in this order, and both succeeded.
pub proof fn lemma_overwrite_clears_first(ctx: PipelineView, job: SceneJobView, outcomes: Seq<bool>)
    requires
        ctx.force_overwrite,
        outcomes.len() > 0,
        outcomes[0],
    ensures
        forall|i: int|
            0 <= i < job_trace(ctx, job, JobState::Pending, outcomes).len() && (
            #[trigger] job_trace(ctx, job, JobState::Pending, outcomes)[i]) is Run ==> {
                &&& i >= 3
                &&& outcomes.len() >= 3
                &&& job_trace(ctx, job, JobState::Pending, outcomes)[1]
                    == (ActionView::RemoveSceneDir { path: job.scene_dir })
                &&& outcomes[1]
                &&& job_trace(ctx, job, JobState::Pending, outcomes)[2] == (ActionView::CreateDirs {
                    images: job.images_dir,
                    sparse: job.sparse_dir,
                })
                &&& outcomes[2]
            },
{
    let trace = job_trace(ctx, job, JobState::Pending, outcomes);
    let rest = outcomes.drop_first();
    let tail = job_trace(ctx, job, JobState::Overwriting, rest);
    assert(trace == seq![ActionView::ProbeSceneDir { path: job.scene_dir }] + tail);
    assert forall|i: int| 0 <= i < trace.len() && (#[trigger] trace[i]) is Run implies {
        &&& i >= 3
        &&& outcomes.len() >= 3
        &&& trace[1] == (ActionView::RemoveSceneDir { path: job.scene_dir })
        &&& outcomes[1]
        &&& trace[2] == (ActionView::CreateDirs { images: job.images_dir, sparse: job.sparse_dir })
        &&& outcomes[2]
    } by {
        assert(i >= 1);
        assert(trace[i] == tail[i - 1]);
        lemma_runs_come_after_preparation(ctx, job, JobState::Overwriting, rest, i - 1);
        assert(tail[0] == trace[1]);
        assert(tail[1] == trace[2]);
        assert(rest[0] == outcomes[1]);
        assert(rest[1] == outcomes[2]);
    }
}

fn export_model(ctx: &Pipeline, job: &SceneJob) -> (out: Action)
    ensures
        out@ == export_action(ctx@, job@),
{
    let model = join(job.sparse_dir.as_str(), "0");
    Action::Run {
        step: Step::ExportText,
        command: convert_model(
            ctx.tools.colmap.as_str(),
            model.as_str(),
            job.sparse_dir.as_str(),
        ),
    }
}

/// The action that is due for `job` in `state`.
pub fn job_action(ctx: &Pipeline, job: &SceneJob, state: JobState) -> (out: Option<Action>)
    ensures
        action_view(out) == action_of(ctx@, job@, state),
        out is None == state.is_at_rest(),
{
    match state {
        JobState::Pending => Some(Action::ProbeSceneDir { path: job.scene_dir.clone() }),
        JobState::Overwriting => Some(Action::RemoveSceneDir { path: job.scene_dir.clone() }),
        JobState::Cleared => Some(
            Action::CreateDirs {
                images: job.images_dir.clone(),
                sparse: job.sparse_dir.clone(),
            },
        ),
        JobState::Prepared => Some(
            Action::Run {
                step: Step::ExtractFrames,
                command: extract_frames(
                    ctx.tools.ffmpeg.as_str(),
                    job.video_path.as_str(),
                    job.images_dir.as_str(),
                ),
            },
        ),
        JobState::FramesExtracted => Some(
            Action::Run {
                step: Step::FeatureExtractor,
                command: extract_features(
                    ctx.tools.colmap.as_str(),
                    job.database_path.as_str(),
                    job.images_dir.as_str(),
                    ctx.tool,
                ),
            },
        ),
        JobState::FeaturesExtracted => Some(
            Action::Run {
                step: Step::SequentialMatcher,
                command: match_features(
                    ctx.tools.colmap.as_str(),
                    job.database_path.as_str(),
                    ctx.tool,
                ),
            },
        ),
        JobState::FeaturesMatched => Some(
            Action::Run {
                step: Step::Mapper,
                command: map_scene(
                    ctx.tools.mapper.as_str(),
                    job.database_path.as_str(),
                    job.images_dir.as_str(),
                    job.sparse_dir.as_str(),
                    ctx.tool,
                    ctx.threads,
                ),
            },
        ),
        JobState::Reconstructed => Some(
            Action::ProbeModel { path: join(job.sparse_dir.as_str(), "0") },
        ),
        JobState::ModelFound => if ctx.tool.export_passes() > 1 {
            let model = join(job.sparse_dir.as_str(), "0");
            Some(
                Action::Run {
                    step: Step::NormalizeModel,
                    command: convert_model(
                        ctx.tools.colmap.as_str(),
                        model.as_str(),
                        model.as_str(),
                    ),
                },
            )
        } else {
            Some(export_model(ctx, job))
        },
        JobState::ModelNormalized => Some(export_model(ctx, job)),
        JobState::SkippedExisting | JobState::ExportedText | JobState::Done | JobState::Failed(
            _,
        ) => None,
    }
}

fn step_result(step: Step, next: JobState, ok: bool) -> (out: JobState)
    ensures
        out == after_step(step, next, ok),
{
    if ok {
        next
    } else {
        JobState::Failed(Failure::StepFailed(step))
    }
}

/// The state that follows `state` when its action ended with `outcome`.
pub fn job_advance(ctx: &Pipeline, state: JobState, outcome: bool) -> (out: JobState)
    ensures
        out == next_state(ctx@, state, outcome),
{
    match state {
        JobState::Pending => if !outcome {
            JobState::Cleared
        } else if ctx.force_overwrite {
            JobState::Overwriting
        } else {
            JobState::SkippedExisting
        },
        JobState::Overwriting => if outcome {
            JobState::Cleared
        } else {
            JobState::Failed(Failure::RemoveScene)
        },
        JobState::Cleared => if outcome {
            JobState::Prepared
        } else {
            JobState::Failed(Failure::CreateDirs)
        },
        JobState::Prepared => step_result(Step::ExtractFrames, JobState::FramesExtracted, outcome),
        JobState::FramesExtracted => step_result(
            Step::FeatureExtractor,
            JobState::FeaturesExtracted,
            outcome,
        ),
        JobState::FeaturesExtracted => step_result(
            Step::SequentialMatcher,
            JobState::FeaturesMatched,
            outcome,
        ),
        JobState::FeaturesMatched => step_result(Step::Mapper, JobState::Reconstructed, outcome),
        JobState::Reconstructed => if outcome {
            JobState::ModelFound
        } else {
            JobState::Done
        },
        JobState::ModelFound => if ctx.tool.export_passes() > 1 {
            step_result(Step::NormalizeModel, JobState::ModelNormalized, outcome)
        } else {
            step_result(Step::ExportText, JobState::ExportedText, outcome)
        },
        JobState::ModelNormalized => step_result(
            Step::ExportText,
            JobState::ExportedText,
            outcome,
        ),
        JobState::ExportedText => JobState::Done,
        JobState::SkippedExisting => JobState::SkippedExisting,
        JobState::Done => JobState::Done,
        JobState::Failed(failure) => JobState::Failed(failure),
    }
}

} // verus!
