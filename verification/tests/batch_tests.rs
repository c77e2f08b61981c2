use polyfjord3d::batch::{conclude, plan_jobs, Batch, JobPlan, JobReport};
use polyfjord3d::job::{Action, Failure, JobState, Pipeline, SceneJob, Step, Toolchain};
use polyfjord3d::tool::Tool;
use std::collections::HashSet;

fn context(tool: Tool, force_overwrite: bool) -> Pipeline {
    Pipeline {
        tool,
        force_overwrite,
        tools: Toolchain {
            ffmpeg: "ffmpeg.exe".to_string(),
            mapper: "glomap.exe".to_string(),
            colmap: "colmap.exe".to_string(),
        },
        threads: 4,
    }
}

fn jobs_of(videos: &[&str]) -> Vec<SceneJob> {
    let mut jobs = Vec::new();
    for video in videos {
        jobs.push(SceneJob::new(video, "scenes").unwrap());
    }
    jobs
}

/// A disk that holds directories only, and processes that fail on request: a process
/// fails where its step and video are listed in `failing`.
struct World {
    dirs: HashSet<String>,
    failing: Vec<(Step, String)>,
    ran: Vec<(Step, String)>,
    lines: Vec<String>,
    removed: Vec<String>,
}

fn world_with(dirs: &[&str], failing: &[(Step, &str)]) -> World {
    let mut set = HashSet::new();
    for dir in dirs {
        set.insert(dir.to_string());
    }
    let mut fails = Vec::new();
    for (step, video) in failing {
        fails.push((*step, video.to_string()));
    }
    World { dirs: set, failing: fails, ran: Vec::new(), lines: Vec::new(), removed: Vec::new() }
}

fn perform(world: &mut World, job: &SceneJob, action: Action) -> bool {
    match action {
        Action::ProbeSceneDir { path } => world.dirs.contains(&path),
        Action::ProbeModel { path } => world.dirs.contains(&path),
        Action::RemoveSceneDir { path } => {
            let prefix = format!("{}/", path);
            world.dirs.retain(|dir| *dir != path && !dir.starts_with(&prefix));
            world.removed.push(path);
            true
        }
        Action::CreateDirs { images, sparse } => {
            world.dirs.insert(job.scene_dir.clone());
            world.dirs.insert(images);
            world.dirs.insert(sparse);
            true
        }
        Action::Run { step, command } => {
            assert!(world.dirs.contains(&job.images_dir), "{:?} ran without directories", command);
            world.ran.push((step, job.name.clone()));
            world.lines.push(format!("{} {}", command.program, command.args.join(" ")));
            if world.failing.contains(&(step, job.name.clone())) {
                return false;
            }
            if step == Step::Mapper {
                world.dirs.insert(format!("{}/0", job.sparse_dir));
            }
            true
        }
    }
}

fn run_all(world: &mut World, ctx: Pipeline, jobs: Vec<SceneJob>) -> Batch {
    let mut batch = Batch::new(ctx, jobs);
    let mut rounds = 0;
    while let Some(action) = batch.pending() {
        let job = batch.current().unwrap().clone();
        let outcome = perform(world, &job, action);
        batch = batch.advance(outcome);
        rounds += 1;
        assert!(rounds <= 1000);
    }
    batch
}

#[test]
fn one_clip_with_glomap_goes_through_the_whole_pipeline() {
    let mut world = world_with(&["scenes"], &[]);
    let batch = run_all(&mut world, context(Tool::Glomap, false), jobs_of(&["clip.mp4"]));
    assert!(batch.is_finished());
    assert_eq!(batch.reports(), &vec![JobReport::Finished { exported: true }]);
    assert_eq!(batch.exit_code(), 0);
    assert!(world.dirs.contains("scenes/clip/images"));
    assert!(world.dirs.contains("scenes/clip/sparse"));
    assert!(world.dirs.contains("scenes/clip/sparse/0"));
    let clip = "clip".to_string();
    assert_eq!(
        world.ran,
        vec![
            (Step::ExtractFrames, clip.clone()),
            (Step::FeatureExtractor, clip.clone()),
            (Step::SequentialMatcher, clip.clone()),
            (Step::Mapper, clip.clone()),
            (Step::NormalizeModel, clip.clone()),
            (Step::ExportText, clip.clone()),
        ]
    );
    assert_eq!(
        world.lines,
        vec![
            "ffmpeg.exe -i clip.mp4 -qscale:v 2 scenes/clip/images/frame_%06d.jpg",
            "colmap.exe feature_extractor --database_path scenes/clip/database.db --image_path scenes/clip/images --ImageReader.single_camera 1 --SiftExtraction.use_gpu 1 --SiftExtraction.max_image_size 4096",
            "colmap.exe sequential_matcher --database_path scenes/clip/database.db --SequentialMatching.overlap 15",
            "glomap.exe mapper --database_path scenes/clip/database.db --image_path scenes/clip/images --output_path scenes/clip/sparse",
            "colmap.exe model_converter --input_path scenes/clip/sparse/0 --output_path scenes/clip/sparse/0 --output_type TXT",
            "colmap.exe model_converter --input_path scenes/clip/sparse/0 --output_path scenes/clip/sparse --output_type TXT",
        ]
    );
}

#[test]
fn a_failure_of_one_video_leaves_the_next_untouched() {
    let mut world = world_with(&["scenes"], &[(Step::SequentialMatcher, "first")]);
    let batch = run_all(
        &mut world,
        context(Tool::Glomap, false),
        jobs_of(&["videos/first.mp4", "videos/second.mov"]),
    );
    assert!(batch.is_finished());
    assert_eq!(
        batch.reports(),
        &vec![
            JobReport::Failed(Failure::StepFailed(Step::SequentialMatcher)),
            JobReport::Finished { exported: true },
        ]
    );
    assert!(!batch.reports()[0].succeeded());
    assert!(batch.reports()[1].succeeded());
    assert_eq!(batch.exit_code(), 0);
    let first: Vec<Step> =
        world.ran.iter().filter(|(_, video)| video == "first").map(|(step, _)| *step).collect();
    assert_eq!(first, vec![Step::ExtractFrames, Step::FeatureExtractor, Step::SequentialMatcher]);
    let second: Vec<Step> =
        world.ran.iter().filter(|(_, video)| video == "second").map(|(step, _)| *step).collect();
    assert_eq!(
        second,
        vec![
            Step::ExtractFrames,
            Step::FeatureExtractor,
            Step::SequentialMatcher,
            Step::Mapper,
            Step::NormalizeModel,
            Step::ExportText,
        ]
    );
}

#[test]
fn a_second_run_starts_no_process() {
    let mut world = world_with(&["scenes"], &[(Step::Mapper, "b")]);
    let videos = ["a.mp4", "b.mp4", "c.mp4"];
    let first = run_all(&mut world, context(Tool::Glomap, false), jobs_of(&videos));
    assert_eq!(
        first.reports(),
        &vec![
            JobReport::Finished { exported: true },
            JobReport::Failed(Failure::StepFailed(Step::Mapper)),
            JobReport::Finished { exported: true },
        ]
    );
    let dirs_after_first = world.dirs.clone();
    world.ran.clear();
    let second = run_all(&mut world, context(Tool::Glomap, false), jobs_of(&videos));
    assert_eq!(world.ran, vec![]);
    assert_eq!(world.removed, Vec::<String>::new());
    assert_eq!(world.dirs, dirs_after_first);
    assert_eq!(
        second.reports(),
        &vec![JobReport::Skipped, JobReport::Skipped, JobReport::Skipped]
    );
}

#[test]
fn an_existing_scene_counts_as_a_success() {
    let mut world = world_with(&["scenes", "scenes/clip"], &[]);
    let batch = run_all(&mut world, context(Tool::Colmap, false), jobs_of(&["clip.mp4"]));
    assert_eq!(batch.reports(), &vec![JobReport::Skipped]);
    assert!(batch.reports()[0].succeeded());
    assert_eq!(world.ran, vec![]);
    assert_eq!(world.removed, Vec::<String>::new());
    assert!(world.dirs.contains("scenes/clip"));
    assert!(!world.dirs.contains("scenes/clip/images"));
}

#[test]
fn a_forced_run_removes_the_scene_before_it_runs_anything() {
    let mut world =
        world_with(&["scenes", "scenes/clip", "scenes/clip/sparse", "scenes/clip/sparse/0"], &[
            (Step::Mapper, "clip"),
        ]);
    let batch = run_all(&mut world, context(Tool::Colmap, true), jobs_of(&["clip.mp4"]));
    assert_eq!(batch.reports(), &vec![JobReport::Failed(Failure::StepFailed(Step::Mapper))]);
    assert_eq!(world.removed, vec!["scenes/clip".to_string()]);
    assert!(!world.dirs.contains("scenes/clip/sparse/0"));
    assert!(world.dirs.contains("scenes/clip/images"));
}

#[test]
fn a_run_without_videos_is_finished_at_once() {
    let batch = Batch::new(context(Tool::Glomap, false), Vec::new());
    assert!(batch.is_finished());
    assert_eq!(batch.pending(), None);
    assert_eq!(batch.current(), None);
    assert_eq!(batch.reports(), &Vec::<JobReport>::new());
    let batch = batch.advance(true);
    assert!(batch.is_finished());
    assert_eq!(batch.exit_code(), 0);
}

#[test]
fn a_run_takes_up_its_videos_in_order() {
    let batch = Batch::new(context(Tool::Glomap, false), jobs_of(&["a.mp4", "b.mp4"]));
    assert_eq!(batch.state(), JobState::Pending);
    assert_eq!(batch.current().unwrap().name, "a");
    assert_eq!(batch.pending(), Some(Action::ProbeSceneDir { path: "scenes/a".to_string() }));
    let batch = batch.advance(true);
    assert_eq!(batch.current().unwrap().name, "b");
    assert_eq!(batch.pending(), Some(Action::ProbeSceneDir { path: "scenes/b".to_string() }));
    let batch = batch.advance(false);
    assert_eq!(batch.state(), JobState::Cleared);
    assert_eq!(batch.reports(), &vec![JobReport::Skipped]);
}

#[test]
fn a_state_at_rest_has_its_report() {
    assert_eq!(conclude(JobState::SkippedExisting), JobReport::Skipped);
    assert_eq!(conclude(JobState::Done), JobReport::Finished { exported: false });
    assert_eq!(conclude(JobState::ExportedText), JobReport::Finished { exported: true });
    assert_eq!(
        conclude(JobState::Failed(Failure::CreateDirs)),
        JobReport::Failed(Failure::CreateDirs)
    );
}

#[test]
fn a_video_that_names_no_file_is_set_aside_alone() {
    let videos = vec![
        "a.mp4".to_string(),
        "".to_string(),
        "videos/b.mov".to_string(),
        "videos/..".to_string(),
        "c".to_string(),
    ];
    let plan = plan_jobs(&videos, "scenes");
    assert_eq!(plan.rejected, vec!["".to_string(), "videos/..".to_string()]);
    let mut scenes = Vec::new();
    for job in &plan.jobs {
        scenes.push(job.scene_dir.clone());
    }
    assert_eq!(scenes, vec!["scenes/a", "scenes/b", "scenes/c"]);
    assert_eq!(plan.jobs, jobs_of(&["a.mp4", "videos/b.mov", "c"]));
}

#[test]
fn no_videos_give_no_jobs() {
    assert_eq!(plan_jobs(&Vec::new(), "scenes"), JobPlan { jobs: Vec::new(), rejected: Vec::new() });
}
