use polyfjord3d::command::CommandLine;
use polyfjord3d::job::{
    job_action, job_advance, Action, Failure, JobState, Pipeline, SceneJob, Step, Toolchain,
};
use polyfjord3d::tool::Tool;

fn settings(tool: Tool, force_overwrite: bool) -> Pipeline {
    Pipeline {
        tool,
        force_overwrite,
        tools: Toolchain {
            ffmpeg: "ffmpeg.exe".to_string(),
            mapper: "mapper.exe".to_string(),
            colmap: "colmap.exe".to_string(),
        },
        threads: 8,
    }
}

fn clip() -> SceneJob {
    SceneJob::new("videos/clip.mp4", "scenes").unwrap()
}

fn command(program: &str, args: &[&str]) -> CommandLine {
    let mut owned = Vec::new();
    for arg in args {
        owned.push(arg.to_string());
    }
    CommandLine { program: program.to_string(), args: owned }
}

/// Drives one job with the outcomes given and returns the actions that were due and the
/// state in which the outcomes ran out or the job came to rest.
fn drive(ctx: &Pipeline, job: &SceneJob, outcomes: &[bool]) -> (Vec<Action>, JobState) {
    let mut state = JobState::Pending;
    let mut actions = Vec::new();
    let mut next = 0;
    while let Some(action) = job_action(ctx, job, state) {
        actions.push(action);
        if next == outcomes.len() {
            break;
        }
        state = job_advance(ctx, state, outcomes[next]);
        next += 1;
    }
    (actions, state)
}

#[test]
fn a_job_is_named_after_its_video() {
    assert_eq!(
        SceneJob::new("videos/clip.mp4", "scenes"),
        Some(SceneJob {
            name: "clip".to_string(),
            video_path: "videos/clip.mp4".to_string(),
            scene_dir: "scenes/clip".to_string(),
            images_dir: "scenes/clip/images".to_string(),
            sparse_dir: "scenes/clip/sparse".to_string(),
            database_path: "scenes/clip/database.db".to_string(),
        })
    );
}

#[test]
fn a_video_without_a_base_name_has_no_job() {
    assert_eq!(SceneJob::new("", "scenes"), None);
    assert_eq!(SceneJob::new("/", "scenes"), None);
    assert_eq!(SceneJob::new("..", "scenes"), None);
    assert_eq!(SceneJob::new("videos/..", "scenes"), None);
}

#[test]
fn a_job_is_named_after_the_last_component_of_its_video() {
    let job = SceneJob::new("videos/clip.mp4/", "scenes").unwrap();
    assert_eq!(job.name, "clip");
    assert_eq!(job.video_path, "videos/clip.mp4/");
    assert_eq!(job.scene_dir, "scenes/clip");
}

#[test]
fn an_existing_scene_is_skipped_without_any_work() {
    let ctx = settings(Tool::Glomap, false);
    let job = clip();
    let (actions, state) = drive(&ctx, &job, &[true, true, true, true]);
    assert_eq!(actions, vec![Action::ProbeSceneDir { path: "scenes/clip".to_string() }]);
    assert_eq!(state, JobState::SkippedExisting);
    assert!(state.at_rest());
}

#[test]
fn an_existing_scene_is_removed_and_recreated_before_any_step_where_forced() {
    let ctx = settings(Tool::Glomap, true);
    let job = clip();
    let (actions, state) = drive(&ctx, &job, &[true, true, true]);
    assert_eq!(actions.len(), 4);
    assert_eq!(actions[0], Action::ProbeSceneDir { path: "scenes/clip".to_string() });
    assert_eq!(actions[1], Action::RemoveSceneDir { path: "scenes/clip".to_string() });
    assert_eq!(
        actions[2],
        Action::CreateDirs {
            images: "scenes/clip/images".to_string(),
            sparse: "scenes/clip/sparse".to_string(),
        }
    );
    assert!(matches!(actions[3], Action::Run { step: Step::ExtractFrames, .. }));
    assert_eq!(state, JobState::Prepared);
}

#[test]
fn a_scene_that_cannot_be_removed_stops_the_job() {
    let ctx = settings(Tool::Colmap, true);
    let (actions, state) = drive(&ctx, &clip(), &[true, false, true]);
    assert_eq!(actions.len(), 2);
    assert_eq!(state, JobState::Failed(Failure::RemoveScene));
}

#[test]
fn directories_that_cannot_be_created_stop_the_job() {
    let ctx = settings(Tool::Colmap, false);
    let (actions, state) = drive(&ctx, &clip(), &[false, false, true]);
    assert_eq!(actions.len(), 2);
    assert_eq!(state, JobState::Failed(Failure::CreateDirs));
}

#[test]
fn a_fresh_glomap_job_runs_every_step_and_converts_twice() {
    let ctx = settings(Tool::Glomap, false);
    let (actions, state) = drive(&ctx, &clip(), &[false, true, true, true, true, true, true, true, true]);
    assert_eq!(state, JobState::ExportedText);
    assert_eq!(
        actions,
        vec![
            Action::ProbeSceneDir { path: "scenes/clip".to_string() },
            Action::CreateDirs {
                images: "scenes/clip/images".to_string(),
                sparse: "scenes/clip/sparse".to_string(),
            },
            Action::Run {
                step: Step::ExtractFrames,
                command: command(
                    "ffmpeg.exe",
                    &["-i", "videos/clip.mp4", "-qscale:v", "2", "scenes/clip/images/frame_%06d.jpg"]
                ),
            },
            Action::Run {
                step: Step::FeatureExtractor,
                command: command(
                    "colmap.exe",
                    &[
                        "feature_extractor",
                        "--database_path",
                        "scenes/clip/database.db",
                        "--image_path",
                        "scenes/clip/images",
                        "--ImageReader.single_camera",
                        "1",
                        "--SiftExtraction.use_gpu",
                        "1",
                        "--SiftExtraction.max_image_size",
                        "4096",
                    ]
                ),
            },
            Action::Run {
                step: Step::SequentialMatcher,
                command: command(
                    "colmap.exe",
                    &[
                        "sequential_matcher",
                        "--database_path",
                        "scenes/clip/database.db",
                        "--SequentialMatching.overlap",
                        "15",
                    ]
                ),
            },
            Action::Run {
                step: Step::Mapper,
                command: command(
                    "mapper.exe",
                    &[
                        "mapper",
                        "--database_path",
                        "scenes/clip/database.db",
                        "--image_path",
                        "scenes/clip/images",
                        "--output_path",
                        "scenes/clip/sparse",
                    ]
                ),
            },
            Action::ProbeModel { path: "scenes/clip/sparse/0".to_string() },
            Action::Run {
                step: Step::NormalizeModel,
                command: command(
                    "colmap.exe",
                    &[
                        "model_converter",
                        "--input_path",
                        "scenes/clip/sparse/0",
                        "--output_path",
                        "scenes/clip/sparse/0",
                        "--output_type",
                        "TXT",
                    ]
                ),
            },
            Action::Run {
                step: Step::ExportText,
                command: command(
                    "colmap.exe",
                    &[
                        "model_converter",
                        "--input_path",
                        "scenes/clip/sparse/0",
                        "--output_path",
                        "scenes/clip/sparse",
                        "--output_type",
                        "TXT",
                    ]
                ),
            },
        ]
    );
}

#[test]
fn a_fresh_colmap_job_tells_the_threads_and_converts_once() {
    let ctx = settings(Tool::Colmap, false);
    let (actions, state) = drive(&ctx, &clip(), &[false, true, true, true, true, true, true, true]);
    assert_eq!(state, JobState::ExportedText);
    assert_eq!(actions.len(), 8);
    assert_eq!(
        actions[5],
        Action::Run {
            step: Step::Mapper,
            command: command(
                "mapper.exe",
                &[
                    "mapper",
                    "--database_path",
                    "scenes/clip/database.db",
                    "--image_path",
                    "scenes/clip/images",
                    "--output_path",
                    "scenes/clip/sparse",
                    "--Mapper.num_threads",
                    "8",
                ]
            ),
        }
    );
    assert!(matches!(actions[7], Action::Run { step: Step::ExportText, .. }));
}

#[test]
fn the_export_leads_to_done() {
    let ctx = settings(Tool::Colmap, false);
    assert_eq!(job_action(&ctx, &clip(), JobState::ExportedText), None);
    assert_eq!(job_advance(&ctx, JobState::ExportedText, true), JobState::Done);
    assert_eq!(job_advance(&ctx, JobState::ExportedText, false), JobState::Done);
}

#[test]
fn a_job_without_a_model_is_done_without_export() {
    let ctx = settings(Tool::Glomap, false);
    let (actions, state) = drive(&ctx, &clip(), &[false, true, true, true, true, true, false, true]);
    assert_eq!(actions.len(), 7);
    assert_eq!(state, JobState::Done);
}

#[test]
fn each_step_that_fails_is_named_in_the_failure() {
    let glomap = settings(Tool::Glomap, false);
    let colmap = settings(Tool::Colmap, false);
    let job = clip();
    let cases: Vec<(&Pipeline, Vec<bool>, Step)> = vec![
        (&glomap, vec![false, true, false], Step::ExtractFrames),
        (&glomap, vec![false, true, true, false], Step::FeatureExtractor),
        (&glomap, vec![false, true, true, true, false], Step::SequentialMatcher),
        (&glomap, vec![false, true, true, true, true, false], Step::Mapper),
        (&glomap, vec![false, true, true, true, true, true, true, false], Step::NormalizeModel),
        (&glomap, vec![false, true, true, true, true, true, true, true, false], Step::ExportText),
        (&colmap, vec![false, true, true, true, true, true, true, false], Step::ExportText),
    ];
    for (ctx, outcomes, step) in cases {
        let (_, state) = drive(ctx, &job, &outcomes);
        assert_eq!(state, JobState::Failed(Failure::StepFailed(step)));
        assert_eq!(job_action(ctx, &job, state), None);
        assert_eq!(job_advance(ctx, state, true), state);
    }
}

#[test]
fn a_job_that_is_over_stays_as_it_is() {
    let ctx = settings(Tool::Glomap, false);
    for state in [JobState::SkippedExisting, JobState::Done, JobState::Failed(Failure::CreateDirs)] {
        assert!(state.at_rest());
        assert_eq!(job_advance(&ctx, state, true), state);
        assert_eq!(job_advance(&ctx, state, false), state);
    }
    assert!(!JobState::Pending.at_rest());
    assert!(!JobState::Reconstructed.at_rest());
}

#[test]
fn failures_are_reported_by_step_and_video() {
    assert_eq!(
        Failure::StepFailed(Step::ExtractFrames).message("clip"),
        "extract_frames failed for clip"
    );
    assert_eq!(
        Failure::StepFailed(Step::SequentialMatcher).message("clip"),
        "sequential_matcher failed for clip"
    );
    assert_eq!(
        Failure::StepFailed(Step::NormalizeModel).message("my clip"),
        "model_converter (for glomap) failed for my clip"
    );
    assert_eq!(Failure::CreateDirs.message("clip"), "create_dirs failed for clip");
    assert_eq!(Failure::RemoveScene.message("clip"), "remove_scene failed for clip");
    assert_eq!(Step::FeatureExtractor.name(), "feature_extractor");
    assert_eq!(Step::Mapper.name(), "mapper");
    assert_eq!(Step::ExportText.name(), "model_converter");
}
