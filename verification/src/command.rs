//! The command lines of the pipeline's steps.
//!
//! A command line is a program and its arguments, one string each. Nothing here starts a
//! process: the caller does, and reports how the process ended.
use crate::paths::{join, joined};
use crate::text::{decimal, decimal_string};
use crate::tool::{push_word, words, Tool, Words};
use vstd::prelude::*;
use vstd::string::*;

verus! {

/// A program and the arguments it is started with.
#[derive(Debug, PartialEq, Eq)]
pub struct CommandLine {
    pub program: String,
    pub args: Vec<String>,
}

/// What a `CommandLine` holds, as text.
pub struct CommandLineView {
    pub program: Seq<char>,
    pub args: Words,
}

impl View for CommandLine {
    type V = CommandLineView;

    open spec fn view(&self) -> CommandLineView {
        CommandLineView { program: self.program@, args: words(self.args@) }
    }
}

/// The frame extractor on one video: every frame becomes a numbered JPEG of best quality
/// in `images`.
pub open spec fn frames_command(ffmpeg: Seq<char>, video: Seq<char>, images: Seq<char>)
    -> CommandLineView {
    CommandLineView {
        program: ffmpeg,
        args: seq!["-i"@, video, "-qscale:v"@, "2"@, joined(images, "frame_%06d.jpg"@)],
    }
}

/// Feature extraction on the images, into the database.
pub open spec fn extractor_command(
    colmap: Seq<char>,
    database: Seq<char>,
    images: Seq<char>,
    tool: Tool,
) -> CommandLineView {
    CommandLineView {
        program: colmap,
        args: seq!["feature_extractor"@, "--database_path"@, database, "--image_path"@, images]
            + tool.extractor_flag_words(),
    }
}

/// Sequential matching on the database.
pub open spec fn matcher_command(colmap: Seq<char>, database: Seq<char>, tool: Tool)
    -> CommandLineView {
    CommandLineView {
        program: colmap,
        args: seq!["sequential_matcher"@, "--database_path"@, database]
            + tool.matcher_flag_words(),
    }
}

/// What the mapper is told about threads: their number where the tool has the flag,
/// nothing where it has not.
pub open spec fn thread_words(tool: Tool, threads: nat) -> Words {
    if tool.mapper_has_thread_flag() {
        seq!["--Mapper.num_threads"@, decimal(threads)]
    } else {
        Seq::empty()
    }
}

/// Sparse reconstruction from database and images, into `sparse`.
pub open spec fn mapper_command(
    mapper: Seq<char>,
    database: Seq<char>,
    images: Seq<char>,
    sparse: Seq<char>,
    tool: Tool,
    threads: nat,
) -> CommandLineView {
    CommandLineView {
        program: mapper,
        args: seq![
            "mapper"@,
            "--database_path"@,
            database,
            "--image_path"@,
            images,
            "--output_path"@,
            sparse,
        ] + thread_words(tool, threads),
    }
}

/// Conversion of the model in `input` to text, written to `output`.
pub open spec fn converter_command(colmap: Seq<char>, input: Seq<char>, output: Seq<char>)
    -> CommandLineView {
    CommandLineView {
        program: colmap,
        args: seq![
            "model_converter"@,
            "--input_path"@,
            input,
            "--output_path"@,
            output,
            "--output_type"@,
            "TXT"@,
        ],
    }
}

fn push_words(v: &mut Vec<String>, more: Vec<String>)
    ensures
        words(final(v)@) == words(old(v)@) + words(more@),
{
    let mut more = more;
    let ghost added = more@;
    v.append(&mut more);
    assert(words(v@) =~= words(old(v)@) + words(added));
}

/// The command that extracts the frames of `video` into `images`.
pub fn extract_frames(ffmpeg: &str, video: &str, images: &str) -> (out: CommandLine)
    ensures
        out@ == frames_command(ffmpeg@, video@, images@),
{
    let pattern = join(images, "frame_%06d.jpg");
    let mut args: Vec<String> = Vec::new();
    assert(words(args@) =~= Seq::<Seq<char>>::empty());
    push_word(&mut args, "-i");
    push_word(&mut args, video);
    push_word(&mut args, "-qscale:v");
    push_word(&mut args, "2");
    push_word(&mut args, pattern.as_str());
    assert(words(args@) =~= frames_command(ffmpeg@, video@, images@).args);
    CommandLine { program: String::from_str(ffmpeg), args }
}

/// The command that extracts features from the images into the database.
pub fn extract_features(colmap: &str, database: &str, images: &str, tool: Tool) -> (out:
    CommandLine)
    ensures
        out@ == extractor_command(colmap@, database@, images@, tool),
{
    let mut args: Vec<String> = Vec::new();
    assert(words(args@) =~= Seq::<Seq<char>>::empty());
    push_word(&mut args, "feature_extractor");
    push_word(&mut args, "--database_path");
    push_word(&mut args, database);
    push_word(&mut args, "--image_path");
    push_word(&mut args, images);
    assert(words(args@) =~= seq![
        "feature_extractor"@,
        "--database_path"@,
        database@,
        "--image_path"@,
        images@,
    ]);
    push_words(&mut args, tool.extractor_flags());
    CommandLine { program: String::from_str(colmap), args }
}

/// The command that matches the features of neighbouring frames.
pub fn match_features(colmap: &str, database: &str, tool: Tool) -> (out: CommandLine)
    ensures
        out@ == matcher_command(colmap@, database@, tool),
{
    let mut args: Vec<String> = Vec::new();
    assert(words(args@) =~= Seq::<Seq<char>>::empty());
    push_word(&mut args, "sequential_matcher");
    push_word(&mut args, "--database_path");
    push_word(&mut args, database);
    assert(words(args@) =~= seq!["sequential_matcher"@, "--database_path"@, database@]);
    push_words(&mut args, tool.matcher_flags());
    CommandLine { program: String::from_str(colmap), args }
}

/// The command that reconstructs the sparse model. `threads` is passed on where the tool
/// takes it.
pub fn map_scene(
    mapper: &str,
    database: &str,
    images: &str,
    sparse: &str,
    tool: Tool,
    threads: usize,
) -> (out: CommandLine)
    ensures
        out@ == mapper_command(mapper@, database@, images@, sparse@, tool, threads as nat),
{
    let mut args: Vec<String> = Vec::new();
    assert(words(args@) =~= Seq::<Seq<char>>::empty());
    push_word(&mut args, "mapper");
    push_word(&mut args, "--database_path");
    push_word(&mut args, database);
    push_word(&mut args, "--image_path");
    push_word(&mut args, images);
    push_word(&mut args, "--output_path");
    push_word(&mut args, sparse);
    let ghost base = words(args@);
    assert(base =~= seq![
        "mapper"@,
        "--database_path"@,
        database@,
        "--image_path"@,
        images@,
        "--output_path"@,
        sparse@,
    ]);
    if tool.mapper_takes_threads() {
        let count = decimal_string(threads);
        push_word(&mut args, "--Mapper.num_threads");
        push_word(&mut args, count.as_str());
        assert(words(args@) =~= base + thread_words(tool, threads as nat));
    } else {
        assert(words(args@) =~= base + thread_words(tool, threads as nat));
    }
    CommandLine { program: String::from_str(mapper), args }
}

/// The command that converts the model in `input` to text in `output`.
pub fn convert_model(colmap: &str, input: &str, output: &str) -> (out: CommandLine)
    ensures
        out@ == converter_command(colmap@, input@, output@),
{
    let mut args: Vec<String> = Vec::new();
    assert(words(args@) =~= Seq::<Seq<char>>::empty());
    push_word(&mut args, "model_converter");
    push_word(&mut args, "--input_path");
    push_word(&mut args, input);
    push_word(&mut args, "--output_path");
    push_word(&mut args, output);
    push_word(&mut args, "--output_type");
    push_word(&mut args, "TXT");
    assert(words(args@) =~= converter_command(colmap@, input@, output@).args);
    CommandLine { program: String::from_str(colmap), args }
}

} // verus!
