//! The two reconstruction tools and what tells them apart.
//!
//! Everything in which the pipeline treats the tools differently is a function of `Tool`
//! here; the steps themselves ask these functions and hold no tool-specific branch.
use vstd::prelude::*;
use vstd::string::*;

verus! {

/// The reconstruction tool that runs the mapping step.
#[derive(Clone, Copy, Debug, PartialEq, Eq, Structural)]
pub enum Tool {
    /// COLMAP: maps by itself, and converts its own models.
    Colmap,
    /// GLOMAP: maps only; COLMAP goes with it for every other step.
    Glomap,
}

/// A sequence of string views, as the arguments of a command are.
pub type Words = Seq<Seq<char>>;

/// The views of the strings of a vector, in order.
pub open spec fn words(v: Seq<String>) -> Words {
    Seq::new(v.len(), |i: int| v[i]@)
}

/// Appends a copy of `word` to `v`.
pub fn push_word(v: &mut Vec<String>, word: &str)
    ensures
        words(final(v)@) == words(old(v)@).push(word@),
{
    v.push(String::from_str(word));
    assert(words(v@) =~= words(old(v)@).push(word@));
}

impl Tool {
    /// The name under which the tool's executable is looked for.
    pub open spec fn name_text(self) -> Seq<char> {
        match self {
            Tool::Colmap => "colmap"@,
            Tool::Glomap => "glomap"@,
        }
    }

    /// The repository whose releases hold the tool.
    pub open spec fn repository_text(self) -> Seq<char> {
        match self {
            Tool::Colmap => "colmap/colmap"@,
            Tool::Glomap => "colmap/glomap"@,
        }
    }

    /// The tool cannot extract, match or convert by itself and needs COLMAP beside it.
    pub open spec fn wants_companion(self) -> bool {
        self == Tool::Glomap
    }

    /// The mapper of this tool takes the number of threads as an argument.
    pub open spec fn mapper_has_thread_flag(self) -> bool {
        self == Tool::Colmap
    }

    /// How many conversions the export takes: the model of one tool has to be rewritten in
    /// place before it can be exported.
    pub open spec fn export_pass_count(self) -> nat {
        match self {
            Tool::Colmap => 1,
            Tool::Glomap => 2,
        }
    }

    /// What feature extraction is given beyond the database and the images: one tool asks
    /// for a single camera, the GPU and a largest image size, the other leaves the defaults.
    pub open spec fn extractor_flag_words(self) -> Words {
        match self {
            Tool::Colmap => Seq::empty(),
            Tool::Glomap => seq![
                "--ImageReader.single_camera"@,
                "1"@,
                "--SiftExtraction.use_gpu"@,
                "1"@,
                "--SiftExtraction.max_image_size"@,
                "4096"@,
            ],
        }
    }

    /// What sequential matching is given beyond the database: one tool sets the window of
    /// overlapping frames, the other leaves the default.
    pub open spec fn matcher_flag_words(self) -> Words {
        match self {
            Tool::Colmap => Seq::empty(),
            Tool::Glomap => seq!["--SequentialMatching.overlap"@, "15"@],
        }
    }

    /// The name under which the tool's executable is looked for.
    pub fn name(self) -> (out: &'static str)
        ensures
            out@ == self.name_text(),
    {
        match self {
            Tool::Colmap => "colmap",
            Tool::Glomap => "glomap",
        }
    }

    /// The repository whose releases hold the tool.
    pub fn repository(self) -> (out: &'static str)
        ensures
            out@ == self.repository_text(),
    {
        match self {
            Tool::Colmap => "colmap/colmap",
            Tool::Glomap => "colmap/glomap",
        }
    }

    /// Whether COLMAP has to be resolved beside the tool.
    pub fn needs_companion(self) -> (out: bool)
        ensures
            out == self.wants_companion(),
    {
        match self {
            Tool::Colmap => false,
            Tool::Glomap => true,
        }
    }

    /// Whether the mapper is told the number of threads.
    pub fn mapper_takes_threads(self) -> (out: bool)
        ensures
            out == self.mapper_has_thread_flag(),
    {
        match self {
            Tool::Colmap => true,
            Tool::Glomap => false,
        }
    }

    /// How many conversions the export takes.
    pub fn export_passes(self) -> (out: u8)
        ensures
            out == self.export_pass_count(),
    {
        match self {
            Tool::Colmap => 1,
            Tool::Glomap => 2,
        }
    }

    /// The extra arguments of feature extraction.
    pub fn extractor_flags(self) -> (out: Vec<String>)
        ensures
            words(out@) == self.extractor_flag_words(),
    {
        let mut out: Vec<String> = Vec::new();
        assert(words(out@) =~= Seq::<Seq<char>>::empty());
        match self {
            Tool::Colmap => {},
            Tool::Glomap => {
                push_word(&mut out, "--ImageReader.single_camera");
                push_word(&mut out, "1");
                push_word(&mut out, "--SiftExtraction.use_gpu");
                push_word(&mut out, "1");
                push_word(&mut out, "--SiftExtraction.max_image_size");
                push_word(&mut out, "4096");
                assert(words(out@) =~= self.extractor_flag_words());
            },
        }
        out
    }

    /// The extra arguments of sequential matching.
    pub fn matcher_flags(self) -> (out: Vec<String>)
        ensures
            words(out@) == self.matcher_flag_words(),
    {
        let mut out: Vec<String> = Vec::new();
        assert(words(out@) =~= Seq::<Seq<char>>::empty());
        match self {
            Tool::Colmap => {},
            Tool::Glomap => {
                push_word(&mut out, "--SequentialMatching.overlap");
                push_word(&mut out, "15");
                assert(words(out@) =~= self.matcher_flag_words());
            },
        }
        out
    }
}

} // verus!
