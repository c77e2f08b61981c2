//! What a run needs before its first video: which tools are searched for, which executable
//! runs which step, and whether the search path has to be published.
use crate::command::{CommandLine, CommandLineView};
use crate::job::{Toolchain, ToolchainView};
use crate::paths::{containing_dir, join, joined, parent_dir};
use crate::release::{ToolSpec, ToolSpecView};
use crate::resolve::{text_of, ResolvedTool};
use crate::tool::{push_word, words, Tool};
use vstd::prelude::*;
use vstd::string::*;

verus! {

/// What the user asked for.
#[derive(Debug, PartialEq, Eq)]
pub struct PipelineConfig {
    pub tool: Tool,
    /// Whether a scene that exists is removed and built again.
    pub force_overwrite: bool,
    /// The directory that holds one scene directory for each video.
    pub scenes_root: String,
    /// The frame extractor that the user named.
    pub ffmpeg_override: Option<String>,
    /// The reconstruction tool that the user named.
    pub tool_override: Option<String>,
}

impl Default for PipelineConfig {
    /// What holds where the user asked for nothing: GLOMAP, no overwriting, scenes below
    /// `scenes`, and every tool searched for.
    fn default() -> (out: PipelineConfig)
        ensures
            out.tool == Tool::Glomap,
            !out.force_overwrite,
            out.scenes_root@ == "scenes"@,
            out.ffmpeg_override is None,
            out.tool_override is None,
    {
        PipelineConfig {
            tool: Tool::Glomap,
            force_overwrite: false,
            scenes_root: String::from_str("scenes"),
            ffmpeg_override: None,
            tool_override: None,
        }
    }
}

/// A tool to search for, and the path that the user gave for it.
#[derive(Debug, PartialEq, Eq)]
pub struct ToolRequest {
    pub tool: ToolSpec,
    pub override_path: Option<String>,
}

/// What a `ToolRequest` holds, as text.
pub struct ToolRequestView {
    pub tool: ToolSpecView,
    pub override_path: Option<Seq<char>>,
}

impl View for ToolRequest {
    type V = ToolRequestView;

    open spec fn view(&self) -> ToolRequestView {
        ToolRequestView { tool: self.tool@, override_path: text_of(self.override_path) }
    }
}

/// The views of the requests of a vector, in order.
pub open spec fn request_views(requests: Seq<ToolRequest>) -> Seq<ToolRequestView> {
    Seq::new(requests.len(), |i: int| requests[i]@)
}

/// The frame extractor as a tool.
pub open spec fn ffmpeg_tool() -> ToolSpecView {
    ToolSpecView {
        logical_name: "ffmpeg"@,
        release_repository_id: "BtbN/FFmpeg-Builds"@,
        install_dir_name: "ffmpeg"@,
    }
}

/// A reconstruction tool as a tool: it is installed into the directory of its name.
pub open spec fn reconstruction_tool(tool: Tool) -> ToolSpecView {
    ToolSpecView {
        logical_name: tool.name_text(),
        release_repository_id: tool.repository_text(),
        install_dir_name: tool.name_text(),
    }
}

/// The tools that a run with `tool` searches for, in the order of the search: the frame
/// extractor, the reconstruction tool, and COLMAP where the reconstruction tool needs it
/// beside itself. The user can name the first two.
pub open spec fn required(
    tool: Tool,
    ffmpeg_override: Option<Seq<char>>,
    tool_override: Option<Seq<char>>,
) -> Seq<ToolRequestView> {
    let base = seq![
        ToolRequestView { tool: ffmpeg_tool(), override_path: ffmpeg_override },
        ToolRequestView { tool: reconstruction_tool(tool), override_path: tool_override },
    ];
    if tool.wants_companion() {
        base.push(ToolRequestView { tool: reconstruction_tool(Tool::Colmap), override_path: None })
    } else {
        base
    }
}

/// The frame extractor as a tool.
pub fn ffmpeg_spec() -> (out: ToolSpec)
    ensures
        out@ == ffmpeg_tool(),
{
    ToolSpec {
        logical_name: String::from_str("ffmpeg"),
        release_repository_id: String::from_str("BtbN/FFmpeg-Builds"),
        install_dir_name: String::from_str("ffmpeg"),
    }
}

/// A reconstruction tool as a tool.
pub fn tool_spec(tool: Tool) -> (out: ToolSpec)
    ensures
        out@ == reconstruction_tool(tool),
{
    ToolSpec {
        logical_name: String::from_str(tool.name()),
        release_repository_id: String::from_str(tool.repository()),
        install_dir_name: String::from_str(tool.name()),
    }
}

fn copy_of(text: &Option<String>) -> (out: Option<String>)
    ensures
        text_of(out) == text_of(*text),
{
    match text {
        Some(s) => Some(s.clone()),
        None => None,
    }
}

/// The tools that a run with `config` searches for, in the order of the search.
pub fn required_tools(config: &PipelineConfig) -> (out: Vec<ToolRequest>)
    ensures
        request_views(out@) == required(
            config.tool,
            text_of(config.ffmpeg_override),
            text_of(config.tool_override),
        ),
{
    let mut out: Vec<ToolRequest> = Vec::new();
    out.push(ToolRequest { tool: ffmpeg_spec(), override_path: copy_of(&config.ffmpeg_override) });
    out.push(
        ToolRequest { tool: tool_spec(config.tool), override_path: copy_of(&config.tool_override) },
    );
    if config.tool.needs_companion() {
        out.push(ToolRequest { tool: tool_spec(Tool::Colmap), override_path: None });
    }
    assert(request_views(out@) =~= required(
        config.tool,
        text_of(config.ffmpeg_override),
        text_of(config.tool_override),
    ));
    out
}

/// What the searches of a run came to.
#[derive(Debug, PartialEq, Eq)]
pub struct Setup {
    pub tools: Toolchain,
    /// Whether a tool was freshly installed, so that the search path has to be published.
    pub publish: bool,
}

/// The executable paths of the resolved tools, in order.
pub open spec fn resolved_paths(resolved: Seq<ResolvedTool>) -> Seq<Seq<char>> {
    Seq::new(resolved.len(), |i: int| resolved[i].executable_path@)
}

/// One of the resolved tools was freshly installed.
pub open spec fn any_fresh(resolved: Seq<ResolvedTool>) -> bool {
    exists|i: int| 0 <= i < resolved.len() && (#[trigger] resolved[i]).freshly_installed
}

/// The executables of a run, from the tools that were found in the order in which they
/// were searched for; none where their number is not the number of the tools that `tool`
/// requires. COLMAP is the companion where there is one, else the reconstruction tool.
pub open spec fn toolchain_of(tool: Tool, paths: Seq<Seq<char>>) -> Option<ToolchainView> {
    if tool.wants_companion() && paths.len() == 3 {
        Some(ToolchainView { ffmpeg: paths[0], mapper: paths[1], colmap: paths[2] })
    } else if !tool.wants_companion() && paths.len() == 2 {
        Some(ToolchainView { ffmpeg: paths[0], mapper: paths[1], colmap: paths[1] })
    } else {
        None
    }
}

/// Puts the tools that were found to their uses, and tells whether the search path has to
/// be published: it has to where at least one of them was freshly installed.
pub fn assemble(tool: Tool, resolved: &Vec<ResolvedTool>) -> (out: Option<Setup>)
    ensures
        out is Some == toolchain_of(tool, resolved_paths(resolved@)) is Some,
        out matches Some(setup) ==> Some(setup.tools@) == toolchain_of(
            tool,
            resolved_paths(resolved@),
        ) && setup.publish == any_fresh(resolved@),
{
    let companion: bool = tool.needs_companion();
    let wanted: usize = if companion {
        3
    } else {
        2
    };
    if resolved.len() != wanted {
        return None;
    }
    let mut publish: bool = false;
    let mut i: usize = 0;
    while i < resolved.len()
        invariant
            i <= resolved.len(),
            publish == exists|k: int| 0 <= k < i && (#[trigger] resolved@[k]).freshly_installed,
        decreases resolved.len() - i,
    {
        if resolved[i].freshly_installed {
            publish = true;
        }
        i = i + 1;
    }
    let colmap: usize = if companion {
        2
    } else {
        1
    };
    Some(
        Setup {
            tools: Toolchain {
                ffmpeg: resolved[0].executable_path.clone(),
                mapper: resolved[1].executable_path.clone(),
                colmap: resolved[colmap].executable_path.clone(),
            },
            publish,
        },
    )
}

/// The command that publishes the search path: the publisher, told the directory that
/// holds COLMAP. There is none where COLMAP's path names no file in a directory.
pub open spec fn publisher_command(colmap: Seq<char>) -> Option<CommandLineView> {
    match containing_dir(colmap) {
        Some(dir) => Some(
            CommandLineView { program: "modify_polyfjord_path"@, args: seq![dir] },
        ),
        None => None,
    }
}

/// The command that publishes the search path.
pub fn publication_command(tools: &Toolchain) -> (out: Option<CommandLine>)
    ensures
        out is Some == publisher_command(tools.colmap@) is Some,
        out matches Some(command) ==> Some(command@) == publisher_command(tools.colmap@),
{
    match parent_dir(tools.colmap.as_str()) {
        Some(dir) => {
            let mut args: Vec<String> = Vec::new();
            assert(words(args@) =~= Seq::<Seq<char>>::empty());
            push_word(&mut args, dir.as_str());
            assert(words(args@) =~= seq![dir@]);
            Some(CommandLine { program: String::from_str("modify_polyfjord_path"), args })
        },
        None => None,
    }
}

/// Where COLMAP finds its plugins: the `plugins` directory of its install directory below
/// `tools_root`, followed by `;` and the value that was set before, where one was.
pub open spec fn plugin_path(tools_root: Seq<char>, existing: Option<Seq<char>>) -> Seq<char> {
    let own = joined(joined(tools_root, "colmap"@), "plugins"@);
    match existing {
        Some(value) => own + seq![';'] + value,
        None => own,
    }
}

/// The value to set for the plugin search path. `existing` is its value so far.
pub fn plugin_search_path(tools_root: &str, existing: Option<String>) -> (out: String)
    ensures
        out@ == plugin_path(tools_root@, text_of(existing)),
{
    let colmap_dir = join(tools_root, "colmap");
    let mut out = join(colmap_dir.as_str(), "plugins");
    match existing {
        Some(value) => {
            proof {
                reveal_strlit(";");
                assert(";"@ =~= seq![';']);
            }
            out.append(";");
            out.append(value.as_str());
        },
        None => {},
    }
    out
}

/// How a run ended.
#[derive(Clone, Copy, Debug, PartialEq, Eq, Structural)]
pub enum RunOutcome {
    /// The run came to its videos. Some of them may have failed.
    Completed,
    /// A tool could not be resolved or the search path could not be published: no video
    /// was touched.
    SetupFailed,
}

/// The exit code of a run: 0 where it came to its videos, whatever became of them, and 1
/// where the setup failed.
pub fn exit_code(outcome: RunOutcome) -> (out: i32)
    ensures
        out == match outcome {
            RunOutcome::Completed => 0i32,
            RunOutcome::SetupFailed => 1i32,
        },
{
    match outcome {
        RunOutcome::Completed => 0,
        RunOutcome::SetupFailed => 1,
    }
}

} // verus!
