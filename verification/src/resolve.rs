//! The search for one tool, and its installation where the search finds nothing.
//!
//! The search goes through four stages and ends at the first that succeeds: the path that
//! the user gave, the system's search path, the tool's install directory, and the
//! installation from the latest release. A path that the user gave and that does not exist
//! ends the search with a failure: nothing else is tried.
//!
//! The resolver names the request that is due, and the caller replies with what came of
//! it. The one request that the resolver can answer itself is the look at the system's
//! search path.
use crate::locate::{
    bin_candidate, choose_executable, executable_candidates, located, primary_candidate, Probe,
};
use crate::paths::{join, joined};
use crate::release::{
    asset_views, choice_of, installable, installable_asset, installable_assets, is_installable,
    menu, menu_lines, parse_choice, release_url, release_url_text, Asset, AssetView, Release,
    ReleaseView, ToolSpec, ToolSpecView,
};
use crate::system::executable_on_search_path;
use crate::tool::{words, Words};
use vstd::prelude::*;
use vstd::string::*;

verus! {

/// A tool that was found or installed.
#[derive(Debug, PartialEq, Eq)]
pub struct ResolvedTool {
    pub executable_path: String,
    /// The tool was downloaded and installed in this search.
    pub freshly_installed: bool,
}

/// Why a search failed.
#[derive(Clone, Copy, Debug, PartialEq, Eq, Structural)]
pub enum ResolveError {
    /// The path that the user gave does not exist.
    InvalidOverride,
    /// The machine names no directory to install into.
    NoDataDir,
    /// The release could not be asked for, or the answer was a refusal.
    Network,
    /// The answer does not describe a release.
    Decode,
    /// The release holds nothing that can be installed here.
    NoAssets,
    /// The asset could not be downloaded.
    Download,
    /// The archive could not be read.
    Archive,
    /// A directory or file could not be created or removed, or the answer could not be
    /// read.
    Io,
    /// The archive was unpacked, and the executable is still not there.
    InstallVerification,
}

/// What kept the caller from doing what was requested.
#[derive(Clone, Copy, Debug, PartialEq, Eq, Structural)]
pub enum Fault {
    /// The transfer failed or was refused.
    Transport,
    /// What was received could not be decoded.
    Decode,
    /// The archive is damaged or cannot be read.
    Archive,
    /// The file system refused.
    Io,
}

impl ResolveError {
    /// What is reported of the failure. `tool` is the name of the tool that was searched
    /// for, `override_path` the path that the user gave for it.
    pub open spec fn message_text(self, tool: Seq<char>, override_path: Option<Seq<char>>) -> Seq<
        char,
    > {
        match self {
            ResolveError::InvalidOverride => "Provided path for "@ + tool + " does not exist: "@
                + match override_path {
                Some(path) => path,
                None => Seq::empty(),
            },
            ResolveError::NoDataDir => "Failed to get local data directory for "@ + tool,
            ResolveError::Network => "Failed to fetch the latest release of "@ + tool,
            ResolveError::Decode => "Failed to decode the latest release of "@ + tool,
            ResolveError::NoAssets =>
                "No suitable Windows .zip assets found in the latest release. Please install "@
                + tool + " manually."@,
            ResolveError::Download => "Failed to download "@ + tool,
            ResolveError::Archive => "Failed to read the archive of "@ + tool,
            ResolveError::Io => "Failed to install "@ + tool,
            ResolveError::InstallVerification => "Failed to find "@ + tool
                + " executable after installation."@,
        }
    }

    /// What is reported of the failure.
    pub fn message(self, tool: &str, override_path: &Option<String>) -> (out: String)
        ensures
            out@ == self.message_text(tool@, text_of(*override_path)),
    {
        match self {
            ResolveError::InvalidOverride => {
                let mut out = String::from_str("Provided path for ");
                out.append(tool);
                out.append(" does not exist: ");
                match override_path {
                    Some(path) => {
                        out.append(path.as_str());
                    },
                    None => {
                        assert(out@ + Seq::<char>::empty() =~= out@);
                    },
                }
                out
            },
            ResolveError::NoDataDir => String::from_str(
                "Failed to get local data directory for ",
            ).concat(tool),
            ResolveError::Network => String::from_str(
                "Failed to fetch the latest release of ",
            ).concat(tool),
            ResolveError::Decode => String::from_str(
                "Failed to decode the latest release of ",
            ).concat(tool),
            ResolveError::NoAssets => {
                let mut out = String::from_str(
                    "No suitable Windows .zip assets found in the latest release. Please install ",
                );
                out.append(tool);
                out.append(" manually.");
                out
            },
            ResolveError::Download => String::from_str("Failed to download ").concat(tool),
            ResolveError::Archive => String::from_str("Failed to read the archive of ").concat(
                tool,
            ),
            ResolveError::Io => String::from_str("Failed to install ").concat(tool),
            ResolveError::InstallVerification => {
                let mut out = String::from_str("Failed to find ");
                out.append(tool);
                out.append(" executable after installation.");
                out
            },
        }
    }
}

/// How far a search has come.
#[derive(Clone, Copy, Debug, PartialEq, Eq, Structural)]
pub enum Stage {
    CheckingOverride,
    SearchingPath,
    PreparingInstallDir,
    ProbingInstalled,
    FetchingRelease,
    Choosing,
    Downloading,
    Extracting,
    CleaningUp,
    Verifying,
    Resolved,
    Failed(ResolveError),
}

/// What the caller is asked to do.
#[derive(Debug, PartialEq, Eq)]
pub enum Request {
    /// Find out whether a file exists at `path`.
    ProbePath { path: String },
    /// Look for the executable `name` on the system's search path.
    SearchPath { name: String },
    /// Create the directory `path`, and those above it, where they are missing.
    EnsureDir { path: String },
    /// Find out whether a file exists at each of the two places.
    ProbeCandidates { primary: String, bin: String },
    /// Ask for the release that `url` names.
    FetchRelease { url: String },
    /// Show the numbered lines and read one line of answer.
    Choose { menu: Vec<String> },
    /// Download `url` into the file `dest`.
    Download { url: String, dest: String },
    /// Unpack the archive into the directory `dest`.
    Extract { archive: String, dest: String },
    /// Remove the file `path`.
    RemoveFile { path: String },
}

/// What a `Request` holds, as text.
pub enum RequestView {
    ProbePath { path: Seq<char> },
    SearchPath { name: Seq<char> },
    EnsureDir { path: Seq<char> },
    ProbeCandidates { primary: Seq<char>, bin: Seq<char> },
    FetchRelease { url: Seq<char> },
    Choose { menu: Words },
    Download { url: Seq<char>, dest: Seq<char> },
    Extract { archive: Seq<char>, dest: Seq<char> },
    RemoveFile { path: Seq<char> },
}

impl View for Request {
    type V = RequestView;

    open spec fn view(&self) -> RequestView {
        match self {
            Request::ProbePath { path } => RequestView::ProbePath { path: path@ },
            Request::SearchPath { name } => RequestView::SearchPath { name: name@ },
            Request::EnsureDir { path } => RequestView::EnsureDir { path: path@ },
            Request::ProbeCandidates { primary, bin } => RequestView::ProbeCandidates {
                primary: primary@,
                bin: bin@,
            },
            Request::FetchRelease { url } => RequestView::FetchRelease { url: url@ },
            Request::Choose { menu } => RequestView::Choose { menu: words(menu@) },
            Request::Download { url, dest } => RequestView::Download { url: url@, dest: dest@ },
            Request::Extract { archive, dest } => RequestView::Extract {
                archive: archive@,
                dest: dest@,
            },
            Request::RemoveFile { path } => RequestView::RemoveFile { path: path@ },
        }
    }
}

/// The view of a request that may be missing.
pub open spec fn request_view(request: Option<Request>) -> Option<RequestView> {
    match request {
        Some(r) => Some(r@),
        None => None,
    }
}

/// What came of a request.
#[derive(Debug, PartialEq, Eq)]
pub enum Reply {
    /// To `ProbePath`: whether the file exists.
    Exists(bool),
    /// To `SearchPath`: the executable that was found.
    Found(Option<String>),
    /// To `ProbeCandidates`: what exists.
    Probed(Probe),
    /// To `FetchRelease`: the release.
    Fetched(Release),
    /// To `Choose`: the line that was read.
    Line(String),
    /// To `EnsureDir`, `Download`, `Extract` and `RemoveFile`: it is done.
    Completed,
    /// To any request that can fail: it failed.
    Failed(Fault),
}

/// What a `Reply` holds, as text.
pub enum ReplyView {
    Exists(bool),
    Found(Option<Seq<char>>),
    Probed(Probe),
    Fetched(ReleaseView),
    Line(Seq<char>),
    Completed,
    Failed(Fault),
}

/// The view of a string that may be missing.
pub open spec fn text_of(text: Option<String>) -> Option<Seq<char>> {
    match text {
        Some(s) => Some(s@),
        None => None,
    }
}

impl View for Reply {
    type V = ReplyView;

    open spec fn view(&self) -> ReplyView {
        match self {
            Reply::Exists(exists) => ReplyView::Exists(*exists),
            Reply::Found(path) => ReplyView::Found(text_of(*path)),
            Reply::Probed(probe) => ReplyView::Probed(*probe),
            Reply::Fetched(release) => ReplyView::Fetched(release@),
            Reply::Line(line) => ReplyView::Line(line@),
            Reply::Completed => ReplyView::Completed,
            Reply::Failed(fault) => ReplyView::Failed(*fault),
        }
    }
}

/// A search as plain values.
pub struct ResolverView {
    pub tool: ToolSpecView,
    /// The path that the user gave for the tool.
    pub override_path: Option<Seq<char>>,
    /// The tools directory, where the machine names one.
    pub tools_root: Option<Seq<char>>,
    pub stage: Stage,
    /// The installable assets of the release, once it was fetched.
    pub offers: Seq<AssetView>,
    /// The place of the chosen asset among the offers, once one was chosen.
    pub chosen: nat,
    /// The executable, once the search has found it.
    pub found: Option<Seq<char>>,
    /// The search has begun to download.
    pub fresh: bool,
}

impl ResolverView {
    /// The directory into which the tool is installed.
    pub open spec fn install_dir(self) -> Seq<char> {
        joined(self.tools_root->0, self.tool.install_dir_name)
    }

    /// The file into which the chosen asset is downloaded.
    pub open spec fn archive_path(self) -> Seq<char> {
        joined(self.install_dir(), self.offers[self.chosen as int].name)
    }

    /// The two places of the executable in the install directory.
    pub open spec fn candidates(self) -> RequestView {
        RequestView::ProbeCandidates {
            primary: primary_candidate(self.install_dir(), self.tool.logical_name),
            bin: bin_candidate(self.install_dir(), self.tool.logical_name),
        }
    }

    /// The request that is due; none where the search is over.
    pub open spec fn request(self) -> Option<RequestView> {
        match self.stage {
            Stage::CheckingOverride => Some(
                RequestView::ProbePath { path: self.override_path->0 },
            ),
            Stage::SearchingPath => Some(RequestView::SearchPath { name: self.tool.logical_name }),
            Stage::PreparingInstallDir => Some(RequestView::EnsureDir { path: self.install_dir() }),
            Stage::ProbingInstalled => Some(self.candidates()),
            Stage::FetchingRelease => Some(
                RequestView::FetchRelease {
                    url: release_url_text(self.tool.release_repository_id),
                },
            ),
            Stage::Choosing => Some(RequestView::Choose { menu: menu_lines(self.offers) }),
            Stage::Downloading => Some(
                RequestView::Download {
                    url: self.offers[self.chosen as int].download_url,
                    dest: self.archive_path(),
                },
            ),
            Stage::Extracting => Some(
                RequestView::Extract { archive: self.archive_path(), dest: self.install_dir() },
            ),
            Stage::CleaningUp => Some(RequestView::RemoveFile { path: self.archive_path() }),
            Stage::Verifying => Some(self.candidates()),
            Stage::Resolved | Stage::Failed(_) => None,
        }
    }

    /// The search is over.
    pub open spec fn is_over(self) -> bool {
        self.stage is Resolved || self.stage is Failed
    }

    /// The search at another stage.
    pub open spec fn at(self, stage: Stage) -> ResolverView {
        ResolverView { stage, ..self }
    }

    /// The search, ended with the executable `path`.
    pub open spec fn resolved(self, path: Seq<char>) -> ResolverView {
        ResolverView { stage: Stage::Resolved, found: Some(path), ..self }
    }

    /// The search, ended with a failure.
    pub open spec fn failed(self, error: ResolveError) -> ResolverView {
        self.at(Stage::Failed(error))
    }

    /// The search after a look into the install directory: over where the executable is
    /// there; else at `otherwise`.
    pub open spec fn after_probe(self, probe: Probe, otherwise: Stage) -> ResolverView {
        match located(self.install_dir(), self.tool.logical_name, probe) {
            Some(path) => self.resolved(path),
            None => self.at(otherwise),
        }
    }

    /// The search after the reply to the request that was due. A reply that does not
    /// answer that request leaves the search as it is; so does an answer that picks none of
    /// the offers, so that the choice is asked for again.
    pub open spec fn step(self, reply: ReplyView) -> ResolverView {
        match (self.stage, reply) {
            (Stage::CheckingOverride, ReplyView::Exists(exists)) => if exists {
                self.resolved(self.override_path->0)
            } else {
                self.failed(ResolveError::InvalidOverride)
            },
            (Stage::SearchingPath, ReplyView::Found(Some(path))) => self.resolved(path),
            (Stage::SearchingPath, ReplyView::Found(None)) => if self.tools_root is Some {
                self.at(Stage::PreparingInstallDir)
            } else {
                self.failed(ResolveError::NoDataDir)
            },
            (Stage::PreparingInstallDir, ReplyView::Completed) => self.at(Stage::ProbingInstalled),
            (Stage::PreparingInstallDir, ReplyView::Failed(_)) => self.failed(ResolveError::Io),
            (Stage::ProbingInstalled, ReplyView::Probed(probe)) => self.after_probe(
                probe,
                Stage::FetchingRelease,
            ),
            (Stage::FetchingRelease, ReplyView::Fetched(release)) => {
                let offers = installable(release.assets);
                if offers.len() == 0 {
                    self.failed(ResolveError::NoAssets)
                } else {
                    ResolverView { stage: Stage::Choosing, offers, ..self }
                }
            },
            (Stage::FetchingRelease, ReplyView::Failed(fault)) => if fault == Fault::Decode {
                self.failed(ResolveError::Decode)
            } else {
                self.failed(ResolveError::Network)
            },
            (Stage::Choosing, ReplyView::Line(line)) => match choice_of(line, self.offers.len()) {
                Some(index) => ResolverView {
                    stage: Stage::Downloading,
                    chosen: index,
                    fresh: true,
                    ..self
                },
                None => self,
            },
            (Stage::Choosing, ReplyView::Failed(_)) => self.failed(ResolveError::Io),
            (Stage::Downloading, ReplyView::Completed) => self.at(Stage::Extracting),
            (Stage::Downloading, ReplyView::Failed(_)) => self.failed(ResolveError::Download),
            (Stage::Extracting, ReplyView::Completed) => self.at(Stage::CleaningUp),
            (Stage::Extracting, ReplyView::Failed(fault)) => if fault == Fault::Archive {
                self.failed(ResolveError::Archive)
            } else {
                self.failed(ResolveError::Io)
            },
            (Stage::CleaningUp, ReplyView::Completed) => self.at(Stage::Verifying),
            (Stage::CleaningUp, ReplyView::Failed(_)) => self.failed(ResolveError::Io),
            (Stage::Verifying, ReplyView::Probed(probe)) => self.after_probe(
                probe,
                Stage::Failed(ResolveError::InstallVerification),
            ),
            _ => self,
        }
    }

    /// The search is as a search can be: each stage has what its request is made of.
    pub open spec fn wf(self) -> bool {
        &&& self.stage is CheckingOverride ==> self.override_path is Some
        &&& (self.stage is PreparingInstallDir || self.stage is ProbingInstalled || self.stage
            is FetchingRelease || self.stage is Choosing || self.stage is Downloading
            || self.stage is Extracting || self.stage is CleaningUp || self.stage is Verifying)
            ==> self.tools_root is Some
        &&& self.stage is Choosing ==> self.offers.len() > 0
        &&& (self.stage is Downloading || self.stage is Extracting || self.stage is CleaningUp)
            ==> self.chosen < self.offers.len()
        &&& self.stage is Resolved ==> self.found is Some
        &&& forall|i: int|
            0 <= i < self.offers.len() ==> is_installable((#[trigger] self.offers[i]).name)
        &&& (self.stage is Downloading || self.stage is Extracting || self.stage is CleaningUp
            || self.stage is Verifying) ==> self.fresh
    }
}

/// The search for `tool` before its first request: at the path that the user gave where
/// there is one, else at the system's search path.
pub open spec fn initial(
    tool: ToolSpecView,
    override_path: Option<Seq<char>>,
    tools_root: Option<Seq<char>>,
) -> ResolverView {
    ResolverView {
        tool,
        override_path,
        tools_root,
        stage: if override_path is Some {
            Stage::CheckingOverride
        } else {
            Stage::SearchingPath
        },
        offers: Seq::empty(),
        chosen: 0,
        found: None,
        fresh: false,
    }
}

/// A step keeps a search well formed.
pub proof fn lemma_step_keeps_wf(search: ResolverView, reply: ReplyView)
    requires
        search.wf(),
    ensures
        search.step(reply).wf(),
{
    if search.stage is FetchingRelease {
        if let ReplyView::Fetched(release) = reply {
            let offers = installable(release.assets);
            assert forall|i: int| 0 <= i < offers.len() implies is_installable(
                (#[trigger] offers[i]).name,
            ) by {
                release.assets.lemma_filter_pred(installable_asset(), i);
            }
        }
    }
}

/// Nothing is downloaded but an installable asset: the download that is due is that of
/// one of the offers, and every offer is installable.
pub proof fn lemma_download_is_of_an_offer(search: ResolverView)
    requires
        search.wf(),
        search.stage is Downloading,
    ensures
        search.chosen < search.offers.len(),
        is_installable(search.offers[search.chosen as int].name),
        search.request() == Some(
            RequestView::Download {
                url: search.offers[search.chosen as int].download_url,
                dest: joined(search.install_dir(), search.offers[search.chosen as int].name),
            },
        ),
{
}

impl ResolverView {
    /// The search after the replies `replies`, one after the other.
    pub open spec fn after(self, replies: Seq<ReplyView>) -> ResolverView
        decreases replies.len(),
    {
        if replies.len() == 0 {
            self
        } else {
            self.step(replies[0]).after(replies.drop_first())
        }
    }

    /// The requests that were due while the search went through `replies`, in order: the
    /// one due now first, the one due after the last reply last.
    pub open spec fn trace(self, replies: Seq<ReplyView>) -> Seq<RequestView>
        decreases replies.len(),
    {
        match self.request() {
            None => Seq::empty(),
            Some(request) => if replies.len() == 0 {
                seq![request]
            } else {
                seq![request] + self.step(replies[0]).trace(replies.drop_first())
            },
        }
    }
}

/// A search that is over stays as it is and asks for nothing.
pub proof fn lemma_over_is_over(search: ResolverView, replies: Seq<ReplyView>)
    requires
        search.is_over(),
    ensures
        search.after(replies) == search,
        search.trace(replies) == Seq::<RequestView>::empty(),
    decreases replies.len(),
{
    if replies.len() > 0 {
        lemma_over_is_over(search, replies.drop_first());
    }
}

proof fn lemma_override_trace(search: ResolverView, path: Seq<char>, replies: Seq<ReplyView>)
    requires
        search.is_over() || (search.stage is CheckingOverride && search.override_path == Some(
            path,
        )),
    ensures
        forall|i: int|
            0 <= i < search.trace(replies).len() ==> #[trigger] search.trace(replies)[i] == (
            RequestView::ProbePath { path }),
        search.after(replies).is_over() || search.after(replies) == search,
    decreases replies.len(),
{
    if search.is_over() {
        lemma_over_is_over(search, replies);
    } else if replies.len() > 0 {
        lemma_override_trace(search.step(replies[0]), path, replies.drop_first());
    }
}

/// A path that the user gave decides the search alone. Whatever the replies are, nothing is
/// ever requested but a look at that path, and the search never comes to another stage
/// before it is over: the search path is not searched, no release is asked for and nothing
/// is downloaded. Where the path exists, the search ends with it, unchanged and not as a
/// fresh installation; where it does not, the search ends at once with `InvalidOverride`.
pub proof fn lemma_override_decides_alone(
    tool: ToolSpecView,
    path: Seq<char>,
    tools_root: Option<Seq<char>>,
    replies: Seq<ReplyView>,
)
    ensures
        forall|i: int|
            0 <= i < initial(tool, Some(path), tools_root).trace(replies).len() ==> (
            #[trigger] initial(tool, Some(path), tools_root).trace(replies)[i])
                == (RequestView::ProbePath { path }),
        initial(tool, Some(path), tools_root).after(replies).stage is CheckingOverride || initial(
            tool,
            Some(path),
            tools_root,
        ).after(replies).is_over(),
        ({
            let found = initial(tool, Some(path), tools_root).step(ReplyView::Exists(true));
            &&& found.stage is Resolved
            &&& found.found == Some(path)
            &&& !found.fresh
            &&& found.request() is None
        }),
        ({
            let missing = initial(tool, Some(path), tools_root).step(ReplyView::Exists(false));
            &&& missing.stage == Stage::Failed(ResolveError::InvalidOverride)
            &&& missing.request() is None
        }),
{
    lemma_override_trace(initial(tool, Some(path), tools_root), path, replies);
}

proof fn lemma_fresh_from(search: ResolverView, replies: Seq<ReplyView>)
    requires
        search.wf(),
    ensures
        search.after(replies).wf(),
        search.after(replies).fresh <==> search.fresh || exists|i: int|
            0 <= i < search.trace(replies).len() && #[trigger] search.trace(replies)[i] is Download,
    decreases replies.len(),
{
    let trace = search.trace(replies);
    if replies.len() == 0 {
        if search.request() is Some {
            assert(trace[0] == search.request()->0);
        }
    } else {
        let next = search.step(replies[0]);
        let rest = replies.drop_first();
        lemma_step_keeps_wf(search, replies[0]);
        lemma_fresh_from(next, rest);
        if search.is_over() {
            lemma_over_is_over(search, replies);
        } else {
            let tail = next.trace(rest);
            assert(trace == seq![search.request()->0] + tail);
            assert forall|i: int| 0 <= i < tail.len() implies #[trigger] trace[i + 1] == tail[i] by {}
            if next.fresh && !search.fresh {
                assert(next.stage is Downloading);
                assert(tail.len() > 0 && tail[0] is Download);
                assert(trace[1] is Download);
            }
            if exists|i: int| 0 <= i < tail.len() && #[trigger] tail[i] is Download {
                let i = choose|i: int| 0 <= i < tail.len() && #[trigger] tail[i] is Download;
                assert(trace[i + 1] is Download);
            }
            if exists|i: int| 0 <= i < trace.len() && #[trigger] trace[i] is Download {
                let i = choose|i: int| 0 <= i < trace.len() && #[trigger] trace[i] is Download;
                if i == 0 {
                    assert(search.stage is Downloading);
                } else {
                    assert(tail[i - 1] is Download);
                }
            }
        }
    }
}

/// A tool counts as freshly installed exactly where its search came to the download:
/// after any replies, the search is marked fresh if and only if a download was among its
/// requests. The tool that `outcome` returns carries that mark.
pub proof fn lemma_fresh_iff_downloaded(
    tool: ToolSpecView,
    override_path: Option<Seq<char>>,
    tools_root: Option<Seq<char>>,
    replies: Seq<ReplyView>,
)
    ensures
        initial(tool, override_path, tools_root).after(replies).fresh <==> exists|i: int|
            0 <= i < initial(tool, override_path, tools_root).trace(replies).len() && (
            #[trigger] initial(tool, override_path, tools_root).trace(replies)[i]) is Download,
{
    lemma_fresh_from(initial(tool, override_path, tools_root), replies);
}

/// No download is ever requested where the release holds nothing that can be installed:
/// the search fails with `NoAssets` instead.
pub proof fn lemma_no_offer_no_download(search: ResolverView, release: ReleaseView)
    requires
        search.stage is FetchingRelease,
        installable(release.assets).len() == 0,
    ensures
        search.step(ReplyView::Fetched(release)).stage == Stage::Failed(ResolveError::NoAssets),
        search.step(ReplyView::Fetched(release)).request() is None,
{
}

/// The search for one tool.
pub struct Resolver {
    tool: ToolSpec,
    override_path: Option<String>,
    tools_root: Option<String>,
    stage: Stage,
    offers: Vec<Asset>,
    chosen: usize,
    found: Option<String>,
    fresh: bool,
}

impl View for Resolver {
    type V = ResolverView;

    closed spec fn view(&self) -> ResolverView {
        ResolverView {
            tool: self.tool@,
            override_path: text_of(self.override_path),
            tools_root: text_of(self.tools_root),
            stage: self.stage,
            offers: asset_views(self.offers@),
            chosen: self.chosen as nat,
            found: text_of(self.found),
            fresh: self.fresh,
        }
    }
}

impl Resolver {
    #[verifier::type_invariant]
    spec fn inv(self) -> bool {
        self@.wf()
    }

    /// The search for `tool` before its first request. `override_path` is the path that
    /// the user gave for the tool, `tools_root` the tools directory.
    pub fn new(tool: ToolSpec, override_path: Option<String>, tools_root: Option<String>) -> (out:
        Resolver)
        ensures
            out@ == initial(tool@, text_of(override_path), text_of(tools_root)),
            out@.wf(),
    {
        let stage = if override_path.is_some() {
            Stage::CheckingOverride
        } else {
            Stage::SearchingPath
        };
        let out = Resolver {
            tool,
            override_path,
            tools_root,
            stage,
            offers: Vec::new(),
            chosen: 0,
            found: None,
            fresh: false,
        };
        assert(out@.offers =~= Seq::<AssetView>::empty());
        out
    }

    /// How far the search has come.
    pub fn stage(&self) -> (out: Stage)
        ensures
            out == self@.stage,
            self@.wf(),
    {
        proof {
            use_type_invariant(self);
        }
        self.stage
    }

    /// Whether the search is over.
    pub fn is_over(&self) -> (out: bool)
        ensures
            out == self@.is_over(),
    {
        match self.stage {
            Stage::Resolved | Stage::Failed(_) => true,
            _ => false,
        }
    }

    fn install_dir(&self) -> (out: String)
        requires
            self@.tools_root is Some,
        ensures
            out@ == self@.install_dir(),
    {
        match &self.tools_root {
            Some(root) => join(root.as_str(), self.tool.install_dir_name.as_str()),
            None => String::new(),
        }
    }

    fn archive_path(&self) -> (out: String)
        requires
            self@.tools_root is Some,
            self@.chosen < self@.offers.len(),
        ensures
            out@ == self@.archive_path(),
    {
        let dir = self.install_dir();
        join(dir.as_str(), self.offers[self.chosen].name.as_str())
    }

    fn candidates(&self) -> (out: Request)
        requires
            self@.tools_root is Some,
        ensures
            out@ == self@.candidates(),
    {
        let dir = self.install_dir();
        let places = executable_candidates(dir.as_str(), self.tool.logical_name.as_str());
        Request::ProbeCandidates { primary: places.primary, bin: places.bin }
    }

    /// The request that is due; none where the search is over.
    pub fn request(&self) -> (out: Option<Request>)
        ensures
            request_view(out) == self@.request(),
            out is None == self@.is_over(),
            self@.wf(),
    {
        proof {
            use_type_invariant(self);
        }
        match self.stage {
            Stage::CheckingOverride => match &self.override_path {
                Some(path) => Some(Request::ProbePath { path: path.clone() }),
                None => None,
            },
            Stage::SearchingPath => Some(
                Request::SearchPath { name: self.tool.logical_name.clone() },
            ),
            Stage::PreparingInstallDir => Some(Request::EnsureDir { path: self.install_dir() }),
            Stage::ProbingInstalled => Some(self.candidates()),
            Stage::FetchingRelease => Some(
                Request::FetchRelease {
                    url: release_url(self.tool.release_repository_id.as_str()),
                },
            ),
            Stage::Choosing => Some(Request::Choose { menu: menu(&self.offers) }),
            Stage::Downloading => Some(
                Request::Download {
                    url: self.offers[self.chosen].download_url.clone(),
                    dest: self.archive_path(),
                },
            ),
            Stage::Extracting => Some(
                Request::Extract { archive: self.archive_path(), dest: self.install_dir() },
            ),
            Stage::CleaningUp => Some(Request::RemoveFile { path: self.archive_path() }),
            Stage::Verifying => Some(self.candidates()),
            Stage::Resolved | Stage::Failed(_) => None,
        }
    }

    /// How the search ended: the tool, or why there is none. `None` while the search is
    /// not over.
    pub fn outcome(&self) -> (out: Option<Result<ResolvedTool, ResolveError>>)
        ensures
            out is None == !self@.is_over(),
            self@.stage matches Stage::Failed(error) ==> out == Some(
                Err::<ResolvedTool, ResolveError>(error),
            ),
            self@.stage is Resolved ==> (out matches Some(Ok(tool)) && Some(
                tool.executable_path@,
            ) == self@.found && tool.freshly_installed == self@.fresh),
    {
        proof {
            use_type_invariant(self);
        }
        match self.stage {
            Stage::Resolved => match &self.found {
                Some(path) => Some(
                    Ok(
                        ResolvedTool {
                            executable_path: path.clone(),
                            freshly_installed: self.fresh,
                        },
                    ),
                ),
                None => None,
            },
            Stage::Failed(error) => Some(Err(error)),
            _ => None,
        }
    }

    /// What is reported of a search that failed; `None` for any other search.
    pub fn failure_message(&self) -> (out: Option<String>)
        ensures
            out is Some == self@.stage is Failed,
            out matches Some(text) ==> text@ == self@.stage->Failed_0.message_text(
                self@.tool.logical_name,
                self@.override_path,
            ),
    {
        match self.stage {
            Stage::Failed(error) => Some(
                error.message(self.tool.logical_name.as_str(), &self.override_path),
            ),
            _ => None,
        }
    }

    fn at(self, stage: Stage) -> (out: Resolver)
        requires
            self@.at(stage).wf(),
        ensures
            out@ == self@.at(stage),
    {
        let Resolver { tool, override_path, tools_root, stage: _, offers, chosen, found, fresh } =
            self;
        Resolver { tool, override_path, tools_root, stage, offers, chosen, found, fresh }
    }

    fn resolved(self, path: String) -> (out: Resolver)
        ensures
            out@ == self@.resolved(path@),
    {
        proof {
            use_type_invariant(&self);
        }
        let Resolver { tool, override_path, tools_root, stage: _, offers, chosen, found: _, fresh } =
            self;
        Resolver {
            tool,
            override_path,
            tools_root,
            stage: Stage::Resolved,
            offers,
            chosen,
            found: Some(path),
            fresh,
        }
    }

    fn after_probe(self, probe: Probe, otherwise: Stage) -> (out: Resolver)
        requires
            self@.tools_root is Some,
            self@.at(otherwise).wf(),
        ensures
            out@ == self@.after_probe(probe, otherwise),
    {
        let dir = self.install_dir();
        match choose_executable(dir.as_str(), self.tool.logical_name.as_str(), probe) {
            Some(path) => self.resolved(path),
            None => self.at(otherwise),
        }
    }

    /// Searches the system's search path of this machine, where that is what is due, and
    /// goes on with what was found there, as after the reply `Found`. A search at any other
    /// stage is returned as it is.
    pub fn search_here(self) -> (out: Resolver)
        ensures
            self@.stage is SearchingPath ==> exists|found: Option<Seq<char>>|
                out@ == #[trigger] self@.step(ReplyView::Found(found)),
            !(self@.stage is SearchingPath) ==> out@ == self@,
            out@.wf(),
    {
        proof {
            use_type_invariant(&self);
        }
        match self.stage {
            Stage::SearchingPath => {
                let found = executable_on_search_path(self.tool.logical_name.as_str());
                let ghost reply = ReplyView::Found(text_of(found));
                let out = self.advance(Reply::Found(found));
                assert(out@ == self@.step(reply));
                out
            },
            _ => self,
        }
    }

    /// The search after the reply to the request that was due.
    pub fn advance(self, reply: Reply) -> (out: Resolver)
        ensures
            out@ == self@.step(reply@),
            out@.wf(),
    {
        proof {
            use_type_invariant(&self);
            lemma_step_keeps_wf(self@, reply@);
        }
        match (self.stage, reply) {
            (Stage::CheckingOverride, Reply::Exists(exists)) => {
                if exists {
                    let path = match &self.override_path {
                        Some(path) => path.clone(),
                        None => String::new(),
                    };
                    self.resolved(path)
                } else {
                    self.at(Stage::Failed(ResolveError::InvalidOverride))
                }
            },
            (Stage::SearchingPath, Reply::Found(Some(path))) => self.resolved(path),
            (Stage::SearchingPath, Reply::Found(None)) => {
                if self.tools_root.is_some() {
                    self.at(Stage::PreparingInstallDir)
                } else {
                    self.at(Stage::Failed(ResolveError::NoDataDir))
                }
            },
            (Stage::PreparingInstallDir, Reply::Completed) => self.at(Stage::ProbingInstalled),
            (Stage::PreparingInstallDir, Reply::Failed(_)) => self.at(
                Stage::Failed(ResolveError::Io),
            ),
            (Stage::ProbingInstalled, Reply::Probed(probe)) => self.after_probe(
                probe,
                Stage::FetchingRelease,
            ),
            (Stage::FetchingRelease, Reply::Fetched(release)) => {
                let offers = installable_assets(&release.assets);
                if offers.len() == 0 {
                    self.at(Stage::Failed(ResolveError::NoAssets))
                } else {
                    let Resolver {
                        tool,
                        override_path,
                        tools_root,
                        stage: _,
                        offers: _,
                        chosen,
                        found,
                        fresh,
                    } = self;
                    Resolver {
                        tool,
                        override_path,
                        tools_root,
                        stage: Stage::Choosing,
                        offers,
                        chosen,
                        found,
                        fresh,
                    }
                }
            },
            (Stage::FetchingRelease, Reply::Failed(fault)) => {
                match fault {
                    Fault::Decode => self.at(Stage::Failed(ResolveError::Decode)),
                    _ => self.at(Stage::Failed(ResolveError::Network)),
                }
            },
            (Stage::Choosing, Reply::Line(line)) => {
                match parse_choice(line.as_str(), self.offers.len()) {
                    Some(index) => {
                        let Resolver {
                            tool,
                            override_path,
                            tools_root,
                            stage: _,
                            offers,
                            chosen: _,
                            found,
                            fresh: _,
                        } = self;
                        Resolver {
                            tool,
                            override_path,
                            tools_root,
                            stage: Stage::Downloading,
                            offers,
                            chosen: index,
                            found,
                            fresh: true,
                        }
                    },
                    None => self,
                }
            },
            (Stage::Choosing, Reply::Failed(_)) => self.at(Stage::Failed(ResolveError::Io)),
            (Stage::Downloading, Reply::Completed) => self.at(Stage::Extracting),
            (Stage::Downloading, Reply::Failed(_)) => self.at(
                Stage::Failed(ResolveError::Download),
            ),
            (Stage::Extracting, Reply::Completed) => self.at(Stage::CleaningUp),
            (Stage::Extracting, Reply::Failed(fault)) => {
                match fault {
                    Fault::Archive => self.at(Stage::Failed(ResolveError::Archive)),
                    _ => self.at(Stage::Failed(ResolveError::Io)),
                }
            },
            (Stage::CleaningUp, Reply::Completed) => self.at(Stage::Verifying),
            (Stage::CleaningUp, Reply::Failed(_)) => self.at(Stage::Failed(ResolveError::Io)),
            (Stage::Verifying, Reply::Probed(probe)) => self.after_probe(
                probe,
                Stage::Failed(ResolveError::InstallVerification),
            ),
            _ => self,
        }
    }
}

} // verus!
