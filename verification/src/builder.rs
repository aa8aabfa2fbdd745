//! Building the image of a submission: its zip archive is unpacked into the
//! submission directory, a Dockerfile is written beside it, the directory
//! is packed as the build context and the Docker daemon builds the image.
//! The decisions are a state machine; the driver performs each action and
//! reports its outcome.

use vstd::prelude::*;

use crate::errors::{
    build_failure, context_prefix, ErrorView, FailureContext, SubmissionError,
};
use crate::paths::{join_path, joined, submission_dir, submission_dir_of};
use crate::text::{ends_with_char, opt_text};

verus! {

/// The path of the archive the builder unpacks for submission `submission_id`.
pub open spec fn zip_path_of(submission_id: Seq<char>) -> Seq<char> {
    joined(submission_dir_of(submission_id), "submission.zip"@)
}

/// The path the Dockerfile of submission `submission_id` is written to.
pub open spec fn dockerfile_path_of(submission_id: Seq<char>) -> Seq<char> {
    joined(submission_dir_of(submission_id), "Dockerfile"@)
}

/// The tag the image of submission `submission_id` is built under.
pub open spec fn image_tag_of(submission_id: Seq<char>) -> Seq<char> {
    "iicpc_submission:"@ + submission_id
}

/// The Dockerfile every submission is built with: an Ubuntu image with C,
/// Go and Rust toolchains that copies the submission to /app, runs its
/// `build.sh` and starts it with `run.sh`.
pub open spec fn dockerfile_text() -> Seq<char> {
    "
FROM ubuntu:24.04
ENV DEBIAN_FRONTEND=noninteractive
RUN apt-get update && apt-get install -y \\
    build-essential \\
    golang \\
    rustc \\
    cargo \\
    && rm -rf /var/lib/apt/lists/*
COPY . /app
WORKDIR /app
RUN chmod +x build.sh run.sh
RUN ./build.sh
ENTRYPOINT [\"./run.sh\"]
"@
}

/// The Dockerfile every submission is built with.
pub fn dockerfile_content() -> (content: &'static str)
    ensures
        content@ == dockerfile_text(),
{
    "
FROM ubuntu:24.04
ENV DEBIAN_FRONTEND=noninteractive
RUN apt-get update && apt-get install -y \\
    build-essential \\
    golang \\
    rustc \\
    cargo \\
    && rm -rf /var/lib/apt/lists/*
COPY . /app
WORKDIR /app
RUN chmod +x build.sh run.sh
RUN ./build.sh
ENTRYPOINT [\"./run.sh\"]
"
}

/// The parent directory of a path: the path without its last component,
/// or none for a root or an empty path.
pub uninterp spec fn path_parent(path: Seq<char>) -> Option<Seq<char>>;

/// Whether `a` is a prefix of `b`.
pub open spec fn is_prefix_of(a: Seq<char>, b: Seq<char>) -> bool {
    a.len() <= b.len() && a == b.subrange(0, a.len() as int)
}

/// Whether `s` has a `.` segment: a `.` with a separator or an end of
/// the text on each side.
pub open spec fn has_dot_segment(s: Seq<char>) -> bool {
    exists|i: int|
        0 <= i < s.len() && #[trigger] s[i] == '.' && (i == 0 || s[i - 1] == '/') && (i + 1
            == s.len() || s[i + 1] == '/')
}

/// Whether `r` is separators followed by one path component: no separator
/// comes after a character that is not one.
pub open spec fn is_last_component(r: Seq<char>) -> bool {
    forall|k: int, j: int| 0 <= k < j < r.len() && #[trigger] r[j] == '/' ==> #[trigger] r[k] == '/'
}

/// What `Path::parent` is documented to return, stated over text: a
/// leading part of the path that ends at a component boundary (it is empty,
/// ends with a separator, or is followed by one), and, for a path without
/// `.` segments or a trailing separator, the path with only its final
/// component removed.
pub open spec fn is_parent_text(p: Seq<char>, path: Seq<char>) -> bool {
    &&& is_prefix_of(p, path)
    &&& (p.len() == 0 || p.last() == '/' || (p.len() < path.len() && path[p.len() as int] == '/'))
    &&& (!has_dot_segment(path) && !(path.len() > 0 && path.last() == '/')) ==> is_last_component(
        path.skip(p.len() as int),
    )
}

/// The parent directory of `path`.
///
/// Calls `std::path::Path::parent` on `path` and turns the result back
/// into text (a parent of a UTF-8 path is UTF-8).  The result is named by
/// `path_parent`: it depends on the text of `path` alone.  `Path::parent`
/// is documented as the path without its final component; the contract
/// states what that means of the text (`is_parent_text`).
#[verifier::external_body]
fn parent_of(path: &str) -> (parent: Option<String>)
    ensures
        match parent {
            Some(p) => path_parent(path@) == Some(p@) && is_parent_text(p@, path@),
            None => path_parent(path@) == None::<Seq<char>>,
        },
{
    std::path::Path::new(path).parent().and_then(std::path::Path::to_str).map(str::to_owned)
}

/// What unpacking one entry of the archive takes.
pub enum EntryAction {
    /// Create the directory `path` and its missing parents.
    CreateDir { path: String },
    /// Create `parent` and its missing parents, if there is one, then copy
    /// the entry's content to the file `path`.
    WriteFile { parent: Option<String>, path: String },
}

/// Whether an entry name denotes a directory: it ends with `/`.
pub open spec fn is_dir_entry(name: Seq<char>) -> bool {
    name.len() > 0 && name.last() == '/'
}

/// A name unpacked into `dir` stays, as text, below it: `dir` is not empty
/// and does not end with a separator, and the name is relative, not empty,
/// and neither it nor `dir` has `.` segments.  (A `..` segment is not ruled
/// out: as text the result still begins with `dir`.)
pub open spec fn stays_below(dir: Seq<char>, name: Seq<char>) -> bool {
    &&& dir.len() > 0
    &&& dir.last() != '/'
    &&& name.len() > 0
    &&& name[0] != '/'
    &&& !has_dot_segment(dir + seq!['/'] + name)
}

/// `p` is `dir` itself or a path written below it.
pub open spec fn is_dir_or_below(p: Seq<char>, dir: Seq<char>) -> bool {
    is_prefix_of(dir, p) && (p.len() == dir.len() || p[dir.len() as int] == '/')
}

/// The parent of a file entry's path, for a name that stays below the
/// extraction directory, is that directory or a directory written below it.
pub proof fn lemma_parent_below(dir: Seq<char>, name: Seq<char>, p: Seq<char>)
    requires
        stays_below(dir, name),
        !is_dir_entry(name),
        is_parent_text(p, joined(dir, name)),
    ensures
        is_dir_or_below(p, dir),
{
    let path = joined(dir, name);
    assert(path == dir + seq!['/'] + name);
    assert(path.last() == name.last());
    if p.len() < dir.len() {
        let r = path.skip(p.len() as int);
        let k = dir.len() - 1 - p.len();
        assert(r[k] == dir.last());
        assert(r[k + 1] == '/');
        assert(false);
    }
    assert(dir =~= p.subrange(0, dir.len() as int)) by {
        assert(p == path.subrange(0, p.len() as int));
    }
    if p.len() > dir.len() {
        assert(p[dir.len() as int] == path[dir.len() as int]);
    }
}

/// The action that writes a file entry to `path`, whose parent directory is
/// `parent`.
pub fn file_entry(path: String, parent: Option<String>) -> (action: EntryAction)
    ensures
        action matches EntryAction::WriteFile { parent: p, path: q } && q@ == path@ && opt_text(&p)
            == opt_text(&parent),
{
    EntryAction::WriteFile { parent, path }
}

/// What unpacking the entry named `name` into `dir` takes: a name ending
/// with `/` is the directory `dir` joined with the name; any other is the
/// file at that path, with its parent directory (a leading part of the
/// path, which, for a name that stays below `dir`, is `dir` or a directory
/// written below it).
pub open spec fn is_entry_plan(entry: EntryAction, dir: Seq<char>, name: Seq<char>) -> bool {
    match entry {
        EntryAction::CreateDir { path } => is_dir_entry(name) && path@ == joined(dir, name),
        EntryAction::WriteFile { parent, path } => {
            &&& !is_dir_entry(name)
            &&& path@ == joined(dir, name)
            &&& opt_text(&parent) == path_parent(joined(dir, name))
            &&& parent matches Some(p) ==> is_parent_text(p@, path@) && (stays_below(dir, name)
                ==> is_dir_or_below(p@, dir))
        },
    }
}

/// Plans the unpacking of one archive entry into `extract_to`, given the
/// entry's name or the error its name could not be read with.  An
/// unreadable name is a build error; a name ending with `/` is a directory
/// to create; any other name is a file to write, after creating its parent
/// directory.  Names are joined onto `extract_to` as paths are, so an
/// absolute name is used as it stands.
pub fn plan_zip_entry(extract_to: &str, name: Result<String, String>) -> (plan: Result<
    EntryAction,
    SubmissionError,
>)
    ensures
        match name {
            Err(e) => plan matches Err(err) && err@ == ErrorView::BuildError(e@),
            Ok(n) => plan matches Ok(entry) && is_entry_plan(entry, extract_to@, n@),
        },
{
    match name {
        Err(e) => Err(SubmissionError::BuildError(e)),
        Ok(n) => {
            let path = join_path(extract_to, n.as_str());
            if ends_with_char(n.as_str(), '/') {
                Ok(EntryAction::CreateDir { path })
            } else {
                let parent = parent_of(path.as_str());
                proof {
                    if let Some(p) = &parent {
                        if stays_below(extract_to@, n@) {
                            lemma_parent_below(extract_to@, n@, p@);
                        }
                    }
                }
                Ok(file_entry(path, parent))
            }
        },
    }
}

/// How the image of a submission is built.
#[derive(Debug, Clone, PartialEq, Eq)]
pub struct ImageBuildPlan {
    /// The tag of the image.
    pub tag: String,
    /// The Dockerfile in the build context.
    pub dockerfile: String,
    /// The platform the image is built for.
    pub platform: String,
    /// Whether intermediate containers are removed.
    pub remove_intermediate: bool,
}

/// The build of the image tagged `tag`: from the context's Dockerfile, for
/// linux/amd64, removing intermediate containers.
pub fn image_build_plan(tag: &str) -> (plan: ImageBuildPlan)
    ensures
        plan.tag@ == image_tag_of(tag@),
        plan.dockerfile@ == "Dockerfile"@,
        plan.platform@ == "linux/amd64"@,
        plan.remove_intermediate,
{
    let mut image = String::from_str("iicpc_submission:");
    image.append(tag);
    ImageBuildPlan {
        tag: image,
        dockerfile: String::from_str("Dockerfile"),
        platform: String::from_str("linux/amd64"),
        remove_intermediate: true,
    }
}

/// Where a build is in its course.
#[derive(Debug, Clone, Copy, PartialEq, Eq, Structural)]
pub enum BuildStage {
    Extracting,
    WritingDockerfile,
    PackingContext,
    Connecting,
    Building,
    Done,
}

/// What the driver of a build has to do next.
pub enum BuildAction {
    /// Unpack the archive `zip_file` into `extract_to`, entry by entry as
    /// [`plan_zip_entry`] says.
    Extract { zip_file: String, extract_to: String },
    /// Write `content` to the file `path`.
    WriteDockerfile { path: String, content: String },
    /// Pack the directory `dir` into a tar archive, the build context.
    PackContext { dir: String },
    /// Connect to the local Docker daemon.
    ConnectDocker,
    /// Start building the image with the packed context.
    BuildImage { plan: ImageBuildPlan },
    /// Read the next progress report of the build.
    AwaitProgress,
    /// Stop; the build ended with `outcome`.
    Finish { outcome: Result<(), SubmissionError> },
}

/// The action that ends a build with the error `e`.
pub open spec fn is_build_failure(action: BuildAction, e: ErrorView) -> bool {
    match action {
        BuildAction::Finish { outcome: Err(err) } => err@ == e,
        _ => false,
    }
}

/// The build of one submission's image.
pub struct BuildSession {
    pub stage: BuildStage,
    pub submission_id: String,
}

impl BuildSession {
    /// Starts the build of submission `submission_id`; the first action is
    /// to unpack its zip archive into its directory.
    pub fn start(submission_id: &str) -> (res: (BuildSession, BuildAction))
        ensures
            res.0.stage == BuildStage::Extracting,
            res.0.submission_id@ == submission_id@,
            res.1 matches BuildAction::Extract { zip_file, extract_to } && zip_file@ == zip_path_of(
                submission_id@,
            ) && extract_to@ == submission_dir_of(submission_id@),
    {
        let dir = submission_dir(submission_id);
        let zip_file = join_path(dir.as_str(), "submission.zip");
        (
            BuildSession {
                stage: BuildStage::Extracting,
                submission_id: String::from_str(submission_id),
            },
            BuildAction::Extract { zip_file, extract_to: dir },
        )
    }

    /// Handles the end of unpacking: a failure ends the build with it, a
    /// success writes the Dockerfile.
    pub fn on_extracted(&mut self, outcome: Result<(), SubmissionError>) -> (action: BuildAction)
        requires
            old(self).stage == BuildStage::Extracting,
        ensures
            final(self).submission_id == old(self).submission_id,
            match outcome {
                Err(e) => final(self).stage == BuildStage::Done && is_build_failure(action, e@),
                Ok(()) => {
                    &&& final(self).stage == BuildStage::WritingDockerfile
                    &&& action matches BuildAction::WriteDockerfile { path, content } && path@
                        == dockerfile_path_of(old(self).submission_id@) && content@
                        == dockerfile_text()
                },
            },
    {
        match outcome {
            Err(e) => {
                self.stage = BuildStage::Done;
                BuildAction::Finish { outcome: Err(e) }
            },
            Ok(()) => {
                let dir = submission_dir(self.submission_id.as_str());
                let path = join_path(dir.as_str(), "Dockerfile");
                self.stage = BuildStage::WritingDockerfile;
                BuildAction::WriteDockerfile {
                    path,
                    content: String::from_str(dockerfile_content()),
                }
            },
        }
    }

    /// Handles the end of writing the Dockerfile: a failure ends the build
    /// with it, a success packs the submission directory.
    pub fn on_dockerfile_written(&mut self, outcome: Result<(), SubmissionError>) -> (action:
        BuildAction)
        requires
            old(self).stage == BuildStage::WritingDockerfile,
        ensures
            final(self).submission_id == old(self).submission_id,
            match outcome {
                Err(e) => final(self).stage == BuildStage::Done && is_build_failure(action, e@),
                Ok(()) => {
                    &&& final(self).stage == BuildStage::PackingContext
                    &&& action matches BuildAction::PackContext { dir } && dir@
                        == submission_dir_of(old(self).submission_id@)
                },
            },
    {
        match outcome {
            Err(e) => {
                self.stage = BuildStage::Done;
                BuildAction::Finish { outcome: Err(e) }
            },
            Ok(()) => {
                self.stage = BuildStage::PackingContext;
                BuildAction::PackContext { dir: submission_dir(self.submission_id.as_str()) }
            },
        }
    }

    /// Handles the end of packing the context: a failure ends the build
    /// with it, a success connects to the Docker daemon.
    pub fn on_context_packed(&mut self, outcome: Result<(), SubmissionError>) -> (action:
        BuildAction)
        requires
            old(self).stage == BuildStage::PackingContext,
        ensures
            final(self).submission_id == old(self).submission_id,
            match outcome {
                Err(e) => final(self).stage == BuildStage::Done && is_build_failure(action, e@),
                Ok(()) => final(self).stage == BuildStage::Connecting && action is ConnectDocker,
            },
    {
        match outcome {
            Err(e) => {
                self.stage = BuildStage::Done;
                BuildAction::Finish { outcome: Err(e) }
            },
            Ok(()) => {
                self.stage = BuildStage::Connecting;
                BuildAction::ConnectDocker
            },
        }
    }

    /// Handles the connection to the Docker daemon: a failure ends the
    /// build, a success starts building the image tagged with the
    /// submission's identifier.
    pub fn on_docker_connected(&mut self, outcome: Result<(), String>) -> (action: BuildAction)
        requires
            old(self).stage == BuildStage::Connecting,
        ensures
            final(self).submission_id == old(self).submission_id,
            match outcome {
                Err(e) => final(self).stage == BuildStage::Done && is_build_failure(
                    action,
                    ErrorView::BuildError(context_prefix(FailureContext::DockerConnect) + e@),
                ),
                Ok(()) => {
                    &&& final(self).stage == BuildStage::Building
                    &&& action matches BuildAction::BuildImage { plan } && plan.tag@
                        == image_tag_of(old(self).submission_id@) && plan.dockerfile@
                        == "Dockerfile"@ && plan.platform@ == "linux/amd64"@
                        && plan.remove_intermediate
                },
            },
    {
        match outcome {
            Err(e) => {
                self.stage = BuildStage::Done;
                BuildAction::Finish {
                    outcome: Err(build_failure(FailureContext::DockerConnect, e.as_str())),
                }
            },
            Ok(()) => {
                self.stage = BuildStage::Building;
                BuildAction::BuildImage { plan: image_build_plan(self.submission_id.as_str()) }
            },
        }
    }

    /// Handles the next report of the image build: the end of the reports
    /// ends the build successfully; a stream error, or a report that
    /// carries an error, ends it with a build error; any other report (a
    /// line of build output) is passed over.
    pub fn on_progress(&mut self, report: Option<Result<Option<String>, String>>) -> (action:
        BuildAction)
        requires
            old(self).stage == BuildStage::Building,
        ensures
            final(self).submission_id == old(self).submission_id,
            match report {
                None => final(self).stage == BuildStage::Done && action matches BuildAction::Finish {
                    outcome: Ok(()),
                },
                Some(Err(e)) => final(self).stage == BuildStage::Done && is_build_failure(
                    action,
                    ErrorView::BuildError(context_prefix(FailureContext::BuildStream) + e@),
                ),
                Some(Ok(Some(e))) => final(self).stage == BuildStage::Done && is_build_failure(
                    action,
                    ErrorView::BuildError(context_prefix(FailureContext::Compiler) + e@),
                ),
                Some(Ok(None)) => final(self).stage == BuildStage::Building && action is AwaitProgress,
            },
    {
        match report {
            None => {
                self.stage = BuildStage::Done;
                BuildAction::Finish { outcome: Ok(()) }
            },
            Some(Err(e)) => {
                self.stage = BuildStage::Done;
                BuildAction::Finish {
                    outcome: Err(build_failure(FailureContext::BuildStream, e.as_str())),
                }
            },
            Some(Ok(Some(e))) => {
                self.stage = BuildStage::Done;
                BuildAction::Finish {
                    outcome: Err(build_failure(FailureContext::Compiler, e.as_str())),
                }
            },
            Some(Ok(None)) => BuildAction::AwaitProgress,
        }
    }
}

} // verus!

verus! {

/// Where the unpacking of an archive is in its course.
#[derive(Debug, Clone, Copy, PartialEq, Eq, Structural)]
pub enum ExtractPhase {
    /// Waiting for the archive to be opened.
    Opening,
    /// Waiting for the name of the entry at `index`.
    Naming,
    /// Waiting for the entry at `index` to be unpacked.
    Unpacking,
    /// Unpacking is over.
    Done,
}

/// What the driver of an unpacking has to do next.
pub enum ExtractAction {
    /// Open the zip archive `zip_file` and report how many entries it has.
    OpenArchive { zip_file: String },
    /// Read the name of the entry at `index`.
    ReadEntryName { index: usize },
    /// Unpack the entry at `index` as `entry` says.
    Unpack { index: usize, entry: EntryAction },
    /// Stop; unpacking ended with `outcome`.
    Finish { outcome: Result<(), SubmissionError> },
}

/// The action that ends an unpacking with the error `e`.
pub open spec fn is_extract_failure(action: ExtractAction, e: ErrorView) -> bool {
    match action {
        ExtractAction::Finish { outcome: Err(err) } => err@ == e,
        _ => false,
    }
}

/// The action that reads the name of the entry at `index`.
pub open spec fn is_read_name(action: ExtractAction, index: usize) -> bool {
    match action {
        ExtractAction::ReadEntryName { index: i } => i == index,
        _ => false,
    }
}

/// The action that ends an unpacking successfully.
pub open spec fn is_extract_success(action: ExtractAction) -> bool {
    action matches ExtractAction::Finish { outcome: Ok(()) }
}

/// The unpacking of a zip archive into a directory, entry by entry, that
/// stops at the first entry that fails.
pub struct ExtractSession {
    pub phase: ExtractPhase,
    pub extract_to: String,
    pub entry_count: usize,
    /// The entry being handled; the entries before it are unpacked.
    pub index: usize,
}

impl ExtractSession {
    /// The entry being handled exists while one is being handled.
    pub open spec fn wf(&self) -> bool {
        &&& self.index <= self.entry_count
        &&& (self.phase == ExtractPhase::Naming || self.phase == ExtractPhase::Unpacking)
            ==> self.index < self.entry_count
    }

    /// Starts unpacking `zip_file` into `extract_to`; the first action is
    /// to open the archive.
    pub fn start(zip_file: &str, extract_to: &str) -> (res: (ExtractSession, ExtractAction))
        ensures
            res.0.wf(),
            res.0.phase == ExtractPhase::Opening,
            res.0.extract_to@ == extract_to@,
            res.1 matches ExtractAction::OpenArchive { zip_file: z } && z@ == zip_file@,
    {
        (
            ExtractSession {
                phase: ExtractPhase::Opening,
                extract_to: String::from_str(extract_to),
                entry_count: 0,
                index: 0,
            },
            ExtractAction::OpenArchive { zip_file: String::from_str(zip_file) },
        )
    }

    /// Handles the opening of the archive, given its number of entries: a
    /// failure ends the unpacking with it; an empty archive ends it
    /// successfully; otherwise the first entry's name is read.
    pub fn on_opened(&mut self, outcome: Result<usize, SubmissionError>) -> (action: ExtractAction)
        requires
            old(self).phase == ExtractPhase::Opening,
        ensures
            final(self).wf(),
            final(self).extract_to == old(self).extract_to,
            final(self).index == 0,
            match outcome {
                Err(e) => final(self).phase == ExtractPhase::Done && is_extract_failure(
                    action,
                    e@,
                ),
                Ok(n) => {
                    &&& final(self).entry_count == n
                    &&& n == 0 ==> final(self).phase == ExtractPhase::Done && is_extract_success(
                        action,
                    )
                    &&& n > 0 ==> final(self).phase == ExtractPhase::Naming && is_read_name(
                        action,
                        0,
                    )
                },
            },
    {
        self.index = 0;
        match outcome {
            Err(e) => {
                self.phase = ExtractPhase::Done;
                ExtractAction::Finish { outcome: Err(e) }
            },
            Ok(n) => {
                self.entry_count = n;
                if n == 0 {
                    self.phase = ExtractPhase::Done;
                    ExtractAction::Finish { outcome: Ok(()) }
                } else {
                    self.phase = ExtractPhase::Naming;
                    ExtractAction::ReadEntryName { index: 0 }
                }
            },
        }
    }

    /// Handles the name of the current entry, or the error it could not be
    /// read with: the entry is planned as [`plan_zip_entry`] says, and an
    /// entry that cannot be planned ends the unpacking.
    pub fn on_entry_name(&mut self, name: Result<String, String>) -> (action: ExtractAction)
        requires
            old(self).wf(),
            old(self).phase == ExtractPhase::Naming,
        ensures
            final(self).wf(),
            final(self).extract_to == old(self).extract_to,
            final(self).entry_count == old(self).entry_count,
            final(self).index == old(self).index,
            match name {
                Err(e) => final(self).phase == ExtractPhase::Done && is_extract_failure(
                    action,
                    ErrorView::BuildError(e@),
                ),
                Ok(n) => {
                    &&& final(self).phase == ExtractPhase::Unpacking
                    &&& action matches ExtractAction::Unpack { index, entry } && index
                        == old(self).index && is_entry_plan(entry, old(self).extract_to@, n@)
                },
            },
    {
        match plan_zip_entry(self.extract_to.as_str(), name) {
            Err(e) => {
                self.phase = ExtractPhase::Done;
                ExtractAction::Finish { outcome: Err(e) }
            },
            Ok(entry) => {
                self.phase = ExtractPhase::Unpacking;
                ExtractAction::Unpack { index: self.index, entry }
            },
        }
    }

    /// Handles the unpacking of the current entry: a failure ends the
    /// unpacking with it; otherwise the next entry's name is read or, after
    /// the last entry, the unpacking ends successfully.
    pub fn on_unpacked(&mut self, outcome: Result<(), SubmissionError>) -> (action: ExtractAction)
        requires
            old(self).wf(),
            old(self).phase == ExtractPhase::Unpacking,
        ensures
            final(self).wf(),
            final(self).extract_to == old(self).extract_to,
            final(self).entry_count == old(self).entry_count,
            match outcome {
                Err(e) => final(self).phase == ExtractPhase::Done && final(self).index == old(
                    self,
                ).index && is_extract_failure(action, e@),
                Ok(()) => {
                    &&& final(self).index == old(self).index + 1
                    &&& final(self).index < old(self).entry_count ==> final(self).phase
                        == ExtractPhase::Naming && is_read_name(action, final(self).index)
                    &&& final(self).index == old(self).entry_count ==> final(self).phase
                        == ExtractPhase::Done && is_extract_success(action)
                },
            },
    {
        match outcome {
            Err(e) => {
                self.phase = ExtractPhase::Done;
                ExtractAction::Finish { outcome: Err(e) }
            },
            Ok(()) => {
                self.index = self.index + 1;
                if self.index < self.entry_count {
                    self.phase = ExtractPhase::Naming;
                    ExtractAction::ReadEntryName { index: self.index }
                } else {
                    self.phase = ExtractPhase::Done;
                    ExtractAction::Finish { outcome: Ok(()) }
                }
            },
        }
    }
}

} // verus!

verus! {

/// An image tag is "iicpc_submission:" followed by the whole submission
/// identifier, so two different submissions never share a tag.
pub proof fn lemma_image_tag_holds_id(a: Seq<char>, b: Seq<char>)
    ensures
        image_tag_of(a).len() == 17 + a.len(),
        image_tag_of(a).subrange(0, 17) == "iicpc_submission:"@,
        image_tag_of(a).skip(17) == a,
        image_tag_of(a) == image_tag_of(b) ==> a == b,
{
    reveal_strlit("iicpc_submission:");
    assert(image_tag_of(a).subrange(0, 17) =~= "iicpc_submission:"@);
    assert(image_tag_of(a).skip(17) =~= a);
    assert(image_tag_of(b).skip(17) =~= b);
}

} // verus!
