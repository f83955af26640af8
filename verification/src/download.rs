//! The artifact cache: what to fetch, from where, to where, and how a fetch
//! proceeds. An artifact is complete exactly where its output path exists.

use crate::disk::{present, Disk, DiskView};
use crate::env::{BuildEnv, BuildEnvView};
use crate::error::{results_view, BuildError, BuildErrorView};
use crate::path::{
    file_name, file_name_of, is_below, join, joined, lemma_joined_parts, parent, parent_of,
};
use crate::target::{CompileTarget, Opt, Platform};
use crate::text::{contains_char, decimal, decimal_text, ends_with, views};
use vstd::prelude::*;
use vstd::string::StringExecFns;

verus! {

broadcast use vstd::string::group_string_axioms;

/// The address of the artifact `artifact` of the release `version` of the
/// repository `name` of the organisation `org`.
pub open spec fn github_url(
    org: Seq<char>,
    name: Seq<char>,
    version: Seq<char>,
    artifact: Seq<char>,
) -> Seq<char> {
    "https://github.com/"@ + org + "/"@ + name + "/releases/download/"@ + version + "/"@
        + artifact
}

/// Whether an archive entry is unpacked under the two filters: not a
/// symbolic link where links are skipped, and no colon in its path where
/// colons are skipped.
pub open spec fn keeps(
    no_symlinks: bool,
    no_colons: bool,
    is_symlink: bool,
    path: Seq<char>,
) -> bool {
    !(no_symlinks && is_symlink) && !(no_colons && path.contains(':'))
}

/// One request to fetch an artifact: where it comes from, where it goes, and
/// which archive entries are left out on the way.
#[derive(Clone, Debug, PartialEq, Eq)]
pub struct WorkItem {
    url: String,
    output: String,
    no_symlinks: bool,
    no_colons: bool,
}

/// The mathematical value of a [`WorkItem`].
pub struct WorkItemView {
    /// The source address.
    pub url: Seq<char>,
    /// The destination path.
    pub output: Seq<char>,
    /// Whether symbolic links are left out.
    pub no_symlinks: bool,
    /// Whether entries with a colon in their path are left out.
    pub no_colons: bool,
}

impl WorkItemView {
    /// The request for `output` from `url`, with no filter.
    pub open spec fn plain(output: Seq<char>, url: Seq<char>) -> WorkItemView {
        WorkItemView { url, output, no_symlinks: false, no_colons: false }
    }

    /// The request for `output` from a release of the shared SDK repository.
    pub open spec fn sdk(output: Seq<char>, artifact: Seq<char>) -> WorkItemView {
        WorkItemView::plain(output, github_url("cloudpeers"@, "x"@, "v0.1.0+2"@, artifact))
    }

    /// Whether the entry is unpacked.
    pub open spec fn keeps_entry(self, is_symlink: bool, path: Seq<char>) -> bool {
        keeps(self.no_symlinks, self.no_colons, is_symlink, path)
    }
}

impl View for WorkItem {
    type V = WorkItemView;

    closed spec fn view(&self) -> WorkItemView {
        WorkItemView {
            url: self.url@,
            output: self.output@,
            no_symlinks: self.no_symlinks,
            no_colons: self.no_colons,
        }
    }
}

impl WorkItem {
    /// The request for `output` from `url`. Both filters are off.
    pub fn new(output: String, url: String) -> (out: WorkItem)
        ensures
            out@ == WorkItemView::plain(output@, url@),
    {
        WorkItem { url, output, no_symlinks: false, no_colons: false }
    }

    /// Leaves symbolic links out. The Windows SDK holds links that exist
    /// for file systems that tell upper from lower case.
    pub fn no_symlinks(&mut self) -> (out: &mut WorkItem)
        ensures
            out@ == (WorkItemView { no_symlinks: true, ..old(self)@ }),
            *final(self) == *final(out),
    {
        self.no_symlinks = true;
        self
    }

    /// Leaves entries with a colon in their path out. The macOS SDK holds
    /// manual pages with such names, which Windows cannot store.
    pub fn no_colons(&mut self) -> (out: &mut WorkItem)
        ensures
            out@ == (WorkItemView { no_colons: true, ..old(self)@ }),
            *final(self) == *final(out),
    {
        self.no_colons = true;
        self
    }

    /// The request for `output` from a release on GitHub:
    /// `https://github.com/<org>/<name>/releases/download/<version>/<artifact>`.
    pub fn github_release(output: String, org: &str, name: &str, version: &str, artifact: &str)
        -> (out: WorkItem)
        ensures
            out@ == WorkItemView::plain(output@, github_url(org@, name@, version@, artifact@)),
    {
        let mut url = String::from_str("https://github.com/");
        url.append(org);
        url.append("/");
        url.append(name);
        url.append("/releases/download/");
        url.append(version);
        url.append("/");
        url.append(artifact);
        WorkItem::new(output, url)
    }

    /// The source address.
    pub fn url(&self) -> (out: &str)
        ensures
            out@ == self@.url,
    {
        self.url.as_str()
    }

    /// The destination path.
    pub fn output(&self) -> (out: &str)
        ensures
            out@ == self@.output,
    {
        self.output.as_str()
    }

    /// Whether symbolic links are left out.
    pub fn skips_symlinks(&self) -> (out: bool)
        ensures
            out == self@.no_symlinks,
    {
        self.no_symlinks
    }

    /// Whether entries with a colon in their path are left out.
    pub fn skips_colons(&self) -> (out: bool)
        ensures
            out == self@.no_colons,
    {
        self.no_colons
    }

    /// Whether the request can be fetched: an archive that is unpacked
    /// beside its output needs an output that lies in a directory.
    pub fn is_fetchable(&self) -> (out: bool)
        ensures
            out == self@.fetchable(),
    {
        let name = file_name(self.url.as_str());
        match archive_kind_of(name.as_str()) {
            ArchiveKind::TarZst | ArchiveKind::Zip => parent(self.output.as_str()).is_some(),
            _ => true,
        }
    }

    /// Whether the archive entry at `path`, a symbolic link or not, is
    /// unpacked.
    pub fn keeps_entry(&self, is_symlink: bool, path: &str) -> (out: bool)
        ensures
            out == self@.keeps_entry(is_symlink, path@),
    {
        if self.no_symlinks && is_symlink {
            return false;
        }
        if self.no_colons && contains_char(path, ':') {
            return false;
        }
        true
    }
}

/// How an artifact is packed, by the ending of its name.
#[derive(Clone, Copy, Debug, PartialEq, Eq, Structural, Hash)]
pub enum ArchiveKind {
    /// A tar archive compressed with zstd: `*.tar.zst`.
    TarZst,
    /// A zip archive that holds a zip archive of the same name:
    /// `*.framework.zip`.
    FrameworkZip,
    /// A zip archive: `*.zip`.
    Zip,
    /// Not packed: the file itself.
    Plain,
}

/// How the artifact named `name` is packed.
pub open spec fn archive_kind(name: Seq<char>) -> ArchiveKind {
    if ".tar.zst"@.is_suffix_of(name) {
        ArchiveKind::TarZst
    } else if ".framework.zip"@.is_suffix_of(name) {
        ArchiveKind::FrameworkZip
    } else if ".zip"@.is_suffix_of(name) {
        ArchiveKind::Zip
    } else {
        ArchiveKind::Plain
    }
}

/// How the artifact named `name` is packed.
pub fn archive_kind_of(name: &str) -> (out: ArchiveKind)
    ensures
        out == archive_kind(name@),
{
    if ends_with(name, ".tar.zst") {
        ArchiveKind::TarZst
    } else if ends_with(name, ".framework.zip") {
        ArchiveKind::FrameworkZip
    } else if ends_with(name, ".zip") {
        ArchiveKind::Zip
    } else {
        ArchiveKind::Plain
    }
}

/// One step of a fetch.
#[derive(Clone, Debug, PartialEq, Eq)]
pub enum FetchStep {
    /// Get `url` and write the body to the file `dest`.
    Download { url: String, dest: String },
    /// Create the directory `dest` and unpack the tar archive `archive`,
    /// compressed with zstd, into it, entry by entry, under the two filters.
    Untar { archive: String, dest: String, no_symlinks: bool, no_colons: bool },
    /// Create the directory `path` and the directories above it.
    CreateDirAll { path: String },
    /// Unpack the zip archive `archive` into the directory `dest`.
    Unzip { archive: String, dest: String },
}

/// The mathematical value of a [`FetchStep`].
#[verifier::ext_equal]
pub enum FetchStepView {
    Download { url: Seq<char>, dest: Seq<char> },
    Untar { archive: Seq<char>, dest: Seq<char>, no_symlinks: bool, no_colons: bool },
    CreateDirAll { path: Seq<char> },
    Unzip { archive: Seq<char>, dest: Seq<char> },
}

impl View for FetchStep {
    type V = FetchStepView;

    open spec fn view(&self) -> FetchStepView {
        match *self {
            FetchStep::Download { url, dest } => FetchStepView::Download {
                url: url@,
                dest: dest@,
            },
            FetchStep::Untar { archive, dest, no_symlinks, no_colons } => FetchStepView::Untar {
                archive: archive@,
                dest: dest@,
                no_symlinks,
                no_colons,
            },
            FetchStep::CreateDirAll { path } => FetchStepView::CreateDirAll { path: path@ },
            FetchStep::Unzip { archive, dest } => FetchStepView::Unzip {
                archive: archive@,
                dest: dest@,
            },
        }
    }
}

impl FetchStepView {
    /// The error that this step failed with, given the words `detail` of
    /// what went wrong: a download fails to fetch its address, every other
    /// step fails to unpack its archive.
    pub open spec fn failure(self, detail: Seq<char>) -> BuildErrorView {
        match self {
            FetchStepView::Download { url, dest } => BuildErrorView::FetchTransport {
                url,
                detail,
            },
            FetchStepView::Untar { archive, dest, no_symlinks, no_colons } => {
                BuildErrorView::Archive { archive, detail }
            },
            FetchStepView::CreateDirAll { path } => BuildErrorView::Archive {
                archive: path,
                detail,
            },
            FetchStepView::Unzip { archive, dest } => BuildErrorView::Archive { archive, detail },
        }
    }
}

impl FetchStep {
    /// The error that this step failed with, given the words `detail` of
    /// what went wrong.
    pub fn failure(&self, detail: &str) -> (out: BuildError)
        ensures
            out@ == self@.failure(detail@),
    {
        let detail = String::from_str(detail);
        match self {
            FetchStep::Download { url, dest } => BuildError::FetchTransport {
                url: url.clone(),
                detail,
            },
            FetchStep::Untar { archive, dest, no_symlinks, no_colons } => BuildError::Archive {
                archive: archive.clone(),
                detail,
            },
            FetchStep::CreateDirAll { path } => BuildError::Archive {
                archive: path.clone(),
                detail,
            },
            FetchStep::Unzip { archive, dest } => BuildError::Archive {
                archive: archive.clone(),
                detail,
            },
        }
    }
}

impl WorkItemView {
    /// The name of the artifact: the last component of the source address.
    pub open spec fn name(self) -> Seq<char> {
        file_name_of(self.url)
    }

    /// Whether the request can be fetched: an archive that is unpacked
    /// beside its output needs an output that lies in a directory.
    pub open spec fn fetchable(self) -> bool {
        (archive_kind(self.name()) == ArchiveKind::TarZst || archive_kind(self.name())
            == ArchiveKind::Zip) ==> parent_of(self.output) is Some
    }

    /// The steps that materialize the request below the cache root `cache`,
    /// in order. Downloads are staged at `<cache>/download/<name>`; archives
    /// are unpacked into the directory that holds the output; a doubly packed
    /// framework is unpacked first into `<cache>/framework` and from there
    /// into the output; anything else is downloaded straight to the output.
    pub open spec fn steps(self, cache: Seq<char>) -> Seq<FetchStepView> {
        let name = self.name();
        let archive = joined(joined(cache, "download"@), name);
        match archive_kind(name) {
            ArchiveKind::TarZst => seq![
                FetchStepView::Download { url: self.url, dest: archive },
                FetchStepView::Untar {
                    archive,
                    dest: parent_of(self.output)->0,
                    no_symlinks: self.no_symlinks,
                    no_colons: self.no_colons,
                },
            ],
            ArchiveKind::FrameworkZip => {
                let staging = joined(cache, "framework"@);
                seq![
                    FetchStepView::Download { url: self.url, dest: archive },
                    FetchStepView::Unzip { archive, dest: staging },
                    FetchStepView::CreateDirAll { path: self.output },
                    FetchStepView::Unzip { archive: joined(staging, name), dest: self.output },
                ]
            },
            ArchiveKind::Zip => seq![
                FetchStepView::Download { url: self.url, dest: archive },
                FetchStepView::Unzip { archive, dest: parent_of(self.output)->0 },
            ],
            ArchiveKind::Plain => seq![
                FetchStepView::Download { url: self.url, dest: self.output },
            ],
        }
    }
}

/// What is removed after a failed fetch, so that no partial output stays
/// behind. The removal is attempted once; whether it succeeds is not asked.
#[derive(Clone, Debug, PartialEq, Eq)]
pub enum Cleanup {
    /// Remove the directory `path` and all that it holds.
    RemoveDirAll { path: String },
    /// Remove the file `path`.
    RemoveFile { path: String },
}

/// The mathematical value of a [`Cleanup`].
pub enum CleanupView {
    RemoveDirAll { path: Seq<char> },
    RemoveFile { path: Seq<char> },
}

impl CleanupView {
    /// The path that is removed.
    pub open spec fn path(self) -> Seq<char> {
        match self {
            CleanupView::RemoveDirAll { path } => path,
            CleanupView::RemoveFile { path } => path,
        }
    }

    /// The disk as the removal leaves it: without the file, or without the
    /// directory and all that lies below it.
    pub open spec fn leaves(self, disk: DiskView) -> DiskView {
        match self {
            CleanupView::RemoveFile { path } => disk.remove(path),
            CleanupView::RemoveDirAll { path } => disk.remove_keys(
                Set::new(|p: Seq<char>| p == path || is_below(p, path)),
            ),
        }
    }
}

impl View for Cleanup {
    type V = CleanupView;

    open spec fn view(&self) -> CleanupView {
        match *self {
            Cleanup::RemoveDirAll { path } => CleanupView::RemoveDirAll { path: path@ },
            Cleanup::RemoveFile { path } => CleanupView::RemoveFile { path: path@ },
        }
    }
}

/// A fetch under way: the steps that materialize one output, how many of
/// them are done, and the failure that ended it, if one did. Whoever runs the
/// fetch performs the current step and reports how it went.
#[derive(Clone, Debug, PartialEq, Eq)]
pub struct Fetch {
    output: String,
    steps: Vec<FetchStep>,
    done: usize,
    failure: Option<BuildError>,
}

/// The mathematical value of a [`Fetch`].
pub struct FetchView {
    /// The path whose existence means that the artifact is complete.
    pub output: Seq<char>,
    /// The steps of the fetch, in order.
    pub steps: Seq<FetchStepView>,
    /// How many steps are done.
    pub done: nat,
    /// The failure that ended the fetch.
    pub failure: Option<BuildErrorView>,
}

impl FetchView {
    /// The fetch of `item` as it begins: with nothing to do where the output
    /// is on disk already, with all steps ahead where it is not.
    pub open spec fn begin(cache: Seq<char>, item: WorkItemView, disk: DiskView) -> FetchView {
        FetchView {
            output: item.output,
            steps: if present(disk, item.output) {
                Seq::empty()
            } else {
                item.steps(cache)
            },
            done: 0,
            failure: None,
        }
    }

    /// The step to perform next, while there is one.
    pub open spec fn current(self) -> Option<FetchStepView> {
        if self.failure is None && self.done < self.steps.len() {
            Some(self.steps[self.done as int])
        } else {
            None
        }
    }

    /// The fetch after its current step went well.
    pub open spec fn succeed(self) -> FetchView {
        if self.current() is Some {
            FetchView { done: self.done + 1, ..self }
        } else {
            self
        }
    }

    /// The fetch after its current step failed with `cause`.
    pub open spec fn fail(self, cause: BuildErrorView) -> FetchView {
        if self.current() is Some {
            FetchView { failure: Some(cause), ..self }
        } else {
            self
        }
    }

    /// What a failure of the current step leaves to remove: the output, as a
    /// directory with all it holds or as a file.
    pub open spec fn cleanup(self, output_is_dir: bool) -> Option<CleanupView> {
        if self.current() is Some {
            if output_is_dir {
                Some(CleanupView::RemoveDirAll { path: self.output })
            } else {
                Some(CleanupView::RemoveFile { path: self.output })
            }
        } else {
            None
        }
    }

    /// How the fetch ended, once it has.
    pub open spec fn result(self) -> Option<Result<(), BuildErrorView>> {
        match self.failure {
            Some(e) => Some(Err(e)),
            None => if self.done >= self.steps.len() {
                Some(Ok(()))
            } else {
                None
            },
        }
    }

    /// How many steps are still to be performed.
    pub open spec fn remaining(self) -> nat {
        if self.current() is Some {
            (self.steps.len() - self.done) as nat
        } else {
            0
        }
    }
}

/// The view of an optional error.
pub open spec fn opt_error_view(e: Option<BuildError>) -> Option<BuildErrorView> {
    match e {
        Some(e) => Some(e@),
        None => None,
    }
}

impl View for Fetch {
    type V = FetchView;

    closed spec fn view(&self) -> FetchView {
        FetchView {
            output: self.output@,
            steps: views(self.steps@),
            done: self.done as nat,
            failure: opt_error_view(self.failure),
        }
    }
}

impl Fetch {
    /// The step to perform next, while there is one.
    pub fn current(&self) -> (out: Option<&FetchStep>)
        ensures
            match out {
                Some(step) => self@.current() == Some(step@),
                None => self@.current() is None,
            },
    {
        if self.failure.is_none() && self.done < self.steps.len() {
            Some(&self.steps[self.done])
        } else {
            None
        }
    }

    /// Reports that the current step went well. Without a current step
    /// nothing changes.
    pub fn succeed(&mut self)
        ensures
            final(self)@ == old(self)@.succeed(),
    {
        if self.failure.is_none() && self.done < self.steps.len() {
            self.done = self.done + 1;
        }
    }

    /// Reports that the current step failed with `cause`, and says what to
    /// remove: the output, as the directory that it is (`output_is_dir`) or
    /// as a file. The fetch is over with that failure; it is not tried again.
    /// Without a current step nothing changes and nothing is removed.
    pub fn fail(&mut self, cause: BuildError, output_is_dir: bool) -> (out: Option<Cleanup>)
        ensures
            final(self)@ == old(self)@.fail(cause@),
            match out {
                Some(c) => old(self)@.cleanup(output_is_dir) == Some(c@),
                None => old(self)@.cleanup(output_is_dir) is None,
            },
    {
        if self.failure.is_none() && self.done < self.steps.len() {
            self.failure = Some(cause);
            let path = self.output.clone();
            if output_is_dir {
                Some(Cleanup::RemoveDirAll { path })
            } else {
                Some(Cleanup::RemoveFile { path })
            }
        } else {
            None
        }
    }

    /// How the fetch ended, once it has: well, when no step is left, or with
    /// the failure of a step.
    pub fn result(&self) -> (out: Option<Result<(), BuildError>>)
        ensures
            match out {
                None => self@.result() is None,
                Some(Ok(_)) => self@.result() == Some(Ok::<(), BuildErrorView>(())),
                Some(Err(e)) => self@.result() == Some(Err::<(), BuildErrorView>(e@)),
            },
    {
        match &self.failure {
            Some(e) => Some(Err(e.clone())),
            None => {
                if self.done >= self.steps.len() {
                    Some(Ok(()))
                } else {
                    None
                }
            },
        }
    }

    /// The path whose existence means that the artifact is complete.
    pub fn output(&self) -> (out: &str)
        ensures
            out@ == self@.output,
    {
        self.output.as_str()
    }
}

/// A fetch that begins with its output on disk has no step to take, has
/// ended well and removes nothing: fetching again what was fetched is no
/// work, and what is complete is never deleted.
pub proof fn lemma_fetch_is_idempotent(cache: Seq<char>, item: WorkItemView, disk: DiskView)
    requires
        present(disk, item.output),
    ensures
        FetchView::begin(cache, item, disk).current() is None,
        FetchView::begin(cache, item, disk).remaining() == 0,
        FetchView::begin(cache, item, disk).result() == Some(Ok::<(), BuildErrorView>(())),
        forall|output_is_dir: bool|
            FetchView::begin(cache, item, disk).cleanup(output_is_dir) is None,
{
}

/// Every report brings a fetch nearer to its end: a step that went well
/// leaves one step fewer, a failure leaves none, and a fetch without a step
/// to take has ended.
pub proof fn lemma_fetch_progress(fetch: FetchView, cause: BuildErrorView)
    requires
        fetch.done <= fetch.steps.len(),
    ensures
        fetch.current() is Some ==> fetch.succeed().remaining() < fetch.remaining(),
        fetch.current() is Some ==> fetch.fail(cause).remaining() == 0,
        fetch.current() is None <==> fetch.result() is Some,
        fetch.current() is None <==> fetch.remaining() == 0,
        fetch.succeed().done <= fetch.succeed().steps.len(),
{
}

/// A fetch never ends with an error without having named its output for
/// removal: the failure of a step ends the fetch with that failure, leaves no
/// further step, and yields the removal of the output, be it a directory or
/// a file; once that removal is carried out on any disk, the output is absent
/// from it. A fetch that has not failed so far cannot report an error.
pub proof fn lemma_failure_cleans_up(
    fetch: FetchView,
    cause: BuildErrorView,
    output_is_dir: bool,
    disk: DiskView,
)
    ensures
        fetch.failure is None ==> !(fetch.result() is Some && fetch.result()->0 is Err),
        fetch.current() is Some ==> {
            &&& fetch.cleanup(output_is_dir) is Some
            &&& fetch.cleanup(output_is_dir)->0.path() == fetch.output
            &&& !present(fetch.cleanup(output_is_dir)->0.leaves(disk), fetch.output)
            &&& fetch.fail(cause).result() == Some(Err::<(), BuildErrorView>(cause))
            &&& fetch.fail(cause).current() is None
        },
        fetch.current() is None ==> fetch.fail(cause) == fetch,
{
}

/// What the start of a download shows to the user while the body arrives.
#[derive(Clone, Debug, PartialEq, Eq)]
pub struct Transfer {
    /// The file that receives the body.
    pub dest: String,
    /// The label of the progress display: the file name of `dest`.
    pub label: String,
    /// The number of bytes to expect, 0 where the server did not say.
    pub length: u64,
}

/// The request for the Android platform library of one API level.
#[derive(Clone, Debug, PartialEq, Eq)]
pub struct AndroidJar {
    /// The directory of the Android SDK, below which the package is unpacked.
    pub sdk_dir: String,
    /// The name of the package in the SDK repository.
    pub package: String,
    /// The one file of the package that is wanted.
    pub path: String,
}

/// One thing that a build needs to have in the cache before it starts.
#[derive(Clone, Debug, PartialEq, Eq)]
pub enum Prefetch {
    /// An SDK, fetched as the work item says.
    Sdk(WorkItem),
    /// The Android platform library.
    AndroidJar,
    /// The engine artifacts for one variant.
    Engine(CompileTarget),
    /// The shared fonts.
    MaterialFonts,
    /// The tool that compiles class files to dex files.
    R8,
    /// The engine's Android embedding.
    FlutterEmbedding,
}

/// The mathematical value of a [`Prefetch`].
pub enum PrefetchView {
    Sdk(WorkItemView),
    AndroidJar,
    Engine(CompileTarget),
    MaterialFonts,
    R8,
    FlutterEmbedding,
}

impl PrefetchView {
    /// Whether this is the request for an SDK or a part of one.
    pub open spec fn is_sdk(self) -> bool {
        self is Sdk || self is AndroidJar
    }
}

impl View for Prefetch {
    type V = PrefetchView;

    open spec fn view(&self) -> PrefetchView {
        match *self {
            Prefetch::Sdk(item) => PrefetchView::Sdk(item@),
            Prefetch::AndroidJar => PrefetchView::AndroidJar,
            Prefetch::Engine(target) => PrefetchView::Engine(target),
            Prefetch::MaterialFonts => PrefetchView::MaterialFonts,
            Prefetch::R8 => PrefetchView::R8,
            Prefetch::FlutterEmbedding => PrefetchView::FlutterEmbedding,
        }
    }
}

/// The requests for the engine artifacts of each of `targets`, in order.
pub open spec fn engines(targets: Seq<CompileTarget>) -> Seq<PrefetchView> {
    Seq::new(targets.len(), |i: int| PrefetchView::Engine(targets[i]))
}

/// Whether the status of a response is a success.
pub open spec fn is_success(status: u16) -> bool {
    200 <= status < 300
}

impl BuildEnvView {
    /// The request for the Windows SDK. Its symbolic links are left out.
    pub open spec fn windows_sdk_item(self) -> WorkItemView {
        WorkItemView {
            no_symlinks: true,
            ..WorkItemView::sdk(self.windows_sdk(), "Windows.sdk.tar.zst"@)
        }
    }

    /// The request for the macOS SDK. On a Windows host the entries with a
    /// colon in their path are left out.
    pub open spec fn macos_sdk_item(self) -> WorkItemView {
        WorkItemView {
            no_colons: self.host.is_windows(),
            ..WorkItemView::sdk(self.macos_sdk(), "MacOSX.sdk.tar.zst"@)
        }
    }

    /// The request for the Android NDK.
    pub open spec fn android_ndk_item(self) -> WorkItemView {
        WorkItemView::sdk(self.android_ndk(), "Android.ndk.tar.zst"@)
    }

    /// The request for the iOS SDK. On a Windows host the entries with a
    /// colon in their path are left out.
    pub open spec fn ios_sdk_item(self) -> WorkItemView {
        WorkItemView {
            no_colons: self.host.is_windows(),
            ..WorkItemView::sdk(self.ios_sdk(), "iPhoneOS.sdk.tar.zst"@)
        }
    }

    /// The SDKs that the target needs. The SDK of the host's own platform is
    /// never among them: the host's tools serve. Linux can only be built on
    /// Linux.
    pub open spec fn sdk_prefetch(self) -> Result<Seq<PrefetchView>, BuildErrorView> {
        match self.target.platform {
            Platform::Android => Ok(
                seq![PrefetchView::Sdk(self.android_ndk_item()), PrefetchView::AndroidJar],
            ),
            Platform::Ios => Ok(seq![PrefetchView::Sdk(self.ios_sdk_item())]),
            target => match self.host.platform() {
                Err(e) => Err(e),
                Ok(host) => if host == target {
                    Ok(Seq::empty())
                } else {
                    match target {
                        Platform::Windows => Ok(seq![PrefetchView::Sdk(self.windows_sdk_item())]),
                        Platform::Macos => Ok(seq![PrefetchView::Sdk(self.macos_sdk_item())]),
                        _ => Err(BuildErrorView::UnsupportedCombination { target, host }),
                    }
                },
            },
        }
    }

    /// What the engine toolchain needs, where the application uses one: the
    /// engine for every variant to build and for the host at the debug level,
    /// the shared fonts, and for an Android build with class files the dex
    /// compiler and the embedding.
    pub open spec fn engine_prefetch(self, build_classes_dex: bool) -> Result<
        Seq<PrefetchView>,
        BuildErrorView,
    > {
        if self.flutter is None {
            Ok(Seq::empty())
        } else {
            match self.host.target() {
                Err(e) => Err(e),
                Ok(host) => {
                    let engines = engines(self.target.compile_targets().push(host));
                    let dex = if build_classes_dex && self.target.platform == Platform::Android {
                        seq![PrefetchView::R8, PrefetchView::FlutterEmbedding]
                    } else {
                        Seq::empty()
                    };
                    Ok(engines + seq![PrefetchView::MaterialFonts] + dex)
                },
            }
        }
    }

    /// All that the build needs in the cache, in the order in which it is
    /// fetched.
    pub open spec fn prefetch(self, build_classes_dex: bool) -> Result<
        Seq<PrefetchView>,
        BuildErrorView,
    > {
        match self.sdk_prefetch() {
            Err(e) => Err(e),
            Ok(sdks) => match self.engine_prefetch(build_classes_dex) {
                Err(e) => Err(e),
                Ok(engine) => Ok(sdks + engine),
            },
        }
    }
}

/// Fetches artifacts into the cache of one build environment.
#[derive(Clone, Debug)]
pub struct DownloadManager<'a> {
    env: &'a BuildEnv,
}

impl<'a> DownloadManager<'a> {
    /// The environment that the manager serves.
    pub closed spec fn env_spec(&self) -> BuildEnv {
        *self.env
    }

    /// The manager for `env`.
    pub fn new(env: &'a BuildEnv) -> (out: DownloadManager<'a>)
        ensures
            out.env_spec() == *env,
    {
        DownloadManager { env }
    }

    /// The environment that the manager serves.
    pub fn env(&self) -> (out: &BuildEnv)
        ensures
            *out == self.env_spec(),
    {
        self.env
    }

    /// Judges the answer to the request for `url`, before its body is
    /// written to `dest`: a status that is no success is an error.
    pub fn download(&self, url: &str, dest: &str, status: u16, content_length: Option<u64>) -> (out:
        Result<Transfer, BuildError>)
        ensures
            match out {
                Ok(t) => {
                    &&& is_success(status)
                    &&& t.dest@ == dest@
                    &&& t.label@ == file_name_of(dest@)
                    &&& t.length == match content_length {
                        Some(n) => n,
                        None => 0,
                    }
                },
                Err(e) => !is_success(status) && e@ == (BuildErrorView::FetchStatus {
                    url: url@,
                    status,
                }),
            },
    {
        if status < 200 || status >= 300 {
            return Err(BuildError::FetchStatus { url: String::from_str(url), status });
        }
        let length = match content_length {
            Some(n) => n,
            None => 0,
        };
        Ok(Transfer { dest: String::from_str(dest), label: file_name(dest), length })
    }

    /// Begins the fetch of `item`. Where `disk` shows the output, the fetch
    /// has nothing to do and has ended well; where not, all steps are ahead.
    pub fn fetch(&self, item: WorkItem, disk: &Disk) -> (out: Fetch)
        requires
            item@.fetchable(),
        ensures
            out@ == FetchView::begin(self.env_spec()@.cache_dir, item@, disk@),
    {
        let mut steps: Vec<FetchStep> = Vec::new();
        let ghost expected = item@.steps(self.env_spec()@.cache_dir);
        if !disk.has(item.output()) {
            let name = file_name(item.url());
            let download_dir = self.env.download_dir();
            let archive = join(download_dir.as_str(), name.as_str());
            let url = String::from_str(item.url());
            match archive_kind_of(name.as_str()) {
                ArchiveKind::TarZst => {
                    let dest = parent(item.output()).unwrap();
                    steps.push(FetchStep::Download { url, dest: archive.clone() });
                    steps.push(
                        FetchStep::Untar {
                            archive,
                            dest,
                            no_symlinks: item.skips_symlinks(),
                            no_colons: item.skips_colons(),
                        },
                    );
                },
                ArchiveKind::FrameworkZip => {
                    let staging = join(self.env.cache_dir(), "framework");
                    let nested = join(staging.as_str(), name.as_str());
                    steps.push(FetchStep::Download { url, dest: archive.clone() });
                    steps.push(FetchStep::Unzip { archive, dest: staging });
                    steps.push(FetchStep::CreateDirAll { path: String::from_str(item.output()) });
                    steps.push(
                        FetchStep::Unzip { archive: nested, dest: String::from_str(item.output()) },
                    );
                },
                ArchiveKind::Zip => {
                    let dest = parent(item.output()).unwrap();
                    steps.push(FetchStep::Download { url, dest: archive.clone() });
                    steps.push(FetchStep::Unzip { archive, dest });
                },
                ArchiveKind::Plain => {
                    steps.push(FetchStep::Download { url, dest: String::from_str(item.output()) });
                },
            }
            assert(views(steps@) =~= expected);
        } else {
            assert(views(steps@) =~= Seq::<FetchStepView>::empty());
        }
        Fetch { output: String::from_str(item.output()), steps, done: 0, failure: None }
    }

    /// The request for the Android platform library of the targeted API
    /// level, unless `disk` shows that it is there.
    pub fn android_jar(&self, disk: &Disk) -> (out: Option<AndroidJar>)
        ensures
            match out {
                None => present(disk@, self.env_spec()@.android_jar()),
                Some(jar) => {
                    &&& !present(disk@, self.env_spec()@.android_jar())
                    &&& jar.sdk_dir@ == self.env_spec()@.android_sdk()
                    &&& jar.package@ == "platforms;"@ + self.env_spec()@.android_platform()
                    &&& jar.path@ == self.env_spec()@.android_jar()
                },
            },
    {
        let path = self.env.android_jar();
        if disk.has(path.as_str()) {
            None
        } else {
            let platform = self.env.android_platform();
            let mut package = String::from_str("platforms;");
            package.append(platform.as_str());
            Some(AndroidJar { sdk_dir: self.env.android_sdk(), package, path })
        }
    }

    /// The request for the Windows SDK.
    pub fn windows_sdk(&self) -> (out: WorkItem)
        ensures
            out@ == self.env_spec()@.windows_sdk_item(),
    {
        let mut item = WorkItem::github_release(
            self.env.windows_sdk(),
            "cloudpeers",
            "x",
            "v0.1.0+2",
            "Windows.sdk.tar.zst",
        );
        item.no_symlinks();
        item
    }

    /// The request for the macOS SDK.
    pub fn macos_sdk(&self) -> (out: WorkItem)
        ensures
            out@ == self.env_spec()@.macos_sdk_item(),
    {
        let mut item = WorkItem::github_release(
            self.env.macos_sdk(),
            "cloudpeers",
            "x",
            "v0.1.0+2",
            "MacOSX.sdk.tar.zst",
        );
        if self.env.host().is_windows() {
            item.no_colons();
        }
        item
    }

    /// The request for the Android NDK.
    pub fn android_ndk(&self) -> (out: WorkItem)
        ensures
            out@ == self.env_spec()@.android_ndk_item(),
    {
        WorkItem::github_release(
            self.env.android_ndk(),
            "cloudpeers",
            "x",
            "v0.1.0+2",
            "Android.ndk.tar.zst",
        )
    }

    /// The request for the iOS SDK.
    pub fn ios_sdk(&self) -> (out: WorkItem)
        ensures
            out@ == self.env_spec()@.ios_sdk_item(),
    {
        let mut item = WorkItem::github_release(
            self.env.ios_sdk(),
            "cloudpeers",
            "x",
            "v0.1.0+2",
            "iPhoneOS.sdk.tar.zst",
        );
        if self.env.host().is_windows() {
            item.no_colons();
        }
        item
    }

    /// The SDKs that the target needs.
    fn sdk_prefetch(&self) -> (out: Result<Vec<Prefetch>, BuildError>)
        ensures
            results_view(out) == self.env_spec()@.sdk_prefetch(),
    {
        let target = self.env.target().platform();
        let mut plan: Vec<Prefetch> = Vec::new();
        match target {
            Platform::Android => {
                plan.push(Prefetch::Sdk(self.android_ndk()));
                plan.push(Prefetch::AndroidJar);
            },
            Platform::Ios => {
                plan.push(Prefetch::Sdk(self.ios_sdk()));
            },
            _ => {
                let host = match self.env.host().platform() {
                    Err(e) => {
                        return Err(e);
                    },
                    Ok(host) => host,
                };
                if host != target {
                    match target {
                        Platform::Windows => {
                            plan.push(Prefetch::Sdk(self.windows_sdk()));
                        },
                        Platform::Macos => {
                            plan.push(Prefetch::Sdk(self.macos_sdk()));
                        },
                        _ => {
                            return Err(BuildError::UnsupportedCombination { target, host });
                        },
                    }
                }
            },
        }
        proof {
            assert(views(plan@) =~= self.env_spec()@.sdk_prefetch()->Ok_0);
        }
        Ok(plan)
    }

    /// Lists all that the build needs in the cache, in the order in which
    /// it is to be fetched: the SDK of the target, unless the target is the
    /// host's own platform, then what the engine toolchain needs.
    /// `build_classes_dex` says whether the application brings class files.
    pub fn prefetch(&self, build_classes_dex: bool) -> (out: Result<Vec<Prefetch>, BuildError>)
        ensures
            results_view(out) == self.env_spec()@.prefetch(build_classes_dex),
    {
        let mut plan = match self.sdk_prefetch() {
            Err(e) => {
                return Err(e);
            },
            Ok(plan) => plan,
        };
        if self.env.flutter().is_some() {
            let host = match self.env.host().target() {
                Err(e) => {
                    return Err(e);
                },
                Ok(host) => host,
            };
            let ghost sdks = views(plan@);
            let ghost envv = self.env_spec()@;
            let ghost wanted = envv.target.compile_targets().push(host);
            let mut targets = self.env.target().compile_targets();
            targets.push(host);
            let mut i: usize = 0;
            while i < targets.len()
                invariant
                    i <= targets.len(),
                    targets@ == wanted,
                    views(plan@) == sdks + engines(wanted.subrange(0, i as int)),
                decreases targets.len() - i,
            {
                let ghost before = plan@;
                let next = Prefetch::Engine(targets[i]);
                assert(next@ == PrefetchView::Engine(wanted[i as int]));
                plan.push(next);
                assert(views(plan@) =~= views(before).push(next@));
                assert(engines(wanted.subrange(0, i + 1)) =~= engines(
                    wanted.subrange(0, i as int),
                ).push(next@));
                i += 1;
                assert(views(plan@) =~= sdks + engines(wanted.subrange(0, i as int)));
            }
            assert(wanted.subrange(0, i as int) =~= wanted);
            let ghost listed = plan@;
            plan.push(Prefetch::MaterialFonts);
            assert(views(plan@) =~= views(listed).push(PrefetchView::MaterialFonts));
            let ghost with_fonts = plan@;
            if build_classes_dex && self.env.target().platform() == Platform::Android {
                plan.push(Prefetch::R8);
                plan.push(Prefetch::FlutterEmbedding);
                assert(views(plan@) =~= views(with_fonts) + seq![
                    PrefetchView::R8,
                    PrefetchView::FlutterEmbedding,
                ]);
            }
            assert(envv.engine_prefetch(build_classes_dex) is Ok);
            assert(views(plan@) =~= sdks + envv.engine_prefetch(build_classes_dex)->Ok_0);
        } else {
            assert(views(plan@) =~= self.env_spec()@.prefetch(build_classes_dex)->Ok_0);
        }
        Ok(plan)
    }
}

/// A request whose output was joined below a directory can be fetched,
/// whatever it is named.
pub proof fn lemma_joined_output_is_fetchable(item: WorkItemView, dir: Seq<char>, name: Seq<char>)
    requires
        item.output == joined(dir, name),
        name.len() > 0,
        !name.contains('/'),
    ensures
        item.fetchable(),
{
    lemma_joined_parts(dir, name);
    assert(joined(dir, name).len() == dir.len() + 1 + name.len());
}

/// The requests for the SDKs can all be fetched.
pub proof fn lemma_sdk_items_are_fetchable(env: BuildEnvView)
    ensures
        env.windows_sdk_item().fetchable(),
        env.macos_sdk_item().fetchable(),
        env.android_ndk_item().fetchable(),
        env.ios_sdk_item().fetchable(),
{
    reveal_strlit("Windows.sdk");
    reveal_strlit("MacOSX.sdk");
    reveal_strlit("Android.ndk");
    reveal_strlit("iPhoneOS.sdk");
    lemma_joined_output_is_fetchable(env.windows_sdk_item(), env.cache_dir, "Windows.sdk"@);
    lemma_joined_output_is_fetchable(env.macos_sdk_item(), env.cache_dir, "MacOSX.sdk"@);
    lemma_joined_output_is_fetchable(env.android_ndk_item(), env.cache_dir, "Android.ndk"@);
    lemma_joined_output_is_fetchable(env.ios_sdk_item(), env.cache_dir, "iPhoneOS.sdk"@);
}

/// The SDK of the host's own platform is never fetched: where the target's
/// platform is the host's, no SDK is asked for, and the whole list, where
/// there is one, holds no request for an SDK.
pub proof fn lemma_prefetch_skips_host_sdk(env: BuildEnvView, build_classes_dex: bool)
    requires
        env.host.platform() == Ok::<Platform, BuildErrorView>(env.target.platform),
    ensures
        env.sdk_prefetch() == Ok::<Seq<PrefetchView>, BuildErrorView>(Seq::empty()),
        env.prefetch(build_classes_dex) is Ok ==> forall|i: int|
            0 <= i < env.prefetch(build_classes_dex)->Ok_0.len() ==> !(
            #[trigger] env.prefetch(build_classes_dex)->Ok_0[i]).is_sdk(),
{
    if env.prefetch(build_classes_dex) is Ok {
        let plan = env.prefetch(build_classes_dex)->Ok_0;
        let host = env.host.target()->Ok_0;
        let wanted = env.target.compile_targets().push(host);
        assert forall|i: int| 0 <= i < plan.len() implies !(#[trigger] plan[i]).is_sdk() by {
            if i < wanted.len() {
                assert(plan[i] == engines(wanted)[i]);
            }
        }
    }
}

} // verus!
