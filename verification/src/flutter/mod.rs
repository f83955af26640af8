//! The engine toolchain: a local checkout, the versions that its marker files
//! pin, the cache directories derived from them.

pub mod locate;
pub mod pipeline;
pub mod watch;

use crate::devices::host::{Host, HostView};
use crate::disk::{present, text_at, Disk, DiskView};
use crate::error::{result_view, BuildError, BuildErrorView};
use crate::flutter::locate::locate;
use crate::path::{
    depth, is_below, join, joined, lemma_depth_concat, lemma_depth_joined, lemma_joined_injective,
    lemma_joined_same_base,
};
use crate::target::{Arch, CompileTarget, Opt, Platform};
use crate::text::{nth_segment, segment, trim, trimmed};
use vstd::prelude::*;
use vstd::string::StringExecFns;

verus! {

broadcast use vstd::string::group_string_axioms;

/// A handle on the engine toolchain.
#[derive(Clone, Debug, PartialEq, Eq)]
pub struct Flutter {
    host: Host,
    git: String,
    repo: String,
    cache: String,
    verbose: bool,
}

/// The mathematical value of a [`Flutter`] handle.
pub struct FlutterView {
    /// The machine that runs the build.
    pub host: HostView,
    /// The version-control client.
    pub git: Seq<char>,
    /// The checkout of the toolchain.
    pub repo: Seq<char>,
    /// The root of the artifact cache.
    pub cache: Seq<char>,
    /// Whether the tools' output is passed on to the user.
    pub verbose: bool,
}

/// The directory of the engine artifacts of version `version` for `target`
/// below the cache root `cache`.
pub open spec fn engine_path(cache: Seq<char>, version: Seq<char>, target: CompileTarget) -> Seq<
    char,
> {
    joined(
        joined(
            joined(joined(joined(cache, "engine"@), version), target.opt().name_spec()),
            target.platform().name_spec(),
        ),
        target.arch().name_spec(),
    )
}

impl FlutterView {
    /// The marker file that pins the version of `artifact`.
    pub open spec fn artifact_marker(self, artifact: Seq<char>) -> Seq<char> {
        joined(joined(joined(self.repo, "bin"@), "internal"@), artifact + ".version"@)
    }

    /// The version of `artifact` that the checkout pins: the text of its
    /// marker file, trimmed.
    pub open spec fn artifact_version(self, disk: DiskView, artifact: Seq<char>) -> Result<
        Seq<char>,
        BuildErrorView,
    > {
        match text_at(disk, self.artifact_marker(artifact)) {
            Some(text) => Ok(trimmed(text)),
            None => Err(BuildErrorView::VersionResolution { marker: self.artifact_marker(artifact) }),
        }
    }

    /// The version of the engine that the checkout pins.
    pub open spec fn engine_version(self, disk: DiskView) -> Result<Seq<char>, BuildErrorView> {
        self.artifact_version(disk, "engine"@)
    }

    /// The version of the shared fonts that the checkout pins: the fourth
    /// segment of the marker's text, cut at `/`.
    pub open spec fn material_fonts_version(self, disk: DiskView) -> Result<
        Seq<char>,
        BuildErrorView,
    > {
        match self.artifact_version(disk, "material_fonts"@) {
            Err(e) => Err(e),
            Ok(text) => match segment(text, '/', 3) {
                Some(version) => Ok(version),
                None => Err(
                    BuildErrorView::VersionResolution {
                        marker: self.artifact_marker("material_fonts"@),
                    },
                ),
            },
        }
    }

    /// The directory of the engine artifacts for `target`.
    pub open spec fn engine_dir(self, disk: DiskView, target: CompileTarget) -> Result<
        Seq<char>,
        BuildErrorView,
    > {
        match self.engine_version(disk) {
            Err(e) => Err(e),
            Ok(version) => Ok(engine_path(self.cache, version, target)),
        }
    }

    /// Where the file `path` of the host's own engine artifacts is expected.
    pub open spec fn host_path(self, disk: DiskView, path: Seq<char>) -> Result<
        Seq<char>,
        BuildErrorView,
    > {
        match self.host.target() {
            Err(e) => Err(e),
            Ok(host) => match self.engine_dir(disk, host) {
                Err(e) => Err(e),
                Ok(dir) => Ok(joined(dir, path)),
            },
        }
    }

    /// The file `path` of the host's own engine artifacts, which has to be
    /// present.
    pub open spec fn host_file(self, disk: DiskView, path: Seq<char>) -> Result<
        Seq<char>,
        BuildErrorView,
    > {
        match self.host_path(disk, path) {
            Err(e) => Err(e),
            Ok(file) => if present(disk, file) {
                Ok(file)
            } else {
                Err(BuildErrorView::MissingArtifact { path: file })
            },
        }
    }

    /// The directory of the shared fonts.
    pub open spec fn material_fonts(self, disk: DiskView) -> Result<Seq<char>, BuildErrorView> {
        match self.material_fonts_version(disk) {
            Err(e) => Err(e),
            Ok(version) => Ok(joined(joined(self.cache, "material_fonts"@), version)),
        }
    }
}

impl View for Flutter {
    type V = FlutterView;

    closed spec fn view(&self) -> FlutterView {
        FlutterView {
            host: self.host@,
            git: self.git@,
            repo: self.repo@,
            cache: self.cache@,
            verbose: self.verbose,
        }
    }
}

impl Flutter {
    /// The handle on the checkout `repo` with the cache root `cache`, run on
    /// `host`, with the version-control client found on this machine. Without
    /// such a client there is no handle.
    pub fn new(host: Host, repo: String, cache: String, verbose: bool) -> (out: Result<
        Flutter,
        BuildError,
    >)
        ensures
            match out {
                Ok(flutter) => {
                    &&& flutter@.host == host@
                    &&& flutter@.repo == repo@
                    &&& flutter@.cache == cache@
                    &&& flutter@.verbose == verbose
                },
                Err(e) => e@ == (BuildErrorView::MissingArtifact { path: "git"@ }),
            },
    {
        Flutter::from_lookup(locate("git"), host, repo, cache, verbose)
    }

    /// The handle for the outcome `lookup` of the search for the
    /// version-control client: with the client that was found, or the error
    /// that it is missing.
    pub fn from_lookup(
        lookup: Result<String, which::Error>,
        host: Host,
        repo: String,
        cache: String,
        verbose: bool,
    ) -> (out: Result<Flutter, BuildError>)
        ensures
            match lookup {
                Ok(git) => out is Ok && out->Ok_0@ == (FlutterView {
                    host: host@,
                    git: git@,
                    repo: repo@,
                    cache: cache@,
                    verbose,
                }),
                Err(_) => out is Err && out->Err_0@ == (BuildErrorView::MissingArtifact {
                    path: "git"@,
                }),
            },
    {
        match lookup {
            Ok(git) => Ok(Flutter::with_git(git, host, repo, cache, verbose)),
            Err(_) => Err(BuildError::MissingArtifact { path: String::from_str("git") }),
        }
    }

    /// The handle with the version-control client `git`.
    pub fn with_git(git: String, host: Host, repo: String, cache: String, verbose: bool) -> (out:
        Flutter)
        ensures
            out@ == (FlutterView { host: host@, git: git@, repo: repo@, cache: cache@, verbose }),
    {
        Flutter { host, git, repo, cache, verbose }
    }

    /// The checkout of the toolchain.
    pub fn root(&self) -> (out: &str)
        ensures
            out@ == self@.repo,
    {
        self.repo.as_str()
    }

    /// The version-control client.
    pub fn git(&self) -> (out: &str)
        ensures
            out@ == self@.git,
    {
        self.git.as_str()
    }

    /// The root of the artifact cache.
    pub fn cache(&self) -> (out: &str)
        ensures
            out@ == self@.cache,
    {
        self.cache.as_str()
    }

    /// Whether the tools' output is passed on to the user.
    pub fn verbose(&self) -> (out: bool)
        ensures
            out == self@.verbose,
    {
        self.verbose
    }

    /// The machine that runs the build.
    pub fn host(&self) -> (out: &Host)
        ensures
            out@ == self@.host,
    {
        &self.host
    }

    /// The marker file that pins the version of `artifact`.
    pub fn artifact_marker(&self, artifact: &str) -> (out: String)
        ensures
            out@ == self@.artifact_marker(artifact@),
    {
        let bin = join(self.repo.as_str(), "bin");
        let internal = join(bin.as_str(), "internal");
        let mut name = String::from_str(artifact);
        name.append(".version");
        join(internal.as_str(), name.as_str())
    }

    /// The version of `artifact` that the checkout pins. The marker file has
    /// to be on `disk` with its text; the version is that text, trimmed.
    pub fn artifact_version(&self, disk: &Disk, artifact: &str) -> (out: Result<String, BuildError>)
        ensures
            result_view(out) == self@.artifact_version(disk@, artifact@),
    {
        let marker = self.artifact_marker(artifact);
        match disk.text(marker.as_str()) {
            Some(text) => Ok(trim(text.as_str())),
            None => Err(BuildError::VersionResolution { marker }),
        }
    }

    /// The version of the engine that the checkout pins.
    pub fn engine_version(&self, disk: &Disk) -> (out: Result<String, BuildError>)
        ensures
            result_view(out) == self@.engine_version(disk@),
    {
        self.artifact_version(disk, "engine")
    }

    /// The version of the shared fonts that the checkout pins.
    pub fn material_fonts_version(&self, disk: &Disk) -> (out: Result<String, BuildError>)
        ensures
            result_view(out) == self@.material_fonts_version(disk@),
    {
        match self.artifact_version(disk, "material_fonts") {
            Err(e) => Err(e),
            Ok(text) => match nth_segment(text.as_str(), '/', 3) {
                Some(version) => Ok(version),
                None => Err(
                    BuildError::VersionResolution { marker: self.artifact_marker("material_fonts") },
                ),
            },
        }
    }

    /// The directory of the engine artifacts for `target`:
    /// `<cache>/engine/<version>/<opt>/<platform>/<arch>`.
    pub fn engine_dir(&self, disk: &Disk, target: CompileTarget) -> (out: Result<String, BuildError>)
        ensures
            result_view(out) == self@.engine_dir(disk@, target),
    {
        match self.engine_version(disk) {
            Err(e) => Err(e),
            Ok(version) => {
                let engine = join(self.cache.as_str(), "engine");
                let versioned = join(engine.as_str(), version.as_str());
                let opt = join(versioned.as_str(), target.opt().name());
                let platform = join(opt.as_str(), target.platform().name());
                Ok(join(platform.as_str(), target.arch().name()))
            },
        }
    }

    /// Where the file `path` of the host's own engine artifacts is expected,
    /// whether it is there or not.
    pub fn host_path(&self, disk: &Disk, path: &str) -> (out: Result<String, BuildError>)
        ensures
            result_view(out) == self@.host_path(disk@, path@),
    {
        match self.host.target() {
            Err(e) => Err(e),
            Ok(host) => match self.engine_dir(disk, host) {
                Err(e) => Err(e),
                Ok(dir) => Ok(join(dir.as_str(), path)),
            },
        }
    }

    /// The file `path` of the host's own engine artifacts: tools run on the
    /// host, whatever the build targets. The file has to be on `disk`; where
    /// it is absent the error names the path where it was expected.
    pub fn host_file(&self, disk: &Disk, path: &str) -> (out: Result<String, BuildError>)
        ensures
            result_view(out) == self@.host_file(disk@, path@),
    {
        match self.host_path(disk, path) {
            Err(e) => Err(e),
            Ok(file) => {
                if disk.has(file.as_str()) {
                    Ok(file)
                } else {
                    Err(BuildError::MissingArtifact { path: file })
                }
            },
        }
    }

    /// The directory of the shared fonts: `<cache>/material_fonts/<version>`.
    pub fn material_fonts(&self, disk: &Disk) -> (out: Result<String, BuildError>)
        ensures
            result_view(out) == self@.material_fonts(disk@),
    {
        match self.material_fonts_version(disk) {
            Err(e) => Err(e),
            Ok(version) => {
                let dir = join(self.cache.as_str(), "material_fonts");
                Ok(join(dir.as_str(), version.as_str()))
            },
        }
    }

    /// The ICU data of the host's engine.
    pub fn icudtl_dat(&self, disk: &Disk) -> (out: Result<String, BuildError>)
        ensures
            result_view(out) == self@.host_file(disk@, "icudtl.dat"@),
    {
        self.host_file(disk, "icudtl.dat")
    }

    /// The isolate snapshot of the host's engine.
    pub fn isolate_snapshot_data(&self, disk: &Disk) -> (out: Result<String, BuildError>)
        ensures
            result_view(out) == self@.host_file(disk@, "isolate_snapshot.bin"@),
    {
        self.host_file(disk, "isolate_snapshot.bin")
    }

    /// The VM snapshot of the host's engine.
    pub fn vm_snapshot_data(&self, disk: &Disk) -> (out: Result<String, BuildError>)
        ensures
            result_view(out) == self@.host_file(disk@, "vm_isolate_snapshot.bin"@),
    {
        self.host_file(disk, "vm_isolate_snapshot.bin")
    }
}

/// The names of the platforms hold no separator and tell the platforms apart.
pub proof fn lemma_platform_names(a: Platform, b: Platform)
    ensures
        !a.name_spec().contains('/'),
        a.name_spec().len() > 0,
        a.name_spec() == b.name_spec() ==> a == b,
{
    reveal_strlit("linux");
    reveal_strlit("windows");
    reveal_strlit("macos");
    reveal_strlit("android");
    reveal_strlit("ios");
    if a != b && a.name_spec() == b.name_spec() {
        assert(a.name_spec().len() == b.name_spec().len());
        assert(a.name_spec()[0] == b.name_spec()[0]);
    }
}

/// The names of the architectures hold no separator and tell them apart.
pub proof fn lemma_arch_names(a: Arch, b: Arch)
    ensures
        !a.name_spec().contains('/'),
        a.name_spec().len() > 0,
        a.name_spec() == b.name_spec() ==> a == b,
{
    reveal_strlit("x64");
    reveal_strlit("arm64");
    if a != b && a.name_spec() == b.name_spec() {
        assert(a.name_spec().len() == b.name_spec().len());
    }
}

/// The names of the optimization levels hold no separator and tell them
/// apart.
pub proof fn lemma_opt_names(a: Opt, b: Opt)
    ensures
        !a.name_spec().contains('/'),
        a.name_spec().len() > 0,
        a.name_spec() == b.name_spec() ==> a == b,
{
    reveal_strlit("debug");
    reveal_strlit("release");
    if a != b && a.name_spec() == b.name_spec() {
        assert(a.name_spec().len() == b.name_spec().len());
    }
}

/// Engine directories are keyed by version and variant: below one cache
/// root, two directories are the same path only where the versions and all
/// three fields of the variants are the same. Changing any one of them
/// changes the path.
pub proof fn lemma_engine_paths_differ(
    cache: Seq<char>,
    version1: Seq<char>,
    target1: CompileTarget,
    version2: Seq<char>,
    target2: CompileTarget,
)
    requires
        engine_path(cache, version1, target1) == engine_path(cache, version2, target2),
    ensures
        version1 == version2,
        target1 == target2,
{
    let root = joined(cache, "engine"@);
    let opt1 = joined(joined(root, version1), target1.opt().name_spec());
    let opt2 = joined(joined(root, version2), target2.opt().name_spec());
    let platform1 = joined(opt1, target1.platform().name_spec());
    let platform2 = joined(opt2, target2.platform().name_spec());
    lemma_arch_names(target1.arch(), target2.arch());
    lemma_arch_names(target2.arch(), target1.arch());
    lemma_platform_names(target1.platform(), target2.platform());
    lemma_platform_names(target2.platform(), target1.platform());
    lemma_opt_names(target1.opt(), target2.opt());
    lemma_opt_names(target2.opt(), target1.opt());
    lemma_joined_injective(
        platform1,
        target1.arch().name_spec(),
        platform2,
        target2.arch().name_spec(),
    );
    lemma_joined_injective(
        opt1,
        target1.platform().name_spec(),
        opt2,
        target2.platform().name_spec(),
    );
    lemma_joined_injective(
        joined(root, version1),
        target1.opt().name_spec(),
        joined(root, version2),
        target2.opt().name_spec(),
    );
    lemma_joined_same_base(root, version1, version2);
    target1.lemma_equal_iff_fields(target2);
}

/// Engine directories do not overlap: with versions that are single path
/// components, no engine directory lies below another.
pub proof fn lemma_engine_paths_are_disjoint(
    cache: Seq<char>,
    version1: Seq<char>,
    target1: CompileTarget,
    version2: Seq<char>,
    target2: CompileTarget,
)
    requires
        !version1.contains('/'),
        !version2.contains('/'),
    ensures
        !is_below(
            engine_path(cache, version1, target1),
            engine_path(cache, version2, target2),
        ),
{
    let p1 = engine_path(cache, version1, target1);
    let p2 = engine_path(cache, version2, target2);
    lemma_engine_path_depth(cache, version1, target1);
    lemma_engine_path_depth(cache, version2, target2);
    if is_below(p1, p2) {
        let head = p2 + seq!['/'];
        let rest = p1.subrange(head.len() as int, p1.len() as int);
        assert(p1 =~= head + rest);
        lemma_depth_concat(head, rest);
        lemma_depth_concat(p2, seq!['/']);
        assert(depth(seq!['/']) == 1) by {
            assert(seq!['/'].drop_last() =~= Seq::<char>::empty());
            reveal_with_fuel(depth, 2);
        }
    }
}

/// An engine directory lies four levels below the engine root of the cache
/// where its version is a single path component.
proof fn lemma_engine_path_depth(cache: Seq<char>, version: Seq<char>, target: CompileTarget)
    requires
        !version.contains('/'),
    ensures
        depth(engine_path(cache, version, target)) == depth(joined(cache, "engine"@)) + 4,
{
    let root = joined(cache, "engine"@);
    let versioned = joined(root, version);
    let opt = joined(versioned, target.opt().name_spec());
    let platform = joined(opt, target.platform().name_spec());
    lemma_arch_names(target.arch(), target.arch());
    lemma_platform_names(target.platform(), target.platform());
    lemma_opt_names(target.opt(), target.opt());
    lemma_depth_joined(root, version);
    lemma_depth_joined(versioned, target.opt().name_spec());
    lemma_depth_joined(opt, target.platform().name_spec());
    lemma_depth_joined(platform, target.arch().name_spec());
}

/// The cache keeps its kinds of artifacts apart: no engine directory is the
/// directory of the shared fonts, whatever the versions.
pub proof fn lemma_engine_is_not_fonts(
    cache: Seq<char>,
    version: Seq<char>,
    target: CompileTarget,
    fonts: Seq<char>,
)
    ensures
        engine_path(cache, version, target) != joined(joined(cache, "material_fonts"@), fonts),
{
    reveal_strlit("engine");
    reveal_strlit("material_fonts");
    let at: int = cache.len() as int + 1;
    assert(engine_path(cache, version, target)[at] == "engine"@[0]);
    assert(joined(joined(cache, "material_fonts"@), fonts)[at] == "material_fonts"@[0]);
}

} // verus!
