//! What the toolchain asks of the disk. A caller that reads the marker files
//! and looks at the watched paths has seen all that the pipeline's answers
//! depend on.

use crate::disk::{present, text_at, Disk, DiskView};
use crate::error::BuildErrorView;
use crate::flutter::pipeline::sdk_root_name;
use crate::flutter::{Flutter, FlutterView};
use crate::path::{join, joined};
use crate::target::{CompileTarget, Opt};
use crate::text::views;
use vstd::prelude::*;
use vstd::string::StringExecFns;

verus! {

broadcast use vstd::string::group_string_axioms;

impl FlutterView {
    /// The marker files whose text the toolchain reads.
    pub open spec fn markers(self) -> Seq<Seq<char>> {
        seq![self.artifact_marker("engine"@), self.artifact_marker("material_fonts"@)]
    }

    /// The files of the host's engine that the pipeline looks for.
    pub open spec fn host_files(self) -> Seq<Seq<char>> {
        seq![
            "icudtl.dat"@,
            "isolate_snapshot.bin"@,
            "vm_isolate_snapshot.bin"@,
            self.dart_file(),
            "sky_engine"@,
            "frontend_server.dart.snapshot"@,
            "flutter_patched_sdk"@,
            "flutter_patched_sdk_product"@,
        ]
    }

    /// The link to the host engine's SDK package in the package directory.
    pub open spec fn sdk_link(self) -> Seq<char> {
        joined(self.pkg_dir(), "sky_engine"@)
    }

    /// The paths whose presence the toolchain asks about, given the marker
    /// files on `disk`: the checkout, the package link, and, where the host
    /// and the engine version are known, the host's engine files.
    pub open spec fn watched(self, disk: DiskView) -> Seq<Seq<char>> {
        let own = seq![self.repo, self.sdk_link()];
        match self.host_path(disk, Seq::empty()) {
            Err(_) => own,
            Ok(_) => own + Seq::new(
                self.host_files().len(),
                |i: int| self.host_path(disk, self.host_files()[i])->Ok_0,
            ),
        }
    }

    /// Whether two disks look the same to the toolchain: the marker files
    /// have the same text and the watched paths are present on both or on
    /// neither.
    pub open spec fn looks_same(self, a: DiskView, b: DiskView) -> bool {
        &&& forall|i: int|
            0 <= i < self.markers().len() ==> text_at(a, #[trigger] self.markers()[i]) == text_at(
                b,
                self.markers()[i],
            )
        &&& forall|i: int|
            0 <= i < self.watched(a).len() ==> present(a, #[trigger] self.watched(a)[i])
                == present(b, self.watched(a)[i])
    }
}

/// The toolchain's answers depend on the disk only through the marker files
/// and the watched paths: on two disks that look the same, every version,
/// directory, host file and plan comes out the same.
pub proof fn lemma_watched_paths_suffice(
    flutter: FlutterView,
    a: DiskView,
    b: DiskView,
    target: CompileTarget,
    opt: Opt,
    root_dir: Seq<char>,
    build_dir: Seq<char>,
    target_file: Seq<char>,
    output: Seq<char>,
    depfile: Seq<char>,
    sdkroot: Option<Seq<char>>,
    version: Seq<char>,
    subcommand: Seq<char>,
    verbose: bool,
)
    requires
        flutter.looks_same(a, b),
    ensures
        flutter.watched(a) == flutter.watched(b),
        flutter.engine_version(a) == flutter.engine_version(b),
        flutter.material_fonts_version(a) == flutter.material_fonts_version(b),
        flutter.engine_dir(a, target) == flutter.engine_dir(b, target),
        flutter.material_fonts(a) == flutter.material_fonts(b),
        forall|i: int|
            0 <= i < flutter.host_files().len() ==> flutter.host_file(
                a,
                #[trigger] flutter.host_files()[i],
            ) == flutter.host_file(b, flutter.host_files()[i]),
        flutter.git_pull(a) == flutter.git_pull(b),
        flutter.dart(a) == flutter.dart(b),
        flutter.dart_pub(a, root_dir, version) == flutter.dart_pub(b, root_dir, version),
        flutter.pub_run(a, root_dir, version, subcommand, verbose) == flutter.pub_run(
            b,
            root_dir,
            version,
            subcommand,
            verbose,
        ),
        flutter.build_flutter_assets(a, root_dir, output) == flutter.build_flutter_assets(
            b,
            root_dir,
            output,
        ),
        flutter.kernel_blob_bin(a, root_dir, target_file, output, depfile, opt)
            == flutter.kernel_blob_bin(b, root_dir, target_file, output, depfile, opt),
        flutter.aot_snapshot(a, root_dir, build_dir, target_file, output, target, sdkroot)
            == flutter.aot_snapshot(b, root_dir, build_dir, target_file, output, target, sdkroot),
{
    assert(text_at(a, flutter.markers()[0]) == text_at(b, flutter.markers()[0]));
    assert(text_at(a, flutter.markers()[1]) == text_at(b, flutter.markers()[1]));
    assert(flutter.engine_version(a) == flutter.engine_version(b));
    assert(flutter.watched(a) =~= flutter.watched(b));
    let watched = flutter.watched(a);
    assert(present(a, watched[0]) == present(b, watched[0]));
    assert(present(a, watched[1]) == present(b, watched[1]));
    assert forall|i: int| 0 <= i < flutter.host_files().len() implies flutter.host_file(
        a,
        #[trigger] flutter.host_files()[i],
    ) == flutter.host_file(b, flutter.host_files()[i]) by {
        if flutter.host_path(a, Seq::empty()) is Ok {
            assert(present(a, watched[i + 2]) == present(b, watched[i + 2]));
        }
    }
    assert(flutter.host_files()[3] == flutter.dart_file());
    assert(flutter.host_files()[4] == "sky_engine"@);
    assert(flutter.host_files()[5] == "frontend_server.dart.snapshot"@);
    assert(flutter.host_files()[6] == sdk_root_name(Opt::Debug));
    assert(flutter.host_files()[7] == sdk_root_name(Opt::Release));
}

impl Flutter {
    /// The marker files whose text the toolchain reads.
    pub fn markers(&self) -> (out: Vec<String>)
        ensures
            views(out@) == self@.markers(),
    {
        let mut out: Vec<String> = Vec::new();
        out.push(self.artifact_marker("engine"));
        out.push(self.artifact_marker("material_fonts"));
        assert(views(out@) =~= self@.markers());
        out
    }

    /// The paths whose presence the toolchain asks about, given the marker
    /// files on `disk`.
    pub fn watched(&self, disk: &Disk) -> (out: Vec<String>)
        ensures
            views(out@) == self@.watched(disk@),
    {
        let mut out: Vec<String> = Vec::new();
        out.push(String::from_str(self.root()));
        let bin = join(self.root(), "bin");
        let cache = join(bin.as_str(), "cache");
        let pkg = join(cache.as_str(), "pkg");
        out.push(join(pkg.as_str(), "sky_engine"));
        let host = match self.host().target() {
            Err(_) => {
                assert(views(out@) =~= self@.watched(disk@));
                return out;
            },
            Ok(host) => host,
        };
        let dir = match self.engine_dir(disk, host) {
            Err(_) => {
                assert(views(out@) =~= self@.watched(disk@));
                return out;
            },
            Ok(dir) => dir,
        };
        let dart_bin = join("dart-sdk", "bin");
        let exe = self.host().exe("dart");
        let dart = join(dart_bin.as_str(), exe.as_str());
        let mut files: Vec<String> = Vec::new();
        files.push(String::from_str("icudtl.dat"));
        files.push(String::from_str("isolate_snapshot.bin"));
        files.push(String::from_str("vm_isolate_snapshot.bin"));
        files.push(dart);
        files.push(String::from_str("sky_engine"));
        files.push(String::from_str("frontend_server.dart.snapshot"));
        files.push(String::from_str("flutter_patched_sdk"));
        files.push(String::from_str("flutter_patched_sdk_product"));
        assert(views(files@) =~= self@.host_files());
        let ghost own = views(out@);
        let mut i: usize = 0;
        while i < files.len()
            invariant
                i <= files.len(),
                views(files@) == self@.host_files(),
                self@.host.target() == Ok::<CompileTarget, BuildErrorView>(host),
                self@.engine_dir(disk@, host) == Ok::<Seq<char>, BuildErrorView>(dir@),
                views(out@) == own + Seq::new(
                    i as nat,
                    |k: int| self@.host_path(disk@, self@.host_files()[k])->Ok_0,
                ),
            decreases files.len() - i,
        {
            let ghost before = out@;
            assert(views(files@)[i as int] == files[i as int]@);
            let path = join(dir.as_str(), files[i].as_str());
            out.push(path);
            assert(views(out@) =~= views(before).push(path@));
            i += 1;
            assert(views(out@) =~= own + Seq::new(
                i as nat,
                |k: int| self@.host_path(disk@, self@.host_files()[k])->Ok_0,
            ));
        }
        assert(views(out@) =~= self@.watched(disk@));
        out
    }
}

} // verus!
