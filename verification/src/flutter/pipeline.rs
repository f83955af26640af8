//! The stages of the compilation pipeline, as plans: source sync, dependency
//! resolution, kernel compilation, ahead-of-time snapshot generation and the
//! hooks that follow them.

use crate::command::{Command, CommandView, Output};
use crate::disk::{present, Disk, DiskView};
use crate::error::{result_view, results_view, BuildError, BuildErrorView};
use crate::flutter::{Flutter, FlutterView};
use crate::path::{file_name, file_name_of, join, joined, parent, parent_of};
use crate::plan::{push_action, Action, ActionView};
use crate::target::{Arch, CompileTarget, Opt, Platform};
use crate::text::{trim, trimmed, views};
use vstd::prelude::*;
use vstd::string::StrSliceExecFns;
use vstd::string::StringExecFns;

verus! {

broadcast use vstd::string::group_string_axioms;

/// The name of the patched SDK that the frontend compiler builds against:
/// the product variant for release, the plain one for debug.
pub open spec fn sdk_root_name(opt: Opt) -> Seq<char> {
    match opt {
        Opt::Release => "flutter_patched_sdk_product"@,
        Opt::Debug => "flutter_patched_sdk"@,
    }
}

/// The flags of the frontend compiler that depend on the optimization level.
/// Release compiles ahead of time with tree shaking against the product SDK;
/// debug keeps track of widget creation.
pub open spec fn kernel_flags(opt: Opt, sdk_root: Seq<char>) -> Seq<Seq<char>> {
    match opt {
        Opt::Release => seq![
            "--sdk-root"@,
            sdk_root,
            "-Ddart.vm.profile=false"@,
            "-Ddart.vm.product=true"@,
            "--aot"@,
            "--tfa"@,
        ],
        Opt::Debug => seq![
            "--sdk-root"@,
            sdk_root,
            "-Ddart.vm.profile=false"@,
            "-Ddart.vm.product=false"@,
            "--track-widget-creation"@,
        ],
    }
}

/// The name by which the C toolchain knows `arch`.
pub open spec fn clang_arch(arch: Arch) -> Seq<char> {
    match arch {
        Arch::X64 => "x86_64"@,
        Arch::Arm64 => "arm64"@,
    }
}

/// Whether snapshots for `platform` are built with the Apple toolchain, as a
/// dynamic library, and not directly as an ELF object.
pub open spec fn is_apple(platform: Platform) -> bool {
    platform == Platform::Ios || platform == Platform::Macos
}

/// The name of the snapshot generator for `platform`: on iOS always the
/// 64-bit ARM variant, whatever architecture was asked for.
pub open spec fn gen_snapshot_name(platform: Platform) -> Seq<char> {
    if platform == Platform::Ios {
        "gen_snapshot_arm64"@
    } else {
        "gen_snapshot"@
    }
}

/// `command` with what an iOS build adds to a call of the C toolchain: the
/// minimum system version, and the SDK root where one is given.
pub open spec fn with_ios_flags(command: CommandView, platform: Platform, sdkroot: Option<Seq<char>>)
    -> CommandView {
    if platform == Platform::Ios {
        let versioned = command.arg("-miphoneos-version-min=9.0"@);
        match sdkroot {
            Some(root) => versioned.env("SDKROOT"@, root).arg("--sysroot="@ + root),
            None => versioned,
        }
    } else {
        command
    }
}

impl FlutterView {
    /// The command that asks which release tag the checkout stands at.
    pub open spec fn version_query(self) -> CommandView {
        CommandView::bare(self.git).current_dir(self.repo).args(
            seq!["tag"@, "--points-at"@, "HEAD"@],
        )
    }

    /// The version of the checkout, from the end of the version query: what
    /// the query printed, as long as it succeeded and named a tag.
    pub open spec fn version(self, output: Output) -> Result<Seq<char>, BuildErrorView> {
        match self.version_query().check(output.code) {
            Err(e) => Err(e),
            Ok(_) => if trimmed(output.stdout@).len() == 0 {
                Err(BuildErrorView::VersionResolution { marker: self.repo })
            } else {
                Ok(output.stdout@)
            },
        }
    }

    /// The plan that clones the toolchain at its stable branch.
    pub open spec fn git_clone(self) -> Result<Seq<ActionView>, BuildErrorView> {
        match parent_of(self.repo) {
            None => Err(BuildErrorView::MissingArtifact { path: self.repo }),
            Some(dir) => Ok(
                seq![
                    ActionView::CreateDirAll { path: dir },
                    ActionView::Run {
                        command: CommandView::bare(self.git).current_dir(dir).args(
                            seq![
                                "clone"@,
                                "https://github.com/flutter/flutter"@,
                                "--depth"@,
                                "1"@,
                                "--branch"@,
                                "stable"@,
                            ],
                        ),
                        verbose: self.verbose,
                    },
                ],
            ),
        }
    }

    /// The plan that brings the checkout up to date: a clone where there is
    /// none yet, a pull of the stable branch where there is one.
    pub open spec fn git_pull(self, disk: DiskView) -> Result<Seq<ActionView>, BuildErrorView> {
        if !present(disk, self.repo) {
            self.git_clone()
        } else {
            Ok(
                seq![
                    ActionView::Run {
                        command: CommandView::bare(self.git).current_dir(self.repo).args(
                            seq!["pull"@, "origin"@, "stable"@],
                        ),
                        verbose: true,
                    },
                ],
            )
        }
    }

    /// Where the Dart executable lies below the host's engine directory.
    pub open spec fn dart_file(self) -> Seq<char> {
        joined(joined("dart-sdk"@, "bin"@), self.host.exe("dart"@))
    }

    /// The Dart executable of the host's engine, as a command.
    pub open spec fn dart(self, disk: DiskView) -> Result<CommandView, BuildErrorView> {
        match self.host_file(disk, self.dart_file()) {
            Err(e) => Err(e),
            Ok(path) => Ok(CommandView::bare(path)),
        }
    }

    /// The directory in which the package manager looks for the toolchain's
    /// own packages.
    pub open spec fn pkg_dir(self) -> Seq<char> {
        joined(joined(joined(self.repo, "bin"@), "cache"@), "pkg"@)
    }

    /// What has to happen before the package manager runs: the checkout gets
    /// its version file, and the package directory a fresh link to the host
    /// engine's SDK package in place of a stale one.
    pub open spec fn pub_setup(self, disk: DiskView, version: Seq<char>) -> Result<
        Seq<ActionView>,
        BuildErrorView,
    > {
        match self.host_file(disk, "sky_engine"@) {
            Err(e) => Err(e),
            Ok(source) => {
                let link = joined(self.pkg_dir(), "sky_engine"@);
                let before = seq![
                    ActionView::WriteFile { path: joined(self.repo, "version"@), contents: version },
                    ActionView::CreateDirAll { path: self.pkg_dir() },
                ];
                let stale = if present(disk, link) {
                    seq![ActionView::RemoveDirLink { link }]
                } else {
                    Seq::empty()
                };
                Ok(before + stale + seq![ActionView::LinkDir { source, link }])
            },
        }
    }

    /// The package manager, ready to take a subcommand, for the application
    /// at `root_dir`.
    pub open spec fn pub_command(self, disk: DiskView, root_dir: Seq<char>) -> Result<
        CommandView,
        BuildErrorView,
    > {
        match self.dart(disk) {
            Err(e) => Err(e),
            Ok(dart) => Ok(dart.current_dir(root_dir).env("FLUTTER_ROOT"@, self.repo).arg("pub"@)),
        }
    }

    /// The setup of the package manager and the package manager itself.
    pub open spec fn dart_pub(self, disk: DiskView, root_dir: Seq<char>, version: Seq<char>)
        -> Result<(Seq<ActionView>, CommandView), BuildErrorView> {
        match self.pub_setup(disk, version) {
            Err(e) => Err(e),
            Ok(setup) => match self.pub_command(disk, root_dir) {
                Err(e) => Err(e),
                Ok(command) => Ok((setup, command)),
            },
        }
    }

    /// The plan that runs the package manager's `subcommand`.
    pub open spec fn pub_run(
        self,
        disk: DiskView,
        root_dir: Seq<char>,
        version: Seq<char>,
        subcommand: Seq<char>,
        verbose: bool,
    ) -> Result<Seq<ActionView>, BuildErrorView> {
        match self.dart_pub(disk, root_dir, version) {
            Err(e) => Err(e),
            Ok((setup, command)) => Ok(
                setup.push(
                    ActionView::Run {
                        command: command.arg(subcommand).arg("--no-precompile"@),
                        verbose,
                    },
                ),
            ),
        }
    }

    /// The step that assembles the asset bundle of the application.
    pub open spec fn build_flutter_assets(
        self,
        disk: DiskView,
        root_dir: Seq<char>,
        flutter_assets: Seq<char>,
    ) -> Result<ActionView, BuildErrorView> {
        match self.material_fonts(disk) {
            Err(e) => Err(e),
            Ok(fonts) => Ok(
                ActionView::AssembleAssets {
                    root_dir,
                    material_fonts: fonts,
                    output: flutter_assets,
                },
            ),
        }
    }

    /// The step that compiles the application's entry file `target_file` to
    /// the kernel blob `output`, with the dependency file `depfile`.
    pub open spec fn kernel_blob_bin(
        self,
        disk: DiskView,
        root_dir: Seq<char>,
        target_file: Seq<char>,
        output: Seq<char>,
        depfile: Seq<char>,
        opt: Opt,
    ) -> Result<ActionView, BuildErrorView> {
        match self.dart(disk) {
            Err(e) => Err(e),
            Ok(dart) => match self.host_file(disk, "frontend_server.dart.snapshot"@) {
                Err(e) => Err(e),
                Ok(frontend) => match self.host_file(disk, sdk_root_name(opt)) {
                    Err(e) => Err(e),
                    Ok(sdk_root) => Ok(
                        ActionView::Run {
                            command: dart.current_dir(root_dir).args(
                                seq![
                                    frontend,
                                    "--target=flutter"@,
                                    "--no-print-incremental-dependencies"@,
                                    "--packages"@,
                                    ".packages"@,
                                    "--output-dill"@,
                                    output,
                                    "--depfile"@,
                                    depfile,
                                ],
                            ).args(kernel_flags(opt, sdk_root)).arg(target_file),
                            verbose: self.verbose,
                        },
                    ),
                },
            },
        }
    }

    /// The call of the snapshot generator that writes an ELF object.
    pub open spec fn elf_snapshot(
        self,
        gen_snapshot: Seq<char>,
        root_dir: Seq<char>,
        kernel_blob_bin: Seq<char>,
        snapshot: Seq<char>,
    ) -> CommandView {
        CommandView::bare(gen_snapshot).current_dir(root_dir).args(
            seq![
                "--deterministic"@,
                "--strip"@,
                "--snapshot_kind=app-aot-elf"@,
                "--elf="@ + snapshot,
                kernel_blob_bin,
            ],
        )
    }

    /// The call of the snapshot generator that writes assembly text.
    pub open spec fn assembly_snapshot(
        self,
        gen_snapshot: Seq<char>,
        root_dir: Seq<char>,
        kernel_blob_bin: Seq<char>,
        assembly: Seq<char>,
    ) -> CommandView {
        CommandView::bare(gen_snapshot).current_dir(root_dir).args(
            seq![
                "--deterministic"@,
                "--strip"@,
                "--snapshot_kind=app-aot-assembly"@,
                "--assembly="@ + assembly,
                kernel_blob_bin,
            ],
        )
    }

    /// The plan that turns the kernel blob into the snapshot for `target`.
    /// Android, Linux and Windows take one call that writes an ELF object.
    /// iOS and macOS take three: assembly text from the kernel blob, an
    /// object file from the assembly, and a dynamic library from the object.
    pub open spec fn aot_snapshot(
        self,
        disk: DiskView,
        root_dir: Seq<char>,
        build_dir: Seq<char>,
        kernel_blob_bin: Seq<char>,
        snapshot: Seq<char>,
        target: CompileTarget,
        sdkroot: Option<Seq<char>>,
    ) -> Result<Seq<ActionView>, BuildErrorView> {
        match self.engine_dir(disk, target) {
            Err(e) => Err(e),
            Ok(engine_dir) => {
                let platform = target.platform();
                let gen_snapshot = joined(
                    engine_dir,
                    self.host.exe(gen_snapshot_name(platform)),
                );
                if is_apple(platform) {
                    let assembly = joined(build_dir, "snapshot.S"@);
                    let object = joined(build_dir, "snapshot.o"@);
                    let arch = clang_arch(target.arch());
                    let name = file_name_of(snapshot);
                    let assemble = CommandView::bare("clang"@).args(
                        seq!["-c"@, assembly, "-o"@, object, "-arch"@, arch],
                    );
                    let link = CommandView::bare("clang"@).args(
                        seq![
                            "-arch"@,
                            arch,
                            "-dynamiclib"@,
                            "-Xlinker"@,
                            "-rpath"@,
                            "-Xlinker"@,
                            "@executable_path/Frameworks"@,
                            "-Xlinker"@,
                            "-rpath"@,
                            "-Xlinker"@,
                            "@loader_path/Frameworks"@,
                            "-install_name"@,
                            "@rpath/"@ + name + ".framework/"@ + name,
                            "-o"@,
                            snapshot,
                            object,
                        ],
                    );
                    Ok(
                        seq![
                            ActionView::Run {
                                command: self.assembly_snapshot(
                                    gen_snapshot,
                                    root_dir,
                                    kernel_blob_bin,
                                    assembly,
                                ),
                                verbose: self.verbose,
                            },
                            ActionView::Run {
                                command: with_ios_flags(assemble, platform, sdkroot),
                                verbose: self.verbose,
                            },
                            ActionView::Run {
                                command: with_ios_flags(link, platform, sdkroot),
                                verbose: self.verbose,
                            },
                        ],
                    )
                } else {
                    Ok(
                        seq![
                            ActionView::Run {
                                command: self.elf_snapshot(
                                    gen_snapshot,
                                    root_dir,
                                    kernel_blob_bin,
                                    snapshot,
                                ),
                                verbose: self.verbose,
                            },
                        ],
                    )
                }
            },
        }
    }
}

/// The view of an optional text.
pub open spec fn opt_text(text: Option<&str>) -> Option<Seq<char>> {
    match text {
        Some(t) => Some(t@),
        None => None,
    }
}

/// The name by which the C toolchain knows `arch`.
pub fn clang_arch_name(arch: Arch) -> (out: &'static str)
    ensures
        out@ == clang_arch(arch),
{
    match arch {
        Arch::X64 => "x86_64",
        Arch::Arm64 => "arm64",
    }
}

/// Adds to `command` what an iOS build adds to a call of the C toolchain.
fn add_ios_flags(command: &mut Command, platform: Platform, sdkroot: Option<&str>)
    ensures
        final(command)@ == with_ios_flags(old(command)@, platform, opt_text(sdkroot)),
{
    if platform == Platform::Ios {
        command.arg("-miphoneos-version-min=9.0");
        match sdkroot {
            Some(root) => {
                command.env("SDKROOT", root);
                let mut sysroot = String::from_str("--sysroot=");
                sysroot.append(root);
                command.arg(sysroot.as_str());
            },
            None => {},
        }
    }
}

impl Flutter {
    /// The command that asks which release tag the checkout stands at.
    pub fn version_query(&self) -> (out: Command)
        ensures
            out@ == self@.version_query(),
    {
        let mut c = Command::new(self.git());
        c.current_dir(self.root());
        c.arg("tag");
        c.arg("--points-at");
        c.arg("HEAD");
        assert(c@ =~= self@.version_query());
        c
    }

    /// The version of the checkout, given how the version query ended. The
    /// query has to have succeeded and to have named a tag; the version is
    /// what it printed.
    pub fn version(&self, output: &Output) -> (out: Result<String, BuildError>)
        ensures
            result_view(out) == self@.version(*output),
    {
        let query = self.version_query();
        match query.check(output.code) {
            Err(e) => Err(e),
            Ok(_) => {
                let tag = trim(output.stdout.as_str());
                if tag.as_str().unicode_len() == 0 {
                    Err(BuildError::VersionResolution { marker: String::from_str(self.root()) })
                } else {
                    Ok(output.stdout.clone())
                }
            },
        }
    }

    /// The plan that clones the toolchain at its stable branch into the
    /// directory that holds the checkout. A checkout that lies in no
    /// directory cannot be cloned.
    pub fn git_clone(&self) -> (out: Result<Vec<Action>, BuildError>)
        ensures
            results_view(out) == self@.git_clone(),
    {
        match parent(self.root()) {
            None => Err(BuildError::MissingArtifact { path: String::from_str(self.root()) }),
            Some(dir) => {
                let mut c = Command::new(self.git());
                c.current_dir(dir.as_str());
                c.arg("clone");
                c.arg("https://github.com/flutter/flutter");
                c.arg("--depth");
                c.arg("1");
                c.arg("--branch");
                c.arg("stable");
                let mut plan: Vec<Action> = Vec::new();
                push_action(&mut plan, Action::CreateDirAll { path: dir });
                push_action(&mut plan, Action::Run { command: c, verbose: self.verbose() });
                proof {
                    let expected = self@.git_clone()->Ok_0;
                    assert(c@ =~= expected[1]->Run_command);
                    assert(views(plan@) =~= expected);
                }
                Ok(plan)
            },
        }
    }

    /// The plan that brings the checkout up to date: a clone where `disk`
    /// shows none, a pull of the stable branch where it shows one.
    pub fn git_pull(&self, disk: &Disk) -> (out: Result<Vec<Action>, BuildError>)
        ensures
            results_view(out) == self@.git_pull(disk@),
    {
        if !disk.has(self.root()) {
            self.git_clone()
        } else {
            let mut c = Command::new(self.git());
            c.current_dir(self.root());
            c.arg("pull");
            c.arg("origin");
            c.arg("stable");
            let mut plan: Vec<Action> = Vec::new();
            push_action(&mut plan, Action::Run { command: c, verbose: true });
            proof {
                let expected = self@.git_pull(disk@)->Ok_0;
                assert(c@ =~= expected[0]->Run_command);
                assert(views(plan@) =~= expected);
            }
            Ok(plan)
        }
    }

    /// Where the Dart executable lies below the host's engine directory.
    fn dart_file(&self) -> (out: String)
        ensures
            out@ == self@.dart_file(),
    {
        let bin = join("dart-sdk", "bin");
        let exe = self.host().exe("dart");
        join(bin.as_str(), exe.as_str())
    }

    /// The Dart executable of the host's engine, as a command. The
    /// executable has to be on `disk`.
    pub fn dart(&self, disk: &Disk) -> (out: Result<Command, BuildError>)
        ensures
            result_view(out) == self@.dart(disk@),
    {
        let file = self.dart_file();
        match self.host_file(disk, file.as_str()) {
            Err(e) => Err(e),
            Ok(path) => Ok(Command::new(path.as_str())),
        }
    }

    /// The directory in which the package manager looks for the toolchain's
    /// own packages.
    fn pkg_dir(&self) -> (out: String)
        ensures
            out@ == self@.pkg_dir(),
    {
        let bin = join(self.root(), "bin");
        let cache = join(bin.as_str(), "cache");
        join(cache.as_str(), "pkg")
    }

    /// What has to happen before the package manager runs.
    fn pub_setup(&self, disk: &Disk, version: &str) -> (out: Result<Vec<Action>, BuildError>)
        ensures
            results_view(out) == self@.pub_setup(disk@, version@),
    {
        match self.host_file(disk, "sky_engine") {
            Err(e) => Err(e),
            Ok(source) => {
                let pkg_dir = self.pkg_dir();
                let link = join(pkg_dir.as_str(), "sky_engine");
                let mut plan: Vec<Action> = Vec::new();
                push_action(
                    &mut plan,
                    Action::WriteFile {
                        path: join(self.root(), "version"),
                        contents: String::from_str(version),
                    },
                );
                push_action(&mut plan, Action::CreateDirAll { path: pkg_dir });
                if disk.has(link.as_str()) {
                    push_action(&mut plan, Action::RemoveDirLink { link: link.clone() });
                }
                push_action(&mut plan, Action::LinkDir { source, link });
                proof {
                    assert(views(plan@) =~= self@.pub_setup(disk@, version@)->Ok_0);
                }
                Ok(plan)
            },
        }
    }

    /// The setup of the package manager for the application at `root_dir`,
    /// and the package manager itself, ready to take a subcommand. `version`
    /// is the version of the checkout, which the setup writes down.
    pub fn dart_pub(&self, disk: &Disk, root_dir: &str, version: &str) -> (out: Result<
        (Vec<Action>, Command),
        BuildError,
    >)
        ensures
            match out {
                Ok((setup, command)) => self@.dart_pub(disk@, root_dir@, version@) == Ok::<
                    (Seq<ActionView>, CommandView),
                    BuildErrorView,
                >((views(setup@), command@)),
                Err(e) => self@.dart_pub(disk@, root_dir@, version@) == Err::<
                    (Seq<ActionView>, CommandView),
                    BuildErrorView,
                >(e@),
            },
    {
        let setup = match self.pub_setup(disk, version) {
            Err(e) => {
                return Err(e);
            },
            Ok(setup) => setup,
        };
        match self.dart(disk) {
            Err(e) => Err(e),
            Ok(dart) => {
                let mut c = dart;
                c.current_dir(root_dir);
                c.env("FLUTTER_ROOT", self.root());
                c.arg("pub");
                Ok((setup, c))
            },
        }
    }

    /// The plan that runs one subcommand of the package manager.
    fn pub_run(&self, disk: &Disk, root_dir: &str, version: &str, subcommand: &str, verbose: bool)
        -> (out: Result<Vec<Action>, BuildError>)
        ensures
            results_view(out) == self@.pub_run(disk@, root_dir@, version@, subcommand@, verbose),
    {
        match self.dart_pub(disk, root_dir, version) {
            Err(e) => Err(e),
            Ok((setup, command)) => {
                let mut plan = setup;
                let mut c = command;
                c.arg(subcommand);
                c.arg("--no-precompile");
                push_action(&mut plan, Action::Run { command: c, verbose });
                Ok(plan)
            },
        }
    }

    /// The plan that fetches the packages that the application at `root_dir`
    /// depends on.
    pub fn pub_get(&self, disk: &Disk, root_dir: &str, version: &str) -> (out: Result<
        Vec<Action>,
        BuildError,
    >)
        ensures
            results_view(out) == self@.pub_run(
                disk@,
                root_dir@,
                version@,
                "get"@,
                self@.verbose,
            ),
    {
        self.pub_run(disk, root_dir, version, "get", self.verbose())
    }

    /// The plan that upgrades the packages that the application at
    /// `root_dir` depends on. Its output is always passed on to the user.
    pub fn pub_upgrade(&self, disk: &Disk, root_dir: &str, version: &str) -> (out: Result<
        Vec<Action>,
        BuildError,
    >)
        ensures
            results_view(out) == self@.pub_run(disk@, root_dir@, version@, "upgrade"@, true),
    {
        self.pub_run(disk, root_dir, version, "upgrade", true)
    }

    /// The step that assembles the asset bundle of the application at
    /// `root_dir` into `flutter_assets`.
    pub fn build_flutter_assets(&self, disk: &Disk, root_dir: &str, flutter_assets: &str) -> (out:
        Result<Action, BuildError>)
        ensures
            result_view(out) == self@.build_flutter_assets(disk@, root_dir@, flutter_assets@),
    {
        match self.material_fonts(disk) {
            Err(e) => Err(e),
            Ok(fonts) => Ok(
                Action::AssembleAssets {
                    root_dir: String::from_str(root_dir),
                    material_fonts: fonts,
                    output: String::from_str(flutter_assets),
                },
            ),
        }
    }

    /// The name of the patched SDK that the frontend compiler builds against.
    pub fn sdk_root_name(opt: Opt) -> (out: &'static str)
        ensures
            out@ == sdk_root_name(opt),
    {
        match opt {
            Opt::Release => "flutter_patched_sdk_product",
            Opt::Debug => "flutter_patched_sdk",
        }
    }

    /// The step that compiles the application's entry file `target_file` to
    /// the kernel blob `output` and writes the dependency file `depfile`.
    /// The compiler runs on the host: the Dart executable, the frontend
    /// server and the patched SDK of the host's engine have to be on `disk`,
    /// and the first of them that is absent is the error.
    pub fn kernel_blob_bin(
        &self,
        disk: &Disk,
        root_dir: &str,
        target_file: &str,
        output: &str,
        depfile: &str,
        opt: Opt,
    ) -> (out: Result<Action, BuildError>)
        ensures
            result_view(out) == self@.kernel_blob_bin(
                disk@,
                root_dir@,
                target_file@,
                output@,
                depfile@,
                opt,
            ),
    {
        let mut c = match self.dart(disk) {
            Err(e) => {
                return Err(e);
            },
            Ok(dart) => dart,
        };
        let frontend = match self.host_file(disk, "frontend_server.dart.snapshot") {
            Err(e) => {
                return Err(e);
            },
            Ok(frontend) => frontend,
        };
        let sdk_root = match self.host_file(disk, Flutter::sdk_root_name(opt)) {
            Err(e) => {
                return Err(e);
            },
            Ok(sdk_root) => sdk_root,
        };
        c.current_dir(root_dir);
        c.arg(frontend.as_str());
        c.arg("--target=flutter");
        c.arg("--no-print-incremental-dependencies");
        c.arg("--packages");
        c.arg(".packages");
        c.arg("--output-dill");
        c.arg(output);
        c.arg("--depfile");
        c.arg(depfile);
        c.arg("--sdk-root");
        c.arg(sdk_root.as_str());
        c.arg("-Ddart.vm.profile=false");
        match opt {
            Opt::Release => {
                c.arg("-Ddart.vm.product=true");
                c.arg("--aot");
                c.arg("--tfa");
            },
            Opt::Debug => {
                c.arg("-Ddart.vm.product=false");
                c.arg("--track-widget-creation");
            },
        }
        c.arg(target_file);
        proof {
            let expected = self@.kernel_blob_bin(
                disk@,
                root_dir@,
                target_file@,
                output@,
                depfile@,
                opt,
            )->Ok_0;
            assert(c@ =~= expected->Run_command);
        }
        Ok(Action::Run { command: c, verbose: self.verbose() })
    }

    /// The plan that turns the kernel blob `kernel_blob_bin` into the
    /// snapshot `snapshot` for `target`, with intermediate files in
    /// `build_dir`.
    pub fn aot_snapshot(
        &self,
        disk: &Disk,
        root_dir: &str,
        build_dir: &str,
        kernel_blob_bin: &str,
        snapshot: &str,
        target: CompileTarget,
        sdkroot: Option<&str>,
    ) -> (out: Result<Vec<Action>, BuildError>)
        ensures
            results_view(out) == self@.aot_snapshot(
                disk@,
                root_dir@,
                build_dir@,
                kernel_blob_bin@,
                snapshot@,
                target,
                opt_text(sdkroot),
            ),
    {
        let engine_dir = match self.engine_dir(disk, target) {
            Err(e) => {
                return Err(e);
            },
            Ok(engine_dir) => engine_dir,
        };
        let platform = target.platform();
        let generator = if platform == Platform::Ios {
            self.host().exe("gen_snapshot_arm64")
        } else {
            self.host().exe("gen_snapshot")
        };
        let gen_snapshot = join(engine_dir.as_str(), generator.as_str());
        let ghost expected = self@.aot_snapshot(
            disk@,
            root_dir@,
            build_dir@,
            kernel_blob_bin@,
            snapshot@,
            target,
            opt_text(sdkroot),
        )->Ok_0;
        let mut generate = Command::new(gen_snapshot.as_str());
        generate.current_dir(root_dir);
        generate.arg("--deterministic");
        generate.arg("--strip");
        let mut plan: Vec<Action> = Vec::new();
        let verbose = self.verbose();
        if platform == Platform::Ios || platform == Platform::Macos {
            let name = file_name(snapshot);
            let assembly = join(build_dir, "snapshot.S");
            let object = join(build_dir, "snapshot.o");
            let arch = clang_arch_name(target.arch());
            let mut flag = String::from_str("--assembly=");
            flag.append(assembly.as_str());
            generate.arg("--snapshot_kind=app-aot-assembly");
            generate.arg(flag.as_str());
            generate.arg(kernel_blob_bin);
            assert(generate@ =~= expected[0]->Run_command);

            let mut assemble = Command::new("clang");
            assemble.arg("-c");
            assemble.arg(assembly.as_str());
            assemble.arg("-o");
            assemble.arg(object.as_str());
            assemble.arg("-arch");
            assemble.arg(arch);
            let ghost assemble_bare = assemble@;
            assert(assemble_bare =~= CommandView::bare("clang"@).args(
                seq!["-c"@, assembly@, "-o"@, object@, "-arch"@, arch@],
            ));
            add_ios_flags(&mut assemble, platform, sdkroot);

            let mut install_name = String::from_str("@rpath/");
            install_name.append(name.as_str());
            install_name.append(".framework/");
            install_name.append(name.as_str());
            let mut link = Command::new("clang");
            link.arg("-arch");
            link.arg(arch);
            link.arg("-dynamiclib");
            link.arg("-Xlinker");
            link.arg("-rpath");
            link.arg("-Xlinker");
            link.arg("@executable_path/Frameworks");
            link.arg("-Xlinker");
            link.arg("-rpath");
            link.arg("-Xlinker");
            link.arg("@loader_path/Frameworks");
            link.arg("-install_name");
            link.arg(install_name.as_str());
            link.arg("-o");
            link.arg(snapshot);
            link.arg(object.as_str());
            let ghost link_bare = link@;
            assert(link_bare =~= CommandView::bare("clang"@).args(
                seq![
                    "-arch"@,
                    arch@,
                    "-dynamiclib"@,
                    "-Xlinker"@,
                    "-rpath"@,
                    "-Xlinker"@,
                    "@executable_path/Frameworks"@,
                    "-Xlinker"@,
                    "-rpath"@,
                    "-Xlinker"@,
                    "@loader_path/Frameworks"@,
                    "-install_name"@,
                    install_name@,
                    "-o"@,
                    snapshot@,
                    object@,
                ],
            ));
            add_ios_flags(&mut link, platform, sdkroot);

            push_action(&mut plan, Action::Run { command: generate, verbose });
            push_action(&mut plan, Action::Run { command: assemble, verbose });
            push_action(&mut plan, Action::Run { command: link, verbose });
            assert(views(plan@) =~= expected);
        } else {
            let mut flag = String::from_str("--elf=");
            flag.append(snapshot);
            generate.arg("--snapshot_kind=app-aot-elf");
            generate.arg(flag.as_str());
            generate.arg(kernel_blob_bin);
            assert(generate@ =~= expected[0]->Run_command);
            push_action(&mut plan, Action::Run { command: generate, verbose });
            assert(views(plan@) =~= expected);
        }
        Ok(plan)
    }

    /// The hook that compiles the class files of `deps` into one dex file
    /// with the tool `r8`.
    pub fn build_classes_dex(&self, r8: &str, deps: Vec<String>) -> (out: Action)
        ensures
            out@ == (ActionView::BuildClassesDex { r8: r8@, deps: views(deps@) }),
    {
        Action::BuildClassesDex { r8: String::from_str(r8), deps }
    }

    /// The hook that builds the main executable of an iOS application for
    /// `target`, linked against `lib` where one is given.
    pub fn build_ios_main(&self, target: CompileTarget, lib: Option<&str>) -> (out: Action)
        ensures
            out@ == (ActionView::BuildIosMain { target, lib: opt_text(lib) }),
    {
        let lib = match lib {
            Some(l) => Some(String::from_str(l)),
            None => None,
        };
        Action::BuildIosMain { target, lib }
    }

    /// The hook that builds the empty placeholder library of an iOS
    /// application for `target`.
    pub fn build_ios_empty_dylib(&self, target: CompileTarget) -> (out: Action)
        ensures
            out@ == (ActionView::BuildIosEmptyDylib { target }),
    {
        Action::BuildIosEmptyDylib { target }
    }
}

} // verus!
