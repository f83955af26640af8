//! The build environment: the target selection, the cache root and the
//! toolchain handle, shared read-only by every stage.

use crate::devices::host::{Host, HostView};
use crate::flutter::{Flutter, FlutterView};
use crate::path::{join, joined};
use crate::target::{Arch, CompileTarget, Opt, Platform};
use crate::text::{decimal, decimal_text};
use vstd::prelude::*;
use vstd::string::StringExecFns;

verus! {

/// What is to be built: one platform at one optimization level, for one or
/// more architectures.
#[derive(Clone, Debug, PartialEq, Eq)]
pub struct BuildTarget {
    platform: Platform,
    archs: Vec<Arch>,
    opt: Opt,
}

/// The mathematical value of a [`BuildTarget`].
#[verifier::ext_equal]
pub struct BuildTargetView {
    pub platform: Platform,
    pub archs: Seq<Arch>,
    pub opt: Opt,
}

impl BuildTargetView {
    /// The variants to build: one for each architecture, in order.
    pub open spec fn compile_targets(self) -> Seq<CompileTarget> {
        Seq::new(
            self.archs.len(),
            |i: int| CompileTarget::of(self.platform, self.archs[i], self.opt),
        )
    }
}

impl View for BuildTarget {
    type V = BuildTargetView;

    closed spec fn view(&self) -> BuildTargetView {
        BuildTargetView { platform: self.platform, archs: self.archs@, opt: self.opt }
    }
}

impl BuildTarget {
    /// The selection of `platform` at `opt` for each of `archs`.
    pub fn new(platform: Platform, archs: Vec<Arch>, opt: Opt) -> (out: BuildTarget)
        ensures
            out@ == (BuildTargetView { platform, archs: archs@, opt }),
    {
        BuildTarget { platform, archs, opt }
    }

    /// The platform to build for.
    pub fn platform(&self) -> (out: Platform)
        ensures
            out == self@.platform,
    {
        self.platform
    }

    /// The architectures to build for.
    pub fn archs(&self) -> (out: &Vec<Arch>)
        ensures
            out@ == self@.archs,
    {
        &self.archs
    }

    /// The optimization level to build at.
    pub fn opt(&self) -> (out: Opt)
        ensures
            out == self@.opt,
    {
        self.opt
    }

    /// The variants to build: one for each architecture, in order.
    pub fn compile_targets(&self) -> (out: Vec<CompileTarget>)
        ensures
            out@ == self@.compile_targets(),
    {
        let mut out: Vec<CompileTarget> = Vec::new();
        let mut i: usize = 0;
        while i < self.archs.len()
            invariant
                i <= self.archs.len(),
                out@ == self@.compile_targets().subrange(0, i as int),
            decreases self.archs.len() - i,
        {
            out.push(CompileTarget::new(self.platform, self.archs[i], self.opt));
            i += 1;
            assert(out@ =~= self@.compile_targets().subrange(0, i as int));
        }
        assert(out@ =~= self@.compile_targets());
        out
    }
}

/// The context of a build. It owns no artifact, only the paths at which the
/// stages expect them.
#[derive(Clone, Debug, PartialEq, Eq)]
pub struct BuildEnv {
    host: Host,
    target: BuildTarget,
    cache_dir: String,
    flutter: Option<Flutter>,
    target_sdk_version: u32,
}

/// The mathematical value of a [`BuildEnv`].
pub struct BuildEnvView {
    /// The machine that runs the build.
    pub host: HostView,
    /// What is to be built.
    pub target: BuildTargetView,
    /// The root of the artifact cache.
    pub cache_dir: Seq<char>,
    /// The engine toolchain, where the application uses one.
    pub flutter: Option<FlutterView>,
    /// The Android API level that the application targets.
    pub target_sdk_version: u32,
}

impl BuildEnvView {
    /// The staging directory of downloads.
    pub open spec fn download_dir(self) -> Seq<char> {
        joined(self.cache_dir, "download"@)
    }

    /// The directory of the Windows SDK.
    pub open spec fn windows_sdk(self) -> Seq<char> {
        joined(self.cache_dir, "Windows.sdk"@)
    }

    /// The directory of the macOS SDK.
    pub open spec fn macos_sdk(self) -> Seq<char> {
        joined(self.cache_dir, "MacOSX.sdk"@)
    }

    /// The directory of the Android SDK.
    pub open spec fn android_sdk(self) -> Seq<char> {
        joined(self.cache_dir, "Android.sdk"@)
    }

    /// The directory of the Android NDK.
    pub open spec fn android_ndk(self) -> Seq<char> {
        joined(self.cache_dir, "Android.ndk"@)
    }

    /// The directory of the iOS SDK.
    pub open spec fn ios_sdk(self) -> Seq<char> {
        joined(self.cache_dir, "iPhoneOS.sdk"@)
    }

    /// The name of the Android platform of the targeted API level.
    pub open spec fn android_platform(self) -> Seq<char> {
        "android-"@ + decimal(self.target_sdk_version as nat)
    }

    /// The platform library of the targeted API level:
    /// `<sdk>/platforms/android-<level>/android.jar`.
    pub open spec fn android_jar(self) -> Seq<char> {
        joined(
            joined(joined(self.android_sdk(), "platforms"@), self.android_platform()),
            "android.jar"@,
        )
    }
}

/// The view of an optional toolchain handle.
pub open spec fn opt_flutter_view(flutter: Option<Flutter>) -> Option<FlutterView> {
    match flutter {
        Some(f) => Some(f@),
        None => None,
    }
}

impl View for BuildEnv {
    type V = BuildEnvView;

    closed spec fn view(&self) -> BuildEnvView {
        BuildEnvView {
            host: self.host@,
            target: self.target@,
            cache_dir: self.cache_dir@,
            flutter: opt_flutter_view(self.flutter),
            target_sdk_version: self.target_sdk_version,
        }
    }
}

impl BuildEnv {
    /// The environment of a build of `target` on `host` with the cache root
    /// `cache_dir`. Nothing is looked up or fetched.
    pub fn new(
        host: Host,
        target: BuildTarget,
        cache_dir: String,
        flutter: Option<Flutter>,
        target_sdk_version: u32,
    ) -> (out: BuildEnv)
        ensures
            out@ == (BuildEnvView {
                host: host@,
                target: target@,
                cache_dir: cache_dir@,
                flutter: opt_flutter_view(flutter),
                target_sdk_version,
            }),
    {
        BuildEnv { host, target, cache_dir, flutter, target_sdk_version }
    }

    /// The machine that runs the build.
    pub fn host(&self) -> (out: &Host)
        ensures
            out@ == self@.host,
    {
        &self.host
    }

    /// What is to be built.
    pub fn target(&self) -> (out: &BuildTarget)
        ensures
            out@ == self@.target,
    {
        &self.target
    }

    /// The root of the artifact cache.
    pub fn cache_dir(&self) -> (out: &str)
        ensures
            out@ == self@.cache_dir,
    {
        self.cache_dir.as_str()
    }

    /// The engine toolchain, where the application uses one.
    pub fn flutter(&self) -> (out: Option<&Flutter>)
        ensures
            match out {
                Some(f) => self@.flutter == Some(f@),
                None => self@.flutter is None,
            },
    {
        self.flutter.as_ref()
    }

    /// The Android API level that the application targets.
    pub fn target_sdk_version(&self) -> (out: u32)
        ensures
            out == self@.target_sdk_version,
    {
        self.target_sdk_version
    }

    /// The staging directory of downloads: `<cache>/download`.
    pub fn download_dir(&self) -> (out: String)
        ensures
            out@ == self@.download_dir(),
    {
        join(self.cache_dir.as_str(), "download")
    }

    /// The directory of the Windows SDK.
    pub fn windows_sdk(&self) -> (out: String)
        ensures
            out@ == self@.windows_sdk(),
    {
        join(self.cache_dir.as_str(), "Windows.sdk")
    }

    /// The directory of the macOS SDK.
    pub fn macos_sdk(&self) -> (out: String)
        ensures
            out@ == self@.macos_sdk(),
    {
        join(self.cache_dir.as_str(), "MacOSX.sdk")
    }

    /// The directory of the Android SDK.
    pub fn android_sdk(&self) -> (out: String)
        ensures
            out@ == self@.android_sdk(),
    {
        join(self.cache_dir.as_str(), "Android.sdk")
    }

    /// The directory of the Android NDK.
    pub fn android_ndk(&self) -> (out: String)
        ensures
            out@ == self@.android_ndk(),
    {
        join(self.cache_dir.as_str(), "Android.ndk")
    }

    /// The directory of the iOS SDK.
    pub fn ios_sdk(&self) -> (out: String)
        ensures
            out@ == self@.ios_sdk(),
    {
        join(self.cache_dir.as_str(), "iPhoneOS.sdk")
    }

    /// The name of the Android platform of the targeted API level.
    pub fn android_platform(&self) -> (out: String)
        ensures
            out@ == self@.android_platform(),
    {
        let level = decimal_text(self.target_sdk_version as u64);
        let mut out = String::from_str("android-");
        out.append(level.as_str());
        out
    }

    /// The platform library of the targeted API level.
    pub fn android_jar(&self) -> (out: String)
        ensures
            out@ == self@.android_jar(),
    {
        let sdk = self.android_sdk();
        let platforms = join(sdk.as_str(), "platforms");
        let platform = self.android_platform();
        let dir = join(platforms.as_str(), platform.as_str());
        join(dir.as_str(), "android.jar")
    }
}

} // verus!
