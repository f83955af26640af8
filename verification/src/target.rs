//! The target model: platform, architecture, optimization level and their
//! combinations, and the machine that runs the build.

use crate::error::{BuildError, BuildErrorView};
use crate::text::same_text;
use vstd::prelude::*;
use vstd::string::StringExecFns;

verus! {

/// The operating system that an artifact is built for.
#[derive(Clone, Copy, Debug, PartialEq, Eq, Structural, Hash)]
pub enum Platform {
    Linux,
    Windows,
    Macos,
    Android,
    Ios,
}

/// The processor architecture that an artifact is built for.
#[derive(Clone, Copy, Debug, PartialEq, Eq, Structural, Hash)]
pub enum Arch {
    X64,
    Arm64,
}

/// The optimization level of a build.
#[derive(Clone, Copy, Debug, PartialEq, Eq, Structural, Hash)]
pub enum Opt {
    Debug,
    Release,
}

impl Platform {
    /// The name of the platform in paths and messages.
    pub open spec fn name_spec(self) -> Seq<char> {
        match self {
            Platform::Linux => "linux"@,
            Platform::Windows => "windows"@,
            Platform::Macos => "macos"@,
            Platform::Android => "android"@,
            Platform::Ios => "ios"@,
        }
    }

    /// The platform that a host reporting the system name `os` runs, if it
    /// is one that can host a build.
    pub open spec fn host_spec(os: Seq<char>) -> Option<Platform> {
        if os == "linux"@ {
            Some(Platform::Linux)
        } else if os == "macos"@ {
            Some(Platform::Macos)
        } else if os == "windows"@ {
            Some(Platform::Windows)
        } else {
            None
        }
    }

    /// The name of the platform in paths and messages.
    pub fn name(self) -> (out: &'static str)
        ensures
            out@ == self.name_spec(),
    {
        match self {
            Platform::Linux => "linux",
            Platform::Windows => "windows",
            Platform::Macos => "macos",
            Platform::Android => "android",
            Platform::Ios => "ios",
        }
    }

    /// The name of the platform, owned.
    pub fn to_string(self) -> (out: String)
        ensures
            out@ == self.name_spec(),
    {
        String::from_str(self.name())
    }

    /// The platform of the machine that runs the build, from the name that the
    /// machine gives its operating system.
    pub fn host(os: &str) -> (out: Result<Platform, BuildError>)
        ensures
            match out {
                Ok(p) => Platform::host_spec(os@) == Some(p),
                Err(e) => Platform::host_spec(os@) is None && e@ == (BuildErrorView::PlatformDetection {
                    reported: os@,
                }),
            },
    {
        if same_text(os, "linux") {
            Ok(Platform::Linux)
        } else if same_text(os, "macos") {
            Ok(Platform::Macos)
        } else if same_text(os, "windows") {
            Ok(Platform::Windows)
        } else {
            Err(BuildError::PlatformDetection { reported: String::from_str(os) })
        }
    }
}

impl Arch {
    /// The name of the architecture in paths and messages.
    pub open spec fn name_spec(self) -> Seq<char> {
        match self {
            Arch::X64 => "x64"@,
            Arch::Arm64 => "arm64"@,
        }
    }

    /// The architecture of a host that reports the processor name `arch`, if
    /// it is one that can host a build.
    pub open spec fn host_spec(arch: Seq<char>) -> Option<Arch> {
        if arch == "x86_64"@ {
            Some(Arch::X64)
        } else if arch == "aarch64"@ {
            Some(Arch::Arm64)
        } else {
            None
        }
    }

    /// The name of the architecture in paths and messages.
    pub fn name(self) -> (out: &'static str)
        ensures
            out@ == self.name_spec(),
    {
        match self {
            Arch::X64 => "x64",
            Arch::Arm64 => "arm64",
        }
    }

    /// The name of the architecture, owned.
    pub fn to_string(self) -> (out: String)
        ensures
            out@ == self.name_spec(),
    {
        String::from_str(self.name())
    }

    /// The architecture of the machine that runs the build, from the name
    /// that the machine gives its processor.
    pub fn host(arch: &str) -> (out: Result<Arch, BuildError>)
        ensures
            match out {
                Ok(a) => Arch::host_spec(arch@) == Some(a),
                Err(e) => Arch::host_spec(arch@) is None && e@ == (BuildErrorView::PlatformDetection {
                    reported: arch@,
                }),
            },
    {
        if same_text(arch, "x86_64") {
            Ok(Arch::X64)
        } else if same_text(arch, "aarch64") {
            Ok(Arch::Arm64)
        } else {
            Err(BuildError::PlatformDetection { reported: String::from_str(arch) })
        }
    }
}

impl Opt {
    /// The name of the optimization level in paths and messages.
    pub open spec fn name_spec(self) -> Seq<char> {
        match self {
            Opt::Debug => "debug"@,
            Opt::Release => "release"@,
        }
    }

    /// The name of the optimization level in paths and messages.
    pub fn name(self) -> (out: &'static str)
        ensures
            out@ == self.name_spec(),
    {
        match self {
            Opt::Debug => "debug",
            Opt::Release => "release",
        }
    }

    /// The name of the optimization level, owned.
    pub fn to_string(self) -> (out: String)
        ensures
            out@ == self.name_spec(),
    {
        String::from_str(self.name())
    }
}

/// One build variant: a platform, an architecture and an optimization level.
#[derive(Clone, Copy, Debug, PartialEq, Eq, Structural, Hash)]
pub struct CompileTarget {
    platform: Platform,
    arch: Arch,
    opt: Opt,
}

impl CompileTarget {
    /// The platform of the variant.
    pub closed spec fn platform_spec(self) -> Platform {
        self.platform
    }

    /// The architecture of the variant.
    pub closed spec fn arch_spec(self) -> Arch {
        self.arch
    }

    /// The optimization level of the variant.
    pub closed spec fn opt_spec(self) -> Opt {
        self.opt
    }

    /// The variant with the three given fields.
    pub closed spec fn of(platform: Platform, arch: Arch, opt: Opt) -> CompileTarget {
        CompileTarget { platform, arch, opt }
    }

    /// The fields of a variant are those it was made of.
    pub broadcast proof fn lemma_of(platform: Platform, arch: Arch, opt: Opt)
        ensures
            (#[trigger] CompileTarget::of(platform, arch, opt)).platform_spec() == platform,
            CompileTarget::of(platform, arch, opt).arch_spec() == arch,
            CompileTarget::of(platform, arch, opt).opt_spec() == opt,
    {
    }

    /// Two variants are equal exactly where all three fields are.
    pub proof fn lemma_equal_iff_fields(self, other: CompileTarget)
        ensures
            self == other <==> {
                &&& self.platform_spec() == other.platform_spec()
                &&& self.arch_spec() == other.arch_spec()
                &&& self.opt_spec() == other.opt_spec()
            },
    {
    }

    /// The variant with the three given fields; every combination is one.
    pub fn new(platform: Platform, arch: Arch, opt: Opt) -> (out: CompileTarget)
        ensures
            out == CompileTarget::of(platform, arch, opt),
            out.platform_spec() == platform,
            out.arch_spec() == arch,
            out.opt_spec() == opt,
    {
        CompileTarget { platform, arch, opt }
    }

    /// The platform of the variant.
    #[verifier::when_used_as_spec(platform_spec)]
    pub fn platform(self) -> (out: Platform)
        ensures
            out == self.platform_spec(),
    {
        self.platform
    }

    /// The architecture of the variant.
    #[verifier::when_used_as_spec(arch_spec)]
    pub fn arch(self) -> (out: Arch)
        ensures
            out == self.arch_spec(),
    {
        self.arch
    }

    /// The optimization level of the variant.
    #[verifier::when_used_as_spec(opt_spec)]
    pub fn opt(self) -> (out: Opt)
        ensures
            out == self.opt_spec(),
    {
        self.opt
    }
}

} // verus!
