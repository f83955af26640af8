use xbuild::command::{Command, Output};
use xbuild::devices::host::{distro, Host, LineAction};
use xbuild::devices::DeviceId;
use xbuild::disk::Disk;
use xbuild::env::BuildTarget;
use xbuild::error::BuildError;
use xbuild::target::{Arch, CompileTarget, Opt, Platform};

fn ended(code: Option<i32>, stdout: &str) -> Output {
    Output { code, stdout: stdout.to_string() }
}

#[test]
fn names_of_the_target_model() {
    assert_eq!(Platform::Linux.to_string(), "linux");
    assert_eq!(Platform::Windows.to_string(), "windows");
    assert_eq!(Platform::Macos.to_string(), "macos");
    assert_eq!(Platform::Android.to_string(), "android");
    assert_eq!(Platform::Ios.to_string(), "ios");
    assert_eq!(Arch::X64.to_string(), "x64");
    assert_eq!(Arch::Arm64.to_string(), "arm64");
    assert_eq!(Opt::Debug.to_string(), "debug");
    assert_eq!(Opt::Release.to_string(), "release");
    assert_eq!(Platform::Ios.name(), "ios");
    assert_eq!(Arch::Arm64.name(), "arm64");
    assert_eq!(Opt::Release.name(), "release");
}

#[test]
fn host_platform_is_detected_from_the_system_name() {
    assert_eq!(Platform::host("linux"), Ok(Platform::Linux));
    assert_eq!(Platform::host("macos"), Ok(Platform::Macos));
    assert_eq!(Platform::host("windows"), Ok(Platform::Windows));
    assert_eq!(
        Platform::host("freebsd"),
        Err(BuildError::PlatformDetection { reported: "freebsd".to_string() })
    );
    assert_eq!(
        Platform::host("android"),
        Err(BuildError::PlatformDetection { reported: "android".to_string() })
    );
    assert_eq!(
        Platform::host(""),
        Err(BuildError::PlatformDetection { reported: String::new() })
    );
}

#[test]
fn host_arch_is_detected_from_the_processor_name() {
    assert_eq!(Arch::host("x86_64"), Ok(Arch::X64));
    assert_eq!(Arch::host("aarch64"), Ok(Arch::Arm64));
    assert_eq!(
        Arch::host("riscv64"),
        Err(BuildError::PlatformDetection { reported: "riscv64".to_string() })
    );
}

#[test]
fn compile_targets_are_equal_iff_all_fields_are() {
    let a = CompileTarget::new(Platform::Ios, Arch::Arm64, Opt::Release);
    assert_eq!(a.platform(), Platform::Ios);
    assert_eq!(a.arch(), Arch::Arm64);
    assert_eq!(a.opt(), Opt::Release);
    assert_eq!(a, CompileTarget::new(Platform::Ios, Arch::Arm64, Opt::Release));
    assert_ne!(a, CompileTarget::new(Platform::Macos, Arch::Arm64, Opt::Release));
    assert_ne!(a, CompileTarget::new(Platform::Ios, Arch::X64, Opt::Release));
    assert_ne!(a, CompileTarget::new(Platform::Ios, Arch::Arm64, Opt::Debug));
}

#[test]
fn build_target_lists_one_variant_per_architecture() {
    let target = BuildTarget::new(Platform::Android, vec![Arch::Arm64, Arch::X64], Opt::Release);
    assert_eq!(target.platform(), Platform::Android);
    assert_eq!(target.opt(), Opt::Release);
    assert_eq!(target.archs(), &vec![Arch::Arm64, Arch::X64]);
    assert_eq!(
        target.compile_targets(),
        vec![
            CompileTarget::new(Platform::Android, Arch::Arm64, Opt::Release),
            CompileTarget::new(Platform::Android, Arch::X64, Opt::Release),
        ]
    );
    let none = BuildTarget::new(Platform::Linux, vec![], Opt::Debug);
    assert_eq!(none.compile_targets(), vec![]);
}

#[test]
fn host_knows_its_platform_and_architecture() {
    let host = Host::new("linux", "x86_64");
    assert_eq!(host.id(), DeviceId::Host);
    assert_eq!(host.platform(), Ok(Platform::Linux));
    assert_eq!(host.arch(), Ok(Arch::X64));
    assert_eq!(host.target(), Ok(CompileTarget::new(Platform::Linux, Arch::X64, Opt::Debug)));
    assert!(host.is_linux());
    assert!(!host.is_windows());
    let mac = Host::new("macos", "aarch64");
    assert_eq!(mac.target(), Ok(CompileTarget::new(Platform::Macos, Arch::Arm64, Opt::Debug)));
}

#[test]
fn unsupported_host_reports_what_it_found() {
    let host = Host::new("solaris", "sparc64");
    assert_eq!(
        host.platform(),
        Err(BuildError::PlatformDetection { reported: "solaris".to_string() })
    );
    assert_eq!(
        host.arch(),
        Err(BuildError::PlatformDetection { reported: "sparc64".to_string() })
    );
    assert_eq!(
        host.target(),
        Err(BuildError::PlatformDetection { reported: "solaris".to_string() })
    );
    let odd = Host::new("linux", "sparc64");
    assert_eq!(
        odd.target(),
        Err(BuildError::PlatformDetection { reported: "sparc64".to_string() })
    );
}

#[test]
fn executables_get_a_suffix_on_windows_only() {
    assert_eq!(Host::new("windows", "x86_64").exe("dart"), "dart.exe");
    assert_eq!(Host::new("linux", "x86_64").exe("dart"), "dart");
    assert_eq!(Host::new("macos", "aarch64").exe("gen_snapshot"), "gen_snapshot");
}

#[test]
fn host_name_is_uname_on_linux() {
    let linux = Host::new("linux", "x86_64");
    assert_eq!(linux.name_query(), Some(Command::new("uname")));
    assert_eq!(linux.name(&ended(Some(0), "Linux\n")), Ok("Linux".to_string()));
    assert_eq!(
        linux.name(&ended(Some(1), "Linux\n")),
        Err(BuildError::ToolInvocation { program: "uname".to_string(), code: Some(1) })
    );
    assert_eq!(
        linux.name(&ended(None, "")),
        Err(BuildError::ToolInvocation { program: "uname".to_string(), code: None })
    );
    let mac = Host::new("macos", "aarch64");
    assert_eq!(mac.name_query(), None);
    assert_eq!(mac.name(&ended(Some(1), "whatever")), Ok("host".to_string()));
}

#[test]
fn distro_is_the_first_name_assignment() {
    let os_release = "NAME=\"Arch Linux\"\nPRETTY_NAME=\"Arch Linux\"\nID=arch\n";
    assert_eq!(distro(os_release), "Arch Linux");
    assert_eq!(distro("ID=arch\r\nNAME=Fedora\r\nNAME=Other\r\n"), "Fedora");
    assert_eq!(distro("PRETTY_NAME=\"x\"\nID=y"), "");
    assert_eq!(distro(""), "");
    assert_eq!(distro("NAME"), "");
    assert_eq!(distro("NAME="), "");
    assert_eq!(distro(" NAME=x\nNAME=\"a=b\""), "a=b");
    assert_eq!(distro("\n\nNAME=z"), "z");
    assert_eq!(distro("NAME=q\r"), "q\r");
}

#[test]
fn distro_agrees_with_a_plain_std_parse() {
    let samples = [
        "NAME=\"Ubuntu\"\nVERSION=\"22.04\"\n",
        "A=1\r\nNAME=\"\"\"x\"\r\n",
        "NAME=one\nNAME=two",
        "=\nNAME==\n",
        "noequals\n\rNAME=cr\n",
    ];
    for s in samples {
        let expected = s
            .lines()
            .filter_map(|line| line.split_once('='))
            .filter(|(k, _)| *k == "NAME")
            .map(|(_, v)| v.trim_matches('"').to_string())
            .next()
            .unwrap_or_default();
        assert_eq!(distro(s), expected);
    }
}

#[test]
fn host_details_join_distro_and_kernel_release() {
    let linux = Host::new("linux", "x86_64");
    let mut query = Command::new("uname");
    query.arg("-r");
    assert_eq!(linux.details_query(), Some(query));
    assert_eq!(
        linux.details("NAME=\"Arch Linux\"\n", &ended(Some(0), "6.1.4-arch1-1\n")),
        Ok("Arch Linux 6.1.4-arch1-1".to_string())
    );
    assert_eq!(linux.details("", &ended(Some(0), "6.1\n")), Ok(" 6.1".to_string()));
    assert_eq!(
        linux.details("NAME=x", &ended(Some(2), "")),
        Err(BuildError::ToolInvocation { program: "uname".to_string(), code: Some(2) })
    );
    let windows = Host::new("windows", "x86_64");
    assert_eq!(windows.details_query(), None);
    assert_eq!(windows.details("NAME=x", &ended(Some(1), "y")), Ok(String::new()));
}

#[test]
fn scan_finds_the_announced_address() {
    let host = Host::new("linux", "x86_64");
    assert_eq!(
        host.scan("flutter: Observatory listening on http://127.0.0.1:44553/Kq0R1J7pH8U=/\n"),
        LineAction::Attach("http://127.0.0.1:44553/Kq0R1J7pH8U=/".to_string())
    );
    assert_eq!(
        host.scan("  listening on http://192.168.0.1:1/  "),
        LineAction::Echo("listening on http://192.168.0.1:1/".to_string())
    );
    assert_eq!(
        host.scan("http://127.0.0.1:1/"),
        LineAction::Echo("http://127.0.0.1:1/".to_string())
    );
    assert_eq!(host.scan("   "), LineAction::Echo(String::new()));
    assert_eq!(
        host.scan("url http://127.0.0.1:1/ trailing"),
        LineAction::Echo("url http://127.0.0.1:1/ trailing".to_string())
    );
    assert_eq!(
        host.scan("a\thttp://127.0.0.1 http://127.0.0.1\t"),
        LineAction::Attach("http://127.0.0.1".to_string())
    );
}

#[test]
fn run_and_lldb_commands() {
    let host = Host::new("linux", "x86_64");
    let run = host.run("/build/app");
    assert_eq!(run.program(), "/build/app");
    assert!(run.args().is_empty());
    assert!(run.envs().is_empty());
    assert_eq!(run.dir(), None);
    let lldb = host.lldb("/build/app");
    assert_eq!(lldb.program(), "lldb");
    assert_eq!(lldb.args(), &vec!["/build/app".to_string()]);
}

#[test]
fn command_collects_what_it_is_given() {
    let mut c = Command::new("clang");
    c.arg("-c");
    c.env("SDKROOT", "/sdk");
    c.arg("x.S");
    c.current_dir("/work");
    c.env("A", "B");
    assert_eq!(c.program(), "clang");
    assert_eq!(c.args(), &vec!["-c".to_string(), "x.S".to_string()]);
    assert_eq!(
        c.envs(),
        &vec![("SDKROOT".to_string(), "/sdk".to_string()), ("A".to_string(), "B".to_string())]
    );
    assert_eq!(c.dir(), Some("/work"));
}

#[test]
fn only_exit_status_zero_is_success() {
    let c = Command::new("git");
    assert_eq!(c.check(Some(0)), Ok(()));
    assert_eq!(
        c.check(Some(128)),
        Err(BuildError::ToolInvocation { program: "git".to_string(), code: Some(128) })
    );
    assert_eq!(
        c.check(Some(-1)),
        Err(BuildError::ToolInvocation { program: "git".to_string(), code: Some(-1) })
    );
    assert_eq!(
        c.check(None),
        Err(BuildError::ToolInvocation { program: "git".to_string(), code: None })
    );
}

#[test]
fn disk_remembers_the_latest_observation() {
    let mut disk = Disk::new();
    assert!(!disk.has("/a"));
    assert_eq!(disk.text("/a"), None);
    disk.note("/a");
    assert!(disk.has("/a"));
    assert_eq!(disk.text("/a"), None);
    disk.note_text("/a", "one");
    disk.note_text("/b", "two");
    assert_eq!(disk.text("/a"), Some("one".to_string()));
    assert_eq!(disk.text("/b"), Some("two".to_string()));
    disk.note_text("/a", "three");
    assert_eq!(disk.text("/a"), Some("three".to_string()));
    disk.note("/b");
    assert!(disk.has("/b"));
    assert_eq!(disk.text("/b"), None);
    assert!(!disk.has("/c"));
    assert!(!disk.has("/A"));
}

#[test]
fn error_messages() {
    assert_eq!(
        BuildError::PlatformDetection { reported: "plan9".to_string() }.message(),
        "unsupported host plan9"
    );
    assert_eq!(
        BuildError::FetchStatus { url: "https://x/y".to_string(), status: 404 }.message(),
        "GET https://x/y returned status code 404"
    );
    assert_eq!(
        BuildError::FetchTransport { url: "https://x/y".to_string(), detail: "timed out".to_string() }
            .message(),
        "GET https://x/y failed: timed out"
    );
    assert_eq!(
        BuildError::Archive { archive: "/c/a.zip".to_string(), detail: "bad entry".to_string() }
            .message(),
        "failed to unpack /c/a.zip: bad entry"
    );
    assert_eq!(
        BuildError::MissingArtifact { path: "/c/icudtl.dat".to_string() }.message(),
        "failed to locate /c/icudtl.dat"
    );
    assert_eq!(
        BuildError::ToolInvocation { program: "clang".to_string(), code: Some(1) }.message(),
        "clang exited with status code 1"
    );
    assert_eq!(
        BuildError::ToolInvocation { program: "clang".to_string(), code: Some(-11) }.message(),
        "clang exited with status code -11"
    );
    assert_eq!(
        BuildError::ToolInvocation { program: "clang".to_string(), code: Some(i32::MIN) }.message(),
        "clang exited with status code -2147483648"
    );
    assert_eq!(
        BuildError::ToolInvocation { program: "clang".to_string(), code: None }.message(),
        "clang could not be run to its end"
    );
    assert_eq!(
        BuildError::VersionResolution { marker: "/f/bin/internal/engine.version".to_string() }
            .message(),
        "failed to resolve the version at /f/bin/internal/engine.version"
    );
    assert_eq!(
        BuildError::UnsupportedCombination { target: Platform::Linux, host: Platform::Macos }
            .message(),
        "cross compiling to linux is not yet supported"
    );
}

#[test]
fn errors_can_be_cloned() {
    let e = BuildError::FetchStatus { url: "u".to_string(), status: 500 };
    assert_eq!(e.clone(), e);
    let m = BuildError::UnsupportedCombination { target: Platform::Linux, host: Platform::Windows };
    assert_eq!(m.clone(), m);
}
