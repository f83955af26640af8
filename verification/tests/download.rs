use xbuild::devices::host::Host;
use xbuild::disk::Disk;
use xbuild::download::{
    archive_kind_of, AndroidJar, ArchiveKind, Cleanup, DownloadManager, FetchStep, Prefetch,
    Transfer, WorkItem,
};
use xbuild::env::{BuildEnv, BuildTarget};
use xbuild::error::BuildError;
use xbuild::flutter::Flutter;
use xbuild::target::{Arch, CompileTarget, Opt, Platform};

fn flutter(os: &str, arch: &str) -> Flutter {
    Flutter::with_git(
        "git".to_string(),
        Host::new(os, arch),
        "/flutter".to_string(),
        "/cache".to_string(),
        false,
    )
}

fn env(os: &str, arch: &str, platform: Platform, archs: Vec<Arch>, opt: Opt, with_flutter: bool) -> BuildEnv {
    BuildEnv::new(
        Host::new(os, arch),
        BuildTarget::new(platform, archs, opt),
        "/cache".to_string(),
        if with_flutter { Some(flutter(os, arch)) } else { None },
        31,
    )
}

fn sdk_url(artifact: &str) -> String {
    format!("https://github.com/cloudpeers/x/releases/download/v0.1.0+2/{}", artifact)
}

fn sdk_item(output: &str, artifact: &str, no_symlinks: bool, no_colons: bool) -> WorkItem {
    let mut item = WorkItem::new(output.to_string(), sdk_url(artifact));
    if no_symlinks {
        item.no_symlinks();
    }
    if no_colons {
        item.no_colons();
    }
    item
}

#[test]
fn work_item_starts_without_filters() {
    let item = WorkItem::new("/cache/out".to_string(), "https://host/file".to_string());
    assert_eq!(item.output(), "/cache/out");
    assert_eq!(item.url(), "https://host/file");
    assert!(!item.skips_symlinks());
    assert!(!item.skips_colons());
}

#[test]
fn filters_are_independent_and_chain() {
    let mut a = WorkItem::new("/o".to_string(), "u/x".to_string());
    a.no_symlinks();
    assert!(a.skips_symlinks());
    assert!(!a.skips_colons());
    let mut b = WorkItem::new("/o".to_string(), "u/x".to_string());
    b.no_colons();
    assert!(!b.skips_symlinks());
    assert!(b.skips_colons());
    let mut c = WorkItem::new("/o".to_string(), "u/x".to_string());
    c.no_symlinks().no_colons();
    assert!(c.skips_symlinks());
    assert!(c.skips_colons());
    assert_eq!(c.url(), "u/x");
    assert_eq!(c.output(), "/o");
    c.no_symlinks();
    assert!(c.skips_symlinks() && c.skips_colons());
}

#[test]
fn github_release_follows_the_template() {
    let item = WorkItem::github_release("/cache/x".to_string(), "org", "repo", "v1.2.3", "file.zip");
    assert_eq!(item.url(), "https://github.com/org/repo/releases/download/v1.2.3/file.zip");
    assert_eq!(item.output(), "/cache/x");
    assert!(!item.skips_symlinks());
    assert!(!item.skips_colons());
}

#[test]
fn entries_are_kept_unless_a_filter_says_otherwise() {
    let link = "Windows.sdk/Include/windows.h";
    let colon = "MacOSX.sdk/usr/share/man/man3/Tcl::Tk.3";
    let plain = WorkItem::new("/o".to_string(), "u/a.tar.zst".to_string());
    assert!(plain.keeps_entry(true, link));
    assert!(plain.keeps_entry(false, colon));
    assert!(plain.keeps_entry(true, colon));

    let mut no_links = plain.clone();
    no_links.no_symlinks();
    assert!(!no_links.keeps_entry(true, link));
    assert!(no_links.keeps_entry(false, link));
    assert!(no_links.keeps_entry(false, colon));

    let mut no_colons = plain.clone();
    no_colons.no_colons();
    assert!(no_colons.keeps_entry(true, link));
    assert!(!no_colons.keeps_entry(false, colon));
    assert!(no_colons.keeps_entry(false, link));

    let mut both = plain.clone();
    both.no_symlinks().no_colons();
    assert!(!both.keeps_entry(true, link));
    assert!(!both.keeps_entry(false, colon));
    assert!(both.keeps_entry(false, link));
}

#[test]
fn archive_kinds_go_by_the_ending() {
    assert_eq!(archive_kind_of("Windows.sdk.tar.zst"), ArchiveKind::TarZst);
    assert_eq!(archive_kind_of("Flutter.framework.zip"), ArchiveKind::FrameworkZip);
    assert_eq!(archive_kind_of("artifacts.zip"), ArchiveKind::Zip);
    assert_eq!(archive_kind_of("r8.jar"), ArchiveKind::Plain);
    assert_eq!(archive_kind_of(".zip"), ArchiveKind::Zip);
    assert_eq!(archive_kind_of("a.tar.zst.zip"), ArchiveKind::Zip);
    assert_eq!(archive_kind_of("a.ZIP"), ArchiveKind::Plain);
    assert_eq!(archive_kind_of(""), ArchiveKind::Plain);
}

fn steps_of(item: WorkItem) -> Vec<FetchStep> {
    let env = env("linux", "x86_64", Platform::Android, vec![Arch::Arm64], Opt::Debug, false);
    let manager = DownloadManager::new(&env);
    assert!(item.is_fetchable());
    let mut fetch = manager.fetch(item, &Disk::new());
    let mut steps = Vec::new();
    while let Some(step) = fetch.current() {
        steps.push(step.clone());
        fetch.succeed();
    }
    assert_eq!(fetch.result(), Some(Ok(())));
    steps
}

#[test]
fn tar_zst_is_downloaded_and_unpacked_beside_the_output() {
    let mut item = WorkItem::new("/cache/MacOSX.sdk".to_string(), sdk_url("MacOSX.sdk.tar.zst"));
    item.no_colons();
    assert_eq!(
        steps_of(item),
        vec![
            FetchStep::Download {
                url: sdk_url("MacOSX.sdk.tar.zst"),
                dest: "/cache/download/MacOSX.sdk.tar.zst".to_string(),
            },
            FetchStep::Untar {
                archive: "/cache/download/MacOSX.sdk.tar.zst".to_string(),
                dest: "/cache".to_string(),
                no_symlinks: false,
                no_colons: true,
            },
        ]
    );
}

#[test]
fn framework_zip_is_unpacked_twice() {
    let item = WorkItem::new(
        "/cache/engine/v/Flutter.framework".to_string(),
        "https://storage/flutter/v/ios/Flutter.framework.zip".to_string(),
    );
    assert_eq!(
        steps_of(item),
        vec![
            FetchStep::Download {
                url: "https://storage/flutter/v/ios/Flutter.framework.zip".to_string(),
                dest: "/cache/download/Flutter.framework.zip".to_string(),
            },
            FetchStep::Unzip {
                archive: "/cache/download/Flutter.framework.zip".to_string(),
                dest: "/cache/framework".to_string(),
            },
            FetchStep::CreateDirAll { path: "/cache/engine/v/Flutter.framework".to_string() },
            FetchStep::Unzip {
                archive: "/cache/framework/Flutter.framework.zip".to_string(),
                dest: "/cache/engine/v/Flutter.framework".to_string(),
            },
        ]
    );
}

#[test]
fn zip_is_unpacked_beside_the_output() {
    let item = WorkItem::new(
        "/cache/engine/v/artifacts".to_string(),
        "https://storage/flutter/v/artifacts.zip".to_string(),
    );
    assert_eq!(
        steps_of(item),
        vec![
            FetchStep::Download {
                url: "https://storage/flutter/v/artifacts.zip".to_string(),
                dest: "/cache/download/artifacts.zip".to_string(),
            },
            FetchStep::Unzip {
                archive: "/cache/download/artifacts.zip".to_string(),
                dest: "/cache/engine/v".to_string(),
            },
        ]
    );
}

#[test]
fn anything_else_is_downloaded_to_the_output() {
    let item = WorkItem::new("/cache/r8.jar".to_string(), "https://maven/r8-3.1.51.jar".to_string());
    assert_eq!(
        steps_of(item),
        vec![FetchStep::Download {
            url: "https://maven/r8-3.1.51.jar".to_string(),
            dest: "/cache/r8.jar".to_string(),
        }]
    );
}

#[test]
fn archives_need_an_output_in_a_directory() {
    assert!(!WorkItem::new(String::new(), "u/a.tar.zst".to_string()).is_fetchable());
    assert!(!WorkItem::new("/".to_string(), "u/a.zip".to_string()).is_fetchable());
    assert!(WorkItem::new(String::new(), "u/a.framework.zip".to_string()).is_fetchable());
    assert!(WorkItem::new(String::new(), "u/a.bin".to_string()).is_fetchable());
    assert!(WorkItem::new("out".to_string(), "u/a.zip".to_string()).is_fetchable());
}

#[test]
fn fetch_of_a_present_output_is_a_noop() {
    let env = env("linux", "x86_64", Platform::Windows, vec![Arch::X64], Opt::Release, false);
    let manager = DownloadManager::new(&env);
    let item = manager.windows_sdk();
    let mut first = manager.fetch(item.clone(), &Disk::new());
    let mut work = 0;
    while first.current().is_some() {
        work += 1;
        first.succeed();
    }
    assert_eq!(work, 2);
    assert_eq!(first.result(), Some(Ok(())));

    let mut disk = Disk::new();
    disk.note(item.output());
    let mut second = manager.fetch(item, &disk);
    assert_eq!(second.current(), None);
    assert_eq!(second.result(), Some(Ok(())));
    second.succeed();
    assert_eq!(second.fail(BuildError::MissingArtifact { path: "x".to_string() }, false), None);
    assert_eq!(second.result(), Some(Ok(())));
    assert_eq!(second.output(), "/cache/Windows.sdk");
}

#[test]
fn failed_fetch_removes_the_output() {
    let env = env("linux", "x86_64", Platform::Macos, vec![Arch::X64], Opt::Release, false);
    let manager = DownloadManager::new(&env);
    let item = manager.macos_sdk();
    let status = manager
        .download(item.url(), "/cache/download/MacOSX.sdk.tar.zst", 503, None)
        .unwrap_err();
    assert_eq!(status, BuildError::FetchStatus { url: item.url().to_string(), status: 503 });

    let mut fetch = manager.fetch(item.clone(), &Disk::new());
    assert_eq!(fetch.result(), None);
    assert_eq!(
        fetch.fail(status.clone(), false),
        Some(Cleanup::RemoveFile { path: "/cache/MacOSX.sdk".to_string() })
    );
    assert_eq!(fetch.current(), None);
    assert_eq!(fetch.result(), Some(Err(status.clone())));
    fetch.succeed();
    assert_eq!(fetch.fail(BuildError::MissingArtifact { path: "x".to_string() }, true), None);
    assert_eq!(fetch.result(), Some(Err(status)));

    let mut late = manager.fetch(item, &Disk::new());
    late.succeed();
    let broken = BuildError::Archive {
        archive: "/cache/download/MacOSX.sdk.tar.zst".to_string(),
        detail: "unexpected end of file".to_string(),
    };
    assert_eq!(
        late.fail(broken.clone(), true),
        Some(Cleanup::RemoveDirAll { path: "/cache/MacOSX.sdk".to_string() })
    );
    assert_eq!(late.result(), Some(Err(broken)));
}

#[test]
fn download_accepts_only_success_statuses() {
    let env = env("linux", "x86_64", Platform::Linux, vec![Arch::X64], Opt::Debug, false);
    let manager = DownloadManager::new(&env);
    assert_eq!(
        manager.download("https://h/a.zip", "/cache/download/a.zip", 200, Some(1024)),
        Ok(Transfer {
            dest: "/cache/download/a.zip".to_string(),
            label: "a.zip".to_string(),
            length: 1024,
        })
    );
    assert_eq!(manager.download("u", "/d/f", 299, None).unwrap().length, 0);
    assert_eq!(manager.download("u", "/d/f", 204, Some(0)).unwrap().label, "f");
    for status in [0, 100, 199, 300, 301, 404, 500, 999, u16::MAX] {
        assert_eq!(
            manager.download("u", "/d/f", status, Some(5)),
            Err(BuildError::FetchStatus { url: "u".to_string(), status })
        );
    }
    assert_eq!(manager.env(), &env);
    assert_eq!(env.download_dir(), "/cache/download");
}

#[test]
fn sdk_requests() {
    let linux = env("linux", "x86_64", Platform::Android, vec![Arch::Arm64], Opt::Debug, false);
    let manager = DownloadManager::new(&linux);
    assert_eq!(
        manager.windows_sdk(),
        sdk_item("/cache/Windows.sdk", "Windows.sdk.tar.zst", true, false)
    );
    assert_eq!(manager.macos_sdk(), sdk_item("/cache/MacOSX.sdk", "MacOSX.sdk.tar.zst", false, false));
    assert_eq!(
        manager.android_ndk(),
        sdk_item("/cache/Android.ndk", "Android.ndk.tar.zst", false, false)
    );
    assert_eq!(manager.ios_sdk(), sdk_item("/cache/iPhoneOS.sdk", "iPhoneOS.sdk.tar.zst", false, false));
    for item in [manager.windows_sdk(), manager.macos_sdk(), manager.android_ndk(), manager.ios_sdk()] {
        assert!(item.is_fetchable());
    }
}

#[test]
fn colons_are_filtered_on_a_windows_host_only() {
    let windows = env("windows", "x86_64", Platform::Ios, vec![Arch::Arm64], Opt::Debug, false);
    let manager = DownloadManager::new(&windows);
    assert_eq!(manager.macos_sdk(), sdk_item("/cache/MacOSX.sdk", "MacOSX.sdk.tar.zst", false, true));
    assert_eq!(manager.ios_sdk(), sdk_item("/cache/iPhoneOS.sdk", "iPhoneOS.sdk.tar.zst", false, true));
    assert_eq!(
        manager.android_ndk(),
        sdk_item("/cache/Android.ndk", "Android.ndk.tar.zst", false, false)
    );
    let mac = env("macos", "aarch64", Platform::Ios, vec![Arch::Arm64], Opt::Debug, false);
    assert_eq!(
        DownloadManager::new(&mac).ios_sdk(),
        sdk_item("/cache/iPhoneOS.sdk", "iPhoneOS.sdk.tar.zst", false, false)
    );
}

#[test]
fn android_jar_is_requested_unless_present() {
    let env = env("linux", "x86_64", Platform::Android, vec![Arch::Arm64], Opt::Debug, false);
    let manager = DownloadManager::new(&env);
    assert_eq!(
        manager.android_jar(&Disk::new()),
        Some(AndroidJar {
            sdk_dir: "/cache/Android.sdk".to_string(),
            package: "platforms;android-31".to_string(),
            path: "/cache/Android.sdk/platforms/android-31/android.jar".to_string(),
        })
    );
    let mut disk = Disk::new();
    disk.note("/cache/Android.sdk/platforms/android-31/android.jar");
    assert_eq!(manager.android_jar(&disk), None);
    assert_eq!(env.target_sdk_version(), 31);
    assert_eq!(env.android_sdk(), "/cache/Android.sdk");
}

#[test]
fn prefetch_windows_release_on_linux() {
    let env = env("linux", "x86_64", Platform::Windows, vec![Arch::X64], Opt::Release, true);
    let plan = DownloadManager::new(&env).prefetch(false).unwrap();
    assert_eq!(
        plan,
        vec![
            Prefetch::Sdk(sdk_item("/cache/Windows.sdk", "Windows.sdk.tar.zst", true, false)),
            Prefetch::Engine(CompileTarget::new(Platform::Windows, Arch::X64, Opt::Release)),
            Prefetch::Engine(CompileTarget::new(Platform::Linux, Arch::X64, Opt::Debug)),
            Prefetch::MaterialFonts,
        ]
    );
    match &plan[0] {
        Prefetch::Sdk(item) => {
            assert!(item.skips_symlinks());
            assert_eq!(item.url(), sdk_url("Windows.sdk.tar.zst"));
        }
        other => panic!("not an SDK: {:?}", other),
    }
}

#[test]
fn prefetch_skips_the_sdk_of_the_host() {
    for (os, platform) in
        [("linux", Platform::Linux), ("windows", Platform::Windows), ("macos", Platform::Macos)]
    {
        for with_flutter in [false, true] {
            let env = env(os, "aarch64", platform, vec![Arch::X64, Arch::Arm64], Opt::Debug, with_flutter);
            let plan = DownloadManager::new(&env).prefetch(true).unwrap();
            for entry in &plan {
                assert!(!matches!(entry, Prefetch::Sdk(_) | Prefetch::AndroidJar));
            }
            if with_flutter {
                assert_eq!(
                    plan,
                    vec![
                        Prefetch::Engine(CompileTarget::new(platform, Arch::X64, Opt::Debug)),
                        Prefetch::Engine(CompileTarget::new(platform, Arch::Arm64, Opt::Debug)),
                        Prefetch::Engine(CompileTarget::new(platform, Arch::Arm64, Opt::Debug)),
                        Prefetch::MaterialFonts,
                    ]
                );
            } else {
                assert_eq!(plan, vec![]);
            }
        }
    }
}

#[test]
fn prefetch_refuses_to_cross_compile_to_linux() {
    for os in ["macos", "windows"] {
        let env = env(os, "x86_64", Platform::Linux, vec![Arch::X64], Opt::Release, true);
        let host = Platform::host(os).unwrap();
        assert_eq!(
            DownloadManager::new(&env).prefetch(false),
            Err(BuildError::UnsupportedCombination { target: Platform::Linux, host })
        );
    }
}

#[test]
fn prefetch_for_android_with_class_files() {
    let env = env("macos", "aarch64", Platform::Android, vec![Arch::Arm64, Arch::X64], Opt::Release, true);
    let manager = DownloadManager::new(&env);
    let ndk = sdk_item("/cache/Android.ndk", "Android.ndk.tar.zst", false, false);
    assert_eq!(
        manager.prefetch(true),
        Ok(vec![
            Prefetch::Sdk(ndk.clone()),
            Prefetch::AndroidJar,
            Prefetch::Engine(CompileTarget::new(Platform::Android, Arch::Arm64, Opt::Release)),
            Prefetch::Engine(CompileTarget::new(Platform::Android, Arch::X64, Opt::Release)),
            Prefetch::Engine(CompileTarget::new(Platform::Macos, Arch::Arm64, Opt::Debug)),
            Prefetch::MaterialFonts,
            Prefetch::R8,
            Prefetch::FlutterEmbedding,
        ])
    );
    assert_eq!(manager.prefetch(false).unwrap().len(), 6);
    let bare = self::env("macos", "aarch64", Platform::Android, vec![Arch::Arm64], Opt::Release, false);
    assert_eq!(
        DownloadManager::new(&bare).prefetch(true),
        Ok(vec![Prefetch::Sdk(ndk), Prefetch::AndroidJar])
    );
}

#[test]
fn prefetch_for_ios_and_macos() {
    let ios = env("linux", "x86_64", Platform::Ios, vec![Arch::Arm64], Opt::Debug, false);
    assert_eq!(
        DownloadManager::new(&ios).prefetch(true),
        Ok(vec![Prefetch::Sdk(sdk_item("/cache/iPhoneOS.sdk", "iPhoneOS.sdk.tar.zst", false, false))])
    );
    let mac = env("windows", "x86_64", Platform::Macos, vec![Arch::Arm64], Opt::Debug, false);
    assert_eq!(
        DownloadManager::new(&mac).prefetch(false),
        Ok(vec![Prefetch::Sdk(sdk_item("/cache/MacOSX.sdk", "MacOSX.sdk.tar.zst", false, true))])
    );
}

#[test]
fn prefetch_needs_a_supported_host() {
    let odd = env("openbsd", "x86_64", Platform::Windows, vec![Arch::X64], Opt::Debug, false);
    assert_eq!(
        DownloadManager::new(&odd).prefetch(false),
        Err(BuildError::PlatformDetection { reported: "openbsd".to_string() })
    );
    let arch = env("linux", "mips", Platform::Android, vec![Arch::X64], Opt::Debug, true);
    assert_eq!(
        DownloadManager::new(&arch).prefetch(false),
        Err(BuildError::PlatformDetection { reported: "mips".to_string() })
    );
    let no_engine = env("openbsd", "mips", Platform::Android, vec![Arch::X64], Opt::Debug, false);
    assert_eq!(DownloadManager::new(&no_engine).prefetch(false).unwrap().len(), 2);
}

#[test]
fn environment_paths() {
    let e = env("linux", "x86_64", Platform::Ios, vec![Arch::Arm64], Opt::Debug, true);
    assert_eq!(e.cache_dir(), "/cache");
    assert_eq!(e.windows_sdk(), "/cache/Windows.sdk");
    assert_eq!(e.macos_sdk(), "/cache/MacOSX.sdk");
    assert_eq!(e.android_ndk(), "/cache/Android.ndk");
    assert_eq!(e.ios_sdk(), "/cache/iPhoneOS.sdk");
    assert_eq!(e.host(), &Host::new("linux", "x86_64"));
    assert_eq!(e.target().platform(), Platform::Ios);
    assert_eq!(e.flutter(), Some(&flutter("linux", "x86_64")));
    let bare = env("linux", "x86_64", Platform::Ios, vec![Arch::Arm64], Opt::Debug, false);
    assert_eq!(bare.flutter(), None);
}

#[test]
fn a_failed_step_names_what_it_worked_on() {
    let download = FetchStep::Download { url: "https://h/a.zip".to_string(), dest: "/c/a.zip".to_string() };
    assert_eq!(
        download.failure("connection reset"),
        BuildError::FetchTransport {
            url: "https://h/a.zip".to_string(),
            detail: "connection reset".to_string(),
        }
    );
    let untar = FetchStep::Untar {
        archive: "/c/a.tar.zst".to_string(),
        dest: "/c".to_string(),
        no_symlinks: true,
        no_colons: false,
    };
    assert_eq!(
        untar.failure("bad magic"),
        BuildError::Archive { archive: "/c/a.tar.zst".to_string(), detail: "bad magic".to_string() }
    );
    let unzip = FetchStep::Unzip { archive: "/c/a.zip".to_string(), dest: "/c".to_string() };
    assert_eq!(
        unzip.failure(""),
        BuildError::Archive { archive: "/c/a.zip".to_string(), detail: String::new() }
    );
    let mkdir = FetchStep::CreateDirAll { path: "/c/out".to_string() };
    assert_eq!(
        mkdir.failure("denied"),
        BuildError::Archive { archive: "/c/out".to_string(), detail: "denied".to_string() }
    );
}

#[test]
fn transport_failure_ends_the_fetch() {
    let env = env("linux", "x86_64", Platform::Android, vec![Arch::Arm64], Opt::Debug, false);
    let manager = DownloadManager::new(&env);
    let mut fetch = manager.fetch(manager.android_ndk(), &Disk::new());
    let cause = fetch.current().unwrap().failure("dns error");
    assert_eq!(
        cause,
        BuildError::FetchTransport {
            url: sdk_url("Android.ndk.tar.zst"),
            detail: "dns error".to_string(),
        }
    );
    assert_eq!(
        fetch.fail(cause.clone(), false),
        Some(Cleanup::RemoveFile { path: "/cache/Android.ndk".to_string() })
    );
    assert_eq!(fetch.result(), Some(Err(cause)));
}

#[test]
fn android_platform_paths() {
    let e = env("linux", "x86_64", Platform::Android, vec![Arch::Arm64], Opt::Debug, false);
    assert_eq!(e.android_platform(), "android-31");
    assert_eq!(e.android_jar(), "/cache/Android.sdk/platforms/android-31/android.jar");
}
