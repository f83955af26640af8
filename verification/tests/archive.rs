use std::io::Read;
use xbuild::devices::host::Host;
use xbuild::download::{DownloadManager, WorkItem};
use xbuild::env::{BuildEnv, BuildTarget};
use xbuild::target::{Arch, Opt, Platform};

fn packed_sdk() -> Vec<u8> {
    let mut builder = tar::Builder::new(Vec::new());
    let mut file = tar::Header::new_gnu();
    file.set_size(5);
    file.set_mode(0o644);
    builder.append_data(&mut file, "Sdk/include/stdio.h", &b"hello"[..]).unwrap();
    let mut link = tar::Header::new_gnu();
    link.set_entry_type(tar::EntryType::Symlink);
    link.set_size(0);
    builder.append_link(&mut link, "Sdk/include/STDIO.H", "stdio.h").unwrap();
    let mut page = tar::Header::new_gnu();
    page.set_size(3);
    page.set_mode(0o644);
    builder.append_data(&mut page, "Sdk/man/man3/Tcl::Tk.3", &b"man"[..]).unwrap();
    let tar = builder.into_inner().unwrap();
    zstd::encode_all(&tar[..], 3).unwrap()
}

fn unpacked(item: &WorkItem, archive: &[u8]) -> Vec<String> {
    let mut kept = Vec::new();
    let mut archive = tar::Archive::new(zstd::Decoder::new(archive).unwrap());
    for entry in archive.entries().unwrap() {
        let mut entry = entry.unwrap();
        let is_symlink = entry.header().entry_type() == tar::EntryType::Symlink;
        let path = entry.header().path().unwrap().to_str().unwrap().to_string();
        let mut body = Vec::new();
        entry.read_to_end(&mut body).unwrap();
        if item.keeps_entry(is_symlink, &path) {
            kept.push(path);
        }
    }
    kept
}

#[test]
fn tar_zst_entries_pass_through_the_filters() {
    let archive = packed_sdk();
    let plain = WorkItem::new("/cache/Sdk".to_string(), "https://h/Sdk.tar.zst".to_string());
    assert_eq!(
        unpacked(&plain, &archive),
        vec!["Sdk/include/stdio.h", "Sdk/include/STDIO.H", "Sdk/man/man3/Tcl::Tk.3"]
    );
    let mut no_links = plain.clone();
    no_links.no_symlinks();
    assert_eq!(unpacked(&no_links, &archive), vec!["Sdk/include/stdio.h", "Sdk/man/man3/Tcl::Tk.3"]);
    let mut no_colons = plain.clone();
    no_colons.no_colons();
    assert_eq!(unpacked(&no_colons, &archive), vec!["Sdk/include/stdio.h", "Sdk/include/STDIO.H"]);
    let mut both = plain.clone();
    both.no_colons().no_symlinks();
    assert_eq!(unpacked(&both, &archive), vec!["Sdk/include/stdio.h"]);
}

#[test]
fn status_judgement_agrees_with_the_http_client() {
    let env = BuildEnv::new(
        Host::new("linux", "x86_64"),
        BuildTarget::new(Platform::Linux, vec![Arch::X64], Opt::Debug),
        "/cache".to_string(),
        None,
        30,
    );
    let manager = DownloadManager::new(&env);
    for code in 100..1000u16 {
        let status = reqwest::StatusCode::from_u16(code).unwrap();
        assert_eq!(manager.download("u", "/d/f", code, None).is_ok(), status.is_success());
    }
}
