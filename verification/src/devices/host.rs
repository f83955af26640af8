//! The machine that runs the build, as a device: what it is, and the
//! commands that describe it or run an application on it.

use crate::command::{Command, CommandView, Output};
use crate::devices::DeviceId;
use crate::error::{BuildError, BuildErrorView};
use crate::target::{Arch, CompileTarget, Opt, Platform};
use crate::text::{
    chars_of, find_in, first_index, last_index, lemma_first_index, rfind_until, same_text,
    starts_with, trim, trim_matches, trimmed, trimmed_of,
};
use vstd::prelude::*;
use vstd::string::StrSliceExecFns;
use vstd::string::StringExecFns;

verus! {

broadcast use vstd::string::group_string_axioms;

/// The first line of `s`, without its line ending.
pub open spec fn first_line(s: Seq<char>) -> Seq<char> {
    let e = first_index(s, '\n');
    if 0 < e < s.len() && s[e - 1] == '\r' {
        s.subrange(0, e - 1)
    } else {
        s.subrange(0, e)
    }
}

/// What follows the first line of `s`.
pub open spec fn after_first_line(s: Seq<char>) -> Seq<char> {
    let e = first_index(s, '\n');
    if e < s.len() {
        s.subrange(e + 1, s.len() as int)
    } else {
        Seq::empty()
    }
}

/// The value that `line` gives to the key `NAME`, without the quotes around
/// it, if `line` is such an assignment.
pub open spec fn name_of_line(line: Seq<char>) -> Option<Seq<char>> {
    let eq = first_index(line, '=');
    if eq < line.len() && line.subrange(0, eq) == "NAME"@ {
        Some(trimmed_of(line.subrange(eq + 1, line.len() as int), '"'))
    } else {
        None
    }
}

/// The distribution name in the text of an os-release file: the value of the
/// first line that assigns `NAME`, or nothing.
pub open spec fn distro_name(s: Seq<char>) -> Seq<char>
    decreases s.len(),
    via distro_name_decreases
{
    if s.len() == 0 {
        Seq::empty()
    } else {
        match name_of_line(first_line(s)) {
            Some(n) => n,
            None => distro_name(after_first_line(s)),
        }
    }
}

#[via_fn]
proof fn distro_name_decreases(s: Seq<char>) {
    lemma_first_index(s, '\n');
}

/// The address that a started application announces in its output line
/// `line`: the last word of the line, if it begins with the loopback address.
pub open spec fn announced_url(line: Seq<char>) -> Option<Seq<char>> {
    let t = trimmed(line);
    let i = last_index(t, ' ');
    let word = t.subrange(i + 1, t.len() as int);
    if i >= 0 && "http://127.0.0.1"@.is_prefix_of(word) {
        Some(trimmed(word))
    } else {
        None
    }
}

/// The distribution name in the text of an os-release file.
pub fn distro(os_release: &str) -> (out: String)
    ensures
        out@ == distro_name(os_release@),
{
    let v = chars_of(os_release);
    let len = v.len();
    let mut start: usize = 0;
    assert(v@.subrange(0, len as int) =~= v@);
    while start < len
        invariant
            v@ == os_release@,
            start <= len == v.len(),
            distro_name(v@) == distro_name(v@.subrange(start as int, len as int)),
        decreases len - start,
    {
        let ghost t = v@.subrange(start as int, len as int);
        let e = find_in(&v, start, len, '\n');
        let end = if start < e && e < len && v[e - 1] == '\r' {
            e - 1
        } else {
            e
        };
        let eq = find_in(&v, start, end, '=');
        proof {
            lemma_first_index(t, '\n');
            if 0 < e - start < t.len() {
                assert(t[e - start - 1] == v@[e - 1]);
            }
            assert(first_line(t) =~= v@.subrange(start as int, end as int));
        }
        if eq < end {
            let key = os_release.substring_char(start, eq);
            proof {
                let line = v@.subrange(start as int, end as int);
                assert(line.subrange(0, eq - start) =~= v@.subrange(start as int, eq as int));
                assert(line.subrange(eq - start + 1, line.len() as int) =~= v@.subrange(
                    eq + 1,
                    end as int,
                ));
            }
            if same_text(key, "NAME") {
                return trim_matches(os_release.substring_char(eq + 1, end), '"');
            }
        }
        proof {
            assert(name_of_line(first_line(t)) is None);
            if e < len {
                assert(after_first_line(t) =~= v@.subrange(e + 1, len as int));
            } else {
                assert(after_first_line(t) =~= v@.subrange(len as int, len as int));
            }
        }
        start = if e < len {
            e + 1
        } else {
            len
        };
    }
    String::new()
}

/// What to do with one line of a started application's output.
#[derive(Clone, Debug, PartialEq, Eq)]
pub enum LineAction {
    /// The application is ready and listens at this address.
    Attach(String),
    /// The line is passed on to the user, trimmed.
    Echo(String),
}

/// The machine that runs the build. It is known by the names that it gives
/// its operating system and its processor.
#[derive(Clone, Debug, PartialEq, Eq)]
pub struct Host {
    os: String,
    arch: String,
}

/// The mathematical value of a [`Host`].
pub struct HostView {
    /// The name that the machine gives its operating system.
    pub os: Seq<char>,
    /// The name that the machine gives its processor.
    pub arch: Seq<char>,
}

impl HostView {
    /// Whether the machine runs Linux.
    pub open spec fn is_linux(self) -> bool {
        self.os == "linux"@
    }

    /// Whether the machine runs Windows.
    pub open spec fn is_windows(self) -> bool {
        self.os == "windows"@
    }

    /// The platform of the machine, where it can host a build.
    pub open spec fn platform(self) -> Result<Platform, BuildErrorView> {
        match Platform::host_spec(self.os) {
            Some(p) => Ok(p),
            None => Err(BuildErrorView::PlatformDetection { reported: self.os }),
        }
    }

    /// The architecture of the machine, where it can host a build.
    pub open spec fn arch(self) -> Result<Arch, BuildErrorView> {
        match Arch::host_spec(self.arch) {
            Some(a) => Ok(a),
            None => Err(BuildErrorView::PlatformDetection { reported: self.arch }),
        }
    }

    /// The variant that tools run on this machine are built for: its platform
    /// and architecture, at the debug level.
    pub open spec fn target(self) -> Result<CompileTarget, BuildErrorView> {
        match self.platform() {
            Err(e) => Err(e),
            Ok(p) => match self.arch() {
                Err(e) => Err(e),
                Ok(a) => Ok(CompileTarget::of(p, a, Opt::Debug)),
            },
        }
    }

    /// The file name of the executable `name` on this machine.
    pub open spec fn exe(self, name: Seq<char>) -> Seq<char> {
        if self.is_windows() {
            name + ".exe"@
        } else {
            name
        }
    }

    /// The name that the machine answers to, given the end of `uname`.
    pub open spec fn name(self, uname: Output) -> Result<Seq<char>, BuildErrorView> {
        if self.is_linux() {
            match CommandView::bare("uname"@).check(uname.code) {
                Err(e) => Err(e),
                Ok(_) => Ok(trimmed(uname.stdout@)),
            }
        } else {
            Ok("host"@)
        }
    }

    /// The description of the machine's system, given the text of its
    /// os-release file and the end of `uname -r`.
    pub open spec fn details(self, os_release: Seq<char>, uname: Output) -> Result<
        Seq<char>,
        BuildErrorView,
    > {
        if self.is_linux() {
            match CommandView::bare("uname"@).check(uname.code) {
                Err(e) => Err(e),
                Ok(_) => Ok(distro_name(os_release) + " "@ + trimmed(uname.stdout@)),
            }
        } else {
            Ok(""@)
        }
    }
}

impl View for Host {
    type V = HostView;

    closed spec fn view(&self) -> HostView {
        HostView { os: self.os@, arch: self.arch@ }
    }
}

impl Host {
    /// The machine that reports the operating system `os` and the processor
    /// `arch`.
    pub fn new(os: &str, arch: &str) -> (out: Host)
        ensures
            out@ == (HostView { os: os@, arch: arch@ }),
    {
        Host { os: String::from_str(os), arch: String::from_str(arch) }
    }

    /// The device id of the host.
    pub fn id(&self) -> (out: DeviceId)
        ensures
            out == DeviceId::Host,
    {
        DeviceId::Host
    }

    /// Whether the machine runs Linux.
    pub fn is_linux(&self) -> (out: bool)
        ensures
            out == self@.is_linux(),
    {
        same_text(self.os.as_str(), "linux")
    }

    /// Whether the machine runs Windows.
    pub fn is_windows(&self) -> (out: bool)
        ensures
            out == self@.is_windows(),
    {
        same_text(self.os.as_str(), "windows")
    }

    /// The platform of the machine; an error where it cannot host a build.
    pub fn platform(&self) -> (out: Result<Platform, BuildError>)
        ensures
            match out {
                Ok(p) => self@.platform() == Ok::<Platform, BuildErrorView>(p),
                Err(e) => self@.platform() == Err::<Platform, BuildErrorView>(e@),
            },
    {
        Platform::host(self.os.as_str())
    }

    /// The architecture of the machine; an error where it cannot host a build.
    pub fn arch(&self) -> (out: Result<Arch, BuildError>)
        ensures
            match out {
                Ok(a) => self@.arch() == Ok::<Arch, BuildErrorView>(a),
                Err(e) => self@.arch() == Err::<Arch, BuildErrorView>(e@),
            },
    {
        Arch::host(self.arch.as_str())
    }

    /// The variant that tools run on this machine are built for.
    pub fn target(&self) -> (out: Result<CompileTarget, BuildError>)
        ensures
            match out {
                Ok(t) => self@.target() == Ok::<CompileTarget, BuildErrorView>(t),
                Err(e) => self@.target() == Err::<CompileTarget, BuildErrorView>(e@),
            },
    {
        let platform = match self.platform() {
            Ok(p) => p,
            Err(e) => {
                return Err(e);
            },
        };
        let arch = match self.arch() {
            Ok(a) => a,
            Err(e) => {
                return Err(e);
            },
        };
        Ok(CompileTarget::new(platform, arch, Opt::Debug))
    }

    /// The file name of the executable `name` on this machine: with the
    /// suffix `.exe` on Windows, unchanged elsewhere.
    pub fn exe(&self, name: &str) -> (out: String)
        ensures
            out@ == self@.exe(name@),
    {
        let mut out = String::from_str(name);
        if self.is_windows() {
            out.append(".exe");
        }
        out
    }

    /// The command whose output names the machine, where one is needed.
    pub fn name_query(&self) -> (out: Option<Command>)
        ensures
            match out {
                Some(c) => self@.is_linux() && c@ == CommandView::bare("uname"@),
                None => !self@.is_linux(),
            },
    {
        if self.is_linux() {
            Some(Command::new("uname"))
        } else {
            None
        }
    }

    /// The name that the machine answers to. On Linux it is what `uname`
    /// printed, trimmed, and `uname` has to have succeeded; elsewhere it is
    /// `host`, whatever `uname` holds.
    pub fn name(&self, uname: &Output) -> (out: Result<String, BuildError>)
        ensures
            match out {
                Ok(n) => self@.name(*uname) == Ok::<Seq<char>, BuildErrorView>(n@),
                Err(e) => self@.name(*uname) == Err::<Seq<char>, BuildErrorView>(e@),
            },
    {
        if self.is_linux() {
            let query = Command::new("uname");
            match query.check(uname.code) {
                Err(e) => Err(e),
                Ok(_) => Ok(trim(uname.stdout.as_str())),
            }
        } else {
            Ok(String::from_str("host"))
        }
    }

    /// The command whose output completes the description of the machine,
    /// where one is needed.
    pub fn details_query(&self) -> (out: Option<Command>)
        ensures
            match out {
                Some(c) => self@.is_linux() && c@ == CommandView::bare("uname"@).arg("-r"@),
                None => !self@.is_linux(),
            },
    {
        if self.is_linux() {
            let mut c = Command::new("uname");
            c.arg("-r");
            Some(c)
        } else {
            None
        }
    }

    /// The description of the machine's system. On Linux it is the
    /// distribution name from `os_release`, a space, and what `uname -r`
    /// printed, trimmed; elsewhere it is empty.
    pub fn details(&self, os_release: &str, uname: &Output) -> (out: Result<String, BuildError>)
        ensures
            match out {
                Ok(d) => self@.details(os_release@, *uname) == Ok::<Seq<char>, BuildErrorView>(d@),
                Err(e) => self@.details(os_release@, *uname) == Err::<Seq<char>, BuildErrorView>(
                    e@,
                ),
            },
    {
        if self.is_linux() {
            let query = Command::new("uname");
            match query.check(uname.code) {
                Err(e) => Err(e),
                Ok(_) => {
                    let mut out = distro(os_release);
                    out.append(" ");
                    let release = trim(uname.stdout.as_str());
                    out.append(release.as_str());
                    Ok(out)
                },
            }
        } else {
            Ok(String::from_str(""))
        }
    }

    /// The command that runs the application at `path` on this machine.
    pub fn run(&self, path: &str) -> (out: Command)
        ensures
            out@ == CommandView::bare(path@),
    {
        Command::new(path)
    }

    /// What to do with one line that the started application printed, while
    /// waiting for it to announce its address.
    pub fn scan(&self, line: &str) -> (out: LineAction)
        ensures
            match out {
                LineAction::Attach(url) => announced_url(line@) == Some(url@),
                LineAction::Echo(text) => announced_url(line@) is None && text@ == trimmed(line@),
            },
    {
        let t = trim(line);
        let v = chars_of(t.as_str());
        let n = v.len();
        assert(v@.subrange(0, n as int) =~= t@);
        match rfind_until(&v, n, ' ') {
            Some(i) => {
                let word = t.as_str().substring_char(i + 1, n);
                if starts_with(word, "http://127.0.0.1") {
                    return LineAction::Attach(trim(word));
                }
            },
            None => {},
        }
        LineAction::Echo(t)
    }

    /// The command that opens the debugger on `executable`.
    pub fn lldb(&self, executable: &str) -> (out: Command)
        ensures
            out@ == CommandView::bare("lldb"@).arg(executable@),
    {
        let mut c = Command::new("lldb");
        c.arg(executable);
        c
    }
}

/// Tools run on the host are built for the host's own platform and
/// architecture, at the debug level, whatever the build targets.
pub proof fn lemma_host_target(host: HostView)
    ensures
        host.target() is Ok <==> host.platform() is Ok && host.arch() is Ok,
        host.target() is Ok ==> {
            &&& host.target()->Ok_0.platform() == host.platform()->Ok_0
            &&& host.target()->Ok_0.arch() == host.arch()->Ok_0
            &&& host.target()->Ok_0.opt() == Opt::Debug
        },
{
    if host.target() is Ok {
        CompileTarget::lemma_of(host.platform()->Ok_0, host.arch()->Ok_0, Opt::Debug);
    }
}

} // verus!
