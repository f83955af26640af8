//! The ways in which planning a build can fail.

use crate::target::Platform;
use crate::text::{decimal, decimal_text, views};
use vstd::prelude::*;
use vstd::string::StringExecFns;

verus! {

/// Why a step of the build was refused or has failed.
#[derive(Debug, PartialEq, Eq)]
pub enum BuildError {
    /// The machine that runs the build reports a system or processor that is
    /// not supported as a host.
    PlatformDetection { reported: String },
    /// A download was answered with a status that is no success.
    FetchStatus { url: String, status: u16 },
    /// A download failed before or while its body was received.
    FetchTransport { url: String, detail: String },
    /// An archive could not be unpacked.
    Archive { archive: String, detail: String },
    /// A file that an earlier step should have left on disk is absent.
    MissingArtifact { path: String },
    /// An external program could not be started, was terminated, or left
    /// with a status other than zero.
    ToolInvocation { program: String, code: Option<i32> },
    /// A version marker is absent or cannot be read as a version.
    VersionResolution { marker: String },
    /// The target cannot be built on this host.
    UnsupportedCombination { target: Platform, host: Platform },
}

/// The mathematical value of an [`BuildError`].
pub enum BuildErrorView {
    PlatformDetection { reported: Seq<char> },
    FetchStatus { url: Seq<char>, status: u16 },
    FetchTransport { url: Seq<char>, detail: Seq<char> },
    Archive { archive: Seq<char>, detail: Seq<char> },
    MissingArtifact { path: Seq<char> },
    ToolInvocation { program: Seq<char>, code: Option<i32> },
    VersionResolution { marker: Seq<char> },
    UnsupportedCombination { target: Platform, host: Platform },
}

impl View for BuildError {
    type V = BuildErrorView;

    open spec fn view(&self) -> BuildErrorView {
        match *self {
            BuildError::PlatformDetection { reported } => BuildErrorView::PlatformDetection {
                reported: reported@,
            },
            BuildError::FetchStatus { url, status } => BuildErrorView::FetchStatus { url: url@, status },
            BuildError::FetchTransport { url, detail } => BuildErrorView::FetchTransport {
                url: url@,
                detail: detail@,
            },
            BuildError::Archive { archive, detail } => BuildErrorView::Archive {
                archive: archive@,
                detail: detail@,
            },
            BuildError::MissingArtifact { path } => BuildErrorView::MissingArtifact { path: path@ },
            BuildError::ToolInvocation { program, code } => BuildErrorView::ToolInvocation {
                program: program@,
                code,
            },
            BuildError::VersionResolution { marker } => BuildErrorView::VersionResolution {
                marker: marker@,
            },
            BuildError::UnsupportedCombination { target, host } => BuildErrorView::UnsupportedCombination {
                target,
                host,
            },
        }
    }
}

impl BuildErrorView {
    /// The text that describes the error to a person.
    pub open spec fn message(self) -> Seq<char> {
        match self {
            BuildErrorView::PlatformDetection { reported } => "unsupported host "@ + reported,
            BuildErrorView::FetchStatus { url, status } => "GET "@ + url + " returned status code "@
                + decimal(status as nat),
            BuildErrorView::FetchTransport { url, detail } => "GET "@ + url + " failed: "@ + detail,
            BuildErrorView::Archive { archive, detail } => "failed to unpack "@ + archive + ": "@
                + detail,
            BuildErrorView::MissingArtifact { path } => "failed to locate "@ + path,
            BuildErrorView::ToolInvocation { program, code } => match code {
                Some(c) => if c >= 0 {
                    program + " exited with status code "@ + decimal(c as nat)
                } else {
                    program + " exited with status code -"@ + decimal((-c) as nat)
                },
                None => program + " could not be run to its end"@,
            },
            BuildErrorView::VersionResolution { marker } => "failed to resolve the version at "@
                + marker,
            BuildErrorView::UnsupportedCombination { target, host } => "cross compiling to "@
                + target.name_spec() + " is not yet supported"@,
        }
    }
}

impl Clone for BuildError {
    fn clone(&self) -> (out: BuildError)
        ensures
            out@ == self@,
    {
        match self {
            BuildError::PlatformDetection { reported } => BuildError::PlatformDetection {
                reported: reported.clone(),
            },
            BuildError::FetchStatus { url, status } => BuildError::FetchStatus {
                url: url.clone(),
                status: *status,
            },
            BuildError::FetchTransport { url, detail } => BuildError::FetchTransport {
                url: url.clone(),
                detail: detail.clone(),
            },
            BuildError::Archive { archive, detail } => BuildError::Archive {
                archive: archive.clone(),
                detail: detail.clone(),
            },
            BuildError::MissingArtifact { path } => BuildError::MissingArtifact {
                path: path.clone(),
            },
            BuildError::ToolInvocation { program, code } => BuildError::ToolInvocation {
                program: program.clone(),
                code: *code,
            },
            BuildError::VersionResolution { marker } => BuildError::VersionResolution {
                marker: marker.clone(),
            },
            BuildError::UnsupportedCombination { target, host } => {
                BuildError::UnsupportedCombination { target: *target, host: *host }
            },
        }
    }
}

impl BuildError {
    /// The text that describes the error to a person.
    pub fn message(&self) -> (out: String)
        ensures
            out@ == self@.message(),
    {
        match self {
            BuildError::PlatformDetection { reported } => {
                let mut out = String::from_str("unsupported host ");
                out.append(reported.as_str());
                out
            },
            BuildError::FetchStatus { url, status } => {
                let mut out = String::from_str("GET ");
                out.append(url.as_str());
                out.append(" returned status code ");
                let n = decimal_text(*status as u64);
                out.append(n.as_str());
                out
            },
            BuildError::FetchTransport { url, detail } => {
                let mut out = String::from_str("GET ");
                out.append(url.as_str());
                out.append(" failed: ");
                out.append(detail.as_str());
                out
            },
            BuildError::Archive { archive, detail } => {
                let mut out = String::from_str("failed to unpack ");
                out.append(archive.as_str());
                out.append(": ");
                out.append(detail.as_str());
                out
            },
            BuildError::MissingArtifact { path } => {
                let mut out = String::from_str("failed to locate ");
                out.append(path.as_str());
                out
            },
            BuildError::ToolInvocation { program, code } => {
                let mut out = String::from_str(program.as_str());
                match code {
                    Some(c) => {
                        if *c >= 0 {
                            out.append(" exited with status code ");
                            let n = decimal_text(*c as u64);
                            out.append(n.as_str());
                        } else {
                            out.append(" exited with status code -");
                            let m: i64 = -(*c as i64);
                            let n = decimal_text(m as u64);
                            out.append(n.as_str());
                        }
                    },
                    None => {
                        out.append(" could not be run to its end");
                    },
                }
                out
            },
            BuildError::VersionResolution { marker } => {
                let mut out = String::from_str("failed to resolve the version at ");
                out.append(marker.as_str());
                out
            },
            BuildError::UnsupportedCombination { target, host } => {
                let mut out = String::from_str("cross compiling to ");
                out.append(target.name());
                out.append(" is not yet supported");
                out
            },
        }
    }
}

/// The mathematical value of a result: the view of what it holds.
pub open spec fn result_view<T: View>(r: Result<T, BuildError>) -> Result<T::V, BuildErrorView> {
    match r {
        Ok(v) => Ok(v@),
        Err(e) => Err(e@),
    }
}

/// The mathematical value of a result that holds a list.
pub open spec fn results_view<T: View>(r: Result<Vec<T>, BuildError>) -> Result<
    Seq<T::V>,
    BuildErrorView,
> {
    match r {
        Ok(v) => Ok(views(v@)),
        Err(e) => Err(e@),
    }
}

} // verus!
