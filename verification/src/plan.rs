//! The steps of a build as values. A plan is a list of actions; whoever runs
//! it performs them in order and stops at the first that fails.

use crate::command::{opt_view, Command, CommandView};
use crate::target::CompileTarget;
use crate::text::views;
use vstd::prelude::*;

verus! {

/// One step of a build.
#[derive(Clone, Debug, PartialEq, Eq)]
pub enum Action {
    /// Create the directory `path` and the directories above it.
    CreateDirAll { path: String },
    /// Write `contents` to the file `path`, replacing what it held.
    WriteFile { path: String, contents: String },
    /// Remove the link `link`, which is left from an earlier run.
    RemoveDirLink { link: String },
    /// Make `link` a symbolic link to the directory `source`.
    LinkDir { source: String, link: String },
    /// Run `command` to its end; `verbose` passes its output on to the user.
    Run { command: Command, verbose: bool },
    /// Assemble the asset bundle of the application at `root_dir` into
    /// `output`, with the fonts found at `material_fonts`.
    AssembleAssets { root_dir: String, material_fonts: String, output: String },
    /// Compile the class files of `deps` into one dex file with the tool `r8`.
    BuildClassesDex { r8: String, deps: Vec<String> },
    /// Build the main executable of an iOS application, linked against `lib`.
    BuildIosMain { target: CompileTarget, lib: Option<String> },
    /// Build the empty placeholder library of an iOS application.
    BuildIosEmptyDylib { target: CompileTarget },
}

/// The mathematical value of an [`Action`].
#[verifier::ext_equal]
pub enum ActionView {
    CreateDirAll { path: Seq<char> },
    WriteFile { path: Seq<char>, contents: Seq<char> },
    RemoveDirLink { link: Seq<char> },
    LinkDir { source: Seq<char>, link: Seq<char> },
    Run { command: CommandView, verbose: bool },
    AssembleAssets { root_dir: Seq<char>, material_fonts: Seq<char>, output: Seq<char> },
    BuildClassesDex { r8: Seq<char>, deps: Seq<Seq<char>> },
    BuildIosMain { target: CompileTarget, lib: Option<Seq<char>> },
    BuildIosEmptyDylib { target: CompileTarget },
}

impl View for Action {
    type V = ActionView;

    open spec fn view(&self) -> ActionView {
        match *self {
            Action::CreateDirAll { path } => ActionView::CreateDirAll { path: path@ },
            Action::WriteFile { path, contents } => ActionView::WriteFile {
                path: path@,
                contents: contents@,
            },
            Action::RemoveDirLink { link } => ActionView::RemoveDirLink { link: link@ },
            Action::LinkDir { source, link } => ActionView::LinkDir {
                source: source@,
                link: link@,
            },
            Action::Run { command, verbose } => ActionView::Run { command: command@, verbose },
            Action::AssembleAssets { root_dir, material_fonts, output } => {
                ActionView::AssembleAssets {
                    root_dir: root_dir@,
                    material_fonts: material_fonts@,
                    output: output@,
                }
            },
            Action::BuildClassesDex { r8, deps } => ActionView::BuildClassesDex {
                r8: r8@,
                deps: views(deps@),
            },
            Action::BuildIosMain { target, lib } => ActionView::BuildIosMain {
                target,
                lib: opt_view(lib),
            },
            Action::BuildIosEmptyDylib { target } => ActionView::BuildIosEmptyDylib { target },
        }
    }
}

/// Adds `action` at the end of `plan`.
pub fn push_action(plan: &mut Vec<Action>, action: Action)
    ensures
        views(final(plan)@) == views(old(plan)@).push(action@),
{
    let ghost before = plan@;
    plan.push(action);
    proof {
        assert(views(plan@) =~= views(before).push(action@));
    }
}

} // verus!
