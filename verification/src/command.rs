//! External programs as values: what to run, with which arguments, where.
//! Nothing here starts a process; a caller runs the command and reports how
//! it ended.

use crate::error::{BuildError, BuildErrorView};
use crate::text::views;
use vstd::prelude::*;
use vstd::string::StringExecFns;

verus! {

/// One invocation of an external program.
#[derive(Clone, Debug, PartialEq, Eq)]
pub struct Command {
    program: String,
    args: Vec<String>,
    envs: Vec<(String, String)>,
    dir: Option<String>,
}

/// How a program ended and what it printed, as its caller reports it.
#[derive(Clone, Debug, PartialEq, Eq)]
pub struct Output {
    /// The exit status, or `None` where the program could not be started or
    /// was terminated.
    pub code: Option<i32>,
    /// What the program wrote to its standard output.
    pub stdout: String,
}

/// The mathematical value of a [`Command`].
#[verifier::ext_equal]
pub struct CommandView {
    /// The program, by name or by path.
    pub program: Seq<char>,
    /// The arguments, in order.
    pub args: Seq<Seq<char>>,
    /// The environment variables set for the program, in order.
    pub envs: Seq<(Seq<char>, Seq<char>)>,
    /// The directory that the program starts in, if one is set.
    pub dir: Option<Seq<char>>,
}

/// The views of name and value of each pair, in order.
pub open spec fn pair_views(s: Seq<(String, String)>) -> Seq<(Seq<char>, Seq<char>)> {
    Seq::new(s.len(), |i: int| (s[i].0@, s[i].1@))
}

/// The view of an optional text.
pub open spec fn opt_view(s: Option<String>) -> Option<Seq<char>> {
    match s {
        Some(t) => Some(t@),
        None => None,
    }
}

impl CommandView {
    /// The invocation of `program` with nothing added.
    pub open spec fn bare(program: Seq<char>) -> CommandView {
        CommandView { program, args: Seq::empty(), envs: Seq::empty(), dir: None }
    }

    /// This invocation with one more argument.
    pub open spec fn arg(self, a: Seq<char>) -> CommandView {
        CommandView { args: self.args.push(a), ..self }
    }

    /// This invocation with more arguments.
    pub open spec fn args(self, more: Seq<Seq<char>>) -> CommandView {
        CommandView { args: self.args + more, ..self }
    }

    /// This invocation with one more environment variable.
    pub open spec fn env(self, name: Seq<char>, value: Seq<char>) -> CommandView {
        CommandView { envs: self.envs.push((name, value)), ..self }
    }

    /// This invocation, started in `dir`.
    pub open spec fn current_dir(self, dir: Seq<char>) -> CommandView {
        CommandView { dir: Some(dir), ..self }
    }

    /// What the end of the program means: only status zero is success.
    pub open spec fn check(self, code: Option<i32>) -> Result<(), BuildErrorView> {
        if code == Some(0i32) {
            Ok(())
        } else {
            Err(BuildErrorView::ToolInvocation { program: self.program, code })
        }
    }
}

impl View for Command {
    type V = CommandView;

    closed spec fn view(&self) -> CommandView {
        CommandView {
            program: self.program@,
            args: views(self.args@),
            envs: pair_views(self.envs@),
            dir: opt_view(self.dir),
        }
    }
}

impl Command {
    /// The invocation of `program` without arguments.
    pub fn new(program: &str) -> (out: Command)
        ensures
            out@ == CommandView::bare(program@),
    {
        let out = Command {
            program: String::from_str(program),
            args: Vec::new(),
            envs: Vec::new(),
            dir: None,
        };
        proof {
            assert(views(out.args@) =~= Seq::<Seq<char>>::empty());
            assert(pair_views(out.envs@) =~= Seq::<(Seq<char>, Seq<char>)>::empty());
        }
        out
    }

    /// Adds one argument after those already there.
    pub fn arg(&mut self, a: &str)
        ensures
            final(self)@ == old(self)@.arg(a@),
    {
        let ghost before = self.args@;
        self.args.push(String::from_str(a));
        proof {
            assert(views(self.args@) =~= views(before).push(a@));
        }
    }

    /// Sets one more environment variable for the program.
    pub fn env(&mut self, name: &str, value: &str)
        ensures
            final(self)@ == old(self)@.env(name@, value@),
    {
        let ghost before = self.envs@;
        self.envs.push((String::from_str(name), String::from_str(value)));
        proof {
            assert(pair_views(self.envs@) =~= pair_views(before).push((name@, value@)));
        }
    }

    /// Sets the directory that the program starts in.
    pub fn current_dir(&mut self, dir: &str)
        ensures
            final(self)@ == old(self)@.current_dir(dir@),
    {
        self.dir = Some(String::from_str(dir));
    }

    /// The program, by name or by path.
    pub fn program(&self) -> (out: &str)
        ensures
            out@ == self@.program,
    {
        self.program.as_str()
    }

    /// The arguments, in order.
    pub fn args(&self) -> (out: &Vec<String>)
        ensures
            views(out@) == self@.args,
    {
        &self.args
    }

    /// The environment variables set for the program, in order.
    pub fn envs(&self) -> (out: &Vec<(String, String)>)
        ensures
            pair_views(out@) == self@.envs,
    {
        &self.envs
    }

    /// The directory that the program starts in, if one is set.
    pub fn dir(&self) -> (out: Option<&str>)
        ensures
            match out {
                Some(d) => self@.dir == Some(d@),
                None => self@.dir is None,
            },
    {
        match &self.dir {
            Some(d) => Some(d.as_str()),
            None => None,
        }
    }

    /// Judges how the program ended: `code` is its exit status, or `None`
    /// where it could not be started or was terminated. Only status zero is a
    /// success; there is no retry.
    pub fn check(&self, code: Option<i32>) -> (out: Result<(), BuildError>)
        ensures
            match out {
                Ok(_) => self@.check(code) is Ok,
                Err(e) => self@.check(code) == Err::<(), BuildErrorView>(e@),
            },
    {
        match code {
            Some(c) => {
                if c == 0 {
                    return Ok(());
                }
            },
            None => {},
        }
        Err(BuildError::ToolInvocation { program: self.program.clone(), code })
    }
}

} // verus!
