//! An external command, described but not run.

use vstd::prelude::*;

verus! {

/// A program to run with its arguments, and the directory to run it in
/// (`None`: wherever the node itself runs).
#[derive(Debug, PartialEq, Eq)]
pub struct Command {
    pub program: String,
    pub args: Vec<String>,
    pub dir: Option<String>,
}

/// A `Command` as contracts see it.
pub struct CommandView {
    pub program: Seq<char>,
    pub args: Seq<Seq<char>>,
    pub dir: Option<Seq<char>>,
}

impl View for Command {
    type V = CommandView;

    open spec fn view(&self) -> CommandView {
        CommandView {
            program: self.program@,
            args: self.args.deep_view(),
            dir: self.dir.deep_view(),
        }
    }
}

/// The launcher every tool goes through: it finds the tool on the
/// executable search path.
pub open spec fn launcher() -> Seq<char> {
    "/usr/bin/env"@
}

/// The command that runs `tool` with `args` through the launcher.
pub open spec fn launch(tool: Seq<char>, args: Seq<Seq<char>>, dir: Option<Seq<char>>) -> CommandView {
    CommandView { program: launcher(), args: seq![tool] + args, dir }
}

impl Command {
    /// Describes a run of `tool` with `args` in `dir`, through the launcher.
    pub fn through_launcher(tool: &str, args: Vec<String>, dir: Option<String>) -> (command:
        Command)
        ensures
            command@ == launch(tool@, args.deep_view(), dir.deep_view()),
    {
        let mut all: Vec<String> = Vec::new();
        all.push(tool.to_owned());
        let mut rest = args;
        all.append(&mut rest);
        let program = "/usr/bin/env".to_owned();
        proof {
            assert(all.deep_view() =~= seq![tool@] + args.deep_view());
        }
        Command { program, args: all, dir }
    }
}

} // verus!
