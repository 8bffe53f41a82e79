//! The repository bootstrapper: it makes sure that a checkout of the
//! requested revision exists and is configured for building, one step at
//! a time, and says with a code how far it came.

use vstd::prelude::*;
use crate::command::{launch, Command, CommandView};
use crate::effect::{Action, ActionView};
use crate::messages::{BootstrapRequest, BootstrapRequestView, Code};
use crate::naming::{build_dir, build_dir_of, checkout_of, repo_name, repo_outdir};

verus! {

/// The clone of `url` into `outdir`.
pub open spec fn clone_command(url: Seq<char>, outdir: Seq<char>) -> CommandView {
    launch("git"@, seq!["clone"@, url, outdir], None)
}

/// The checkout of `rev`, run inside `outdir`.
pub open spec fn checkout_command(outdir: Seq<char>, rev: Seq<char>) -> CommandView {
    launch("git"@, seq!["checkout"@, rev], Some(outdir))
}

/// The configuration of the sources one level up, for a release build,
/// run inside the build directory.
pub open spec fn configure_command(build_dir: Seq<char>) -> CommandView {
    launch("cmake"@, seq![".."@, "-DCMAKE_BUILD_TYPE=RELEASE"@], Some(build_dir))
}

/// The step a bootstrap is waiting on.
#[derive(Clone, Copy, Debug, PartialEq, Eq, Structural)]
pub enum Stage {
    /// Is the checkout directory there already?
    Probing,
    /// The clone is running.
    Cloning,
    /// The checkout of the revision is running.
    CheckingOut,
    /// The build directory is being created.
    CreatingBuildDir,
    /// The build system's configuration is running.
    Configuring,
}

/// Where a stage leads.
pub enum Progress {
    Next(Stage),
    Finished(Code),
}

impl Stage {
    /// The stage that follows this one when its step succeeded (`ok`) or
    /// failed, or the code the bootstrap ends with. An existing checkout
    /// is taken as it is: the probe that finds one leads straight to the
    /// configuration.
    pub open spec fn leads_to(self, ok: bool) -> Progress {
        match self {
            Stage::Probing => if ok {
                Progress::Next(Stage::CreatingBuildDir)
            } else {
                Progress::Next(Stage::Cloning)
            },
            Stage::Cloning => if ok {
                Progress::Next(Stage::CheckingOut)
            } else {
                Progress::Finished(Code::EURL)
            },
            Stage::CheckingOut => if ok {
                Progress::Next(Stage::CreatingBuildDir)
            } else {
                Progress::Finished(Code::EREV)
            },
            Stage::CreatingBuildDir => if ok {
                Progress::Next(Stage::Configuring)
            } else {
                Progress::Finished(Code::ECFG)
            },
            Stage::Configuring => if ok {
                Progress::Finished(Code::OK)
            } else {
                Progress::Finished(Code::ECFG)
            },
        }
    }

    /// How many steps can still follow this one, at most.
    pub open spec fn steps_left(self) -> nat {
        match self {
            Stage::Probing => 4,
            Stage::Cloning => 3,
            Stage::CheckingOut => 2,
            Stage::CreatingBuildDir => 1,
            Stage::Configuring => 0,
        }
    }
}

/// A bootstrap under way: the request it serves and the step it waits on.
#[derive(Debug)]
pub struct Bootstrap {
    url: String,
    rev: String,
    outdir: String,
    stage: Stage,
}

/// A `Bootstrap` as contracts see it.
pub struct BootstrapView {
    pub url: Seq<char>,
    pub rev: Seq<char>,
    pub stage: Stage,
}

/// What a bootstrap does next: one more action, or it is over.
#[derive(Debug)]
pub enum Step {
    Pending(Bootstrap, Action),
    Done(Code),
}

/// A `Step` as contracts see it.
pub enum StepView {
    Pending(BootstrapView, ActionView),
    Done(Code),
}

impl BootstrapView {
    /// The checkout directory of the request.
    pub open spec fn outdir(self) -> Seq<char> {
        checkout_of(self.url, self.rev)->0
    }

    /// The action that carries out the stage.
    pub open spec fn action(self) -> ActionView {
        match self.stage {
            Stage::Probing => ActionView::ProbeDir(self.outdir()),
            Stage::Cloning => ActionView::Run(clone_command(self.url, self.outdir())),
            Stage::CheckingOut => ActionView::Run(checkout_command(self.outdir(), self.rev)),
            Stage::CreatingBuildDir => ActionView::CreateDir(build_dir_of(self.outdir())),
            Stage::Configuring => ActionView::Run(configure_command(build_dir_of(self.outdir()))),
        }
    }

    /// The bootstrap at another stage, with the action that stage asks
    /// for.
    pub open spec fn at(self, stage: Stage) -> StepView {
        let next = BootstrapView { stage, ..self };
        StepView::Pending(next, next.action())
    }

    /// The step after the outstanding action succeeded (`ok`) or failed.
    pub open spec fn advance(self, ok: bool) -> StepView {
        match self.stage.leads_to(ok) {
            Progress::Next(stage) => self.at(stage),
            Progress::Finished(code) => StepView::Done(code),
        }
    }
}

/// The first step for a request: a URL that names no repository ends the
/// bootstrap at once with `EURL`; any other is probed for an existing
/// checkout.
pub open spec fn begin(request: BootstrapRequestView) -> StepView {
    if request.url.contains('/') {
        BootstrapView { url: request.url, rev: request.rev, stage: Stage::Probing }.at(
            Stage::Probing,
        )
    } else {
        StepView::Done(Code::EURL)
    }
}

impl View for Bootstrap {
    type V = BootstrapView;

    closed spec fn view(&self) -> BootstrapView {
        BootstrapView { url: self.url@, rev: self.rev@, stage: self.stage }
    }
}

impl View for Step {
    type V = StepView;

    open spec fn view(&self) -> StepView {
        match self {
            Step::Pending(bootstrap, action) => StepView::Pending(bootstrap@, action@),
            Step::Done(code) => StepView::Done(*code),
        }
    }
}

fn git_clone(url: &str, outdir: &str) -> (command: Command)
    ensures
        command@ == clone_command(url@, outdir@),
{
    let mut args: Vec<String> = Vec::new();
    args.push("clone".to_owned());
    args.push(url.to_owned());
    args.push(outdir.to_owned());
    proof {
        assert(args.deep_view() =~= seq!["clone"@, url@, outdir@]);
    }
    Command::through_launcher("git", args, None)
}

fn git_checkout(outdir: &str, rev: &str) -> (command: Command)
    ensures
        command@ == checkout_command(outdir@, rev@),
{
    let mut args: Vec<String> = Vec::new();
    args.push("checkout".to_owned());
    args.push(rev.to_owned());
    proof {
        assert(args.deep_view() =~= seq!["checkout"@, rev@]);
    }
    Command::through_launcher("git", args, Some(outdir.to_owned()))
}

fn cmake_configure(build_dir: String) -> (command: Command)
    ensures
        command@ == configure_command(build_dir@),
{
    let mut args: Vec<String> = Vec::new();
    args.push("..".to_owned());
    args.push("-DCMAKE_BUILD_TYPE=RELEASE".to_owned());
    proof {
        assert(args.deep_view() =~= seq![".."@, "-DCMAKE_BUILD_TYPE=RELEASE"@]);
    }
    Command::through_launcher("cmake", args, Some(build_dir))
}

impl Bootstrap {
    #[verifier::type_invariant]
    spec fn names_checkout(self) -> bool {
        checkout_of(self.url@, self.rev@) == Some(self.outdir@)
    }

    /// Takes the report on the outstanding action: `ok` says that the
    /// directory was found or made, or that the command exited with
    /// status zero.
    pub fn advance(self, ok: bool) -> (step: Step)
        ensures
            step@ == self@.advance(ok),
    {
        match self.stage {
            Stage::Probing => if ok {
                self.enter(Stage::CreatingBuildDir)
            } else {
                self.enter(Stage::Cloning)
            },
            Stage::Cloning => if ok {
                self.enter(Stage::CheckingOut)
            } else {
                Step::Done(Code::EURL)
            },
            Stage::CheckingOut => if ok {
                self.enter(Stage::CreatingBuildDir)
            } else {
                Step::Done(Code::EREV)
            },
            Stage::CreatingBuildDir => if ok {
                self.enter(Stage::Configuring)
            } else {
                Step::Done(Code::ECFG)
            },
            Stage::Configuring => if ok {
                Step::Done(Code::OK)
            } else {
                Step::Done(Code::ECFG)
            },
        }
    }

    fn enter(self, stage: Stage) -> (step: Step)
        ensures
            step@ == self@.at(stage),
    {
        proof {
            use_type_invariant(&self);
        }
        let action = match stage {
            Stage::Probing => Action::ProbeDir(self.outdir.clone()),
            Stage::Cloning => Action::Run(git_clone(self.url.as_str(), self.outdir.as_str())),
            Stage::CheckingOut => Action::Run(
                git_checkout(self.outdir.as_str(), self.rev.as_str()),
            ),
            Stage::CreatingBuildDir => Action::CreateDir(build_dir(self.outdir.as_str())),
            Stage::Configuring => Action::Run(cmake_configure(build_dir(self.outdir.as_str()))),
        };
        Step::Pending(
            Bootstrap { url: self.url, rev: self.rev, outdir: self.outdir, stage },
            action,
        )
    }
}

/// Takes up a bootstrap request: names the checkout directory and asks
/// whether it exists, or refuses a URL that names no repository.
pub fn handle_project_init(request: &BootstrapRequest) -> (step: Step)
    ensures
        step@ == begin(request@),
{
    proof {
        crate::naming::law_name_needs_slash(request.url@);
    }
    match repo_name(request.url.as_str()) {
        None => Step::Done(Code::EURL),
        Some(name) => {
            let outdir = repo_outdir(name.as_str(), request.rev.as_str());
            let bootstrap = Bootstrap {
                url: request.url.clone(),
                rev: request.rev.clone(),
                outdir,
                stage: Stage::Probing,
            };
            bootstrap.enter(Stage::Probing)
        },
    }
}

/// What the world answers to each step of one bootstrap.
pub struct World {
    /// The checkout directory is there before the bootstrap starts.
    pub checkout_exists: bool,
    /// The clone starts and exits with status zero.
    pub clone_succeeds: bool,
    /// The checkout of the revision starts and exits with status zero.
    pub checkout_succeeds: bool,
    /// The build directory can be created.
    pub build_dir_made: bool,
    /// The configuration starts and exits with status zero.
    pub configure_succeeds: bool,
}

impl World {
    /// The report on the action of `stage`.
    pub open spec fn answer(self, stage: Stage) -> bool {
        match stage {
            Stage::Probing => self.checkout_exists,
            Stage::Cloning => self.clone_succeeds,
            Stage::CheckingOut => self.checkout_succeeds,
            Stage::CreatingBuildDir => self.build_dir_made,
            Stage::Configuring => self.configure_succeeds,
        }
    }
}

impl StepView {
    /// The steps that can still follow, at most.
    pub open spec fn steps_left(self) -> nat {
        match self {
            StepView::Pending(bootstrap, _) => bootstrap.stage.steps_left() + 1,
            StepView::Done(_) => 0,
        }
    }

    /// The code that the bootstrap ends with when it goes on from this
    /// step in `world`.
    pub open spec fn outcome(self, world: World) -> Code
        decreases self.steps_left(),
    {
        match self {
            StepView::Pending(bootstrap, _) => bootstrap.advance(
                world.answer(bootstrap.stage),
            ).outcome(world),
            StepView::Done(code) => code,
        }
    }

    /// The stages that the bootstrap goes through from this step on in
    /// `world`, in order.
    pub open spec fn stages(self, world: World) -> Seq<Stage>
        decreases self.steps_left(),
    {
        match self {
            StepView::Pending(bootstrap, _) => seq![bootstrap.stage] + bootstrap.advance(
                world.answer(bootstrap.stage),
            ).stages(world),
            StepView::Done(_) => seq![],
        }
    }

    /// The actions that the bootstrap asks for from this step on in
    /// `world`, in order.
    pub open spec fn actions(self, world: World) -> Seq<ActionView>
        decreases self.steps_left(),
    {
        match self {
            StepView::Pending(bootstrap, action) => seq![action] + bootstrap.advance(
                world.answer(bootstrap.stage),
            ).actions(world),
            StepView::Done(_) => seq![],
        }
    }
}

/// A URL without a slash is refused with `EURL` before anything is asked
/// of the file system or of a process: the bootstrap is over at its first
/// step, with no action.
pub proof fn law_url_without_slash(request: BootstrapRequestView, world: World)
    requires
        !request.url.contains('/'),
    ensures
        begin(request) == StepView::Done(Code::EURL),
        begin(request).outcome(world) == Code::EURL,
        begin(request).actions(world) == Seq::<ActionView>::empty(),
{
}

/// The code tells the first step that failed, in the order of the steps:
/// `EURL` for the URL or the clone, `EREV` for the checkout, `ECFG` for
/// the build directory or the configuration, and `OK` only when nothing
/// failed. An existing checkout stands for a clone and a checkout that
/// succeeded.
pub proof fn law_outcome(request: BootstrapRequestView, world: World)
    ensures
        begin(request).outcome(world) == if !request.url.contains('/') {
            Code::EURL
        } else if !world.checkout_exists && !world.clone_succeeds {
            Code::EURL
        } else if !world.checkout_exists && !world.checkout_succeeds {
            Code::EREV
        } else if !world.build_dir_made || !world.configure_succeeds {
            Code::ECFG
        } else {
            Code::OK
        },
{
    reveal_with_fuel(StepView::outcome, 6);
}

/// In a fresh directory a bootstrap clones, checks out, creates the build
/// directory and configures, in this order, as far as each step succeeds.
pub proof fn law_fresh_checkout(request: BootstrapRequestView, world: World)
    requires
        request.url.contains('/'),
        !world.checkout_exists,
    ensures
        begin(request).stages(world) == if !world.clone_succeeds {
            seq![Stage::Probing, Stage::Cloning]
        } else if !world.checkout_succeeds {
            seq![Stage::Probing, Stage::Cloning, Stage::CheckingOut]
        } else if !world.build_dir_made {
            seq![Stage::Probing, Stage::Cloning, Stage::CheckingOut, Stage::CreatingBuildDir]
        } else {
            seq![
                Stage::Probing,
                Stage::Cloning,
                Stage::CheckingOut,
                Stage::CreatingBuildDir,
                Stage::Configuring,
            ]
        },
{
    reveal_with_fuel(StepView::stages, 6);
    assert(begin(request).stages(world) =~= if !world.clone_succeeds {
        seq![Stage::Probing, Stage::Cloning]
    } else if !world.checkout_succeeds {
        seq![Stage::Probing, Stage::Cloning, Stage::CheckingOut]
    } else if !world.build_dir_made {
        seq![Stage::Probing, Stage::Cloning, Stage::CheckingOut, Stage::CreatingBuildDir]
    } else {
        seq![
            Stage::Probing,
            Stage::Cloning,
            Stage::CheckingOut,
            Stage::CreatingBuildDir,
            Stage::Configuring,
        ]
    });
}

/// A checkout that exists is used as it is: the bootstrap neither clones
/// nor checks out again, it only configures, and it ends with `OK`
/// whenever the configuration succeeds. So a bootstrap that follows a
/// successful one for the same URL and revision, and so finds its
/// checkout, repeats none of its network work.
pub proof fn law_existing_checkout(request: BootstrapRequestView, world: World)
    requires
        request.url.contains('/'),
        world.checkout_exists,
    ensures
        begin(request).stages(world) == if world.build_dir_made {
            seq![Stage::Probing, Stage::CreatingBuildDir, Stage::Configuring]
        } else {
            seq![Stage::Probing, Stage::CreatingBuildDir]
        },
        !begin(request).stages(world).contains(Stage::Cloning),
        !begin(request).stages(world).contains(Stage::CheckingOut),
        world.build_dir_made && world.configure_succeeds ==> begin(request).outcome(world)
            == Code::OK,
{
    reveal_with_fuel(StepView::stages, 6);
    reveal_with_fuel(StepView::outcome, 6);
    assert(begin(request).stages(world) =~= if world.build_dir_made {
        seq![Stage::Probing, Stage::CreatingBuildDir, Stage::Configuring]
    } else {
        seq![Stage::Probing, Stage::CreatingBuildDir]
    });
}

/// Bootstrapping is idempotent. When a bootstrap has ended with `OK`, it
/// has left its checkout behind; a second bootstrap of the same URL and
/// revision that finds it, and whose configuration goes as it went before,
/// neither clones nor checks out, and ends with `OK` too.
pub proof fn law_bootstrap_repeated(request: BootstrapRequestView, first: World, second: World)
    requires
        begin(request).outcome(first) == Code::OK,
        second.checkout_exists,
        second.build_dir_made == first.build_dir_made,
        second.configure_succeeds == first.configure_succeeds,
    ensures
        begin(request).outcome(second) == Code::OK,
        begin(request).stages(second) == seq![
            Stage::Probing,
            Stage::CreatingBuildDir,
            Stage::Configuring,
        ],
        !begin(request).stages(second).contains(Stage::Cloning),
        !begin(request).stages(second).contains(Stage::CheckingOut),
{
    law_outcome(request, first);
    law_outcome(request, second);
    law_existing_checkout(request, second);
}

/// Each action of a bootstrap is the one that its stage stands for, for
/// the checkout directory of the request.
pub proof fn law_actions_follow_stages(request: BootstrapRequestView, world: World)
    ensures
        begin(request).actions(world).len() == begin(request).stages(world).len(),
        forall|i: int|
            0 <= i < begin(request).stages(world).len() ==> #[trigger] begin(request).actions(
                world,
            )[i] == (BootstrapView {
                url: request.url,
                rev: request.rev,
                stage: begin(request).stages(world)[i],
            }).action(),
{
    reveal_with_fuel(StepView::stages, 6);
    reveal_with_fuel(StepView::actions, 6);
}

} // verus!
