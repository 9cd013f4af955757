//! The operations on packages and on `brew` itself, each as the first step
//! of its exchange.

use crate::command::{
    single_arg, single_new, with_args, with_flags, words, Invocation, InvocationView, Script,
    ScriptView,
};
use crate::error::{BrewError, ErrorView};
use crate::options::{Options, OptionsView};
use crate::package::Package;
use crate::session::{
    info, info_script, probe_then, probe_with, Reply, ReplyKind, ReplyView, Running, RunningView,
    Step, StepView,
};
use crate::text::{contains, covers, flag_if};
use vstd::prelude::*;

verus! {

/// `brew` with `args`, told not to update itself first.
pub open spec fn brew_script(args: Seq<Seq<char>>) -> ScriptView {
    ScriptView::One(InvocationView::quiet(seq!["brew"@] + args))
}

/// The step that runs `brew` with `args` to change the package `name`.
pub open spec fn change_step(args: Seq<Seq<char>>, name: Seq<char>, install: bool) -> StepView {
    StepView::Run(brew_script(args), RunningView::Change { name, install })
}

/// The step that asks `brew` for the description of the package `name`.
pub open spec fn query_step(name: Seq<char>) -> StepView {
    StepView::Run(info_script(name), RunningView::Query { must_be_installed: false })
}

/// The step that asks `brew` for a listing chosen by `arg`.
pub open spec fn list_step(arg: Seq<char>) -> StepView {
    StepView::Run(brew_script(seq!["info"@, "--json=v1"@, arg]), RunningView::List)
}

/// The step that downloads `brew` and unpacks it under `dir`.
pub open spec fn bootstrap_step(dir: Seq<char>) -> StepView {
    StepView::Run(
        ScriptView::AndPipe {
            dir,
            first: seq!["mkdir"@, "homebrew"@],
            second: seq!["curl"@, "-L"@, "https://github.com/Homebrew/brew/tarball/master"@],
            third: seq!["tar"@, "xz"@, "--strip"@, "1"@, "-C"@, "homebrew"@],
        },
        RunningView::Bootstrap,
    )
}

impl Package {
    /// Whether the package is installed with options that leave nothing
    /// to do for a request to install it with `options`.
    pub open spec fn satisfies(self, options: OptionsView) -> bool {
        &&& self.installed@.len() > 0
        &&& !options.force
        &&& covers(self.installed@[0].used_options.deep_view(), options.package_options)
    }

    /// The arguments for `brew` that install the package with `options`:
    /// `reinstall` if it is installed and `install` if not, the flags for
    /// `brew`, the name, and the flags for the package.
    pub open spec fn install_args(self, options: OptionsView) -> Seq<Seq<char>> {
        seq![if self.installed@.len() > 0 { "reinstall"@ } else { "install"@ }]
            + options.brew_flags() + seq![self.name@] + options.package_options
    }

    /// The arguments for `brew` that uninstall the package.
    pub open spec fn uninstall_args(self, force: bool, ignore_dependencies: bool) -> Seq<
        Seq<char>,
    > {
        seq!["uninstall"@, self.name@] + flag_if(force, "--force"@) + flag_if(
            ignore_dependencies,
            "--ignore-dependencies"@,
        )
    }

    /// Asks `brew` for the description of the package `name`.
    pub fn new(name: &str) -> (step: Step)
        ensures
            step@ == query_step(name@),
            step@.leads_to(ReplyKind::Package),
    {
        Step::Run(info(name), Running::Query { must_be_installed: false })
    }

    /// Attempts to install a package, reinstalling a package if it is already installed.
    ///
    /// Where the package is installed with every package flag that `options`
    /// asks for, and `options` does not force the matter, nothing is
    /// installed and the package is only described anew.
    pub fn install(&self, options: &Options) -> (step: Step)
        ensures
            step@ == if self.satisfies(options@) {
                query_step(self.name@)
            } else {
                change_step(self.install_args(options@), self.name@, true)
            },
            step@.leads_to(ReplyKind::Package),
    {
        let subcommand = if self.is_installed() && options.forced() {
            "reinstall"
        } else if self.is_installed() {
            let used = self.install_options().unwrap();
            if contains(used, options.package_options().as_slice()) {
                return Package::new(self.name.as_str());
            } else {
                "reinstall"
            }
        } else {
            "install"
        };
        let command = single_arg(single_new("brew"), subcommand);
        let command = with_flags(command, options.brew_options().as_slice());
        let command = single_arg(command, self.name.as_str());
        let command = with_args(command, options.package_options().as_slice());
        assert(words(command) =~= seq!["brew"@] + self.install_args(options@));
        Step::Run(
            Script::One(Invocation::quiet(command)),
            Running::Change { name: self.name.clone(), install: true },
        )
    }

    /// Uninstalls the package, and describes it anew once that is done.
    pub fn uninstall(&self, force: bool, ignore_dependencies: bool) -> (step: Step)
        ensures
            step@ == change_step(
                self.uninstall_args(force, ignore_dependencies),
                self.name@,
                false,
            ),
            step@.leads_to(ReplyKind::Package),
    {
        let mut command = single_arg(single_new("brew"), "uninstall");
        command = single_arg(command, self.name.as_str());
        if force {
            command = single_arg(command, "--force");
        }
        if ignore_dependencies {
            command = single_arg(command, "--ignore-dependencies");
        }
        assert(words(command) =~= seq!["brew"@] + self.uninstall_args(
            force,
            ignore_dependencies,
        ));
        Step::Run(
            Script::One(Invocation::quiet(command)),
            Running::Change { name: self.name.clone(), install: false },
        )
    }

    /// Runs `brew <subcommand> <name>` on this package.
    fn change(&self, subcommand: &str) -> (step: Step)
        ensures
            step@ == change_step(seq![subcommand@, self.name@], self.name@, false),
    {
        let command = single_arg(single_new("brew"), subcommand);
        let command = single_arg(command, self.name.as_str());
        assert(words(command) =~= seq!["brew"@] + seq![subcommand@, self.name@]);
        Step::Run(
            Script::One(Invocation::quiet(command)),
            Running::Change { name: self.name.clone(), install: false },
        )
    }

    /// Pin formula to prevent automatic updates/upgrades.  A formula that
    /// is pinned already is left as it is, and nothing is run.
    pub fn pin(&self) -> (step: Step)
        ensures
            step@ == if self.pinned {
                StepView::Done(Ok(ReplyView::Unchanged))
            } else {
                change_step(seq!["pin"@, self.name@], self.name@, false)
            },
            self.pinned || step@.leads_to(ReplyKind::Package),
    {
        if !self.pinned {
            self.change("pin")
        } else {
            Step::Done(Ok(Reply::Unchanged))
        }
    }

    /// Unpin formula to allow automatic updates/upgrades.  A formula that
    /// is not pinned is left as it is, and nothing is run.
    pub fn unpin(&self) -> (step: Step)
        ensures
            step@ == if self.pinned {
                change_step(seq!["unpin"@, self.name@], self.name@, false)
            } else {
                StepView::Done(Ok(ReplyView::Unchanged))
            },
            !self.pinned || step@.leads_to(ReplyKind::Package),
    {
        if self.pinned {
            self.change("unpin")
        } else {
            Step::Done(Ok(Reply::Unchanged))
        }
    }

    /// Upgrade formula.  A formula that is not installed cannot be
    /// upgraded, and nothing is run for it.
    pub fn upgrade(&self) -> (step: Step)
        ensures
            step@ == if self.installed@.len() > 0 {
                change_step(seq!["upgrade"@, self.name@], self.name@, false)
            } else {
                StepView::Done(Err(ErrorView::NotInstalled))
            },
            step@.leads_to(ReplyKind::Package),
    {
        if self.is_installed() {
            self.change("upgrade")
        } else {
            Step::Done(Err(BrewError::NotInstalled))
        }
    }
}

/// Update homebrew, synchronizing the homebrew-core and package list.
pub fn update() -> (step: Step)
    ensures
        step@ == StepView::Run(
            ScriptView::One(InvocationView::plain(seq!["brew"@, "update"@])),
            RunningView::Update,
        ),
        step@.leads_to(ReplyKind::Nothing),
{
    let command = single_arg(single_new("brew"), "update");
    assert(words(command) =~= seq!["brew"@, "update"@]);
    Step::Run(Script::One(Invocation::plain(command)), Running::Update)
}

/// Asks for the descriptions of the packages that `arg` selects.
pub fn packages(arg: &str) -> (step: Step)
    ensures
        step@ == list_step(arg@),
        step@.leads_to(ReplyKind::Packages),
{
    let command = single_arg(single_new("brew"), "info");
    let command = single_arg(command, "--json=v1");
    let command = single_arg(command, arg);
    assert(words(command) =~= seq!["brew"@] + seq!["info"@, "--json=v1"@, arg@]);
    Step::Run(Script::One(Invocation::quiet(command)), Running::List)
}

/// Asks for all installed packages; the exchange answers with each of
/// them under its name.
pub fn all_installed() -> (step: Step)
    ensures
        step@ == list_step("--installed"@),
        step@.leads_to(ReplyKind::Packages),
{
    packages("--installed")
}

/// Asks for all packages in the downloaded homebrew repository; the
/// exchange answers with each of them under its name.
pub fn all_packages() -> (step: Step)
    ensures
        step@ == list_step("--all"@),
        step@.leads_to(ReplyKind::Packages),
{
    packages("--all")
}

/// Tests whether homebrew is installed by seeing if `brew --version` returns
/// successfully.
pub fn test_brew_installed() -> (step: Step)
    ensures
        step@ == probe_with(Ok(ReplyView::Nothing)),
        step@.leads_to(ReplyKind::Nothing),
{
    probe_then(Ok(Reply::Nothing))
}

/// Installs the homebrew cli in `/usr/local`, which is its recommended
/// install location.
pub fn install_homebrew() -> (step: Step)
    ensures
        step@ == bootstrap_step("/usr/local"@),
        step@.leads_to(ReplyKind::Nothing),
{
    install_homebrew_at("/usr/local")
}

/// Installs the homebrew cli in `dir`: makes the directory `homebrew`
/// there, downloads the source and unpacks it, and then looks for `brew`.
pub fn install_homebrew_at(dir: &str) -> (step: Step)
    ensures
        step@ == bootstrap_step(dir@),
        step@.leads_to(ReplyKind::Nothing),
{
    let make = single_arg(single_new("mkdir"), "homebrew");
    let fetch = single_arg(single_new("curl"), "-L");
    let fetch = single_arg(fetch, "https://github.com/Homebrew/brew/tarball/master");
    let unpack = single_arg(single_new("tar"), "xz");
    let unpack = single_arg(unpack, "--strip");
    let unpack = single_arg(unpack, "1");
    let unpack = single_arg(unpack, "-C");
    let unpack = single_arg(unpack, "homebrew");
    assert(words(make) =~= seq!["mkdir"@, "homebrew"@]);
    assert(words(fetch) =~= seq![
        "curl"@,
        "-L"@,
        "https://github.com/Homebrew/brew/tarball/master"@,
    ]);
    assert(words(unpack) =~= seq!["tar"@, "xz"@, "--strip"@, "1"@, "-C"@, "homebrew"@]);
    Step::Run(
        Script::AndPipe {
            dir: dir.to_owned(),
            first: make,
            second: fetch,
            third: unpack,
        },
        Running::Bootstrap,
    )
}

} // verus!
