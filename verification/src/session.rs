//! An exchange with `brew`, one step at a time.
//!
//! The library never runs a program and never reads JSON itself.  Each
//! operation starts as a [`Step`]: a script to run, a text to parse, or the
//! final answer.  Whoever drives the exchange performs the step and hands the
//! result back, and gets the next step in return.

use crate::command::{
    single_arg, single_new, words, Invocation, InvocationView, Output, OutputView, Script, ScriptView,
};
use crate::error::{BrewError, ErrorView};
use crate::listing::{by_name, last_of_each_name, pairs_view};
use crate::package::Package;
use vstd::prelude::*;

verus! {

/// What an operation answers once it has gone through.
#[derive(Debug)]
pub enum Reply {
    /// The operation has nothing to report beyond its success.
    Nothing,
    /// There was nothing to do: the package is as it was described.
    Unchanged,
    /// The package as `brew` describes it now.
    Package(Package),
    /// The packages that `brew` listed, each under its name.  No name
    /// stands twice: of several packages with one name the last is kept.
    Packages(Vec<(String, Package)>),
}

/// A reply with the names read as sequences of characters.
pub enum ReplyView {
    Nothing,
    Unchanged,
    Package(Package),
    Packages(Seq<(Seq<char>, Package)>),
}

impl View for Reply {
    type V = ReplyView;

    open spec fn view(&self) -> ReplyView {
        match self {
            Reply::Nothing => ReplyView::Nothing,
            Reply::Unchanged => ReplyView::Unchanged,
            Reply::Package(package) => ReplyView::Package(*package),
            Reply::Packages(pairs) => ReplyView::Packages(pairs_view(pairs@)),
        }
    }
}

/// The final answer of an operation, read through the views of its parts.
pub open spec fn verdict_view(verdict: Result<Reply, BrewError>) -> Result<ReplyView, ErrorView> {
    match verdict {
        Ok(reply) => Ok(reply@),
        Err(error) => Err(error@),
    }
}

/// What running a script gave, read through the view of the output.
pub open spec fn ran_view(result: Result<Output, std::io::Error>) -> Result<
    OutputView,
    std::io::Error,
> {
    match result {
        Ok(output) => Ok(output@),
        Err(error) => Err(error),
    }
}

/// What parsing a text gave, read through the views of its parts.
pub open spec fn parsed_view(parsed: Result<Vec<Package>, serde_json::Error>) -> Result<
    Seq<Package>,
    serde_json::Error,
> {
    match parsed {
        Ok(packages) => Ok(packages@),
        Err(error) => Err(error),
    }
}

/// What an operation waits for while a script runs.
#[derive(Debug)]
pub enum Running {
    /// `brew --version`, to tell a missing `brew` from a failure of another
    /// kind; holds the answer to give if `brew` is there.
    Probe(Result<Reply, BrewError>),
    /// `brew info` on one package.
    Query { must_be_installed: bool },
    /// A command that changes the package `name`.
    Change { name: String, install: bool },
    /// `brew update`.
    Update,
    /// `brew info` on many packages.
    List,
    /// The download of `brew` itself.
    Bootstrap,
}

/// The same, with every text read as a sequence of characters.
pub enum RunningView {
    Probe(Result<ReplyView, ErrorView>),
    Query { must_be_installed: bool },
    Change { name: Seq<char>, install: bool },
    Update,
    List,
    Bootstrap,
}

impl View for Running {
    type V = RunningView;

    open spec fn view(&self) -> RunningView {
        match self {
            Running::Probe(verdict) => RunningView::Probe(verdict_view(*verdict)),
            Running::Query { must_be_installed } => RunningView::Query {
                must_be_installed: *must_be_installed,
            },
            Running::Change { name, install } => RunningView::Change {
                name: name@,
                install: *install,
            },
            Running::Update => RunningView::Update,
            Running::List => RunningView::List,
            Running::Bootstrap => RunningView::Bootstrap,
        }
    }
}

/// What an operation waits for while a text is parsed.
#[derive(Clone, Copy, Debug, PartialEq, Eq, Structural)]
pub enum Parsing {
    /// The description of one package.
    One { must_be_installed: bool },
    /// A listing of packages.
    All,
}

/// What is to be done next for an operation.
#[derive(Debug)]
pub enum Step {
    /// Run the script and hand what it gave to [`Running::ran`].
    Run(Script, Running),
    /// Parse the text as a JSON array of packages and hand what that gave
    /// to [`Parsing::parsed`].
    Parse(String, Parsing),
    /// The operation is over, with this answer.
    Done(Result<Reply, BrewError>),
}

/// A step with every text read as a sequence of characters.
pub enum StepView {
    Run(ScriptView, RunningView),
    Parse(Seq<char>, Parsing),
    Done(Result<ReplyView, ErrorView>),
}

impl View for Step {
    type V = StepView;

    open spec fn view(&self) -> StepView {
        match self {
            Step::Run(script, running) => StepView::Run(script@, running@),
            Step::Parse(text, parsing) => StepView::Parse(text@, *parsing),
            Step::Done(verdict) => StepView::Done(verdict_view(*verdict)),
        }
    }
}

/// `brew --version`, which succeeds wherever `brew` is installed.
pub open spec fn probe_script() -> ScriptView {
    ScriptView::One(InvocationView::quiet(seq!["brew"@, "--version"@]))
}

/// `brew info` on the package `name`, as JSON.
pub open spec fn info_script(name: Seq<char>) -> ScriptView {
    ScriptView::One(
        InvocationView::quiet(seq!["/usr/local/bin/brew"@, "info"@, name, "--json=v1"@]),
    )
}

/// The step that finds out whether `brew` is there, and answers `verdict`
/// if it is.
pub open spec fn probe_with(verdict: Result<ReplyView, ErrorView>) -> StepView {
    StepView::Run(probe_script(), RunningView::Probe(verdict))
}

/// What follows a command that changed the package `name` and came to an
/// end: a fresh description of the package if the command succeeded, and
/// otherwise a probe that blames either a missing `brew` or the command.
pub open spec fn after_change(output: OutputView, name: Seq<char>, install: bool) -> StepView {
    if output.success {
        StepView::Run(info_script(name), RunningView::Query { must_be_installed: install })
    } else if install {
        probe_with(Err(ErrorView::InstallFailed(output.stderr)))
    } else {
        probe_with(Err(ErrorView::UnknownError(output.stderr)))
    }
}

impl RunningView {
    /// The step that follows once the script has been run with `result`.
    pub open spec fn ran(self, result: Result<OutputView, std::io::Error>) -> StepView {
        match (self, result) {
            (RunningView::Probe(verdict), Ok(output)) => if output.success {
                StepView::Done(verdict)
            } else {
                StepView::Done(Err(ErrorView::NotInstalled))
            },
            (RunningView::Probe(_), Err(_)) => StepView::Done(Err(ErrorView::NotInstalled)),
            (_, Err(error)) => StepView::Done(Err(ErrorView::IOError(error))),
            (RunningView::Query { must_be_installed }, Ok(output)) => if output.success {
                StepView::Parse(output.stdout, Parsing::One { must_be_installed })
            } else {
                probe_with(Err(ErrorView::PackageNotFound))
            },
            (RunningView::Change { name, install }, Ok(output)) => after_change(
                output,
                name,
                install,
            ),
            (RunningView::Update, Ok(output)) => if output.success {
                StepView::Done(Ok(ReplyView::Nothing))
            } else {
                probe_with(Err(ErrorView::UnknownError(output.stderr)))
            },
            (RunningView::List, Ok(output)) => if output.success {
                StepView::Parse(output.stdout, Parsing::All)
            } else {
                probe_with(Err(ErrorView::UnknownError(output.stderr)))
            },
            (RunningView::Bootstrap, Ok(_)) => probe_with(Ok(ReplyView::Nothing)),
        }
    }
}

impl Parsing {
    /// The answer once the text has been parsed with `parsed`.
    pub open spec fn answer(self, parsed: Result<Seq<Package>, serde_json::Error>) -> Result<
        ReplyView,
        ErrorView,
    > {
        match (self, parsed) {
            (_, Err(error)) => Err(ErrorView::ParseError(error)),
            (Parsing::One { must_be_installed }, Ok(packages)) => if packages.len() == 0 {
                Err(ErrorView::PackageNotFound)
            } else if must_be_installed && packages[0].installed@.len() == 0 {
                Err(ErrorView::InstallFailed("Could not detect new install"@))
            } else {
                Ok(ReplyView::Package(packages[0]))
            },
            (Parsing::All, Ok(packages)) => Ok(ReplyView::Packages(last_of_each_name(packages))),
        }
    }
}

impl StepView {
    /// An upper bound on the number of results that are still to be handed
    /// in before the operation is over.
    pub open spec fn remaining(self) -> nat {
        match self {
            StepView::Done(_) => 0,
            StepView::Parse(_, _) => 1,
            StepView::Run(_, RunningView::Probe(_)) => 1,
            StepView::Run(_, RunningView::Change { .. }) => 3,
            StepView::Run(_, _) => 2,
        }
    }
}

/// The kinds of reply that there are.
pub enum ReplyKind {
    Nothing,
    Unchanged,
    Package,
    Packages,
}

impl ReplyView {
    /// The kind of this reply.
    pub open spec fn kind(self) -> ReplyKind {
        match self {
            ReplyView::Nothing => ReplyKind::Nothing,
            ReplyView::Unchanged => ReplyKind::Unchanged,
            ReplyView::Package(_) => ReplyKind::Package,
            ReplyView::Packages(_) => ReplyKind::Packages,
        }
    }
}

/// Whether an answer is an error or a reply of the kind `kind`.
pub open spec fn fails_or_is(answer: Result<ReplyView, ErrorView>, kind: ReplyKind) -> bool {
    answer matches Ok(reply) ==> reply.kind() == kind
}

impl StepView {
    /// Whether the operation, whatever is handed in from this step on, can
    /// only end with an error or with a reply of the kind `kind`.
    pub open spec fn leads_to(self, kind: ReplyKind) -> bool {
        match self {
            StepView::Done(answer) => fails_or_is(answer, kind),
            StepView::Parse(_, Parsing::One { .. }) => kind == ReplyKind::Package,
            StepView::Parse(_, Parsing::All) => kind == ReplyKind::Packages,
            StepView::Run(_, RunningView::Probe(answer)) => fails_or_is(answer, kind),
            StepView::Run(_, RunningView::Query { .. }) => kind == ReplyKind::Package,
            StepView::Run(_, RunningView::Change { .. }) => kind == ReplyKind::Package,
            StepView::Run(_, RunningView::List) => kind == ReplyKind::Packages,
            StepView::Run(_, RunningView::Update) => kind == ReplyKind::Nothing,
            StepView::Run(_, RunningView::Bootstrap) => kind == ReplyKind::Nothing,
        }
    }
}

/// The kind of reply that an operation leads to does not change when the
/// result of a script is handed in.  So an exchange that waits for a
/// description or for a change of a package ends only with an error or
/// with a package, one that waits for a listing only with an error or with
/// packages, and one that waits for an update or for the download of
/// `brew` only with an error or with nothing to report.
pub proof fn ran_keeps_the_kind(
    script: ScriptView,
    running: RunningView,
    result: Result<OutputView, std::io::Error>,
    kind: ReplyKind,
)
    requires
        StepView::Run(script, running).leads_to(kind),
    ensures
        running.ran(result).leads_to(kind),
{
}

/// The kind of reply that an operation leads to does not change when the
/// result of parsing is handed in: the description of one package ends
/// only with an error or with a package, a listing only with an error or
/// with packages.
pub proof fn parsed_keeps_the_kind(
    text: Seq<char>,
    parsing: Parsing,
    parsed: Result<Seq<Package>, serde_json::Error>,
    kind: ReplyKind,
)
    requires
        StepView::Parse(text, parsing).leads_to(kind),
    ensures
        StepView::Done(parsing.answer(parsed)).leads_to(kind),
{
}

/// Handing in what a script gave brings every operation closer to its end:
/// no operation runs more than three scripts and parses more than one text.
pub proof fn ran_makes_progress(
    script: ScriptView,
    running: RunningView,
    result: Result<OutputView, std::io::Error>,
)
    ensures
        running.ran(result).remaining() < StepView::Run(script, running).remaining(),
{
}

/// Where an installation answers with a package, `brew` reports that
/// package as installed.
pub proof fn installation_is_detected(parsed: Result<Seq<Package>, serde_json::Error>)
    ensures
        (Parsing::One { must_be_installed: true }).answer(parsed) matches Ok(
            ReplyView::Package(package),
        ) ==> package.installed@.len() > 0,
{
}

/// Once a script has run, a missing `brew` is reported only by a probe:
/// either `brew --version` did not succeed, or the probe held that answer.
pub proof fn not_installed_needs_probe(
    running: RunningView,
    result: Result<OutputView, std::io::Error>,
)
    requires
        running.ran(result) == StepView::Done(Err(ErrorView::NotInstalled)),
    ensures
        running is Probe,
        running->Probe_0 == Err::<ReplyView, ErrorView>(ErrorView::NotInstalled) || !(
            result matches Ok(output) && output.success),
{
}

/// The script `brew --version`.
pub fn probe() -> (script: Script)
    ensures
        script@ == probe_script(),
{
    let command = single_arg(single_new("brew"), "--version");
    assert(words(command) =~= seq!["brew"@, "--version"@]);
    Script::One(Invocation::quiet(command))
}

/// The script `brew info <name> --json=v1`.
pub fn info(name: &str) -> (script: Script)
    ensures
        script@ == info_script(name@),
{
    let command = single_new("/usr/local/bin/brew");
    let command = single_arg(command, "info");
    let command = single_arg(command, name);
    let command = single_arg(command, "--json=v1");
    assert(words(command) =~= seq!["/usr/local/bin/brew"@, "info"@, name@, "--json=v1"@]);
    Script::One(Invocation::quiet(command))
}

/// Finds out whether `brew` is there, and answers `verdict` if it is.
pub fn probe_then(verdict: Result<Reply, BrewError>) -> (step: Step)
    ensures
        step@ == probe_with(verdict_view(verdict)),
{
    Step::Run(probe(), Running::Probe(verdict))
}

/// Decides what follows a command on the package `name` that came to an
/// end with `output`, other than an installation.
pub fn brew_return(output: Output, name: &str) -> (step: Step)
    ensures
        step@ == after_change(output@, name@, false),
{
    if output.success {
        Step::Run(info(name), Running::Query { must_be_installed: false })
    } else {
        probe_then(Err(BrewError::UnknownError(output.stderr)))
    }
}

impl Running {
    /// Takes what running the script gave and decides what is next.
    pub fn ran(self, result: Result<Output, std::io::Error>) -> (step: Step)
        ensures
            step@ == self@.ran(ran_view(result)),
    {
        match self {
            Running::Probe(verdict) => match result {
                Ok(output) => if output.success {
                    Step::Done(verdict)
                } else {
                    Step::Done(Err(BrewError::NotInstalled))
                },
                Err(_) => Step::Done(Err(BrewError::NotInstalled)),
            },
            Running::Query { must_be_installed } => match result {
                Ok(output) => if output.success {
                    Step::Parse(output.stdout, Parsing::One { must_be_installed })
                } else {
                    probe_then(Err(BrewError::PackageNotFound))
                },
                Err(error) => Step::Done(Err(BrewError::from(error))),
            },
            Running::Change { name, install } => match result {
                Ok(output) => if install {
                    if output.success {
                        Step::Run(info(name.as_str()), Running::Query { must_be_installed: true })
                    } else {
                        probe_then(Err(BrewError::InstallFailed(output.stderr)))
                    }
                } else {
                    brew_return(output, name.as_str())
                },
                Err(error) => Step::Done(Err(BrewError::from(error))),
            },
            Running::Update => match result {
                Ok(output) => if output.success {
                    Step::Done(Ok(Reply::Nothing))
                } else {
                    probe_then(Err(BrewError::UnknownError(output.stderr)))
                },
                Err(error) => Step::Done(Err(BrewError::from(error))),
            },
            Running::List => match result {
                Ok(output) => if output.success {
                    Step::Parse(output.stdout, Parsing::All)
                } else {
                    probe_then(Err(BrewError::UnknownError(output.stderr)))
                },
                Err(error) => Step::Done(Err(BrewError::from(error))),
            },
            Running::Bootstrap => match result {
                Ok(_) => probe_then(Ok(Reply::Nothing)),
                Err(error) => Step::Done(Err(BrewError::from(error))),
            },
        }
    }
}

impl Parsing {
    /// Takes what parsing the text gave and gives the final answer.
    pub fn parsed(self, parsed: Result<Vec<Package>, serde_json::Error>) -> (step: Step)
        ensures
            step@ == StepView::Done(self.answer(parsed_view(parsed))),
    {
        match parsed {
            Err(error) => Step::Done(Err(BrewError::from(error))),
            Ok(packages) => match self {
                Parsing::One { must_be_installed } => {
                    let mut packages = packages;
                    if packages.len() == 0 {
                        Step::Done(Err(BrewError::PackageNotFound))
                    } else {
                        let package = packages.remove(0);
                        if must_be_installed && !package.is_installed() {
                            Step::Done(
                                Err(BrewError::InstallFailed("Could not detect new install".to_owned())),
                            )
                        } else {
                            Step::Done(Ok(Reply::Package(package)))
                        }
                    }
                },
                Parsing::All => Step::Done(Ok(Reply::Packages(by_name(packages)))),
            },
        }
    }
}

} // verus!
