//! What is handed to the operating system to run, and what comes back.

use command_builder::Single;
use vstd::prelude::*;

verus! {

/// A program and its arguments, as `command_builder` holds them.
#[verifier::external_type_specification]
#[verifier::external_body]
pub struct ExSingle(Single);

/// The words of a command: the program first, then its arguments in order.
pub uninterp spec fn words(command: Single) -> Seq<Seq<char>>;

/// Calls `command_builder::Single::new`, which starts a command that holds
/// the program's name and nothing else.
#[verifier::external_body]
pub(crate) fn single_new(program: &str) -> (command: Single)
    ensures
        words(command) == seq![program@],
{
    Single::new(program)
}

/// Calls `command_builder::Single::arg`, which appends one argument to the
/// words that the command holds already.
#[verifier::external_body]
pub(crate) fn single_arg(command: Single, argument: &str) -> (longer: Single)
    ensures
        words(longer) == words(command).push(argument@),
{
    command.arg(argument)
}

/// Appends each text of `more` to the command as an argument, in order.
pub fn with_args(command: Single, more: &[String]) -> (longer: Single)
    ensures
        words(longer) == words(command) + more.deep_view(),
{
    let mut longer = command;
    let mut i: usize = 0;
    while i < more.len()
        invariant
            i <= more.len(),
            words(longer) == words(command) + more.deep_view().take(i as int),
        decreases more.len() - i,
    {
        longer = single_arg(longer, more[i].as_str());
        assert(more.deep_view().take(i + 1) =~= more.deep_view().take(i as int).push(
            more[i as int]@,
        ));
        assert(words(longer) =~= words(command) + more.deep_view().take(i + 1));
        i += 1;
    }
    assert(more.deep_view().take(more.len() as int) =~= more.deep_view());
    longer
}

/// Appends each text of `more` to the command as an argument, in order.
pub fn with_flags(command: Single, more: &[&str]) -> (longer: Single)
    ensures
        words(longer) == words(command) + more.deep_view(),
{
    let mut longer = command;
    let mut i: usize = 0;
    while i < more.len()
        invariant
            i <= more.len(),
            words(longer) == words(command) + more.deep_view().take(i as int),
        decreases more.len() - i,
    {
        longer = single_arg(longer, more[i]);
        assert(more.deep_view().take(i + 1) =~= more.deep_view().take(i as int).push(
            more[i as int]@,
        ));
        assert(words(longer) =~= words(command) + more.deep_view().take(i + 1));
        i += 1;
    }
    assert(more.deep_view().take(more.len() as int) =~= more.deep_view());
    longer
}

/// One program to run: the command itself, and the environment variables
/// that are set for it on top of the inherited ones.
#[derive(Debug)]
pub struct Invocation {
    pub command: Single,
    pub env: Vec<(String, String)>,
}

/// An invocation with every text read as a sequence of characters.
pub struct InvocationView {
    pub words: Seq<Seq<char>>,
    pub env: Seq<(Seq<char>, Seq<char>)>,
}

impl View for Invocation {
    type V = InvocationView;

    open spec fn view(&self) -> InvocationView {
        InvocationView { words: words(self.command), env: self.env.deep_view() }
    }
}

impl InvocationView {
    /// The command `words` with nothing added to the environment.
    pub open spec fn plain(words: Seq<Seq<char>>) -> InvocationView {
        InvocationView { words, env: Seq::empty() }
    }

    /// The command `words`, told not to update `brew` first.
    pub open spec fn quiet(words: Seq<Seq<char>>) -> InvocationView {
        InvocationView { words, env: seq![("HOMEBREW_NO_AUTO_UPDATE"@, "1"@)] }
    }
}

impl Invocation {
    /// Runs `command` with nothing added to the environment.
    pub fn plain(command: Single) -> (invocation: Self)
        ensures
            invocation@ == InvocationView::plain(words(command)),
    {
        let invocation = Invocation { command, env: Vec::new() };
        assert(invocation.env.deep_view() =~= Seq::empty());
        invocation
    }

    /// Runs `command` with `HOMEBREW_NO_AUTO_UPDATE=1`, so that `brew` does
    /// not update itself first.
    pub fn quiet(command: Single) -> (invocation: Self)
        ensures
            invocation@ == InvocationView::quiet(words(command)),
    {
        let mut env: Vec<(String, String)> = Vec::new();
        env.push(("HOMEBREW_NO_AUTO_UPDATE".to_owned(), "1".to_owned()));
        let invocation = Invocation { command, env };
        assert(invocation.env.deep_view() =~= seq![("HOMEBREW_NO_AUTO_UPDATE"@, "1"@)]);
        invocation
    }
}

/// What there is to run at one step.
#[derive(Debug)]
pub enum Script {
    /// A single program.
    One(Invocation),
    /// Inside the directory `dir`: `first`, then `second` if `first`
    /// succeeded, and what that printed piped into `third`.
    AndPipe { dir: String, first: Single, second: Single, third: Single },
}

/// A script with every text read as a sequence of characters.
pub enum ScriptView {
    One(InvocationView),
    AndPipe { dir: Seq<char>, first: Seq<Seq<char>>, second: Seq<Seq<char>>, third: Seq<Seq<char>> },
}

impl View for Script {
    type V = ScriptView;

    open spec fn view(&self) -> ScriptView {
        match self {
            Script::One(invocation) => ScriptView::One(invocation@),
            Script::AndPipe { dir, first, second, third } => ScriptView::AndPipe {
                dir: dir@,
                first: words(*first),
                second: words(*second),
                third: words(*third),
            },
        }
    }
}

/// What a script left behind once it had run to its end.
#[derive(Clone, Debug)]
pub struct Output {
    /// Whether the exit code was zero.
    pub success: bool,
    pub stdout: String,
    pub stderr: String,
}

/// An output with its texts read as sequences of characters.
pub struct OutputView {
    pub success: bool,
    pub stdout: Seq<char>,
    pub stderr: Seq<char>,
}

impl View for Output {
    type V = OutputView;

    open spec fn view(&self) -> OutputView {
        OutputView { success: self.success, stdout: self.stdout@, stderr: self.stderr@ }
    }
}

} // verus!
