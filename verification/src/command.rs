//! The external commands of a release, and how each is invoked.

use vstd::prelude::*;
use vstd::string::*;
use crate::text::{pairs, push_word, texts, join};

verus! {

/// A program to run: its name, its arguments in order, overrides of the
/// environment in the order in which they are applied, and what becomes of its
/// output streams.
#[derive(Clone, Debug, PartialEq, Eq)]
pub struct Invocation {
    pub program: String,
    pub args: Vec<String>,
    pub env: Vec<(String, String)>,
    pub stderr_to_stdout: bool,
    pub stdout_capture: bool,
}

pub struct InvocationView {
    pub program: Seq<char>,
    pub args: Seq<Seq<char>>,
    pub env: Seq<(Seq<char>, Seq<char>)>,
    pub stderr_to_stdout: bool,
    pub stdout_capture: bool,
}

impl View for Invocation {
    type V = InvocationView;

    open spec fn view(&self) -> InvocationView {
        InvocationView {
            program: self.program@,
            args: texts(self.args@),
            env: pairs(self.env@),
            stderr_to_stdout: self.stderr_to_stdout,
            stdout_capture: self.stdout_capture,
        }
    }
}

/// An invocation that leaves the environment and the output streams alone.
pub open spec fn plain(program: Seq<char>, args: Seq<Seq<char>>) -> InvocationView {
    InvocationView { program, args, env: seq![], stderr_to_stdout: false, stdout_capture: false }
}

/// The words of a list, each with a space before it.
pub open spec fn spaced(words: Seq<Seq<char>>) -> Seq<char>
    decreases words.len(),
{
    if words.len() == 0 {
        seq![]
    } else {
        spaced(words.drop_last()) + " "@ + words.last()
    }
}

/// An invocation on one line: the program, then the arguments, with spaces between.
pub open spec fn line_of(invocation: InvocationView) -> Seq<char> {
    invocation.program + spaced(invocation.args)
}

impl Invocation {
    /// The invocation on one line: the program, then the arguments, with spaces between.
    pub fn line(&self) -> (r: String)
        ensures
            r@ == line_of(self@),
    {
        let mut out = self.program.clone();
        let mut i: usize = 0;
        assert(texts(self.args@).subrange(0, 0) =~= Seq::<Seq<char>>::empty());
        while i < self.args.len()
            invariant
                i <= self.args.len(),
                out@ == self.program@ + spaced(texts(self.args@).subrange(0, i as int)),
            decreases self.args.len() - i,
        {
            let ghost before = texts(self.args@).subrange(0, i as int);
            let ghost after = texts(self.args@).subrange(0, i + 1);
            assert(after.drop_last() =~= before);
            assert(after.last() == self.args[i as int]@);
            out.append(" ");
            out.append(self.args[i].as_str());
            assert(out@ =~= self.program@ + spaced(after));
            i = i + 1;
        }
        assert(texts(self.args@).subrange(0, i as int) =~= texts(self.args@));
        out
    }
}

/// The commands that a release issues, by what they are for.
#[derive(Clone, Debug, PartialEq, Eq)]
pub enum Command {
    /// Asks version control for the state of the working tree.
    Status,
    /// Asks version control for the name of the current branch.
    Branch,
    /// Pushes to the remote.
    Push,
    /// Fetches the tags of the remote.
    FetchTags,
    /// Advances the version of every package but the tool's own.
    SetVersion { bump: String },
    /// Asks whether auxiliary packaging metadata can be evaluated here.
    Probe,
    /// Brings the auxiliary packaging metadata to a version.
    Update { version: String },
    /// Commits every change, under a message that holds the version.
    Commit { version: String },
    /// Checks that a package could be published, without publishing it.
    DryRun { package: String },
    /// Publishes a package.
    Publish { package: String },
    /// Creates a tagged release for a version, with generated notes.
    Release { version: String },
    /// Runs the tests with coverage instrumentation.
    Test,
    /// Turns the recorded profiles into a coverage report.
    Report,
}

pub enum CommandView {
    Status,
    Branch,
    Push,
    FetchTags,
    SetVersion { bump: Seq<char> },
    Probe,
    Update { version: Seq<char> },
    Commit { version: Seq<char> },
    DryRun { package: Seq<char> },
    Publish { package: Seq<char> },
    Release { version: Seq<char> },
    Test,
    Report,
}

impl View for Command {
    type V = CommandView;

    open spec fn view(&self) -> CommandView {
        match self {
            Command::Status => CommandView::Status,
            Command::Branch => CommandView::Branch,
            Command::Push => CommandView::Push,
            Command::FetchTags => CommandView::FetchTags,
            Command::SetVersion { bump } => CommandView::SetVersion { bump: bump@ },
            Command::Probe => CommandView::Probe,
            Command::Update { version } => CommandView::Update { version: version@ },
            Command::Commit { version } => CommandView::Commit { version: version@ },
            Command::DryRun { package } => CommandView::DryRun { package: package@ },
            Command::Publish { package } => CommandView::Publish { package: package@ },
            Command::Release { version } => CommandView::Release { version: version@ },
            Command::Test => CommandView::Test,
            Command::Report => CommandView::Report,
        }
    }
}

/// The message of the commit that records a version.
pub open spec fn commit_message(version: Seq<char>) -> Seq<char> {
    ":bookmark: bump to v"@ + version
}

/// The name of the tag that a version is released under.
pub open spec fn tag_name(version: Seq<char>) -> Seq<char> {
    "v"@ + version
}

/// The environment that the instrumented test run is given.
pub open spec fn coverage_env() -> Seq<(Seq<char>, Seq<char>)> {
    seq![
        ("CARGO_INCREMENTAL"@, "0"@),
        ("RUSTFLAGS"@, "-Cinstrument-coverage"@),
        ("LLVM_PROFILE_FILE"@, "cargo-test-%p-%m.profraw"@),
    ]
}

/// The arguments of the coverage report.
pub open spec fn report_args() -> Seq<Seq<char>> {
    seq![
        "."@,
        "--binary-path"@,
        "./target/debug/deps"@,
        "-s"@,
        "."@,
        "-t"@,
        "coveralls"@,
        "--branch"@,
        "--ignore-not-existing"@,
        "--ignore"@,
        "../*"@,
        "--ignore"@,
        "/*"@,
        "--ignore"@,
        "xtask/*"@,
        "--ignore"@,
        "*/src/tests/*"@,
        "--token"@,
        "NO_TOKEN"@,
    ]
}

/// How each command is invoked.
pub open spec fn invocation_of(command: CommandView) -> InvocationView {
    match command {
        CommandView::Status => plain("git"@, seq!["status"@, "-s"@]),
        CommandView::Branch => plain("git"@, seq!["branch"@, "--show-current"@]),
        CommandView::Push => plain("git"@, seq!["push"@, "--verbose"@]),
        CommandView::FetchTags => plain("git"@, seq!["fetch"@, "--tags"@]),
        CommandView::SetVersion { bump } => plain(
            "cargo"@,
            seq!["set-version"@, "--exclude"@, "xtask"@, "--bump"@, bump],
        ),
        CommandView::Probe => InvocationView {
            program: "nix"@,
            args: seq!["eval"@, ".#packages"@],
            env: seq![],
            stderr_to_stdout: true,
            stdout_capture: false,
        },
        CommandView::Update { version } => plain(
            "nix-update"@,
            seq!["default"@, "--flake"@, "--version"@, version],
        ),
        CommandView::Commit { version } => plain(
            "git"@,
            seq!["commit"@, "--all"@, "--message"@, commit_message(version)],
        ),
        CommandView::DryRun { package } => plain(
            "cargo"@,
            seq!["publish"@, "--registry"@, "crates-io"@, "-p"@, package, "--dry-run"@],
        ),
        CommandView::Publish { package } => plain(
            "cargo"@,
            seq!["publish"@, "--registry"@, "crates-io"@, "-p"@, package],
        ),
        CommandView::Release { version } => plain(
            "gh"@,
            seq!["release"@, "create"@, tag_name(version), "--generate-notes"@],
        ),
        CommandView::Test => InvocationView {
            program: "cargo"@,
            args: seq!["test"@],
            env: coverage_env(),
            stderr_to_stdout: true,
            stdout_capture: true,
        },
        CommandView::Report => plain("grcov"@, report_args()),
    }
}

/// Appends a name and its value to a list of overrides.
fn push_entry(entries: &mut Vec<(String, String)>, name: &str, value: &str)
    ensures
        pairs(final(entries)@) == pairs(old(entries)@).push((name@, value@)),
{
    entries.push((String::from_str(name), String::from_str(value)));
    assert(pairs(entries@) =~= pairs(old(entries)@).push((name@, value@)));
}

/// An invocation that leaves the environment and the output streams alone.
fn plain_invocation(program: &str, args: Vec<String>) -> (r: Invocation)
    ensures
        r@ == plain(program@, texts(args@)),
{
    let env: Vec<(String, String)> = Vec::new();
    assert(pairs(env@) =~= seq![]);
    Invocation {
        program: String::from_str(program),
        args,
        env,
        stderr_to_stdout: false,
        stdout_capture: false,
    }
}

/// The arguments of the coverage report.
fn report_words() -> (args: Vec<String>)
    ensures
        texts(args@) == report_args(),
{
    let mut args: Vec<String> = Vec::new();
    assert(texts(args@) =~= seq![]);
    push_word(&mut args, ".");
    push_word(&mut args, "--binary-path");
    push_word(&mut args, "./target/debug/deps");
    push_word(&mut args, "-s");
    push_word(&mut args, ".");
    push_word(&mut args, "-t");
    push_word(&mut args, "coveralls");
    push_word(&mut args, "--branch");
    push_word(&mut args, "--ignore-not-existing");
    push_word(&mut args, "--ignore");
    push_word(&mut args, "../*");
    push_word(&mut args, "--ignore");
    push_word(&mut args, "/*");
    push_word(&mut args, "--ignore");
    push_word(&mut args, "xtask/*");
    push_word(&mut args, "--ignore");
    push_word(&mut args, "*/src/tests/*");
    push_word(&mut args, "--token");
    push_word(&mut args, "NO_TOKEN");
    assert(texts(args@) =~= report_args());
    args
}

impl Command {
    /// The program and arguments that carry the command out.
    pub fn invocation(&self) -> (r: Invocation)
        ensures
            r@ == invocation_of(self@),
    {
        let mut args: Vec<String> = Vec::new();
        assert(texts(args@) =~= seq![]);
        match self {
            Command::Status => {
                push_word(&mut args, "status");
                push_word(&mut args, "-s");
                assert(texts(args@) =~= seq!["status"@, "-s"@]);
                plain_invocation("git", args)
            },
            Command::Branch => {
                push_word(&mut args, "branch");
                push_word(&mut args, "--show-current");
                assert(texts(args@) =~= seq!["branch"@, "--show-current"@]);
                plain_invocation("git", args)
            },
            Command::Push => {
                push_word(&mut args, "push");
                push_word(&mut args, "--verbose");
                assert(texts(args@) =~= seq!["push"@, "--verbose"@]);
                plain_invocation("git", args)
            },
            Command::FetchTags => {
                push_word(&mut args, "fetch");
                push_word(&mut args, "--tags");
                assert(texts(args@) =~= seq!["fetch"@, "--tags"@]);
                plain_invocation("git", args)
            },
            Command::SetVersion { bump } => {
                push_word(&mut args, "set-version");
                push_word(&mut args, "--exclude");
                push_word(&mut args, "xtask");
                push_word(&mut args, "--bump");
                push_word(&mut args, bump.as_str());
                assert(texts(args@) =~= seq![
                    "set-version"@,
                    "--exclude"@,
                    "xtask"@,
                    "--bump"@,
                    bump@,
                ]);
                plain_invocation("cargo", args)
            },
            Command::Probe => {
                push_word(&mut args, "eval");
                push_word(&mut args, ".#packages");
                assert(texts(args@) =~= seq!["eval"@, ".#packages"@]);
                let env: Vec<(String, String)> = Vec::new();
                assert(pairs(env@) =~= seq![]);
                Invocation {
                    program: String::from_str("nix"),
                    args,
                    env,
                    stderr_to_stdout: true,
                    stdout_capture: false,
                }
            },
            Command::Update { version } => {
                push_word(&mut args, "default");
                push_word(&mut args, "--flake");
                push_word(&mut args, "--version");
                push_word(&mut args, version.as_str());
                assert(texts(args@) =~= seq!["default"@, "--flake"@, "--version"@, version@]);
                plain_invocation("nix-update", args)
            },
            Command::Commit { version } => {
                let message = join(":bookmark: bump to v", version.as_str());
                push_word(&mut args, "commit");
                push_word(&mut args, "--all");
                push_word(&mut args, "--message");
                push_word(&mut args, message.as_str());
                assert(texts(args@) =~= seq![
                    "commit"@,
                    "--all"@,
                    "--message"@,
                    commit_message(version@),
                ]);
                plain_invocation("git", args)
            },
            Command::DryRun { package } => {
                push_word(&mut args, "publish");
                push_word(&mut args, "--registry");
                push_word(&mut args, "crates-io");
                push_word(&mut args, "-p");
                push_word(&mut args, package.as_str());
                push_word(&mut args, "--dry-run");
                assert(texts(args@) =~= seq![
                    "publish"@,
                    "--registry"@,
                    "crates-io"@,
                    "-p"@,
                    package@,
                    "--dry-run"@,
                ]);
                plain_invocation("cargo", args)
            },
            Command::Publish { package } => {
                push_word(&mut args, "publish");
                push_word(&mut args, "--registry");
                push_word(&mut args, "crates-io");
                push_word(&mut args, "-p");
                push_word(&mut args, package.as_str());
                assert(texts(args@) =~= seq![
                    "publish"@,
                    "--registry"@,
                    "crates-io"@,
                    "-p"@,
                    package@,
                ]);
                plain_invocation("cargo", args)
            },
            Command::Release { version } => {
                let tag = join("v", version.as_str());
                push_word(&mut args, "release");
                push_word(&mut args, "create");
                push_word(&mut args, tag.as_str());
                push_word(&mut args, "--generate-notes");
                assert(texts(args@) =~= seq![
                    "release"@,
                    "create"@,
                    tag_name(version@),
                    "--generate-notes"@,
                ]);
                plain_invocation("gh", args)
            },
            Command::Test => {
                push_word(&mut args, "test");
                assert(texts(args@) =~= seq!["test"@]);
                let mut env: Vec<(String, String)> = Vec::new();
                assert(pairs(env@) =~= seq![]);
                push_entry(&mut env, "CARGO_INCREMENTAL", "0");
                push_entry(&mut env, "RUSTFLAGS", "-Cinstrument-coverage");
                push_entry(&mut env, "LLVM_PROFILE_FILE", "cargo-test-%p-%m.profraw");
                assert(pairs(env@) =~= coverage_env());
                Invocation {
                    program: String::from_str("cargo"),
                    args,
                    env,
                    stderr_to_stdout: true,
                    stdout_capture: true,
                }
            },
            Command::Report => plain_invocation("grcov", report_words()),
        }
    }
}

} // verus!
