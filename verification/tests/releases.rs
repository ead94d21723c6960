use lintd_taskops::command::{Command, Invocation};
use lintd_taskops::error::TaskError;
use lintd_taskops::ops::{
    bump_version, check_main_branch, check_wd_clean, copy_of, neo_coverage, publish,
    push_verbose, Recipe,
};
use lintd_taskops::run::{Action, Chore, Directive, Run, Stage};
use lintd_taskops::{conclude, delegate, empty_dist, empty_rule, make, Addon, Commands, Make};

fn said(text: &str) -> Result<String, String> {
    Ok(text.to_string())
}

fn failed(cause: &str) -> Result<String, String> {
    Err(cause.to_string())
}

fn lines(list: &[&str]) -> Vec<String> {
    list.iter().map(|line| line.to_string()).collect()
}

fn quiet(action: Action) -> Directive {
    Directive { notes: Vec::new(), action }
}

fn noted(notes: &[&str], action: Action) -> Directive {
    Directive { notes: lines(notes), action }
}

fn dry_run(package: &str) -> Action {
    Action::Go(Command::DryRun { package: package.to_string() })
}

fn publication(package: &str) -> Action {
    Action::Go(Command::Publish { package: package.to_string() })
}

fn read(path: &str) -> Action {
    Action::Read(path.to_string())
}

fn is_command(action: &Action) -> bool {
    matches!(action, Action::Go(_) | Action::Eval(_) | Action::Probe(_))
}

const WORKSPACE: &str = "[workspace]\nmembers = [\"xtask\", \"alpha\", \"beta\"]\n";
const ALPHA: &str = "[package]\nname = \"alpha\"\nversion = \"1.2.3\"\n";
const BETA: &str = "[package]\nname = \"beta\"\nversion = \"1.2.4\"\n";

/// Answers a run in turn and collects what it asks after each answer.
fn answered(start: (Run, Directive), answers: Vec<Result<String, String>>) -> (Run, Vec<Directive>) {
    let (mut run, first) = start;
    let mut asked = vec![first];
    for answer in answers {
        let (next, directive) = run.advance(answer);
        run = next;
        asked.push(directive);
    }
    (run, asked)
}

#[test]
fn bump_on_a_dirty_tree_fails_before_any_change() {
    let (run, first) = bump_version("patch");
    assert_eq!(first, quiet(Action::Eval(Command::Status)));
    let (run, second) = run.advance(said("M src/lib.rs"));
    assert_eq!(
        second,
        quiet(Action::Finish(Err(TaskError::DirtyTree("M src/lib.rs".to_string()))))
    );
    assert!(run.is_finished());
    let (run, third) = run.advance(said(""));
    assert_eq!(third, quiet(Action::Halt));
    assert!(run.is_finished());
}

#[test]
fn publish_on_a_dirty_tree_fails_before_any_change() {
    let (run, asked) = answered(
        publish(),
        vec![said(" M Cargo.toml\n?? notes.txt\n"), said("main"), said(""), said(WORKSPACE)],
    );
    assert_eq!(asked[0], quiet(Action::Eval(Command::Status)));
    assert_eq!(
        asked[1],
        quiet(Action::Finish(Err(TaskError::DirtyTree(" M Cargo.toml\n?? notes.txt".to_string()))))
    );
    assert!(asked[1..].iter().all(|directive| !is_command(&directive.action)));
    assert_eq!(asked[2], quiet(Action::Halt));
    assert_eq!(asked[4], quiet(Action::Halt));
    assert!(run.is_finished());
}

#[test]
fn status_of_white_space_alone_is_clean() {
    let (_, asked) = answered(bump_version("minor"), vec![said(" \n\t\n")]);
    assert_eq!(
        asked[1],
        noted(
            &["=== bump version ==="],
            Action::Go(Command::SetVersion { bump: "minor".to_string() })
        )
    );
}

#[test]
fn status_query_that_fails_ends_the_run_with_the_command_attached() {
    let (run, asked) = answered(bump_version("patch"), vec![failed("not a git repository")]);
    assert_eq!(
        asked[1],
        quiet(Action::Finish(Err(TaskError::CommandExecution {
            invocation: Some(Command::Status.invocation()),
            cause: "not a git repository".to_string(),
        })))
    );
    assert!(run.is_finished());
}

#[test]
fn publish_from_another_branch_fails_with_its_name() {
    let (run, asked) = answered(publish(), vec![said(""), said("feature-x\n"), said("")]);
    assert_eq!(asked[1], quiet(Action::Eval(Command::Branch)));
    assert_eq!(
        asked[2],
        quiet(Action::Finish(Err(TaskError::WrongBranch("feature-x".to_string()))))
    );
    assert_eq!(asked[3], quiet(Action::Halt));
    assert!(asked[2..].iter().all(|directive| !is_command(&directive.action)));
    assert!(run.is_finished());
}

#[test]
fn branch_check_accepts_the_two_main_lines_only() {
    assert_eq!(check_main_branch("main".to_string()), Ok(()));
    assert_eq!(check_main_branch("master".to_string()), Ok(()));
    assert_eq!(
        check_main_branch("feature-x".to_string()),
        Err(TaskError::WrongBranch("feature-x".to_string()))
    );
    assert_eq!(check_main_branch("Main".to_string()), Err(TaskError::WrongBranch("Main".to_string())));
    assert_eq!(check_main_branch("".to_string()), Err(TaskError::WrongBranch("".to_string())));
    assert_eq!(
        check_main_branch("main-2".to_string()),
        Err(TaskError::WrongBranch("main-2".to_string()))
    );
}

#[test]
fn clean_check_accepts_the_empty_status_only() {
    assert_eq!(check_wd_clean("".to_string()), Ok(()));
    assert_eq!(
        check_wd_clean("M src/lib.rs".to_string()),
        Err(TaskError::DirtyTree("M src/lib.rs".to_string()))
    );
    assert_eq!(check_wd_clean(" ".to_string()), Err(TaskError::DirtyTree(" ".to_string())));
}

#[test]
fn publish_of_two_packages_from_main() {
    let (run, asked) = answered(
        publish(),
        vec![
            said(""),
            said("main"),
            said(""),
            said(WORKSPACE),
            said(""),
            said(""),
            said(""),
            said(""),
            said(ALPHA),
            said(""),
            said(""),
            said(""),
            said(""),
            said(WORKSPACE),
            said(BETA),
            failed("nix: command not found"),
            said(""),
            said(""),
        ],
    );
    let expected = vec![
        quiet(Action::Eval(Command::Status)),
        quiet(Action::Eval(Command::Branch)),
        quiet(Action::Go(Command::Push)),
        quiet(read("./Cargo.toml")),
        noted(&["=== dry run check all ===", "=== checking alpha ==="], dry_run("alpha")),
        noted(&["=== checking beta ==="], dry_run("beta")),
        noted(&["=== do publish ===", "=== publishing alpha ==="], publication("alpha")),
        noted(&["=== publishing beta ==="], publication("beta")),
        noted(&["=== github release ==="], read("./alpha/Cargo.toml")),
        quiet(Action::Go(Command::Release { version: "1.2.3".to_string() })),
        quiet(Action::Go(Command::FetchTags)),
        noted(&["=== bump patch version ==="], Action::Eval(Command::Status)),
        noted(
            &["=== bump version ==="],
            Action::Go(Command::SetVersion { bump: "patch".to_string() }),
        ),
        quiet(read("./Cargo.toml")),
        noted(&["pkg: beta"], read("./beta/Cargo.toml")),
        quiet(Action::Probe(Command::Probe)),
        quiet(Action::Go(Command::Commit { version: "1.2.4".to_string() })),
        quiet(Action::Go(Command::Push)),
        quiet(Action::Finish(Ok(()))),
    ];
    assert_eq!(asked, expected);
    assert!(run.is_finished());
    assert_eq!(
        Command::Release { version: "1.2.3".to_string() }.invocation().args[2],
        "v1.2.3"
    );
}

#[test]
fn bump_where_the_auxiliary_metadata_is_present() {
    let (run, asked) = answered(
        bump_version("major"),
        vec![
            said(""),
            said(""),
            said(WORKSPACE),
            said(BETA),
            said("{ default = ...; }"),
            said(""),
            said(""),
        ],
    );
    let expected = vec![
        quiet(Action::Eval(Command::Status)),
        noted(
            &["=== bump version ==="],
            Action::Go(Command::SetVersion { bump: "major".to_string() }),
        ),
        quiet(read("./Cargo.toml")),
        noted(&["pkg: beta"], read("./beta/Cargo.toml")),
        quiet(Action::Probe(Command::Probe)),
        quiet(Action::Go(Command::Update { version: "1.2.4".to_string() })),
        quiet(Action::Go(Command::Commit { version: "1.2.4".to_string() })),
        quiet(Action::Finish(Ok(()))),
    ];
    assert_eq!(asked, expected);
    assert!(run.is_finished());
}

#[test]
fn bump_where_the_metadata_update_fails() {
    let (_, asked) = answered(
        bump_version("patch"),
        vec![said(""), said(""), said(WORKSPACE), said(BETA), said(""), failed("exit 1")],
    );
    assert_eq!(
        asked[6],
        quiet(Action::Finish(Err(TaskError::CommandExecution {
            invocation: None,
            cause: "exit 1".to_string(),
        })))
    );
}

#[test]
fn bump_passes_the_increment_on_as_it_is() {
    let (_, asked) = answered(bump_version("no such part"), vec![said("")]);
    assert_eq!(
        asked[1].action,
        Action::Go(Command::SetVersion { bump: "no such part".to_string() })
    );
}

#[test]
fn bump_of_a_workspace_without_packages_fails() {
    let (run, asked) = answered(
        bump_version("patch"),
        vec![said(""), said(""), said("[workspace]\nmembers = [\"xtask\"]\n")],
    );
    assert_eq!(asked[3], quiet(Action::Finish(Err(TaskError::EmptyPlan))));
    assert!(run.is_finished());
}

#[test]
fn bump_reads_the_version_of_the_last_package() {
    let (_, asked) = answered(
        bump_version("patch"),
        vec![said(""), said(""), said("[workspace]\nmembers = [\"alpha\", \"beta\", \"xtask\"]\n")],
    );
    assert_eq!(asked[3], noted(&["pkg: beta"], read("./beta/Cargo.toml")));
}

#[test]
fn bump_with_a_manifest_of_another_package_fails() {
    let (_, asked) = answered(
        bump_version("patch"),
        vec![said(""), said(""), said(WORKSPACE), said(ALPHA)],
    );
    assert_eq!(
        asked[4],
        quiet(Action::Finish(Err(TaskError::ManifestMismatch {
            requested: "beta".to_string(),
            declared: "alpha".to_string(),
        })))
    );
}

#[test]
fn bump_with_a_manifest_that_cannot_be_read_fails() {
    let (_, asked) = answered(
        bump_version("patch"),
        vec![said(""), said(""), failed("No such file or directory (os error 2)")],
    );
    assert_eq!(
        asked[3],
        quiet(Action::Finish(Err(TaskError::ManifestParse(
            "No such file or directory (os error 2)".to_string()
        ))))
    );
    let (_, asked) = answered(
        bump_version("patch"),
        vec![said(""), said(""), said(WORKSPACE), failed("Permission denied (os error 13)")],
    );
    assert_eq!(
        asked[4],
        quiet(Action::Finish(Err(TaskError::ManifestParse(
            "Permission denied (os error 13)".to_string()
        ))))
    );
}

#[test]
fn bump_where_the_version_change_fails() {
    let (run, asked) = answered(bump_version("patch"), vec![said(""), failed("exit 101"), said("")]);
    assert_eq!(
        asked[2],
        quiet(Action::Finish(Err(TaskError::CommandExecution {
            invocation: None,
            cause: "exit 101".to_string(),
        })))
    );
    assert_eq!(asked[3], quiet(Action::Halt));
    assert!(run.is_finished());
}

#[test]
fn dry_run_that_fails_keeps_every_package_private() {
    let (run, asked) = answered(
        publish(),
        vec![
            said(""),
            said("master"),
            said(""),
            said(WORKSPACE),
            said(""),
            failed("exit 101"),
            said(""),
            said(""),
            said(ALPHA),
        ],
    );
    assert_eq!(asked[5].action, dry_run("beta"));
    assert_eq!(
        asked[6],
        quiet(Action::Finish(Err(TaskError::CommandExecution {
            invocation: None,
            cause: "exit 101".to_string(),
        })))
    );
    for directive in &asked {
        assert!(!matches!(
            directive.action,
            Action::Go(Command::Publish { .. }) | Action::Go(Command::Release { .. })
        ));
    }
    assert!(asked[7..].iter().all(|directive| directive.action == Action::Halt));
    assert!(run.is_finished());
}

#[test]
fn first_dry_run_that_fails_ends_the_run() {
    let (_, asked) = answered(
        publish(),
        vec![said(""), said("main"), said(""), said(WORKSPACE), failed("exit 101"), said("")],
    );
    assert!(matches!(asked[5].action, Action::Finish(Err(_))));
    assert_eq!(asked[6], quiet(Action::Halt));
}

#[test]
fn publication_that_fails_leaves_the_earlier_ones_published() {
    let (run, asked) = answered(
        publish(),
        vec![
            said(""),
            said("main"),
            said(""),
            said(WORKSPACE),
            said(""),
            said(""),
            said(""),
            failed("registry unavailable"),
            said(""),
        ],
    );
    assert_eq!(asked[6].action, publication("alpha"));
    assert_eq!(asked[7].action, publication("beta"));
    assert_eq!(
        asked[8],
        quiet(Action::Finish(Err(TaskError::CommandExecution {
            invocation: None,
            cause: "registry unavailable".to_string(),
        })))
    );
    assert_eq!(asked[9], quiet(Action::Halt));
    assert!(run.is_finished());
}

#[test]
fn publish_of_a_workspace_without_packages_fails() {
    let (run, asked) = answered(
        publish(),
        vec![said(""), said("main"), said(""), said("[workspace]\nmembers = [\"xtask\"]\n")],
    );
    assert_eq!(
        asked[4],
        noted(
            &["=== dry run check all ===", "=== do publish ===", "=== github release ==="],
            Action::Finish(Err(TaskError::EmptyPlan))
        )
    );
    assert!(run.is_finished());
}

#[test]
fn publish_of_one_package() {
    let (_, asked) = answered(
        publish(),
        vec![
            said(""),
            said("main"),
            said(""),
            said("[workspace]\nmembers = [\"alpha\"]\n"),
            said(""),
            said(""),
        ],
    );
    assert_eq!(
        asked[4],
        noted(&["=== dry run check all ===", "=== checking alpha ==="], dry_run("alpha"))
    );
    assert_eq!(
        asked[5],
        noted(&["=== do publish ===", "=== publishing alpha ==="], publication("alpha"))
    );
    assert_eq!(asked[6], noted(&["=== github release ==="], read("./alpha/Cargo.toml")));
}

#[test]
fn publish_where_the_push_fails() {
    let (_, asked) = answered(publish(), vec![said(""), said("main"), failed("rejected")]);
    assert_eq!(
        asked[3],
        quiet(Action::Finish(Err(TaskError::CommandExecution {
            invocation: None,
            cause: "rejected".to_string(),
        })))
    );
}

#[test]
fn publish_where_the_branch_query_fails() {
    let (_, asked) = answered(publish(), vec![said(""), failed("exit 128")]);
    assert_eq!(
        asked[2],
        quiet(Action::Finish(Err(TaskError::CommandExecution {
            invocation: Some(Command::Branch.invocation()),
            cause: "exit 128".to_string(),
        })))
    );
}

#[test]
fn publish_with_a_broken_workspace_manifest_fails() {
    let broken = "[workspace";
    let message = broken.parse::<toml::Table>().unwrap_err().to_string();
    let (_, asked) = answered(publish(), vec![said(""), said("main"), said(""), said(broken)]);
    assert_eq!(asked[4], quiet(Action::Finish(Err(TaskError::ManifestParse(message)))));
}

#[test]
fn run_set_up_in_the_middle_of_the_dry_runs() {
    let run = Run {
        stage: Stage::DryRun,
        publishing: true,
        bump: "patch".to_string(),
        plan: lines(&["a", "b", "c"]),
        index: 1,
        package: String::new(),
        version: String::new(),
    };
    let (next, directive) = run.advance(said(""));
    assert_eq!(directive, noted(&["=== checking c ==="], dry_run("c")));
    assert_eq!(next.index, 2);
    assert_eq!(next.stage, Stage::DryRun);
    let (next, directive) = next.advance(said(""));
    assert_eq!(directive, noted(&["=== do publish ===", "=== publishing a ==="], publication("a")));
    assert_eq!(next.index, 0);
    assert_eq!(next.stage, Stage::Publish);
}

#[test]
fn coverage_for_an_editor() {
    let (run, asked) = answered(neo_coverage(), vec![said(""), said(""), said("")]);
    let expected = vec![
        quiet(Action::Go(Command::Test)),
        quiet(Action::Go(Command::Report)),
        quiet(Action::Clean("**/*.profraw".to_string())),
        quiet(Action::Finish(Ok(()))),
    ];
    assert_eq!(asked, expected);
    assert!(run.is_finished());
}

#[test]
fn coverage_where_the_report_fails() {
    let (run, asked) = answered(neo_coverage(), vec![said(""), failed("grcov: not found")]);
    assert_eq!(
        asked[2],
        quiet(Action::Finish(Err(TaskError::CommandExecution {
            invocation: None,
            cause: "grcov: not found".to_string(),
        })))
    );
    assert!(run.is_finished());
}

#[test]
fn push_is_announced_and_run() {
    assert_eq!(push_verbose(), Action::Go(Command::Push));
}

#[test]
fn recipe_judges_the_answer_of_the_host() {
    let call = Invocation {
        program: "uname".to_string(),
        args: lines(&["-a"]),
        env: Vec::new(),
        stderr_to_stdout: false,
        stdout_capture: false,
    };
    assert_eq!(call.go(said("ignored")), Ok(()));
    assert_eq!(
        call.go(failed("exit 2")),
        Err(TaskError::CommandExecution { invocation: None, cause: "exit 2".to_string() })
    );
    assert_eq!(call.eval(said("Linux host 6.1 \n")), Ok("Linux host 6.1".to_string()));
    assert_eq!(
        call.eval(failed("exit 2")),
        Err(TaskError::CommandExecution {
            invocation: Some(call.clone()),
            cause: "exit 2".to_string(),
        })
    );
    assert_eq!(copy_of(&Command::Test.invocation()), Command::Test.invocation());
}

#[test]
fn commands_begin_their_runs() {
    assert_eq!(make(Commands::Ci), delegate(Chore::Ci));
    assert_eq!(make(Commands::Ci).1, quiet(Action::Delegate(Chore::Ci)));
    assert_eq!(make(Commands::Docs).1, quiet(Action::Delegate(Chore::Docs)));
    assert_eq!(
        make(Commands::Coverage { dev: true, neo: false }).1,
        quiet(Action::Delegate(Chore::Coverage { dev: true }))
    );
    assert_eq!(
        make(Commands::Coverage { dev: false, neo: false }).1,
        quiet(Action::Delegate(Chore::Coverage { dev: false }))
    );
    assert_eq!(make(Commands::Coverage { dev: false, neo: true }), neo_coverage());
    assert_eq!(make(Commands::Coverage { dev: true, neo: true }), neo_coverage());
    assert_eq!(make(Commands::Bump { bump: "minor".to_string() }), bump_version("minor"));
    assert_eq!(make(Commands::Publish), publish());
}

#[test]
fn delegated_chore_ends_with_the_answer_of_the_host() {
    let (run, asked) = answered(make(Commands::Docs), vec![said("")]);
    assert_eq!(asked[1], quiet(Action::Finish(Ok(()))));
    assert!(run.is_finished());
    let (_, asked) = answered(make(Commands::Ci), vec![failed("clippy failed")]);
    assert_eq!(
        asked[1],
        quiet(Action::Finish(Err(TaskError::CommandExecution {
            invocation: None,
            cause: "clippy failed".to_string(),
        })))
    );
}

#[test]
fn empty_recipes_report_that_they_are_empty() {
    assert_eq!(empty_dist(), Ok(lines(&["Warning: Empty dist receipt."])));
    assert_eq!(
        empty_rule("default".to_string(), lines(&["a", "b \"c\""])),
        Ok(lines(&["Warning: Empty receipt for target default, options: [\"a\", \"b \\\"c\\\"\"]"]))
    );
    let (run, directive) = make(Commands::Dist);
    assert!(run.is_finished());
    assert_eq!(directive, noted(&["Warning: Empty dist receipt."], Action::Finish(Ok(()))));
    let (run, directive) =
        make(Commands::Rule { target: "help".to_string(), rule_options: Vec::new() });
    assert!(run.is_finished());
    assert_eq!(
        directive,
        noted(&["Warning: Empty receipt for target help, options: []"], Action::Finish(Ok(())))
    );
}

struct Worker();

impl Addon for Worker {
    fn dist() -> Result<Vec<String>, TaskError> {
        Ok(vec!["HIT users' dist receipt!".to_string()])
    }

    fn rule(target: String, _options: Vec<String>) -> Result<Vec<String>, TaskError> {
        match target.as_str() {
            "help" => Ok(vec!["all rule targets:\n  help, show-arch".to_string()]),
            "broken" => Err(TaskError::WrongBranch(target)),
            _ => Ok(Vec::new()),
        }
    }
}

#[test]
fn recipes_of_a_project_replace_the_empty_ones() {
    let (run, directive) = Worker::make(Commands::Dist);
    assert!(run.is_finished());
    assert_eq!(directive, noted(&["HIT users' dist receipt!"], Action::Finish(Ok(()))));
    let (_, directive) =
        Worker::make(Commands::Rule { target: "help".to_string(), rule_options: Vec::new() });
    assert_eq!(
        directive,
        noted(&["all rule targets:\n  help, show-arch"], Action::Finish(Ok(())))
    );
    let (_, directive) =
        Worker::make(Commands::Rule { target: "other".to_string(), rule_options: lines(&["x"]) });
    assert_eq!(directive, quiet(Action::Finish(Ok(()))));
    let (run, directive) =
        Worker::make(Commands::Rule { target: "broken".to_string(), rule_options: Vec::new() });
    assert!(run.is_finished());
    assert_eq!(
        directive,
        quiet(Action::Finish(Err(TaskError::WrongBranch("broken".to_string()))))
    );
    assert_eq!(Worker::make(Commands::Publish), publish());
    assert_eq!(
        conclude(Err(TaskError::EmptyPlan)).1,
        quiet(Action::Finish(Err(TaskError::EmptyPlan)))
    );
}
