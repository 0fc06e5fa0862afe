use project_tools::controller::init::{
    clean, confirmation, has_force_flag, init as reconcile, rebuild_full, InitAction, InitCommand,
    InitFlow, Phase,
};
use project_tools::controller::init::submodules::ReconcileStep;
use project_tools::controller::{init, run, Command};
use project_tools::error::ToolError;
use project_tools::helpers::config::create_config;
use project_tools::helpers::help::{router, HelpTopic};

fn args(words: &[&str]) -> Vec<String> {
    words.iter().map(|w| w.to_string()).collect()
}

fn start(command: InitCommand) -> InitFlow {
    InitFlow { command, phase: Phase::Start }
}

#[test]
fn run_dispatches_the_command_words() {
    assert_eq!(run("down", &args(&["x"])), Command::Down);
    assert_eq!(run("up", &[]), Command::Up);
    assert_eq!(run("watch", &[]), Command::Watch);
    assert_eq!(run("status", &[]), Command::Status);
    assert_eq!(run("-v", &[]), Command::Version);
    assert_eq!(run("--version", &[]), Command::Version);
    assert_eq!(run("init", &[]), Command::Init(start(InitCommand::Reconcile)));
    assert_eq!(
        run("init", &args(&["clean", "-y"])),
        Command::Init(start(InitCommand::Clean { force: true }))
    );
}

#[test]
fn run_answers_anything_else_with_the_usage() {
    assert_eq!(run("new", &[]), Command::Help);
    assert_eq!(run("", &[]), Command::Help);
    assert_eq!(run("Init", &[]), Command::Help);
    assert_eq!(run("help", &[]), Command::Help);
    assert_eq!(run("version", &[]), Command::Help);
}

#[test]
fn init_dispatches_its_subcommands() {
    assert_eq!(init(&[]), start(InitCommand::Reconcile));
    assert_eq!(init(&args(&["rebuild"])), start(InitCommand::Rebuild { force: false }));
    assert_eq!(init(&args(&["rebuild", "-y"])), start(InitCommand::Rebuild { force: true }));
    assert_eq!(init(&args(&["clean"])), start(InitCommand::Clean { force: false }));
    assert_eq!(init(&args(&["clean", "-y"])), start(InitCommand::Clean { force: true }));
    assert_eq!(init(&args(&["clean", "x", "-y"])), start(InitCommand::Clean { force: false }));
    assert_eq!(init(&args(&["help"])), start(InitCommand::Help));
    assert_eq!(init(&args(&["-h"])), start(InitCommand::Help));
    assert_eq!(init(&args(&["--help"])), start(InitCommand::Help));
    assert_eq!(init(&args(&["new"])), start(InitCommand::Help));
    assert_eq!(init(&args(&["-y"])), start(InitCommand::Help));
}

#[test]
fn force_flag_is_the_first_argument() {
    assert!(has_force_flag(&args(&["-y"])));
    assert!(has_force_flag(&args(&["-y", "x"])));
    assert!(!has_force_flag(&args(&["x", "-y"])));
    assert!(!has_force_flag(&args(&["-Y"])));
    assert!(!has_force_flag(&[]));
}

#[test]
fn confirmation_is_the_letter_y() {
    assert!(confirmation("y\n"));
    assert!(confirmation(" Y \r\n"));
    assert!(!confirmation("yes\n"));
    assert!(!confirmation("n\n"));
    assert!(!confirmation("\n"));
    assert!(!confirmation(""));
}

#[test]
fn clean_with_the_force_flag_deletes_at_once() {
    let mut flow = clean(&args(&["-y"]));
    assert_eq!(flow.advance(), InitAction::DeleteAll);
    assert_eq!(flow.advance(), InitAction::Finish);
    assert_eq!(flow.phase, Phase::Finished);
    assert_eq!(flow.advance(), InitAction::Finish);
}

#[test]
fn clean_without_the_force_flag_asks_first() {
    let mut flow = clean(&[]);
    assert_eq!(flow.advance(), InitAction::AskConfirmation);
    assert_eq!(flow.phase, Phase::AwaitingAnswer);
    assert_eq!(flow.answer("y\n"), InitAction::DeleteAll);
    assert_eq!(flow.advance(), InitAction::Finish);
}

#[test]
fn clean_declined_changes_nothing() {
    for line in ["n\n", "\n", "yes\n", "no", "-y"] {
        let mut flow = clean(&[]);
        assert_eq!(flow.advance(), InitAction::AskConfirmation);
        assert_eq!(flow.answer(line), InitAction::Abort, "{:?}", line);
        assert_eq!(flow.phase, Phase::Finished);
        assert_eq!(flow.answer("y\n"), InitAction::Finish);
        assert_eq!(flow.advance(), InitAction::Finish);
    }
}

#[test]
fn an_awaited_answer_that_never_comes_aborts() {
    let mut flow = rebuild_full(&[]);
    assert_eq!(flow.advance(), InitAction::AskConfirmation);
    assert_eq!(flow.advance(), InitAction::Abort);
    assert_eq!(flow.advance(), InitAction::Finish);
}

#[test]
fn rebuild_deletes_and_then_reconciles() {
    let mut flow = rebuild_full(&args(&["-y"]));
    assert_eq!(flow.advance(), InitAction::DeleteAll);
    assert_eq!(flow.advance(), InitAction::Reconcile);
    assert_eq!(flow.advance(), InitAction::Finish);

    let mut flow = rebuild_full(&[]);
    assert_eq!(flow.advance(), InitAction::AskConfirmation);
    assert_eq!(flow.answer("Y"), InitAction::DeleteAll);
    assert_eq!(flow.advance(), InitAction::Reconcile);
    assert_eq!(flow.advance(), InitAction::Finish);
}

#[test]
fn rebuild_declined_neither_deletes_nor_reconciles() {
    let mut flow = rebuild_full(&[]);
    assert_eq!(flow.advance(), InitAction::AskConfirmation);
    assert_eq!(flow.answer("n"), InitAction::Abort);
    assert_eq!(flow.advance(), InitAction::Finish);
}

#[test]
fn an_answer_counts_only_while_it_is_awaited() {
    let mut flow = clean(&args(&["-y"]));
    assert_eq!(flow.answer("n"), InitAction::DeleteAll);
    let mut flow = InitFlow::new(InitCommand::Reconcile);
    assert_eq!(flow.answer("y"), InitAction::Reconcile);
    assert_eq!(flow.answer("y"), InitAction::Finish);
}

#[test]
fn plain_init_reconciles_and_help_shows_the_usage() {
    let mut flow = InitFlow::new(InitCommand::Reconcile);
    assert_eq!(flow.advance(), InitAction::Reconcile);
    assert_eq!(flow.advance(), InitAction::Finish);
    let mut flow = InitFlow::new(InitCommand::Help);
    assert_eq!(flow.advance(), InitAction::ShowHelp);
    assert_eq!(flow.advance(), InitAction::Finish);
}

#[test]
fn a_state_that_no_run_reaches_still_does_not_delete() {
    let mut flow = InitFlow { command: InitCommand::Reconcile, phase: Phase::AwaitingAnswer };
    assert_eq!(flow.step(Some(true)), InitAction::Abort);
}

#[test]
fn init_takes_the_inventory_and_plans() {
    let config = create_config("/definitely/not/a/project/root");
    let done = reconcile(&config, Some("path = a\n")).unwrap();
    assert_eq!(done.entries.len(), 1);
    assert_eq!(done.entries[0].absolute_path, "/definitely/not/a/project/root/a");
    assert_eq!(
        done.plan.steps,
        vec![ReconcileStep::Report { index: 0 }, ReconcileStep::Update { index: 0 }]
    );
    assert!(done.plan.result.any_missing);
    assert_eq!(reconcile(&config, None), Err(ToolError::SubmodulesFileMissing));
}

#[test]
fn help_router_knows_init() {
    assert_eq!(router(&args(&["init"])), HelpTopic::Init);
    assert_eq!(router(&args(&["init", "x"])), HelpTopic::Init);
    assert_eq!(router(&args(&["up"])), HelpTopic::Main);
    assert_eq!(router(&args(&["x", "init"])), HelpTopic::Main);
    assert_eq!(router(&[]), HelpTopic::Main);
}
