//! The `init` family of commands.
//!
//! A command of the family is a small state machine. The caller performs the
//! action that a step hands out (prompting, deleting, reconciling) and steps
//! again; the machine decides what comes next. Deleting is gated: it starts
//! only behind the force flag or a confirming answer.

pub mod submodules;

use crate::controller::init::submodules::{
    any_missing, check_if_submodule_init_run_needed, declared_paths, get_submodule_paths,
    is_inventory, reconcile_steps, ReconcilePlan,
};
use crate::error::ToolError;
use crate::helpers::filesystem::dir::SubmoduleEntry;
use crate::helpers::user_input::get_user_input_with_options;
use crate::models::app_config::AppConfigFile;
use crate::text::{same_text, to_ascii_lowercase, trim};
use vstd::prelude::*;

verus! {

/// A command of the `init` family.
#[derive(Clone, Copy, Debug, PartialEq, Eq, Structural)]
pub enum InitCommand {
    /// Reconcile the submodules with the disk.
    Reconcile,
    /// Delete every submodule directory, then reconcile.
    Rebuild { force: bool },
    /// Delete every submodule directory.
    Clean { force: bool },
    /// Print the usage of `init`.
    Help,
}

/// How far a command has come.
#[derive(Clone, Copy, Debug, PartialEq, Eq, Structural)]
pub enum Phase {
    Start,
    /// The user was asked to confirm the deletion.
    AwaitingAnswer,
    /// The deletion was handed out.
    Deleting,
    /// The reconciliation was handed out.
    Reconciling,
    Finished,
}

/// What the caller is to do next.
#[derive(Clone, Copy, Debug, PartialEq, Eq, Structural)]
pub enum InitAction {
    /// Warn, prompt, read a line and hand it to [`InitFlow::answer`].
    AskConfirmation,
    /// Remove every submodule directory.
    DeleteAll,
    /// Take the inventory and run the update command where it is needed.
    Reconcile,
    /// Print the usage of `init`.
    ShowHelp,
    /// Say that the command is aborted; nothing was changed.
    Abort,
    /// Nothing is left to do.
    Finish,
}

/// A command of the `init` family on its way.
#[derive(Clone, Copy, Debug, PartialEq, Eq, Structural)]
pub struct InitFlow {
    pub command: InitCommand,
    pub phase: Phase,
}

/// An inventory together with the plan that reconciles it.
#[derive(Debug, PartialEq)]
pub struct Reconciliation {
    pub entries: Vec<SubmoduleEntry>,
    pub plan: ReconcilePlan,
}

/// The text `-y`.
pub open spec fn force_flag() -> Seq<char> {
    seq!['-', 'y']
}

/// The text `y`.
pub open spec fn confirming_answer() -> Seq<char> {
    seq!['y']
}

/// Whether the first argument is the force flag `-y`.
pub open spec fn forced(args: Seq<String>) -> bool {
    args.len() > 0 && args[0]@ == force_flag()
}

/// Whether the answer `raw` confirms: trimmed and lowered, it is `y`.
pub open spec fn confirms(raw: Seq<char>) -> bool {
    to_ascii_lowercase(trim(raw)) == confirming_answer()
}

/// Whether `command` is one that deletes.
pub open spec fn deletes(command: InitCommand) -> bool {
    command is Rebuild || command is Clean
}

/// Whether `command` carries the force flag.
pub open spec fn is_forced(command: InitCommand) -> bool {
    match command {
        InitCommand::Rebuild { force } => force,
        InitCommand::Clean { force } => force,
        _ => false,
    }
}

/// One step of a command: from its phase, and from the user's answer where
/// one was given (`Some(true)` for a confirming one), to the next phase and
/// the action to perform.
pub open spec fn transition(command: InitCommand, phase: Phase, confirmed: Option<bool>) -> (
    Phase,
    InitAction,
) {
    match phase {
        Phase::Start => match command {
            InitCommand::Reconcile => (Phase::Reconciling, InitAction::Reconcile),
            InitCommand::Help => (Phase::Finished, InitAction::ShowHelp),
            _ => if is_forced(command) {
                (Phase::Deleting, InitAction::DeleteAll)
            } else {
                (Phase::AwaitingAnswer, InitAction::AskConfirmation)
            },
        },
        Phase::AwaitingAnswer => if deletes(command) && confirmed == Some(true) {
            (Phase::Deleting, InitAction::DeleteAll)
        } else {
            (Phase::Finished, InitAction::Abort)
        },
        Phase::Deleting => if command is Rebuild {
            (Phase::Reconciling, InitAction::Reconcile)
        } else {
            (Phase::Finished, InitAction::Finish)
        },
        Phase::Reconciling => (Phase::Finished, InitAction::Finish),
        Phase::Finished => (Phase::Finished, InitAction::Finish),
    }
}

/// The phase that `command` is in after the answers `answers`, one for each
/// step, starting from `phase`.
pub open spec fn phase_after(command: InitCommand, phase: Phase, answers: Seq<Option<bool>>) -> Phase
    decreases answers.len(),
{
    if answers.len() == 0 {
        phase
    } else {
        transition(command, phase_after(command, phase, answers.drop_last()), answers.last()).0
    }
}

/// The actions that `command` hands out over the steps with the answers
/// `answers`, starting from `phase`.
pub open spec fn actions(command: InitCommand, phase: Phase, answers: Seq<Option<bool>>) -> Seq<
    InitAction,
>
    decreases answers.len(),
{
    if answers.len() == 0 {
        Seq::empty()
    } else {
        actions(command, phase, answers.drop_last()).push(
            transition(command, phase_after(command, phase, answers.drop_last()), answers.last()).1,
        )
    }
}

impl InitFlow {
    /// A command at its start.
    pub fn new(command: InitCommand) -> (flow: InitFlow)
        ensures
            flow == (InitFlow { command, phase: Phase::Start }),
    {
        InitFlow { command, phase: Phase::Start }
    }

    /// Steps without an answer. While an answer is awaited this aborts.
    pub fn advance(&mut self) -> (action: InitAction)
        ensures
            final(self).command == old(self).command,
            (final(self).phase, action) == transition(old(self).command, old(self).phase, None),
    {
        self.step(None)
    }

    /// Steps with the line that the user entered. The line counts only
    /// while an answer is awaited.
    pub fn answer(&mut self, raw: &str) -> (action: InitAction)
        ensures
            final(self).command == old(self).command,
            (final(self).phase, action) == transition(
                old(self).command,
                old(self).phase,
                Some(confirms(raw@)),
            ),
    {
        let confirmed = confirmation(raw);
        self.step(Some(confirmed))
    }

    /// Steps with an answer already read as confirming or not.
    pub fn step(&mut self, confirmed: Option<bool>) -> (action: InitAction)
        ensures
            final(self).command == old(self).command,
            (final(self).phase, action) == transition(
                old(self).command,
                old(self).phase,
                confirmed,
            ),
    {
        let forced = match self.command {
            InitCommand::Rebuild { force } => force,
            InitCommand::Clean { force } => force,
            _ => false,
        };
        let deleting = match self.command {
            InitCommand::Rebuild { .. } => true,
            InitCommand::Clean { .. } => true,
            _ => false,
        };
        let rebuilding = match self.command {
            InitCommand::Rebuild { .. } => true,
            _ => false,
        };
        let (phase, action) = match self.phase {
            Phase::Start => match self.command {
                InitCommand::Reconcile => (Phase::Reconciling, InitAction::Reconcile),
                InitCommand::Help => (Phase::Finished, InitAction::ShowHelp),
                _ => if forced {
                    (Phase::Deleting, InitAction::DeleteAll)
                } else {
                    (Phase::AwaitingAnswer, InitAction::AskConfirmation)
                },
            },
            Phase::AwaitingAnswer => {
                let yes = match confirmed {
                    Some(true) => true,
                    _ => false,
                };
                if deleting && yes {
                    (Phase::Deleting, InitAction::DeleteAll)
                } else {
                    (Phase::Finished, InitAction::Abort)
                }
            },
            Phase::Deleting => if rebuilding {
                (Phase::Reconciling, InitAction::Reconcile)
            } else {
                (Phase::Finished, InitAction::Finish)
            },
            Phase::Reconciling => (Phase::Finished, InitAction::Finish),
            Phase::Finished => (Phase::Finished, InitAction::Finish),
        };
        self.phase = phase;
        action
    }
}

/// Whether the line that the user entered confirms a deletion: trimmed and
/// lowered, it is `y`.
pub fn confirmation(raw: &str) -> (confirmed: bool)
    ensures
        confirmed == confirms(raw@),
{
    let options = ["y"];
    proof {
        reveal_strlit("y");
        assert("y"@ =~= confirming_answer());
        if confirms(raw@) {
            assert(options@[0]@ == to_ascii_lowercase(trim(raw@)));
        }
    }
    get_user_input_with_options(raw, options.as_slice())
}

/// Whether the arguments behind a deleting subcommand start with `-y`.
pub fn has_force_flag(args: &[String]) -> (force: bool)
    ensures
        force == forced(args@),
{
    proof {
        reveal_strlit("-y");
        assert("-y"@ =~= force_flag());
    }
    args.len() > 0 && same_text(args[0].as_str(), "-y")
}

/// The command that deletes every submodule directory and then reconciles:
/// forced by a leading `-y`, else behind a confirmation.
pub fn rebuild_full(args: &[String]) -> (flow: InitFlow)
    ensures
        flow == (InitFlow {
            command: InitCommand::Rebuild { force: forced(args@) },
            phase: Phase::Start,
        }),
{
    InitFlow::new(InitCommand::Rebuild { force: has_force_flag(args) })
}

/// The command that deletes every submodule directory: forced by a leading
/// `-y`, else behind a confirmation.
pub fn clean(args: &[String]) -> (flow: InitFlow)
    ensures
        flow == (InitFlow {
            command: InitCommand::Clean { force: forced(args@) },
            phase: Phase::Start,
        }),
{
    InitFlow::new(InitCommand::Clean { force: has_force_flag(args) })
}

/// Initializes the project: takes the inventory of the submodules that
/// `content`, the text of the submodules file, declares, and plans their
/// reconciliation. `None` stands for a file that could not be read, and
/// stops the command.
pub fn init(config: &AppConfigFile, content: Option<&str>) -> (outcome: Result<
    Reconciliation,
    ToolError,
>)
    ensures
        content is None <==> outcome == Err::<Reconciliation, ToolError>(
            ToolError::SubmodulesFileMissing,
        ),
        content is Some ==> outcome is Ok && ({
            let entries = outcome->Ok_0.entries@;
            let plan = outcome->Ok_0.plan;
            &&& is_inventory(entries, config.project_path@, declared_paths(content->0@))
            &&& plan.steps@ == reconcile_steps(entries, entries.len() as int)
            &&& plan.result.any_missing == any_missing(entries, entries.len() as int)
        }),
{
    match get_submodule_paths(config, content) {
        Err(e) => Err(e),
        Ok(entries) => {
            let plan = check_if_submodule_init_run_needed(&entries);
            Ok(Reconciliation { entries, plan })
        },
    }
}

/// Deleting is gated. A step hands out the deletion only for a deleting
/// command, and only at its start with the force flag or on a confirming
/// answer while one is awaited.
pub proof fn lemma_deletion_is_gated(command: InitCommand, phase: Phase, confirmed: Option<bool>)
    ensures
        transition(command, phase, confirmed).1 is DeleteAll <==> deletes(command) && ((phase
            is Start && is_forced(command)) || (phase is AwaitingAnswer && confirmed == Some(
            true,
        ))),
{
}

/// Every step hands out one action, and the action of step `i` is the one
/// that [`transition`] gives in the phase that the steps before it reached.
pub proof fn lemma_action_at(
    command: InitCommand,
    phase: Phase,
    answers: Seq<Option<bool>>,
    i: int,
)
    requires
        0 <= i < answers.len(),
    ensures
        actions(command, phase, answers).len() == answers.len(),
        actions(command, phase, answers)[i] == transition(
            command,
            phase_after(command, phase, answers.take(i)),
            answers[i],
        ).1,
        phase_after(command, phase, answers.take(i + 1)) == transition(
            command,
            phase_after(command, phase, answers.take(i)),
            answers[i],
        ).0,
    decreases answers.len(),
{
    let before = answers.drop_last();
    assert(answers.take(i + 1).drop_last() == answers.take(i));
    assert(answers.take(i + 1).last() == answers[i]);
    if before.len() > 0 {
        lemma_action_at(command, phase, before, 0);
    }
    assert(actions(command, phase, before).len() == before.len());
    assert(actions(command, phase, answers) == actions(command, phase, before).push(
        transition(command, phase_after(command, phase, before), answers.last()).1,
    ));
    if i == answers.len() - 1 {
        assert(answers.take(i) == before);
    } else {
        lemma_action_at(command, phase, before, i);
        assert(before.take(i) == answers.take(i));
    }
}

/// With the force flag, a deleting command deletes at its first step.
/// After the deletion `rebuild` reconciles and `clean` finishes.
pub proof fn lemma_forced_run_deletes(command: InitCommand, answers: Seq<Option<bool>>)
    requires
        deletes(command),
        is_forced(command),
        answers.len() >= 2,
    ensures
        actions(command, Phase::Start, answers)[0] is DeleteAll,
        command is Rebuild ==> actions(command, Phase::Start, answers)[1] is Reconcile,
        command is Clean ==> actions(command, Phase::Start, answers)[1] is Finish,
{
    assert(answers.take(0) == Seq::<Option<bool>>::empty());
    lemma_action_at(command, Phase::Start, answers, 0);
    lemma_action_at(command, Phase::Start, answers, 1);
}

/// Without the force flag, a deleting command first asks, and deletes at
/// its second step if the answer to that confirms. After the deletion
/// `rebuild` reconciles and `clean` finishes.
pub proof fn lemma_confirmed_run_deletes(command: InitCommand, answers: Seq<Option<bool>>)
    requires
        deletes(command),
        !is_forced(command),
        answers.len() >= 3,
        answers[1] == Some(true),
    ensures
        actions(command, Phase::Start, answers)[0] is AskConfirmation,
        actions(command, Phase::Start, answers)[1] is DeleteAll,
        command is Rebuild ==> actions(command, Phase::Start, answers)[2] is Reconcile,
        command is Clean ==> actions(command, Phase::Start, answers)[2] is Finish,
{
    assert(answers.take(0) == Seq::<Option<bool>>::empty());
    lemma_action_at(command, Phase::Start, answers, 0);
    lemma_action_at(command, Phase::Start, answers, 1);
    lemma_action_at(command, Phase::Start, answers, 2);
}

/// Without the force flag and without a confirming answer, a deleting
/// command asks, aborts, and changes nothing: no step of the run deletes
/// or reconciles, whatever is answered later.
pub proof fn lemma_declined_run_changes_nothing(command: InitCommand, answers: Seq<Option<bool>>)
    requires
        deletes(command),
        !is_forced(command),
        answers.len() >= 2,
        answers[1] != Some(true),
    ensures
        actions(command, Phase::Start, answers).len() == answers.len(),
        actions(command, Phase::Start, answers)[0] is AskConfirmation,
        actions(command, Phase::Start, answers)[1] is Abort,
        forall|i: int|
            0 <= i < answers.len() ==> !(#[trigger] actions(command, Phase::Start, answers)[i]
                is DeleteAll) && !(actions(command, Phase::Start, answers)[i] is Reconcile),
{
    let all = actions(command, Phase::Start, answers);
    assert(answers.take(0) == Seq::<Option<bool>>::empty());
    lemma_action_at(command, Phase::Start, answers, 0);
    lemma_action_at(command, Phase::Start, answers, 1);
    assert forall|i: int| 0 <= i < answers.len() implies !(#[trigger] all[i] is DeleteAll) && !(
    all[i] is Reconcile) by {
        if i >= 2 {
            lemma_declined_phase(command, answers, i);
            lemma_action_at(command, Phase::Start, answers, i);
        }
    }
}

proof fn lemma_declined_phase(command: InitCommand, answers: Seq<Option<bool>>, i: int)
    requires
        deletes(command),
        !is_forced(command),
        2 <= i <= answers.len(),
        answers[1] != Some(true),
    ensures
        phase_after(command, Phase::Start, answers.take(i)) is Finished,
    decreases i,
{
    assert(answers.take(0) == Seq::<Option<bool>>::empty());
    lemma_action_at(command, Phase::Start, answers, 0);
    lemma_action_at(command, Phase::Start, answers, 1);
    if i > 2 {
        lemma_declined_phase(command, answers, i - 1);
        lemma_action_at(command, Phase::Start, answers, i - 1);
    }
}

} // verus!
