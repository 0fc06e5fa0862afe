//! The submodule inventory and the plans that reconcile it with the disk.
//!
//! The submodules file is free text. A line declares a submodule iff it
//! contains `path = `; the declared path is what follows the first
//! `path = ` of the line, without surrounding white space. Every other line
//! is ignored.

use crate::error::ToolError;
use crate::helpers::filesystem::dir::{
    absolute_path, entry_of, get_absolute_path, map_dirs, SubmoduleEntry,
};
use crate::models::app_config::AppConfigFile;
use crate::text::{
    append_text, chars_of, find, find_in, lemma_filter_map_concat, lemma_find_is_first, lines,
    occurs_at, split_lines, string_of, texts, trim, trim_bounds,
};
use vstd::prelude::*;

verus! {

/// The text `path = `.
pub open spec fn path_marker() -> Seq<char> {
    seq!['p', 'a', 't', 'h', ' ', '=', ' ']
}

/// The path that `line` declares, if it declares one.
pub open spec fn declared_path(line: Seq<char>) -> Option<Seq<char>> {
    match find(line, path_marker()) {
        Some(at) => Some(trim(line.skip(at + path_marker().len()))),
        None => None,
    }
}

/// The paths that `content` declares: one for each declaring line, in the
/// order of the lines.
pub open spec fn declared_paths(content: Seq<char>) -> Seq<Seq<char>> {
    lines(content).filter_map(|line: Seq<char>| declared_path(line))
}

/// Whether `entries` is the inventory of the declared paths `declared`
/// under `project_path`: one entry for each path, in order. The existence
/// flags are the file system's to give.
pub open spec fn is_inventory(
    entries: Seq<SubmoduleEntry>,
    project_path: Seq<char>,
    declared: Seq<Seq<char>>,
) -> bool {
    &&& entries.len() == declared.len()
    &&& forall|i: int|
        0 <= i < entries.len() ==> entry_of(#[trigger] entries[i], project_path, declared[i])
}

/// The outcome of one run of the update command.
#[derive(Clone, Copy, Debug, PartialEq, Eq, Structural)]
pub enum UpdateOutcome {
    /// The command ran and exited with success.
    Succeeded,
    /// The command ran and exited with a failing status.
    Failed,
    /// The command could not be started.
    NotStarted,
}

/// One effect of a reconciliation, for the caller to perform.
#[derive(Clone, Copy, Debug, PartialEq, Eq, Structural)]
pub enum ReconcileStep {
    /// Print the line of entry `index`.
    Report { index: usize },
    /// Run the update command for the missing entry `index`.
    Update { index: usize },
}

/// What a reconciliation reports.
#[derive(Clone, Copy, Debug, PartialEq, Eq, Structural)]
pub struct ReconcileResult {
    /// Whether any entry was missing, and so an update was attempted.
    pub any_missing: bool,
}

/// The effects of a reconciliation, in order, and its result.
#[derive(Debug, PartialEq)]
pub struct ReconcilePlan {
    pub steps: Vec<ReconcileStep>,
    pub result: ReconcileResult,
}

/// The command that materializes missing submodules.
#[derive(Debug, PartialEq)]
pub struct UpdateCommand {
    pub program: String,
    pub args: Vec<String>,
    /// The directory to run it in: the project root.
    pub working_dir: String,
}

/// What removing every submodule directory came to.
#[derive(Debug, PartialEq)]
pub struct DeleteReport {
    /// Whether the last removal succeeded; `false` where nothing was
    /// removed.
    pub success: bool,
    /// The indices of the entries whose removal failed, ascending.
    pub failed: Vec<usize>,
}

/// How far the project is initialized.
#[derive(Clone, Copy, Debug, PartialEq, Eq, Structural)]
pub enum ProjectState {
    /// Submodules are declared, and none of them is present.
    Uninitialized,
    /// Some submodules are present and some are missing.
    PartiallyInitialized,
    /// Every declared submodule is present.
    Initialized,
}

/// The steps for the entries before index `upto`: each entry is reported,
/// and a missing one is updated right after its report.
pub open spec fn reconcile_steps(entries: Seq<SubmoduleEntry>, upto: int) -> Seq<ReconcileStep>
    decreases upto,
{
    if upto <= 0 {
        Seq::empty()
    } else {
        let index = (upto - 1) as usize;
        let before = reconcile_steps(entries, upto - 1).push(ReconcileStep::Report { index });
        if entries[upto - 1].exists {
            before
        } else {
            before.push(ReconcileStep::Update { index })
        }
    }
}

/// Whether an entry before index `upto` is missing.
pub open spec fn any_missing(entries: Seq<SubmoduleEntry>, upto: int) -> bool {
    exists|i: int| 0 <= i < upto && !(#[trigger] entries[i]).exists
}

/// The number of entries before index `upto` that are missing.
pub open spec fn missing_count(entries: Seq<SubmoduleEntry>, upto: int) -> nat
    decreases upto,
{
    if upto <= 0 {
        0
    } else if entries[upto - 1].exists {
        missing_count(entries, upto - 1)
    } else {
        missing_count(entries, upto - 1) + 1
    }
}

/// The number of update steps among `steps`.
pub open spec fn update_count(steps: Seq<ReconcileStep>) -> nat {
    steps.filter(|s: ReconcileStep| s is Update).len()
}

/// The state of a project with the inventory `entries`.
pub open spec fn state_of(entries: Seq<SubmoduleEntry>) -> ProjectState {
    if !any_missing(entries, entries.len() as int) {
        ProjectState::Initialized
    } else if exists|i: int| 0 <= i < entries.len() && (#[trigger] entries[i]).exists {
        ProjectState::PartiallyInitialized
    } else {
        ProjectState::Uninitialized
    }
}

/// The indices before `upto` at which `removed` is `false`.
pub open spec fn failed_removals(removed: Seq<bool>, upto: int) -> Seq<usize>
    decreases upto,
{
    if upto <= 0 {
        Seq::empty()
    } else if removed[upto - 1] {
        failed_removals(removed, upto - 1)
    } else {
        failed_removals(removed, upto - 1).push((upto - 1) as usize)
    }
}

/// The aggregate of a deletion sweep: the outcome of the last removal.
pub open spec fn last_removed(removed: Seq<bool>) -> bool {
    removed.len() > 0 && removed.last()
}

/// The line that reports `entry`: its resolved path, its declared path and
/// its existence flag, separated by ` - `.
pub open spec fn entry_line(entry: SubmoduleEntry) -> Seq<char> {
    entry.absolute_path@ + seq![' ', '-', ' '] + entry.declared_path@ + seq![' ', '-', ' '] + (
    if entry.exists {
        seq!['t', 'r', 'u', 'e']
    } else {
        seq!['f', 'a', 'l', 's', 'e']
    })
}

/// Whether `line` contains the text `path = `.
pub open spec fn declares(line: Seq<char>) -> bool {
    exists|at: int| occurs_at(line, path_marker(), at)
}

/// A line declares a path iff it contains `path = `.
pub proof fn lemma_declaring_lines(line: Seq<char>)
    ensures
        declared_path(line) is Some <==> declares(line),
{
    lemma_find_is_first(line, path_marker());
}

/// The inventory has one path for each declaring line: as many paths are
/// declared as there are lines that contain `path = `.
pub proof fn lemma_one_path_per_declaring_line(content: Seq<char>)
    ensures
        declared_paths(content).len() == lines(content).filter(
            |line: Seq<char>| declares(line),
        ).len(),
{
    lemma_filter_map_counts(lines(content));
}

proof fn lemma_filter_map_counts(all: Seq<Seq<char>>)
    ensures
        all.filter_map(|line: Seq<char>| declared_path(line)).len() == all.filter(
            |line: Seq<char>| declares(line),
        ).len(),
    decreases all.len(),
{
    let pick = |line: Seq<char>| declared_path(line);
    let holds = |line: Seq<char>| declares(line);
    if all.len() == 0 {
        assert(all.filter(holds).len() <= all.len()) by {
            all.lemma_filter_len(holds);
        }
    } else {
        lemma_filter_map_counts(all.drop_last());
        lemma_declaring_lines(all.last());
        all.drop_last().lemma_filter_push(all.last(), holds);
        assert(all.drop_last().push(all.last()) == all);
    }
}

/// The paths come in the order of their lines: the paths of a text in two
/// parts, cut behind a line feed, are those of the first part followed by
/// those of the second.
pub proof fn lemma_paths_keep_line_order(head: Seq<char>, tail: Seq<char>)
    requires
        head.len() > 0,
        head.last() == '\n',
    ensures
        declared_paths(head + tail) == declared_paths(head) + declared_paths(tail),
{
    crate::text::lemma_lines_concat(head, tail);
    lemma_filter_map_concat(lines(head), lines(tail), |line: Seq<char>| declared_path(line));
}

/// The update command is planned once for each missing entry, and the
/// result reports a missing entry iff there is such an update. Every entry
/// is reported once.
pub proof fn lemma_one_update_per_missing_entry(entries: Seq<SubmoduleEntry>, upto: int)
    requires
        0 <= upto <= entries.len(),
    ensures
        update_count(reconcile_steps(entries, upto)) == missing_count(entries, upto),
        any_missing(entries, upto) <==> missing_count(entries, upto) > 0,
        reconcile_steps(entries, upto).len() == upto + missing_count(entries, upto),
    decreases upto,
{
    let updates = |s: ReconcileStep| s is Update;
    if upto == 0 {
        assert(reconcile_steps(entries, upto).filter(updates).len() <= 0) by {
            reconcile_steps(entries, upto).lemma_filter_len(updates);
        }
    } else {
        lemma_one_update_per_missing_entry(entries, upto - 1);
        let index = (upto - 1) as usize;
        let before = reconcile_steps(entries, upto - 1);
        let reported = before.push(ReconcileStep::Report { index });
        before.lemma_filter_push(ReconcileStep::Report { index }, updates);
        reported.lemma_filter_push(ReconcileStep::Update { index }, updates);
        if any_missing(entries, upto) {
            let i = choose|i: int| 0 <= i < upto && !(#[trigger] entries[i]).exists;
            if i < upto - 1 {
                assert(any_missing(entries, upto - 1));
            }
        }
        if missing_count(entries, upto) > 0 {
            if !entries[upto - 1].exists {
                assert(any_missing(entries, upto));
            } else {
                let i = choose|i: int| 0 <= i < upto - 1 && !(#[trigger] entries[i]).exists;
                assert(0 <= i < upto && !entries[i].exists);
            }
        }
    }
}

/// A project is initialized iff its reconciliation has nothing to update.
pub proof fn lemma_initialized_needs_no_update(entries: Seq<SubmoduleEntry>)
    ensures
        state_of(entries) is Initialized <==> update_count(
            reconcile_steps(entries, entries.len() as int),
        ) == 0,
{
    lemma_one_update_per_missing_entry(entries, entries.len() as int);
}

/// A reconciliation depends on the existence flags alone. Two inventories
/// with the same flags, as two runs with no change on disk between them
/// take, have the same steps and the same result; and where nothing is
/// missing no update is planned and the result reports nothing missing.
pub proof fn lemma_reconcile_repeats(first: Seq<SubmoduleEntry>, second: Seq<SubmoduleEntry>)
    requires
        first.len() == second.len(),
        forall|i: int| 0 <= i < first.len() ==> first[i].exists == second[i].exists,
    ensures
        reconcile_steps(first, first.len() as int) == reconcile_steps(
            second,
            second.len() as int,
        ),
        any_missing(first, first.len() as int) == any_missing(second, second.len() as int),
        (forall|i: int| 0 <= i < first.len() ==> first[i].exists) ==> !any_missing(
            second,
            second.len() as int,
        ) && update_count(reconcile_steps(second, second.len() as int)) == 0,
{
    lemma_same_flags_same_steps(first, second, first.len() as int);
    lemma_one_update_per_missing_entry(second, second.len() as int);
    if any_missing(first, first.len() as int) {
        let i = choose|i: int| 0 <= i < first.len() && !(#[trigger] first[i]).exists;
        assert(!second[i].exists);
    }
    if any_missing(second, second.len() as int) {
        let i = choose|i: int| 0 <= i < second.len() && !(#[trigger] second[i]).exists;
        assert(!first[i].exists);
    }
}

proof fn lemma_same_flags_same_steps(
    first: Seq<SubmoduleEntry>,
    second: Seq<SubmoduleEntry>,
    upto: int,
)
    requires
        0 <= upto <= first.len() == second.len(),
        forall|i: int| 0 <= i < first.len() ==> first[i].exists == second[i].exists,
    ensures
        reconcile_steps(first, upto) == reconcile_steps(second, upto),
    decreases upto,
{
    if upto > 0 {
        lemma_same_flags_same_steps(first, second, upto - 1);
    }
}

/// The failures of a sweep are listed in ascending order, each names an
/// entry whose removal failed, and every such entry is listed.
pub proof fn lemma_failed_removals(removed: Seq<bool>, upto: int)
    requires
        0 <= upto <= removed.len() <= usize::MAX,
    ensures
        forall|k: int|
            0 <= k < failed_removals(removed, upto).len() ==> 0 <= (#[trigger] failed_removals(
                removed,
                upto,
            )[k]) < upto && !removed[failed_removals(removed, upto)[k] as int],
        forall|j: int, k: int|
            0 <= j < k < failed_removals(removed, upto).len() ==> failed_removals(
                removed,
                upto,
            )[j] < failed_removals(removed, upto)[k],
        forall|i: int|
            0 <= i < upto && !removed[i] ==> failed_removals(removed, upto).contains(i as usize),
    decreases upto,
{
    if upto > 0 {
        lemma_failed_removals(removed, upto - 1);
        let before = failed_removals(removed, upto - 1);
        let now = failed_removals(removed, upto);
        assert forall|i: int| 0 <= i < upto && !removed[i] implies now.contains(i as usize) by {
            if i < upto - 1 {
                let k = choose|k: int| 0 <= k < before.len() && before[k] == i as usize;
                assert(now[k] == i as usize);
            } else {
                assert(now[now.len() - 1] == i as usize);
            }
        }
    }
}

/// Reads one line of a submodules file: the path that it declares, if it
/// declares one.
pub fn parse_declared_path(line: &str) -> (path: Option<String>)
    ensures
        path is Some <==> declared_path(line@) is Some,
        path is Some ==> Some(path->0@) == declared_path(line@),
{
    let chars = chars_of(line);
    let marker = chars_of("path = ");
    proof {
        reveal_strlit("path = ");
        assert(marker@ =~= path_marker());
        assert(chars@.subrange(0, chars@.len() as int) == chars@);
    }
    match find_in(&chars, 0, chars.len(), &marker) {
        Some(at) => {
            let (a, b) = trim_bounds(&chars, at + marker.len(), chars.len());
            proof {
                assert(chars@.skip(at + path_marker().len()) == chars@.subrange(
                    at + marker.len(),
                    chars@.len() as int,
                ));
            }
            Some(string_of(&chars, a, b))
        },
        None => None,
    }
}

/// Reads the declared submodule paths out of the text of a submodules file.
pub fn parse_submodule_paths(content: &str) -> (paths: Vec<String>)
    ensures
        texts(paths@) == declared_paths(content@),
{
    let all = split_lines(content);
    let ghost pick = |line: Seq<char>| declared_path(line);
    let mut paths: Vec<String> = Vec::new();
    let mut i: usize = 0;
    proof {
        assert(texts(paths@) == Seq::<Seq<char>>::empty());
        assert(texts(all@).take(0) == Seq::<Seq<char>>::empty());
    }
    while i < all.len()
        invariant
            i <= all.len(),
            texts(all@) == lines(content@),
            pick == |line: Seq<char>| declared_path(line),
            texts(paths@) == texts(all@).take(i as int).filter_map(pick),
        decreases all.len() - i,
    {
        let ghost before = texts(paths@);
        proof {
            texts(all@).lemma_filter_map_take_succ(pick, i as int);
            assert(texts(all@)[i as int] == all@[i as int]@);
        }
        match parse_declared_path(all[i].as_str()) {
            Some(path) => {
                proof {
                    assert(texts(paths@.push(path)) == before.push(path@));
                }
                paths.push(path);
            },
            None => {},
        }
        i += 1;
    }
    proof {
        assert(texts(all@).take(all@.len() as int) == texts(all@));
    }
    paths
}

/// The path of the submodules file that `config` names.
pub fn submodules_file(config: &AppConfigFile) -> (path: String)
    ensures
        path@ == absolute_path(config.project_path@, config.gitmodules@),
{
    get_absolute_path(config, config.gitmodules.as_str())
}

/// Takes the inventory: one entry for each path that the submodules file
/// declares, in order. `content` is the text of the file, or `None` where
/// it could not be read.
pub fn get_submodule_paths(config: &AppConfigFile, content: Option<&str>) -> (inventory: Result<
    Vec<SubmoduleEntry>,
    ToolError,
>)
    ensures
        content is None <==> inventory == Err::<Vec<SubmoduleEntry>, ToolError>(
            ToolError::SubmodulesFileMissing,
        ),
        content is Some ==> inventory is Ok && is_inventory(
            inventory->Ok_0@,
            config.project_path@,
            declared_paths(content->0@),
        ),
{
    match content {
        None => Err(ToolError::SubmodulesFileMissing),
        Some(text) => {
            let paths = parse_submodule_paths(text);
            let entries = map_dirs(config, &paths);
            proof {
                assert forall|i: int| 0 <= i < entries@.len() implies entry_of(
                    #[trigger] entries@[i],
                    config.project_path@,
                    declared_paths(text@)[i],
                ) by {
                    assert(texts(paths@)[i] == paths@[i]@);
                }
                assert(texts(paths@).len() == paths@.len());
            }
            Ok(entries)
        },
    }
}

/// Plans the reconciliation of the inventory: every entry is reported, and
/// for every entry that does not exist the update command is to be run,
/// whatever became of the runs before it. The result says whether any entry
/// was missing; it does not wait for the outcome of an update.
pub fn check_if_submodule_init_run_needed(sub_module_paths: &Vec<SubmoduleEntry>) -> (plan:
    ReconcilePlan)
    ensures
        plan.steps@ == reconcile_steps(sub_module_paths@, sub_module_paths@.len() as int),
        plan.result.any_missing == any_missing(sub_module_paths@, sub_module_paths@.len() as int),
{
    let mut steps: Vec<ReconcileStep> = Vec::new();
    let mut missing = false;
    let mut i: usize = 0;
    while i < sub_module_paths.len()
        invariant
            i <= sub_module_paths.len(),
            steps@ == reconcile_steps(sub_module_paths@, i as int),
            missing == any_missing(sub_module_paths@, i as int),
        decreases sub_module_paths.len() - i,
    {
        steps.push(ReconcileStep::Report { index: i });
        if !sub_module_paths[i].exists {
            steps.push(ReconcileStep::Update { index: i });
            missing = true;
        }
        i += 1;
    }
    ReconcilePlan { steps, result: ReconcileResult { any_missing: missing } }
}

/// The line to print for one entry of the inventory.
pub fn report_line(entry: &SubmoduleEntry) -> (line: String)
    ensures
        line@ == entry_line(*entry),
{
    let mut line = String::new();
    append_text(&mut line, entry.absolute_path.as_str());
    proof {
        reveal_strlit(" - ");
        reveal_strlit("true");
        reveal_strlit("false");
        assert(" - "@ =~= seq![' ', '-', ' ']);
        assert("true"@ =~= seq!['t', 'r', 'u', 'e']);
        assert("false"@ =~= seq!['f', 'a', 'l', 's', 'e']);
    }
    append_text(&mut line, " - ");
    append_text(&mut line, entry.declared_path.as_str());
    append_text(&mut line, " - ");
    if entry.exists {
        append_text(&mut line, "true");
    } else {
        append_text(&mut line, "false");
    }
    line
}

/// The errors that one run of the update command leaves for the error
/// stream: none after a success.
pub fn update_diagnostic(outcome: UpdateOutcome) -> (message: Option<&'static str>)
    ensures
        match outcome {
            UpdateOutcome::Succeeded => message is None,
            UpdateOutcome::Failed => message is Some && message->0@
                == "Command executed with failing error code"@,
            UpdateOutcome::NotStarted => message is Some && message->0@
                == "Failed to run git submodule update --init --recursive"@,
        },
{
    match outcome {
        UpdateOutcome::Succeeded => None,
        UpdateOutcome::Failed => Some("Command executed with failing error code"),
        UpdateOutcome::NotStarted => Some("Failed to run git submodule update --init --recursive"),
    }
}

/// The failure that one run of the update command comes to: none after a
/// success. It is the failure of one entry, and does not stop the sweep.
pub fn update_failure(outcome: UpdateOutcome) -> (failure: Option<ToolError>)
    ensures
        failure == (if outcome is Succeeded {
            None
        } else {
            Some(ToolError::SubmoduleUpdateFailed)
        }),
{
    match outcome {
        UpdateOutcome::Succeeded => None,
        _ => Some(ToolError::SubmoduleUpdateFailed),
    }
}

/// The failure that one removal comes to: none where the directory was
/// removed. It is the failure of one entry, and does not stop the sweep.
pub fn removal_failure(removed: bool) -> (failure: Option<ToolError>)
    ensures
        failure == (if removed {
            None
        } else {
            Some(ToolError::DirectoryRemovalFailed)
        }),
{
    if removed {
        None
    } else {
        Some(ToolError::DirectoryRemovalFailed)
    }
}

/// The update command for the project of `config`:
/// `git submodule update --init --recursive`, run in the project root.
pub fn update_command(config: &AppConfigFile) -> (command: UpdateCommand)
    ensures
        command.program@ == "git"@,
        texts(command.args@) == seq!["submodule"@, "update"@, "--init"@, "--recursive"@],
        command.working_dir@ == config.project_path@,
{
    let mut program = String::new();
    append_text(&mut program, "git");
    let mut args: Vec<String> = Vec::new();
    let mut arg = String::new();
    append_text(&mut arg, "submodule");
    args.push(arg);
    let mut arg = String::new();
    append_text(&mut arg, "update");
    args.push(arg);
    let mut arg = String::new();
    append_text(&mut arg, "--init");
    args.push(arg);
    let mut arg = String::new();
    append_text(&mut arg, "--recursive");
    args.push(arg);
    assert(texts(args@) =~= seq!["submodule"@, "update"@, "--init"@, "--recursive"@]);
    UpdateCommand { program, args, working_dir: config.project_path.clone() }
}

/// The directories that a deletion sweep removes, one for each entry, in
/// order: the declared path of the entry, resolved against the project
/// root.
pub fn deletion_targets(config: &AppConfigFile, entries: &Vec<SubmoduleEntry>) -> (targets: Vec<
    String,
>)
    ensures
        targets@.len() == entries@.len(),
        forall|i: int|
            0 <= i < entries@.len() ==> (#[trigger] targets@[i])@ == absolute_path(
                config.project_path@,
                entries@[i].declared_path@,
            ),
{
    let mut targets: Vec<String> = Vec::new();
    let mut i: usize = 0;
    while i < entries.len()
        invariant
            i <= entries.len(),
            targets@.len() == i,
            forall|k: int|
                0 <= k < i ==> (#[trigger] targets@[k])@ == absolute_path(
                    config.project_path@,
                    entries@[k].declared_path@,
                ),
        decreases entries.len() - i,
    {
        targets.push(get_absolute_path(config, entries[i].declared_path.as_str()));
        i += 1;
    }
    targets
}

/// Classifies the project by its inventory.
pub fn project_state(entries: &Vec<SubmoduleEntry>) -> (state: ProjectState)
    ensures
        state == state_of(entries@),
{
    let mut missing = false;
    let mut present = false;
    let mut i: usize = 0;
    while i < entries.len()
        invariant
            i <= entries.len(),
            missing == any_missing(entries@, i as int),
            present == (exists|k: int| 0 <= k < i && (#[trigger] entries@[k]).exists),
        decreases entries.len() - i,
    {
        if entries[i].exists {
            present = true;
        } else {
            missing = true;
        }
        i += 1;
    }
    if !missing {
        ProjectState::Initialized
    } else if present {
        ProjectState::PartiallyInitialized
    } else {
        ProjectState::Uninitialized
    }
}

/// Sums up a deletion sweep. `removed` holds, for each entry in order,
/// whether its directory tree was removed. The sweep is best effort: a
/// failure does not stop it, and `success` is the outcome of the last
/// removal alone. The failures are listed one by one.
pub fn delete_all_submodules(removed: &Vec<bool>) -> (report: DeleteReport)
    ensures
        report.success == last_removed(removed@),
        report.failed@ == failed_removals(removed@, removed@.len() as int),
{
    let mut success = false;
    let mut failed: Vec<usize> = Vec::new();
    let mut i: usize = 0;
    while i < removed.len()
        invariant
            i <= removed.len(),
            success == (i > 0 && removed@[i - 1]),
            failed@ == failed_removals(removed@, i as int),
        decreases removed.len() - i,
    {
        if removed[i] {
            success = true;
        } else {
            failed.push(i);
            success = false;
        }
        i += 1;
    }
    DeleteReport { success, failed }
}

/// The line that one removal leaves: for the output stream after a success,
/// for the error stream after a failure.
pub fn removal_message(entry: &SubmoduleEntry, removed: bool) -> (message: String)
    ensures
        message@ == (if removed {
            "Removed submodule "@
        } else {
            "Failed to remove submodule "@
        }) + entry.absolute_path@,
{
    let mut message = String::new();
    if removed {
        append_text(&mut message, "Removed submodule ");
    } else {
        append_text(&mut message, "Failed to remove submodule ");
    }
    append_text(&mut message, entry.absolute_path.as_str());
    message
}

} // verus!
