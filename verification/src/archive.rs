//! One archive run, as a machine that is driven from outside.
//!
//! The machine hands out one action at a time and is told what came of it.
//! It decides; it neither reads the clock nor touches a file. A run that
//! fails is over: nothing is retried and nothing is undone.

use vstd::prelude::*;
use crate::changes::{file_paths, files_of, ChangeList, Changes};
use crate::error::SyncError;
use crate::moves::with_moves_extracted;
use crate::report::collected;
use crate::scanner::{
    count_stamps, latest_of, latest_stamp, parsed_names, read_names, snapshot_count,
};
use crate::sizes::{measured, FileSizes};
use crate::text::texts;
use crate::timestamp::{format_timestamp, formatted_timestamp, Timestamp};
use crate::transfer::{
    apply_command, check_tool_run, extract_line, extract_verdict, read_extracted_diff,
    rsync_apply_diff, rsync_extract_diff, tool_verdict, RsyncDirection,
};
use crate::util::{
    copy_line, fs_copy, fs_move, join_path, joined, move_line, with_trailing_slash, Command,
    CommandLine, CpMvMode,
};

verus! {

/// How a run stands to the snapshots that exist when it begins.
#[derive(Clone, Copy, Debug, PartialEq, Eq, Structural)]
pub enum RunState {
    /// The archive holds no snapshot yet.
    NoPriorSnapshot,
    /// The latest snapshot is of today and is not the only one: it may be
    /// re-labelled in place of being copied.
    FastForwardable,
    /// The latest snapshot stays as it is, and the run works on a copy.
    MustFork,
}

/// The state of a run whose latest snapshot is `latest`, in an archive of
/// `count` snapshots, at the time `now`. The only snapshot of an archive is
/// never re-labelled, whatever its date: it is the only earlier copy there is.
pub open spec fn run_state_of(latest: Option<Timestamp>, count: nat, now: Timestamp) -> RunState {
    match latest {
        None => RunState::NoPriorSnapshot,
        Some(t) => if t.local_day() == now.local_day() && count > 1 {
            RunState::FastForwardable
        } else {
            RunState::MustFork
        },
    }
}

/// With exactly one snapshot a run never fast-forwards; with more than one,
/// and the latest of today, it does.
pub proof fn lemma_fast_forward_eligibility(latest: Option<Timestamp>, count: nat, now: Timestamp)
    ensures
        count == 1 ==> run_state_of(latest, count, now) != RunState::FastForwardable,
        count > 1 && latest is Some && latest->0.local_day() == now.local_day() ==> run_state_of(
            latest,
            count,
            now,
        ) == RunState::FastForwardable,
{
}

/// The state of a run, given the latest snapshot, the number of snapshots
/// and the time.
pub fn resolve_run_state(latest: Option<Timestamp>, count: usize, now: &Timestamp) -> (state:
    RunState)
    ensures
        state == run_state_of(latest, count as nat, *now),
{
    match latest {
        None => RunState::NoPriorSnapshot,
        Some(t) => if t.same_local_day(now) && count > 1 {
            RunState::FastForwardable
        } else {
            RunState::MustFork
        },
    }
}

/// What a run waits for.
#[derive(Clone, Copy, Debug, PartialEq, Eq, Structural)]
pub enum Stage {
    /// Nothing yet: the run has not begun.
    Idle,
    /// The names of the archive's directories, and the time.
    Scan,
    /// The making of the first, empty snapshot.
    Baseline,
    /// The tool's report on what differs.
    Extract,
    /// The sizes of the files that were deleted and transferred.
    Measure,
    /// The copy or the renaming of the latest snapshot.
    Place,
    /// The tool's report on applying the difference.
    Apply,
    /// The writing of the audit file.
    Audit,
    /// Nothing more: the run is over.
    Done,
}

/// How a run ended that did not fail.
#[derive(Clone, Copy, Debug, PartialEq, Eq, Structural)]
pub enum Outcome {
    /// The working tree is as the latest snapshot has it.
    Unchanged,
    /// A snapshot of the working tree was made.
    Archived,
}

/// A run as contracts see it.
#[verifier::ext_equal]
pub struct RunView {
    pub working_dir: Seq<char>,
    pub local_archive: Seq<char>,
    pub exclude_file: Seq<char>,
    pub date_format: Seq<char>,
    pub stage: Stage,
    pub fast_forward: bool,
    pub latest_path: Seq<char>,
    pub run_name: Seq<char>,
    pub changes: Option<Changes>,
}

/// A run: the trees and the pattern it was begun with, what it waits for,
/// and what it has found so far.
#[derive(Debug)]
pub struct ArchiveRun {
    pub working_dir: String,
    pub local_archive: String,
    pub exclude_file: String,
    pub date_format: String,
    pub stage: Stage,
    /// Whether the latest snapshot is renamed in place of being copied.
    pub fast_forward: bool,
    /// The directory of the latest snapshot.
    pub latest_path: String,
    /// The timestamp of this run under the pattern: the name of its
    /// snapshot, of its batch file and of its audit file.
    pub run_name: String,
    /// What the run found changed, once it knows.
    pub changes: Option<ChangeList>,
}

impl View for ArchiveRun {
    type V = RunView;

    open spec fn view(&self) -> RunView {
        RunView {
            working_dir: self.working_dir@,
            local_archive: self.local_archive@,
            exclude_file: self.exclude_file@,
            date_format: self.date_format@,
            stage: self.stage,
            fast_forward: self.fast_forward,
            latest_path: self.latest_path@,
            run_name: self.run_name@,
            changes: match self.changes {
                Some(c) => Some(c@),
                None => None,
            },
        }
    }
}

/// What the machine asks for, as contracts see it.
pub enum ActionView {
    ListSnapshots { archive: Seq<char> },
    CreateDir { path: Seq<char> },
    Run { command: CommandLine },
    Measure { archived: Seq<Seq<char>>, working: Seq<Seq<char>> },
    WriteAudit { path: Seq<char>, record: Changes },
    Finish { result: Result<Outcome, SyncError> },
}

/// What the machine asks for.
#[derive(Debug)]
pub enum Action {
    /// Read the names of the directories in `archive`, and the clock.
    /// Answered by `Event::Listed`.
    ListSnapshots { archive: String },
    /// Make the directory `path`. Answered by `Event::Done`.
    CreateDir { path: String },
    /// Run the command to its end. Answered by `Event::Ran`.
    Run { command: Command },
    /// Measure the files at the paths. Answered by `Event::Measured`.
    Measure { archived: Vec<String>, working: Vec<String> },
    /// Write `record` to the file `path`. Answered by `Event::Done`.
    WriteAudit { path: String, record: ChangeList },
    /// Stop: the run is over.
    Finish { result: Result<Outcome, SyncError> },
}

impl View for Action {
    type V = ActionView;

    open spec fn view(&self) -> ActionView {
        match self {
            Action::ListSnapshots { archive } => ActionView::ListSnapshots { archive: archive@ },
            Action::CreateDir { path } => ActionView::CreateDir { path: path@ },
            Action::Run { command } => ActionView::Run { command: command@ },
            Action::Measure { archived, working } => ActionView::Measure {
                archived: texts(archived@),
                working: texts(working@),
            },
            Action::WriteAudit { path, record } => ActionView::WriteAudit {
                path: path@,
                record: record@,
            },
            Action::Finish { result } => ActionView::Finish { result: *result },
        }
    }
}

/// What came of an action.
#[derive(Debug)]
pub enum Event {
    /// The run is to begin.
    Start,
    /// The directories that the archive holds, by name, and the time.
    Listed { names: Vec<String>, now: Timestamp },
    /// The directory was made, or the file written.
    Done,
    /// The command ran: whether its exit status was zero, and what it
    /// printed.
    Ran { success: bool, output: String },
    /// The sizes of the files, in the order in which they were asked for;
    /// `None` for a file that could not be measured.
    Measured { archived: Vec<Option<u64>>, working: Vec<Option<u64>> },
    /// The action could not be carried out.
    Failed { error: SyncError },
}

pub open spec fn under(root: Seq<char>) -> spec_fn(Seq<char>) -> Seq<char> {
    |path: Seq<char>| joined(root, path)
}

/// The paths as seen from `root`.
pub open spec fn paths_under(root: Seq<char>, paths: Seq<Seq<char>>) -> Seq<Seq<char>> {
    paths.map_values(under(root))
}

impl RunView {
    /// The batch file of the run.
    pub open spec fn diff_file(self) -> Seq<char> {
        joined(self.local_archive, self.run_name + ".diff"@)
    }

    /// The audit file of the run.
    pub open spec fn audit_file(self) -> Seq<char> {
        joined(self.local_archive, self.run_name + ".changes"@)
    }

    /// The directory of the run's snapshot.
    pub open spec fn new_snapshot(self) -> Seq<char> {
        joined(self.local_archive, self.run_name)
    }

    /// The run, over.
    pub open spec fn stopped(self, result: Result<Outcome, SyncError>) -> (RunView, ActionView) {
        (RunView { stage: Stage::Done, ..self }, ActionView::Finish { result })
    }

    /// The run, waiting for `stage`.
    pub open spec fn waiting(self, stage: Stage) -> RunView {
        RunView { stage, ..self }
    }

    /// The extraction of what differs between the working tree and the
    /// latest snapshot.
    pub open spec fn extraction(self) -> ActionView {
        ActionView::Run {
            command: extract_line(
                seq![with_trailing_slash(self.working_dir), self.latest_path],
                self.diff_file(),
                self.exclude_file,
            ),
        }
    }

    /// The making of the run's snapshot out of the latest one: by renaming
    /// where the run fast-forwards, else by a copy that leaves the latest
    /// snapshot as it is.
    pub open spec fn placing(self) -> ActionView {
        ActionView::Run {
            command: if self.fast_forward {
                move_line(self.latest_path, self.new_snapshot())
            } else {
                copy_line(true, self.latest_path, self.new_snapshot())
            },
        }
    }

    /// What follows the listing of the archive. The latest snapshot is
    /// found under the name that its timestamp has under the pattern. An
    /// archive without snapshots gets an empty one first, dated one second
    /// before the run, and the run then forks it.
    pub open spec fn after_listing(self, names: Seq<Seq<char>>, now: Timestamp) -> (
        RunView,
        ActionView,
    ) {
        let stamps = parsed_names(names, self.date_format);
        let latest = latest_of(stamps);
        let state = run_state_of(latest, snapshot_count(stamps), now);
        let base = match latest {
            Some(t) => Some(t),
            None => if now.secs > i64::MIN {
                Some(now.second_before())
            } else {
                None
            },
        };
        let base_name = match base {
            Some(t) => formatted_timestamp(t, self.date_format),
            None => None,
        };
        match (formatted_timestamp(now, self.date_format), base_name) {
            (Some(run_name), Some(latest_name)) => {
                let next = RunView {
                    run_name,
                    latest_path: joined(self.local_archive, latest_name),
                    fast_forward: state == RunState::FastForwardable,
                    ..self
                };
                if latest is None {
                    (
                        next.waiting(Stage::Baseline),
                        ActionView::CreateDir { path: next.latest_path },
                    )
                } else {
                    (next.waiting(Stage::Extract), next.extraction())
                }
            },
            _ => self.stopped(Err(SyncError::BadDateFormat)),
        }
    }

    /// What follows the extraction: the end of the run where the tool failed
    /// or found nothing changed, and else the measuring of the files that
    /// may have moved.
    pub open spec fn after_extraction(self, success: bool, output: Seq<char>) -> (
        RunView,
        ActionView,
    ) {
        match extract_verdict(success, output) {
            Err(e) => self.stopped(Err(e)),
            Ok(None) => self.stopped(Ok(Outcome::Unchanged)),
            Ok(Some(found)) => (
                RunView { stage: Stage::Measure, changes: Some(found), ..self },
                ActionView::Measure {
                    archived: paths_under(self.latest_path, file_paths(found.deleted)),
                    working: paths_under(self.working_dir, file_paths(found.changed)),
                },
            ),
        }
    }

    /// What follows the measuring: the moves are recognised, and the run's
    /// snapshot is made.
    pub open spec fn after_measuring(
        self,
        archived: Seq<Option<u64>>,
        working: Seq<Option<u64>>,
    ) -> (RunView, ActionView) {
        match self.changes {
            Some(found) => (
                RunView {
                    stage: Stage::Place,
                    changes: Some(
                        with_moves_extracted(
                            found,
                            measured(file_paths(found.deleted), archived),
                            measured(file_paths(found.changed), working),
                        ),
                    ),
                    ..self
                },
                self.placing(),
            ),
            None => self.stopped(Err(SyncError::UnexpectedEvent)),
        }
    }

    /// What follows the making of the run's snapshot: the difference is
    /// applied to it.
    pub open spec fn after_placing(self, success: bool) -> (RunView, ActionView) {
        if success {
            (
                self.waiting(Stage::Apply),
                ActionView::Run {
                    command: apply_command(
                        self.new_snapshot(),
                        self.diff_file(),
                        self.exclude_file,
                    ),
                },
            )
        } else {
            self.stopped(Err(SyncError::ToolFailed))
        }
    }

    /// What follows the applying: the record is written out.
    pub open spec fn after_applying(self, success: bool, output: Seq<char>) -> (
        RunView,
        ActionView,
    ) {
        match (tool_verdict(success, output), self.changes) {
            (Err(e), _) => self.stopped(Err(e)),
            (Ok(_), Some(found)) => (
                RunView { stage: Stage::Audit, changes: None, ..self },
                ActionView::WriteAudit { path: self.audit_file(), record: found },
            ),
            (Ok(_), None) => self.stopped(Err(SyncError::UnexpectedEvent)),
        }
    }

    /// The next state of the run and the next action, given what came of the
    /// last action. A failure ends the run, and so does an event that does
    /// not answer the last action.
    pub open spec fn next(self, event: Event) -> (RunView, ActionView) {
        match (self.stage, event) {
            (_, Event::Failed { error }) => self.stopped(Err(error)),
            (Stage::Idle, Event::Start) => (
                self.waiting(Stage::Scan),
                ActionView::ListSnapshots { archive: self.local_archive },
            ),
            (Stage::Scan, Event::Listed { names, now }) => self.after_listing(texts(names@), now),
            (Stage::Baseline, Event::Done) => (self.waiting(Stage::Extract), self.extraction()),
            (Stage::Extract, Event::Ran { success, output }) => self.after_extraction(
                success,
                output@,
            ),
            (Stage::Measure, Event::Measured { archived, working }) => self.after_measuring(
                archived@,
                working@,
            ),
            (Stage::Place, Event::Ran { success, output }) => self.after_placing(success),
            (Stage::Apply, Event::Ran { success, output }) => self.after_applying(
                success,
                output@,
            ),
            (Stage::Audit, Event::Done) => self.stopped(Ok(Outcome::Archived)),
            _ => self.stopped(Err(SyncError::UnexpectedEvent)),
        }
    }
}

/// A run that finds nothing changed ends there: where the tool succeeds and
/// its report holds no deletion and no transfer, the answer to the extraction
/// is to stop, so that no snapshot is made, renamed or written to, and no
/// audit file is written.
pub proof fn lemma_unchanged_tree_ends_run(run: RunView, output: String)
    requires
        run.stage == Stage::Extract,
        tool_verdict(true, output@) is Ok,
        collected(output@) is None,
    ensures
        run.next(Event::Ran { success: true, output }).1 == (ActionView::Finish {
            result: Ok(Outcome::Unchanged),
        }),
        run.next(Event::Ran { success: true, output }).0.stage == Stage::Done,
{
}

/// A failure ends the run at once, whatever the run waits for: the answer is
/// to stop with that error, and no action follows that would retry or undo
/// anything.
pub proof fn lemma_failure_ends_run(run: RunView, error: SyncError)
    ensures
        run.next(Event::Failed { error }) == run.stopped(Err(error)),
        run.next(Event::Failed { error }).0.stage == Stage::Done,
        run.next(Event::Failed { error }).1 == (ActionView::Finish { result: Err(error) }),
{
}

/// A run that is over stays over: whatever it is told, it says to stop.
pub proof fn lemma_finished_run_stays_finished(run: RunView, event: Event)
    requires
        run.stage == Stage::Done,
    ensures
        run.next(event).0.stage == Stage::Done,
        run.next(event).1 is Finish,
{
}

/// A run renames the latest snapshot only where it is fast-forwardable;
/// otherwise it copies, and the latest snapshot stays as it is.
pub proof fn lemma_only_fast_forward_renames(run: RunView, names: Seq<Seq<char>>, now: Timestamp)
    requires
        !run.fast_forward,
    ensures
        run.after_listing(names, now).0.fast_forward ==> run_state_of(
            latest_of(parsed_names(names, run.date_format)),
            snapshot_count(parsed_names(names, run.date_format)),
            now,
        ) == RunState::FastForwardable,
        snapshot_count(parsed_names(names, run.date_format)) <= 1 ==> !run.after_listing(
            names,
            now,
        ).0.fast_forward,
{
}

fn paths_from(root: &str, paths: &Vec<String>) -> (full: Vec<String>)
    ensures
        texts(full@) == paths_under(root@, texts(paths@)),
{
    let mut full: Vec<String> = Vec::new();
    let mut i: usize = 0;
    while i < paths.len()
        invariant
            i <= paths.len(),
            texts(full@) == paths_under(root@, texts(paths@).take(i as int)),
        decreases paths.len() - i,
    {
        let ghost before = texts(full@);
        full.push(join_path(root, paths[i].as_str()));
        assert(paths_under(root@, texts(paths@).take(i + 1)) =~= before.push(
            joined(root@, paths[i as int]@),
        ));
        i = i + 1;
    }
    full
}

impl ArchiveRun {
    /// A run that archives `working_dir` in `local_archive`, leaving out what
    /// `exclude_file` lists, with snapshots named under `date_format`. It has
    /// not begun: `Event::Start` begins it.
    pub fn new(
        working_dir: String,
        local_archive: String,
        exclude_file: String,
        date_format: String,
    ) -> (run: ArchiveRun)
        ensures
            run@ == (RunView {
                working_dir: working_dir@,
                local_archive: local_archive@,
                exclude_file: exclude_file@,
                date_format: date_format@,
                stage: Stage::Idle,
                fast_forward: false,
                latest_path: Seq::<char>::empty(),
                run_name: Seq::<char>::empty(),
                changes: None::<Changes>,
            }),
    {
        ArchiveRun {
            working_dir,
            local_archive,
            exclude_file,
            date_format,
            stage: Stage::Idle,
            fast_forward: false,
            latest_path: String::new(),
            run_name: String::new(),
            changes: None,
        }
    }

    fn file_beside_snapshots(&self, suffix: &str) -> (path: String)
        ensures
            path@ == joined(self@.local_archive, self@.run_name + suffix@),
    {
        let mut name = self.run_name.clone();
        name.append(suffix);
        join_path(self.local_archive.as_str(), name.as_str())
    }

    fn snapshot_path(&self) -> (path: String)
        ensures
            path@ == self@.new_snapshot(),
    {
        join_path(self.local_archive.as_str(), self.run_name.as_str())
    }

    fn stop(self, result: Result<Outcome, SyncError>) -> (next: (ArchiveRun, Action))
        ensures
            (next.0@, next.1@) == self@.stopped(result),
    {
        let mut run = self;
        run.stage = Stage::Done;
        (run, Action::Finish { result })
    }

    fn wait_for(self, stage: Stage) -> (run: ArchiveRun)
        ensures
            run@ == self@.waiting(stage),
    {
        let mut run = self;
        run.stage = stage;
        run
    }

    fn plan_extraction(&self) -> (action: Action)
        ensures
            action@ == self@.extraction(),
    {
        let diff_file = self.file_beside_snapshots(".diff");
        let direction = RsyncDirection::LocalToLocal {
            from: self.working_dir.clone(),
            to: self.latest_path.clone(),
        };
        let command = rsync_extract_diff(
            direction,
            diff_file.as_str(),
            self.exclude_file.as_str(),
        );
        Action::Run { command }
    }

    fn plan_placing(&self) -> (action: Action)
        ensures
            action@ == self@.placing(),
    {
        let mode = CpMvMode::FolderRename(self.run_name.clone());
        let command = if self.fast_forward {
            fs_move(self.latest_path.as_str(), self.local_archive.as_str(), mode)
        } else {
            fs_copy(self.latest_path.as_str(), self.local_archive.as_str(), mode)
        };
        Action::Run { command }
    }

    fn listed(self, names: Vec<String>, now: Timestamp) -> (next: (ArchiveRun, Action))
        ensures
            (next.0@, next.1@) == self@.after_listing(texts(names@), now),
    {
        let stamps = read_names(&names, self.date_format.as_str());
        let latest = latest_stamp(&stamps);
        let state = resolve_run_state(latest, count_stamps(&stamps), &now);
        let base: Option<Timestamp> = match latest {
            Some(t) => Some(t),
            None => now.one_second_earlier(),
        };
        let base_name: Option<String> = match base {
            Some(t) => format_timestamp(t, self.date_format.as_str()),
            None => None,
        };
        let run_name: Option<String> = format_timestamp(now, self.date_format.as_str());
        match (run_name, base_name) {
            (Some(run_name), Some(latest_name)) => {
                let mut run = self;
                run.latest_path = join_path(run.local_archive.as_str(), latest_name.as_str());
                run.run_name = run_name;
                run.fast_forward = state == RunState::FastForwardable;
                if latest.is_none() {
                    let path = run.latest_path.clone();
                    (run.wait_for(Stage::Baseline), Action::CreateDir { path })
                } else {
                    let action = run.plan_extraction();
                    (run.wait_for(Stage::Extract), action)
                }
            },
            _ => self.stop(Err(SyncError::BadDateFormat)),
        }
    }

    fn extracted(self, success: bool, output: String) -> (next: (ArchiveRun, Action))
        ensures
            (next.0@, next.1@) == self@.after_extraction(success, output@),
    {
        match read_extracted_diff(success, output.as_str()) {
            Err(e) => self.stop(Err(e)),
            Ok(None) => self.stop(Ok(Outcome::Unchanged)),
            Ok(Some(found)) => {
                let deleted_files = files_of(&found.deleted);
                let changed_files = files_of(&found.changed);
                let archived = paths_from(self.latest_path.as_str(), &deleted_files);
                let working = paths_from(self.working_dir.as_str(), &changed_files);
                let mut run = self;
                run.stage = Stage::Measure;
                run.changes = Some(found);
                (run, Action::Measure { archived, working })
            },
        }
    }

    fn measured(self, archived: Vec<Option<u64>>, working: Vec<Option<u64>>) -> (next: (
        ArchiveRun,
        Action,
    ))
        ensures
            (next.0@, next.1@) == self@.after_measuring(archived@, working@),
    {
        let action = self.plan_placing();
        let mut run = self;
        match run.changes {
            Some(found) => {
                let mut found = found;
                let deleted_files = files_of(&found.deleted);
                let changed_files = files_of(&found.changed);
                let archived_sizes = FileSizes::from_measurements(&deleted_files, &archived);
                let working_sizes = FileSizes::from_measurements(&changed_files, &working);
                found.extract_moves(&archived_sizes, &working_sizes);
                run.changes = Some(found);
                run.stage = Stage::Place;
                (run, action)
            },
            None => {
                run.changes = None;
                run.stop(Err(SyncError::UnexpectedEvent))
            },
        }
    }

    fn placed(self, success: bool) -> (next: (ArchiveRun, Action))
        ensures
            (next.0@, next.1@) == self@.after_placing(success),
    {
        if success {
            let snapshot = self.snapshot_path();
            let diff_file = self.file_beside_snapshots(".diff");
            let command = rsync_apply_diff(
                snapshot.as_str(),
                diff_file.as_str(),
                self.exclude_file.as_str(),
            );
            (self.wait_for(Stage::Apply), Action::Run { command })
        } else {
            self.stop(Err(SyncError::ToolFailed))
        }
    }

    fn applied(self, success: bool, output: String) -> (next: (ArchiveRun, Action))
        ensures
            (next.0@, next.1@) == self@.after_applying(success, output@),
    {
        match check_tool_run(success, output.as_str()) {
            Err(e) => self.stop(Err(e)),
            Ok(_) => {
                let path = self.file_beside_snapshots(".changes");
                let mut run = self;
                match run.changes {
                    Some(record) => {
                        run.changes = None;
                        run.stage = Stage::Audit;
                        (run, Action::WriteAudit { path, record })
                    },
                    None => {
                        run.changes = None;
                        run.stop(Err(SyncError::UnexpectedEvent))
                    },
                }
            },
        }
    }
}

/// Takes an archive run one step on: given what came of the last action, it
/// says what to do next, until it says to stop.
///
/// A whole run lists the archive, makes a first empty snapshot where there
/// is none, extracts what differs between the working tree and the latest
/// snapshot, and stops there if nothing does. Otherwise it has the changed
/// files measured, recognises the moves, has the latest snapshot renamed or
/// copied to the run's name, has the difference applied to that snapshot, and
/// has the record written out.
pub fn archive_local(run: ArchiveRun, event: Event) -> (next: (ArchiveRun, Action))
    ensures
        (next.0@, next.1@) == run@.next(event),
{
    match (run.stage, event) {
        (_, Event::Failed { error }) => run.stop(Err(error)),
        (Stage::Idle, Event::Start) => {
            let archive = run.local_archive.clone();
            (run.wait_for(Stage::Scan), Action::ListSnapshots { archive })
        },
        (Stage::Scan, Event::Listed { names, now }) => run.listed(names, now),
        (Stage::Baseline, Event::Done) => {
            let action = run.plan_extraction();
            (run.wait_for(Stage::Extract), action)
        },
        (Stage::Extract, Event::Ran { success, output }) => run.extracted(success, output),
        (Stage::Measure, Event::Measured { archived, working }) => run.measured(archived, working),
        (Stage::Place, Event::Ran { success, output }) => run.placed(success),
        (Stage::Apply, Event::Ran { success, output }) => run.applied(success, output),
        (Stage::Audit, Event::Done) => run.stop(Ok(Outcome::Archived)),
        _ => run.stop(Err(SyncError::UnexpectedEvent)),
    }
}

} // verus!
