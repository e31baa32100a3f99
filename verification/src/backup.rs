//! The backup procedure: every history file is read (directly, or from a
//! temporary copy when the direct read fails), its rows are written to the
//! backup database unless this is a dry run, and the outcome is counted and
//! logged. Reading and writing are done by the caller; `BackupRun` decides
//! what happens next from what came back.
use vstd::prelude::*;
use crate::progress::{CollectorState, LogCollector};
use crate::text::{decimal, push_decimal};

verus! {

/// Counts of one backup.
#[derive(Debug, Clone, Copy, PartialEq, Eq, Structural)]
pub struct BackupResult {
    /// Rows read from all history files.
    pub found: usize,
    /// Rows newly written to the backup database.
    pub imported: usize,
    /// Rows that were already in the backup database.
    pub duplicated: usize,
    /// History files that were skipped.
    pub failed: usize,
}

/// How a backup reports what it does.
#[derive(Debug, Clone, Copy, PartialEq, Eq, Structural)]
pub enum BackupMode {
    /// Log lines for the web page, progress as `[path] n/total` lines.
    Log,
    /// Messages for the terminal, progress as a progress bar.
    Console,
}

/// What the caller reports back to the run.
#[derive(Debug)]
#[allow(inconsistent_fields)]
pub enum BackupEvent {
    /// The caller is ready.
    Start,
    /// The backup database was opened, or failed to open with `error`.
    DatabaseOpened { error: Option<String> },
    /// The current history file was read: it holds `rows` visits.
    Loaded { rows: usize },
    /// Reading the current history file failed with `error`.
    LoadFailed { error: String },
    /// The rows of the current file were written: `Ok((imported, duplicated))`
    /// or the error; `progress_lines` is what the progress collector logged.
    Persisted { outcome: Result<(usize, usize), String>, progress_lines: Vec<String> },
}

/// How the caller shows the progress of a write.
#[derive(Debug)]
pub enum Progress {
    /// Feed this collector; hand its lines back with the `Persisted` event.
    Log(LogCollector),
    /// Show a progress bar of this length.
    Bar { len: u64 },
}

/// What the caller is to do next.
#[derive(Debug)]
pub enum BackupAction {
    /// Open the backup database.
    OpenDatabase { db_file: String },
    /// Read the history file at `path`.
    LoadDirect { path: String },
    /// Copy the history file at `path` to a temporary file and read the copy.
    LoadFromTempCopy { path: String },
    /// Write the rows just read from `path` to the backup database.
    Persist { path: String, progress: Progress },
    /// The backup is over.
    Finished { outcome: Result<BackupResult, String> },
}

/// Where a run stands.
#[derive(Debug)]
enum Phase {
    Ready,
    Opening,
    Reading(usize),
    Retrying(usize, String),
    Writing(usize),
    Done,
}

/// Where a run stands, abstractly; the number is the index of the current file.
pub enum PhaseView {
    Ready,
    Opening,
    Reading(nat),
    Retrying(nat, Seq<char>),
    Writing(nat),
    Done,
}

/// The abstract state of a run.
pub struct RunState {
    pub mode: BackupMode,
    pub dry_run: bool,
    pub db_file: Seq<char>,
    pub files: Seq<Seq<char>>,
    pub phase: PhaseView,
    pub found: usize,
    pub imported: usize,
    pub duplicated: usize,
    pub failed: usize,
    pub lines: Seq<Seq<char>>,
}

pub enum EventView {
    Start,
    DatabaseOpened(Option<Seq<char>>),
    Loaded(nat),
    LoadFailed(Seq<char>),
    Persisted(Result<(nat, nat), Seq<char>>, Seq<Seq<char>>),
}

pub enum ProgressView {
    Log(CollectorState),
    Bar(nat),
}

pub enum ActionView {
    OpenDatabase(Seq<char>),
    LoadDirect(Seq<char>),
    LoadFromTempCopy(Seq<char>),
    Persist(Seq<char>, ProgressView),
    Finished(Result<BackupResult, Seq<char>>),
}

impl View for BackupEvent {
    type V = EventView;

    open spec fn view(&self) -> EventView {
        match self {
            BackupEvent::Start => EventView::Start,
            BackupEvent::DatabaseOpened { error } => EventView::DatabaseOpened(
                match error {
                    Some(e) => Some(e@),
                    None => None,
                },
            ),
            BackupEvent::Loaded { rows } => EventView::Loaded(*rows as nat),
            BackupEvent::LoadFailed { error } => EventView::LoadFailed(error@),
            BackupEvent::Persisted { outcome, progress_lines } => EventView::Persisted(
                match outcome {
                    Ok((a, d)) => Ok((*a as nat, *d as nat)),
                    Err(e) => Err(e@),
                },
                progress_lines.deep_view(),
            ),
        }
    }
}

impl View for Progress {
    type V = ProgressView;

    open spec fn view(&self) -> ProgressView {
        match self {
            Progress::Log(c) => ProgressView::Log(c@),
            Progress::Bar { len } => ProgressView::Bar(*len as nat),
        }
    }
}

impl View for BackupAction {
    type V = ActionView;

    open spec fn view(&self) -> ActionView {
        match self {
            BackupAction::OpenDatabase { db_file } => ActionView::OpenDatabase(db_file@),
            BackupAction::LoadDirect { path } => ActionView::LoadDirect(path@),
            BackupAction::LoadFromTempCopy { path } => ActionView::LoadFromTempCopy(path@),
            BackupAction::Persist { path, progress } => ActionView::Persist(path@, progress@),
            BackupAction::Finished { outcome } => ActionView::Finished(
                match outcome {
                    Ok(r) => Ok(*r),
                    Err(e) => Err(e@),
                },
            ),
        }
    }
}

// ---------------------------------------------------------------------------
// Messages

/// The message written when a file has been read.
pub open spec fn begin_line(mode: BackupMode, path: Seq<char>, rows: nat) -> Seq<char> {
    match mode {
        BackupMode::Log => "Processing "@ + path + " ("@ + decimal(rows) + " records)..."@,
        BackupMode::Console => "Begin backup "@ + path + "..."@,
    }
}

/// The message written when a file has been backed up.
pub open spec fn done_line(mode: BackupMode, path: Seq<char>) -> Seq<char> {
    match mode {
        BackupMode::Log => "Done: "@ + path,
        BackupMode::Console => "Finish backup "@ + path,
    }
}

/// The message written when a file is skipped because of `reason`.
pub open spec fn skip_line(mode: BackupMode, path: Seq<char>, reason: Seq<char>) -> Seq<char> {
    match mode {
        BackupMode::Log => "Skip "@ + path + ": "@ + reason,
        BackupMode::Console => "Skip backup "@ + path + ": "@ + reason,
    }
}

/// Why a file is skipped when both the direct read and the read of a copy failed.
pub open spec fn load_failure(direct: Seq<char>, retry: Seq<char>) -> Seq<char> {
    "direct read failed: "@ + direct + "; temp copy retry failed: "@ + retry
}

/// The closing message of a terminal backup.
pub open spec fn summary_line(r: BackupResult) -> Seq<char> {
    "Summary\nFound:"@ + decimal(r.found as nat) + ", Imported:"@ + decimal(r.imported as nat)
        + ", Duplicated: "@ + decimal(r.duplicated as nat) + ", Failed:"@ + decimal(
        r.failed as nat,
    )
}

// ---------------------------------------------------------------------------
// Transitions

impl RunState {
    /// The counts so far.
    pub open spec fn result(self) -> BackupResult {
        BackupResult {
            found: self.found,
            imported: self.imported,
            duplicated: self.duplicated,
            failed: self.failed,
        }
    }

    /// The invariant of a run.
    pub open spec fn wf(self) -> bool {
        &&& self.files.len() <= usize::MAX
        &&& (self.dry_run ==> self.imported == 0 && self.duplicated == 0)
        &&& match self.phase {
            PhaseView::Ready | PhaseView::Opening => self.failed == 0,
            PhaseView::Reading(i) => i < self.files.len() && self.failed <= i,
            PhaseView::Retrying(i, _) => i < self.files.len() && self.failed <= i,
            PhaseView::Writing(i) => i < self.files.len() && self.failed <= i && !self.dry_run,
            PhaseView::Done => self.failed <= self.files.len(),
        }
    }

    /// Whether the run is waiting for `e`.
    pub open spec fn accepts(self, e: EventView) -> bool {
        match (self.phase, e) {
            (PhaseView::Ready, EventView::Start) => true,
            (PhaseView::Opening, EventView::DatabaseOpened(_)) => true,
            (PhaseView::Reading(_), EventView::Loaded(n)) => self.found + n <= usize::MAX,
            (PhaseView::Reading(_), EventView::LoadFailed(_)) => true,
            (PhaseView::Retrying(_, _), EventView::Loaded(n)) => self.found + n <= usize::MAX,
            (PhaseView::Retrying(_, _), EventView::LoadFailed(_)) => true,
            (PhaseView::Writing(_), EventView::Persisted(Ok((a, d)), _)) => {
                &&& self.imported + a <= usize::MAX
                &&& self.duplicated + d <= usize::MAX
            },
            (PhaseView::Writing(_), EventView::Persisted(Err(_), _)) => true,
            _ => false,
        }
    }

    /// The state with a log line added.
    pub open spec fn log(self, line: Seq<char>) -> RunState {
        RunState { lines: self.lines.push(line), ..self }
    }

    /// The state in another phase.
    pub open spec fn enter(self, phase: PhaseView) -> RunState {
        RunState { phase, ..self }
    }

    /// Go on with file `i`, or finish when there is none.
    pub open spec fn advance(self, i: nat) -> (RunState, ActionView) {
        if i < self.files.len() {
            (self.enter(PhaseView::Reading(i)), ActionView::LoadDirect(self.files[i as int]))
        } else {
            let done = self.enter(PhaseView::Done);
            let done = match self.mode {
                BackupMode::Log => done,
                BackupMode::Console => done.log(summary_line(self.result())),
            };
            (done, ActionView::Finished(Ok(self.result())))
        }
    }

    /// File `i` was read and holds `rows` visits.
    pub open spec fn loaded(self, i: nat, rows: nat) -> (RunState, ActionView) {
        let path = self.files[i as int];
        let s = RunState { found: (self.found + rows) as usize, ..self }.log(
            begin_line(self.mode, path, rows),
        );
        if self.dry_run {
            s.log(done_line(self.mode, path)).advance(i + 1)
        } else {
            let progress = match self.mode {
                BackupMode::Log => ProgressView::Log(
                    CollectorState { label: path, total: rows, done: 0, lines: Seq::empty() },
                ),
                BackupMode::Console => ProgressView::Bar(rows),
            };
            (s.enter(PhaseView::Writing(i)), ActionView::Persist(path, progress))
        }
    }

    /// The next state and action after event `e`.
    pub open spec fn next(self, e: EventView) -> (RunState, ActionView) {
        match (self.phase, e) {
            (PhaseView::Ready, EventView::Start) => (
                self.enter(PhaseView::Opening),
                ActionView::OpenDatabase(self.db_file),
            ),
            (PhaseView::Opening, EventView::DatabaseOpened(Some(err))) => (
                self.enter(PhaseView::Done),
                ActionView::Finished(Err(err)),
            ),
            (PhaseView::Opening, EventView::DatabaseOpened(None)) => self.advance(0),
            (PhaseView::Reading(i), EventView::Loaded(n)) => self.loaded(i, n),
            (PhaseView::Reading(i), EventView::LoadFailed(err)) => (
                self.enter(PhaseView::Retrying(i, err)),
                ActionView::LoadFromTempCopy(self.files[i as int]),
            ),
            (PhaseView::Retrying(i, _), EventView::Loaded(n)) => self.loaded(i, n),
            (PhaseView::Retrying(i, direct), EventView::LoadFailed(retry)) => RunState {
                failed: (self.failed + 1) as usize,
                ..self
            }.log(skip_line(self.mode, self.files[i as int], load_failure(direct, retry))).advance(
                i + 1,
            ),
            (PhaseView::Writing(i), EventView::Persisted(Ok((a, d)), progress)) => RunState {
                imported: (self.imported + a) as usize,
                duplicated: (self.duplicated + d) as usize,
                lines: self.lines + progress,
                ..self
            }.log(done_line(self.mode, self.files[i as int])).advance(i + 1),
            (PhaseView::Writing(i), EventView::Persisted(Err(err), progress)) => RunState {
                failed: (self.failed + 1) as usize,
                lines: self.lines + progress,
                ..self
            }.log(skip_line(self.mode, self.files[i as int], err)).advance(i + 1),
            _ => (self, ActionView::Finished(Err(Seq::empty()))),
        }
    }
}


// ---------------------------------------------------------------------------
// Message text

fn push_count(s: &mut String, n: usize)
    ensures
        final(s)@ == old(s)@ + decimal(n as nat),
{
    push_decimal(s, n as u64);
}

fn begin_text(mode: BackupMode, path: &String, rows: usize) -> (r: String)
    ensures
        r@ == begin_line(mode, path@, rows as nat),
{
    let mut s = String::new();
    match mode {
        BackupMode::Log => {
            s.append("Processing ");
            s.append(path.as_str());
            s.append(" (");
            push_count(&mut s, rows);
            s.append(" records)...");
        },
        BackupMode::Console => {
            s.append("Begin backup ");
            s.append(path.as_str());
            s.append("...");
        },
    }
    s
}

fn done_text(mode: BackupMode, path: &String) -> (r: String)
    ensures
        r@ == done_line(mode, path@),
{
    let mut s = String::new();
    match mode {
        BackupMode::Log => s.append("Done: "),
        BackupMode::Console => s.append("Finish backup "),
    }
    s.append(path.as_str());
    s
}

fn skip_text(mode: BackupMode, path: &String, reason: &String) -> (r: String)
    ensures
        r@ == skip_line(mode, path@, reason@),
{
    let mut s = String::new();
    match mode {
        BackupMode::Log => s.append("Skip "),
        BackupMode::Console => s.append("Skip backup "),
    }
    s.append(path.as_str());
    s.append(": ");
    s.append(reason.as_str());
    s
}

fn load_failure_text(direct: &String, retry: &String) -> (r: String)
    ensures
        r@ == load_failure(direct@, retry@),
{
    let mut s = String::new();
    s.append("direct read failed: ");
    s.append(direct.as_str());
    s.append("; temp copy retry failed: ");
    s.append(retry.as_str());
    s
}

fn summary_text(r: BackupResult) -> (t: String)
    ensures
        t@ == summary_line(r),
{
    let mut s = String::new();
    s.append("Summary\nFound:");
    push_count(&mut s, r.found);
    s.append(", Imported:");
    push_count(&mut s, r.imported);
    s.append(", Duplicated: ");
    push_count(&mut s, r.duplicated);
    s.append(", Failed:");
    push_count(&mut s, r.failed);
    s
}

// ---------------------------------------------------------------------------
// The run

/// One backup of a list of history files, driven by the caller: the caller
/// performs each `BackupAction` that `step` returns and reports the outcome
/// as the next `BackupEvent`, starting with `BackupEvent::Start`, until the
/// action is `Finished`.
#[derive(Debug)]
pub struct BackupRun {
    mode: BackupMode,
    dry_run: bool,
    db_file: String,
    files: Vec<String>,
    phase: Phase,
    found: usize,
    imported: usize,
    duplicated: usize,
    failed: usize,
    lines: Vec<String>,
}

spec fn phase_view(p: Phase) -> PhaseView {
    match p {
        Phase::Ready => PhaseView::Ready,
        Phase::Opening => PhaseView::Opening,
        Phase::Reading(i) => PhaseView::Reading(i as nat),
        Phase::Retrying(i, e) => PhaseView::Retrying(i as nat, e@),
        Phase::Writing(i) => PhaseView::Writing(i as nat),
        Phase::Done => PhaseView::Done,
    }
}

impl View for BackupRun {
    type V = RunState;

    closed spec fn view(&self) -> RunState {
        RunState {
            mode: self.mode,
            dry_run: self.dry_run,
            db_file: self.db_file@,
            files: self.files.deep_view(),
            phase: phase_view(self.phase),
            found: self.found,
            imported: self.imported,
            duplicated: self.duplicated,
            failed: self.failed,
            lines: self.lines.deep_view(),
        }
    }
}

/// The state of a run that has not started.
pub open spec fn initial_state(
    mode: BackupMode,
    files: Seq<Seq<char>>,
    db_file: Seq<char>,
    dry_run: bool,
    lines: Seq<Seq<char>>,
) -> RunState {
    RunState {
        mode,
        dry_run,
        db_file,
        files,
        phase: PhaseView::Ready,
        found: 0,
        imported: 0,
        duplicated: 0,
        failed: 0,
        lines,
    }
}

impl BackupRun {
    /// A run over `history_files` into the backup database at `db_file`,
    /// appending its messages to `lines`.
    pub fn new(
        mode: BackupMode,
        history_files: Vec<String>,
        db_file: String,
        dry_run: bool,
        lines: Vec<String>,
    ) -> (r: Self)
        ensures
            r@ == initial_state(mode, history_files.deep_view(), db_file@, dry_run, lines.deep_view()),
            r@.wf(),
    {
        let n = history_files.len();
        assert(history_files.deep_view().len() == n);
        BackupRun {
            mode,
            dry_run,
            db_file,
            files: history_files,
            phase: Phase::Ready,
            found: 0,
            imported: 0,
            duplicated: 0,
            failed: 0,
            lines,
        }
    }

    /// The messages written so far.
    pub fn lines(&self) -> (r: &Vec<String>)
        ensures
            r.deep_view() == self@.lines,
    {
        &self.lines
    }

    /// The counts so far.
    pub fn result(&self) -> (r: BackupResult)
        ensures
            r == self@.result(),
    {
        BackupResult {
            found: self.found,
            imported: self.imported,
            duplicated: self.duplicated,
            failed: self.failed,
        }
    }

    fn log(&mut self, line: String)
        ensures
            final(self)@ == old(self)@.log(line@),
    {
        let ghost before = self.lines.deep_view();
        self.lines.push(line);
        assert(self.lines.deep_view() =~= before.push(line@));
    }

    fn append_lines(&mut self, more: Vec<String>)
        ensures
            final(self)@ == (RunState { lines: old(self)@.lines + more.deep_view(), ..old(self)@ }),
    {
        let n = more.len();
        let ghost start = self.lines.deep_view();
        let mut j: usize = 0;
        while j < n
            invariant
                n == more.len(),
                j <= n,
                self@ == (RunState { lines: start + more.deep_view().take(j as int), ..old(self)@ }),
            decreases n - j,
        {
            let line = more[j].clone();
            let ghost before = self.lines.deep_view();
            self.lines.push(line);
            assert(self.lines.deep_view() =~= before.push(line@));
            assert(more.deep_view().take(j + 1) =~= more.deep_view().take(j as int).push(line@));
            j = j + 1;
        }
        assert(more.deep_view().take(n as int) =~= more.deep_view());
    }

    fn advance(&mut self, i: usize) -> (a: BackupAction)
        requires
            i <= old(self)@.files.len(),
        ensures
            (final(self)@, a@) == old(self)@.advance(i as nat),
    {
        if i < self.files.len() {
            self.phase = Phase::Reading(i);
            BackupAction::LoadDirect { path: self.files[i].clone() }
        } else {
            let r = self.result();
            self.phase = Phase::Done;
            match self.mode {
                BackupMode::Log => {},
                BackupMode::Console => {
                    let line = summary_text(r);
                    self.log(line);
                },
            }
            BackupAction::Finished { outcome: Ok(r) }
        }
    }

    fn loaded(&mut self, i: usize, rows: usize) -> (a: BackupAction)
        requires
            i < old(self)@.files.len(),
            old(self)@.found + rows <= usize::MAX,
        ensures
            (final(self)@, a@) == old(self)@.loaded(i as nat, rows as nat),
    {
        let n = self.files.len();
        assert(self.files.deep_view().len() == n);
        let path = self.files[i].clone();
        self.found = self.found + rows;
        let line = begin_text(self.mode, &path, rows);
        self.log(line);
        if self.dry_run {
            let line = done_text(self.mode, &path);
            self.log(line);
            self.advance(i + 1)
        } else {
            self.phase = Phase::Writing(i);
            let progress = match self.mode {
                BackupMode::Log => {
                    let empty: Vec<String> = Vec::new();
                    assert(empty.deep_view() =~= Seq::<Seq<char>>::empty());
                    Progress::Log(LogCollector::new(path.clone(), rows as u64, empty))
                },
                BackupMode::Console => Progress::Bar { len: rows as u64 },
            };
            BackupAction::Persist { path, progress }
        }
    }

    /// Whether the run is waiting for `event`, and the counts stay in range.
    pub fn accepts(&self, event: &BackupEvent) -> (r: bool)
        ensures
            r == self@.accepts(event@),
    {
        match (&self.phase, event) {
            (Phase::Ready, BackupEvent::Start) => true,
            (Phase::Opening, BackupEvent::DatabaseOpened { .. }) => true,
            (Phase::Reading(_), BackupEvent::Loaded { rows }) => *rows <= usize::MAX - self.found,
            (Phase::Reading(_), BackupEvent::LoadFailed { .. }) => true,
            (Phase::Retrying(_, _), BackupEvent::Loaded { rows }) => *rows <= usize::MAX
                - self.found,
            (Phase::Retrying(_, _), BackupEvent::LoadFailed { .. }) => true,
            (Phase::Writing(_), BackupEvent::Persisted { outcome, .. }) => match outcome {
                Ok((a, d)) => *a <= usize::MAX - self.imported && *d <= usize::MAX
                    - self.duplicated,
                Err(_) => true,
            },
            _ => false,
        }
    }

    /// Whether the run is over.
    pub fn is_finished(&self) -> (r: bool)
        ensures
            r == (self@.phase is Done),
    {
        match self.phase {
            Phase::Done => true,
            _ => false,
        }
    }

    /// Takes in what the caller reports and says what to do next.
    #[verifier::spinoff_prover]
    pub fn step(&mut self, event: BackupEvent) -> (a: BackupAction)
        requires
            old(self)@.wf(),
            old(self)@.accepts(event@),
        ensures
            (final(self)@, a@) == old(self)@.next(event@),
            final(self)@.wf(),
    {
        let n = self.files.len();
        assert(self.files.deep_view().len() == n);
        match event {
            BackupEvent::Start => {
                self.phase = Phase::Opening;
                BackupAction::OpenDatabase { db_file: self.db_file.clone() }
            },
            BackupEvent::DatabaseOpened { error } => match error {
                Some(e) => {
                    self.phase = Phase::Done;
                    BackupAction::Finished { outcome: Err(e) }
                },
                None => self.advance(0),
            },
            BackupEvent::Loaded { rows } => {
                let i = match &self.phase {
                    Phase::Reading(i) => *i,
                    Phase::Retrying(i, _) => *i,
                    _ => {
                        proof {
                            assert(false);
                        }
                        0
                    },
                };
                self.loaded(i, rows)
            },
            BackupEvent::LoadFailed { error } => {
                let (i, direct) = match &self.phase {
                    Phase::Reading(i) => (*i, None),
                    Phase::Retrying(i, direct) => (*i, Some(direct.clone())),
                    _ => {
                        proof {
                            assert(false);
                        }
                        (0, None)
                    },
                };
                match direct {
                    None => {
                        let path = self.files[i].clone();
                        self.phase = Phase::Retrying(i, error);
                        BackupAction::LoadFromTempCopy { path }
                    },
                    Some(direct) => {
                        let reason = load_failure_text(&direct, &error);
                        let line = skip_text(self.mode, &self.files[i], &reason);
                        self.failed = self.failed + 1;
                        self.log(line);
                        self.advance(i + 1)
                    },
                }
            },
            BackupEvent::Persisted { outcome, progress_lines } => {
                let i = match &self.phase {
                    Phase::Writing(i) => *i,
                    _ => {
                        proof {
                            assert(false);
                        }
                        0
                    },
                };
                self.append_lines(progress_lines);
                match outcome {
                    Ok((a, d)) => {
                        self.imported = self.imported + a;
                        self.duplicated = self.duplicated + d;
                        let line = done_text(self.mode, &self.files[i]);
                        self.log(line);
                    },
                    Err(e) => {
                        self.failed = self.failed + 1;
                        let line = skip_text(self.mode, &self.files[i], &e);
                        self.log(line);
                    },
                }
                self.advance(i + 1)
            },
        }
    }
}

/// A run of the web page's backup: messages go to `log_lines`, and the
/// progress of each write to a `LogCollector`.
pub fn backup_to_log(
    history_files: Vec<String>,
    db_file: String,
    dry_run: bool,
    log_lines: Vec<String>,
) -> (r: BackupRun)
    ensures
        r@ == initial_state(
            BackupMode::Log,
            history_files.deep_view(),
            db_file@,
            dry_run,
            log_lines.deep_view(),
        ),
        r@.wf(),
{
    BackupRun::new(BackupMode::Log, history_files, db_file, dry_run, log_lines)
}

/// A run of the terminal's backup: messages are for the terminal's log, the
/// progress of each write is a progress bar, and a summary closes the run.
pub fn backup(history_files: Vec<String>, db_file: String, dry_run: bool) -> (r: BackupRun)
    ensures
        r@ == initial_state(
            BackupMode::Console,
            history_files.deep_view(),
            db_file@,
            dry_run,
            Seq::empty(),
        ),
        r@.wf(),
{
    let lines: Vec<String> = Vec::new();
    assert(lines.deep_view() =~= Seq::<Seq<char>>::empty());
    BackupRun::new(BackupMode::Console, history_files, db_file, dry_run, lines)
}

// ---------------------------------------------------------------------------
// Laws

impl RunState {
    /// The index of the file the run is busy with, if any.
    pub open spec fn current(self) -> Option<nat> {
        match self.phase {
            PhaseView::Reading(i) => Some(i),
            PhaseView::Retrying(i, _) => Some(i),
            PhaseView::Writing(i) => Some(i),
            _ => None,
        }
    }

    /// An upper bound on the number of events the run still waits for.
    pub open spec fn pending(self) -> nat {
        let n = self.files.len();
        match self.phase {
            PhaseView::Ready => 3 * n + 3,
            PhaseView::Opening => 3 * n + 2,
            PhaseView::Reading(i) => (3 * (n - i)) as nat,
            PhaseView::Retrying(i, _) => (3 * (n - i) - 1) as nat,
            PhaseView::Writing(i) => (3 * (n - i) - 2) as nat,
            PhaseView::Done => 0,
        }
    }

    /// The state after the events `es`, one after the other.
    pub open spec fn after(self, es: Seq<EventView>) -> RunState
        decreases es.len(),
    {
        if es.len() == 0 {
            self
        } else {
            self.next(es[0]).0.after(es.drop_first())
        }
    }

    /// Whether event `e` makes the run count a file as failed: a failed read
    /// of a copy, or a failed write.
    pub open spec fn fails_on(self, e: EventView) -> bool {
        ||| (self.phase is Retrying && e is LoadFailed)
        ||| (self.phase is Writing && e matches EventView::Persisted(Err(_), _))
    }

    /// How many of the events `es`, one after the other, make the run count
    /// a file as failed.
    pub open spec fn failures(self, es: Seq<EventView>) -> nat
        decreases es.len(),
    {
        if es.len() == 0 {
            0
        } else {
            (if self.fails_on(es[0]) {
                1nat
            } else {
                0nat
            }) + self.next(es[0]).0.failures(es.drop_first())
        }
    }

    /// Whether the run accepts the events `es`, one after the other.
    pub open spec fn accepts_all(self, es: Seq<EventView>) -> bool
        decreases es.len(),
    {
        if es.len() == 0 {
            true
        } else {
            self.accepts(es[0]) && self.next(es[0]).0.accepts_all(es.drop_first())
        }
    }
}

/// The rows reported by the `Loaded` events of `es`.
pub open spec fn rows_loaded(es: Seq<EventView>) -> nat
    decreases es.len(),
{
    if es.len() == 0 {
        0
    } else {
        (match es[0] {
            EventView::Loaded(n) => n,
            _ => 0,
        }) + rows_loaded(es.drop_first())
    }
}

/// The rows reported newly written by the `Persisted` events of `es`.
pub open spec fn rows_imported(es: Seq<EventView>) -> nat
    decreases es.len(),
{
    if es.len() == 0 {
        0
    } else {
        (match es[0] {
            EventView::Persisted(Ok((a, _)), _) => a,
            _ => 0,
        }) + rows_imported(es.drop_first())
    }
}

/// The rows reported already present by the `Persisted` events of `es`.
pub open spec fn rows_duplicated(es: Seq<EventView>) -> nat
    decreases es.len(),
{
    if es.len() == 0 {
        0
    } else {
        (match es[0] {
            EventView::Persisted(Ok((_, d)), _) => d,
            _ => 0,
        }) + rows_duplicated(es.drop_first())
    }
}

/// A dry run never asks for a write, and never counts rows as imported or
/// duplicated.
pub proof fn law_dry_run_writes_nothing(s: RunState, e: EventView)
    requires
        s.wf(),
        s.dry_run,
        s.accepts(e),
    ensures
        !(s.next(e).1 is Persist),
        s.next(e).0.imported == 0,
        s.next(e).0.duplicated == 0,
{
}

/// The log only grows: every step keeps the lines written before it.
pub proof fn law_log_only_grows(s: RunState, e: EventView)
    requires
        s.wf(),
        s.accepts(e),
    ensures
        s.lines.len() <= s.next(e).0.lines.len(),
        s.next(e).0.lines.take(s.lines.len() as int) == s.lines,
{
    let t = s.next(e).0;
    assert(t.lines.take(s.lines.len() as int) =~= s.lines);
}

/// Every step brings the run closer to its end, so a run is over after at
/// most three events per history file and three more; the run is over
/// exactly when it answers `Finished`.
pub proof fn law_run_terminates(s: RunState, e: EventView)
    requires
        s.wf(),
        s.accepts(e),
    ensures
        s.next(e).0.pending() < s.pending(),
        (s.next(e).0.phase is Done) <==> s.next(e).0.pending() == 0,
        (s.next(e).0.phase is Done) <==> (s.next(e).1 is Finished),
        s.pending() <= 3 * s.files.len() + 3,
{
}

/// A run that is not over accepts some event.
pub proof fn law_never_stuck(s: RunState)
    requires
        s.wf(),
        !(s.phase is Done),
    ensures
        exists|e: EventView| s.accepts(e),
{
    match s.phase {
        PhaseView::Ready => assert(s.accepts(EventView::Start)),
        PhaseView::Opening => assert(s.accepts(EventView::DatabaseOpened(None))),
        PhaseView::Reading(_) => assert(s.accepts(EventView::LoadFailed(Seq::empty()))),
        PhaseView::Retrying(_, _) => assert(s.accepts(EventView::LoadFailed(Seq::empty()))),
        PhaseView::Writing(_) => assert(
            s.accepts(EventView::Persisted(Err(Seq::empty()), Seq::empty()))
        ),
        PhaseView::Done => {},
    }
}

/// The history files are read in the order given, each once: a read is
/// asked for the first file when the database opens, and for the next file
/// exactly when the current one is finished.
pub proof fn law_files_in_order(s: RunState, e: EventView)
    requires
        s.wf(),
        s.accepts(e),
    ensures
        s.next(e).1 matches ActionView::LoadDirect(p) ==> {
            &&& s.next(e).0.phase matches PhaseView::Reading(j)
            &&& p == s.files[j as int]
            &&& (s.phase is Opening && j == 0) || (s.current() == Some((j - 1) as nat) && j >= 1)
        },
        s.next(e).0.current() matches Some(j) ==> (s.current() == Some(j) || s.next(
            e,
        ).1 is LoadDirect),
{
}

/// A failed direct read of a history file is always followed by a read of a
/// temporary copy of the same file, and the file is not yet counted as failed.
pub proof fn law_failed_read_is_retried(s: RunState, err: Seq<char>)
    requires
        s.wf(),
        s.phase is Reading,
    ensures
        s.accepts(EventView::LoadFailed(err)),
        s.next(EventView::LoadFailed(err)).1 == ActionView::LoadFromTempCopy(
            s.files[s.current().unwrap() as int],
        ),
        s.next(EventView::LoadFailed(err)).0.failed == s.failed,
{
}

/// A file that cannot be read even from a copy, or whose rows cannot be
/// written, is counted as failed and skipped with a log line naming it, and
/// the backup goes on with the next file.
#[verifier::spinoff_prover]
pub proof fn law_failed_file_is_skipped(s: RunState, e: EventView)
    requires
        s.wf(),
        s.accepts(e),
        (s.phase is Retrying && e is LoadFailed) || (e matches EventView::Persisted(Err(_), _)),
    ensures
        s.next(e).0.failed == s.failed + 1,
        s.next(e).0.current() == (if s.current().unwrap() + 1 < s.files.len() {
            Some(s.current().unwrap() + 1)
        } else {
            None
        }),
        s.next(e).0.lines.len() > s.lines.len(),
        s.next(e).0.lines.take(s.lines.len() as int) == s.lines,
        s.next(e).0.lines[s.next(e).0.lines.len() - 1 - (if s.current().unwrap() + 1
            == s.files.len() && s.mode == BackupMode::Console {
            1int
        } else {
            0int
        })] == (match s.mode {
            BackupMode::Log => "Skip "@,
            BackupMode::Console => "Skip backup "@,
        }) + s.files[s.current().unwrap() as int] + ": "@ + (match (s.phase, e) {
            (PhaseView::Retrying(_, direct), EventView::LoadFailed(retry)) => "direct read failed: "@
                + direct + "; temp copy retry failed: "@ + retry,
            (_, EventView::Persisted(Err(err), _)) => err,
            _ => Seq::empty(),
        }),
        s.current().unwrap() + 1 < s.files.len() ==> s.next(e).1 == ActionView::LoadDirect(
            s.files[s.current().unwrap() + 1int],
        ),
        s.current().unwrap() + 1 == s.files.len() ==> s.next(e).1 == ActionView::Finished(
            Ok(
                BackupResult {
                    found: s.found,
                    imported: s.imported,
                    duplicated: s.duplicated,
                    failed: (s.failed + 1) as usize,
                },
            ),
        ),
{
    let t = s.next(e).0;
    assert(t.lines.take(s.lines.len() as int) =~= s.lines);
}

/// The counts of a run are the sums of what was reported: `found` adds up
/// the rows of every file read (in a dry run too), `imported` and
/// `duplicated` those of every write, and `failed` counts the files whose
/// read of a copy failed or whose write failed.
pub proof fn law_counts_are_sums(s: RunState, es: Seq<EventView>)
    requires
        s.wf(),
        s.accepts_all(es),
    ensures
        s.after(es).found == s.found + rows_loaded(es),
        s.after(es).imported == s.imported + rows_imported(es),
        s.after(es).duplicated == s.duplicated + rows_duplicated(es),
        s.after(es).failed == s.failed + s.failures(es),
        s.after(es).wf(),
    decreases es.len(),
{
    if es.len() > 0 {
        let t = s.next(es[0]).0;
        law_counts_are_sums(t, es.drop_first());
    }
}

/// A run that finishes without a database error reports the counts it
/// collected.
pub proof fn law_finish_reports_counts(s: RunState, e: EventView)
    requires
        s.wf(),
        s.accepts(e),
        s.next(e).1 matches ActionView::Finished(Ok(_)),
    ensures
        s.next(e).1 == ActionView::Finished(Ok(s.next(e).0.result())),
{
}

impl RunState {
    /// Whether two runs are at the same point of the same work, whatever
    /// mode they report in and whatever they logged.
    pub open spec fn same_work(self, other: RunState) -> bool {
        &&& self.dry_run == other.dry_run
        &&& self.db_file == other.db_file
        &&& self.files == other.files
        &&& self.phase == other.phase
        &&& self.result() == other.result()
    }

    /// The actions the run answers the events `es` with, one after the other.
    pub open spec fn requests(self, es: Seq<EventView>) -> Seq<ActionView>
        decreases es.len(),
    {
        if es.len() == 0 {
            Seq::empty()
        } else {
            seq![self.next(es[0]).1] + self.next(es[0]).0.requests(es.drop_first())
        }
    }
}

/// The number of items a progress display is made for.
pub open spec fn progress_len(p: ProgressView) -> nat {
    match p {
        ProgressView::Log(c) => c.total,
        ProgressView::Bar(n) => n,
    }
}

/// Whether two actions ask for the same work: the same write of the same
/// number of rows (whatever shows its progress), or the same other action.
pub open spec fn same_request(x: ActionView, y: ActionView) -> bool {
    match (x, y) {
        (ActionView::Persist(p, a), ActionView::Persist(q, b)) => p == q && progress_len(a)
            == progress_len(b),
        _ => x == y,
    }
}

/// One step of two runs at the same point of the same work, in any modes:
/// they accept the same events and answer them with the same request.
pub proof fn law_modes_step_alike(s: RunState, t: RunState, e: EventView)
    requires
        s.same_work(t),
    ensures
        s.accepts(e) == t.accepts(e),
        s.accepts(e) ==> s.next(e).0.same_work(t.next(e).0),
        s.accepts(e) ==> same_request(s.next(e).1, t.next(e).1),
{
}

/// A terminal backup and a web backup of the same files into the same
/// database, fed the same events, accept the same events, ask for the same
/// reads and the same writes in the same order, and end with the same
/// outcome.
pub proof fn law_modes_ask_the_same(s: RunState, t: RunState, es: Seq<EventView>)
    requires
        s.same_work(t),
    ensures
        s.accepts_all(es) == t.accepts_all(es),
        s.accepts_all(es) ==> s.after(es).same_work(t.after(es)),
        s.accepts_all(es) ==> s.requests(es).len() == es.len() && t.requests(es).len() == es.len(),
        s.accepts_all(es) ==> forall|k: int|
            0 <= k < es.len() ==> same_request(#[trigger] s.requests(es)[k], t.requests(es)[k]),
    decreases es.len(),
{
    if es.len() > 0 {
        let e = es[0];
        law_modes_step_alike(s, t, e);
        let (s1, t1) = (s.next(e).0, t.next(e).0);
        if s.accepts(e) {
            law_modes_ask_the_same(s1, t1, es.drop_first());
            if s.accepts_all(es) {
                let rs = s.requests(es);
                let rt = t.requests(es);
                assert forall|k: int| 0 <= k < es.len() implies same_request(
                    #[trigger] rs[k],
                    rt[k],
                ) by {
                    if k > 0 {
                        assert(rs[k] == s1.requests(es.drop_first())[k - 1]);
                        assert(rt[k] == t1.requests(es.drop_first())[k - 1]);
                    }
                }
            }
        }
    }
}

/// The starting states of a terminal backup and of a web backup of the
/// same files into the same database are at the same point of the same work.
pub proof fn law_modes_start_alike(
    files: Seq<Seq<char>>,
    db_file: Seq<char>,
    dry_run: bool,
    log_lines: Seq<Seq<char>>,
)
    ensures
        initial_state(BackupMode::Console, files, db_file, dry_run, Seq::empty()).same_work(
            initial_state(BackupMode::Log, files, db_file, dry_run, log_lines),
        ),
{
}

/// The events of a run whose backup database opens.
pub open spec fn opening() -> Seq<EventView> {
    seq![EventView::Start, EventView::DatabaseOpened(None)]
}

/// Two dry runs where the second is busy with the same step of a file
/// `shift` places further on, and has at least as many files left.
pub open spec fn dry_shifted(s: RunState, t: RunState, shift: nat) -> bool {
    &&& s.wf()
    &&& t.wf()
    &&& s.dry_run
    &&& t.dry_run
    &&& s.files.len() + shift <= t.files.len()
    &&& t.found >= s.found
    &&& t.failed >= s.failed
    &&& match s.phase {
        PhaseView::Reading(i) => t.phase == PhaseView::Reading(i + shift),
        PhaseView::Retrying(i, d) => t.phase == PhaseView::Retrying(i + shift, d),
        _ => false,
    }
}

#[verifier::spinoff_prover]
proof fn lemma_next_wf(s: RunState, e: EventView)
    requires
        s.wf(),
        s.accepts(e),
    ensures
        s.next(e).0.wf(),
{
}

#[verifier::spinoff_prover]
proof fn lemma_after_concat(s: RunState, x: Seq<EventView>, y: Seq<EventView>)
    ensures
        s.accepts_all(x + y) == (s.accepts_all(x) && s.after(x).accepts_all(y)),
        s.after(x + y) == s.after(x).after(y),
    decreases x.len(),
{
    if x.len() == 0 {
        assert(x + y =~= y);
    } else {
        assert((x + y)[0] == x[0]);
        assert((x + y).drop_first() =~= x.drop_first() + y);
        lemma_after_concat(s.next(x[0]).0, x.drop_first(), y);
    }
}

#[verifier::spinoff_prover]
proof fn lemma_done_accepts_nothing(s: RunState, es: Seq<EventView>)
    requires
        s.phase is Done,
        s.accepts_all(es),
    ensures
        es.len() == 0,
        s.after(es) == s,
{
    if es.len() > 0 {
        assert(!s.accepts(es[0]));
    }
}

#[verifier::spinoff_prover]
proof fn lemma_opening(s: RunState)
    requires
        s.wf(),
        s.phase is Ready,
    ensures
        s.accepts_all(opening()),
        s.after(opening()).result() == s.result(),
        s.after(opening()).files == s.files,
        s.after(opening()).dry_run == s.dry_run,
        s.after(opening()).wf(),
        s.after(opening()).phase == (if s.files.len() > 0 {
            PhaseView::Reading(0)
        } else {
            PhaseView::Done
        }),
{
    let o = opening();
    let s1 = s.next(o[0]).0;
    let o1 = o.drop_first();
    assert(o1 =~= seq![EventView::DatabaseOpened(None)]);
    let o2 = o1.drop_first();
    assert(o2 =~= Seq::<EventView>::empty());
    lemma_next_wf(s, o[0]);
    lemma_next_wf(s1, o1[0]);
    let s2 = s1.next(o1[0]).0;
    assert(s2.accepts_all(o2));
    assert(s2.after(o2) == s2);
    assert(s1.accepts_all(o1));
    assert(s1.after(o1) == s2);
    assert(s.accepts_all(o));
    assert(s.after(o) == s2);
}

#[verifier::spinoff_prover]
proof fn lemma_dry_shifted(s: RunState, t: RunState, shift: nat, es: Seq<EventView>)
    requires
        dry_shifted(s, t, shift),
        s.accepts_all(es),
        s.after(es).found + (t.found - s.found) <= usize::MAX,
    ensures
        t.accepts_all(es),
        t.after(es).found == s.after(es).found + (t.found - s.found),
        t.after(es).failed == s.after(es).failed + (t.failed - s.failed),
        t.after(es).wf(),
        t.after(es).dry_run == t.dry_run,
        t.after(es).files == t.files,
        s.after(es).phase is Done ==> t.after(es).phase == (if s.files.len() + shift
            < t.files.len() {
            PhaseView::Reading(s.files.len() + shift)
        } else {
            PhaseView::Done
        }),
        !(s.after(es).phase is Done) ==> dry_shifted(s.after(es), t.after(es), shift),
    decreases es.len(),
{
    if es.len() > 0 {
        let e = es[0];
        let rest = es.drop_first();
        let s1 = s.next(e).0;
        let t1 = t.next(e).0;
        law_counts_are_sums(s1, rest);
        lemma_next_wf(s, e);
        assert(t.accepts(e));
        lemma_next_wf(t, e);
        if s1.phase is Done {
            lemma_done_accepts_nothing(s1, rest);
            assert(rest =~= Seq::<EventView>::empty());
            assert(t1.accepts_all(rest));
            assert(t1.after(rest) == t1);
            assert(t.accepts_all(es));
        } else {
            assert(dry_shifted(s1, t1, shift));
            lemma_dry_shifted(s1, t1, shift, rest);
        }
    }
}

/// Dry runs add up: if dry runs over the files `a` and over the files `b`
/// both finish once the database opens, then a dry run over `a` followed by
/// `b`, fed the events of the first run followed by those of the second,
/// finishes too, having found the rows of both and failed the files of
/// both, and imported and duplicated nothing (as long as the total found
/// stays in range).
#[verifier::spinoff_prover]
pub proof fn law_dry_runs_add_up(
    mode: BackupMode,
    a: Seq<Seq<char>>,
    b: Seq<Seq<char>>,
    db_file: Seq<char>,
    lines_a: Seq<Seq<char>>,
    lines_b: Seq<Seq<char>>,
    lines_ab: Seq<Seq<char>>,
    ea: Seq<EventView>,
    eb: Seq<EventView>,
)
    requires
        a.len() + b.len() <= usize::MAX,
        initial_state(mode, a, db_file, true, lines_a).accepts_all(opening() + ea),
        initial_state(mode, a, db_file, true, lines_a).after(opening() + ea).phase is Done,
        initial_state(mode, b, db_file, true, lines_b).accepts_all(opening() + eb),
        initial_state(mode, b, db_file, true, lines_b).after(opening() + eb).phase is Done,
        initial_state(mode, a, db_file, true, lines_a).after(opening() + ea).found
            + initial_state(mode, b, db_file, true, lines_b).after(opening() + eb).found
            <= usize::MAX,
    ensures
        ({
            let ra = initial_state(mode, a, db_file, true, lines_a).after(opening() + ea);
            let rb = initial_state(mode, b, db_file, true, lines_b).after(opening() + eb);
            let s = initial_state(mode, a + b, db_file, true, lines_ab);
            &&& s.accepts_all(opening() + (ea + eb))
            &&& s.after(opening() + (ea + eb)).phase is Done
            &&& s.after(opening() + (ea + eb)).result() == BackupResult {
                found: (ra.found + rb.found) as usize,
                imported: 0,
                duplicated: 0,
                failed: (ra.failed + rb.failed) as usize,
            }
        }),
{
    let sa = initial_state(mode, a, db_file, true, lines_a);
    let sb = initial_state(mode, b, db_file, true, lines_b);
    let s = initial_state(mode, a + b, db_file, true, lines_ab);
    let o = opening();
    lemma_after_concat(sa, o, ea);
    lemma_after_concat(sb, o, eb);
    lemma_after_concat(s, o, ea + eb);
    lemma_opening(sa);
    lemma_opening(sb);
    lemma_opening(s);
    let sa1 = sa.after(o);
    let sb1 = sb.after(o);
    let s1 = s.after(o);
    lemma_after_concat(s1, ea, eb);
    law_counts_are_sums(sa1, ea);
    law_counts_are_sums(sb1, eb);
    if a.len() > 0 {
        assert(dry_shifted(sa1, s1, 0));
        lemma_dry_shifted(sa1, s1, 0, ea);
        let s2 = s1.after(ea);
        if b.len() == 0 {
            lemma_done_accepts_nothing(sb1, eb);
            lemma_done_accepts_nothing(s2, eb);
        } else {
            assert(dry_shifted(sb1, s2, a.len()));
            lemma_dry_shifted(sb1, s2, a.len(), eb);
        }
    } else {
        lemma_done_accepts_nothing(sa1, ea);
        assert(ea =~= Seq::<EventView>::empty());
        assert(a + b =~= b);
        if b.len() == 0 {
            lemma_done_accepts_nothing(sb1, eb);
            lemma_done_accepts_nothing(s1, eb);
        } else {
            assert(dry_shifted(sb1, s1, 0));
            lemma_dry_shifted(sb1, s1, 0, eb);
        }
    }
}

/// The text of a number in decimal: zero is `0`.
pub proof fn law_zero_is_printed_as_0()
    ensures
        decimal(0) == seq!['0'],
{
    assert(((48 + 0) as char) == '0');
}

/// A write that succeeds, whatever it counted as imported or duplicated (a
/// file backed up before gives only duplicates), adds its counts, logs that
/// the file is done and moves on: to the read of the next file, or, after
/// the last file, to the end of the run with the counts.
#[verifier::spinoff_prover]
pub proof fn law_write_moves_on(s: RunState, a: nat, d: nat, progress: Seq<Seq<char>>)
    requires
        s.wf(),
        s.phase is Writing,
        s.accepts(EventView::Persisted(Ok((a, d)), progress)),
    ensures
        ({
            let i = s.current().unwrap();
            let (t, act) = s.next(EventView::Persisted(Ok((a, d)), progress));
            let path = s.files[i as int];
            let counts = BackupResult {
                found: s.found,
                imported: (s.imported + a) as usize,
                duplicated: (s.duplicated + d) as usize,
                failed: s.failed,
            };
            let done = match s.mode {
                BackupMode::Log => "Done: "@ + path,
                BackupMode::Console => "Finish backup "@ + path,
            };
            &&& t.result() == counts
            &&& t.files == s.files
            &&& t.lines.take((s.lines.len() + progress.len() + 1) as int) == (s.lines + progress).push(
                done,
            )
            &&& i + 1 < s.files.len() ==> {
                &&& act == ActionView::LoadDirect(s.files[i + 1int])
                &&& t.phase == PhaseView::Reading(i + 1)
            }
            &&& i + 1 == s.files.len() ==> {
                &&& act == ActionView::Finished(Ok(counts))
                &&& t.phase is Done
            }
        }),
{
    let e = EventView::Persisted(Ok((a, d)), progress);
    let t = s.next(e).0;
    let i = s.current().unwrap();
    let path = s.files[i as int];
    let u = RunState {
        imported: (s.imported + a) as usize,
        duplicated: (s.duplicated + d) as usize,
        lines: s.lines + progress,
        ..s
    }.log(done_line(s.mode, path));
    assert(t.lines.take(u.lines.len() as int) =~= u.lines);
}

/// A run waiting for a write accepts every successful write whose counts
/// keep the totals in range, whatever the counts are (none imported
/// included), and every failed write.
pub proof fn law_every_write_is_accepted(
    s: RunState,
    a: nat,
    d: nat,
    err: Seq<char>,
    progress: Seq<Seq<char>>,
)
    requires
        s.wf(),
        s.phase is Writing,
    ensures
        s.accepts(EventView::Persisted(Ok((a, d)), progress)) <==> (s.imported + a <= usize::MAX
            && s.duplicated + d <= usize::MAX),
        s.accepts(EventView::Persisted(Err(err), progress)),
{
}

/// Once a file is read, its rows are written under that file's own path,
/// with a progress display made for its rows (a log collector labelled with
/// the path, or a bar); the read is logged by name and its rows are added
/// to `found`. In a dry run nothing is written and the run goes on with the
/// next file, or ends.
#[verifier::spinoff_prover]
pub proof fn law_write_names_loaded_file(s: RunState, n: nat)
    requires
        s.wf(),
        s.phase is Reading || s.phase is Retrying,
        s.accepts(EventView::Loaded(n)),
    ensures
        ({
            let i = s.current().unwrap();
            let (t, act) = s.next(EventView::Loaded(n));
            let path = s.files[i as int];
            let begin = match s.mode {
                BackupMode::Log => "Processing "@ + path + " ("@ + decimal(n) + " records)..."@,
                BackupMode::Console => "Begin backup "@ + path + "..."@,
            };
            &&& t.found == s.found + n
            &&& t.imported == s.imported
            &&& t.duplicated == s.duplicated
            &&& t.failed == s.failed
            &&& t.lines.len() > s.lines.len()
            &&& t.lines[s.lines.len() as int] == begin
            &&& t.lines.take(s.lines.len() as int) == s.lines
            &&& !s.dry_run ==> {
                &&& t.phase == PhaseView::Writing(i)
                &&& act == ActionView::Persist(
                    path,
                    match s.mode {
                        BackupMode::Log => ProgressView::Log(
                            CollectorState {
                                label: path,
                                total: n,
                                done: 0,
                                lines: Seq::empty(),
                            },
                        ),
                        BackupMode::Console => ProgressView::Bar(n),
                    },
                )
            }
            &&& s.dry_run ==> {
                &&& (i + 1 < s.files.len() ==> act == ActionView::LoadDirect(s.files[i + 1int]))
                &&& (i + 1 == s.files.len() ==> act == ActionView::Finished(Ok(t.result())))
            }
        }),
{
    let e = EventView::Loaded(n);
    let t = s.next(e).0;
    assert(t.lines.take(s.lines.len() as int) =~= s.lines);
}

/// A terminal run that ends without a database error closes its log with
/// the summary of the counts it reports:
/// `Summary\nFound:F, Imported:I, Duplicated: D, Failed:X`; in a dry run
/// imported and duplicated are zero.
#[verifier::spinoff_prover]
pub proof fn law_terminal_summary(s: RunState, e: EventView)
    requires
        s.wf(),
        s.accepts(e),
        s.mode == BackupMode::Console,
        s.next(e).1 is Finished,
        s.next(e).1->Finished_0 is Ok,
    ensures
        ({
            let r = s.next(e).1->Finished_0->Ok_0;
            let t = s.next(e).0;
            &&& r == t.result()
            &&& t.lines.len() > 0
            &&& t.lines.last() == "Summary\nFound:"@ + decimal(r.found as nat) + ", Imported:"@
                + decimal(r.imported as nat) + ", Duplicated: "@ + decimal(r.duplicated as nat)
                + ", Failed:"@ + decimal(r.failed as nat)
            &&& s.dry_run ==> r.imported == 0 && r.duplicated == 0
        }),
{
}

/// A run first asks to open the backup database it was given; if that
/// fails, the run ends at once with the failure, having read nothing;
/// otherwise it asks for the first file, or ends with its counts (zero for
/// a fresh run) when there is none.
pub proof fn law_run_opens_the_database_first(s: RunState, err: Seq<char>)
    requires
        s.wf(),
        s.phase is Ready,
    ensures
        s.next(EventView::Start).1 == ActionView::OpenDatabase(s.db_file),
        ({
            let o = s.next(EventView::Start).0;
            &&& o.accepts(EventView::DatabaseOpened(Some(err)))
            &&& o.next(EventView::DatabaseOpened(Some(err))).1 == ActionView::Finished(Err(err))
            &&& o.next(EventView::DatabaseOpened(Some(err))).0.phase is Done
            &&& o.next(EventView::DatabaseOpened(Some(err))).0.lines == s.lines
            &&& s.files.len() > 0 ==> o.next(EventView::DatabaseOpened(None)).1
                == ActionView::LoadDirect(s.files[0])
            &&& s.files.len() == 0 ==> o.next(EventView::DatabaseOpened(None)).1
                == ActionView::Finished(Ok(s.result()))
        }),
        initial_state(s.mode, s.files, s.db_file, s.dry_run, s.lines).result() == (BackupResult {
            found: 0,
            imported: 0,
            duplicated: 0,
            failed: 0,
        }),
{
}

} // verus!
