use vstd::prelude::*;

use crate::events::{AppEvent, AppEventView, TransferStat, events_view, opt_string_view};
use crate::paths::{
    path_join, path_joined, path_parent, path_parent_of, path_strip_prefix, path_strip_prefix_of,
};
use crate::text::{decimal, decimal_spec, join2, join3, join4};

verus! {

/// The size of the buffer a file is copied through.
pub const COPY_BUFFER_SIZE: usize = 65536;

/// The state of a row of the transfer queue, as the `status` column spells it.
#[derive(Clone, Copy, Debug, PartialEq, Eq, Structural)]
pub enum JobStatus {
    Pending,
    Processing,
    Completed,
    Skipped,
    Failed,
}

pub open spec fn job_status_text(s: JobStatus) -> Seq<char> {
    match s {
        JobStatus::Pending => "Pending"@,
        JobStatus::Processing => "Processing"@,
        JobStatus::Completed => "Completed"@,
        JobStatus::Skipped => "Skipped"@,
        JobStatus::Failed => "Failed"@,
    }
}

impl JobStatus {
    /// The value stored in the `status` column.
    pub fn as_str(&self) -> (s: &'static str)
        ensures
            s@ == job_status_text(*self),
    {
        match self {
            JobStatus::Pending => "Pending",
            JobStatus::Processing => "Processing",
            JobStatus::Completed => "Completed",
            JobStatus::Skipped => "Skipped",
            JobStatus::Failed => "Failed",
        }
    }
}

/// A regular file found under the source tree, with the path it is copied to.
#[derive(Clone, Debug, PartialEq, Eq)]
pub struct DiscoveredFile {
    pub source_path: String,
    pub dest_path: String,
    pub file_size: u64,
}

/// A discovered file as a mathematical value.
pub struct FileView {
    pub source: Seq<char>,
    pub dest: Seq<char>,
    pub size: u64,
}

impl View for DiscoveredFile {
    type V = FileView;

    open spec fn view(&self) -> FileView {
        FileView { source: self.source_path@, dest: self.dest_path@, size: self.file_size }
    }
}

/// The file found at `entry`, while walking `scan_root`, mirrored under
/// `dest_root`: `None` where `entry` does not lie under `scan_root`.
pub open spec fn discover_spec(scan_root: Seq<char>, dest_root: Seq<char>, entry: Seq<char>, size: u64) -> Option<FileView> {
    match path_strip_prefix_of(entry, scan_root) {
        None => None,
        Some(rel) => Some(FileView { source: entry, dest: path_joined(dest_root, rel), size }),
    }
}

/// Maps a file met while walking `scan_root` to its place under `dest_root`.
pub fn discover(scan_root: &str, dest_root: &str, entry_path: &str, file_size: u64) -> (r: Option<DiscoveredFile>)
    ensures
        match r {
            Some(f) => discover_spec(scan_root@, dest_root@, entry_path@, file_size) == Some(f@),
            None => discover_spec(scan_root@, dest_root@, entry_path@, file_size) is None,
        },
{
    match path_strip_prefix(entry_path, scan_root) {
        None => None,
        Some(rel) => {
            let dest_path = path_join(dest_root, rel.as_str());
            Some(DiscoveredFile { source_path: String::from_str(entry_path), dest_path, file_size })
        },
    }
}

/// The directory to create before the copy of a file to `dest` starts: the
/// parent of `dest`, if it has one.
pub fn copy_target_dir(dest: &str) -> (r: Option<String>)
    ensures
        opt_string_view(r) == path_parent_of(dest@),
{
    path_parent(dest)
}

/// A change to the transfer queue table.
#[derive(Clone, Debug, PartialEq, Eq)]
pub enum DbCommand {
    /// Insert or refresh the row of `source`, discarding its id.
    RecordFileStatus { source: String, dest: String, size: i64, status: JobStatus, error: Option<String> },
    /// Insert or refresh the row of `source` and read back its id.
    UpsertFile { source: String, dest: String, size: i64, status: JobStatus, error: Option<String> },
    /// Set the status (and error) of row `id`.
    UpdateStatus { id: i64, status: JobStatus, error: Option<String> },
    /// Set how many bytes of row `id` were copied.
    UpdateProgress { id: i64, bytes: i64 },
    /// Mark every row left `Processing` by an earlier run as failed.
    ClearProcessing,
}

pub enum DbCommandView {
    RecordFileStatus { source: Seq<char>, dest: Seq<char>, size: i64, status: JobStatus, error: Option<Seq<char>> },
    UpsertFile { source: Seq<char>, dest: Seq<char>, size: i64, status: JobStatus, error: Option<Seq<char>> },
    UpdateStatus { id: i64, status: JobStatus, error: Option<Seq<char>> },
    UpdateProgress { id: i64, bytes: i64 },
    ClearProcessing,
}

impl View for DbCommand {
    type V = DbCommandView;

    open spec fn view(&self) -> DbCommandView {
        match self {
            DbCommand::RecordFileStatus { source, dest, size, status, error } => DbCommandView::RecordFileStatus {
                source: source@,
                dest: dest@,
                size: *size,
                status: *status,
                error: opt_string_view(*error),
            },
            DbCommand::UpsertFile { source, dest, size, status, error } => DbCommandView::UpsertFile {
                source: source@,
                dest: dest@,
                size: *size,
                status: *status,
                error: opt_string_view(*error),
            },
            DbCommand::UpdateStatus { id, status, error } => DbCommandView::UpdateStatus {
                id: *id,
                status: *status,
                error: opt_string_view(*error),
            },
            DbCommand::UpdateProgress { id, bytes } => DbCommandView::UpdateProgress { id: *id, bytes: *bytes },
            DbCommand::ClearProcessing => DbCommandView::ClearProcessing,
        }
    }
}

/// One thing the engine does for a file, in order.
#[derive(Clone, Debug, PartialEq, Eq)]
pub enum Action {
    /// Run a command against the queue table.
    Db(DbCommand),
    /// Send an event to the dashboard.
    Notify(AppEvent),
    /// Copy the file's bytes, reporting progress under row `id`.
    Copy { id: i64 },
}

pub enum ActionView {
    Db(DbCommandView),
    Notify(AppEventView),
    Copy { id: i64 },
}

impl View for Action {
    type V = ActionView;

    open spec fn view(&self) -> ActionView {
        match self {
            Action::Db(c) => ActionView::Db(c@),
            Action::Notify(e) => ActionView::Notify(e@),
            Action::Copy { id } => ActionView::Copy { id: *id },
        }
    }
}

pub open spec fn actions_view(actions: Seq<Action>) -> Seq<ActionView> {
    actions.map_values(|a: Action| a@)
}

/// Where the work on one file stands.
#[derive(Clone, Copy, Debug, PartialEq, Eq, Structural)]
pub enum JobPhase {
    /// Found; not yet checked against the destination.
    Discovered,
    /// The destination was free; the row is being registered.
    Registering,
    /// Registered under the id; the bytes are being copied.
    Copying(i64),
    /// Nothing more to do.
    Done,
}

/// What the outside world reports back about one file.
#[derive(Debug, PartialEq, Eq)]
pub enum JobEvent {
    /// Whether the destination path already exists.
    Checked { dest_exists: bool },
    /// The id of the registered row, or the database error text.
    Registered(Result<i64, String>),
    /// Whether the copy succeeded, or its error text.
    Copied(Result<(), String>),
}

pub enum JobEventView {
    Checked { dest_exists: bool },
    Registered(Result<i64, Seq<char>>),
    Copied(Result<(), Seq<char>>),
}

impl View for JobEvent {
    type V = JobEventView;

    open spec fn view(&self) -> JobEventView {
        match self {
            JobEvent::Checked { dest_exists } => JobEventView::Checked { dest_exists: *dest_exists },
            JobEvent::Registered(r) => JobEventView::Registered(
                match r {
                    Ok(id) => Ok(*id),
                    Err(e) => Err(e@),
                },
            ),
            JobEvent::Copied(r) => JobEventView::Copied(
                match r {
                    Ok(_) => Ok(()),
                    Err(e) => Err(e@),
                },
            ),
        }
    }
}

/// Event `e` is the one that phase `p` waits for.
pub open spec fn awaits(p: JobPhase, e: JobEventView) -> bool {
    match p {
        JobPhase::Discovered => e is Checked,
        JobPhase::Registering => e is Registered,
        JobPhase::Copying(_) => e is Copied,
        JobPhase::Done => false,
    }
}

pub open spec fn skip_log(src: Seq<char>) -> Seq<char> {
    "Ja existe no destino: "@ + src
}

pub open spec fn register_error_log(src: Seq<char>, err: Seq<char>) -> Seq<char> {
    "Erro ao registrar "@ + src + " no banco: "@ + err
}

pub open spec fn copying_log(src: Seq<char>) -> Seq<char> {
    "Copiando: "@ + src
}

pub open spec fn success_log(src: Seq<char>) -> Seq<char> {
    "Sucesso: "@ + src
}

pub open spec fn failure_log(src: Seq<char>, err: Seq<char>) -> Seq<char> {
    "Erro em "@ + src + ": "@ + err
}

/// The size as the `file_size` column holds it (two's complement of the `u64`).
pub open spec fn size_column(size: u64) -> i64 {
    size as i64
}

/// The phase after `e`, and what to do, for file `f` in phase `p`.
pub open spec fn step_spec(f: FileView, p: JobPhase, e: JobEventView) -> (JobPhase, Seq<ActionView>) {
    match e {
        JobEventView::Checked { dest_exists } => if dest_exists {
            (
                JobPhase::Done,
                seq![
                    ActionView::Db(DbCommandView::RecordFileStatus {
                        source: f.source,
                        dest: f.dest,
                        size: size_column(f.size),
                        status: JobStatus::Skipped,
                        error: None,
                    }),
                    ActionView::Notify(AppEventView::Log(skip_log(f.source))),
                    ActionView::Notify(AppEventView::StatsUpdate(TransferStat::Skipped)),
                ],
            )
        } else {
            (
                JobPhase::Registering,
                seq![
                    ActionView::Db(DbCommandView::UpsertFile {
                        source: f.source,
                        dest: f.dest,
                        size: size_column(f.size),
                        status: JobStatus::Processing,
                        error: None,
                    }),
                ],
            )
        },
        JobEventView::Registered(r) => match r {
            Err(err) => (JobPhase::Done, seq![ActionView::Notify(AppEventView::Log(register_error_log(f.source, err)))]),
            Ok(id) => (
                JobPhase::Copying(id),
                seq![
                    ActionView::Notify(AppEventView::CurrentFile(Some(f.source))),
                    ActionView::Notify(AppEventView::Log(copying_log(f.source))),
                    ActionView::Copy { id },
                ],
            ),
        },
        JobEventView::Copied(r) => {
            let id = match p {
                JobPhase::Copying(id) => id,
                _ => 0,
            };
            match r {
                Ok(_) => (
                    JobPhase::Done,
                    seq![
                        ActionView::Db(DbCommandView::UpdateStatus { id, status: JobStatus::Completed, error: None }),
                        ActionView::Notify(AppEventView::Log(success_log(f.source))),
                        ActionView::Notify(AppEventView::StatsUpdate(TransferStat::Completed)),
                        ActionView::Notify(AppEventView::CurrentFile(None)),
                    ],
                ),
                Err(err) => (
                    JobPhase::Done,
                    seq![
                        ActionView::Db(DbCommandView::UpdateStatus { id, status: JobStatus::Failed, error: Some(err) }),
                        ActionView::Notify(AppEventView::Log(failure_log(f.source, err))),
                        ActionView::Notify(AppEventView::StatsUpdate(TransferStat::Failed)),
                        ActionView::Notify(AppEventView::CurrentFile(None)),
                    ],
                ),
            }
        },
    }
}

/// The work on one discovered file.
pub struct Job {
    file: DiscoveredFile,
    phase: JobPhase,
}

pub struct JobView {
    pub file: FileView,
    pub phase: JobPhase,
}

impl View for Job {
    type V = JobView;

    closed spec fn view(&self) -> JobView {
        JobView { file: self.file@, phase: self.phase }
    }
}

fn copy_string(s: &String) -> (r: String)
    ensures
        r@ == s@,
{
    s.clone()
}

/// The size as the `file_size` column takes it.
pub fn size_for_db(size: u64) -> (r: i64)
    ensures
        r == size_column(size),
        size < 0x8000_0000_0000_0000 ==> r as int == size as int,
        size >= 0x8000_0000_0000_0000 ==> r as int == size as int - 0x1_0000_0000_0000_0000,
{
    proof {
        crate::laws::law_size_column_exact(size);
    }
    size as i64
}

impl Job {
    /// Starts the work on `file`.
    pub fn new(file: DiscoveredFile) -> (j: Job)
        ensures
            j@.file == file@,
            j@.phase == JobPhase::Discovered,
    {
        Job { file, phase: JobPhase::Discovered }
    }

    /// The file this job is about.
    pub fn file(&self) -> (f: &DiscoveredFile)
        ensures
            f@ == self@.file,
    {
        &self.file
    }

    /// Where the job stands.
    pub fn phase(&self) -> (p: JobPhase)
        ensures
            p == self@.phase,
    {
        self.phase
    }

    /// Whether nothing more is to be done.
    pub fn is_done(&self) -> (b: bool)
        ensures
            b == (self@.phase == JobPhase::Done),
    {
        self.phase == JobPhase::Done
    }

    /// Takes what the outside world reported and says what to do next.
    pub fn step(&mut self, event: JobEvent) -> (actions: Vec<Action>)
        requires
            awaits(old(self)@.phase, event@),
        ensures
            final(self)@.file == old(self)@.file,
            (final(self)@.phase, actions_view(actions@)) == step_spec(old(self)@.file, old(self)@.phase, event@),
    {
        let ghost f = self.file@;
        let mut actions: Vec<Action> = Vec::new();
        match event {
            JobEvent::Checked { dest_exists } => {
                if dest_exists {
                    actions.push(Action::Db(DbCommand::RecordFileStatus {
                        source: copy_string(&self.file.source_path),
                        dest: copy_string(&self.file.dest_path),
                        size: size_for_db(self.file.file_size),
                        status: JobStatus::Skipped,
                        error: None,
                    }));
                    actions.push(Action::Notify(AppEvent::Log(join2("Ja existe no destino: ", self.file.source_path.as_str()))));
                    actions.push(Action::Notify(AppEvent::StatsUpdate(TransferStat::Skipped)));
                    self.phase = JobPhase::Done;
                } else {
                    actions.push(Action::Db(DbCommand::UpsertFile {
                        source: copy_string(&self.file.source_path),
                        dest: copy_string(&self.file.dest_path),
                        size: size_for_db(self.file.file_size),
                        status: JobStatus::Processing,
                        error: None,
                    }));
                    self.phase = JobPhase::Registering;
                }
            },
            JobEvent::Registered(r) => match r {
                Err(err) => {
                    actions.push(Action::Notify(AppEvent::Log(join4(
                        "Erro ao registrar ",
                        self.file.source_path.as_str(),
                        " no banco: ",
                        err.as_str(),
                    ))));
                    self.phase = JobPhase::Done;
                },
                Ok(id) => {
                    actions.push(Action::Notify(AppEvent::CurrentFile(Some(copy_string(&self.file.source_path)))));
                    actions.push(Action::Notify(AppEvent::Log(join2("Copiando: ", self.file.source_path.as_str()))));
                    actions.push(Action::Copy { id });
                    self.phase = JobPhase::Copying(id);
                },
            },
            JobEvent::Copied(r) => {
                let id = match self.phase {
                    JobPhase::Copying(id) => id,
                    _ => 0,
                };
                match r {
                    Ok(_) => {
                        actions.push(Action::Db(DbCommand::UpdateStatus { id, status: JobStatus::Completed, error: None }));
                        actions.push(Action::Notify(AppEvent::Log(join2("Sucesso: ", self.file.source_path.as_str()))));
                        actions.push(Action::Notify(AppEvent::StatsUpdate(TransferStat::Completed)));
                        actions.push(Action::Notify(AppEvent::CurrentFile(None)));
                    },
                    Err(err) => {
                        let log = join4("Erro em ", self.file.source_path.as_str(), ": ", err.as_str());
                        actions.push(Action::Db(DbCommand::UpdateStatus { id, status: JobStatus::Failed, error: Some(err) }));
                        actions.push(Action::Notify(AppEvent::Log(log)));
                        actions.push(Action::Notify(AppEvent::StatsUpdate(TransferStat::Failed)));
                        actions.push(Action::Notify(AppEvent::CurrentFile(None)));
                    },
                }
                self.phase = JobPhase::Done;
            },
        }
        let ghost expected = step_spec(f, old(self)@.phase, event@);
        assert(actions_view(actions@) =~= expected.1);
        actions
    }
}

/// How far the copy of one file has got.
pub struct CopyProgress {
    job_id: i64,
    total: i64,
}

pub struct CopyProgressView {
    pub job_id: i64,
    pub total: int,
}

impl View for CopyProgress {
    type V = CopyProgressView;

    closed spec fn view(&self) -> CopyProgressView {
        CopyProgressView { job_id: self.job_id, total: self.total as int }
    }
}

impl CopyProgress {
    #[verifier::type_invariant]
    spec fn counts_up(&self) -> bool {
        self.total >= 0
    }

    /// Nothing copied yet for row `job_id`.
    pub fn new(job_id: i64) -> (p: CopyProgress)
        ensures
            p@.job_id == job_id,
            p@.total == 0,
    {
        CopyProgress { job_id, total: 0 }
    }

    /// Bytes copied so far.
    pub fn total(&self) -> (t: i64)
        ensures
            t as int == self@.total,
            t >= 0,
    {
        proof {
            use_type_invariant(self);
        }
        self.total
    }

    /// Takes the count of one read: zero ends the copy (`None`); otherwise the
    /// count is added to the total and the new total is reported.
    pub fn record_chunk(&mut self, bytes_read: usize) -> (report: Option<DbCommand>)
        requires
            old(self)@.total + bytes_read <= i64::MAX,
        ensures
            final(self)@.job_id == old(self)@.job_id,
            final(self)@.total == old(self)@.total + bytes_read,
            bytes_read == 0 ==> report is None,
            bytes_read > 0 ==> (report matches Some(c) && c@ == (DbCommandView::UpdateProgress {
                id: old(self)@.job_id,
                bytes: (old(self)@.total + bytes_read) as i64,
            })),
    {
        proof {
            use_type_invariant(&*self);
        }
        if bytes_read == 0 {
            return None;
        }
        self.total = self.total + bytes_read as i64;
        Some(DbCommand::UpdateProgress { id: self.job_id, bytes: self.total })
    }
}

pub open spec fn mapping_log(smb_mount: Seq<char>) -> Seq<char> {
    "Mapeando origem UNC: "@ + smb_mount
}

pub open spec fn workers_log(workers: nat) -> Seq<char> {
    "Iniciando transferencia com "@ + decimal_spec(workers) + " workers."@
}

pub open spec fn discovery_log() -> Seq<char> {
    "Descobrindo arquivos e liberando copia em streaming..."@
}

pub open spec fn all_done_log() -> Seq<char> {
    "Todas as transferencias foram processadas!"@
}

/// What a transfer run does first: fail the rows an interrupted run left
/// `Processing`, then announce the source and the number of workers.
pub open spec fn opening_spec(smb_mount: Seq<char>, workers: nat) -> Seq<ActionView> {
    seq![
        ActionView::Db(DbCommandView::ClearProcessing),
        ActionView::Notify(AppEventView::Log(mapping_log(smb_mount))),
        ActionView::Notify(AppEventView::Log(workers_log(workers))),
    ]
}

/// The opening steps of a transfer from `smb_mount` with `workers` copies at a time.
pub fn stream_opening(smb_mount: &str, workers: usize) -> (actions: Vec<Action>)
    ensures
        actions_view(actions@) == opening_spec(smb_mount@, workers as nat),
{
    let mut actions: Vec<Action> = Vec::new();
    actions.push(Action::Db(DbCommand::ClearProcessing));
    actions.push(Action::Notify(AppEvent::Log(join2("Mapeando origem UNC: ", smb_mount))));
    let count = decimal(workers as u64);
    actions.push(Action::Notify(AppEvent::Log(join3("Iniciando transferencia com ", count.as_str(), " workers."))));
    assert(actions_view(actions@) =~= opening_spec(smb_mount@, workers as nat));
    actions
}

/// The note sent when the walk of the source tree begins.
pub fn discovery_started() -> (e: AppEvent)
    ensures
        e@ == AppEventView::Log(discovery_log()),
{
    AppEvent::Log(String::from_str("Descobrindo arquivos e liberando copia em streaming..."))
}

pub open spec fn scan_error_log(err: Seq<char>) -> Seq<char> {
    "Erro ao varrer diretorio: "@ + err
}

/// The note sent when an entry of the source tree cannot be read.
pub fn scan_error(err: &str) -> (e: AppEvent)
    ensures
        e@ == AppEventView::Log(scan_error_log(err@)),
{
    AppEvent::Log(join2("Erro ao varrer diretorio: ", err))
}

pub open spec fn metadata_error_log(path: Seq<char>, err: Seq<char>) -> Seq<char> {
    "Nao foi possivel ler metadados de "@ + path + ": "@ + err
}

/// The note sent when the size of a found file cannot be read.
pub fn metadata_error(path: &str, err: &str) -> (e: AppEvent)
    ensures
        e@ == AppEventView::Log(metadata_error_log(path@, err@)),
{
    AppEvent::Log(join4("Nao foi possivel ler metadados de ", path, ": ", err))
}

pub open spec fn run_error_log(err: Seq<char>) -> Seq<char> {
    "Erro na transferencia: "@ + err
}

/// The note sent when a transfer run stops on an error.
pub fn run_error(err: &str) -> (e: AppEvent)
    ensures
        e@ == AppEventView::Log(run_error_log(err@)),
{
    AppEvent::Log(join2("Erro na transferencia: ", err))
}

/// What a transfer run sends once every worker has finished.
pub open spec fn closing_spec() -> Seq<AppEventView> {
    seq![AppEventView::CurrentFile(None), AppEventView::Log(all_done_log())]
}

/// The notes sent once every worker has finished.
pub fn stream_closing() -> (events: Vec<AppEvent>)
    ensures
        events_view(events@) == closing_spec(),
{
    let mut events: Vec<AppEvent> = Vec::new();
    events.push(AppEvent::CurrentFile(None));
    events.push(AppEvent::Log(String::from_str("Todas as transferencias foram processadas!")));
    assert(events_view(events@) =~= closing_spec());
    events
}

} // verus!
