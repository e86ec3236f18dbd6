use vstd::prelude::*;

use crate::events::{AppEvent, AppEventView, TransferStat, opt_string_view};
use crate::text::{contains_spec, contains_str};

verus! {

/// How many log lines the dashboard keeps before it drops the oldest one.
pub const LOG_LIMIT: usize = 50;

/// The line shown in the status box.
#[derive(Clone, Copy, Debug, PartialEq, Eq, Structural)]
pub enum Status {
    Preparing,
    Transferring,
    AwaitingNext,
    Finished,
    StopRequested,
    Interrupted,
}

pub open spec fn status_text_spec(s: Status) -> Seq<char> {
    match s {
        Status::Preparing => "Preparando transferencia em streaming..."@,
        Status::Transferring => "Transferindo arquivo..."@,
        Status::AwaitingNext => "Aguardando proximo arquivo..."@,
        Status::Finished => "Transferencia concluida."@,
        Status::StopRequested => "Parada solicitada pelo usuario."@,
        Status::Interrupted => "Encerrando por Ctrl+C..."@,
    }
}

impl Status {
    /// The text of the status line.
    pub fn text(&self) -> (s: &'static str)
        ensures
            s@ == status_text_spec(*self),
    {
        match self {
            Status::Preparing => "Preparando transferencia em streaming...",
            Status::Transferring => "Transferindo arquivo...",
            Status::AwaitingNext => "Aguardando proximo arquivo...",
            Status::Finished => "Transferencia concluida.",
            Status::StopRequested => "Parada solicitada pelo usuario.",
            Status::Interrupted => "Encerrando por Ctrl+C...",
        }
    }
}

/// What the event loop does after the dashboard took an event.
#[derive(Clone, Copy, Debug, PartialEq, Eq, Structural)]
pub enum Flow {
    /// Keep running; the next render tick redraws.
    Continue,
    /// Redraw now, wait `linger_ms` milliseconds, then leave the loop.
    Shutdown { linger_ms: u64 },
}

pub open spec fn welcome_log() -> Seq<char> {
    "Aplicacao x9 iniciada. Aperte Q, ESC ou Ctrl+C para sair."@
}

pub open spec fn quit_log() -> Seq<char> {
    "Parada solicitada. Restaurando terminal..."@
}

pub open spec fn interrupt_log() -> Seq<char> {
    "Ctrl+C detectado! Encerrando imediatamente..."@
}

pub open spec fn copying_marker() -> Seq<char> {
    "Copiando:"@
}

pub open spec fn all_done_marker() -> Seq<char> {
    "Todas as transferencias"@
}

pub open spec fn idle_file_text() -> Seq<char> {
    "Nenhum arquivo sendo transferido no momento..."@
}

/// The dashboard as a mathematical value.
pub struct DashboardView {
    pub logs: Seq<Seq<char>>,
    pub status: Status,
    pub current_file: Option<Seq<char>>,
    pub completed: nat,
    pub skipped: nat,
    pub failed: nat,
}

/// The state the terminal shows: recent log lines, the status line, the file
/// being copied and how many files were completed, skipped and failed.
pub struct Dashboard {
    logs: Vec<String>,
    status: Status,
    current_file: Option<String>,
    completed: u64,
    skipped: u64,
    failed: u64,
}

pub open spec fn logs_view(logs: Seq<String>) -> Seq<Seq<char>> {
    logs.map_values(|s: String| s@)
}

impl View for Dashboard {
    type V = DashboardView;

    closed spec fn view(&self) -> DashboardView {
        DashboardView {
            logs: logs_view(self.logs@),
            status: self.status,
            current_file: opt_string_view(self.current_file),
            completed: self.completed as nat,
            skipped: self.skipped as nat,
            failed: self.failed as nat,
        }
    }
}

/// The dashboard when the program starts.
pub open spec fn initial_view() -> DashboardView {
    DashboardView {
        logs: seq![welcome_log()],
        status: Status::Preparing,
        current_file: None,
        completed: 0,
        skipped: 0,
        failed: 0,
    }
}

/// The log lines after `msg` is appended: the oldest line is dropped first
/// where more than `LOG_LIMIT` lines are kept.
pub open spec fn logs_after_append(logs: Seq<Seq<char>>, msg: Seq<char>) -> Seq<Seq<char>> {
    if logs.len() > LOG_LIMIT {
        logs.drop_first().push(msg)
    } else {
        logs.push(msg)
    }
}

/// The dashboard after it took event `e`.
pub open spec fn next_view(d: DashboardView, e: AppEventView) -> DashboardView {
    match e {
        AppEventView::Quit => DashboardView {
            logs: d.logs.push(quit_log()),
            status: Status::StopRequested,
            ..d
        },
        AppEventView::Log(msg) => {
            let logs = logs_after_append(d.logs, msg);
            if contains_spec(msg, copying_marker()) {
                DashboardView { logs, status: Status::Transferring, ..d }
            } else if contains_spec(msg, all_done_marker()) {
                DashboardView { logs, status: Status::Finished, current_file: None, ..d }
            } else {
                DashboardView { logs, ..d }
            }
        },
        AppEventView::CurrentFile(f) => {
            if f is None && d.status == Status::Transferring {
                DashboardView { current_file: f, status: Status::AwaitingNext, ..d }
            } else {
                DashboardView { current_file: f, ..d }
            }
        },
        AppEventView::StatsUpdate(stat) => match stat {
            TransferStat::Completed => DashboardView { completed: d.completed + 1, ..d },
            TransferStat::Skipped => DashboardView { skipped: d.skipped + 1, ..d },
            TransferStat::Failed => DashboardView { failed: d.failed + 1, ..d },
        },
    }
}

/// What the loop does after event `e`.
pub open spec fn flow_of(e: AppEventView) -> Flow {
    match e {
        AppEventView::Quit => Flow::Shutdown { linger_ms: QUIT_LINGER_MS },
        _ => Flow::Continue,
    }
}

/// The dashboard after Ctrl+C was caught.
pub open spec fn interrupted_view(d: DashboardView) -> DashboardView {
    DashboardView { logs: d.logs.push(interrupt_log()), status: Status::Interrupted, ..d }
}

/// `d` can take `e` without a counter passing `u64::MAX`.
pub open spec fn can_take(d: DashboardView, e: AppEventView) -> bool {
    match e {
        AppEventView::StatsUpdate(TransferStat::Completed) => d.completed < u64::MAX,
        AppEventView::StatsUpdate(TransferStat::Skipped) => d.skipped < u64::MAX,
        AppEventView::StatsUpdate(TransferStat::Failed) => d.failed < u64::MAX,
        _ => true,
    }
}

impl Dashboard {
    /// The dashboard at start-up: one welcome line, preparing, no file, zero counts.
    pub fn new() -> (d: Dashboard)
        ensures
            d@ == initial_view(),
    {
        let welcome = "Aplicacao x9 iniciada. Aperte Q, ESC ou Ctrl+C para sair.";
        let mut logs: Vec<String> = Vec::new();
        logs.push(String::from_str(welcome));
        let d = Dashboard {
            logs,
            status: Status::Preparing,
            current_file: None,
            completed: 0,
            skipped: 0,
            failed: 0,
        };
        assert(d@.logs =~= seq![welcome_log()]);
        d
    }

    fn append_log(&mut self, msg: String)
        ensures
            logs_view(final(self).logs@) == logs_after_append(logs_view(old(self).logs@), msg@),
            final(self).status == old(self).status,
            final(self).current_file == old(self).current_file,
            final(self).completed == old(self).completed,
            final(self).skipped == old(self).skipped,
            final(self).failed == old(self).failed,
    {
        let ghost before = self.logs@;
        if self.logs.len() > LOG_LIMIT {
            self.logs.remove(0);
            assert(logs_view(self.logs@) =~= logs_view(before).drop_first());
        }
        let ghost mid = self.logs@;
        self.logs.push(msg);
        assert(logs_view(self.logs@) =~= logs_view(mid).push(msg@));
    }

    fn push_log(&mut self, msg: String)
        ensures
            logs_view(final(self).logs@) == logs_view(old(self).logs@).push(msg@),
            final(self).status == old(self).status,
            final(self).current_file == old(self).current_file,
            final(self).completed == old(self).completed,
            final(self).skipped == old(self).skipped,
            final(self).failed == old(self).failed,
    {
        let ghost before = self.logs@;
        self.logs.push(msg);
        assert(logs_view(self.logs@) =~= logs_view(before).push(msg@));
    }

    /// Takes one event from the channel and says whether the loop goes on.
    pub fn apply(&mut self, event: AppEvent) -> (flow: Flow)
        requires
            can_take(old(self)@, event@),
        ensures
            final(self)@ == next_view(old(self)@, event@),
            flow == flow_of(event@),
    {
        match event {
            AppEvent::Quit => {
                let line = "Parada solicitada. Restaurando terminal...";
                self.push_log(String::from_str(line));
                self.status = Status::StopRequested;
                Flow::Shutdown { linger_ms: QUIT_LINGER_MS }
            },
            AppEvent::Log(msg) => {
                let copying = contains_str(msg.as_str(), "Copiando:");
                let all_done = contains_str(msg.as_str(), "Todas as transferencias");
                self.append_log(msg);
                if copying {
                    self.status = Status::Transferring;
                } else if all_done {
                    self.status = Status::Finished;
                    self.current_file = None;
                }
                Flow::Continue
            },
            AppEvent::CurrentFile(file) => {
                let cleared = file.is_none();
                self.current_file = file;
                if cleared && self.status == Status::Transferring {
                    self.status = Status::AwaitingNext;
                }
                Flow::Continue
            },
            AppEvent::StatsUpdate(stat) => {
                match stat {
                    TransferStat::Completed => self.completed = self.completed + 1,
                    TransferStat::Skipped => self.skipped = self.skipped + 1,
                    TransferStat::Failed => self.failed = self.failed + 1,
                }
                Flow::Continue
            },
        }
    }

    /// Takes Ctrl+C: logs it and switches the status line; the loop then
    /// redraws, waits `INTERRUPT_LINGER_MS` and stops.
    pub fn interrupt(&mut self)
        ensures
            final(self)@ == interrupted_view(old(self)@),
    {
        let line = "Ctrl+C detectado! Encerrando imediatamente...";
        self.push_log(String::from_str(line));
        self.status = Status::Interrupted;
    }

    /// The text of the status line.
    pub fn status_line(&self) -> (s: &'static str)
        ensures
            s@ == status_text_spec(self@.status),
    {
        self.status.text()
    }

    /// The status.
    pub fn status(&self) -> (s: Status)
        ensures
            s == self@.status,
    {
        self.status
    }

    /// The file being copied, if any.
    pub fn current_file(&self) -> (f: Option<&str>)
        ensures
            match f {
                Some(s) => self@.current_file == Some(s@),
                None => self@.current_file is None,
            },
    {
        match &self.current_file {
            Some(s) => Some(s.as_str()),
            None => None,
        }
    }

    /// The line shown in the active-transfers box: the current file, or a
    /// placeholder when no file is being copied.
    pub fn active_transfer_label(&self) -> (s: &str)
        ensures
            s@ == match self@.current_file {
                Some(f) => f,
                None => idle_file_text(),
            },
    {
        match &self.current_file {
            Some(f) => f.as_str(),
            None => "Nenhum arquivo sendo transferido no momento...",
        }
    }

    /// The kept log lines, oldest first.
    pub fn logs(&self) -> (l: &[String])
        ensures
            logs_view(l@) == self@.logs,
    {
        self.logs.as_slice()
    }

    /// How many files were copied.
    pub fn completed(&self) -> (n: u64)
        ensures
            n == self@.completed,
    {
        self.completed
    }

    /// How many files were skipped because they already existed.
    pub fn skipped(&self) -> (n: u64)
        ensures
            n == self@.skipped,
    {
        self.skipped
    }

    /// How many files failed.
    pub fn failed(&self) -> (n: u64)
        ensures
            n == self@.failed,
    {
        self.failed
    }
}

/// How long the loop waits after a quit request before it stops.
pub const QUIT_LINGER_MS: u64 = 400;

/// How long the loop waits after Ctrl+C before it stops.
pub const INTERRUPT_LINGER_MS: u64 = 300;

} // verus!
