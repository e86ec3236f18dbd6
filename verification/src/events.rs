use vstd::prelude::*;

verus! {

/// The outcome of one file, as counted on the dashboard.
#[derive(Clone, Copy, Debug, PartialEq, Eq, Structural)]
pub enum TransferStat {
    Completed,
    Skipped,
    Failed,
}

/// A message from the copy engine (or the key reader) to the dashboard.
#[derive(Clone, Debug, PartialEq, Eq)]
pub enum AppEvent {
    Log(String),
    CurrentFile(Option<String>),
    StatsUpdate(TransferStat),
    Quit,
}

/// The mathematical value of an [`AppEvent`]: strings are taken by their characters.
pub enum AppEventView {
    Log(Seq<char>),
    CurrentFile(Option<Seq<char>>),
    StatsUpdate(TransferStat),
    Quit,
}

pub open spec fn opt_string_view(o: Option<String>) -> Option<Seq<char>> {
    match o {
        Some(s) => Some(s@),
        None => None,
    }
}

impl View for AppEvent {
    type V = AppEventView;

    open spec fn view(&self) -> AppEventView {
        match self {
            AppEvent::Log(s) => AppEventView::Log(s@),
            AppEvent::CurrentFile(f) => AppEventView::CurrentFile(opt_string_view(*f)),
            AppEvent::StatsUpdate(s) => AppEventView::StatsUpdate(*s),
            AppEvent::Quit => AppEventView::Quit,
        }
    }
}

/// The views of a sequence of events, in order.
pub open spec fn events_view(events: Seq<AppEvent>) -> Seq<AppEventView> {
    events.map_values(|e: AppEvent| e@)
}

} // verus!
