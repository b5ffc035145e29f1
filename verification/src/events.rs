//! Lifecycle and log events, request log entries and the small records around them.

use vstd::prelude::*;
use vstd::std_specs::cmp::PartialEqSpecImpl;

verus! {

/// One request as the engine logged it.
#[derive(Debug)]
pub struct ProxyRequestLog {
    pub method: String,
    pub request: String,
    pub blocked: bool,
}

/// The mathematical content of a [`ProxyRequestLog`].
pub ghost struct ProxyRequestLogView {
    pub method: Seq<char>,
    pub request: Seq<char>,
    pub blocked: bool,
}

impl View for ProxyRequestLog {
    type V = ProxyRequestLogView;

    open spec fn view(&self) -> ProxyRequestLogView {
        ProxyRequestLogView { method: self.method@, request: self.request@, blocked: self.blocked }
    }
}

impl DeepView for ProxyRequestLog {
    type V = ProxyRequestLogView;

    open spec fn deep_view(&self) -> ProxyRequestLogView {
        self@
    }
}

impl Clone for ProxyRequestLog {
    fn clone(&self) -> (copy: Self)
        ensures
            copy@ == self@,
    {
        ProxyRequestLog {
            method: self.method.clone(),
            request: self.request.clone(),
            blocked: self.blocked,
        }
    }
}

impl PartialEq for ProxyRequestLog {
    fn eq(&self, other: &Self) -> (same: bool) {
        self.method == other.method && self.request == other.request && self.blocked
            == other.blocked
    }
}

impl PartialEqSpecImpl for ProxyRequestLog {
    open spec fn obeys_eq_spec() -> bool {
        true
    }

    open spec fn eq_spec(&self, other: &Self) -> bool {
        self@ == other@
    }
}

impl ProxyRequestLogView {
    /// The outcome in capitals.
    pub open spec fn blocked_text(self) -> Seq<char> {
        if self.blocked {
            "BLOCKED"@
        } else {
            "ALLOWED"@
        }
    }

    /// The line that the logger records for the entry.
    pub open spec fn log_line(self) -> Seq<char> {
        self.method + " -> Request to: "@ + self.request + " -> "@ + self.blocked_text()
    }
}

impl ProxyRequestLog {
    /// The outcome in capitals: `BLOCKED` or `ALLOWED`.
    pub fn to_blocked_string(&self) -> (text: String)
        ensures
            text@ == self@.blocked_text(),
    {
        match self.blocked {
            true => "BLOCKED".to_owned(),
            false => "ALLOWED".to_owned(),
        }
    }
}

/// A lifecycle or log event. The status cell holds one of the lifecycle variants.
#[derive(Debug)]
pub enum ProxyEvent {
    Starting,
    Running,
    Stopped,
    Error(String),
    Terminating,
    Terminated,
    RequestEvent(ProxyRequestLog),
}

/// The mathematical content of a [`ProxyEvent`].
pub ghost enum ProxyEventView {
    Starting,
    Running,
    Stopped,
    Error(Seq<char>),
    Terminating,
    Terminated,
    RequestEvent(ProxyRequestLogView),
}

impl View for ProxyEvent {
    type V = ProxyEventView;

    open spec fn view(&self) -> ProxyEventView {
        match self {
            ProxyEvent::Starting => ProxyEventView::Starting,
            ProxyEvent::Running => ProxyEventView::Running,
            ProxyEvent::Stopped => ProxyEventView::Stopped,
            ProxyEvent::Error(message) => ProxyEventView::Error(message@),
            ProxyEvent::Terminating => ProxyEventView::Terminating,
            ProxyEvent::Terminated => ProxyEventView::Terminated,
            ProxyEvent::RequestEvent(entry) => ProxyEventView::RequestEvent(entry@),
        }
    }
}

impl Clone for ProxyEvent {
    fn clone(&self) -> (copy: Self)
        ensures
            copy@ == self@,
    {
        match self {
            ProxyEvent::Starting => ProxyEvent::Starting,
            ProxyEvent::Running => ProxyEvent::Running,
            ProxyEvent::Stopped => ProxyEvent::Stopped,
            ProxyEvent::Error(message) => ProxyEvent::Error(message.clone()),
            ProxyEvent::Terminating => ProxyEvent::Terminating,
            ProxyEvent::Terminated => ProxyEvent::Terminated,
            ProxyEvent::RequestEvent(entry) => ProxyEvent::RequestEvent(entry.clone()),
        }
    }
}

impl Default for ProxyEvent {
    fn default() -> (event: Self)
        ensures
            event@ == ProxyEventView::Stopped,
    {
        ProxyEvent::Stopped
    }
}

impl PartialEq for ProxyEvent {
    fn eq(&self, other: &Self) -> (same: bool) {
        match self {
            ProxyEvent::Starting => matches!(other, ProxyEvent::Starting),
            ProxyEvent::Running => matches!(other, ProxyEvent::Running),
            ProxyEvent::Stopped => matches!(other, ProxyEvent::Stopped),
            ProxyEvent::Error(a) => match other {
                ProxyEvent::Error(b) => *a == *b,
                _ => false,
            },
            ProxyEvent::Terminating => matches!(other, ProxyEvent::Terminating),
            ProxyEvent::Terminated => matches!(other, ProxyEvent::Terminated),
            ProxyEvent::RequestEvent(a) => match other {
                ProxyEvent::RequestEvent(b) => a.method == b.method && a.request == b.request
                    && a.blocked == b.blocked,
                _ => false,
            },
        }
    }
}

impl PartialEqSpecImpl for ProxyEvent {
    open spec fn obeys_eq_spec() -> bool {
        true
    }

    open spec fn eq_spec(&self, other: &Self) -> bool {
        self@ == other@
    }
}

impl ProxyEventView {
    /// The event's name in capitals; a request event has none of its own.
    pub open spec fn name(self) -> Seq<char> {
        match self {
            ProxyEventView::Starting => "STARTING"@,
            ProxyEventView::Running => "RUNNING"@,
            ProxyEventView::Stopped => "STOPPED"@,
            ProxyEventView::Error(_) => "ERROR"@,
            ProxyEventView::Terminating => "TERMINATING"@,
            ProxyEventView::Terminated => "TERMINATED"@,
            ProxyEventView::RequestEvent(_) => "UNKNOWN"@,
        }
    }
}

impl ProxyEvent {
    /// The event's name in capitals; `UNKNOWN` for a request event.
    pub fn to_string(&self) -> (name: String)
        ensures
            name@ == self@.name(),
    {
        match self {
            ProxyEvent::Starting => "STARTING".to_owned(),
            ProxyEvent::Running => "RUNNING".to_owned(),
            ProxyEvent::Stopped => "STOPPED".to_owned(),
            ProxyEvent::Error(_) => "ERROR".to_owned(),
            ProxyEvent::Terminating => "TERMINATING".to_owned(),
            ProxyEvent::Terminated => "TERMINATED".to_owned(),
            ProxyEvent::RequestEvent(_) => "UNKNOWN".to_owned(),
        }
    }
}

/// The row of the active list that is being edited in place.
#[derive(Debug)]
pub struct ProxyExclusionRow {
    pub updating: bool,
    pub index: usize,
    pub value: String,
}

/// The mathematical content of a [`ProxyExclusionRow`].
pub ghost struct ProxyExclusionRowView {
    pub updating: bool,
    pub index: usize,
    pub value: Seq<char>,
}

impl ProxyExclusionRowView {
    /// The row while nothing is edited.
    pub open spec fn idle() -> ProxyExclusionRowView {
        ProxyExclusionRowView { updating: false, index: 0, value: Seq::empty() }
    }
}

impl View for ProxyExclusionRow {
    type V = ProxyExclusionRowView;

    open spec fn view(&self) -> ProxyExclusionRowView {
        ProxyExclusionRowView { updating: self.updating, index: self.index, value: self.value@ }
    }
}

impl Clone for ProxyExclusionRow {
    fn clone(&self) -> (copy: Self)
        ensures
            copy@ == self@,
    {
        ProxyExclusionRow { updating: self.updating, index: self.index, value: self.value.clone() }
    }
}

impl Default for ProxyExclusionRow {
    fn default() -> (row: Self)
        ensures
            row@ == ProxyExclusionRowView::idle(),
    {
        ProxyExclusionRow { updating: false, index: 0, value: String::new() }
    }
}

impl PartialEq for ProxyExclusionRow {
    fn eq(&self, other: &Self) -> (same: bool) {
        self.updating == other.updating && self.index == other.index && self.value == other.value
    }
}

impl PartialEqSpecImpl for ProxyExclusionRow {
    open spec fn obeys_eq_spec() -> bool {
        true
    }

    open spec fn eq_spec(&self, other: &Self) -> bool {
        self@ == other@
    }
}

/// What an update of the active list does.
#[derive(Debug, Clone, Copy, PartialEq, Eq, Structural)]
pub enum ProxyExclusionUpdateKind {
    Edit,
    Add,
    Remove,
}

/// One row of an exported exclusion list.
#[derive(Debug)]
pub struct ProxyExclusionList {
    pub request: String,
}

/// Which panel the interface shows.
#[derive(Debug, Clone, Copy, PartialEq, Eq, Structural)]
pub enum ProxyView {
    Min,
    Logs,
    Filter,
}

impl Default for ProxyView {
    fn default() -> (view: Self)
        ensures
            view == ProxyView::Min,
    {
        ProxyView::Min
    }
}

impl ProxyView {
    /// The panel's title.
    pub open spec fn title(self) -> Seq<char> {
        match self {
            ProxyView::Min => "Default View"@,
            ProxyView::Logs => "Log View"@,
            ProxyView::Filter => "Filter View"@,
        }
    }

    /// The panel's title.
    pub fn to_string(&self) -> (title: String)
        ensures
            title@ == self.title(),
    {
        match self {
            ProxyView::Min => "Default View".to_owned(),
            ProxyView::Logs => "Log View".to_owned(),
            ProxyView::Filter => "Filter View".to_owned(),
        }
    }
}

} // verus!
