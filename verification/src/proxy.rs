//! The proxy aggregate: its shared cells as one value, the event consumer's step and
//! the command surface.

use crate::events::{
    ProxyEvent, ProxyEventView, ProxyExclusionRow, ProxyExclusionRowView,
    ProxyExclusionUpdateKind, ProxyRequestLog, ProxyRequestLogView, ProxyView,
};
use crate::logger::{stamp_of, LogLevel, Logger, LoggerView, Moment};
use crate::startup::{check_startup_capability, startup_fault};
use crate::text::{decimal, u64_to_string};
use crate::traffic_filter::{
    list_matches, list_matches_uri, TrafficFilter, TrafficFilterType, TrafficFilterView,
};
use vstd::prelude::*;
use vstd::string::StringExecFns;

verus! {

/// The nanoseconds in one second.
pub const NANOS_PER_SECOND: u64 = 1_000_000_000;

/// The mathematical content of a [`Proxy`]: the port and the interface's scratch
/// state, the logger, and the engine's cells, which are the status, whether a run
/// cycle's event channel exists, the request log, the traffic filter, and the instant
/// at which the service began to run, in nanoseconds of the caller's monotonic clock.
pub ghost struct ProxyState {
    pub port: Seq<char>,
    pub port_error: Seq<char>,
    pub start_enabled: bool,
    pub view: ProxyView,
    pub logger: LoggerView,
    pub selected_value: Seq<char>,
    pub selected_exclusion_row: ProxyExclusionRowView,
    pub status: ProxyEventView,
    pub channel_open: bool,
    pub requests: Seq<ProxyRequestLogView>,
    pub filter: TrafficFilterView,
    pub run_started: Option<u64>,
}

impl ProxyState {
    /// A proxy that has not run yet.
    pub open spec fn initial(
        port: Seq<char>,
        view: ProxyView,
        filter: TrafficFilterView,
        logger: LoggerView,
    ) -> ProxyState {
        ProxyState {
            port,
            port_error: Seq::empty(),
            start_enabled: true,
            view,
            logger,
            selected_value: Seq::empty(),
            selected_exclusion_row: ProxyExclusionRowView::idle(),
            status: ProxyEventView::Stopped,
            channel_open: false,
            requests: Seq::empty(),
            filter,
            run_started: None,
        }
    }

    /// The status cell holds a lifecycle state, never a request event nor the
    /// `Terminated` notice, and a running service has its timer set.
    pub open spec fn wf(self) -> bool {
        &&& !(self.status is RequestEvent)
        &&& !(self.status is Terminated)
        &&& (self.status is Running ==> self.run_started is Some)
    }

    /// The same proxy with `logger` in place of its logger.
    pub open spec fn with_logger(self, logger: LoggerView) -> ProxyState {
        ProxyState { logger, ..self }
    }

    /// The same proxy with `filter` in place of its traffic filter.
    pub open spec fn with_filter(self, filter: TrafficFilterView) -> ProxyState {
        ProxyState { filter, ..self }
    }

    /// The proxy after `run`: a fresh cycle owns an event channel.
    pub open spec fn started(self) -> ProxyState {
        ProxyState { channel_open: true, ..self }
    }

    /// The proxy after the event consumer has handled `event` at instant `now`, the
    /// logger left aside.
    pub open spec fn after_event(self, event: ProxyEventView, now: u64) -> ProxyState {
        match event {
            ProxyEventView::Running => ProxyState {
                status: ProxyEventView::Running,
                run_started: Some(now),
                ..self
            },
            ProxyEventView::Terminated => ProxyState {
                status: ProxyEventView::Stopped,
                run_started: None,
                channel_open: false,
                ..self
            },
            ProxyEventView::RequestEvent(entry) => ProxyState {
                requests: self.requests.push(entry),
                ..self
            },
            _ => ProxyState { status: event, ..self },
        }
    }

    /// The proxy after the event consumer has handled `event` at instant `now`, what
    /// the logger records under `timestamp` included.
    pub open spec fn handled(self, event: ProxyEventView, now: u64, timestamp: Seq<char>) -> ProxyState {
        self.after_event(event, now).with_logger(logged(self.logger, event_log(event), timestamp))
    }

    /// The proxy after the event consumer's receive: an event is handled, a closed
    /// channel changes nothing, the status least of all.
    pub open spec fn received(self, received: ReceivedView, now: u64, timestamp: Seq<char>) -> ProxyState {
        match received {
            ReceivedView::Event(event) => self.handled(event, now, timestamp),
            ReceivedView::Closed => self,
        }
    }

    /// The proxy after a command has left `message` with the logger at level `Debug`.
    pub open spec fn noted(self, message: Seq<char>, timestamp: Seq<char>) -> ProxyState {
        self.with_logger(self.logger.recorded(LogLevel::Debug, message, timestamp))
    }

    /// The proxy after an update of the active list, the logger left aside: `Edit`
    /// overwrites the entry at the selected row's index with the row's value and
    /// resets the row; `Add` and `Remove` toggle the selected value.
    pub open spec fn updated(self, kind: ProxyExclusionUpdateKind) -> ProxyState {
        if kind is Edit {
            ProxyState {
                filter: self.filter.with_active_list(
                    self.filter.active_list().update(
                        self.selected_exclusion_row.index as int,
                        self.selected_exclusion_row.value,
                    ),
                ),
                selected_exclusion_row: ProxyExclusionRowView::idle(),
                ..self
            }
        } else {
            self.with_filter(self.filter.updated(self.selected_value))
        }
    }

    /// The proxy after the interface has brought the start switch up to date. While
    /// the service is stopped or failed, the switch follows the port text and the
    /// port's fault is shown; while it terminates, the switch is off.
    pub open spec fn refreshed(self) -> ProxyState {
        match self.status {
            ProxyEventView::Stopped | ProxyEventView::Error(_) => ProxyState {
                start_enabled: startup_fault(self.port) is None,
                port_error: match startup_fault(self.port) {
                    Some(message) => message,
                    None => Seq::empty(),
                },
                ..self
            },
            ProxyEventView::Terminating => ProxyState { start_enabled: false, ..self },
            ProxyEventView::Terminated => ProxyState { start_enabled: true, ..self },
            _ => self,
        }
    }

    /// How many of the logged requests were blocked.
    pub open spec fn events_blocked(self) -> nat {
        self.requests.filter(|entry: ProxyRequestLogView| entry.blocked).len()
    }

    /// The caption of the button that starts or stops the service.
    pub open spec fn launch_label(self) -> Seq<char> {
        match self.status {
            ProxyEventView::Running => "Stop Proxy"@,
            ProxyEventView::Error(_) => "Retry Proxy"@,
            ProxyEventView::Terminating => "Please Wait"@,
            _ => "Start Proxy"@,
        }
    }

    /// Whole seconds from the start of the run to `now`; 0 while nothing runs.
    pub open spec fn run_seconds(self, now: u64) -> nat {
        match self.run_started {
            Some(start) => if now >= start {
                ((now - start) / NANOS_PER_SECOND as int) as nat
            } else {
                0
            },
            None => 0,
        }
    }

    /// The event that a command puts on the channel: `event` where a cycle is active,
    /// nothing otherwise.
    pub open spec fn sent(self, event: ProxyEventView) -> Option<ProxyEventView> {
        if self.channel_open {
            Some(event)
        } else {
            None
        }
    }
}

/// What the logger records when the consumer handles `event`, if anything.
pub open spec fn event_log(event: ProxyEventView) -> Option<(LogLevel, Seq<char>)> {
    match event {
        ProxyEventView::Running => Some((LogLevel::Info, "Service is now running..."@)),
        ProxyEventView::Terminated => Some((LogLevel::Info, "Service is being terminated..."@)),
        ProxyEventView::RequestEvent(entry) => Some((LogLevel::Debug, entry.log_line())),
        _ => None,
    }
}

/// The logger with `entry` offered to it under `timestamp`, or the logger itself
/// where there is no entry.
pub open spec fn logged(
    logger: LoggerView,
    entry: Option<(LogLevel, Seq<char>)>,
    timestamp: Seq<char>,
) -> LoggerView {
    match entry {
        Some((level, message)) => logger.recorded(level, message, timestamp),
        None => logger,
    }
}

/// What the event consumer's receive gives: an event, or the news that the channel is
/// closed, its last sender gone.
#[derive(Debug)]
pub enum Received {
    Event(ProxyEvent),
    Closed,
}

/// The mathematical content of a [`Received`].
pub ghost enum ReceivedView {
    Event(ProxyEventView),
    Closed,
}

impl View for Received {
    type V = ReceivedView;

    open spec fn view(&self) -> ReceivedView {
        match self {
            Received::Event(event) => ReceivedView::Event(event@),
            Received::Closed => ReceivedView::Closed,
        }
    }
}

/// Whether the event consumer goes on after a receive: it ends with its cycle, on
/// `Terminated`, and when its channel is closed.
pub open spec fn consumer_goes_on(received: ReceivedView) -> bool {
    match received {
        ReceivedView::Event(event) => !(event is Terminated),
        ReceivedView::Closed => false,
    }
}

/// The characters of an optional event.
pub open spec fn event_of(event: Option<ProxyEvent>) -> Option<ProxyEventView> {
    match event {
        Some(e) => Some(e@),
        None => None,
    }
}

/// The proxy: the port, the interface's scratch state and the logger in the open, the
/// engine's cells behind the command surface.
#[derive(Debug)]
pub struct Proxy {
    pub port: String,
    pub port_error: String,
    pub start_enabled: bool,
    pub view: ProxyView,
    pub logger: Logger,
    pub selected_value: String,
    pub selected_exclusion_row: ProxyExclusionRow,
    status: ProxyEvent,
    event: bool,
    requests: Vec<ProxyRequestLog>,
    traffic_filter: TrafficFilter,
    run_time: Option<u64>,
}

impl View for Proxy {
    type V = ProxyState;

    closed spec fn view(&self) -> ProxyState {
        ProxyState {
            port: self.port@,
            port_error: self.port_error@,
            start_enabled: self.start_enabled,
            view: self.view,
            logger: self.logger@,
            selected_value: self.selected_value@,
            selected_exclusion_row: self.selected_exclusion_row@,
            status: self.status@,
            channel_open: self.event,
            requests: self.requests.deep_view(),
            filter: self.traffic_filter@,
            run_started: self.run_time,
        }
    }
}

impl Clone for Proxy {
    fn clone(&self) -> (copy: Self)
        ensures
            copy@ == self@,
    {
        Proxy {
            port: self.port.clone(),
            port_error: self.port_error.clone(),
            start_enabled: self.start_enabled,
            view: self.view,
            logger: self.logger.clone(),
            selected_value: self.selected_value.clone(),
            selected_exclusion_row: self.selected_exclusion_row.clone(),
            status: self.status.clone(),
            event: self.event,
            requests: self.get_requests(),
            traffic_filter: self.traffic_filter.clone(),
            run_time: self.run_time,
        }
    }
}

impl Default for Proxy {
    fn default() -> (proxy: Self)
        ensures
            proxy@ == ProxyState::initial(
                Seq::empty(),
                ProxyView::Min,
                TrafficFilterView {
                    enabled: false,
                    mode: TrafficFilterType::Allow,
                    allow_exclusions: Seq::empty(),
                    deny_exclusions: Seq::empty(),
                },
                LoggerView { level: LogLevel::Info, logs: Seq::empty() },
            ),
            proxy@.wf(),
    {
        let proxy = Proxy {
            port: String::new(),
            port_error: String::new(),
            start_enabled: true,
            view: ProxyView::Min,
            logger: Logger::default(),
            selected_value: String::new(),
            selected_exclusion_row: ProxyExclusionRow::default(),
            status: ProxyEvent::Stopped,
            event: false,
            requests: Vec::new(),
            traffic_filter: TrafficFilter::default(),
            run_time: None,
        };
        assert(proxy.requests.deep_view() =~= Seq::<ProxyRequestLogView>::empty());
        proxy
    }
}

impl Proxy {
    /// A stopped proxy for `port` with the given panel, filter and log threshold; the
    /// threshold's setting is recorded under the time `at`.
    pub fn new(
        port: String,
        view: ProxyView,
        traffic_filter: TrafficFilter,
        log_level: LogLevel,
        at: Moment,
    ) -> (proxy: Self)
        ensures
            proxy@ == ProxyState::initial(
                port@,
                view,
                traffic_filter@,
                (LoggerView { level: LogLevel::Info, logs: Seq::empty() }).with_level(
                    log_level,
                    stamp_of(at),
                ),
            ),
            proxy@.wf(),
    {
        let mut logger = Logger::default();
        logger.set_level(log_level, at);
        let proxy = Proxy {
            port,
            port_error: String::new(),
            start_enabled: true,
            view,
            logger,
            selected_value: String::new(),
            selected_exclusion_row: ProxyExclusionRow::default(),
            status: ProxyEvent::Stopped,
            event: false,
            requests: Vec::new(),
            traffic_filter,
            run_time: None,
        };
        assert(proxy.requests.deep_view() =~= Seq::<ProxyRequestLogView>::empty());
        proxy
    }

    /// Opens a run cycle: from now on commands reach the event channel. Returns the
    /// event that announces the start, for the caller to put on the new channel.
    pub fn run(&mut self) -> (event: ProxyEvent)
        ensures
            old(self)@.wf() ==> final(self)@.wf(),
            final(self)@ == old(self)@.started(),
            event@ == ProxyEventView::Starting,
    {
        self.event = true;
        ProxyEvent::Starting
    }

    /// Asks the service to terminate: the `Terminating` event where a cycle is active.
    pub fn stop(&self) -> (event: Option<ProxyEvent>)
        ensures
            event_of(event) == self@.sent(ProxyEventView::Terminating),
    {
        self.send(ProxyEvent::Terminating)
    }

    /// Hands `event` to the channel where a cycle is active, and drops it otherwise.
    pub fn send(&self, event: ProxyEvent) -> (sent: Option<ProxyEvent>)
        ensures
            event_of(sent) == self@.sent(event@),
    {
        if self.event {
            Some(event)
        } else {
            None
        }
    }

    /// The event consumer's step on a receive at instant `now` and wall-clock time
    /// `at`: an event is applied to the cells that it concerns, a closed channel
    /// leaves every cell as it is. Returns whether the consumer goes on; it ends on
    /// `Terminated` and on a closed channel.
    pub fn consume(&mut self, received: Received, now: u64, at: Moment) -> (go_on: bool)
        ensures
            old(self)@.wf() ==> final(self)@.wf(),
            final(self)@ == old(self)@.received(received@, now, stamp_of(at)),
            go_on == consumer_goes_on(received@),
    {
        match received {
            Received::Event(event) => self.handle_event(event, now, at),
            Received::Closed => false,
        }
    }

    /// Applies `event`, received at instant `now` and wall-clock time `at`, to the
    /// cells that it concerns. Returns whether the consumer goes on; it ends with the
    /// cycle, on `Terminated`.
    pub fn handle_event(&mut self, event: ProxyEvent, now: u64, at: Moment) -> (go_on: bool)
        ensures
            old(self)@.wf() ==> final(self)@.wf(),
            final(self)@ == old(self)@.handled(event@, now, stamp_of(at)),
            go_on == !(event@ is Terminated),
    {
        match event {
            ProxyEvent::Running => {
                self.run_time = Some(now);
                self.logger.info("Service is now running...", at);
                self.status = ProxyEvent::Running;
                true
            },
            ProxyEvent::Terminated => {
                self.logger.info("Service is being terminated...", at);
                self.status = ProxyEvent::Stopped;
                self.run_time = None;
                self.event = false;
                false
            },
            ProxyEvent::RequestEvent(entry) => {
                let mut line = entry.method.clone();
                line.append(" -> Request to: ");
                line.append(entry.request.as_str());
                line.append(" -> ");
                line.append(entry.to_blocked_string().as_str());
                let ghost before = self.requests.deep_view();
                let ghost added = entry@;
                self.requests.push(entry);
                assert(self.requests.deep_view() =~= before.push(added));
                self.logger.debug(line.as_str(), at);
                true
            },
            other => {
                self.status = other;
                true
            },
        }
    }

    /// Whether a stop has been requested and not yet carried out.
    pub fn termination_requested(&self) -> (requested: bool)
        ensures
            requested == (self@.status is Terminating),
    {
        matches!(self.status, ProxyEvent::Terminating)
    }

    /// A copy of the status.
    pub fn get_status(&self) -> (status: ProxyEvent)
        ensures
            status@ == self@.status,
    {
        self.status.clone()
    }

    /// A copy of the logger.
    pub fn get_logger(&self) -> (logger: Logger)
        ensures
            logger@ == self@.logger,
    {
        self.logger.clone()
    }

    /// A copy of the traffic filter.
    pub fn get_traffic_filter(&self) -> (filter: TrafficFilter)
        ensures
            filter@ == self@.filter,
    {
        self.traffic_filter.clone()
    }

    /// A copy of the request log, in arrival order.
    pub fn get_requests(&self) -> (requests: Vec<ProxyRequestLog>)
        ensures
            requests.deep_view() == self@.requests,
    {
        let mut requests: Vec<ProxyRequestLog> = Vec::new();
        let mut i: usize = 0;
        while i < self.requests.len()
            invariant
                i <= self.requests.len(),
                requests.len() == i,
                forall|k: int| 0 <= k < i ==> requests@[k]@ == self.requests@[k]@,
            decreases self.requests.len() - i,
        {
            requests.push(self.requests[i].clone());
            i += 1;
        }
        assert(requests.deep_view() =~= self.requests.deep_view());
        requests
    }

    /// The whole seconds for which the service has been running at instant `now`, as
    /// a decimal numeral; `0` while it is not running.
    pub fn get_run_time(&self, now: u64) -> (seconds: String)
        ensures
            seconds@ == decimal(self@.run_seconds(now)),
    {
        match self.run_time {
            Some(start) => if now >= start {
                u64_to_string((now - start) / NANOS_PER_SECOND)
            } else {
                u64_to_string(0)
            },
            None => u64_to_string(0),
        }
    }

    /// Turns filtering on where it was off, and off where it was on.
    pub fn toggle_traffic_filtering(&mut self, at: Moment)
        ensures
            old(self)@.wf() ==> final(self)@.wf(),
            final(self)@ == old(self)@.with_filter(
                TrafficFilterView { enabled: !old(self)@.filter.enabled, ..old(self)@.filter },
            ).noted("Traffic filtering has been toggled."@, stamp_of(at)),
    {
        let enabled = self.traffic_filter.get_enabled();
        self.traffic_filter.set_enabled(!enabled);
        self.logger.debug("Traffic filtering has been toggled.", at);
    }

    /// Flips the mode to its opposite, which makes the other list the active one.
    pub fn switch_exclusion_list(&mut self, at: Moment)
        ensures
            old(self)@.wf() ==> final(self)@.wf(),
            final(self)@ == old(self)@.with_filter(old(self)@.filter.switched()).noted(
                "Exclusion list has been switched."@,
                stamp_of(at),
            ),
    {
        let switched_filter = self.traffic_filter.get_opposing_filter_type();
        self.traffic_filter.set_filter_type(switched_filter);
        self.logger.debug("Exclusion list has been switched.", at);
    }

    /// Replaces the active list wholesale.
    pub fn set_exclusion_list(&mut self, list: Vec<String>, at: Moment)
        ensures
            old(self)@.wf() ==> final(self)@.wf(),
            final(self)@ == old(self)@.with_filter(
                old(self)@.filter.with_active_list(list.deep_view()),
            ).noted("Exclusion list has been set."@, stamp_of(at)),
    {
        self.traffic_filter.set_filter_list(list);
        self.logger.debug("Exclusion list has been set.", at);
    }

    /// Updates the active list. `Edit` overwrites the entry at the selected row's index
    /// with the row's value and resets the row; `Add` and `Remove` toggle the selected
    /// value.
    pub fn update_exclusion_list(&mut self, event_type: ProxyExclusionUpdateKind, at: Moment)
        requires
            event_type is Edit ==> old(self)@.selected_exclusion_row.index < old(
                self,
            )@.filter.active_list().len(),
        ensures
            old(self)@.wf() ==> final(self)@.wf(),
            final(self)@ == old(self)@.updated(event_type).noted(
                if event_type is Edit {
                    "Exclusion list value has been edited."@
                } else {
                    "Exclusion list has been updated."@
                },
                stamp_of(at),
            ),
    {
        match event_type {
            ProxyExclusionUpdateKind::Edit => {
                self.traffic_filter.update_filter_list_item(
                    self.selected_exclusion_row.index,
                    self.selected_exclusion_row.value.clone(),
                );
                self.selected_exclusion_row = ProxyExclusionRow::default();
                self.logger.debug("Exclusion list value has been edited.", at);
            },
            ProxyExclusionUpdateKind::Add | ProxyExclusionUpdateKind::Remove => {
                self.traffic_filter.update_filter_list(self.selected_value.clone());
                self.logger.debug("Exclusion list has been updated.", at);
            },
        }
    }

    /// A copy of the port text.
    pub fn get_port(&self) -> (port: String)
        ensures
            port@ == self@.port,
    {
        self.port.clone()
    }

    /// Sets the port text; nothing else changes.
    pub fn set_port(&mut self, port: String)
        ensures
            final(self)@ == (ProxyState { port: port@, ..old(self)@ }),
    {
        self.port = port;
    }

    /// A copy of the port's fault as it is shown.
    pub fn get_port_error(&self) -> (fault: String)
        ensures
            fault@ == self@.port_error,
    {
        self.port_error.clone()
    }

    /// Whether the start switch is on.
    pub fn get_start_enabled(&self) -> (enabled: bool)
        ensures
            enabled == self@.start_enabled,
    {
        self.start_enabled
    }

    /// The panel that the interface shows.
    pub fn get_view(&self) -> (view: ProxyView)
        ensures
            view == self@.view,
    {
        self.view
    }

    /// Sets the panel that the interface shows; nothing else changes.
    pub fn set_view(&mut self, view: ProxyView)
        ensures
            final(self)@ == (ProxyState { view, ..old(self)@ }),
    {
        self.view = view;
    }

    /// A copy of the value that `Add` and `Remove` toggle.
    pub fn get_selected_value(&self) -> (value: String)
        ensures
            value@ == self@.selected_value,
    {
        self.selected_value.clone()
    }

    /// Sets the value that `Add` and `Remove` toggle; nothing else changes.
    pub fn set_selected_value(&mut self, value: String)
        ensures
            final(self)@ == (ProxyState { selected_value: value@, ..old(self)@ }),
    {
        self.selected_value = value;
    }

    /// A copy of the row that `Edit` writes.
    pub fn get_selected_exclusion_row(&self) -> (row: ProxyExclusionRow)
        ensures
            row@ == self@.selected_exclusion_row,
    {
        self.selected_exclusion_row.clone()
    }

    /// Sets the row that `Edit` writes; nothing else changes.
    pub fn set_selected_exclusion_row(&mut self, row: ProxyExclusionRow)
        ensures
            final(self)@ == (ProxyState { selected_exclusion_row: row@, ..old(self)@ }),
    {
        self.selected_exclusion_row = row;
    }

    /// How many of the logged requests were blocked.
    pub fn events_blocked(&self) -> (count: usize)
        ensures
            count == self@.events_blocked(),
    {
        let ghost blocked = |entry: ProxyRequestLogView| entry.blocked;
        let ghost log = self.requests.deep_view();
        let mut count: usize = 0;
        let mut i: usize = 0;
        assert(log.take(0) =~= Seq::<ProxyRequestLogView>::empty());
        while i < self.requests.len()
            invariant
                i <= self.requests.len(),
                log == self.requests.deep_view(),
                blocked == |entry: ProxyRequestLogView| entry.blocked,
                count == log.take(i as int).filter(blocked).len(),
                count <= i,
            decreases self.requests.len() - i,
        {
            proof {
                let next = log.take(i + 1);
                assert(next.drop_last() =~= log.take(i as int));
                assert(next.last() == self.requests@[i as int]@);
                reveal(Seq::filter);
            }
            if self.requests[i].blocked {
                count += 1;
            }
            i += 1;
        }
        assert(log.take(self.requests.len() as int) =~= log);
        count
    }

    /// The caption of the button that starts or stops the service.
    pub fn launch_label(&self) -> (label: String)
        ensures
            label@ == self@.launch_label(),
    {
        match &self.status {
            ProxyEvent::Running => "Stop Proxy".to_owned(),
            ProxyEvent::Error(_) => "Retry Proxy".to_owned(),
            ProxyEvent::Terminating => "Please Wait".to_owned(),
            _ => "Start Proxy".to_owned(),
        }
    }

    /// Brings the start switch and the shown port fault up to date with the status
    /// and the port text.
    pub fn refresh_start_capability(&mut self)
        ensures
            old(self)@.wf() ==> final(self)@.wf(),
            final(self)@ == old(self)@.refreshed(),
    {
        match &self.status {
            ProxyEvent::Stopped | ProxyEvent::Error(_) => {
                let startup = check_startup_capability(&self.port);
                self.start_enabled = startup.allowed;
                self.port_error = match startup.error {
                    Some(message) => message,
                    None => String::new(),
                };
            },
            ProxyEvent::Terminating => {
                self.start_enabled = false;
            },
            ProxyEvent::Terminated => {
                self.start_enabled = true;
            },
            _ => {},
        }
    }

    /// Whether some entry of `exclusion_list` matches `uri`, either one containing
    /// the other.
    pub fn is_excluded_address(exclusion_list: Vec<String>, uri: String) -> (excluded: bool)
        ensures
            excluded == list_matches(exclusion_list.deep_view(), uri@),
    {
        list_matches_uri(&exclusion_list, uri.as_str())
    }
}

} // verus!
