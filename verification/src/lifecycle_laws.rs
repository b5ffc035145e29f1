//! Laws of the lifecycle state machine, stated over the proxy's mathematical content.

use crate::engine::{
    server_next, supervisor_report, ServerActionView, ServerInputView, ServerPhase,
};
use crate::events::{ProxyEventView, ProxyExclusionUpdateKind, ProxyRequestLogView, ProxyView};
use crate::logger::LoggerView;
use crate::proxy::{consumer_goes_on, ProxyState, ReceivedView, NANOS_PER_SECOND};
use crate::traffic_filter::TrafficFilterView;
use vstd::arithmetic::div_mod::lemma_div_is_ordered;
use vstd::prelude::*;

verus! {

/// A new proxy is stopped, has no channel, no timer and an empty request log, and is
/// valid.
pub proof fn law_initial_state_is_stopped(
    port: Seq<char>,
    view: ProxyView,
    filter: TrafficFilterView,
    logger: LoggerView,
)
    ensures
        ProxyState::initial(port, view, filter, logger).wf(),
        ProxyState::initial(port, view, filter, logger).status is Stopped,
        !ProxyState::initial(port, view, filter, logger).channel_open,
        ProxyState::initial(port, view, filter, logger).run_started is None,
        ProxyState::initial(port, view, filter, logger).requests.len() == 0,
{
}

/// Every step of the machine keeps a valid state valid: the status cell holds a
/// lifecycle state, and a running service has its timer set.
pub proof fn law_steps_preserve_validity(
    state: ProxyState,
    event: ProxyEventView,
    now: u64,
    filter: TrafficFilterView,
    logger: LoggerView,
    kind: ProxyExclusionUpdateKind,
)
    requires
        state.wf(),
    ensures
        state.after_event(event, now).wf(),
        state.started().wf(),
        state.with_filter(filter).wf(),
        state.with_logger(logger).wf(),
        state.updated(kind).wf(),
        state.refreshed().wf(),
        forall|timestamp: Seq<char>| (#[trigger] state.handled(event, now, timestamp)).wf(),
        forall|received: ReceivedView, timestamp: Seq<char>|
            (#[trigger] state.received(received, now, timestamp)).wf(),
        forall|message: Seq<char>, timestamp: Seq<char>|
            (#[trigger] state.noted(message, timestamp)).wf(),
{
}

/// The status changes through lifecycle events only: a request event and every
/// command leave it as it was.
pub proof fn law_status_has_one_writer(
    state: ProxyState,
    entry: ProxyRequestLogView,
    now: u64,
    filter: TrafficFilterView,
    logger: LoggerView,
    kind: ProxyExclusionUpdateKind,
)
    ensures
        state.after_event(ProxyEventView::RequestEvent(entry), now).status == state.status,
        state.started().status == state.status,
        state.with_filter(filter).status == state.status,
        state.with_logger(logger).status == state.status,
        state.updated(kind).status == state.status,
        state.refreshed().status == state.status,
{
}

/// No event touches the traffic filter or the interface's settings, and the request
/// log only grows: a request event appends its entry, any other event leaves the log
/// as it was.
pub proof fn law_events_keep_filter_and_log(state: ProxyState, event: ProxyEventView, now: u64)
    ensures
        state.after_event(event, now).filter == state.filter,
        state.after_event(event, now).port == state.port,
        state.after_event(event, now).selected_value == state.selected_value,
        state.after_event(event, now).selected_exclusion_row == state.selected_exclusion_row,
        state.requests.is_prefix_of(state.after_event(event, now).requests),
        event matches ProxyEventView::RequestEvent(entry) ==> state.after_event(
            event,
            now,
        ).requests == state.requests.push(entry),
        !(event is RequestEvent) ==> state.after_event(event, now).requests == state.requests,
{
}

/// A full cycle: from a stopped proxy, `run` and the `Starting` event give `Starting`;
/// a bound listener gives `Running` with the timer set to the instant of the event; a
/// stop gives `Terminating`; the supervisor then fires, the accept loop ends, and the
/// `Terminated` notice gives `Stopped` again, with the timer cleared and the channel
/// gone. Filter and request log come through unchanged.
pub proof fn law_run_then_stop_returns_to_stopped(
    state: ProxyState,
    started_at: u64,
    t0: u64,
    t2: u64,
    t3: u64,
)
    requires
        state.wf(),
    ensures
        ({
            let opened = state.started().after_event(ProxyEventView::Starting, t0);
            let bound = server_next(ServerPhase::Binding, ServerInputView::Bound);
            let running = opened.after_event(ProxyEventView::Running, started_at);
            let stopping = running.after_event(running.sent(ProxyEventView::Terminating)->0, t2);
            let cancelled = server_next(bound.0, ServerInputView::Cancelled);
            let stopped = stopping.after_event(supervisor_report(true, true)->0, t3);
            &&& opened.status is Starting
            &&& opened.channel_open
            &&& bound == (ServerPhase::Accepting, ServerActionView::Emit(ProxyEventView::Running))
            &&& running.status is Running
            &&& running.run_started == Some(started_at)
            &&& running.sent(ProxyEventView::Terminating) == Some(ProxyEventView::Terminating)
            &&& stopping.status is Terminating
            &&& cancelled == (ServerPhase::Finished, ServerActionView::Stop)
            &&& stopped.status is Stopped
            &&& stopped.run_started is None
            &&& !stopped.channel_open
            &&& stopped.requests == state.requests
            &&& stopped.filter == state.filter
            &&& stopped.started().channel_open
        }),
{
}

/// A failed bind: the engine announces the error and ends without accepting, and the
/// status becomes `Error` with the reason, not `Running`. The channel stays, so the
/// proxy can be run again.
pub proof fn law_failed_bind_gives_error(state: ProxyState, reason: Seq<char>, t0: u64, t1: u64)
    requires
        state.wf(),
    ensures
        ({
            let opened = state.started().after_event(ProxyEventView::Starting, t0);
            let failed = server_next(ServerPhase::Binding, ServerInputView::BindFailed(reason));
            let after = opened.after_event(ProxyEventView::Error(reason), t1);
            &&& failed == (
                ServerPhase::Finished,
                ServerActionView::Emit(ProxyEventView::Error(reason)),
            )
            &&& after.status == ProxyEventView::Error(reason)
            &&& !(after.status is Running)
            &&& after.run_started == state.run_started
            &&& after.wf()
            &&& forall|input: ServerInputView| (#[trigger] server_next(failed.0, input)).0
                == ServerPhase::Finished
        }),
{
}

/// A closed channel ends the event consumer and changes nothing: whatever the status
/// is, a consumer whose cycle has lost its senders leaves it as it is.
pub proof fn law_closed_channel_ends_the_consumer(state: ProxyState, now: u64, timestamp: Seq<char>)
    ensures
        !consumer_goes_on(ReceivedView::Closed),
        state.received(ReceivedView::Closed, now, timestamp) == state,
        forall|event: ProxyEventView|
            #[trigger] consumer_goes_on(ReceivedView::Event(event)) == !(event is Terminated),
        forall|event: ProxyEventView|
            (#[trigger] state.received(ReceivedView::Event(event), now, timestamp)).status
                == state.after_event(event, now).status,
{
}

/// A retry after a failed bind: from `Error`, `run` and the `Starting` event give
/// `Starting`, and a bound listener gives `Running`. The consumer of the failed cycle
/// then finds its channel closed and ends without a word: the status stays `Running`
/// until a stop is asked for.
pub proof fn law_retry_after_failed_bind_runs(
    state: ProxyState,
    reason: Seq<char>,
    t0: u64,
    t1: u64,
    t2: u64,
    timestamp: Seq<char>,
)
    requires
        state.wf(),
        state.status == ProxyEventView::Error(reason),
    ensures
        ({
            let opened = state.started().handled(ProxyEventView::Starting, t0, timestamp);
            let running = opened.handled(ProxyEventView::Running, t1, timestamp);
            let after = running.received(ReceivedView::Closed, t2, timestamp);
            &&& opened.status is Starting
            &&& opened.channel_open
            &&& running.status is Running
            &&& running.run_started == Some(t1)
            &&& after == running
            &&& after.status is Running
            &&& after.sent(ProxyEventView::Terminating) == Some(ProxyEventView::Terminating)
            &&& after.wf()
        }),
{
}

/// Once the accept loop has ended, the engine accepts nothing more.
pub proof fn law_finished_engine_stays_finished(input: ServerInputView)
    ensures
        server_next(ServerPhase::Finished, input) == (
            ServerPhase::Finished,
            ServerActionView::Ignore,
        ),
{
}

/// Without a run cycle a command reaches nobody: nothing is sent.
pub proof fn law_commands_need_a_cycle(state: ProxyState, event: ProxyEventView)
    ensures
        state.sent(event) is Some <==> state.channel_open,
        state.channel_open ==> state.sent(event) == Some(event),
{
}

/// The running time never decreases as the clock advances, is 0 while the timer is
/// not set, and counts whole seconds from the start.
pub proof fn law_run_time_is_monotonic(state: ProxyState, earlier: u64, later: u64)
    requires
        earlier <= later,
    ensures
        state.run_seconds(earlier) <= state.run_seconds(later),
        state.run_started is None ==> state.run_seconds(later) == 0,
        state.run_started == Some(earlier) ==> state.run_seconds(later) == (later - earlier)
            / NANOS_PER_SECOND as int,
{
    if let Some(start) = state.run_started {
        if earlier >= start {
            lemma_div_is_ordered(earlier - start, later - start, NANOS_PER_SECOND as int);
        }
    }
}

} // verus!
