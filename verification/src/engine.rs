//! The network engine's control skeleton and the termination supervisor, as steps
//! from a phase and an input to the next phase and an action.

use crate::events::{ProxyEvent, ProxyEventView};
use crate::proxy::event_of;
use crate::text::{decimal, law_numeral_reads_back, parse_u16, parsed_u16, trim, trimmed};
use vstd::prelude::*;

verus! {

/// The pause between two polls of the status cell, in milliseconds.
pub const POLL_INTERVAL_MILLIS: u64 = 1000;

/// The pause before each receive of the event consumer, in milliseconds.
pub const CONSUMER_PAUSE_MILLIS: u64 = 100;

/// Where the network engine stands.
#[derive(Debug, Clone, Copy, PartialEq, Eq, Structural)]
pub enum ServerPhase {
    /// The listener is not bound yet.
    Binding,
    /// The listener is bound and connections are accepted.
    Accepting,
    /// The accept loop has ended, or never began.
    Finished,
}

/// What happened at the listener.
#[derive(Debug)]
pub enum ServerInput {
    /// The listener was bound.
    Bound,
    /// The listener could not be bound, for the given reason.
    BindFailed(String),
    /// A client connected.
    Connection,
    /// The cancellation signal arrived.
    Cancelled,
}

/// The mathematical content of a [`ServerInput`].
pub ghost enum ServerInputView {
    Bound,
    BindFailed(Seq<char>),
    Connection,
    Cancelled,
}

impl View for ServerInput {
    type V = ServerInputView;

    open spec fn view(&self) -> ServerInputView {
        match self {
            ServerInput::Bound => ServerInputView::Bound,
            ServerInput::BindFailed(reason) => ServerInputView::BindFailed(reason@),
            ServerInput::Connection => ServerInputView::Connection,
            ServerInput::Cancelled => ServerInputView::Cancelled,
        }
    }
}

/// What the engine does next.
#[derive(Debug)]
pub enum ServerAction {
    /// Put the event on the channel.
    Emit(ProxyEvent),
    /// Serve the new connection on a task of its own.
    Serve,
    /// Leave the accept loop; connections in flight finish on their own.
    Stop,
    /// Nothing: the input does not belong to the phase.
    Ignore,
}

/// The mathematical content of a [`ServerAction`].
pub ghost enum ServerActionView {
    Emit(ProxyEventView),
    Serve,
    Stop,
    Ignore,
}

impl View for ServerAction {
    type V = ServerActionView;

    open spec fn view(&self) -> ServerActionView {
        match self {
            ServerAction::Emit(event) => ServerActionView::Emit(event@),
            ServerAction::Serve => ServerActionView::Serve,
            ServerAction::Stop => ServerActionView::Stop,
            ServerAction::Ignore => ServerActionView::Ignore,
        }
    }
}

/// The engine's transition. A bound listener announces `Running` and accepts; a
/// failed bind announces the error and ends; while accepting, a connection is served
/// and a cancellation ends the loop. Any other pairing changes nothing.
pub open spec fn server_next(phase: ServerPhase, input: ServerInputView) -> (
    ServerPhase,
    ServerActionView,
) {
    match (phase, input) {
        (ServerPhase::Binding, ServerInputView::Bound) => (
            ServerPhase::Accepting,
            ServerActionView::Emit(ProxyEventView::Running),
        ),
        (ServerPhase::Binding, ServerInputView::BindFailed(reason)) => (
            ServerPhase::Finished,
            ServerActionView::Emit(ProxyEventView::Error(reason)),
        ),
        (ServerPhase::Accepting, ServerInputView::Connection) => (
            ServerPhase::Accepting,
            ServerActionView::Serve,
        ),
        (ServerPhase::Accepting, ServerInputView::Cancelled) => (
            ServerPhase::Finished,
            ServerActionView::Stop,
        ),
        _ => (phase, ServerActionView::Ignore),
    }
}

/// One step of the network engine.
pub fn server_step(phase: ServerPhase, input: ServerInput) -> (next: (ServerPhase, ServerAction))
    ensures
        (next.0, next.1@) == server_next(phase, input@),
{
    match phase {
        ServerPhase::Binding => match input {
            ServerInput::Bound => (ServerPhase::Accepting, ServerAction::Emit(ProxyEvent::Running)),
            ServerInput::BindFailed(reason) => (
                ServerPhase::Finished,
                ServerAction::Emit(ProxyEvent::Error(reason)),
            ),
            _ => (phase, ServerAction::Ignore),
        },
        ServerPhase::Accepting => match input {
            ServerInput::Connection => (ServerPhase::Accepting, ServerAction::Serve),
            ServerInput::Cancelled => (ServerPhase::Finished, ServerAction::Stop),
            _ => (phase, ServerAction::Ignore),
        },
        ServerPhase::Finished => (phase, ServerAction::Ignore),
    }
}

/// The port that the listener binds on the loopback address: the number that the
/// trimmed text denotes, if it denotes one.
pub open spec fn listen_port_of(port: Seq<char>) -> Option<u16> {
    parsed_u16(trimmed(port))
}

/// The input that stands for a port text that denotes no port: the engine rejects it
/// as it rejects a failed bind.
pub open spec fn unusable_port() -> ServerInputView {
    ServerInputView::BindFailed("Invalid Characters in Port."@)
}

/// The listener's port, or the bind failure that an unusable port text amounts to.
pub fn listen_port(port: &str) -> (number: Result<u16, ServerInput>)
    ensures
        match listen_port_of(port@) {
            Some(n) => number == Ok::<u16, ServerInput>(n),
            None => number is Err && number->Err_0@ == unusable_port(),
        },
{
    listen_port_in(trim(port))
}

/// The listener's port for a port text that has been trimmed.
pub fn listen_port_in(inner: &str) -> (number: Result<u16, ServerInput>)
    ensures
        match parsed_u16(inner@) {
            Some(n) => number == Ok::<u16, ServerInput>(n),
            None => number is Err && number->Err_0@ == unusable_port(),
        },
{
    match parse_u16(inner) {
        Some(n) => Ok(n),
        None => Err(ServerInput::BindFailed("Invalid Characters in Port.".to_owned())),
    }
}

/// Whether the supervisor, having read `status`, fires the cancellation signal and
/// ends its watch: exactly when a stop has been requested.
pub fn supervisor_poll(status: &ProxyEvent) -> (fire: bool)
    ensures
        fire == (status@ is Terminating),
{
    matches!(status, ProxyEvent::Terminating)
}

/// What the supervisor reports once its wait for the signal is over.
pub open spec fn supervisor_report(signalled: bool, channel_present: bool) -> Option<
    ProxyEventView,
> {
    if signalled && channel_present {
        Some(ProxyEventView::Terminated)
    } else {
        None
    }
}

/// The event that the supervisor puts on the channel once its wait is over:
/// `Terminated` where the signal was received and the cycle has a channel; nothing
/// where the signal was lost.
pub fn supervisor_notice(signalled: bool, channel_present: bool) -> (event: Option<ProxyEvent>)
    ensures
        event_of(event) == supervisor_report(signalled, channel_present),
{
    if signalled && channel_present {
        Some(ProxyEvent::Terminated)
    } else {
        None
    }
}

/// The numeral of a port is read as that port.
pub proof fn law_listen_port_reads_numerals(number: nat)
    requires
        number <= u16::MAX,
    ensures
        listen_port_of(decimal(number)) == Some(number as u16),
{
    law_numeral_reads_back(number);
}

} // verus!
