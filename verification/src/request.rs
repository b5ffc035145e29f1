//! Per-request dispatch: the filter decision, then tunnel, forward or refuse.

use crate::events::{ProxyRequestLog, ProxyRequestLogView};
use crate::text::str_equals;
use crate::traffic_filter::{TrafficFilter, TrafficFilterView};
use vstd::prelude::*;

verus! {

/// The status of a rejected request.
pub const FORBIDDEN: u16 = 403;

/// The status of a request whose target cannot be resolved.
pub const BAD_REQUEST: u16 = 400;

/// The status that opens a tunnel.
pub const OK: u16 = 200;

/// The status of a request whose upstream cannot be reached.
pub const BAD_GATEWAY: u16 = 502;

/// The port of a target that names none.
pub const DEFAULT_PORT: u16 = 80;

/// The characters of an optional string.
pub open spec fn text_of(text: Option<String>) -> Option<Seq<char>> {
    match text {
        Some(s) => Some(s@),
        None => None,
    }
}

/// What the engine reads of one request: the method, the full target as text, and
/// the parts of the target that were resolved.
#[derive(Debug)]
pub struct ProxyRequest {
    pub method: String,
    pub uri: String,
    pub authority: Option<String>,
    pub host: Option<String>,
    pub port: Option<u16>,
}

/// The mathematical content of a [`ProxyRequest`].
pub ghost struct ProxyRequestView {
    pub method: Seq<char>,
    pub uri: Seq<char>,
    pub authority: Option<Seq<char>>,
    pub host: Option<Seq<char>>,
    pub port: Option<u16>,
}

impl View for ProxyRequest {
    type V = ProxyRequestView;

    open spec fn view(&self) -> ProxyRequestView {
        ProxyRequestView {
            method: self.method@,
            uri: self.uri@,
            authority: text_of(self.authority),
            host: text_of(self.host),
            port: self.port,
        }
    }
}

/// A response that the engine writes itself.
#[derive(Debug)]
pub struct ProxyResponse {
    pub status: u16,
    pub body: String,
}

/// The mathematical content of a [`ProxyResponse`].
pub ghost struct ProxyResponseView {
    pub status: u16,
    pub body: Seq<char>,
}

impl View for ProxyResponse {
    type V = ProxyResponseView;

    open spec fn view(&self) -> ProxyResponseView {
        ProxyResponseView { status: self.status, body: self.body@ }
    }
}

/// What is done with a request once the filter has spoken.
#[derive(Debug)]
pub enum ProxyAction {
    /// Answer the client and do nothing more.
    Respond(ProxyResponse),
    /// Answer the client, then relay bytes both ways between it and `address`.
    Tunnel { address: String, response: ProxyResponse },
    /// Send the request on to `host:port` and relay the answer unchanged.
    Forward { host: String, port: u16 },
}

/// The mathematical content of a [`ProxyAction`].
pub ghost enum ProxyActionView {
    Respond(ProxyResponseView),
    Tunnel { address: Seq<char>, response: ProxyResponseView },
    Forward { host: Seq<char>, port: u16 },
}

impl View for ProxyAction {
    type V = ProxyActionView;

    open spec fn view(&self) -> ProxyActionView {
        match self {
            ProxyAction::Respond(response) => ProxyActionView::Respond(response@),
            ProxyAction::Tunnel { address, response } => ProxyActionView::Tunnel {
                address: address@,
                response: response@,
            },
            ProxyAction::Forward { host, port } => ProxyActionView::Forward {
                host: host@,
                port: *port,
            },
        }
    }
}

/// The log entry of a request together with what is done with it.
#[derive(Debug)]
pub struct ProxyDecision {
    pub log: ProxyRequestLog,
    pub action: ProxyAction,
}

/// The mathematical content of a [`ProxyDecision`].
pub ghost struct ProxyDecisionView {
    pub log: ProxyRequestLogView,
    pub action: ProxyActionView,
}

impl View for ProxyDecision {
    type V = ProxyDecisionView;

    open spec fn view(&self) -> ProxyDecisionView {
        ProxyDecisionView { log: self.log@, action: self.action@ }
    }
}

/// The answer to a request that the filter rejects.
pub open spec fn forbidden_response() -> ProxyResponseView {
    ProxyResponseView { status: FORBIDDEN, body: "Oopsie Whoopsie!"@ }
}

/// The answer to a `CONNECT` whose target names no authority.
pub open spec fn connect_target_missing() -> ProxyResponseView {
    ProxyResponseView { status: BAD_REQUEST, body: "CONNECT must be to a socket address"@ }
}

/// The answer to a request whose target names no host.
pub open spec fn host_missing() -> ProxyResponseView {
    ProxyResponseView { status: BAD_REQUEST, body: "Host address could not be processed."@ }
}

/// The answer that opens a tunnel.
pub open spec fn tunnel_opened() -> ProxyResponseView {
    ProxyResponseView { status: OK, body: Seq::empty() }
}

/// The answer to a request whose upstream cannot be reached.
pub open spec fn bad_gateway_response() -> ProxyResponseView {
    ProxyResponseView { status: BAD_GATEWAY, body: "Upstream could not be reached."@ }
}

/// What is done with a request that the filter lets through: a `CONNECT` is tunnelled
/// to its authority, any other method is forwarded to its host, on port 80 where the
/// target names none; a target that lacks the part is refused.
pub open spec fn dispatch(request: ProxyRequestView) -> ProxyActionView {
    if request.method == "CONNECT"@ {
        match request.authority {
            Some(address) => ProxyActionView::Tunnel { address, response: tunnel_opened() },
            None => ProxyActionView::Respond(connect_target_missing()),
        }
    } else {
        match request.host {
            Some(host) => ProxyActionView::Forward {
                host,
                port: match request.port {
                    Some(port) => port,
                    None => DEFAULT_PORT,
                },
            },
            None => ProxyActionView::Respond(host_missing()),
        }
    }
}

/// The decision for one request under one filter snapshot: the entry that is logged,
/// and the rejection or the dispatch.
pub open spec fn decide(filter: TrafficFilterView, request: ProxyRequestView) -> ProxyDecisionView {
    ProxyDecisionView {
        log: ProxyRequestLogView {
            method: request.method,
            request: request.uri,
            blocked: filter.blocks(request.uri),
        },
        action: if filter.blocks(request.uri) {
            ProxyActionView::Respond(forbidden_response())
        } else {
            dispatch(request)
        },
    }
}

/// Decides one request against the filter snapshot taken at its start.
pub fn handle_request(request: &ProxyRequest, traffic_filter: &TrafficFilter) -> (decision:
    ProxyDecision)
    ensures
        decision@ == decide(traffic_filter@, request@),
{
    let blocked = traffic_filter.is_blocked(&request.uri);
    let log = ProxyRequestLog {
        method: request.method.clone(),
        request: request.uri.clone(),
        blocked,
    };
    if blocked {
        let response = ProxyResponse { status: FORBIDDEN, body: "Oopsie Whoopsie!".to_owned() };
        return ProxyDecision { log, action: ProxyAction::Respond(response) };
    }
    let action = if str_equals(request.method.as_str(), "CONNECT") {
        match get_host_address(request) {
            Some(address) => ProxyAction::Tunnel {
                address,
                response: ProxyResponse { status: OK, body: String::new() },
            },
            None => ProxyAction::Respond(
                ProxyResponse {
                    status: BAD_REQUEST,
                    body: "CONNECT must be to a socket address".to_owned(),
                },
            ),
        }
    } else {
        match &request.host {
            Some(host) => ProxyAction::Forward {
                host: host.clone(),
                port: match request.port {
                    Some(port) => port,
                    None => DEFAULT_PORT,
                },
            },
            None => ProxyAction::Respond(
                ProxyResponse {
                    status: BAD_REQUEST,
                    body: "Host address could not be processed.".to_owned(),
                },
            ),
        }
    };
    ProxyDecision { log, action }
}

/// The `host:port` text that a tunnel connects to: the target's authority.
pub fn get_host_address(request: &ProxyRequest) -> (address: Option<String>)
    ensures
        text_of(address) == request@.authority,
{
    match &request.authority {
        Some(authority) => Some(authority.clone()),
        None => None,
    }
}

/// The answer to a client whose upstream could not be reached.
pub fn upstream_unreachable() -> (response: ProxyResponse)
    ensures
        response@ == bad_gateway_response(),
{
    ProxyResponse { status: BAD_GATEWAY, body: "Upstream could not be reached.".to_owned() }
}

/// How forwarding a request went.
#[derive(Debug, Clone, Copy, PartialEq, Eq, Structural)]
pub enum ForwardOutcome {
    /// The upstream answered.
    Answered,
    /// The connection to the upstream could not be opened.
    ConnectFailed,
    /// The connection was opened, and the exchange over it failed.
    ExchangeFailed,
}

/// What the client gets once forwarding is over.
#[derive(Debug)]
pub enum ForwardStep {
    /// The upstream's answer, headers and body unchanged.
    Relay,
    /// An answer that the engine writes itself.
    Respond(ProxyResponse),
    /// The failure of the exchange, handed back to the connection that carried the
    /// request; no other connection is touched.
    HandBack,
}

/// The mathematical content of a [`ForwardStep`].
pub ghost enum ForwardStepView {
    Relay,
    Respond(ProxyResponseView),
    HandBack,
}

impl View for ForwardStep {
    type V = ForwardStepView;

    open spec fn view(&self) -> ForwardStepView {
        match self {
            ForwardStep::Relay => ForwardStepView::Relay,
            ForwardStep::Respond(response) => ForwardStepView::Respond(response@),
            ForwardStep::HandBack => ForwardStepView::HandBack,
        }
    }
}

/// What follows from the outcome of forwarding: an answer is relayed, a failed
/// connect is answered with 502, a failed exchange is handed back.
pub open spec fn forward_step(outcome: ForwardOutcome) -> ForwardStepView {
    match outcome {
        ForwardOutcome::Answered => ForwardStepView::Relay,
        ForwardOutcome::ConnectFailed => ForwardStepView::Respond(bad_gateway_response()),
        ForwardOutcome::ExchangeFailed => ForwardStepView::HandBack,
    }
}

/// Decides what the client gets once forwarding is over.
pub fn handle_forward(outcome: ForwardOutcome) -> (step: ForwardStep)
    ensures
        step@ == forward_step(outcome),
{
    match outcome {
        ForwardOutcome::Answered => ForwardStep::Relay,
        ForwardOutcome::ConnectFailed => ForwardStep::Respond(upstream_unreachable()),
        ForwardOutcome::ExchangeFailed => ForwardStep::HandBack,
    }
}

/// A request is answered with the rejection exactly when the filter blocks its
/// target, and the log entry says so; a request that is not blocked is dispatched as
/// if there were no filter.
pub proof fn law_rejection_follows_the_filter(filter: TrafficFilterView, request: ProxyRequestView)
    ensures
        decide(filter, request).log.blocked == filter.blocks(request.uri),
        decide(filter, request).action == ProxyActionView::Respond(forbidden_response())
            <==> filter.blocks(request.uri),
        !filter.blocks(request.uri) ==> decide(filter, request).action == dispatch(request),
        !filter.enabled ==> decide(filter, request).action == dispatch(request),
{
    assert(forbidden_response().status != connect_target_missing().status);
    assert(forbidden_response().status != host_missing().status);
}

/// A forwarded request whose upstream cannot be reached is answered with 502, and
/// nothing but a failed connect is.
pub proof fn law_failed_connect_is_a_bad_gateway(outcome: ForwardOutcome)
    ensures
        forward_step(outcome) == ForwardStepView::Respond(bad_gateway_response()) <==> outcome
            == ForwardOutcome::ConnectFailed,
        forward_step(ForwardOutcome::ConnectFailed) matches ForwardStepView::Respond(response)
            && response.status == 502,
{
}

/// A dispatched request is tunnelled only where its method is `CONNECT`, forwarded
/// only where it is not, and refused only where its target lacks the part that the
/// method needs.
pub proof fn law_dispatch_follows_the_method(request: ProxyRequestView)
    ensures
        dispatch(request) is Tunnel <==> request.method == "CONNECT"@ && request.authority is Some,
        dispatch(request) is Forward <==> request.method != "CONNECT"@ && request.host is Some,
        dispatch(request) is Respond <==> (if request.method == "CONNECT"@ {
            request.authority is None
        } else {
            request.host is None
        }),
{
}

} // verus!
