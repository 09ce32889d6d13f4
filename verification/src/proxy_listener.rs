//! The listener that accepts the connections of clients, and the requests that it serves meanwhile.

use std::sync::mpsc::SyncSender;
use vstd::prelude::*;

use crate::proxy_connection::LogLevel;
use crate::text::unsigned_text;

verus! {

/// The sending half of a bounded channel, `std::sync::mpsc::SyncSender`, carried through unopened.
#[verifier::external_type_specification]
#[verifier::external_body]
#[verifier::reject_recursive_types(T)]
pub struct ExSyncSender<T>(std::sync::mpsc::SyncSender<T>);

/// `SyncSender::clone` gives another sender of the same channel. Nothing is claimed of it.
pub assume_specification<T>[ <std::sync::mpsc::SyncSender<T> as Clone>::clone ](
    sender: &std::sync::mpsc::SyncSender<T>,
) -> (other: std::sync::mpsc::SyncSender<T>);

/// What the report of the startup tells.
pub const STARTUP_TASK: &'static str = "Started proxy listener, ready to accept request";

/// The method that the report of the startup comes from.
pub const STARTUP_METHOD_NAME: &'static str = "start";

/// The module that the report of the startup comes from.
pub const STARTUP_MODULE_NAME: &'static str = "proxy_listener";

/// The status of a module of the agent.
#[derive(Clone, Debug)]
pub struct ProxyAgentDetailStatus {
    pub status: String,
    pub message: String,
    pub states: Option<Vec<(String, String)>>,
}

/// What can be asked of the listener.
#[derive(Clone, Debug)]
#[allow(inconsistent_fields)]
pub enum ProxyRequest {
    /// Tell the status.
    Status { respond_to: SyncSender<ProxyAgentDetailStatus> },
    /// Tell how many connections were accepted.
    ConnectionCount { respond_to: SyncSender<u128> },
    /// Tell when the listener has stopped.
    Join { respond_to: SyncSender<()> },
    /// Stop.
    Stop,
}

/// What the listener waits for.
#[derive(Clone, Copy, Debug, PartialEq, Eq, Structural)]
pub enum ListenerCall {
    /// A socket is to be bound to the address.
    Bind,
    /// The startup is to be reported, as `STARTUP_TASK` from `STARTUP_METHOD_NAME` and
    /// `STARTUP_MODULE_NAME`, which gives the status message.
    ReportStartup,
    /// A pending request is to be taken, if there is one.
    PollRequest,
    /// A connection is to be accepted.
    Accept,
    /// Nothing more is to be done.
    Stopped,
}

/// What came of what the listener waited for. An `Err` holds the text of the error.
pub enum ListenerEvent {
    Bound(Result<(), String>),
    StartupReported(String),
    Polled(Option<ProxyRequest>),
    Accepted(Result<(), String>),
}

/// What the listener asks to be done, in the order in which it asks. Failures of it are ignored.
#[allow(inconsistent_fields)]
pub enum ListenerEffect {
    /// Set up the log of the connections.
    InitConnectionLog,
    /// Write a line to the log of the agent.
    Log { level: LogLevel, message: String },
    /// Tell the provisioning that the listener has started.
    ListenerStarted,
    /// Set up the pool that handles the connections.
    CreatePool { size: usize },
    /// Answer a request for the status.
    ReplyStatus { respond_to: SyncSender<ProxyAgentDetailStatus>, status: ProxyAgentDetailStatus },
    /// Answer a request for the number of connections.
    ReplyConnectionCount { respond_to: SyncSender<u128>, count: u128 },
    /// Have the pool handle the accepted connection under this number.
    HandleConnection { id: u128 },
    /// Let those go on who wait for the listener to stop.
    Release { waiting: Vec<SyncSender<()>> },
}

/// What a `ListenerEffect` says, its texts as sequences of characters.
#[allow(inconsistent_fields)]
pub ghost enum Deed {
    InitConnectionLog,
    Log { level: LogLevel, message: Seq<char> },
    ListenerStarted,
    CreatePool { size: usize },
    ReplyStatus {
        respond_to: SyncSender<ProxyAgentDetailStatus>,
        state: Seq<char>,
        message: Seq<char>,
        states: Option<Seq<(Seq<char>, Seq<char>)>>,
    },
    ReplyConnectionCount { respond_to: SyncSender<u128>, count: u128 },
    HandleConnection { id: u128 },
    Release { waiting: Seq<SyncSender<()>> },
}

impl DeepView for ListenerEffect {
    type V = Deed;

    open spec fn deep_view(&self) -> Deed {
        match self {
            ListenerEffect::InitConnectionLog => Deed::InitConnectionLog,
            ListenerEffect::Log { level, message } => Deed::Log {
                level: *level,
                message: message@,
            },
            ListenerEffect::ListenerStarted => Deed::ListenerStarted,
            ListenerEffect::CreatePool { size } => Deed::CreatePool { size: *size },
            ListenerEffect::ReplyStatus { respond_to, status } => Deed::ReplyStatus {
                respond_to: *respond_to,
                state: status.status@,
                message: status.message@,
                states: status.states.deep_view(),
            },
            ListenerEffect::ReplyConnectionCount { respond_to, count } => Deed::ReplyConnectionCount {
                respond_to: *respond_to,
                count: *count,
            },
            ListenerEffect::HandleConnection { id } => Deed::HandleConnection { id: *id },
            ListenerEffect::Release { waiting } => Deed::Release { waiting: waiting@ },
        }
    }
}

/// The listener.
pub struct Listener {
    pub addr: String,
    pub pool_size: u16,
    /// How the agent calls the state of a module that runs.
    pub running_state: String,
    pub status_message: String,
    /// How many connections were accepted, counted anew once the number can grow no further.
    pub connection_count: u128,
    /// Those who wait for the listener to stop.
    pub join_requests: Vec<SyncSender<()>>,
    pub call: ListenerCall,
}

/// The state of a listener.
#[verifier::ext_equal]
pub ghost struct ListenerState {
    pub addr: Seq<char>,
    pub pool_size: u16,
    pub running_state: Seq<char>,
    pub status_message: Seq<char>,
    pub connection_count: u128,
    pub join_requests: Seq<SyncSender<()>>,
    pub call: ListenerCall,
}

impl View for Listener {
    type V = ListenerState;

    open spec fn view(&self) -> ListenerState {
        ListenerState {
            addr: self.addr@,
            pool_size: self.pool_size,
            running_state: self.running_state@,
            status_message: self.status_message@,
            connection_count: self.connection_count,
            join_requests: self.join_requests@,
            call: self.call,
        }
    }
}

/// What a step comes to: the listener after it, and what it asks to be done.
pub ghost struct ListenerOutcome {
    pub listener: ListenerState,
    pub deeds: Seq<Deed>,
}

/// Whether `event` tells what came of `call`.
pub open spec fn listener_answers(call: ListenerCall, event: ListenerEvent) -> bool {
    match call {
        ListenerCall::Bind => event is Bound,
        ListenerCall::ReportStartup => event is StartupReported,
        ListenerCall::PollRequest => event is Polled,
        ListenerCall::Accept => event is Accepted,
        ListenerCall::Stopped => false,
    }
}

/// The number of the connection that is accepted after `count` others. The numbers start anew after
/// the largest.
pub open spec fn next_id(count: u128) -> u128 {
    if count == u128::MAX {
        1
    } else {
        (count + 1) as u128
    }
}

/// The address that a listener on `port` binds: all local addresses.
pub open spec fn listen_address(port: u16) -> Seq<char> {
    "0.0.0.0:"@ + crate::text::decimal(port as nat)
}

/// A listener that has yet to bind its address, and what is to be done first.
pub open spec fn listener_start(
    port: u16,
    pool_size: u16,
    running_state: Seq<char>,
) -> ListenerOutcome {
    ListenerOutcome {
        listener: ListenerState {
            addr: listen_address(port),
            pool_size,
            running_state,
            status_message: seq![],
            connection_count: 0,
            join_requests: seq![],
            call: ListenerCall::Bind,
        },
        deeds: seq![
            Deed::InitConnectionLog,
            Deed::Log {
                level: LogLevel::Message,
                message: "Start proxy listener at '"@ + listen_address(port) + "'."@,
            },
        ],
    }
}

/// How a request is served. One to stop ends the listener and lets those go who wait for that.
pub open spec fn request_served(listener: ListenerState, request: ProxyRequest) -> ListenerOutcome {
    match request {
        ProxyRequest::Status { respond_to } => ListenerOutcome {
            listener,
            deeds: seq![
                Deed::ReplyStatus {
                    respond_to,
                    state: listener.running_state,
                    message: listener.status_message,
                    states: None,
                },
            ],
        },
        ProxyRequest::ConnectionCount { respond_to } => ListenerOutcome {
            listener,
            deeds: seq![Deed::ReplyConnectionCount { respond_to, count: listener.connection_count }],
        },
        ProxyRequest::Join { respond_to } => ListenerOutcome {
            listener: ListenerState {
                join_requests: listener.join_requests.push(respond_to),
                ..listener
            },
            deeds: seq![],
        },
        ProxyRequest::Stop => ListenerOutcome {
            listener: ListenerState {
                status_message: "Stop signal received, stopping the listener."@,
                join_requests: seq![],
                call: ListenerCall::Stopped,
                ..listener
            },
            deeds: seq![
                Deed::Log {
                    level: LogLevel::Warning,
                    message: "Stop signal received, stopping the listener."@,
                },
                Deed::Release { waiting: listener.join_requests },
                Deed::Log {
                    level: LogLevel::Message,
                    message: "ProxyListener stopped accepting new request."@,
                },
            ],
        },
    }
}

/// How a listener goes on after an event. It serves all pending requests before it accepts a
/// connection, and counts a connection whether or not it could be accepted.
pub open spec fn listener_next(listener: ListenerState, happened: ListenerEvent) -> ListenerOutcome {
    match happened {
        ListenerEvent::Bound(Ok(_)) => ListenerOutcome {
            listener: ListenerState { call: ListenerCall::ReportStartup, ..listener },
            deeds: seq![],
        },
        ListenerEvent::Bound(Err(error)) => {
            let message = "Failed to bind TcpListener '"@ + listener.addr + "' with error "@ + error@
                + "."@;
            ListenerOutcome {
                listener: ListenerState {
                    status_message: message,
                    call: ListenerCall::Stopped,
                    ..listener
                },
                deeds: seq![Deed::Log { level: LogLevel::Error, message }],
            }
        },
        ListenerEvent::StartupReported(message) => ListenerOutcome {
            listener: ListenerState {
                status_message: message@,
                call: ListenerCall::PollRequest,
                ..listener
            },
            deeds: seq![
                Deed::ListenerStarted,
                Deed::CreatePool { size: listener.pool_size as usize },
            ],
        },
        ListenerEvent::Polled(Some(request)) => request_served(listener, request),
        ListenerEvent::Polled(None) => ListenerOutcome {
            listener: ListenerState { call: ListenerCall::Accept, ..listener },
            deeds: seq![],
        },
        ListenerEvent::Accepted(result) => {
            let id = next_id(listener.connection_count);
            ListenerOutcome {
                listener: ListenerState {
                    connection_count: id,
                    call: ListenerCall::PollRequest,
                    ..listener
                },
                deeds: match result {
                    Ok(_) => seq![Deed::HandleConnection { id }],
                    Err(error) => seq![
                        Deed::Log {
                            level: LogLevel::Warning,
                            message: "Incoming connection with error "@ + error@ + "; ignore it."@,
                        },
                    ],
                },
            }
        },
    }
}

/// A listener for `port` on all local addresses, and what is to be done before it binds. While it
/// serves, it tells its state as `running_state`.
pub fn start(port: u16, pool_size: u16, running_state: String) -> (started: (
    Listener,
    Vec<ListenerEffect>,
))
    ensures
        started.0@ == listener_start(port, pool_size, running_state@).listener,
        started.1.deep_view() == listener_start(port, pool_size, running_state@).deeds,
{
    // listen to wildcard ip address to accept request from
    // loopback address and local ip addresses
    let addr = "0.0.0.0:".to_owned().concat(unsigned_text(port as u128).as_str());
    let effects: Vec<ListenerEffect> = vec![
        ListenerEffect::InitConnectionLog,
        ListenerEffect::Log {
            level: LogLevel::Message,
            message: "Start proxy listener at '".to_owned().concat(addr.as_str()).concat("'."),
        },
    ];
    let listener = Listener {
        addr,
        pool_size,
        running_state,
        status_message: String::new(),
        connection_count: 0,
        join_requests: Vec::new(),
        call: ListenerCall::Bind,
    };
    assert(effects.deep_view() =~= listener_start(port, pool_size, running_state@).deeds);
    assert(listener@ =~= listener_start(port, pool_size, running_state@).listener);
    (listener, effects)
}

/// Whether `event` tells what came of `call`.
pub fn is_listener_answer(call: ListenerCall, event: &ListenerEvent) -> (answer: bool)
    ensures
        answer == listener_answers(call, *event),
{
    match (call, event) {
        (ListenerCall::Bind, ListenerEvent::Bound(_)) => true,
        (ListenerCall::ReportStartup, ListenerEvent::StartupReported(_)) => true,
        (ListenerCall::PollRequest, ListenerEvent::Polled(_)) => true,
        (ListenerCall::Accept, ListenerEvent::Accepted(_)) => true,
        _ => false,
    }
}

/// Serves one request.
fn serve_request(listener: &mut Listener, request: ProxyRequest) -> (effects: Vec<ListenerEffect>)
    ensures
        final(listener)@ == request_served(old(listener)@, request).listener,
        effects.deep_view() == request_served(old(listener)@, request).deeds,
{
    let ghost outcome = request_served(listener@, request);
    match request {
        ProxyRequest::Status { respond_to } => {
            let status = ProxyAgentDetailStatus {
                status: listener.running_state.clone(),
                message: listener.status_message.clone(),
                states: None,
            };
            let effects: Vec<ListenerEffect> = vec![
                ListenerEffect::ReplyStatus { respond_to, status },
            ];
            assert(effects.deep_view() =~= outcome.deeds);
            effects
        },
        ProxyRequest::ConnectionCount { respond_to } => {
            let effects: Vec<ListenerEffect> = vec![
                ListenerEffect::ReplyConnectionCount {
                    respond_to,
                    count: listener.connection_count,
                },
            ];
            assert(effects.deep_view() =~= outcome.deeds);
            effects
        },
        ProxyRequest::Join { respond_to } => {
            listener.join_requests.push(respond_to);
            let effects: Vec<ListenerEffect> = Vec::new();
            assert(effects.deep_view() =~= outcome.deeds);
            effects
        },
        ProxyRequest::Stop => {
            let mut waiting: Vec<SyncSender<()>> = Vec::new();
            waiting.append(&mut listener.join_requests);
            listener.status_message = "Stop signal received, stopping the listener.".to_owned();
            listener.call = ListenerCall::Stopped;
            let effects: Vec<ListenerEffect> = vec![
                ListenerEffect::Log {
                    level: LogLevel::Warning,
                    message: listener.status_message.clone(),
                },
                ListenerEffect::Release { waiting },
                ListenerEffect::Log {
                    level: LogLevel::Message,
                    message: "ProxyListener stopped accepting new request.".to_owned(),
                },
            ];
            assert(waiting@ =~= old(listener).join_requests@);
            assert(effects.deep_view() =~= outcome.deeds);
            assert(listener@ =~= outcome.listener);
            effects
        },
    }
}

/// Handles what came of the pending call of the listener: the listener goes on to the next call, and
/// what is to be done before that call is returned.
pub fn handle_listener(listener: &mut Listener, happened: ListenerEvent) -> (effects: Vec<
    ListenerEffect,
>)
    requires
        listener_answers(old(listener).call, happened),
    ensures
        final(listener)@ == listener_next(old(listener)@, happened).listener,
        effects.deep_view() == listener_next(old(listener)@, happened).deeds,
{
    let ghost outcome = listener_next(listener@, happened);
    match happened {
        ListenerEvent::Bound(Ok(_)) => {
            listener.call = ListenerCall::ReportStartup;
            let effects: Vec<ListenerEffect> = Vec::new();
            assert(effects.deep_view() =~= outcome.deeds);
            effects
        },
        ListenerEvent::Bound(Err(error)) => {
            let message = "Failed to bind TcpListener '".to_owned().concat(
                listener.addr.as_str(),
            ).concat("' with error ").concat(error.as_str()).concat(".");
            let effects: Vec<ListenerEffect> = vec![
                ListenerEffect::Log { level: LogLevel::Error, message: message.clone() },
            ];
            listener.status_message = message;
            listener.call = ListenerCall::Stopped;
            assert(effects.deep_view() =~= outcome.deeds);
            effects
        },
        ListenerEvent::StartupReported(message) => {
            listener.status_message = message;
            listener.call = ListenerCall::PollRequest;
            let effects: Vec<ListenerEffect> = vec![
                ListenerEffect::ListenerStarted,
                ListenerEffect::CreatePool { size: listener.pool_size as usize },
            ];
            assert(effects.deep_view() =~= outcome.deeds);
            effects
        },
        ListenerEvent::Polled(Some(request)) => serve_request(listener, request),
        ListenerEvent::Polled(None) => {
            listener.call = ListenerCall::Accept;
            let effects: Vec<ListenerEffect> = Vec::new();
            assert(effects.deep_view() =~= outcome.deeds);
            effects
        },
        ListenerEvent::Accepted(result) => {
            if listener.connection_count == u128::MAX {
                // reset connection id
                listener.connection_count = 0;
            }
            listener.connection_count = listener.connection_count + 1;
            listener.call = ListenerCall::PollRequest;
            let effects: Vec<ListenerEffect> = match result {
                Ok(_) => vec![ListenerEffect::HandleConnection { id: listener.connection_count }],
                Err(error) => vec![
                    ListenerEffect::Log {
                        level: LogLevel::Warning,
                        message: "Incoming connection with error ".to_owned().concat(
                            error.as_str(),
                        ).concat("; ignore it."),
                    },
                ],
            };
            assert(effects.deep_view() =~= outcome.deeds);
            effects
        },
    }
}

/// How to stop a listener on `port` from outside: the request to queue, the address to connect to
/// afterwards, so that a listener which waits for a connection wakes up and finds the request, and
/// the line for the log.
pub fn stop(port: u16) -> (signal: (ProxyRequest, String, ListenerEffect))
    ensures
        signal.0 is Stop,
        signal.1@ == "127.0.0.1:"@ + crate::text::decimal(port as nat),
        signal.2.deep_view() == (Deed::Log {
            level: LogLevel::Warning,
            message: "Sending stop signal."@,
        }),
{
    let addr = "127.0.0.1:".to_owned().concat(unsigned_text(port as u128).as_str());
    (
        ProxyRequest::Stop,
        addr,
        ListenerEffect::Log { level: LogLevel::Warning, message: "Sending stop signal.".to_owned() },
    )
}

} // verus!
