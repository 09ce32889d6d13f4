//! The state of one proxied connection, what it waits for, and what it asks to be done.

use std::time::Instant;
use vstd::prelude::*;

use crate::span::milliseconds_since;

verus! {

/// The header that carries the signature of a request. A response that went through the proxy
/// carries it too, to let the client know.
pub const AUTHORIZATION_HEADER: &'static str = "x-ms-azure-host-authorization";

/// The header that tells the host who made the request.
pub const CLAIMS_HEADER: &'static str = "x-ms-azure-host-claims";

/// What the authorization header of a response holds.
pub const AUTHORIZATION_MARK: &'static str = "value";

/// How long to wait for a client that sends less than it announced, in seconds.
pub const READ_TIMEOUT_SECS: u64 = 10;

/// The names that the host gives to what the agent adds to a request.
pub struct ProtocolNames {
    /// The header that holds the date of the request.
    pub date_header: String,
    /// The scheme that stands first in the authorization header.
    pub authorization_scheme: String,
    /// The key of the claims header that tells whether the caller runs elevated.
    pub claims_is_root: String,
}

/// The statuses with which the proxy itself answers a client.
#[derive(Clone, Copy, Debug, PartialEq, Eq, Structural)]
pub enum Status {
    Continue,
    BadRequest,
    Forbidden,
    Misdirected,
    BadGateway,
}

/// The code and the reason of a status.
pub open spec fn status_text(status: Status) -> Seq<char> {
    match status {
        Status::Continue => "100 Continue"@,
        Status::BadRequest => "400 Bad Request"@,
        Status::Forbidden => "403 Forbidden"@,
        Status::Misdirected => "421 Misdirected Request"@,
        Status::BadGateway => "502 Bad Gateway"@,
    }
}

impl Status {
    /// The code and the reason of the status.
    pub fn text(&self) -> (text: &'static str)
        ensures
            text@ == status_text(*self),
    {
        match self {
            Status::Continue => "100 Continue",
            Status::BadRequest => "400 Bad Request",
            Status::Forbidden => "403 Forbidden",
            Status::Misdirected => "421 Misdirected Request",
            Status::BadGateway => "502 Bad Gateway",
        }
    }
}

/// How much attention a line of the connection log deserves.
#[derive(Clone, Copy, Debug, PartialEq, Eq, Structural)]
pub enum LogLevel {
    Message,
    Information,
    Warning,
    Error,
}

/// A header of a request or a response.
pub struct Header<S> {
    pub name: S,
    pub value: S,
}

impl View for Header<String> {
    type V = Header<Seq<char>>;

    open spec fn view(&self) -> Header<Seq<char>> {
        Header { name: self.name@, value: self.value@ }
    }
}

/// Who made a request, as far as the operating system tells.
#[allow(non_snake_case)]
pub struct Claims {
    pub userId: u64,
    pub userName: String,
    pub userGroups: Vec<String>,
    pub processId: u32,
    pub processName: String,
    pub processFullPath: String,
    pub processCmdLine: String,
    pub runAsElevated: bool,
    pub clientIp: String,
}

impl Claims {
    /// Whether nothing is claimed.
    pub open spec fn is_empty(&self) -> bool {
        &&& self.userId == 0
        &&& self.userName@.len() == 0
        &&& self.userGroups@.len() == 0
        &&& self.processId == 0
        &&& self.processName@.len() == 0
        &&& self.processFullPath@.len() == 0
        &&& self.processCmdLine@.len() == 0
        &&& !self.runAsElevated
        &&& self.clientIp@.len() == 0
    }

    /// The claims of a connection of which nothing is known.
    pub fn empty() -> (claims: Self)
        ensures
            claims.is_empty(),
    {
        Claims {
            userId: 0,
            userName: String::new(),
            userGroups: Vec::new(),
            processId: 0,
            processName: String::new(),
            processFullPath: String::new(),
            processCmdLine: String::new(),
            runAsElevated: false,
            clientIp: String::new(),
        }
    }
}

/// What a connection waits for.
#[derive(Clone, Copy, Debug, PartialEq, Eq, Structural)]
pub enum Call {
    /// The request line and headers are to be read from the client, for at most this long at a
    /// time.
    ReceiveRequest { read_timeout_secs: u64 },
    /// The address of the client is to be asked for.
    PeerAddress,
    /// The audit entry of the client's port is to be looked up.
    LookupAudit { client_port: u16 },
    /// The audit entry is to be taken from the stream.
    AuditFromStream,
    /// The claims are to be made from the audit entry and `client_ip`.
    BuildClaims,
    /// What judges the access of `claims` to `ip` and `port` is to be found.
    FindAuthenticator,
    /// The access to `url` is to be judged by what was found.
    Authenticate,
    /// A connection to `ip` and `port` is to be opened.
    ConnectServer,
    /// It is to be found out whether the request may go without a signature.
    SkipSignature,
    /// It is to be found out whether the client waits before it sends the body.
    ExpectContinue,
    /// The announced length of the body that the client holds back is to be read.
    ContentLength,
    /// The body is to be read from the client.
    ReceiveBody { length: usize },
    /// The current key is to be fetched.
    CurrentKey,
    /// The signature of the request is to be computed with `key`.
    ComputeSignature,
    /// The response of the host is to be forwarded to the client.
    ForwardResponse { after_continue: bool },
    /// The response of the host is to be read.
    ReceiveResponse { after_continue: bool },
    /// The announced length of the body that the host now expects is to be read.
    StreamLength,
    /// The body is to be passed on from the client to the host.
    StreamBody { length: usize },
    /// Nothing more is to be done.
    Closed,
}

/// A request as far as it is read: how it is described in the log, and its method and URL.
pub struct RequestLine {
    pub method: String,
    pub url: String,
    pub description: String,
}

/// The address of a client.
pub struct Peer {
    pub ip: String,
    pub port: u16,
}

/// Why a stream gave no audit entry.
pub struct StreamAuditError {
    /// Whether the platform cannot take an entry from a stream at all.
    pub unsupported: bool,
    pub message: String,
}

/// Claims, their JSON text or why there is none, and where the client meant to connect to.
pub struct BuiltClaims {
    pub claims: Claims,
    pub details: Result<String, String>,
    pub destination_ip: String,
    pub destination_port: u16,
}

/// What was signed, and the signature with the key that made it, or why there is none.
pub struct Signing {
    pub input_to_sign: Vec<u8>,
    pub signature: Result<Signature, String>,
}

/// A signature and the identifier of the key that made it.
pub struct Signature {
    pub key_guid: String,
    pub value: String,
}

/// A response of the host.
pub struct HostResponse {
    pub status: String,
    pub description: String,
    /// Whether the host asks for the body of the request.
    pub is_continue: bool,
}

/// What came of what a connection waited for. An `Err` holds the text of the error.
pub enum Event {
    RequestReceived(Result<RequestLine, String>),
    PeerAddress(Result<Peer, String>),
    AuditLookedUp(Result<(), String>),
    AuditFromStream(Result<(), StreamAuditError>),
    ClaimsBuilt(BuiltClaims),
    /// The description of what judges the access.
    AuthenticatorFound(String),
    /// How the access was judged.
    Authenticated { allowed: bool },
    /// The current date, where the connection stands.
    ServerConnected(Result<String, String>),
    /// Whether the request may go without a signature, with its description.
    SkipSignature { skip: bool, description: String },
    ExpectContinue(bool),
    ContentLength(Result<usize, String>),
    BodyReceived(Result<Vec<u8>, String>),
    CurrentKey(String),
    Signed(Signing),
    /// The response, and how much of its body was passed on.
    Forwarded(Result<(HostResponse, usize), String>),
    ResponseReceived(Result<HostResponse, String>),
    /// How much of the body was passed on.
    BodyStreamed(Result<usize, String>),
}

/// What a connection asks to be done, in the order in which it asks. Failures of it are ignored.
#[allow(inconsistent_fields)]
pub enum Effect<S> {
    /// Write a line to the connection log.
    Log { level: LogLevel, message: S },
    /// Write a warning event, under the names of the method and the module that it comes from.
    WarningEvent { message: S, method_name: S, module_name: S },
    /// Answer the client with a status, one header and no body.
    Respond { status: Status, header: Header<S> },
    /// Record the summary of the connection with the status of the response.
    LogSummary { status: S },
    /// Add a header to the request.
    AddRequestHeader(Header<S>),
    /// Give the request this body.
    SetRequestBody(Vec<u8>),
    /// Send the request to the host, without its body.
    SendRequest,
    /// Send the body of the request to the host.
    SendRequestBody,
    /// Add a header to every response that is forwarded from now on.
    MarkForwarded(Header<S>),
    /// Add a header to the response of the host and send it to the client.
    ReturnResponse(Header<S>),
}

impl View for Effect<String> {
    type V = Effect<Seq<char>>;

    open spec fn view(&self) -> Effect<Seq<char>> {
        match self {
            Effect::Log { level, message } => Effect::Log { level: *level, message: message@ },
            Effect::WarningEvent { message, method_name, module_name } => Effect::WarningEvent {
                message: message@,
                method_name: method_name@,
                module_name: module_name@,
            },
            Effect::Respond { status, header } => Effect::Respond {
                status: *status,
                header: header@,
            },
            Effect::LogSummary { status } => Effect::LogSummary { status: status@ },
            Effect::AddRequestHeader(header) => Effect::AddRequestHeader(header@),
            Effect::SetRequestBody(body) => Effect::SetRequestBody(*body),
            Effect::SendRequest => Effect::SendRequest,
            Effect::SendRequestBody => Effect::SendRequestBody,
            Effect::MarkForwarded(header) => Effect::MarkForwarded(header@),
            Effect::ReturnResponse(header) => Effect::ReturnResponse(header@),
        }
    }
}

impl DeepView for Effect<String> {
    type V = Effect<Seq<char>>;

    open spec fn deep_view(&self) -> Effect<Seq<char>> {
        self@
    }
}

/// One connection that a client made to the proxy.
pub struct Connection {
    pub id: u128,
    /// When the connection was accepted.
    pub now: Instant,
    pub method: String,
    pub url: String,
    pub client_ip: String,
    pub claims: Option<Claims>,
    /// The JSON text of the claims.
    pub claim_details: String,
    /// Where the client meant to connect to.
    pub ip: String,
    pub port: u16,
    /// The key that signs the request.
    pub key: String,
    pub call: Call,
}

/// The record of a connection that was answered.
#[allow(non_snake_case)]
pub struct ProxySummary {
    pub userId: u64,
    pub userName: String,
    pub userGroups: Vec<String>,
    pub clientIp: String,
    pub processFullPath: String,
    pub processCmdLine: String,
    pub runAsElevated: bool,
    pub method: String,
    pub url: String,
    pub ip: String,
    pub port: u16,
    pub responseStatus: String,
    pub elapsedTime: u128,
}

impl ProxySummary {
    /// Whether the summary is that of a request by `claims`, answered with `response_status` after
    /// `elapsed` milliseconds on `connection`.
    pub open spec fn records(
        &self,
        connection: Connection,
        claims: Claims,
        response_status: Seq<char>,
        elapsed: u128,
    ) -> bool {
        &&& self.userId == claims.userId
        &&& self.userName@ == claims.userName@
        &&& self.userGroups.deep_view() == claims.userGroups.deep_view()
        &&& self.clientIp@ == claims.clientIp@
        &&& self.processFullPath@ == claims.processFullPath@
        &&& self.processCmdLine@ == claims.processCmdLine@
        &&& self.runAsElevated == claims.runAsElevated
        &&& self.method@ == connection.method@
        &&& self.url@ == connection.url@
        &&& self.ip@ == connection.ip@
        &&& self.port == connection.port
        &&& self.responseStatus@ == response_status
        &&& self.elapsedTime == elapsed
    }
}

/// Whether `claims` are those of the connection, or empty ones where it has none.
pub open spec fn claims_of(connection: Connection, claims: Claims) -> bool {
    match connection.claims {
        Some(known) => claims == known,
        None => claims.is_empty(),
    }
}

fn summary_with(
    connection: &Connection,
    claims: &Claims,
    response_status: String,
    elapsed: u128,
) -> (summary: ProxySummary)
    ensures
        summary.records(*connection, *claims, response_status@, elapsed),
{
    let groups: Vec<String> = claims.userGroups.clone();
    assert(groups.deep_view() =~= claims.userGroups.deep_view());
    ProxySummary {
        userId: claims.userId,
        userName: claims.userName.clone(),
        userGroups: groups,
        clientIp: claims.clientIp.clone(),
        processFullPath: claims.processFullPath.clone(),
        processCmdLine: claims.processCmdLine.clone(),
        runAsElevated: claims.runAsElevated,
        method: connection.method.clone(),
        url: connection.url.clone(),
        ip: connection.ip.clone(),
        port: connection.port,
        responseStatus: response_status,
        elapsedTime: elapsed,
    }
}

/// The summary of a connection that was answered with `response_status` after `elapsed`
/// milliseconds.
pub fn connection_summary(connection: &Connection, response_status: String, elapsed: u128) -> (summary:
    ProxySummary)
    ensures
        exists|claims: Claims| #[trigger]
            claims_of(*connection, claims) && summary.records(
                *connection,
                claims,
                response_status@,
                elapsed,
            ),
{
    match &connection.claims {
        Some(claims) => {
            let summary = summary_with(connection, claims, response_status, elapsed);
            assert(claims_of(*connection, *claims));
            summary
        },
        None => {
            let claims = Claims::empty();
            let summary = summary_with(connection, &claims, response_status, elapsed);
            assert(claims_of(*connection, claims));
            summary
        },
    }
}

/// The summary of a connection that is answered with `response_status` now.
pub fn log_connection_summary(connection: &Connection, response_status: String) -> (summary:
    ProxySummary)
    ensures
        crate::span::measured_since(connection.now, summary.elapsedTime),
        exists|claims: Claims| #[trigger]
            claims_of(*connection, claims) && summary.records(
                *connection,
                claims,
                response_status@,
                summary.elapsedTime,
            ),
{
    let elapsed: u128 = milliseconds_since(&connection.now);
    connection_summary(connection, response_status, elapsed)
}

/// What the summary of a connection asks to be done, in this order.
pub enum SummaryEffect<S> {
    /// Write an information event, under the names of the method and the module that it comes from.
    InformationEvent { message: S, method_name: S, module_name: S },
    /// Add the summary to the status of the agent, with the flag that goes with it.
    AddSummary { flag: bool },
}

impl DeepView for SummaryEffect<String> {
    type V = SummaryEffect<Seq<char>>;

    open spec fn deep_view(&self) -> SummaryEffect<Seq<char>> {
        match self {
            SummaryEffect::InformationEvent { message, method_name, module_name } => {
                SummaryEffect::InformationEvent {
                    message: message@,
                    method_name: method_name@,
                    module_name: module_name@,
                }
            },
            SummaryEffect::AddSummary { flag } => SummaryEffect::AddSummary { flag: *flag },
        }
    }
}

/// What is to be done with a summary: its JSON text, where it has one, goes into an event, and the
/// summary is added either way.
pub open spec fn summary_effects(json: Result<String, String>) -> Seq<SummaryEffect<Seq<char>>> {
    match json {
        Ok(text) => seq![
            SummaryEffect::InformationEvent {
                message: text@,
                method_name: "log_connection_summary"@,
                module_name: "proxy_listener"@,
            },
            SummaryEffect::AddSummary { flag: false },
        ],
        Err(_) => seq![SummaryEffect::AddSummary { flag: false }],
    }
}

/// Says what is to be done with a summary whose JSON text is `json`, or could not be had.
pub fn summary_serialized(json: Result<String, String>) -> (effects: Vec<SummaryEffect<String>>)
    ensures
        effects.deep_view() == summary_effects(json),
{
    let mut effects: Vec<SummaryEffect<String>> = Vec::new();
    if let Ok(message) = json {
        effects.push(
            SummaryEffect::InformationEvent {
                message,
                method_name: "log_connection_summary".to_owned(),
                module_name: "proxy_listener".to_owned(),
            },
        );
    }
    effects.push(SummaryEffect::AddSummary { flag: false });
    assert(effects.deep_view() =~= summary_effects(json));
    effects
}

} // verus!
