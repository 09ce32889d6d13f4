//! How a proxied connection goes on after each event: the next state and what is to be done.

use vstd::prelude::*;

verus! {

use crate::proxy_connection::{
    status_text,
    BuiltClaims,
    Call,
    Connection,
    Effect,
    Event,
    Header,
    HostResponse,
    LogLevel,
    ProtocolNames,
    Signing,
    Status,
    AUTHORIZATION_HEADER,
    AUTHORIZATION_MARK,
    CLAIMS_HEADER,
    READ_TIMEOUT_SECS,
};
use crate::text::decimal;

/// What a step comes to: the connection after it, and what it asks to be done.
pub struct Outcome {
    pub connection: Connection,
    pub effects: Seq<Effect<Seq<char>>>,
}

/// The header that marks a response which went through the proxy.
pub open spec fn mark() -> Header<Seq<char>> {
    Header { name: AUTHORIZATION_HEADER@, value: AUTHORIZATION_MARK@ }
}

pub open spec fn log(level: LogLevel, message: Seq<char>) -> Effect<Seq<char>> {
    Effect::Log { level, message }
}

pub open spec fn event(message: Seq<char>) -> Effect<Seq<char>> {
    Effect::WarningEvent {
        message,
        method_name: "handle_connection"@,
        module_name: "proxy_listener"@,
    }
}

/// The answer that the proxy itself gives.
pub open spec fn respond(status: Status) -> Effect<Seq<char>> {
    Effect::Respond { status, header: mark() }
}

pub open spec fn summary(status: Seq<char>) -> Effect<Seq<char>> {
    Effect::LogSummary { status }
}

pub open spec fn add_header(name: Seq<char>, value: Seq<char>) -> Effect<Seq<char>> {
    Effect::AddRequestHeader(Header { name, value })
}

/// The connection, waiting for `call`.
pub open spec fn waiting(connection: Connection, call: Call) -> Connection {
    Connection { call, ..connection }
}

/// A client that is answered by the proxy itself, with a warning in the log and a summary; the
/// connection then waits for `call`.
pub open spec fn answered(
    connection: Connection,
    warning: Seq<char>,
    status: Status,
    call: Call,
) -> Outcome {
    Outcome {
        connection: waiting(connection, call),
        effects: seq![
            log(LogLevel::Warning, warning),
            respond(status),
            summary(status_text(status)),
        ],
    }
}

/// A connection that ends without an answer, with a warning in the log.
pub open spec fn dropped(connection: Connection, warning: Seq<char>) -> Outcome {
    Outcome {
        connection: waiting(connection, Call::Closed),
        effects: seq![log(LogLevel::Warning, warning)],
    }
}

/// Whether `event` tells what came of `call`.
pub open spec fn answers(call: Call, event: Event) -> bool {
    match call {
        Call::ReceiveRequest { .. } => event is RequestReceived,
        Call::PeerAddress => event is PeerAddress,
        Call::LookupAudit { .. } => event is AuditLookedUp,
        Call::AuditFromStream => event is AuditFromStream,
        Call::BuildClaims => event is ClaimsBuilt,
        Call::FindAuthenticator => event is AuthenticatorFound,
        Call::Authenticate => event is Authenticated,
        Call::ConnectServer => event is ServerConnected,
        Call::SkipSignature => event is SkipSignature,
        Call::ExpectContinue => event is ExpectContinue,
        Call::ContentLength => event is ContentLength,
        Call::ReceiveBody { .. } => event is BodyReceived,
        Call::CurrentKey => event is CurrentKey,
        Call::ComputeSignature => event is Signed,
        Call::ForwardResponse { .. } => event is Forwarded,
        Call::ReceiveResponse { .. } => event is ResponseReceived,
        Call::StreamLength => event is ContentLength,
        Call::StreamBody { .. } => event is BodyStreamed,
        Call::Closed => false,
    }
}

/// Whether a connection is as it was accepted, under the number `id`.
pub open spec fn accepted(connection: Connection, id: u128) -> bool {
    &&& connection.id == id
    &&& connection.method@.len() == 0
    &&& connection.url@.len() == 0
    &&& connection.client_ip@.len() == 0
    &&& connection.claims is None
    &&& connection.claim_details@.len() == 0
    &&& connection.ip@.len() == 0
    &&& connection.port == 0
    &&& connection.key@.len() == 0
    &&& connection.call == Call::ReceiveRequest { read_timeout_secs: READ_TIMEOUT_SECS }
}

/// What is to be done when a connection is accepted.
pub open spec fn accepted_effects() -> Seq<Effect<Seq<char>>> {
    seq![log(LogLevel::Information, "Received connection."@)]
}

/// What the claims header tells: whether the caller runs elevated.
pub open spec fn claims_header_value(names: ProtocolNames, elevated: bool) -> Seq<char> {
    "{ \""@ + names.claims_is_root@ + "\": \""@ + (if elevated {
        "true"@
    } else {
        "false"@
    }) + "\"}"@
}

/// Whether the claims of the connection are those of an elevated caller.
pub open spec fn elevated(connection: Connection) -> bool {
    match connection.claims {
        Some(claims) => claims.runAsElevated,
        None => false,
    }
}

/// After the claims were made: where they can be written as JSON they are kept, together with the
/// destination, and the access is judged; else the client is answered as misdirected.
pub open spec fn claims_built(connection: Connection, built: BuiltClaims) -> Outcome {
    match built.details {
        Ok(details) => Outcome {
            connection: Connection {
                claims: Some(built.claims),
                claim_details: details,
                ip: built.destination_ip,
                port: built.destination_port,
                call: Call::FindAuthenticator,
                ..connection
            },
            effects: seq![
                log(LogLevel::Message, details@),
                log(
                    LogLevel::Message,
                    "Use lookup value:"@ + built.destination_ip@ + ":"@ + decimal(
                        built.destination_port as nat,
                    ) + "."@,
                ),
            ],
        },
        Err(error) => answered(
            connection,
            "Failed to get claim json string: "@ + error@,
            Status::Misdirected,
            Call::Closed,
        ),
    }
}

/// From the request of the client to the decision whether it goes to the host with a signature.
pub open spec fn connection_next(names: ProtocolNames, connection: Connection, happened: Event) -> Outcome {
    match happened {
        Event::RequestReceived(Ok(request)) => Outcome {
            connection: Connection {
                method: request.method,
                url: request.url,
                call: Call::PeerAddress,
                ..connection
            },
            effects: seq![log(LogLevel::Warning, "Got request: "@ + request.description@)],
        },
        Event::RequestReceived(Err(error)) => dropped(
            connection,
            "Failed to received data from client: "@ + error@,
        ),
        Event::PeerAddress(Ok(peer)) => Outcome {
            connection: Connection {
                client_ip: peer.ip,
                call: Call::LookupAudit { client_port: peer.port },
                ..connection
            },
            effects: seq![
                log(
                    LogLevel::Message,
                    "Got request from client - "@ + peer.ip@ + ":"@ + decimal(peer.port as nat),
                ),
            ],
        },
        Event::PeerAddress(Err(error)) => dropped(
            connection,
            "Failed to get client_source_port: "@ + error@,
        ),
        Event::AuditLookedUp(Ok(_)) => Outcome {
            connection: waiting(connection, Call::BuildClaims),
            effects: seq![],
        },
        Event::AuditLookedUp(Err(error)) => Outcome {
            connection: waiting(connection, Call::AuditFromStream),
            effects: seq![
                event("Failed to get lookup_audit: "@ + error@),
                log(LogLevel::Information, "Try to get audit entry from socket stream"@),
            ],
        },
        Event::AuditFromStream(Ok(_)) => Outcome {
            connection: waiting(connection, Call::BuildClaims),
            effects: seq![],
        },
        Event::AuditFromStream(Err(error)) => Outcome {
            connection: waiting(connection, Call::Closed),
            effects: (if error.unsupported {
                seq![]
            } else {
                seq![event("Failed to get lookup_audit_from_stream: "@ + error.message@)]
            }) + seq![respond(Status::Misdirected), summary(status_text(Status::Misdirected))],
        },
        Event::ClaimsBuilt(built) => claims_built(connection, built),
        Event::AuthenticatorFound(auth) => Outcome {
            connection: waiting(connection, Call::Authenticate),
            effects: seq![log(LogLevel::Message, "Got auth: "@ + auth@)],
        },
        Event::Authenticated { allowed: true } => Outcome {
            connection: waiting(connection, Call::ConnectServer),
            effects: seq![],
        },
        Event::Authenticated { allowed: false } => answered(
            connection,
            "Denied unauthorize request: "@ + connection.claim_details@,
            Status::Forbidden,
            Call::Closed,
        ),
        Event::ServerConnected(Ok(date)) => Outcome {
            connection: waiting(connection, Call::SkipSignature),
            effects: seq![
                add_header(CLAIMS_HEADER@, claims_header_value(names, elevated(connection))),
                add_header(names.date_header@, date@),
            ],
        },
        Event::ServerConnected(Err(error)) => answered(
            connection,
            "Failed to start new request to host: "@ + error@,
            Status::Misdirected,
            Call::Closed,
        ),
        Event::SkipSignature { skip: true, .. } => without_signature_next(connection, happened),
        Event::ResponseReceived(_) => without_signature_next(connection, happened),
        Event::BodyStreamed(_) => without_signature_next(connection, happened),
        Event::ContentLength(_) => if connection.call is StreamLength {
            without_signature_next(connection, happened)
        } else {
            with_signature_next(names, connection, happened)
        },
        _ => with_signature_next(names, connection, happened),
    }
}

/// The request goes to the host as it now is, and its response to the client.
pub open spec fn sent(connection: Connection, effects: Seq<Effect<Seq<char>>>) -> Outcome {
    Outcome {
        connection: waiting(connection, Call::ForwardResponse { after_continue: false }),
        effects: effects + seq![Effect::SendRequest, Effect::MarkForwarded(mark())],
    }
}

/// The line in the log that tells what was signed.
pub open spec fn signed_input_log(input: Seq<u8>) -> Effect<Seq<char>> {
    if vstd::utf8::valid_utf8(input) {
        log(
            LogLevel::Message,
            "Computed the signature with input: "@ + vstd::utf8::decode_utf8(input),
        )
    } else {
        log(
            LogLevel::Warning,
            "Failed convert the input_to_sign to string, error "@ + crate::connection_handler::utf8_error_text(input),
        )
    }
}

/// What the authorization header of a signed request holds.
pub open spec fn authorization_value(
    names: ProtocolNames,
    key_guid: Seq<char>,
    signature: Seq<char>,
) -> Seq<char> {
    names.authorization_scheme@ + " "@ + key_guid + " "@ + signature
}

/// After the signature was to be computed: it is added to the request where there is one, and the
/// request is sent either way.
pub open spec fn signed(names: ProtocolNames, connection: Connection, signing: Signing) -> Outcome {
    match signing.signature {
        Ok(signature) => {
            let value = authorization_value(names, signature.key_guid@, signature.value@);
            sent(
                connection,
                seq![
                    signed_input_log(signing.input_to_sign@),
                    add_header(AUTHORIZATION_HEADER@, value),
                    log(LogLevel::Message, "Added authorization header "@ + value),
                ],
            )
        },
        Err(error) => sent(
            connection,
            seq![log(LogLevel::Error, "compute_signature failed with error: "@ + error@)],
        ),
    }
}

/// After a response of the host was forwarded: if it is the first and asks for the body, the body is
/// sent and a second one is forwarded; else the connection is done.
pub open spec fn forwarded(connection: Connection, response: HostResponse, streamed: usize) -> Outcome {
    let report = log(
        LogLevel::Message,
        "Forwarded host response: "@ + response.description@ + ", streamed body length: "@
            + decimal(streamed as nat),
    );
    if response.is_continue && connection.call == (Call::ForwardResponse { after_continue: false }) {
        Outcome {
            connection: waiting(connection, Call::ForwardResponse { after_continue: true }),
            effects: seq![
                report,
                log(
                    LogLevel::Message,
                    "Current response expect sending original request body now."@,
                ),
                Effect::SendRequestBody,
            ],
        }
    } else {
        Outcome {
            connection: waiting(connection, Call::Closed),
            effects: seq![report, summary(response.status@)],
        }
    }
}

/// A client that waits before it sends the body: it is told to go on, and the body is read. A body
/// that cannot be read is answered as a bad request, and the request is still signed and sent.
pub open spec fn expect_continue_next(connection: Connection, happened: Event) -> Outcome {
    match happened {
        Event::ExpectContinue(_) => Outcome {
            connection: waiting(connection, Call::ContentLength),
            effects: seq![respond(Status::Continue)],
        },
        Event::ContentLength(Ok(length)) => Outcome {
            connection: waiting(connection, Call::ReceiveBody { length }),
            effects: seq![],
        },
        Event::ContentLength(Err(error)) => answered(
            connection,
            " "@ + error@,
            Status::BadRequest,
            Call::CurrentKey,
        ),
        Event::BodyReceived(Ok(body)) => Outcome {
            connection: waiting(connection, Call::CurrentKey),
            effects: seq![Effect::SetRequestBody(body)],
        },
        Event::BodyReceived(Err(error)) => answered(
            connection,
            "Failed to received body from client: "@ + error@,
            Status::BadRequest,
            Call::CurrentKey,
        ),
        _ => Outcome { connection, effects: seq![] },
    }
}

/// A request that goes to the host with a signature.
pub open spec fn with_signature_next(
    names: ProtocolNames,
    connection: Connection,
    happened: Event,
) -> Outcome {
    match happened {
        Event::SkipSignature { .. } => Outcome {
            connection: waiting(connection, Call::ExpectContinue),
            effects: seq![],
        },
        Event::ExpectContinue(false) => Outcome {
            connection: waiting(connection, Call::CurrentKey),
            effects: seq![],
        },
        Event::CurrentKey(key) => if key@.len() == 0 {
            sent(
                connection,
                seq![
                    log(
                        LogLevel::Message,
                        "current key is empty, skip compute signature for testing."@,
                    ),
                ],
            )
        } else {
            Outcome {
                connection: Connection { key, call: Call::ComputeSignature, ..connection },
                effects: seq![],
            }
        },
        Event::Signed(signing) => signed(names, connection, signing),
        Event::Forwarded(Ok((response, streamed))) => forwarded(connection, response, streamed),
        Event::Forwarded(Err(error)) => dropped(
            connection,
            "Failed to forward response from host: "@ + error@,
        ),
        _ => expect_continue_next(connection, happened),
    }
}

/// After a response of the host was read: if it is the first and asks for the body, the body is
/// passed on and a second one is read; else it is marked and returned to the client.
pub open spec fn response_received(connection: Connection, response: HostResponse) -> Outcome {
    let report = log(LogLevel::Message, "Received host response: "@ + response.description@);
    if response.is_continue && connection.call == (Call::ReceiveResponse { after_continue: false }) {
        Outcome { connection: waiting(connection, Call::StreamLength), effects: seq![report] }
    } else {
        Outcome {
            connection: waiting(connection, Call::Closed),
            effects: seq![report, Effect::ReturnResponse(mark()), summary(response.status@)],
        }
    }
}

/// The length of the body that a connection waits to pass on.
pub open spec fn stream_length(call: Call) -> usize {
    match call {
        Call::StreamBody { length } => length,
        _ => 0,
    }
}

/// A request that goes to the host without a signature.
pub open spec fn without_signature_next(connection: Connection, happened: Event) -> Outcome {
    match happened {
        Event::SkipSignature { description, .. } => Outcome {
            connection: waiting(connection, Call::ReceiveResponse { after_continue: false }),
            effects: seq![
                log(
                    LogLevel::Information,
                    "Current request "@ + description@ + " could send to host without signature."@,
                ),
                Effect::SendRequest,
            ],
        },
        Event::ResponseReceived(Ok(response)) => response_received(connection, response),
        Event::ResponseReceived(Err(error)) => answered(
            connection,
            "Failed to receive data from host: "@ + error@,
            Status::BadGateway,
            Call::Closed,
        ),
        Event::ContentLength(Ok(length)) => Outcome {
            connection: waiting(connection, Call::StreamBody { length }),
            effects: seq![
                respond(Status::Continue),
                log(
                    LogLevel::Message,
                    "Current response expect streaming original body now."@,
                ),
            ],
        },
        Event::ContentLength(Err(error)) => answered(
            connection,
            " "@ + error@,
            Status::BadRequest,
            Call::Closed,
        ),
        Event::BodyStreamed(Ok(streamed)) => if streamed < stream_length(connection.call) {
            answered(
                connection,
                "Streamed data "@ + decimal(streamed as nat)
                    + " from request body is less than Content-Length "@ + decimal(
                    stream_length(connection.call) as nat,
                ),
                Status::BadRequest,
                Call::Closed,
            )
        } else {
            Outcome {
                connection: waiting(connection, Call::ReceiveResponse { after_continue: true }),
                effects: seq![],
            }
        },
        Event::BodyStreamed(Err(error)) => answered(
            connection,
            "Failed streaming the request body, error "@ + error@,
            Status::BadGateway,
            Call::Closed,
        ),
        _ => Outcome { connection, effects: seq![] },
    }
}

} // verus!
