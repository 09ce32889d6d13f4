//! The handling of one proxied connection, event by event.

use std::time::Instant;
use vstd::prelude::*;

use crate::proxy_connection::{
    Call, Connection, Effect, Event, Header, HostResponse, LogLevel, ProtocolNames, Signing, Status,
    AUTHORIZATION_HEADER, AUTHORIZATION_MARK, CLAIMS_HEADER, READ_TIMEOUT_SECS,
};
use crate::text::unsigned_text;

verus! {

use crate::connection_model::{
    accepted,
    accepted_effects,
    add_header,
    answered,
    answers,
    connection_next,
    dropped,
    event,
    expect_continue_next,
    forwarded,
    log,
    mark,
    respond,
    response_received,
    sent,
    signed,
    signed_input_log,
    summary,
    with_signature_next,
    without_signature_next,
};

/// The text of the error of `String::from_utf8` on bytes that are not UTF-8.
pub uninterp spec fn utf8_error_text(bytes: Seq<u8>) -> Seq<char>;

/// `String::from_utf8` takes bytes for a text if and only if they are UTF-8, and the text is then
/// what they encode. Else it gives an error, whose text depends on the bytes alone.
#[verifier::external_body]
fn text_from_utf8(bytes: Vec<u8>) -> (text: Result<String, String>)
    ensures
        text is Ok == vstd::utf8::valid_utf8(bytes@),
        text matches Ok(t) ==> t@ == vstd::utf8::decode_utf8(bytes@),
        text matches Err(e) ==> e@ == utf8_error_text(bytes@),
{
    match String::from_utf8(bytes) {
        Ok(text) => Ok(text),
        Err(error) => Err(error.to_string()),
    }
}

fn log_line(level: LogLevel, message: String) -> (effect: Effect<String>)
    ensures
        effect@ == log(level, message@),
{
    Effect::Log { level, message }
}

fn warning_event(message: String) -> (effect: Effect<String>)
    ensures
        effect@ == event(message@),
{
    Effect::WarningEvent {
        message,
        method_name: "handle_connection".to_owned(),
        module_name: "proxy_listener".to_owned(),
    }
}

/// The header that lets the client know that a response went through the proxy.
fn proxy_mark() -> (header: Header<String>)
    ensures
        header@ == mark(),
{
    Header { name: AUTHORIZATION_HEADER.to_owned(), value: AUTHORIZATION_MARK.to_owned() }
}

/// The answer that the proxy itself gives, with the header that marks it.
pub fn send_response(status: Status) -> (effect: Effect<String>)
    ensures
        effect@ == respond(status),
{
    Effect::Respond { status, header: proxy_mark() }
}

fn request_header(name: &str, value: String) -> (effect: Effect<String>)
    ensures
        effect@ == add_header(name@, value@),
{
    Effect::AddRequestHeader(Header { name: name.to_owned(), value })
}

fn summary_of(status: Status) -> (effect: Effect<String>)
    ensures
        effect@ == summary(crate::proxy_connection::status_text(status)),
{
    Effect::LogSummary { status: status.text().to_owned() }
}

fn answer(connection: &mut Connection, warning: String, status: Status, call: Call) -> (effects: Vec<
    Effect<String>,
>)
    ensures
        *final(connection) == answered(*old(connection), warning@, status, call).connection,
        effects.deep_view() == answered(*old(connection), warning@, status, call).effects,
{
    connection.call = call;
    let effects: Vec<Effect<String>> = vec![
        log_line(LogLevel::Warning, warning),
        send_response(status),
        summary_of(status),
    ];
    assert(effects.deep_view() =~= answered(*old(connection), warning@, status, call).effects);
    effects
}

fn drop_with(connection: &mut Connection, warning: String) -> (effects: Vec<Effect<String>>)
    ensures
        *final(connection) == dropped(*old(connection), warning@).connection,
        effects.deep_view() == dropped(*old(connection), warning@).effects,
{
    connection.call = Call::Closed;
    let effects: Vec<Effect<String>> = vec![log_line(LogLevel::Warning, warning)];
    assert(effects.deep_view() =~= dropped(*old(connection), warning@).effects);
    effects
}

/// Handles a client that waits before it sends the body of its request.
pub fn handle_expect_continue_request(connection: &mut Connection, happened: Event) -> (effects: Vec<
    Effect<String>,
>)
    requires
        old(connection).call is ExpectContinue || old(connection).call is ContentLength || old(
            connection,
        ).call is ReceiveBody,
        answers(old(connection).call, happened),
    ensures
        *final(connection) == expect_continue_next(*old(connection), happened).connection,
        effects.deep_view() == expect_continue_next(*old(connection), happened).effects,
{
    let ghost outcome = expect_continue_next(*connection, happened);
    match happened {
        Event::ExpectContinue(_) => {
            // send 'continue' response to the original client
            connection.call = Call::ContentLength;
            let effects: Vec<Effect<String>> = vec![send_response(Status::Continue)];
            assert(effects.deep_view() =~= outcome.effects);
            effects
        },
        Event::ContentLength(Ok(length)) => {
            connection.call = Call::ReceiveBody { length };
            let effects: Vec<Effect<String>> = Vec::new();
            assert(effects.deep_view() =~= outcome.effects);
            effects
        },
        Event::ContentLength(Err(error)) => answer(
            connection,
            " ".to_owned().concat(error.as_str()),
            Status::BadRequest,
            Call::CurrentKey,
        ),
        Event::BodyReceived(Ok(body)) => {
            connection.call = Call::CurrentKey;
            let effects: Vec<Effect<String>> = vec![Effect::SetRequestBody(body)];
            assert(effects.deep_view() =~= outcome.effects);
            effects
        },
        Event::BodyReceived(Err(error)) => answer(
            connection,
            "Failed to received body from client: ".to_owned().concat(error.as_str()),
            Status::BadRequest,
            Call::CurrentKey,
        ),
        _ => Vec::new(),
    }
}

/// Sends the request as it now is, after what `effects` ask for, and has the response forwarded.
fn send_request(connection: &mut Connection, effects: Vec<Effect<String>>) -> (all: Vec<
    Effect<String>,
>)
    ensures
        *final(connection) == sent(*old(connection), effects.deep_view()).connection,
        all.deep_view() == sent(*old(connection), effects.deep_view()).effects,
{
    let mut all: Vec<Effect<String>> = effects;
    connection.call = Call::ForwardResponse { after_continue: false };
    all.push(Effect::SendRequest);
    all.push(Effect::MarkForwarded(proxy_mark()));
    assert(all.deep_view() =~= sent(*old(connection), effects.deep_view()).effects);
    all
}

/// Tells in the log what was signed.
fn log_signed_input(input_to_sign: Vec<u8>) -> (effect: Effect<String>)
    ensures
        effect@ == signed_input_log(input_to_sign@),
{
    match text_from_utf8(input_to_sign) {
        Ok(data) => log_line(
            LogLevel::Message,
            "Computed the signature with input: ".to_owned().concat(data.as_str()),
        ),
        Err(error) => log_line(
            LogLevel::Warning,
            "Failed convert the input_to_sign to string, error ".to_owned().concat(error.as_str()),
        ),
    }
}

fn add_signature(connection: &mut Connection, names: &ProtocolNames, signing: Signing) -> (effects: Vec<
    Effect<String>,
>)
    ensures
        *final(connection) == signed(*names, *old(connection), signing).connection,
        effects.deep_view() == signed(*names, *old(connection), signing).effects,
{
    match signing.signature {
        Ok(signature) => {
            let authorization_value = names.authorization_scheme.clone().concat(" ").concat(
                signature.key_guid.as_str(),
            ).concat(" ").concat(signature.value.as_str());
            let report = "Added authorization header ".to_owned().concat(
                authorization_value.as_str(),
            );
            let effects: Vec<Effect<String>> = vec![
                log_signed_input(signing.input_to_sign),
                request_header(AUTHORIZATION_HEADER, authorization_value),
                log_line(LogLevel::Message, report),
            ];
            proof {
                let value = crate::connection_model::authorization_value(
                    *names,
                    signature.key_guid@,
                    signature.value@,
                );
                assert(effects.deep_view() =~= seq![
                    signed_input_log(signing.input_to_sign@),
                    add_header(AUTHORIZATION_HEADER@, value),
                    log(LogLevel::Message, "Added authorization header "@ + value),
                ]);
            }
            send_request(connection, effects)
        },
        Err(error) => {
            let effects: Vec<Effect<String>> = vec![
                log_line(
                    LogLevel::Error,
                    "compute_signature failed with error: ".to_owned().concat(error.as_str()),
                ),
            ];
            assert(effects.deep_view() =~= seq![
                log(LogLevel::Error, "compute_signature failed with error: "@ + error@),
            ]);
            send_request(connection, effects)
        },
    }
}

fn finish_forwarding(connection: &mut Connection, response: HostResponse, streamed: usize) -> (effects: Vec<
    Effect<String>,
>)
    requires
        old(connection).call is ForwardResponse,
    ensures
        *final(connection) == forwarded(*old(connection), response, streamed).connection,
        effects.deep_view() == forwarded(*old(connection), response, streamed).effects,
{
    let ghost outcome = forwarded(*connection, response, streamed);
    let report = log_line(
        LogLevel::Message,
        "Forwarded host response: ".to_owned().concat(response.description.as_str()).concat(
            ", streamed body length: ",
        ).concat(unsigned_text(streamed as u128).as_str()),
    );
    let first = match connection.call {
        Call::ForwardResponse { after_continue } => !after_continue,
        _ => false,
    };
    if response.is_continue && first {
        connection.call = Call::ForwardResponse { after_continue: true };
        let effects: Vec<Effect<String>> = vec![
            report,
            log_line(
                LogLevel::Message,
                "Current response expect sending original request body now.".to_owned(),
            ),
            Effect::SendRequestBody,
        ];
        assert(effects.deep_view() =~= outcome.effects);
        effects
    } else {
        connection.call = Call::Closed;
        let effects: Vec<Effect<String>> = vec![
            report,
            Effect::LogSummary { status: response.status },
        ];
        assert(effects.deep_view() =~= outcome.effects);
        effects
    }
}

/// Handles a connection whose request goes to the host with a signature.
pub fn handle_connection_with_signature(
    connection: &mut Connection,
    names: &ProtocolNames,
    happened: Event,
) -> (effects: Vec<Effect<String>>)
    requires
        match old(connection).call {
            Call::SkipSignature => true,
            Call::ExpectContinue => true,
            Call::ContentLength => true,
            Call::ReceiveBody { .. } => true,
            Call::CurrentKey => true,
            Call::ComputeSignature => true,
            Call::ForwardResponse { .. } => true,
            _ => false,
        },
        answers(old(connection).call, happened),
    ensures
        *final(connection) == with_signature_next(*names, *old(connection), happened).connection,
        effects.deep_view() == with_signature_next(*names, *old(connection), happened).effects,
{
    let ghost outcome = with_signature_next(*names, *connection, happened);
    match happened {
        Event::SkipSignature { .. } => {
            connection.call = Call::ExpectContinue;
            let effects: Vec<Effect<String>> = Vec::new();
            assert(effects.deep_view() =~= outcome.effects);
            effects
        },
        Event::ExpectContinue(false) => {
            connection.call = Call::CurrentKey;
            let effects: Vec<Effect<String>> = Vec::new();
            assert(effects.deep_view() =~= outcome.effects);
            effects
        },
        Event::CurrentKey(key) => {
            if key.as_str().is_empty() {
                let report: &str = "current key is empty, skip compute signature for testing.";
                let effects: Vec<Effect<String>> = vec![
                    log_line(LogLevel::Message, report.to_owned()),
                ];
                assert(effects.deep_view() =~= seq![log(LogLevel::Message, report@)]);
                send_request(connection, effects)
            } else {
                connection.key = key;
                connection.call = Call::ComputeSignature;
                let effects: Vec<Effect<String>> = Vec::new();
                assert(effects.deep_view() =~= outcome.effects);
                effects
            }
        },
        Event::Signed(signing) => add_signature(connection, names, signing),
        Event::Forwarded(Ok((response, streamed))) => finish_forwarding(
            connection,
            response,
            streamed,
        ),
        Event::Forwarded(Err(error)) => drop_with(
            connection,
            "Failed to forward response from host: ".to_owned().concat(error.as_str()),
        ),
        other => handle_expect_continue_request(connection, other),
    }
}

fn return_response(connection: &mut Connection, response: HostResponse) -> (effects: Vec<
    Effect<String>,
>)
    requires
        old(connection).call is ReceiveResponse,
    ensures
        *final(connection) == response_received(*old(connection), response).connection,
        effects.deep_view() == response_received(*old(connection), response).effects,
{
    let ghost outcome = response_received(*connection, response);
    let report = log_line(
        LogLevel::Message,
        "Received host response: ".to_owned().concat(response.description.as_str()),
    );
    let first = match connection.call {
        Call::ReceiveResponse { after_continue } => !after_continue,
        _ => false,
    };
    if response.is_continue && first {
        connection.call = Call::StreamLength;
        let effects: Vec<Effect<String>> = vec![report];
        assert(effects.deep_view() =~= outcome.effects);
        effects
    } else {
        connection.call = Call::Closed;
        let effects: Vec<Effect<String>> = vec![
            report,
            Effect::ReturnResponse(proxy_mark()),
            Effect::LogSummary { status: response.status },
        ];
        assert(effects.deep_view() =~= outcome.effects);
        effects
    }
}

/// Handles a connection whose request goes to the host without a signature.
pub fn handle_connection_without_signature(connection: &mut Connection, happened: Event) -> (effects: Vec<
    Effect<String>,
>)
    requires
        match old(connection).call {
            Call::SkipSignature => true,
            Call::ReceiveResponse { .. } => true,
            Call::StreamLength => true,
            Call::StreamBody { .. } => true,
            _ => false,
        },
        answers(old(connection).call, happened),
    ensures
        *final(connection) == without_signature_next(*old(connection), happened).connection,
        effects.deep_view() == without_signature_next(*old(connection), happened).effects,
{
    let ghost outcome = without_signature_next(*connection, happened);
    match happened {
        Event::SkipSignature { description, .. } => {
            connection.call = Call::ReceiveResponse { after_continue: false };
            let effects: Vec<Effect<String>> = vec![
                log_line(
                    LogLevel::Information,
                    "Current request ".to_owned().concat(description.as_str()).concat(
                        " could send to host without signature.",
                    ),
                ),
                Effect::SendRequest,
            ];
            assert(effects.deep_view() =~= outcome.effects);
            effects
        },
        Event::ResponseReceived(Ok(response)) => return_response(connection, response),
        Event::ResponseReceived(Err(error)) => answer(
            connection,
            "Failed to receive data from host: ".to_owned().concat(error.as_str()),
            Status::BadGateway,
            Call::Closed,
        ),
        Event::ContentLength(Ok(length)) => {
            connection.call = Call::StreamBody { length };
            let effects: Vec<Effect<String>> = vec![
                // send 'continue' response to the original client
                send_response(Status::Continue),
                log_line(
                    LogLevel::Message,
                    "Current response expect streaming original body now.".to_owned(),
                ),
            ];
            assert(effects.deep_view() =~= outcome.effects);
            effects
        },
        Event::ContentLength(Err(error)) => answer(
            connection,
            " ".to_owned().concat(error.as_str()),
            Status::BadRequest,
            Call::Closed,
        ),
        Event::BodyStreamed(Ok(streamed)) => {
            let length: usize = match connection.call {
                Call::StreamBody { length } => length,
                _ => 0,
            };
            if streamed < length {
                answer(
                    connection,
                    "Streamed data ".to_owned().concat(unsigned_text(streamed as u128).as_str()).concat(
                        " from request body is less than Content-Length ",
                    ).concat(unsigned_text(length as u128).as_str()),
                    Status::BadRequest,
                    Call::Closed,
                )
            } else {
                connection.call = Call::ReceiveResponse { after_continue: true };
                let effects: Vec<Effect<String>> = Vec::new();
                assert(effects.deep_view() =~= outcome.effects);
                effects
            }
        },
        Event::BodyStreamed(Err(error)) => answer(
            connection,
            "Failed streaming the request body, error ".to_owned().concat(error.as_str()),
            Status::BadGateway,
            Call::Closed,
        ),
        _ => Vec::new(),
    }
}

/// A connection that was accepted under the number `id`, and what is to be done first.
pub fn accept_connection(id: u128) -> (accepted_now: (Connection, Vec<Effect<String>>))
    ensures
        accepted(accepted_now.0, id),
        call_ensures(Instant::now, (), accepted_now.0.now),
        accepted_now.1.deep_view() == accepted_effects(),
{
    let connection = Connection {
        id,
        now: Instant::now(),
        method: String::new(),
        url: String::new(),
        client_ip: String::new(),
        claims: None,
        claim_details: String::new(),
        ip: String::new(),
        port: 0,
        key: String::new(),
        call: Call::ReceiveRequest { read_timeout_secs: READ_TIMEOUT_SECS },
    };
    let effects: Vec<Effect<String>> = vec![
        log_line(LogLevel::Information, "Received connection.".to_owned()),
    ];
    assert(effects.deep_view() =~= accepted_effects());
    (connection, effects)
}

/// Whether `happened` tells what came of `call`.
pub fn is_answer(call: Call, happened: &Event) -> (answer: bool)
    ensures
        answer == answers(call, *happened),
{
    match (call, happened) {
        (Call::ReceiveRequest { .. }, Event::RequestReceived(_)) => true,
        (Call::PeerAddress, Event::PeerAddress(_)) => true,
        (Call::LookupAudit { .. }, Event::AuditLookedUp(_)) => true,
        (Call::AuditFromStream, Event::AuditFromStream(_)) => true,
        (Call::BuildClaims, Event::ClaimsBuilt(_)) => true,
        (Call::FindAuthenticator, Event::AuthenticatorFound(_)) => true,
        (Call::Authenticate, Event::Authenticated { .. }) => true,
        (Call::ConnectServer, Event::ServerConnected(_)) => true,
        (Call::SkipSignature, Event::SkipSignature { .. }) => true,
        (Call::ExpectContinue, Event::ExpectContinue(_)) => true,
        (Call::ContentLength, Event::ContentLength(_)) => true,
        (Call::ReceiveBody { .. }, Event::BodyReceived(_)) => true,
        (Call::CurrentKey, Event::CurrentKey(_)) => true,
        (Call::ComputeSignature, Event::Signed(_)) => true,
        (Call::ForwardResponse { .. }, Event::Forwarded(_)) => true,
        (Call::ReceiveResponse { .. }, Event::ResponseReceived(_)) => true,
        (Call::StreamLength, Event::ContentLength(_)) => true,
        (Call::StreamBody { .. }, Event::BodyStreamed(_)) => true,
        _ => false,
    }
}

/// Handles what came of the pending call of a connection: the connection goes on to the next call,
/// and what is to be done before that call is returned.
pub fn handle_connection(connection: &mut Connection, names: &ProtocolNames, happened: Event) -> (effects: Vec<
    Effect<String>,
>)
    requires
        answers(old(connection).call, happened),
    ensures
        *final(connection) == connection_next(*names, *old(connection), happened).connection,
        effects.deep_view() == connection_next(*names, *old(connection), happened).effects,
{
    let ghost outcome = connection_next(*names, *connection, happened);
    match happened {
        Event::RequestReceived(Ok(request)) => {
            connection.method = request.method;
            connection.url = request.url;
            connection.call = Call::PeerAddress;
            let effects: Vec<Effect<String>> = vec![
                log_line(
                    LogLevel::Warning,
                    "Got request: ".to_owned().concat(request.description.as_str()),
                ),
            ];
            assert(effects.deep_view() =~= outcome.effects);
            effects
        },
        Event::RequestReceived(Err(error)) => drop_with(
            connection,
            "Failed to received data from client: ".to_owned().concat(error.as_str()),
        ),
        Event::PeerAddress(Ok(peer)) => {
            let effects: Vec<Effect<String>> = vec![
                log_line(
                    LogLevel::Message,
                    "Got request from client - ".to_owned().concat(peer.ip.as_str()).concat(
                        ":",
                    ).concat(unsigned_text(peer.port as u128).as_str()),
                ),
            ];
            connection.client_ip = peer.ip;
            connection.call = Call::LookupAudit { client_port: peer.port };
            assert(effects.deep_view() =~= outcome.effects);
            effects
        },
        Event::PeerAddress(Err(error)) => drop_with(
            connection,
            "Failed to get client_source_port: ".to_owned().concat(error.as_str()),
        ),
        Event::AuditLookedUp(Ok(_)) => {
            connection.call = Call::BuildClaims;
            let effects: Vec<Effect<String>> = Vec::new();
            assert(effects.deep_view() =~= outcome.effects);
            effects
        },
        Event::AuditLookedUp(Err(error)) => {
            connection.call = Call::AuditFromStream;
            let effects: Vec<Effect<String>> = vec![
                warning_event("Failed to get lookup_audit: ".to_owned().concat(error.as_str())),
                log_line(
                    LogLevel::Information,
                    "Try to get audit entry from socket stream".to_owned(),
                ),
            ];
            assert(effects.deep_view() =~= outcome.effects);
            effects
        },
        Event::AuditFromStream(Ok(_)) => {
            connection.call = Call::BuildClaims;
            let effects: Vec<Effect<String>> = Vec::new();
            assert(effects.deep_view() =~= outcome.effects);
            effects
        },
        Event::AuditFromStream(Err(error)) => {
            connection.call = Call::Closed;
            let mut effects: Vec<Effect<String>> = Vec::new();
            if !error.unsupported {
                effects.push(
                    warning_event(
                        "Failed to get lookup_audit_from_stream: ".to_owned().concat(
                            error.message.as_str(),
                        ),
                    ),
                );
            }
            effects.push(send_response(Status::Misdirected));
            effects.push(summary_of(Status::Misdirected));
            assert(effects.deep_view() =~= outcome.effects);
            effects
        },
        Event::ClaimsBuilt(built) => {
            match built.details {
                Ok(claim_details) => {
                    let effects: Vec<Effect<String>> = vec![
                        log_line(LogLevel::Message, claim_details.clone()),
                        log_line(
                            LogLevel::Message,
                            "Use lookup value:".to_owned().concat(
                                built.destination_ip.as_str(),
                            ).concat(":").concat(
                                unsigned_text(built.destination_port as u128).as_str(),
                            ).concat("."),
                        ),
                    ];
                    connection.claims = Some(built.claims);
                    connection.claim_details = claim_details;
                    connection.ip = built.destination_ip;
                    connection.port = built.destination_port;
                    connection.call = Call::FindAuthenticator;
                    assert(effects.deep_view() =~= outcome.effects);
                    effects
                },
                Err(error) => answer(
                    connection,
                    "Failed to get claim json string: ".to_owned().concat(error.as_str()),
                    Status::Misdirected,
                    Call::Closed,
                ),
            }
        },
        Event::AuthenticatorFound(auth) => {
            connection.call = Call::Authenticate;
            let effects: Vec<Effect<String>> = vec![
                log_line(LogLevel::Message, "Got auth: ".to_owned().concat(auth.as_str())),
            ];
            assert(effects.deep_view() =~= outcome.effects);
            effects
        },
        Event::Authenticated { allowed: true } => {
            connection.call = Call::ConnectServer;
            let effects: Vec<Effect<String>> = Vec::new();
            assert(effects.deep_view() =~= outcome.effects);
            effects
        },
        Event::Authenticated { allowed: false } => {
            let warning = "Denied unauthorize request: ".to_owned().concat(
                connection.claim_details.as_str(),
            );
            answer(connection, warning, Status::Forbidden, Call::Closed)
        },
        Event::ServerConnected(Ok(date)) => {
            let elevated: &str = match &connection.claims {
                Some(claims) => if claims.runAsElevated {
                    "true"
                } else {
                    "false"
                },
                None => "false",
            };
            let host_claims = "{ \"".to_owned().concat(names.claims_is_root.as_str()).concat(
                "\": \"",
            ).concat(elevated).concat("\"}");
            connection.call = Call::SkipSignature;
            let effects: Vec<Effect<String>> = vec![
                request_header(CLAIMS_HEADER, host_claims),
                request_header(names.date_header.as_str(), date),
            ];
            assert(effects.deep_view() =~= outcome.effects);
            effects
        },
        Event::ServerConnected(Err(error)) => answer(
            connection,
            "Failed to start new request to host: ".to_owned().concat(error.as_str()),
            Status::Misdirected,
            Call::Closed,
        ),
        Event::SkipSignature { skip: true, description } => handle_connection_without_signature(
            connection,
            Event::SkipSignature { skip: true, description },
        ),
        Event::ResponseReceived(response) => handle_connection_without_signature(
            connection,
            Event::ResponseReceived(response),
        ),
        Event::BodyStreamed(streamed) => handle_connection_without_signature(
            connection,
            Event::BodyStreamed(streamed),
        ),
        Event::ContentLength(length) => {
            if let Call::StreamLength = connection.call {
                handle_connection_without_signature(connection, Event::ContentLength(length))
            } else {
                handle_connection_with_signature(connection, names, Event::ContentLength(length))
            }
        },
        other => handle_connection_with_signature(connection, names, other),
    }
}

} // verus!
