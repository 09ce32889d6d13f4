//! What each event of a proxied connection comes to, in the words of the event.

use vstd::prelude::*;

verus! {

use crate::connection_model::{
    accepted,
    accepted_effects,
    answers,
    connection_next,
    expect_continue_next,
    with_signature_next,
    without_signature_next,
};
use crate::proxy_connection::{
    claims_of,
    status_text,
    summary_effects,
    BuiltClaims,
    Call,
    Claims,
    Connection,
    Effect,
    Event,
    Header,
    HostResponse,
    LogLevel,
    Peer,
    ProtocolNames,
    ProxySummary,
    RequestLine,
    Signing,
    Status,
    StreamAuditError,
    SummaryEffect,
};
use crate::span_laws::{first_at, first_at_is};
use crate::text::decimal;

/// A line of the log.
pub open spec fn line(level: LogLevel, message: Seq<char>) -> Effect<Seq<char>> {
    Effect::Log { level, message }
}

/// The header by which a client knows that its response went through the proxy.
pub open spec fn proxy_header() -> Header<Seq<char>> {
    Header { name: "x-ms-azure-host-authorization"@, value: "value"@ }
}

/// The numbers and reasons of the statuses, by which clients know them.
pub proof fn statuses_have_their_numbers()
    ensures
        status_text(Status::Continue) == "100 Continue"@,
        status_text(Status::BadRequest) == "400 Bad Request"@,
        status_text(Status::Forbidden) == "403 Forbidden"@,
        status_text(Status::Misdirected) == "421 Misdirected Request"@,
        status_text(Status::BadGateway) == "502 Bad Gateway"@,
{
}

/// What is asked for where a client is answered by the proxy itself: a warning in the log, the
/// response, and the summary with the text of the same status.
pub open spec fn refusal_effects(warning: Seq<char>, status: Status, text: Seq<char>) -> Seq<
    Effect<Seq<char>>,
> {
    seq![
        line(LogLevel::Warning, warning),
        Effect::Respond { status, header: proxy_header() },
        Effect::LogSummary { status: text },
    ]
}

/// A connection is accepted with nothing known of it, and its request is to be read next, for at most
/// ten seconds at a time.
pub proof fn accepted_connection_knows_nothing(connection: Connection, id: u128)
    requires
        accepted(connection, id),
    ensures
        connection.id == id,
        connection.claims is None,
        connection.method@.len() == 0,
        connection.url@.len() == 0,
        connection.client_ip@.len() == 0,
        connection.claim_details@.len() == 0,
        connection.ip@.len() == 0,
        connection.port == 0,
        connection.key@.len() == 0,
        connection.call == (Call::ReceiveRequest { read_timeout_secs: 10 }),
        accepted_effects() == seq![line(LogLevel::Information, "Received connection."@)],
{
}

/// The request that was read is kept as it is, and nothing else of the connection changes. One that
/// could not be read ends the connection.
pub proof fn request_is_kept(
    names: ProtocolNames,
    connection: Connection,
    request: RequestLine,
    error: String,
)
    ensures
        ({
            let step = connection_next(names, connection, Event::RequestReceived(Ok(request)));
            &&& step.connection == (Connection {
                method: request.method,
                url: request.url,
                call: Call::PeerAddress,
                ..connection
            })
            &&& step.effects == seq![
                line(LogLevel::Warning, "Got request: "@ + request.description@),
            ]
        }),
        ({
            let step = connection_next(names, connection, Event::RequestReceived(Err(error)));
            &&& step.connection == (Connection { call: Call::Closed, ..connection })
            &&& step.effects == seq![
                line(LogLevel::Warning, "Failed to received data from client: "@ + error@),
            ]
        }),
{
}

/// The audit entry is looked up by the port of the client that made the connection. A client whose
/// address is not known is dropped.
pub proof fn audit_is_looked_up_by_port(
    names: ProtocolNames,
    connection: Connection,
    peer: Peer,
    error: String,
)
    ensures
        ({
            let step = connection_next(names, connection, Event::PeerAddress(Ok(peer)));
            &&& step.connection == (Connection {
                client_ip: peer.ip,
                call: Call::LookupAudit { client_port: peer.port },
                ..connection
            })
            &&& step.effects == seq![
                line(
                    LogLevel::Message,
                    "Got request from client - "@ + peer.ip@ + ":"@ + decimal(peer.port as nat),
                ),
            ]
        }),
        ({
            let step = connection_next(names, connection, Event::PeerAddress(Err(error)));
            &&& step.connection == (Connection { call: Call::Closed, ..connection })
            &&& step.effects == seq![
                line(LogLevel::Warning, "Failed to get client_source_port: "@ + error@),
            ]
        }),
{
}

/// A client without an audit entry, neither by its port nor in its stream, is answered as
/// misdirected. The failures are told in events, but for a platform that has no entries in streams.
pub proof fn missing_audit_is_misdirected(
    names: ProtocolNames,
    connection: Connection,
    error: String,
    stream_error: StreamAuditError,
)
    ensures
        ({
            let step = connection_next(names, connection, Event::AuditLookedUp(Err(error)));
            &&& step.connection == (Connection { call: Call::AuditFromStream, ..connection })
            &&& step.effects == seq![
                Effect::WarningEvent {
                    message: "Failed to get lookup_audit: "@ + error@,
                    method_name: "handle_connection"@,
                    module_name: "proxy_listener"@,
                },
                line(LogLevel::Information, "Try to get audit entry from socket stream"@),
            ]
        }),
        ({
            let step = connection_next(
                names,
                connection,
                Event::AuditFromStream(Err(stream_error)),
            );
            let n = step.effects.len();
            &&& step.connection == (Connection { call: Call::Closed, ..connection })
            &&& n == (if stream_error.unsupported {
                2nat
            } else {
                3nat
            })
            &&& !stream_error.unsupported ==> step.effects[0] == (Effect::WarningEvent {
                message: "Failed to get lookup_audit_from_stream: "@ + stream_error.message@,
                method_name: "handle_connection"@,
                module_name: "proxy_listener"@,
            })
            &&& step.effects[n - 2] == (Effect::Respond {
                status: Status::Misdirected,
                header: proxy_header(),
            })
            &&& step.effects[n - 1] == (Effect::LogSummary { status: "421 Misdirected Request"@ })
        }),
{
}

/// An audit entry leads to the claims, wherever it was found.
pub proof fn audit_leads_to_claims(names: ProtocolNames, connection: Connection)
    ensures
        connection_next(names, connection, Event::AuditLookedUp(Ok(()))).connection == (Connection {
            call: Call::BuildClaims,
            ..connection
        }),
        connection_next(names, connection, Event::AuditLookedUp(Ok(()))).effects.len() == 0,
        connection_next(names, connection, Event::AuditFromStream(Ok(()))).connection == (
        Connection { call: Call::BuildClaims, ..connection }),
        connection_next(names, connection, Event::AuditFromStream(Ok(()))).effects.len() == 0,
{
}

/// The claims, their text and the destination are kept as they were made, and what judges the access
/// is sought next. Claims without a text are answered as misdirected and not kept.
pub proof fn claims_are_kept(names: ProtocolNames, connection: Connection, built: BuiltClaims)
    ensures
        ({
            let step = connection_next(names, connection, Event::ClaimsBuilt(built));
            match built.details {
                Ok(details) => {
                    &&& step.connection == (Connection {
                        claims: Some(built.claims),
                        claim_details: details,
                        ip: built.destination_ip,
                        port: built.destination_port,
                        call: Call::FindAuthenticator,
                        ..connection
                    })
                    &&& step.effects == seq![
                        line(LogLevel::Message, details@),
                        line(
                            LogLevel::Message,
                            "Use lookup value:"@ + built.destination_ip@ + ":"@ + decimal(
                                built.destination_port as nat,
                            ) + "."@,
                        ),
                    ]
                },
                Err(error) => {
                    &&& step.connection == (Connection { call: Call::Closed, ..connection })
                    &&& step.effects == refusal_effects(
                        "Failed to get claim json string: "@ + error@,
                        Status::Misdirected,
                        "421 Misdirected Request"@,
                    )
                },
            }
        }),
{
}

/// What judges the access is told before the access is judged. Access that is allowed leads to the
/// host; access that is denied is answered as forbidden, and the claims are told.
pub proof fn judgement_decides(
    names: ProtocolNames,
    connection: Connection,
    auth: String,
    allowed: bool,
)
    ensures
        ({
            let step = connection_next(names, connection, Event::AuthenticatorFound(auth));
            &&& step.connection == (Connection { call: Call::Authenticate, ..connection })
            &&& step.effects == seq![line(LogLevel::Message, "Got auth: "@ + auth@)]
        }),
        ({
            let step = connection_next(names, connection, Event::Authenticated { allowed });
            &&& step.connection == (Connection {
                call: if allowed {
                    Call::ConnectServer
                } else {
                    Call::Closed
                },
                ..connection
            })
            &&& allowed ==> step.effects.len() == 0
            &&& !allowed ==> step.effects == refusal_effects(
                "Denied unauthorize request: "@ + connection.claim_details@,
                Status::Forbidden,
                "403 Forbidden"@,
            )
        }),
{
}

/// Once the host is connected, the request gets two headers: one that tells, as `true` or `false`,
/// whether the caller runs elevated by its own claims (without claims it does not), and one with the
/// date. A host that cannot be
/// connected makes the client misdirected.
pub proof fn connected_request_gets_two_headers(
    names: ProtocolNames,
    connection: Connection,
    date: String,
    error: String,
)
    ensures
        ({
            let step = connection_next(names, connection, Event::ServerConnected(Ok(date)));
            &&& step.connection == (Connection { call: Call::SkipSignature, ..connection })
            &&& step.effects == seq![
                Effect::AddRequestHeader(
                    Header {
                        name: "x-ms-azure-host-claims"@,
                        value: "{ \""@ + names.claims_is_root@ + "\": \""@ + (
                        match connection.claims {
                            Some(claims) => if claims.runAsElevated {
                                "true"@
                            } else {
                                "false"@
                            },
                            None => "false"@,
                        }) + "\"}"@,
                    },
                ),
                Effect::AddRequestHeader(Header { name: names.date_header@, value: date@ }),
            ]
        }),
        ({
            let step = connection_next(names, connection, Event::ServerConnected(Err(error)));
            &&& step.connection == (Connection { call: Call::Closed, ..connection })
            &&& step.effects == refusal_effects(
                "Failed to start new request to host: "@ + error@,
                Status::Misdirected,
                "421 Misdirected Request"@,
            )
        }),
{
}

/// A request that needs no signature is sent at once, and its response is read. Any other one is
/// signed first.
pub proof fn signature_is_skipped_where_allowed(
    names: ProtocolNames,
    connection: Connection,
    skip: bool,
    description: String,
)
    ensures
        ({
            let step = connection_next(
                names,
                connection,
                Event::SkipSignature { skip, description },
            );
            &&& step.connection == (Connection {
                call: if skip {
                    Call::ReceiveResponse { after_continue: false }
                } else {
                    Call::ExpectContinue
                },
                ..connection
            })
            &&& skip ==> step.effects == seq![
                line(
                    LogLevel::Information,
                    "Current request "@ + description@ + " could send to host without signature."@,
                ),
                Effect::SendRequest,
            ]
            &&& !skip ==> step.effects.len() == 0
        }),
{
}

/// A client that waits before it sends its body is told to go on, and its whole body is read: as much
/// as it announced. What was read becomes the body of the request.
pub proof fn announced_body_is_taken_in(
    names: ProtocolNames,
    connection: Connection,
    expected: bool,
    length: usize,
    body: Vec<u8>,
)
    requires
        !(connection.call is StreamLength),
    ensures
        ({
            let step = connection_next(names, connection, Event::ExpectContinue(expected));
            &&& step.connection == (Connection {
                call: if expected {
                    Call::ContentLength
                } else {
                    Call::CurrentKey
                },
                ..connection
            })
            &&& expected ==> step.effects == seq![
                Effect::Respond { status: Status::Continue, header: proxy_header() },
            ]
            &&& !expected ==> step.effects.len() == 0
        }),
        ({
            let step = connection_next(names, connection, Event::ContentLength(Ok(length)));
            &&& step.connection == (Connection { call: Call::ReceiveBody { length }, ..connection })
            &&& step.effects.len() == 0
        }),
        ({
            let step = connection_next(names, connection, Event::BodyReceived(Ok(body)));
            &&& step.connection == (Connection { call: Call::CurrentKey, ..connection })
            &&& step.effects == seq![
                Effect::<Seq<char>>::SetRequestBody(body),
            ]
        }),
{
}

/// A body that cannot be taken in is answered as a bad request, and the request is signed and sent
/// all the same.
pub proof fn missing_body_is_a_bad_request(
    names: ProtocolNames,
    connection: Connection,
    error: String,
)
    requires
        !(connection.call is StreamLength),
    ensures
        ({
            let step = connection_next(names, connection, Event::ContentLength(Err(error)));
            &&& step.connection == (Connection { call: Call::CurrentKey, ..connection })
            &&& step.effects == refusal_effects(
                " "@ + error@,
                Status::BadRequest,
                "400 Bad Request"@,
            )
        }),
        ({
            let step = connection_next(names, connection, Event::BodyReceived(Err(error)));
            &&& step.connection == (Connection { call: Call::CurrentKey, ..connection })
            &&& step.effects == refusal_effects(
                "Failed to received body from client: "@ + error@,
                Status::BadRequest,
                "400 Bad Request"@,
            )
        }),
{
}

/// A key that is not empty signs the request, as it is. With an empty one the request is sent without
/// a signature.
pub proof fn current_key_signs(names: ProtocolNames, connection: Connection, key: String)
    ensures
        ({
            let step = connection_next(names, connection, Event::CurrentKey(key));
            if key@.len() == 0 {
                &&& step.connection == (Connection {
                    call: Call::ForwardResponse { after_continue: false },
                    ..connection
                })
                &&& step.effects == seq![
                    line(
                        LogLevel::Message,
                        "current key is empty, skip compute signature for testing."@,
                    ),
                    Effect::SendRequest,
                    Effect::MarkForwarded(proxy_header()),
                ]
            } else {
                &&& step.connection == (Connection {
                    key,
                    call: Call::ComputeSignature,
                    ..connection
                })
                &&& step.effects.len() == 0
            }
        }),
{
    let step = connection_next(names, connection, Event::CurrentKey(key));
    if key@.len() == 0 {
        assert(step.effects =~= seq![
            line(
                LogLevel::Message,
                "current key is empty, skip compute signature for testing."@,
            ),
            Effect::SendRequest,
            Effect::MarkForwarded(proxy_header()),
        ]);
    }
}

/// The words of a text: what stands between its spaces.
pub open spec fn words(text: Seq<char>) -> Seq<Seq<char>>
    decreases text.len(),
{
    let space = first_at(text, ' ', 0);
    if 0 <= space < text.len() {
        seq![text.take(space)] + words(text.skip(space + 1))
    } else {
        seq![text]
    }
}

/// Whether a text is one word.
pub open spec fn is_word(text: Seq<char>) -> bool {
    forall|i: int| 0 <= i < text.len() ==> #[trigger] text[i] != ' '
}

proof fn no_space_in_word(text: Seq<char>, from: int)
    requires
        is_word(text),
        0 <= from <= text.len(),
    ensures
        first_at(text, ' ', from) == text.len(),
    decreases text.len() - from,
{
    if from < text.len() {
        no_space_in_word(text, from + 1);
    }
}

proof fn word_comes_first(word: Seq<char>, rest: Seq<char>)
    requires
        is_word(word),
    ensures
        words(word + seq![' '] + rest) == seq![word] + words(rest),
{
    let text = word + seq![' '] + rest;
    let n = word.len() as int;
    assert forall|i: int| 0 <= i < n implies text[i] != ' ' by {
        assert(text[i] == word[i]);
    }
    assert(text[n] == ' ');
    first_at_is(text, ' ', 0, n);
    assert(text.take(n) =~= word);
    assert(text.skip(n + 1) =~= rest);
}

/// Whether a reader finds in `value` the scheme, the identifier of the key and the signature, in this
/// order and each as it is, with one space between them. Where none of them holds a space, they are
/// its words.
pub open spec fn reads_as(
    value: Seq<char>,
    scheme: Seq<char>,
    guid: Seq<char>,
    signature: Seq<char>,
) -> bool {
    let first = scheme.len() as int;
    let second = first + 1 + guid.len() as int;
    &&& value.len() == second + 1 + signature.len()
    &&& value.take(first) == scheme
    &&& value[first] == ' '
    &&& value.subrange(first + 1, second) == guid
    &&& value[second] == ' '
    &&& value.skip(second + 1) == signature
    &&& is_word(scheme) && is_word(guid) && is_word(signature) ==> words(value) == seq![
        scheme,
        guid,
        signature,
    ]
}

pub(crate) proof fn parts_read_back(scheme: Seq<char>, guid: Seq<char>, signature: Seq<char>)
    ensures
        reads_as(scheme + " "@ + guid + " "@ + signature, scheme, guid, signature),
{
    reveal_strlit(" ");
    assert(" "@ =~= seq![' ']);
    let value = scheme + " "@ + guid + " "@ + signature;
    let first = scheme.len() as int;
    let second = first + 1 + guid.len() as int;
    assert(value =~= scheme + seq![' '] + (guid + seq![' '] + signature));
    assert(value.take(first) =~= scheme);
    assert(value.subrange(first + 1, second) =~= guid);
    assert(value.skip(second + 1) =~= signature);
    if is_word(scheme) && is_word(guid) && is_word(signature) {
        word_comes_first(scheme, guid + seq![' '] + signature);
        word_comes_first(guid, signature);
        no_space_in_word(signature, 0);
        assert(words(signature) =~= seq![signature]);
        assert(words(value) =~= seq![scheme, guid, signature]);
    }
}

/// A signature that was computed goes into one header of the request, the authorization header. A
/// reader of its value finds the scheme, the identifier of the key and the signature. The request is
/// then sent.
pub proof fn authorization_reads_back(
    names: ProtocolNames,
    connection: Connection,
    signing: Signing,
)
    requires
        signing.signature is Ok,
    ensures
        ({
            let signature = signing.signature->Ok_0;
            let step = connection_next(names, connection, Event::Signed(signing));
            &&& step.connection == (Connection {
                call: Call::ForwardResponse { after_continue: false },
                ..connection
            })
            &&& step.effects.len() == 5
            &&& step.effects[0] is Log
            &&& step.effects[1] matches Effect::AddRequestHeader(header)
            &&& header.name == "x-ms-azure-host-authorization"@
            &&& reads_as(
                header.value,
                names.authorization_scheme@,
                signature.key_guid@,
                signature.value@,
            )
            &&& step.effects[2] == line(
                LogLevel::Message,
                "Added authorization header "@ + header.value,
            )
            &&& step.effects[3] is SendRequest
            &&& step.effects[4] == Effect::MarkForwarded(proxy_header())
        }),
{
    let signature = signing.signature->Ok_0;
    parts_read_back(names.authorization_scheme@, signature.key_guid@, signature.value@);
}

/// What was signed is told in the log: as the text that it encodes, or, where it is none, with the
/// reason. A signature that could not be computed is told as an error, and the request is sent
/// without one.
pub proof fn signing_is_told(names: ProtocolNames, connection: Connection, signing: Signing)
    ensures
        ({
            let step = connection_next(names, connection, Event::Signed(signing));
            let input = signing.input_to_sign@;
            match signing.signature {
                Ok(_) => step.effects[0] == (if vstd::utf8::valid_utf8(input) {
                    line(
                        LogLevel::Message,
                        "Computed the signature with input: "@ + vstd::utf8::decode_utf8(input),
                    )
                } else {
                    line(
                        LogLevel::Warning,
                        "Failed convert the input_to_sign to string, error "@
                            + crate::connection_handler::utf8_error_text(input),
                    )
                }),
                Err(error) => {
                    &&& step.connection == (Connection {
                        call: Call::ForwardResponse { after_continue: false },
                        ..connection
                    })
                    &&& step.effects == seq![
                        line(LogLevel::Error, "compute_signature failed with error: "@ + error@),
                        Effect::SendRequest,
                        Effect::MarkForwarded(proxy_header()),
                    ]
                },
            }
        }),
{
    let step = connection_next(names, connection, Event::Signed(signing));
    if let Err(error) = signing.signature {
        assert(step.effects =~= seq![
            line(LogLevel::Error, "compute_signature failed with error: "@ + error@),
            Effect::SendRequest,
            Effect::MarkForwarded(proxy_header()),
        ]);
    }
}

/// A response that was forwarded ends the connection with a summary of its own status, unless it is
/// the first and asks for the body: then the body is sent and the next response is forwarded.
pub proof fn forwarded_response_is_summarized(
    names: ProtocolNames,
    connection: Connection,
    after_continue: bool,
    response: HostResponse,
    streamed: usize,
    error: String,
)
    requires
        connection.call == (Call::ForwardResponse { after_continue }),
    ensures
        ({
            let step = connection_next(
                names,
                connection,
                Event::Forwarded(Ok((response, streamed))),
            );
            let report = line(
                LogLevel::Message,
                "Forwarded host response: "@ + response.description@ + ", streamed body length: "@
                    + decimal(streamed as nat),
            );
            if response.is_continue && !after_continue {
                &&& step.connection == (Connection {
                    call: Call::ForwardResponse { after_continue: true },
                    ..connection
                })
                &&& step.effects == seq![
                    report,
                    line(
                        LogLevel::Message,
                        "Current response expect sending original request body now."@,
                    ),
                    Effect::SendRequestBody,
                ]
            } else {
                &&& step.connection == (Connection { call: Call::Closed, ..connection })
                &&& step.effects == seq![report, Effect::LogSummary { status: response.status@ }]
            }
        }),
        ({
            let step = connection_next(names, connection, Event::Forwarded(Err(error)));
            &&& step.connection == (Connection { call: Call::Closed, ..connection })
            &&& step.effects == seq![
                line(LogLevel::Warning, "Failed to forward response from host: "@ + error@),
            ]
        }),
{
}

/// A response that was read is returned, marked, and ends the connection with a summary of its own
/// status, unless it is the first and asks for the body. A host that does not respond makes a bad
/// gateway.
pub proof fn read_response_is_returned(
    names: ProtocolNames,
    connection: Connection,
    after_continue: bool,
    response: HostResponse,
    error: String,
)
    requires
        connection.call == (Call::ReceiveResponse { after_continue }),
    ensures
        ({
            let step = connection_next(names, connection, Event::ResponseReceived(Ok(response)));
            let report = line(
                LogLevel::Message,
                "Received host response: "@ + response.description@,
            );
            if response.is_continue && !after_continue {
                &&& step.connection == (Connection { call: Call::StreamLength, ..connection })
                &&& step.effects == seq![report]
            } else {
                &&& step.connection == (Connection { call: Call::Closed, ..connection })
                &&& step.effects == seq![
                    report,
                    Effect::ReturnResponse(proxy_header()),
                    Effect::LogSummary { status: response.status@ },
                ]
            }
        }),
        ({
            let step = connection_next(names, connection, Event::ResponseReceived(Err(error)));
            &&& step.connection == (Connection { call: Call::Closed, ..connection })
            &&& step.effects == refusal_effects(
                "Failed to receive data from host: "@ + error@,
                Status::BadGateway,
                "502 Bad Gateway"@,
            )
        }),
{
}

/// A body that the host asks for is passed on whole: the client is told to go on, as much as it
/// announced is passed on, and the next response is read. Less than that, or no length, is a bad
/// request; a failure on the way is a bad gateway.
pub proof fn whole_body_is_passed_on(
    names: ProtocolNames,
    connection: Connection,
    length: usize,
    streamed: usize,
    error: String,
)
    ensures
        ({
            let at_length = Connection { call: Call::StreamLength, ..connection };
            let step = connection_next(names, at_length, Event::ContentLength(Ok(length)));
            let failed = connection_next(names, at_length, Event::ContentLength(Err(error)));
            &&& step.connection == (Connection { call: Call::StreamBody { length }, ..connection })
            &&& step.effects == seq![
                Effect::Respond { status: Status::Continue, header: proxy_header() },
                line(
                    LogLevel::Message,
                    "Current response expect streaming original body now."@,
                ),
            ]
            &&& failed.connection == (Connection { call: Call::Closed, ..connection })
            &&& failed.effects == refusal_effects(
                " "@ + error@,
                Status::BadRequest,
                "400 Bad Request"@,
            )
        }),
        ({
            let at_body = Connection { call: Call::StreamBody { length }, ..connection };
            let step = connection_next(names, at_body, Event::BodyStreamed(Ok(streamed)));
            let failed = connection_next(names, at_body, Event::BodyStreamed(Err(error)));
            &&& step.connection == (Connection {
                call: if streamed >= length {
                    Call::ReceiveResponse { after_continue: true }
                } else {
                    Call::Closed
                },
                ..connection
            })
            &&& streamed >= length ==> step.effects.len() == 0
            &&& streamed < length ==> step.effects == refusal_effects(
                "Streamed data "@ + decimal(streamed as nat)
                    + " from request body is less than Content-Length "@ + decimal(length as nat),
                Status::BadRequest,
                "400 Bad Request"@,
            )
            &&& failed.connection == (Connection { call: Call::Closed, ..connection })
            &&& failed.effects == refusal_effects(
                "Failed streaming the request body, error "@ + error@,
                Status::BadGateway,
                "502 Bad Gateway"@,
            )
        }),
{
}

/// The handlers for the two ways to the host, and for a client that waits before it sends its body,
/// do on their own what they do for a whole connection. What they are to do follows from the way, and
/// not from the answer that led to it.
pub proof fn ways_are_parts_of_a_connection(
    names: ProtocolNames,
    connection: Connection,
    happened: Event,
    asked: bool,
    description: String,
)
    requires
        answers(connection.call, happened),
        !(happened is SkipSignature),
        !(happened is ExpectContinue),
    ensures
        connection.call is ContentLength || connection.call is ReceiveBody ==> expect_continue_next(
            connection,
            happened,
        ) == connection_next(names, connection, happened),
        match connection.call {
            Call::ContentLength => true,
            Call::ReceiveBody { .. } => true,
            Call::CurrentKey => true,
            Call::ComputeSignature => true,
            Call::ForwardResponse { .. } => true,
            _ => false,
        } ==> with_signature_next(names, connection, happened) == connection_next(
            names,
            connection,
            happened,
        ),
        match connection.call {
            Call::ReceiveResponse { .. } => true,
            Call::StreamLength => true,
            Call::StreamBody { .. } => true,
            _ => false,
        } ==> without_signature_next(connection, happened) == connection_next(
            names,
            connection,
            happened,
        ),
        expect_continue_next(connection, Event::ExpectContinue(asked)) == connection_next(
            names,
            connection,
            Event::ExpectContinue(true),
        ),
        with_signature_next(names, connection, Event::ExpectContinue(asked)) == connection_next(
            names,
            connection,
            Event::ExpectContinue(asked),
        ),
        with_signature_next(names, connection, Event::SkipSignature { skip: asked, description })
            == connection_next(
            names,
            connection,
            Event::SkipSignature { skip: false, description },
        ),
        without_signature_next(connection, Event::SkipSignature { skip: asked, description })
            == connection_next(
            names,
            connection,
            Event::SkipSignature { skip: true, description },
        ),
{
}

/// Every call of a connection but the last takes exactly the events that tell what came of it.
pub proof fn calls_take_their_events(call: Call, happened: Event)
    ensures
        answers(call, happened) == match happened {
            Event::RequestReceived(_) => call is ReceiveRequest,
            Event::PeerAddress(_) => call is PeerAddress,
            Event::AuditLookedUp(_) => call is LookupAudit,
            Event::AuditFromStream(_) => call is AuditFromStream,
            Event::ClaimsBuilt(_) => call is BuildClaims,
            Event::AuthenticatorFound(_) => call is FindAuthenticator,
            Event::Authenticated { .. } => call is Authenticate,
            Event::ServerConnected(_) => call is ConnectServer,
            Event::SkipSignature { .. } => call is SkipSignature,
            Event::ExpectContinue(_) => call is ExpectContinue,
            Event::ContentLength(_) => call is ContentLength || call is StreamLength,
            Event::BodyReceived(_) => call is ReceiveBody,
            Event::CurrentKey(_) => call is CurrentKey,
            Event::Signed(_) => call is ComputeSignature,
            Event::Forwarded(_) => call is ForwardResponse,
            Event::ResponseReceived(_) => call is ReceiveResponse,
            Event::BodyStreamed(_) => call is StreamBody,
        },
{
}

/// A summary tells who made the request by the claims, what was requested and where by the
/// connection, and how it was answered and when by what it was given.
pub proof fn summary_tells_the_connection(
    record: ProxySummary,
    connection: Connection,
    claims: Claims,
    response_status: Seq<char>,
    elapsed: u128,
)
    requires
        record.records(connection, claims, response_status, elapsed),
        claims_of(connection, claims),
    ensures
        connection.claims is Some ==> ({
            let known = connection.claims->Some_0;
            &&& record.userId == known.userId
            &&& record.userName@ == known.userName@
            &&& record.userGroups.deep_view() == known.userGroups.deep_view()
            &&& record.clientIp@ == known.clientIp@
            &&& record.processFullPath@ == known.processFullPath@
            &&& record.processCmdLine@ == known.processCmdLine@
            &&& record.runAsElevated == known.runAsElevated
        }),
        connection.claims is None ==> ({
            &&& record.userId == 0
            &&& record.userName@.len() == 0
            &&& record.userGroups.deep_view().len() == 0
            &&& record.clientIp@.len() == 0
            &&& record.processFullPath@.len() == 0
            &&& record.processCmdLine@.len() == 0
            &&& !record.runAsElevated
        }),
        record.method@ == connection.method@,
        record.url@ == connection.url@,
        record.ip@ == connection.ip@,
        record.port == connection.port,
        record.responseStatus@ == response_status,
        record.elapsedTime == elapsed,
{
}

/// A summary is added to the status of the agent exactly once, last, whether or not it has a JSON
/// text. The text, where there is one, is what the one event tells.
pub proof fn summary_is_added_once(json: Result<String, String>)
    ensures
        summary_effects(json).len() == (if json is Ok {
            2nat
        } else {
            1nat
        }),
        summary_effects(json).last() == (SummaryEffect::<Seq<char>>::AddSummary { flag: false }),
        json matches Ok(text) ==> summary_effects(json)[0] == (SummaryEffect::InformationEvent {
            message: text@,
            method_name: "log_connection_summary"@,
            module_name: "proxy_listener"@,
        }),
{
}

/// What a connection asks for is seen as it is.
pub proof fn effect_views_are_faithful(effect: Effect<String>, after: SummaryEffect<String>)
    ensures
        effect.deep_view() == effect@,
        match effect {
            Effect::Log { level, message } => effect@ == line(level, message@),
            Effect::WarningEvent { message, method_name, module_name } => effect@ == (
            Effect::WarningEvent {
                message: message@,
                method_name: method_name@,
                module_name: module_name@,
            }),
            Effect::Respond { status, header } => effect@ == (Effect::Respond {
                status,
                header: Header { name: header.name@, value: header.value@ },
            }),
            Effect::LogSummary { status } => effect@ == (Effect::LogSummary { status: status@ }),
            Effect::AddRequestHeader(header) => effect@ == Effect::AddRequestHeader(
                Header { name: header.name@, value: header.value@ },
            ),
            Effect::SetRequestBody(body) => effect@ == Effect::<Seq<char>>::SetRequestBody(body),
            Effect::SendRequest => effect@ == Effect::<Seq<char>>::SendRequest,
            Effect::SendRequestBody => effect@ == Effect::<Seq<char>>::SendRequestBody,
            Effect::MarkForwarded(header) => effect@ == Effect::MarkForwarded(
                Header { name: header.name@, value: header.value@ },
            ),
            Effect::ReturnResponse(header) => effect@ == Effect::ReturnResponse(
                Header { name: header.name@, value: header.value@ },
            ),
        },
        match after {
            SummaryEffect::InformationEvent { message, method_name, module_name } => {
                after.deep_view() == (SummaryEffect::InformationEvent {
                    message: message@,
                    method_name: method_name@,
                    module_name: module_name@,
                })
            },
            SummaryEffect::AddSummary { flag } => after.deep_view() == (SummaryEffect::<
                Seq<char>,
            >::AddSummary { flag }),
        },
{
}

} // verus!
