use proxy_agent::connection_handler::{accept_connection, handle_connection, is_answer};
use proxy_agent::proxy_connection::{
    connection_summary, log_connection_summary, summary_serialized, BuiltClaims, Call, Claims, Connection, Effect,
    Event, HostResponse, LogLevel, Peer, ProtocolNames, RequestLine, Signature, Signing, Status,
    StreamAuditError, SummaryEffect, AUTHORIZATION_HEADER,
};
use proxy_agent::proxy_listener::{
    handle_listener, start, stop, ListenerCall, ListenerEffect, ListenerEvent,
};

fn names() -> ProtocolNames {
    ProtocolNames {
        date_header: "date-header".to_string(),
        authorization_scheme: "scheme".to_string(),
        claims_is_root: "isRoot".to_string(),
    }
}

fn claims() -> Claims {
    Claims {
        userId: 999,
        userName: "test user".to_string(),
        userGroups: vec!["group1".to_string(), "group2".to_string()],
        processId: 1234,
        processName: "proxy_connection_stream".to_string(),
        processFullPath: "proxy_connection_stream_full".to_string(),
        processCmdLine: "proxy_connection_stream_cmd".to_string(),
        runAsElevated: true,
        clientIp: "127.0.0.1".to_string(),
    }
}

fn err(text: &str) -> Result<(), String> {
    Err(text.to_string())
}

/// One line for each effect.
fn lines(effects: &[Effect<String>]) -> Vec<String> {
    effects
        .iter()
        .map(|effect| match effect {
            Effect::Log { level, message } => {
                let level = match level {
                    LogLevel::Message => "message",
                    LogLevel::Information => "information",
                    LogLevel::Warning => "warning",
                    LogLevel::Error => "error",
                };
                format!("{}: {}", level, message)
            }
            Effect::WarningEvent {
                message,
                method_name,
                module_name,
            } => format!("event: {} ({}, {})", message, method_name, module_name),
            Effect::Respond { status, header } => {
                format!("respond: {} {}={}", status.text(), header.name, header.value)
            }
            Effect::LogSummary { status } => format!("summary: {}", status),
            Effect::AddRequestHeader(header) => {
                format!("request header: {}={}", header.name, header.value)
            }
            Effect::SetRequestBody(body) => format!("body: {:?}", body),
            Effect::SendRequest => "send request".to_string(),
            Effect::SendRequestBody => "send body".to_string(),
            Effect::MarkForwarded(header) => format!("mark: {}={}", header.name, header.value),
            Effect::ReturnResponse(header) => format!("return: {}={}", header.name, header.value),
        })
        .collect()
}

fn mark() -> String {
    format!("{}=value", AUTHORIZATION_HEADER)
}

fn step(connection: &mut Connection, event: Event) -> Vec<String> {
    assert!(is_answer(connection.call, &event));
    lines(&handle_connection(connection, &names(), event))
}

fn request_read(method: &str, url: &str) -> Connection {
    let (mut connection, _) = accept_connection(7);
    step(
        &mut connection,
        Event::RequestReceived(Ok(RequestLine {
            method: method.to_string(),
            url: url.to_string(),
            description: format!("{} {}", method, url),
        })),
    );
    connection
}

fn audited() -> Connection {
    let mut connection = request_read("GET", "/file");
    step(
        &mut connection,
        Event::PeerAddress(Ok(Peer {
            ip: "127.0.0.1".to_string(),
            port: 4000,
        })),
    );
    connection
}

fn built(details: Result<String, String>) -> Event {
    Event::ClaimsBuilt(BuiltClaims {
        claims: claims(),
        details,
        destination_ip: "10.0.0.1".to_string(),
        destination_port: 80,
    })
}

fn claimed() -> Connection {
    let mut connection = audited();
    step(&mut connection, Event::AuditLookedUp(Ok(())));
    step(&mut connection, built(Ok("{claims}".to_string())));
    assert_eq!(connection.call, Call::FindAuthenticator);
    assert_eq!(
        step(
            &mut connection,
            Event::AuthenticatorFound("judge".to_string())
        ),
        ["message: Got auth: judge"]
    );
    assert_eq!(connection.call, Call::Authenticate);
    connection
}

fn connected() -> Connection {
    let mut connection = claimed();
    step(
        &mut connection,
        Event::Authenticated { allowed: true },
    );
    step(
        &mut connection,
        Event::ServerConnected(Ok("today".to_string())),
    );
    connection
}

fn signing_path() -> Connection {
    let mut connection = connected();
    assert!(step(
        &mut connection,
        Event::SkipSignature {
            skip: false,
            description: "POST /file".to_string()
        }
    )
    .is_empty());
    assert_eq!(connection.call, Call::ExpectContinue);
    connection
}

fn keyed() -> Connection {
    let mut connection = signing_path();
    step(&mut connection, Event::ExpectContinue(false));
    step(&mut connection, Event::CurrentKey("key".to_string()));
    assert_eq!(connection.call, Call::ComputeSignature);
    assert_eq!(connection.key, "key");
    connection
}

fn response(status: &str, is_continue: bool) -> HostResponse {
    HostResponse {
        status: status.to_string(),
        description: format!("<{}>", status),
        is_continue,
    }
}

/// Handles a connection of a client that made its request to the proxy itself, and returns the
/// statuses of the responses.
fn direct_request(port: u16, id: u128) -> Vec<Status> {
    let (mut connection, _) = accept_connection(id);
    let url = format!("http://127.0.0.1:{}", port);
    let events = vec![
        Event::RequestReceived(Ok(RequestLine {
            method: "GET".to_string(),
            url: url.clone(),
            description: format!("GET {}", url),
        })),
        Event::PeerAddress(Ok(Peer {
            ip: "127.0.0.1".to_string(),
            port: 4000,
        })),
        Event::AuditLookedUp(err("no entry")),
        Event::AuditFromStream(Err(StreamAuditError {
            unsupported: true,
            message: "unsupported".to_string(),
        })),
    ];
    let mut statuses = Vec::new();
    for event in events {
        assert!(is_answer(connection.call, &event));
        for effect in handle_connection(&mut connection, &names(), event) {
            if let Effect::Respond { status, .. } = effect {
                statuses.push(status);
            }
        }
    }
    assert_eq!(connection.call, Call::Closed);
    statuses
}

#[test]
fn direct_request_test() {
    // start listener, the port must different from the one used in production code
    let port: u16 = 8091;
    let (sender, queue) = std::sync::mpsc::channel();
    let (mut listener, _) = start(port, 1, "RUNNING".to_string());
    let mut statuses = Vec::new();
    let mut clients = 0;
    // the listener ends by itself once it was stopped
    while listener.call != ListenerCall::Stopped {
        let event = match listener.call {
            ListenerCall::Bind => ListenerEvent::Bound(Ok(())),
            ListenerCall::ReportStartup => ListenerEvent::StartupReported("up".to_string()),
            ListenerCall::PollRequest => ListenerEvent::Polled(queue.try_recv().ok()),
            ListenerCall::Accept => {
                clients += 1;
                if clients == 2 {
                    // stop listener: its request is queued, then its connection comes
                    let (request, address, _) = stop(port);
                    sender.send(request).unwrap();
                    assert_eq!(address, "127.0.0.1:8091");
                }
                assert!(clients <= 2, "the listener was not stopped");
                ListenerEvent::Accepted(Ok(()))
            }
            ListenerCall::Stopped => unreachable!(),
        };
        for effect in handle_listener(&mut listener, event) {
            if let ListenerEffect::HandleConnection { id } = effect {
                assert_eq!(id, clients);
                if id == 1 {
                    statuses = direct_request(port, id);
                }
            }
        }
    }
    assert_eq!(clients, 2);
    assert_eq!(
        vec![Status::Misdirected],
        statuses,
        "response.status mismatched."
    );
}

#[test]
fn accepted_connection_reads_the_request() {
    let (connection, effects) = accept_connection(7);
    assert_eq!(connection.id, 7);
    assert_eq!(
        connection.call,
        Call::ReceiveRequest {
            read_timeout_secs: 10
        }
    );
    assert!(connection.claims.is_none());
    assert_eq!(connection.port, 0);
    assert_eq!(lines(&effects), ["information: Received connection."]);
}

#[test]
fn unreadable_request_is_dropped() {
    let (mut connection, _) = accept_connection(1);
    assert_eq!(
        step(
            &mut connection,
            Event::RequestReceived(Err("timed out".to_string()))
        ),
        ["warning: Failed to received data from client: timed out"]
    );
    assert_eq!(connection.call, Call::Closed);
}

#[test]
fn request_is_kept_and_logged() {
    let (mut connection, _) = accept_connection(1);
    let effects = step(
        &mut connection,
        Event::RequestReceived(Ok(RequestLine {
            method: "GET".to_string(),
            url: "/file".to_string(),
            description: "GET to /file".to_string(),
        })),
    );
    assert_eq!(effects, ["warning: Got request: GET to /file"]);
    assert_eq!(connection.method, "GET");
    assert_eq!(connection.url, "/file");
    assert_eq!(connection.call, Call::PeerAddress);
    assert_eq!(
        step(
            &mut connection,
            Event::PeerAddress(Ok(Peer {
                ip: "127.0.0.1".to_string(),
                port: 4000
            }))
        ),
        ["message: Got request from client - 127.0.0.1:4000"]
    );
    assert_eq!(connection.client_ip, "127.0.0.1");
    assert_eq!(connection.call, Call::LookupAudit { client_port: 4000 });
}

#[test]
fn unknown_peer_is_dropped() {
    let mut connection = request_read("GET", "/file");
    assert_eq!(
        step(
            &mut connection,
            Event::PeerAddress(Err("gone".to_string()))
        ),
        ["warning: Failed to get client_source_port: gone"]
    );
    assert_eq!(connection.call, Call::Closed);
}

#[test]
fn missing_audit_entry_is_sought_in_the_stream() {
    let mut connection = audited();
    assert_eq!(
        step(&mut connection, Event::AuditLookedUp(err("no entry"))),
        [
            "event: Failed to get lookup_audit: no entry (handle_connection, proxy_listener)",
            "information: Try to get audit entry from socket stream"
        ]
    );
    assert_eq!(connection.call, Call::AuditFromStream);
    assert!(step(&mut connection, Event::AuditFromStream(Ok(()))).is_empty());
    assert_eq!(connection.call, Call::BuildClaims);
}

#[test]
fn missing_audit_entry_is_misdirected() {
    let mut connection = audited();
    step(&mut connection, Event::AuditLookedUp(err("no entry")));
    assert_eq!(
        step(
            &mut connection,
            Event::AuditFromStream(Err(StreamAuditError {
                unsupported: false,
                message: "broken".to_string()
            }))
        ),
        [
            "event: Failed to get lookup_audit_from_stream: broken (handle_connection, proxy_listener)"
                .to_string(),
            format!("respond: 421 Misdirected Request {}", mark()),
            "summary: 421 Misdirected Request".to_string(),
        ]
    );
    assert_eq!(connection.call, Call::Closed);
}

#[test]
fn claims_without_text_are_misdirected() {
    let mut connection = audited();
    step(&mut connection, Event::AuditLookedUp(Ok(())));
    assert_eq!(
        step(&mut connection, built(Err("bad".to_string()))),
        [
            "warning: Failed to get claim json string: bad".to_string(),
            format!("respond: 421 Misdirected Request {}", mark()),
            "summary: 421 Misdirected Request".to_string(),
        ]
    );
    assert!(connection.claims.is_none());
    assert_eq!(connection.call, Call::Closed);
}

#[test]
fn claims_and_destination_are_kept() {
    let mut connection = audited();
    step(&mut connection, Event::AuditLookedUp(Ok(())));
    assert_eq!(
        step(&mut connection, built(Ok("{claims}".to_string()))),
        ["message: {claims}", "message: Use lookup value:10.0.0.1:80."]
    );
    assert_eq!(connection.claims.as_ref().unwrap().userId, 999);
    assert_eq!(connection.ip, "10.0.0.1");
    assert_eq!(connection.port, 80);
    assert_eq!(connection.call, Call::FindAuthenticator);
}

#[test]
fn denied_request_is_forbidden() {
    let mut connection = claimed();
    assert_eq!(
        step(
            &mut connection,
            Event::Authenticated { allowed: false }
        ),
        [
            "warning: Denied unauthorize request: {claims}".to_string(),
            format!("respond: 403 Forbidden {}", mark()),
            "summary: 403 Forbidden".to_string(),
        ]
    );
    assert_eq!(connection.call, Call::Closed);
}

#[test]
fn unreachable_host_is_misdirected() {
    let mut connection = claimed();
    assert!(step(&mut connection, Event::Authenticated { allowed: true }).is_empty());
    assert_eq!(connection.call, Call::ConnectServer);
    assert_eq!(
        step(
            &mut connection,
            Event::ServerConnected(Err("refused".to_string()))
        ),
        [
            "warning: Failed to start new request to host: refused".to_string(),
            format!("respond: 421 Misdirected Request {}", mark()),
            "summary: 421 Misdirected Request".to_string(),
        ]
    );
    assert_eq!(connection.call, Call::Closed);
}

#[test]
fn claims_and_date_headers_are_added() {
    for elevated in [true, false] {
        let mut connection = claimed();
        if let Some(claims) = &mut connection.claims {
            claims.runAsElevated = elevated;
        }
        step(
            &mut connection,
            Event::Authenticated { allowed: true },
        );
        assert_eq!(
            step(
                &mut connection,
                Event::ServerConnected(Ok("today".to_string()))
            ),
            [
                format!(
                    "request header: x-ms-azure-host-claims={{ \"isRoot\": \"{}\"}}",
                    elevated
                ),
                "request header: date-header=today".to_string(),
            ]
        );
        assert_eq!(connection.call, Call::SkipSignature);
    }
}

#[test]
fn empty_key_skips_the_signature() {
    let mut connection = signing_path();
    assert!(step(&mut connection, Event::ExpectContinue(false)).is_empty());
    assert_eq!(connection.call, Call::CurrentKey);
    assert_eq!(
        step(&mut connection, Event::CurrentKey(String::new())),
        [
            "message: current key is empty, skip compute signature for testing.".to_string(),
            "send request".to_string(),
            format!("mark: {}", mark()),
        ]
    );
    assert_eq!(
        connection.call,
        Call::ForwardResponse {
            after_continue: false
        }
    );
}

fn signed(input: Vec<u8>) -> Event {
    Event::Signed(Signing {
        input_to_sign: input,
        signature: Ok(Signature {
            key_guid: "guid".to_string(),
            value: "abcd".to_string(),
        }),
    })
}

#[test]
fn signature_is_added() {
    let mut connection = keyed();
    assert_eq!(
        step(&mut connection, signed("GET /\u{e9}".as_bytes().to_vec())),
        [
            "message: Computed the signature with input: GET /\u{e9}".to_string(),
            "request header: x-ms-azure-host-authorization=scheme guid abcd".to_string(),
            "message: Added authorization header scheme guid abcd".to_string(),
            "send request".to_string(),
            format!("mark: {}", mark()),
        ]
    );
}

#[test]
fn signed_input_may_be_no_text() {
    let input = vec![71u8, 255, 72];
    let error = String::from_utf8(input.clone()).unwrap_err().to_string();
    let mut connection = keyed();
    let effects = step(&mut connection, signed(input));
    assert_eq!(
        effects[0],
        format!(
            "warning: Failed convert the input_to_sign to string, error {}",
            error
        )
    );
    assert_eq!(
        effects[1],
        "request header: x-ms-azure-host-authorization=scheme guid abcd"
    );
}

#[test]
fn failed_signature_is_logged_and_the_request_sent() {
    let mut connection = keyed();
    assert_eq!(
        step(
            &mut connection,
            Event::Signed(Signing {
                input_to_sign: vec![1],
                signature: Err("bad key".to_string())
            })
        ),
        [
            "error: compute_signature failed with error: bad key".to_string(),
            "send request".to_string(),
            format!("mark: {}", mark()),
        ]
    );
}

fn forwarding() -> Connection {
    let mut connection = signing_path();
    step(&mut connection, Event::ExpectContinue(false));
    step(&mut connection, Event::CurrentKey(String::new()));
    connection
}

#[test]
fn forwarded_response_ends_the_connection() {
    let mut connection = forwarding();
    assert_eq!(
        step(
            &mut connection,
            Event::Forwarded(Ok((response("200 OK", false), 12)))
        ),
        [
            "message: Forwarded host response: <200 OK>, streamed body length: 12",
            "summary: 200 OK"
        ]
    );
    assert_eq!(connection.call, Call::Closed);
}

#[test]
fn failed_forwarding_ends_without_summary() {
    let mut connection = forwarding();
    assert_eq!(
        step(
            &mut connection,
            Event::Forwarded(Err("reset".to_string()))
        ),
        ["warning: Failed to forward response from host: reset"]
    );
    assert_eq!(connection.call, Call::Closed);
}

#[test]
fn second_continue_response_is_final() {
    let mut connection = forwarding();
    assert_eq!(
        step(
            &mut connection,
            Event::Forwarded(Ok((response("100 Continue", true), 0)))
        ),
        [
            "message: Forwarded host response: <100 Continue>, streamed body length: 0",
            "message: Current response expect sending original request body now.",
            "send body"
        ]
    );
    assert_eq!(
        connection.call,
        Call::ForwardResponse {
            after_continue: true
        }
    );
    assert_eq!(
        step(
            &mut connection,
            Event::Forwarded(Ok((response("100 Continue", true), 0)))
        )[1],
        "summary: 100 Continue"
    );
    assert_eq!(connection.call, Call::Closed);
}

#[test]
fn http_stream_tests() {
    // a POST that does not wait: the host misses the body and says so
    let mut connection = forwarding();
    let effects = step(
        &mut connection,
        Event::Forwarded(Ok((response("400 Bad Request", false), 0))),
    );
    assert_eq!(effects[1], "summary: 400 Bad Request");

    // a POST to /file that waits: the proxy asks for the body, then sends it to the host
    let mut connection = signing_path();
    assert_eq!(
        step(&mut connection, Event::ExpectContinue(true)),
        [format!("respond: 100 Continue {}", mark())]
    );
    assert_eq!(connection.call, Call::ContentLength);
    assert!(step(&mut connection, Event::ContentLength(Ok(3))).is_empty());
    assert_eq!(connection.call, Call::ReceiveBody { length: 3 });
    assert_eq!(
        step(&mut connection, Event::BodyReceived(Ok(vec![1, 2, 3]))),
        ["body: [1, 2, 3]"]
    );
    step(&mut connection, Event::CurrentKey(String::new()));
    let effects = step(
        &mut connection,
        Event::Forwarded(Ok((response("100 Continue", true), 0))),
    );
    assert_eq!(effects[2], "send body");
    let effects = step(
        &mut connection,
        Event::Forwarded(Ok((response("200 OK", false), 0))),
    );
    assert_eq!(effects[1], "summary: 200 OK");

    // a POST to /vmagentlog that waits: the body is passed on without a signature
    let mut connection = connected();
    assert_eq!(
        step(
            &mut connection,
            Event::SkipSignature {
                skip: true,
                description: "POST /vmagentlog".to_string()
            }
        ),
        [
            "information: Current request POST /vmagentlog could send to host without signature.",
            "send request"
        ]
    );
    assert_eq!(
        step(
            &mut connection,
            Event::ResponseReceived(Ok(response("100 Continue", true)))
        ),
        ["message: Received host response: <100 Continue>"]
    );
    assert_eq!(connection.call, Call::StreamLength);
    assert_eq!(
        step(&mut connection, Event::ContentLength(Ok(3))),
        [
            format!("respond: 100 Continue {}", mark()),
            "message: Current response expect streaming original body now.".to_string(),
        ]
    );
    assert_eq!(connection.call, Call::StreamBody { length: 3 });
    assert!(step(&mut connection, Event::BodyStreamed(Ok(3))).is_empty());
    assert_eq!(
        step(
            &mut connection,
            Event::ResponseReceived(Ok(response("200 OK", false)))
        ),
        [
            "message: Received host response: <200 OK>".to_string(),
            format!("return: {}", mark()),
            "summary: 200 OK".to_string(),
        ]
    );
    assert_eq!(connection.call, Call::Closed);
}

#[test]
fn http_stream_get_and_full_post() {
    // a GET of /file: the whole body of the response reaches the client
    let body = vec![7u8; 5000];
    let mut connection = forwarding();
    assert_eq!(connection.method, "GET");
    assert_eq!(connection.url, "/file");
    assert_eq!(
        step(
            &mut connection,
            Event::Forwarded(Ok((response("200 OK", false), body.len())))
        ),
        [
            "message: Forwarded host response: <200 OK>, streamed body length: 5000",
            "summary: 200 OK"
        ]
    );
    assert_eq!(connection.call, Call::Closed);

    // a full POST to /vmagentlog: the request goes without its body, and the host says so
    let mut connection = connected();
    let effects = step(
        &mut connection,
        Event::SkipSignature {
            skip: true,
            description: "POST /vmagentlog".to_string(),
        },
    );
    assert_eq!(effects[1], "send request");
    assert_eq!(
        step(
            &mut connection,
            Event::ResponseReceived(Ok(response("400 Bad Request", false)))
        ),
        [
            "message: Received host response: <400 Bad Request>".to_string(),
            format!("return: {}", mark()),
            "summary: 400 Bad Request".to_string(),
        ]
    );
    assert_eq!(connection.call, Call::Closed);
}

#[test]
fn unreadable_body_is_a_bad_request_and_still_sent() {
    let mut connection = signing_path();
    step(&mut connection, Event::ExpectContinue(true));
    assert_eq!(
        step(
            &mut connection,
            Event::ContentLength(Err("no length".to_string()))
        ),
        [
            "warning:  no length".to_string(),
            format!("respond: 400 Bad Request {}", mark()),
            "summary: 400 Bad Request".to_string(),
        ]
    );
    assert_eq!(connection.call, Call::CurrentKey);

    let mut connection = signing_path();
    step(&mut connection, Event::ExpectContinue(true));
    step(&mut connection, Event::ContentLength(Ok(3)));
    assert_eq!(
        step(
            &mut connection,
            Event::BodyReceived(Err("timed out".to_string()))
        ),
        [
            "warning: Failed to received body from client: timed out".to_string(),
            format!("respond: 400 Bad Request {}", mark()),
            "summary: 400 Bad Request".to_string(),
        ]
    );
    assert_eq!(connection.call, Call::CurrentKey);
}

fn unsigned() -> Connection {
    let mut connection = connected();
    step(
        &mut connection,
        Event::SkipSignature {
            skip: true,
            description: "POST".to_string(),
        },
    );
    connection
}

#[test]
fn silent_host_is_a_bad_gateway() {
    let mut connection = unsigned();
    assert_eq!(
        step(
            &mut connection,
            Event::ResponseReceived(Err("reset".to_string()))
        ),
        [
            "warning: Failed to receive data from host: reset".to_string(),
            format!("respond: 502 Bad Gateway {}", mark()),
            "summary: 502 Bad Gateway".to_string(),
        ]
    );
    assert_eq!(connection.call, Call::Closed);
}

fn streaming(length: usize) -> Connection {
    let mut connection = unsigned();
    step(
        &mut connection,
        Event::ResponseReceived(Ok(response("100 Continue", true))),
    );
    step(&mut connection, Event::ContentLength(Ok(length)));
    connection
}

#[test]
fn streamed_body_must_be_complete() {
    let mut connection = streaming(5);
    assert_eq!(
        step(&mut connection, Event::BodyStreamed(Ok(4))),
        [
            "warning: Streamed data 4 from request body is less than Content-Length 5".to_string(),
            format!("respond: 400 Bad Request {}", mark()),
            "summary: 400 Bad Request".to_string(),
        ]
    );
    assert_eq!(connection.call, Call::Closed);

    let mut connection = streaming(5);
    assert!(step(&mut connection, Event::BodyStreamed(Ok(5))).is_empty());
    assert_eq!(
        connection.call,
        Call::ReceiveResponse {
            after_continue: true
        }
    );
    let effects = step(
        &mut connection,
        Event::ResponseReceived(Ok(response("100 Continue", true))),
    );
    assert_eq!(effects[2], "summary: 100 Continue");
}

#[test]
fn failed_streaming_is_a_bad_gateway() {
    let mut connection = streaming(5);
    assert_eq!(
        step(
            &mut connection,
            Event::BodyStreamed(Err("reset".to_string()))
        ),
        [
            "warning: Failed streaming the request body, error reset".to_string(),
            format!("respond: 502 Bad Gateway {}", mark()),
            "summary: 502 Bad Gateway".to_string(),
        ]
    );
}

#[test]
fn streamed_body_needs_a_length() {
    let mut connection = unsigned();
    step(
        &mut connection,
        Event::ResponseReceived(Ok(response("100 Continue", true))),
    );
    assert_eq!(
        step(
            &mut connection,
            Event::ContentLength(Err("no length".to_string()))
        ),
        [
            "warning:  no length".to_string(),
            format!("respond: 400 Bad Request {}", mark()),
            "summary: 400 Bad Request".to_string(),
        ]
    );
    assert_eq!(connection.call, Call::Closed);
}

#[test]
fn unsigned_connection_has_one_summary() {
    let mut connection = streaming(5);
    let mut all = step(&mut connection, Event::BodyStreamed(Ok(5)));
    all.extend(step(
        &mut connection,
        Event::ResponseReceived(Ok(response("404 Not Found", false))),
    ));
    assert_eq!(connection.call, Call::Closed);
    assert_eq!(all[all.len() - 2], format!("return: {}", mark()));
    assert_eq!(all[all.len() - 1], "summary: 404 Not Found");
    assert_eq!(all.iter().filter(|line| line.starts_with("summary")).count(), 1);
}

#[test]
fn summary_records_the_connection() {
    let summary = connection_summary(&connected(), "200 OK".to_string(), 17);
    assert_eq!(summary.userId, 999);
    assert_eq!(summary.userName, "test user");
    assert_eq!(summary.userGroups, ["group1", "group2"]);
    assert_eq!(summary.clientIp, "127.0.0.1");
    assert_eq!(summary.processFullPath, "proxy_connection_stream_full");
    assert_eq!(summary.processCmdLine, "proxy_connection_stream_cmd");
    assert!(summary.runAsElevated);
    assert_eq!(summary.method, "GET");
    assert_eq!(summary.url, "/file");
    assert_eq!(summary.ip, "10.0.0.1");
    assert_eq!(summary.port, 80);
    assert_eq!(summary.responseStatus, "200 OK");
    assert_eq!(summary.elapsedTime, 17);
}

#[test]
fn summary_without_claims_is_empty() {
    let summary = log_connection_summary(&audited(), "421 Misdirected Request".to_string());
    assert_eq!(summary.userId, 0);
    assert_eq!(summary.userName, "");
    assert!(summary.userGroups.is_empty());
    assert!(!summary.runAsElevated);
    assert_eq!(summary.url, "/file");
    assert_eq!(summary.responseStatus, "421 Misdirected Request");
    assert!(summary.elapsedTime < 10000);
}

#[test]
fn closed_connection_takes_no_event() {
    assert!(!is_answer(Call::Closed, &Event::ExpectContinue(true)));
    assert!(!is_answer(Call::PeerAddress, &Event::ExpectContinue(true)));
    assert!(is_answer(Call::StreamLength, &Event::ContentLength(Ok(1))));
}

#[test]
fn longest_connection() {
    let events = vec![
        Event::RequestReceived(Ok(RequestLine {
            method: "POST".to_string(),
            url: "/file".to_string(),
            description: "POST /file".to_string(),
        })),
        Event::PeerAddress(Ok(Peer {
            ip: "127.0.0.1".to_string(),
            port: 4000,
        })),
        Event::AuditLookedUp(err("no entry")),
        Event::AuditFromStream(Ok(())),
        built(Ok("{claims}".to_string())),
        Event::AuthenticatorFound("judge".to_string()),
        Event::Authenticated { allowed: true },
        Event::ServerConnected(Ok("today".to_string())),
        Event::SkipSignature {
            skip: false,
            description: "POST /file".to_string(),
        },
        Event::ExpectContinue(true),
        Event::ContentLength(Ok(1)),
        Event::BodyReceived(Ok(vec![9])),
        Event::CurrentKey("key".to_string()),
        signed(vec![65]),
        Event::Forwarded(Ok((response("100 Continue", true), 0))),
        Event::Forwarded(Ok((response("200 OK", false), 4))),
    ];
    assert_eq!(events.len(), 16);
    let (mut connection, _) = accept_connection(7);
    let mut all = Vec::new();
    for event in events {
        assert_ne!(connection.call, Call::Closed);
        all.extend(step(&mut connection, event));
    }
    assert_eq!(connection.call, Call::Closed);
    assert_eq!(connection.id, 7);
    assert_eq!(connection.ip, "10.0.0.1");
    let position = |line: &str| {
        let found: Vec<usize> = (0..all.len()).filter(|i| all[*i].starts_with(line)).collect();
        assert_eq!(found.len(), 1);
        found[0]
    };
    let sent = position("send request");
    assert_eq!(
        position("request header: x-ms-azure-host-claims=") + 1,
        position("request header: date-header=")
    );
    assert!(position("request header: date-header=") < sent);
    assert!(position("request header: x-ms-azure-host-authorization=") < sent);
    assert!(position("message: Got auth: judge") < sent);
    assert!(sent < position("send body"));
    assert_eq!(position("summary: 200 OK"), all.len() - 1);
}

#[test]
fn summary_is_added_with_and_without_text() {
    let effects = summary_serialized(Ok("{summary}".to_string()));
    assert_eq!(effects.len(), 2);
    match &effects[0] {
        SummaryEffect::InformationEvent {
            message,
            method_name,
            module_name,
        } => {
            assert_eq!(message, "{summary}");
            assert_eq!(method_name, "log_connection_summary");
            assert_eq!(module_name, "proxy_listener");
        }
        SummaryEffect::AddSummary { .. } => panic!("no event"),
    }
    assert!(matches!(effects[1], SummaryEffect::AddSummary { flag: false }));

    let effects = summary_serialized(Err("no text".to_string()));
    assert_eq!(effects.len(), 1);
    assert!(matches!(effects[0], SummaryEffect::AddSummary { flag: false }));
}
