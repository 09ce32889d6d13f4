use proxy_agent::proxy_connection::LogLevel;
use proxy_agent::proxy_listener::{
    handle_listener, is_listener_answer, start, stop, Listener, ListenerCall, ListenerEffect,
    ListenerEvent, ProxyRequest, STARTUP_METHOD_NAME, STARTUP_MODULE_NAME, STARTUP_TASK,
};
use std::sync::mpsc::sync_channel;

fn listening() -> Listener {
    let (mut listener, _) = start(8091, 4, "RUNNING".to_string());
    handle_listener(&mut listener, ListenerEvent::Bound(Ok(())));
    handle_listener(
        &mut listener,
        ListenerEvent::StartupReported("up".to_string()),
    );
    listener
}

fn log(effect: &ListenerEffect) -> (LogLevel, &str) {
    match effect {
        ListenerEffect::Log { level, message } => (*level, message),
        _ => panic!("no log line"),
    }
}

#[test]
fn listener_starts_on_all_addresses() {
    let (mut listener, effects) = start(8091, 4, "RUNNING".to_string());
    assert_eq!(listener.addr, "0.0.0.0:8091");
    assert_eq!(listener.call, ListenerCall::Bind);
    assert_eq!(effects.len(), 2);
    assert!(matches!(effects[0], ListenerEffect::InitConnectionLog));
    assert_eq!(
        log(&effects[1]),
        (
            LogLevel::Message,
            "Start proxy listener at '0.0.0.0:8091'."
        )
    );
    assert!(handle_listener(&mut listener, ListenerEvent::Bound(Ok(()))).is_empty());
    assert_eq!(listener.call, ListenerCall::ReportStartup);
    let effects = handle_listener(
        &mut listener,
        ListenerEvent::StartupReported("up".to_string()),
    );
    assert!(matches!(effects[0], ListenerEffect::ListenerStarted));
    assert!(matches!(effects[1], ListenerEffect::CreatePool { size: 4 }));
    assert_eq!(listener.call, ListenerCall::PollRequest);
}

#[test]
fn listener_that_cannot_bind_stops() {
    let (mut listener, _) = start(8091, 4, "RUNNING".to_string());
    let effects = handle_listener(&mut listener, ListenerEvent::Bound(Err("in use".to_string())));
    assert_eq!(
        log(&effects[0]),
        (
            LogLevel::Error,
            "Failed to bind TcpListener '0.0.0.0:8091' with error in use."
        )
    );
    assert_eq!(listener.call, ListenerCall::Stopped);
}

#[test]
fn connections_are_numbered_from_one() {
    let mut listener = listening();
    for expected in 1..4u128 {
        handle_listener(&mut listener, ListenerEvent::Polled(None));
        assert_eq!(listener.call, ListenerCall::Accept);
        let effects = handle_listener(&mut listener, ListenerEvent::Accepted(Ok(())));
        assert_eq!(effects.len(), 1);
        match effects[0] {
            ListenerEffect::HandleConnection { id } => assert_eq!(id, expected),
            _ => panic!("no connection"),
        }
        assert_eq!(listener.call, ListenerCall::PollRequest);
    }
}

#[test]
fn failed_connection_is_counted_and_ignored() {
    let mut listener = listening();
    handle_listener(&mut listener, ListenerEvent::Polled(None));
    let effects = handle_listener(&mut listener, ListenerEvent::Accepted(Err("reset".to_string())));
    assert_eq!(effects.len(), 1);
    assert_eq!(
        log(&effects[0]),
        (
            LogLevel::Warning,
            "Incoming connection with error reset; ignore it."
        )
    );
    assert_eq!(listener.connection_count, 1);
    assert_eq!(listener.call, ListenerCall::PollRequest);
}

#[test]
fn numbers_start_anew_after_the_largest() {
    let mut listener = listening();
    listener.connection_count = u128::MAX;
    handle_listener(&mut listener, ListenerEvent::Polled(None));
    handle_listener(&mut listener, ListenerEvent::Accepted(Ok(())));
    assert_eq!(listener.connection_count, 1);
}

#[test]
fn status_is_answered() {
    let mut listener = listening();
    let (respond_to, receiver) = sync_channel(1);
    let request = ProxyRequest::Status { respond_to };
    for effect in handle_listener(&mut listener, ListenerEvent::Polled(Some(request.clone()))) {
        if let ListenerEffect::ReplyStatus { respond_to, status } = effect {
            respond_to.send(status).unwrap();
        }
    }
    let status = receiver.recv().unwrap();
    assert_eq!(status.status, "RUNNING");
    assert_eq!(status.message, "up");
    assert!(status.states.is_none());
    assert_eq!(listener.call, ListenerCall::PollRequest);
}

#[test]
fn connection_count_is_answered() {
    let mut listener = listening();
    handle_listener(&mut listener, ListenerEvent::Polled(None));
    handle_listener(&mut listener, ListenerEvent::Accepted(Ok(())));
    let (respond_to, receiver) = sync_channel(1);
    let request = ProxyRequest::ConnectionCount { respond_to };
    for effect in handle_listener(&mut listener, ListenerEvent::Polled(Some(request))) {
        if let ListenerEffect::ReplyConnectionCount { respond_to, count } = effect {
            respond_to.send(count).unwrap();
        }
    }
    assert_eq!(receiver.recv().unwrap(), 1);
}

#[test]
fn stop_releases_all_who_joined() {
    let mut listener = listening();
    let (first, first_receiver) = sync_channel(1);
    let (second, second_receiver) = sync_channel(1);
    for respond_to in [first, second] {
        let request = ProxyRequest::Join { respond_to };
        assert!(handle_listener(&mut listener, ListenerEvent::Polled(Some(request))).is_empty());
    }
    assert!(first_receiver.try_recv().is_err());
    let effects = handle_listener(&mut listener, ListenerEvent::Polled(Some(ProxyRequest::Stop)));
    assert_eq!(listener.call, ListenerCall::Stopped);
    assert_eq!(
        log(&effects[0]),
        (
            LogLevel::Warning,
            "Stop signal received, stopping the listener."
        )
    );
    match &effects[1] {
        ListenerEffect::Release { waiting } => {
            assert_eq!(waiting.len(), 2);
            for respond_to in waiting {
                respond_to.send(()).unwrap();
            }
        }
        _ => panic!("nobody is released"),
    }
    assert_eq!(
        log(&effects[2]),
        (
            LogLevel::Message,
            "ProxyListener stopped accepting new request."
        )
    );
    first_receiver.recv().unwrap();
    second_receiver.recv().unwrap();
    assert!(listener.join_requests.is_empty());
}

#[test]
fn only_answers_to_the_pending_call_are_taken() {
    assert!(is_listener_answer(
        ListenerCall::Accept,
        &ListenerEvent::Accepted(Ok(()))
    ));
    assert!(!is_listener_answer(
        ListenerCall::PollRequest,
        &ListenerEvent::Accepted(Ok(()))
    ));
    assert!(!is_listener_answer(
        ListenerCall::Stopped,
        &ListenerEvent::Polled(None)
    ));
}

#[test]
fn stop_signal_goes_to_the_loopback_address() {
    let (request, address, effect) = stop(8091);
    assert!(matches!(request, ProxyRequest::Stop));
    assert_eq!(address, "127.0.0.1:8091");
    assert_eq!(log(&effect), (LogLevel::Warning, "Sending stop signal."));
}

#[test]
fn stop_is_found_after_what_was_queued_before() {
    for woken in [Ok(()), Err("reset".to_string())] {
        let mut listener = listening();
        handle_listener(&mut listener, ListenerEvent::Polled(None));
        assert_eq!(listener.call, ListenerCall::Accept);

        let (respond_to, joined) = sync_channel(1);
        let (sender, queue) = std::sync::mpsc::channel();
        sender.send(ProxyRequest::Join { respond_to }).unwrap();
        sender.send(stop(8091).0).unwrap();

        handle_listener(&mut listener, ListenerEvent::Accepted(woken));
        let mut connections = 0;
        while listener.call != ListenerCall::Stopped {
            assert_eq!(listener.call, ListenerCall::PollRequest);
            let event = ListenerEvent::Polled(queue.try_recv().ok());
            for effect in handle_listener(&mut listener, event) {
                match effect {
                    ListenerEffect::HandleConnection { .. } => connections += 1,
                    ListenerEffect::Release { waiting } => {
                        for respond_to in waiting {
                            respond_to.send(()).unwrap();
                        }
                    }
                    _ => {}
                }
            }
        }
        assert_eq!(connections, 0);
        assert_eq!(listener.connection_count, 1);
        joined.recv().unwrap();
    }
}

#[test]
fn startup_report_names() {
    assert_eq!(
        STARTUP_TASK,
        "Started proxy listener, ready to accept request"
    );
    assert_eq!(STARTUP_METHOD_NAME, "start");
    assert_eq!(STARTUP_MODULE_NAME, "proxy_listener");
}
