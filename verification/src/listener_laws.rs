//! What holds of the listener over all its events.

use std::sync::mpsc::SyncSender;
use vstd::prelude::*;

verus! {

use crate::proxy_listener::{
    listener_answers,
    listener_next,
    listener_start,
    next_id,
    Deed,
    Listener,
    ListenerCall,
    ListenerEffect,
    ListenerEvent,
    ListenerState,
    ProxyAgentDetailStatus,
    ProxyRequest,
};
use crate::proxy_connection::LogLevel;
use crate::text::{decimal, decimal_reads_back, decimal_value};

/// The state of a listener for `port` after `events`, started with `running` as the text for its
/// state.
pub open spec fn listener_run(
    port: u16,
    pool_size: u16,
    running: Seq<char>,
    events: Seq<ListenerEvent>,
) -> ListenerState
    decreases events.len(),
{
    if events.len() == 0 {
        listener_start(port, pool_size, running).listener
    } else {
        listener_next(listener_run(port, pool_size, running, events.drop_last()), events.last()).listener
    }
}

/// Whether each of `events` tells what came of the call that the listener then waited for.
pub open spec fn listener_possible(
    port: u16,
    pool_size: u16,
    running: Seq<char>,
    events: Seq<ListenerEvent>,
) -> bool
    decreases events.len(),
{
    events.len() == 0 || (listener_possible(port, pool_size, running, events.drop_last())
        && listener_answers(
        listener_run(port, pool_size, running, events.drop_last()).call,
        events.last(),
    ))
}

/// How many connections came in.
pub open spec fn incoming(events: Seq<ListenerEvent>) -> nat
    decreases events.len(),
{
    if events.len() == 0 {
        0
    } else {
        incoming(events.drop_last()) + (if events.last() is Accepted {
            1nat
        } else {
            0nat
        })
    }
}

/// The number that the `n`th connection gets: the numbers from one to the largest, over and over.
/// Zero before the first.
pub open spec fn number(n: nat) -> u128 {
    if n == 0 {
        0
    } else {
        ((n - 1) % (u128::MAX as int) + 1) as u128
    }
}

/// The count of a listener is the number of the last connection that came in.
pub proof fn count_is_last_number(
    port: u16,
    pool_size: u16,
    running: Seq<char>,
    events: Seq<ListenerEvent>,
)
    requires
        listener_possible(port, pool_size, running, events),
    ensures
        listener_run(port, pool_size, running, events).connection_count == number(incoming(events)),
    decreases events.len(),
{
    if events.len() > 0 {
        count_is_last_number(port, pool_size, running, events.drop_last());
    }
}

/// A connection gets the number after that of the one before it, and no connection gets zero.
pub proof fn connection_gets_next_number(
    port: u16,
    pool_size: u16,
    running: Seq<char>,
    events: Seq<ListenerEvent>,
)
    requires
        events.len() > 0,
        listener_possible(port, pool_size, running, events),
        events.last() == ListenerEvent::Accepted(Ok(())),
    ensures
        listener_next(listener_run(port, pool_size, running, events.drop_last()), events.last()).deeds
            == seq![Deed::HandleConnection { id: number(incoming(events)) }],
        number(incoming(events)) > 0,
{
    count_is_last_number(port, pool_size, running, events.drop_last());
}

/// Two connections get the same number only if all other numbers were given in between.
pub proof fn numbers_repeat_last(m: nat, n: nat)
    requires
        0 < m < n,
        number(m) == number(n),
    ensures
        n - m >= u128::MAX,
{
}

/// Those who asked to be told when the listener stops, in the order in which they asked.
pub open spec fn joins(events: Seq<ListenerEvent>) -> Seq<SyncSender<()>>
    decreases events.len(),
{
    if events.len() == 0 {
        seq![]
    } else {
        match events.last() {
            ListenerEvent::Polled(Some(ProxyRequest::Join { respond_to })) => joins(
                events.drop_last(),
            ).push(respond_to),
            _ => joins(events.drop_last()),
        }
    }
}

/// The listener keeps everyone who waits for it to stop, until it stops.
pub proof fn waiting_are_kept(
    port: u16,
    pool_size: u16,
    running: Seq<char>,
    events: Seq<ListenerEvent>,
)
    requires
        listener_possible(port, pool_size, running, events),
        !(listener_run(port, pool_size, running, events).call is Stopped),
    ensures
        listener_run(port, pool_size, running, events).join_requests == joins(events),
    decreases events.len(),
{
    if events.len() > 0 {
        waiting_are_kept(port, pool_size, running, events.drop_last());
    }
}

/// Whether an event ends the listener: a request to stop, or an address that cannot be bound.
pub open spec fn ends(happened: ListenerEvent) -> bool {
    (happened matches ListenerEvent::Polled(Some(ProxyRequest::Stop))) || (
    happened matches ListenerEvent::Bound(Err(_)))
}

/// The listener stops when it is asked to, or when it cannot bind its address, and for no other
/// reason.
pub proof fn listener_stops_when_asked(
    port: u16,
    pool_size: u16,
    running: Seq<char>,
    events: Seq<ListenerEvent>,
)
    requires
        listener_possible(port, pool_size, running, events),
    ensures
        listener_run(port, pool_size, running, events).call is Stopped == (events.len() > 0 && ends(
            events.last(),
        )),
{
}

/// A listener that is asked to stop lets everyone go who waits for that.
pub proof fn stop_releases_all(
    port: u16,
    pool_size: u16,
    running: Seq<char>,
    events: Seq<ListenerEvent>,
)
    requires
        events.len() > 0,
        listener_possible(port, pool_size, running, events),
        events.last() == ListenerEvent::Polled(Some(ProxyRequest::Stop)),
    ensures
        listener_next(
            listener_run(port, pool_size, running, events.drop_last()),
            events.last(),
        ).deeds.contains(Deed::Release { waiting: joins(events) }),
        listener_run(port, pool_size, running, events).join_requests.len() == 0,
{
    let before = listener_run(port, pool_size, running, events.drop_last());
    waiting_are_kept(port, pool_size, running, events.drop_last());
    let deeds = listener_next(before, events.last()).deeds;
    assert(deeds[1] == Deed::Release { waiting: joins(events) });
}

/// The events of a listener that finds `pending` requests one after the other.
pub open spec fn found(pending: Seq<ProxyRequest>) -> Seq<ListenerEvent> {
    Seq::new(pending.len(), |i: int| ListenerEvent::Polled(Some(pending[i])))
}

/// Whether the last of `events` ends the listener for good: it lets everyone go who waits for that
/// and hands no connection to the pool, and no event can follow.
pub open spec fn ended(
    port: u16,
    pool_size: u16,
    running: Seq<char>,
    events: Seq<ListenerEvent>,
) -> bool {
    let deeds = listener_next(
        listener_run(port, pool_size, running, events.drop_last()),
        events.last(),
    ).deeds;
    &&& listener_possible(port, pool_size, running, events)
    &&& listener_run(port, pool_size, running, events).call is Stopped
    &&& deeds.contains(Deed::Release { waiting: joins(events) })
    &&& forall|k: int| 0 <= k < deeds.len() ==> !(#[trigger] deeds[k] is HandleConnection)
    &&& forall|next: ListenerEvent| !#[trigger]
        listener_possible(port, pool_size, running, events.push(next))
}

proof fn pending_are_served(
    port: u16,
    pool_size: u16,
    running: Seq<char>,
    events: Seq<ListenerEvent>,
    pending: Seq<ProxyRequest>,
)
    requires
        listener_possible(port, pool_size, running, events),
        listener_run(port, pool_size, running, events).call is PollRequest,
        forall|i: int| 0 <= i < pending.len() ==> !(#[trigger] pending[i] is Stop),
    ensures
        listener_possible(port, pool_size, running, events + found(pending)),
        listener_run(port, pool_size, running, events + found(pending)).call is PollRequest,
        listener_run(port, pool_size, running, events + found(pending)).connection_count == listener_run(
            port,
            pool_size,
            running,
            events,
        ).connection_count,
    decreases pending.len(),
{
    if pending.len() == 0 {
        assert(events + found(pending) =~= events);
    } else {
        let all = events + found(pending);
        assert(all.drop_last() =~= events + found(pending.drop_last()));
        assert(all.last() == ListenerEvent::Polled(Some(pending.last())));
        pending_are_served(port, pool_size, running, events, pending.drop_last());
    }
}

/// A request to stop that a serving listener finds, after whatever other requests were queued before
/// it, ends the listener without one more connection.
pub proof fn stop_request_ends_listener(
    port: u16,
    pool_size: u16,
    running: Seq<char>,
    events: Seq<ListenerEvent>,
    pending: Seq<ProxyRequest>,
)
    requires
        listener_possible(port, pool_size, running, events),
        listener_run(port, pool_size, running, events).call is PollRequest,
        forall|i: int| 0 <= i < pending.len() ==> !(#[trigger] pending[i] is Stop),
    ensures
        ({
            let all = (events + found(pending)).push(
                ListenerEvent::Polled(Some(ProxyRequest::Stop)),
            );
            &&& ended(port, pool_size, running, all)
            &&& listener_run(port, pool_size, running, all).connection_count == listener_run(
                port,
                pool_size,
                running,
                events,
            ).connection_count
        }),
{
    let before = events + found(pending);
    let all = before.push(ListenerEvent::Polled(Some(ProxyRequest::Stop)));
    assert(all.drop_last() =~= before);
    pending_are_served(port, pool_size, running, events, pending);
    stop_releases_all(port, pool_size, running, all);
    assert forall|next: ListenerEvent| !#[trigger]
        listener_possible(port, pool_size, running, all.push(next)) by {
        assert(all.push(next).drop_last() =~= all);
    }
}

/// Stopping a listener from outside ends it: where it waits for a connection, the one that wakes it
/// up, whether or not it can be accepted, is the last that it counts, and the request to stop, queued
/// before, is found after whatever was queued earlier.
pub proof fn stop_signal_ends_listener(
    port: u16,
    pool_size: u16,
    running: Seq<char>,
    events: Seq<ListenerEvent>,
    woken: Result<(), String>,
    pending: Seq<ProxyRequest>,
)
    requires
        listener_possible(port, pool_size, running, events),
        listener_run(port, pool_size, running, events).call is Accept,
        forall|i: int| 0 <= i < pending.len() ==> !(#[trigger] pending[i] is Stop),
    ensures
        ({
            let all = (events.push(ListenerEvent::Accepted(woken)) + found(pending)).push(
                ListenerEvent::Polled(Some(ProxyRequest::Stop)),
            );
            &&& ended(port, pool_size, running, all)
            &&& listener_run(port, pool_size, running, all).connection_count == next_id(
                listener_run(port, pool_size, running, events).connection_count,
            )
        }),
{
    let awake = events.push(ListenerEvent::Accepted(woken));
    assert(awake.drop_last() =~= events);
    stop_request_ends_listener(port, pool_size, running, awake, pending);
}

/// The listener accepts a connection only after it has served every pending request.
pub proof fn requests_come_first(
    port: u16,
    pool_size: u16,
    running: Seq<char>,
    events: Seq<ListenerEvent>,
)
    requires
        listener_possible(port, pool_size, running, events),
        listener_run(port, pool_size, running, events).call is Accept,
    ensures
        events.len() > 0,
        events.last() == ListenerEvent::Polled(None),
{
}

/// The listener keeps the text for its state that it was started with.
pub proof fn running_state_is_kept(
    port: u16,
    pool_size: u16,
    running: Seq<char>,
    events: Seq<ListenerEvent>,
)
    ensures
        listener_run(port, pool_size, running, events).running_state == running,
    decreases events.len(),
{
    if events.len() > 0 {
        running_state_is_kept(port, pool_size, running, events.drop_last());
    }
}

/// While it serves, the status message of the listener is the one that the report of its startup
/// gave.
pub proof fn status_is_that_of_startup(
    port: u16,
    pool_size: u16,
    running: Seq<char>,
    events: Seq<ListenerEvent>,
)
    requires
        listener_possible(port, pool_size, running, events),
        listener_run(port, pool_size, running, events).call is PollRequest || listener_run(
            port,
            pool_size,
            running,
            events,
        ).call is Accept,
    ensures
        events.len() >= 2,
        events[1] matches ListenerEvent::StartupReported(message) && listener_run(
            port,
            pool_size,
            running,
            events,
        ).status_message == message@,
    decreases events.len(),
{
    let earlier = events.drop_last();
    let call = listener_run(port, pool_size, running, earlier).call;
    if call is PollRequest || call is Accept {
        status_is_that_of_startup(port, pool_size, running, earlier);
        assert(earlier[1] == events[1]);
    } else {
        assert(call is ReportStartup);
        startup_is_second(port, pool_size, running, earlier);
    }
}

proof fn startup_is_second(
    port: u16,
    pool_size: u16,
    running: Seq<char>,
    events: Seq<ListenerEvent>,
)
    requires
        listener_possible(port, pool_size, running, events),
        listener_run(port, pool_size, running, events).call is ReportStartup,
    ensures
        events.len() == 1,
{
    let earlier = events.drop_last();
    assert(listener_run(port, pool_size, running, earlier).call is Bind);
    bind_is_first(port, pool_size, running, earlier);
}

proof fn bind_is_first(
    port: u16,
    pool_size: u16,
    running: Seq<char>,
    events: Seq<ListenerEvent>,
)
    requires
        listener_possible(port, pool_size, running, events),
        listener_run(port, pool_size, running, events).call is Bind,
    ensures
        events.len() == 0,
{
}

proof fn start_values_are_kept(
    port: u16,
    pool_size: u16,
    running: Seq<char>,
    events: Seq<ListenerEvent>,
)
    ensures
        ({
            let listener = listener_run(port, pool_size, running, events);
            &&& listener.pool_size == pool_size
            &&& listener.addr == "0.0.0.0:"@ + decimal(port as nat)
        }),
    decreases events.len(),
{
    if events.len() > 0 {
        start_values_are_kept(port, pool_size, running, events.drop_last());
    }
}

/// What the last of `events` has the listener do.
pub open spec fn last_deeds(
    port: u16,
    pool_size: u16,
    running: Seq<char>,
    events: Seq<ListenerEvent>,
) -> Seq<Deed> {
    listener_next(
        listener_run(port, pool_size, running, events.drop_last()),
        events.last(),
    ).deeds
}

/// Whoever asks for the number of connections is told the number of the last one that came in, and
/// nobody else is told anything.
pub proof fn count_is_told(
    port: u16,
    pool_size: u16,
    running: Seq<char>,
    events: Seq<ListenerEvent>,
    respond_to: SyncSender<u128>,
)
    requires
        events.len() > 0,
        listener_possible(port, pool_size, running, events),
        events.last() == ListenerEvent::Polled(Some(ProxyRequest::ConnectionCount { respond_to })),
    ensures
        last_deeds(port, pool_size, running, events) == seq![
            Deed::ReplyConnectionCount { respond_to, count: number(incoming(events)) },
        ],
{
    count_is_last_number(port, pool_size, running, events.drop_last());
}

/// Whoever asks for the status is told the text for a running module that the listener was started
/// with, and the message that the report of its startup gave, and nobody else is told anything.
pub proof fn status_is_told(
    port: u16,
    pool_size: u16,
    running: Seq<char>,
    events: Seq<ListenerEvent>,
    respond_to: SyncSender<ProxyAgentDetailStatus>,
)
    requires
        events.len() > 0,
        listener_possible(port, pool_size, running, events),
        events.last() == ListenerEvent::Polled(Some(ProxyRequest::Status { respond_to })),
    ensures
        events.len() >= 3,
        events[1] matches ListenerEvent::StartupReported(startup) && last_deeds(
            port,
            pool_size,
            running,
            events,
        ) == seq![
            Deed::ReplyStatus { respond_to, state: running, message: startup@, states: None },
        ],
{
    let earlier = events.drop_last();
    running_state_is_kept(port, pool_size, running, earlier);
    status_is_that_of_startup(port, pool_size, running, earlier);
    assert(earlier[1] == events[1]);
}

/// A listener binds its port on all local addresses, and says so first.
pub proof fn listener_binds_all_addresses(port: u16, pool_size: u16, running: Seq<char>)
    ensures
        ({
            let begin = listener_start(port, pool_size, running);
            &&& begin.listener.addr.take(8) == "0.0.0.0:"@
            &&& decimal_value(begin.listener.addr.skip(8)) == port
            &&& begin.listener.connection_count == 0
            &&& begin.listener.join_requests.len() == 0
            &&& begin.listener.status_message.len() == 0
            &&& begin.listener.call is Bind
            &&& begin.deeds == seq![
                Deed::InitConnectionLog,
                Deed::Log {
                    level: LogLevel::Message,
                    message: "Start proxy listener at '"@ + begin.listener.addr + "'."@,
                },
            ]
        }),
{
    let addr = listener_start(port, pool_size, running).listener.addr;
    reveal_strlit("0.0.0.0:");
    decimal_reads_back(port as nat);
    assert(addr.take(8) =~= "0.0.0.0:"@);
    assert(addr.skip(8) =~= decimal(port as nat));
}

/// A listener that has bound its address makes a pool of the size that it was started with, once its
/// startup is reported.
pub proof fn pool_has_the_given_size(
    port: u16,
    pool_size: u16,
    running: Seq<char>,
    events: Seq<ListenerEvent>,
)
    requires
        events.len() > 0,
        listener_possible(port, pool_size, running, events),
        events.last() is StartupReported,
    ensures
        events.len() == 2,
        last_deeds(port, pool_size, running, events) == seq![
            Deed::ListenerStarted,
            Deed::CreatePool { size: pool_size as usize },
        ],
{
    start_values_are_kept(port, pool_size, running, events.drop_last());
    startup_is_second(port, pool_size, running, events.drop_last());
}

/// A listener that cannot bind its address says which and why, as an error, and keeps that as its
/// status message.
pub proof fn failed_bind_is_told(
    port: u16,
    pool_size: u16,
    running: Seq<char>,
    events: Seq<ListenerEvent>,
    error: String,
)
    requires
        events.len() > 0,
        listener_possible(port, pool_size, running, events),
        events.last() == ListenerEvent::Bound(Err(error)),
    ensures
        ({
            let message = "Failed to bind TcpListener '"@ + ("0.0.0.0:"@ + decimal(port as nat))
                + "' with error "@ + error@ + "."@;
            &&& last_deeds(port, pool_size, running, events) == seq![
                Deed::Log { level: LogLevel::Error, message },
            ]
            &&& listener_run(port, pool_size, running, events).status_message == message
        }),
{
    start_values_are_kept(port, pool_size, running, events.drop_last());
}

/// What the listener waits for follows from the last event alone: it reports its startup once it is
/// bound, takes requests until there are none, accepts one connection, whether or not that works, and
/// takes requests again.
pub proof fn last_event_decides_the_call(
    port: u16,
    pool_size: u16,
    running: Seq<char>,
    events: Seq<ListenerEvent>,
)
    requires
        events.len() > 0,
        listener_possible(port, pool_size, running, events),
    ensures
        ({
            let call = listener_run(port, pool_size, running, events).call;
            match events.last() {
                ListenerEvent::Bound(Ok(_)) => call is ReportStartup,
                ListenerEvent::Bound(Err(_)) => call is Stopped,
                ListenerEvent::StartupReported(_) => call is PollRequest,
                ListenerEvent::Polled(None) => call is Accept,
                ListenerEvent::Polled(Some(ProxyRequest::Stop)) => call is Stopped,
                ListenerEvent::Polled(Some(_)) => call is PollRequest,
                ListenerEvent::Accepted(_) => call is PollRequest,
            }
        }),
    decreases events.len(),
{
    if events.len() > 1 {
        last_event_decides_the_call(port, pool_size, running, events.drop_last());
    }
}

/// What an event has a listener do follows from the event and from what the listener holds: a
/// connection is handled under the number that the listener then counts, one that could not be
/// accepted is only told in the log, and those who ask get what the listener holds.
pub proof fn deeds_follow_the_event(listener: ListenerState, happened: ListenerEvent)
    ensures
        ({
            let step = listener_next(listener, happened);
            match happened {
                ListenerEvent::Bound(Ok(_)) => step.deeds.len() == 0,
                ListenerEvent::Bound(Err(error)) => step.deeds == seq![
                    Deed::Log {
                        level: LogLevel::Error,
                        message: "Failed to bind TcpListener '"@ + listener.addr
                            + "' with error "@ + error@ + "."@,
                    },
                ],
                ListenerEvent::StartupReported(_) => step.deeds == seq![
                    Deed::ListenerStarted,
                    Deed::CreatePool { size: listener.pool_size as usize },
                ],
                ListenerEvent::Polled(None) => step.deeds.len() == 0,
                ListenerEvent::Polled(Some(ProxyRequest::Status { respond_to })) => step.deeds
                    == seq![
                    Deed::ReplyStatus {
                        respond_to,
                        state: listener.running_state,
                        message: listener.status_message,
                        states: None,
                    },
                ],
                ListenerEvent::Polled(Some(ProxyRequest::ConnectionCount { respond_to })) =>
                    step.deeds == seq![
                    Deed::ReplyConnectionCount { respond_to, count: listener.connection_count },
                ],
                ListenerEvent::Polled(Some(ProxyRequest::Join { .. })) => step.deeds.len() == 0,
                ListenerEvent::Polled(Some(ProxyRequest::Stop)) => {
                    &&& step.deeds.len() == 3
                    &&& step.deeds[0] == (Deed::Log {
                        level: LogLevel::Warning,
                        message: "Stop signal received, stopping the listener."@,
                    })
                    &&& step.deeds[1] == (Deed::Release { waiting: listener.join_requests })
                    &&& step.deeds[2] == (Deed::Log {
                        level: LogLevel::Message,
                        message: "ProxyListener stopped accepting new request."@,
                    })
                },
                ListenerEvent::Accepted(Ok(_)) => step.deeds == seq![
                    Deed::HandleConnection { id: step.listener.connection_count },
                ],
                ListenerEvent::Accepted(Err(error)) => step.deeds == seq![
                    Deed::Log {
                        level: LogLevel::Warning,
                        message: "Incoming connection with error "@ + error@ + "; ignore it."@,
                    },
                ],
            }
        }),
{
}

/// A listener that is asked to stop says so, lets everyone go who waits for that, in the order in
/// which they asked, and says that it has stopped.
pub proof fn stop_is_told(
    port: u16,
    pool_size: u16,
    running: Seq<char>,
    events: Seq<ListenerEvent>,
)
    requires
        events.len() > 0,
        listener_possible(port, pool_size, running, events),
        events.last() == ListenerEvent::Polled(Some(ProxyRequest::Stop)),
    ensures
        last_deeds(port, pool_size, running, events) == seq![
            Deed::Log {
                level: LogLevel::Warning,
                message: "Stop signal received, stopping the listener."@,
            },
            Deed::Release { waiting: joins(events) },
            Deed::Log {
                level: LogLevel::Message,
                message: "ProxyListener stopped accepting new request."@,
            },
        ],
{
    waiting_are_kept(port, pool_size, running, events.drop_last());
}

/// Every event changes what it tells of and nothing else of the listener. A connection adds one to
/// the number of connections, or makes it one after the largest, whether or not it could be accepted.
pub proof fn the_rest_of_the_listener_is_kept(listener: ListenerState, happened: ListenerEvent)
    ensures
        ({
            let next = listener_next(listener, happened).listener;
            match happened {
                ListenerEvent::Bound(Ok(_)) => next == (ListenerState {
                    call: ListenerCall::ReportStartup,
                    ..listener
                }),
                ListenerEvent::Bound(Err(error)) => next == (ListenerState {
                    status_message: "Failed to bind TcpListener '"@ + listener.addr
                        + "' with error "@ + error@ + "."@,
                    call: ListenerCall::Stopped,
                    ..listener
                }),
                ListenerEvent::StartupReported(message) => next == (ListenerState {
                    status_message: message@,
                    call: ListenerCall::PollRequest,
                    ..listener
                }),
                ListenerEvent::Polled(None) => next == (ListenerState {
                    call: ListenerCall::Accept,
                    ..listener
                }),
                ListenerEvent::Polled(Some(ProxyRequest::Status { .. })) => next == listener,
                ListenerEvent::Polled(Some(ProxyRequest::ConnectionCount { .. })) => next
                    == listener,
                ListenerEvent::Polled(Some(ProxyRequest::Join { respond_to })) => next == (
                ListenerState {
                    join_requests: listener.join_requests + seq![respond_to],
                    ..listener
                }),
                ListenerEvent::Polled(Some(ProxyRequest::Stop)) => next == (ListenerState {
                    status_message: "Stop signal received, stopping the listener."@,
                    join_requests: seq![],
                    call: ListenerCall::Stopped,
                    ..listener
                }),
                ListenerEvent::Accepted(_) => {
                    &&& next == (ListenerState {
                        connection_count: next.connection_count,
                        call: ListenerCall::PollRequest,
                        ..listener
                    })
                    &&& next.connection_count == (if listener.connection_count < u128::MAX {
                        listener.connection_count + 1
                    } else {
                        1
                    })
                },
            }
        }),
{
    if let ListenerEvent::Polled(Some(ProxyRequest::Join { respond_to })) = happened {
        assert(listener.join_requests.push(respond_to) =~= listener.join_requests + seq![
            respond_to,
        ]);
    }
}

/// Every call of the listener but the last takes exactly the event that tells what came of it,
/// whatever that was.
pub proof fn listener_calls_take_their_events(
    bound: Result<(), String>,
    message: String,
    request: Option<ProxyRequest>,
    accepted: Result<(), String>,
    call: ListenerCall,
)
    ensures
        listener_answers(call, ListenerEvent::Bound(bound)) == (call is Bind),
        listener_answers(call, ListenerEvent::StartupReported(message)) == (call is ReportStartup),
        listener_answers(call, ListenerEvent::Polled(request)) == (call is PollRequest),
        listener_answers(call, ListenerEvent::Accepted(accepted)) == (call is Accept),
{
}

/// What a listener asks for and what it holds are seen as they are.
pub proof fn listener_views_are_faithful(effect: ListenerEffect, listener: Listener)
    ensures
        match effect {
            ListenerEffect::InitConnectionLog => effect.deep_view() == Deed::InitConnectionLog,
            ListenerEffect::Log { level, message } => effect.deep_view() == (Deed::Log {
                level,
                message: message@,
            }),
            ListenerEffect::ListenerStarted => effect.deep_view() == Deed::ListenerStarted,
            ListenerEffect::CreatePool { size } => effect.deep_view() == (Deed::CreatePool {
                size,
            }),
            ListenerEffect::ReplyStatus { respond_to, status } => effect.deep_view() == (
            Deed::ReplyStatus {
                respond_to,
                state: status.status@,
                message: status.message@,
                states: status.states.deep_view(),
            }),
            ListenerEffect::ReplyConnectionCount { respond_to, count } => effect.deep_view() == (
            Deed::ReplyConnectionCount { respond_to, count }),
            ListenerEffect::HandleConnection { id } => effect.deep_view() == (
            Deed::HandleConnection { id }),
            ListenerEffect::Release { waiting } => effect.deep_view() == (Deed::Release {
                waiting: waiting@,
            }),
        },
        listener@.addr == listener.addr@,
        listener@.pool_size == listener.pool_size,
        listener@.running_state == listener.running_state@,
        listener@.status_message == listener.status_message@,
        listener@.connection_count == listener.connection_count,
        listener@.join_requests == listener.join_requests@,
        listener@.call == listener.call,
{
}

} // verus!
