//! What holds of a proxied connection over all its events.

use vstd::prelude::*;

verus! {

use crate::connection_model::{
    accepted,
    add_header,
    answers,
    authorization_value,
    claims_header_value,
    connection_next,
    elevated,
    mark,
    respond,
    summary,
    Outcome,
};
use crate::proxy_connection::{
    status_text,
    Call,
    Connection,
    Effect,
    Event,
    ProtocolNames,
    Status,
    AUTHORIZATION_HEADER,
    CLAIMS_HEADER,
};

/// What a connection comes to after `events`: its state, and all that was asked to be done.
pub open spec fn run(names: ProtocolNames, start: Connection, events: Seq<Event>) -> Outcome
    decreases events.len(),
{
    if events.len() == 0 {
        Outcome { connection: start, effects: seq![] }
    } else {
        let before = run(names, start, events.drop_last());
        let step = connection_next(names, before.connection, events.last());
        Outcome { connection: step.connection, effects: before.effects + step.effects }
    }
}

/// Whether each of `events` tells what came of the call that the connection then waited for.
pub open spec fn possible(names: ProtocolNames, start: Connection, events: Seq<Event>) -> bool
    decreases events.len(),
{
    events.len() == 0 || (possible(names, start, events.drop_last()) && answers(
        run(names, start, events.drop_last()).connection.call,
        events.last(),
    ))
}

/// How many events a connection that waits for `call` can still see.
pub open spec fn events_left(call: Call) -> nat {
    match call {
        Call::ReceiveRequest { .. } => 16,
        Call::PeerAddress => 15,
        Call::LookupAudit { .. } => 14,
        Call::AuditFromStream => 13,
        Call::BuildClaims => 12,
        Call::FindAuthenticator => 11,
        Call::Authenticate => 10,
        Call::ConnectServer => 9,
        Call::SkipSignature => 8,
        Call::ExpectContinue => 7,
        Call::ContentLength => 6,
        Call::ReceiveBody { .. } => 5,
        Call::CurrentKey => 4,
        Call::ComputeSignature => 3,
        Call::ForwardResponse { after_continue } => if after_continue {
            1
        } else {
            2
        },
        Call::ReceiveResponse { after_continue } => if after_continue {
            1
        } else {
            4
        },
        Call::StreamLength => 3,
        Call::StreamBody { .. } => 2,
        Call::Closed => 0,
    }
}

/// A connection comes to its end: it sees at most sixteen events, and keeps its number and the time
/// when it was accepted.
pub proof fn connection_ends(names: ProtocolNames, start: Connection, id: u128, events: Seq<Event>)
    requires
        accepted(start, id),
        possible(names, start, events),
    ensures
        events.len() + events_left(run(names, start, events).connection.call) <= 16,
        run(names, start, events).connection.id == id,
        run(names, start, events).connection.now == start.now,
    decreases events.len(),
{
    if events.len() > 0 {
        connection_ends(names, start, id, events.drop_last());
    }
}

/// Whether an effect sends something to the host.
pub open spec fn to_host(effect: Effect<Seq<char>>) -> bool {
    effect is SendRequest || effect is SendRequestBody
}

/// Whether the access was judged and allowed.
pub open spec fn allowed(events: Seq<Event>) -> bool {
    exists|i: int| 0 <= i < events.len() && (#[trigger] events[i] matches Event::Authenticated {
        allowed: true,
    })
}

/// Whether a connection that waits for `call` is being judged.
pub open spec fn at_judgement(call: Call) -> bool {
    call is FindAuthenticator || call is Authenticate
}

/// Whether a connection that waits for `call` has the judgement of its access still before it.
pub open spec fn before_judgement(call: Call) -> bool {
    match call {
        Call::ReceiveRequest { .. } => true,
        Call::PeerAddress => true,
        Call::LookupAudit { .. } => true,
        Call::AuditFromStream => true,
        Call::BuildClaims => true,
        Call::FindAuthenticator => true,
        Call::Authenticate => true,
        _ => false,
    }
}

/// Nothing is sent to the host, nor is a connection to it opened, unless the access was allowed.
pub proof fn host_sees_only_allowed_requests(
    names: ProtocolNames,
    start: Connection,
    id: u128,
    events: Seq<Event>,
)
    requires
        accepted(start, id),
        possible(names, start, events),
    ensures
        forall|k: int|
            0 <= k < run(names, start, events).effects.len() && to_host(
                #[trigger] run(names, start, events).effects[k],
            ) ==> allowed(events),
        !before_judgement(run(names, start, events).connection.call) && !(run(
            names,
            start,
            events,
        ).connection.call is Closed) ==> allowed(events),
    decreases events.len(),
{
    if events.len() > 0 {
        let earlier = events.drop_last();
        let before = run(names, start, earlier);
        let step = connection_next(names, before.connection, events.last());
        host_sees_only_allowed_requests(names, start, id, earlier);
        if allowed(earlier) {
            let i = choose|i: int|
                0 <= i < earlier.len() && (#[trigger] earlier[i] matches Event::Authenticated {
                    allowed: true,
                });
            assert(events[i] == earlier[i]);
            assert(allowed(events));
        } else if events.last() matches Event::Authenticated { allowed: true } {
            assert(events[events.len() - 1] == events.last());
            assert(allowed(events));
        }
        let all = run(names, start, events).effects;
        assert forall|k: int| 0 <= k < all.len() && to_host(#[trigger] all[k]) implies allowed(
            events,
        ) by {
            if k < before.effects.len() {
                assert(all[k] == before.effects[k]);
            } else {
                assert(all[k] == step.effects[k - before.effects.len()]);
            }
        }
    }
}

/// Whether a connection that waits for `call` has sent no request to the host yet.
pub open spec fn before_sending(call: Call) -> bool {
    match call {
        Call::ForwardResponse { .. } => false,
        Call::ReceiveResponse { .. } => false,
        Call::StreamLength => false,
        Call::StreamBody { .. } => false,
        _ => true,
    }
}

/// A connection sends its request to the host at most once.
pub proof fn request_is_sent_once(
    names: ProtocolNames,
    start: Connection,
    id: u128,
    events: Seq<Event>,
)
    requires
        accepted(start, id),
        possible(names, start, events),
    ensures
        forall|j: int, k: int|
            0 <= j < run(names, start, events).effects.len() && 0 <= k < run(
                names,
                start,
                events,
            ).effects.len() && (#[trigger] run(names, start, events).effects[j] is SendRequest) && (
            #[trigger] run(names, start, events).effects[k] is SendRequest) ==> j == k,
        before_sending(run(names, start, events).connection.call) && !(run(
            names,
            start,
            events,
        ).connection.call is Closed) ==> forall|k: int|
            0 <= k < run(names, start, events).effects.len() ==> !(#[trigger] run(
                names,
                start,
                events,
            ).effects[k] is SendRequest),
    decreases events.len(),
{
    if events.len() > 0 {
        let earlier = events.drop_last();
        let before = run(names, start, earlier);
        let step = connection_next(names, before.connection, events.last());
        request_is_sent_once(names, start, id, earlier);
        let all = run(names, start, events).effects;
        let n = before.effects.len();
        assert forall|j: int, k: int|
            0 <= j < all.len() && 0 <= k < all.len() && (#[trigger] all[j] is SendRequest) && (
            #[trigger] all[k] is SendRequest) implies j == k by {
            assert(j < n ==> all[j] == before.effects[j]);
            assert(k < n ==> all[k] == before.effects[k]);
            assert(j >= n ==> all[j] == step.effects[j - n]);
            assert(k >= n ==> all[k] == step.effects[k - n]);
        }
        assert forall|k: int|
            0 <= k < all.len() && before_sending(step.connection.call) && !(
            step.connection.call is Closed) implies !(#[trigger] all[k] is SendRequest) by {
            assert(k < n ==> all[k] == before.effects[k]);
            assert(k >= n ==> all[k] == step.effects[k - n]);
        }
    }
}

proof fn step_keeps_judged_access(names: ProtocolNames, connection: Connection, happened: Event)
    requires
        answers(connection.call, happened),
        at_judgement(connection.call) || !before_judgement(connection.call),
    ensures
        ({
            let after = connection_next(names, connection, happened).connection;
            &&& after.claims == connection.claims
            &&& after.ip == connection.ip
            &&& after.port == connection.port
            &&& after.method == connection.method
            &&& after.url == connection.url
            &&& at_judgement(after.call) || !before_judgement(after.call)
        }),
{
}

/// Once the access of a connection is to be judged, what it is judged by stays as it is to the end:
/// the claims, the destination, the method and the URL. So the host that a request goes to is the
/// one that was judged.
pub proof fn judged_access_is_kept(
    names: ProtocolNames,
    start: Connection,
    events: Seq<Event>,
    n: int,
)
    requires
        possible(names, start, events),
        0 <= n <= events.len(),
        at_judgement(run(names, start, events.take(n)).connection.call),
    ensures
        ({
            let judged = run(names, start, events.take(n)).connection;
            let end = run(names, start, events).connection;
            &&& end.claims == judged.claims
            &&& end.ip == judged.ip
            &&& end.port == judged.port
            &&& end.method == judged.method
            &&& end.url == judged.url
            &&& at_judgement(end.call) || !before_judgement(end.call)
        }),
    decreases events.len(),
{
    if n == events.len() {
        assert(events.take(n) =~= events);
    } else {
        let earlier = events.drop_last();
        assert(earlier.take(n) =~= events.take(n));
        judged_access_is_kept(names, start, earlier, n);
        step_keeps_judged_access(names, run(names, start, earlier).connection, events.last());
    }
}

/// Whether the claims header and, right after it, the date header of the request stand in `effects`
/// before `end`.
pub open spec fn announced(
    names: ProtocolNames,
    connection: Connection,
    events: Seq<Event>,
    effects: Seq<Effect<Seq<char>>>,
    end: int,
) -> bool {
    exists|i: int, date: String| #[trigger]
        announced_at(names, connection, events, effects, i, date) && i + 1 < end
}

pub open spec fn announced_at(
    names: ProtocolNames,
    connection: Connection,
    events: Seq<Event>,
    effects: Seq<Effect<Seq<char>>>,
    i: int,
    date: String,
) -> bool {
    &&& 0 <= i
    &&& i + 1 < effects.len()
    &&& effects[i] == add_header(CLAIMS_HEADER@, claims_header_value(names, elevated(connection)))
    &&& effects[i + 1] == add_header(names.date_header@, date@)
    &&& events.contains(Event::ServerConnected(Ok(date)))
}

proof fn still_announced(
    names: ProtocolNames,
    before: Outcome,
    after: Outcome,
    events: Seq<Event>,
    end: int,
)
    requires
        events.len() > 0,
        announced(names, before.connection, events.drop_last(), before.effects, end),
        before.effects.is_prefix_of(after.effects),
        after.connection.claims == before.connection.claims,
    ensures
        announced(names, after.connection, events, after.effects, end),
{
    let (i, date) = choose|i: int, date: String| #[trigger]
        announced_at(names, before.connection, events.drop_last(), before.effects, i, date) && i + 1
            < end;
    let connected = Event::ServerConnected(Ok(date));
    let k = choose|k: int| 0 <= k < events.drop_last().len() && events.drop_last()[k] == connected;
    assert(events[k] == connected);
    assert(announced_at(names, after.connection, events, after.effects, i, date));
}

/// A request goes to the host only after the header with the claims of the caller, and the one with
/// the date, were added to it.
pub proof fn sent_request_is_announced(
    names: ProtocolNames,
    start: Connection,
    id: u128,
    events: Seq<Event>,
)
    requires
        accepted(start, id),
        possible(names, start, events),
    ensures
        ({
            let end = run(names, start, events);
            &&& forall|k: int|
                0 <= k < end.effects.len() && (#[trigger] end.effects[k] is SendRequest)
                    ==> announced(names, end.connection, events, end.effects, k)
            &&& !before_judgement(end.connection.call) && !(end.connection.call is Closed) && !(
            end.connection.call is ConnectServer) ==> announced(
                names,
                end.connection,
                events,
                end.effects,
                end.effects.len() as int,
            )
        }),
    decreases events.len(),
{
    if events.len() > 0 {
        let earlier = events.drop_last();
        let before = run(names, start, earlier);
        let step = connection_next(names, before.connection, events.last());
        let after = run(names, start, events);
        let n = before.effects.len() as int;
        sent_request_is_announced(names, start, id, earlier);
        request_is_sent_once(names, start, id, earlier);
        if before_judgement(before.connection.call) {
            assert forall|k: int| 0 <= k < after.effects.len() implies !(
            #[trigger] after.effects[k] is SendRequest) by {
                assert(k < n ==> after.effects[k] == before.effects[k]);
                assert(k >= n ==> after.effects[k] == step.effects[k - n]);
            }
        } else {
            step_keeps_judged_access(names, before.connection, events.last());
            if announced(names, before.connection, earlier, before.effects, n) {
                still_announced(names, before, after, events, n);
                let (i, date) = choose|i: int, date: String| #[trigger]
                    announced_at(names, after.connection, events, after.effects, i, date) && i + 1
                        < n;
                assert(announced_at(names, after.connection, events, after.effects, i, date));
            }
            if let Event::ServerConnected(Ok(date)) = events.last() {
                assert(events[events.len() - 1] == events.last());
                assert(after.effects[n] == step.effects[0]);
                assert(after.effects[n + 1] == step.effects[1]);
                assert(announced_at(names, after.connection, events, after.effects, n, date));
            }
            assert forall|k: int|
                0 <= k < after.effects.len() && (
                #[trigger] after.effects[k] is SendRequest) implies announced(
                names,
                after.connection,
                events,
                after.effects,
                k,
            ) by {
                if k < n {
                    assert(after.effects[k] == before.effects[k]);
                    still_announced(names, before, after, events, k);
                } else {
                    assert(after.effects[k] == step.effects[k - n]);
                }
            }
        }
    }
}

/// Whether something excuses a request without a signature: it may go without one, there is no key,
/// or the signature could not be computed.
pub open spec fn excused(events: Seq<Event>) -> bool {
    exists|i: int| 0 <= i < events.len() && excuse(#[trigger] events[i])
}

pub open spec fn excuse(happened: Event) -> bool {
    match happened {
        Event::SkipSignature { skip, .. } => skip,
        Event::CurrentKey(key) => key@.len() == 0,
        Event::Signed(signing) => signing.signature is Err,
        _ => false,
    }
}

/// Whether the authorization header with a signature that was computed stands in `effects` before
/// `end`.
pub open spec fn authorized(
    names: ProtocolNames,
    events: Seq<Event>,
    effects: Seq<Effect<Seq<char>>>,
    end: int,
) -> bool {
    exists|i: int, j: int|
        0 <= i < end && 0 <= j < events.len() && (#[trigger] events[j] matches Event::Signed(signing)
            && signing.signature matches Ok(signature) && #[trigger] effects[i] == add_header(
            AUTHORIZATION_HEADER@,
            authorization_value(names, signature.key_guid@, signature.value@),
        ))
}

/// A request goes to the host with the authorization header, unless something excuses it.
pub proof fn sent_request_is_signed(
    names: ProtocolNames,
    start: Connection,
    id: u128,
    events: Seq<Event>,
)
    requires
        accepted(start, id),
        possible(names, start, events),
        !excused(events),
    ensures
        ({
            let end = run(names, start, events);
            forall|k: int|
                0 <= k < end.effects.len() && (#[trigger] end.effects[k] is SendRequest)
                    ==> authorized(names, events, end.effects, k)
        }),
    decreases events.len(),
{
    if events.len() > 0 {
        let earlier = events.drop_last();
        let before = run(names, start, earlier);
        let step = connection_next(names, before.connection, events.last());
        let after = run(names, start, events);
        let n = before.effects.len() as int;
        assert(!excused(earlier)) by {
            if excused(earlier) {
                let i = choose|i: int| 0 <= i < earlier.len() && excuse(#[trigger] earlier[i]);
                assert(excuse(events[i]));
            }
        }
        sent_request_is_signed(names, start, id, earlier);
        assert(!excuse(events[events.len() - 1]));
        assert forall|k: int|
            0 <= k < after.effects.len() && (#[trigger] after.effects[k] is SendRequest) implies authorized(
            names,
            events,
            after.effects,
            k,
        ) by {
            if k < n {
                assert(after.effects[k] == before.effects[k]);
                assert(authorized(names, earlier, before.effects, k));
                let (i, j) = choose|i: int, j: int|
                    0 <= i < k && 0 <= j < earlier.len() && (
                    #[trigger] earlier[j] matches Event::Signed(signing)
                        && signing.signature matches Ok(signature) && #[trigger] before.effects[i]
                        == add_header(
                        AUTHORIZATION_HEADER@,
                        authorization_value(names, signature.key_guid@, signature.value@),
                    ));
                assert(events[j] == earlier[j]);
                assert(after.effects[i] == before.effects[i]);
            } else {
                assert(after.effects[k] == step.effects[k - n]);
                assert(events[events.len() - 1] is Signed);
                assert(after.effects[n + 1] == step.effects[1]);
            }
        }
    }
}

/// Whether an effect that has a response reach the client marks it as one that went through the
/// proxy.
pub open spec fn marked(effect: Effect<Seq<char>>) -> bool {
    match effect {
        Effect::Respond { header, .. } => header == mark(),
        Effect::ReturnResponse(header) => header == mark(),
        Effect::MarkForwarded(header) => header == mark(),
        _ => true,
    }
}

proof fn step_is_marked(names: ProtocolNames, connection: Connection, happened: Event)
    requires
        answers(connection.call, happened),
    ensures
        ({
            let step = connection_next(names, connection, happened);
            &&& forall|k: int| 0 <= k < step.effects.len() ==> marked(#[trigger] step.effects[k])
            &&& step.connection.call is ForwardResponse && !(connection.call is ForwardResponse)
                ==> step.effects.len() > 0 && step.effects.last() == Effect::MarkForwarded(mark())
        }),
{
}

/// Every response that reaches a client, made by the proxy or by the host, carries the header that
/// lets the client know it went through the proxy.
pub proof fn responses_are_marked(
    names: ProtocolNames,
    start: Connection,
    id: u128,
    events: Seq<Event>,
)
    requires
        accepted(start, id),
        possible(names, start, events),
    ensures
        ({
            let end = run(names, start, events);
            &&& forall|k: int| 0 <= k < end.effects.len() ==> marked(#[trigger] end.effects[k])
            &&& end.connection.call is ForwardResponse ==> end.effects.contains(
                Effect::MarkForwarded(mark()),
            )
        }),
    decreases events.len(),
{
    if events.len() > 0 {
        let before = run(names, start, events.drop_last());
        let step = connection_next(names, before.connection, events.last());
        let after = run(names, start, events);
        let n = before.effects.len() as int;
        responses_are_marked(names, start, id, events.drop_last());
        step_is_marked(names, before.connection, events.last());
        assert forall|k: int| 0 <= k < after.effects.len() implies marked(
            #[trigger] after.effects[k],
        ) by {
            assert(k < n ==> after.effects[k] == before.effects[k]);
            assert(k >= n ==> after.effects[k] == step.effects[k - n]);
        }
        if step.connection.call is ForwardResponse {
            let m = Effect::MarkForwarded(mark());
            if before.connection.call is ForwardResponse {
                let k = choose|k: int| 0 <= k < n && before.effects[k] == m;
                assert(after.effects[k] == m);
            } else {
                let last = step.effects.len() - 1;
                assert(after.effects[n + last] == m);
            }
        }
    }
}

/// Every answer that the proxy itself gives, but for the one that asks for a body, is followed by a
/// summary with the same status.
pub proof fn answers_are_summarized(
    names: ProtocolNames,
    start: Connection,
    id: u128,
    events: Seq<Event>,
)
    requires
        accepted(start, id),
        possible(names, start, events),
    ensures
        ({
            let end = run(names, start, events);
            forall|k: int|
                0 <= k < end.effects.len() ==> (
                #[trigger] end.effects[k] matches Effect::Respond { status, .. } ==> status
                    == Status::Continue || (k + 1 < end.effects.len() && end.effects[k + 1]
                    == summary(status_text(status))))
        }),
    decreases events.len(),
{
    if events.len() > 0 {
        let before = run(names, start, events.drop_last());
        let step = connection_next(names, before.connection, events.last());
        let after = run(names, start, events);
        let n = before.effects.len() as int;
        answers_are_summarized(names, start, id, events.drop_last());
        assert forall|k: int| 0 <= k < after.effects.len() implies (
        #[trigger] after.effects[k] matches Effect::Respond { status, .. } ==> status
            == Status::Continue || (k + 1 < after.effects.len() && after.effects[k + 1] == summary(
            status_text(status),
        ))) by {
            if k < n {
                assert(after.effects[k] == before.effects[k]);
                assert(k + 1 < n ==> after.effects[k + 1] == before.effects[k + 1]);
            } else {
                assert(after.effects[k] == step.effects[k - n]);
                assert(k - n + 1 < step.effects.len() ==> after.effects[k + 1] == step.effects[k - n
                    + 1]);
            }
        }
    }
}

/// Whether an event ends a connection that cannot be answered: its request or its address could not
/// be read.
pub open spec fn unreadable(happened: Event) -> bool {
    (happened matches Event::RequestReceived(Err(_))) || (happened matches Event::PeerAddress(
        Err(_),
    ))
}

/// The status with which a connection that ends before the host sees it is answered: forbidden where
/// the access was denied, else misdirected.
pub open spec fn refusal(happened: Event) -> Status {
    if happened is Authenticated {
        Status::Forbidden
    } else {
        Status::Misdirected
    }
}

proof fn unanswered_before_sending(
    names: ProtocolNames,
    start: Connection,
    id: u128,
    events: Seq<Event>,
)
    requires
        accepted(start, id),
        possible(names, start, events),
        !(run(names, start, events).connection.call is Closed),
    ensures
        ({
            let end = run(names, start, events);
            before_judgement(end.connection.call) || end.connection.call is ConnectServer
                || end.connection.call is SkipSignature ==> forall|k: int|
                0 <= k < end.effects.len() ==> !(#[trigger] end.effects[k] is Respond)
        }),
    decreases events.len(),
{
    if events.len() > 0 {
        let before = run(names, start, events.drop_last());
        let step = connection_next(names, before.connection, events.last());
        let after = run(names, start, events);
        let n = before.effects.len() as int;
        assert(!(before.connection.call is Closed));
        unanswered_before_sending(names, start, id, events.drop_last());
        assert forall|k: int|
            0 <= k < after.effects.len() && (before_judgement(after.connection.call)
                || after.connection.call is ConnectServer
                || after.connection.call is SkipSignature) implies !(
        #[trigger] after.effects[k] is Respond) by {
            assert(k < n ==> after.effects[k] == before.effects[k]);
            assert(k >= n ==> after.effects[k] == step.effects[k - n]);
        }
    }
}

/// A connection that ends although nothing was sent to the host was refused. It is answered exactly
/// once and summarized exactly once, at its end: with 403 where the access was denied, with 421 where there is no audit entry,
/// no claims text or no connection to the host. Only where its request or its address could not be
/// read does it end without an answer.
pub proof fn refused_connection_is_answered(
    names: ProtocolNames,
    start: Connection,
    id: u128,
    events: Seq<Event>,
)
    requires
        accepted(start, id),
        possible(names, start, events),
        run(names, start, events).connection.call is Closed,
        forall|k: int|
            0 <= k < run(names, start, events).effects.len() ==> !(#[trigger] run(
                names,
                start,
                events,
            ).effects[k] is SendRequest),
    ensures
        ({
            let effects = run(names, start, events).effects;
            let n = effects.len();
            if unreadable(events.last()) {
                forall|k: int|
                    0 <= k < n ==> !(#[trigger] effects[k] is Respond) && !(
                    effects[k] is LogSummary)
            } else {
                &&& n >= 2
                &&& effects[n - 2] == respond(refusal(events.last()))
                &&& effects[n - 1] == summary(status_text(refusal(events.last())))
                &&& forall|k: int|
                    0 <= k < n - 2 ==> !(#[trigger] effects[k] is Respond) && !(
                    effects[k] is LogSummary)
            }
        }),
{
    let earlier = events.drop_last();
    let before = run(names, start, earlier);
    let step = connection_next(names, before.connection, events.last());
    let after = run(names, start, events);
    let n = before.effects.len() as int;
    assert forall|k: int| 0 <= k < n implies !(#[trigger] before.effects[k] is SendRequest) by {
        assert(after.effects[k] == before.effects[k]);
    }
    if !before_sending(before.connection.call) {
        sent_unless_waiting(names, start, id, earlier);
    }
    assert forall|k: int| 0 <= k < step.effects.len() implies !(
    #[trigger] step.effects[k] is SendRequest) by {
        assert(after.effects[n + k] == step.effects[k]);
    }
    unanswered_before_sending(names, start, id, earlier);
    unsummarized_before_end(names, start, id, earlier);
    step_summarizes_at_the_end(names, before.connection, events.last());
    assert forall|k: int| 0 <= k < after.effects.len() implies #[trigger] after.effects[k] == (if k
        < n {
        before.effects[k]
    } else {
        step.effects[k - n]
    }) by {}
}

/// A connection that waits for the host has sent its request.
proof fn sent_unless_waiting(
    names: ProtocolNames,
    start: Connection,
    id: u128,
    events: Seq<Event>,
)
    requires
        accepted(start, id),
        possible(names, start, events),
        !before_sending(run(names, start, events).connection.call),
    ensures
        exists|k: int|
            0 <= k < run(names, start, events).effects.len() && (#[trigger] run(
                names,
                start,
                events,
            ).effects[k] is SendRequest),
    decreases events.len(),
{
    let before = run(names, start, events.drop_last());
    let step = connection_next(names, before.connection, events.last());
    let after = run(names, start, events);
    let n = before.effects.len() as int;
    if before_sending(before.connection.call) {
        let k = if events.last() is SkipSignature {
            1
        } else {
            step.effects.len() - 2
        };
        assert(step.effects[k] is SendRequest);
        assert(after.effects[n + k] == step.effects[k]);
    } else {
        sent_unless_waiting(names, start, id, events.drop_last());
        let k = choose|k: int| 0 <= k < n && (#[trigger] before.effects[k] is SendRequest);
        assert(after.effects[k] == before.effects[k]);
    }
}

/// A connection that ends is recorded in a summary, unless its request or its address could not be
/// read or the response of the host could not be forwarded.
pub proof fn ended_connection_is_summarized(
    names: ProtocolNames,
    start: Connection,
    id: u128,
    events: Seq<Event>,
)
    requires
        accepted(start, id),
        possible(names, start, events),
        run(names, start, events).connection.call is Closed,
    ensures
        run(names, start, events).effects.last() is LogSummary == !(unreadable(events.last()) || (
        events.last() matches Event::Forwarded(Err(_)))),
        run(names, start, events).effects.len() > 0,
{
    let before = run(names, start, events.drop_last());
    let step = connection_next(names, before.connection, events.last());
    let after = run(names, start, events);
    assert(step.effects.len() > 0);
    assert(after.effects.last() == step.effects.last());
}

/// Whether the request was found to need no signature.
pub open spec fn unsigned(events: Seq<Event>) -> bool {
    exists|i: int| 0 <= i < events.len() && (#[trigger] events[i] matches Event::SkipSignature {
        skip: true,
        ..
    })
}

/// Whether a connection that waits for `call` sent its request without a signature.
pub open spec fn on_unsigned_path(call: Call) -> bool {
    call is ReceiveResponse || call is StreamLength || call is StreamBody
}

proof fn step_summarizes_at_the_end(names: ProtocolNames, connection: Connection, happened: Event)
    requires
        answers(connection.call, happened),
    ensures
        ({
            let step = connection_next(names, connection, happened);
            &&& before_judgement(connection.call) || connection.call is ConnectServer
                || connection.call is SkipSignature || on_unsigned_path(connection.call) ==> (forall|
                k: int,
            |
                0 <= k < step.effects.len() && (#[trigger] step.effects[k] is LogSummary)
                    ==> step.connection.call is Closed && k == step.effects.len() - 1)
            &&& on_unsigned_path(connection.call) ==> step.connection.call is Closed
                || on_unsigned_path(step.connection.call)
        }),
{
}

proof fn unsummarized_before_end(
    names: ProtocolNames,
    start: Connection,
    id: u128,
    events: Seq<Event>,
)
    requires
        accepted(start, id),
        possible(names, start, events),
        !(run(names, start, events).connection.call is Closed),
    ensures
        ({
            let end = run(names, start, events);
            let call = end.connection.call;
            &&& unsigned(events) == on_unsigned_path(call)
            &&& before_judgement(call) || call is ConnectServer || call is SkipSignature
                || on_unsigned_path(call) ==> (forall|k: int|
                0 <= k < end.effects.len() ==> !(#[trigger] end.effects[k] is LogSummary))
        }),
    decreases events.len(),
{
    if events.len() > 0 {
        let earlier = events.drop_last();
        let before = run(names, start, earlier);
        let step = connection_next(names, before.connection, events.last());
        let after = run(names, start, events);
        let n = before.effects.len() as int;
        unsummarized_before_end(names, start, id, earlier);
        step_summarizes_at_the_end(names, before.connection, events.last());
        unsigned_grows(events);
        let call = after.connection.call;
        if before_judgement(call) || call is ConnectServer || call is SkipSignature
            || on_unsigned_path(call) {
            assert forall|k: int| 0 <= k < after.effects.len() implies !(
            #[trigger] after.effects[k] is LogSummary) by {
                assert(k < n ==> after.effects[k] == before.effects[k]);
                assert(k >= n ==> after.effects[k] == step.effects[k - n]);
            }
        }
    }
}

proof fn unsigned_grows(events: Seq<Event>)
    requires
        events.len() > 0,
    ensures
        unsigned(events) == (unsigned(events.drop_last()) || (
        events.last() matches Event::SkipSignature { skip: true, .. })),
{
    let earlier = events.drop_last();
    if unsigned(earlier) {
        let i = choose|i: int|
            0 <= i < earlier.len() && (#[trigger] earlier[i] matches Event::SkipSignature {
                skip: true,
                ..
            });
        assert(events[i] == earlier[i]);
    }
    if events.last() matches Event::SkipSignature { skip: true, .. } {
        assert(events[events.len() - 1] == events.last());
    }
    if unsigned(events) {
        let i = choose|i: int|
            0 <= i < events.len() && (#[trigger] events[i] matches Event::SkipSignature {
                skip: true,
                ..
            });
        if i < earlier.len() {
            assert(events[i] == earlier[i]);
        }
    }
}

/// A connection whose request went without a signature is recorded in exactly one summary, at its
/// end. The effect right before it is the last response to the client, and the summary has the
/// status of that response: of the proxy's own answer, or of the response of the host.
pub proof fn unsigned_connection_is_summarized_once(
    names: ProtocolNames,
    start: Connection,
    id: u128,
    events: Seq<Event>,
)
    requires
        accepted(start, id),
        possible(names, start, events),
        unsigned(events),
        run(names, start, events).connection.call is Closed,
    ensures
        ({
            let effects = run(names, start, events).effects;
            let n = effects.len();
            &&& n >= 2
            &&& forall|k: int| 0 <= k < n - 1 ==> !(#[trigger] effects[k] is LogSummary)
            &&& match effects[n - 2] {
                Effect::Respond { status, .. } => effects[n - 1] == summary(status_text(status)),
                Effect::ReturnResponse(_) => (events.last() matches Event::ResponseReceived(
                    Ok(response),
                ) && effects[n - 1] == summary(response.status@)),
                _ => false,
            }
        }),
{
    let earlier = events.drop_last();
    let before = run(names, start, earlier);
    let step = connection_next(names, before.connection, events.last());
    let after = run(names, start, events);
    let n = before.effects.len() as int;
    unsigned_grows(events);
    unsummarized_before_end(names, start, id, earlier);
    step_summarizes_at_the_end(names, before.connection, events.last());
    let m = step.effects.len();
    assert(m >= 2);
    assert(after.effects[n + m - 1] == step.effects[m - 1]);
    assert(after.effects[n + m - 2] == step.effects[m - 2]);
    assert forall|k: int| 0 <= k < after.effects.len() - 1 implies !(
    #[trigger] after.effects[k] is LogSummary) by {
        assert(k < n ==> after.effects[k] == before.effects[k]);
        assert(k >= n ==> after.effects[k] == step.effects[k - n]);
    }
}

} // verus!
