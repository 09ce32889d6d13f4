//! How what happened on a proxied connection shows in what it waits for and in what goes to the host.

use vstd::prelude::*;

verus! {

use crate::connection_laws::{
    announced,
    announced_at,
    authorized,
    excused,
    possible,
    run,
    sent_request_is_announced,
    sent_request_is_signed,
};
use crate::connection_model::{accepted, add_header, authorization_value, connection_next, Outcome};
use crate::connection_step_laws::{parts_read_back, reads_as};
use crate::proxy_connection::{
    Call,
    Connection,
    Effect,
    Event,
    Header,
    ProtocolNames,
    AUTHORIZATION_HEADER,
};

/// Whenever a connection waits for something that is made of a value, the last event told this value.
/// The body of a request is taken in, or passed on, up to the very length that the client announced;
/// the audit entry is looked up by the very port that the client has; and it is the very key that was
/// found that signs.
pub proof fn calls_ask_what_was_told(
    names: ProtocolNames,
    start: Connection,
    id: u128,
    events: Seq<Event>,
)
    requires
        accepted(start, id),
        possible(names, start, events),
    ensures
        ({
            let end = run(names, start, events).connection;
            match end.call {
                Call::ReceiveRequest { read_timeout_secs } => events.len() == 0
                    && read_timeout_secs == 10,
                Call::ReceiveBody { length } => {
                    &&& events.len() > 0
                    &&& events.last() matches Event::ContentLength(Ok(n))
                    &&& n == length
                },
                Call::StreamBody { length } => {
                    &&& events.len() > 0
                    &&& events.last() matches Event::ContentLength(Ok(n))
                    &&& n == length
                },
                Call::LookupAudit { client_port } => {
                    &&& events.len() > 0
                    &&& events.last() matches Event::PeerAddress(Ok(peer))
                    &&& peer.port == client_port
                    &&& peer.ip == end.client_ip
                },
                Call::ComputeSignature => {
                    &&& events.len() > 0
                    &&& events.last() matches Event::CurrentKey(key)
                    &&& key@.len() > 0
                    &&& key == end.key
                },
                _ => events.len() > 0,
            }
        }),
{
}

/// Whether a connection that waits for `call` still has to hear of its claims.
pub open spec fn before_claims(call: Call) -> bool {
    match call {
        Call::ReceiveRequest { .. } => true,
        Call::PeerAddress => true,
        Call::LookupAudit { .. } => true,
        Call::AuditFromStream => true,
        Call::BuildClaims => true,
        _ => false,
    }
}

/// Whether a connection that waits for `call` still has to hear of its key.
pub open spec fn before_key(call: Call) -> bool {
    match call {
        Call::FindAuthenticator => true,
        Call::Authenticate => true,
        Call::ConnectServer => true,
        Call::SkipSignature => true,
        Call::ExpectContinue => true,
        Call::ContentLength => true,
        Call::ReceiveBody { .. } => true,
        Call::CurrentKey => true,
        _ => before_claims(call),
    }
}

/// Whether `connection` holds what `happened` told of it.
pub open spec fn holds(connection: Connection, happened: Event) -> bool {
    match happened {
        Event::RequestReceived(Ok(request)) => {
            &&& connection.method == request.method
            &&& connection.url == request.url
        },
        Event::PeerAddress(Ok(peer)) => connection.client_ip == peer.ip,
        Event::ClaimsBuilt(built) => built.details matches Ok(details) ==> {
            &&& connection.claims == Some(built.claims)
            &&& connection.claim_details == details
            &&& connection.ip == built.destination_ip
            &&& connection.port == built.destination_port
        },
        Event::CurrentKey(key) => key@.len() > 0 ==> connection.key == key,
        _ => true,
    }
}

/// Whether a connection that waits for `call` is past `happened`.
pub open spec fn past(call: Call, happened: Event) -> bool {
    match happened {
        Event::RequestReceived(_) => !(call is ReceiveRequest),
        Event::PeerAddress(_) => !(call is ReceiveRequest) && !(call is PeerAddress),
        Event::ClaimsBuilt(_) => !before_claims(call),
        Event::CurrentKey(_) => !before_key(call),
        _ => true,
    }
}

/// A connection holds to its end what it was told: the request, the client, the claims with their
/// text and the destination, and the key. Nothing that happens later changes any of them, and the
/// identifier and the time of the start never change.
pub proof fn what_was_told_is_kept(
    names: ProtocolNames,
    start: Connection,
    id: u128,
    events: Seq<Event>,
)
    requires
        accepted(start, id),
        possible(names, start, events),
    ensures
        ({
            let end = run(names, start, events).connection;
            &&& end.id == id
            &&& end.now == start.now
            &&& forall|j: int|
                0 <= j < events.len() ==> holds(end, #[trigger] events[j]) && past(
                    end.call,
                    events[j],
                )
        }),
    decreases events.len(),
{
    if events.len() > 0 {
        let earlier = events.drop_last();
        let before = run(names, start, earlier).connection;
        let end = run(names, start, events).connection;
        what_was_told_is_kept(names, start, id, earlier);
        assert forall|j: int| 0 <= j < events.len() implies holds(end, #[trigger] events[j]) && past(
            end.call,
            events[j],
        ) by {
            if j < earlier.len() {
                assert(events[j] == earlier[j]);
                assert(holds(before, earlier[j]) && past(before.call, earlier[j]));
            } else {
                assert(events[j] == events.last());
            }
        }
    }
}

/// Whether the claims at `j` are those of the caller.
pub open spec fn claims_known_at(events: Seq<Event>, j: int) -> bool {
    &&& 0 <= j < events.len()
    &&& events[j] matches Event::ClaimsBuilt(built)
    &&& built.details is Ok
}

proof fn claims_are_known(
    names: ProtocolNames,
    start: Connection,
    id: u128,
    events: Seq<Event>,
)
    requires
        accepted(start, id),
        possible(names, start, events),
    ensures
        ({
            let end = run(names, start, events);
            &&& before_claims(end.connection.call) || end.connection.call is Closed || exists|j: int|
                #[trigger] claims_known_at(events, j)
            &&& forall|k: int|
                0 <= k < end.effects.len() && (#[trigger] end.effects[k] is SendRequest)
                    ==> exists|j: int| #[trigger] claims_known_at(events, j)
        }),
    decreases events.len(),
{
    if events.len() > 0 {
        let earlier = events.drop_last();
        let before = run(names, start, earlier);
        let step = connection_next(names, before.connection, events.last());
        let after = run(names, start, events);
        let n = before.effects.len() as int;
        claims_are_known(names, start, id, earlier);
        if exists|j: int| #[trigger] claims_known_at(earlier, j) {
            let j = choose|j: int| #[trigger] claims_known_at(earlier, j);
            assert(events[j] == earlier[j]);
            assert(claims_known_at(events, j));
        } else {
            if events.last() is ClaimsBuilt && events.last()->ClaimsBuilt_0.details is Ok {
                assert(claims_known_at(events, events.len() - 1));
            }
            assert forall|k: int| 0 <= k < after.effects.len() implies !(
            #[trigger] after.effects[k] is SendRequest) by {
                if k < n {
                    assert(after.effects[k] == before.effects[k]);
                } else {
                    assert(after.effects[k] == step.effects[k - n]);
                }
            }
        }
    }
}

/// Whether the claims header of a caller that runs elevated, or of one that does not, was added at
/// `i`.
pub open spec fn tells_elevation(
    names: ProtocolNames,
    effects: Seq<Effect<Seq<char>>>,
    i: int,
    runs_elevated: bool,
) -> bool {
    &&& 0 <= i < effects.len()
    &&& effects[i] == Effect::AddRequestHeader(
        Header {
            name: "x-ms-azure-host-claims"@,
            value: "{ \""@ + names.claims_is_root@ + "\": \""@ + (if runs_elevated {
                "true"@
            } else {
                "false"@
            }) + "\"}"@,
        },
    )
}

/// Whether the header that was added at `i` goes by all claims of the caller that were made.
pub open spec fn goes_by_claims(
    names: ProtocolNames,
    events: Seq<Event>,
    effects: Seq<Effect<Seq<char>>>,
    i: int,
) -> bool {
    forall|j: int| #[trigger]
        claims_known_at(events, j) ==> tells_elevation(
            names,
            effects,
            i,
            events[j]->ClaimsBuilt_0.claims.runAsElevated,
        )
}

/// Before a request goes to the host, the claims of the caller were made, and a header was added to
/// it that says `true` exactly if these claims say that the caller runs elevated, and `false` if they
/// do not, whatever else they hold.
pub proof fn sent_request_tells_elevation(
    names: ProtocolNames,
    start: Connection,
    id: u128,
    events: Seq<Event>,
)
    requires
        accepted(start, id),
        possible(names, start, events),
    ensures
        ({
            let end = run(names, start, events);
            forall|k: int|
                0 <= k < end.effects.len() && (#[trigger] end.effects[k] is SendRequest) ==> {
                    &&& exists|j: int| #[trigger] claims_known_at(events, j)
                    &&& exists|i: int|
                        0 <= i < k && #[trigger] goes_by_claims(names, events, end.effects, i)
                }
        }),
{
    let end = run(names, start, events);
    sent_request_is_announced(names, start, id, events);
    claims_are_known(names, start, id, events);
    what_was_told_is_kept(names, start, id, events);
    assert forall|k: int|
        0 <= k < end.effects.len() && (#[trigger] end.effects[k] is SendRequest) implies exists|
        i: int,
    |
        0 <= i < k && #[trigger] goes_by_claims(names, events, end.effects, i) by {
        assert(announced(names, end.connection, events, end.effects, k));
        let (i, date) = choose|i: int, date: String| #[trigger]
            announced_at(names, end.connection, events, end.effects, i, date) && i + 1 < k;
        assert forall|j: int| #[trigger] claims_known_at(events, j) implies tells_elevation(
            names,
            end.effects,
            i,
            events[j]->ClaimsBuilt_0.claims.runAsElevated,
        ) by {
            assert(holds(end.connection, events[j]));
        }
        assert(goes_by_claims(names, events, end.effects, i));
    }
}

/// Whether the authorization header of the signature that was computed at `j` was added at `i`, in a
/// form that a reader finds its parts in.
pub open spec fn signature_added_at(
    names: ProtocolNames,
    events: Seq<Event>,
    effects: Seq<Effect<Seq<char>>>,
    i: int,
    j: int,
) -> bool {
    &&& 0 <= i < effects.len()
    &&& 0 <= j < events.len()
    &&& events[j] matches Event::Signed(signing)
    &&& signing.signature matches Ok(signature)
    &&& effects[i] matches Effect::AddRequestHeader(header)
    &&& header.name == "x-ms-azure-host-authorization"@
    &&& reads_as(
        header.value,
        names.authorization_scheme@,
        signature.key_guid@,
        signature.value@,
    )
}

/// Before a request goes to the host, unless something excuses it, a signature was computed, and the
/// header was added to it in which a reader finds the scheme, the identifier of the key and the
/// signature.
pub proof fn sent_request_is_readably_signed(
    names: ProtocolNames,
    start: Connection,
    id: u128,
    events: Seq<Event>,
)
    requires
        accepted(start, id),
        possible(names, start, events),
        !excused(events),
    ensures
        ({
            let end = run(names, start, events);
            forall|k: int|
                0 <= k < end.effects.len() && (#[trigger] end.effects[k] is SendRequest)
                    ==> exists|i: int, j: int|
                    i < k && #[trigger] signature_added_at(names, events, end.effects, i, j)
        }),
{
    let end = run(names, start, events);
    sent_request_is_signed(names, start, id, events);
    assert forall|k: int|
        0 <= k < end.effects.len() && (#[trigger] end.effects[k] is SendRequest) implies exists|
        i: int,
        j: int,
    |
        i < k && #[trigger] signature_added_at(names, events, end.effects, i, j) by {
        assert(authorized(names, events, end.effects, k));
        let (i, j) = choose|i: int, j: int|
            0 <= i < k && 0 <= j < events.len() && (
            #[trigger] events[j] matches Event::Signed(signing)
                && signing.signature matches Ok(signature) && #[trigger] end.effects[i]
                == add_header(
                AUTHORIZATION_HEADER@,
                authorization_value(names, signature.key_guid@, signature.value@),
            ));
        let signature = events[j]->Signed_0.signature->Ok_0;
        parts_read_back(names.authorization_scheme@, signature.key_guid@, signature.value@);
        assert(signature_added_at(names, events, end.effects, i, j));
    }
}

proof fn step_sets_body(
    names: ProtocolNames,
    connection: Connection,
    happened: Event,
    body: Vec<u8>,
)
    ensures
        forall|i: int|
            0 <= i < connection_next(names, connection, happened).effects.len() && (
            #[trigger] connection_next(names, connection, happened).effects[i])
                == Effect::<Seq<char>>::SetRequestBody(body) ==> happened == Event::BodyReceived(
                Ok(body),
            ),
        happened == Event::BodyReceived(Ok(body)) ==> {
            &&& connection_next(names, connection, happened).effects.len() == 1
            &&& connection_next(names, connection, happened).effects[0] == Effect::<
                Seq<char>,
            >::SetRequestBody(body)
        },
{
}

proof fn run_sets_body(
    names: ProtocolNames,
    before: Outcome,
    after: Outcome,
    events: Seq<Event>,
    body: Vec<u8>,
)
    requires
        events.len() > 0,
        events.drop_last().contains(Event::BodyReceived(Ok(body))) <==> before.effects.contains(
            Effect::SetRequestBody(body),
        ),
        after.effects == before.effects + connection_next(
            names,
            before.connection,
            events.last(),
        ).effects,
    ensures
        events.contains(Event::BodyReceived(Ok(body))) <==> after.effects.contains(
            Effect::SetRequestBody(body),
        ),
{
    let told = Event::BodyReceived(Ok(body));
    let set = Effect::<Seq<char>>::SetRequestBody(body);
    let earlier = events.drop_last();
    let n = before.effects.len() as int;
    step_sets_body(names, before.connection, events.last(), body);
    if events.contains(told) {
        let j = choose|j: int| 0 <= j < events.len() && events[j] == told;
        if j < earlier.len() {
            assert(earlier[j] == told);
            let i = choose|i: int| 0 <= i < n && before.effects[i] == set;
            assert(after.effects[i] == set);
        } else {
            assert(after.effects[n] == set);
        }
    }
    if after.effects.contains(set) {
        let i = choose|i: int| 0 <= i < after.effects.len() && after.effects[i] == set;
        if i < n {
            assert(before.effects[i] == set);
            let j = choose|j: int| 0 <= j < earlier.len() && earlier[j] == told;
            assert(events[j] == told);
        } else {
            assert(events[events.len() - 1] == told);
        }
    }
}

/// The body of a request is set exactly to what was received of it.
pub proof fn received_body_is_set(
    names: ProtocolNames,
    start: Connection,
    events: Seq<Event>,
    body: Vec<u8>,
)
    ensures
        events.contains(Event::BodyReceived(Ok(body))) <==> run(
            names,
            start,
            events,
        ).effects.contains(Effect::SetRequestBody(body)),
    decreases events.len(),
{
    if events.len() > 0 {
        let earlier = events.drop_last();
        received_body_is_set(names, start, earlier, body);
        run_sets_body(
            names,
            run(names, start, earlier),
            run(names, start, events),
            events,
            body,
        );
    }
}

} // verus!
