//! What the operations give back, in terms of what they are given.

use std::time::{Duration, Instant};
use vstd::prelude::*;

verus! {

use crate::connection_handler::{
    accept_connection,
    handle_connection,
    handle_connection_with_signature,
    handle_connection_without_signature,
    handle_expect_continue_request,
    is_answer,
    send_response,
};
use crate::connection_model::{
    answers,
    connection_next,
    expect_continue_next,
    with_signature_next,
    without_signature_next,
};
use crate::connection_step_laws::{
    accepted_connection_knows_nothing,
    line,
    proxy_header,
    summary_tells_the_connection,
};
use crate::iptable_laws::{sends_to_proxy, targets_name_their_endpoints};
use crate::iptable_redirect::{
    begin_cleanup,
    begin_setup,
    cleanup_firewall_redirection,
    config_one_firewall_redirection,
    group_set,
    redirection_command,
    setup_firewall_redirection,
    CleanupStep,
    Command,
    CommandOutput,
    Endpoint,
    FirewallReport,
    RedirectTargets,
    Redirection,
    SetupStep,
    Target,
};
use crate::listener_laws::listener_binds_all_addresses;
use crate::proxy_connection::{
    claims_of,
    connection_summary,
    log_connection_summary,
    summary_serialized,
    Call,
    Claims,
    Connection,
    Effect,
    Event,
    LogLevel,
    ProtocolNames,
    ProxySummary,
    Status,
    SummaryEffect,
};
use crate::proxy_listener::{
    handle_listener,
    is_listener_answer,
    listener_answers,
    listener_next,
    stop,
    Deed,
    Listener,
    ListenerCall,
    ListenerEffect,
    ListenerEvent,
    ProxyRequest,
};
use crate::span::{nanoseconds, ElapsedMessage, SimpleSpan};
use crate::span_laws::{
    elapsed_json_holds_both,
    elapsed_text_holds_both,
    measured_time_is_whole_milliseconds,
};
use crate::text::{
    decimal,
    decimal_int,
    decimal_int_reads_back,
    decimal_reads_back,
    decimal_value,
    signed_text,
    unsigned_text,
};

/// The texts of numbers read back as the numbers.
pub proof fn number_texts_read_back(n: u128, text: String, i: i32, signed: String)
    requires
        call_ensures(unsigned_text, (n,), text),
        call_ensures(signed_text, (i,), signed),
    ensures
        decimal_value(text@) == n,
        (signed@[0] == '-') == (i < 0),
        decimal_value(
            if i < 0 {
                signed@.skip(1)
            } else {
                signed@
            },
        ) == (if i < 0 {
            -i
        } else {
            i as int
        }),
{
    decimal_reads_back(n as nat);
    decimal_int_reads_back(i as int);
}

/// Every target has the endpoint of its name.
pub proof fn endpoint_is_that_of_the_target(
    targets: RedirectTargets,
    wire_server: &Endpoint,
    imds: &Endpoint,
    ga_plugin: &Endpoint,
)
    requires
        call_ensures(RedirectTargets::endpoint, (&targets, Target::WireServer), wire_server),
        call_ensures(RedirectTargets::endpoint, (&targets, Target::Imds), imds),
        call_ensures(RedirectTargets::endpoint, (&targets, Target::GaPlugin), ga_plugin),
    ensures
        *wire_server == targets.wire_server,
        *imds == targets.imds,
        *ga_plugin == targets.ga_plugin,
{
}

/// The command for a target runs `iptables`, adds the rule or deletes it, and names the endpoint of
/// the target. A command that could not be run counts as failed.
pub proof fn command_names_the_endpoint(
    targets: RedirectTargets,
    target: Target,
    local_port: u16,
    enable: bool,
    command: Command,
)
    requires
        call_ensures(redirection_command, (&targets, target, local_port, enable), command),
    ensures
        command.program@ == "iptables"@,
        command.default_error_code == -1,
        command.args.deep_view().len() == 19,
        command.args.deep_view()[2] == (if enable {
            "-A"@
        } else {
            "-D"@
        }),
        ({
            let rule = command.args.deep_view().remove(2);
            match target {
                Target::WireServer => sends_to_proxy(
                    rule,
                    targets.wire_server.ip@,
                    targets.wire_server.port,
                    local_port,
                ),
                Target::Imds => sends_to_proxy(
                    rule,
                    targets.imds.ip@,
                    targets.imds.port,
                    local_port,
                ),
                Target::GaPlugin => sends_to_proxy(
                    rule,
                    targets.ga_plugin.ip@,
                    targets.ga_plugin.port,
                    local_port,
                ),
            }
        }),
{
    targets_name_their_endpoints(targets, local_port, enable);
}

/// A rule is configured if and only if its command ended with zero. Only a rule that could not be
/// added becomes the error status.
pub proof fn exit_code_decides(
    dest_ip: &str,
    dest_port: &str,
    local_port: &str,
    enable: bool,
    output: CommandOutput,
    redirection: Redirection,
)
    requires
        call_ensures(
            config_one_firewall_redirection,
            (dest_ip, dest_port, local_port, enable, &output),
            redirection,
        ),
    ensures
        redirection.configured <==> output.code == 0,
        redirection.report is ErrorStatus <==> enable && output.code != 0,
        ({
            let message = match redirection.report {
                FirewallReport::Information(message) => message@,
                FirewallReport::ErrorStatus(message) => message@,
            };
            message == "config_one_firewall_redirection: "@ + (if enable {
                "-A"@
            } else {
                "-D"@
            }) + " redirect "@ + dest_ip@ + ":"@ + dest_port@ + " to "@ + ("127.0.0.1:"@
                + local_port@) + " result: '"@ + decimal_int(output.code as int) + "'-'"@
                + output.output@ + "'-'"@ + output.error@ + "'."@
        }),
{
}

/// Setting up sets the group first and goes on to the wire server, the metadata service and the
/// plugin, whatever came of the group; a command that fails ends it without success, and the last one
/// that succeeds ends it with success.
pub proof fn setup_goes_in_order(
    targets: RedirectTargets,
    local_port: u16,
    target: Target,
    output: CommandOutput,
    result: i32,
    begin: SetupStep,
    grouped: (SetupStep, FirewallReport<String>),
    next: (SetupStep, FirewallReport<String>),
)
    requires
        call_ensures(begin_setup, (), begin),
        call_ensures(group_set, (result,), grouped),
        call_ensures(setup_firewall_redirection, (&targets, local_port, target, &output), next),
    ensures
        begin == SetupStep::SetGroup,
        grouped.0 == SetupStep::Configure(Target::WireServer),
        grouped.1@ == FirewallReport::Information(
            "libc::setegid gid '"@ + decimal(3080) + "' with result '"@ + decimal_int(result as int)
                + "'"@,
        ),
        output.code != 0 ==> next.0 == (SetupStep::Finished { redirected: false }),
        output.code == 0 ==> next.0 == (match target {
            Target::WireServer => SetupStep::Configure(Target::Imds),
            Target::Imds => SetupStep::Configure(Target::GaPlugin),
            Target::GaPlugin => SetupStep::Finished { redirected: true },
        }),
        next.1 is ErrorStatus <==> output.code != 0,
{
}

/// Cleaning up starts with the wire server, removes the same rule again as long as that works, and
/// then goes on to the next endpoint. Nothing that it meets is an error.
pub proof fn cleanup_goes_in_order(
    targets: RedirectTargets,
    local_port: u16,
    target: Target,
    output: CommandOutput,
    begin: CleanupStep,
    next: (CleanupStep, FirewallReport<String>),
)
    requires
        call_ensures(begin_cleanup, (), begin),
        call_ensures(cleanup_firewall_redirection, (&targets, local_port, target, &output), next),
    ensures
        begin == CleanupStep::Remove(Target::WireServer),
        output.code == 0 ==> next.0 == CleanupStep::Remove(target),
        output.code != 0 ==> next.0 == (match target {
            Target::WireServer => CleanupStep::Remove(Target::Imds),
            Target::Imds => CleanupStep::Remove(Target::GaPlugin),
            Target::GaPlugin => CleanupStep::Finished,
        }),
        next.1 is Information,
{
}

/// A listener is stopped by a request to stop and a connection to its own port on the loopback
/// address.
pub proof fn stop_goes_to_the_port(port: u16, signal: (ProxyRequest, String, ListenerEffect))
    requires
        call_ensures(stop, (port,), signal),
    ensures
        signal.0 is Stop,
        signal.1@.take(10) == "127.0.0.1:"@,
        decimal_value(signal.1@.skip(10)) == port,
        signal.2 matches ListenerEffect::Log { level, message } && level is Warning && message@
            == "Sending stop signal."@,
{
    reveal_strlit("127.0.0.1:");
    decimal_reads_back(port as nat);
    assert(signal.1@.take(10) =~= "127.0.0.1:"@);
    assert(signal.1@.skip(10) =~= decimal(port as nat));
}

/// A listener is started on its port with the size of the pool and the text that it is given, and has
/// neither counted a connection nor anyone who waits for it.
pub proof fn start_takes_what_it_is_given(
    port: u16,
    pool_size: u16,
    running_state: String,
    started: (Listener, Vec<ListenerEffect>),
)
    requires
        call_ensures(crate::proxy_listener::start, (port, pool_size, running_state), started),
    ensures
        started.0.addr@.take(8) == "0.0.0.0:"@,
        decimal_value(started.0.addr@.skip(8)) == port,
        started.0.pool_size == pool_size,
        started.0.running_state@ == running_state@,
        started.0.status_message@.len() == 0,
        started.0.connection_count == 0,
        started.0.join_requests@.len() == 0,
        started.0.call is Bind,
        started.1.deep_view() == seq![
            Deed::InitConnectionLog,
            Deed::Log {
                level: LogLevel::Message,
                message: "Start proxy listener at '"@ + started.0.addr@ + "'."@,
            },
        ],
{
    let listener = started.0@;
    listener_binds_all_addresses(port, pool_size, running_state@);
    assert(listener.addr == started.0.addr@);
}

/// A connection starts with the identifier that it is given and the time of its start, and knows
/// nothing else. Its request is read for at most ten seconds at a time.
pub proof fn accepted_connection_is_new(
    id: u128,
    accepted_now: (Connection, Vec<Effect<String>>),
)
    requires
        call_ensures(accept_connection, (id,), accepted_now),
    ensures
        accepted_now.0.id == id,
        call_ensures(Instant::now, (), accepted_now.0.now),
        accepted_now.0.claims is None,
        accepted_now.0.method@.len() == 0,
        accepted_now.0.url@.len() == 0,
        accepted_now.0.client_ip@.len() == 0,
        accepted_now.0.claim_details@.len() == 0,
        accepted_now.0.ip@.len() == 0,
        accepted_now.0.port == 0,
        accepted_now.0.key@.len() == 0,
        accepted_now.0.call == (Call::ReceiveRequest { read_timeout_secs: 10 }),
        accepted_now.1.deep_view() == seq![
            line(LogLevel::Information, "Received connection."@),
        ],
{
    accepted_connection_knows_nothing(accepted_now.0, id);
}

/// A client is answered with the very status and with the header that tells of the proxy.
pub proof fn response_has_the_status(status: Status, effect: Effect<String>, text: &'static str)
    requires
        call_ensures(send_response, (status,), effect),
        call_ensures(Status::text, (&status,), text),
    ensures
        effect matches Effect::Respond { status: sent, header } && sent == status && header@
            == proxy_header(),
        text@ == (match status {
            Status::Continue => "100 Continue"@,
            Status::BadRequest => "400 Bad Request"@,
            Status::Forbidden => "403 Forbidden"@,
            Status::Misdirected => "421 Misdirected Request"@,
            Status::BadGateway => "502 Bad Gateway"@,
        }),
{
}

/// Whether a summary tells what is known of the connection and how it was answered.
pub open spec fn tells(
    summary: ProxySummary,
    connection: Connection,
    response_status: Seq<char>,
    elapsed: u128,
) -> bool {
    &&& summary.method@ == connection.method@
    &&& summary.url@ == connection.url@
    &&& summary.ip@ == connection.ip@
    &&& summary.port == connection.port
    &&& summary.responseStatus@ == response_status
    &&& summary.elapsedTime == elapsed
    &&& match connection.claims {
        Some(known) => {
            &&& summary.userId == known.userId
            &&& summary.userName@ == known.userName@
            &&& summary.userGroups.deep_view() == known.userGroups.deep_view()
            &&& summary.clientIp@ == known.clientIp@
            &&& summary.processFullPath@ == known.processFullPath@
            &&& summary.processCmdLine@ == known.processCmdLine@
            &&& summary.runAsElevated == known.runAsElevated
        },
        None => {
            &&& summary.userId == 0
            &&& summary.userName@.len() == 0
            &&& summary.userGroups@.len() == 0
            &&& summary.clientIp@.len() == 0
            &&& summary.processFullPath@.len() == 0
            &&& summary.processCmdLine@.len() == 0
            &&& !summary.runAsElevated
        },
    }
}

/// The summary of a connection tells what is known of it, how it was answered and after how long.
pub proof fn summary_is_that_of_the_connection(
    connection: Connection,
    response_status: String,
    elapsed: u128,
    summary: ProxySummary,
)
    requires
        call_ensures(connection_summary, (&connection, response_status, elapsed), summary),
    ensures
        tells(summary, connection, response_status@, elapsed),
{
    let claims = choose|claims: Claims| #[trigger]
        claims_of(connection, claims) && summary.records(
            connection,
            claims,
            response_status@,
            elapsed,
        );
    summary_tells_the_connection(summary, connection, claims, response_status@, elapsed);
    assert(summary.userGroups.deep_view().len() == summary.userGroups@.len());
}

/// The summary of a connection that is answered now counts the whole milliseconds from its start to a
/// reading of the clock.
pub proof fn summary_counts_from_the_start(
    connection: Connection,
    response_status: String,
    summary: ProxySummary,
)
    requires
        call_ensures(log_connection_summary, (&connection, response_status), summary),
    ensures
        tells(summary, connection, response_status@, summary.elapsedTime),
        exists|passed: Duration| #[trigger]
            call_ensures(Instant::elapsed, (&connection.now,), passed) && summary.elapsedTime
                * 1_000_000 <= nanoseconds(passed) < (summary.elapsedTime + 1) * 1_000_000,
{
    let elapsed = summary.elapsedTime;
    let claims = choose|claims: Claims| #[trigger]
        claims_of(connection, claims) && summary.records(
            connection,
            claims,
            response_status@,
            elapsed,
        );
    summary_tells_the_connection(summary, connection, claims, response_status@, elapsed);
    assert(summary.userGroups.deep_view().len() == summary.userGroups@.len());
    measured_time_is_whole_milliseconds(connection.now, elapsed);
}

/// Empty claims claim nothing.
pub proof fn empty_claims_claim_nothing(claims: Claims)
    requires
        call_ensures(Claims::empty, (), claims),
    ensures
        claims.userId == 0,
        claims.userName@.len() == 0,
        claims.userGroups@.len() == 0,
        claims.processId == 0,
        claims.processName@.len() == 0,
        claims.processFullPath@.len() == 0,
        claims.processCmdLine@.len() == 0,
        !claims.runAsElevated,
        claims.clientIp@.len() == 0,
{
}

/// Both texts of an elapsed message hold the milliseconds and the message that it was made of.
pub proof fn elapsed_message_tells_both(
    elapsed: u128,
    message: String,
    made: ElapsedMessage,
    json: String,
    text: String,
)
    requires
        call_ensures(ElapsedMessage::new, (elapsed, message), made),
        call_ensures(ElapsedMessage::to_json_string, (&made,), json),
        call_ensures(ElapsedMessage::to_string, (&made,), text),
    ensures
        ({
            let digits_end = json@.len() - message@.len() - 15;
            &&& json@.take(11) == "{\"elapsed\":"@
            &&& decimal_value(json@.subrange(11, digits_end)) == elapsed
            &&& json@.subrange(digits_end, digits_end + 13) == ", \"message\":\""@
            &&& json@.subrange(digits_end + 13, json@.len() - 2) == message@
            &&& json@.skip(json@.len() - 2) == "\"}"@
        }),
        text@.take(message@.len() as int) == message@,
        text@.subrange(message@.len() as int, message@.len() + 3int) == seq![' ', '-', ' '],
        decimal_value(text@.skip(message@.len() + 3int)) == elapsed,
{
    elapsed_json_holds_both(elapsed, message@);
    elapsed_text_holds_both(elapsed, message@);
}

/// What a span tells of the time, as a number, in a JSON text or in an event, is the whole
/// milliseconds from its own start to a reading of the clock, and the texts hold the message that it
/// was given, whatever names come with it.
pub proof fn span_tells_its_own_time(
    span: SimpleSpan,
    millis: u128,
    message: &str,
    json: String,
    method_name: &str,
    module_name: &str,
    logger_key: &str,
    event: String,
)
    requires
        call_ensures(SimpleSpan::get_elapsed_time_in_millisec, (&span,), millis),
        call_ensures(SimpleSpan::get_elapsed_json_message, (&span, message), json),
        call_ensures(
            SimpleSpan::write_event,
            (&span, message, method_name, module_name, logger_key),
            event,
        ),
    ensures
        clocked(span, millis as int),
        ({
            let digits_end = json@.len() - message@.len() - 15;
            &&& json@.take(11) == "{\"elapsed\":"@
            &&& clocked(span, decimal_value(json@.subrange(11, digits_end)))
            &&& json@.subrange(digits_end, digits_end + 13) == ", \"message\":\""@
            &&& json@.subrange(digits_end + 13, json@.len() - 2) == message@
            &&& json@.skip(json@.len() - 2) == "\"}"@
        }),
        event@.take(message@.len() as int) == message@,
        event@.subrange(message@.len() as int, message@.len() + 3int) == seq![' ', '-', ' '],
        clocked(span, decimal_value(event@.skip(message@.len() + 3int))),
{
    measured_time_is_whole_milliseconds(span.started(), millis);
    let in_json = choose|elapsed: u128| #[trigger]
        crate::span::measured_since(span.started(), elapsed) && json@ == crate::span::elapsed_json(
            elapsed,
            message@,
        );
    measured_time_is_whole_milliseconds(span.started(), in_json);
    elapsed_json_holds_both(in_json, message@);
    let in_event = choose|elapsed: u128| #[trigger]
        crate::span::measured_since(span.started(), elapsed) && event@ == crate::span::elapsed_text(
            elapsed,
            message@,
        );
    measured_time_is_whole_milliseconds(span.started(), in_event);
    elapsed_text_holds_both(in_event, message@);
}

/// Whether `millis` are the whole milliseconds from the start of `span` to a reading of the clock.
pub open spec fn clocked(span: SimpleSpan, millis: int) -> bool {
    exists|passed: Duration| #[trigger]
        call_ensures(Instant::elapsed, (&span.started(),), passed) && millis * 1_000_000
            <= nanoseconds(passed) < (millis + 1) * 1_000_000
}

/// A span starts when it is made.
pub proof fn span_starts_when_made(made: SimpleSpan, by_default: SimpleSpan)
    requires
        call_ensures(SimpleSpan::new, (), made),
        call_ensures(<SimpleSpan as Default>::default, (), by_default),
    ensures
        call_ensures(Instant::now, (), made.started()),
        call_ensures(Instant::now, (), by_default.started()),
{
}

/// A span that is started anew starts then.
pub proof fn span_starts_anew()
    ensures
        forall|span: &mut SimpleSpan| #[trigger]
            call_ensures(SimpleSpan::start_new, (span,), ()) ==> call_ensures(
                Instant::now,
                (),
                final(span).started(),
            ),
{
}

/// The handlers of a connection leave it as the step for the event does, and ask for what the step
/// asks for, whatever the connection and the event are.
pub proof fn handlers_take_the_step(
    names: ProtocolNames,
    happened: Event,
    effects: Vec<Effect<String>>,
)
    ensures
        forall|connection: &mut Connection| #[trigger]
            call_ensures(handle_connection, (connection, &names, happened), effects) ==> {
                let step = connection_next(names, *connection, happened);
                *final(connection) == step.connection && effects.deep_view() == step.effects
            },
        forall|connection: &mut Connection| #[trigger]
            call_ensures(
                handle_connection_with_signature,
                (connection, &names, happened),
                effects,
            ) ==> {
                let step = with_signature_next(names, *connection, happened);
                *final(connection) == step.connection && effects.deep_view() == step.effects
            },
        forall|connection: &mut Connection| #[trigger]
            call_ensures(handle_connection_without_signature, (connection, happened), effects)
                ==> {
                let step = without_signature_next(*connection, happened);
                *final(connection) == step.connection && effects.deep_view() == step.effects
            },
        forall|connection: &mut Connection| #[trigger]
            call_ensures(handle_expect_continue_request, (connection, happened), effects) ==> {
                let step = expect_continue_next(*connection, happened);
                *final(connection) == step.connection && effects.deep_view() == step.effects
            },
{
}

/// The handler of the listener leaves it as the step for the event does, and asks for what the step
/// asks for, whatever the listener and the event are.
pub proof fn listener_takes_the_step(happened: ListenerEvent, effects: Vec<ListenerEffect>)
    ensures
        forall|listener: &mut Listener| #[trigger]
            call_ensures(handle_listener, (listener, happened), effects) ==> {
                let step = listener_next(listener@, happened);
                final(listener)@ == step.listener && effects.deep_view() == step.deeds
            },
{
}

/// An event is taken for an answer exactly where it tells what came of the call.
pub proof fn answers_are_recognized(
    call: Call,
    happened: Event,
    answer: bool,
    listener_call: ListenerCall,
    listener_event: ListenerEvent,
    listener_answer: bool,
)
    requires
        call_ensures(is_answer, (call, &happened), answer),
        call_ensures(is_listener_answer, (listener_call, &listener_event), listener_answer),
    ensures
        answer <==> answers(call, happened),
        listener_answer <==> listener_answers(listener_call, listener_event),
{
}

/// What is to be done with a summary follows from its JSON text alone.
pub proof fn summary_is_told_and_added(
    json: Result<String, String>,
    effects: Vec<SummaryEffect<String>>,
)
    requires
        call_ensures(summary_serialized, (json,), effects),
    ensures
        json is Err ==> effects.deep_view() == seq![
            SummaryEffect::<Seq<char>>::AddSummary { flag: false },
        ],
        json matches Ok(text) ==> effects.deep_view() == seq![
            SummaryEffect::InformationEvent {
                message: text@,
                method_name: "log_connection_summary"@,
                module_name: "proxy_listener"@,
            },
            SummaryEffect::AddSummary { flag: false },
        ],
{
}

} // verus!
