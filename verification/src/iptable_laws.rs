//! What setting up and cleaning up the redirection come to over a whole run of commands.

use vstd::prelude::*;

verus! {

use crate::iptable_redirect::{
    cleanup_next,
    redirection_report,
    setup_next,
    spec_redirection_args,
    table_flag,
    target_args,
    target_report,
    CleanupStep,
    CommandOutput,
    FirewallReport,
    RedirectTargets,
    SetupStep,
    Target,
};
use crate::text::{decimal, decimal_int, decimal_is_injective};

/// The targets in the order in which their rules are configured.
pub open spec fn targets_in_order() -> Seq<Target> {
    seq![Target::WireServer, Target::Imds, Target::GaPlugin]
}

/// Where setting up stands once the commands that it asked for have ended with `codes`.
pub open spec fn setup_run(step: SetupStep, codes: Seq<i32>) -> SetupStep
    decreases codes.len(),
{
    match step {
        SetupStep::Configure(target) if codes.len() > 0 => setup_run(
            setup_next(target, codes[0]),
            codes.drop_first(),
        ),
        _ => step,
    }
}

/// Where cleaning up stands once the commands that it asked for have ended with `codes`.
pub open spec fn cleanup_run(step: CleanupStep, codes: Seq<i32>) -> CleanupStep
    decreases codes.len(),
{
    match step {
        CleanupStep::Remove(target) if codes.len() > 0 => cleanup_run(
            cleanup_next(target, codes[0]),
            codes.drop_first(),
        ),
        _ => step,
    }
}

/// Setting up succeeds if and only if all three commands do, runs them in order, and stops at the
/// first that fails.
pub proof fn setup_needs_every_rule(codes: Seq<i32>)
    ensures
        ({
            let end = setup_run(SetupStep::Configure(Target::WireServer), codes);
            let failed = exists|i: int| 0 <= i < 3 && i < codes.len() && codes[i] != 0;
            &&& (end == SetupStep::Finished { redirected: false }) == failed
            &&& (end == SetupStep::Finished { redirected: true }) == (!failed && codes.len() >= 3)
            &&& !failed && codes.len() < 3 ==> end == SetupStep::Configure(
                targets_in_order()[codes.len() as int],
            )
        }),
{
    reveal_with_fuel(setup_run, 4);
    let once = codes.drop_first();
    let twice = once.drop_first();
    if codes.len() > 0 {
        assert(codes.len() > 1 ==> once[0] == codes[1]);
        assert(codes.len() > 2 ==> twice[0] == codes[2]);
    }
}

/// How many of the commands failed.
pub open spec fn failures(codes: Seq<i32>) -> nat
    decreases codes.len(),
{
    if codes.len() == 0 {
        0
    } else {
        (if codes[0] != 0 {
            1nat
        } else {
            0nat
        }) + failures(codes.drop_first())
    }
}

/// The place of a cleanup step in the order of the targets.
pub open spec fn cleanup_position(step: CleanupStep) -> nat {
    match step {
        CleanupStep::Remove(Target::WireServer) => 0,
        CleanupStep::Remove(Target::Imds) => 1,
        CleanupStep::Remove(Target::GaPlugin) => 2,
        CleanupStep::Finished => 3,
    }
}

proof fn cleanup_moves_on(step: CleanupStep, codes: Seq<i32>)
    ensures
        cleanup_position(cleanup_run(step, codes)) == (if cleanup_position(step) + failures(codes)
            < 3 {
            cleanup_position(step) + failures(codes)
        } else {
            3
        }),
    decreases codes.len(),
{
    if codes.len() > 0 {
        match step {
            CleanupStep::Remove(target) => {
                cleanup_moves_on(cleanup_next(target, codes[0]), codes.drop_first());
            },
            CleanupStep::Finished => {},
        }
    }
}

/// Cleaning up is past exactly as many targets as commands have failed: it removes the rule for a
/// target until no such rule is left, and is finished when that is so for each of the three.
pub proof fn cleanup_removes_until_failure(codes: Seq<i32>)
    ensures
        ({
            let end = cleanup_run(CleanupStep::Remove(Target::WireServer), codes);
            &&& (end == CleanupStep::Finished) == (failures(codes) >= 3)
            &&& failures(codes) < 3 ==> end == CleanupStep::Remove(
                targets_in_order()[failures(codes) as int],
            )
        }),
{
    cleanup_moves_on(CleanupStep::Remove(Target::WireServer), codes);
}

/// The command that cleans a rule up names exactly the rule that setting up added: the two differ
/// in the flag alone.
pub proof fn cleanup_deletes_what_setup_adds(
    targets: RedirectTargets,
    target: Target,
    local_port: u16,
)
    ensures
        target_args(targets, target, local_port, false) == target_args(
            targets,
            target,
            local_port,
            true,
        ).update(2, table_flag(false)),
        target_args(targets, target, local_port, true) == target_args(
            targets,
            target,
            local_port,
            false,
        ).update(2, table_flag(true)),
        table_flag(true) != table_flag(false),
{
    assert(target_args(targets, target, local_port, false) =~= target_args(
        targets,
        target,
        local_port,
        true,
    ).update(2, table_flag(false)));
    assert(target_args(targets, target, local_port, true) =~= target_args(
        targets,
        target,
        local_port,
        false,
    ).update(2, table_flag(true)));
    reveal_strlit("-A");
    reveal_strlit("-D");
    assert("-A"@[1] != "-D"@[1]);
}

/// The rule that a command's arguments name, whether to add it or to delete it: all of them but the
/// flag.
pub open spec fn named_rule(args: Seq<Seq<char>>) -> Seq<Seq<char>> {
    args.remove(2)
}

/// The rule that redirects the traffic for a target to `local_port`.
pub open spec fn redirection(targets: RedirectTargets, target: Target, local_port: u16) -> Seq<
    Seq<char>,
> {
    named_rule(target_args(targets, target, local_port, true))
}

/// Whether a rule redirects the traffic for one of the targets to `local_port`.
pub open spec fn redirects(
    targets: RedirectTargets,
    local_port: u16,
    rule: Seq<Seq<char>>,
) -> bool {
    exists|target: Target| rule == #[trigger] redirection(targets, target, local_port)
}

/// The rules of a table that are none of the redirections to `local_port`, in their order.
pub open spec fn other_rules(
    targets: RedirectTargets,
    local_port: u16,
    table: Seq<Seq<Seq<char>>>,
) -> Seq<Seq<Seq<char>>> {
    table.filter(|rule: Seq<Seq<char>>| !redirects(targets, local_port, rule))
}

/// What a command that deletes a rule does to a table: where the table holds the rule, one such rule
/// leaves it and the command succeeds; else the command fails and the table stays.
pub open spec fn deletes(
    before: Seq<Seq<Seq<char>>>,
    after: Seq<Seq<Seq<char>>>,
    rule: Seq<Seq<char>>,
    code: i32,
) -> bool {
    if before.contains(rule) {
        &&& code == 0
        &&& exists|i: int|
            0 <= i < before.len() && #[trigger] before[i] == rule && after == before.remove(i)
    } else {
        &&& code != 0
        &&& after == before
    }
}

/// What a command that adds a rule does to a table: where it succeeds, the rule stands at the end;
/// else the table stays.
pub open spec fn adds(
    before: Seq<Seq<Seq<char>>>,
    after: Seq<Seq<Seq<char>>>,
    rule: Seq<Seq<char>>,
    code: i32,
) -> bool {
    after == (if code == 0 {
        before.push(rule)
    } else {
        before
    })
}

/// Whether the commands that cleaning up asks for from `step` on, ending with `codes`, take the
/// table through `tables`.
pub open spec fn cleanup_trace(
    targets: RedirectTargets,
    local_port: u16,
    step: CleanupStep,
    tables: Seq<Seq<Seq<Seq<char>>>>,
    codes: Seq<i32>,
) -> bool
    decreases codes.len(),
{
    &&& tables.len() == codes.len() + 1
    &&& codes.len() > 0 ==> {
        &&& step matches CleanupStep::Remove(target)
        &&& deletes(
            tables[0],
            tables[1],
            named_rule(target_args(targets, target, local_port, false)),
            codes[0],
        )
        &&& cleanup_trace(
            targets,
            local_port,
            cleanup_next(target, codes[0]),
            tables.drop_first(),
            codes.drop_first(),
        )
    }
}

/// Whether the commands that setting up asks for from `step` on, ending with `codes`, take the table
/// through `tables`.
pub open spec fn setup_trace(
    targets: RedirectTargets,
    local_port: u16,
    step: SetupStep,
    tables: Seq<Seq<Seq<Seq<char>>>>,
    codes: Seq<i32>,
) -> bool
    decreases codes.len(),
{
    &&& tables.len() == codes.len() + 1
    &&& codes.len() > 0 ==> {
        &&& step matches SetupStep::Configure(target)
        &&& adds(
            tables[0],
            tables[1],
            named_rule(target_args(targets, target, local_port, true)),
            codes[0],
        )
        &&& setup_trace(
            targets,
            local_port,
            setup_next(target, codes[0]),
            tables.drop_first(),
            codes.drop_first(),
        )
    }
}

proof fn delete_names_the_rule(targets: RedirectTargets, target: Target, local_port: u16)
    ensures
        named_rule(target_args(targets, target, local_port, false)) == redirection(
            targets,
            target,
            local_port,
        ),
{
    assert(named_rule(target_args(targets, target, local_port, false)) =~= redirection(
        targets,
        target,
        local_port,
    ));
}

proof fn filter_skips_removed<A>(s: Seq<A>, i: int, keep: spec_fn(A) -> bool)
    requires
        0 <= i < s.len(),
        !keep(s[i]),
    ensures
        s.remove(i).filter(keep) == s.filter(keep),
{
    let head = s.take(i);
    let tail = s.skip(i + 1);
    assert(s =~= head + seq![s[i]] + tail);
    assert(s.remove(i) =~= head + tail);
    Seq::filter_distributes_over_add(head, tail, keep);
    Seq::filter_distributes_over_add(head + seq![s[i]], tail, keep);
    Seq::filter_distributes_over_add(head, seq![s[i]], keep);
    assert(seq![s[i]].filter(keep) =~= Seq::<A>::empty()) by {
        reveal(Seq::filter);
        assert(seq![s[i]].drop_last() =~= Seq::<A>::empty());
        assert(Seq::<A>::empty().filter(keep) =~= Seq::<A>::empty());
    }
}

proof fn filter_keeps_all<A>(s: Seq<A>, keep: spec_fn(A) -> bool)
    requires
        forall|i: int| 0 <= i < s.len() ==> keep(#[trigger] s[i]),
    ensures
        s.filter(keep) == s,
    decreases s.len(),
{
    reveal(Seq::filter);
    if s.len() > 0 {
        filter_keeps_all(s.drop_last(), keep);
        assert(keep(s[s.len() - 1]));
        assert(s.filter(keep) =~= s);
    }
}

/// Whether a table holds no rule for a target that stands before `position` in the order.
spec fn cleared(
    targets: RedirectTargets,
    local_port: u16,
    table: Seq<Seq<Seq<char>>>,
    position: nat,
) -> bool {
    forall|target: Target|
        cleanup_position(CleanupStep::Remove(target)) < position ==> !table.contains(
            #[trigger] redirection(targets, target, local_port),
        )
}

proof fn cleared_stays(
    targets: RedirectTargets,
    local_port: u16,
    table: Seq<Seq<Seq<char>>>,
    i: int,
    position: nat,
)
    requires
        cleared(targets, local_port, table, position),
        0 <= i < table.len(),
    ensures
        cleared(targets, local_port, table.remove(i), position),
{
    assert forall|target: Target|
        cleanup_position(CleanupStep::Remove(target)) < position implies !table.remove(i).contains(
        #[trigger] redirection(targets, target, local_port),
    ) by {
        let rule = redirection(targets, target, local_port);
        if table.remove(i).contains(rule) {
            let k = choose|k: int| 0 <= k < table.remove(i).len() && table.remove(i)[k] == rule;
            assert(table[if k < i {
                k
            } else {
                k + 1
            }] == rule);
        }
    }
}

proof fn trace_clears(
    targets: RedirectTargets,
    local_port: u16,
    step: CleanupStep,
    tables: Seq<Seq<Seq<Seq<char>>>>,
    codes: Seq<i32>,
)
    requires
        cleanup_trace(targets, local_port, step, tables, codes),
        cleared(targets, local_port, tables[0], cleanup_position(step)),
    ensures
        other_rules(targets, local_port, tables.last()) == other_rules(
            targets,
            local_port,
            tables[0],
        ),
        cleared(targets, local_port, tables.last(), cleanup_position(cleanup_run(step, codes))),
        tables[0].len() + failures(codes) == tables.last().len() + codes.len(),
    decreases codes.len(),
{
    if codes.len() > 0 {
        let target = step->Remove_0;
        let rule = redirection(targets, target, local_port);
        let next = cleanup_next(target, codes[0]);
        delete_names_the_rule(targets, target, local_port);
        let keep = |rule: Seq<Seq<char>>| !redirects(targets, local_port, rule);
        if tables[0].contains(rule) {
            let i = choose|i: int|
                0 <= i < tables[0].len() && #[trigger] tables[0][i] == rule && tables[1]
                    == tables[0].remove(i);
            assert(!keep(tables[0][i]));
            filter_skips_removed(tables[0], i, keep);
            cleared_stays(targets, local_port, tables[0], i, cleanup_position(step));
        } else {
            assert forall|t: Target|
                cleanup_position(CleanupStep::Remove(t)) < cleanup_position(
                    next,
                ) implies !tables[1].contains(#[trigger] redirection(targets, t, local_port)) by {
                if cleanup_position(CleanupStep::Remove(t)) == cleanup_position(step) {
                    assert(t == target);
                }
            }
        }
        trace_clears(targets, local_port, next, tables.drop_first(), codes.drop_first());
        assert(tables.drop_first().last() == tables.last());
    }
}

/// A cleanup that is finished has removed every redirection of the targets to `local_port`, however
/// often the table held it, and left every other rule in its order. It took one command for each
/// rule that it removed, and three that failed.
pub proof fn cleanup_clears_the_table(
    targets: RedirectTargets,
    local_port: u16,
    tables: Seq<Seq<Seq<Seq<char>>>>,
    codes: Seq<i32>,
)
    requires
        cleanup_trace(
            targets,
            local_port,
            CleanupStep::Remove(Target::WireServer),
            tables,
            codes,
        ),
        cleanup_run(CleanupStep::Remove(Target::WireServer), codes) == CleanupStep::Finished,
    ensures
        tables.last() == other_rules(targets, local_port, tables[0]),
        forall|target: Target|
            !tables.last().contains(#[trigger] redirection(targets, target, local_port)),
        codes.len() == tables[0].len() - tables.last().len() + 3,
{
    let begin = CleanupStep::Remove(Target::WireServer);
    trace_clears(targets, local_port, begin, tables, codes);
    trace_fails_thrice(targets, local_port, begin, tables, codes);
    let keep = |rule: Seq<Seq<char>>| !redirects(targets, local_port, rule);
    let last = tables.last();
    assert forall|target: Target| !last.contains(
        #[trigger] redirection(targets, target, local_port),
    ) by {
        assert(cleanup_position(CleanupStep::Remove(target)) < 3);
    }
    assert forall|i: int| 0 <= i < last.len() implies keep(#[trigger] last[i]) by {
        if redirects(targets, local_port, last[i]) {
            let target = choose|target: Target|
                last[i] == #[trigger] redirection(targets, target, local_port);
            assert(last.contains(redirection(targets, target, local_port)));
        }
    }
    filter_keeps_all(last, keep);
}

proof fn trace_fails_thrice(
    targets: RedirectTargets,
    local_port: u16,
    step: CleanupStep,
    tables: Seq<Seq<Seq<Seq<char>>>>,
    codes: Seq<i32>,
)
    requires
        cleanup_trace(targets, local_port, step, tables, codes),
    ensures
        cleanup_position(cleanup_run(step, codes)) == cleanup_position(step) + failures(codes),
    decreases codes.len(),
{
    if codes.len() > 0 {
        let next = cleanup_next(step->Remove_0, codes[0]);
        trace_fails_thrice(targets, local_port, next, tables.drop_first(), codes.drop_first());
    }
}

/// Cleaning up comes to its end on every table: it runs no more commands than the table has rules,
/// and three.
pub proof fn cleanup_ends(
    targets: RedirectTargets,
    local_port: u16,
    tables: Seq<Seq<Seq<Seq<char>>>>,
    codes: Seq<i32>,
)
    requires
        cleanup_trace(
            targets,
            local_port,
            CleanupStep::Remove(Target::WireServer),
            tables,
            codes,
        ),
    ensures
        codes.len() <= tables[0].len() + 3,
{
    let begin = CleanupStep::Remove(Target::WireServer);
    trace_clears(targets, local_port, begin, tables, codes);
    trace_fails_thrice(targets, local_port, begin, tables, codes);
}

/// The second of two cleanups runs exactly three commands, all of which fail, and changes nothing.
pub proof fn second_cleanup_changes_nothing(
    targets: RedirectTargets,
    local_port: u16,
    tables: Seq<Seq<Seq<Seq<char>>>>,
    codes: Seq<i32>,
    tables_again: Seq<Seq<Seq<Seq<char>>>>,
    codes_again: Seq<i32>,
)
    requires
        cleanup_trace(
            targets,
            local_port,
            CleanupStep::Remove(Target::WireServer),
            tables,
            codes,
        ),
        cleanup_run(CleanupStep::Remove(Target::WireServer), codes) == CleanupStep::Finished,
        cleanup_trace(
            targets,
            local_port,
            CleanupStep::Remove(Target::WireServer),
            tables_again,
            codes_again,
        ),
        cleanup_run(CleanupStep::Remove(Target::WireServer), codes_again) == CleanupStep::Finished,
        tables_again[0] == tables.last(),
    ensures
        codes_again.len() == 3,
        forall|i: int| 0 <= i < 3 ==> #[trigger] codes_again[i] != 0,
        forall|i: int| 0 <= i < tables_again.len() ==> #[trigger] tables_again[i] == tables.last(),
{
    let begin = CleanupStep::Remove(Target::WireServer);
    cleanup_clears_the_table(targets, local_port, tables, codes);
    cleanup_clears_the_table(targets, local_port, tables_again, codes_again);
    clear_trace_stays(targets, local_port, begin, tables_again, codes_again);
}

proof fn clear_trace_stays(
    targets: RedirectTargets,
    local_port: u16,
    step: CleanupStep,
    tables: Seq<Seq<Seq<Seq<char>>>>,
    codes: Seq<i32>,
)
    requires
        cleanup_trace(targets, local_port, step, tables, codes),
        forall|target: Target|
            !tables[0].contains(#[trigger] redirection(targets, target, local_port)),
    ensures
        forall|i: int| 0 <= i < codes.len() ==> #[trigger] codes[i] != 0,
        forall|i: int| 0 <= i < tables.len() ==> #[trigger] tables[i] == tables[0],
    decreases codes.len(),
{
    if codes.len() > 0 {
        let target = step->Remove_0;
        delete_names_the_rule(targets, target, local_port);
        let later = tables.drop_first();
        let later_codes = codes.drop_first();
        clear_trace_stays(
            targets,
            local_port,
            cleanup_next(target, codes[0]),
            later,
            later_codes,
        );
        assert forall|i: int| 0 <= i < codes.len() implies #[trigger] codes[i] != 0 by {
            if i > 0 {
                assert(later_codes[i - 1] == codes[i]);
            }
        }
        assert forall|i: int| 0 <= i < tables.len() implies #[trigger] tables[i] == tables[0] by {
            if i > 0 {
                assert(later[i - 1] == tables[i]);
            }
        }
    }
}

proof fn setup_adds_only_redirections(
    targets: RedirectTargets,
    local_port: u16,
    step: SetupStep,
    tables: Seq<Seq<Seq<Seq<char>>>>,
    codes: Seq<i32>,
)
    requires
        setup_trace(targets, local_port, step, tables, codes),
    ensures
        other_rules(targets, local_port, tables.last()) == other_rules(
            targets,
            local_port,
            tables[0],
        ),
    decreases codes.len(),
{
    if codes.len() > 0 {
        let target = step->Configure_0;
        let rule = redirection(targets, target, local_port);
        let keep = |rule: Seq<Seq<char>>| !redirects(targets, local_port, rule);
        if codes[0] == 0 {
            assert(!keep(rule));
            filter_skips_removed(tables[1], tables[0].len() as int, keep);
            assert(tables[1].remove(tables[0].len() as int) =~= tables[0]);
        }
        setup_adds_only_redirections(
            targets,
            local_port,
            setup_next(target, codes[0]),
            tables.drop_first(),
            codes.drop_first(),
        );
        assert(tables.drop_first().last() == tables.last());
    }
}

/// A redirection to one local port is none of the redirections to another.
pub proof fn ports_do_not_share_redirections(
    targets: RedirectTargets,
    target: Target,
    local_port: u16,
    other_port: u16,
)
    requires
        other_port != local_port,
    ensures
        !redirects(targets, local_port, redirection(targets, target, other_port)),
{
    let rule = redirection(targets, target, other_port);
    if redirects(targets, local_port, rule) {
        let t = choose|t: Target| rule == #[trigger] redirection(targets, t, local_port);
        let head = "127.0.0.1:"@;
        let here = decimal(local_port as nat);
        let there = decimal(other_port as nat);
        assert(rule[17] == head + there);
        assert(redirection(targets, t, local_port)[17] == head + here);
        assert(there =~= (head + there).skip(head.len() as int));
        assert(here =~= (head + here).skip(head.len() as int));
        decimal_is_injective(local_port as nat, other_port as nat);
    }
}

/// A cleanup that is finished has kept the redirections to every other local port.
pub proof fn cleanup_keeps_other_ports(
    targets: RedirectTargets,
    target: Target,
    local_port: u16,
    other_port: u16,
    tables: Seq<Seq<Seq<Seq<char>>>>,
    codes: Seq<i32>,
)
    requires
        other_port != local_port,
        cleanup_trace(
            targets,
            local_port,
            CleanupStep::Remove(Target::WireServer),
            tables,
            codes,
        ),
        cleanup_run(CleanupStep::Remove(Target::WireServer), codes) == CleanupStep::Finished,
    ensures
        tables.last().contains(redirection(targets, target, other_port)) == tables[0].contains(
            redirection(targets, target, other_port),
        ),
{
    let rule = redirection(targets, target, other_port);
    let keep = |rule: Seq<Seq<char>>| !redirects(targets, local_port, rule);
    ports_do_not_share_redirections(targets, target, local_port, other_port);
    cleanup_clears_the_table(targets, local_port, tables, codes);
    if tables[0].contains(rule) {
        let i = choose|i: int| 0 <= i < tables[0].len() && tables[0][i] == rule;
        assert(keep(tables[0][i]));
        tables[0].lemma_filter_contains(keep, i);
    }
    if tables.last().contains(rule) {
        tables[0].lemma_filter_contains_rev(keep, rule);
    }
}

/// Cleaning up undoes setting up, whether or not setting up succeeded: the table is then what it was,
/// but for redirections to `local_port` that it already held.
pub proof fn cleanup_undoes_setup(
    targets: RedirectTargets,
    local_port: u16,
    setup_tables: Seq<Seq<Seq<Seq<char>>>>,
    setup_codes: Seq<i32>,
    tables: Seq<Seq<Seq<Seq<char>>>>,
    codes: Seq<i32>,
)
    requires
        setup_trace(
            targets,
            local_port,
            SetupStep::Configure(Target::WireServer),
            setup_tables,
            setup_codes,
        ),
        tables[0] == setup_tables.last(),
        cleanup_trace(
            targets,
            local_port,
            CleanupStep::Remove(Target::WireServer),
            tables,
            codes,
        ),
        cleanup_run(CleanupStep::Remove(Target::WireServer), codes) == CleanupStep::Finished,
    ensures
        tables.last() == other_rules(targets, local_port, setup_tables[0]),
{
    setup_adds_only_redirections(
        targets,
        local_port,
        SetupStep::Configure(Target::WireServer),
        setup_tables,
        setup_codes,
    );
    cleanup_clears_the_table(targets, local_port, tables, codes);
}

/// Whether a rule, word for word, sends the TCP traffic for `ip` and `port` to `local_port` on the
/// loopback address, unless it comes from the group `gid`.
pub open spec fn sends(
    rule: Seq<Seq<char>>,
    ip: Seq<char>,
    port: Seq<char>,
    local_port: Seq<char>,
    gid: Seq<char>,
) -> bool {
    &&& rule.len() == 18
    &&& rule[0] == "-t"@ && rule[1] == "nat"@ && rule[2] == "OUTPUT"@
    &&& rule[3] == "-p"@ && rule[4] == "tcp"@
    &&& rule[5] == "-d"@ && rule[6] == ip
    &&& rule[7] == "--dport"@ && rule[8] == port
    &&& rule[9] == "-m"@ && rule[10] == "owner"@ && rule[11] == "!"@
    &&& rule[12] == "--gid-owner"@ && rule[13] == gid
    &&& rule[14] == "-j"@ && rule[15] == "DNAT"@
    &&& rule[16] == "--to-destination"@ && rule[17] == "127.0.0.1:"@ + local_port
}

/// Whether a rule sends the traffic for `ip` and `port` to `local_port`, but for that of the agent.
pub open spec fn sends_to_proxy(
    rule: Seq<Seq<char>>,
    ip: Seq<char>,
    port: u16,
    local_port: u16,
) -> bool {
    sends(rule, ip, decimal(port as nat), decimal(local_port as nat), decimal(3080))
}

/// The arguments of a command are a rule with the flag in the third place: `-A` to add it, `-D` to
/// delete it. Each of the texts that the command is made of stands in its own place of the rule.
pub proof fn arguments_name_the_rule(
    dest_ip: Seq<char>,
    dest_port: Seq<char>,
    local_port: Seq<char>,
    enable: bool,
    exclude_gid: Seq<char>,
)
    ensures
        ({
            let args = spec_redirection_args(dest_ip, dest_port, local_port, enable, exclude_gid);
            &&& args.len() == 19
            &&& args[2] == (if enable {
                "-A"@
            } else {
                "-D"@
            })
            &&& sends(args.remove(2), dest_ip, dest_port, local_port, exclude_gid)
        }),
{
}

/// The rule for each target is the one for the endpoint of that name.
pub proof fn targets_name_their_endpoints(targets: RedirectTargets, local_port: u16, enable: bool)
    ensures
        sends_to_proxy(
            target_args(targets, Target::WireServer, local_port, enable).remove(2),
            targets.wire_server.ip@,
            targets.wire_server.port,
            local_port,
        ),
        sends_to_proxy(
            target_args(targets, Target::Imds, local_port, enable).remove(2),
            targets.imds.ip@,
            targets.imds.port,
            local_port,
        ),
        sends_to_proxy(
            target_args(targets, Target::GaPlugin, local_port, enable).remove(2),
            targets.ga_plugin.ip@,
            targets.ga_plugin.port,
            local_port,
        ),
        forall|target: Target| (#[trigger] target_args(targets, target, local_port, enable)).len()
            == 19,
        forall|target: Target|
            (#[trigger] target_args(targets, target, local_port, enable))[2] == (if enable {
                "-A"@
            } else {
                "-D"@
            }),
{
}

/// A setup that succeeded has added, after all the rules that were there, one rule for each of the
/// wire server, the metadata service and the plugin, which sends the traffic for its address and
/// port to `local_port`.
pub proof fn successful_setup_redirects_every_endpoint(
    targets: RedirectTargets,
    local_port: u16,
    tables: Seq<Seq<Seq<Seq<char>>>>,
    codes: Seq<i32>,
)
    requires
        setup_trace(
            targets,
            local_port,
            SetupStep::Configure(Target::WireServer),
            tables,
            codes,
        ),
        setup_run(SetupStep::Configure(Target::WireServer), codes) == (SetupStep::Finished {
            redirected: true,
        }),
    ensures
        ({
            let before = tables[0];
            let after = tables.last();
            let n = before.len() as int;
            &&& after.len() == n + 3
            &&& after.take(n) == before
            &&& sends_to_proxy(
                after[n],
                targets.wire_server.ip@,
                targets.wire_server.port,
                local_port,
            )
            &&& sends_to_proxy(after[n + 1], targets.imds.ip@, targets.imds.port, local_port)
            &&& sends_to_proxy(
                after[n + 2],
                targets.ga_plugin.ip@,
                targets.ga_plugin.port,
                local_port,
            )
        }),
{
    setup_needs_every_rule(codes);
    targets_name_their_endpoints(targets, local_port, true);
    reveal_with_fuel(setup_trace, 4);
    reveal_with_fuel(setup_run, 4);
    let once = codes.drop_first();
    let twice = once.drop_first();
    assert(once[0] == codes[1] && twice[0] == codes[2]);
    let t1 = tables.drop_first();
    let t2 = t1.drop_first();
    let t3 = t2.drop_first();
    assert(codes[0] == 0 && codes[1] == 0 && codes[2] == 0);
    assert(codes.len() == 3) by {
        let rest = twice.drop_first();
        assert(setup_trace(
            targets,
            local_port,
            SetupStep::Finished { redirected: true },
            t3,
            rest,
        ));
    }
    assert(tables[1] == t1[0] && tables[2] == t1[1] && t2[0] == tables[2] && t2[1] == tables[3]);
    assert(tables.last() == tables[3]);
    assert(tables[3].take(tables[0].len() as int) =~= tables[0]);
}

/// A cleanup that is finished has left no rule that sends the traffic for the wire server, the
/// metadata service or the plugin to `local_port`.
pub proof fn finished_cleanup_redirects_no_endpoint(
    targets: RedirectTargets,
    local_port: u16,
    tables: Seq<Seq<Seq<Seq<char>>>>,
    codes: Seq<i32>,
)
    requires
        cleanup_trace(
            targets,
            local_port,
            CleanupStep::Remove(Target::WireServer),
            tables,
            codes,
        ),
        cleanup_run(CleanupStep::Remove(Target::WireServer), codes) == CleanupStep::Finished,
    ensures
        forall|k: int|
            0 <= k < tables.last().len() ==> {
                let rule = #[trigger] tables.last()[k];
                &&& !sends_to_proxy(
                    rule,
                    targets.wire_server.ip@,
                    targets.wire_server.port,
                    local_port,
                )
                &&& !sends_to_proxy(rule, targets.imds.ip@, targets.imds.port, local_port)
                &&& !sends_to_proxy(rule, targets.ga_plugin.ip@, targets.ga_plugin.port, local_port)
            },
{
    let last = tables.last();
    cleanup_clears_the_table(targets, local_port, tables, codes);
    targets_name_their_endpoints(targets, local_port, true);
    assert forall|k: int| 0 <= k < last.len() implies {
        let rule = #[trigger] last[k];
        &&& !sends_to_proxy(rule, targets.wire_server.ip@, targets.wire_server.port, local_port)
        &&& !sends_to_proxy(rule, targets.imds.ip@, targets.imds.port, local_port)
        &&& !sends_to_proxy(rule, targets.ga_plugin.ip@, targets.ga_plugin.port, local_port)
    } by {
        let rule = last[k];
        assert(last.contains(rule));
        let wire = redirection(targets, Target::WireServer, local_port);
        let imds = redirection(targets, Target::Imds, local_port);
        let plugin = redirection(targets, Target::GaPlugin, local_port);
        if sends_to_proxy(rule, targets.wire_server.ip@, targets.wire_server.port, local_port) {
            assert(rule =~= wire);
        }
        if sends_to_proxy(rule, targets.imds.ip@, targets.imds.port, local_port) {
            assert(rule =~= imds);
        }
        if sends_to_proxy(rule, targets.ga_plugin.ip@, targets.ga_plugin.port, local_port) {
            assert(rule =~= plugin);
        }
    }
}

/// A cleanup that is finished has left every rule that sends other traffic elsewhere: whatever is
/// none of the three rules for `local_port`, word for word, is still there.
pub proof fn finished_cleanup_keeps_the_rest(
    targets: RedirectTargets,
    local_port: u16,
    tables: Seq<Seq<Seq<Seq<char>>>>,
    codes: Seq<i32>,
    rule: Seq<Seq<char>>,
)
    requires
        cleanup_trace(
            targets,
            local_port,
            CleanupStep::Remove(Target::WireServer),
            tables,
            codes,
        ),
        cleanup_run(CleanupStep::Remove(Target::WireServer), codes) == CleanupStep::Finished,
        tables[0].contains(rule),
        !sends_to_proxy(rule, targets.wire_server.ip@, targets.wire_server.port, local_port),
        !sends_to_proxy(rule, targets.imds.ip@, targets.imds.port, local_port),
        !sends_to_proxy(rule, targets.ga_plugin.ip@, targets.ga_plugin.port, local_port),
    ensures
        tables.last().contains(rule),
{
    let keep = |rule: Seq<Seq<char>>| !redirects(targets, local_port, rule);
    cleanup_clears_the_table(targets, local_port, tables, codes);
    targets_name_their_endpoints(targets, local_port, true);
    if redirects(targets, local_port, rule) {
        let t = choose|t: Target| rule == #[trigger] redirection(targets, t, local_port);
        match t {
            Target::WireServer => {},
            Target::Imds => {},
            Target::GaPlugin => {},
        }
    }
    let i = choose|i: int| 0 <= i < tables[0].len() && tables[0][i] == rule;
    assert(keep(tables[0][i]));
    tables[0].lemma_filter_contains(keep, i);
}

/// The report on a command is an error if and only if a rule could not be added. It tells, in this
/// order, what was to be done, from where to where, the exit code and both texts of the command.
pub proof fn report_tells_the_command(
    dest_ip: Seq<char>,
    dest_port: Seq<char>,
    local_port: Seq<char>,
    enable: bool,
    output: CommandOutput,
)
    ensures
        ({
            let report = redirection_report(dest_ip, dest_port, local_port, enable, output);
            let message = match report {
                FirewallReport::Information(message) => message,
                FirewallReport::ErrorStatus(message) => message,
            };
            &&& (report is ErrorStatus) == (enable && output.code != 0)
            &&& message == "config_one_firewall_redirection: "@ + (if enable {
                "-A"@
            } else {
                "-D"@
            }) + " redirect "@ + dest_ip + ":"@ + dest_port + " to "@ + ("127.0.0.1:"@ + local_port)
                + " result: '"@ + decimal_int(output.code as int) + "'-'"@ + output.output@ + "'-'"@
                + output.error@ + "'."@
        }),
{
}

/// The report on a command for a target is that on its endpoint's address and port.
pub proof fn report_names_the_endpoint(
    targets: RedirectTargets,
    local_port: u16,
    enable: bool,
    output: CommandOutput,
)
    ensures
        target_report(targets, Target::WireServer, local_port, enable, output)
            == redirection_report(
            targets.wire_server.ip@,
            decimal(targets.wire_server.port as nat),
            decimal(local_port as nat),
            enable,
            output,
        ),
        target_report(targets, Target::Imds, local_port, enable, output) == redirection_report(
            targets.imds.ip@,
            decimal(targets.imds.port as nat),
            decimal(local_port as nat),
            enable,
            output,
        ),
        target_report(targets, Target::GaPlugin, local_port, enable, output) == redirection_report(
            targets.ga_plugin.ip@,
            decimal(targets.ga_plugin.port as nat),
            decimal(local_port as nat),
            enable,
            output,
        ),
{
}

} // verus!
