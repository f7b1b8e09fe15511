//! The phases of the tuning run, each written as a plan of steps.
use vstd::prelude::*;
use vstd::string::StringExecFns;

use crate::console::{line, StatusLine};
use crate::nic::{output_or_empty, reply_lines, set_nic_property, set_nic_property_spec};
use crate::plan::{
    op_views, plan_wf, providers_before, Op, OpView, PlanView, ProbeWarn, Report, ReportView,
};
use crate::shell::reply_view;
use crate::text::{content_lines, decimal, push_decimal, views};

verus! {

/// A command whose failure is reported with a warning.
pub open spec fn warned(command: Seq<char>, desc: Seq<char>) -> OpView {
    OpView::Run { command, report: ReportView::Warn(desc) }
}

fn warned_run(command: String, desc: String) -> (o: Op)
    ensures
        o@ == warned(command@, desc@),
{
    Op::Run { command, report: Report::Warn(desc) }
}

fn text3(a: &str, b: &str, c: &str) -> (s: String)
    ensures
        s@ == a@ + b@ + c@,
{
    let mut s = a.to_owned();
    s.append(b);
    s.append(c);
    s
}

fn push_op(ops: &mut Vec<Op>, o: Op)
    ensures
        op_views(final(ops)@) == op_views(old(ops)@).push(o@),
{
    let ghost before = ops@;
    ops.push(o);
    proof {
        assert(op_views(ops@) =~= op_views(before).push(o@));
    }
}

// ---------------------------------------------------------------------------
// Loopback
// ---------------------------------------------------------------------------

/// Turns off the large loopback MTU for IPv4 and IPv6.
pub const LOOPBACK_COMMAND: &'static str =
    "netsh int ipv4 set global loopbacklargemtu=disable; netsh int ipv6 set global loopbacklargemtu=disable";

/// The loopback phase: one command, a warning when it fails.
pub open spec fn loopback_plan() -> Seq<OpView> {
    seq![warned(LOOPBACK_COMMAND@, "Loopback Large MTU deshabilitado (IPv4 + IPv6)"@)]
}

/// The plan that disables the large loopback MTU.
pub fn optimize_loopback() -> (ops: Vec<Op>)
    ensures
        op_views(ops@) == loopback_plan(),
{
    let mut ops: Vec<Op> = Vec::new();
    push_op(
        &mut ops,
        warned_run(LOOPBACK_COMMAND.to_owned(), "Loopback Large MTU deshabilitado (IPv4 + IPv6)".to_owned()),
    );
    proof {
        assert(op_views(ops@) =~= loopback_plan());
    }
    ops
}

// ---------------------------------------------------------------------------
// Global TCP parameters
// ---------------------------------------------------------------------------

/// The global TCP parameters, each a command whose failure is reported with
/// a warning. The last one, the minimum receive window, is not available on
/// every Windows version.
pub open spec fn tcp_global_plan() -> Seq<OpView> {
    seq![
        warned("netsh int tcp set global ecncapability=disabled"@, "Desactivando ECN (Explicit Congestion Notification)..."@),
        warned("netsh int tcp set heuristics disabled"@, "Desactivando Heuristica TCP..."@),
        warned("netsh int tcp set global autotuninglevel=normal"@, "Ajustando AutoTuningLevel (Normal)..."@),
        warned("netsh int tcp set global timestamps=enabled"@, "Activando TCP Timestamps (mejor estimacion RTT)..."@),
        warned("netsh int tcp set global chimney=disabled"@, "Desactivando Chimney Offload (obsoleto)..."@),
        warned("netsh int tcp set global dca=disabled"@, "Desactivando Direct Cache Access..."@),
        warned("netsh int tcp set global initialRto=2000"@, "Ajustando Initial RTO a 2000ms..."@),
        warned("netsh int tcp set global rss=enabled"@, "Activando RSS global..."@),
        warned("netsh int tcp set global maxsynretransmissions=8"@, "Ajustando Max SYN Retransmissions a 8..."@),
        warned("netsh int tcp set global nonsackrttresiliency=disabled"@, "Desactivando resiliencia Non-SACK RST..."@),
        warned("netsh int tcp set global rsc=disabled"@, "Desactivando Receive Segment Coalescing (RSC) global..."@),
        warned("netsh int tcp set global tcpcachingmode=enabled"@, "Activando Caching de conexiones (TCPCache)..."@),
        warned("netsh int tcp set global minrwnd=65535"@, "Ajustando Min RWIN a 65535..."@),
    ]
}

/// The plan that sets the global TCP parameters.
pub fn apply_tcp_global_optimizations() -> (ops: Vec<Op>)
    ensures
        op_views(ops@) == tcp_global_plan(),
{
    let mut ops: Vec<Op> = Vec::new();
    push_op(&mut ops, warned_run("netsh int tcp set global ecncapability=disabled".to_owned(), "Desactivando ECN (Explicit Congestion Notification)...".to_owned()));
    push_op(&mut ops, warned_run("netsh int tcp set heuristics disabled".to_owned(), "Desactivando Heuristica TCP...".to_owned()));
    push_op(&mut ops, warned_run("netsh int tcp set global autotuninglevel=normal".to_owned(), "Ajustando AutoTuningLevel (Normal)...".to_owned()));
    push_op(&mut ops, warned_run("netsh int tcp set global timestamps=enabled".to_owned(), "Activando TCP Timestamps (mejor estimacion RTT)...".to_owned()));
    push_op(&mut ops, warned_run("netsh int tcp set global chimney=disabled".to_owned(), "Desactivando Chimney Offload (obsoleto)...".to_owned()));
    push_op(&mut ops, warned_run("netsh int tcp set global dca=disabled".to_owned(), "Desactivando Direct Cache Access...".to_owned()));
    push_op(&mut ops, warned_run("netsh int tcp set global initialRto=2000".to_owned(), "Ajustando Initial RTO a 2000ms...".to_owned()));
    push_op(&mut ops, warned_run("netsh int tcp set global rss=enabled".to_owned(), "Activando RSS global...".to_owned()));
    push_op(&mut ops, warned_run("netsh int tcp set global maxsynretransmissions=8".to_owned(), "Ajustando Max SYN Retransmissions a 8...".to_owned()));
    push_op(&mut ops, warned_run("netsh int tcp set global nonsackrttresiliency=disabled".to_owned(), "Desactivando resiliencia Non-SACK RST...".to_owned()));
    push_op(&mut ops, warned_run("netsh int tcp set global rsc=disabled".to_owned(), "Desactivando Receive Segment Coalescing (RSC) global...".to_owned()));
    push_op(&mut ops, warned_run("netsh int tcp set global tcpcachingmode=enabled".to_owned(), "Activando Caching de conexiones (TCPCache)...".to_owned()));
    push_op(&mut ops, warned_run("netsh int tcp set global minrwnd=65535".to_owned(), "Ajustando Min RWIN a 65535...".to_owned()));
    proof {
        assert(op_views(ops@) =~= tcp_global_plan());
    }
    ops
}

// ---------------------------------------------------------------------------
// Firewall
// ---------------------------------------------------------------------------

/// The telemetry services whose outbound traffic is blocked.
pub open spec fn blocked_services() -> Seq<Seq<char>> {
    seq!["DiagTrack"@, "WerSvc"@, "dmwappushservice"@]
}

/// The name of the rule that blocks `service`.
pub open spec fn rule_name(service: Seq<char>) -> Seq<char> {
    "Block "@ + service
}

/// The command that deletes every rule named `name`.
pub open spec fn delete_rule_spec(name: Seq<char>) -> Seq<char> {
    "netsh advfirewall firewall delete rule name=\""@ + name + "\""@
}

/// The command that adds a rule named `name` blocking outbound traffic of
/// `service`.
pub open spec fn add_rule_spec(name: Seq<char>, service: Seq<char>) -> Seq<char> {
    "netsh advfirewall firewall add rule name=\""@ + name + "\" dir=out action=block service="@
        + service
}

/// The report of the rule blocking `service`.
pub open spec fn rule_desc(service: Seq<char>) -> Seq<char> {
    "Bloqueando "@ + service + " (Outbound)..."@
}

/// For each blocked service, the deletion of any earlier rule of the same
/// name (its outcome not reported), then the rule itself (its failure
/// reported without a warning).
pub open spec fn firewall_plan() -> Seq<OpView> {
    Seq::new(
        6,
        |i: int|
            {
                let service = blocked_services()[i / 2];
                if i % 2 == 0 {
                    OpView::Run {
                        command: delete_rule_spec(rule_name(service)),
                        report: ReportView::Silent,
                    }
                } else {
                    OpView::Run {
                        command: add_rule_spec(rule_name(service), service),
                        report: ReportView::Quiet(rule_desc(service)),
                    }
                }
            },
    )
}

fn push_rule(ops: &mut Vec<Op>, service: &str)
    ensures
        op_views(final(ops)@) == op_views(old(ops)@).push(
            OpView::Run { command: delete_rule_spec(rule_name(service@)), report: ReportView::Silent },
        ).push(
            OpView::Run {
                command: add_rule_spec(rule_name(service@), service@),
                report: ReportView::Quiet(rule_desc(service@)),
            },
        ),
{
    let name = text3("Block ", service, "");
    proof {
        reveal_strlit("");
        assert(name@ =~= rule_name(service@));
    }
    let delete = text3("netsh advfirewall firewall delete rule name=\"", name.as_str(), "\"");
    let mut add = text3("netsh advfirewall firewall add rule name=\"", name.as_str(), "\" dir=out action=block service=");
    add.append(service);
    let desc = text3("Bloqueando ", service, " (Outbound)...");
    push_op(ops, Op::Run { command: delete, report: Report::Silent });
    push_op(ops, Op::Run { command: add, report: Report::Quiet(desc) });
}

/// The plan that blocks the telemetry services in the firewall.
pub fn apply_firewall_rules() -> (ops: Vec<Op>)
    ensures
        op_views(ops@) == firewall_plan(),
{
    let mut ops: Vec<Op> = Vec::new();
    push_rule(&mut ops, "DiagTrack");
    push_rule(&mut ops, "WerSvc");
    push_rule(&mut ops, "dmwappushservice");
    proof {
        assert(op_views(ops@) =~= firewall_plan());
    }
    ops
}

/// Every firewall rule is added right after the deletion of any rule of the
/// same name, so running the phase twice leaves one rule per service; the
/// deletion's outcome is not reported.
pub proof fn lemma_rules_deleted_before_added()
    ensures
        forall|i: int|
            0 <= i < blocked_services().len() ==> {
                let service = #[trigger] blocked_services()[i];
                &&& firewall_plan()[2 * i] == (OpView::Run {
                    command: delete_rule_spec(rule_name(service)),
                    report: ReportView::Silent,
                })
                &&& firewall_plan()[2 * i + 1] matches OpView::Run { command, report }
                    && command == add_rule_spec(rule_name(service), service)
            },
        firewall_plan().len() == 2 * blocked_services().len(),
{
    assert forall|i: int| 0 <= i < blocked_services().len() implies {
        let service = #[trigger] blocked_services()[i];
        &&& firewall_plan()[2 * i] == (OpView::Run {
            command: delete_rule_spec(rule_name(service)),
            report: ReportView::Silent,
        })
        &&& firewall_plan()[2 * i + 1] matches OpView::Run { command, report }
            && command == add_rule_spec(rule_name(service), service)
    } by {
        assert((2 * i) / 2 == i);
        assert((2 * i + 1) / 2 == i);
        assert((2 * i) % 2 == 0);
        assert((2 * i + 1) % 2 == 1);
    }
}

/// A firewall rule as this phase sees it: its name, direction, action and
/// the service it applies to.
pub struct FirewallRule {
    pub name: Seq<char>,
    pub direction: Seq<char>,
    pub action: Seq<char>,
    pub service: Seq<char>,
}

/// A change to the firewall's rule table made by one `netsh` command.
pub enum RuleChange {
    /// Removes every rule of this name.
    Delete(Seq<char>),
    /// Appends this rule.
    Add(FirewallRule),
}

/// The `netsh` command that makes `change`.
pub open spec fn rule_change_command(change: RuleChange) -> Seq<char> {
    match change {
        RuleChange::Delete(name) => delete_rule_spec(name),
        RuleChange::Add(rule) => "netsh advfirewall firewall add rule name=\""@ + rule.name
            + "\" dir="@ + rule.direction + " action="@ + rule.action + " service="@
            + rule.service,
    }
}

/// The rule table after `change`: a deletion keeps the rules of other
/// names, in order; an addition appends its rule.
pub open spec fn apply_rule_change(table: Seq<FirewallRule>, change: RuleChange) -> Seq<FirewallRule> {
    match change {
        RuleChange::Delete(name) => table.filter(|r: FirewallRule| r.name != name),
        RuleChange::Add(rule) => table.push(rule),
    }
}

/// The rule table after `changes`, made one after the other.
pub open spec fn apply_rule_changes(table: Seq<FirewallRule>, changes: Seq<RuleChange>) -> Seq<
    FirewallRule,
>
    decreases changes.len(),
{
    if changes.len() == 0 {
        table
    } else {
        apply_rule_change(apply_rule_changes(table, changes.drop_last()), changes.last())
    }
}

/// The rule that blocks the outbound traffic of `service`.
pub open spec fn blocking_rule(service: Seq<char>) -> FirewallRule {
    FirewallRule { name: rule_name(service), direction: "out"@, action: "block"@, service }
}

/// The changes the firewall phase makes, in order: for each blocked
/// service, the deletion of the rules of its name, then its rule.
pub open spec fn firewall_changes() -> Seq<RuleChange> {
    Seq::new(
        6,
        |i: int|
            {
                let service = blocked_services()[i / 2];
                if i % 2 == 0 {
                    RuleChange::Delete(rule_name(service))
                } else {
                    RuleChange::Add(blocking_rule(service))
                }
            },
    )
}

/// Whether `name` is the name of one of the phase's blocking rules.
pub open spec fn is_blocking_rule_name(name: Seq<char>) -> bool {
    ||| name == rule_name(blocked_services()[0])
    ||| name == rule_name(blocked_services()[1])
    ||| name == rule_name(blocked_services()[2])
}

/// The rules the phase leaves untouched.
pub open spec fn keeps_rule(rule: FirewallRule) -> bool {
    !is_blocking_rule_name(rule.name)
}

/// The blocking rules, one per service, in the order of the services.
pub open spec fn blocking_rules() -> Seq<FirewallRule> {
    seq![
        blocking_rule(blocked_services()[0]),
        blocking_rule(blocked_services()[1]),
        blocking_rule(blocked_services()[2]),
    ]
}

/// Each command of the firewall phase is the `netsh` command of the
/// corresponding change.
pub proof fn lemma_firewall_commands_are_changes()
    ensures
        firewall_plan().len() == firewall_changes().len(),
        forall|i: int|
            0 <= i < firewall_changes().len() ==> (#[trigger] firewall_plan()[i] matches OpView::Run {
                command,
                report,
            } && command == rule_change_command(firewall_changes()[i])),
{
    reveal_strlit("\" dir=out action=block service=");
    reveal_strlit("\" dir=");
    reveal_strlit("out");
    reveal_strlit(" action=");
    reveal_strlit("block");
    reveal_strlit(" service=");
    assert forall|i: int| 0 <= i < firewall_changes().len() implies (#[trigger] firewall_plan()[i] matches OpView::Run {
        command,
        report,
    } && command == rule_change_command(firewall_changes()[i])) by {
        let service = blocked_services()[i / 2];
        if i % 2 == 1 {
            let head = "netsh advfirewall firewall add rule name=\""@ + rule_name(service);
            assert("\" dir=out action=block service="@ =~= "\" dir="@ + "out"@ + " action="@
                + "block"@ + " service="@);
            assert(add_rule_spec(rule_name(service), service) =~= head + "\" dir="@ + "out"@
                + " action="@ + "block"@ + " service="@ + service);
        }
    }
}

proof fn lemma_filter_filter(
    s: Seq<FirewallRule>,
    p: spec_fn(FirewallRule) -> bool,
    q: spec_fn(FirewallRule) -> bool,
)
    ensures
        s.filter(p).filter(q) == s.filter(|r: FirewallRule| p(r) && q(r)),
    decreases s.len(),
{
    let pq = |r: FirewallRule| p(r) && q(r);
    if s.len() > 0 {
        lemma_filter_filter(s.drop_last(), p, q);
        assert(s.drop_last().push(s.last()) =~= s);
        s.drop_last().lemma_filter_push(s.last(), p);
        s.drop_last().lemma_filter_push(s.last(), pq);
        s.drop_last().filter(p).lemma_filter_push(s.last(), q);
    } else {
        reveal(Seq::filter);
    }
}

proof fn lemma_filter_keeps_all(s: Seq<FirewallRule>, p: spec_fn(FirewallRule) -> bool)
    requires
        forall|i: int| 0 <= i < s.len() ==> p(#[trigger] s[i]),
    ensures
        s.filter(p) == s,
    decreases s.len(),
{
    if s.len() > 0 {
        lemma_filter_keeps_all(s.drop_last(), p);
        assert(s.drop_last().push(s.last()) =~= s);
        s.drop_last().lemma_filter_push(s.last(), p);
    } else {
        reveal(Seq::filter);
    }
}

proof fn lemma_apply_rule_changes_step(table: Seq<FirewallRule>, changes: Seq<RuleChange>, k: int)
    requires
        0 <= k < changes.len(),
    ensures
        apply_rule_changes(table, changes.take(k + 1)) == apply_rule_change(
            apply_rule_changes(table, changes.take(k)),
            changes[k],
        ),
{
    assert(changes.take(k + 1).drop_last() =~= changes.take(k));
}

proof fn lemma_blocking_names_distinct()
    ensures
        rule_name(blocked_services()[0]) != rule_name(blocked_services()[1]),
        rule_name(blocked_services()[0]) != rule_name(blocked_services()[2]),
        rule_name(blocked_services()[1]) != rule_name(blocked_services()[2]),
{
    reveal_strlit("Block ");
    reveal_strlit("DiagTrack");
    reveal_strlit("WerSvc");
    reveal_strlit("dmwappushservice");
    assert(rule_name(blocked_services()[0]).len() == 15);
    assert(rule_name(blocked_services()[1]).len() == 12);
    assert(rule_name(blocked_services()[2]).len() == 22);
}

/// Running the firewall phase on any rule table removes the rules that bear
/// the blocking rules' names and appends the blocking rules; every other
/// rule stays, in its order.
pub proof fn lemma_firewall_changes_result(table: Seq<FirewallRule>)
    ensures
        apply_rule_changes(table, firewall_changes()) == kept_rules(table) + blocking_rules(),
{
    let cs = firewall_changes();
    let s0 = blocked_services()[0];
    let s1 = blocked_services()[1];
    let s2 = blocked_services()[2];
    let n0 = rule_name(s0);
    let n1 = rule_name(s1);
    let n2 = rule_name(s2);
    let r0 = blocking_rule(s0);
    let r1 = blocking_rule(s1);
    let r2 = blocking_rule(s2);
    let p0 = |r: FirewallRule| r.name != n0;
    let p1 = |r: FirewallRule| r.name != n1;
    let p2 = |r: FirewallRule| r.name != n2;
    lemma_blocking_names_distinct();
    assert(cs[0] == RuleChange::Delete(n0));
    assert(cs[1] == RuleChange::Add(r0));
    assert(cs[2] == RuleChange::Delete(n1));
    assert(cs[3] == RuleChange::Add(r1));
    assert(cs[4] == RuleChange::Delete(n2));
    assert(cs[5] == RuleChange::Add(r2));
    assert(cs.take(0) =~= Seq::<RuleChange>::empty());
    assert(cs.take(6) =~= cs);
    let a = table.filter(p0);
    lemma_apply_rule_changes_step(table, cs, 0);
    lemma_apply_rule_changes_step(table, cs, 1);
    lemma_apply_rule_changes_step(table, cs, 2);
    lemma_apply_rule_changes_step(table, cs, 3);
    lemma_apply_rule_changes_step(table, cs, 4);
    lemma_apply_rule_changes_step(table, cs, 5);
    assert(apply_rule_changes(table, cs.take(1)) == a);
    assert(apply_rule_changes(table, cs.take(2)) == a.push(r0));
    a.lemma_filter_push(r0, p1);
    let b = a.filter(p1);
    assert(apply_rule_changes(table, cs.take(3)) == b.push(r0));
    assert(apply_rule_changes(table, cs.take(4)) == b.push(r0).push(r1));
    b.lemma_filter_push(r0, p2);
    b.push(r0).lemma_filter_push(r1, p2);
    let c = b.filter(p2);
    assert(apply_rule_changes(table, cs.take(5)) == c.push(r0).push(r1));
    assert(apply_rule_changes(table, cs) == c.push(r0).push(r1).push(r2));
    lemma_filter_filter(table, p0, p1);
    lemma_filter_filter(table, |r: FirewallRule| p0(r) && p1(r), p2);
    let keep = kept_by_phase();
    assert(keep =~= |r: FirewallRule| (|r: FirewallRule| p0(r) && p1(r))(r) && p2(r));
    assert(c == table.filter(keep));
    assert(c.push(r0).push(r1).push(r2) =~= c + blocking_rules());
}

proof fn lemma_filter_blocking_rules(p: spec_fn(FirewallRule) -> bool)
    ensures
        ({
            let e = Seq::<FirewallRule>::empty();
            let r0 = blocking_rule(blocked_services()[0]);
            let r1 = blocking_rule(blocked_services()[1]);
            let r2 = blocking_rule(blocked_services()[2]);
            let f0 = if p(r0) { e.push(r0) } else { e };
            let f1 = if p(r1) { f0.push(r1) } else { f0 };
            blocking_rules().filter(p) == if p(r2) { f1.push(r2) } else { f1 }
        }),
{
    let e = Seq::<FirewallRule>::empty();
    let r0 = blocking_rule(blocked_services()[0]);
    let r1 = blocking_rule(blocked_services()[1]);
    let r2 = blocking_rule(blocked_services()[2]);
    e.lemma_filter_len(p);
    assert(e.filter(p) =~= e);
    e.lemma_filter_push(r0, p);
    e.push(r0).lemma_filter_push(r1, p);
    e.push(r0).push(r1).lemma_filter_push(r2, p);
    assert(blocking_rules() =~= e.push(r0).push(r1).push(r2));
}

/// `keeps_rule` as a predicate to filter by.
pub open spec fn kept_by_phase() -> spec_fn(FirewallRule) -> bool {
    |r: FirewallRule| keeps_rule(r)
}

/// The rules of `table` that the phase leaves untouched, in order.
pub open spec fn kept_rules(table: Seq<FirewallRule>) -> Seq<FirewallRule> {
    table.filter(kept_by_phase())
}

proof fn lemma_kept_rules(table: Seq<FirewallRule>)
    ensures
        forall|i: int|
            0 <= i < kept_rules(table).len() ==> keeps_rule(#[trigger] kept_rules(table)[i]),
{
    let keep = kept_by_phase();
    assert forall|i: int| 0 <= i < kept_rules(table).len() implies keeps_rule(
        #[trigger] kept_rules(table)[i],
    ) by {
        table.lemma_filter_pred(keep, i);
    }
}

proof fn lemma_second_run_unchanged(table: Seq<FirewallRule>)
    ensures
        ({
            let once = apply_rule_changes(table, firewall_changes());
            apply_rule_changes(once, firewall_changes()) == once
        }),
{
    let keep = kept_by_phase();
    let kept = kept_rules(table);
    let once = apply_rule_changes(table, firewall_changes());
    lemma_firewall_changes_result(table);
    lemma_firewall_changes_result(once);
    lemma_blocking_names_distinct();
    lemma_kept_rules(table);
    lemma_filter_keeps_all(kept, keep);
    let rules = blocking_rules();
    lemma_filter_blocking_rules(keep);
    assert(rules.filter(keep) =~= Seq::<FirewallRule>::empty());
    Seq::filter_distributes_over_add(kept, rules, keep);
    assert(kept_rules(once) =~= kept);
}

proof fn lemma_one_rule_per_service(table: Seq<FirewallRule>, i: int)
    requires
        0 <= i < blocked_services().len(),
    ensures
        apply_rule_changes(table, firewall_changes()).filter(
            |r: FirewallRule| r.name == rule_name(blocked_services()[i]),
        ) == seq![blocking_rule(blocked_services()[i])],
{
    let keep = kept_by_phase();
    let kept = kept_rules(table);
    let n = rule_name(blocked_services()[i]);
    let q = |r: FirewallRule| r.name == n;
    lemma_firewall_changes_result(table);
    lemma_blocking_names_distinct();
    lemma_kept_rules(table);
    assert forall|j: int| 0 <= j < kept.len() implies !q(#[trigger] kept[j]) by {
        assert(keeps_rule(kept[j]));
    }
    assert(kept.all(|x: FirewallRule| !q(x)));
    kept.lemma_all_neg_filter_empty(q);
    let rules = blocking_rules();
    lemma_filter_blocking_rules(q);
    assert(rules.filter(q) =~= seq![blocking_rule(blocked_services()[i])]);
    Seq::filter_distributes_over_add(kept, rules, q);
    assert(kept.filter(q) =~= Seq::<FirewallRule>::empty());
}

/// The firewall phase is idempotent: run again on the table it leaves, it
/// leaves the same table. That table holds exactly one rule of each
/// blocking rule's name, which blocks the outbound traffic of its service,
/// and every rule of the first table whose name is not a blocking rule's.
pub proof fn lemma_firewall_rules_idempotent(table: Seq<FirewallRule>)
    ensures
        ({
            let once = apply_rule_changes(table, firewall_changes());
            &&& apply_rule_changes(once, firewall_changes()) == once
            &&& forall|i: int|
                0 <= i < blocked_services().len() ==> once.filter(
                    |r: FirewallRule| r.name == rule_name(blocked_services()[i]),
                ) == seq![blocking_rule(#[trigger] blocked_services()[i])]
            &&& forall|r: FirewallRule| #[trigger]
                table.contains(r) && keeps_rule(r) ==> once.contains(r)
        }),
{
    let keep = kept_by_phase();
    let kept = kept_rules(table);
    let once = apply_rule_changes(table, firewall_changes());
    lemma_second_run_unchanged(table);
    assert forall|i: int| 0 <= i < blocked_services().len() implies once.filter(
        |r: FirewallRule| r.name == rule_name(blocked_services()[i]),
    ) == seq![blocking_rule(#[trigger] blocked_services()[i])] by {
        lemma_one_rule_per_service(table, i);
    }
    lemma_firewall_changes_result(table);
    assert forall|r: FirewallRule| #[trigger] table.contains(r) && keeps_rule(r) implies once.contains(r) by {
        let j = choose|j: int| 0 <= j < table.len() && table[j] == r;
        table.lemma_filter_contains(keep, j);
        let k = choose|k: int| 0 <= k < kept.len() && kept[k] == r;
        assert(once[k] == r);
    }
}

// ---------------------------------------------------------------------------
// Per-adapter steps
// ---------------------------------------------------------------------------

/// The steps `f` gives for each adapter, one adapter after the other.
pub open spec fn for_each_adapter(adapters: Seq<Seq<char>>, f: spec_fn(Seq<char>) -> Seq<OpView>) -> Seq<
    OpView,
>
    decreases adapters.len(),
{
    if adapters.len() == 0 {
        Seq::empty()
    } else {
        for_each_adapter(adapters.drop_last(), f) + f(adapters.last())
    }
}

/// `text` followed by `adapter` in brackets.
pub open spec fn tagged(text: Seq<char>, adapter: Seq<char>) -> Seq<char> {
    text + " ["@ + adapter + "]"@
}

fn tagged_text(text: &str, adapter: &str) -> (s: String)
    ensures
        s@ == tagged(text@, adapter@),
{
    let mut s = text3(text, " [", adapter);
    s.append("]");
    s
}

/// The command `prefix` applied to the adapter named `adapter`.
pub open spec fn named(prefix: Seq<char>, adapter: Seq<char>) -> Seq<char> {
    prefix + " -Name '"@ + adapter + "'"@
}

fn named_text(prefix: &str, adapter: &str) -> (s: String)
    ensures
        s@ == named(prefix@, adapter@),
{
    let mut s = text3(prefix, " -Name '", adapter);
    s.append("'");
    s
}

// ---------------------------------------------------------------------------
// Adapter offloads
// ---------------------------------------------------------------------------

/// The command that switches off large receive offload (LSOv2 for IPv4
/// and IPv6) on `adapter`, ignoring errors.
pub open spec fn lro_command(adapter: Seq<char>) -> Seq<char> {
    "Set-NetAdapterAdvancedProperty -Name '"@ + adapter
        + "' -RegistryKeyword '*LsoV2IPv4' -RegistryValue 0 -ErrorAction SilentlyContinue; Set-NetAdapterAdvancedProperty -Name '"@
        + adapter + "' -RegistryKeyword '*LsoV2IPv6' -RegistryValue 0 -ErrorAction SilentlyContinue"@
}

/// The offload steps for one adapter: receive segment coalescing and large
/// send offload off, LRO off (reported as done whatever happens), receive
/// side scaling on.
pub open spec fn offload_ops(adapter: Seq<char>) -> Seq<OpView> {
    seq![
        warned(named("Disable-NetAdapterRsc"@, adapter), tagged("RSC deshabilitado"@, adapter)),
        warned(named("Disable-NetAdapterLso"@, adapter), tagged("LSO deshabilitado"@, adapter)),
        OpView::Run {
            command: lro_command(adapter),
            report: ReportView::Assume(tagged("LROv2 deshabilitado"@, adapter)),
        },
        warned(named("Enable-NetAdapterRss"@, adapter), tagged("RSS habilitado"@, adapter)),
    ]
}

/// The offload phase for `adapters`: a note when there is none; otherwise
/// their count, then the offload steps of each.
pub open spec fn offload_plan(adapters: Seq<Seq<char>>) -> Seq<OpView> {
    if adapters.len() == 0 {
        seq![OpView::Show(line("No se encontraron adaptadores activos"@, false, true))]
    } else {
        seq![OpView::Show(line(decimal(adapters.len()) + " adaptadores activos detectados"@, true, false))]
            + for_each_adapter(adapters, |a: Seq<char>| offload_ops(a))
    }
}

fn push_offload_ops(ops: &mut Vec<Op>, adapter: &str)
    ensures
        op_views(final(ops)@) == op_views(old(ops)@) + offload_ops(adapter@),
{
    let ghost before = op_views(ops@);
    push_op(ops, warned_run(named_text("Disable-NetAdapterRsc", adapter), tagged_text("RSC deshabilitado", adapter)));
    push_op(ops, warned_run(named_text("Disable-NetAdapterLso", adapter), tagged_text("LSO deshabilitado", adapter)));
    let mut lro = text3(
        "Set-NetAdapterAdvancedProperty -Name '",
        adapter,
        "' -RegistryKeyword '*LsoV2IPv4' -RegistryValue 0 -ErrorAction SilentlyContinue; Set-NetAdapterAdvancedProperty -Name '",
    );
    lro.append(adapter);
    lro.append("' -RegistryKeyword '*LsoV2IPv6' -RegistryValue 0 -ErrorAction SilentlyContinue");
    push_op(ops, Op::Run { command: lro, report: Report::Assume(tagged_text("LROv2 deshabilitado", adapter)) });
    push_op(ops, warned_run(named_text("Enable-NetAdapterRss", adapter), tagged_text("RSS habilitado", adapter)));
    proof {
        assert(op_views(ops@) =~= before + offload_ops(adapter@));
    }
}

fn count_line(n: usize, text: &str, ok: bool, warn: bool) -> (l: StatusLine)
    ensures
        l@ == line(decimal(n as nat) + text@, ok, warn),
{
    let mut d = String::new();
    push_decimal(&mut d, n as u64);
    d.append(text);
    proof {
        assert(d@ =~= decimal(n as nat) + text@);
    }
    StatusLine { desc: d, ok, warn }
}

/// The plan that tunes the offloads of `adapters`.
pub fn apply_adapter_offload_tweaks(adapters: &Vec<String>) -> (ops: Vec<Op>)
    ensures
        op_views(ops@) == offload_plan(views(adapters@)),
{
    let mut ops: Vec<Op> = Vec::new();
    if adapters.len() == 0 {
        push_op(&mut ops, Op::Show(StatusLine { desc: "No se encontraron adaptadores activos".to_owned(), ok: false, warn: true }));
        proof {
            assert(op_views(ops@) =~= offload_plan(views(adapters@)));
        }
        return ops;
    }
    push_op(&mut ops, Op::Show(count_line(adapters.len(), " adaptadores activos detectados", true, false)));
    let ghost head = op_views(ops@);
    let mut i: usize = 0;
    while i < adapters.len()
        invariant
            i <= adapters.len(),
            op_views(ops@) == head + for_each_adapter(views(adapters@).take(i as int), |a: Seq<char>| offload_ops(a)),
        decreases adapters.len() - i,
    {
        let ghost prev = op_views(ops@);
        push_offload_ops(&mut ops, adapters[i].as_str());
        proof {
            let all = views(adapters@);
            assert(all.take(i + 1).drop_last() =~= all.take(i as int));
            assert(all.take(i + 1).last() == adapters@[i as int]@);
            assert(op_views(ops@) =~= head + for_each_adapter(all.take(i + 1), |a: Seq<char>| offload_ops(a)));
        }
        i = i + 1;
    }
    proof {
        assert(views(adapters@).take(adapters.len() as int) =~= views(adapters@));
        assert(op_views(ops@) =~= offload_plan(views(adapters@)));
    }
    ops
}

// ---------------------------------------------------------------------------
// Advanced adapter properties
// ---------------------------------------------------------------------------

/// The script that disables Nagle's algorithm on `adapter`'s interface; it
/// prints `OK` when it did, `SKIP` or `ERR` otherwise.
pub open spec fn nagle_command(adapter: Seq<char>) -> Seq<char> {
    NAGLE_SCRIPT_HEAD@ + adapter + NAGLE_SCRIPT_TAIL@
}

/// The part of the per-adapter Nagle script before the adapter's name.
pub const NAGLE_SCRIPT_HEAD: &'static str = r#"try {
                $guid = (Get-NetAdapter -Name '"#;

/// The part of the per-adapter Nagle script after the adapter's name.
pub const NAGLE_SCRIPT_TAIL: &'static str = r#"' | Select-Object -ExpandProperty InterfaceGuid)
                $path = "HKLM:\SYSTEM\CurrentControlSet\Services\Tcpip\Parameters\Interfaces\$guid"
                if (Test-Path $path) {
                    New-ItemProperty -Path $path -Name 'TcpAckFrequency' -Value 1 -PropertyType DWord -Force | Out-Null
                    New-ItemProperty -Path $path -Name 'TCPNoDelay' -Value 1 -PropertyType DWord -Force | Out-Null
                    New-ItemProperty -Path $path -Name 'TcpDelAckTicks' -Value 0 -PropertyType DWord -Force | Out-Null
                    Write-Output 'OK'
                } else { Write-Output 'SKIP' }
            } catch { Write-Output 'ERR' }"#;

/// The script that stops Wi-Fi interfaces from scanning in the background
/// while associated; it prints `OK`, `SKIP` or `ERR`.
pub const WIFI_SCAN_SCRIPT: &'static str = r#"try {
            $wlanPath = "HKLM:\SYSTEM\CurrentControlSet\Services\WlanSvc\Parameters\Interfaces"
            if (Test-Path $wlanPath) {
                Get-ChildItem $wlanPath | ForEach-Object {
                    New-ItemProperty -Path $_.PSPath -Name "ScanOnlyWhenAssociated" -Value 1 -PropertyType DWord -Force | Out-Null
                }
                Write-Output "OK"
            } else { Write-Output "SKIP" }
        } catch { Write-Output "ERR" }"#;

/// The script that disables Nagle's algorithm in the global TCP parameters;
/// it prints `OK`.
pub const GLOBAL_NAGLE_SCRIPT: &'static str = r#"New-ItemProperty -Path 'HKLM:\SYSTEM\CurrentControlSet\Services\Tcpip\Parameters' -Name 'TcpAckFrequency' -Value 1 -PropertyType DWord -Force -ErrorAction SilentlyContinue | Out-Null;
           New-ItemProperty -Path 'HKLM:\SYSTEM\CurrentControlSet\Services\Tcpip\Parameters' -Name 'TCPNoDelay' -Value 1 -PropertyType DWord -Force -ErrorAction SilentlyContinue | Out-Null;
           New-ItemProperty -Path 'HKLM:\SYSTEM\CurrentControlSet\Services\Tcpip\Parameters' -Name 'TcpDelAckTicks' -Value 0 -PropertyType DWord -Force -ErrorAction SilentlyContinue | Out-Null;
           Write-Output 'OK'"#;

/// The keywords under which adapters expose Energy Efficient Ethernet.
pub open spec fn eee_keywords() -> Seq<Seq<char>> {
    seq!["*EEE"@, "*EnableGreenEthernet"@, "*AdvancedEEE"@]
}

/// The steps for one adapter: a heading; receive and transmit buffers at
/// their maximum; interrupt moderation, flow control and Energy Efficient
/// Ethernet off; RSS queues sized for `cores`; wake-up and power
/// management off; ARP and NS offload off; Nagle off; a blank line.
pub open spec fn nic_ops(adapter: Seq<char>, cores: nat) -> Seq<OpView> {
    seq![
        OpView::Print("  ── Adaptador: "@ + adapter + " ──\n"@),
        OpView::Maximize { adapter, keyword: "*ReceiveBuffers"@, label: "Receive Buffers"@ },
        OpView::Maximize { adapter, keyword: "*TransmitBuffers"@, label: "Transmit Buffers"@ },
        warned(set_nic_property_spec(adapter, "*InterruptModeration"@, 0), tagged("Interrupt Moderation OFF"@, adapter)),
        warned(set_nic_property_spec(adapter, "*FlowControl"@, 0), tagged("Flow Control deshabilitado"@, adapter)),
        OpView::AnyKeyword { adapter, keywords: eee_keywords(), value: 0, desc: tagged("EEE / Green Ethernet OFF"@, adapter) },
        OpView::RssQueues { adapter, cores },
        warned(
            named("Set-NetAdapterPowerManagement"@, adapter) + " -WakeOnMagicPacket Disabled -ErrorAction Stop"@,
            tagged("Wake on Magic Packet OFF"@, adapter),
        ),
        warned(
            named("Set-NetAdapterPowerManagement"@, adapter) + " -WakeOnPattern Disabled -ErrorAction Stop"@,
            tagged("Wake on Pattern OFF"@, adapter),
        ),
        warned(set_nic_property_spec(adapter, "*PMARPOffload"@, 0), tagged("ARP Offload OFF"@, adapter)),
        warned(set_nic_property_spec(adapter, "*PMNSOffload"@, 0), tagged("NS Offload OFF"@, adapter)),
        warned(
            named("Set-NetAdapterPowerManagement"@, adapter) + " -AllowComputerToTurnOffDevice Disabled -ErrorAction SilentlyContinue"@,
            tagged("Ahorro de energía deshabilitado"@, adapter),
        ),
        OpView::Probe {
            command: nagle_command(adapter),
            desc: tagged("Nagle OFF (TcpAckFrequency=1)"@, adapter),
            warn: ProbeWarn::OnFailure,
        },
        OpView::Print("\n"@),
    ]
}

/// The system-wide steps that follow the adapters: Wi-Fi background
/// scanning, then the global Nagle setting.
pub open spec fn nic_closing_ops() -> Seq<OpView> {
    seq![
        OpView::Probe {
            command: WIFI_SCAN_SCRIPT@,
            desc: "Latencia Wi-Fi optimizada (ScanOnlyWhenAssociated = 1)"@,
            warn: ProbeWarn::OnError,
        },
        OpView::Probe {
            command: GLOBAL_NAGLE_SCRIPT@,
            desc: "Nagle global deshabilitado (registro TCP)"@,
            warn: ProbeWarn::Never,
        },
    ]
}

/// The advanced-property phase for `adapters` on a machine with `cores`
/// logical processors: a note when there is no adapter; otherwise the steps
/// of each adapter, then the system-wide steps.
pub open spec fn nic_plan(adapters: Seq<Seq<char>>, cores: nat) -> Seq<OpView> {
    if adapters.len() == 0 {
        seq![OpView::Show(line("No se encontraron adaptadores para ajustar"@, false, true))]
    } else {
        nic_adapter_steps(adapters, cores) + nic_closing_ops()
    }
}

/// The steps of each of `adapters`, one adapter after the other.
pub open spec fn nic_adapter_steps(adapters: Seq<Seq<char>>, cores: nat) -> Seq<OpView> {
    for_each_adapter(adapters, |a: Seq<char>| nic_ops(a, cores))
}

fn eee_keyword_list() -> (k: Vec<String>)
    ensures
        views(k@) == eee_keywords(),
{
    let mut k: Vec<String> = Vec::new();
    k.push("*EEE".to_owned());
    k.push("*EnableGreenEthernet".to_owned());
    k.push("*AdvancedEEE".to_owned());
    proof {
        assert(views(k@) =~= eee_keywords());
    }
    k
}

fn power_command(adapter: &str, setting: &str) -> (c: String)
    ensures
        c@ == named("Set-NetAdapterPowerManagement"@, adapter@) + setting@,
{
    let mut c = named_text("Set-NetAdapterPowerManagement", adapter);
    c.append(setting);
    c
}

fn push_nic_ops(ops: &mut Vec<Op>, adapter: &str, cores: usize)
    ensures
        op_views(final(ops)@) == op_views(old(ops)@) + nic_ops(adapter@, cores as nat),
{
    let ghost before = op_views(ops@);
    push_op(ops, Op::Print(text3("  ── Adaptador: ", adapter, " ──\n")));
    push_op(ops, Op::Maximize { adapter: adapter.to_owned(), keyword: "*ReceiveBuffers".to_owned(), label: "Receive Buffers".to_owned() });
    push_op(ops, Op::Maximize { adapter: adapter.to_owned(), keyword: "*TransmitBuffers".to_owned(), label: "Transmit Buffers".to_owned() });
    push_op(ops, warned_run(set_nic_property(adapter, "*InterruptModeration", 0), tagged_text("Interrupt Moderation OFF", adapter)));
    push_op(ops, warned_run(set_nic_property(adapter, "*FlowControl", 0), tagged_text("Flow Control deshabilitado", adapter)));
    push_op(ops, Op::AnyKeyword { adapter: adapter.to_owned(), keywords: eee_keyword_list(), value: 0, desc: tagged_text("EEE / Green Ethernet OFF", adapter) });
    push_op(ops, Op::RssQueues { adapter: adapter.to_owned(), cores });
    push_op(ops, warned_run(power_command(adapter, " -WakeOnMagicPacket Disabled -ErrorAction Stop"), tagged_text("Wake on Magic Packet OFF", adapter)));
    push_op(ops, warned_run(power_command(adapter, " -WakeOnPattern Disabled -ErrorAction Stop"), tagged_text("Wake on Pattern OFF", adapter)));
    push_op(ops, warned_run(set_nic_property(adapter, "*PMARPOffload", 0), tagged_text("ARP Offload OFF", adapter)));
    push_op(ops, warned_run(set_nic_property(adapter, "*PMNSOffload", 0), tagged_text("NS Offload OFF", adapter)));
    push_op(ops, warned_run(power_command(adapter, " -AllowComputerToTurnOffDevice Disabled -ErrorAction SilentlyContinue"), tagged_text("Ahorro de energía deshabilitado", adapter)));
    push_op(ops, Op::Probe { command: text3(NAGLE_SCRIPT_HEAD, adapter, NAGLE_SCRIPT_TAIL), desc: tagged_text("Nagle OFF (TcpAckFrequency=1)", adapter), warn: ProbeWarn::OnFailure });
    push_op(ops, Op::Print("\n".to_owned()));
    proof {
        assert(op_views(ops@) =~= before + nic_ops(adapter@, cores as nat));
    }
}

proof fn lemma_nic_steps_index(adapters: Seq<Seq<char>>, cores: nat)
    ensures
        nic_adapter_steps(adapters, cores).len() == 14 * adapters.len(),
        forall|k: int, j: int|
            0 <= k < adapters.len() && 0 <= j < 14 ==> #[trigger] nic_adapter_steps(adapters, cores)[14
                * k + j] == #[trigger] nic_ops(adapters[k], cores)[j],
    decreases adapters.len(),
{
    if adapters.len() > 0 {
        let rest = adapters.drop_last();
        lemma_nic_steps_index(rest, cores);
        let before = nic_adapter_steps(rest, cores);
        let all = nic_adapter_steps(adapters, cores);
        assert(all == before + nic_ops(adapters.last(), cores));
        assert forall|k: int, j: int| 0 <= k < adapters.len() && 0 <= j < 14 implies #[trigger] all[14
            * k + j] == #[trigger] nic_ops(adapters[k], cores)[j] by {
            if k < adapters.len() - 1 {
                assert(rest[k] == adapters[k]);
                assert(before[14 * k + j] == nic_ops(rest[k], cores)[j]);
            } else {
                assert(14 * k + j - before.len() == j);
            }
        }
    }
}

/// The advanced-property phase has one RSS step per adapter, at the same
/// place among that adapter's steps, and no other: step `14 * k + 6` sizes
/// the RSS queues of adapter `k` for `cores` processors, and every RSS step
/// is one of these.
pub proof fn lemma_one_rss_step_per_adapter(adapters: Seq<Seq<char>>, cores: nat)
    requires
        adapters.len() > 0,
    ensures
        nic_plan(adapters, cores).len() == 14 * adapters.len() + 2,
        forall|k: int|
            0 <= k < adapters.len() ==> #[trigger] nic_plan(adapters, cores)[14 * k + 6]
                == (OpView::RssQueues { adapter: adapters[k], cores }),
        forall|i: int|
            0 <= i < nic_plan(adapters, cores).len() && (#[trigger] nic_plan(
                adapters,
                cores,
            )[i] is RssQueues) ==> i % 14 == 6 && i / 14 < adapters.len(),
{
    let steps = nic_adapter_steps(adapters, cores);
    let plan = nic_plan(adapters, cores);
    lemma_nic_steps_index(adapters, cores);
    assert(plan == steps + nic_closing_ops());
    assert forall|k: int| 0 <= k < adapters.len() implies #[trigger] nic_plan(adapters, cores)[14 * k
        + 6] == (OpView::RssQueues { adapter: adapters[k], cores }) by {
        assert(steps[14 * k + 6] == nic_ops(adapters[k], cores)[6]);
    }
    assert forall|i: int|
        0 <= i < plan.len() && (#[trigger] nic_plan(adapters, cores)[i] is RssQueues) implies i % 14
        == 6 && i / 14 < adapters.len() by {
        if i < steps.len() {
            let k = i / 14;
            let j = i % 14;
            assert(i == 14 * k + j);
            assert(steps[14 * k + j] == nic_ops(adapters[k], cores)[j]);
        } else {
            assert(plan[i] == nic_closing_ops()[i - steps.len()]);
        }
    }
}

/// The number of logical processors assumed when it cannot be read.
pub const DEFAULT_CORES: usize = 4;

/// The number of logical processors to size RSS queues for: the one read,
/// or [`DEFAULT_CORES`] when none could be read.
pub fn cores_or_default(read: Option<usize>) -> (cores: usize)
    ensures
        cores == match read {
            Some(n) => n,
            None => DEFAULT_CORES,
        },
{
    match read {
        Some(n) => n,
        None => DEFAULT_CORES,
    }
}

/// The plan that tunes the advanced properties of `adapters` on a machine
/// with `cores` logical processors.
pub fn apply_nic_advanced_tweaks(adapters: &Vec<String>, cores: usize) -> (ops: Vec<Op>)
    ensures
        op_views(ops@) == nic_plan(views(adapters@), cores as nat),
{
    let mut ops: Vec<Op> = Vec::new();
    if adapters.len() == 0 {
        push_op(&mut ops, Op::Show(StatusLine { desc: "No se encontraron adaptadores para ajustar".to_owned(), ok: false, warn: true }));
        proof {
            assert(op_views(ops@) =~= nic_plan(views(adapters@), cores as nat));
        }
        return ops;
    }
    let mut i: usize = 0;
    proof {
        assert(op_views(ops@) =~= for_each_adapter(views(adapters@).take(0), |a: Seq<char>| nic_ops(a, cores as nat)));
    }
    while i < adapters.len()
        invariant
            i <= adapters.len(),
            op_views(ops@) == for_each_adapter(views(adapters@).take(i as int), |a: Seq<char>| nic_ops(a, cores as nat)),
        decreases adapters.len() - i,
    {
        push_nic_ops(&mut ops, adapters[i].as_str(), cores);
        proof {
            let all = views(adapters@);
            assert(all.take(i + 1).drop_last() =~= all.take(i as int));
            assert(all.take(i + 1).last() == adapters@[i as int]@);
        }
        i = i + 1;
    }
    push_op(&mut ops, Op::Probe { command: WIFI_SCAN_SCRIPT.to_owned(), desc: "Latencia Wi-Fi optimizada (ScanOnlyWhenAssociated = 1)".to_owned(), warn: ProbeWarn::OnError });
    push_op(&mut ops, Op::Probe { command: GLOBAL_NAGLE_SCRIPT.to_owned(), desc: "Nagle global deshabilitado (registro TCP)".to_owned(), warn: ProbeWarn::Never });
    proof {
        assert(views(adapters@).take(adapters.len() as int) =~= views(adapters@));
        assert(op_views(ops@) =~= nic_plan(views(adapters@), cores as nat));
    }
    ops
}

// ---------------------------------------------------------------------------
// Congestion providers
// ---------------------------------------------------------------------------

/// The query that lists the TCP setting profiles, one per line.
pub const PROFILES_QUERY: &'static str = "Get-NetTCPSetting | Select-Object -ExpandProperty SettingName -Unique";

/// The profiles configured when none can be read.
pub open spec fn default_profiles() -> Seq<Seq<char>> {
    seq!["Internet"@, "Datacenter"@, "Compat"@, "InternetCustom"@, "DatacenterCustom"@]
}

/// The profiles read from the reply to [`PROFILES_QUERY`], or the default
/// ones when none can be read.
pub open spec fn congestion_profiles(reply: Result<Seq<char>, Seq<char>>) -> Seq<Seq<char>> {
    let read = content_lines(output_or_empty(reply));
    if read.len() == 0 {
        default_profiles()
    } else {
        read
    }
}

/// The congestion phase: a line saying where the profiles came from, a
/// provider step for each profile, and the summary.
pub open spec fn congestion_plan(reply: Result<Seq<char>, Seq<char>>) -> Seq<OpView> {
    let read = content_lines(output_or_empty(reply));
    let profiles = congestion_profiles(reply);
    let header = if read.len() == 0 {
        OpView::Show(line("Lectura dinamica de perfiles (usando lista predefinida)"@, false, true))
    } else {
        OpView::Show(line(decimal(read.len()) + " perfiles TCP encontrados"@, true, false))
    };
    seq![header] + Seq::new(profiles.len(), |i: int| OpView::Provider { profile: profiles[i] }) + seq![
        OpView::Summary { total: profiles.len() },
    ]
}

fn default_profile_list() -> (p: Vec<String>)
    ensures
        views(p@) == default_profiles(),
{
    let mut p: Vec<String> = Vec::new();
    p.push("Internet".to_owned());
    p.push("Datacenter".to_owned());
    p.push("Compat".to_owned());
    p.push("InternetCustom".to_owned());
    p.push("DatacenterCustom".to_owned());
    proof {
        assert(views(p@) =~= default_profiles());
    }
    p
}

/// The plan that sets the congestion provider of every TCP profile named in
/// `reply`, the reply to [`PROFILES_QUERY`].
pub fn apply_congestion_providers(reply: &Result<String, String>) -> (ops: Vec<Op>)
    ensures
        op_views(ops@) == congestion_plan(reply_view(*reply)),
{
    let read = reply_lines(reply);
    let mut ops: Vec<Op> = Vec::new();
    let profiles = if read.len() == 0 {
        push_op(&mut ops, Op::Show(StatusLine { desc: "Lectura dinamica de perfiles (usando lista predefinida)".to_owned(), ok: false, warn: true }));
        default_profile_list()
    } else {
        push_op(&mut ops, Op::Show(count_line(read.len(), " perfiles TCP encontrados", true, false)));
        read
    };
    let ghost head = op_views(ops@);
    let mut i: usize = 0;
    while i < profiles.len()
        invariant
            i <= profiles.len(),
            op_views(ops@) == head + Seq::new(i as nat, |k: int| OpView::Provider { profile: views(profiles@)[k] }),
        decreases profiles.len() - i,
    {
        push_op(&mut ops, Op::Provider { profile: profiles[i].clone() });
        proof {
            assert(op_views(ops@) =~= head + Seq::new((i + 1) as nat, |k: int| OpView::Provider { profile: views(profiles@)[k] }));
        }
        i = i + 1;
    }
    push_op(&mut ops, Op::Summary { total: profiles.len() });
    proof {
        assert(op_views(ops@) =~= congestion_plan(reply_view(*reply)));
    }
    ops
}

proof fn lemma_providers_before_bound(ops: Seq<Op>, k: nat)
    requires
        1 <= k <= ops.len(),
        !(ops[0] is Provider),
    ensures
        providers_before(ops, k) <= k - 1,
    decreases k,
{
    if k > 1 {
        lemma_providers_before_bound(ops, (k - 1) as nat);
    } else {
        assert(providers_before(ops, 0) == 0);
    }
}

/// The congestion summary never counts more switched profiles than there
/// are profiles: whenever a well-formed plan carrying out the congestion
/// phase stands at its summary step, its count is at most the number of
/// profiles.
pub proof fn lemma_summary_within_total(reply: Result<Seq<char>, Seq<char>>, s: PlanView)
    requires
        op_views(s.ops) == congestion_plan(reply),
        plan_wf(s),
        s.pos < s.ops.len(),
        s.ops[s.pos as int] is Summary,
    ensures
        s.updated <= congestion_profiles(reply).len(),
{
    let n = congestion_profiles(reply).len();
    let plan = congestion_plan(reply);
    assert(op_views(s.ops)[s.pos as int] == s.ops[s.pos as int]@);
    assert(op_views(s.ops)[0] == s.ops[0]@);
    assert(plan[s.pos as int] is Summary);
    assert(plan.len() == n + 2);
    if s.pos == 0 {
        assert(plan[0] is Show);
    } else if s.pos <= n {
        let providers = Seq::new(n, |i: int| OpView::Provider { profile: congestion_profiles(reply)[i] });
        assert(plan[s.pos as int] == providers[s.pos - 1]);
    }
    assert(s.pos == n + 1);
    assert(plan[0] is Show);
    lemma_providers_before_bound(s.ops, s.pos);
}

// ---------------------------------------------------------------------------
// Final state
// ---------------------------------------------------------------------------

/// The query that shows the congestion provider and auto-tuning level of
/// the Internet TCP profile, as a table.
pub const FINAL_TCP_QUERY: &'static str =
    "Get-NetTCPSetting -SettingName Internet | Select-Object SettingName, CongestionProvider, AutoTuningLevelGroup | Format-Table -AutoSize | Out-String";

/// The query that shows the tuned adapters' status, link speed and MAC
/// address, as a table.
pub const FINAL_ADAPTERS_QUERY: &'static str =
    "Get-NetAdapter -Physical | Where-Object { $_.InterfaceDescription -notmatch 'VirtualBox|VMware|Virtual|Hyper-V|vEthernet|Loopback|TAP' -and $_.Name -notmatch 'VirtualBox|VMware|Virtual|Hyper-V|vEthernet|Loopback|TAP' } | Select-Object Name, Status, LinkSpeed, MacAddress | Format-Table -AutoSize | Out-String";

/// The command that shows the global TCP parameters.
pub const FINAL_TCP_GLOBAL_QUERY: &'static str = "netsh int tcp show global";

} // verus!
