//! Plans: the steps of one tuning phase, carried out one at a time. A plan
//! decides; the caller runs the commands it asks for, prints what it asks
//! to print, and hands back what happened.
use vstd::prelude::*;
use vstd::string::StringExecFns;

use crate::chain::{
    chain_run, chain_step, first_success, lemma_chain_stops_at_first_success,
    lemma_first_success_exists, next_in_chain, ChainStep,
};
use crate::console::{color_code, color_code_spec, line, reset_code, reset_code_spec, Color, StatusLine, StatusLineView};
use crate::nic::{
    get_nic_property_max, nic_property_max_query, nic_property_max_query_spec,
    nic_property_max_spec, optimal_rss_queues, optimal_rss_queues_spec, output_or_empty,
    set_nic_property, set_nic_property_multi, set_nic_property_multi_spec, set_nic_property_spec,
    PropertyAttempt, PropertyAttemptView,
};
use crate::shell::reply_view;
use crate::text::{contains_str, contains_text, decimal, push_decimal, views};

verus! {

/// How a command's outcome is reported.
#[derive(Debug, PartialEq, Eq)]
pub enum Report {
    /// A status line with this description: applied on success, a warning
    /// on failure.
    Warn(String),
    /// A status line with this description: applied on success, not applied
    /// (without a warning) on failure.
    Quiet(String),
    /// A status line with this description that reports success whatever
    /// the command did.
    Assume(String),
    /// Nothing is reported.
    Silent,
}

/// When a probe's failure deserves a warning. A probe succeeds when its
/// output contains `OK`.
#[derive(PartialEq, Eq, Structural, Clone, Copy, Debug)]
pub enum ProbeWarn {
    /// Whenever the probe did not succeed.
    OnFailure,
    /// When the output contains `ERR`.
    OnError,
    /// Never.
    Never,
}

/// One step of a plan.
#[derive(Debug, PartialEq, Eq)]
pub enum Op {
    /// Print this text as it is.
    Print(String),
    /// Print this status line.
    Show(StatusLine),
    /// Run a command and report its outcome.
    Run { command: String, report: Report },
    /// Run a command and judge it by its output.
    Probe { command: String, desc: String, warn: ProbeWarn },
    /// Set advanced property `keyword` of `adapter` to the largest value it
    /// accepts; `label` names the property in the report.
    Maximize { adapter: String, keyword: String, label: String },
    /// Set the RSS queues of `adapter` for a machine with `cores` logical
    /// processors.
    RssQueues { adapter: String, cores: usize },
    /// Set a property of `adapter` that goes by one of `keywords` to
    /// `value`, trying the keywords in order.
    AnyKeyword { adapter: String, keywords: Vec<String>, value: u32, desc: String },
    /// Switch TCP profile `profile` to the CUBIC congestion provider, or to
    /// CTCP when CUBIC cannot be set.
    Provider { profile: String },
    /// Print how many of `total` profiles got a provider.
    Summary { total: usize },
}

/// The mathematical content of a [`Report`].
pub enum ReportView {
    Warn(Seq<char>),
    Quiet(Seq<char>),
    Assume(Seq<char>),
    Silent,
}

impl View for Report {
    type V = ReportView;

    open spec fn view(&self) -> ReportView {
        match self {
            Report::Warn(d) => ReportView::Warn(d@),
            Report::Quiet(d) => ReportView::Quiet(d@),
            Report::Assume(d) => ReportView::Assume(d@),
            Report::Silent => ReportView::Silent,
        }
    }
}

/// The mathematical content of an [`Op`].
pub enum OpView {
    Print(Seq<char>),
    Show(StatusLineView),
    Run { command: Seq<char>, report: ReportView },
    Probe { command: Seq<char>, desc: Seq<char>, warn: ProbeWarn },
    Maximize { adapter: Seq<char>, keyword: Seq<char>, label: Seq<char> },
    RssQueues { adapter: Seq<char>, cores: nat },
    AnyKeyword { adapter: Seq<char>, keywords: Seq<Seq<char>>, value: u32, desc: Seq<char> },
    Provider { profile: Seq<char> },
    Summary { total: nat },
}

impl View for Op {
    type V = OpView;

    open spec fn view(&self) -> OpView {
        match self {
            Op::Print(t) => OpView::Print(t@),
            Op::Show(l) => OpView::Show(l@),
            Op::Run { command, report } => OpView::Run { command: command@, report: report@ },
            Op::Probe { command, desc, warn } => OpView::Probe {
                command: command@,
                desc: desc@,
                warn: *warn,
            },
            Op::Maximize { adapter, keyword, label } => OpView::Maximize {
                adapter: adapter@,
                keyword: keyword@,
                label: label@,
            },
            Op::RssQueues { adapter, cores } => OpView::RssQueues {
                adapter: adapter@,
                cores: *cores as nat,
            },
            Op::AnyKeyword { adapter, keywords, value, desc } => OpView::AnyKeyword {
                adapter: adapter@,
                keywords: views(keywords@),
                value: *value,
                desc: desc@,
            },
            Op::Provider { profile } => OpView::Provider { profile: profile@ },
            Op::Summary { total } => OpView::Summary { total: *total as nat },
        }
    }
}

/// The views of a sequence of steps.
pub open spec fn op_views(ops: Seq<Op>) -> Seq<OpView> {
    ops.map_values(|o: Op| o@)
}

/// Where a plan stands within its current step.
#[derive(Debug, PartialEq, Eq)]
pub enum Stage {
    /// About to start the current step.
    Next,
    /// Waiting for the outcome of a `Run` command.
    AwaitRun,
    /// Waiting for the output of a `Probe` command.
    AwaitProbe,
    /// Waiting for the reply to a property's maximum query.
    AwaitMax,
    /// Waiting for the outcome of setting a property to this value.
    AwaitSet(u32),
    /// Waiting for an attempt of a chain; the outcomes so far.
    AwaitChain(Vec<bool>),
}

/// The mathematical content of a [`Stage`].
pub enum StageView {
    Next,
    AwaitRun,
    AwaitProbe,
    AwaitMax,
    AwaitSet(u32),
    AwaitChain(Seq<bool>),
}

impl View for Stage {
    type V = StageView;

    open spec fn view(&self) -> StageView {
        match self {
            Stage::Next => StageView::Next,
            Stage::AwaitRun => StageView::AwaitRun,
            Stage::AwaitProbe => StageView::AwaitProbe,
            Stage::AwaitMax => StageView::AwaitMax,
            Stage::AwaitSet(v) => StageView::AwaitSet(*v),
            Stage::AwaitChain(o) => StageView::AwaitChain(o@),
        }
    }
}

/// What happened since the plan's last action.
#[derive(Debug, PartialEq, Eq)]
pub enum Event {
    /// The printing asked for is done (or the plan is starting).
    Proceed,
    /// The command asked for ran and gave this reply.
    Reply(Result<String, String>),
}

/// The mathematical content of an [`Event`].
pub enum EventView {
    Proceed,
    Reply(Result<Seq<char>, Seq<char>>),
}

impl View for Event {
    type V = EventView;

    open spec fn view(&self) -> EventView {
        match self {
            Event::Proceed => EventView::Proceed,
            Event::Reply(r) => EventView::Reply(reply_view(*r)),
        }
    }
}

/// What the plan asks for next.
#[derive(Debug, PartialEq, Eq)]
pub enum Action {
    /// Run this PowerShell command and hand back its reply.
    Run(String),
    /// Print this status line.
    Show(StatusLine),
    /// Print this text as it is.
    Print(String),
    /// The plan is carried out.
    Finished,
}

/// The mathematical content of an [`Action`].
pub enum ActionView {
    Run(Seq<char>),
    Show(StatusLineView),
    Print(Seq<char>),
    Finished,
}

impl View for Action {
    type V = ActionView;

    open spec fn view(&self) -> ActionView {
        match self {
            Action::Run(c) => ActionView::Run(c@),
            Action::Show(l) => ActionView::Show(l@),
            Action::Print(t) => ActionView::Print(t@),
            Action::Finished => ActionView::Finished,
        }
    }
}

/// The reply an event carries; an event without one counts as a failed
/// command with no output.
pub open spec fn event_reply(e: EventView) -> Result<Seq<char>, Seq<char>> {
    match e {
        EventView::Reply(r) => r,
        EventView::Proceed => Err(Seq::empty()),
    }
}

/// The command behind the event ran without error.
pub open spec fn event_ok(e: EventView) -> bool {
    event_reply(e) is Ok
}

/// The status line a report gives for a command that succeeded or not.
pub open spec fn report_line_spec(r: Report, ok: bool) -> Option<StatusLineView> {
    match r {
        Report::Warn(d) => Some(line(d@, ok, !ok)),
        Report::Quiet(d) => Some(line(d@, ok, false)),
        Report::Assume(d) => Some(line(d@, true, false)),
        Report::Silent => None,
    }
}

/// The status line a probe gives for the output `out`.
pub open spec fn probe_line_spec(desc: Seq<char>, warn: ProbeWarn, out: Seq<char>) -> StatusLineView {
    let ok = contains_text(out, "OK"@);
    line(
        desc,
        ok,
        match warn {
            ProbeWarn::OnFailure => !ok,
            ProbeWarn::OnError => contains_text(out, "ERR"@),
            ProbeWarn::Never => false,
        },
    )
}

/// The keyword under which adapters expose their RSS queue count.
pub open spec fn rss_keyword() -> Seq<char> {
    "*NumRssQueues"@
}

/// Report of a property set to its maximum `value`.
pub open spec fn maximized_desc(label: Seq<char>, value: u32, adapter: Seq<char>) -> Seq<char> {
    label + " = "@ + decimal(value as nat) + " ["@ + adapter + "]"@
}

/// Report of a property the adapter does not expose.
pub open spec fn unexposed_desc(label: Seq<char>, adapter: Seq<char>) -> Seq<char> {
    label + " ["@ + adapter + "] (no expuesto)"@
}

/// Report of the RSS queues set to `queues` for `cores` processors.
pub open spec fn rss_desc(queues: u32, cores: nat, adapter: Seq<char>) -> Seq<char> {
    "Colas RSS = "@ + decimal(queues as nat) + " (Clase "@ + decimal(cores) + " cores) ["@ + adapter
        + "]"@
}

/// Report of an adapter that does not expose its RSS queues.
pub open spec fn rss_unexposed_desc(adapter: Seq<char>) -> Seq<char> {
    "RSS Queues ["@ + adapter + "] (no expuesto)"@
}

/// The commands that switch profile `profile` to a congestion provider, in
/// the order they are tried: two for CUBIC, then two for CTCP.
pub open spec fn provider_commands(profile: Seq<char>) -> Seq<Seq<char>> {
    seq![
        "Set-NetTCPSetting -SettingName '"@ + profile + "' -CongestionProvider CUBIC -ErrorAction Stop"@,
        "netsh int tcp set supplemental template="@ + profile + " congestionprovider=cubic"@,
        "Set-NetTCPSetting -SettingName '"@ + profile + "' -CongestionProvider CTCP -ErrorAction Stop"@,
        "netsh int tcp set supplemental template="@ + profile + " congestionprovider=ctcp"@,
    ]
}

/// The provider installed by the command with index `i`.
pub open spec fn provider_name(i: nat) -> Seq<char> {
    if i < 2 {
        "CUBIC"@
    } else {
        "CTCP"@
    }
}

/// Report of profile `profile` left with provider `provider`.
pub open spec fn provider_desc(provider: Seq<char>, profile: Seq<char>) -> Seq<char> {
    "CongestionProvider -> "@ + provider + " ["@ + profile + "]"@
}

/// The summary of `updated` profiles of `total` switched.
pub open spec fn summary_text(updated: nat, total: nat) -> Seq<char> {
    color_code_spec(Color::Green) + "  >> Resumen: "@ + decimal(updated) + "/"@ + decimal(total)
        + " perfiles actualizados (CUBIC/CTCP)"@ + "\n"@ + reset_code_spec()
}

/// The mathematical content of a [`Plan`].
pub struct PlanView {
    pub ops: Seq<Op>,
    pub pos: nat,
    pub stage: StageView,
    pub updated: nat,
}

/// A phase in progress: its steps, the current one, where it stands, and
/// how many congestion profiles it has switched so far.
pub struct Plan {
    ops: Vec<Op>,
    pos: usize,
    stage: Stage,
    updated: usize,
}

impl View for Plan {
    type V = PlanView;

    closed spec fn view(&self) -> PlanView {
        PlanView { ops: self.ops@, pos: self.pos as nat, stage: self.stage@, updated: self.updated as nat }
    }
}

/// The plan moves past its current step.
pub open spec fn advance(s: PlanView) -> PlanView {
    PlanView { pos: s.pos + 1, stage: StageView::Next, ..s }
}

/// The plan waits in `stage` within its current step.
pub open spec fn wait(s: PlanView, stage: StageView) -> PlanView {
    PlanView { stage, ..s }
}

/// What a chain step decides after the attempts `outcomes`.
pub open spec fn chain_decide(s: PlanView, outcomes: Seq<bool>) -> (PlanView, ActionView) {
    match s.ops[s.pos as int] {
        Op::AnyKeyword { adapter, keywords, value, desc } => match set_nic_property_multi_spec(
            adapter@,
            views(keywords@),
            value,
            outcomes,
        ) {
            PropertyAttemptView::Run(c) => (wait(s, StageView::AwaitChain(outcomes)), ActionView::Run(c)),
            PropertyAttemptView::Done(b) => (advance(s), ActionView::Show(line(desc@, b, !b))),
        },
        Op::Provider { profile } => match chain_step(4, outcomes) {
            ChainStep::Attempt(i) => (
                wait(s, StageView::AwaitChain(outcomes)),
                ActionView::Run(provider_commands(profile@)[i as int]),
            ),
            ChainStep::Succeeded(i) => (
                PlanView { updated: s.updated + 1, ..advance(s) },
                ActionView::Show(line(provider_desc(provider_name(i as nat), profile@), true, false)),
            ),
            ChainStep::Exhausted => (
                advance(s),
                ActionView::Show(line(provider_desc("Default"@, profile@), false, false)),
            ),
        },
        _ => (s, ActionView::Finished),
    }
}

/// How the plan starts its current step.
pub open spec fn plan_start(s: PlanView) -> (PlanView, ActionView) {
    if s.pos >= s.ops.len() {
        (s, ActionView::Finished)
    } else {
        match s.ops[s.pos as int] {
            Op::Print(t) => (advance(s), ActionView::Print(t@)),
            Op::Show(l) => (advance(s), ActionView::Show(l@)),
            Op::Run { command, report } => (wait(s, StageView::AwaitRun), ActionView::Run(command@)),
            Op::Probe { command, desc, warn } => (
                wait(s, StageView::AwaitProbe),
                ActionView::Run(command@),
            ),
            Op::Maximize { adapter, keyword, label } => (
                wait(s, StageView::AwaitMax),
                ActionView::Run(nic_property_max_query_spec(adapter@, keyword@)),
            ),
            Op::RssQueues { adapter, cores } => (
                wait(s, StageView::AwaitMax),
                ActionView::Run(nic_property_max_query_spec(adapter@, rss_keyword())),
            ),
            Op::AnyKeyword { .. } => chain_decide(s, Seq::empty()),
            Op::Provider { .. } => chain_decide(s, Seq::empty()),
            Op::Summary { total } => (advance(s), ActionView::Print(summary_text(s.updated, total as nat))),
        }
    }
}

/// The plan's next state and action after event `e`.
pub open spec fn plan_next(s: PlanView, e: EventView) -> (PlanView, ActionView) {
    match s.stage {
        StageView::Next => plan_start(s),
        StageView::AwaitRun => match s.ops[s.pos as int] {
            Op::Run { command, report } => match report_line_spec(report, event_ok(e)) {
                Some(l) => (advance(s), ActionView::Show(l)),
                None => plan_start(advance(s)),
            },
            _ => (s, ActionView::Finished),
        },
        StageView::AwaitProbe => match s.ops[s.pos as int] {
            Op::Probe { command, desc, warn } => (
                advance(s),
                ActionView::Show(probe_line_spec(desc@, warn, output_or_empty(event_reply(e)))),
            ),
            _ => (s, ActionView::Finished),
        },
        StageView::AwaitMax => match s.ops[s.pos as int] {
            Op::Maximize { adapter, keyword, label } => match nic_property_max_spec(event_reply(e)) {
                Some(v) => (
                    wait(s, StageView::AwaitSet(v)),
                    ActionView::Run(set_nic_property_spec(adapter@, keyword@, v)),
                ),
                None => (
                    advance(s),
                    ActionView::Show(line(unexposed_desc(label@, adapter@), false, true)),
                ),
            },
            Op::RssQueues { adapter, cores } => match nic_property_max_spec(event_reply(e)) {
                Some(m) => {
                    let q = optimal_rss_queues_spec(cores as nat, m as nat) as u32;
                    (
                        wait(s, StageView::AwaitSet(q)),
                        ActionView::Run(set_nic_property_spec(adapter@, rss_keyword(), q)),
                    )
                },
                None => (
                    advance(s),
                    ActionView::Show(line(rss_unexposed_desc(adapter@), false, true)),
                ),
            },
            _ => (s, ActionView::Finished),
        },
        StageView::AwaitSet(v) => {
            let ok = event_ok(e);
            match s.ops[s.pos as int] {
                Op::Maximize { adapter, keyword, label } => (
                    advance(s),
                    ActionView::Show(line(maximized_desc(label@, v, adapter@), ok, !ok)),
                ),
                Op::RssQueues { adapter, cores } => (
                    advance(s),
                    ActionView::Show(line(rss_desc(v, cores as nat, adapter@), ok, !ok)),
                ),
                _ => (s, ActionView::Finished),
            }
        },
        StageView::AwaitChain(outcomes) => chain_decide(s, outcomes.push(event_ok(e))),
    }
}

/// The number of congestion-provider steps among the first `k` steps.
pub open spec fn providers_before(ops: Seq<Op>, k: nat) -> nat
    decreases k,
{
    if k == 0 {
        0
    } else {
        providers_before(ops, (k - 1) as nat) + if ops[k - 1] is Provider {
            1nat
        } else {
            0nat
        }
    }
}

/// The stage fits the current step, and the counters stay in range: no
/// more profiles are counted as switched than provider steps were passed.
pub open spec fn plan_wf(s: PlanView) -> bool {
    &&& s.pos <= s.ops.len()
    &&& s.ops.len() <= usize::MAX
    &&& s.updated <= s.pos
    &&& s.updated <= providers_before(s.ops, s.pos)
    &&& match s.stage {
        StageView::Next => true,
        StageView::AwaitRun => s.pos < s.ops.len() && s.ops[s.pos as int] is Run,
        StageView::AwaitProbe => s.pos < s.ops.len() && s.ops[s.pos as int] is Probe,
        StageView::AwaitMax | StageView::AwaitSet(_) => s.pos < s.ops.len() && (
        s.ops[s.pos as int] is Maximize || s.ops[s.pos as int] is RssQueues),
        StageView::AwaitChain(o) => s.pos < s.ops.len() && (s.ops[s.pos as int] is AnyKeyword
            || s.ops[s.pos as int] is Provider),
    }
}

fn push_piece(s: &mut String, piece: &str)
    ensures
        final(s)@ == old(s)@ + piece@,
{
    s.append(piece);
}

fn provider_command(profile: &str, i: usize) -> (c: String)
    requires
        i < 4,
    ensures
        c@ == provider_commands(profile@)[i as int],
{
    let mut c = if i == 0 || i == 2 {
        "Set-NetTCPSetting -SettingName '".to_owned()
    } else {
        "netsh int tcp set supplemental template=".to_owned()
    };
    c.append(profile);
    if i == 0 {
        c.append("' -CongestionProvider CUBIC -ErrorAction Stop");
    } else if i == 1 {
        c.append(" congestionprovider=cubic");
    } else if i == 2 {
        c.append("' -CongestionProvider CTCP -ErrorAction Stop");
    } else {
        c.append(" congestionprovider=ctcp");
    }
    c
}

fn provider_line(provider: &str, profile: &str, ok: bool) -> (l: StatusLine)
    ensures
        l@ == line(provider_desc(provider@, profile@), ok, false),
{
    let mut d = "CongestionProvider -> ".to_owned();
    d.append(provider);
    d.append(" [");
    d.append(profile);
    d.append("]");
    StatusLine { desc: d, ok, warn: false }
}

fn summary(updated: usize, total: usize) -> (t: String)
    ensures
        t@ == summary_text(updated as nat, total as nat),
{
    let mut t = color_code(Color::Green).to_owned();
    t.append("  >> Resumen: ");
    push_decimal(&mut t, updated as u64);
    t.append("/");
    push_decimal(&mut t, total as u64);
    t.append(" perfiles actualizados (CUBIC/CTCP)");
    t.append("\n");
    t.append(reset_code());
    t
}

fn event_succeeded(e: &Event) -> (ok: bool)
    ensures
        ok == event_ok(e@),
{
    match e {
        Event::Reply(Ok(_)) => true,
        _ => false,
    }
}

fn event_max(e: &Event) -> (m: Option<u32>)
    ensures
        m == nic_property_max_spec(event_reply(e@)),
{
    match e {
        Event::Reply(r) => get_nic_property_max(r),
        Event::Proceed => None,
    }
}

fn probe_line(desc: &String, warn: ProbeWarn, e: &Event) -> (l: StatusLine)
    ensures
        l@ == probe_line_spec(desc@, warn, output_or_empty(event_reply(e@))),
{
    let out: &str = match e {
        Event::Reply(Ok(o)) => o.as_str(),
        _ => "",
    };
    proof {
        reveal_strlit("");
        assert(""@ =~= Seq::<char>::empty());
    }
    let ok = contains_str(out, "OK");
    let warn_flag = match warn {
        ProbeWarn::OnFailure => !ok,
        ProbeWarn::OnError => contains_str(out, "ERR"),
        ProbeWarn::Never => false,
    };
    StatusLine { desc: desc.clone(), ok, warn: warn_flag }
}

fn labelled(label: &String, adapter: &String, value: u32) -> (d: String)
    ensures
        d@ == maximized_desc(label@, value, adapter@),
{
    let mut d = label.clone();
    d.append(" = ");
    push_decimal(&mut d, value as u64);
    d.append(" [");
    d.append(adapter.as_str());
    d.append("]");
    d
}

fn unexposed(label: &String, adapter: &String) -> (d: String)
    ensures
        d@ == unexposed_desc(label@, adapter@),
{
    let mut d = label.clone();
    d.append(" [");
    d.append(adapter.as_str());
    d.append("] (no expuesto)");
    d
}

fn rss_line_desc(queues: u32, cores: usize, adapter: &String) -> (d: String)
    ensures
        d@ == rss_desc(queues, cores as nat, adapter@),
{
    let mut d = "Colas RSS = ".to_owned();
    push_decimal(&mut d, queues as u64);
    d.append(" (Clase ");
    push_decimal(&mut d, cores as u64);
    d.append(" cores) [");
    d.append(adapter.as_str());
    d.append("]");
    d
}

fn rss_unexposed(adapter: &String) -> (d: String)
    ensures
        d@ == rss_unexposed_desc(adapter@),
{
    let mut d = "RSS Queues [".to_owned();
    d.append(adapter.as_str());
    d.append("] (no expuesto)");
    d
}

impl Plan {
    /// The mathematical content of the plan is well formed.
    pub open spec fn wf(&self) -> bool {
        plan_wf(self@)
    }

    /// A plan that carries out `ops` in order.
    pub fn new(ops: Vec<Op>) -> (p: Plan)
        ensures
            p.wf(),
            p@ == (PlanView { ops: ops@, pos: 0, stage: StageView::Next, updated: 0 }),
    {
        let n = ops.len();
        Plan { ops, pos: 0, stage: Stage::Next, updated: 0 }
    }

    fn chain(&mut self, outcomes: Vec<bool>) -> (a: Action)
        requires
            plan_wf(PlanView { stage: StageView::Next, ..old(self)@ }),
            old(self).pos < old(self).ops.len(),
            old(self).ops@[old(self).pos as int] is AnyKeyword || old(self).ops@[old(
                self,
            ).pos as int] is Provider,
        ensures
            final(self).wf(),
            (final(self)@, a@) == chain_decide(old(self)@, outcomes@),
    {
        let pos = self.pos;
        match &self.ops[pos] {
            Op::AnyKeyword { adapter, keywords, value, desc } => {
                match set_nic_property_multi(adapter.as_str(), keywords, *value, &outcomes) {
                    PropertyAttempt::Run(c) => {
                        self.stage = Stage::AwaitChain(outcomes);
                        Action::Run(c)
                    },
                    PropertyAttempt::Done(b) => {
                        let l = StatusLine { desc: desc.clone(), ok: b, warn: !b };
                        self.pos = pos + 1;
                        self.stage = Stage::Next;
                        Action::Show(l)
                    },
                }
            },
            Op::Provider { profile } => {
                match next_in_chain(4, &outcomes) {
                    ChainStep::Attempt(i) => {
                        let c = provider_command(profile.as_str(), i);
                        self.stage = Stage::AwaitChain(outcomes);
                        Action::Run(c)
                    },
                    ChainStep::Succeeded(i) => {
                        let l = provider_line(
                            if i < 2 {
                                "CUBIC"
                            } else {
                                "CTCP"
                            },
                            profile.as_str(),
                            true,
                        );
                        self.pos = pos + 1;
                        self.updated = self.updated + 1;
                        self.stage = Stage::Next;
                        Action::Show(l)
                    },
                    ChainStep::Exhausted => {
                        let l = provider_line("Default", profile.as_str(), false);
                        self.pos = pos + 1;
                        self.stage = Stage::Next;
                        Action::Show(l)
                    },
                }
            },
            _ => Action::Finished,
        }
    }

    fn start(&mut self) -> (a: Action)
        requires
            plan_wf(PlanView { stage: StageView::Next, ..old(self)@ }),
        ensures
            final(self).wf(),
            (final(self)@, a@) == plan_start(PlanView { stage: StageView::Next, ..old(self)@ }),
    {
        self.stage = Stage::Next;
        let pos = self.pos;
        if pos >= self.ops.len() {
            return Action::Finished;
        }
        match &self.ops[pos] {
            Op::Print(t) => {
                let t = t.clone();
                self.pos = pos + 1;
                Action::Print(t)
            },
            Op::Show(l) => {
                let l = StatusLine { desc: l.desc.clone(), ok: l.ok, warn: l.warn };
                self.pos = pos + 1;
                Action::Show(l)
            },
            Op::Run { command, .. } => {
                let c = command.clone();
                self.stage = Stage::AwaitRun;
                Action::Run(c)
            },
            Op::Probe { command, .. } => {
                let c = command.clone();
                self.stage = Stage::AwaitProbe;
                Action::Run(c)
            },
            Op::Maximize { adapter, keyword, .. } => {
                let q = nic_property_max_query(adapter.as_str(), keyword.as_str());
                self.stage = Stage::AwaitMax;
                Action::Run(q)
            },
            Op::RssQueues { adapter, .. } => {
                let q = nic_property_max_query(adapter.as_str(), "*NumRssQueues");
                self.stage = Stage::AwaitMax;
                Action::Run(q)
            },
            Op::AnyKeyword { .. } => self.chain(Vec::new()),
            Op::Provider { .. } => self.chain(Vec::new()),
            Op::Summary { total } => {
                let t = summary(self.updated, *total);
                self.pos = pos + 1;
                Action::Print(t)
            },
        }
    }

    /// The next action of the plan, after `event` (the reply to the command
    /// it asked for last, or `Proceed` after printing and at the start).
    pub fn next(&mut self, event: Event) -> (a: Action)
        requires
            old(self).wf(),
        ensures
            final(self).wf(),
            (final(self)@, a@) == plan_next(old(self)@, event@),
    {
        let mut stage = Stage::Next;
        std::mem::swap(&mut stage, &mut self.stage);
        let pos = self.pos;
        match stage {
            Stage::Next => self.start(),
            Stage::AwaitRun => {
                let ok = event_succeeded(&event);
                let shown = match &self.ops[pos] {
                    Op::Run { report, .. } => match report {
                        Report::Warn(d) => Some(StatusLine { desc: d.clone(), ok, warn: !ok }),
                        Report::Quiet(d) => Some(StatusLine { desc: d.clone(), ok, warn: false }),
                        Report::Assume(d) => Some(StatusLine { desc: d.clone(), ok: true, warn: false }),
                        Report::Silent => None,
                    },
                    _ => None,
                };
                self.pos = pos + 1;
                match shown {
                    Some(l) => Action::Show(l),
                    None => self.start(),
                }
            },
            Stage::AwaitProbe => {
                let l = match &self.ops[pos] {
                    Op::Probe { desc, warn, .. } => probe_line(desc, *warn, &event),
                    _ => StatusLine { desc: String::new(), ok: false, warn: false },
                };
                self.pos = pos + 1;
                Action::Show(l)
            },
            Stage::AwaitMax => {
                let m = event_max(&event);
                match &self.ops[pos] {
                    Op::Maximize { adapter, keyword, label } => match m {
                        Some(v) => {
                            let c = set_nic_property(adapter.as_str(), keyword.as_str(), v);
                            self.stage = Stage::AwaitSet(v);
                            Action::Run(c)
                        },
                        None => {
                            let d = unexposed(label, adapter);
                            self.pos = pos + 1;
                            Action::Show(StatusLine { desc: d, ok: false, warn: true })
                        },
                    },
                    Op::RssQueues { adapter, cores } => match m {
                        Some(mq) => {
                            let q = optimal_rss_queues(*cores, mq);
                            let c = set_nic_property(adapter.as_str(), "*NumRssQueues", q);
                            self.stage = Stage::AwaitSet(q);
                            Action::Run(c)
                        },
                        None => {
                            let d = rss_unexposed(adapter);
                            self.pos = pos + 1;
                            Action::Show(StatusLine { desc: d, ok: false, warn: true })
                        },
                    },
                    _ => Action::Finished,
                }
            },
            Stage::AwaitSet(v) => {
                let ok = event_succeeded(&event);
                let d = match &self.ops[pos] {
                    Op::Maximize { adapter, label, .. } => labelled(label, adapter, v),
                    Op::RssQueues { adapter, cores } => rss_line_desc(v, *cores, adapter),
                    _ => String::new(),
                };
                self.pos = pos + 1;
                Action::Show(StatusLine { desc: d, ok, warn: !ok })
            },
            Stage::AwaitChain(outcomes) => {
                let mut outcomes = outcomes;
                outcomes.push(event_succeeded(&event));
                self.chain(outcomes)
            },
        }
    }
}

/// A profile gets CTCP only when CUBIC cannot be set: when the four
/// provider commands of a profile would work as `results` says, a CTCP
/// command runs only after both CUBIC commands failed; the profile is
/// reported with CUBIC when a CUBIC command works, with CTCP when only a
/// CTCP command works, and with no provider when none works.
pub proof fn lemma_ctcp_only_after_cubic_fails(results: Seq<bool>)
    requires
        results.len() == 4,
    ensures
        ({
            let (tried, end) = chain_run(4, results, Seq::empty());
            &&& tried.len() > 2 ==> !results[0] && !results[1]
            &&& end matches ChainStep::Succeeded(i) ==> provider_name(i as nat) == (if results[0]
                || results[1] {
                "CUBIC"@
            } else {
                "CTCP"@
            })
            &&& (end is Exhausted <==> (!results[0] && !results[1] && !results[2] && !results[3]))
        }),
{
    lemma_chain_stops_at_first_success(4, results);
    lemma_first_success_exists(results, 0);
    let (tried, end) = chain_run(4, results, Seq::empty());
    match first_success(results) {
        Some(i) => {
            if i >= 2 {
                assert(!results[0] && !results[1]);
            } else {
                assert(tried.len() == i + 1);
            }
        },
        None => {
            assert(!results[0] && !results[1] && !results[2] && !results[3]);
        },
    }
    if !results[0] && !results[1] && !results[2] && !results[3] {
        assert(!(exists|i: int| 0 <= i < 4 && results[i]));
    }
}

/// RSS queues are sized within bounds: when a plan reads an adapter's
/// maximum queue count `m` for an RSS step, it goes on to set that
/// adapter's `*NumRssQueues` to `q`, half its cores kept between 2 and 8
/// and capped at `m`; so `q` is at most `m`, and between 2 and 8 whenever
/// `m` allows 2.
pub proof fn lemma_rss_queues_within_bounds(s: PlanView, e: EventView)
    requires
        plan_wf(s),
        s.stage == StageView::AwaitMax,
        s.ops[s.pos as int] is RssQueues,
        nic_property_max_spec(event_reply(e)) is Some,
    ensures
        ({
            let m = nic_property_max_spec(event_reply(e))->0;
            s.ops[s.pos as int] matches Op::RssQueues { adapter, cores } && {
                let q = optimal_rss_queues_spec(cores as nat, m as nat);
                &&& plan_next(s, e).0.stage == StageView::AwaitSet(q as u32)
                &&& plan_next(s, e).1 == ActionView::Run(
                    set_nic_property_spec(adapter@, rss_keyword(), q as u32),
                )
                &&& q <= m
                &&& m >= 2 ==> 2 <= q <= 8
            }
        }),
{
}

/// The reply carried by `e` is a success: the command exited with status
/// zero, whatever it printed.
pub open spec fn replied_ok(e: EventView) -> bool {
    e matches EventView::Reply(r) && r is Ok
}

/// A command reported with a warning: once its reply comes, the plan moves
/// to the next step and shows the command's description as applied when
/// the command succeeded, whatever it printed, and as a warning otherwise.
pub proof fn lemma_warned_command_report(s: PlanView, e: EventView)
    requires
        plan_wf(s),
        s.stage == StageView::AwaitRun,
        s.ops[s.pos as int] matches Op::Run { report: Report::Warn(_), .. },
    ensures
        s.ops[s.pos as int] matches Op::Run { report: Report::Warn(d), .. } && {
            &&& plan_next(s, e).0 == advance(s)
            &&& plan_next(s, e).1 matches ActionView::Show(l) && l.desc == d@ && l.ok == replied_ok(e)
                && l.warn == !replied_ok(e)
        },
        forall|out: Seq<char>|
            #![trigger plan_next(s, EventView::Reply(Ok(out)))]
            plan_next(s, EventView::Reply(Ok(out))).1 matches ActionView::Show(l) && l.ok && !l.warn,
{
}

/// A command whose failure is reported without a warning: the plan shows
/// its description as applied exactly when the command succeeded, and
/// never with a warning.
pub proof fn lemma_quiet_command_report(s: PlanView, e: EventView)
    requires
        plan_wf(s),
        s.stage == StageView::AwaitRun,
        s.ops[s.pos as int] matches Op::Run { report: Report::Quiet(_), .. },
    ensures
        s.ops[s.pos as int] matches Op::Run { report: Report::Quiet(d), .. } && {
            &&& plan_next(s, e).0 == advance(s)
            &&& plan_next(s, e).1 matches ActionView::Show(l) && l.desc == d@ && l.ok == replied_ok(e)
                && !l.warn
        },
{
}

/// A command whose outcome is not looked at: the plan shows its
/// description as applied, without a warning, whatever the reply.
pub proof fn lemma_assumed_command_report(s: PlanView, e: EventView)
    requires
        plan_wf(s),
        s.stage == StageView::AwaitRun,
        s.ops[s.pos as int] matches Op::Run { report: Report::Assume(_), .. },
    ensures
        s.ops[s.pos as int] matches Op::Run { report: Report::Assume(d), .. } && {
            &&& plan_next(s, e).0 == advance(s)
            &&& plan_next(s, e).1 matches ActionView::Show(l) && l.desc == d@ && l.ok && !l.warn
        },
{
}

/// Each congestion-provider step adds one to the count of switched
/// profiles exactly when one of its commands succeeds: a successful reply
/// to any of its attempts ends the step, shows the profile switched and
/// counts it once; a failed reply counts nothing.
pub proof fn lemma_provider_success_counted(s: PlanView, e: EventView)
    requires
        plan_wf(s),
        s.stage matches StageView::AwaitChain(_),
        s.ops[s.pos as int] is Provider,
    ensures
        replied_ok(e) ==> {
            &&& plan_next(s, e).0.updated == s.updated + 1
            &&& plan_next(s, e).0.pos == s.pos + 1
            &&& plan_next(s, e).1 matches ActionView::Show(l) && l.ok && !l.warn
        },
        !replied_ok(e) ==> plan_next(s, e).0.updated == s.updated,
{
}

/// Starting a congestion-provider step counts nothing yet and runs the
/// first CUBIC command.
pub proof fn lemma_provider_start(s: PlanView)
    requires
        plan_wf(s),
        s.stage == StageView::Next,
        s.pos < s.ops.len(),
        s.ops[s.pos as int] is Provider,
    ensures
        s.ops[s.pos as int] matches Op::Provider { profile } && {
            &&& plan_next(s, EventView::Proceed).0.updated == s.updated
            &&& plan_next(s, EventView::Proceed).1 == ActionView::Run(
                "Set-NetTCPSetting -SettingName '"@ + profile@ + "' -CongestionProvider CUBIC -ErrorAction Stop"@,
            )
        },
{
}

/// How a congestion-provider step goes on after the reply to its attempt
/// number `o.len()` (counting from 0): a success names the provider that
/// attempt installs (CUBIC for the first two, CTCP after); after a failure
/// the next command is tried, CUBIC through `netsh`, then CTCP through
/// `Set-NetTCPSetting`, then CTCP through `netsh`; when the fourth fails,
/// the profile is reported left on its default provider, without a
/// warning and without being counted.
pub proof fn lemma_provider_attempts(s: PlanView, e: EventView)
    requires
        plan_wf(s),
        s.stage matches StageView::AwaitChain(o) && o.len() < 4,
        s.ops[s.pos as int] is Provider,
    ensures
        s.stage matches StageView::AwaitChain(o) && s.ops[s.pos as int] matches Op::Provider {
            profile,
        } && {
            let p = profile@;
            let (next, action) = plan_next(s, e);
            &&& replied_ok(e) ==> (action matches ActionView::Show(l) && l.desc
                == "CongestionProvider -> "@ + (if o.len() < 2 {
                "CUBIC"@
            } else {
                "CTCP"@
            }) + " ["@ + p + "]"@)
            &&& !replied_ok(e) && o.len() == 0 ==> action == ActionView::Run(
                "netsh int tcp set supplemental template="@ + p + " congestionprovider=cubic"@,
            ) && next.stage == StageView::AwaitChain(seq![false])
            &&& !replied_ok(e) && o.len() == 1 ==> action == ActionView::Run(
                "Set-NetTCPSetting -SettingName '"@ + p + "' -CongestionProvider CTCP -ErrorAction Stop"@,
            )
            &&& !replied_ok(e) && o.len() == 2 ==> action == ActionView::Run(
                "netsh int tcp set supplemental template="@ + p + " congestionprovider=ctcp"@,
            )
            &&& !replied_ok(e) && o.len() >= 3 ==> {
                &&& action == ActionView::Show(
                    StatusLineView {
                        desc: "CongestionProvider -> "@ + "Default"@ + " ["@ + p + "]"@,
                        ok: false,
                        warn: false,
                    },
                )
                &&& next.pos == s.pos + 1
                &&& next.updated == s.updated
            }
        },
{
    if let StageView::AwaitChain(o) = s.stage {
        if !replied_ok(e) && o.len() == 0 {
            assert(o.push(false) =~= seq![false]);
        }
    }
}

/// A property set to its maximum, or RSS queues set: once the setting
/// command's reply comes, the step ends and its line shows it applied
/// exactly when the command succeeded, with a warning otherwise.
pub proof fn lemma_setting_report(s: PlanView, e: EventView)
    requires
        plan_wf(s),
        s.stage matches StageView::AwaitSet(_),
    ensures
        plan_next(s, e).0 == advance(s),
        plan_next(s, e).1 matches ActionView::Show(l) && l.ok == replied_ok(e) && l.warn
            == !replied_ok(e),
{
}

/// Reading a property's maximum: a readable positive maximum `v` leads to
/// the command that sets the property to `v`; otherwise the step ends with
/// a warning that the adapter does not expose the property.
pub proof fn lemma_maximize_reads_then_sets(s: PlanView, e: EventView)
    requires
        plan_wf(s),
        s.stage == StageView::AwaitMax,
        s.ops[s.pos as int] is Maximize,
    ensures
        s.ops[s.pos as int] matches Op::Maximize { adapter, keyword, label } && match nic_property_max_spec(
            event_reply(e),
        ) {
            Some(v) => plan_next(s, e).0.stage == StageView::AwaitSet(v) && plan_next(s, e).1
                == ActionView::Run(set_nic_property_spec(adapter@, keyword@, v)),
            None => plan_next(s, e).0 == advance(s) && (plan_next(s, e).1 matches ActionView::Show(l)
                && !l.ok && l.warn),
        },
{
}

} // verus!
