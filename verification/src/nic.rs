//! Network adapters: the commands that read and change their advanced
//! properties, and the decisions taken on what those commands report.
use vstd::prelude::*;
use vstd::string::StringExecFns;

use crate::chain::{
    chain_run, chain_step, first_success, lemma_chain_stops_at_first_success,
    lemma_first_success_exists, next_in_chain, ChainStep,
};
use crate::shell::reply_view;
use crate::text::{
    chars_of, content_lines, content_lines_of, decimal, lemma_content_lines_are_trimmed, parse_u32,
    parse_u32_spec, push_decimal, split_lines, has_content, trim_str, trimmed, views,
};

verus! {

/// The PowerShell pipeline that names the physical adapters to tune: it
/// leaves out adapters whose description or name mentions VirtualBox,
/// VMware, Virtual, Hyper-V, vEthernet, Loopback or TAP.
pub fn active_adapters_query() -> (q: &'static str)
    ensures
        q@ == active_adapters_query_spec(),
{
    "Get-NetAdapter -Physical | Where-Object { $_.InterfaceDescription -notmatch 'VirtualBox|VMware|Virtual|Hyper-V|vEthernet|Loopback|TAP' -and $_.Name -notmatch 'VirtualBox|VMware|Virtual|Hyper-V|vEthernet|Loopback|TAP' } | Select-Object -ExpandProperty Name"
}

/// The text of [`active_adapters_query`].
pub open spec fn active_adapters_query_spec() -> Seq<char> {
    "Get-NetAdapter -Physical | Where-Object { $_.InterfaceDescription -notmatch 'VirtualBox|VMware|Virtual|Hyper-V|vEthernet|Loopback|TAP' -and $_.Name -notmatch 'VirtualBox|VMware|Virtual|Hyper-V|vEthernet|Loopback|TAP' } | Select-Object -ExpandProperty Name"@
}

/// The output of a reply, or nothing when the command failed.
pub open spec fn output_or_empty(reply: Result<Seq<char>, Seq<char>>) -> Seq<char> {
    match reply {
        Ok(out) => out,
        Err(_) => Seq::empty(),
    }
}

/// The adapters named by the reply to [`active_adapters_query`]: one per
/// non-blank line, trimmed; none when the query failed.
pub open spec fn active_adapters_spec(reply: Result<Seq<char>, Seq<char>>) -> Seq<Seq<char>> {
    content_lines(output_or_empty(reply))
}

/// The adapters named by the reply to [`active_adapters_query`].
pub fn get_active_adapters(reply: &Result<String, String>) -> (adapters: Vec<String>)
    ensures
        views(adapters@) == active_adapters_spec(reply_view(*reply)),
        reply is Err ==> adapters@.len() == 0,
        forall|i: int|
            0 <= i < adapters@.len() ==> {
                let a = #[trigger] adapters@[i]@;
                &&& a.len() > 0
                &&& trimmed(a) == a
                &&& forall|j: int| 0 <= j < a.len() ==> a[j] != '\n'
            },
{
    let adapters = reply_lines(reply);
    proof {
        lemma_content_lines_are_trimmed(output_or_empty(reply_view(*reply)));
        assert forall|i: int| 0 <= i < adapters@.len() implies {
            let a = #[trigger] adapters@[i]@;
            &&& a.len() > 0
            &&& trimmed(a) == a
            &&& forall|j: int| 0 <= j < a.len() ==> a[j] != '\n'
        } by {
            assert(views(adapters@)[i] == adapters@[i]@);
        }
        if reply is Err {
            let e = Seq::<char>::empty();
            let keep = |l: Seq<char>| has_content(l);
            let m = split_lines(e).map_values(|l: Seq<char>| trimmed(l));
            assert(trimmed(e).len() == 0);
            assert(m =~= Seq::<Seq<char>>::empty().push(trimmed(e)));
            Seq::<Seq<char>>::empty().lemma_filter_push(trimmed(e), keep);
            Seq::<Seq<char>>::empty().lemma_filter_len(keep);
            assert(views(adapters@).len() == 0);
        }
    }
    adapters
}

/// The non-blank lines of a reply's output, trimmed; none when the command
/// failed.
pub fn reply_lines(reply: &Result<String, String>) -> (lines: Vec<String>)
    ensures
        views(lines@) == content_lines(output_or_empty(reply_view(*reply))),
{
    match reply {
        Ok(out) => content_lines_of(out.as_str()),
        Err(_) => {
            let none = content_lines_of("");
            proof {
                reveal_strlit("");
                assert(""@ =~= Seq::<char>::empty());
            }
            none
        },
    }
}

/// The query that prints the largest positive value that advanced property
/// `keyword` of `adapter` accepts, or 0.
pub open spec fn nic_property_max_query_spec(adapter: Seq<char>, keyword: Seq<char>) -> Seq<char> {
    "try { $p = Get-NetAdapterAdvancedProperty -Name '"@ + adapter + "' -RegistryKeyword '"@
        + keyword
        + "' -ErrorAction Stop; $vals = $p.ValidDisplayValues | ForEach-Object { [uint32]$_ } | Where-Object { $_ -gt 0 }; if ($vals) { ($vals | Measure-Object -Maximum).Maximum } else { 0 } } catch { 0 }"@
}

/// The query that prints the largest value advanced property `keyword` of
/// `adapter` accepts.
pub fn nic_property_max_query(adapter: &str, keyword: &str) -> (q: String)
    ensures
        q@ == nic_property_max_query_spec(adapter@, keyword@),
{
    let mut q = "try { $p = Get-NetAdapterAdvancedProperty -Name '".to_owned();
    q.append(adapter);
    q.append("' -RegistryKeyword '");
    q.append(keyword);
    q.append(
        "' -ErrorAction Stop; $vals = $p.ValidDisplayValues | ForEach-Object { [uint32]$_ } | Where-Object { $_ -gt 0 }; if ($vals) { ($vals | Measure-Object -Maximum).Maximum } else { 0 } } catch { 0 }",
    );
    q
}

/// The maximum read from the reply to [`nic_property_max_query`]: present
/// only when the query ran and printed a positive `u32`.
pub open spec fn nic_property_max_spec(reply: Result<Seq<char>, Seq<char>>) -> Option<u32> {
    match reply {
        Ok(out) => match parse_u32_spec(trimmed(out)) {
            Some(v) => if v > 0 {
                Some(v)
            } else {
                None
            },
            None => None,
        },
        Err(_) => None,
    }
}

/// The largest valid value of an advanced property, read from the reply to
/// [`nic_property_max_query`]; `None` when the property is not exposed or
/// has no valid positive value.
pub fn get_nic_property_max(reply: &Result<String, String>) -> (max: Option<u32>)
    ensures
        max == nic_property_max_spec(reply_view(*reply)),
        max matches Some(v) ==> v > 0,
{
    match reply {
        Ok(out) => {
            let t = trim_str(out.as_str());
            let v = chars_of(t.as_str());
            match parse_u32(&v) {
                Some(x) => if x > 0 {
                    Some(x)
                } else {
                    None
                },
                None => None,
            }
        },
        Err(_) => None,
    }
}

/// The command that sets advanced property `keyword` of `adapter` to
/// `value`.
pub open spec fn set_nic_property_spec(adapter: Seq<char>, keyword: Seq<char>, value: u32) -> Seq<
    char,
> {
    "Set-NetAdapterAdvancedProperty -Name '"@ + adapter + "' -RegistryKeyword '"@ + keyword
        + "' -RegistryValue "@ + decimal(value as nat) + " -ErrorAction Stop"@
}

/// The command that sets advanced property `keyword` of `adapter` to
/// `value`; the property counts as set when the command runs without error.
pub fn set_nic_property(adapter: &str, keyword: &str, value: u32) -> (cmd: String)
    ensures
        cmd@ == set_nic_property_spec(adapter@, keyword@, value),
{
    let mut cmd = "Set-NetAdapterAdvancedProperty -Name '".to_owned();
    cmd.append(adapter);
    cmd.append("' -RegistryKeyword '");
    cmd.append(keyword);
    cmd.append("' -RegistryValue ");
    push_decimal(&mut cmd, value as u64);
    cmd.append(" -ErrorAction Stop");
    cmd
}

/// What to do next when a property may go by several keywords.
#[derive(Debug, PartialEq, Eq)]
pub enum PropertyAttempt {
    /// Run this command.
    Run(String),
    /// Stop; the property was set (`true`) or no keyword worked (`false`).
    Done(bool),
}

/// The mathematical content of a [`PropertyAttempt`].
pub enum PropertyAttemptView {
    Run(Seq<char>),
    Done(bool),
}

impl View for PropertyAttempt {
    type V = PropertyAttemptView;

    open spec fn view(&self) -> PropertyAttemptView {
        match self {
            PropertyAttempt::Run(c) => PropertyAttemptView::Run(c@),
            PropertyAttempt::Done(b) => PropertyAttemptView::Done(*b),
        }
    }
}

/// The keywords are tried in order, each with [`set_nic_property`], until
/// one is set; the property is set when some keyword worked.
pub open spec fn set_nic_property_multi_spec(
    adapter: Seq<char>,
    keywords: Seq<Seq<char>>,
    value: u32,
    outcomes: Seq<bool>,
) -> PropertyAttemptView {
    match chain_step(keywords.len(), outcomes) {
        ChainStep::Attempt(i) => PropertyAttemptView::Run(
            set_nic_property_spec(adapter, keywords[i as int], value),
        ),
        ChainStep::Succeeded(_) => PropertyAttemptView::Done(true),
        ChainStep::Exhausted => PropertyAttemptView::Done(false),
    }
}

/// Sets a property of `adapter` that goes by one of several `keywords` to
/// `value`: after the attempts whose outcomes are `outcomes`, the command to
/// run next, or whether the property was set.
pub fn set_nic_property_multi(
    adapter: &str,
    keywords: &Vec<String>,
    value: u32,
    outcomes: &Vec<bool>,
) -> (a: PropertyAttempt)
    ensures
        a@ == set_nic_property_multi_spec(adapter@, views(keywords@), value, outcomes@),
{
    match next_in_chain(keywords.len(), outcomes) {
        ChainStep::Attempt(i) => PropertyAttempt::Run(
            set_nic_property(adapter, keywords[i].as_str(), value),
        ),
        ChainStep::Succeeded(_) => PropertyAttempt::Done(true),
        ChainStep::Exhausted => PropertyAttempt::Done(false),
    }
}

/// The smaller of two numbers.
pub open spec fn min(a: int, b: int) -> int {
    if a <= b {
        a
    } else {
        b
    }
}

/// `x` brought into `[lo, hi]`.
pub open spec fn clamp(x: int, lo: int, hi: int) -> int {
    if x < lo {
        lo
    } else if x > hi {
        hi
    } else {
        x
    }
}

/// RSS queues for `cores` logical processors on an adapter with at most
/// `max_queues` queues: half the cores, kept between 2 and 8, and never more
/// than the adapter offers.
pub open spec fn optimal_rss_queues_spec(cores: nat, max_queues: nat) -> nat {
    min(clamp((cores / 2) as int, 2, 8), max_queues as int) as nat
}

/// The number of RSS queues to configure.
pub fn optimal_rss_queues(cores: usize, max_queues: u32) -> (q: u32)
    ensures
        q == optimal_rss_queues_spec(cores as nat, max_queues as nat),
        q <= max_queues,
        max_queues >= 2 ==> 2 <= q <= 8,
        2 <= cores / 2 <= 8 && cores / 2 <= max_queues ==> q == cores / 2,
{
    let half = cores / 2;
    let mut q: u32 = if half > 8 {
        8
    } else {
        half as u32
    };
    if q < 2 {
        q = 2;
    }
    if q > max_queues {
        q = max_queues;
    }
    q
}

/// Setting a property that goes by several keywords tries the keywords in
/// order and stops at the first that works: when setting keyword `i` would
/// work exactly if `results[i]`, the attempts made by following
/// [`set_nic_property_multi`] are those of
/// [`crate::chain::chain_run`]; the `j`-th command it asks for sets keyword
/// `j`, and at the end it reports success exactly when some keyword works.
pub proof fn lemma_multi_set_tries_keywords_in_order(
    adapter: Seq<char>,
    keywords: Seq<Seq<char>>,
    value: u32,
    results: Seq<bool>,
)
    requires
        results.len() == keywords.len(),
        keywords.len() <= usize::MAX,
    ensures
        ({
            let tried = chain_run(keywords.len(), results, Seq::empty()).0;
            &&& forall|j: int|
                0 <= j < tried.len() ==> set_nic_property_multi_spec(
                    adapter,
                    keywords,
                    value,
                    #[trigger] tried.take(j),
                ) == PropertyAttemptView::Run(set_nic_property_spec(adapter, keywords[j], value))
            &&& set_nic_property_multi_spec(adapter, keywords, value, tried)
                == PropertyAttemptView::Done(exists|i: int| 0 <= i < results.len() && results[i])
        }),
{
    let n = keywords.len();
    lemma_chain_stops_at_first_success(n as usize, results);
    lemma_first_success_exists(results, 0);
    let (tried, end) = chain_run(n, results, Seq::empty());
    assert forall|j: int| 0 <= j < tried.len() implies set_nic_property_multi_spec(
        adapter,
        keywords,
        value,
        #[trigger] tried.take(j),
    ) == PropertyAttemptView::Run(set_nic_property_spec(adapter, keywords[j], value)) by {
        let t = tried.take(j);
        assert(t =~= results.take(j));
        if j > 0 {
            assert(t.last() == results[j - 1]);
            match first_success(results) {
                Some(i) => assert(j - 1 < i),
                None => {},
            }
        }
    }
    match first_success(results) {
        Some(i) => {
            assert(tried.last() == results[i as int]);
        },
        None => {
            if n > 0 {
                assert(tried.last() == results[n - 1]);
            }
        },
    }
}

/// The outcome of setting each keyword of `keywords` to `value` on
/// `adapter`, when a command works exactly if `works` holds of it.
pub open spec fn keyword_results(
    adapter: Seq<char>,
    keywords: Seq<Seq<char>>,
    value: u32,
    works: spec_fn(Seq<char>) -> bool,
) -> Seq<bool> {
    keywords.map_values(|k: Seq<char>| works(set_nic_property_spec(adapter, k, value)))
}

/// Where [`set_nic_property_multi`] ends when its commands are answered by
/// `works`, one attempt after the other.
pub open spec fn multi_set_outcome(
    adapter: Seq<char>,
    keywords: Seq<Seq<char>>,
    value: u32,
    works: spec_fn(Seq<char>) -> bool,
) -> PropertyAttemptView {
    let results = keyword_results(adapter, keywords, value, works);
    set_nic_property_multi_spec(
        adapter,
        keywords,
        value,
        chain_run(keywords.len(), results, Seq::empty()).0,
    )
}

proof fn lemma_multi_set_outcome_is_any(
    adapter: Seq<char>,
    keywords: Seq<Seq<char>>,
    value: u32,
    works: spec_fn(Seq<char>) -> bool,
)
    requires
        keywords.len() <= usize::MAX,
    ensures
        multi_set_outcome(adapter, keywords, value, works) == PropertyAttemptView::Done(
            exists|i: int|
                0 <= i < keywords.len() && works(
                    set_nic_property_spec(adapter, #[trigger] keywords[i], value),
                ),
        ),
{
    let results = keyword_results(adapter, keywords, value, works);
    lemma_multi_set_tries_keywords_in_order(adapter, keywords, value, results);
    let any_result = exists|i: int| 0 <= i < results.len() && results[i];
    let any_works = exists|i: int|
        0 <= i < keywords.len() && works(set_nic_property_spec(adapter, #[trigger] keywords[i], value));
    if any_result {
        let i = choose|i: int| 0 <= i < results.len() && results[i];
        assert(works(set_nic_property_spec(adapter, keywords[i], value)));
    }
    if any_works {
        let i = choose|i: int|
            0 <= i < keywords.len() && works(set_nic_property_spec(adapter, #[trigger] keywords[i], value));
        assert(results[i]);
    }
    assert(any_result == any_works);
}

/// Setting a property by a list of keywords, when each command's outcome
/// depends on the command alone: an empty list sets nothing, and the list
/// `first + second` sets the property exactly when `first` does or
/// `second` does.
pub proof fn lemma_multi_set_concat(
    adapter: Seq<char>,
    first: Seq<Seq<char>>,
    second: Seq<Seq<char>>,
    value: u32,
    works: spec_fn(Seq<char>) -> bool,
)
    requires
        first.len() + second.len() <= usize::MAX,
    ensures
        multi_set_outcome(adapter, Seq::empty(), value, works) == PropertyAttemptView::Done(false),
        multi_set_outcome(adapter, first + second, value, works) == PropertyAttemptView::Done(
            multi_set_outcome(adapter, first, value, works) == PropertyAttemptView::Done(true)
                || multi_set_outcome(adapter, second, value, works) == PropertyAttemptView::Done(
                true,
            ),
        ),
{
    let both = first + second;
    lemma_multi_set_outcome_is_any(adapter, Seq::empty(), value, works);
    lemma_multi_set_outcome_is_any(adapter, first, value, works);
    lemma_multi_set_outcome_is_any(adapter, second, value, works);
    lemma_multi_set_outcome_is_any(adapter, both, value, works);
    let in_first = exists|i: int|
        0 <= i < first.len() && works(set_nic_property_spec(adapter, #[trigger] first[i], value));
    let in_second = exists|i: int|
        0 <= i < second.len() && works(set_nic_property_spec(adapter, #[trigger] second[i], value));
    let in_both = exists|i: int|
        0 <= i < both.len() && works(set_nic_property_spec(adapter, #[trigger] both[i], value));
    if in_first {
        let i = choose|i: int|
            0 <= i < first.len() && works(set_nic_property_spec(adapter, #[trigger] first[i], value));
        assert(both[i] == first[i]);
    }
    if in_second {
        let i = choose|i: int|
            0 <= i < second.len() && works(set_nic_property_spec(adapter, #[trigger] second[i], value));
        assert(both[first.len() + i] == second[i]);
    }
    if in_both {
        let i = choose|i: int|
            0 <= i < both.len() && works(set_nic_property_spec(adapter, #[trigger] both[i], value));
        if i < first.len() {
            assert(both[i] == first[i]);
        } else {
            assert(both[i] == second[i - first.len()]);
        }
    }
    assert(in_both == (in_first || in_second));
}

/// The RSS queue count is half the cores, raised to 2 and lowered to 8,
/// then capped at the adapter's maximum: it is
/// `min(max(min(cores / 2, 8), 2), max_queues)`. So it is exactly half the
/// cores whenever that lies in `[2, 8]` and the adapter allows it, 8 when
/// half the cores is more and the adapter allows 8, 2 when half the cores
/// is less and the adapter allows 2, and never more than the adapter
/// allows.
pub proof fn lemma_rss_queues_are_half_the_cores(cores: nat, max_queues: nat)
    ensures
        ({
            let q = optimal_rss_queues_spec(cores, max_queues);
            let half = cores / 2;
            let capped: nat = if half < 8 { half } else { 8 };
            let raised: nat = if capped > 2 { capped } else { 2 };
            &&& q == if raised < max_queues { raised } else { max_queues }
            &&& 2 <= half <= 8 && half <= max_queues ==> q == half
            &&& half > 8 && max_queues >= 8 ==> q == 8
            &&& half < 2 && max_queues >= 2 ==> q == 2
            &&& q <= max_queues
            &&& q < max_queues ==> q <= 8 && (q == half || (q == 2 && half < 2) || (q == 8 && half > 8))
        }),
{
}

} // verus!
