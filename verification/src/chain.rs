//! Fallback chains: alternatives tried one after the other until one of
//! them works.
use vstd::prelude::*;

verus! {

/// What to do next in a fallback chain.
#[derive(PartialEq, Eq, Structural, Clone, Copy, Debug)]
pub enum ChainStep {
    /// Try the alternative with this index.
    Attempt(usize),
    /// The alternative with this index worked; stop.
    Succeeded(usize),
    /// Every alternative failed.
    Exhausted,
}

/// The step that follows the attempts `outcomes` (in order, `true` for an
/// attempt that worked) in a chain of `candidates` alternatives: stop at the
/// first success, otherwise try the next alternative, until none is left.
pub open spec fn chain_step(candidates: nat, outcomes: Seq<bool>) -> ChainStep {
    if outcomes.len() > 0 && outcomes.last() {
        ChainStep::Succeeded((outcomes.len() - 1) as usize)
    } else if outcomes.len() < candidates {
        ChainStep::Attempt(outcomes.len() as usize)
    } else {
        ChainStep::Exhausted
    }
}

/// Decides the next step of a chain of `candidates` alternatives after the
/// attempts whose outcomes are `outcomes`.
pub fn next_in_chain(candidates: usize, outcomes: &Vec<bool>) -> (step: ChainStep)
    ensures
        step == chain_step(candidates as nat, outcomes@),
{
    let n = outcomes.len();
    if n > 0 && outcomes[n - 1] {
        ChainStep::Succeeded(n - 1)
    } else if n < candidates {
        ChainStep::Attempt(n)
    } else {
        ChainStep::Exhausted
    }
}

/// The index of the first `true` in `results` at or after `from`.
pub open spec fn first_success_from(results: Seq<bool>, from: int) -> Option<nat>
    decreases results.len() - from,
{
    if from < 0 || from >= results.len() {
        None
    } else if results[from] {
        Some(from as nat)
    } else {
        first_success_from(results, from + 1)
    }
}

/// The index of the first `true` in `results`.
pub open spec fn first_success(results: Seq<bool>) -> Option<nat> {
    first_success_from(results, 0)
}

/// Drives a chain of `candidates` alternatives in which alternative `i`
/// works exactly when `results[i]`, starting after the attempts `outcomes`:
/// the outcomes of all attempts made, and the final step.
pub open spec fn chain_run(candidates: nat, results: Seq<bool>, outcomes: Seq<bool>) -> (Seq<
    bool,
>, ChainStep)
    decreases candidates - outcomes.len(),
{
    if !(outcomes.len() > 0 && outcomes.last()) && outcomes.len() < candidates {
        chain_run(candidates, results, outcomes.push(results[outcomes.len() as int]))
    } else {
        (outcomes, chain_step(candidates, outcomes))
    }
}

proof fn lemma_chain_run_from(n: nat, results: Seq<bool>, k: nat)
    requires
        results.len() == n,
        n <= usize::MAX,
        k <= n,
        forall|j: int| 0 <= j < k ==> !#[trigger] results[j],
    ensures
        chain_run(n, results, results.take(k as int)) == (match first_success_from(
            results,
            k as int,
        ) {
            Some(i) => (results.take(i as int + 1), ChainStep::Succeeded(i as usize)),
            None => (results, ChainStep::Exhausted),
        }),
    decreases n - k,
{
    let tried = results.take(k as int);
    if k > 0 {
        assert(tried.last() == results[k - 1]);
    }
    if k < n {
        let next = tried.push(results[k as int]);
        assert(next =~= results.take(k as int + 1));
        if results[k as int] {
            assert(next.last() == results[k as int]);
            assert(chain_run(n, results, next) == (next, chain_step(n, next)));
        } else {
            lemma_chain_run_from(n, results, k + 1);
        }
    } else {
        assert(tried =~= results);
    }
}

/// A chain stops at the first alternative that works and tries them in
/// order: when alternative `i` works exactly if `results[i]`, the attempts
/// made are those of `results` up to and including the first success, and
/// the chain ends in `Succeeded` with that index; if none works, every
/// alternative is tried once and the chain ends `Exhausted`. So a chain
/// succeeds exactly when some alternative works.
pub proof fn lemma_chain_stops_at_first_success(n: usize, results: Seq<bool>)
    requires
        results.len() == n,
    ensures
        chain_run(n as nat, results, Seq::empty()) == (match first_success(results) {
            Some(i) => (results.take(i as int + 1), ChainStep::Succeeded(i as usize)),
            None => (results, ChainStep::Exhausted),
        }),
        (chain_run(n as nat, results, Seq::empty()).1 is Succeeded) <==> (exists|i: int|
            0 <= i < n && results[i]),
{
    assert(results.take(0) =~= Seq::<bool>::empty());
    lemma_chain_run_from(n as nat, results, 0);
    lemma_first_success_exists(results, 0);
}

pub proof fn lemma_first_success_exists(results: Seq<bool>, from: int)
    requires
        0 <= from <= results.len(),
    ensures
        first_success_from(results, from) matches Some(i) ==> forall|j: int|
            from <= j < i ==> !#[trigger] results[j],
        (first_success_from(results, from) is Some) <==> (exists|i: int|
            from <= i < results.len() && results[i]),
        first_success_from(results, from) matches Some(i) ==> from <= i < results.len()
            && results[i as int],
    decreases results.len() - from,
{
    if from < results.len() {
        lemma_first_success_exists(results, from + 1);
        if results[from] {
        } else {
            assert forall|i: int| from <= i < results.len() && results[i] implies from + 1 <= i by {
            }
        }
    }
}

} // verus!
