use rust_optimizer::chain::{next_in_chain, ChainStep};

/// Runs a chain whose alternative `i` works exactly when `results[i]`.
fn drive(results: &[bool]) -> (Vec<usize>, ChainStep) {
    let mut outcomes: Vec<bool> = Vec::new();
    let mut tried = Vec::new();
    loop {
        match next_in_chain(results.len(), &outcomes) {
            ChainStep::Attempt(i) => {
                tried.push(i);
                outcomes.push(results[i]);
            }
            other => return (tried, other),
        }
    }
}

#[test]
fn chain_stops_at_first_success() {
    assert_eq!(drive(&[false, true, true]), (vec![0, 1], ChainStep::Succeeded(1)));
    assert_eq!(drive(&[true, false]), (vec![0], ChainStep::Succeeded(0)));
}

#[test]
fn chain_exhausts_when_nothing_works() {
    assert_eq!(drive(&[false, false, false]), (vec![0, 1, 2], ChainStep::Exhausted));
    assert_eq!(drive(&[]), (vec![], ChainStep::Exhausted));
}

#[test]
fn chain_first_step_tries_first_alternative() {
    assert_eq!(next_in_chain(3, &vec![]), ChainStep::Attempt(0));
    assert_eq!(next_in_chain(3, &vec![false, false]), ChainStep::Attempt(2));
    assert_eq!(next_in_chain(3, &vec![false, true]), ChainStep::Succeeded(1));
}
