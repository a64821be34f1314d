use wallet_batch::retry::{RetryPolicy, RetryState, DEFAULT_MAX_ATTEMPTS};

/// Runs one transfer against a scripted dispatcher: the outcomes are handed
/// out in order for as long as an attempt is asked for. Returns the final
/// state and the number of dispatcher invocations.
fn orchestrate(policy: &RetryPolicy, outcomes: &[bool]) -> (RetryState, usize) {
    let mut state = RetryState::Pending.begin();
    let mut invocations = 0;
    while state.attempting() {
        let success = outcomes[invocations];
        invocations += 1;
        state = state.observe(policy, success);
    }
    (state, invocations)
}

#[test]
fn default_budget_is_five() {
    assert_eq!(DEFAULT_MAX_ATTEMPTS, 5);
    assert_eq!(RetryPolicy::default().max_attempts(), 5);
}

#[test]
fn zero_budget_is_refused() {
    assert!(RetryPolicy::new(0).is_none());
    assert_eq!(RetryPolicy::new(1).unwrap().max_attempts(), 1);
    assert_eq!(RetryPolicy::new(3).unwrap().max_attempts(), 3);
    assert_eq!(RetryPolicy::new(u32::MAX).unwrap().max_attempts(), u32::MAX);
}

#[test]
fn first_attempt_has_number_one() {
    assert_eq!(RetryState::Pending.begin(), RetryState::Attempting { attempt: 1 });
    assert!(RetryState::Pending.begin().attempting());
    assert!(!RetryState::Pending.attempting());
    assert!(!RetryState::Pending.terminal());
}

#[test]
fn begin_leaves_other_states_alone() {
    for state in [
        RetryState::Attempting { attempt: 3 },
        RetryState::Succeeded { attempts: 2 },
        RetryState::Exhausted { attempts: 5 },
    ] {
        assert_eq!(state.begin(), state);
    }
}

#[test]
fn success_on_third_attempt_takes_three_invocations() {
    let policy = RetryPolicy::default();
    let (state, invocations) = orchestrate(&policy, &[false, false, true, true, true]);
    assert_eq!(state, RetryState::Succeeded { attempts: 3 });
    assert_eq!(invocations, 3);
    assert!(state.terminal());
}

#[test]
fn success_on_first_attempt_stops_at_once() {
    let (state, invocations) = orchestrate(&RetryPolicy::default(), &[true, false, false]);
    assert_eq!(state, RetryState::Succeeded { attempts: 1 });
    assert_eq!(invocations, 1);
}

#[test]
fn success_on_last_attempt_counts() {
    let (state, invocations) =
        orchestrate(&RetryPolicy::default(), &[false, false, false, false, true]);
    assert_eq!(state, RetryState::Succeeded { attempts: 5 });
    assert_eq!(invocations, 5);
}

#[test]
fn five_failures_exhaust_the_default_budget() {
    let (state, invocations) = orchestrate(&RetryPolicy::default(), &[false; 5]);
    assert_eq!(state, RetryState::Exhausted { attempts: 5 });
    assert_eq!(invocations, 5);
    assert!(state.terminal());
    assert!(!state.attempting());
}

#[test]
fn never_more_attempts_than_the_budget() {
    for budget in 1u32..=7 {
        let policy = RetryPolicy::new(budget).unwrap();
        for first_success in 0usize..=8 {
            let outcomes: Vec<bool> = (0..8).map(|i| i >= first_success).collect();
            let (state, invocations) = orchestrate(&policy, &outcomes);
            assert!(invocations <= budget as usize);
            if first_success < budget as usize {
                assert_eq!(state, RetryState::Succeeded { attempts: first_success as u32 + 1 });
                assert_eq!(invocations, first_success + 1);
            } else {
                assert_eq!(state, RetryState::Exhausted { attempts: budget });
                assert_eq!(invocations, budget as usize);
            }
        }
    }
}

#[test]
fn attempt_numbers_count_up_by_one() {
    let policy = RetryPolicy::default();
    let mut state = RetryState::Pending.begin();
    for expected in 1u32..=4 {
        assert_eq!(state, RetryState::Attempting { attempt: expected });
        state = state.observe(&policy, false);
    }
    assert_eq!(state, RetryState::Attempting { attempt: 5 });
}

#[test]
fn outcomes_without_an_attempt_change_nothing() {
    let policy = RetryPolicy::default();
    for state in [
        RetryState::Pending,
        RetryState::Succeeded { attempts: 2 },
        RetryState::Exhausted { attempts: 5 },
    ] {
        assert_eq!(state.observe(&policy, true), state);
        assert_eq!(state.observe(&policy, false), state);
    }
}

#[test]
fn budget_of_one_never_retries() {
    let policy = RetryPolicy::new(1).unwrap();
    assert_eq!(orchestrate(&policy, &[false]), (RetryState::Exhausted { attempts: 1 }, 1));
    assert_eq!(orchestrate(&policy, &[true]), (RetryState::Succeeded { attempts: 1 }, 1));
}
