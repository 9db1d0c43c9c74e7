//! Scenario tests for the harness driver: seeded selection, the predicate
//! lifecycle, and effect introspection.
use transaction_fuzzer::INITIAL_MINT_AMOUNT;
use transaction_fuzzer::MAX_GAS;
use transaction_fuzzer::effects::ObjectInfo;
use transaction_fuzzer::effects::TransactionEffects;
use transaction_fuzzer::effects::find_unique_by_type_name;
use transaction_fuzzer::effects::split_outcome;
use transaction_fuzzer::errors::HarnessError;
use transaction_fuzzer::rng::SeededRng;
use transaction_fuzzer::runner::Argument;
use transaction_fuzzer::runner::FuzzTestRunner;
use transaction_fuzzer::runner::GenStateChange;
use transaction_fuzzer::runner::ProgrammableTransactionBuilder;
use transaction_fuzzer::runner::StatePredicate;
use transaction_fuzzer::runner::SystemStateSummary;
use transaction_fuzzer::runner::ValidatorSummary;
use transaction_fuzzer::runner::harness_transaction_data;

fn funded_accounts(n: u64) -> Vec<(u64, u64)> {
    let mut accounts = Vec::new();
    let mut a: u64 = 0;
    while a < n {
        accounts.push((1000 + a, 5000 + a));
        a += 1;
    }
    accounts
}

fn object(id: u64, owner: u64, name: &str, balance: u64) -> ObjectInfo {
    ObjectInfo {
        id,
        version: 1,
        owner,
        struct_name: name.to_string(),
        balance,
    }
}

#[test]
fn seeded_stream_is_deterministic() {
    let mut a = SeededRng::new(42);
    let mut b = SeededRng::new(42);
    let mut distinct = 0;
    let mut last = 0;
    for i in 0..20 {
        let x = a.draw(1000);
        let y = b.draw(1000);
        assert_eq!(x, y);
        assert!(x < 1000);
        if i > 0 && x != last {
            distinct += 1;
        }
        last = x;
    }
    assert!(distinct > 0, "the stream must not be constant");
}

#[test]
fn draw_respects_small_bounds() {
    let mut rng = SeededRng::new(7);
    for _ in 0..10 {
        assert_eq!(rng.draw(1), 0);
    }
    for _ in 0..50 {
        assert!(rng.draw(3) < 3);
    }
}

#[test]
fn replay_same_seed_same_sender_sequence() {
    let accounts = funded_accounts(100);
    let mut first = FuzzTestRunner::<u64>::new(accounts.clone(), 9);
    let mut second = FuzzTestRunner::<u64>::new(accounts.clone(), 9);
    assert_eq!(first.account_count(), 100);
    for _ in 0..50 {
        let x = first.pick_random_sender();
        let y = second.pick_random_sender();
        assert_eq!(x, y);
        assert!(accounts.iter().any(|(addr, _)| *addr == x));
    }
}

#[test]
fn replay_different_draw_history_may_diverge() {
    // Consuming one extra draw shifts the whole remaining stream.
    let accounts = funded_accounts(100);
    let mut first = FuzzTestRunner::<u64>::new(accounts.clone(), 9);
    let mut second = FuzzTestRunner::<u64>::new(accounts, 9);
    let state = SystemStateSummary {
        epoch: 0,
        active_validators: vec![
            ValidatorSummary { address: 1, stake: 1 },
            ValidatorSummary { address: 2, stake: 1 },
        ],
    };
    let _ = first.pick_random_active_validator(&state);
    let mut diverged = false;
    for _ in 0..50 {
        if first.pick_random_sender() != second.pick_random_sender() {
            diverged = true;
        }
    }
    assert!(diverged, "an extra draw must shift the stream");
}

#[test]
fn validator_pick_comes_from_committee() {
    let accounts = funded_accounts(10);
    let mut runner = FuzzTestRunner::<u64>::new(accounts, 3);
    let state = SystemStateSummary {
        epoch: 4,
        active_validators: vec![
            ValidatorSummary { address: 11, stake: 100 },
            ValidatorSummary { address: 22, stake: 200 },
            ValidatorSummary { address: 33, stake: 300 },
        ],
    };
    for _ in 0..20 {
        let v = runner.pick_random_active_validator(&state);
        assert!(v.address == 11 || v.address == 22 || v.address == 33);
    }
}

enum TestGen {
    Decline,
    Produce(u64),
}

impl GenStateChange<u64> for TestGen {
    fn create(&self, _runner: &mut FuzzTestRunner<u64>) -> Option<u64> {
        match self {
            TestGen::Decline => None,
            TestGen::Produce(id) => Some(*id),
        }
    }
}

#[test]
fn replay_same_seed_same_generator_selections() {
    let accounts = funded_accounts(10);
    let operations = vec![
        TestGen::Produce(0),
        TestGen::Decline,
        TestGen::Produce(2),
        TestGen::Produce(3),
    ];
    let mut first = FuzzTestRunner::<u64>::new(accounts.clone(), 77);
    let mut second = FuzzTestRunner::<u64>::new(accounts, 77);
    for _ in 0..40 {
        let x = first.select_next_operation(&operations, 10_000);
        let y = second.select_next_operation(&operations, 10_000);
        assert_eq!(x, y);
        assert!(x.is_some());
    }
}

#[test]
fn declining_generator_never_yields_and_does_not_poison_selection() {
    let accounts = funded_accounts(10);
    let operations = vec![TestGen::Decline, TestGen::Produce(7), TestGen::Produce(8)];
    let mut runner = FuzzTestRunner::<u64>::new(accounts, 123);
    let mut seen_7 = false;
    let mut seen_8 = false;
    for _ in 0..60 {
        let task = runner
            .select_next_operation(&operations, 10_000)
            .expect("a producing generator must eventually be drawn");
        assert!(task == 7 || task == 8, "the declining generator must never yield a task");
        seen_7 |= task == 7;
        seen_8 |= task == 8;
    }
    assert!(seen_7 && seen_8, "the other generators must both stay selectable");
}

#[test]
fn all_generators_declining_exhausts_the_draw_budget() {
    let accounts = funded_accounts(10);
    let operations = vec![TestGen::Decline, TestGen::Decline];
    let mut runner = FuzzTestRunner::<u64>::new(accounts, 1);
    assert!(runner.select_next_operation(&operations, 100).is_none());
}

struct CountingPredicate {
    id: u64,
    posts_run: u64,
}

impl StatePredicate for CountingPredicate {
    fn run(
        &mut self,
        _runner: &mut FuzzTestRunner<Self>,
    ) -> Result<TransactionEffects, HarnessError> {
        Ok(TransactionEffects { created: vec![], mutated: vec![], shared: vec![] })
    }

    fn pre_epoch_post_condition(
        &mut self,
        _runner: &mut FuzzTestRunner<Self>,
        _effects: &TransactionEffects,
    ) {
    }

    fn post_epoch_post_condition(&mut self, runner: &mut FuzzTestRunner<Self>) {
        self.posts_run += 1;
        // Leave a trace of the invocation order in the report bookkeeping.
        runner.record_report(self.id, 0);
    }
}

#[test]
fn change_epoch_runs_each_predicate_exactly_once_in_order() {
    let accounts = funded_accounts(10);
    let mut runner = FuzzTestRunner::<CountingPredicate>::new(accounts, 5);
    for id in 1..=3u64 {
        runner.register_post_epoch_predicate(CountingPredicate { id, posts_run: 0 });
    }
    let pre_state = SystemStateSummary { epoch: 0, active_validators: vec![] };
    let done = runner.change_epoch(pre_state);
    assert_eq!(done.len(), 3);
    for (position, predicate) in done.iter().enumerate() {
        assert_eq!(predicate.posts_run, 1, "each post-epoch check runs exactly once");
        assert_eq!(predicate.id, position as u64 + 1, "drained in registration order");
    }
    assert_eq!(runner.reports, vec![(1, 0), (2, 0), (3, 0)], "invoked in registration order");
    assert!(runner.post_epoch_predicates.is_empty());
    assert_eq!(runner.pre_reconfiguration_states.len(), 1);
    assert_eq!(runner.pre_reconfiguration_states.get(&0).unwrap().epoch, 0);
}

#[test]
fn taking_predicates_empties_the_registry_and_keeps_order() {
    let accounts = funded_accounts(4);
    let mut runner = FuzzTestRunner::<u64>::new(accounts, 5);
    runner.register_post_epoch_predicate(31);
    runner.register_post_epoch_predicate(41);
    runner.register_post_epoch_predicate(59);
    let taken = runner.take_post_epoch_predicates();
    assert_eq!(taken, vec![31, 41, 59]);
    assert!(runner.post_epoch_predicates.is_empty());
}

#[test]
fn change_epoch_flushes_per_epoch_delegation_bookkeeping() {
    let accounts = funded_accounts(4);
    let mut runner = FuzzTestRunner::<CountingPredicate>::new(accounts, 2);
    runner.record_delegation_request(900, 1000);
    runner.record_delegation_withdrawal(250);
    runner.record_delegation_withdrawal(100);
    assert_eq!(runner.delegation_withdraws_this_epoch, 350);
    assert_eq!(runner.delegation_requests_this_epoch.len(), 1);
    let pre_state = SystemStateSummary { epoch: 3, active_validators: vec![] };
    let _ = runner.change_epoch(pre_state);
    assert_eq!(runner.delegation_withdraws_this_epoch, 0);
    assert!(runner.delegation_requests_this_epoch.is_empty());
    assert_eq!(runner.delegations.get(&900), Some(&1000), "live receipts survive the flush");
}

#[test]
fn membership_transitions_keep_sets_disjoint() {
    let accounts = funded_accounts(4);
    let mut runner = FuzzTestRunner::<u64>::new(accounts, 2);
    runner.add_preactive_validator(50, 1_000);
    assert_eq!(runner.preactive_validators.get(&50), Some(&1_000));
    runner.activate_validator(50);
    assert!(runner.active_validators.contains(&50));
    assert!(!runner.preactive_validators.contains_key(&50));
    runner.remove_validator(50);
    assert!(!runner.active_validators.contains(&50));
    assert!(runner.removed_validators.contains(&50));
}

#[test]
fn reports_grow_monotonically() {
    let accounts = funded_accounts(4);
    let mut runner = FuzzTestRunner::<u64>::new(accounts, 2);
    runner.record_report(1, 2);
    runner.record_report(1, 3);
    runner.record_report(4, 2);
    assert_eq!(runner.reports, vec![(1, 2), (1, 3), (4, 2)]);
}

#[test]
fn unique_type_lookup_finds_single_match() {
    let entries = vec![
        object(1, 10, "StakedSui", 500),
        object(2, 10, "Coin", 900),
        object(3, 11, "GasCoin", 100),
    ];
    let found = find_unique_by_type_name(&entries, &"Coin".to_string())
        .unwrap()
        .unwrap();
    assert_eq!(found.id, 2);
    assert_eq!(found.balance, 900);
}

#[test]
fn unique_type_lookup_returns_none_without_match() {
    let entries = vec![object(1, 10, "StakedSui", 500)];
    let found = find_unique_by_type_name(&entries, &"Coin".to_string()).unwrap();
    assert!(found.is_none());
}

#[test]
fn duplicate_type_names_raise_invariant_violation() {
    let entries = vec![
        object(1, 10, "Coin", 500),
        object(2, 10, "Coin", 900),
    ];
    let result = find_unique_by_type_name(&entries, &"Coin".to_string());
    match result {
        Err(HarnessError::InvariantViolation(name)) => assert_eq!(name, "Coin"),
        _ => panic!("two objects of one type must be an invariant violation"),
    }
}

#[test]
fn introspection_scans_the_chosen_category() {
    let accounts = funded_accounts(4);
    let runner = FuzzTestRunner::<u64>::new(accounts, 2);
    let effects = TransactionEffects {
        created: vec![object(1, 10, "Coin", 500)],
        mutated: vec![object(2, 10, "GasCoin", 100)],
        shared: vec![],
    };
    let created = runner
        .get_created_object_of_type_name(&effects, &"Coin".to_string())
        .unwrap()
        .unwrap();
    assert_eq!(created.id, 1);
    let mutated = runner
        .get_mutated_object_of_type_name(&effects, &"GasCoin".to_string())
        .unwrap()
        .unwrap();
    assert_eq!(mutated.id, 2);
    assert!(runner
        .get_created_object_of_type_name(&effects, &"GasCoin".to_string())
        .unwrap()
        .is_none());
}

#[test]
fn split_scenario_produces_one_coin_with_expected_balances() {
    // Fixed seed, 100 accounts funded with the initial amount, one split of a
    // fixed amount off account A's gas resource.
    let accounts = funded_accounts(100);
    let mut runner = FuzzTestRunner::<u64>::new(accounts, 0);
    let sender = runner.pick_random_sender();
    let split_amount: u64 = 1_000_000_000;
    let fees: u64 = 2_000_000;

    let mut builder = ProgrammableTransactionBuilder::new();
    let argument = builder.split_off(split_amount);
    assert!(matches!(argument, Argument::CommandResult(0)));
    let transaction = builder.finish();
    assert_eq!(transaction.commands.len(), 1);
    let data = harness_transaction_data(sender, (5000, 1), transaction, 1000);
    assert_eq!(data.gas_budget, MAX_GAS);
    assert_eq!(data.sender, sender);

    let (created_balance, remaining_balance) =
        split_outcome(INITIAL_MINT_AMOUNT, split_amount, fees).unwrap();
    let effects = TransactionEffects {
        created: vec![object(71, sender, "Coin", created_balance)],
        mutated: vec![object(5000, sender, "GasCoin", remaining_balance)],
        shared: vec![],
    };
    let coin = runner
        .get_created_object_of_type_name(&effects, &"Coin".to_string())
        .unwrap()
        .expect("exactly one new coin");
    assert_eq!(coin.owner, sender);
    assert_eq!(coin.balance, split_amount);
    let gas = runner
        .get_mutated_object_of_type_name(&effects, &"GasCoin".to_string())
        .unwrap()
        .expect("the gas resource was mutated");
    assert_eq!(gas.balance, INITIAL_MINT_AMOUNT - split_amount - fees);
}

#[test]
fn split_outcome_rejects_underfunded_gas() {
    assert_eq!(split_outcome(100, 60, 30), Some((60, 10)));
    assert_eq!(split_outcome(100, 90, 20), None);
    assert_eq!(split_outcome(0, 0, 0), Some((0, 0)));
}

#[test]
fn error_descriptions_are_nonempty() {
    assert!(!HarnessError::ExecutionFailed.describe().is_empty());
    assert!(!HarnessError::ReconfigurationTimeout.describe().is_empty());
    assert!(!HarnessError::InvariantViolation("Coin".to_string()).describe().is_empty());
    assert!(!HarnessError::LayoutResolutionFailed("X".to_string()).describe().is_empty());
}
