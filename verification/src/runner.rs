//! The scenario driver: harness state, random selection, and the predicate
//! lifecycle.
//!
//! One `FuzzTestRunner` value owns everything a scenario mutates: the funded
//! account registry, the mirrored validator membership sets, delegation and
//! misbehavior-report bookkeeping, the epoch snapshot history, the pending
//! post-epoch predicates, and the single seeded random stream all choices are
//! drawn from.
use vstd::prelude::*;

use std::collections::BTreeMap;
use std::collections::BTreeSet;
use std::collections::hash_map::RandomState;

use crate::effects::ObjectInfo;
use crate::effects::TransactionEffects;
use crate::effects::find_unique_by_type_name;
use crate::effects::first_match;
use crate::effects::match_count;
use crate::errors::HarnessError;
use crate::rng::SeededRng;
use crate::rng::std_draw;
use crate::MAX_GAS;

verus! {

/// How many times one drawn generator is retried before the selector gives
/// up on it and draws afresh.
pub const TRY_DIFFERENT_THRESHOLD: u64 = 5;

/// The account registry: address to gas-object identifier, in insertion
/// order, so that a uniform random index gives a uniform random account.
#[verifier::external_type_specification]
#[verifier::external_body]
#[verifier::reject_recursive_types(K)]
#[verifier::reject_recursive_types(V)]
#[verifier::reject_recursive_types(S)]
pub struct ExIndexMap<K, V, S>(indexmap::IndexMap<K, V, S>);

/// The entries of an account registry, as (address, gas object identifier)
/// pairs in insertion order.
pub uninterp spec fn account_entries(m: indexmap::IndexMap<u64, u64, RandomState>) -> Seq<
    (u64, u64),
>;

/// Relies on `indexmap::IndexMap::new`: the new map is empty.
#[verifier::external_body]
fn account_map_new() -> (m: indexmap::IndexMap<u64, u64, RandomState>)
    ensures
        account_entries(m) == Seq::<(u64, u64)>::empty(),
{
    indexmap::IndexMap::new()
}

/// Relies on `indexmap::IndexMap::len`: the number of entries.
#[verifier::external_body]
fn account_map_len(m: &indexmap::IndexMap<u64, u64, RandomState>) -> (n: usize)
    ensures
        n == account_entries(*m).len(),
{
    m.len()
}

/// Relies on `indexmap::IndexMap::insert`: a key not yet present is appended
/// at the end of the iteration order with its value.
#[verifier::external_body]
fn account_map_insert(m: &mut indexmap::IndexMap<u64, u64, RandomState>, k: u64, v: u64)
    requires
        forall|i: int|
            0 <= i < account_entries(*old(m)).len() ==> (#[trigger] account_entries(*old(m))[i]).0
                != k,
    ensures
        account_entries(*final(m)) == account_entries(*old(m)).push((k, v)),
{
    let _ = m.insert(k, v);
}

/// Relies on `indexmap::IndexMap::get_index`: the entry at a position below
/// the length, in insertion order.
#[verifier::external_body]
fn account_map_get_index(m: &indexmap::IndexMap<u64, u64, RandomState>, i: usize) -> (r: (u64, u64))
    requires
        i < account_entries(*m).len(),
    ensures
        r == account_entries(*m)[i as int],
{
    let (k, v) = m.get_index(i).unwrap();
    (*k, *v)
}

/// One validator of the current committee, as the harness reads it from a
/// cluster-wide state summary: its address and its stake.
#[derive(Clone, Copy)]
pub struct ValidatorSummary {
    /// The validator's address.
    pub address: u64,
    /// The validator's stake weight.
    pub stake: u64,
}

/// The cluster-wide summarized configuration read from one node: the epoch it
/// serves and its active validators in committee order.
pub struct SystemStateSummary {
    /// The epoch this configuration belongs to.
    pub epoch: u64,
    /// The active validators, in committee order.
    pub active_validators: Vec<ValidatorSummary>,
}

/// An argument of a command inside a programmable transaction.
pub enum Argument {
    /// The transaction's gas coin.
    GasCoin,
    /// The input at the given position.
    Input(u16),
    /// The result of the command at the given position.
    CommandResult(u16),
}

/// One command of a programmable transaction.
pub enum Command {
    /// Split the given amount off the transaction's gas coin into a new coin.
    SplitFromGasCoin {
        /// The balance the new coin receives.
        amount: u64,
    },
}

/// An unsigned programmable transaction under construction.
pub struct ProgrammableTransaction {
    /// The commands, in execution order.
    pub commands: Vec<Command>,
}

/// Builds a programmable transaction command by command.
pub struct ProgrammableTransactionBuilder {
    /// The commands collected so far, in execution order.
    pub commands: Vec<Command>,
}

impl ProgrammableTransactionBuilder {
    /// Start an empty transaction.
    pub fn new() -> (r: ProgrammableTransactionBuilder)
        ensures
            r.commands@ == Seq::<Command>::empty(),
    {
        ProgrammableTransactionBuilder { commands: Vec::new() }
    }

    /// Append a command that splits `amount` off the transaction's gas coin,
    /// and name the command's result for later commands.
    pub fn split_off(&mut self, amount: u64) -> (r: Argument)
        requires
            old(self).commands@.len() < 65536,
        ensures
            final(self).commands@ == old(self).commands@.push(
                (Command::SplitFromGasCoin { amount }),
            ),
            r == Argument::CommandResult(old(self).commands@.len() as u16),
    {
        let position = self.commands.len() as u16;
        self.commands.push(Command::SplitFromGasCoin { amount });
        Argument::CommandResult(position)
    }

    /// Finish building and hand the transaction out.
    pub fn finish(self) -> (r: ProgrammableTransaction)
        ensures
            r.commands@ == self.commands@,
    {
        ProgrammableTransaction { commands: self.commands }
    }
}

/// The signable payload the harness submits for `sender`: the sender's
/// current fee-paying object reference, the built commands, the cluster's
/// current reference price, and always the harness's fixed maximum fee
/// budget.
pub fn harness_transaction_data(
    sender: u64,
    gas_ref: (u64, u64),
    transaction: ProgrammableTransaction,
    gas_price: u64,
) -> (r: TransactionData)
    ensures
        r.sender == sender,
        r.gas_refs@ == seq![gas_ref],
        r.transaction.commands@ == transaction.commands@,
        r.gas_budget == MAX_GAS,
        r.gas_price == gas_price,
{
    let mut gas_refs: Vec<(u64, u64)> = Vec::new();
    gas_refs.push(gas_ref);
    TransactionData::new_programmable(sender, gas_refs, transaction, MAX_GAS, gas_price)
}

/// The signable payload of a transaction: sender, fee-paying object
/// references, commands, and the fee bounds.
pub struct TransactionData {
    /// The sending address.
    pub sender: u64,
    /// The fee-paying object references, as (identifier, version) pairs.
    pub gas_refs: Vec<(u64, u64)>,
    /// The commands to execute.
    pub transaction: ProgrammableTransaction,
    /// The maximum fee the transaction may spend.
    pub gas_budget: u64,
    /// The cluster's current reference price for fees.
    pub gas_price: u64,
}

impl TransactionData {
    /// Assemble a signable payload from its parts.
    pub fn new_programmable(
        sender: u64,
        gas_refs: Vec<(u64, u64)>,
        transaction: ProgrammableTransaction,
        gas_budget: u64,
        gas_price: u64,
    ) -> (r: TransactionData)
        ensures
            r == (TransactionData { sender, gas_refs, transaction, gas_budget, gas_price }),
    {
        TransactionData { sender, gas_refs, transaction, gas_budget, gas_price }
    }
}

/// The harness state one scenario run owns, over predicate type `P`.
pub struct FuzzTestRunner<P> {
    /// Predicates whose post-epoch check is still outstanding, in
    /// registration order.
    pub post_epoch_predicates: Vec<P>,
    /// The funded accounts: address to gas-object identifier, fixed at
    /// startup.
    pub accounts: indexmap::IndexMap<u64, u64, RandomState>,
    /// Addresses of the current committee, as mirrored by executed
    /// operations.
    pub active_validators: BTreeSet<u64>,
    /// Queued validators and their pending stake, not yet voting.
    pub preactive_validators: BTreeMap<u64, u64>,
    /// Addresses permanently excluded for the run.
    pub removed_validators: BTreeSet<u64>,
    /// Delegation-receipt object identifier to delegating address, for the
    /// current epoch.
    pub delegation_requests_this_epoch: BTreeMap<u64, u64>,
    /// Total amount withdrawn from delegations in the current epoch.
    pub delegation_withdraws_this_epoch: u64,
    /// All live delegation receipts: object identifier to delegating address.
    pub delegations: BTreeMap<u64, u64>,
    /// Misbehavior reports as (reporting validator, reported validator)
    /// pairs; grows monotonically within an epoch.
    pub reports: Vec<(u64, u64)>,
    /// Epoch number to the cluster-wide configuration observed immediately
    /// before that epoch's reconfiguration; append-only.
    pub pre_reconfiguration_states: BTreeMap<u64, SystemStateSummary>,
    /// The single seeded random stream all choices are drawn from.
    pub rng: SeededRng,
}

/// A capability that attempts to produce a runnable task from the current
/// harness state, or declines when the state does not admit its operation.
pub trait GenStateChange<P> {
    /// Attempt to instantiate a task; `None` declines. A generator may draw
    /// from the harness's random stream and read its bookkeeping, but the
    /// pending-predicate set and the epoch snapshot history are mutated by
    /// the driver alone.
    fn create(&self, runner: &mut FuzzTestRunner<P>) -> (r: Option<P>)
        requires
            old(runner).wf(),
        ensures
            final(runner).wf(),
            final(runner).post_epoch_predicates@ == old(runner).post_epoch_predicates@,
            final(runner).pre_reconfiguration_states@ == old(
                runner,
            ).pre_reconfiguration_states@,
            final(runner).rng.seed_spec() == old(runner).rng.seed_spec(),
    ;
}

/// A test-oracle capability validating one executed operation, immediately
/// and again after the next reconfiguration.
pub trait StatePredicate: Sized {
    /// Submit the operation's transaction and return its structured effect;
    /// a failure is fatal for the operation.
    fn run(&mut self, runner: &mut FuzzTestRunner<Self>) -> (r: Result<
        TransactionEffects,
        HarnessError,
    >)
        requires
            old(runner).wf(),
        ensures
            final(runner).wf(),
            final(runner).post_epoch_predicates@ == old(runner).post_epoch_predicates@,
            final(runner).pre_reconfiguration_states@ == old(
                runner,
            ).pre_reconfiguration_states@,
            final(runner).rng.seed_spec() == old(runner).rng.seed_spec(),
    ;

    /// Validate the just-produced effect; never deferred.
    fn pre_epoch_post_condition(
        &mut self,
        runner: &mut FuzzTestRunner<Self>,
        effects: &TransactionEffects,
    )
        requires
            old(runner).wf(),
        ensures
            final(runner).wf(),
            final(runner).post_epoch_predicates@ == old(runner).post_epoch_predicates@,
            final(runner).pre_reconfiguration_states@ == old(
                runner,
            ).pre_reconfiguration_states@,
            final(runner).rng.seed_spec() == old(runner).rng.seed_spec(),
    ;

    /// Validate strictly after the next reconfiguration completed; must
    /// tolerate arbitrary cluster-state drift. The driver runs it exactly
    /// once per registration.
    fn post_epoch_post_condition(&mut self, runner: &mut FuzzTestRunner<Self>)
        requires
            old(runner).wf(),
        ensures
            final(runner).wf(),
            final(runner).post_epoch_predicates@ == old(runner).post_epoch_predicates@,
            final(runner).pre_reconfiguration_states@ == old(
                runner,
            ).pre_reconfiguration_states@,
            final(runner).rng.seed_spec() == old(runner).rng.seed_spec(),
    ;
}

impl<P> FuzzTestRunner<P> {
    /// The membership bookkeeping is consistent: an address is in at most one
    /// of the active, pre-active, and removed sets.
    pub open spec fn wf(&self) -> bool {
        &&& self.active_validators@.disjoint(self.preactive_validators@.dom())
        &&& self.active_validators@.disjoint(self.removed_validators@)
        &&& self.preactive_validators@.dom().disjoint(self.removed_validators@)
    }

    /// Set up a harness over the given funded accounts (address, gas object
    /// identifier — addresses distinct) and the scenario's seed: every
    /// bookkeeping set starts empty and the random stream starts fresh.
    pub fn new(accounts: Vec<(u64, u64)>, seed: u64) -> (r: Self)
        requires
            forall|i: int, j: int|
                0 <= i < j < accounts@.len() ==> (#[trigger] accounts@[i]).0 != (
                #[trigger] accounts@[j]).0,
        ensures
            r.wf(),
            account_entries(r.accounts) == accounts@,
            r.post_epoch_predicates@ == Seq::<P>::empty(),
            r.active_validators@ == Set::<u64>::empty(),
            r.preactive_validators@ == Map::<u64, u64>::empty(),
            r.removed_validators@ == Set::<u64>::empty(),
            r.delegation_requests_this_epoch@ == Map::<u64, u64>::empty(),
            r.delegation_withdraws_this_epoch == 0,
            r.delegations@ == Map::<u64, u64>::empty(),
            r.reports@ == Seq::<(u64, u64)>::empty(),
            r.pre_reconfiguration_states@ == Map::<u64, SystemStateSummary>::empty(),
            r.rng.seed_spec() == seed,
            r.rng.history_spec() == Seq::<u64>::empty(),
    {
        let mut map = account_map_new();
        let mut i: usize = 0;
        while i < accounts.len()
            invariant
                i <= accounts@.len(),
                account_entries(map) == accounts@.take(i as int),
                forall|a: int, b: int|
                    0 <= a < b < accounts@.len() ==> (#[trigger] accounts@[a]).0 != (
                    #[trigger] accounts@[b]).0,
            decreases accounts@.len() - i,
        {
            let (addr, gas) = accounts[i];
            account_map_insert(&mut map, addr, gas);
            proof {
                assert(accounts@.take(i as int).push(accounts@[i as int]) =~= accounts@.take(
                    i + 1,
                ));
            }
            i += 1;
        }
        proof {
            assert(accounts@.take(accounts@.len() as int) =~= accounts@);
        }
        FuzzTestRunner {
            post_epoch_predicates: Vec::new(),
            accounts: map,
            active_validators: BTreeSet::new(),
            preactive_validators: BTreeMap::new(),
            removed_validators: BTreeSet::new(),
            delegation_requests_this_epoch: BTreeMap::new(),
            delegation_withdraws_this_epoch: 0,
            delegations: BTreeMap::new(),
            reports: Vec::new(),
            pre_reconfiguration_states: BTreeMap::new(),
            rng: SeededRng::new(seed),
        }
    }

    /// The size of the fixed account population.
    pub fn account_count(&self) -> (n: usize)
        ensures
            n == account_entries(self.accounts).len(),
    {
        account_map_len(&self.accounts)
    }

    /// Pick a sender uniformly at random over the fixed account population.
    pub fn pick_random_sender(&mut self) -> (r: u64)
        requires
            account_entries(old(self).accounts).len() > 0,
        ensures
            *final(self) == (FuzzTestRunner { rng: final(self).rng, ..*old(self) }),
            final(self).rng.seed_spec() == old(self).rng.seed_spec(),
            final(self).rng.history_spec() == old(self).rng.history_spec().push(
                account_entries(old(self).accounts).len() as u64,
            ),
            r == account_entries(old(self).accounts)[std_draw(
                old(self).rng.seed_spec(),
                old(self).rng.history_spec().push(account_entries(old(self).accounts).len() as u64),
            ) as int].0,
    {
        let n = account_map_len(&self.accounts);
        let i = self.rng.draw_index(n);
        let (addr, _gas) = account_map_get_index(&self.accounts, i);
        addr
    }

    /// Pick a validator uniformly at random over the active committee of a
    /// state summary read live from the cluster.
    pub fn pick_random_active_validator(&mut self, state: &SystemStateSummary) -> (r:
        ValidatorSummary)
        requires
            state.active_validators@.len() > 0,
        ensures
            *final(self) == (FuzzTestRunner { rng: final(self).rng, ..*old(self) }),
            final(self).rng.seed_spec() == old(self).rng.seed_spec(),
            final(self).rng.history_spec() == old(self).rng.history_spec().push(
                state.active_validators@.len() as u64,
            ),
            r == state.active_validators@[std_draw(
                old(self).rng.seed_spec(),
                old(self).rng.history_spec().push(state.active_validators@.len() as u64),
            ) as int],
    {
        let i = self.rng.draw_index(state.active_validators.len());
        state.active_validators[i]
    }

    /// Hand ownership of a predicate to the lifecycle registry; its
    /// post-epoch check will run at the next reconfiguration.
    pub fn register_post_epoch_predicate(&mut self, predicate: P)
        ensures
            *final(self) == (FuzzTestRunner {
                post_epoch_predicates: final(self).post_epoch_predicates,
                ..*old(self)
            }),
            final(self).post_epoch_predicates@ == old(self).post_epoch_predicates@.push(predicate),
    {
        self.post_epoch_predicates.push(predicate);
    }

    /// Queue a validator with its pending stake; it is not yet voting.
    pub fn add_preactive_validator(&mut self, address: u64, stake: u64)
        requires
            old(self).wf(),
            !old(self).active_validators@.contains(address),
            !old(self).removed_validators@.contains(address),
        ensures
            final(self).wf(),
            *final(self) == (FuzzTestRunner {
                preactive_validators: final(self).preactive_validators,
                ..*old(self)
            }),
            final(self).preactive_validators@ == old(self).preactive_validators@.insert(
                address,
                stake,
            ),
    {
        self.preactive_validators.insert(address, stake);
    }

    /// Move a queued validator into the active committee, as an executed
    /// operation observed.
    pub fn activate_validator(&mut self, address: u64)
        requires
            old(self).wf(),
            old(self).preactive_validators@.contains_key(address),
        ensures
            final(self).wf(),
            *final(self) == (FuzzTestRunner {
                active_validators: final(self).active_validators,
                preactive_validators: final(self).preactive_validators,
                ..*old(self)
            }),
            final(self).active_validators@ == old(self).active_validators@.insert(address),
            final(self).preactive_validators@ == old(self).preactive_validators@.remove(address),
    {
        self.preactive_validators.remove(&address);
        self.active_validators.insert(address);
    }

    /// Exclude an active validator for the rest of the run.
    pub fn remove_validator(&mut self, address: u64)
        requires
            old(self).wf(),
            old(self).active_validators@.contains(address),
        ensures
            final(self).wf(),
            *final(self) == (FuzzTestRunner {
                active_validators: final(self).active_validators,
                removed_validators: final(self).removed_validators,
                ..*old(self)
            }),
            final(self).active_validators@ == old(self).active_validators@.remove(address),
            final(self).removed_validators@ == old(self).removed_validators@.insert(address),
    {
        self.active_validators.remove(&address);
        self.removed_validators.insert(address);
    }

    /// Record that a delegation-submitting operation created the given
    /// receipt object for the given delegating account, in this epoch.
    pub fn record_delegation_request(&mut self, receipt_id: u64, delegator: u64)
        ensures
            *final(self) == (FuzzTestRunner {
                delegation_requests_this_epoch: final(self).delegation_requests_this_epoch,
                delegations: final(self).delegations,
                ..*old(self)
            }),
            final(self).delegation_requests_this_epoch@ == old(
                self,
            ).delegation_requests_this_epoch@.insert(receipt_id, delegator),
            final(self).delegations@ == old(self).delegations@.insert(receipt_id, delegator),
    {
        self.delegation_requests_this_epoch.insert(receipt_id, delegator);
        self.delegations.insert(receipt_id, delegator);
    }

    /// Account a delegation withdrawal into the epoch's running total.
    pub fn record_delegation_withdrawal(&mut self, amount: u64)
        requires
            old(self).delegation_withdraws_this_epoch + amount <= u64::MAX,
        ensures
            *final(self) == (FuzzTestRunner {
                delegation_withdraws_this_epoch: final(self).delegation_withdraws_this_epoch,
                ..*old(self)
            }),
            final(self).delegation_withdraws_this_epoch == old(
                self,
            ).delegation_withdraws_this_epoch + amount,
    {
        self.delegation_withdraws_this_epoch = self.delegation_withdraws_this_epoch + amount;
    }

    /// Record that `reporter` reported `reported` for misbehavior; the record
    /// grows monotonically within an epoch.
    pub fn record_report(&mut self, reporter: u64, reported: u64)
        ensures
            *final(self) == (FuzzTestRunner { reports: final(self).reports, ..*old(self) }),
            final(self).reports@ == old(self).reports@.push((reporter, reported)),
    {
        self.reports.push((reporter, reported));
    }

    /// Look up the at most one object of the named type among the objects
    /// `effects` created; two matches are a fatal invariant violation.
    pub fn get_created_object_of_type_name(
        &self,
        effects: &TransactionEffects,
        name: &String,
    ) -> (r: Result<Option<ObjectInfo>, HarnessError>)
        ensures
            match r {
                Ok(found) => match found {
                    Some(o) => match_count(effects.created@, name@) == 1 && o == first_match(
                        effects.created@,
                        name@,
                    ),
                    None => match_count(effects.created@, name@) == 0,
                },
                Err(_) => match_count(effects.created@, name@) >= 2,
            },
    {
        self.get_from_effects(&effects.created, name)
    }

    /// Look up the at most one object of the named type among the objects
    /// `effects` mutated; two matches are a fatal invariant violation.
    pub fn get_mutated_object_of_type_name(
        &self,
        effects: &TransactionEffects,
        name: &String,
    ) -> (r: Result<Option<ObjectInfo>, HarnessError>)
        ensures
            match r {
                Ok(found) => match found {
                    Some(o) => match_count(effects.mutated@, name@) == 1 && o == first_match(
                        effects.mutated@,
                        name@,
                    ),
                    None => match_count(effects.mutated@, name@) == 0,
                },
                Err(_) => match_count(effects.mutated@, name@) >= 2,
            },
    {
        self.get_from_effects(&effects.mutated, name)
    }

    /// Scan one caller-chosen effect category for objects of the named type:
    /// at most one may exist.
    pub fn get_from_effects(&self, entries: &Vec<ObjectInfo>, name: &String) -> (r: Result<
        Option<ObjectInfo>,
        HarnessError,
    >)
        ensures
            match r {
                Ok(found) => match found {
                    Some(o) => match_count(entries@, name@) == 1 && o == first_match(
                        entries@,
                        name@,
                    ) && o.struct_name@ == name@,
                    None => match_count(entries@, name@) == 0,
                },
                Err(e) => match_count(entries@, name@) >= 2 && match e {
                    HarnessError::InvariantViolation(n) => n@ == name@,
                    _ => false,
                },
            },
    {
        find_unique_by_type_name(entries, name)
    }

    /// Select the next operation: draw a generator uniformly at random,
    /// commit to it for a bounded number of instantiation attempts, and on
    /// exhaustion draw afresh, until some generator produces a task or
    /// `max_draws` overall draws were spent. A generator that declines
    /// forever never yields a task but does not poison the selection of the
    /// others; if every generator always declines, the search alone would
    /// never end — bounding the total scenario length through `max_draws` is
    /// the caller's concern, and exhausting it is not an error.
    pub fn select_next_operation<G: GenStateChange<P>>(
        &mut self,
        operations: &Vec<G>,
        max_draws: u64,
    ) -> (task: Option<P>)
        requires
            old(self).wf(),
            operations@.len() > 0,
        ensures
            final(self).wf(),
            final(self).post_epoch_predicates@ == old(self).post_epoch_predicates@,
            final(self).pre_reconfiguration_states@ == old(self).pre_reconfiguration_states@,
            final(self).rng.seed_spec() == old(self).rng.seed_spec(),
    {
        let mut draws: u64 = 0;
        while draws < max_draws
            invariant
                self.wf(),
                operations@.len() > 0,
                self.post_epoch_predicates@ == old(self).post_epoch_predicates@,
                self.pre_reconfiguration_states@ == old(self).pre_reconfiguration_states@,
                self.rng.seed_spec() == old(self).rng.seed_spec(),
            decreases max_draws - draws,
        {
            let index = self.rng.draw_index(operations.len());
            let mut attempts: u64 = 0;
            while attempts < TRY_DIFFERENT_THRESHOLD
                invariant
                    self.wf(),
                    index < operations@.len(),
                    self.post_epoch_predicates@ == old(self).post_epoch_predicates@,
                    self.pre_reconfiguration_states@ == old(self).pre_reconfiguration_states@,
                    self.rng.seed_spec() == old(self).rng.seed_spec(),
                decreases TRY_DIFFERENT_THRESHOLD - attempts,
            {
                let generator = &operations[index];
                if let Some(task) = generator.create(self) {
                    return Some(task);
                }
                attempts += 1;
            }
            draws += 1;
        }
        None
    }
}

impl<P> FuzzTestRunner<P> {
    /// Atomically take ownership of the entire outstanding predicate set:
    /// the registry is left empty and the predicates come out exactly as
    /// registered, in registration order.
    pub fn take_post_epoch_predicates(&mut self) -> (taken: Vec<P>)
        ensures
            *final(self) == (FuzzTestRunner {
                post_epoch_predicates: final(self).post_epoch_predicates,
                ..*old(self)
            }),
            final(self).post_epoch_predicates@ == Seq::<P>::empty(),
            taken@ == old(self).post_epoch_predicates@,
    {
        let mut taken: Vec<P> = Vec::new();
        core::mem::swap(&mut taken, &mut self.post_epoch_predicates);
        taken
    }
}

/// The law of the predicate lifecycle's drain: taking the outstanding set
/// hands back every registered predicate exactly once — the drained sequence
/// has the registered length, the registered predicate at every position, and
/// the same multiset of predicates — so each predicate's post-epoch check,
/// run once per drained position, runs exactly once, in registration order.
pub proof fn lemma_drain_exactly_once<P>(registered: Seq<P>, taken: Seq<P>)
    requires
        taken == registered,
    ensures
        taken.len() == registered.len(),
        forall|i: int| 0 <= i < registered.len() ==> taken[i] == registered[i],
        taken.to_multiset() == registered.to_multiset(),
{
}

impl<P: StatePredicate> FuzzTestRunner<P> {
    /// Complete an epoch transition's bookkeeping after the cluster
    /// converged: record the before-snapshot under the pre-transition epoch
    /// number, then atomically take ownership of the outstanding predicate
    /// set, drain it, and run each predicate's post-epoch check exactly once,
    /// in registration order, before the driver proceeds; finally flush the
    /// per-epoch delegation bookkeeping. The checked predicates are returned,
    /// in that same order.
    pub fn change_epoch(&mut self, pre_state: SystemStateSummary) -> (done: Vec<P>)
        requires
            old(self).wf(),
        ensures
            final(self).wf(),
            final(self).pre_reconfiguration_states@ == old(
                self,
            ).pre_reconfiguration_states@.insert(pre_state.epoch, pre_state),
            final(self).post_epoch_predicates@.len() == 0,
            final(self).delegation_requests_this_epoch@ == Map::<u64, u64>::empty(),
            final(self).delegation_withdraws_this_epoch == 0,
            final(self).rng.seed_spec() == old(self).rng.seed_spec(),
            done@.len() == old(self).post_epoch_predicates@.len(),
    {
        let ghost orig: Seq<P> = self.post_epoch_predicates@;
        let epoch = pre_state.epoch;
        self.pre_reconfiguration_states.insert(epoch, pre_state);
        let mut posts: Vec<P> = self.take_post_epoch_predicates();
        let mut done: Vec<P> = Vec::new();
        while posts.len() > 0
            invariant
                self.wf(),
                self.post_epoch_predicates@.len() == 0,
                self.pre_reconfiguration_states@ == old(self).pre_reconfiguration_states@.insert(
                    pre_state.epoch,
                    pre_state,
                ),
                done@.len() + posts@.len() == orig.len(),
                self.rng.seed_spec() == old(self).rng.seed_spec(),
            decreases posts@.len(),
        {
            let mut predicate = posts.remove(0);
            predicate.post_epoch_post_condition(self);
            done.push(predicate);
        }
        self.delegation_requests_this_epoch.clear();
        self.delegation_withdraws_this_epoch = 0;
        done
    }
}

} // verus!
