//! Structured transaction effects and their introspection.
//!
//! An effect is the record of the objects a certified transaction created,
//! mutated, or read as shared state, each entry resolved from the backing
//! store into its identity, owner, declared type name, and balance. The
//! introspection functions look up matching objects by type name and treat
//! more than one match as a logic-level invariant violation.
use vstd::prelude::*;

use crate::errors::HarnessError;

verus! {

/// One object referenced by an effect, resolved from the backing store.
pub struct ObjectInfo {
    /// The object's identifier.
    pub id: u64,
    /// The object's version at the reference recorded in the effect.
    pub version: u64,
    /// The address owning the object.
    pub owner: u64,
    /// The short name of the object's declared type.
    pub struct_name: String,
    /// The total balance held by the object, net of its storage rebate.
    pub balance: u64,
}

/// The structured record of what a certified transaction did.
pub struct TransactionEffects {
    /// Objects the transaction created.
    pub created: Vec<ObjectInfo>,
    /// Objects the transaction mutated.
    pub mutated: Vec<ObjectInfo>,
    /// Shared objects the transaction read.
    pub shared: Vec<ObjectInfo>,
}

impl Clone for ObjectInfo {
    fn clone(&self) -> (r: Self)
        ensures
            r == *self,
    {
        ObjectInfo {
            id: self.id,
            version: self.version,
            owner: self.owner,
            struct_name: self.struct_name.clone(),
            balance: self.balance,
        }
    }
}

/// How many entries of `s` declare the type name `name`.
pub open spec fn match_count(s: Seq<ObjectInfo>, name: Seq<char>) -> nat
    decreases s.len(),
{
    if s.len() == 0 {
        0
    } else {
        match_count(s.drop_last(), name) + (if s.last().struct_name@ == name {
            1nat
        } else {
            0nat
        })
    }
}

/// The earliest entry of `s` whose type name is `name`; meaningful only when
/// `match_count(s, name) >= 1`.
pub open spec fn first_match(s: Seq<ObjectInfo>, name: Seq<char>) -> ObjectInfo
    decreases s.len(),
{
    if s.len() == 0 {
        arbitrary()
    } else if match_count(s.drop_last(), name) >= 1 {
        first_match(s.drop_last(), name)
    } else {
        s.last()
    }
}

/// A prefix of a sequence never holds more matches than the whole.
proof fn lemma_match_count_take_le(s: Seq<ObjectInfo>, name: Seq<char>, j: int)
    requires
        0 <= j <= s.len(),
    ensures
        match_count(s.take(j), name) <= match_count(s, name),
    decreases s.len() - j,
{
    if j == s.len() {
        assert(s.take(j) =~= s);
    } else {
        assert(s.take(j + 1).drop_last() =~= s.take(j));
        lemma_match_count_take_le(s, name, j + 1);
    }
}

/// Scan `entries` for objects whose declared type's short name equals `name`.
///
/// At most one entry may match: a unique match is returned, no match yields
/// `None`, and two or more matches are a logic-level invariant violation
/// (a generator produced an effect with ambiguous object identity), reported
/// as the fatal `InvariantViolation` condition carrying the type name.
pub fn find_unique_by_type_name(entries: &Vec<ObjectInfo>, name: &String) -> (r: Result<
    Option<ObjectInfo>,
    HarnessError,
>)
    ensures
        match r {
            Ok(found) => match found {
                Some(o) => match_count(entries@, name@) == 1 && o == first_match(entries@, name@)
                    && o.struct_name@ == name@,
                None => match_count(entries@, name@) == 0,
            },
            Err(e) => match_count(entries@, name@) >= 2 && match e {
                HarnessError::InvariantViolation(n) => n@ == name@,
                _ => false,
            },
        },
{
    let mut found: Option<ObjectInfo> = None;
    let mut i: usize = 0;
    while i < entries.len()
        invariant
            i <= entries.len(),
            match found {
                None => match_count(entries@.take(i as int), name@) == 0,
                Some(f) => match_count(entries@.take(i as int), name@) == 1 && f == first_match(
                    entries@.take(i as int),
                    name@,
                ) && f.struct_name@ == name@,
            },
        decreases entries.len() - i,
    {
        proof {
            assert(entries@.take(i + 1).drop_last() =~= entries@.take(i as int));
            assert(entries@.take(i + 1).last() == entries@[i as int]);
        }
        if entries[i].struct_name == *name {
            if found.is_some() {
                proof {
                    lemma_match_count_take_le(entries@, name@, i + 1);
                }
                return Err(HarnessError::InvariantViolation(name.clone()));
            }
            found = Some(entries[i].clone());
        }
        i += 1;
    }
    proof {
        assert(entries@.take(entries@.len() as int) =~= entries@);
    }
    Ok(found)
}

/// The balances a split of `amount` out of a gas object holding `initial`
/// should leave behind when the transaction pays `fees`: the created object's
/// balance and the remaining gas balance, or `None` when the gas object
/// cannot cover the split and the fees.
pub fn split_outcome(initial: u64, amount: u64, fees: u64) -> (r: Option<(u64, u64)>)
    ensures
        amount + fees <= initial ==> r == Some((amount, (initial - amount - fees) as u64)),
        amount + fees > initial ==> r is None,
{
    if fees <= initial && amount <= initial - fees {
        Some((amount, initial - amount - fees))
    } else {
        None
    }
}

} // verus!
