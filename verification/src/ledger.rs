//! The value-transfer capability that the marketplace pays through.

use vstd::prelude::*;

use anchor_lang::prelude::Pubkey;

use crate::error::InsufficientBalance;
use crate::identity::same_key;

verus! {

/// The balance of `account` once `amount` has moved from `from` to `to`,
/// given that it held `before`. A transfer from an account to itself leaves it
/// as it was.
pub open spec fn balance_after(
    before: u64,
    account: Pubkey,
    from: Pubkey,
    to: Pubkey,
    amount: int,
) -> int {
    before - (if account == from { amount } else { 0 }) + (if account == to { amount } else { 0 })
}

/// A ledger of token balances that moves value between two accounts in one
/// step: both balances change, or neither does.
pub trait TransferCapability {
    /// The ledger's own invariant.
    spec fn well_formed(&self) -> bool;

    /// What `account` holds; an account the ledger has never seen holds 0.
    spec fn balance(&self, account: Pubkey) -> u64;

    /// Moves `amount` from `from` to `to`. It is refused exactly when `from`
    /// holds less than `amount`, and then nothing changes.
    fn transfer(&mut self, from: &Pubkey, to: &Pubkey, amount: u64) -> (outcome: Result<
        (),
        InsufficientBalance,
    >)
        requires
            old(self).well_formed(),
        ensures
            final(self).well_formed(),
            outcome is Ok <==> old(self).balance(*from) >= amount,
            outcome is Ok ==> forall|account: Pubkey|
                final(self).balance(account) == balance_after(
                    old(self).balance(account),
                    account,
                    *from,
                    *to,
                    amount as int,
                ),
            outcome is Err ==> forall|account: Pubkey|
                final(self).balance(account) == old(self).balance(account),
    ;
}

/// The sum of `amounts`.
pub open spec fn sum_of(amounts: Seq<u64>) -> int
    decreases amounts.len(),
{
    if amounts.len() == 0 {
        0
    } else {
        sum_of(amounts.drop_last()) + amounts.last()
    }
}

proof fn lemma_sum_push(amounts: Seq<u64>, amount: u64)
    ensures
        sum_of(amounts.push(amount)) == sum_of(amounts) + amount,
{
    assert(amounts.push(amount).drop_last() =~= amounts);
}

proof fn lemma_sum_update(amounts: Seq<u64>, at: int, amount: u64)
    requires
        0 <= at < amounts.len(),
    ensures
        sum_of(amounts.update(at, amount)) == sum_of(amounts) - amounts[at] + amount,
    decreases amounts.len(),
{
    let updated = amounts.update(at, amount);
    if at == amounts.len() - 1 {
        assert(updated.drop_last() =~= amounts.drop_last());
    } else {
        lemma_sum_update(amounts.drop_last(), at, amount);
        assert(updated.drop_last() =~= amounts.drop_last().update(at, amount));
    }
}

proof fn lemma_sum_covers_one(amounts: Seq<u64>, at: int)
    requires
        0 <= at < amounts.len(),
    ensures
        0 <= amounts[at] <= sum_of(amounts),
        0 <= sum_of(amounts),
    decreases amounts.len(),
{
    let rest = amounts.drop_last();
    if rest.len() == 0 {
        assert(sum_of(rest) == 0);
    } else if at == rest.len() {
        lemma_sum_covers_one(rest, 0);
    } else {
        lemma_sum_covers_one(rest, at);
    }
}

/// A ledger kept in memory: each account it has seen, with what it holds.
/// All balances together never exceed `u64::MAX`, so no credit overflows.
#[derive(Clone, Debug)]
pub struct MemoryLedger {
    holders: Vec<Pubkey>,
    amounts: Vec<u64>,
    supply: u64,
}

impl MemoryLedger {
    /// Everything the ledger holds, over all accounts.
    pub closed spec fn total_supply(&self) -> u64 {
        self.supply
    }

    /// A ledger on which every account holds 0.
    pub fn new() -> (ledger: MemoryLedger)
        ensures
            ledger.well_formed(),
            ledger.total_supply() == 0,
            forall|account: Pubkey| ledger.balance(account) == 0,
    {
        MemoryLedger { holders: Vec::new(), amounts: Vec::new(), supply: 0 }
    }

    /// The total supply.
    pub fn supply(&self) -> (supply: u64)
        ensures
            supply == self.total_supply(),
    {
        self.supply
    }

    /// Where `account` stands among the holders, if the ledger has seen it.
    fn find(&self, account: &Pubkey) -> (found: Option<usize>)
        requires
            self.entries_well_formed(),
        ensures
            match found {
                Some(at) => at < self.holders@.len() && self.holders@[at as int] == *account
                    && self.balance(*account) == self.amounts@[at as int],
                None => !self.holders@.contains(*account) && self.balance(*account) == 0,
            },
    {
        let mut at: usize = 0;
        while at < self.holders.len()
            invariant
                self.entries_well_formed(),
                at <= self.holders@.len(),
                forall|seen: int| 0 <= seen < at ==> self.holders@[seen] != *account,
            decreases self.holders@.len() - at,
        {
            if same_key(&self.holders[at], account) {
                proof {
                    self.lemma_balance_at(at as int);
                }
                return Some(at);
            }
            at += 1;
        }
        None
    }

    /// The account named at `at` holds the amount at `at`.
    proof fn lemma_balance_at(&self, at: int)
        requires
            self.entries_well_formed(),
            0 <= at < self.holders@.len(),
        ensures
            self.balance(self.holders@[at]) == self.amounts@[at],
    {
        let account = self.holders@[at];
        assert(self.holders@.contains(account));
        assert(self.holders@.index_of(account) == at);
    }

    /// What `account` holds.
    pub fn balance_of(&self, account: &Pubkey) -> (held: u64)
        requires
            self.well_formed(),
        ensures
            held == self.balance(*account),
    {
        match self.find(account) {
            Some(at) => self.amounts[at],
            None => 0,
        }
    }

    /// Issues `amount` to `account`. It is refused, and nothing changes,
    /// exactly when the total supply would exceed `u64::MAX`.
    pub fn deposit(&mut self, account: &Pubkey, amount: u64) -> (issued: bool)
        requires
            old(self).well_formed(),
        ensures
            final(self).well_formed(),
            issued <==> old(self).total_supply() + amount <= u64::MAX,
            final(self).total_supply() == old(self).total_supply() + (if issued {
                amount
            } else {
                0
            }),
            forall|other: Pubkey|
                final(self).balance(other) == old(self).balance(other) + (if issued && other
                    == *account {
                    amount
                } else {
                    0
                }),
    {
        if amount > u64::MAX - self.supply {
            return false;
        }
        self.credit(account, amount);
        let ghost credited = *self;
        self.supply = self.supply + amount;
        assert forall|other: Pubkey|
            self.balance(other) == old(self).balance(other) + (if other == *account {
                amount
            } else {
                0
            }) by {
            assert(self.balance(other) == credited.balance(other));
        }
        true
    }

    /// Adds `amount` to what `account` holds, ahead of the supply's own
    /// update.
    fn credit(&mut self, account: &Pubkey, amount: u64)
        requires
            old(self).entries_well_formed(),
            sum_of(old(self).amounts@) + amount <= u64::MAX,
        ensures
            final(self).entries_well_formed(),
            final(self).supply == old(self).supply,
            sum_of(final(self).amounts@) == sum_of(old(self).amounts@) + amount,
            forall|other: Pubkey|
                final(self).balance(other) == old(self).balance(other) + (if other == *account {
                    amount
                } else {
                    0
                }),
    {
        match self.find(account) {
            Some(at) => {
                proof {
                    lemma_sum_covers_one(self.amounts@, at as int);
                    lemma_sum_update(
                        self.amounts@,
                        at as int,
                        (self.amounts@[at as int] + amount) as u64,
                    );
                }
                let held = self.amounts[at];
                self.amounts.set(at, held + amount);
                assert forall|other: Pubkey|
                    self.balance(other) == old(self).balance(other) + (if other == *account {
                        amount
                    } else {
                        0
                    }) by {
                    if self.holders@.contains(other) {
                        let place = self.holders@.index_of(other);
                        self.lemma_balance_at(place);
                        old(self).lemma_balance_at(place);
                    }
                }
            },
            None => {
                proof {
                    lemma_sum_push(self.amounts@, amount);
                }
                self.holders.push(*account);
                self.amounts.push(amount);
                let ghost added = old(self).holders@.len() as int;
                assert(self.holders@[added] == *account);
                assert(self.holders@.no_duplicates()) by {
                    assert forall|i: int, j: int|
                        0 <= i < self.holders@.len() && 0 <= j < self.holders@.len() && i != j
                    implies self.holders@[i] != self.holders@[j] by {
                        if i < added {
                            assert(old(self).holders@[i] == self.holders@[i]);
                        }
                        if j < added {
                            assert(old(self).holders@[j] == self.holders@[j]);
                        }
                    }
                }
                assert forall|other: Pubkey|
                    self.balance(other) == old(self).balance(other) + (if other == *account {
                        amount
                    } else {
                        0
                    }) by {
                    if self.holders@.contains(other) {
                        let place = self.holders@.index_of(other);
                        self.lemma_balance_at(place);
                        if place < old(self).holders@.len() {
                            old(self).lemma_balance_at(place);
                        }
                    } else {
                        assert forall|at: int| 0 <= at < old(self).holders@.len() implies old(
                            self,
                        ).holders@[at] != other by {
                            assert(self.holders@[at] == old(self).holders@[at]);
                        }
                    }
                }
            },
        }
    }

    /// The entries name each account once, with one amount for each.
    closed spec fn entries_well_formed(&self) -> bool {
        &&& self.holders@.len() == self.amounts@.len()
        &&& self.holders@.no_duplicates()
    }
}

impl TransferCapability for MemoryLedger {
    closed spec fn well_formed(&self) -> bool {
        &&& self.entries_well_formed()
        &&& self.supply == sum_of(self.amounts@)
    }

    closed spec fn balance(&self, account: Pubkey) -> u64 {
        if self.holders@.contains(account) {
            self.amounts@[self.holders@.index_of(account)]
        } else {
            0
        }
    }

    fn transfer(&mut self, from: &Pubkey, to: &Pubkey, amount: u64) -> (outcome: Result<
        (),
        InsufficientBalance,
    >)
        ensures
            final(self).total_supply() == old(self).total_supply(),
    {
        let at = match self.find(from) {
            Some(at) => at,
            None => {
                return if amount == 0 {
                    Ok(())
                } else {
                    Err(InsufficientBalance)
                };
            },
        };
        let held = self.amounts[at];
        if held < amount {
            return Err(InsufficientBalance);
        }
        if same_key(from, to) {
            return Ok(());
        }
        proof {
            lemma_sum_update(self.amounts@, at as int, (held - amount) as u64);
        }
        self.amounts.set(at, held - amount);
        assert forall|other: Pubkey|
            self.balance(other) == old(self).balance(other) - (if other == *from {
                amount
            } else {
                0
            }) by {
            if self.holders@.contains(other) {
                let place = self.holders@.index_of(other);
                self.lemma_balance_at(place);
                old(self).lemma_balance_at(place);
            }
        }
        self.credit(to, amount);
        Ok(())
    }
}

} // verus!
