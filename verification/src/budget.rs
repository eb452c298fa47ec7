//! Budget for evaluating parameters.
use vstd::prelude::*;

verus! {

/// A resource-consumption counter: `amount` units were granted,
/// `consumption` units were spent so far.
///
/// `consumption` may legitimately exceed `amount`; over-consumption is
/// tracked, never clamped.
#[derive(Debug, Clone, Copy, PartialEq, Eq, Structural)]
pub struct Budget {
    /// The amount of this budget.
    pub amount: u64,

    /// The consumption of this budget.
    ///
    /// Note that this value can exceed the budget amount.
    pub consumption: u64,
}

impl Budget {
    /// The still unspent part of the budget, zero once over-consumed.
    pub open spec fn spec_remaining(self) -> u64 {
        if self.consumption <= self.amount {
            (self.amount - self.consumption) as u64
        } else {
            0u64
        }
    }

    /// How far the consumption ran past the granted amount, zero while
    /// within the budget.
    pub open spec fn spec_excess(self) -> u64 {
        if self.consumption >= self.amount {
            (self.consumption - self.amount) as u64
        } else {
            0u64
        }
    }

    /// Makes a new `Budget` instance which has the given amount of budget.
    pub fn new(amount: u64) -> (r: Self)
        ensures
            r == (Budget { amount, consumption: 0u64 }),
    {
        Self { consumption: 0, amount }
    }

    /// Returns the remaining amount of this budget.
    ///
    /// # Errors
    ///
    /// If the consumption of the budget exceeded the budget amount,
    /// `Err(excess amount)` will be returned.
    pub fn remaining(&self) -> (r: Result<u64, u64>)
        ensures
            self.consumption <= self.amount ==> r == Ok::<u64, u64>(self.spec_remaining()),
            self.consumption > self.amount ==> r == Err::<u64, u64>(self.spec_excess()),
    {
        if self.consumption <= self.amount {
            Ok(self.amount - self.consumption)
        } else {
            Err(self.consumption - self.amount)
        }
    }

    /// Returns `true` if the consumption has reached the budget amount,
    /// otherwise `false`.
    pub fn is_consumed(&self) -> (r: bool)
        ensures
            r == (self.consumption >= self.amount),
    {
        self.consumption >= self.amount
    }

    /// Reports that `n` more units were spent. Consumption only ever
    /// increases, and over-consumption is recorded as it is, never
    /// clamped.
    pub fn consume(&mut self, n: u64)
        requires
            old(self).consumption + n <= u64::MAX,
        ensures
            final(self).consumption == old(self).consumption + n,
            final(self).amount == old(self).amount,
    {
        self.consumption = self.consumption + n;
    }

    /// Changes the granted amount; used by promotion, which raises it to
    /// the next rung's budget.
    pub fn set_amount(&mut self, n: u64)
        ensures
            final(self).amount == n,
            final(self).consumption == old(self).consumption,
    {
        self.amount = n;
    }
}

} // verus!
