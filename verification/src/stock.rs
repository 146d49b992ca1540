//! The accounting of one derived resource and the raw resource it is
//! replenished from, on plain values.

use vstd::prelude::*;
use crate::resources::Error;

verus! {

/// A derived resource (coffee, foam) together with its raw source (coffee
/// beans, milk): the two counters that one request reads and writes.
#[derive(Debug, Clone, Copy, PartialEq, Eq, Structural)]
pub struct Stock {
    pub derived: u32,
    pub raw: u32,
}

impl Stock {
    /// Everything that can still be served: derived stock plus raw stock.
    pub open spec fn total(self) -> int {
        self.derived + self.raw
    }

    /// Units that have to be moved from raw to derived before `amount` can be
    /// taken: what the derived stock lacks, zero when it lacks nothing.
    pub open spec fn missing(self, amount: u32) -> int {
        if amount > self.derived {
            amount - self.derived
        } else {
            0
        }
    }

    /// Whether a request for `amount` can be met, replenishing if need be.
    pub open spec fn covers(self, amount: u32) -> bool {
        self.missing(amount) <= self.raw
    }

    /// The stock after the missing units were moved from raw to derived.
    pub open spec fn replenished(self, amount: u32) -> Stock
        recommends
            self.covers(amount),
    {
        Stock {
            derived: (self.derived + self.missing(amount)) as u32,
            raw: (self.raw - self.missing(amount)) as u32,
        }
    }

    /// The stock after a request for `amount` was met: replenished, then
    /// reduced by `amount`.
    pub open spec fn drawn(self, amount: u32) -> Stock
        recommends
            self.covers(amount),
    {
        Stock {
            derived: (self.replenished(amount).derived - amount) as u32,
            raw: self.replenished(amount).raw,
        }
    }

    /// The stock after a request for `amount` was made: drawn where the stock
    /// covers the request, untouched where it does not.
    pub open spec fn attempt(self, amount: u32) -> Stock {
        if self.covers(amount) {
            self.drawn(amount)
        } else {
            self
        }
    }

    /// Whether both counters respect the given capacities.
    pub open spec fn within(self, derived_capacity: u32, raw_capacity: u32) -> bool {
        self.derived <= derived_capacity && self.raw <= raw_capacity
    }

    /// The stock after the requests `amounts` were made one after the other.
    pub open spec fn after(self, amounts: Seq<u32>) -> Stock
        decreases amounts.len(),
    {
        if amounts.len() == 0 {
            self
        } else {
            self.after(amounts.drop_last()).attempt(amounts.last())
        }
    }

    /// Whether each of the requests `amounts`, made one after the other, was
    /// met.
    pub open spec fn all_met(self, amounts: Seq<u32>) -> bool
        decreases amounts.len(),
    {
        if amounts.len() == 0 {
            true
        } else {
            self.all_met(amounts.drop_last()) && self.after(amounts.drop_last()).covers(
                amounts.last(),
            )
        }
    }

    /// What the requests `amounts`, made one after the other, took out of the
    /// stock: the sum of those that were met.
    pub open spec fn served(self, amounts: Seq<u32>) -> int
        decreases amounts.len(),
    {
        if amounts.len() == 0 {
            0
        } else if self.after(amounts.drop_last()).covers(amounts.last()) {
            self.served(amounts.drop_last()) + amounts.last()
        } else {
            self.served(amounts.drop_last())
        }
    }

    /// The sum of `amounts`.
    pub open spec fn sum(amounts: Seq<u32>) -> int
        decreases amounts.len(),
    {
        if amounts.len() == 0 {
            0
        } else {
            Self::sum(amounts.drop_last()) + amounts.last()
        }
    }

    /// A request that is turned down leaves both counters as they were, and a
    /// request that is met takes exactly its amount out of the stock.
    pub proof fn law_attempt(self, amount: u32)
        ensures
            !self.covers(amount) ==> self.attempt(amount) == self,
            self.covers(amount) ==> self.attempt(amount).total() == self.total() - amount,
            self.covers(amount) <==> amount <= self.total(),
    {
    }

    /// Replenishing for a request that fits in the derived container keeps
    /// both counters within their capacities.
    pub proof fn law_replenished_in_range(
        self,
        amount: u32,
        derived_capacity: u32,
        raw_capacity: u32,
    )
        requires
            self.within(derived_capacity, raw_capacity),
            self.covers(amount),
            amount <= derived_capacity,
        ensures
            self.replenished(amount).within(derived_capacity, raw_capacity),
    {
    }

    /// No request ever raises a counter: whatever requests are made, each
    /// counter stays between zero and what it was, and so within any capacity
    /// that it started in.
    pub proof fn law_levels_stay_in_range(
        self,
        amounts: Seq<u32>,
        derived_capacity: u32,
        raw_capacity: u32,
    )
        requires
            self.within(derived_capacity, raw_capacity),
        ensures
            0 <= self.after(amounts).derived <= self.derived,
            0 <= self.after(amounts).raw <= self.raw,
            self.after(amounts).within(derived_capacity, raw_capacity),
        decreases amounts.len(),
    {
        if amounts.len() > 0 {
            self.law_levels_stay_in_range(amounts.drop_last(), derived_capacity, raw_capacity);
        }
    }

    /// Conservation: what a run of requests took out and what it left add up to
    /// what there was. So the requests that were met never total more than the
    /// derived and the raw stock held at the start.
    pub proof fn law_conservation(self, amounts: Seq<u32>)
        ensures
            self.served(amounts) + self.after(amounts).total() == self.total(),
            0 <= self.served(amounts) <= self.total(),
        decreases amounts.len(),
    {
        if amounts.len() > 0 {
            self.law_conservation(amounts.drop_last());
        }
    }

    /// Conservation for a run in which every request was met: the requests
    /// total no more than the derived and the raw stock held at the start.
    pub proof fn law_met_requests_fit(self, amounts: Seq<u32>)
        requires
            self.all_met(amounts),
        ensures
            self.served(amounts) == Self::sum(amounts),
            Self::sum(amounts) <= self.total(),
        decreases amounts.len(),
    {
        if amounts.len() > 0 {
            self.law_met_requests_fit(amounts.drop_last());
        }
        self.law_conservation(amounts);
    }

    /// Decides a request for `amount`: how many units have to be replenished
    /// first, or that the request cannot be met. The difference is taken in a
    /// wider signed type, so a well-filled derived stock gives no underflow.
    pub fn needed(&self, amount: u32) -> (r: Result<u32, Error>)
        ensures
            self.covers(amount) ==> r == Ok::<u32, Error>(self.missing(amount) as u32),
            !self.covers(amount) ==> r == Err::<u32, Error>(Error::InsufficientResources),
    {
        let needed: i64 = amount as i64 - self.derived as i64;
        if needed > self.raw as i64 {
            Err(Error::InsufficientResources)
        } else if needed > 0 {
            Ok(needed as u32)
        } else {
            Ok(0)
        }
    }

    /// Moves `units` from raw to derived.
    pub fn replenish(&mut self, units: u32)
        requires
            units <= old(self).raw,
            old(self).derived + units <= u32::MAX,
        ensures
            final(self).derived == old(self).derived + units,
            final(self).raw == old(self).raw - units,
    {
        self.raw -= units;
        self.derived += units;
    }

    /// Takes `amount` out of the derived stock.
    pub fn consume(&mut self, amount: u32)
        requires
            amount <= old(self).derived,
        ensures
            final(self).derived == old(self).derived - amount,
            final(self).raw == old(self).raw,
    {
        self.derived -= amount;
    }
}

} // verus!
