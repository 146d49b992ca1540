//! The shared pool of resources.

use std::sync::Arc;
use vstd::prelude::*;
use vstd::rwlock::RwLock;
use vstd::rwlock::RwLockPredicate;
use crate::config::C;
use crate::config::E;
use crate::config::G;
use crate::config::L;
use crate::resources_monitor::ResourcesMonitor;
use crate::stock::Stock;

verus! {

/// How many times faster than the machine the simulation runs: every time
/// below is the machine's, in milliseconds, divided by it.
pub const SPEED: u32 = 10;

/// Fixed time of serving coffee
pub const COFFEE_FIXED_TIME: u32 = 4 / SPEED;

/// Time of serving one mg of coffee
pub const COFFEE_TIME_PER_MG: u32 = 30 / SPEED;

/// Fixed time of serving water
pub const WATER_FIXED_TIME: u32 = 10 / SPEED;

/// Time of serving one ml of water
pub const WATER_TIME_PER_ML: u32 = 4 / SPEED;

/// Fixed time of serving foam
pub const FOAM_FIXED_TIME: u32 = 4 / SPEED;

/// Time of serving one ml of foam
pub const FOAM_TIME_PER_ML: u32 = 20 / SPEED;

/// Fixed time of grinding coffee beans
pub const GRIND_COFFEE_FIXED_TIME: u32 = 4 / SPEED;

/// Time of grinding one mg of coffee beans
pub const GRIND_COFFEE_TIME_PER_MG: u32 = 50 / SPEED;

/// Fixed time of whipping milk
pub const WHIP_MILK_FIXED_TIME: u32 = 4 / SPEED;

/// Time of whipping one ml of milk
pub const WHIP_MILK_TIME_PER_MG: u32 = 60 / SPEED;

/// Resource Errors
#[derive(Debug, Clone, Copy, PartialEq, Eq, Structural)]
pub enum Error {
    InsufficientResources,
}

/// Result Wrapper for Resource
pub type ResourceResult = Result<(), Error>;

/// How an operation spends the time that it costs. The pool calls `pause`
/// while it holds the locks of the resources that the operation works on.
pub trait Delay {
    fn pause(&self, millis: u64);
}

/// Spends no time at all.
pub struct NoDelay;

impl Delay for NoDelay {
    fn pause(&self, millis: u64) {
    }
}

/// Lock invariant of a counter: it never exceeds `LIMIT`.
pub struct AtMost<const LIMIT: u32>;

impl<const LIMIT: u32> RwLockPredicate<u32> for AtMost<LIMIT> {
    open spec fn inv(self, v: u32) -> bool {
        v <= LIMIT
    }
}

/// Lock invariant of the monitor: the flags of the snapshot that it stores
/// agree with its levels.
pub struct Consistent;

impl RwLockPredicate<ResourcesMonitor> for Consistent {
    open spec fn inv(self, v: ResourcesMonitor) -> bool {
        v@.consistent()
    }
}

/// Milliseconds that an operation on `amount` units takes: a fixed overhead
/// and a cost per unit.
pub open spec fn duration(amount: u32, per_unit: u32, fixed: u32) -> int {
    amount * per_unit + fixed
}

/// Computes `duration`. The product of two `u32` and a third always fit in `u64`.
pub fn time_cost(amount: u32, per_unit: u32, fixed: u32) -> (millis: u64)
    ensures
        millis == duration(amount, per_unit, fixed),
{
    assert(amount * per_unit <= 0xffff_ffff * 0xffff_ffff) by (nonlinear_arith)
        requires
            amount <= 0xffff_ffff,
            per_unit <= 0xffff_ffff,
    ;
    amount as u64 * per_unit as u64 + fixed as u64
}

/// Why a pool cannot be created with the given initial levels: the first of
/// them, in the order coffee, coffee beans, foam, milk, that exceeds the
/// capacity of its container. `None` when all of them fit.
pub open spec fn refusal(coffee: u32, coffee_beans: u32, foam: u32, milk: u32) -> Option<
    Seq<char>,
> {
    if coffee > C {
        Some("Coffee is too much"@)
    } else if coffee_beans > G {
        Some("Coffee beans is too much"@)
    } else if foam > E {
        Some("Foam is too much"@)
    } else if milk > L {
        Some("Milk is too much"@)
    } else {
        None
    }
}

/// Stores the available resources and a monitor to keep track of them.
/// Can be used thread-safely.
///
/// Each counter lives under a lock of its own, whose invariant keeps it within
/// the capacity of its container. An operation locks the derived resource
/// before its raw source, never the other way round.
pub struct Resources<P: Delay = NoDelay> {
    coffee: RwLock<u32, AtMost<C>>,
    coffee_beans: RwLock<u32, AtMost<G>>,
    foam: RwLock<u32, AtMost<E>>,
    milk: RwLock<u32, AtMost<L>>,
    monitor: RwLock<ResourcesMonitor, Consistent>,
    pace: P,
}

impl Resources<NoDelay> {
    /// Creates a new Resources instance, whose operations spend no time.
    pub fn new(coffee: u32, coffee_beans: u32, foam: u32, milk: u32) -> (r: Result<
        Arc<Resources>,
        String,
    >)
        ensures
            r is Ok <==> refusal(coffee, coffee_beans, foam, milk) is None,
            r matches Err(message) ==> refusal(coffee, coffee_beans, foam, milk) == Some(
                message@,
            ),
    {
        Resources::with_delay(coffee, coffee_beans, foam, milk, NoDelay)
    }
}

impl<P: Delay> Resources<P> {
    /// Creates a new Resources instance, whose operations spend their time
    /// as `pace` does.
    pub fn with_delay(coffee: u32, coffee_beans: u32, foam: u32, milk: u32, pace: P) -> (r: Result<
        Arc<Resources<P>>,
        String,
    >)
        ensures
            r is Ok <==> refusal(coffee, coffee_beans, foam, milk) is None,
            r matches Err(message) ==> refusal(coffee, coffee_beans, foam, milk) == Some(
                message@,
            ),
    {
        if coffee > C {
            Err("Coffee is too much".to_string())
        } else if coffee_beans > G {
            Err("Coffee beans is too much".to_string())
        } else if foam > E {
            Err("Foam is too much".to_string())
        } else if milk > L {
            Err("Milk is too much".to_string())
        } else {
            Ok(
                Arc::new(
                    Resources {
                        coffee: RwLock::new(coffee, Ghost(AtMost)),
                        coffee_beans: RwLock::new(coffee_beans, Ghost(AtMost)),
                        foam: RwLock::new(foam, Ghost(AtMost)),
                        milk: RwLock::new(milk, Ghost(AtMost)),
                        monitor: RwLock::new(
                            ResourcesMonitor::new(coffee, coffee_beans, foam, milk),
                            Ghost(Consistent),
                        ),
                        pace,
                    },
                ),
            )
        }
    }

    /// Transforms the required amount of coffee_beans into coffee.
    /// Takes time according to the amount.
    ///
    /// `stock` holds the coffee and the coffee beans that the caller has
    /// locked. Nothing is moved, no time is spent and nothing is pushed to the
    /// monitor when the beans do not suffice, or when nothing is missing.
    pub fn grind_needed_coffee_beans(&self, stock: &mut Stock, amount: u32) -> (r: ResourceResult)
        ensures
            old(stock).covers(amount) ==> r is Ok && *final(stock) == old(stock).replenished(
                amount,
            ),
            !old(stock).covers(amount) ==> r == Err::<(), Error>(Error::InsufficientResources)
                && *final(stock) == *old(stock),
    {
        match stock.needed(amount) {
            Err(error) => Err(error),
            Ok(needed) => {
                if needed > 0 {
                    self.pace.pause(
                        time_cost(needed, GRIND_COFFEE_TIME_PER_MG, GRIND_COFFEE_FIXED_TIME),
                    );
                    stock.replenish(needed);

                    let (mut monitor, handle) = self.monitor.acquire_write();
                    monitor.update_coffee(stock.derived);
                    monitor.update_coffee_beans(stock.raw);
                    handle.release_write(monitor);
                }
                Ok(())
            },
        }
    }

    /// Serves `amount` of coffee out of `stock`, the coffee and the coffee
    /// beans that the caller has locked: grinds what is missing, then takes
    /// the amount, spending the time of both and pushing each new level to the
    /// monitor. A request that the stock does not cover changes nothing.
    pub fn use_coffee_from(&self, stock: &mut Stock, amount: u32) -> (r: ResourceResult)
        ensures
            old(stock).covers(amount) ==> r is Ok && *final(stock) == old(stock).drawn(amount),
            !old(stock).covers(amount) ==> r == Err::<(), Error>(Error::InsufficientResources)
                && *final(stock) == *old(stock),
    {
        match self.grind_needed_coffee_beans(stock, amount) {
            Err(error) => Err(error),
            Ok(()) => {
                self.pace.pause(time_cost(amount, COFFEE_TIME_PER_MG, COFFEE_FIXED_TIME));
                stock.consume(amount);

                let (mut monitor, handle) = self.monitor.acquire_write();
                monitor.update_coffee(stock.derived);
                handle.release_write(monitor);
                Ok(())
            },
        }
    }

    /// Reduces the required amount of coffee.
    /// Takes time according to the amount.
    ///
    /// What the pool holds when the call gets its locks is for the other
    /// threads to decide, so the contract says what holds whatever that was.
    pub fn use_coffee(&self, amount: u32) -> (r: ResourceResult)
        ensures
            amount == 0 ==> r is Ok,
            amount > C + G ==> r is Err,
    {
        let (coffee, coffee_handle) = self.coffee.acquire_write();
        let (coffee_beans, coffee_beans_handle) = self.coffee_beans.acquire_write();
        let mut stock = Stock { derived: coffee, raw: coffee_beans };

        let result = self.use_coffee_from(&mut stock, amount);

        coffee_beans_handle.release_write(stock.raw);
        coffee_handle.release_write(stock.derived);
        result
    }

    /// Simulates using the required amount of water.
    /// Takes time according to the amount.
    pub fn use_water(&self, amount: u32) -> (r: ResourceResult)
        ensures
            r is Ok,
    {
        self.pace.pause(time_cost(amount, WATER_TIME_PER_ML, WATER_FIXED_TIME));
        Ok(())
    }

    /// Transforms the required amount of milk into foam.
    /// Takes time according to the amount.
    ///
    /// `stock` holds the foam and the milk that the caller has locked. Nothing
    /// is moved, no time is spent and nothing is pushed to the monitor when
    /// the milk does not suffice, or when nothing is missing.
    pub fn whip_needed_foam(&self, stock: &mut Stock, amount: u32) -> (r: ResourceResult)
        ensures
            old(stock).covers(amount) ==> r is Ok && *final(stock) == old(stock).replenished(
                amount,
            ),
            !old(stock).covers(amount) ==> r == Err::<(), Error>(Error::InsufficientResources)
                && *final(stock) == *old(stock),
    {
        match stock.needed(amount) {
            Err(error) => Err(error),
            Ok(needed) => {
                if needed > 0 {
                    self.pace.pause(time_cost(needed, WHIP_MILK_TIME_PER_MG, WHIP_MILK_FIXED_TIME));
                    stock.replenish(needed);

                    let (mut monitor, handle) = self.monitor.acquire_write();
                    monitor.update_foam(stock.derived);
                    monitor.update_milk(stock.raw);
                    handle.release_write(monitor);
                }
                Ok(())
            },
        }
    }

    /// Serves `amount` of foam out of `stock`, the foam and the milk that the
    /// caller has locked: whips what is missing, then takes the amount,
    /// spending the time of both and pushing each new level to the monitor. A
    /// request that the stock does not cover changes nothing.
    pub fn use_foam_from(&self, stock: &mut Stock, amount: u32) -> (r: ResourceResult)
        ensures
            old(stock).covers(amount) ==> r is Ok && *final(stock) == old(stock).drawn(amount),
            !old(stock).covers(amount) ==> r == Err::<(), Error>(Error::InsufficientResources)
                && *final(stock) == *old(stock),
    {
        match self.whip_needed_foam(stock, amount) {
            Err(error) => Err(error),
            Ok(()) => {
                self.pace.pause(time_cost(amount, FOAM_TIME_PER_ML, FOAM_FIXED_TIME));
                stock.consume(amount);

                let (mut monitor, handle) = self.monitor.acquire_write();
                monitor.update_foam(stock.derived);
                handle.release_write(monitor);
                Ok(())
            },
        }
    }

    /// Reduces the required amount of foam.
    /// Takes time according to the amount.
    ///
    /// What the pool holds when the call gets its locks is for the other
    /// threads to decide, so the contract says what holds whatever that was.
    pub fn use_foam(&self, amount: u32) -> (r: ResourceResult)
        ensures
            amount == 0 ==> r is Ok,
            amount > E + L ==> r is Err,
    {
        let (foam, foam_handle) = self.foam.acquire_write();
        let (milk, milk_handle) = self.milk.acquire_write();
        let mut stock = Stock { derived: foam, raw: milk };

        let result = self.use_foam_from(&mut stock, amount);

        milk_handle.release_write(stock.raw);
        foam_handle.release_write(stock.derived);
        result
    }

    /// The levels and flags that were last pushed to the monitor.
    ///
    /// Which push was the last is for the other threads to decide. Whichever
    /// it was, the flags that come back agree with the levels that come back
    /// with them: a reader never sees a warning that its level does not bear
    /// out, nor a low level without its warning.
    pub fn snapshot(&self) -> (monitor: ResourcesMonitor)
        ensures
            monitor@.consistent(),
    {
        let handle = self.monitor.acquire_read();
        let monitor = *handle.borrow();
        handle.release_read();
        monitor
    }
}

} // verus!
