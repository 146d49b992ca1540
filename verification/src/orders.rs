//! Orders and the queue that hands them to the dispensers.

use std::collections::VecDeque;
use std::sync::Arc;
use std_semaphore::Semaphore;
use vstd::prelude::*;
use vstd::rwlock::RwLock;
use vstd::rwlock::RwLockPredicate;
use crate::config;

verus! {

/// Stores the ingredients that are needed to make a drink.
#[derive(Debug, Clone, Copy, PartialEq, Eq, Structural)]
pub struct Ingredients {
    pub coffee: u32,
    pub water: u32,
    pub foam: u32,
}

/// Encapsules an Order or the lack thereof.
#[derive(Debug, Clone, Copy, PartialEq, Eq, Structural)]
pub enum Order {
    Order(Ingredients),
    NoMoreOrders,
}

impl Order {
    /// Whether the amounts fit in one drink: the coffee and the foam are each
    /// bounded by the capacity of their container, the water is not bounded.
    pub open spec fn accepts(coffee: u32, foam: u32) -> bool {
        coffee <= config::C && foam <= config::E
    }

    /// Creates an order from the given ingredients.
    pub fn from(coffee: u32, water: u32, foam: u32) -> (r: Result<Order, String>)
        ensures
            Self::accepts(coffee, foam) ==> r == Ok::<Order, String>(
                Order::Order(Ingredients { coffee, water, foam }),
            ),
            coffee > config::C ==> r is Err && r->Err_0@ == "Coffee is too much"@,
            coffee <= config::C && foam > config::E ==> r is Err && r->Err_0@
                == "Foam is too much"@,
    {
        if coffee > config::C {
            Err("Coffee is too much".to_string())
        } else if foam > config::E {
            Err("Foam is too much".to_string())
        } else {
            Ok(Order::Order(Ingredients { coffee, water, foam }))
        }
    }
}

/// The counting semaphore of `std_semaphore`, which the proofs treat as opaque.
#[verifier::external_type_specification]
#[verifier::external_body]
pub struct ExSemaphore(Semaphore);

/// `std_semaphore::Semaphore::new` makes a semaphore with the given count.
/// Nothing is claimed of the semaphore that it returns. The library starts
/// every semaphore at zero and asks that of each caller: `release` adds one to
/// the count without a check, so a count that starts at zero stays within its
/// range for as many releases as a machine can make, which a count near the
/// end of the range would not.
pub assume_specification[ Semaphore::new ](count: isize) -> (semaphore: Semaphore)
    requires
        count == 0,
;

/// `std_semaphore::Semaphore::acquire` blocks the thread until the count is at
/// least one and then lowers it by one. Nothing is claimed of the call but
/// that it may be made.
pub assume_specification[ Semaphore::acquire ](semaphore: &Semaphore);

/// `std_semaphore::Semaphore::release` raises the count by one and wakes a
/// waiting thread. Nothing is claimed of the call but that it may be made, on
/// a semaphore that was made with a count of zero as `Semaphore::new` asks.
pub assume_specification[ Semaphore::release ](semaphore: &Semaphore);

/// Lock invariant of the queue: any sequence of orders may be stored.
pub struct AnyOrders;

impl RwLockPredicate<VecDeque<Order>> for AnyOrders {
    open spec fn inv(self, v: VecDeque<Order>) -> bool {
        true
    }
}

/// Encapsules the orders that are to be made.
/// Functions as a thread-safe queue.
///
/// The semaphore counts the orders that were pushed and not yet claimed by a
/// `pop`, so a thread that gets past it finds an order waiting for it.
pub struct Orders {
    orders: RwLock<VecDeque<Order>, AnyOrders>,
    semaphore: Semaphore,
}

impl Orders {
    /// Creates a new Orders instance.
    pub fn new() -> Arc<Orders> {
        Arc::new(
            Orders {
                orders: RwLock::new(VecDeque::new(), Ghost(AnyOrders)),
                semaphore: Semaphore::new(0),
            },
        )
    }

    /// Adds `order` at the end of `queue`, the orders that the caller has
    /// locked.
    pub fn push_to(queue: &mut VecDeque<Order>, order: Order)
        ensures
            final(queue)@ == old(queue)@.push(order),
    {
        queue.push_back(order);
    }

    /// Takes the first order out of `queue`, the orders that the caller has
    /// locked. An empty queue gives `None` and stays as it is.
    pub fn pop_from(queue: &mut VecDeque<Order>) -> (order: Option<Order>)
        ensures
            old(queue)@.len() > 0 ==> order == Some(old(queue)@.first()) && final(queue)@ == old(
                queue,
            )@.drop_first(),
            old(queue)@.len() == 0 ==> order is None && final(queue)@ == old(queue)@,
    {
        queue.pop_front()
    }

    /// Adds an order to the queue.
    ///
    /// The order goes to the end of the queue, and the semaphore is raised by
    /// one for it.
    pub fn push(&self, order: Order) {
        let (mut orders, handle) = self.orders.acquire_write();
        Self::push_to(&mut orders, order);
        self.semaphore.release();
        handle.release_write(orders);
    }

    /// Returns the next order in the queue.
    /// If there are no orders, the thread will be blocked until there is one.
    ///
    /// `None` stands for a queue that was found empty after the wait. That
    /// does not happen while `push` alone raises the semaphore, but it rests
    /// on the semaphore, which the proofs do not see into.
    pub fn pop(&self) -> Option<Order> {
        self.semaphore.acquire();
        let (mut orders, handle) = self.orders.acquire_write();
        let order = Self::pop_from(&mut orders);
        handle.release_write(orders);
        order
    }

    /// The number of orders that wait in the queue.
    pub fn len(&self) -> usize {
        let handle = self.orders.acquire_read();
        let len = handle.borrow().len();
        handle.release_read();
        len
    }
}

} // verus!
