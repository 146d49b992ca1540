//! The dispensers: what a worker does with each order that it pops, and why
//! the workers of a station all come to an end.

use vstd::prelude::*;
use crate::config::C;
use crate::config::E;
use crate::config::G;
use crate::config::L;
use crate::orders::Ingredients;
use crate::orders::Order;
use crate::orders::Orders;
use crate::resources::Delay;
use crate::resources::ResourceResult;
use crate::resources::Resources;

verus! {

/// Handles a single order.
/// Taking the necessary ingredients from the resources.
///
/// The coffee is taken first, then the water, then the foam; the first that
/// fails ends the order, and what was taken before it stays taken. Whether the
/// pool covers the order is for the other threads to decide as well, so the
/// contract says what holds whatever the pool held.
pub fn handle_order<P: Delay>(
    ingredients: Ingredients,
    resources: &Resources<P>,
) -> (r: ResourceResult)
    ensures
        ingredients.coffee == 0 && ingredients.foam == 0 ==> r is Ok,
        ingredients.coffee > C + G || ingredients.foam > E + L ==> r is Err,
{
    resources.use_coffee(ingredients.coffee)?;
    resources.use_water(ingredients.water)?;
    resources.use_foam(ingredients.foam)?;
    Ok(())
}

/// Whether a dispenser goes on after what it popped: it stops at
/// `NoMoreOrders` and at nothing else.
pub open spec fn keeps_running(next: Option<Order>) -> bool {
    next != Some(Order::NoMoreOrders)
}

/// Does what a dispenser does with what it popped from the queue, and says
/// whether the dispenser goes on. An order is handled; if the resources do not
/// suffice it is dropped. `NoMoreOrders` is put back for the next dispenser,
/// and this one stops. A pop that found nothing changes nothing.
pub fn dispense<P: Delay>(
    next: Option<Order>,
    orders: &Orders,
    resources: &Resources<P>,
) -> (running: bool)
    ensures
        running == keeps_running(next),
{
    match next {
        Some(Order::Order(ingredients)) => {
            if let Err(_err) = handle_order(ingredients, resources) {
                // unable to handle order: it is dropped
            }
            true
        },
        Some(Order::NoMoreOrders) => {
            orders.push(Order::NoMoreOrders);
            false
        },
        None => true,
    }
}

/// A station as the shutdown protocol sees it: the queue, and how many of its
/// dispensers are running, are draining (have popped `NoMoreOrders` and not yet
/// put it back), and have terminated.
pub struct Station {
    pub queue: Seq<Order>,
    pub running: nat,
    pub draining: nat,
    pub terminated: nat,
}

/// Whether `queue` is what a finished input leaves: orders, then one
/// `NoMoreOrders` at the end.
pub open spec fn closed(queue: Seq<Order>) -> bool {
    &&& queue.len() > 0
    &&& queue.last() == Order::NoMoreOrders
    &&& forall|i: int| 0 <= i < queue.len() - 1 ==> #[trigger] queue[i] is Order
}

impl Station {
    /// The station with the given queue and that many dispensers, all running.
    pub open spec fn start(queue: Seq<Order>, dispensers: nat) -> Station {
        Station { queue, running: dispensers, draining: 0, terminated: 0 }
    }

    /// The number of dispensers of the station.
    pub open spec fn dispensers(self) -> nat {
        self.running + self.draining + self.terminated
    }

    /// Whether a running dispenser can pop: there is one, and the queue holds
    /// something. On an empty queue the running dispensers are blocked.
    pub open spec fn can_pop(self) -> bool {
        self.running > 0 && self.queue.len() > 0
    }

    /// The station after a running dispenser popped the head of the queue: an
    /// order is served and the dispenser runs on, `NoMoreOrders` turns it
    /// into a draining one.
    pub open spec fn popped(self) -> Station {
        if keeps_running(Some(self.queue.first())) {
            Station { queue: self.queue.drop_first(), ..self }
        } else {
            Station {
                queue: self.queue.drop_first(),
                running: (self.running - 1) as nat,
                draining: self.draining + 1,
                ..self
            }
        }
    }

    /// Whether a draining dispenser can put `NoMoreOrders` back: there is one.
    pub open spec fn can_relay(self) -> bool {
        self.draining > 0
    }

    /// The station after a draining dispenser put `NoMoreOrders` back at the
    /// end of the queue and terminated.
    pub open spec fn relayed(self) -> Station {
        Station {
            queue: self.queue.push(Order::NoMoreOrders),
            draining: (self.draining - 1) as nat,
            terminated: self.terminated + 1,
            ..self
        }
    }

    /// Whether the station can go from `self` to `next` in one step of one
    /// dispenser.
    pub open spec fn step(self, next: Station) -> bool {
        ||| self.can_pop() && next == self.popped()
        ||| self.can_relay() && next == self.relayed()
    }

    /// Whether every dispenser has terminated.
    pub open spec fn done(self) -> bool {
        self.running == 0 && self.draining == 0
    }

    /// The steps that the station has yet to take.
    pub open spec fn work_left(self) -> nat {
        self.queue.len() + 2 * self.running + 2 * self.draining
    }

    /// What holds of a station from a closed queue on: there is one
    /// `NoMoreOrders`, either at the end of the queue or in the hands of the
    /// one draining dispenser, and once a dispenser has seen it no order is
    /// left.
    pub open spec fn shutting_down(self) -> bool {
        &&& self.draining <= 1
        &&& forall|i: int| 0 <= i < self.queue.len() - 1 ==> #[trigger] self.queue[i] is Order
        &&& self.draining == 0 ==> self.queue.len() > 0 && self.queue.last()
            == Order::NoMoreOrders
        &&& self.draining == 1 ==> self.queue.len() == 0
        &&& self.draining == 0 && self.terminated > 0 ==> self.queue.len() == 1
    }

    /// Whether `states` is a run of the station: each state follows from the
    /// one before it by one step.
    pub open spec fn is_run(states: Seq<Station>) -> bool {
        &&& states.len() > 0
        &&& forall|i: int| 0 <= i < states.len() - 1 ==> (#[trigger] states[i]).step(states[i + 1])
    }

    /// A step keeps the station shutting down, keeps its dispensers, and is
    /// one step less to take.
    pub proof fn law_step(self, next: Station)
        requires
            self.shutting_down(),
            self.step(next),
        ensures
            next.shutting_down(),
            next.dispensers() == self.dispensers(),
            next.work_left() + 1 == self.work_left(),
    {
        if self.can_pop() && next == self.popped() {
            if keeps_running(Some(self.queue.first())) {
                assert(self.queue.first() is Order);
                assert(self.queue.len() >= 2);
                assert forall|i: int| 0 <= i < next.queue.len() - 1 implies #[trigger] next.queue[i]
                    is Order by {
                    assert(next.queue[i] == self.queue[i + 1]);
                }
                assert(next.queue.last() == self.queue.last());
            } else {
                assert(self.queue[0] == Order::NoMoreOrders);
                assert(self.queue.len() == 1);
            }
        } else {
            assert(self.queue.len() == 0);
            assert(next.queue.len() == 1);
        }
    }

    /// Until every dispenser has terminated, some dispenser can take a step:
    /// the station never comes to a halt halfway.
    pub proof fn law_no_deadlock(self)
        requires
            self.shutting_down(),
            !self.done(),
        ensures
            self.can_pop() || self.can_relay(),
            exists|next: Station| self.step(next),
    {
        if self.can_relay() {
            assert(self.step(self.relayed()));
        } else {
            assert(self.step(self.popped()));
        }
    }

    /// In a run from a closed queue every state is shutting down, has the
    /// dispensers of the first, and has taken as many steps off the work as
    /// it is steps away from the first.
    pub proof fn law_run(states: Seq<Station>, k: int)
        requires
            Self::is_run(states),
            states[0].shutting_down(),
            0 <= k < states.len(),
        ensures
            states[k].shutting_down(),
            states[k].dispensers() == states[0].dispensers(),
            states[k].work_left() + k == states[0].work_left(),
        decreases k,
    {
        if k > 0 {
            Self::law_run(states, k - 1);
            assert(states[k - 1].step(states[k - 1 + 1]));
            states[k - 1].law_step(states[k]);
        }
    }

    /// Shutdown by relay: with any number of dispensers on a queue that ends
    /// in its one `NoMoreOrders`, every run is bounded in length, can go on
    /// until all dispensers have terminated, and then leaves exactly one
    /// `NoMoreOrders` in the queue, at its end. With at least one dispenser
    /// nothing else is left in the queue, and that point is reached after
    /// one step for each order and two for each dispenser.
    pub proof fn law_relay_shutdown(queue: Seq<Order>, dispensers: nat, states: Seq<Station>)
        requires
            closed(queue),
            Self::is_run(states),
            states[0] == Self::start(queue, dispensers),
        ensures
            states.len() <= queue.len() + 2 * dispensers,
            states.last().done() || exists|next: Station| states.last().step(next),
            states.last().done() ==> states.last().terminated == dispensers && closed(
                states.last().queue,
            ),
            dispensers > 0 ==> (states.last().done() <==> states.len() == queue.len() + 2
                * dispensers),
            dispensers > 0 && states.last().done() ==> states.last().queue
                == seq![Order::NoMoreOrders],
    {
        let first = states[0];
        let last = states.last();
        assert(first.shutting_down());
        Self::law_run(states, states.len() - 1);
        if !last.done() {
            last.law_no_deadlock();
        }
        if dispensers > 0 && last.done() {
            assert(last.queue =~= seq![Order::NoMoreOrders]);
        }
    }
}

} // verus!
