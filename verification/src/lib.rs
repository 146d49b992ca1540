//! A simulated coffee station: an order queue drained by dispenser workers that
//! share a pool of finite resources, with a monitor snapshot of the pool.

pub mod config;
pub mod dispenser;
pub mod orders;
pub mod resources;
pub mod resources_monitor;
pub mod stock;
pub mod take_orders;

pub use dispenser::dispense;
pub use resources::{ResourceResult, Resources};
pub use take_orders::take_orders_loop;
