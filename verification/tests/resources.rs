use std::sync::{Arc, Mutex};

use coffee_maker::resources::{time_cost, Delay, Error, Resources};
use coffee_maker::stock::Stock;

#[test]
fn can_use_water() {
    let resources = Resources::new(0, 0, 0, 0).unwrap();
    resources.use_water(1000000000).unwrap();
}

#[test]
fn can_use_coffee() {
    let resources = Resources::new(100, 100, 0, 0).unwrap();
    resources.use_coffee(100).unwrap();
}

#[test]
fn can_use_foam() {
    let resources = Resources::new(0, 0, 0, 100).unwrap();
    resources.use_foam(100).unwrap();
}

#[test]
fn cant_use_coffee() {
    let resources = Resources::new(0, 0, 0, 0).unwrap();
    resources.use_coffee(100).expect_err("Should have failed");
}

#[test]
fn cant_use_foam() {
    let resources = Resources::new(0, 0, 0, 0).unwrap();
    resources.use_foam(100).expect_err("Should have failed");
}

#[test]
fn can_use_coffee_grinding_beans() {
    let resources = Resources::new(0, 100, 0, 0).unwrap();
    resources.use_coffee(100).unwrap();
}

#[test]
fn can_use_foam_whipping_milk() {
    let resources = Resources::new(0, 0, 0, 100).unwrap();
    resources.use_foam(100).unwrap();
}

#[test]
fn new_refuses_levels_over_capacity() {
    assert_eq!(
        Resources::new(1001, 10001, 1001, 10001).err(),
        Some("Coffee is too much".to_string())
    );
    assert_eq!(
        Resources::new(1000, 10001, 1001, 10001).err(),
        Some("Coffee beans is too much".to_string())
    );
    assert_eq!(
        Resources::new(1000, 10000, 1001, 10001).err(),
        Some("Foam is too much".to_string())
    );
    assert_eq!(
        Resources::new(1000, 10000, 1000, 10001).err(),
        Some("Milk is too much".to_string())
    );
    assert!(Resources::new(1000, 10000, 1000, 10000).is_ok());
}

#[test]
fn new_pool_shows_its_levels_in_the_snapshot() {
    let resources = Resources::new(1, 2, 3, 4000).unwrap();
    let snapshot = resources.snapshot();
    assert_eq!(snapshot.coffee(), 1);
    assert_eq!(snapshot.coffee_beans(), 2);
    assert_eq!(snapshot.foam(), 3);
    assert_eq!(snapshot.milk(), 4000);
    assert_eq!(snapshot.low_on_coffee_beans(), true);
    assert_eq!(snapshot.low_on_milk(), false);
}

#[test]
fn grinding_then_consuming_leaves_the_rest_of_the_beans() {
    let resources = Resources::new(0, 100, 0, 0).unwrap();
    assert_eq!(resources.use_coffee(60), Ok(()));
    let snapshot = resources.snapshot();
    assert_eq!(snapshot.coffee(), 0);
    assert_eq!(snapshot.coffee_beans(), 40);
    assert_eq!(resources.use_coffee(40), Ok(()));
    assert_eq!(resources.use_coffee(1), Err(Error::InsufficientResources));
}

#[test]
fn whipping_then_consuming_leaves_the_rest_of_the_milk() {
    let resources = Resources::new(0, 0, 0, 100).unwrap();
    assert_eq!(resources.use_foam(60), Ok(()));
    let snapshot = resources.snapshot();
    assert_eq!(snapshot.foam(), 0);
    assert_eq!(snapshot.milk(), 40);
    assert_eq!(resources.use_foam(40), Ok(()));
    assert_eq!(resources.use_foam(1), Err(Error::InsufficientResources));
}

#[test]
fn a_rejected_request_changes_nothing() {
    let resources = Resources::new(30, 50, 20, 10).unwrap();
    assert_eq!(resources.use_coffee(81), Err(Error::InsufficientResources));
    assert_eq!(resources.use_foam(31), Err(Error::InsufficientResources));
    let snapshot = resources.snapshot();
    assert_eq!(snapshot.coffee(), 30);
    assert_eq!(snapshot.coffee_beans(), 50);
    assert_eq!(snapshot.foam(), 20);
    assert_eq!(snapshot.milk(), 10);
    assert_eq!(resources.use_coffee(80), Ok(()));
    assert_eq!(resources.use_foam(30), Ok(()));
}

#[test]
fn stock_on_hand_is_used_before_any_is_replenished() {
    let resources = Resources::new(100, 100, 100, 100).unwrap();
    assert_eq!(resources.use_coffee(70), Ok(()));
    assert_eq!(resources.use_foam(100), Ok(()));
    let snapshot = resources.snapshot();
    assert_eq!(snapshot.coffee(), 30);
    assert_eq!(snapshot.coffee_beans(), 100);
    assert_eq!(snapshot.foam(), 0);
    assert_eq!(snapshot.milk(), 100);
    assert_eq!(resources.use_coffee(50), Ok(()));
    let snapshot = resources.snapshot();
    assert_eq!(snapshot.coffee(), 0);
    assert_eq!(snapshot.coffee_beans(), 80);
}

#[test]
fn requests_on_given_stock_are_exact() {
    let resources = Resources::new(0, 0, 0, 0).unwrap();

    let mut stock = Stock { derived: 0, raw: 100 };
    assert_eq!(resources.grind_needed_coffee_beans(&mut stock, 60), Ok(()));
    assert_eq!(stock, Stock { derived: 60, raw: 40 });
    assert_eq!(resources.snapshot().coffee(), 60);
    assert_eq!(resources.snapshot().coffee_beans(), 40);

    let mut stock = Stock { derived: 0, raw: 100 };
    assert_eq!(resources.use_coffee_from(&mut stock, 60), Ok(()));
    assert_eq!(stock, Stock { derived: 0, raw: 40 });
    assert_eq!(
        resources.use_coffee_from(&mut stock, 41),
        Err(Error::InsufficientResources)
    );
    assert_eq!(stock, Stock { derived: 0, raw: 40 });

    let mut stock = Stock { derived: 5, raw: 100 };
    assert_eq!(resources.whip_needed_foam(&mut stock, 5), Ok(()));
    assert_eq!(stock, Stock { derived: 5, raw: 100 });
    assert_eq!(resources.whip_needed_foam(&mut stock, 25), Ok(()));
    assert_eq!(stock, Stock { derived: 25, raw: 80 });
    assert_eq!(resources.snapshot().foam(), 25);
    assert_eq!(resources.snapshot().milk(), 80);
    assert_eq!(resources.use_foam_from(&mut stock, 30), Ok(()));
    assert_eq!(stock, Stock { derived: 0, raw: 75 });
    assert_eq!(
        resources.use_foam_from(&mut stock, 76),
        Err(Error::InsufficientResources)
    );
    assert_eq!(stock, Stock { derived: 0, raw: 75 });

    let mut stock = Stock { derived: u32::MAX, raw: u32::MAX };
    assert_eq!(resources.use_coffee_from(&mut stock, u32::MAX), Ok(()));
    assert_eq!(stock, Stock { derived: 0, raw: u32::MAX });
    assert_eq!(resources.use_coffee_from(&mut stock, u32::MAX), Ok(()));
    assert_eq!(stock, Stock { derived: 0, raw: 0 });
}

#[test]
fn nine_callers_and_one_more_exhaust_the_pool() {
    let resources = Resources::new(100, 100, 100, 100).unwrap();
    let mut coffee_served = 0;
    let mut foam_served = 0;
    for _ in 0..9 {
        if resources.use_coffee(20).is_ok() {
            coffee_served += 20;
        }
        if resources.use_foam(20).is_ok() {
            foam_served += 20;
        }
    }
    assert_eq!(coffee_served, 180);
    assert_eq!(foam_served, 180);
    assert_eq!(resources.use_coffee(20), Ok(()));
    assert_eq!(resources.use_foam(20), Ok(()));
    assert_eq!(resources.use_coffee(20), Err(Error::InsufficientResources));
    assert_eq!(resources.use_foam(20), Err(Error::InsufficientResources));
}

#[test]
fn time_cost_is_linear_in_the_amount() {
    assert_eq!(time_cost(0, 3, 0), 0);
    assert_eq!(time_cost(60, 5, 0), 300);
    assert_eq!(time_cost(7, 0, 1), 1);
    assert_eq!(time_cost(10, 4, 9), 49);
    assert_eq!(
        time_cost(u32::MAX, u32::MAX, u32::MAX),
        u32::MAX as u64 * u32::MAX as u64 + u32::MAX as u64
    );
}

struct Recorder {
    pauses: Arc<Mutex<Vec<u64>>>,
}

impl Delay for Recorder {
    fn pause(&self, millis: u64) {
        self.pauses.lock().unwrap().push(millis);
    }
}

#[test]
fn each_operation_spends_its_time() {
    let pauses = Arc::new(Mutex::new(Vec::new()));
    let recorder = Recorder { pauses: pauses.clone() };
    let resources = Resources::with_delay(10, 100, 0, 100, recorder).unwrap();

    resources.use_coffee(60).unwrap();
    assert_eq!(*pauses.lock().unwrap(), vec![250, 180]);
    pauses.lock().unwrap().clear();

    resources.use_coffee(0).unwrap();
    assert_eq!(*pauses.lock().unwrap(), vec![0]);
    pauses.lock().unwrap().clear();

    resources.use_water(7).unwrap();
    assert_eq!(*pauses.lock().unwrap(), vec![1]);
    pauses.lock().unwrap().clear();

    resources.use_foam(10).unwrap();
    assert_eq!(*pauses.lock().unwrap(), vec![60, 20]);
    pauses.lock().unwrap().clear();

    resources.use_coffee(51).expect_err("Should have failed");
    resources.use_foam(91).expect_err("Should have failed");
    assert_eq!(*pauses.lock().unwrap(), Vec::<u64>::new());
}

#[test]
fn served_amounts_never_total_more_than_the_stock() {
    let resources = Resources::new(0, 0, 0, 0).unwrap();
    let mut stock = Stock { derived: 100, raw: 100 };
    let mut served: u64 = 0;
    for amount in [70, 50, 90, 0, 45, 35, 1, 200] {
        let before = stock;
        match resources.use_coffee_from(&mut stock, amount) {
            Ok(()) => served += amount as u64,
            Err(Error::InsufficientResources) => assert_eq!(stock, before),
        }
        assert!(stock.derived <= before.derived.max(0));
        assert!(stock.raw <= before.raw);
        assert_eq!(served + stock.derived as u64 + stock.raw as u64, 200);
    }
    assert_eq!(served, 200);
    assert_eq!(stock, Stock { derived: 0, raw: 0 });
}

#[test]
fn levels_stay_within_the_capacities() {
    let resources = Resources::new(1000, 10000, 1000, 10000).unwrap();
    for amount in [1000, 999, 1, 5000, 0, 1000, 1000, 1000, 1000] {
        let _ = resources.use_coffee(amount);
        let _ = resources.use_foam(amount);
        let snapshot = resources.snapshot();
        assert!(snapshot.coffee() <= 1000);
        assert!(snapshot.coffee_beans() <= 10000);
        assert!(snapshot.foam() <= 1000);
        assert!(snapshot.milk() <= 10000);
    }
    let snapshot = resources.snapshot();
    assert_eq!(snapshot.coffee(), 0);
    assert_eq!(snapshot.coffee_beans(), 0);
    assert_eq!(snapshot.foam(), 0);
    assert_eq!(snapshot.milk(), 0);
}

#[test]
fn snapshot_flags_follow_the_levels_that_the_pool_pushes() {
    let resources = Resources::new(0, 1000, 0, 1000).unwrap();
    let snapshot = resources.snapshot();
    assert_eq!(snapshot.low_on_coffee_beans(), false);
    assert_eq!(snapshot.low_on_milk(), false);

    resources.use_coffee(1).unwrap();
    let snapshot = resources.snapshot();
    assert_eq!(snapshot.coffee_beans(), 999);
    assert_eq!(snapshot.low_on_coffee_beans(), true);
    assert_eq!(snapshot.milk(), 1000);
    assert_eq!(snapshot.low_on_milk(), false);

    resources.use_foam(1).unwrap();
    let snapshot = resources.snapshot();
    assert_eq!(snapshot.milk(), 999);
    assert_eq!(snapshot.low_on_milk(), true);
}
