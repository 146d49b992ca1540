use std::collections::VecDeque;

use coffee_maker::config;
use coffee_maker::orders::{Ingredients, Order, Orders};

#[test]
fn create_empty_order() {
    let order = Order::from(0, 0, 0).expect("Failed to create order");
    assert_eq!(
        order,
        Order::Order(Ingredients {
            coffee: 0,
            water: 0,
            foam: 0
        })
    );
}

#[test]
fn create_order_with_valid_amount_of_coffee_and_foam() {
    let order = Order::from(config::C, 0, config::E);
    assert!(order.is_ok());
}

#[test]
fn create_order_with_too_much_coffee() {
    let order = Order::from(config::C + 1, 0, 0);
    assert!(order.is_err());
}

#[test]
fn create_order_with_too_much_foam() {
    let order = Order::from(0, 0, config::E + 1);
    assert!(order.is_err());
}

#[test]
fn create_order_with_too_much_coffee_and_foam() {
    let order = Order::from(config::C + 1, 0, config::E + 1);
    assert!(order.is_err());
}

#[test]
fn order_errors_name_the_first_excess() {
    assert_eq!(Order::from(config::C + 1, 0, 0), Err("Coffee is too much".to_string()));
    assert_eq!(Order::from(0, 0, config::E + 1), Err("Foam is too much".to_string()));
    assert_eq!(
        Order::from(config::C + 1, 0, config::E + 1),
        Err("Coffee is too much".to_string())
    );
}

#[test]
fn order_keeps_its_amounts_and_any_amount_of_water() {
    assert_eq!(
        Order::from(7, u32::MAX, 9),
        Ok(Order::Order(Ingredients {
            coffee: 7,
            water: u32::MAX,
            foam: 9
        }))
    );
}

#[test]
fn create_orders() {
    let orders = Orders::new();
    assert_eq!(orders.len(), 0);
}

#[test]
fn push_order() {
    let orders = Orders::new();
    orders.push(Order::from(0, 0, 0).expect("Failed to create order"));
    assert_eq!(orders.len(), 1);
}

#[test]
fn pop_order() {
    let orders = Orders::new();
    orders.push(Order::from(0, 0, 0).expect("Failed to create order"));
    assert_eq!(orders.len(), 1);
    orders.pop();
    assert_eq!(orders.len(), 0);
}

#[test]
fn pop_returns_orders_first_in_first_out() {
    let orders = Orders::new();
    for i in 0..50 {
        orders.push(Order::from(0, i, 0).expect("Failed to create order"));
    }
    orders.push(Order::NoMoreOrders);
    for i in 0..50 {
        assert_eq!(
            orders.pop(),
            Some(Order::Order(Ingredients {
                coffee: 0,
                water: i,
                foam: 0
            }))
        );
    }
    assert_eq!(orders.pop(), Some(Order::NoMoreOrders));
    assert_eq!(orders.len(), 0);
}

#[test]
fn plain_queue_steps_are_first_in_first_out() {
    let mut queue = VecDeque::new();
    assert_eq!(Orders::pop_from(&mut queue), None);
    assert_eq!(queue.len(), 0);

    let first = Order::from(1, 2, 3).unwrap();
    Orders::push_to(&mut queue, first);
    Orders::push_to(&mut queue, Order::NoMoreOrders);
    assert_eq!(queue, VecDeque::from(vec![first, Order::NoMoreOrders]));

    assert_eq!(Orders::pop_from(&mut queue), Some(first));
    assert_eq!(queue, VecDeque::from(vec![Order::NoMoreOrders]));
    assert_eq!(Orders::pop_from(&mut queue), Some(Order::NoMoreOrders));
    assert_eq!(Orders::pop_from(&mut queue), None);
}
