use distribbuidora_pdv::db::customers::create_customer;
use distribbuidora_pdv::db::orders::{
    create_order, delete_order, get_all_orders, get_order_by_id, get_orders_by_customer,
    total_of, update_order,
};
use distribbuidora_pdv::db::products::{create_product, delete_product, get_product_by_id};
use distribbuidora_pdv::errors::AppError;
use distribbuidora_pdv::models::{
    CreateCustomerPayload, CreateOrderPayload, CreateProductPayload, MovementType,
    OrderItemPayload, UpdateOrderPayload,
};
use distribbuidora_pdv::store::Store;
use distribbuidora_pdv::timestamp::Timestamp;

fn at(day: u8, hour: u8) -> Timestamp {
    Timestamp::new(2024, 5, day, hour, 0, 0).unwrap()
}

fn create_test_product(store: &mut Store) -> i64 {
    let payload = CreateProductPayload {
        name: "Água 20L".to_string(),
        description: None,
        category: "water".to_string(),
        price_refill: 500,
        price_full: 1000,
        stock_full: Some(100),
        stock_empty: Some(0),
        expiry_month: None,
        expiry_year: None,
    };
    create_product(store, payload).unwrap()
}

fn create_test_customer(store: &mut Store) -> i64 {
    let payload = CreateCustomerPayload {
        name: "João Silva".to_string(),
        phone: None,
        address: None,
        notes: None,
    };
    create_customer(store, payload).unwrap()
}

fn line(product_id: i64, quantity: i64, returned_bottle: bool, unit_price: i64) -> OrderItemPayload {
    OrderItemPayload { product_id, quantity, returned_bottle, unit_price }
}

#[test]
fn test_create_order() {
    let mut store = Store::new();
    let product_id = create_test_product(&mut store);
    let customer_id = create_test_customer(&mut store);

    let payload = CreateOrderPayload {
        customer_id: Some(customer_id),
        items: vec![line(product_id, 2, false, 1000)],
    };

    let order_id = create_order(&mut store, payload, at(17, 10)).unwrap();
    assert!(order_id > 0);

    let order = get_order_by_id(&store, order_id).unwrap();
    assert_eq!(order.order.total, 2000);
    assert_eq!(order.items.len(), 1);
    assert_eq!(order.items[0].quantity, 2);

    let product = get_product_by_id(&store, product_id).unwrap();
    assert_eq!(product.stock_full, 98);
}

#[test]
fn test_create_order_with_returned_bottle() {
    let mut store = Store::new();
    let product_id = create_test_product(&mut store);

    let payload =
        CreateOrderPayload { customer_id: None, items: vec![line(product_id, 1, true, 500)] };

    create_order(&mut store, payload, at(17, 10)).unwrap();

    let product = get_product_by_id(&store, product_id).unwrap();
    assert_eq!(product.stock_full, 99);
    assert_eq!(product.stock_empty, 1);
}

#[test]
fn test_create_order_validation() {
    let mut store = Store::new();

    let payload = CreateOrderPayload { customer_id: None, items: vec![] };
    assert!(create_order(&mut store, payload, at(17, 10)).is_err());

    let payload =
        CreateOrderPayload { customer_id: None, items: vec![line(99999, 1, false, 1000)] };
    assert!(create_order(&mut store, payload, at(17, 10)).is_err());
}

#[test]
fn test_create_order_insufficient_stock() {
    let mut store = Store::new();
    let product_id = create_test_product(&mut store);

    let payload =
        CreateOrderPayload { customer_id: None, items: vec![line(product_id, 101, false, 1000)] };

    assert!(create_order(&mut store, payload, at(17, 10)).is_err());
}

#[test]
fn test_get_all_orders() {
    let mut store = Store::new();
    let product_id = create_test_product(&mut store);

    let payload1 =
        CreateOrderPayload { customer_id: None, items: vec![line(product_id, 1, false, 1000)] };
    create_order(&mut store, payload1, at(17, 10)).unwrap();

    let payload2 =
        CreateOrderPayload { customer_id: None, items: vec![line(product_id, 2, false, 1000)] };
    create_order(&mut store, payload2, at(17, 11)).unwrap();

    let orders = get_all_orders(&store).unwrap();
    assert_eq!(orders.len(), 2);
}

#[test]
fn test_get_orders_by_customer() {
    let mut store = Store::new();
    let product_id = create_test_product(&mut store);
    let customer_id = create_test_customer(&mut store);

    let payload1 = CreateOrderPayload {
        customer_id: Some(customer_id),
        items: vec![line(product_id, 1, false, 1000)],
    };
    create_order(&mut store, payload1, at(17, 10)).unwrap();

    let payload2 =
        CreateOrderPayload { customer_id: None, items: vec![line(product_id, 1, false, 1000)] };
    create_order(&mut store, payload2, at(17, 11)).unwrap();

    let orders = get_orders_by_customer(&store, customer_id).unwrap();
    assert_eq!(orders.len(), 1);
}

#[test]
fn order_of_two_units_at_ten_totals_twenty_and_leaves_ninety_eight() {
    let mut store = Store::new();
    let payload = CreateProductPayload {
        name: "20L Water".to_string(),
        description: None,
        category: "water".to_string(),
        price_refill: 500,
        price_full: 1000,
        stock_full: Some(100),
        stock_empty: Some(0),
        expiry_month: None,
        expiry_year: None,
    };
    let product_id = create_product(&mut store, payload).unwrap();
    let order = CreateOrderPayload {
        customer_id: None,
        items: vec![line(product_id, 2, false, 1000)],
    };
    let order_id = create_order(&mut store, order, at(17, 10)).unwrap();

    assert_eq!(get_order_by_id(&store, order_id).unwrap().order.total, 2000);
    let product = get_product_by_id(&store, product_id).unwrap();
    assert_eq!(product.stock_full, 98);
    assert_eq!(product.stock_empty, 0);
}

#[test]
fn failed_order_leaves_stock_and_ledger_as_they_were() {
    let mut store = Store::new();
    let first = create_test_product(&mut store);
    let second = create_test_product(&mut store);

    let payload = CreateOrderPayload {
        customer_id: None,
        items: vec![
            line(first, 5, true, 1000),
            line(second, 101, false, 1000),
            line(first, 1, false, 1000),
        ],
    };
    assert_eq!(
        create_order(&mut store, payload, at(17, 10)),
        Err(AppError::BusinessLogic(
            "Insufficient stock for product 2. Available: 100, Requested: 101".to_string()
        ))
    );

    assert_eq!(get_product_by_id(&store, first).unwrap().stock_full, 100);
    assert_eq!(get_product_by_id(&store, first).unwrap().stock_empty, 0);
    assert_eq!(get_product_by_id(&store, second).unwrap().stock_full, 100);
    assert!(store.orders().is_empty());
    assert!(store.order_items().is_empty());
    assert!(store.stock_movements().is_empty());
}

#[test]
fn missing_product_in_a_later_line_fails_the_whole_order() {
    let mut store = Store::new();
    let product_id = create_test_product(&mut store);
    let payload = CreateOrderPayload {
        customer_id: None,
        items: vec![line(product_id, 5, false, 1000), line(77, 1, false, 1000)],
    };
    assert_eq!(
        create_order(&mut store, payload, at(17, 10)),
        Err(AppError::NotFound("Product 77 not found".to_string()))
    );
    assert_eq!(get_product_by_id(&store, product_id).unwrap().stock_full, 100);
    assert!(store.orders().is_empty());
    assert!(store.stock_movements().is_empty());
}

#[test]
fn empty_order_is_refused_with_its_message() {
    let mut store = Store::new();
    assert_eq!(
        create_order(&mut store, CreateOrderPayload { customer_id: None, items: vec![] }, at(1, 0)),
        Err(AppError::Validation("Order must have at least one item".to_string()))
    );
}

#[test]
fn lines_of_one_product_draw_on_the_stock_in_turn() {
    let mut store = Store::new();
    let product_id = create_test_product(&mut store);

    let exact = CreateOrderPayload {
        customer_id: None,
        items: vec![line(product_id, 60, false, 1000), line(product_id, 40, true, 500)],
    };
    let order_id = create_order(&mut store, exact, at(17, 10)).unwrap();
    assert_eq!(get_order_by_id(&store, order_id).unwrap().order.total, 80000);
    let product = get_product_by_id(&store, product_id).unwrap();
    assert_eq!(product.stock_full, 0);
    assert_eq!(product.stock_empty, 40);

    let mut store = Store::new();
    let product_id = create_test_product(&mut store);
    let too_much = CreateOrderPayload {
        customer_id: None,
        items: vec![line(product_id, 60, false, 1000), line(product_id, 41, false, 1000)],
    };
    assert_eq!(
        create_order(&mut store, too_much, at(17, 10)),
        Err(AppError::BusinessLogic(
            "Insufficient stock for product 1. Available: 40, Requested: 41".to_string()
        ))
    );
    assert_eq!(get_product_by_id(&store, product_id).unwrap().stock_full, 100);
}

#[test]
fn order_may_take_the_whole_stock() {
    let mut store = Store::new();
    let product_id = create_test_product(&mut store);
    let payload =
        CreateOrderPayload { customer_id: None, items: vec![line(product_id, 100, false, 1)] };
    assert_eq!(create_order(&mut store, payload, at(17, 10)), Ok(1));
    assert_eq!(get_product_by_id(&store, product_id).unwrap().stock_full, 0);
}

#[test]
fn order_writes_one_line_and_one_out_entry_for_each_line() {
    let mut store = Store::new();
    let first = create_test_product(&mut store);
    let second = create_test_product(&mut store);
    let payload = CreateOrderPayload {
        customer_id: None,
        items: vec![line(first, 3, false, 1000), line(second, 4, true, 250)],
    };
    let order_id = create_order(&mut store, payload, at(17, 10)).unwrap();

    let items = store.order_items();
    assert_eq!(items.len(), 2);
    assert_eq!((items[0].id, items[0].order_id, items[0].product_id), (1, order_id, first));
    assert_eq!((items[0].quantity, items[0].returned_bottle, items[0].unit_price), (3, false, 1000));
    assert_eq!((items[1].id, items[1].order_id, items[1].product_id), (2, order_id, second));
    assert_eq!((items[1].quantity, items[1].returned_bottle, items[1].unit_price), (4, true, 250));

    let ledger = store.stock_movements();
    assert_eq!(ledger.len(), 2);
    assert_eq!(ledger[0].movement_type, MovementType::Out);
    assert_eq!((ledger[0].id, ledger[0].product_id, ledger[0].quantity), (1, first, 3));
    assert_eq!(ledger[0].created_at, at(17, 10));
    assert_eq!(ledger[1].movement_type, MovementType::Out);
    assert_eq!((ledger[1].id, ledger[1].product_id, ledger[1].quantity), (2, second, 4));

    let order = &store.orders()[0];
    assert_eq!(order.total, 4000);
    assert_eq!(order.customer_id, None);
    assert_eq!(order.created_at, at(17, 10));
}

#[test]
fn total_is_the_sum_of_quantity_times_unit_price() {
    assert_eq!(total_of(&vec![]), Some(0));
    assert_eq!(total_of(&vec![line(1, 2, false, 1000)]), Some(2000));
    assert_eq!(
        total_of(&vec![line(1, 2, false, 1000), line(2, 3, true, 333), line(1, 1, false, 1)]),
        Some(3000)
    );
    assert_eq!(total_of(&vec![line(1, -2, false, 1000), line(1, 2, false, 1000)]), Some(0));
}

#[test]
fn total_out_of_range_is_refused() {
    assert_eq!(total_of(&vec![line(1, i64::MAX, false, 2)]), None);
    assert_eq!(total_of(&vec![line(1, i64::MAX, false, 1), line(1, 1, false, 1)]), None);
    assert_eq!(total_of(&vec![line(1, i64::MAX, false, 1)]), Some(i64::MAX));

    let mut store = Store::new();
    let product_id = create_test_product(&mut store);
    let payload = CreateOrderPayload {
        customer_id: None,
        items: vec![line(product_id, 2, false, i64::MAX)],
    };
    assert_eq!(
        create_order(&mut store, payload, at(17, 10)),
        Err(AppError::Validation("Order total is out of range".to_string()))
    );
    assert_eq!(get_product_by_id(&store, product_id).unwrap().stock_full, 100);
}

#[test]
fn orders_are_listed_most_recent_first_with_customer_names() {
    let mut store = Store::new();
    let product_id = create_test_product(&mut store);
    let customer_id = create_test_customer(&mut store);
    let order = |customer: Option<i64>| CreateOrderPayload {
        customer_id: customer,
        items: vec![line(product_id, 1, false, 1000)],
    };
    let early = create_order(&mut store, order(Some(customer_id)), at(3, 9)).unwrap();
    let late = create_order(&mut store, order(None), at(20, 9)).unwrap();
    let middle = create_order(&mut store, order(Some(555)), at(10, 9)).unwrap();

    let orders = get_all_orders(&store).unwrap();
    let ids: Vec<i64> = orders.iter().map(|o| o.id).collect();
    assert_eq!(ids, vec![late, middle, early]);
    assert_eq!(orders[0].customer_name, None);
    assert_eq!(orders[1].customer_name, None);
    assert_eq!(orders[1].customer_id, Some(555));
    assert_eq!(orders[2].customer_name, Some("João Silva".to_string()));

    let mine = get_orders_by_customer(&store, customer_id).unwrap();
    assert_eq!(mine.len(), 1);
    assert_eq!(mine[0].id, early);
    assert_eq!(mine[0].customer_name, Some("João Silva".to_string()));
    assert!(get_orders_by_customer(&store, 9).unwrap().is_empty());
}

#[test]
fn order_is_read_with_its_lines_and_product_names() {
    let mut store = Store::new();
    let first = create_test_product(&mut store);
    let second = create_test_product(&mut store);
    let other = CreateOrderPayload { customer_id: None, items: vec![line(first, 9, false, 1)] };
    create_order(&mut store, other, at(1, 1)).unwrap();
    let payload = CreateOrderPayload {
        customer_id: None,
        items: vec![line(second, 1, true, 500), line(first, 2, false, 1000)],
    };
    let order_id = create_order(&mut store, payload, at(2, 1)).unwrap();

    let order = get_order_by_id(&store, order_id).unwrap();
    assert_eq!(order.order.id, order_id);
    assert_eq!(order.order.total, 2500);
    assert_eq!(order.order.created_at, at(2, 1));
    assert_eq!(order.items.len(), 2);
    assert_eq!(order.items[0].product_id, second);
    assert_eq!(order.items[0].product_name, "Água 20L");
    assert!(order.items[0].returned_bottle);
    assert_eq!(order.items[1].product_id, first);
    assert_eq!(order.items[1].quantity, 2);

    delete_product(&mut store, second).unwrap();
    let order = get_order_by_id(&store, order_id).unwrap();
    assert_eq!(order.items.len(), 1);
    assert_eq!(order.items[0].product_id, first);

    assert_eq!(
        get_order_by_id(&store, 40).map(|o| o.order.id),
        Err(AppError::NotFound("Order with id 40 not found".to_string()))
    );
}

#[test]
fn order_timestamp_can_be_changed() {
    let mut store = Store::new();
    let product_id = create_test_product(&mut store);
    let payload =
        CreateOrderPayload { customer_id: None, items: vec![line(product_id, 1, false, 1000)] };
    let id = create_order(&mut store, payload, at(17, 10)).unwrap();

    assert_eq!(update_order(&mut store, id, UpdateOrderPayload { created_at: None }), Ok(()));
    assert_eq!(store.orders()[0].created_at, at(17, 10));

    let change = UpdateOrderPayload { created_at: Some("2023-12-31 23:59:59".to_string()) };
    assert_eq!(update_order(&mut store, id, change), Ok(()));
    assert_eq!(store.orders()[0].created_at, Timestamp::new(2023, 12, 31, 23, 59, 59).unwrap());
    assert_eq!(store.orders()[0].total, 1000);

    let bad = UpdateOrderPayload { created_at: Some("yesterday".to_string()) };
    assert_eq!(
        update_order(&mut store, id, bad),
        Err(AppError::Validation("Invalid timestamp".to_string()))
    );
    let missing = UpdateOrderPayload { created_at: Some("yesterday".to_string()) };
    assert_eq!(
        update_order(&mut store, id + 1, missing),
        Err(AppError::NotFound("Order with id 2 not found".to_string()))
    );
}

#[test]
fn deleting_an_order_removes_its_lines_and_nothing_else() {
    let mut store = Store::new();
    let product_id = create_test_product(&mut store);
    let order = |quantity: i64| CreateOrderPayload {
        customer_id: None,
        items: vec![line(product_id, quantity, false, 1000), line(product_id, 1, false, 1000)],
    };
    let first = create_order(&mut store, order(2), at(1, 1)).unwrap();
    let second = create_order(&mut store, order(3), at(2, 1)).unwrap();

    assert_eq!(delete_order(&mut store, first), Ok(()));

    assert_eq!(store.orders().len(), 1);
    assert_eq!(store.orders()[0].id, second);
    let items = store.order_items();
    assert_eq!(items.len(), 2);
    assert!(items.iter().all(|item| item.order_id == second));
    assert_eq!(store.stock_movements().len(), 4);
    assert_eq!(get_product_by_id(&store, product_id).unwrap().stock_full, 93);
    assert_eq!(
        delete_order(&mut store, first),
        Err(AppError::NotFound("Order with id 1 not found".to_string()))
    );
}
