use distribbuidora_pdv::db::customers::create_customer;
use distribbuidora_pdv::db::orders::create_order;
use distribbuidora_pdv::db::products::{create_product, get_product_by_id};
use distribbuidora_pdv::db::stock::{
    count_active_customers, get_all_movements, get_critical_stock, get_dashboard_stats,
    get_top_products, sales_of_period, stock_adjust, stock_in, stock_out,
};
use distribbuidora_pdv::errors::AppError;
use distribbuidora_pdv::models::{
    CreateCustomerPayload, CreateOrderPayload, CreateProductPayload, MovementType, Order,
    OrderItemPayload,
};
use distribbuidora_pdv::store::Store;
use distribbuidora_pdv::timestamp::Timestamp;

fn on(month: u8, day: u8, hour: u8) -> Timestamp {
    Timestamp::new(2024, month, day, hour, 0, 0).unwrap()
}

fn product(store: &mut Store, name: &str, stock_full: i64) -> i64 {
    let payload = CreateProductPayload {
        name: name.to_string(),
        description: None,
        category: "water".to_string(),
        price_refill: 500,
        price_full: 1000,
        stock_full: Some(stock_full),
        stock_empty: Some(0),
        expiry_month: None,
        expiry_year: None,
    };
    create_product(store, payload).unwrap()
}

fn customer(store: &mut Store, name: &str) -> i64 {
    let payload =
        CreateCustomerPayload { name: name.to_string(), phone: None, address: None, notes: None };
    create_customer(store, payload).unwrap()
}

fn sell(
    store: &mut Store,
    customer_id: Option<i64>,
    product_id: i64,
    quantity: i64,
    unit_price: i64,
    when: Timestamp,
) -> i64 {
    let payload = CreateOrderPayload {
        customer_id,
        items: vec![OrderItemPayload { product_id, quantity, returned_bottle: false, unit_price }],
    };
    create_order(store, payload, when).unwrap()
}

#[test]
fn stock_in_adds_and_writes_one_in_entry() {
    let mut store = Store::new();
    let id = product(&mut store, "Água", 10);
    assert_eq!(stock_in(&mut store, id, 5, on(5, 1, 8)), Ok(()));
    assert_eq!(get_product_by_id(&store, id).unwrap().stock_full, 15);
    assert_eq!(get_product_by_id(&store, id).unwrap().stock_empty, 0);
    let ledger = store.stock_movements();
    assert_eq!(ledger.len(), 1);
    assert_eq!(ledger[0].id, 1);
    assert_eq!(ledger[0].product_id, id);
    assert_eq!(ledger[0].movement_type, MovementType::In);
    assert_eq!(ledger[0].quantity, 5);
    assert_eq!(ledger[0].created_at, on(5, 1, 8));
}

#[test]
fn stock_out_takes_and_writes_one_out_entry() {
    let mut store = Store::new();
    let id = product(&mut store, "Água", 10);
    assert_eq!(stock_out(&mut store, id, 10, on(5, 1, 8)), Ok(()));
    assert_eq!(get_product_by_id(&store, id).unwrap().stock_full, 0);
    let ledger = store.stock_movements();
    assert_eq!(ledger.len(), 1);
    assert_eq!(ledger[0].movement_type, MovementType::Out);
    assert_eq!(ledger[0].quantity, 10);
}

#[test]
fn stock_adjust_is_signed_and_writes_one_adjust_entry() {
    let mut store = Store::new();
    let id = product(&mut store, "Água", 10);
    assert_eq!(stock_adjust(&mut store, id, -13, on(5, 1, 8)), Ok(()));
    assert_eq!(get_product_by_id(&store, id).unwrap().stock_full, -3);
    assert_eq!(stock_adjust(&mut store, id, 0, on(5, 1, 9)), Ok(()));
    assert_eq!(stock_adjust(&mut store, id, 4, on(5, 1, 10)), Ok(()));
    assert_eq!(get_product_by_id(&store, id).unwrap().stock_full, 1);
    let ledger = store.stock_movements();
    assert_eq!(ledger.len(), 3);
    assert!(ledger.iter().all(|m| m.movement_type == MovementType::Adjust));
    let quantities: Vec<i64> = ledger.iter().map(|m| m.quantity).collect();
    assert_eq!(quantities, vec![-13, 0, 4]);
}

#[test]
fn refused_movements_change_nothing() {
    let mut store = Store::new();
    let id = product(&mut store, "Água", 10);
    let positive = Err(AppError::Validation("Quantity must be positive".to_string()));
    assert_eq!(stock_in(&mut store, id, 0, on(5, 1, 8)), positive);
    assert_eq!(stock_in(&mut store, id, -1, on(5, 1, 8)), positive);
    assert_eq!(stock_out(&mut store, id, 0, on(5, 1, 8)), positive);
    assert_eq!(stock_out(&mut store, 9, -1, on(5, 1, 8)), positive);
    assert_eq!(
        stock_out(&mut store, 9, 1, on(5, 1, 8)),
        Err(AppError::NotFound("Product 9 not found".to_string()))
    );
    assert_eq!(
        stock_in(&mut store, 9, 1, on(5, 1, 8)),
        Err(AppError::NotFound("Product 9 not found".to_string()))
    );
    assert_eq!(
        stock_adjust(&mut store, 9, 1, on(5, 1, 8)),
        Err(AppError::NotFound("Product 9 not found".to_string()))
    );
    assert_eq!(
        stock_out(&mut store, id, 11, on(5, 1, 8)),
        Err(AppError::BusinessLogic(
            "Insufficient stock. Available: 10, Requested: 11".to_string()
        ))
    );
    assert_eq!(
        stock_in(&mut store, id, i64::MAX, on(5, 1, 8)),
        Err(AppError::BusinessLogic("Stock level is out of range".to_string()))
    );
    assert_eq!(
        stock_adjust(&mut store, id, i64::MAX, on(5, 1, 8)),
        Err(AppError::BusinessLogic("Stock level is out of range".to_string()))
    );
    assert_eq!(get_product_by_id(&store, id).unwrap().stock_full, 10);
    assert!(store.stock_movements().is_empty());
}

#[test]
fn ledger_is_listed_most_recent_first_with_product_names() {
    let mut store = Store::new();
    let water = product(&mut store, "Água", 10);
    let gas = product(&mut store, "Gás", 10);
    stock_in(&mut store, water, 1, on(5, 2, 8)).unwrap();
    stock_out(&mut store, gas, 2, on(5, 4, 8)).unwrap();
    stock_adjust(&mut store, water, 3, on(5, 3, 8)).unwrap();

    let rows = get_all_movements(&store).unwrap();
    let seen: Vec<(i64, &str, MovementType, i64)> = rows
        .iter()
        .map(|m| (m.id, m.product_name.as_str(), m.movement_type, m.quantity))
        .collect();
    assert_eq!(
        seen,
        vec![
            (2, "Gás", MovementType::Out, 2),
            (3, "Água", MovementType::Adjust, 3),
            (1, "Água", MovementType::In, 1),
        ]
    );
}

#[test]
fn critical_stock_is_at_or_below_the_threshold_lowest_first() {
    let mut store = Store::new();
    product(&mut store, "A", 11);
    product(&mut store, "B", 10);
    product(&mut store, "C", 0);
    product(&mut store, "D", 5);
    let rows = get_critical_stock(&store, 10).unwrap();
    let seen: Vec<(&str, i64)> = rows.iter().map(|p| (p.name.as_str(), p.stock_full)).collect();
    assert_eq!(seen, vec![("C", 0), ("D", 5), ("B", 10)]);
    assert!(get_critical_stock(&store, -1).unwrap().is_empty());
}

#[test]
fn top_products_rank_units_sold_in_the_window() {
    let mut store = Store::new();
    let water = product(&mut store, "Água", 1000);
    let gas = product(&mut store, "Gás", 1000);
    let coal = product(&mut store, "Carvão", 1000);
    product(&mut store, "Gelo", 1000);
    let now = on(5, 31, 12);
    sell(&mut store, None, water, 3, 1000, on(5, 30, 9));
    sell(&mut store, None, gas, 7, 8000, on(5, 2, 9));
    sell(&mut store, None, water, 2, 900, on(5, 1, 12));
    sell(&mut store, None, coal, 50, 100, on(5, 1, 11));
    sell(&mut store, None, coal, 1, 100, on(5, 1, 12));

    let rows = get_top_products(&store, 5, 30, now).unwrap();
    let seen: Vec<(i64, &str, i64, i64)> = rows
        .iter()
        .map(|t| (t.product_id, t.product_name.as_str(), t.total_quantity, t.total_revenue))
        .collect();
    assert_eq!(seen, vec![(gas, "Gás", 7, 56000), (water, "Água", 5, 4800), (coal, "Carvão", 1, 100)]);

    let rows = get_top_products(&store, 2, 30, now).unwrap();
    let ids: Vec<i64> = rows.iter().map(|t| t.product_id).collect();
    assert_eq!(ids, vec![gas, water]);
    assert!(get_top_products(&store, 0, 30, now).unwrap().is_empty());
    assert_eq!(get_top_products(&store, -1, 30, now).unwrap().len(), 3);
    assert!(get_top_products(&store, 5, 1, now).unwrap().is_empty());
    let rows = get_top_products(&store, 5, 2, now).unwrap();
    assert_eq!(rows.len(), 1);
    assert_eq!((rows[0].product_id, rows[0].total_quantity), (water, 3));
    let rows = get_top_products(&store, 5, 31, now).unwrap();
    assert_eq!((rows[0].product_id, rows[0].total_quantity), (coal, 51));
}

#[test]
fn sales_of_a_period_add_the_totals_of_its_orders() {
    let order = |id: i64, total: i64, when: Timestamp| Order {
        id,
        customer_id: None,
        total,
        created_at: when,
    };
    let orders = vec![
        order(1, 1000, on(5, 17, 0)),
        order(2, 250, on(5, 17, 23)),
        order(3, 40, on(5, 16, 23)),
        order(4, 7, on(4, 17, 12)),
        order(5, 9, Timestamp::new(2023, 5, 17, 12, 0, 0).unwrap()),
    ];
    assert_eq!(sales_of_period(&orders, on(5, 17, 12), false), Some(1250));
    assert_eq!(sales_of_period(&orders, on(5, 17, 12), true), Some(1290));
    assert_eq!(sales_of_period(&orders, on(6, 1, 0), false), Some(0));
    assert_eq!(sales_of_period(&vec![], on(6, 1, 0), true), Some(0));
    let huge = vec![order(1, i64::MAX, on(5, 17, 0)), order(2, 1, on(5, 17, 1))];
    assert_eq!(sales_of_period(&huge, on(5, 17, 12), false), None);
    assert_eq!(sales_of_period(&huge, on(5, 18, 12), false), Some(0));
}

#[test]
fn active_customers_are_counted_once_each() {
    let order = |id: i64, customer_id: Option<i64>, when: Timestamp| Order {
        id,
        customer_id,
        total: 1,
        created_at: when,
    };
    let orders = vec![
        order(1, Some(7), on(5, 1, 0)),
        order(2, Some(7), on(5, 2, 0)),
        order(3, None, on(5, 3, 0)),
        order(4, Some(8), on(4, 30, 0)),
        order(5, Some(9), on(5, 31, 23)),
    ];
    assert_eq!(count_active_customers(&orders, on(5, 17, 12)), 2);
    assert_eq!(count_active_customers(&orders, on(4, 1, 0)), 1);
    assert_eq!(count_active_customers(&orders, on(6, 1, 0)), 0);
}

#[test]
fn dashboard_puts_the_figures_together() {
    let mut store = Store::new();
    let water = product(&mut store, "Água", 100);
    let gas = product(&mut store, "Gás", 12);
    let ana = customer(&mut store, "Ana");
    let bia = customer(&mut store, "Bia");
    let now = on(5, 17, 18);
    sell(&mut store, Some(ana), water, 2, 1000, on(5, 17, 9));
    sell(&mut store, Some(ana), gas, 3, 8000, on(5, 17, 10));
    sell(&mut store, Some(bia), water, 1, 1000, on(5, 2, 10));
    sell(&mut store, None, water, 1, 1000, on(5, 3, 10));
    sell(&mut store, Some(bia), water, 4, 1000, on(4, 20, 10));

    let stats = get_dashboard_stats(&store, now).unwrap();
    assert_eq!(stats.sales_today, 26000);
    assert_eq!(stats.sales_month, 28000);
    assert_eq!(stats.active_customers, 2);
    let low: Vec<(&str, i64)> =
        stats.critical_stock.iter().map(|p| (p.name.as_str(), p.stock_full)).collect();
    assert_eq!(low, vec![("Gás", 9)]);
    let top: Vec<(&str, i64, i64)> = stats
        .top_products
        .iter()
        .map(|t| (t.product_name.as_str(), t.total_quantity, t.total_revenue))
        .collect();
    assert_eq!(top, vec![("Água", 8, 8000), ("Gás", 3, 24000)]);
}

#[test]
fn dashboard_of_an_empty_store_is_all_zero() {
    let store = Store::new();
    let stats = get_dashboard_stats(&store, on(1, 1, 0)).unwrap();
    assert_eq!(stats.sales_today, 0);
    assert_eq!(stats.sales_month, 0);
    assert_eq!(stats.active_customers, 0);
    assert!(stats.critical_stock.is_empty());
    assert!(stats.top_products.is_empty());
}

#[test]
fn dashboard_reports_figures_out_of_range() {
    let mut store = Store::new();
    let water = product(&mut store, "Água", 100);
    let now = on(5, 17, 18);
    sell(&mut store, None, water, 1, i64::MAX, on(5, 17, 9));
    sell(&mut store, None, water, 1, 1, on(5, 17, 10));
    assert_eq!(
        get_dashboard_stats(&store, now).map(|s| s.sales_today),
        Err(AppError::BusinessLogic("Sales figures are out of range".to_string()))
    );
    assert_eq!(
        get_top_products(&store, 5, 30, now).map(|rows| rows.len()),
        Err(AppError::BusinessLogic("Sales figures are out of range".to_string()))
    );
}
