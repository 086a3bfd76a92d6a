use distribbuidora_pdv::auth::AuthState;
use distribbuidora_pdv::commands::receipts::generate_receipt;
use distribbuidora_pdv::db::customers::create_customer;
use distribbuidora_pdv::db::orders::create_order;
use distribbuidora_pdv::db::products::create_product;
use distribbuidora_pdv::errors::AppError;
use distribbuidora_pdv::models::{
    CreateCustomerPayload, CreateOrderPayload, CreateProductPayload, OrderItemPayload,
    OrderItemWithProduct, OrderWithCustomer, OrderWithItems, SafeUser,
};
use distribbuidora_pdv::receipts::{render_line, render_receipt};
use distribbuidora_pdv::store::Store;
use distribbuidora_pdv::timestamp::Timestamp;

fn item(name: &str, quantity: i64, returned_bottle: bool, unit_price: i64) -> OrderItemWithProduct {
    OrderItemWithProduct {
        id: 1,
        order_id: 1,
        product_id: 1,
        product_name: name.to_string(),
        quantity,
        returned_bottle,
        unit_price,
    }
}

#[test]
fn a_line_shows_product_quantity_price_and_amount() {
    assert_eq!(
        render_line(&item("Água 20L", 2, false, 1000)),
        "<tr><td>Água 20L </td><td>2</td><td>R$ 10.00</td><td>R$ 20.00</td></tr>"
    );
    assert_eq!(
        render_line(&item("Gás 13kg", 3, true, 8050)),
        "<tr><td>Gás 13kg (com casco)</td><td>3</td><td>R$ 80.50</td><td>R$ 241.50</td></tr>"
    );
    assert_eq!(
        render_line(&item("X", i64::MAX, false, i64::MAX)),
        "<tr><td>X </td><td>9223372036854775807</td><td>R$ 92233720368547758.07</td>\
         <td>R$ 850705917302346158473969077842325012.49</td></tr>"
    );
}

#[test]
fn a_receipt_shows_number_customer_date_lines_and_total() {
    let order = OrderWithItems {
        order: OrderWithCustomer {
            id: 42,
            customer_id: Some(7),
            customer_name: Some("João Silva".to_string()),
            total: 26150,
            created_at: Timestamp::new(2024, 5, 17, 10, 30, 0).unwrap(),
        },
        items: vec![item("Água 20L", 2, false, 1000), item("Gás 13kg", 3, true, 8050)],
    };
    let page = render_receipt(&order);
    assert!(page.starts_with("\n<!DOCTYPE html>\n<html>\n<head>\n    <meta charset=\"UTF-8\">\n    <title>Recibo #42</title>\n    <style>\n        body {\n            font-family: Arial, sans-serif;"));
    assert!(page.contains("        <h1>RECIBO DE VENDA</h1>\n        <p>Pedido #42</p>\n    </div>\n    \n    <div class=\"info\">\n        <p><strong>Cliente:</strong> João Silva</p>\n        <p><strong>Data:</strong> 2024-05-17 10:30:00</p>\n    </div>"));
    assert!(page.contains("                <th>Preço Unit.</th>\n                <th>Subtotal</th>\n            </tr>\n        </thead>\n        <tbody>\n            <tr><td>Água 20L </td><td>2</td><td>R$ 10.00</td><td>R$ 20.00</td></tr><tr><td>Gás 13kg (com casco)</td><td>3</td><td>R$ 80.50</td><td>R$ 241.50</td></tr>\n        </tbody>\n    </table>"));
    assert!(page.contains("    <div class=\"total\">\n        <p>TOTAL: R$ 261.50</p>\n    </div>"));
    assert!(page.ends_with("        <p>Obrigado pela preferência!</p>\n    </div>\n</body>\n</html>\n        "));
    assert_eq!(page.matches("{{").count() + page.matches("}}").count(), 0);
    assert_eq!(page.matches('{').count(), 8);
    assert_eq!(page.matches('}').count(), 8);
    assert_eq!(page.chars().count(), 1778 + 2 * 2 + 10 + 19 + 154 + 6);
}

#[test]
fn a_receipt_without_customer_names_the_final_consumer() {
    let order = OrderWithItems {
        order: OrderWithCustomer {
            id: 1,
            customer_id: None,
            customer_name: None,
            total: 0,
            created_at: Timestamp::new(2024, 1, 2, 3, 4, 5).unwrap(),
        },
        items: vec![],
    };
    let page = render_receipt(&order);
    assert!(page.contains("<p><strong>Cliente:</strong> Consumidor Final</p>"));
    assert!(page.contains("<tbody>\n            \n        </tbody>"));
    assert!(page.contains("<p>TOTAL: R$ 0.00</p>"));
}

#[test]
fn a_receipt_is_printed_for_whoever_is_logged_in() {
    let mut store = Store::new();
    let product_id = create_product(
        &mut store,
        CreateProductPayload {
            name: "Água 20L".to_string(),
            description: None,
            category: "water".to_string(),
            price_refill: 500,
            price_full: 1000,
            stock_full: Some(100),
            stock_empty: Some(0),
            expiry_month: None,
            expiry_year: None,
        },
    )
    .unwrap();
    let customer_id = create_customer(
        &mut store,
        CreateCustomerPayload {
            name: "Maria".to_string(),
            phone: None,
            address: None,
            notes: None,
        },
    )
    .unwrap();
    let order_id = create_order(
        &mut store,
        CreateOrderPayload {
            customer_id: Some(customer_id),
            items: vec![OrderItemPayload {
                product_id,
                quantity: 2,
                returned_bottle: true,
                unit_price: 1000,
            }],
        },
        Timestamp::new(2024, 5, 17, 10, 30, 0).unwrap(),
    )
    .unwrap();

    let nobody = AuthState::default();
    assert_eq!(
        generate_receipt(&store, &nobody, order_id),
        Err(AppError::Auth("User not authenticated".to_string()))
    );
    let operator = AuthState {
        user: Some(SafeUser { id: 2, username: "caixa".to_string(), role: "operator".to_string() }),
    };
    let page = generate_receipt(&store, &operator, order_id).unwrap();
    assert!(page.contains("<title>Recibo #1</title>"));
    assert!(page.contains("<p><strong>Cliente:</strong> Maria</p>"));
    assert!(page.contains(
        "<tr><td>Água 20L (com casco)</td><td>2</td><td>R$ 10.00</td><td>R$ 20.00</td></tr>"
    ));
    assert!(page.contains("<p>TOTAL: R$ 20.00</p>"));
    assert_eq!(
        generate_receipt(&store, &operator, order_id + 1),
        Err(AppError::NotFound("Order with id 2 not found".to_string()))
    );
}
