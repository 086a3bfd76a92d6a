use distribbuidora_pdv::db::products::{
    create_product, delete_product, get_all_products, get_product_by_id, update_product,
};
use distribbuidora_pdv::errors::AppError;
use distribbuidora_pdv::models::{CreateProductPayload, UpdateProductPayload};
use distribbuidora_pdv::store::Store;

fn water(name: &str) -> CreateProductPayload {
    CreateProductPayload {
        name: name.to_string(),
        description: None,
        category: "water".to_string(),
        price_refill: 500,
        price_full: 1000,
        stock_full: None,
        stock_empty: None,
        expiry_month: None,
        expiry_year: None,
    }
}

fn no_change() -> UpdateProductPayload {
    UpdateProductPayload {
        name: None,
        description: None,
        category: None,
        price_refill: None,
        price_full: None,
        stock_full: None,
        stock_empty: None,
        expiry_month: None,
        expiry_year: None,
    }
}

#[test]
fn test_create_product() {
    let mut store = Store::new();

    let payload = CreateProductPayload {
        name: "Água 20L".to_string(),
        description: Some("Água mineral".to_string()),
        category: "water".to_string(),
        price_refill: 500,
        price_full: 1000,
        stock_full: Some(100),
        stock_empty: Some(0),
        expiry_month: None,
        expiry_year: None,
    };

    let id = create_product(&mut store, payload).unwrap();
    assert!(id > 0);

    let product = get_product_by_id(&store, id).unwrap();
    assert_eq!(product.name, "Água 20L");
    assert_eq!(product.price_refill, 500);
    assert_eq!(product.price_full, 1000);
    assert_eq!(product.stock_full, 100);
}

#[test]
fn test_create_product_validation() {
    let mut store = Store::new();

    let mut payload = water("");
    assert!(create_product(&mut store, payload).is_err());

    payload = water("Produto");
    payload.category = "invalid".to_string();
    assert!(create_product(&mut store, payload).is_err());

    payload = water("Produto");
    payload.price_refill = -500;
    assert!(create_product(&mut store, payload).is_err());

    assert!(store.products().is_empty());
}

#[test]
fn test_get_all_products() {
    let mut store = Store::new();

    create_product(&mut store, water("Água 20L")).unwrap();

    let mut gas = water("Gás 13kg");
    gas.category = "gas".to_string();
    gas.price_refill = 4500;
    gas.price_full = 8000;
    create_product(&mut store, gas).unwrap();

    let products = get_all_products(&store).unwrap();
    assert_eq!(products.len(), 2);
    assert!(products.iter().any(|p| p.name == "Água 20L"));
    assert!(products.iter().any(|p| p.name == "Gás 13kg"));
}

#[test]
fn test_get_product_by_id() {
    let mut store = Store::new();

    let mut payload = water("Água 20L");
    payload.description = Some("Teste".to_string());

    let id = create_product(&mut store, payload).unwrap();
    let product = get_product_by_id(&store, id).unwrap();

    assert_eq!(product.name, "Água 20L");
    assert_eq!(product.description, Some("Teste".to_string()));

    assert!(get_product_by_id(&store, 99999).is_err());
}

#[test]
fn test_update_product() {
    let mut store = Store::new();
    let id = create_product(&mut store, water("Água 20L")).unwrap();

    let mut update_payload = no_change();
    update_payload.name = Some("Água 20L Premium".to_string());
    update_payload.description = Some("Água premium".to_string());
    update_payload.price_refill = Some(600);
    update_payload.stock_full = Some(150);

    update_product(&mut store, id, update_payload).unwrap();

    let product = get_product_by_id(&store, id).unwrap();
    assert_eq!(product.name, "Água 20L Premium");
    assert_eq!(product.description, Some("Água premium".to_string()));
    assert_eq!(product.price_refill, 600);
    assert_eq!(product.price_full, 1000);
    assert_eq!(product.stock_full, 150);
}

#[test]
fn test_update_product_validation() {
    let mut store = Store::new();
    let id = create_product(&mut store, water("Água 20L")).unwrap();

    let mut update_payload = no_change();
    update_payload.name = Some("".to_string());
    assert!(update_product(&mut store, id, update_payload).is_err());

    update_payload = no_change();
    update_payload.category = Some("invalid".to_string());
    assert!(update_product(&mut store, id, update_payload).is_err());

    update_payload = no_change();
    update_payload.price_refill = Some(-500);
    assert!(update_product(&mut store, id, update_payload).is_err());
}

#[test]
fn test_delete_product() {
    let mut store = Store::new();
    let id = create_product(&mut store, water("Água 20L")).unwrap();
    assert!(get_product_by_id(&store, id).is_ok());

    delete_product(&mut store, id).unwrap();
    assert!(get_product_by_id(&store, id).is_err());

    assert!(delete_product(&mut store, 99999).is_err());
}

#[test]
fn create_product_reports_each_refusal() {
    let mut store = Store::new();
    assert_eq!(
        create_product(&mut store, water("")),
        Err(AppError::Validation("Product name cannot be empty".to_string()))
    );
    let mut unknown = water("Carvão");
    unknown.category = "wood".to_string();
    assert_eq!(
        create_product(&mut store, unknown),
        Err(AppError::Validation("Invalid product type".to_string()))
    );
    let mut negative = water("Carvão");
    negative.price_full = -1;
    assert_eq!(
        create_product(&mut store, negative),
        Err(AppError::Validation("Prices cannot be negative".to_string()))
    );
    let mut empty_and_negative = water("");
    empty_and_negative.price_full = -1;
    assert_eq!(
        create_product(&mut store, empty_and_negative),
        Err(AppError::Validation("Product name cannot be empty".to_string()))
    );
}

#[test]
fn create_product_accepts_every_category_and_zero_prices() {
    let mut store = Store::new();
    for (n, category) in ["water", "gas", "coal", "other"].iter().enumerate() {
        let mut payload = water("Produto");
        payload.category = category.to_string();
        payload.price_refill = 0;
        payload.price_full = 0;
        assert_eq!(create_product(&mut store, payload), Ok(n as i64 + 1));
    }
    assert_eq!(store.products().len(), 4);
}

#[test]
fn created_product_reads_back_as_given() {
    let mut store = Store::new();
    let payload = CreateProductPayload {
        name: "Gás 13kg".to_string(),
        description: Some("Botijão".to_string()),
        category: "gas".to_string(),
        price_refill: 4500,
        price_full: 8000,
        stock_full: Some(7),
        stock_empty: Some(3),
        expiry_month: Some(12),
        expiry_year: Some(2030),
    };
    let id = create_product(&mut store, payload).unwrap();
    let product = get_product_by_id(&store, id).unwrap();
    assert_eq!(product.id, id);
    assert_eq!(product.name, "Gás 13kg");
    assert_eq!(product.description, Some("Botijão".to_string()));
    assert_eq!(product.category, "gas");
    assert_eq!(product.price_refill, 4500);
    assert_eq!(product.price_full, 8000);
    assert_eq!(product.stock_full, 7);
    assert_eq!(product.stock_empty, 3);
    assert_eq!(product.expiry_month, Some(12));
    assert_eq!(product.expiry_year, Some(2030));
}

#[test]
fn absent_stock_counts_start_at_zero() {
    let mut store = Store::new();
    let id = create_product(&mut store, water("Água 20L")).unwrap();
    let product = get_product_by_id(&store, id).unwrap();
    assert_eq!(product.stock_full, 0);
    assert_eq!(product.stock_empty, 0);
}

#[test]
fn update_without_fields_changes_nothing() {
    let mut store = Store::new();
    let mut payload = water("Água 20L");
    payload.description = Some("Água mineral".to_string());
    payload.stock_full = Some(40);
    let id = create_product(&mut store, payload).unwrap();
    let before = get_product_by_id(&store, id).unwrap();

    assert_eq!(update_product(&mut store, id, no_change()), Ok(()));

    assert_eq!(get_product_by_id(&store, id).unwrap(), before);
    assert_eq!(store.products().len(), 1);
}

#[test]
fn update_of_missing_product_is_not_found() {
    let mut store = Store::new();
    assert_eq!(
        update_product(&mut store, 42, no_change()),
        Err(AppError::NotFound("Product with id 42 not found".to_string()))
    );
    assert_eq!(
        get_product_by_id(&store, -7),
        Err(AppError::NotFound("Product with id -7 not found".to_string()))
    );
    assert_eq!(
        delete_product(&mut store, 0),
        Err(AppError::NotFound("Product with id 0 not found".to_string()))
    );
}

#[test]
fn update_reports_each_refusal_and_changes_nothing() {
    let mut store = Store::new();
    let id = create_product(&mut store, water("Água 20L")).unwrap();

    let mut bad = no_change();
    bad.price_full = Some(-1);
    bad.stock_full = Some(9);
    assert_eq!(
        update_product(&mut store, id, bad),
        Err(AppError::Validation("Price cannot be negative".to_string()))
    );
    let mut bad = no_change();
    bad.name = Some(String::new());
    assert_eq!(
        update_product(&mut store, id, bad),
        Err(AppError::Validation("Product name cannot be empty".to_string()))
    );
    let mut bad = no_change();
    bad.category = Some("Water".to_string());
    assert_eq!(
        update_product(&mut store, id, bad),
        Err(AppError::Validation("Invalid product type".to_string()))
    );
    let product = get_product_by_id(&store, id).unwrap();
    assert_eq!(product.stock_full, 0);
    assert_eq!(product.name, "Água 20L");
}

#[test]
fn update_writes_only_the_fields_present() {
    let mut store = Store::new();
    let mut payload = water("Água 20L");
    payload.description = Some("Galão".to_string());
    payload.expiry_month = Some(6);
    let id = create_product(&mut store, payload).unwrap();

    let mut change = no_change();
    change.category = Some("other".to_string());
    change.stock_empty = Some(12);
    change.expiry_year = Some(2031);
    update_product(&mut store, id, change).unwrap();

    let product = get_product_by_id(&store, id).unwrap();
    assert_eq!(product.name, "Água 20L");
    assert_eq!(product.description, Some("Galão".to_string()));
    assert_eq!(product.category, "other");
    assert_eq!(product.price_refill, 500);
    assert_eq!(product.price_full, 1000);
    assert_eq!(product.stock_full, 0);
    assert_eq!(product.stock_empty, 12);
    assert_eq!(product.expiry_month, Some(6));
    assert_eq!(product.expiry_year, Some(2031));
}

#[test]
fn products_are_listed_by_name() {
    let mut store = Store::new();
    for name in ["Gás 13kg", "Carvão 5kg", "Água 20L", "Agua 10L", "Carvão"] {
        create_product(&mut store, water(name)).unwrap();
    }
    let names: Vec<String> =
        get_all_products(&store).unwrap().into_iter().map(|p| p.name).collect();
    assert_eq!(names, vec!["Agua 10L", "Carvão", "Carvão 5kg", "Gás 13kg", "Água 20L"]);
}

#[test]
fn identifiers_count_up_from_the_largest_in_use() {
    let mut store = Store::new();
    assert_eq!(create_product(&mut store, water("A")), Ok(1));
    assert_eq!(create_product(&mut store, water("B")), Ok(2));
    assert_eq!(create_product(&mut store, water("C")), Ok(3));
    delete_product(&mut store, 2).unwrap();
    assert_eq!(create_product(&mut store, water("D")), Ok(4));
    let ids: Vec<i64> = store.products().iter().map(|p| p.id).collect();
    assert_eq!(ids, vec![1, 3, 4]);
}
