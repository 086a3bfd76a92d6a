//! The records of the catalogue, the registry, the order book, the stock
//! ledger and the accounts, and the payloads that create and change them.
//!
//! Money is held in whole centavos. A copy made by `clone` equals its source.

use vstd::prelude::*;
use vstd::string::*;
use crate::table::Row;
use crate::text::text_is;
use crate::timestamp::Timestamp;

verus! {

/// A copy of an optional text.
pub fn clone_text(text: &Option<String>) -> (copy: Option<String>)
    ensures
        copy == *text,
{
    match text {
        Some(s) => Some(s.clone()),
        None => None,
    }
}

/// A catalogue entry. Prices are in centavos; the stock counts full and empty units.
#[derive(Debug, PartialEq, Eq)]
pub struct Product {
    pub id: i64,
    pub name: String,
    pub description: Option<String>,
    pub category: String,
    pub price_refill: i64,
    pub price_full: i64,
    pub stock_full: i64,
    pub stock_empty: i64,
    pub expiry_month: Option<i64>,
    pub expiry_year: Option<i64>,
}

impl Clone for Product {
    fn clone(&self) -> (copy: Self)
        ensures
            copy == *self,
    {
        Product {
            id: self.id,
            name: self.name.clone(),
            description: clone_text(&self.description),
            category: self.category.clone(),
            price_refill: self.price_refill,
            price_full: self.price_full,
            stock_full: self.stock_full,
            stock_empty: self.stock_empty,
            expiry_month: self.expiry_month,
            expiry_year: self.expiry_year,
        }
    }
}

/// What a caller supplies to add a product; absent stock counts start at zero.
#[derive(Debug, PartialEq, Eq)]
pub struct CreateProductPayload {
    pub name: String,
    pub description: Option<String>,
    pub category: String,
    pub price_refill: i64,
    pub price_full: i64,
    pub stock_full: Option<i64>,
    pub stock_empty: Option<i64>,
    pub expiry_month: Option<i64>,
    pub expiry_year: Option<i64>,
}

impl Clone for CreateProductPayload {
    fn clone(&self) -> (copy: Self)
        ensures
            copy == *self,
    {
        CreateProductPayload {
            name: self.name.clone(),
            description: clone_text(&self.description),
            category: self.category.clone(),
            price_refill: self.price_refill,
            price_full: self.price_full,
            stock_full: self.stock_full,
            stock_empty: self.stock_empty,
            expiry_month: self.expiry_month,
            expiry_year: self.expiry_year,
        }
    }
}

/// A partial change of a product: only the fields that are present are written.
#[derive(Debug, PartialEq, Eq)]
pub struct UpdateProductPayload {
    pub name: Option<String>,
    pub description: Option<String>,
    pub category: Option<String>,
    pub price_refill: Option<i64>,
    pub price_full: Option<i64>,
    pub stock_full: Option<i64>,
    pub stock_empty: Option<i64>,
    pub expiry_month: Option<i64>,
    pub expiry_year: Option<i64>,
}

impl Clone for UpdateProductPayload {
    fn clone(&self) -> (copy: Self)
        ensures
            copy == *self,
    {
        UpdateProductPayload {
            name: clone_text(&self.name),
            description: clone_text(&self.description),
            category: clone_text(&self.category),
            price_refill: self.price_refill,
            price_full: self.price_full,
            stock_full: self.stock_full,
            stock_empty: self.stock_empty,
            expiry_month: self.expiry_month,
            expiry_year: self.expiry_year,
        }
    }
}

/// A registered customer.
#[derive(Debug, PartialEq, Eq)]
pub struct Customer {
    pub id: i64,
    pub name: String,
    pub phone: Option<String>,
    pub address: Option<String>,
    pub notes: Option<String>,
}

impl Clone for Customer {
    fn clone(&self) -> (copy: Self)
        ensures
            copy == *self,
    {
        Customer {
            id: self.id,
            name: self.name.clone(),
            phone: clone_text(&self.phone),
            address: clone_text(&self.address),
            notes: clone_text(&self.notes),
        }
    }
}

/// What a caller supplies to register a customer.
#[derive(Debug, PartialEq, Eq)]
pub struct CreateCustomerPayload {
    pub name: String,
    pub phone: Option<String>,
    pub address: Option<String>,
    pub notes: Option<String>,
}

impl Clone for CreateCustomerPayload {
    fn clone(&self) -> (copy: Self)
        ensures
            copy == *self,
    {
        CreateCustomerPayload {
            name: self.name.clone(),
            phone: clone_text(&self.phone),
            address: clone_text(&self.address),
            notes: clone_text(&self.notes),
        }
    }
}

/// A partial change of a customer: only the fields that are present are written.
#[derive(Debug, PartialEq, Eq)]
pub struct UpdateCustomerPayload {
    pub name: Option<String>,
    pub phone: Option<String>,
    pub address: Option<String>,
    pub notes: Option<String>,
}

impl Clone for UpdateCustomerPayload {
    fn clone(&self) -> (copy: Self)
        ensures
            copy == *self,
    {
        UpdateCustomerPayload {
            name: clone_text(&self.name),
            phone: clone_text(&self.phone),
            address: clone_text(&self.address),
            notes: clone_text(&self.notes),
        }
    }
}

/// An order header. The total is in centavos.
#[derive(Debug, PartialEq, Eq)]
pub struct Order {
    pub id: i64,
    pub customer_id: Option<i64>,
    pub total: i64,
    pub created_at: Timestamp,
}

impl Clone for Order {
    fn clone(&self) -> (copy: Self)
        ensures
            copy == *self,
    {
        Order {
            id: self.id,
            customer_id: self.customer_id,
            total: self.total,
            created_at: self.created_at,
        }
    }
}

/// An order header together with the name of its customer, where there is one.
#[derive(Debug, PartialEq, Eq)]
pub struct OrderWithCustomer {
    pub id: i64,
    pub customer_id: Option<i64>,
    pub customer_name: Option<String>,
    pub total: i64,
    pub created_at: Timestamp,
}

impl Clone for OrderWithCustomer {
    fn clone(&self) -> (copy: Self)
        ensures
            copy == *self,
    {
        OrderWithCustomer {
            id: self.id,
            customer_id: self.customer_id,
            customer_name: clone_text(&self.customer_name),
            total: self.total,
            created_at: self.created_at,
        }
    }
}

/// One line of an order. The unit price is in centavos.
#[derive(Debug, PartialEq, Eq)]
pub struct OrderItem {
    pub id: i64,
    pub order_id: i64,
    pub product_id: i64,
    pub quantity: i64,
    pub returned_bottle: bool,
    pub unit_price: i64,
}

impl Clone for OrderItem {
    fn clone(&self) -> (copy: Self)
        ensures
            copy == *self,
    {
        OrderItem {
            id: self.id,
            order_id: self.order_id,
            product_id: self.product_id,
            quantity: self.quantity,
            returned_bottle: self.returned_bottle,
            unit_price: self.unit_price,
        }
    }
}

/// One requested line of a new order.
#[derive(Debug, PartialEq, Eq)]
pub struct OrderItemPayload {
    pub product_id: i64,
    pub quantity: i64,
    pub returned_bottle: bool,
    pub unit_price: i64,
}

impl Clone for OrderItemPayload {
    fn clone(&self) -> (copy: Self)
        ensures
            copy == *self,
    {
        OrderItemPayload {
            product_id: self.product_id,
            quantity: self.quantity,
            returned_bottle: self.returned_bottle,
            unit_price: self.unit_price,
        }
    }
}

/// A new order: an optional customer and the requested lines.
#[derive(Debug, PartialEq, Eq)]
pub struct CreateOrderPayload {
    pub customer_id: Option<i64>,
    pub items: Vec<OrderItemPayload>,
}

/// An administrative change of an order: its timestamp, written `YYYY-MM-DD HH:MM:SS`.
#[derive(Debug, PartialEq, Eq)]
pub struct UpdateOrderPayload {
    pub created_at: Option<String>,
}

impl Clone for UpdateOrderPayload {
    fn clone(&self) -> (copy: Self)
        ensures
            copy == *self,
    {
        UpdateOrderPayload {
            created_at: clone_text(&self.created_at),
        }
    }
}

/// An order line together with the name of its product.
#[derive(Debug, PartialEq, Eq)]
pub struct OrderItemWithProduct {
    pub id: i64,
    pub order_id: i64,
    pub product_id: i64,
    pub product_name: String,
    pub quantity: i64,
    pub returned_bottle: bool,
    pub unit_price: i64,
}

impl Clone for OrderItemWithProduct {
    fn clone(&self) -> (copy: Self)
        ensures
            copy == *self,
    {
        OrderItemWithProduct {
            id: self.id,
            order_id: self.order_id,
            product_id: self.product_id,
            product_name: self.product_name.clone(),
            quantity: self.quantity,
            returned_bottle: self.returned_bottle,
            unit_price: self.unit_price,
        }
    }
}

/// An order with all of its lines.
#[derive(Debug, PartialEq, Eq)]
pub struct OrderWithItems {
    pub order: OrderWithCustomer,
    pub items: Vec<OrderItemWithProduct>,
}

/// The kind of a ledger entry: stock received, stock given out, or a correction.
#[derive(Clone, Copy, Debug, PartialEq, Eq, Structural)]
pub enum MovementType {
    In,
    Out,
    Adjust,
}

/// One entry of the stock ledger. Entries of kind `In` and `Out` made by
/// stock operations carry a positive quantity; a correction may be signed.
#[derive(Debug, PartialEq, Eq)]
pub struct StockMovement {
    pub id: i64,
    pub product_id: i64,
    pub movement_type: MovementType,
    pub quantity: i64,
    pub created_at: Timestamp,
}

impl Clone for StockMovement {
    fn clone(&self) -> (copy: Self)
        ensures
            copy == *self,
    {
        StockMovement {
            id: self.id,
            product_id: self.product_id,
            movement_type: self.movement_type,
            quantity: self.quantity,
            created_at: self.created_at,
        }
    }
}

/// A ledger entry together with the name of its product.
#[derive(Debug, PartialEq, Eq)]
pub struct StockMovementWithProduct {
    pub id: i64,
    pub product_id: i64,
    pub product_name: String,
    pub movement_type: MovementType,
    pub quantity: i64,
    pub created_at: Timestamp,
}

impl Clone for StockMovementWithProduct {
    fn clone(&self) -> (copy: Self)
        ensures
            copy == *self,
    {
        StockMovementWithProduct {
            id: self.id,
            product_id: self.product_id,
            product_name: self.product_name.clone(),
            movement_type: self.movement_type,
            quantity: self.quantity,
            created_at: self.created_at,
        }
    }
}

/// Sales of one product over a period: units sold and revenue in centavos.
#[derive(Debug, PartialEq, Eq)]
pub struct TopProduct {
    pub product_id: i64,
    pub product_name: String,
    pub total_quantity: i64,
    pub total_revenue: i64,
}

impl Clone for TopProduct {
    fn clone(&self) -> (copy: Self)
        ensures
            copy == *self,
    {
        TopProduct {
            product_id: self.product_id,
            product_name: self.product_name.clone(),
            total_quantity: self.total_quantity,
            total_revenue: self.total_revenue,
        }
    }
}

/// The figures of the dashboard. Amounts are in centavos.
#[derive(Debug, PartialEq, Eq)]
pub struct DashboardStats {
    pub sales_today: i64,
    pub sales_month: i64,
    pub critical_stock: Vec<Product>,
    pub top_products: Vec<TopProduct>,
    pub active_customers: i64,
}

/// An account, with the hash of its password.
#[derive(Debug, PartialEq, Eq)]
pub struct User {
    pub id: i64,
    pub username: String,
    pub password_hash: String,
    pub role: String,
    pub created_at: Timestamp,
    pub updated_at: Timestamp,
}

impl Clone for User {
    fn clone(&self) -> (copy: Self)
        ensures
            copy == *self,
    {
        User {
            id: self.id,
            username: self.username.clone(),
            password_hash: self.password_hash.clone(),
            role: self.role.clone(),
            created_at: self.created_at,
            updated_at: self.updated_at,
        }
    }
}

/// The identity of an account without its credential.
#[derive(Debug, PartialEq, Eq)]
pub struct SafeUser {
    pub id: i64,
    pub username: String,
    pub role: String,
}

impl Clone for SafeUser {
    fn clone(&self) -> (copy: Self)
        ensures
            copy == *self,
    {
        SafeUser {
            id: self.id,
            username: self.username.clone(),
            role: self.role.clone(),
        }
    }
}

/// An account as shown in listings, without its credential.
#[derive(Debug, PartialEq, Eq)]
pub struct UserListItem {
    pub id: i64,
    pub username: String,
    pub role: String,
    pub created_at: Timestamp,
}

impl Clone for UserListItem {
    fn clone(&self) -> (copy: Self)
        ensures
            copy == *self,
    {
        UserListItem {
            id: self.id,
            username: self.username.clone(),
            role: self.role.clone(),
            created_at: self.created_at,
        }
    }
}

/// What a caller supplies to create an account.
#[derive(Debug, PartialEq, Eq)]
pub struct CreateUserPayload {
    pub username: String,
    pub password: String,
    pub role: String,
}

impl Clone for CreateUserPayload {
    fn clone(&self) -> (copy: Self)
        ensures
            copy == *self,
    {
        CreateUserPayload {
            username: self.username.clone(),
            password: self.password.clone(),
            role: self.role.clone(),
        }
    }
}

/// A partial change of an account: only the fields that are present are written.
#[derive(Debug, PartialEq, Eq)]
pub struct UpdateUserPayload {
    pub username: Option<String>,
    pub password: Option<String>,
    pub role: Option<String>,
}

impl Clone for UpdateUserPayload {
    fn clone(&self) -> (copy: Self)
        ensures
            copy == *self,
    {
        UpdateUserPayload {
            username: clone_text(&self.username),
            password: clone_text(&self.password),
            role: clone_text(&self.role),
        }
    }
}

impl Row for Product {
    open spec fn row_id(&self) -> i64 {
        self.id
    }

    fn id(&self) -> (id: i64) {
        self.id
    }
}

impl Row for Customer {
    open spec fn row_id(&self) -> i64 {
        self.id
    }

    fn id(&self) -> (id: i64) {
        self.id
    }
}

impl Row for Order {
    open spec fn row_id(&self) -> i64 {
        self.id
    }

    fn id(&self) -> (id: i64) {
        self.id
    }
}

impl Row for OrderItem {
    open spec fn row_id(&self) -> i64 {
        self.id
    }

    fn id(&self) -> (id: i64) {
        self.id
    }
}

impl Row for StockMovement {
    open spec fn row_id(&self) -> i64 {
        self.id
    }

    fn id(&self) -> (id: i64) {
        self.id
    }
}

impl Row for User {
    open spec fn row_id(&self) -> i64 {
        self.id
    }

    fn id(&self) -> (id: i64) {
        self.id
    }
}

/// The product categories: `water`, `gas`, `coal`, `other`.
pub open spec fn is_category(s: Seq<char>) -> bool {
    s == "water"@ || s == "gas"@ || s == "coal"@ || s == "other"@
}

/// The roles of an account: `admin`, `operator`.
pub open spec fn is_role(s: Seq<char>) -> bool {
    s == "admin"@ || s == "operator"@
}

/// The name of a kind of ledger entry: `IN`, `OUT` or `ADJUST`.
pub open spec fn movement_name(kind: MovementType) -> Seq<char> {
    match kind {
        MovementType::In => "IN"@,
        MovementType::Out => "OUT"@,
        MovementType::Adjust => "ADJUST"@,
    }
}

/// The kind of ledger entry that a text names, if it names one.
pub open spec fn movement_named(s: Seq<char>) -> Option<MovementType> {
    if s == "IN"@ {
        Some(MovementType::In)
    } else if s == "OUT"@ {
        Some(MovementType::Out)
    } else if s == "ADJUST"@ {
        Some(MovementType::Adjust)
    } else {
        None
    }
}

/// A product as the catalogue may hold it: named, of a known category,
/// with prices that are not negative.
pub open spec fn valid_product(p: Product) -> bool {
    &&& p.name@.len() > 0
    &&& is_category(p.category@)
    &&& p.price_refill >= 0
    &&& p.price_full >= 0
}

/// A customer as the registry may hold it: named.
pub open spec fn valid_customer(c: Customer) -> bool {
    c.name@.len() > 0
}

/// An account as the store may hold it: named, with a known role.
pub open spec fn valid_user(u: User) -> bool {
    u.username@.len() > 0 && is_role(u.role@)
}

/// Whether a text names a product category.
pub fn category_known(s: &String) -> (b: bool)
    ensures
        b == is_category(s@),
{
    text_is(s, "water") || text_is(s, "gas") || text_is(s, "coal") || text_is(s, "other")
}

/// Whether a text names a role.
pub fn role_known(s: &String) -> (b: bool)
    ensures
        b == is_role(s@),
{
    text_is(s, "admin") || text_is(s, "operator")
}

impl MovementType {
    /// The name of the kind: `IN`, `OUT` or `ADJUST`.
    pub fn as_str(&self) -> (s: &'static str)
        ensures
            s@ == movement_name(*self),
    {
        match self {
            MovementType::In => "IN",
            MovementType::Out => "OUT",
            MovementType::Adjust => "ADJUST",
        }
    }

    /// The kind that a text names, if it names one.
    pub fn parse(s: &String) -> (kind: Option<MovementType>)
        ensures
            kind == movement_named(s@),
    {
        if text_is(s, "IN") {
            Some(MovementType::In)
        } else if text_is(s, "OUT") {
            Some(MovementType::Out)
        } else if text_is(s, "ADJUST") {
            Some(MovementType::Adjust)
        } else {
            None
        }
    }
}

} // verus!
