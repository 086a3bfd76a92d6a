//! Receipts: an order as a self-contained page of HTML.

use vstd::prelude::*;
use vstd::string::*;
use crate::models::{OrderItemWithProduct, OrderWithCustomer, OrderWithItems};
use crate::text::{decimal_text, integer_to_string, money_text, money_to_string};

verus! {

/// The document up to the number in its title.
pub const RECEIPT_OPENING: &'static str = "\n\
    <!DOCTYPE html>\n\
    <html>\n\
    <head>\n    \
    <meta charset=\"UTF-8\">\n    \
    <title>Recibo #";

/// From the title to the number in the heading, with the style sheet.
pub const RECEIPT_AFTER_TITLE: &'static str = "</title>\n    \
    <style>\n        \
    body {\n            \
    font-family: Arial, sans-serif;\n            \
    max-width: 800px;\n            \
    margin: 0 auto;\n            \
    padding: 20px;\n        \
    }\n        \
    .header {\n            \
    text-align: center;\n            \
    border-bottom: 2px solid #333;\n            \
    padding-bottom: 20px;\n            \
    margin-bottom: 20px;\n        \
    }\n        \
    .info {\n            \
    margin-bottom: 20px;\n        \
    }\n        \
    table {\n            \
    width: 100%;\n            \
    border-collapse: collapse;\n            \
    margin-bottom: 20px;\n        \
    }\n        \
    th, td {\n            \
    padding: 10px;\n            \
    text-align: left;\n            \
    border-bottom: 1px solid #ddd;\n        \
    }\n        \
    th {\n            \
    background-color: #f2f2f2;\n        \
    }\n        \
    .total {\n            \
    text-align: right;\n            \
    font-size: 1.2em;\n            \
    font-weight: bold;\n            \
    margin-top: 20px;\n        \
    }\n        \
    .footer {\n            \
    margin-top: 40px;\n            \
    text-align: center;\n            \
    font-size: 0.9em;\n            \
    color: #666;\n        \
    }\n    \
    </style>\n\
    </head>\n\
    <body>\n    \
    <div class=\"header\">\n        \
    <h1>RECIBO DE VENDA</h1>\n        \
    <p>Pedido #";

/// From the heading to the customer's name.
pub const RECEIPT_AFTER_NUMBER: &'static str = "</p>\n    \
    </div>\n    \
    \n    \
    <div class=\"info\">\n        \
    <p><strong>Cliente:</strong> ";

/// From the customer's name to the date.
pub const RECEIPT_AFTER_CUSTOMER: &'static str = "</p>\n        \
    <p><strong>Data:</strong> ";

/// From the date to the first line of the table.
pub const RECEIPT_AFTER_DATE: &'static str = "</p>\n    \
    </div>\n    \
    \n    \
    <table>\n        \
    <thead>\n            \
    <tr>\n                \
    <th>Produto</th>\n                \
    <th>Qtd</th>\n                \
    <th>Preço Unit.</th>\n                \
    <th>Subtotal</th>\n            \
    </tr>\n        \
    </thead>\n        \
    <tbody>\n            ";

/// From the last line of the table to the total.
pub const RECEIPT_AFTER_LINES: &'static str = "\n        \
    </tbody>\n    \
    </table>\n    \
    \n    \
    <div class=\"total\">\n        \
    <p>TOTAL: R$ ";

/// The document after the total.
pub const RECEIPT_CLOSING: &'static str = "</p>\n    \
    </div>\n    \
    \n    \
    <div class=\"footer\">\n        \
    <p>Obrigado pela preferência!</p>\n    \
    </div>\n\
    </body>\n\
    </html>\n        ";

/// The name printed for an order without a customer.
pub const ANONYMOUS_CUSTOMER: &'static str = "Consumidor Final";

/// The mark printed after the product of a line with a returned bottle.
pub const RETURNED_BOTTLE_MARK: &'static str = "(com casco)";

/// The row of the receipt's table for one line: product, mark of a
/// returned bottle, quantity, unit price and amount.
pub open spec fn line_text(item: OrderItemWithProduct) -> Seq<char> {
    "<tr><td>"@ + item.product_name@ + " "@ + (if item.returned_bottle {
        RETURNED_BOTTLE_MARK@
    } else {
        Seq::empty()
    }) + "</td><td>"@ + decimal_text(item.quantity as int) + "</td><td>R$ "@ + money_text(
        item.unit_price as int,
    ) + "</td><td>R$ "@ + money_text(item.quantity * item.unit_price) + "</td></tr>"@
}

/// The rows of the receipt's table, one after the other.
pub open spec fn lines_text(items: Seq<OrderItemWithProduct>) -> Seq<char>
    decreases items.len(),
{
    if items.len() == 0 {
        Seq::empty()
    } else {
        lines_text(items.drop_last()) + line_text(items.last())
    }
}

/// The name printed for the customer of an order.
pub open spec fn customer_text(name: Option<String>) -> Seq<char> {
    match name {
        Some(name) => name@,
        None => ANONYMOUS_CUSTOMER@,
    }
}

/// The receipt of an order: its number, customer, date, lines and total.
pub open spec fn receipt_text(order: OrderWithCustomer, items: Seq<OrderItemWithProduct>) -> Seq<
    char,
> {
    RECEIPT_OPENING@ + decimal_text(order.id as int) + RECEIPT_AFTER_TITLE@ + decimal_text(
        order.id as int,
    ) + RECEIPT_AFTER_NUMBER@ + customer_text(order.customer_name) + RECEIPT_AFTER_CUSTOMER@
        + order.created_at.text() + RECEIPT_AFTER_DATE@ + lines_text(items) + RECEIPT_AFTER_LINES@
        + money_text(order.total as int) + RECEIPT_CLOSING@
}

/// The product of two 64-bit integers lies within 128 bits.
pub proof fn lemma_amount_fits(a: int, b: int)
    requires
        i64::MIN <= a <= i64::MAX,
        i64::MIN <= b <= i64::MAX,
    ensures
        i128::MIN <= a * b <= i128::MAX,
{
    assert(-0x4000_0000_0000_0000_0000_0000_0000_0000 <= a * b
        <= 0x4000_0000_0000_0000_0000_0000_0000_0000) by (nonlinear_arith)
        requires
            -0x8000_0000_0000_0000 <= a <= 0x8000_0000_0000_0000,
            -0x8000_0000_0000_0000 <= b <= 0x8000_0000_0000_0000,
    ;
}

/// Writes the row of the table for one line.
pub fn render_line(item: &OrderItemWithProduct) -> (s: String)
    ensures
        s@ == line_text(*item),
{
    proof {
        lemma_amount_fits(item.quantity as int, item.unit_price as int);
    }
    let amount: i128 = item.quantity as i128 * item.unit_price as i128;
    let mark: &str = if item.returned_bottle {
        RETURNED_BOTTLE_MARK
    } else {
        ""
    };
    proof {
        reveal_strlit("");
        assert(""@ =~= Seq::<char>::empty());
    }
    let s: String = String::from_str("<tr><td>").concat(item.product_name.as_str()).concat(
        " ",
    ).concat(mark).concat("</td><td>").concat(
        integer_to_string(item.quantity as i128).as_str(),
    ).concat("</td><td>R$ ").concat(money_to_string(item.unit_price as i128).as_str()).concat(
        "</td><td>R$ ",
    ).concat(money_to_string(amount).as_str()).concat("</td></tr>");
    assert(s@ =~= line_text(*item));
    s
}

/// Writes the receipt of an order.
pub fn render_receipt(order: &OrderWithItems) -> (s: String)
    ensures
        s@ == receipt_text(order.order, order.items@),
{
    let mut rows: String = String::new();
    let mut k: usize = 0;
    assert(order.items@.take(0) =~= Seq::empty());
    while k < order.items.len()
        invariant
            k <= order.items.len(),
            rows@ == lines_text(order.items@.take(k as int)),
        decreases order.items.len() - k,
    {
        proof {
            let next = order.items@.take(k + 1);
            assert(next.drop_last() =~= order.items@.take(k as int));
            assert(next.last() == order.items@[k as int]);
        }
        rows.append(render_line(&order.items[k]).as_str());
        k = k + 1;
    }
    assert(order.items@.take(k as int) =~= order.items@);
    let number: String = integer_to_string(order.order.id as i128);
    let customer: &str = match &order.order.customer_name {
        Some(name) => name.as_str(),
        None => ANONYMOUS_CUSTOMER,
    };
    let s: String = String::from_str(RECEIPT_OPENING).concat(number.as_str()).concat(
        RECEIPT_AFTER_TITLE,
    ).concat(number.as_str()).concat(RECEIPT_AFTER_NUMBER).concat(customer).concat(
        RECEIPT_AFTER_CUSTOMER,
    ).concat(order.order.created_at.render().as_str()).concat(RECEIPT_AFTER_DATE).concat(
        rows.as_str(),
    ).concat(RECEIPT_AFTER_LINES).concat(
        money_to_string(order.order.total as i128).as_str(),
    ).concat(RECEIPT_CLOSING);
    assert(s@ =~= receipt_text(order.order, order.items@));
    s
}

} // verus!
