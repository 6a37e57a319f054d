use invoice_manager::models::InvoiceLineItem;
use invoice_manager::money::{format_cents, format_money_myriadths, invoice_total_myriadths,
    line_amount_myriadths};
use invoice_manager::text::parse_fixed2;

fn chars(s: &str) -> Vec<char> {
    s.chars().collect()
}

fn item(id: i32, hours_centi: u64) -> InvoiceLineItem {
    InvoiceLineItem { id, invoice_id: 1, description: String::new(), hours_centi }
}

#[test]
fn parse_accepts_plain_and_fractional_amounts() {
    assert_eq!(parse_fixed2(&chars("2.5")), Some(250));
    assert_eq!(parse_fixed2(&chars("2.50")), Some(250));
    assert_eq!(parse_fixed2(&chars("100")), Some(10000));
    assert_eq!(parse_fixed2(&chars("0.05")), Some(5));
    assert_eq!(parse_fixed2(&chars("0")), Some(0));
    assert_eq!(parse_fixed2(&chars("999999.99")), Some(99_999_999));
}

#[test]
fn parse_rejects_malformed_amounts() {
    assert_eq!(parse_fixed2(&chars("")), None);
    assert_eq!(parse_fixed2(&chars(".")), None);
    assert_eq!(parse_fixed2(&chars(".5")), None);
    assert_eq!(parse_fixed2(&chars("1.")), None);
    assert_eq!(parse_fixed2(&chars("1.234")), None);
    assert_eq!(parse_fixed2(&chars("1234567")), None);
    assert_eq!(parse_fixed2(&chars("12a")), None);
    assert_eq!(parse_fixed2(&chars("1.2.3")), None);
    assert_eq!(parse_fixed2(&chars("-1")), None);
}

#[test]
fn money_formatting() {
    assert_eq!(format_cents(0), "0.00");
    assert_eq!(format_cents(5000), "50.00");
    assert_eq!(format_cents(99_999_999), "999999.99");
    assert_eq!(format_cents(105), "1.05");
    assert_eq!(format_money_myriadths(0), "0.00");
    assert_eq!(format_money_myriadths(2_000_000), "200.00");
    assert_eq!(format_money_myriadths(2_500_000), "250.00");
    assert_eq!(format_money_myriadths(123_456), "12.34");
}

#[test]
fn line_amounts_are_exact() {
    // 2.5 hours at 100.00 per hour is exactly 250.00.
    assert_eq!(line_amount_myriadths(250, 10000), 2_500_000);
    // 0.01 hours at 0.01 per hour is one myriadth.
    assert_eq!(line_amount_myriadths(1, 1), 1);
}

#[test]
fn totals_sum_over_line_items() {
    let rate = 10000u64;  // 100.00 per hour
    let items = vec![item(1, 100), item(2, 250)];
    let total = invoice_total_myriadths(&items, rate);
    assert_eq!(total, 3_500_000);

    // Adding a 2.5 hour item at rate 100.00 grows the total by exactly
    // 250.00.
    let mut more = vec![item(1, 100), item(2, 250)];
    more.push(item(3, 250));
    let grown = invoice_total_myriadths(&more, rate);
    assert_eq!(grown - total, 2_500_000);
    assert_eq!(format_money_myriadths(grown - total), "250.00");
}

#[test]
fn empty_invoice_totals_zero() {
    let items: Vec<InvoiceLineItem> = Vec::new();
    assert_eq!(invoice_total_myriadths(&items, 10000), 0);
}
