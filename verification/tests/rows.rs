use freshbooks_mcp::json::{Json, JsonNumber};
use freshbooks_mcp::rows::{fmt_client_row, fmt_expense_row, fmt_invoice_row, fmt_payment_row};
use freshbooks_mcp::text::decimal_string;

fn s(v: &str) -> Json {
    Json::Str(v.to_string())
}

fn n(v: u64) -> Json {
    Json::Number(JsonNumber::UInt(v))
}

fn obj(fields: Vec<(&str, Json)>) -> Json {
    Json::Object(fields.into_iter().map(|(k, v)| (k.to_string(), v)).collect())
}

#[test]
fn decimal_of_numbers() {
    assert_eq!(decimal_string(0), "0");
    assert_eq!(decimal_string(7), "7");
    assert_eq!(decimal_string(1234567), "1234567");
    assert_eq!(decimal_string(u64::MAX), u64::MAX.to_string());
}

#[test]
fn client_row_pads_columns() {
    let c = obj(vec![
        ("id", n(42)),
        ("fname", s("Ada")),
        ("lname", s("Lovelace")),
        ("email", s("ada@example.com")),
        ("organization", s("Engines Ltd")),
    ]);
    let expected = format!(
        "{:<8} {} {:<20} {:<32} {}",
        42, "Ada", "Lovelace", "ada@example.com", "Engines Ltd"
    );
    assert_eq!(fmt_client_row(&c), expected);
}

#[test]
fn client_row_of_empty_object() {
    let c = obj(vec![]);
    assert_eq!(fmt_client_row(&c), format!("{:<8} {} {:<20} {:<32} {}", 0, "", "", "", ""));
}

#[test]
fn client_row_keeps_long_values_whole() {
    let long = "a-very-long-last-name-that-overflows";
    let c = obj(vec![("id", n(123456789)), ("lname", s(long))]);
    assert_eq!(fmt_client_row(&c), format!("123456789  {long} {:<32} ", ""));
}

#[test]
fn client_row_counts_characters_not_bytes() {
    let c = obj(vec![("lname", s("Müller"))]);
    assert_eq!(fmt_client_row(&c), format!("{:<8} {} {:<20} {:<32} {}", 0, "", "Müller", "", ""));
}

#[test]
fn client_row_ignores_non_integer_id() {
    let c = obj(vec![("id", s("42")), ("fname", n(3))]);
    assert_eq!(fmt_client_row(&c), format!("{:<8} {} {:<20} {:<32} {}", 0, "", "", "", ""));
}

#[test]
fn invoice_row_with_amount_object() {
    let inv = obj(vec![
        ("invoiceid", n(9)),
        ("invoice_number", s("0000123")),
        ("v3_status", s("paid")),
        ("display_status", s("ignored")),
        ("amount", obj(vec![("amount", s("100.00")), ("code", s("USD"))])),
        ("current_organization", s("Acme")),
        ("create_date", s("2024-01-02")),
    ]);
    let expected = format!(
        "{:<8} #{:<8} {:<12} {:<16} {:<24} {}",
        9, "0000123", "paid", "100.00 USD", "Acme", "2024-01-02"
    );
    assert_eq!(fmt_invoice_row(&inv), expected);
}

#[test]
fn invoice_row_fallbacks() {
    let inv = obj(vec![
        ("display_status", s("draft")),
        ("amount", s("12.50")),
        ("fname", s("Bob")),
    ]);
    let expected = format!(
        "{:<8} #{:<8} {:<12} {:<16} {:<24} {}",
        0, "", "draft", "12.50", "Bob", ""
    );
    assert_eq!(fmt_invoice_row(&inv), expected);
}

#[test]
fn invoice_row_amount_defaults() {
    let inv = obj(vec![("amount", obj(vec![]))]);
    let expected = format!("{:<8} #{:<8} {:<12} {:<16} {:<24} {}", 0, "", "", "0 ", "", "");
    assert_eq!(fmt_invoice_row(&inv), expected);
    let inv = obj(vec![("amount", n(5))]);
    let expected = format!("{:<8} #{:<8} {:<12} {:<16} {:<24} {}", 0, "", "", "0", "", "");
    assert_eq!(fmt_invoice_row(&inv), expected);
}

#[test]
fn expense_row_columns() {
    let e = obj(vec![
        ("id", n(77)),
        ("amount", obj(vec![("amount", s("9.99")), ("code", s("CAD"))])),
        ("vendor", s("Coffee Shop")),
        ("date", s("2024-03-04")),
        ("notes", s("team meeting")),
    ]);
    let expected = format!(
        "{:<8} {:<16} {:<24} {:<12} {}",
        77, "9.99 CAD", "Coffee Shop", "2024-03-04", "team meeting"
    );
    assert_eq!(fmt_expense_row(&e), expected);
}

#[test]
fn payment_row_columns() {
    let p = obj(vec![
        ("id", n(5)),
        ("amount", obj(vec![("amount", s("50.00")), ("code", s("ZAR"))])),
        ("invoiceid", n(31)),
        ("date", s("2024-05-06")),
        ("type", s("Check")),
    ]);
    let expected = format!(
        "{:<8} {:<16} invoice:{:<8} {:<12} {}",
        5, "50.00 ZAR", 31, "2024-05-06", "Check"
    );
    assert_eq!(fmt_payment_row(&p), expected);
}
