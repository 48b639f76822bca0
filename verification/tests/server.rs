use freshbooks_mcp::api::ApiError;
use freshbooks_mcp::json::{Json, JsonNumber};
use freshbooks_mcp::params::{CreateClientParams, CreateExpenseParams, CreateInvoiceParams, UpdateClientParams};
use freshbooks_mcp::server::{
    auth_url_reply, check_create_client, collection_path, create_client_body, created_client_reply,
    created_expense_reply, created_invoice_reply, exchange_reply, expense_body, invoice_body,
    list_path, list_reply, page_params, record_json, record_path, render_list, render_search,
    search_path, search_reply, update_client_body, updated_client_reply, Resource, ToolReply,
};

fn s(v: &str) -> Json {
    Json::Str(v.to_string())
}

fn n(v: u64) -> Json {
    Json::Number(JsonNumber::UInt(v))
}

fn obj(fields: Vec<(&str, Json)>) -> Json {
    Json::Object(fields.into_iter().map(|(k, v)| (k.to_string(), v)).collect())
}

fn members(j: &Json) -> Vec<(String, &Json)> {
    match j {
        Json::Object(f) => f.iter().map(|(k, v)| (k.clone(), v)).collect(),
        _ => panic!("not an object"),
    }
}

fn text(j: &Json) -> &str {
    match j {
        Json::Str(t) => t,
        _ => panic!("not a string"),
    }
}

fn uint(j: &Json) -> u64 {
    match j {
        Json::Number(JsonNumber::UInt(u)) => *u,
        _ => panic!("not an integer"),
    }
}

fn answer(data: Json) -> Json {
    obj(vec![("response", obj(vec![("result", data)]))])
}

#[test]
fn page_defaults_and_cap() {
    assert_eq!(page_params(None, None), (1, 25));
    assert_eq!(page_params(Some(3), Some(50)), (3, 50));
    assert_eq!(page_params(Some(2), Some(500)), (2, 100));
    assert_eq!(page_params(None, Some(100)), (1, 100));
    assert_eq!(page_params(None, Some(0)), (1, 0));
}

#[test]
fn paths() {
    assert_eq!(
        list_path(Resource::Clients, "AbC12", 2, 25),
        "/accounting/account/AbC12/users/clients?page=2&per_page=25"
    );
    assert_eq!(
        list_path(Resource::Invoices, "x", 1, 100),
        "/accounting/account/x/invoices/invoices?page=1&per_page=100"
    );
    assert_eq!(
        list_path(Resource::Expenses, "x", 1, 25),
        "/accounting/account/x/expenses/expenses?page=1&per_page=25"
    );
    assert_eq!(
        list_path(Resource::Payments, "x", 4, 10),
        "/accounting/account/x/payments/payments?page=4&per_page=10"
    );
    assert_eq!(record_path(Resource::Clients, "x", 991), "/accounting/account/x/users/clients/991");
    assert_eq!(record_path(Resource::Invoices, "x", 5), "/accounting/account/x/invoices/invoices/5");
    assert_eq!(collection_path(Resource::Expenses, "x"), "/accounting/account/x/expenses/expenses");
    assert_eq!(
        search_path("x", "Acme & Co", 1, 25),
        "/accounting/account/x/users/clients?search[keyword]=Acme%20%26%20Co&page=1&per_page=25"
    );
}

#[test]
fn client_listing_text() {
    let data = answer(obj(vec![
        ("total", n(2)),
        ("pages", n(1)),
        (
            "clients",
            Json::Array(vec![
                obj(vec![("id", n(1)), ("fname", s("Ann")), ("lname", s("Lee"))]),
                obj(vec![("id", n(2)), ("organization", s("Org"))]),
            ]),
        ),
    ]));
    let mut expected = String::from("Clients (page 1/1, 2 total):\n\n");
    expected.push_str(&format!("{:<8} {:<21} {:<32} {}\n", "ID", "Name", "Email", "Organization"));
    expected.push_str(&"-".repeat(90));
    expected.push('\n');
    expected.push_str(&format!("{:<8} {} {:<20} {:<32} {}\n", 1, "Ann", "Lee", "", ""));
    expected.push_str(&format!("{:<8} {} {:<20} {:<32} {}\n", 2, "", "", "", "Org"));
    assert_eq!(render_list(Resource::Clients, &data, 1), expected);
}

#[test]
fn listing_without_records() {
    let data = obj(vec![]);
    let mut expected = String::from("Invoices (page 3/0, 0 total):\n\n");
    expected.push_str(&format!(
        "{:<8} {:<9} {:<12} {:<16} {:<24} {}\n",
        "ID", "Number", "Status", "Amount", "Customer", "Date"
    ));
    expected.push_str(&"-".repeat(95));
    expected.push('\n');
    assert_eq!(render_list(Resource::Invoices, &data, 3), expected);
}

#[test]
fn expense_and_payment_headers() {
    let data = answer(obj(vec![("expenses", Json::Array(vec![]))]));
    let out = render_list(Resource::Expenses, &data, 1);
    let mut expected = String::from("Expenses (page 1/0, 0 total):\n\n");
    expected.push_str(&format!("{:<8} {:<16} {:<24} {:<12} {}\n", "ID", "Amount", "Vendor", "Date", "Notes"));
    expected.push_str(&"-".repeat(80));
    expected.push('\n');
    assert_eq!(out, expected);
    let out = render_list(Resource::Payments, &data, 2);
    let mut expected = String::from("Payments (page 2/0, 0 total):\n\n");
    expected.push_str(&format!("{:<8} {:<16} {:<16} {:<12} {}\n", "ID", "Amount", "Invoice", "Date", "Type"));
    expected.push_str(&"-".repeat(70));
    expected.push('\n');
    assert_eq!(out, expected);
}

#[test]
fn search_text() {
    let data = answer(obj(vec![
        ("total", n(1)),
        ("clients", Json::Array(vec![obj(vec![("id", n(8)), ("email", s("a@b.c"))])])),
    ]));
    let mut expected = String::from("Search results (1 found):\n\n");
    expected.push_str(&format!("{:<8} {:<21} {:<32} {}\n", "ID", "Name", "Email", "Organization"));
    expected.push_str(&"-".repeat(90));
    expected.push('\n');
    expected.push_str(&format!("{:<8} {} {:<20} {:<32} {}\n", 8, "", "", "a@b.c", ""));
    assert_eq!(render_search(&data), expected);
    match search_reply(&Ok(data)) {
        ToolReply::Success(t) => assert_eq!(t, expected),
        ToolReply::Failure(_) => panic!("expected success"),
    }
}

#[test]
fn failed_listing_reports_the_error() {
    let res: Result<Json, ApiError> = Err(ApiError::Api { status: 404, body: "nope".to_string() });
    match list_reply(Resource::Clients, &res, 1) {
        ToolReply::Failure(t) => assert_eq!(t, "FreshBooks API error (404 Not Found): nope"),
        ToolReply::Success(_) => panic!("expected failure"),
    }
    match search_reply(&Err(ApiError::NoToken)) {
        ToolReply::Failure(t) => {
            assert_eq!(t, "Not authenticated. Use get_auth_url and exchange_code tools first.")
        }
        ToolReply::Success(_) => panic!("expected failure"),
    }
}

fn client_params() -> CreateClientParams {
    CreateClientParams {
        fname: None,
        lname: None,
        email: None,
        organization: None,
        bus_phone: None,
        mob_phone: None,
        p_street: None,
        p_city: None,
        p_province: None,
        p_country: None,
        p_code: None,
        currency_code: None,
    }
}

#[test]
fn create_client_requires_a_name() {
    assert_eq!(
        check_create_client(&client_params()),
        Err("At least one of fname, lname, email, or organization is required".to_string())
    );
    let mut p = client_params();
    p.bus_phone = Some("555".to_string());
    assert!(check_create_client(&p).is_err());
    let mut p = client_params();
    p.organization = Some("Org".to_string());
    assert_eq!(check_create_client(&p), Ok(()));
}

#[test]
fn client_body_skips_absent_fields() {
    let mut p = client_params();
    p.fname = Some("Ann".to_string());
    p.p_city = Some("Paris".to_string());
    p.currency_code = Some("EUR".to_string());
    let body = create_client_body(&p);
    let outer = members(&body);
    assert_eq!(outer.len(), 1);
    assert_eq!(outer[0].0, "client");
    let inner = members(outer[0].1);
    let got: Vec<(String, String)> = inner.iter().map(|(k, v)| (k.clone(), text(v).to_string())).collect();
    assert_eq!(
        got,
        vec![
            ("fname".to_string(), "Ann".to_string()),
            ("p_city".to_string(), "Paris".to_string()),
            ("currency_code".to_string(), "EUR".to_string()),
        ]
    );
    let empty = create_client_body(&client_params());
    assert_eq!(members(members(&empty)[0].1).len(), 0);
}

#[test]
fn update_body_matches_create_body() {
    let p = UpdateClientParams {
        id: 4,
        fname: None,
        lname: Some("Lee".to_string()),
        email: Some("l@x.y".to_string()),
        organization: None,
        bus_phone: None,
        mob_phone: Some("1".to_string()),
        p_street: None,
        p_city: None,
        p_province: None,
        p_country: None,
        p_code: None,
        currency_code: None,
    };
    let body = update_client_body(&p);
    let inner = members(members(&body)[0].1);
    let keys: Vec<String> = inner.iter().map(|(k, _)| k.clone()).collect();
    assert_eq!(keys, vec!["lname", "email", "mob_phone"]);
}

fn invoice_params(status: Option<&str>) -> CreateInvoiceParams {
    CreateInvoiceParams {
        customerid: 12,
        status: status.map(|x| x.to_string()),
        lines: "[]".to_string(),
        notes: Some("thanks".to_string()),
        create_date: None,
        due_date: Some("2024-12-31".to_string()),
        currency_code: None,
        po_number: None,
        discount_value: Some("10".to_string()),
    }
}

#[test]
fn invoice_body_members() {
    let line = obj(vec![("name", s("Service")), ("qty", n(1))]);
    let body = invoice_body(&invoice_params(Some("sent")), Ok(Json::Array(vec![line]))).unwrap();
    let outer = members(&body);
    assert_eq!(outer[0].0, "invoice");
    let inner = members(outer[0].1);
    let keys: Vec<String> = inner.iter().map(|(k, _)| k.clone()).collect();
    assert_eq!(keys, vec!["customerid", "lines", "status", "notes", "due_date", "discount_value"]);
    assert_eq!(uint(inner[0].1), 12);
    assert_eq!(uint(inner[2].1), 2);
    assert_eq!(text(inner[3].1), "thanks");
}

#[test]
fn invoice_status_numbers() {
    let status_of = |st: Option<&str>| {
        let body = invoice_body(&invoice_params(st), Ok(Json::Array(vec![]))).unwrap();
        let inner: Vec<(String, u64)> = members(members(&body)[0].1)
            .into_iter()
            .filter(|(k, _)| k == "status")
            .map(|(k, v)| (k, uint(v)))
            .collect();
        inner.first().map(|(_, v)| *v)
    };
    assert_eq!(status_of(Some("draft")), Some(1));
    assert_eq!(status_of(Some("sent")), Some(2));
    assert_eq!(status_of(Some("paid")), Some(1));
    assert_eq!(status_of(None), None);
}

#[test]
fn invoice_body_errors() {
    assert_eq!(
        invoice_body(&invoice_params(None), Err("expected value at line 1 column 1".to_string())).err(),
        Some("Invalid lines JSON: expected value at line 1 column 1".to_string())
    );
    assert_eq!(
        invoice_body(&invoice_params(None), Ok(obj(vec![]))).err(),
        Some("lines must be a JSON array".to_string())
    );
}

#[test]
fn expense_body_members() {
    let p = CreateExpenseParams {
        amount: "12.00".to_string(),
        currency_code: None,
        categoryid: Some(3),
        date: None,
        vendor: Some("Shop".to_string()),
        notes: None,
    };
    let body = expense_body(&p);
    let outer = members(&body);
    assert_eq!(outer[0].0, "expense");
    let inner = members(outer[0].1);
    let keys: Vec<String> = inner.iter().map(|(k, _)| k.clone()).collect();
    assert_eq!(keys, vec!["amount", "categoryid", "vendor"]);
    let amount = members(inner[0].1);
    assert_eq!(amount[0].0, "amount");
    assert_eq!(text(amount[0].1), "12.00");
    assert_eq!(amount[1].0, "code");
    assert_eq!(text(amount[1].1), "USD");
    assert_eq!(uint(inner[1].1), 3);
}

#[test]
fn created_texts() {
    let data = answer(obj(vec![(
        "client",
        obj(vec![("id", n(55))]),
    )]));
    assert_eq!(created_client_reply(&data, "{...}"), "Client created (ID: 55):\n{...}");
    assert!(record_json(&data, "client").is_some());
    assert!(record_json(&data, "invoice").is_none());
    assert_eq!(updated_client_reply(55, "{}"), "Client 55 updated:\n{}");
    let data = answer(obj(vec![(
        "invoice",
        obj(vec![("invoiceid", n(7)), ("invoice_number", s("0007"))]),
    )]));
    assert_eq!(created_invoice_reply(&data, "P"), "Invoice created (ID: 7, #0007):\nP");
    assert_eq!(created_invoice_reply(&obj(vec![]), "P"), "Invoice created (ID: 0, #?):\nP");
    let data = answer(obj(vec![("expense", obj(vec![("id", n(3))]))]));
    assert_eq!(created_expense_reply(&data, "E"), "Expense created (ID: 3):\nE");
}

#[test]
fn auth_and_exchange_texts() {
    assert_eq!(
        auth_url_reply("U"),
        "Open this URL in your browser to authorize:\n\nU\n\n\
         After authorizing, your browser will redirect to a URL like:\n\
         https://localhost/callback?code=XXXX\n\n\
         Copy the 'code' parameter value and use the exchange_code tool with it."
    );
    match exchange_reply(&Ok(()), &Ok("acc1".to_string())) {
        ToolReply::Success(t) => assert_eq!(t, "Authentication successful! Token saved.\nAccount ID: acc1"),
        ToolReply::Failure(_) => panic!("expected success"),
    }
    match exchange_reply(&Ok(()), &Err(ApiError::Other("boom".to_string()))) {
        ToolReply::Success(t) => assert_eq!(
            t,
            "Authentication successful! Token saved.\nCould not auto-discover account_id: boom"
        ),
        ToolReply::Failure(_) => panic!("expected success"),
    }
    match exchange_reply(&Err(ApiError::Reqwest("timeout".to_string())), &Err(ApiError::NoToken)) {
        ToolReply::Failure(t) => assert_eq!(t, "HTTP request failed: timeout"),
        ToolReply::Success(_) => panic!("expected failure"),
    }
}
