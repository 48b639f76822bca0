//! The arguments of the server's tools.

use vstd::prelude::*;

verus! {

/// Arguments of `exchange_code`: the authorization code from the OAuth
/// callback URL.
pub struct ExchangeCodeParams {
    pub code: String,
}

/// Arguments of the client and invoice listings: page number (default 1)
/// and results per page (default 25, at most 100).
pub struct ListParams {
    pub page: Option<u32>,
    pub per_page: Option<u32>,
}

/// Arguments of the tools that read one record by its id.
pub struct GetByIdParams {
    pub id: u64,
}

/// Arguments of `create_client`; at least one of first name, last name,
/// email and organization is required.
pub struct CreateClientParams {
    pub fname: Option<String>,
    pub lname: Option<String>,
    pub email: Option<String>,
    pub organization: Option<String>,
    pub bus_phone: Option<String>,
    pub mob_phone: Option<String>,
    pub p_street: Option<String>,
    pub p_city: Option<String>,
    pub p_province: Option<String>,
    pub p_country: Option<String>,
    pub p_code: Option<String>,
    pub currency_code: Option<String>,
}

/// Arguments of `update_client`: the client's id and the fields to change.
pub struct UpdateClientParams {
    pub id: u64,
    pub fname: Option<String>,
    pub lname: Option<String>,
    pub email: Option<String>,
    pub organization: Option<String>,
    pub bus_phone: Option<String>,
    pub mob_phone: Option<String>,
    pub p_street: Option<String>,
    pub p_city: Option<String>,
    pub p_province: Option<String>,
    pub p_country: Option<String>,
    pub p_code: Option<String>,
    pub currency_code: Option<String>,
}

/// Arguments of `create_invoice`. `lines` is a JSON array of line items;
/// `status` is `draft` or `sent` (default draft).
pub struct CreateInvoiceParams {
    pub customerid: u64,
    pub status: Option<String>,
    pub lines: String,
    pub notes: Option<String>,
    pub create_date: Option<String>,
    pub due_date: Option<String>,
    pub currency_code: Option<String>,
    pub po_number: Option<String>,
    pub discount_value: Option<String>,
}

/// Arguments of `search_clients`.
pub struct SearchParams {
    pub query: String,
    pub page: Option<u32>,
    pub per_page: Option<u32>,
}

/// Arguments of `list_expenses`.
pub struct ListExpensesParams {
    pub page: Option<u32>,
    pub per_page: Option<u32>,
}

/// Arguments of `create_expense`; the currency defaults to USD.
pub struct CreateExpenseParams {
    pub amount: String,
    pub currency_code: Option<String>,
    pub categoryid: Option<u64>,
    pub date: Option<String>,
    pub vendor: Option<String>,
    pub notes: Option<String>,
}

/// Arguments of `list_payments`.
pub struct ListPaymentsParams {
    pub page: Option<u32>,
    pub per_page: Option<u32>,
}

} // verus!
