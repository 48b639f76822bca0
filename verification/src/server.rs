//! The decisions and texts of the server's tools: the request paths and
//! bodies each tool sends, the checks on its arguments, and the text it
//! answers with.

use vstd::prelude::*;
use crate::api::{error_text, ApiError};
use crate::json::{
    array_in, field_of, get_in, lemma_field_of_with_opt, member, member_in, no_members, opt_text, push_member, push_opt_text,
    str_at, str_in, string_value, u64_at, u64_in, view_fields, view_items, with_opt, Json, JsonNumber,
    JsonV, NumberV,
};
use crate::params::{
    CreateClientParams, CreateExpenseParams, CreateInvoiceParams, UpdateClientParams,
};
use crate::rows::{
    ends_with, lemma_ends_with_concat,
    client_row, expense_row, fmt_client_row, fmt_expense_row, fmt_invoice_row, fmt_payment_row,
    invoice_row, or_else, or_zero, payment_row, sp,
};
use crate::text::{
    decimal, pad_right, push_char, push_decimal, push_padded, push_repeated, push_str, repeated,
};
use crate::urlencode::{url_encoded, urlencoding};
use vstd::string::StringSliceAdditionalSpecFns;

verus! {

/// The kinds of FreshBooks records the tools work with.
#[derive(Clone, Copy)]
pub enum Resource {
    Clients,
    Invoices,
    Expenses,
    Payments,
}

/// The page to ask for: the one given, else the first.
pub open spec fn page_of(page: Option<u32>) -> u32 {
    match page {
        Some(p) => p,
        None => 1,
    }
}

/// The number of results per page: the one given, else 25, and never more
/// than 100.
pub open spec fn per_page_of(per_page: Option<u32>) -> u32 {
    let n = match per_page {
        Some(n) => n,
        None => 25,
    };
    if n < 100 {
        n
    } else {
        100
    }
}

/// The page and page size of a listing.
pub fn page_params(page: Option<u32>, per_page: Option<u32>) -> (r: (u32, u32))
    ensures
        r == (page_of(page), per_page_of(per_page)),
{
    let p = match page {
        Some(p) => p,
        None => 1,
    };
    let n = match per_page {
        Some(n) => n,
        None => 25,
    };
    let n = if n < 100 {
        n
    } else {
        100
    };
    (p, n)
}

/// Where the records of a kind live inside an account.
pub open spec fn collection_of(kind: Resource) -> Seq<char> {
    match kind {
        Resource::Clients => "/users/clients"@,
        Resource::Invoices => "/invoices/invoices"@,
        Resource::Expenses => "/expenses/expenses"@,
        Resource::Payments => "/payments/payments"@,
    }
}

fn collection(kind: Resource) -> (r: &'static str)
    ensures
        r@ == collection_of(kind),
{
    match kind {
        Resource::Clients => "/users/clients",
        Resource::Invoices => "/invoices/invoices",
        Resource::Expenses => "/expenses/expenses",
        Resource::Payments => "/payments/payments",
    }
}

/// The path of the records of a kind in an account.
pub open spec fn collection_path_for(kind: Resource, account_id: Seq<char>) -> Seq<char> {
    "/accounting/account/"@ + account_id + collection_of(kind)
}

/// The path of the records of a kind in an account, where new ones are
/// created.
pub fn collection_path(kind: Resource, account_id: &str) -> (r: String)
    ensures
        r@ == collection_path_for(kind, account_id@),
{
    let mut out = "/accounting/account/".to_owned();
    push_str(&mut out, account_id);
    push_str(&mut out, collection(kind));
    out
}

/// The path of one record of a kind, by its id.
pub fn record_path(kind: Resource, account_id: &str, id: u64) -> (r: String)
    ensures
        r@ == collection_path_for(kind, account_id@) + seq!['/'] + decimal(id as nat),
{
    let mut out = collection_path(kind, account_id);
    push_char(&mut out, '/');
    push_decimal(&mut out, id);
    out
}

/// The path of one page of the records of a kind.
pub open spec fn list_path_for(kind: Resource, account_id: Seq<char>, page: u32, per_page: u32) -> Seq<char> {
    collection_path_for(kind, account_id) + "?page="@ + decimal(page as nat) + "&per_page="@ + decimal(
        per_page as nat,
    )
}

/// The path of one page of the records of a kind.
pub fn list_path(kind: Resource, account_id: &str, page: u32, per_page: u32) -> (r: String)
    ensures
        r@ == list_path_for(kind, account_id@, page, per_page),
{
    let mut out = collection_path(kind, account_id);
    push_str(&mut out, "?page=");
    push_decimal(&mut out, page as u64);
    push_str(&mut out, "&per_page=");
    push_decimal(&mut out, per_page as u64);
    out
}

/// The path of one page of a client search; the query is percent-encoded.
pub open spec fn search_path_for(account_id: Seq<char>, query: Seq<u8>, page: u32, per_page: u32) -> Seq<char> {
    collection_path_for(Resource::Clients, account_id) + "?search[keyword]="@ + url_encoded(query)
        + "&page="@ + decimal(page as nat) + "&per_page="@ + decimal(per_page as nat)
}

/// The path of one page of a client search by keyword.
pub fn search_path(account_id: &str, query: &str, page: u32, per_page: u32) -> (r: String)
    ensures
        r@ == search_path_for(account_id@, query.spec_bytes(), page, per_page),
{
    let mut out = collection_path(Resource::Clients, account_id);
    push_str(&mut out, "?search[keyword]=");
    let q = urlencoding(query);
    push_str(&mut out, q.as_str());
    push_str(&mut out, "&page=");
    push_decimal(&mut out, page as u64);
    push_str(&mut out, "&per_page=");
    push_decimal(&mut out, per_page as u64);
    out
}


/// The listing line of a record of a kind.
pub open spec fn row_of(kind: Resource, v: JsonV) -> Seq<char> {
    match kind {
        Resource::Clients => client_row(v),
        Resource::Invoices => invoice_row(v),
        Resource::Expenses => expense_row(v),
        Resource::Payments => payment_row(v),
    }
}

/// The listing lines of records, each ended by a newline.
pub open spec fn rows_of(kind: Resource, items: Seq<JsonV>) -> Seq<char>
    decreases items.len(),
{
    if items.len() == 0 {
        Seq::empty()
    } else {
        rows_of(kind, items.drop_last()) + row_of(kind, items.last()) + seq!['\n']
    }
}

fn row(kind: Resource, v: &Json) -> (r: String)
    ensures
        r@ == row_of(kind, v@),
{
    match kind {
        Resource::Clients => fmt_client_row(v),
        Resource::Invoices => fmt_invoice_row(v),
        Resource::Expenses => fmt_expense_row(v),
        Resource::Payments => fmt_payment_row(v),
    }
}

fn push_rows(out: &mut String, kind: Resource, items: &Vec<Json>)
    ensures
        final(out)@ == old(out)@ + rows_of(kind, view_items(items@)),
{
    let ghost vs = view_items(items@);
    proof {
        crate::json::lemma_view_items(items@);
        assert(vs.take(0) =~= Seq::<JsonV>::empty());
        assert(old(out)@ =~= old(out)@ + rows_of(kind, vs.take(0)));
    }
    let n = items.len();
    let mut i: usize = 0;
    while i < n
        invariant
            n == items@.len(),
            vs == view_items(items@),
            vs.len() == n,
            forall|k: int| 0 <= k < n ==> #[trigger] vs[k] == items@[k]@,
            i <= n,
            out@ == old(out)@ + rows_of(kind, vs.take(i as int)),
        decreases n - i,
    {
        let line = row(kind, &items[i]);
        push_str(out, line.as_str());
        push_char(out, '\n');
        proof {
            let t = vs.take(i as int + 1);
            assert(t.drop_last() =~= vs.take(i as int));
            assert(t.last() == vs[i as int]);
            assert(out@ =~= old(out)@ + rows_of(kind, t));
        }
        i = i + 1;
    }
    assert(vs.take(n as int) =~= vs);
}

/// The column headings of a listing, ended by a newline.
pub open spec fn header_of(kind: Resource) -> Seq<char> {
    match kind {
        Resource::Clients => pad_right("ID"@, 8) + sp() + pad_right("Name"@, 21) + sp() + pad_right(
            "Email"@,
            32,
        ) + sp() + "Organization"@ + seq!['\n'],
        Resource::Invoices => pad_right("ID"@, 8) + sp() + pad_right("Number"@, 9) + sp()
            + pad_right("Status"@, 12) + sp() + pad_right("Amount"@, 16) + sp() + pad_right(
            "Customer"@,
            24,
        ) + sp() + "Date"@ + seq!['\n'],
        Resource::Expenses => pad_right("ID"@, 8) + sp() + pad_right("Amount"@, 16) + sp()
            + pad_right("Vendor"@, 24) + sp() + pad_right("Date"@, 12) + sp() + "Notes"@ + seq!['\n'],
        Resource::Payments => pad_right("ID"@, 8) + sp() + pad_right("Amount"@, 16) + sp()
            + pad_right("Invoice"@, 16) + sp() + pad_right("Date"@, 12) + sp() + "Type"@ + seq!['\n'],
    }
}

fn push_header(out: &mut String, kind: Resource)
    ensures
        final(out)@ == old(out)@ + header_of(kind),
{
    match kind {
        Resource::Clients => push_client_header(out),
        Resource::Invoices => push_invoice_header(out),
        Resource::Expenses => push_expense_header(out),
        Resource::Payments => push_payment_header(out),
    }
}

fn push_client_header(out: &mut String)
    ensures
        final(out)@ == old(out)@ + header_of(Resource::Clients),
{
    push_padded(out, "ID", 8);
    push_char(out, ' ');
    push_padded(out, "Name", 21);
    push_char(out, ' ');
    push_padded(out, "Email", 32);
    push_char(out, ' ');
    push_str(out, "Organization");
    push_char(out, '\n');
    assert(out@ =~= old(out)@ + header_of(Resource::Clients));
}

fn push_expense_header(out: &mut String)
    ensures
        final(out)@ == old(out)@ + header_of(Resource::Expenses),
{
    push_padded(out, "ID", 8);
    push_char(out, ' ');
    push_padded(out, "Amount", 16);
    push_char(out, ' ');
    push_padded(out, "Vendor", 24);
    push_char(out, ' ');
    push_padded(out, "Date", 12);
    push_char(out, ' ');
    push_str(out, "Notes");
    push_char(out, '\n');
    assert(out@ =~= old(out)@ + header_of(Resource::Expenses));
}

fn push_payment_header(out: &mut String)
    ensures
        final(out)@ == old(out)@ + header_of(Resource::Payments),
{
    push_padded(out, "ID", 8);
    push_char(out, ' ');
    push_padded(out, "Amount", 16);
    push_char(out, ' ');
    push_padded(out, "Invoice", 16);
    push_char(out, ' ');
    push_padded(out, "Date", 12);
    push_char(out, ' ');
    push_str(out, "Type");
    push_char(out, '\n');
    assert(out@ =~= old(out)@ + header_of(Resource::Payments));
}

fn push_invoice_header(out: &mut String)
    ensures
        final(out)@ == old(out)@ + header_of(Resource::Invoices),
{
    push_padded(out, "ID", 8);
    push_char(out, ' ');
    push_padded(out, "Number", 9);
    push_char(out, ' ');
    push_padded(out, "Status", 12);
    push_char(out, ' ');
    push_padded(out, "Amount", 16);
    push_char(out, ' ');
    push_padded(out, "Customer", 24);
    push_char(out, ' ');
    push_str(out, "Date");
    push_char(out, '\n');
    assert(out@ =~= old(out)@ + header_of(Resource::Invoices));
}

/// The width of the rule under the headings of a listing.
pub open spec fn rule_width(kind: Resource) -> nat {
    match kind {
        Resource::Clients => 90,
        Resource::Invoices => 95,
        Resource::Expenses => 80,
        Resource::Payments => 70,
    }
}

/// The member of a listing's result that holds its records.
pub open spec fn items_key(kind: Resource) -> Seq<char> {
    match kind {
        Resource::Clients => "clients"@,
        Resource::Invoices => "invoices"@,
        Resource::Expenses => "expenses"@,
        Resource::Payments => "payments"@,
    }
}

/// The start of a listing's title.
pub open spec fn title_of(kind: Resource) -> Seq<char> {
    match kind {
        Resource::Clients => "Clients (page "@,
        Resource::Invoices => "Invoices (page "@,
        Resource::Expenses => "Expenses (page "@,
        Resource::Payments => "Payments (page "@,
    }
}

/// `data["response"]["result"]`, where a listing's answer keeps its content.
pub open spec fn result_of(data: JsonV) -> Option<JsonV> {
    member_in(member(data, "response"@), "result"@)
}

/// The records of a listing's answer, or none when they are not an array.
pub open spec fn items_of(kind: Resource, data: JsonV) -> Seq<JsonV> {
    match array_in(member_in(result_of(data), items_key(kind))) {
        Some(items) => items,
        None => Seq::empty(),
    }
}

/// The headings, the rule under them, and one line per record.
pub open spec fn table_of(kind: Resource, data: JsonV) -> Seq<char> {
    header_of(kind) + repeated('-', rule_width(kind)) + seq!['\n'] + rows_of(kind, items_of(kind, data))
}

/// The title of one page of a listing: page, number of pages and total.
pub open spec fn list_head(kind: Resource, data: JsonV, page: u32) -> Seq<char> {
    let result = result_of(data);
    title_of(kind) + decimal(page as nat) + seq!['/'] + decimal(
        or_zero(u64_in(member_in(result, "pages"@))),
    ) + ", "@ + decimal(or_zero(u64_in(member_in(result, "total"@)))) + " total):\n\n"@
}

/// The text of one page of a listing.
pub open spec fn list_text(kind: Resource, data: JsonV, page: u32) -> Seq<char> {
    list_head(kind, data, page) + table_of(kind, data)
}

/// The title of the results of a client search.
pub open spec fn search_head(data: JsonV) -> Seq<char> {
    "Search results ("@ + decimal(or_zero(u64_in(member_in(result_of(data), "total"@))))
        + " found):\n\n"@
}

/// The text of the results of a client search.
pub open spec fn search_text(data: JsonV) -> Seq<char> {
    search_head(data) + table_of(Resource::Clients, data)
}

/// The records of a listing answer that sit under `key` in
/// `data["response"]["result"]`, when they form an array.
pub open spec fn records_under(data: JsonV, key: Seq<char>) -> Option<Seq<JsonV>> {
    array_in(member_in(member_in(member(data, "response"@), "result"@), key))
}

proof fn lemma_ends_with_trans(s: Seq<char>, t: Seq<char>, r: Seq<char>)
    requires
        ends_with(s, t),
        ends_with(t, r),
    ensures
        ends_with(s, r),
{
    assert(s.subrange(s.len() - r.len(), s.len() as int) =~= t.subrange(
        t.len() - r.len(),
        t.len() as int,
    ));
}

proof fn lemma_table_ends_with_rows(kind: Resource, data: JsonV)
    ensures
        ends_with(table_of(kind, data), rows_of(kind, items_of(kind, data))),
{
    lemma_ends_with_concat(
        header_of(kind) + repeated('-', rule_width(kind)) + seq!['\n'],
        rows_of(kind, items_of(kind, data)),
    );
}

/// A page of a listing ends with one line per record of the answer, the
/// records of clients, invoices, expenses and payments being read from the
/// members `clients`, `invoices`, `expenses` and `payments` of
/// `data["response"]["result"]`; a search ends with one line per client.
pub proof fn law_listing_rows_come_from_the_records(data: JsonV, page: u32)
    ensures
        forall|items: Seq<JsonV>|
            records_under(data, "clients"@) == Some(items) ==> ends_with(
                list_text(Resource::Clients, data, page),
                #[trigger] rows_of(Resource::Clients, items),
            ) && ends_with(search_text(data), rows_of(Resource::Clients, items)),
        forall|items: Seq<JsonV>|
            records_under(data, "invoices"@) == Some(items) ==> ends_with(
                list_text(Resource::Invoices, data, page),
                #[trigger] rows_of(Resource::Invoices, items),
            ),
        forall|items: Seq<JsonV>|
            records_under(data, "expenses"@) == Some(items) ==> ends_with(
                list_text(Resource::Expenses, data, page),
                #[trigger] rows_of(Resource::Expenses, items),
            ),
        forall|items: Seq<JsonV>|
            records_under(data, "payments"@) == Some(items) ==> ends_with(
                list_text(Resource::Payments, data, page),
                #[trigger] rows_of(Resource::Payments, items),
            ),
{
    assert forall|kind: Resource| #![trigger table_of(kind, data)]
        ends_with(list_text(kind, data, page), rows_of(kind, items_of(kind, data))) by {
        lemma_table_ends_with_rows(kind, data);
        lemma_ends_with_concat(list_head(kind, data, page), table_of(kind, data));
        lemma_ends_with_trans(
            list_text(kind, data, page),
            table_of(kind, data),
            rows_of(kind, items_of(kind, data)),
        );
    }
    lemma_table_ends_with_rows(Resource::Clients, data);
    lemma_ends_with_concat(search_head(data), table_of(Resource::Clients, data));
    lemma_ends_with_trans(
        search_text(data),
        table_of(Resource::Clients, data),
        rows_of(Resource::Clients, items_of(Resource::Clients, data)),
    );
    assert(table_of(Resource::Clients, data) == table_of(Resource::Clients, data));
    assert(table_of(Resource::Invoices, data) == table_of(Resource::Invoices, data));
    assert(table_of(Resource::Expenses, data) == table_of(Resource::Expenses, data));
    assert(table_of(Resource::Payments, data) == table_of(Resource::Payments, data));
}

/// The page and page-size part of a listing path.
pub open spec fn paging(page: u32, per_page: u32) -> Seq<char> {
    "?page="@ + decimal(page as nat) + "&per_page="@ + decimal(per_page as nat)
}

/// Listing paths name the account and the collection of the records:
/// `users/clients`, `invoices/invoices`, `expenses/expenses` and
/// `payments/payments`; one record's path adds `/` and its id; a search
/// lists clients by the percent-encoded query.
pub proof fn law_paths_name_account_and_collection(
    account_id: Seq<char>,
    page: u32,
    per_page: u32,
    id: u64,
    query: Seq<u8>,
)
    ensures
        list_path_for(Resource::Clients, account_id, page, per_page) == "/accounting/account/"@
            + account_id + "/users/clients"@ + paging(page, per_page),
        list_path_for(Resource::Invoices, account_id, page, per_page) == "/accounting/account/"@
            + account_id + "/invoices/invoices"@ + paging(page, per_page),
        list_path_for(Resource::Expenses, account_id, page, per_page) == "/accounting/account/"@
            + account_id + "/expenses/expenses"@ + paging(page, per_page),
        list_path_for(Resource::Payments, account_id, page, per_page) == "/accounting/account/"@
            + account_id + "/payments/payments"@ + paging(page, per_page),
        collection_path_for(Resource::Clients, account_id) + seq!['/'] + decimal(id as nat)
            == "/accounting/account/"@ + account_id + "/users/clients/"@ + decimal(id as nat),
        collection_path_for(Resource::Invoices, account_id) + seq!['/'] + decimal(id as nat)
            == "/accounting/account/"@ + account_id + "/invoices/invoices/"@ + decimal(id as nat),
        search_path_for(account_id, query, page, per_page) == "/accounting/account/"@ + account_id
            + "/users/clients?search[keyword]="@ + url_encoded(query) + "&page="@ + decimal(
            page as nat,
        ) + "&per_page="@ + decimal(per_page as nat),
{
    reveal_strlit("/users/clients");
    reveal_strlit("/users/clients/");
    reveal_strlit("/invoices/invoices");
    reveal_strlit("/invoices/invoices/");
    reveal_strlit("?search[keyword]=");
    reveal_strlit("/users/clients?search[keyword]=");
    reveal_strlit("?page=");
    reveal_strlit("&per_page=");
    let a = "/accounting/account/"@ + account_id;
    assert(a + "/users/clients"@ + paging(page, per_page) =~= a + "/users/clients"@ + "?page="@
        + decimal(page as nat) + "&per_page="@ + decimal(per_page as nat));
    assert(a + "/invoices/invoices"@ + paging(page, per_page) =~= a + "/invoices/invoices"@
        + "?page="@ + decimal(page as nat) + "&per_page="@ + decimal(per_page as nat));
    assert(a + "/expenses/expenses"@ + paging(page, per_page) =~= a + "/expenses/expenses"@
        + "?page="@ + decimal(page as nat) + "&per_page="@ + decimal(per_page as nat));
    assert(a + "/payments/payments"@ + paging(page, per_page) =~= a + "/payments/payments"@
        + "?page="@ + decimal(page as nat) + "&per_page="@ + decimal(per_page as nat));
    assert(a + "/users/clients"@ + seq!['/'] + decimal(id as nat) =~= a + "/users/clients/"@
        + decimal(id as nat));
    assert(a + "/invoices/invoices"@ + seq!['/'] + decimal(id as nat) =~= a
        + "/invoices/invoices/"@ + decimal(id as nat));
    assert(a + "/users/clients"@ + "?search[keyword]="@ + url_encoded(query) =~= a
        + "/users/clients?search[keyword]="@ + url_encoded(query));
}

/// The title of a page of a listing names its kind and shows the page, the
/// number of pages and the total from `data["response"]["result"]`; the
/// table under it starts with the kind's headings and a rule of 90, 95, 80
/// or 70 dashes for clients, invoices, expenses and payments.
pub proof fn law_listing_title_and_rule(data: JsonV, page: u32)
    ensures
        ({
            let result = member_in(member(data, "response"@), "result"@);
            let rest = decimal(page as nat) + seq!['/'] + decimal(
                or_zero(u64_in(member_in(result, "pages"@))),
            ) + ", "@ + decimal(or_zero(u64_in(member_in(result, "total"@)))) + " total):\n\n"@;
            &&& list_head(Resource::Clients, data, page) == "Clients (page "@ + rest
            &&& list_head(Resource::Invoices, data, page) == "Invoices (page "@ + rest
            &&& list_head(Resource::Expenses, data, page) == "Expenses (page "@ + rest
            &&& list_head(Resource::Payments, data, page) == "Payments (page "@ + rest
        }),
        forall|kind: Resource|
            #![trigger table_of(kind, data)]
            table_of(kind, data) == header_of(kind) + repeated(
                '-',
                match kind {
                    Resource::Clients => 90nat,
                    Resource::Invoices => 95nat,
                    Resource::Expenses => 80nat,
                    Resource::Payments => 70nat,
                },
            ) + seq!['\n'] + rows_of(kind, items_of(kind, data)),
{
    let result = member_in(member(data, "response"@), "result"@);
    let rest = decimal(page as nat) + seq!['/'] + decimal(
        or_zero(u64_in(member_in(result, "pages"@))),
    ) + ", "@ + decimal(or_zero(u64_in(member_in(result, "total"@)))) + " total):\n\n"@;
    assert(list_head(Resource::Clients, data, page) =~= "Clients (page "@ + rest);
    assert(list_head(Resource::Invoices, data, page) =~= "Invoices (page "@ + rest);
    assert(list_head(Resource::Expenses, data, page) =~= "Expenses (page "@ + rest);
    assert(list_head(Resource::Payments, data, page) =~= "Payments (page "@ + rest);
}

/// The lines of records: none for no records, and for more records the
/// lines of all but the last, then the last record's line of its kind and a
/// newline.
pub proof fn law_rows_are_one_line_per_record(kind: Resource, items: Seq<JsonV>)
    ensures
        rows_of(kind, Seq::empty()) == Seq::<char>::empty(),
        items.len() > 0 ==> rows_of(kind, items) == rows_of(kind, items.drop_last()) + match kind {
            Resource::Clients => client_row(items.last()),
            Resource::Invoices => invoice_row(items.last()),
            Resource::Expenses => expense_row(items.last()),
            Resource::Payments => payment_row(items.last()),
        } + seq!['\n'],
{
}

fn result_json(data: &Json) -> (r: Option<&Json>)
    ensures
        crate::json::found(r, result_of(data@)),
{
    get_in(data.get("response"), "result")
}

fn items_key_str(kind: Resource) -> (r: &'static str)
    ensures
        r@ == items_key(kind),
{
    match kind {
        Resource::Clients => "clients",
        Resource::Invoices => "invoices",
        Resource::Expenses => "expenses",
        Resource::Payments => "payments",
    }
}

fn push_table(out: &mut String, kind: Resource, data: &Json)
    ensures
        final(out)@ == old(out)@ + table_of(kind, data@),
{
    push_header(out, kind);
    let width: usize = match kind {
        Resource::Clients => 90,
        Resource::Invoices => 95,
        Resource::Expenses => 80,
        Resource::Payments => 70,
    };
    push_repeated(out, '-', width);
    push_char(out, '\n');
    let result = result_json(data);
    let arr = get_in(result, items_key_str(kind));
    let ghost before = out@;
    match arr {
        Some(a) => match a.as_array() {
            Some(items) => push_rows(out, kind, items),
            None => {
                assert(out@ =~= before + rows_of(kind, Seq::empty()));
            },
        },
        None => {
            assert(out@ =~= before + rows_of(kind, Seq::empty()));
        },
    }
    assert(out@ =~= old(out)@ + table_of(kind, data@));
}

fn u64_or_zero(v: Option<&Json>) -> (r: u64)
    ensures
        forall|s: Option<JsonV>| crate::json::found(v, s) ==> r == or_zero(u64_in(s)),
{
    match u64_at(v) {
        Some(n) => n,
        None => 0,
    }
}

/// The text of one page of a listing of records of a kind.
pub fn render_list(kind: Resource, data: &Json, page: u32) -> (r: String)
    ensures
        r@ == list_text(kind, data@, page),
{
    let result = result_json(data);
    let pages = u64_or_zero(get_in(result, "pages"));
    let total = u64_or_zero(get_in(result, "total"));
    let mut out = match kind {
        Resource::Clients => "Clients (page ".to_owned(),
        Resource::Invoices => "Invoices (page ".to_owned(),
        Resource::Expenses => "Expenses (page ".to_owned(),
        Resource::Payments => "Payments (page ".to_owned(),
    };
    push_decimal(&mut out, page as u64);
    push_char(&mut out, '/');
    push_decimal(&mut out, pages);
    push_str(&mut out, ", ");
    push_decimal(&mut out, total);
    push_str(&mut out, " total):\n\n");
    push_table(&mut out, kind, data);
    out
}

/// The text of the results of a client search.
pub fn render_search(data: &Json) -> (r: String)
    ensures
        r@ == search_text(data@),
{
    let result = result_json(data);
    let total = u64_or_zero(get_in(result, "total"));
    let mut out = "Search results (".to_owned();
    push_decimal(&mut out, total);
    push_str(&mut out, " found):\n\n");
    push_table(&mut out, Resource::Clients, data);
    out
}


/// The members of a client's data: each field that is present, in order,
/// as a string.
pub open spec fn client_members(
    fname: Option<String>,
    lname: Option<String>,
    email: Option<String>,
    organization: Option<String>,
    bus_phone: Option<String>,
    mob_phone: Option<String>,
    p_street: Option<String>,
    p_city: Option<String>,
    p_province: Option<String>,
    p_country: Option<String>,
    p_code: Option<String>,
    currency_code: Option<String>,
) -> Seq<(Seq<char>, JsonV)> {
    let f = with_opt(no_members(), "fname"@, opt_text(fname));
    let f = with_opt(f, "lname"@, opt_text(lname));
    let f = with_opt(f, "email"@, opt_text(email));
    let f = with_opt(f, "organization"@, opt_text(organization));
    let f = with_opt(f, "bus_phone"@, opt_text(bus_phone));
    let f = with_opt(f, "mob_phone"@, opt_text(mob_phone));
    let f = with_opt(f, "p_street"@, opt_text(p_street));
    let f = with_opt(f, "p_city"@, opt_text(p_city));
    let f = with_opt(f, "p_province"@, opt_text(p_province));
    let f = with_opt(f, "p_country"@, opt_text(p_country));
    let f = with_opt(f, "p_code"@, opt_text(p_code));
    with_opt(f, "currency_code"@, opt_text(currency_code))
}

/// An object with the single member `key: value`.
pub open spec fn wrapped(key: Seq<char>, value: JsonV) -> JsonV {
    JsonV::Object(no_members().push((key, value)))
}

/// A wrapped value is an object whose single member, under the given
/// name, is the value.
pub proof fn law_wrapped_holds_its_value(key: Seq<char>, value: JsonV)
    ensures
        member(wrapped(key, value), key) == Some(value),
        wrapped(key, value) matches JsonV::Object(fields) && fields.len() == 1,
{
    assert(no_members().push((key, value))[0] == (key, value));
}

fn wrap(key: &str, value: Json) -> (r: Json)
    ensures
        r@ == wrapped(key@, value@),
{
    let mut fields: Vec<(String, Json)> = Vec::new();
    assert(view_fields(fields@) =~= no_members());
    push_member(&mut fields, key, value);
    Json::Object(fields)
}

fn client_body(
    fname: &Option<String>,
    lname: &Option<String>,
    email: &Option<String>,
    organization: &Option<String>,
    bus_phone: &Option<String>,
    mob_phone: &Option<String>,
    p_street: &Option<String>,
    p_city: &Option<String>,
    p_province: &Option<String>,
    p_country: &Option<String>,
    p_code: &Option<String>,
    currency_code: &Option<String>,
) -> (r: Json)
    ensures
        r@ == wrapped(
            "client"@,
            JsonV::Object(
                client_members(
                    *fname,
                    *lname,
                    *email,
                    *organization,
                    *bus_phone,
                    *mob_phone,
                    *p_street,
                    *p_city,
                    *p_province,
                    *p_country,
                    *p_code,
                    *currency_code,
                ),
            ),
        ),
{
    let mut f: Vec<(String, Json)> = Vec::new();
    assert(view_fields(f@) =~= no_members());
    push_opt_text(&mut f, "fname", fname);
    push_opt_text(&mut f, "lname", lname);
    push_opt_text(&mut f, "email", email);
    push_opt_text(&mut f, "organization", organization);
    push_opt_text(&mut f, "bus_phone", bus_phone);
    push_opt_text(&mut f, "mob_phone", mob_phone);
    push_opt_text(&mut f, "p_street", p_street);
    push_opt_text(&mut f, "p_city", p_city);
    push_opt_text(&mut f, "p_province", p_province);
    push_opt_text(&mut f, "p_country", p_country);
    push_opt_text(&mut f, "p_code", p_code);
    push_opt_text(&mut f, "currency_code", currency_code);
    wrap("client", Json::Object(f))
}

/// The body that creates a client.
pub fn create_client_body(p: &CreateClientParams) -> (r: Json)
    ensures
        r@ == wrapped(
            "client"@,
            JsonV::Object(
                client_members(
                    p.fname,
                    p.lname,
                    p.email,
                    p.organization,
                    p.bus_phone,
                    p.mob_phone,
                    p.p_street,
                    p.p_city,
                    p.p_province,
                    p.p_country,
                    p.p_code,
                    p.currency_code,
                ),
            ),
        ),
{
    client_body(
        &p.fname,
        &p.lname,
        &p.email,
        &p.organization,
        &p.bus_phone,
        &p.mob_phone,
        &p.p_street,
        &p.p_city,
        &p.p_province,
        &p.p_country,
        &p.p_code,
        &p.currency_code,
    )
}

/// The body that updates a client.
pub fn update_client_body(p: &UpdateClientParams) -> (r: Json)
    ensures
        r@ == wrapped(
            "client"@,
            JsonV::Object(
                client_members(
                    p.fname,
                    p.lname,
                    p.email,
                    p.organization,
                    p.bus_phone,
                    p.mob_phone,
                    p.p_street,
                    p.p_city,
                    p.p_province,
                    p.p_country,
                    p.p_code,
                    p.currency_code,
                ),
            ),
        ),
{
    client_body(
        &p.fname,
        &p.lname,
        &p.email,
        &p.organization,
        &p.bus_phone,
        &p.mob_phone,
        &p.p_street,
        &p.p_city,
        &p.p_province,
        &p.p_country,
        &p.p_code,
        &p.currency_code,
    )
}

/// A new client must have a first name, a last name, an email or an
/// organization.
pub open spec fn names_client(p: CreateClientParams) -> bool {
    p.fname is Some || p.lname is Some || p.email is Some || p.organization is Some
}

/// Checks the arguments of `create_client`; the error is the message of the
/// invalid-parameters answer.
pub fn check_create_client(p: &CreateClientParams) -> (r: Result<(), String>)
    ensures
        names_client(*p) ==> r is Ok,
        !names_client(*p) ==> (r matches Err(m) && m@
            == "At least one of fname, lname, email, or organization is required"@),
{
    if p.fname.is_none() && p.lname.is_none() && p.email.is_none() && p.organization.is_none() {
        Err("At least one of fname, lname, email, or organization is required".to_owned())
    } else {
        Ok(())
    }
}

/// The number FreshBooks gives an invoice status: 2 for `sent`, 1 for
/// `draft` and for anything else.
pub open spec fn status_code(status: Seq<char>) -> u64 {
    if status == "draft"@ {
        1
    } else if status == "sent"@ {
        2
    } else {
        1
    }
}

fn status_number(status: &str) -> (r: u64)
    ensures
        r == status_code(status@),
{
    if crate::text::str_eq(status, "draft") {
        1
    } else if crate::text::str_eq(status, "sent") {
        2
    } else {
        1
    }
}

/// A present number as a JSON integer.
pub open spec fn opt_number(o: Option<u64>) -> Option<JsonV> {
    match o {
        Some(n) => Some(JsonV::Number(NumberV::UInt(n))),
        None => None,
    }
}

/// The members of a new invoice: customer, lines, then each optional field
/// that is present (the status as its number).
pub open spec fn invoice_members(p: CreateInvoiceParams, lines: JsonV) -> Seq<(Seq<char>, JsonV)> {
    let f = no_members().push(("customerid"@, JsonV::Number(NumberV::UInt(p.customerid)))).push(
        ("lines"@, lines),
    );
    let f = with_opt(
        f,
        "status"@,
        match p.status {
            Some(s) => opt_number(Some(status_code(s@))),
            None => None,
        },
    );
    let f = with_opt(f, "notes"@, opt_text(p.notes));
    let f = with_opt(f, "create_date"@, opt_text(p.create_date));
    let f = with_opt(f, "due_date"@, opt_text(p.due_date));
    let f = with_opt(f, "currency_code"@, opt_text(p.currency_code));
    let f = with_opt(f, "po_number"@, opt_text(p.po_number));
    with_opt(f, "discount_value"@, opt_text(p.discount_value))
}

fn push_opt_number(fields: &mut Vec<(String, Json)>, key: &str, value: Option<u64>)
    ensures
        view_fields(final(fields)@) == with_opt(view_fields(old(fields)@), key@, opt_number(value)),
{
    match value {
        Some(n) => push_member(fields, key, Json::Number(JsonNumber::UInt(n))),
        None => {},
    }
}

/// The body that creates an invoice, from its arguments and the parsed
/// `lines` argument (or the message of the parse error). Lines that are not
/// valid JSON, or not an array, are refused with the message of the
/// invalid-parameters answer.
pub fn invoice_body(p: &CreateInvoiceParams, lines: Result<Json, String>) -> (r: Result<Json, String>)
    ensures
        match lines {
            Err(e) => r matches Err(m) && m@ == "Invalid lines JSON: "@ + e@,
            Ok(l) => if l@ is Array {
                r matches Ok(b) && b@ == wrapped("invoice"@, JsonV::Object(invoice_members(*p, l@)))
            } else {
                r matches Err(m) && m@ == "lines must be a JSON array"@
            },
        },
        r matches Ok(b) ==> {
            let inv = member(b@, "invoice"@);
            &&& member_in(inv, "customerid"@) == Some(JsonV::Number(NumberV::UInt(p.customerid)))
            &&& lines matches Ok(l) && member_in(inv, "lines"@) == Some(l@)
            &&& member_in(inv, "status"@) == status_member(p.status)
            &&& member_in(inv, "notes"@) == opt_text(p.notes)
            &&& member_in(inv, "create_date"@) == opt_text(p.create_date)
            &&& member_in(inv, "due_date"@) == opt_text(p.due_date)
            &&& member_in(inv, "currency_code"@) == opt_text(p.currency_code)
            &&& member_in(inv, "po_number"@) == opt_text(p.po_number)
            &&& member_in(inv, "discount_value"@) == opt_text(p.discount_value)
        },
{
    let lines = match lines {
        Err(e) => {
            let mut m = "Invalid lines JSON: ".to_owned();
            push_str(&mut m, e.as_str());
            return Err(m);
        },
        Ok(l) => l,
    };
    let is_array = match &lines {
        Json::Array(_) => true,
        _ => false,
    };
    if !is_array {
        return Err("lines must be a JSON array".to_owned());
    }
    let ghost lv = lines@;
    let mut f: Vec<(String, Json)> = Vec::new();
    assert(view_fields(f@) =~= no_members());
    push_member(&mut f, "customerid", Json::Number(JsonNumber::UInt(p.customerid)));
    push_member(&mut f, "lines", lines);
    let status = match &p.status {
        Some(s) => Some(status_number(s.as_str())),
        None => None,
    };
    push_opt_number(&mut f, "status", status);
    push_opt_text(&mut f, "notes", &p.notes);
    push_opt_text(&mut f, "create_date", &p.create_date);
    push_opt_text(&mut f, "due_date", &p.due_date);
    push_opt_text(&mut f, "currency_code", &p.currency_code);
    push_opt_text(&mut f, "po_number", &p.po_number);
    push_opt_text(&mut f, "discount_value", &p.discount_value);
    assert(view_fields(f@) == invoice_members(*p, lv));
    let body = wrap("invoice", Json::Object(f));
    proof {
        law_invoice_members_hold_the_given_fields(*p, lv);
        assert(member(body@, "invoice"@) == Some(JsonV::Object(invoice_members(*p, lv))));
    }
    Ok(body)
}

/// The status member of a new invoice, by its given status.
pub open spec fn status_member(status: Option<String>) -> Option<JsonV> {
    match status {
        Some(s) => Some(JsonV::Number(NumberV::UInt(if s@ == "sent"@ { 2 } else { 1 }))),
        None => None,
    }
}

proof fn lemma_invoice_member_lookup(p: CreateInvoiceParams, lines: JsonV, key: Seq<char>)
    ensures
        field_of(invoice_members(p, lines), key) == if key == "customerid"@ {
            Some(JsonV::Number(NumberV::UInt(p.customerid)))
        } else if key == "lines"@ {
            Some(lines)
        } else if p.status is Some && key == "status"@ {
            opt_number(Some(status_code(p.status->0@)))
        } else if p.notes is Some && key == "notes"@ {
            opt_text(p.notes)
        } else if p.create_date is Some && key == "create_date"@ {
            opt_text(p.create_date)
        } else if p.due_date is Some && key == "due_date"@ {
            opt_text(p.due_date)
        } else if p.currency_code is Some && key == "currency_code"@ {
            opt_text(p.currency_code)
        } else if p.po_number is Some && key == "po_number"@ {
            opt_text(p.po_number)
        } else if p.discount_value is Some && key == "discount_value"@ {
            opt_text(p.discount_value)
        } else {
            None
        },
{
    let f0 = no_members();
    assert(field_of(f0, key) is None);
    let c = Some(JsonV::Number(NumberV::UInt(p.customerid)));
    lemma_field_of_with_opt(f0, "customerid"@, c, key);
    let f1 = with_opt(f0, "customerid"@, c);
    lemma_field_of_with_opt(f1, "lines"@, Some(lines), key);
    let f2 = with_opt(f1, "lines"@, Some(lines));
    let st = match p.status {
        Some(s) => opt_number(Some(status_code(s@))),
        None => None,
    };
    lemma_field_of_with_opt(f2, "status"@, st, key);
    let f3 = with_opt(f2, "status"@, st);
    lemma_field_of_with_opt(f3, "notes"@, opt_text(p.notes), key);
    let f4 = with_opt(f3, "notes"@, opt_text(p.notes));
    lemma_field_of_with_opt(f4, "create_date"@, opt_text(p.create_date), key);
    let f5 = with_opt(f4, "create_date"@, opt_text(p.create_date));
    lemma_field_of_with_opt(f5, "due_date"@, opt_text(p.due_date), key);
    let f6 = with_opt(f5, "due_date"@, opt_text(p.due_date));
    lemma_field_of_with_opt(f6, "currency_code"@, opt_text(p.currency_code), key);
    let f7 = with_opt(f6, "currency_code"@, opt_text(p.currency_code));
    lemma_field_of_with_opt(f7, "po_number"@, opt_text(p.po_number), key);
    let f8 = with_opt(f7, "po_number"@, opt_text(p.po_number));
    lemma_field_of_with_opt(f8, "discount_value"@, opt_text(p.discount_value), key);
}

/// A new invoice holds its customer and its lines, its status as 2 for
/// `sent` and 1 otherwise when one is given, and each optional text that is
/// given (notes, dates, currency, order number, discount) under its own
/// name; nothing is sent for what is not given.
pub proof fn law_invoice_members_hold_the_given_fields(p: CreateInvoiceParams, lines: JsonV)
    ensures
        field_of(invoice_members(p, lines), "customerid"@) == Some(
            JsonV::Number(NumberV::UInt(p.customerid)),
        ),
        field_of(invoice_members(p, lines), "lines"@) == Some(lines),
        field_of(invoice_members(p, lines), "status"@) == status_member(p.status),
        field_of(invoice_members(p, lines), "notes"@) == opt_text(p.notes),
        field_of(invoice_members(p, lines), "create_date"@) == opt_text(p.create_date),
        field_of(invoice_members(p, lines), "due_date"@) == opt_text(p.due_date),
        field_of(invoice_members(p, lines), "currency_code"@) == opt_text(p.currency_code),
        field_of(invoice_members(p, lines), "po_number"@) == opt_text(p.po_number),
        field_of(invoice_members(p, lines), "discount_value"@) == opt_text(p.discount_value),
{
    reveal_strlit("customerid");
    assert("customerid"@.len() == 10);
    reveal_strlit("lines");
    assert("lines"@.len() == 5);
    reveal_strlit("status");
    assert("status"@.len() == 6);
    reveal_strlit("notes");
    assert("notes"@.len() == 5);
    reveal_strlit("create_date");
    assert("create_date"@.len() == 11);
    reveal_strlit("due_date");
    assert("due_date"@.len() == 8);
    reveal_strlit("currency_code");
    assert("currency_code"@.len() == 13);
    reveal_strlit("po_number");
    assert("po_number"@.len() == 9);
    reveal_strlit("discount_value");
    assert("discount_value"@.len() == 14);
    reveal_strlit("sent");
    assert("sent"@.len() == 4);
    reveal_strlit("draft");
    assert("draft"@ != "sent"@) by {
        assert("draft"@[0] != "sent"@[0]);
    }
    assert("lines"@ != "notes"@) by {
        assert("lines"@[0] != "notes"@[0]);
    }
    lemma_invoice_member_lookup(p, lines, "customerid"@);
    lemma_invoice_member_lookup(p, lines, "lines"@);
    lemma_invoice_member_lookup(p, lines, "status"@);
    lemma_invoice_member_lookup(p, lines, "notes"@);
    lemma_invoice_member_lookup(p, lines, "create_date"@);
    lemma_invoice_member_lookup(p, lines, "due_date"@);
    lemma_invoice_member_lookup(p, lines, "currency_code"@);
    lemma_invoice_member_lookup(p, lines, "po_number"@);
    lemma_invoice_member_lookup(p, lines, "discount_value"@);
}

/// The members of a new expense: its amount and currency (USD when none is
/// given), then each optional field that is present.
pub open spec fn expense_members(p: CreateExpenseParams) -> Seq<(Seq<char>, JsonV)> {
    let code = match p.currency_code {
        Some(c) => c@,
        None => "USD"@,
    };
    let amount = JsonV::Object(
        no_members().push(("amount"@, JsonV::Str(p.amount@))).push(("code"@, JsonV::Str(code))),
    );
    let f = no_members().push(("amount"@, amount));
    let f = with_opt(f, "categoryid"@, opt_number(p.categoryid));
    let f = with_opt(f, "date"@, opt_text(p.date));
    let f = with_opt(f, "vendor"@, opt_text(p.vendor));
    with_opt(f, "notes"@, opt_text(p.notes))
}

proof fn lemma_expense_member_lookup(p: CreateExpenseParams, key: Seq<char>)
    ensures
        field_of(expense_members(p), key) == if key == "amount"@ {
            field_of(expense_members(p), "amount"@)
        } else if p.categoryid is Some && key == "categoryid"@ {
            opt_number(p.categoryid)
        } else if p.date is Some && key == "date"@ {
            opt_text(p.date)
        } else if p.vendor is Some && key == "vendor"@ {
            opt_text(p.vendor)
        } else if p.notes is Some && key == "notes"@ {
            opt_text(p.notes)
        } else {
            None
        },
{
    let currency = match p.currency_code {
        Some(c) => c@,
        None => "USD"@,
    };
    let amount = JsonV::Object(
        no_members().push(("amount"@, JsonV::Str(p.amount@))).push(("code"@, JsonV::Str(currency))),
    );
    let f0 = no_members();
    assert(field_of(f0, key) is None);
    lemma_field_of_with_opt(f0, "amount"@, Some(amount), key);
    let f1 = with_opt(f0, "amount"@, Some(amount));
    lemma_field_of_with_opt(f1, "categoryid"@, opt_number(p.categoryid), key);
    let f2 = with_opt(f1, "categoryid"@, opt_number(p.categoryid));
    lemma_field_of_with_opt(f2, "date"@, opt_text(p.date), key);
    let f3 = with_opt(f2, "date"@, opt_text(p.date));
    lemma_field_of_with_opt(f3, "vendor"@, opt_text(p.vendor), key);
    let f4 = with_opt(f3, "vendor"@, opt_text(p.vendor));
    lemma_field_of_with_opt(f4, "notes"@, opt_text(p.notes), key);
}

/// A new expense holds its amount as an object of the given amount and a
/// currency code, which is the given currency when one is given and USD
/// only when none is; then each optional field that is given, under its own
/// name.
pub proof fn law_expense_members_hold_the_given_fields(p: CreateExpenseParams)
    ensures
        member_in(field_of(expense_members(p), "amount"@), "amount"@) == Some(JsonV::Str(p.amount@)),
        forall|c: String|
            p.currency_code == Some(c) ==> member_in(field_of(expense_members(p), "amount"@), "code"@)
                == Some(JsonV::Str(c@)),
        p.currency_code is None ==> member_in(field_of(expense_members(p), "amount"@), "code"@)
            == Some(JsonV::Str("USD"@)),
        field_of(expense_members(p), "categoryid"@) == opt_number(p.categoryid),
        field_of(expense_members(p), "date"@) == opt_text(p.date),
        field_of(expense_members(p), "vendor"@) == opt_text(p.vendor),
        field_of(expense_members(p), "notes"@) == opt_text(p.notes),
{
    reveal_strlit("amount");
    reveal_strlit("code");
    reveal_strlit("categoryid");
    reveal_strlit("date");
    reveal_strlit("vendor");
    reveal_strlit("notes");
    assert("amount"@.len() == 6);
    assert("code"@.len() == 4);
    assert("categoryid"@.len() == 10);
    assert("date"@.len() == 4);
    assert("vendor"@.len() == 6);
    assert("notes"@.len() == 5);
    assert("amount"@ != "vendor"@) by {
        assert("amount"@[0] != "vendor"@[0]);
    }
    assert("amount"@ != "code"@);
    lemma_expense_member_lookup(p, "categoryid"@);
    lemma_expense_member_lookup(p, "date"@);
    lemma_expense_member_lookup(p, "vendor"@);
    lemma_expense_member_lookup(p, "notes"@);
    let currency = match p.currency_code {
        Some(c) => c@,
        None => "USD"@,
    };
    let fa = no_members().push(("amount"@, JsonV::Str(p.amount@))).push(("code"@, JsonV::Str(currency)));
    lemma_field_of_with_opt(no_members(), "amount"@, Some(JsonV::Str(p.amount@)), "amount"@);
    lemma_field_of_with_opt(no_members(), "amount"@, Some(JsonV::Str(p.amount@)), "code"@);
    lemma_field_of_with_opt(no_members().push(("amount"@, JsonV::Str(p.amount@))), "code"@, Some(JsonV::Str(currency)), "amount"@);
    lemma_field_of_with_opt(no_members().push(("amount"@, JsonV::Str(p.amount@))), "code"@, Some(JsonV::Str(currency)), "code"@);
    assert(field_of(no_members(), "amount"@) is None);
    assert(field_of(no_members(), "code"@) is None);
    lemma_field_of_with_opt(no_members(), "amount"@, Some(JsonV::Object(fa)), "amount"@);
}

/// The body that creates an expense.
pub fn expense_body(p: &CreateExpenseParams) -> (r: Json)
    ensures
        r@ == wrapped("expense"@, JsonV::Object(expense_members(*p))),
        ({
            let e = member(r@, "expense"@);
            &&& member_in(member_in(e, "amount"@), "amount"@) == Some(JsonV::Str(p.amount@))
            &&& member_in(member_in(e, "amount"@), "code"@) == Some(
                JsonV::Str(
                    match p.currency_code {
                        Some(c) => c@,
                        None => "USD"@,
                    },
                ),
            )
            &&& member_in(e, "categoryid"@) == opt_number(p.categoryid)
            &&& member_in(e, "date"@) == opt_text(p.date)
            &&& member_in(e, "vendor"@) == opt_text(p.vendor)
            &&& member_in(e, "notes"@) == opt_text(p.notes)
        }),
{
    proof {
        law_expense_members_hold_the_given_fields(*p);
    }
    let mut a: Vec<(String, Json)> = Vec::new();
    assert(view_fields(a@) =~= no_members());
    push_member(&mut a, "amount", string_value(p.amount.as_str()));
    let code = match &p.currency_code {
        Some(c) => c.as_str(),
        None => "USD",
    };
    push_member(&mut a, "code", string_value(code));
    let mut f: Vec<(String, Json)> = Vec::new();
    assert(view_fields(f@) =~= no_members());
    push_member(&mut f, "amount", Json::Object(a));
    push_opt_number(&mut f, "categoryid", p.categoryid);
    push_opt_text(&mut f, "date", &p.date);
    push_opt_text(&mut f, "vendor", &p.vendor);
    push_opt_text(&mut f, "notes", &p.notes);
    wrap("expense", Json::Object(f))
}


/// What a tool answers: a successful text, or a text that reports a failure.
pub enum ToolReply {
    Success(String),
    Failure(String),
}

/// An API failure answered as a failed tool call with the error's message.
pub fn failure(e: &ApiError) -> (r: ToolReply)
    requires
        e.wf(),
    ensures
        r matches ToolReply::Failure(t) && t@ == error_text(*e),
{
    ToolReply::Failure(e.message())
}

/// The answer of a listing tool to the API's answer for one page.
pub fn list_reply(kind: Resource, res: &Result<Json, ApiError>, page: u32) -> (r: ToolReply)
    requires
        res matches Err(e) ==> e.wf(),
    ensures
        match res {
            Ok(data) => r matches ToolReply::Success(t) && t@ == list_text(kind, data@, page),
            Err(e) => r matches ToolReply::Failure(t) && t@ == error_text(*e),
        },
{
    match res {
        Ok(data) => ToolReply::Success(render_list(kind, data, page)),
        Err(e) => failure(e),
    }
}

/// The answer of `search_clients` to the API's answer.
pub fn search_reply(res: &Result<Json, ApiError>) -> (r: ToolReply)
    requires
        res matches Err(e) ==> e.wf(),
    ensures
        match res {
            Ok(data) => r matches ToolReply::Success(t) && t@ == search_text(data@),
            Err(e) => r matches ToolReply::Failure(t) && t@ == error_text(*e),
        },
{
    match res {
        Ok(data) => ToolReply::Success(render_search(data)),
        Err(e) => failure(e),
    }
}

/// `data["response"]["result"][key]`: the record an answer carries.
pub open spec fn record_of(data: JsonV, key: Seq<char>) -> Option<JsonV> {
    member_in(result_of(data), key)
}

/// The record named `key` in an API answer, to be shown in full.
pub fn record_json<'a>(data: &'a Json, key: &str) -> (r: Option<&'a Json>)
    ensures
        crate::json::found(r, record_of(data@, key@)),
{
    get_in(result_json(data), key)
}

fn record_u64(data: &Json, key: &str, field: &str) -> (r: u64)
    ensures
        r == or_zero(u64_in(member_in(record_of(data@, key@), field@))),
{
    u64_or_zero(get_in(record_json(data, key), field))
}

/// The text of `get_auth_url` for the authorization URL `url`.
pub open spec fn auth_url_text(url: Seq<char>) -> Seq<char> {
    "Open this URL in your browser to authorize:\n\n"@ + url
        + "\n\nAfter authorizing, your browser will redirect to a URL like:\nhttps://localhost/callback?code=XXXX\n\nCopy the 'code' parameter value and use the exchange_code tool with it."@
}

/// The text of `get_auth_url`.
pub fn auth_url_reply(url: &str) -> (r: String)
    ensures
        r@ == auth_url_text(url@),
{
    let mut out = "Open this URL in your browser to authorize:\n\n".to_owned();
    push_str(&mut out, url);
    push_str(
        &mut out,
        "\n\nAfter authorizing, your browser will redirect to a URL like:\nhttps://localhost/callback?code=XXXX\n\nCopy the 'code' parameter value and use the exchange_code tool with it.",
    );
    out
}

/// The text of a successful `exchange_code`, with the outcome of the
/// account id discovery that follows it.
pub open spec fn exchange_text(account: Result<String, ApiError>) -> Seq<char> {
    "Authentication successful! Token saved.\n"@ + match account {
        Ok(id) => "Account ID: "@ + id@,
        Err(e) => "Could not auto-discover account_id: "@ + error_text(e),
    }
}

/// The answer of `exchange_code`: a failure with the error's message when
/// the exchange failed, otherwise the success text with the account id or
/// the reason it was not found.
pub fn exchange_reply(exchange: &Result<(), ApiError>, account: &Result<String, ApiError>) -> (r: ToolReply)
    requires
        exchange matches Err(e) ==> e.wf(),
        account matches Err(e) ==> e.wf(),
    ensures
        match exchange {
            Err(e) => r matches ToolReply::Failure(t) && t@ == error_text(*e),
            Ok(_) => r matches ToolReply::Success(t) && t@ == exchange_text(*account),
        },
{
    match exchange {
        Err(e) => failure(e),
        Ok(_) => {
            let mut out = "Authentication successful! Token saved.\n".to_owned();
            match account {
                Ok(id) => {
                    push_str(&mut out, "Account ID: ");
                    push_str(&mut out, id.as_str());
                },
                Err(e) => {
                    push_str(&mut out, "Could not auto-discover account_id: ");
                    let m = e.message();
                    push_str(&mut out, m.as_str());
                },
            }
            assert(out@ =~= exchange_text(*account));
            ToolReply::Success(out)
        },
    }
}

/// The text of `create_client`, `pretty` being the created client shown in
/// full.
pub open spec fn created_client_text(data: JsonV, pretty: Seq<char>) -> Seq<char> {
    "Client created (ID: "@ + decimal(or_zero(u64_in(member_in(record_of(data, "client"@), "id"@))))
        + "):\n"@ + pretty
}

/// The text of `create_client`.
pub fn created_client_reply(data: &Json, pretty: &str) -> (r: String)
    ensures
        r@ == created_client_text(data@, pretty@),
{
    let id = record_u64(data, "client", "id");
    let mut out = "Client created (ID: ".to_owned();
    push_decimal(&mut out, id);
    push_str(&mut out, "):\n");
    push_str(&mut out, pretty);
    out
}

/// The text of `update_client` for the client `id`.
pub fn updated_client_reply(id: u64, pretty: &str) -> (r: String)
    ensures
        r@ == "Client "@ + decimal(id as nat) + " updated:\n"@ + pretty@,
{
    let mut out = "Client ".to_owned();
    push_decimal(&mut out, id);
    push_str(&mut out, " updated:\n");
    push_str(&mut out, pretty);
    out
}

/// The text of `create_invoice`: the invoice's id and number (`?` when it
/// has none).
pub open spec fn created_invoice_text(data: JsonV, pretty: Seq<char>) -> Seq<char> {
    let inv = record_of(data, "invoice"@);
    "Invoice created (ID: "@ + decimal(or_zero(u64_in(member_in(inv, "invoiceid"@)))) + ", #"@
        + or_else(str_in(member_in(inv, "invoice_number"@)), seq!['?']) + "):\n"@ + pretty
}

/// The text of `create_invoice`.
pub fn created_invoice_reply(data: &Json, pretty: &str) -> (r: String)
    ensures
        r@ == created_invoice_text(data@, pretty@),
{
    let id = record_u64(data, "invoice", "invoiceid");
    let number = str_at(get_in(record_json(data, "invoice"), "invoice_number"));
    let mut out = "Invoice created (ID: ".to_owned();
    push_decimal(&mut out, id);
    push_str(&mut out, ", #");
    match number {
        Some(n) => push_str(&mut out, n),
        None => push_char(&mut out, '?'),
    }
    push_str(&mut out, "):\n");
    push_str(&mut out, pretty);
    assert(out@ =~= created_invoice_text(data@, pretty@));
    out
}

/// The text of `create_expense`.
pub open spec fn created_expense_text(data: JsonV, pretty: Seq<char>) -> Seq<char> {
    "Expense created (ID: "@ + decimal(or_zero(u64_in(member_in(record_of(data, "expense"@), "id"@))))
        + "):\n"@ + pretty
}

/// The text of `create_expense`.
pub fn created_expense_reply(data: &Json, pretty: &str) -> (r: String)
    ensures
        r@ == created_expense_text(data@, pretty@),
{
    let id = record_u64(data, "expense", "id");
    let mut out = "Expense created (ID: ".to_owned();
    push_decimal(&mut out, id);
    push_str(&mut out, "):\n");
    push_str(&mut out, pretty);
    out
}


/// A listing never asks for more than 100 results per page, and asks for
/// the first page and 25 results when nothing is given.
pub proof fn law_page_params_bounds(page: Option<u32>, per_page: Option<u32>)
    ensures
        per_page_of(per_page) <= 100,
        page is None ==> page_of(page) == 1,
        per_page is None ==> per_page_of(per_page) == 25,
        forall|n: u32| per_page == Some(n) && n <= 100 ==> per_page_of(per_page) == n,
{
}

pub open spec fn count_some(o: Option<String>) -> nat {
    if o is Some {
        1
    } else {
        0
    }
}

proof fn lemma_with_opt_text(f: Seq<(Seq<char>, JsonV)>, key: Seq<char>, o: Option<String>)
    ensures
        with_opt(f, key, opt_text(o)).len() == f.len() + count_some(o),
        forall|i: int| 0 <= i < f.len() ==> #[trigger] with_opt(f, key, opt_text(o))[i] == f[i],
        forall|i: int|
            f.len() <= i < with_opt(f, key, opt_text(o)).len() ==> #[trigger] with_opt(
                f,
                key,
                opt_text(o),
            )[i].1 is Str,
{
}

/// A client's data holds one string member for each field that is given and
/// nothing for the fields that are not.
pub proof fn law_client_members_are_the_given_fields(
    fname: Option<String>,
    lname: Option<String>,
    email: Option<String>,
    organization: Option<String>,
    bus_phone: Option<String>,
    mob_phone: Option<String>,
    p_street: Option<String>,
    p_city: Option<String>,
    p_province: Option<String>,
    p_country: Option<String>,
    p_code: Option<String>,
    currency_code: Option<String>,
)
    ensures
        ({
            let m = client_members(
                fname,
                lname,
                email,
                organization,
                bus_phone,
                mob_phone,
                p_street,
                p_city,
                p_province,
                p_country,
                p_code,
                currency_code,
            );
            &&& m.len() == count_some(fname) + count_some(lname) + count_some(email) + count_some(
                organization,
            ) + count_some(bus_phone) + count_some(mob_phone) + count_some(p_street) + count_some(
                p_city,
            ) + count_some(p_province) + count_some(p_country) + count_some(p_code) + count_some(
                currency_code,
            )
            &&& forall|i: int| 0 <= i < m.len() ==> #[trigger] m[i].1 is Str
        }),
{
    let f0 = no_members();
    lemma_with_opt_text(f0, "fname"@, fname);
    let f1 = with_opt(f0, "fname"@, opt_text(fname));
    lemma_with_opt_text(f1, "lname"@, lname);
    let f2 = with_opt(f1, "lname"@, opt_text(lname));
    lemma_with_opt_text(f2, "email"@, email);
    let f3 = with_opt(f2, "email"@, opt_text(email));
    lemma_with_opt_text(f3, "organization"@, organization);
    let f4 = with_opt(f3, "organization"@, opt_text(organization));
    lemma_with_opt_text(f4, "bus_phone"@, bus_phone);
    let f5 = with_opt(f4, "bus_phone"@, opt_text(bus_phone));
    lemma_with_opt_text(f5, "mob_phone"@, mob_phone);
    let f6 = with_opt(f5, "mob_phone"@, opt_text(mob_phone));
    lemma_with_opt_text(f6, "p_street"@, p_street);
    let f7 = with_opt(f6, "p_street"@, opt_text(p_street));
    lemma_with_opt_text(f7, "p_city"@, p_city);
    let f8 = with_opt(f7, "p_city"@, opt_text(p_city));
    lemma_with_opt_text(f8, "p_province"@, p_province);
    let f9 = with_opt(f8, "p_province"@, opt_text(p_province));
    lemma_with_opt_text(f9, "p_country"@, p_country);
    let f10 = with_opt(f9, "p_country"@, opt_text(p_country));
    lemma_with_opt_text(f10, "p_code"@, p_code);
    let f11 = with_opt(f10, "p_code"@, opt_text(p_code));
    lemma_with_opt_text(f11, "currency_code"@, currency_code);
}

/// The member of a client's data named `key`: the given field of that name.
pub open spec fn given_field(
    fname: Option<String>,
    lname: Option<String>,
    email: Option<String>,
    organization: Option<String>,
    bus_phone: Option<String>,
    mob_phone: Option<String>,
    p_street: Option<String>,
    p_city: Option<String>,
    p_province: Option<String>,
    p_country: Option<String>,
    p_code: Option<String>,
    currency_code: Option<String>,
    key: Seq<char>,
) -> Option<JsonV> {
    if fname is Some && key == "fname"@ {
        opt_text(fname)
    } else if lname is Some && key == "lname"@ {
        opt_text(lname)
    } else if email is Some && key == "email"@ {
        opt_text(email)
    } else if organization is Some && key == "organization"@ {
        opt_text(organization)
    } else if bus_phone is Some && key == "bus_phone"@ {
        opt_text(bus_phone)
    } else if mob_phone is Some && key == "mob_phone"@ {
        opt_text(mob_phone)
    } else if p_street is Some && key == "p_street"@ {
        opt_text(p_street)
    } else if p_city is Some && key == "p_city"@ {
        opt_text(p_city)
    } else if p_province is Some && key == "p_province"@ {
        opt_text(p_province)
    } else if p_country is Some && key == "p_country"@ {
        opt_text(p_country)
    } else if p_code is Some && key == "p_code"@ {
        opt_text(p_code)
    } else if currency_code is Some && key == "currency_code"@ {
        opt_text(currency_code)
    } else {
        None
    }
}

proof fn lemma_client_member_lookup(
    fname: Option<String>,
    lname: Option<String>,
    email: Option<String>,
    organization: Option<String>,
    bus_phone: Option<String>,
    mob_phone: Option<String>,
    p_street: Option<String>,
    p_city: Option<String>,
    p_province: Option<String>,
    p_country: Option<String>,
    p_code: Option<String>,
    currency_code: Option<String>,
    key: Seq<char>,
)
    ensures
        field_of(client_members(fname, lname, email, organization, bus_phone, mob_phone, p_street, p_city, p_province, p_country, p_code, currency_code), key) == given_field(fname, lname, email, organization, bus_phone, mob_phone, p_street, p_city, p_province, p_country, p_code, currency_code, key),
{
    let f0 = no_members();
    assert(field_of(f0, key) is None);
    lemma_field_of_with_opt(f0, "fname"@, opt_text(fname), key);
    let f1 = with_opt(f0, "fname"@, opt_text(fname));
    lemma_field_of_with_opt(f1, "lname"@, opt_text(lname), key);
    let f2 = with_opt(f1, "lname"@, opt_text(lname));
    lemma_field_of_with_opt(f2, "email"@, opt_text(email), key);
    let f3 = with_opt(f2, "email"@, opt_text(email));
    lemma_field_of_with_opt(f3, "organization"@, opt_text(organization), key);
    let f4 = with_opt(f3, "organization"@, opt_text(organization));
    lemma_field_of_with_opt(f4, "bus_phone"@, opt_text(bus_phone), key);
    let f5 = with_opt(f4, "bus_phone"@, opt_text(bus_phone));
    lemma_field_of_with_opt(f5, "mob_phone"@, opt_text(mob_phone), key);
    let f6 = with_opt(f5, "mob_phone"@, opt_text(mob_phone));
    lemma_field_of_with_opt(f6, "p_street"@, opt_text(p_street), key);
    let f7 = with_opt(f6, "p_street"@, opt_text(p_street));
    lemma_field_of_with_opt(f7, "p_city"@, opt_text(p_city), key);
    let f8 = with_opt(f7, "p_city"@, opt_text(p_city));
    lemma_field_of_with_opt(f8, "p_province"@, opt_text(p_province), key);
    let f9 = with_opt(f8, "p_province"@, opt_text(p_province));
    lemma_field_of_with_opt(f9, "p_country"@, opt_text(p_country), key);
    let f10 = with_opt(f9, "p_country"@, opt_text(p_country));
    lemma_field_of_with_opt(f10, "p_code"@, opt_text(p_code), key);
    let f11 = with_opt(f10, "p_code"@, opt_text(p_code));
    lemma_field_of_with_opt(f11, "currency_code"@, opt_text(currency_code), key);
    let f12 = with_opt(f11, "currency_code"@, opt_text(currency_code));
}

/// A client's data has a member for each given field, holding that field's
/// text, and none for a field that is not given.
pub proof fn law_client_members_hold_the_given_fields(
    fname: Option<String>,
    lname: Option<String>,
    email: Option<String>,
    organization: Option<String>,
    bus_phone: Option<String>,
    mob_phone: Option<String>,
    p_street: Option<String>,
    p_city: Option<String>,
    p_province: Option<String>,
    p_country: Option<String>,
    p_code: Option<String>,
    currency_code: Option<String>,
)
    ensures
        field_of(client_members(
            fname,
            lname,
            email,
            organization,
            bus_phone,
            mob_phone,
            p_street,
            p_city,
            p_province,
            p_country,
            p_code,
            currency_code,
        ), "fname"@) == opt_text(fname),
        field_of(client_members(
            fname,
            lname,
            email,
            organization,
            bus_phone,
            mob_phone,
            p_street,
            p_city,
            p_province,
            p_country,
            p_code,
            currency_code,
        ), "lname"@) == opt_text(lname),
        field_of(client_members(
            fname,
            lname,
            email,
            organization,
            bus_phone,
            mob_phone,
            p_street,
            p_city,
            p_province,
            p_country,
            p_code,
            currency_code,
        ), "email"@) == opt_text(email),
        field_of(client_members(
            fname,
            lname,
            email,
            organization,
            bus_phone,
            mob_phone,
            p_street,
            p_city,
            p_province,
            p_country,
            p_code,
            currency_code,
        ), "organization"@) == opt_text(organization),
        field_of(client_members(
            fname,
            lname,
            email,
            organization,
            bus_phone,
            mob_phone,
            p_street,
            p_city,
            p_province,
            p_country,
            p_code,
            currency_code,
        ), "bus_phone"@) == opt_text(bus_phone),
        field_of(client_members(
            fname,
            lname,
            email,
            organization,
            bus_phone,
            mob_phone,
            p_street,
            p_city,
            p_province,
            p_country,
            p_code,
            currency_code,
        ), "mob_phone"@) == opt_text(mob_phone),
        field_of(client_members(
            fname,
            lname,
            email,
            organization,
            bus_phone,
            mob_phone,
            p_street,
            p_city,
            p_province,
            p_country,
            p_code,
            currency_code,
        ), "p_street"@) == opt_text(p_street),
        field_of(client_members(
            fname,
            lname,
            email,
            organization,
            bus_phone,
            mob_phone,
            p_street,
            p_city,
            p_province,
            p_country,
            p_code,
            currency_code,
        ), "p_city"@) == opt_text(p_city),
        field_of(client_members(
            fname,
            lname,
            email,
            organization,
            bus_phone,
            mob_phone,
            p_street,
            p_city,
            p_province,
            p_country,
            p_code,
            currency_code,
        ), "p_province"@) == opt_text(p_province),
        field_of(client_members(
            fname,
            lname,
            email,
            organization,
            bus_phone,
            mob_phone,
            p_street,
            p_city,
            p_province,
            p_country,
            p_code,
            currency_code,
        ), "p_country"@) == opt_text(p_country),
        field_of(client_members(
            fname,
            lname,
            email,
            organization,
            bus_phone,
            mob_phone,
            p_street,
            p_city,
            p_province,
            p_country,
            p_code,
            currency_code,
        ), "p_code"@) == opt_text(p_code),
        field_of(client_members(
            fname,
            lname,
            email,
            organization,
            bus_phone,
            mob_phone,
            p_street,
            p_city,
            p_province,
            p_country,
            p_code,
            currency_code,
        ), "currency_code"@) == opt_text(currency_code),
{
    reveal_strlit("fname");
    reveal_strlit("lname");
    reveal_strlit("email");
    reveal_strlit("organization");
    reveal_strlit("bus_phone");
    reveal_strlit("mob_phone");
    reveal_strlit("p_street");
    reveal_strlit("p_city");
    reveal_strlit("p_province");
    reveal_strlit("p_country");
    reveal_strlit("p_code");
    reveal_strlit("currency_code");
    assert("fname"@.len() == 5);
    assert("lname"@.len() == 5);
    assert("email"@.len() == 5);
    assert("organization"@.len() == 12);
    assert("bus_phone"@.len() == 9);
    assert("mob_phone"@.len() == 9);
    assert("p_street"@.len() == 8);
    assert("p_city"@.len() == 6);
    assert("p_province"@.len() == 10);
    assert("p_country"@.len() == 9);
    assert("p_code"@.len() == 6);
    assert("currency_code"@.len() == 13);
    assert("fname"@ != "lname"@) by {
        assert("fname"@[0] != "lname"@[0]);
    }
    assert("fname"@ != "email"@) by {
        assert("fname"@[0] != "email"@[0]);
    }
    assert("lname"@ != "email"@) by {
        assert("lname"@[0] != "email"@[0]);
    }
    assert("p_city"@ != "p_code"@) by {
        assert("p_city"@[3] != "p_code"@[3]);
    }
    assert("bus_phone"@ != "mob_phone"@) by {
        assert("bus_phone"@[0] != "mob_phone"@[0]);
    }
    assert("bus_phone"@ != "p_country"@) by {
        assert("bus_phone"@[0] != "p_country"@[0]);
    }
    assert("mob_phone"@ != "p_country"@) by {
        assert("mob_phone"@[0] != "p_country"@[0]);
    }
    assert(field_of(client_members(fname, lname, email, organization, bus_phone, mob_phone, p_street, p_city, p_province, p_country, p_code, currency_code), "fname"@) == opt_text(fname)) by {
        lemma_client_member_lookup(fname, lname, email, organization, bus_phone, mob_phone, p_street, p_city, p_province, p_country, p_code, currency_code, "fname"@);
    }
    assert(field_of(client_members(fname, lname, email, organization, bus_phone, mob_phone, p_street, p_city, p_province, p_country, p_code, currency_code), "lname"@) == opt_text(lname)) by {
        lemma_client_member_lookup(fname, lname, email, organization, bus_phone, mob_phone, p_street, p_city, p_province, p_country, p_code, currency_code, "lname"@);
    }
    assert(field_of(client_members(fname, lname, email, organization, bus_phone, mob_phone, p_street, p_city, p_province, p_country, p_code, currency_code), "email"@) == opt_text(email)) by {
        lemma_client_member_lookup(fname, lname, email, organization, bus_phone, mob_phone, p_street, p_city, p_province, p_country, p_code, currency_code, "email"@);
    }
    assert(field_of(client_members(fname, lname, email, organization, bus_phone, mob_phone, p_street, p_city, p_province, p_country, p_code, currency_code), "organization"@) == opt_text(organization)) by {
        lemma_client_member_lookup(fname, lname, email, organization, bus_phone, mob_phone, p_street, p_city, p_province, p_country, p_code, currency_code, "organization"@);
    }
    assert(field_of(client_members(fname, lname, email, organization, bus_phone, mob_phone, p_street, p_city, p_province, p_country, p_code, currency_code), "bus_phone"@) == opt_text(bus_phone)) by {
        lemma_client_member_lookup(fname, lname, email, organization, bus_phone, mob_phone, p_street, p_city, p_province, p_country, p_code, currency_code, "bus_phone"@);
    }
    assert(field_of(client_members(fname, lname, email, organization, bus_phone, mob_phone, p_street, p_city, p_province, p_country, p_code, currency_code), "mob_phone"@) == opt_text(mob_phone)) by {
        lemma_client_member_lookup(fname, lname, email, organization, bus_phone, mob_phone, p_street, p_city, p_province, p_country, p_code, currency_code, "mob_phone"@);
    }
    assert(field_of(client_members(fname, lname, email, organization, bus_phone, mob_phone, p_street, p_city, p_province, p_country, p_code, currency_code), "p_street"@) == opt_text(p_street)) by {
        lemma_client_member_lookup(fname, lname, email, organization, bus_phone, mob_phone, p_street, p_city, p_province, p_country, p_code, currency_code, "p_street"@);
    }
    assert(field_of(client_members(fname, lname, email, organization, bus_phone, mob_phone, p_street, p_city, p_province, p_country, p_code, currency_code), "p_city"@) == opt_text(p_city)) by {
        lemma_client_member_lookup(fname, lname, email, organization, bus_phone, mob_phone, p_street, p_city, p_province, p_country, p_code, currency_code, "p_city"@);
    }
    assert(field_of(client_members(fname, lname, email, organization, bus_phone, mob_phone, p_street, p_city, p_province, p_country, p_code, currency_code), "p_province"@) == opt_text(p_province)) by {
        lemma_client_member_lookup(fname, lname, email, organization, bus_phone, mob_phone, p_street, p_city, p_province, p_country, p_code, currency_code, "p_province"@);
    }
    assert(field_of(client_members(fname, lname, email, organization, bus_phone, mob_phone, p_street, p_city, p_province, p_country, p_code, currency_code), "p_country"@) == opt_text(p_country)) by {
        lemma_client_member_lookup(fname, lname, email, organization, bus_phone, mob_phone, p_street, p_city, p_province, p_country, p_code, currency_code, "p_country"@);
    }
    assert(field_of(client_members(fname, lname, email, organization, bus_phone, mob_phone, p_street, p_city, p_province, p_country, p_code, currency_code), "p_code"@) == opt_text(p_code)) by {
        lemma_client_member_lookup(fname, lname, email, organization, bus_phone, mob_phone, p_street, p_city, p_province, p_country, p_code, currency_code, "p_code"@);
    }
    assert(field_of(client_members(fname, lname, email, organization, bus_phone, mob_phone, p_street, p_city, p_province, p_country, p_code, currency_code), "currency_code"@) == opt_text(currency_code)) by {
        lemma_client_member_lookup(fname, lname, email, organization, bus_phone, mob_phone, p_street, p_city, p_province, p_country, p_code, currency_code, "currency_code"@);
    }
}

/// An invoice status is sent to FreshBooks as 2 for `sent` and as 1 (draft)
/// for anything else.
pub proof fn law_invoice_status_is_draft_unless_sent(status: Seq<char>)
    ensures
        status_code(status) == 2 <==> status == "sent"@,
        status_code(status) == 1 <==> status != "sent"@,
{
    reveal_strlit("draft");
    reveal_strlit("sent");
    assert("draft"@ != "sent"@) by {
        assert("draft"@[0] != "sent"@[0]);
    }
}

} // verus!
