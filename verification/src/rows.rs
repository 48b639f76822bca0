//! One line of a listing for each kind of FreshBooks record.

use vstd::prelude::*;
use crate::json::{field_of, member, str_at, u64_in, str_field, str_field_of, str_in, str_view, u64_field, u64_field_of, Json, JsonV};
use crate::text::{decimal, pad_right, push_char, push_decimal_padded, push_padded, push_repeated, push_str};

verus! {

/// The characters of an optional text, or nothing.
pub open spec fn or_empty(o: Option<Seq<char>>) -> Seq<char> {
    match o {
        Some(s) => s,
        None => Seq::empty(),
    }
}

/// The characters of an optional text, or `d`.
pub open spec fn or_else(o: Option<Seq<char>>, d: Seq<char>) -> Seq<char> {
    match o {
        Some(s) => s,
        None => d,
    }
}

/// An optional integer, or 0.
pub open spec fn or_zero(o: Option<u64>) -> nat {
    match o {
        Some(n) => n as nat,
        None => 0,
    }
}

pub open spec fn sp() -> Seq<char> {
    seq![' ']
}

/// An amount as listings show it: for an object, its `amount` (or `0`) and its
/// `code` (or nothing) separated by a space; otherwise the text of the value
/// (or `0`).
pub open spec fn amount_text(v: JsonV) -> Seq<char> {
    match member(v, "amount"@) {
        Some(JsonV::Object(fields)) => or_else(str_in(field_of(fields, "amount"@)), seq!['0']) + sp()
            + or_empty(str_in(field_of(fields, "code"@))),
        other => or_else(str_in(other), seq!['0']),
    }
}

/// A client line: id, first name, last name, email and organization.
pub open spec fn client_row(c: JsonV) -> Seq<char> {
    pad_right(decimal(or_zero(u64_field(c, "id"@))), 8) + sp() + or_empty(str_field(c, "fname"@))
        + sp() + pad_right(or_empty(str_field(c, "lname"@)), 20) + sp() + pad_right(
        or_empty(str_field(c, "email"@)),
        32,
    ) + sp() + or_empty(str_field(c, "organization"@))
}

/// An invoice's status: its `v3_status`, else its `display_status`.
pub open spec fn invoice_status(inv: JsonV) -> Seq<char> {
    match str_field(inv, "v3_status"@) {
        Some(s) => s,
        None => or_empty(str_field(inv, "display_status"@)),
    }
}

/// An invoice's customer: its `current_organization`, else its `fname`.
pub open spec fn invoice_customer(inv: JsonV) -> Seq<char> {
    match str_field(inv, "current_organization"@) {
        Some(s) => s,
        None => or_empty(str_field(inv, "fname"@)),
    }
}

/// The start of an invoice line: id, number, status and amount, each
/// followed by a space.
pub open spec fn invoice_row_head(inv: JsonV) -> Seq<char> {
    pad_right(decimal(or_zero(u64_field(inv, "invoiceid"@))), 8) + sp() + seq!['#'] + pad_right(
        or_empty(str_field(inv, "invoice_number"@)),
        8,
    ) + sp() + pad_right(invoice_status(inv), 12) + sp() + pad_right(amount_text(inv), 16) + sp()
}

/// An invoice line: id, number, status, amount, customer and date.
pub open spec fn invoice_row(inv: JsonV) -> Seq<char> {
    invoice_row_head(inv) + pad_right(invoice_customer(inv), 24) + sp() + or_empty(
        str_field(inv, "create_date"@),
    )
}

/// `t` is how `s` ends.
pub open spec fn ends_with(s: Seq<char>, t: Seq<char>) -> bool {
    t.len() <= s.len() && s.subrange(s.len() - t.len(), s.len() as int) == t
}

/// A text ends with what was appended to it.
pub proof fn lemma_ends_with_concat(a: Seq<char>, b: Seq<char>)
    ensures
        ends_with(a + b, b),
{
    assert((a + b).subrange((a + b).len() - b.len(), (a + b).len() as int) =~= b);
}

/// The customer column of an invoice line, the last column but the date:
/// the invoice's `current_organization` when it is a string, whatever its
/// `fname` holds; its `fname` (or nothing) only when it has no string
/// `current_organization`.
pub proof fn law_invoice_customer_column(inv: JsonV)
    ensures
        forall|org: Seq<char>|
            str_in(member(inv, "current_organization"@)) == Some(org) ==> ends_with(
                #[trigger] invoice_row(inv),
                pad_right(org, 24) + seq![' '] + or_empty(str_in(member(inv, "create_date"@))),
            ),
        str_in(member(inv, "current_organization"@)) is None ==> ends_with(
            invoice_row(inv),
            pad_right(or_empty(str_in(member(inv, "fname"@))), 24) + seq![' '] + or_empty(
                str_in(member(inv, "create_date"@)),
            ),
        ),
{
    let t = pad_right(invoice_customer(inv), 24) + sp() + or_empty(str_field(inv, "create_date"@));
    assert(invoice_row(inv) =~= invoice_row_head(inv) + t);
    lemma_ends_with_concat(invoice_row_head(inv), t);
}

/// An expense line: id, amount, vendor, date and notes.
pub open spec fn expense_row(e: JsonV) -> Seq<char> {
    pad_right(decimal(or_zero(u64_field(e, "id"@))), 8) + sp() + pad_right(amount_text(e), 16)
        + sp() + pad_right(or_empty(str_field(e, "vendor"@)), 24) + sp() + pad_right(
        or_empty(str_field(e, "date"@)),
        12,
    ) + sp() + or_empty(str_field(e, "notes"@))
}

/// A payment line: id, amount, invoice, date and type.
pub open spec fn payment_row(p: JsonV) -> Seq<char> {
    pad_right(decimal(or_zero(u64_field(p, "id"@))), 8) + sp() + pad_right(amount_text(p), 16)
        + sp() + "invoice:"@ + pad_right(decimal(or_zero(u64_field(p, "invoiceid"@))), 8) + sp()
        + pad_right(or_empty(str_field(p, "date"@)), 12) + sp() + or_empty(
        str_field(p, "type"@),
    )
}

/// The text of member `k` of `v`, or nothing.
pub open spec fn text_of(v: JsonV, k: Seq<char>) -> Seq<char> {
    or_empty(str_in(member(v, k)))
}

/// The amount column reads an amount object's `amount` (or `0`) and `code`
/// (or nothing) separated by a space, and otherwise the amount's own text
/// (or `0`).
pub proof fn law_amount_column(v: JsonV)
    ensures
        forall|fields: Seq<(Seq<char>, JsonV)>|
            member(v, "amount"@) == Some(JsonV::Object(fields)) ==> #[trigger] amount_text(v) == or_else(
                str_in(field_of(fields, "amount"@)),
                seq!['0'],
            ) + seq![' '] + or_empty(str_in(field_of(fields, "code"@))),
        !(member(v, "amount"@) matches Some(JsonV::Object(_))) ==> amount_text(v) == or_else(
            str_in(member(v, "amount"@)),
            seq!['0'],
        ),
{
}

/// Each listing line shows, in order and in columns of fixed width, the
/// record's members: a client's `id`, `fname`, `lname`, `email` and
/// `organization`; an invoice's `invoiceid`, `invoice_number`, status
/// (`v3_status`, else `display_status`), amount, customer and
/// `create_date`; an expense's `id`, amount, `vendor`, `date` and `notes`;
/// a payment's `id`, amount, `invoiceid`, `date` and `type`.
pub proof fn law_listing_lines_read_the_named_members(v: JsonV)
    ensures
        client_row(v) == pad_right(decimal(or_zero(u64_in(member(v, "id"@)))), 8) + seq![' ']
            + text_of(v, "fname"@) + seq![' '] + pad_right(text_of(v, "lname"@), 20) + seq![' ']
            + pad_right(text_of(v, "email"@), 32) + seq![' '] + text_of(v, "organization"@),
        invoice_row_head(v) == pad_right(decimal(or_zero(u64_in(member(v, "invoiceid"@)))), 8)
            + seq![' '] + seq!['#'] + pad_right(text_of(v, "invoice_number"@), 8) + seq![' ']
            + pad_right(
            match str_in(member(v, "v3_status"@)) {
                Some(st) => st,
                None => text_of(v, "display_status"@),
            },
            12,
        ) + seq![' '] + pad_right(amount_text(v), 16) + seq![' '],
        expense_row(v) == pad_right(decimal(or_zero(u64_in(member(v, "id"@)))), 8) + seq![' ']
            + pad_right(amount_text(v), 16) + seq![' '] + pad_right(text_of(v, "vendor"@), 24)
            + seq![' '] + pad_right(text_of(v, "date"@), 12) + seq![' '] + text_of(v, "notes"@),
        payment_row(v) == pad_right(decimal(or_zero(u64_in(member(v, "id"@)))), 8) + seq![' ']
            + pad_right(amount_text(v), 16) + seq![' '] + "invoice:"@ + pad_right(
            decimal(or_zero(u64_in(member(v, "invoiceid"@)))),
            8,
        ) + seq![' '] + pad_right(text_of(v, "date"@), 12) + seq![' '] + text_of(v, "type"@),
{
}

fn push_opt(out: &mut String, s: Option<&str>)
    ensures
        final(out)@ == old(out)@ + or_empty(str_view(s)),
{
    match s {
        Some(t) => push_str(out, t),
        None => {
            assert(out@ =~= out@ + Seq::<char>::empty());
        },
    }
}

fn push_opt_padded(out: &mut String, s: Option<&str>, width: usize)
    ensures
        final(out)@ == old(out)@ + pad_right(or_empty(str_view(s)), width as nat),
{
    match s {
        Some(t) => push_padded(out, t, width),
        None => {
            push_repeated(out, ' ', width);
            assert(out@ =~= old(out)@ + pad_right(or_empty(str_view(s)), width as nat));
        },
    }
}

fn push_id_padded(out: &mut String, n: Option<u64>, width: usize)
    ensures
        final(out)@ == old(out)@ + pad_right(decimal(or_zero(n)), width as nat),
{
    let v: u64 = match n {
        Some(k) => k,
        None => 0,
    };
    push_decimal_padded(out, v, width);
}

/// The amount text of a record, as `amount_text` describes it.
fn amount_string(v: &Json) -> (r: String)
    ensures
        r@ == amount_text(v@),
{
    let m = v.get("amount");
    let mut out = String::new();
    let obj = match m {
        Some(a) => if a.is_object() {
            Some(a)
        } else {
            None
        },
        None => None,
    };
    match obj {
        Some(a) => {
            match str_field_of(a, "amount") {
                Some(t) => push_str(&mut out, t),
                None => push_char(&mut out, '0'),
            }
            push_char(&mut out, ' ');
            push_opt(&mut out, str_field_of(a, "code"));
            assert(out@ =~= amount_text(v@));
        },
        None => {
            match str_at(m) {
                Some(t) => push_str(&mut out, t),
                None => push_char(&mut out, '0'),
            }
            assert(out@ =~= amount_text(v@));
        },
    }
    out
}

/// The listing line of a client.
pub fn fmt_client_row(c: &Json) -> (r: String)
    ensures
        r@ == client_row(c@),
{
    let mut out = String::new();
    push_id_padded(&mut out, u64_field_of(c, "id"), 8);
    push_char(&mut out, ' ');
    push_opt(&mut out, str_field_of(c, "fname"));
    push_char(&mut out, ' ');
    push_opt_padded(&mut out, str_field_of(c, "lname"), 20);
    push_char(&mut out, ' ');
    push_opt_padded(&mut out, str_field_of(c, "email"), 32);
    push_char(&mut out, ' ');
    push_opt(&mut out, str_field_of(c, "organization"));
    assert(out@ =~= client_row(c@));
    out
}


/// The listing line of an invoice.
pub fn fmt_invoice_row(inv: &Json) -> (r: String)
    ensures
        r@ == invoice_row(inv@),
        forall|org: Seq<char>|
            str_in(member(inv@, "current_organization"@)) == Some(org) ==> ends_with(
                r@,
                pad_right(org, 24) + seq![' '] + or_empty(str_in(member(inv@, "create_date"@))),
            ),
        str_in(member(inv@, "current_organization"@)) is None ==> ends_with(
            r@,
            pad_right(or_empty(str_in(member(inv@, "fname"@))), 24) + seq![' '] + or_empty(
                str_in(member(inv@, "create_date"@)),
            ),
        ),
{
    proof {
        law_invoice_customer_column(inv@);
    }
    let mut out = String::new();
    push_id_padded(&mut out, u64_field_of(inv, "invoiceid"), 8);
    push_char(&mut out, ' ');
    push_char(&mut out, '#');
    push_opt_padded(&mut out, str_field_of(inv, "invoice_number"), 8);
    push_char(&mut out, ' ');
    let status = match str_field_of(inv, "v3_status") {
        Some(s) => Some(s),
        None => str_field_of(inv, "display_status"),
    };
    push_opt_padded(&mut out, status, 12);
    push_char(&mut out, ' ');
    let amount = amount_string(inv);
    push_padded(&mut out, amount.as_str(), 16);
    push_char(&mut out, ' ');
    let customer = match str_field_of(inv, "current_organization") {
        Some(s) => Some(s),
        None => str_field_of(inv, "fname"),
    };
    push_opt_padded(&mut out, customer, 24);
    push_char(&mut out, ' ');
    push_opt(&mut out, str_field_of(inv, "create_date"));
    assert(out@ =~= invoice_row(inv@));
    out
}

/// The listing line of an expense.
pub fn fmt_expense_row(e: &Json) -> (r: String)
    ensures
        r@ == expense_row(e@),
{
    let mut out = String::new();
    push_id_padded(&mut out, u64_field_of(e, "id"), 8);
    push_char(&mut out, ' ');
    let amount = amount_string(e);
    push_padded(&mut out, amount.as_str(), 16);
    push_char(&mut out, ' ');
    push_opt_padded(&mut out, str_field_of(e, "vendor"), 24);
    push_char(&mut out, ' ');
    push_opt_padded(&mut out, str_field_of(e, "date"), 12);
    push_char(&mut out, ' ');
    push_opt(&mut out, str_field_of(e, "notes"));
    assert(out@ =~= expense_row(e@));
    out
}

/// The listing line of a payment.
pub fn fmt_payment_row(p: &Json) -> (r: String)
    ensures
        r@ == payment_row(p@),
{
    let mut out = String::new();
    push_id_padded(&mut out, u64_field_of(p, "id"), 8);
    push_char(&mut out, ' ');
    let amount = amount_string(p);
    push_padded(&mut out, amount.as_str(), 16);
    push_char(&mut out, ' ');
    push_str(&mut out, "invoice:");
    push_id_padded(&mut out, u64_field_of(p, "invoiceid"), 8);
    push_char(&mut out, ' ');
    push_opt_padded(&mut out, str_field_of(p, "date"), 12);
    push_char(&mut out, ' ');
    push_opt(&mut out, str_field_of(p, "type"));
    assert(out@ =~= payment_row(p@));
    out
}

} // verus!
