//! The purchase invoice list: filter, query string and labels.
use vstd::prelude::*;
use crate::query::{
    lemma_joined_parts, amp_joined, as_deref, int_part, join_amp, opt_i16, opt_i64, opt_string, part_if_some,
    push_int_part, push_part_if_some,
};
use crate::status::InvoiceStatus;
use crate::text::{copy_opt_text, int_text, owned, push_i64, push_str, views};

verus! {

/// Query of the invoice list.
#[derive(Clone, Debug)]
pub struct InvoiceQueryParams {
    pub supplier_id: Option<i64>,
    pub status: Option<i16>,
    pub period: Option<String>,
    pub page: Option<u32>,
}

/// What the list asks the invoice service for.
#[derive(Clone, Debug)]
pub struct PurchaseInvoiceFilter {
    pub supplier_id: Option<i64>,
    pub status: Option<InvoiceStatus>,
    pub period: Option<String>,
}

pub fn build_filter(params: &InvoiceQueryParams) -> (r: PurchaseInvoiceFilter)
    ensures
        r.supplier_id == params.supplier_id,
        r.status == match params.status {
            Some(c) => InvoiceStatus::from_code(c),
            None => None,
        },
        opt_string(r.period) == opt_string(params.period),
{
    PurchaseInvoiceFilter {
        supplier_id: params.supplier_id,
        status: match params.status {
            Some(c) => InvoiceStatus::from_i16(c),
            None => None,
        },
        period: copy_opt_text(&params.period),
    }
}

/// The page number part: only for pages after the first.
pub open spec fn page_part(page: Option<u32>) -> Seq<Seq<char>> {
    match page {
        Some(p) => if p > 1 {
            seq!["page="@ + int_text(p as int)]
        } else {
            Seq::empty()
        },
        None => Seq::empty(),
    }
}

/// The list's query string: supplier, state, period and page (after the
/// first), each when given, joined with `&` behind a `?`; empty when there
/// is none.
pub open spec fn invoice_query(p: InvoiceQueryParams) -> Seq<char> {
    let parts = int_part("supplier_id="@, opt_i64(p.supplier_id)) + int_part(
        "status="@,
        opt_i16(p.status),
    ) + part_if_some("period="@, opt_string(p.period)) + page_part(p.page);
    if parts.len() == 0 {
        Seq::empty()
    } else {
        seq!['?'] + amp_joined(parts)
    }
}

/// The list's query string is empty exactly when no supplier, state or
/// period is given and the page is the first; otherwise it starts with `?`.
/// A parameter given alone makes it `?key=value`.
pub proof fn law_invoice_query_parts(p: InvoiceQueryParams)
    ensures
        invoice_query(p).len() == 0 <==> (p.supplier_id is None && p.status is None && p.period is None
            && (p.page is None || p.page->0 <= 1)),
        invoice_query(p).len() > 0 ==> invoice_query(p)[0] == '?',
        (p.supplier_id is Some && p.status is None && p.period is None && (p.page is None || p.page->0 <= 1))
            ==> invoice_query(p) == "?supplier_id="@ + int_text((p.supplier_id->0) as int),
        (p.status is Some && p.supplier_id is None && p.period is None && (p.page is None || p.page->0 <= 1))
            ==> invoice_query(p) == "?status="@ + int_text((p.status->0) as int),
        (p.period is Some && p.supplier_id is None && p.status is None && (p.page is None || p.page->0 <= 1))
            ==> invoice_query(p) == "?period="@ + (p.period->0)@,
        (p.page is Some && p.page->0 > 1 && p.supplier_id is None && p.status is None && p.period is None)
            ==> invoice_query(p) == "?page="@ + int_text((p.page->0) as int),
{
    reveal_strlit("supplier_id=");
    reveal_strlit("status=");
    reveal_strlit("period=");
    reveal_strlit("page=");
    reveal_strlit("?supplier_id=");
    reveal_strlit("?status=");
    reveal_strlit("?period=");
    reveal_strlit("?page=");
    let ps = int_part("supplier_id="@, opt_i64(p.supplier_id)) + int_part("status="@, opt_i16(p.status))
        + part_if_some("period="@, opt_string(p.period)) + page_part(p.page);
    assert forall|i: int| 0 <= i < ps.len() implies (#[trigger] ps[i]).len() > 0 by {}
    lemma_joined_parts(ps);
    if ps.len() == 1 {
        assert(seq!['?'] + ("supplier_id="@ + int_text((p.supplier_id->0) as int)) =~= "?supplier_id="@ + int_text((p.supplier_id->0) as int));
        assert(seq!['?'] + ("status="@ + int_text((p.status->0) as int)) =~= "?status="@ + int_text((p.status->0) as int));
        assert(seq!['?'] + ("period="@ + (p.period->0)@) =~= "?period="@ + (p.period->0)@);
        assert(seq!['?'] + ("page="@ + int_text((p.page->0) as int)) =~= "?page="@ + int_text((p.page->0) as int));
    }
}

pub fn build_query_string(params: &InvoiceQueryParams) -> (r: String)
    ensures
        r@ == invoice_query(*params),
{
    let mut parts: Vec<String> = Vec::new();
    push_int_part(&mut parts, "supplier_id=", params.supplier_id);
    push_int_part(&mut parts, "status=", match params.status { Some(s) => Some(s as i64), None => None });
    push_part_if_some(&mut parts, "period=", as_deref(&params.period));
    match params.page {
        Some(v) => if v > 1 {
            let mut p = owned("page=");
            push_i64(&mut p, v as i64);
            parts.push(p);
        },
        None => {},
    }
    assert(views(parts@) =~= int_part("supplier_id="@, opt_i64(params.supplier_id)) + int_part(
        "status="@,
        opt_i16(params.status),
    ) + part_if_some("period="@, opt_string(params.period)) + page_part(params.page));
    if parts.len() == 0 {
        String::new()
    } else {
        let mut s = owned("?");
        let j = join_amp(&parts);
        push_str(&mut s, j.as_str());
        assert(s@ =~= seq!['?'] + amp_joined(views(parts@))) by {
            reveal_strlit("?");
        }
        s
    }
}

pub open spec fn invoice_status_text(s: InvoiceStatus) -> (Seq<char>, Seq<char>, Seq<char>) {
    match s {
        InvoiceStatus::Draft => ("Draft"@, "rgba(0,0,0,0.04)"@, "var(--muted)"@),
        InvoiceStatus::Posted => ("Posted"@, "rgba(22,163,74,0.08)"@, "#16a34a"@),
        InvoiceStatus::Cancelled => ("Cancelled"@, "rgba(220,38,38,0.08)"@, "#dc2626"@),
    }
}

/// Label, background and colour of an invoice state.
pub fn status_label(s: &InvoiceStatus) -> (r: (&'static str, &'static str, &'static str))
    ensures
        (r.0@, r.1@, r.2@) == invoice_status_text(*s),
{
    match s {
        InvoiceStatus::Draft => ("Draft", "rgba(0,0,0,0.04)", "var(--muted)"),
        InvoiceStatus::Posted => ("Posted", "rgba(22,163,74,0.08)", "#16a34a"),
        InvoiceStatus::Cancelled => ("Cancelled", "rgba(220,38,38,0.08)", "#dc2626"),
    }
}

/// The supplier shown on a row: its name when known, else `#` and its id.
pub fn supplier_display(name: Option<&str>, supplier_id: i64) -> (r: String)
    ensures
        r@ == match crate::query::opt_str(name) {
            Some(n) => n,
            None => "#"@ + int_text(supplier_id as int),
        },
{
    match name {
        Some(n) => owned(n),
        None => {
            let mut s = owned("#");
            push_i64(&mut s, supplier_id);
            s
        },
    }
}

} // verus!
