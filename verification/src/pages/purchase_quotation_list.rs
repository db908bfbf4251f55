//! The purchase quotation list: its filter, query string and labels.
use vstd::prelude::*;
use crate::date::{parse_date_range, valid_day};
use crate::pages::purchase_order_list::order_date_bounds;
use crate::query::{
    amp_joined, as_deref, int_part, join_amp, opt_i16, opt_i64, opt_string, part_if_some,
    push_int_part, push_part_if_some,
};
use crate::status::PurchaseQuotationStatus;
use crate::text::views;

verus! {

/// Query of the purchase quotation list.
#[derive(Clone, Debug)]
pub struct PQQueryParams {
    pub keyword: Option<String>,
    pub status: Option<i16>,
    pub supplier_id: Option<i64>,
    pub date_range: Option<String>,
    pub page: Option<u32>,
}

/// What the list asks the quotation service for.
#[derive(Clone, Copy, Debug)]
pub struct PurchaseQuotationFilter {
    pub supplier_id: Option<i64>,
    pub status: Option<PurchaseQuotationStatus>,
    pub quotation_date_start: Option<i32>,
    pub quotation_date_end: Option<i32>,
}

pub fn build_filter(params: &PQQueryParams, today: i32) -> (r: PurchaseQuotationFilter)
    requires
        valid_day(today as int),
        valid_day(today - 92),
    ensures
        r.supplier_id == params.supplier_id,
        r.status == match params.status {
            Some(c) => PurchaseQuotationStatus::from_code(c),
            None => None,
        },
        (r.quotation_date_start, r.quotation_date_end) == order_date_bounds(
            opt_string(params.date_range),
            today,
        ),
{
    let (start, end) = match as_deref(&params.date_range) {
        Some(r) => parse_date_range(r, today),
        None => (None, None),
    };
    PurchaseQuotationFilter {
        supplier_id: params.supplier_id,
        status: match params.status {
            Some(c) => PurchaseQuotationStatus::from_i16(c),
            None => None,
        },
        quotation_date_start: start,
        quotation_date_end: end,
    }
}

/// The list's query string: keyword, state, supplier and date range, each
/// when given, joined with `&`.
pub open spec fn pq_query(p: PQQueryParams) -> Seq<char> {
    amp_joined(
        part_if_some("keyword="@, opt_string(p.keyword)) + int_part("status="@, opt_i16(p.status))
            + int_part("supplier_id="@, opt_i64(p.supplier_id)) + part_if_some(
            "date_range="@,
            opt_string(p.date_range),
        ),
    )
}

pub fn build_query_string(params: &PQQueryParams) -> (r: String)
    ensures
        r@ == pq_query(*params),
{
    let mut q: Vec<String> = Vec::new();
    push_part_if_some(&mut q, "keyword=", as_deref(&params.keyword));
    push_int_part(&mut q, "status=", match params.status { Some(s) => Some(s as i64), None => None });
    push_int_part(&mut q, "supplier_id=", params.supplier_id);
    push_part_if_some(&mut q, "date_range=", as_deref(&params.date_range));
    assert(views(q@) =~= part_if_some("keyword="@, opt_string(params.keyword)) + int_part(
        "status="@,
        opt_i16(params.status),
    ) + int_part("supplier_id="@, opt_i64(params.supplier_id)) + part_if_some(
        "date_range="@,
        opt_string(params.date_range),
    ));
    join_amp(&q)
}

pub open spec fn list_status_text(s: PurchaseQuotationStatus) -> (Seq<char>, Seq<char>) {
    match s {
        PurchaseQuotationStatus::Draft => ("草稿"@, "status-draft"@),
        PurchaseQuotationStatus::Active => ("已生效"@, "status-confirmed"@),
        PurchaseQuotationStatus::Expired => ("已过期"@, "status-cancelled"@),
        PurchaseQuotationStatus::Cancelled => ("已取消"@, "status-cancelled"@),
    }
}

/// Label and style class of a quotation state in the list.
pub fn status_label(s: PurchaseQuotationStatus) -> (r: (&'static str, &'static str))
    ensures
        (r.0@, r.1@) == list_status_text(s),
{
    match s {
        PurchaseQuotationStatus::Draft => ("草稿", "status-draft"),
        PurchaseQuotationStatus::Active => ("已生效", "status-confirmed"),
        PurchaseQuotationStatus::Expired => ("已过期", "status-cancelled"),
        PurchaseQuotationStatus::Cancelled => ("已取消", "status-cancelled"),
    }
}

} // verus!
