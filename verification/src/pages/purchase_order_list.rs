//! The purchase order list: its filter and labels.
use vstd::prelude::*;
use crate::date::{parse_date_range, range_start, valid_day};
use crate::query::{as_deref, opt_string};
use crate::status::{OrderInvoiceStatus, PurchaseOrderStatus};

verus! {

/// Query of the purchase order list.
#[derive(Clone, Debug)]
pub struct POQueryParams {
    pub keyword: Option<String>,
    pub status: Option<i16>,
    pub supplier_id: Option<i64>,
    pub date_range: Option<String>,
    pub page: Option<u32>,
}

/// What the list asks the order service for.
#[derive(Clone, Debug)]
pub struct PurchaseOrderFilter {
    pub supplier_id: Option<i64>,
    pub status: Option<PurchaseOrderStatus>,
    pub statuses: Option<Vec<PurchaseOrderStatus>>,
    pub order_date_start: Option<i32>,
    pub order_date_end: Option<i32>,
}

/// The state filter: code 2 ("in transit") stands for the confirmed and the
/// partially received orders together; any other code for the one state it
/// names, if any.
pub open spec fn status_filter_of(code: Option<i16>) -> (Option<PurchaseOrderStatus>, Option<
    Seq<PurchaseOrderStatus>,
>) {
    match code {
        Some(2) => (
            None,
            Some(seq![PurchaseOrderStatus::Confirmed, PurchaseOrderStatus::PartiallyReceived]),
        ),
        Some(c) => (PurchaseOrderStatus::from_code(c), None),
        None => (None, None),
    }
}

pub open spec fn opt_vec_view(o: Option<Vec<PurchaseOrderStatus>>) -> Option<Seq<PurchaseOrderStatus>> {
    match o {
        Some(v) => Some(v@),
        None => None,
    }
}

/// The date bounds of the `date_range` value, if given.
pub open spec fn order_date_bounds(range: Option<Seq<char>>, today: i32) -> (Option<i32>, Option<i32>) {
    match range {
        Some(r) => (range_start(r, today), None),
        None => (None, None),
    }
}

/// The order filter of the list's query, `today` being the current day.
pub fn build_filter(params: &POQueryParams, today: i32) -> (r: PurchaseOrderFilter)
    requires
        valid_day(today as int),
        valid_day(today - 92),
    ensures
        r.supplier_id == params.supplier_id,
        (r.status, opt_vec_view(r.statuses)) == status_filter_of(params.status),
        (r.order_date_start, r.order_date_end) == order_date_bounds(
            opt_string(params.date_range),
            today,
        ),
{
    let (start, end) = match as_deref(&params.date_range) {
        Some(r) => parse_date_range(r, today),
        None => (None, None),
    };
    let (status, statuses) = match params.status {
        Some(2) => {
            let mut v: Vec<PurchaseOrderStatus> = Vec::new();
            v.push(PurchaseOrderStatus::Confirmed);
            v.push(PurchaseOrderStatus::PartiallyReceived);
            assert(v@ =~= seq![
                PurchaseOrderStatus::Confirmed,
                PurchaseOrderStatus::PartiallyReceived,
            ]);
            (None, Some(v))
        },
        Some(c) => (PurchaseOrderStatus::from_i16(c), None),
        None => (None, None),
    };
    PurchaseOrderFilter {
        supplier_id: params.supplier_id,
        status,
        statuses,
        order_date_start: start,
        order_date_end: end,
    }
}

/// The list's state filter: code 2 (in transit) asks for exactly the
/// confirmed and the partially received orders; any other code asks for the
/// one state that carries it, or for none when no state does; no code asks
/// for nothing.
pub proof fn law_status_filter(code: i16)
    ensures
        code == 2 ==> (status_filter_of(Some(code)).0 is None && (status_filter_of(Some(code)).1 matches Some(v)
            && v.len() == 2 && v.no_duplicates() && forall|s: PurchaseOrderStatus| (#[trigger] v.contains(s))
            <==> (s == PurchaseOrderStatus::Confirmed || s == PurchaseOrderStatus::PartiallyReceived))),
        code != 2 ==> (status_filter_of(Some(code)).1 is None && match status_filter_of(Some(code)).0 {
            Some(s) => s.spec_code() == code,
            None => forall|s: PurchaseOrderStatus| s.spec_code() != code,
        }),
        status_filter_of(None) == (None::<PurchaseOrderStatus>, None::<Seq<PurchaseOrderStatus>>),
{
    if code == 2 {
        let v = seq![PurchaseOrderStatus::Confirmed, PurchaseOrderStatus::PartiallyReceived];
        assert forall|s: PurchaseOrderStatus| (#[trigger] v.contains(s)) <==> (s == PurchaseOrderStatus::Confirmed
            || s == PurchaseOrderStatus::PartiallyReceived) by {
            if s == PurchaseOrderStatus::Confirmed {
                assert(v[0] == s);
            }
            if s == PurchaseOrderStatus::PartiallyReceived {
                assert(v[1] == s);
            }
        }
    }
}

/// The list's date filter sets only a start day: 7 or 30 days before today
/// for `7d` and `30d`, three calendar months before for `3m`, and none for
/// any other value or when there is no filter.
pub proof fn law_order_date_bounds(range: Seq<char>, today: i32)
    requires
        valid_day(today as int),
        valid_day(today - 92),
    ensures
        order_date_bounds(Some(range), today).1 is None,
        order_date_bounds(None, today) == (None::<i32>, None::<i32>),
        range == "7d"@ ==> order_date_bounds(Some(range), today).0 == Some((today - 7) as i32),
        range == "30d"@ ==> order_date_bounds(Some(range), today).0 == Some((today - 30) as i32),
        range == "3m"@ ==> order_date_bounds(Some(range), today).0 == crate::date::months_before(today, 3),
        (range != "7d"@ && range != "30d"@ && range != "3m"@) ==> order_date_bounds(Some(range), today).0 is None,
{
    reveal_strlit("7d");
    reveal_strlit("30d");
    reveal_strlit("3m");
    assert("7d"@.len() != "30d"@.len());
    assert("3m"@[0] != "7d"@[0]);
    assert("3m"@.len() != "30d"@.len());
}

pub open spec fn list_status_text(s: PurchaseOrderStatus) -> (Seq<char>, Seq<char>) {
    match s {
        PurchaseOrderStatus::Draft => ("草稿"@, "status-draft"@),
        PurchaseOrderStatus::Confirmed => ("在途"@, "status-confirmed"@),
        PurchaseOrderStatus::PartiallyReceived => ("部分收货"@, "status-partial"@),
        PurchaseOrderStatus::Received => ("已收货"@, "status-success"@),
        PurchaseOrderStatus::Closed => ("已关闭"@, "status-cancelled"@),
        PurchaseOrderStatus::Cancelled => ("已取消"@, "status-cancelled"@),
        PurchaseOrderStatus::PendingApproval => ("待审批"@, "status-pending"@),
    }
}

/// Label and style class of an order state in the list.
pub fn status_label(s: PurchaseOrderStatus) -> (r: (&'static str, &'static str))
    ensures
        (r.0@, r.1@) == list_status_text(s),
{
    match s {
        PurchaseOrderStatus::Draft => ("草稿", "status-draft"),
        PurchaseOrderStatus::Confirmed => ("在途", "status-confirmed"),
        PurchaseOrderStatus::PartiallyReceived => ("部分收货", "status-partial"),
        PurchaseOrderStatus::Received => ("已收货", "status-success"),
        PurchaseOrderStatus::Closed => ("已关闭", "status-cancelled"),
        PurchaseOrderStatus::Cancelled => ("已取消", "status-cancelled"),
        PurchaseOrderStatus::PendingApproval => ("待审批", "status-pending"),
    }
}

pub open spec fn list_invoice_text(s: OrderInvoiceStatus) -> (Seq<char>, Seq<char>) {
    match s {
        OrderInvoiceStatus::NoInvoice => ("未开票"@, "status-muted"@),
        OrderInvoiceStatus::ToInvoice => ("部分开票"@, "status-warning"@),
        OrderInvoiceStatus::FullyInvoiced => ("已开票"@, "status-success"@),
    }
}

/// Label and style class of an order's invoicing state in the list.
pub fn invoice_status_label(s: OrderInvoiceStatus) -> (r: (&'static str, &'static str))
    ensures
        (r.0@, r.1@) == list_invoice_text(s),
{
    match s {
        OrderInvoiceStatus::NoInvoice => ("未开票", "status-muted"),
        OrderInvoiceStatus::ToInvoice => ("部分开票", "status-warning"),
        OrderInvoiceStatus::FullyInvoiced => ("已开票", "status-success"),
    }
}

/// Whether an order in the list offers deletion: a draft, to a user who may
/// delete.
pub fn row_can_delete(s: PurchaseOrderStatus, may_delete: bool) -> (r: bool)
    ensures
        r == (s == PurchaseOrderStatus::Draft && may_delete),
{
    s == PurchaseOrderStatus::Draft && may_delete
}

} // verus!
