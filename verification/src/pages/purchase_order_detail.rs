//! The purchase order page: labels, the step bar, which actions the order
//! offers, its receiving progress, and reading item changes and merges.
use vstd::prelude::*;
use crate::decimal::{all_wf, dec_checked_div, dec_checked_mul, dec_checked_sub, dec_round_dp, dec_sum, dec_text, decimal_checked_div, decimal_checked_mul, decimal_checked_sub, decimal_round_dp, decimal_text, opt_parts, opt_wf, sum_parts, Dec};
use crate::decimal::decimal_parse;
use crate::form::{opt_dec, opt_dec_or_zero, parse_opt_dec, parse_opt_dec_or_zero, positive_id, parse_positive_id, text_or_empty};
use crate::pages::purchase_order_create::CreateOrderItemRequest;
use crate::query::opt_string;
use crate::status::{OrderInvoiceStatus, PurchaseOrderStatus};
use crate::text::{owned, push_str, same_text};
use crate::workflow::{bar_of, step_bar, StepBar, StepState};

verus! {

pub open spec fn order_status_text(s: PurchaseOrderStatus) -> (Seq<char>, Seq<char>) {
    match s {
        PurchaseOrderStatus::Draft => ("草稿"@, "status-draft"@),
        PurchaseOrderStatus::Confirmed => ("已确认"@, "status-confirmed"@),
        PurchaseOrderStatus::PartiallyReceived => ("部分收货"@, "status-partial"@),
        PurchaseOrderStatus::Received => ("已收货"@, "status-shipped"@),
        PurchaseOrderStatus::Closed => ("已关闭"@, "status-completed"@),
        PurchaseOrderStatus::Cancelled => ("已取消"@, "status-cancelled"@),
        PurchaseOrderStatus::PendingApproval => ("待审批"@, "status-pending"@),
    }
}

/// Label and style class of an order state on the order page.
pub fn status_label(s: PurchaseOrderStatus) -> (r: (&'static str, &'static str))
    ensures
        (r.0@, r.1@) == order_status_text(s),
{
    match s {
        PurchaseOrderStatus::Draft => ("草稿", "status-draft"),
        PurchaseOrderStatus::Confirmed => ("已确认", "status-confirmed"),
        PurchaseOrderStatus::PartiallyReceived => ("部分收货", "status-partial"),
        PurchaseOrderStatus::Received => ("已收货", "status-shipped"),
        PurchaseOrderStatus::Closed => ("已关闭", "status-completed"),
        PurchaseOrderStatus::Cancelled => ("已取消", "status-cancelled"),
        PurchaseOrderStatus::PendingApproval => ("待审批", "status-pending"),
    }
}

pub open spec fn invoice_status_text(s: OrderInvoiceStatus) -> (Seq<char>, Seq<char>) {
    match s {
        OrderInvoiceStatus::NoInvoice => ("未开票"@, "status-draft"@),
        OrderInvoiceStatus::ToInvoice => ("待开票"@, "status-pending"@),
        OrderInvoiceStatus::FullyInvoiced => ("已开票"@, "status-completed"@),
    }
}

/// Label and style class of an order's invoicing state on the order page.
pub fn invoice_status_label(s: OrderInvoiceStatus) -> (r: (&'static str, &'static str))
    ensures
        (r.0@, r.1@) == invoice_status_text(s),
{
    match s {
        OrderInvoiceStatus::NoInvoice => ("未开票", "status-draft"),
        OrderInvoiceStatus::ToInvoice => ("待开票", "status-pending"),
        OrderInvoiceStatus::FullyInvoiced => ("已开票", "status-completed"),
    }
}

// ── Step bar ──

/// Where an order stands in the flow draft → confirmed → partially received
/// → received → closed; a state off that flow counts as its first step.
pub open spec fn order_step(s: PurchaseOrderStatus) -> int {
    match s {
        PurchaseOrderStatus::Draft => 0,
        PurchaseOrderStatus::Confirmed => 1,
        PurchaseOrderStatus::PartiallyReceived => 2,
        PurchaseOrderStatus::Received => 3,
        PurchaseOrderStatus::Closed => 4,
        _ => 0,
    }
}

/// The order's step bar: five steps at the order's step, all greyed out when
/// the order is cancelled.
pub fn workflow_steps(current: PurchaseOrderStatus) -> (b: StepBar)
    ensures
        ({
            let c = current == PurchaseOrderStatus::Cancelled;
            bar_of(b, 5, order_step(current), c, c)
        }),
{
    let idx: usize = match current {
        PurchaseOrderStatus::Draft => 0,
        PurchaseOrderStatus::Confirmed => 1,
        PurchaseOrderStatus::PartiallyReceived => 2,
        PurchaseOrderStatus::Received => 3,
        PurchaseOrderStatus::Closed => 4,
        _ => 0,
    };
    let cancelled = current == PurchaseOrderStatus::Cancelled;
    step_bar(5, idx, cancelled, cancelled)
}

/// On an order that is not cancelled, the bar's current step is the one
/// labelled with the order's own state, the steps before it are done and
/// those after it still to come, and the lines up to it are drawn completed;
/// a state that has no step of its own (awaiting approval) stands at the
/// first step.
pub proof fn law_order_bar_at_status(s: PurchaseOrderStatus, b: StepBar)
    requires
        s != PurchaseOrderStatus::Cancelled,
        bar_of(b, 5, order_step(s), false, false),
    ensures
        forall|i: int|
            0 <= i < 5 ==> (#[trigger] b.steps@[i] == StepState::Current <==> (order_step_labels()[i]
                == order_status_text(s).0 || (i == 0 && forall|k: int|
                0 <= k < 5 ==> order_step_labels()[k] != order_status_text(s).0))),
        forall|i: int|
            0 <= i < 5 ==> (#[trigger] b.steps@[i] == StepState::Done <==> exists|k: int|
                i < k < 5 && order_step_labels()[k] == order_status_text(s).0),
{
    reveal_strlit("草稿");
    reveal_strlit("已确认");
    reveal_strlit("部分收货");
    reveal_strlit("已收货");
    reveal_strlit("已关闭");
    reveal_strlit("已取消");
    reveal_strlit("待审批");
    let l = order_step_labels();
    let t = order_status_text(s).0;
    assert(l[0].len() == 2 && l[1].len() == 3 && l[2].len() == 4 && l[3].len() == 3);
    assert(l[1][1] != l[3][1] && l[1][1] != l[4][1]);
    assert(l[0] != l[1] && l[0] != l[2] && l[0] != l[3] && l[0] != l[4]);
    assert(l[1] != l[2] && l[1] != l[3] && l[1] != l[4]);
    assert(l[2] != l[3] && l[2] != l[4]);
    assert(l[3] != l[4]);
    assert(l[order_step(s)] == t || forall|k: int| 0 <= k < 5 ==> l[k] != t);
    assert forall|i: int| 0 <= i < 5 implies (#[trigger] b.steps@[i] == StepState::Done <==> exists|k: int|
        i < k < 5 && l[k] == t) by {
        if i < order_step(s) {
            assert(l[order_step(s)] == t);
        }
    }
}

/// The labels of the order's steps, in order.
pub open spec fn order_step_labels() -> Seq<Seq<char>> {
    seq!["草稿"@, "已确认"@, "部分收货"@, "已收货"@, "已关闭"@]
}

/// The labels of the order's steps, in order.
pub fn workflow_labels() -> (r: Vec<&'static str>)
    ensures
        r@.len() == 5,
        forall|i: int| 0 <= i < 5 ==> (#[trigger] r@[i])@ == order_step_labels()[i],
        r@[0]@ == "草稿"@,
        r@[1]@ == "已确认"@,
        r@[2]@ == "部分收货"@,
        r@[3]@ == "已收货"@,
        r@[4]@ == "已关闭"@,
{
    let mut r: Vec<&'static str> = Vec::new();
    r.push("草稿");
    r.push("已确认");
    r.push("部分收货");
    r.push("已收货");
    r.push("已关闭");
    r
}

/// What the bar shows after its steps: `已取消` for a cancelled order.
pub fn workflow_tail(s: PurchaseOrderStatus) -> (r: Option<&'static str>)
    ensures
        match r {
            Some(t) => s == PurchaseOrderStatus::Cancelled && t@ == "已取消"@,
            None => s != PurchaseOrderStatus::Cancelled,
        },
{
    if s == PurchaseOrderStatus::Cancelled {
        Some("已取消")
    } else {
        None
    }
}

// ── Actions ──

/// The actions the order page offers.
#[derive(PartialEq, Eq, Structural, Clone, Copy, Debug)]
pub struct OrderActions {
    pub edit: bool,
    pub submit: bool,
    pub confirm: bool,
    pub cancel: bool,
    pub approve: bool,
    pub reject: bool,
}

/// A draft can be edited, submitted for approval, confirmed directly or
/// cancelled; an order awaiting approval can be approved or sent back;
/// any other order offers nothing.
pub fn order_actions(s: PurchaseOrderStatus) -> (a: OrderActions)
    ensures
        a.edit == (s == PurchaseOrderStatus::Draft),
        a.submit == (s == PurchaseOrderStatus::Draft),
        a.confirm == (s == PurchaseOrderStatus::Draft),
        a.cancel == (s == PurchaseOrderStatus::Draft),
        a.approve == (s == PurchaseOrderStatus::PendingApproval),
        a.reject == (s == PurchaseOrderStatus::PendingApproval),
{
    let draft = s == PurchaseOrderStatus::Draft;
    let pending = s == PurchaseOrderStatus::PendingApproval;
    OrderActions {
        edit: draft,
        submit: draft,
        confirm: draft,
        cancel: draft,
        approve: pending,
        reject: pending,
    }
}

// ── Percentages ──

/// `qty / total * 100` rounded to one decimal place, as `rust_decimal`
/// computes it; `None` where a step overflows.
pub open spec fn pct_value(qty: Dec, total: Dec) -> Option<(i128, u32)> {
    match decimal_checked_div(qty.parts(), total.parts()) {
        Some(q) => match decimal_checked_mul(q, (100i128, 0u32)) {
            Some(v) => Some(decimal_round_dp(v, 1)),
            None => None,
        },
        None => None,
    }
}

/// The text without a trailing `.0`.
pub open spec fn strip_point_zero(s: Seq<char>) -> Seq<char> {
    if s.len() >= 2 && s.subrange(s.len() - 2, s.len() as int) == ".0"@ {
        s.subrange(0, s.len() - 2)
    } else {
        s
    }
}

/// The share of `qty` in `total` as a percentage text: `0%` when the total
/// is not positive; else the rounded value without a trailing `.0`, then
/// `%`. `None` where the arithmetic overflows.
pub open spec fn pct_text(qty: Dec, total: Dec) -> Option<Seq<char>> {
    if total.value28() <= 0 {
        Some("0%"@)
    } else {
        match pct_value(qty, total) {
            Some(v) => Some(strip_point_zero(decimal_text(v)) + "%"@),
            None => None,
        }
    }
}

fn pct_of(qty: &Dec, total: &Dec) -> (r: Option<Dec>)
    requires
        qty.wf(),
        total.wf(),
    ensures
        opt_parts(r) == pct_value(*qty, *total),
        opt_wf(r),
{
    match dec_checked_div(qty, total) {
        Some(q) => match dec_checked_mul(&q, &Dec::from_int(100)) {
            Some(v) => Some(dec_round_dp(&v, 1)),
            None => None,
        },
        None => None,
    }
}

fn strip_trailing_point_zero(s: &String) -> (r: String)
    ensures
        r@ == strip_point_zero(s@),
{
    let cs = crate::text::chars_of(s.as_str());
    let n = cs.len();
    let cut = n >= 2 && cs[n - 2] == '.' && cs[n - 1] == '0';
    proof {
        if n >= 2 {
            let t = s@.subrange(n - 2, n as int);
            assert(cut ==> t =~= ".0"@) by {
                reveal_strlit(".0");
            }
            assert(t == ".0"@ ==> cut) by {
                reveal_strlit(".0");
                if t == ".0"@ {
                    assert(t[0] == '.');
                    assert(t[1] == '0');
                }
            }
        }
    }
    let end = if cut {
        n - 2
    } else {
        n
    };
    let mut r = String::new();
    let mut i: usize = 0;
    while i < end
        invariant
            i <= end <= n,
            cs@ == s@,
            n == cs@.len(),
            r@ == s@.subrange(0, i as int),
        decreases end - i,
    {
        crate::text::push_char(&mut r, cs[i]);
        i = i + 1;
        assert(r@ =~= s@.subrange(0, i as int));
    }
    assert(!cut ==> s@.subrange(0, n as int) =~= s@);
    r
}

pub fn fmt_pct_str(qty: &Dec, total: &Dec) -> (r: Option<String>)
    requires
        qty.wf(),
        total.wf(),
    ensures
        opt_string(r) == pct_text(*qty, *total),
{
    proof {
        crate::decimal::lemma_value28_sign(*total);
    }
    if !total.is_positive() {
        return Some(owned("0%"));
    }
    match pct_of(qty, total) {
        Some(v) => {
            let t = dec_text(&v);
            let mut s = strip_trailing_point_zero(&t);
            push_str(&mut s, "%");
            Some(s)
        },
        None => None,
    }
}

/// The width style of a progress bar segment: `width:0%` when the total is
/// not positive, else `width:` and the rounded percentage and `%`.
pub open spec fn pct_style(qty: Dec, total: Dec) -> Option<Seq<char>> {
    if total.value28() <= 0 {
        Some("width:0%"@)
    } else {
        match pct_value(qty, total) {
            Some(v) => Some("width:"@ + decimal_text(v) + "%"@),
            None => None,
        }
    }
}

pub fn fmt_pct_style(qty: &Dec, total: &Dec) -> (r: Option<String>)
    requires
        qty.wf(),
        total.wf(),
    ensures
        opt_string(r) == pct_style(*qty, *total),
{
    proof {
        crate::decimal::lemma_value28_sign(*total);
    }
    if !total.is_positive() {
        return Some(owned("width:0%"));
    }
    match pct_of(qty, total) {
        Some(v) => {
            let mut s = owned("width:");
            let t = dec_text(&v);
            push_str(&mut s, t.as_str());
            push_str(&mut s, "%");
            Some(s)
        },
        None => None,
    }
}

/// A progress figure's text and its bar's width show the same percentage:
/// the width is `width:`, a number and `%`, and the text is that number
/// without a trailing `.0`, then `%`; both are `0%` when the total is not
/// positive, and either both or neither can be written.
pub proof fn law_pct_text_matches_width(qty: Dec, total: Dec)
    ensures
        pct_text(qty, total) is Some <==> pct_style(qty, total) is Some,
        total.value28() <= 0 ==> (pct_text(qty, total) == Some("0%"@) && pct_style(qty, total) == Some(
            "width:0%"@,
        )),
        pct_style(qty, total) matches Some(w) ==> ({
            &&& w.len() >= 7
            &&& w.subrange(0, 6) == "width:"@
            &&& w.last() == '%'
            &&& pct_text(qty, total) == Some(strip_point_zero(w.subrange(6, w.len() - 1)) + "%"@)
        }),
{
    reveal_strlit("width:");
    reveal_strlit("width:0%");
    reveal_strlit("0%");
    reveal_strlit("%");
    reveal_strlit("0");
    if let Some(w) = pct_style(qty, total) {
        if total.value28() <= 0 {
            assert(w.subrange(0, 6) =~= "width:"@);
            assert(w.subrange(6, w.len() - 1) =~= "0"@);
            assert("0"@.len() == 1);
            assert(strip_point_zero("0"@) == "0"@);
            assert("0"@ + "%"@ =~= "0%"@);
        } else {
            let d = decimal_text(pct_value(qty, total)->0);
            assert(w == "width:"@ + d + "%"@);
            assert(w.subrange(0, 6) =~= "width:"@);
            assert(w.subrange(6, w.len() - 1) =~= d);
        }
    }
}

// ── Receiving progress ──

/// The quantities of one order line.
#[derive(PartialEq, Eq, Structural, Clone, Copy, Debug)]
pub struct LineQuantities {
    pub quantity: Dec,
    pub received_qty: Dec,
    pub inspected_qty: Dec,
    pub returned_qty: Dec,
}

/// The order's totals: ordered, received, inspected, returned, and still to
/// receive (ordered less received less returned).
#[derive(PartialEq, Eq, Structural, Clone, Copy, Debug)]
pub struct OrderProgress {
    pub total: Dec,
    pub received: Dec,
    pub inspected: Dec,
    pub returned: Dec,
    pub pending: Dec,
}

pub open spec fn lines_wf(lines: Seq<LineQuantities>) -> bool {
    forall|i: int|
        0 <= i < lines.len() ==> {
            &&& (#[trigger] lines[i]).quantity.wf()
            &&& lines[i].received_qty.wf()
            &&& lines[i].inspected_qty.wf()
            &&& lines[i].returned_qty.wf()
        }
}

pub open spec fn quantities(lines: Seq<LineQuantities>) -> Seq<Dec> {
    lines.map_values(|l: LineQuantities| l.quantity)
}

pub open spec fn received(lines: Seq<LineQuantities>) -> Seq<Dec> {
    lines.map_values(|l: LineQuantities| l.received_qty)
}

pub open spec fn inspected(lines: Seq<LineQuantities>) -> Seq<Dec> {
    lines.map_values(|l: LineQuantities| l.inspected_qty)
}

pub open spec fn returned(lines: Seq<LineQuantities>) -> Seq<Dec> {
    lines.map_values(|l: LineQuantities| l.returned_qty)
}

/// The progress of the lines, `None` where a sum or difference overflows.
pub open spec fn progress_of(lines: Seq<LineQuantities>) -> Option<(
    (i128, u32),
    (i128, u32),
    (i128, u32),
    (i128, u32),
    (i128, u32),
)> {
    match (
        sum_parts(quantities(lines)),
        sum_parts(received(lines)),
        sum_parts(inspected(lines)),
        sum_parts(returned(lines)),
    ) {
        (Some(t), Some(r), Some(i), Some(x)) => match decimal_checked_sub(t, r) {
            Some(a) => match decimal_checked_sub(a, x) {
                Some(p) => Some((t, r, i, x, p)),
                None => None,
            },
            None => None,
        },
        _ => None,
    }
}

fn column(lines: &Vec<LineQuantities>, which: u8) -> (r: Vec<Dec>)
    requires
        lines_wf(lines@),
    ensures
        which == 0 ==> r@ == quantities(lines@),
        which == 1 ==> r@ == received(lines@),
        which == 2 ==> r@ == inspected(lines@),
        which == 3 ==> r@ == returned(lines@),
        all_wf(r@),
{
    let mut r: Vec<Dec> = Vec::new();
    let mut i: usize = 0;
    while i < lines.len()
        invariant
            i <= lines.len(),
            lines_wf(lines@),
            r@.len() == i,
            forall|j: int|
                0 <= j < i ==> #[trigger] r@[j] == if which == 0 {
                    lines@[j].quantity
                } else if which == 1 {
                    lines@[j].received_qty
                } else if which == 2 {
                    lines@[j].inspected_qty
                } else {
                    lines@[j].returned_qty
                },
            all_wf(r@),
        decreases lines.len() - i,
    {
        let l = lines[i];
        assert(l == lines@[i as int]);
        let v = if which == 0 {
            l.quantity
        } else if which == 1 {
            l.received_qty
        } else if which == 2 {
            l.inspected_qty
        } else {
            l.returned_qty
        };
        r.push(v);
        i = i + 1;
    }
    proof {
        if which == 0 {
            assert(r@ =~= quantities(lines@));
        } else if which == 1 {
            assert(r@ =~= received(lines@));
        } else if which == 2 {
            assert(r@ =~= inspected(lines@));
        } else if which == 3 {
            assert(r@ =~= returned(lines@));
        }
    }
    r
}

/// The order's receiving progress from its lines.
pub fn order_progress(lines: &Vec<LineQuantities>) -> (r: Option<OrderProgress>)
    requires
        lines_wf(lines@),
    ensures
        match r {
            Some(p) => progress_of(lines@) == Some(
                (
                    p.total.parts(),
                    p.received.parts(),
                    p.inspected.parts(),
                    p.returned.parts(),
                    p.pending.parts(),
                ),
            ) && p.total.wf() && p.received.wf() && p.inspected.wf() && p.returned.wf()
                && p.pending.wf(),
            None => progress_of(lines@) is None,
        },
{
    let t = dec_sum(&column(lines, 0));
    let rc = dec_sum(&column(lines, 1));
    let ins = dec_sum(&column(lines, 2));
    let rt = dec_sum(&column(lines, 3));
    match (t, rc, ins, rt) {
        (Some(t), Some(rc), Some(ins), Some(rt)) => match dec_checked_sub(&t, &rc) {
            Some(a) => match dec_checked_sub(&a, &rt) {
                Some(p) => Some(
                    OrderProgress { total: t, received: rc, inspected: ins, returned: rt, pending: p },
                ),
                None => None,
            },
            None => None,
        },
        _ => None,
    }
}

/// Each figure of the progress is the sum of its own column of the lines
/// (ordered quantity, received, inspected, returned), and what is still to
/// receive is the ordered total less the received and the returned totals;
/// so lines that agree in a column give the same total for it, whatever
/// their other columns hold.
pub proof fn law_progress_columns(lines: Seq<LineQuantities>, other: Seq<LineQuantities>)
    requires
        progress_of(lines) is Some,
        progress_of(other) is Some,
        other.len() == lines.len(),
    ensures
        ({
            let (t, r, i, x, p) = progress_of(lines)->0;
            &&& Some(t) == sum_parts(lines.map_values(|l: LineQuantities| l.quantity))
            &&& Some(r) == sum_parts(lines.map_values(|l: LineQuantities| l.received_qty))
            &&& Some(i) == sum_parts(lines.map_values(|l: LineQuantities| l.inspected_qty))
            &&& Some(x) == sum_parts(lines.map_values(|l: LineQuantities| l.returned_qty))
            &&& decimal_checked_sub(t, r) matches Some(a) && decimal_checked_sub(a, x) == Some(p)
        }),
        (forall|k: int| 0 <= k < lines.len() ==> (#[trigger] lines[k]).quantity == other[k].quantity)
            ==> (progress_of(lines)->0).0 == (progress_of(other)->0).0,
        (forall|k: int| 0 <= k < lines.len() ==> (#[trigger] lines[k]).received_qty == other[k].received_qty)
            ==> (progress_of(lines)->0).1 == (progress_of(other)->0).1,
        (forall|k: int| 0 <= k < lines.len() ==> (#[trigger] lines[k]).inspected_qty == other[k].inspected_qty)
            ==> (progress_of(lines)->0).2 == (progress_of(other)->0).2,
        (forall|k: int| 0 <= k < lines.len() ==> (#[trigger] lines[k]).returned_qty == other[k].returned_qty)
            ==> (progress_of(lines)->0).3 == (progress_of(other)->0).3,
{
    assert(quantities(lines) =~= lines.map_values(|l: LineQuantities| l.quantity));
    assert(received(lines) =~= lines.map_values(|l: LineQuantities| l.received_qty));
    assert(inspected(lines) =~= lines.map_values(|l: LineQuantities| l.inspected_qty));
    assert(returned(lines) =~= lines.map_values(|l: LineQuantities| l.returned_qty));
    if forall|k: int| 0 <= k < lines.len() ==> (#[trigger] lines[k]).quantity == other[k].quantity {
        assert(quantities(lines) =~= quantities(other));
    }
    if forall|k: int| 0 <= k < lines.len() ==> (#[trigger] lines[k]).received_qty == other[k].received_qty {
        assert(received(lines) =~= received(other));
    }
    if forall|k: int| 0 <= k < lines.len() ==> (#[trigger] lines[k]).inspected_qty == other[k].inspected_qty {
        assert(inspected(lines) =~= inspected(other));
    }
    if forall|k: int| 0 <= k < lines.len() ==> (#[trigger] lines[k]).returned_qty == other[k].returned_qty {
        assert(returned(lines) =~= returned(other));
    }
}

// ── Item changes after confirmation ──

/// The item changes form: a JSON list of changes.
#[derive(Clone, Debug)]
pub struct ItemChangesForm {
    pub changes_json: String,
}

/// One change as the form sends it.
#[derive(Clone, Debug)]
pub struct ChangeItem {
    pub change_type: String,
    pub item_id: Option<i64>,
    pub product_id: Option<i64>,
    pub quantity: Option<String>,
    pub unit_price: Option<String>,
    pub description: Option<String>,
    pub discount_pct: Option<String>,
    pub tax_rate_id: Option<String>,
}

/// A change to the lines of a confirmed order.
#[derive(Clone, Debug)]
pub enum PoItemChange {
    AddItem(CreateOrderItemRequest),
    UpdateItem {
        item_id: i64,
        quantity: Option<Dec>,
        unit_price: Option<Dec>,
        discount_pct: Option<Dec>,
        tax_rate_id: Option<Option<i64>>,
    },
    RemoveItem { item_id: i64 },
}

/// Whether a change is taken: an `add` with a readable quantity and price
/// and a product; an `update` or `remove` with an item id; nothing else.
pub open spec fn change_kept(c: ChangeItem) -> bool {
    if c.change_type@ == "add"@ {
        opt_dec(opt_string(c.quantity)) is Some && opt_dec(opt_string(c.unit_price)) is Some
            && c.product_id is Some
    } else if c.change_type@ == "update"@ || c.change_type@ == "remove"@ {
        c.item_id is Some
    } else {
        false
    }
}

/// The tax rate of an update: absent when not sent, and when sent, the
/// positive id it holds or none.
pub open spec fn update_tax_rate(o: Option<Seq<char>>) -> Option<Option<i64>> {
    match o {
        Some(s) => Some(positive_id(Some(s))),
        None => None,
    }
}

/// What a kept change becomes.
pub open spec fn change_matches(out: PoItemChange, c: ChangeItem) -> bool {
    if c.change_type@ == "add"@ {
        out matches PoItemChange::AddItem(r) && {
            &&& Some(r.product_id) == c.product_id
            &&& r.line_no == 0
            &&& r.description@ == match opt_string(c.description) {
                Some(s) => s,
                None => Seq::<char>::empty(),
            }
            &&& Some(r.quantity.parts()) == opt_dec(opt_string(c.quantity))
            &&& Some(r.unit_price.parts()) == opt_dec(opt_string(c.unit_price))
            &&& r.quotation_item_id is None
            &&& r.expected_delivery_date is None
            &&& r.discount_pct.parts() == opt_dec_or_zero(opt_string(c.discount_pct))
            &&& r.tax_rate_id == positive_id(opt_string(c.tax_rate_id))
        }
    } else if c.change_type@ == "update"@ {
        out matches PoItemChange::UpdateItem { item_id, quantity, unit_price, discount_pct, tax_rate_id }
            && {
            &&& Some(item_id) == c.item_id
            &&& opt_parts(quantity) == opt_dec(opt_string(c.quantity))
            &&& opt_parts(unit_price) == opt_dec(opt_string(c.unit_price))
            &&& opt_parts(discount_pct) == opt_dec(opt_string(c.discount_pct))
            &&& tax_rate_id == update_tax_rate(opt_string(c.tax_rate_id))
        }
    } else {
        out matches PoItemChange::RemoveItem { item_id } && Some(item_id) == c.item_id
    }
}

/// The kept changes, in order.
pub open spec fn kept_changes(cs: Seq<ChangeItem>) -> Seq<ChangeItem>
    decreases cs.len(),
{
    if cs.len() == 0 {
        Seq::empty()
    } else if change_kept(cs.last()) {
        kept_changes(cs.drop_last()).push(cs.last())
    } else {
        kept_changes(cs.drop_last())
    }
}

fn read_change(c: &ChangeItem) -> (r: Option<PoItemChange>)
    ensures
        r is Some == change_kept(*c),
        r matches Some(out) ==> change_matches(out, *c),
{
    let t = c.change_type.as_str();
    if same_text(t, "add") {
        let q = match parse_opt_dec(&c.quantity) {
            Some(q) => q,
            None => {
                return None;
            },
        };
        let p = match parse_opt_dec(&c.unit_price) {
            Some(p) => p,
            None => {
                return None;
            },
        };
        let pid = match c.product_id {
            Some(v) => v,
            None => {
                return None;
            },
        };
        Some(
            PoItemChange::AddItem(
                CreateOrderItemRequest {
                    product_id: pid,
                    line_no: 0,
                    description: text_or_empty(&c.description),
                    quantity: q,
                    unit_price: p,
                    quotation_item_id: None,
                    expected_delivery_date: None,
                    discount_pct: parse_opt_dec_or_zero(&c.discount_pct),
                    tax_rate_id: parse_positive_id(&c.tax_rate_id),
                },
            ),
        )
    } else if same_text(t, "update") {
        let item_id = match c.item_id {
            Some(v) => v,
            None => {
                return None;
            },
        };
        let tax = match &c.tax_rate_id {
            Some(s) => {
                let o = Some(owned(s.as_str()));
                Some(parse_positive_id(&o))
            },
            None => None,
        };
        Some(
            PoItemChange::UpdateItem {
                item_id,
                quantity: parse_opt_dec(&c.quantity),
                unit_price: parse_opt_dec(&c.unit_price),
                discount_pct: parse_opt_dec(&c.discount_pct),
                tax_rate_id: tax,
            },
        )
    } else if same_text(t, "remove") {
        match c.item_id {
            Some(v) => Some(PoItemChange::RemoveItem { item_id: v }),
            None => None,
        }
    } else {
        None
    }
}

/// An update names its line by the item id it was sent with, and sets each of
/// quantity, unit price and discount that it sends in readable decimal form
/// to that value; a field not sent, or sent unreadable, is left as it is
/// (absent from the update). A tax rate sent sets the rate (to none when it
/// is not a positive id); one not sent leaves it.
pub proof fn law_update_sets_sent_fields(out: PoItemChange, c: ChangeItem)
    requires
        c.change_type@ == "update"@,
        change_matches(out, c),
    ensures
        out matches PoItemChange::UpdateItem { item_id, quantity, unit_price, discount_pct, tax_rate_id } && {
            &&& c.item_id == Some(item_id)
            &&& (c.quantity is None ==> quantity is None)
            &&& (c.quantity matches Some(q) ==> match decimal_parse(q@) {
                Some(v) => quantity matches Some(d) && d.parts() == v,
                None => quantity is None,
            })
            &&& (c.unit_price is None ==> unit_price is None)
            &&& (c.unit_price matches Some(q) ==> match decimal_parse(q@) {
                Some(v) => unit_price matches Some(d) && d.parts() == v,
                None => unit_price is None,
            })
            &&& (c.discount_pct is None ==> discount_pct is None)
            &&& (c.discount_pct matches Some(q) ==> match decimal_parse(q@) {
                Some(v) => discount_pct matches Some(d) && d.parts() == v,
                None => discount_pct is None,
            })
            &&& (c.tax_rate_id is None ==> tax_rate_id is None)
            &&& (c.tax_rate_id matches Some(t) ==> tax_rate_id == Some(positive_id(Some(t@))))
        },
{
    reveal_strlit("add");
    reveal_strlit("update");
    assert("add"@.len() != "update"@.len());
}

/// An added line is taken only with a product and a readable quantity and
/// unit price, and carries exactly those; it has no line number, quotation
/// line or delivery date of its own yet, its description is the one sent or
/// empty, its discount the one sent when readable and zero otherwise, and
/// its tax rate the positive id sent, if any.
pub proof fn law_add_reads_line(out: PoItemChange, c: ChangeItem)
    requires
        c.change_type@ == "add"@,
    ensures
        change_kept(c) <==> (c.product_id is Some && c.quantity is Some && decimal_parse(
            (c.quantity->0)@,
        ) is Some && c.unit_price is Some && decimal_parse((c.unit_price->0)@) is Some),
        change_matches(out, c) ==> (out matches PoItemChange::AddItem(r) && {
            &&& c.product_id == Some(r.product_id)
            &&& c.quantity is Some && decimal_parse((c.quantity->0)@) == Some(r.quantity.parts())
            &&& c.unit_price is Some && decimal_parse((c.unit_price->0)@) == Some(r.unit_price.parts())
            &&& r.line_no == 0 && r.quotation_item_id is None && r.expected_delivery_date is None
            &&& (c.description is None ==> r.description@.len() == 0)
            &&& (c.description is Some ==> r.description@ == (c.description->0)@)
            &&& (c.discount_pct is None ==> r.discount_pct.parts() == (0i128, 0u32))
            &&& (c.discount_pct is Some ==> r.discount_pct.parts() == match decimal_parse((c.discount_pct->0)@) {
                Some(v) => v,
                None => (0i128, 0u32),
            })
            &&& (r.tax_rate_id matches Some(t) ==> t > 0)
            &&& r.tax_rate_id == positive_id(opt_string(c.tax_rate_id))
        }),
{
}

/// An update or a removal is taken exactly when it names an item id, and a
/// removal then removes that item; a change of any other kind than `add`,
/// `update` or `remove` is never taken.
pub proof fn law_changes_kept(out: PoItemChange, c: ChangeItem)
    ensures
        (c.change_type@ == "update"@ || c.change_type@ == "remove"@) ==> (change_kept(c) <==> c.item_id is Some),
        (c.change_type@ != "add"@ && c.change_type@ != "update"@ && c.change_type@ != "remove"@) ==> !change_kept(c),
        (c.change_type@ == "remove"@ && change_matches(out, c)) ==> (out matches PoItemChange::RemoveItem { item_id }
            && c.item_id == Some(item_id)),
{
    reveal_strlit("add");
    reveal_strlit("update");
    reveal_strlit("remove");
    assert("add"@.len() != "update"@.len());
    assert("add"@.len() != "remove"@.len());
    assert("update"@[0] != "remove"@[0]);
}

/// The changes read are taken from those sent, in their order: every one is
/// a change that is taken, none is made up, all are read when all are
/// taken, and none when none is.
pub proof fn law_changes_in_order(cs: Seq<ChangeItem>)
    ensures
        kept_changes(cs).len() <= cs.len(),
        forall|j: int| 0 <= j < kept_changes(cs).len() ==> change_kept(#[trigger] kept_changes(cs)[j])
            && cs.contains(kept_changes(cs)[j]),
        (forall|i: int| 0 <= i < cs.len() ==> change_kept(#[trigger] cs[i])) ==> kept_changes(cs) == cs,
        (forall|i: int| 0 <= i < cs.len() ==> !change_kept(#[trigger] cs[i])) ==> kept_changes(cs).len() == 0,
    decreases cs.len(),
{
    if cs.len() > 0 {
        let d = cs.drop_last();
        law_changes_in_order(d);
        assert forall|j: int| 0 <= j < kept_changes(d).len() implies cs.contains(#[trigger] kept_changes(d)[j]) by {
            let i = choose|i: int| 0 <= i < d.len() && d[i] == kept_changes(d)[j];
            assert(cs[i] == d[i]);
        }
        assert(cs[cs.len() - 1] == cs.last());
        if forall|i: int| 0 <= i < cs.len() ==> change_kept(#[trigger] cs[i]) {
            assert forall|i: int| 0 <= i < d.len() implies change_kept(#[trigger] d[i]) by {
                assert(d[i] == cs[i]);
            }
            assert(change_kept(cs.last()));
            assert(d.push(cs.last()) =~= cs);
        }
        if forall|i: int| 0 <= i < cs.len() ==> !change_kept(#[trigger] cs[i]) {
            assert forall|i: int| 0 <= i < d.len() implies !change_kept(#[trigger] d[i]) by {
                assert(d[i] == cs[i]);
            }
            assert(!change_kept(cs.last()));
        }
    }
}

/// Reads the submitted changes: each kept change, in order, becomes the
/// change it names; the others are dropped.
pub fn read_item_changes(raw: &Vec<ChangeItem>) -> (r: Vec<PoItemChange>)
    ensures
        r@.len() == kept_changes(raw@).len(),
        forall|i: int| 0 <= i < r@.len() ==> change_matches(#[trigger] r@[i], kept_changes(raw@)[i]),
{
    let mut r: Vec<PoItemChange> = Vec::new();
    let mut i: usize = 0;
    assert(raw@.take(0) =~= Seq::<ChangeItem>::empty());
    while i < raw.len()
        invariant
            i <= raw.len(),
            r@.len() == kept_changes(raw@.take(i as int)).len(),
            forall|j: int|
                0 <= j < r@.len() ==> change_matches(
                    #[trigger] r@[j],
                    kept_changes(raw@.take(i as int))[j],
                ),
        decreases raw.len() - i,
    {
        assert(raw@.take(i + 1).drop_last() =~= raw@.take(i as int));
        assert(raw@.take(i + 1).last() == raw@[i as int]);
        match read_change(&raw[i]) {
            Some(c) => {
                r.push(c);
            },
            None => {},
        }
        i = i + 1;
    }
    assert(raw@.take(raw.len() as int) =~= raw@);
    r
}

/// The merge form: the ids of the orders to merge, comma-separated.
#[derive(Clone, Debug)]
pub struct MergeForm {
    pub order_ids: String,
}

/// The ids of the orders to merge.
pub fn merge_order_ids(form: &MergeForm) -> (r: Vec<i64>)
    ensures
        r@ == crate::text::id_list_value(form.order_ids@),
{
    crate::text::parse_id_list(form.order_ids.as_str())
}

/// An order line's received quantity and unit price.
#[derive(PartialEq, Eq, Structural, Clone, Copy, Debug)]
pub struct ReceivedLine {
    pub received_qty: Dec,
    pub unit_price: Dec,
}

/// The running total of received value over the first `n` lines: each
/// received quantity times its price, added up from zero; `None` where a
/// step overflows.
pub open spec fn received_amount_of(lines: Seq<ReceivedLine>, n: int) -> Option<(i128, u32)>
    decreases n,
{
    if n <= 0 {
        Some((0i128, 0u32))
    } else {
        match received_amount_of(lines, n - 1) {
            Some(acc) => match decimal_checked_mul(
                lines[n - 1].received_qty.parts(),
                lines[n - 1].unit_price.parts(),
            ) {
                Some(v) => crate::decimal::decimal_checked_add(acc, v),
                None => None,
            },
            None => None,
        }
    }
}

/// The value received so far on the order.
pub fn received_amount(lines: &Vec<ReceivedLine>) -> (r: Option<Dec>)
    requires
        forall|i: int|
            0 <= i < lines@.len() ==> (#[trigger] lines@[i]).received_qty.wf()
                && lines@[i].unit_price.wf(),
    ensures
        opt_parts(r) == received_amount_of(lines@, lines@.len() as int),
        opt_wf(r),
{
    let mut acc: Option<Dec> = Some(Dec::zero());
    let mut i: usize = 0;
    while i < lines.len()
        invariant
            i <= lines.len(),
            forall|k: int|
                0 <= k < lines@.len() ==> (#[trigger] lines@[k]).received_qty.wf()
                    && lines@[k].unit_price.wf(),
            opt_parts(acc) == received_amount_of(lines@, i as int),
            opt_wf(acc),
        decreases lines.len() - i,
    {
        let l = lines[i];
        assert(l == lines@[i as int]);
        acc = match acc {
            Some(a) => match dec_checked_mul(&l.received_qty, &l.unit_price) {
                Some(v) => crate::decimal::dec_checked_add(&a, &v),
                None => None,
            },
            None => None,
        };
        i = i + 1;
    }
    acc
}

} // verus!
