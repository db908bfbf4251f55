//! The purchase quotation page: label, step bar and actions.
use vstd::prelude::*;
use crate::query::opt_str;
use crate::status::PurchaseQuotationStatus;
use crate::text::owned;
use crate::workflow::{bar_of, step_bar, StepBar, StepState};

verus! {

pub open spec fn detail_status_text(s: PurchaseQuotationStatus) -> (Seq<char>, Seq<char>) {
    match s {
        PurchaseQuotationStatus::Draft => ("草稿"@, "status-draft"@),
        PurchaseQuotationStatus::Active => ("已生效"@, "status-confirmed"@),
        PurchaseQuotationStatus::Expired => ("已过期"@, "status-progress"@),
        PurchaseQuotationStatus::Cancelled => ("已取消"@, "status-cancelled"@),
    }
}

/// Label and style class of a quotation state on its page.
pub fn status_label(s: PurchaseQuotationStatus) -> (r: (&'static str, &'static str))
    ensures
        (r.0@, r.1@) == detail_status_text(s),
{
    match s {
        PurchaseQuotationStatus::Draft => ("草稿", "status-draft"),
        PurchaseQuotationStatus::Active => ("已生效", "status-confirmed"),
        PurchaseQuotationStatus::Expired => ("已过期", "status-progress"),
        PurchaseQuotationStatus::Cancelled => ("已取消", "status-cancelled"),
    }
}

/// Where a quotation stands in the flow draft → active.
pub open spec fn quotation_step(s: PurchaseQuotationStatus) -> int {
    if s == PurchaseQuotationStatus::Active {
        1
    } else {
        0
    }
}

/// The quotation's step bar: its steps are greyed out once it is cancelled
/// or expired, its line only once it is cancelled.
pub fn workflow_steps(current: PurchaseQuotationStatus) -> (b: StepBar)
    ensures
        bar_of(
            b,
            2,
            quotation_step(current),
            current == PurchaseQuotationStatus::Cancelled || current
                == PurchaseQuotationStatus::Expired,
            current == PurchaseQuotationStatus::Cancelled,
        ),
{
    let idx: usize = if current == PurchaseQuotationStatus::Active {
        1
    } else {
        0
    };
    let cancelled = current == PurchaseQuotationStatus::Cancelled;
    let expired = current == PurchaseQuotationStatus::Expired;
    step_bar(2, idx, cancelled || expired, cancelled)
}

/// The labels of the steps, in order.
pub open spec fn step_labels() -> Seq<Seq<char>> {
    seq!["草稿"@, "已生效"@]
}

/// On a quotation that is neither cancelled nor expired in its flow, the bar's current step is the one labelled
/// with its own state, and the steps before that one are done.
pub proof fn law_bar_at_status(s: PurchaseQuotationStatus, b: StepBar)
    requires
        s == PurchaseQuotationStatus::Draft || s == PurchaseQuotationStatus::Active,
        bar_of(b, 2, quotation_step(s), false, false),
    ensures
        forall|i: int|
            0 <= i < 2 ==> (#[trigger] b.steps@[i] == StepState::Current <==> step_labels()[i]
                == detail_status_text(s).0),
        forall|i: int|
            0 <= i < 2 ==> (#[trigger] b.steps@[i] == StepState::Done <==> exists|k: int|
                i < k < 2 && step_labels()[k] == detail_status_text(s).0),
{
    reveal_strlit("草稿");
    reveal_strlit("已生效");
    let l = step_labels();
    let t = detail_status_text(s).0;
    assert(l[quotation_step(s)] == t);
    assert forall|i: int| 0 <= i < 2 && i != quotation_step(s) implies (#[trigger] l[i]) != t by {
        assert(l[i][1] != t[1] || l[i].len() != t.len());
    }
    assert forall|i: int| 0 <= i < 2 implies (#[trigger] b.steps@[i] == StepState::Done <==> exists|k: int|
        i < k < 2 && l[k] == t) by {
        if i < quotation_step(s) {
            assert(l[quotation_step(s)] == t);
        }
    }
}

/// The labels of the quotation's steps, in order.
pub fn workflow_labels() -> (r: Vec<&'static str>)
    ensures
        r@.len() == 2,
        forall|i: int| 0 <= i < 2 ==> (#[trigger] r@[i])@ == step_labels()[i],
        r@[0]@ == "草稿"@,
        r@[1]@ == "已生效"@,
{
    let mut r: Vec<&'static str> = Vec::new();
    r.push("草稿");
    r.push("已生效");
    r
}

/// What the bar shows after its steps: `已取消` or `已过期`.
pub fn workflow_tail(s: PurchaseQuotationStatus) -> (r: Option<&'static str>)
    ensures
        match r {
            Some(t) => (s == PurchaseQuotationStatus::Cancelled && t@ == "已取消"@) || (s
                == PurchaseQuotationStatus::Expired && t@ == "已过期"@),
            None => s != PurchaseQuotationStatus::Cancelled && s != PurchaseQuotationStatus::Expired,
        },
{
    match s {
        PurchaseQuotationStatus::Cancelled => Some("已取消"),
        PurchaseQuotationStatus::Expired => Some("已过期"),
        _ => None,
    }
}

/// The actions the quotation page offers.
#[derive(PartialEq, Eq, Structural, Clone, Copy, Debug)]
pub struct QuotationActions {
    pub convert: bool,
    pub activate: bool,
    pub cancel: bool,
    pub delete: bool,
}

/// An active quotation can be turned into an order; a draft activated or
/// cancelled; any quotation but an active one deleted, by a user who may.
pub fn quotation_actions(s: PurchaseQuotationStatus, may_delete: bool) -> (a: QuotationActions)
    ensures
        a.convert == (s == PurchaseQuotationStatus::Active),
        a.activate == (s == PurchaseQuotationStatus::Draft),
        a.cancel == (s == PurchaseQuotationStatus::Draft),
        a.delete == (s != PurchaseQuotationStatus::Active && may_delete),
{
    QuotationActions {
        convert: s == PurchaseQuotationStatus::Active,
        activate: s == PurchaseQuotationStatus::Draft,
        cancel: s == PurchaseQuotationStatus::Draft,
        delete: s != PurchaseQuotationStatus::Active && may_delete,
    }
}

/// The remark shown: `—` when there is none.
pub fn remark_text(remark: &str) -> (r: String)
    ensures
        r@ == if remark@.len() == 0 {
            "—"@
        } else {
            remark@
        },
{
    if remark.unicode_len() == 0 {
        owned("—")
    } else {
        owned(remark)
    }
}

/// The quotation's currency: that of its first line, else `CNY`.
pub fn quotation_currency(first_line_currency: Option<&str>) -> (r: String)
    ensures
        r@ == match opt_str(first_line_currency) {
            Some(c) => c,
            None => "CNY"@,
        },
{
    match first_line_currency {
        Some(c) => owned(c),
        None => owned("CNY"),
    }
}

} // verus!
