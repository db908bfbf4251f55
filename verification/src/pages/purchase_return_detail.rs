//! The purchase return page: label, step bar and actions.
use vstd::prelude::*;
use crate::status::PurchaseReturnStatus;
use crate::workflow::{bar_of, step_bar, StepBar, StepState};

verus! {

pub open spec fn detail_status_text(s: PurchaseReturnStatus) -> (Seq<char>, Seq<char>) {
    match s {
        PurchaseReturnStatus::Draft => ("草稿"@, "status-draft"@),
        PurchaseReturnStatus::Confirmed => ("已确认"@, "status-confirmed"@),
        PurchaseReturnStatus::Shipped => ("已发货"@, "status-shipped"@),
        PurchaseReturnStatus::Settled => ("已结算"@, "status-completed"@),
        PurchaseReturnStatus::Cancelled => ("已取消"@, "status-cancelled"@),
    }
}

/// Label and style class of a return state on its page.
pub fn status_label(s: PurchaseReturnStatus) -> (r: (&'static str, &'static str))
    ensures
        (r.0@, r.1@) == detail_status_text(s),
{
    match s {
        PurchaseReturnStatus::Draft => ("草稿", "status-draft"),
        PurchaseReturnStatus::Confirmed => ("已确认", "status-confirmed"),
        PurchaseReturnStatus::Shipped => ("已发货", "status-shipped"),
        PurchaseReturnStatus::Settled => ("已结算", "status-completed"),
        PurchaseReturnStatus::Cancelled => ("已取消", "status-cancelled"),
    }
}

/// Where a return stands in the flow draft → confirmed → shipped → settled;
/// a cancelled return counts as its first step.
pub open spec fn return_step(s: PurchaseReturnStatus) -> int {
    match s {
        PurchaseReturnStatus::Draft => 0,
        PurchaseReturnStatus::Confirmed => 1,
        PurchaseReturnStatus::Shipped => 2,
        PurchaseReturnStatus::Settled => 3,
        PurchaseReturnStatus::Cancelled => 0,
    }
}

/// The return's step bar, all greyed out once it is cancelled.
pub fn workflow_steps(current: PurchaseReturnStatus) -> (b: StepBar)
    ensures
        ({
            let c = current == PurchaseReturnStatus::Cancelled;
            bar_of(b, 4, return_step(current), c, c)
        }),
{
    let idx: usize = match current {
        PurchaseReturnStatus::Draft => 0,
        PurchaseReturnStatus::Confirmed => 1,
        PurchaseReturnStatus::Shipped => 2,
        PurchaseReturnStatus::Settled => 3,
        PurchaseReturnStatus::Cancelled => 0,
    };
    let cancelled = current == PurchaseReturnStatus::Cancelled;
    step_bar(4, idx, cancelled, cancelled)
}

/// The labels of the steps, in order.
pub open spec fn step_labels() -> Seq<Seq<char>> {
    seq!["草稿"@, "已确认"@, "已发货"@, "已结算"@]
}

/// On a return that is not cancelled in its flow, the bar's current step is the one labelled
/// with its own state, and the steps before that one are done.
pub proof fn law_bar_at_status(s: PurchaseReturnStatus, b: StepBar)
    requires
        s != PurchaseReturnStatus::Cancelled,
        bar_of(b, 4, return_step(s), false, false),
    ensures
        forall|i: int|
            0 <= i < 4 ==> (#[trigger] b.steps@[i] == StepState::Current <==> step_labels()[i]
                == detail_status_text(s).0),
        forall|i: int|
            0 <= i < 4 ==> (#[trigger] b.steps@[i] == StepState::Done <==> exists|k: int|
                i < k < 4 && step_labels()[k] == detail_status_text(s).0),
{
    reveal_strlit("草稿");
    reveal_strlit("已确认");
    reveal_strlit("已发货");
    reveal_strlit("已结算");
    let l = step_labels();
    let t = detail_status_text(s).0;
    assert(l[return_step(s)] == t);
    assert forall|i: int| 0 <= i < 4 && i != return_step(s) implies (#[trigger] l[i]) != t by {
        assert(l[i][1] != t[1] || l[i].len() != t.len());
    }
    assert forall|i: int| 0 <= i < 4 implies (#[trigger] b.steps@[i] == StepState::Done <==> exists|k: int|
        i < k < 4 && l[k] == t) by {
        if i < return_step(s) {
            assert(l[return_step(s)] == t);
        }
    }
}

/// The labels of the return's steps, in order.
pub fn workflow_labels() -> (r: Vec<&'static str>)
    ensures
        r@.len() == 4,
        forall|i: int| 0 <= i < 4 ==> (#[trigger] r@[i])@ == step_labels()[i],
        r@[0]@ == "草稿"@,
        r@[1]@ == "已确认"@,
        r@[2]@ == "已发货"@,
        r@[3]@ == "已结算"@,
{
    let mut r: Vec<&'static str> = Vec::new();
    r.push("草稿");
    r.push("已确认");
    r.push("已发货");
    r.push("已结算");
    r
}

/// What the bar shows after its steps: `已取消` for a cancelled return.
pub fn workflow_tail(s: PurchaseReturnStatus) -> (r: Option<&'static str>)
    ensures
        match r {
            Some(t) => s == PurchaseReturnStatus::Cancelled && t@ == "已取消"@,
            None => s != PurchaseReturnStatus::Cancelled,
        },
{
    if s == PurchaseReturnStatus::Cancelled {
        Some("已取消")
    } else {
        None
    }
}

/// Whether the return page offers confirming and cancelling: only a draft.
pub fn return_actions(s: PurchaseReturnStatus) -> (r: bool)
    ensures
        r == (s == PurchaseReturnStatus::Draft),
{
    s == PurchaseReturnStatus::Draft
}

} // verus!
