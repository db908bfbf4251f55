//! The purchase reconciliation page: label, step bar and actions.
use vstd::prelude::*;
use crate::status::PurchaseReconStatus;
use crate::workflow::{bar_of, step_bar, StepBar, StepState};

verus! {

pub open spec fn detail_status_text(s: PurchaseReconStatus) -> (Seq<char>, Seq<char>) {
    match s {
        PurchaseReconStatus::Draft => ("草稿"@, "status-draft"@),
        PurchaseReconStatus::Confirmed => ("已确认"@, "status-confirmed"@),
        PurchaseReconStatus::Settled => ("已结算"@, "status-completed"@),
    }
}

/// Label and style class of a reconciliation state on its page.
pub fn status_label(s: PurchaseReconStatus) -> (r: (&'static str, &'static str))
    ensures
        (r.0@, r.1@) == detail_status_text(s),
{
    match s {
        PurchaseReconStatus::Draft => ("草稿", "status-draft"),
        PurchaseReconStatus::Confirmed => ("已确认", "status-confirmed"),
        PurchaseReconStatus::Settled => ("已结算", "status-completed"),
    }
}

/// Where a reconciliation stands in the flow draft → confirmed → settled.
pub open spec fn recon_step(s: PurchaseReconStatus) -> int {
    match s {
        PurchaseReconStatus::Draft => 0,
        PurchaseReconStatus::Confirmed => 1,
        PurchaseReconStatus::Settled => 2,
    }
}

/// The reconciliation's step bar (it never leaves the flow).
pub fn workflow_steps(current: PurchaseReconStatus) -> (b: StepBar)
    ensures
        bar_of(b, 3, recon_step(current), false, false),
{
    let idx: usize = match current {
        PurchaseReconStatus::Draft => 0,
        PurchaseReconStatus::Confirmed => 1,
        PurchaseReconStatus::Settled => 2,
    };
    step_bar(3, idx, false, false)
}

/// The labels of the steps, in order.
pub open spec fn step_labels() -> Seq<Seq<char>> {
    seq!["草稿"@, "已确认"@, "已结算"@]
}

/// On a reconciliation in its flow, the bar's current step is the one labelled
/// with its own state, and the steps before that one are done.
pub proof fn law_bar_at_status(s: PurchaseReconStatus, b: StepBar)
    requires
        bar_of(b, 3, recon_step(s), false, false),
    ensures
        forall|i: int|
            0 <= i < 3 ==> (#[trigger] b.steps@[i] == StepState::Current <==> step_labels()[i]
                == detail_status_text(s).0),
        forall|i: int|
            0 <= i < 3 ==> (#[trigger] b.steps@[i] == StepState::Done <==> exists|k: int|
                i < k < 3 && step_labels()[k] == detail_status_text(s).0),
{
    reveal_strlit("草稿");
    reveal_strlit("已确认");
    reveal_strlit("已结算");
    let l = step_labels();
    let t = detail_status_text(s).0;
    assert(l[recon_step(s)] == t);
    assert forall|i: int| 0 <= i < 3 && i != recon_step(s) implies (#[trigger] l[i]) != t by {
        assert(l[i][1] != t[1] || l[i].len() != t.len());
    }
    assert forall|i: int| 0 <= i < 3 implies (#[trigger] b.steps@[i] == StepState::Done <==> exists|k: int|
        i < k < 3 && l[k] == t) by {
        if i < recon_step(s) {
            assert(l[recon_step(s)] == t);
        }
    }
}

/// The labels of the reconciliation's steps, in order.
pub fn workflow_labels() -> (r: Vec<&'static str>)
    ensures
        r@.len() == 3,
        forall|i: int| 0 <= i < 3 ==> (#[trigger] r@[i])@ == step_labels()[i],
        r@[0]@ == "草稿"@,
        r@[1]@ == "已确认"@,
        r@[2]@ == "已结算"@,
{
    let mut r: Vec<&'static str> = Vec::new();
    r.push("草稿");
    r.push("已确认");
    r.push("已结算");
    r
}

/// The actions of the reconciliation page: a draft can be confirmed, and
/// deleted by a user who may.
pub fn recon_actions(s: PurchaseReconStatus, may_delete: bool) -> (r: (bool, bool))
    ensures
        r.0 == (s == PurchaseReconStatus::Draft),
        r.1 == (s == PurchaseReconStatus::Draft && may_delete),
{
    let draft = s == PurchaseReconStatus::Draft;
    (draft, draft && may_delete)
}

} // verus!
