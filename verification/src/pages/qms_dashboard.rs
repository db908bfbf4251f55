//! The quality overview: the count of inspections still pending.
use vstd::prelude::*;
use crate::status::MRBStatus;

verus! {

/// The inspections neither passed nor failed: the total less both, or zero
/// when those exceed it.
pub fn pending_inspections(total: u64, passed: u64, failed: u64) -> (r: u64)
    requires
        passed + failed <= u64::MAX,
    ensures
        r == if total >= passed + failed {
            total - passed - failed
        } else {
            0
        },
{
    total.saturating_sub(passed + failed)
}

pub open spec fn mrb_status_word(s: MRBStatus) -> Seq<char> {
    match s {
        MRBStatus::Draft => "草稿"@,
        MRBStatus::UnderReview => "审批中"@,
        MRBStatus::Approved => "已批准"@,
        MRBStatus::Completed => "已完成"@,
    }
}

/// The label of a review's state in the overview.
pub fn mrb_status_label(s: &MRBStatus) -> (r: &'static str)
    ensures
        r@ == mrb_status_word(*s),
{
    match s {
        MRBStatus::Draft => "草稿",
        MRBStatus::UnderReview => "审批中",
        MRBStatus::Approved => "已批准",
        MRBStatus::Completed => "已完成",
    }
}

} // verus!
