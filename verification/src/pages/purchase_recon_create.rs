//! Creating a purchase reconciliation: the form, and what the preview of the
//! lines to reconcile shows.
use vstd::prelude::*;
use crate::query::opt_string;
use crate::decimal::{all_wf, dec_checked_sub, dec_sum, decimal_checked_sub, opt_parts, opt_wf, sum_parts, Dec};
use crate::text::owned;

verus! {

/// The reconciliation create form.
#[derive(Clone, Debug)]
pub struct PreconCreateForm {
    pub supplier_id: i64,
    pub period: String,
    pub remark: Option<String>,
    pub action: Option<String>,
}

/// Query of the preview of the lines to reconcile.
#[derive(Clone, Debug)]
pub struct PreviewQuery {
    pub supplier_id: Option<i64>,
    pub period: Option<String>,
}

/// What the preview does: ask for a supplier, ask for a period, or look up
/// the lines of a supplier and period.
#[derive(Clone, Debug)]
pub enum PreviewStep {
    NeedSupplier,
    NeedPeriod,
    Lookup { supplier_id: i64, period: String },
}

impl PreviewStep {
    /// The text the preview shows when it looks nothing up.
    pub open spec fn prompt(&self) -> Option<Seq<char>> {
        match self {
            PreviewStep::NeedSupplier => Some("请先选择供应商"@),
            PreviewStep::NeedPeriod => Some("请先选择对账期间"@),
            PreviewStep::Lookup { .. } => None,
        }
    }

    pub fn prompt_text(&self) -> (r: Option<&'static str>)
        ensures
            match r {
                Some(t) => self.prompt() == Some(t@),
                None => self.prompt() is None,
            },
    {
        match self {
            PreviewStep::NeedSupplier => Some("请先选择供应商"),
            PreviewStep::NeedPeriod => Some("请先选择对账期间"),
            PreviewStep::Lookup { .. } => None,
        }
    }
}

/// A positive supplier is needed first, then a period that is not empty;
/// with both the preview looks the lines up.
pub fn preview_step(q: &PreviewQuery) -> (r: PreviewStep)
    ensures
        match q.supplier_id {
            Some(id) if id > 0 => match opt_string(q.period) {
                Some(p) if p.len() > 0 => r matches PreviewStep::Lookup { supplier_id, period }
                    && supplier_id == id && period@ == p,
                _ => r is NeedPeriod,
            },
            _ => r is NeedSupplier,
        },
{
    let id = match q.supplier_id {
        Some(id) if id > 0 => id,
        _ => {
            return PreviewStep::NeedSupplier;
        },
    };
    match &q.period {
        Some(p) if p.as_str().unicode_len() > 0 => PreviewStep::Lookup {
            supplier_id: id,
            period: owned(p.as_str()),
        },
        _ => PreviewStep::NeedPeriod,
    }
}

/// The text when the supplier has nothing to reconcile in the period.
pub fn empty_preview_text() -> (r: &'static str)
    ensures
        r@ == "该供应商在所选期间内没有可对账的收货明细"@,
{
    "该供应商在所选期间内没有可对账的收货明细"
}

/// The preview's totals: the lines' amounts, their returned amounts, and
/// the net (amounts less returns); `None` where a sum or the difference
/// overflows.
pub fn preview_totals(amounts: &Vec<Dec>, returned: &Vec<Dec>) -> (r: Option<(Dec, Dec, Dec)>)
    requires
        all_wf(amounts@),
        all_wf(returned@),
    ensures
        match r {
            Some((t, x, n)) => sum_parts(amounts@) == Some(t.parts()) && sum_parts(returned@) == Some(
                x.parts(),
            ) && decimal_checked_sub(t.parts(), x.parts()) == Some(n.parts()),
            None => match (sum_parts(amounts@), sum_parts(returned@)) {
                (Some(t), Some(x)) => decimal_checked_sub(t, x) is None,
                _ => true,
            },
        },
{
    match (dec_sum(amounts), dec_sum(returned)) {
        (Some(t), Some(x)) => match dec_checked_sub(&t, &x) {
            Some(n) => Some((t, x, n)),
            None => None,
        },
        _ => None,
    }
}

/// A line's payable amount: its amount less what was returned; `None` where
/// that overflows.
pub fn line_payable(amount: &Dec, returned: &Dec) -> (r: Option<Dec>)
    requires
        amount.wf(),
        returned.wf(),
    ensures
        opt_parts(r) == decimal_checked_sub(amount.parts(), returned.parts()),
        opt_wf(r),
{
    dec_checked_sub(amount, returned)
}

} // verus!
