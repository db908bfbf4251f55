//! The material review page: labels and the cost shown.
use vstd::prelude::*;
use crate::decimal::{dec_text, decimal_text, Dec};
use crate::status::{MRBDisposition, MRBStatus, ResponsibleParty};
use crate::text::{owned, push_str};

verus! {

pub open spec fn disposition_text(d: MRBDisposition) -> (Seq<char>, Seq<char>) {
    match d {
        MRBDisposition::Scrap => ("报废"@, "status-danger"@),
        MRBDisposition::Return => ("退货"@, "status-warning"@),
        MRBDisposition::Degrade => ("降级"@, "status-purple"@),
        MRBDisposition::Rework => ("返工"@, "status-info"@),
    }
}

pub fn disposition_label(d: &MRBDisposition) -> (r: (&'static str, &'static str))
    ensures
        (r.0@, r.1@) == disposition_text(*d),
{
    match d {
        MRBDisposition::Scrap => ("报废", "status-danger"),
        MRBDisposition::Return => ("退货", "status-warning"),
        MRBDisposition::Degrade => ("降级", "status-purple"),
        MRBDisposition::Rework => ("返工", "status-info"),
    }
}

pub open spec fn party_text(p: ResponsibleParty) -> (Seq<char>, Seq<char>) {
    match p {
        ResponsibleParty::Internal => ("内部"@, "status-active"@),
        ResponsibleParty::Supplier => ("供应商"@, "status-info"@),
        ResponsibleParty::Customer => ("客户"@, "status-purple"@),
    }
}

pub fn responsible_party_label(p: &ResponsibleParty) -> (r: (&'static str, &'static str))
    ensures
        (r.0@, r.1@) == party_text(*p),
{
    match p {
        ResponsibleParty::Internal => ("内部", "status-active"),
        ResponsibleParty::Supplier => ("供应商", "status-info"),
        ResponsibleParty::Customer => ("客户", "status-purple"),
    }
}

pub open spec fn detail_status_text(s: MRBStatus) -> (Seq<char>, Seq<char>) {
    match s {
        MRBStatus::Draft => ("草稿"@, "status-draft"@),
        MRBStatus::UnderReview => ("审批中"@, "status-warning"@),
        MRBStatus::Approved => ("已批准"@, "status-active"@),
        MRBStatus::Completed => ("已完成"@, "status-info"@),
    }
}

pub fn status_label(s: &MRBStatus) -> (r: (&'static str, &'static str))
    ensures
        (r.0@, r.1@) == detail_status_text(*s),
{
    match s {
        MRBStatus::Draft => ("草稿", "status-draft"),
        MRBStatus::UnderReview => ("审批中", "status-warning"),
        MRBStatus::Approved => ("已批准", "status-active"),
        MRBStatus::Completed => ("已完成", "status-info"),
    }
}

/// The cost impact shown: `—` for zero, else `¥` and the amount.
pub fn fmt_cost(v: &Dec) -> (r: String)
    requires
        v.wf(),
    ensures
        r@ == if v.mantissa == 0 {
            "—"@
        } else {
            "¥"@ + decimal_text(v.parts())
        },
{
    if v.is_zero() {
        owned("—")
    } else {
        let mut s = owned("¥");
        let t = dec_text(v);
        push_str(&mut s, t.as_str());
        s
    }
}

/// The remark shown: `—` when there is none.
pub fn remark_text(remark: &str) -> (r: String)
    ensures
        r@ == if remark@.len() == 0 {
            "—"@
        } else {
            remark@
        },
{
    if remark.unicode_len() == 0 {
        owned("—")
    } else {
        owned(remark)
    }
}

/// A looked-up name (the product's, the inspection result's number): `—`
/// when the lookup failed.
pub fn name_or_dash(found: Option<&str>) -> (r: String)
    ensures
        r@ == match crate::query::opt_str(found) {
            Some(n) => n,
            None => "—"@,
        },
{
    match found {
        Some(n) => owned(n),
        None => owned("—"),
    }
}

} // verus!
