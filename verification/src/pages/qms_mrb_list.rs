//! The material review list: filter, query string and labels.
use vstd::prelude::*;
use crate::query::{amp_joined, as_deref, int_part, join_amp, opt_i16, opt_string, part_if_some, push_int_part, push_part_if_some};
use crate::status::{MRBDisposition, MRBStatus, ResponsibleParty};
use crate::text::{same_text, views};

verus! {

/// Query of the review list.
#[derive(Clone, Debug)]
pub struct MrbQueryParams {
    pub keyword: Option<String>,
    pub disposition: Option<i16>,
    pub responsible_party: Option<i16>,
    pub status: Option<String>,
    pub date_from: Option<String>,
    pub date_to: Option<String>,
    pub page: Option<u32>,
}

/// What the list asks the review service for.
#[derive(Clone, Copy, Debug)]
pub struct MrbFilter {
    pub status: Option<MRBStatus>,
    pub disposition: Option<MRBDisposition>,
    pub responsible_party: Option<ResponsibleParty>,
}

pub open spec fn list_disposition_text(d: MRBDisposition) -> (Seq<char>, Seq<char>, Seq<char>) {
    match d {
        MRBDisposition::Scrap => ("报废"@, "rgba(220,38,38,0.08)"@, "#dc2626"@),
        MRBDisposition::Return => ("退货"@, "rgba(234,88,12,0.08)"@, "#ea580c"@),
        MRBDisposition::Degrade => ("降级"@, "rgba(124,58,237,0.08)"@, "#7c3aed"@),
        MRBDisposition::Rework => ("返工"@, "rgba(37,99,235,0.08)"@, "var(--accent)"@),
    }
}

/// Label, background and colour of a disposition in the list.
pub fn disposition_label(d: &MRBDisposition) -> (r: (&'static str, &'static str, &'static str))
    ensures
        (r.0@, r.1@, r.2@) == list_disposition_text(*d),
{
    match d {
        MRBDisposition::Scrap => ("报废", "rgba(220,38,38,0.08)", "#dc2626"),
        MRBDisposition::Return => ("退货", "rgba(234,88,12,0.08)", "#ea580c"),
        MRBDisposition::Degrade => ("降级", "rgba(124,58,237,0.08)", "#7c3aed"),
        MRBDisposition::Rework => ("返工", "rgba(37,99,235,0.08)", "var(--accent)"),
    }
}

pub open spec fn list_party_text(p: ResponsibleParty) -> (Seq<char>, Seq<char>, Seq<char>) {
    match p {
        ResponsibleParty::Internal => ("内部"@, "rgba(22,163,74,0.08)"@, "var(--success)"@),
        ResponsibleParty::Supplier => ("供应商"@, "rgba(37,99,235,0.08)"@, "var(--accent)"@),
        ResponsibleParty::Customer => ("客户"@, "rgba(124,58,237,0.08)"@, "#7c3aed"@),
    }
}

/// Label, background and colour of a responsible party in the list.
pub fn responsible_party_label(p: &ResponsibleParty) -> (r: (&'static str, &'static str, &'static str))
    ensures
        (r.0@, r.1@, r.2@) == list_party_text(*p),
{
    match p {
        ResponsibleParty::Internal => ("内部", "rgba(22,163,74,0.08)", "var(--success)"),
        ResponsibleParty::Supplier => ("供应商", "rgba(37,99,235,0.08)", "var(--accent)"),
        ResponsibleParty::Customer => ("客户", "rgba(124,58,237,0.08)", "#7c3aed"),
    }
}

pub open spec fn list_status_text(s: MRBStatus) -> (Seq<char>, Seq<char>, Seq<char>) {
    match s {
        MRBStatus::Draft => ("草稿"@, "rgba(0,0,0,0.04)"@, "var(--muted)"@),
        MRBStatus::UnderReview => ("审批中"@, "rgba(217,119,6,0.08)"@, "#b45309"@),
        MRBStatus::Approved => ("已批准"@, "rgba(22,119,255,0.08)"@, "var(--accent)"@),
        MRBStatus::Completed => ("已完成"@, "rgba(82,196,26,0.08)"@, "var(--success)"@),
    }
}

/// Label, background and colour of a review state in the list.
pub fn mrb_status_label(s: &MRBStatus) -> (r: (&'static str, &'static str, &'static str))
    ensures
        (r.0@, r.1@, r.2@) == list_status_text(*s),
{
    match s {
        MRBStatus::Draft => ("草稿", "rgba(0,0,0,0.04)", "var(--muted)"),
        MRBStatus::UnderReview => ("审批中", "rgba(217,119,6,0.08)", "#b45309"),
        MRBStatus::Approved => ("已批准", "rgba(22,119,255,0.08)", "var(--accent)"),
        MRBStatus::Completed => ("已完成", "rgba(82,196,26,0.08)", "var(--success)"),
    }
}

/// The review state a filter value names.
pub open spec fn status_named(s: Seq<char>) -> Option<MRBStatus> {
    if s == "Draft"@ {
        Some(MRBStatus::Draft)
    } else if s == "UnderReview"@ {
        Some(MRBStatus::UnderReview)
    } else if s == "Approved"@ {
        Some(MRBStatus::Approved)
    } else if s == "Completed"@ {
        Some(MRBStatus::Completed)
    } else {
        None
    }
}

pub fn parse_status(s: &str) -> (r: Option<MRBStatus>)
    ensures
        r == status_named(s@),
{
    if same_text(s, "Draft") {
        Some(MRBStatus::Draft)
    } else if same_text(s, "UnderReview") {
        Some(MRBStatus::UnderReview)
    } else if same_text(s, "Approved") {
        Some(MRBStatus::Approved)
    } else if same_text(s, "Completed") {
        Some(MRBStatus::Completed)
    } else {
        None
    }
}

/// The review filter of the list's query.
pub fn build_filter(params: &MrbQueryParams) -> (r: MrbFilter)
    ensures
        r.status == match opt_string(params.status) {
            Some(s) => status_named(s),
            None => None,
        },
        r.disposition == match params.disposition {
            Some(c) => MRBDisposition::from_code(c),
            None => None,
        },
        r.responsible_party == match params.responsible_party {
            Some(c) => ResponsibleParty::from_code(c),
            None => None,
        },
{
    MrbFilter {
        status: match as_deref(&params.status) {
            Some(s) => parse_status(s),
            None => None,
        },
        disposition: match params.disposition {
            Some(c) => MRBDisposition::from_i16(c),
            None => None,
        },
        responsible_party: match params.responsible_party {
            Some(c) => ResponsibleParty::from_i16(c),
            None => None,
        },
    }
}

/// The list's query string: keyword, disposition, party, state and dates,
/// each when given, joined with `&`.
pub open spec fn mrb_query(p: MrbQueryParams) -> Seq<char> {
    amp_joined(
        part_if_some("keyword="@, opt_string(p.keyword)) + int_part(
            "disposition="@,
            opt_i16(p.disposition),
        ) + int_part("responsible_party="@, opt_i16(p.responsible_party)) + part_if_some(
            "status="@,
            opt_string(p.status),
        ) + part_if_some("date_from="@, opt_string(p.date_from)) + part_if_some(
            "date_to="@,
            opt_string(p.date_to),
        ),
    )
}

pub fn build_query_string(params: &MrbQueryParams) -> (r: String)
    ensures
        r@ == mrb_query(*params),
{
    let mut q: Vec<String> = Vec::new();
    push_part_if_some(&mut q, "keyword=", as_deref(&params.keyword));
    push_int_part(&mut q, "disposition=", match params.disposition { Some(s) => Some(s as i64), None => None });
    push_int_part(&mut q, "responsible_party=", match params.responsible_party { Some(s) => Some(s as i64), None => None });
    push_part_if_some(&mut q, "status=", as_deref(&params.status));
    push_part_if_some(&mut q, "date_from=", as_deref(&params.date_from));
    push_part_if_some(&mut q, "date_to=", as_deref(&params.date_to));
    assert(views(q@) =~= part_if_some("keyword="@, opt_string(params.keyword)) + int_part(
        "disposition="@,
        opt_i16(params.disposition),
    ) + int_part("responsible_party="@, opt_i16(params.responsible_party)) + part_if_some(
        "status="@,
        opt_string(params.status),
    ) + part_if_some("date_from="@, opt_string(params.date_from)) + part_if_some(
        "date_to="@,
        opt_string(params.date_to),
    ));
    join_amp(&q)
}

} // verus!
