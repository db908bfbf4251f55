//! The inspection result list: filter, query string and labels.
use vstd::prelude::*;
use crate::date::{date_parse, parse_date};
use crate::query::{
    amp_joined, as_deref, int_part, join_amp, opt_i16, opt_string, part_if_nonempty,
    part_if_some, push_int_part, push_part_if_nonempty, push_part_if_some,
};
use crate::status::{InspectionResultType, InspectionSourceType, InspectionStatus, InspectionType};
use crate::text::{same_text, views};

verus! {

/// Query of the inspection result list.
#[derive(Clone, Debug)]
pub struct ResultQueryParams {
    pub keyword: Option<String>,
    pub inspection_type: Option<String>,
    pub result: Option<String>,
    pub source_type: Option<i16>,
    pub status: Option<String>,
    pub date_from: Option<String>,
    pub date_to: Option<String>,
    pub page: Option<u32>,
}

/// What the list asks the result service for.
#[derive(Clone, Copy, Debug)]
pub struct InspectionResultFilter {
    pub source_type: Option<InspectionSourceType>,
    pub source_id: Option<i64>,
    pub inspection_type: Option<InspectionType>,
    pub result: Option<InspectionResultType>,
    pub status: Option<InspectionStatus>,
    pub date_from: Option<i32>,
    pub date_to: Option<i32>,
}

pub open spec fn list_status_text(s: InspectionStatus) -> (Seq<char>, Seq<char>, Seq<char>) {
    match s {
        InspectionStatus::Pending => ("待检验"@, "rgba(250,140,22,0.08)"@, "#fa8c16"@),
        InspectionStatus::Completed => ("已完成"@, "rgba(82,196,26,0.08)"@, "var(--success)"@),
        InspectionStatus::Dispositioned => ("已处置"@, "rgba(114,46,209,0.08)"@, "#722ed1"@),
    }
}

pub fn status_label(s: &InspectionStatus) -> (r: (&'static str, &'static str, &'static str))
    ensures
        (r.0@, r.1@, r.2@) == list_status_text(*s),
{
    match s {
        InspectionStatus::Pending => ("待检验", "rgba(250,140,22,0.08)", "#fa8c16"),
        InspectionStatus::Completed => ("已完成", "rgba(82,196,26,0.08)", "var(--success)"),
        InspectionStatus::Dispositioned => ("已处置", "rgba(114,46,209,0.08)", "#722ed1"),
    }
}

pub open spec fn list_result_text(r: InspectionResultType) -> (Seq<char>, Seq<char>, Seq<char>) {
    match r {
        InspectionResultType::Pass => ("合格"@, "rgba(82,196,26,0.08)"@, "var(--success)"@),
        InspectionResultType::Fail => ("不合格"@, "rgba(245,63,63,0.06)"@, "#f53f3f"@),
        InspectionResultType::Conditional => ("让步接收"@, "rgba(22,119,255,0.08)"@, "var(--accent)"@),
    }
}

pub fn result_type_label(t: &InspectionResultType) -> (r: (&'static str, &'static str, &'static str))
    ensures
        (r.0@, r.1@, r.2@) == list_result_text(*t),
{
    match t {
        InspectionResultType::Pass => ("合格", "rgba(82,196,26,0.08)", "var(--success)"),
        InspectionResultType::Fail => ("不合格", "rgba(245,63,63,0.06)", "#f53f3f"),
        InspectionResultType::Conditional => ("让步接收", "rgba(22,119,255,0.08)", "var(--accent)"),
    }
}

pub open spec fn list_type_text(t: InspectionType) -> (Seq<char>, Seq<char>, Seq<char>) {
    match t {
        InspectionType::Iqc => ("IQC"@, "rgba(37,99,235,0.08)"@, "var(--accent)"@),
        InspectionType::Ipqc => ("IPQC"@, "rgba(22,163,74,0.08)"@, "var(--success)"@),
        InspectionType::Fqc => ("FQC"@, "rgba(124,58,237,0.08)"@, "#7c3aed"@),
        InspectionType::Oqc => ("OQC"@, "rgba(234,88,12,0.08)"@, "#ea580c"@),
    }
}

pub fn inspection_type_label(t: &InspectionType) -> (r: (&'static str, &'static str, &'static str))
    ensures
        (r.0@, r.1@, r.2@) == list_type_text(*t),
{
    match t {
        InspectionType::Iqc => ("IQC", "rgba(37,99,235,0.08)", "var(--accent)"),
        InspectionType::Ipqc => ("IPQC", "rgba(22,163,74,0.08)", "var(--success)"),
        InspectionType::Fqc => ("FQC", "rgba(124,58,237,0.08)", "#7c3aed"),
        InspectionType::Oqc => ("OQC", "rgba(234,88,12,0.08)", "#ea580c"),
    }
}

pub fn source_type_label(s: &InspectionSourceType) -> (r: &'static str)
    ensures
        r@ == crate::pages::qms_result_detail::source_text(*s),
{
    match s {
        InspectionSourceType::ArrivalNotice => "来料通知",
        InspectionSourceType::WorkOrderRouting => "工单工序",
        InspectionSourceType::ShippingRequest => "发货单",
        InspectionSourceType::OutsourcingOrder => "委外单",
        InspectionSourceType::ProductionReceipt => "完工入库",
    }
}

pub open spec fn status_named(s: Seq<char>) -> Option<InspectionStatus> {
    if s == "Pending"@ {
        Some(InspectionStatus::Pending)
    } else if s == "Completed"@ {
        Some(InspectionStatus::Completed)
    } else if s == "Dispositioned"@ {
        Some(InspectionStatus::Dispositioned)
    } else {
        None
    }
}

pub fn parse_status(s: &str) -> (r: Option<InspectionStatus>)
    ensures
        r == status_named(s@),
{
    if same_text(s, "Pending") {
        Some(InspectionStatus::Pending)
    } else if same_text(s, "Completed") {
        Some(InspectionStatus::Completed)
    } else if same_text(s, "Dispositioned") {
        Some(InspectionStatus::Dispositioned)
    } else {
        None
    }
}

pub open spec fn type_named(s: Seq<char>) -> Option<InspectionType> {
    if s == "Iqc"@ {
        Some(InspectionType::Iqc)
    } else if s == "Ipqc"@ {
        Some(InspectionType::Ipqc)
    } else if s == "Fqc"@ {
        Some(InspectionType::Fqc)
    } else if s == "Oqc"@ {
        Some(InspectionType::Oqc)
    } else {
        None
    }
}

pub fn parse_inspection_type(s: &str) -> (r: Option<InspectionType>)
    ensures
        r == type_named(s@),
{
    if same_text(s, "Iqc") {
        Some(InspectionType::Iqc)
    } else if same_text(s, "Ipqc") {
        Some(InspectionType::Ipqc)
    } else if same_text(s, "Fqc") {
        Some(InspectionType::Fqc)
    } else if same_text(s, "Oqc") {
        Some(InspectionType::Oqc)
    } else {
        None
    }
}

pub open spec fn result_named(s: Seq<char>) -> Option<InspectionResultType> {
    if s == "Pass"@ {
        Some(InspectionResultType::Pass)
    } else if s == "Fail"@ {
        Some(InspectionResultType::Fail)
    } else if s == "Conditional"@ {
        Some(InspectionResultType::Conditional)
    } else {
        None
    }
}

pub fn parse_result_type(s: &str) -> (r: Option<InspectionResultType>)
    ensures
        r == result_named(s@),
{
    if same_text(s, "Pass") {
        Some(InspectionResultType::Pass)
    } else if same_text(s, "Fail") {
        Some(InspectionResultType::Fail)
    } else if same_text(s, "Conditional") {
        Some(InspectionResultType::Conditional)
    } else {
        None
    }
}

pub open spec fn opt_date(o: Option<Seq<char>>) -> Option<i32> {
    match o {
        Some(s) => date_parse(s),
        None => None,
    }
}

/// The result filter of the list's query: each field read from its value
/// when given (names for the types and state, a code for the source, dates
/// as `NaiveDate` reads them), none where it cannot be read.
pub fn build_filter(params: &ResultQueryParams) -> (r: InspectionResultFilter)
    ensures
        r.source_type == match params.source_type {
            Some(c) => InspectionSourceType::from_code(c),
            None => None,
        },
        r.source_id is None,
        r.inspection_type == match opt_string(params.inspection_type) {
            Some(s) => type_named(s),
            None => None,
        },
        r.result == match opt_string(params.result) {
            Some(s) => result_named(s),
            None => None,
        },
        r.status == match opt_string(params.status) {
            Some(s) => status_named(s),
            None => None,
        },
        r.date_from == opt_date(opt_string(params.date_from)),
        r.date_to == opt_date(opt_string(params.date_to)),
{
    InspectionResultFilter {
        source_type: match params.source_type {
            Some(c) => InspectionSourceType::from_i16(c),
            None => None,
        },
        source_id: None,
        inspection_type: match as_deref(&params.inspection_type) {
            Some(s) => parse_inspection_type(s),
            None => None,
        },
        result: match as_deref(&params.result) {
            Some(s) => parse_result_type(s),
            None => None,
        },
        status: match as_deref(&params.status) {
            Some(s) => parse_status(s),
            None => None,
        },
        date_from: match as_deref(&params.date_from) {
            Some(s) => parse_date(s),
            None => None,
        },
        date_to: match as_deref(&params.date_to) {
            Some(s) => parse_date(s),
            None => None,
        },
    }
}

/// The list's query string: keyword (when not empty), types, source, state
/// and dates (each when given), joined with `&`.
pub open spec fn result_query(p: ResultQueryParams) -> Seq<char> {
    amp_joined(
        part_if_nonempty("keyword="@, opt_string(p.keyword)) + part_if_some(
            "inspection_type="@,
            opt_string(p.inspection_type),
        ) + part_if_some("result="@, opt_string(p.result)) + int_part(
            "source_type="@,
            opt_i16(p.source_type),
        ) + part_if_some("status="@, opt_string(p.status)) + part_if_some(
            "date_from="@,
            opt_string(p.date_from),
        ) + part_if_some("date_to="@, opt_string(p.date_to)),
    )
}

pub fn build_query_string(params: &ResultQueryParams) -> (r: String)
    ensures
        r@ == result_query(*params),
{
    let mut q: Vec<String> = Vec::new();
    push_part_if_nonempty(&mut q, "keyword=", as_deref(&params.keyword));
    push_part_if_some(&mut q, "inspection_type=", as_deref(&params.inspection_type));
    push_part_if_some(&mut q, "result=", as_deref(&params.result));
    push_int_part(&mut q, "source_type=", match params.source_type { Some(s) => Some(s as i64), None => None });
    push_part_if_some(&mut q, "status=", as_deref(&params.status));
    push_part_if_some(&mut q, "date_from=", as_deref(&params.date_from));
    push_part_if_some(&mut q, "date_to=", as_deref(&params.date_to));
    assert(views(q@) =~= part_if_nonempty("keyword="@, opt_string(params.keyword)) + part_if_some(
        "inspection_type="@,
        opt_string(params.inspection_type),
    ) + part_if_some("result="@, opt_string(params.result)) + int_part(
        "source_type="@,
        opt_i16(params.source_type),
    ) + part_if_some("status="@, opt_string(params.status)) + part_if_some(
        "date_from="@,
        opt_string(params.date_from),
    ) + part_if_some("date_to="@, opt_string(params.date_to)));
    join_amp(&q)
}

} // verus!
