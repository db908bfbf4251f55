//! The inspection result page: labels.
use vstd::prelude::*;
use crate::status::{InspectionResultType, InspectionSourceType, InspectionStatus, InspectionType};

verus! {

pub open spec fn type_text(t: InspectionType) -> (Seq<char>, Seq<char>) {
    match t {
        InspectionType::Iqc => ("IQC (来料检验)"@, "status-active"@),
        InspectionType::Ipqc => ("IPQC (过程检验)"@, "status-completed"@),
        InspectionType::Fqc => ("FQC (成品检验)"@, "status-draft"@),
        InspectionType::Oqc => ("OQC (出货检验)"@, "status-warning"@),
    }
}

pub fn inspection_type_label(t: &InspectionType) -> (r: (&'static str, &'static str))
    ensures
        (r.0@, r.1@) == type_text(*t),
{
    match t {
        InspectionType::Iqc => ("IQC (来料检验)", "status-active"),
        InspectionType::Ipqc => ("IPQC (过程检验)", "status-completed"),
        InspectionType::Fqc => ("FQC (成品检验)", "status-draft"),
        InspectionType::Oqc => ("OQC (出货检验)", "status-warning"),
    }
}

pub open spec fn source_text(s: InspectionSourceType) -> Seq<char> {
    match s {
        InspectionSourceType::ArrivalNotice => "来料通知"@,
        InspectionSourceType::WorkOrderRouting => "工单工序"@,
        InspectionSourceType::ShippingRequest => "发货单"@,
        InspectionSourceType::OutsourcingOrder => "委外单"@,
        InspectionSourceType::ProductionReceipt => "完工入库"@,
    }
}

pub fn source_type_label(s: &InspectionSourceType) -> (r: &'static str)
    ensures
        r@ == source_text(*s),
{
    match s {
        InspectionSourceType::ArrivalNotice => "来料通知",
        InspectionSourceType::WorkOrderRouting => "工单工序",
        InspectionSourceType::ShippingRequest => "发货单",
        InspectionSourceType::OutsourcingOrder => "委外单",
        InspectionSourceType::ProductionReceipt => "完工入库",
    }
}

pub open spec fn result_text(r: InspectionResultType) -> (Seq<char>, Seq<char>) {
    match r {
        InspectionResultType::Pass => ("合格"@, "status-active"@),
        InspectionResultType::Fail => ("不合格"@, "status-danger"@),
        InspectionResultType::Conditional => ("让步接收"@, "status-info"@),
    }
}

pub fn result_type_label(t: &InspectionResultType) -> (r: (&'static str, &'static str))
    ensures
        (r.0@, r.1@) == result_text(*t),
{
    match t {
        InspectionResultType::Pass => ("合格", "status-active"),
        InspectionResultType::Fail => ("不合格", "status-danger"),
        InspectionResultType::Conditional => ("让步接收", "status-info"),
    }
}

pub open spec fn status_text(s: InspectionStatus) -> (Seq<char>, Seq<char>) {
    match s {
        InspectionStatus::Pending => ("待检验"@, "status-draft"@),
        InspectionStatus::Completed => ("已完成"@, "status-completed"@),
        InspectionStatus::Dispositioned => ("已处置"@, "status-active"@),
    }
}

pub fn status_label(s: &InspectionStatus) -> (r: (&'static str, &'static str))
    ensures
        (r.0@, r.1@) == status_text(*s),
{
    match s {
        InspectionStatus::Pending => ("待检验", "status-draft"),
        InspectionStatus::Completed => ("已完成", "status-completed"),
        InspectionStatus::Dispositioned => ("已处置", "status-active"),
    }
}

} // verus!
