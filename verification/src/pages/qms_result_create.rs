//! Recording an inspection result: what the form creates, and whether and
//! with what the result is then recorded.
use vstd::prelude::*;
use crate::date::{parse_ymd, ymd_parse};
use crate::decimal::Dec;
use crate::form::{dec_or_zero, invalid, parse_dec_or_zero, Rejection};
use crate::status::{InspectionResultType, InspectionSourceType};
use crate::text::owned;

verus! {

/// The inspection result form.
#[derive(Clone, Debug)]
pub struct ResultCreateForm {
    pub spec_id: i64,
    pub source_type: i16,
    pub source_id: i64,
    pub batch_no: String,
    pub sample_qty: String,
    pub result: i16,
    pub qualified_qty: String,
    pub unqualified_qty: String,
    pub inspector_id: Option<i64>,
    pub inspection_date: String,
    pub check_results_json: String,
}

/// The request that creates the inspection result.
#[derive(Clone, Debug)]
pub struct CreateInspectionResultReq {
    pub spec_id: i64,
    pub source_type: InspectionSourceType,
    pub source_id: i64,
    pub batch_no: String,
    pub sample_qty: Dec,
}

/// The result recorded on it, when the form names one (its check results
/// are read from the form's JSON, none when that is empty).
#[derive(Clone, Debug)]
pub struct RecordPlan {
    pub result: InspectionResultType,
    pub qualified_qty: Dec,
    pub unqualified_qty: Dec,
    pub inspector_id: i64,
    pub inspection_date: i32,
    pub has_check_results: bool,
}

/// What submitting the form does: create, then maybe record.
#[derive(Clone, Debug)]
pub struct ResultCreatePlan {
    pub create: CreateInspectionResultReq,
    pub record: Option<RecordPlan>,
}

/// Reads the form: refused when the source type code names none; otherwise
/// the result is created with the sample quantity read or zero, and
/// recorded exactly when the result code names a result and the inspection
/// date can be read, by the given inspector or else inspector 1.
pub fn plan_result_create(form: &ResultCreateForm) -> (r: Result<ResultCreatePlan, Rejection>)
    ensures
        match r {
            Err(e) => InspectionSourceType::from_code(form.source_type) is None && e is Validation
                && e.message() == "无效来源类型"@,
            Ok(plan) => {
                &&& InspectionSourceType::from_code(form.source_type) == Some(plan.create.source_type)
                &&& plan.create.spec_id == form.spec_id
                &&& plan.create.source_id == form.source_id
                &&& plan.create.batch_no@ == form.batch_no@
                &&& plan.create.sample_qty.parts() == dec_or_zero(form.sample_qty@)
                &&& (plan.record is Some <==> (InspectionResultType::from_code(form.result) is Some
                    && ymd_parse(form.inspection_date@) is Ok))
                &&& plan.record matches Some(rec) ==> {
                    &&& InspectionResultType::from_code(form.result) == Some(rec.result)
                    &&& ymd_parse(form.inspection_date@) == Ok::<i32, Seq<char>>(rec.inspection_date)
                    &&& rec.qualified_qty.parts() == dec_or_zero(form.qualified_qty@)
                    &&& rec.unqualified_qty.parts() == dec_or_zero(form.unqualified_qty@)
                    &&& rec.inspector_id == match form.inspector_id {
                        Some(i) => i,
                        None => 1i64,
                    }
                    &&& rec.has_check_results == (form.check_results_json@.len() > 0)
                }
            },
        },
{
    let source_type = match InspectionSourceType::from_i16(form.source_type) {
        Some(s) => s,
        None => {
            return Err(invalid("无效来源类型"));
        },
    };
    let create = CreateInspectionResultReq {
        spec_id: form.spec_id,
        source_type,
        source_id: form.source_id,
        batch_no: owned(form.batch_no.as_str()),
        sample_qty: parse_dec_or_zero(form.sample_qty.as_str()),
    };
    let record = match InspectionResultType::from_i16(form.result) {
        Some(rt) => match parse_ymd(form.inspection_date.as_str()) {
            Ok(d) => Some(
                RecordPlan {
                    result: rt,
                    qualified_qty: parse_dec_or_zero(form.qualified_qty.as_str()),
                    unqualified_qty: parse_dec_or_zero(form.unqualified_qty.as_str()),
                    inspector_id: match form.inspector_id {
                        Some(i) => i,
                        None => 1,
                    },
                    inspection_date: d,
                    has_check_results: form.check_results_json.as_str().unicode_len() > 0,
                },
            ),
            Err(_) => None,
        },
        None => None,
    };
    Ok(ResultCreatePlan { create, record })
}

} // verus!
