//! Creating a material review: reading the form into a create request.
use vstd::prelude::*;
use crate::decimal::Dec;
use crate::form::{dec_or_zero, invalid, parse_dec_or_zero, Rejection};
use crate::status::{MRBDisposition, ResponsibleParty};
use crate::text::owned;

verus! {

/// The review create form.
#[derive(Clone, Debug)]
pub struct MrbCreateForm {
    pub inspection_result_id: i64,
    pub product_id: i64,
    pub defect_description: String,
    pub disposition: i16,
    pub responsible_party: i16,
    pub cost_impact: String,
    pub remark: String,
}

/// A review create request.
#[derive(Clone, Debug)]
pub struct CreateMrbReq {
    pub inspection_result_id: i64,
    pub product_id: i64,
    pub defect_description: String,
    pub disposition: MRBDisposition,
    pub responsible_party: ResponsibleParty,
    pub cost_impact: Dec,
    pub remark: String,
}

/// Reads the form: refused when the disposition code, then the responsible
/// party code, names none; the cost impact read, or zero.
pub fn create_mrb_request(form: &MrbCreateForm) -> (r: Result<CreateMrbReq, Rejection>)
    ensures
        match r {
            Err(e) => e is Validation && if MRBDisposition::from_code(form.disposition) is None {
                e.message() == "无效处置方式"@
            } else {
                ResponsibleParty::from_code(form.responsible_party) is None && e.message()
                    == "无效责任方"@
            },
            Ok(req) => {
                &&& MRBDisposition::from_code(form.disposition) == Some(req.disposition)
                &&& ResponsibleParty::from_code(form.responsible_party) == Some(req.responsible_party)
                &&& req.inspection_result_id == form.inspection_result_id
                &&& req.product_id == form.product_id
                &&& req.defect_description@ == form.defect_description@
                &&& req.cost_impact.parts() == dec_or_zero(form.cost_impact@)
                &&& req.remark@ == form.remark@
            },
        },
{
    let disposition = match MRBDisposition::from_i16(form.disposition) {
        Some(d) => d,
        None => {
            return Err(invalid("无效处置方式"));
        },
    };
    let responsible_party = match ResponsibleParty::from_i16(form.responsible_party) {
        Some(p) => p,
        None => {
            return Err(invalid("无效责任方"));
        },
    };
    Ok(
        CreateMrbReq {
            inspection_result_id: form.inspection_result_id,
            product_id: form.product_id,
            defect_description: owned(form.defect_description.as_str()),
            disposition,
            responsible_party,
            cost_impact: parse_dec_or_zero(form.cost_impact.as_str()),
            remark: owned(form.remark.as_str()),
        },
    )
}

} // verus!
