//! Purchase settings: reading the settings form into an update request.
use vstd::prelude::*;
use crate::decimal::{opt_parts, opt_wf, Dec};
use crate::form::{copy_opt, nonempty_id, opt_dec, parse_nonempty_id, parse_opt_dec};
use crate::query::opt_string;

verus! {

/// The settings page's address.
#[derive(Clone, Copy, Debug)]
pub struct PurchaseSettingsPath;

impl PurchaseSettingsPath {
    pub fn path(&self) -> (r: &'static str)
        ensures
            r@ == "/admin/purchase/settings"@,
    {
        "/admin/purchase/settings"
    }
}

/// The settings form; a tick box is sent only when ticked.
#[derive(Clone, Debug)]
pub struct SettingsForm {
    pub over_delivery_allowance_pct: Option<String>,
    pub over_shortage_allowance_pct: Option<String>,
    pub maintain_same_rate: Option<String>,
    pub po_required_for_receipt: Option<String>,
    pub receipt_required_for_invoice: Option<String>,
    pub default_currency_code: Option<String>,
    pub default_tax_rate_id: Option<String>,
}

/// A settings update: a field left `None` is not changed.
#[derive(Clone, Debug)]
pub struct UpdatePurchaseSettingsRequest {
    pub over_delivery_allowance_pct: Option<Dec>,
    pub over_shortage_allowance_pct: Option<Dec>,
    pub maintain_same_rate: Option<bool>,
    pub po_required_for_receipt: Option<bool>,
    pub receipt_required_for_invoice: Option<bool>,
    pub default_currency_code: Option<String>,
    pub default_tax_rate_id: Option<Option<i64>>,
}

/// A ticked box sets its flag; an unticked one leaves it.
pub open spec fn ticked(o: Option<Seq<char>>) -> Option<bool> {
    match o {
        Some(_) => Some(true),
        None => None,
    }
}

fn tick(o: &Option<String>) -> (r: Option<bool>)
    ensures
        r == ticked(opt_string(*o)),
{
    match o {
        Some(_) => Some(true),
        None => None,
    }
}

/// Reads the settings form: allowances read when readable, each ticked box
/// set, the currency as given, and the default tax rate always set (to the
/// id when given, not empty and readable, else to none).
pub fn settings_request(form: &SettingsForm) -> (r: UpdatePurchaseSettingsRequest)
    ensures
        opt_parts(r.over_delivery_allowance_pct) == opt_dec(opt_string(form.over_delivery_allowance_pct)),
        opt_parts(r.over_shortage_allowance_pct) == opt_dec(opt_string(form.over_shortage_allowance_pct)),
        opt_wf(r.over_delivery_allowance_pct) && opt_wf(r.over_shortage_allowance_pct),
        r.maintain_same_rate == ticked(opt_string(form.maintain_same_rate)),
        r.po_required_for_receipt == ticked(opt_string(form.po_required_for_receipt)),
        r.receipt_required_for_invoice == ticked(opt_string(form.receipt_required_for_invoice)),
        opt_string(r.default_currency_code) == opt_string(form.default_currency_code),
        r.default_tax_rate_id == Some(nonempty_id(opt_string(form.default_tax_rate_id))),
{
    UpdatePurchaseSettingsRequest {
        over_delivery_allowance_pct: parse_opt_dec(&form.over_delivery_allowance_pct),
        over_shortage_allowance_pct: parse_opt_dec(&form.over_shortage_allowance_pct),
        maintain_same_rate: tick(&form.maintain_same_rate),
        po_required_for_receipt: tick(&form.po_required_for_receipt),
        receipt_required_for_invoice: tick(&form.receipt_required_for_invoice),
        default_currency_code: copy_opt(&form.default_currency_code),
        default_tax_rate_id: Some(parse_nonempty_id(&form.default_tax_rate_id)),
    }
}

} // verus!
