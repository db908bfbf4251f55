//! Creating a purchase order from pooled demands: the form, the demands it
//! starts from, and the supplier panel.
use vstd::prelude::*;
use crate::form::{checked_ymd, invalid, invalid_with, parse_checked_ymd, Rejection};
use crate::query::{opt_str, opt_string};
use crate::decimal::{all_wf, dec_sum, opt_parts, opt_wf, sum_parts, Dec};
use crate::text::{id_list_text, id_list_value, join_ids, owned, parse_id_list};

verus! {

/// Query of the create page: the product and the demands chosen in the pool.
#[derive(Clone, Debug)]
pub struct DemandPoolCreateParams {
    pub product_id: Option<i64>,
    pub product_code: Option<String>,
    pub product_name: Option<String>,
    pub demand_ids: Option<String>,
}

/// Query of the supplier panel.
#[derive(Clone, Copy, Debug)]
pub struct SupplierDetailQueryParams {
    pub supplier_id: i64,
}

/// The form that creates an order from demands.
#[derive(Clone, Debug)]
pub struct CreateOrderForm {
    pub supplier_id: i64,
    pub expected_delivery_date: Option<String>,
    pub remark: String,
    pub demand_ids: String,
}

/// A request to turn demands into one purchase order.
#[derive(Clone, Debug)]
pub struct CreateOrderFromDemandsReq {
    pub demand_ids: Vec<i64>,
    pub supplier_id: i64,
    pub expected_delivery_date: Option<i32>,
    pub remark: String,
}

pub fn priority_label(p: i32) -> (r: (&'static str, &'static str))
    ensures
        (r.0@, r.1@) == crate::pages::purchase_demand_pool::priority_text(p),
{
    match p {
        1 => ("紧急", "background:#fee2e2;color:#dc2626"),
        2 => ("高", "background:#fef3c7;color:#d97706"),
        3 => ("中", "background:#f1f5f9;color:#475569"),
        4 => ("低", "background:#f1f5f9;color:#94a3b8"),
        _ => ("—", "background:#f1f5f9;color:#94a3b8"),
    }
}

/// The demands chosen in the pool: the ids of the list, none when absent.
pub fn preselected_ids(params: &DemandPoolCreateParams) -> (r: Vec<i64>)
    ensures
        r@ == match opt_string(params.demand_ids) {
            Some(s) => id_list_value(s),
            None => Seq::<i64>::empty(),
        },
{
    match &params.demand_ids {
        Some(s) => parse_id_list(s.as_str()),
        None => Vec::new(),
    }
}

/// The name (or code) the page shows for the product: the query's, else the
/// first demand's, else `—`.
pub fn shown_or_first(given: Option<&str>, first: Option<&str>) -> (r: String)
    ensures
        r@ == match opt_str(given) {
            Some(g) => g,
            None => match opt_str(first) {
                Some(f) => f,
                None => "—"@,
            },
        },
{
    match given {
        Some(g) => owned(g),
        None => match first {
            Some(f) => owned(f),
            None => owned("—"),
        },
    }
}

/// Reads the form: refused when no demand id can be read, or when a
/// delivery date is given that cannot be read; otherwise the request.
pub fn create_order_request(form: &CreateOrderForm) -> (r: Result<CreateOrderFromDemandsReq, Rejection>)
    ensures
        ({
            let ids = id_list_value(form.demand_ids@);
            let date = checked_ymd(opt_string(form.expected_delivery_date));
            match r {
                Err(e) => e is Validation && if ids.len() == 0 {
                    e.message() == "请至少选择一条采购需求"@
                } else {
                    date is Err && e.message() == "无效预期交货日期格式: "@ + date->Err_0
                },
                Ok(req) => ids.len() > 0 && date == Ok::<Option<i32>, Seq<char>>(
                    req.expected_delivery_date,
                ) && req.demand_ids@ == ids && req.supplier_id == form.supplier_id
                    && req.remark@ == form.remark@,
            }
        }),
{
    let ids = parse_id_list(form.demand_ids.as_str());
    if ids.len() == 0 {
        return Err(invalid("请至少选择一条采购需求"));
    }
    let date = match parse_checked_ymd(&form.expected_delivery_date) {
        Ok(d) => d,
        Err(e) => {
            return Err(invalid_with("无效预期交货日期格式: ", e.as_str()));
        },
    };
    Ok(
        CreateOrderFromDemandsReq {
            demand_ids: ids,
            supplier_id: form.supplier_id,
            expected_delivery_date: date,
            remark: owned(form.remark.as_str()),
        },
    )
}

/// Which contact a supplier panel shows, given whether each is primary.
pub fn primary_contact(is_primary: &Vec<bool>, or_first: bool) -> (r: Option<usize>)
    ensures
        match r {
            Some(i) => i < is_primary@.len() && (is_primary@[i as int] && forall|j: int|
                0 <= j < i ==> !is_primary@[j]) || (or_first && i == 0 && forall|j: int|
                0 <= j < is_primary@.len() ==> !is_primary@[j]),
            None => !(or_first && is_primary@.len() > 0) && forall|j: int|
                0 <= j < is_primary@.len() ==> !is_primary@[j],
        },
{
    let mut i: usize = 0;
    while i < is_primary.len()
        invariant
            i <= is_primary.len(),
            forall|j: int| 0 <= j < i ==> !is_primary@[j],
        decreases is_primary.len() - i,
    {
        if is_primary[i] {
            return Some(i);
        }
        i = i + 1;
    }
    if or_first && is_primary.len() > 0 {
        Some(0)
    } else {
        None
    }
}

/// Whole years of cooperation from the days since the supplier was created
/// (integer division by 365, toward zero).
pub fn coop_years(elapsed_days: i64) -> (r: i64)
    ensures
        elapsed_days >= 0 ==> r == elapsed_days / 365,
        elapsed_days < 0 ==> r == -((-elapsed_days) / 365),
{
    elapsed_days / 365
}

/// Whether a demand starts ticked: every demand when none was chosen in the
/// pool, else the chosen ones.
pub open spec fn starts_checked(id: i64, preselected: Seq<i64>) -> bool {
    preselected.len() == 0 || preselected.contains(id)
}

pub fn is_checked(id: i64, preselected: &Vec<i64>) -> (r: bool)
    ensures
        r == starts_checked(id, preselected@),
{
    if preselected.len() == 0 {
        return true;
    }
    let mut k: usize = 0;
    while k < preselected.len()
        invariant
            k <= preselected.len(),
            forall|j: int| 0 <= j < k ==> preselected@[j] != id,
        decreases preselected.len() - k,
    {
        if preselected[k] == id {
            assert(preselected@[k as int] == id);
            return true;
        }
        k = k + 1;
    }
    false
}

/// The quantities of the ticked demands, in order.
pub open spec fn checked_quantities(ids: Seq<i64>, quantities: Seq<Dec>, preselected: Seq<i64>) -> Seq<Dec>
    decreases ids.len(),
{
    if ids.len() == 0 || quantities.len() != ids.len() {
        Seq::empty()
    } else if starts_checked(ids.last(), preselected) {
        checked_quantities(ids.drop_last(), quantities.drop_last(), preselected).push(quantities.last())
    } else {
        checked_quantities(ids.drop_last(), quantities.drop_last(), preselected)
    }
}

/// The summary of the create page: how many demands are chosen (all of
/// them when none was chosen in the pool), their ids joined with commas
/// (sent with the form), and the total quantity of the ticked ones (`None`
/// where that sum overflows).
pub fn chosen_summary(ids: &Vec<i64>, quantities: &Vec<Dec>, preselected: &Vec<i64>) -> (r: (
    usize,
    String,
    Option<Dec>,
))
    requires
        ids@.len() == quantities@.len(),
        all_wf(quantities@),
    ensures
        r.0 == if preselected@.len() == 0 {
            ids@.len()
        } else {
            preselected@.len()
        },
        r.1@ == if preselected@.len() == 0 {
            id_list_text(ids@)
        } else {
            id_list_text(preselected@)
        },
        opt_parts(r.2) == sum_parts(checked_quantities(ids@, quantities@, preselected@)),
        opt_wf(r.2),
{
    let mut chosen: Vec<Dec> = Vec::new();
    let mut i: usize = 0;
    assert(ids@.take(0) =~= Seq::<i64>::empty());
    while i < ids.len()
        invariant
            i <= ids.len(),
            ids@.len() == quantities@.len(),
            all_wf(quantities@),
            all_wf(chosen@),
            chosen@ == checked_quantities(ids@.take(i as int), quantities@.take(i as int), preselected@),
        decreases ids.len() - i,
    {
        assert(ids@.take(i + 1).drop_last() =~= ids@.take(i as int));
        assert(quantities@.take(i + 1).drop_last() =~= quantities@.take(i as int));
        assert(ids@.take(i + 1).last() == ids@[i as int]);
        assert(quantities@.take(i + 1).last() == quantities@[i as int]);
        if is_checked(ids[i], preselected) {
            chosen.push(quantities[i]);
            assert(all_wf(chosen@)) by {
                assert(quantities@[i as int].wf());
            }
        }
        i = i + 1;
    }
    assert(ids@.take(ids.len() as int) =~= ids@);
    assert(quantities@.take(quantities.len() as int) =~= quantities@);
    let count = if preselected.len() == 0 {
        ids.len()
    } else {
        preselected.len()
    };
    let text = if preselected.len() == 0 {
        join_ids(ids)
    } else {
        join_ids(preselected)
    };
    (count, text, dec_sum(&chosen))
}

} // verus!
