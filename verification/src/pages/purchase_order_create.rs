//! Creating a purchase order: reading the submitted form into a create
//! request, or into the field errors the form is shown again with.
use vstd::prelude::*;
use crate::date::{parse_ymd, ymd_parse};
use crate::decimal::{decimal_parse, parse_decimal, Dec};
use crate::form::{dec_or_zero, id_or_zero, line_error, line_message, nonempty_ymd, opt_dec_or_zero, parse_id_or_zero, parse_nonempty_ymd, parse_opt_dec_or_zero, parse_positive_id, positive_id, text_or, text_or_empty, copy_opt, FormErrors};
use crate::query::opt_string;
use crate::text::{owned, push_str, same_text};

verus! {

/// Query of the product search.
#[derive(Clone, Debug)]
pub struct ProductSearchParams {
    pub name: Option<String>,
    pub code: Option<String>,
}

/// Query of the supplier detail fragment.
#[derive(Clone, Copy, Debug)]
pub struct SupplierDetailParams {
    pub supplier_id: i64,
}

/// Query of one item row.
#[derive(Clone, Copy, Debug)]
pub struct ItemRowParams {
    pub product_id: i64,
}

/// The purchase order create form.
#[derive(Clone, Debug)]
pub struct POCreateForm {
    pub supplier_id: i64,
    pub order_date: String,
    pub expected_delivery_date: Option<String>,
    pub payment_terms: Option<String>,
    pub currency: Option<String>,
    pub delivery_address: Option<String>,
    pub related_quotation_id: Option<String>,
    pub buyer_id: Option<String>,
    pub remark: Option<String>,
    pub items_json: String,
    pub action: Option<String>,
}

/// One item line as the form sends it.
#[derive(Clone, Debug)]
pub struct ItemWeb {
    pub product_id: String,
    pub description: Option<String>,
    pub quantity: String,
    pub unit_price: String,
    pub item_delivery_date: Option<String>,
    pub discount_pct: Option<String>,
    pub tax_rate_id: Option<String>,
}

/// One item line of a create or update request.
#[derive(Clone, Debug)]
pub struct CreateOrderItemRequest {
    pub product_id: i64,
    pub line_no: i32,
    pub description: String,
    pub quantity: Dec,
    pub unit_price: Dec,
    pub quotation_item_id: Option<i64>,
    pub expected_delivery_date: Option<i32>,
    pub discount_pct: Dec,
    pub tax_rate_id: Option<i64>,
}

/// A purchase order create request.
#[derive(Clone, Debug)]
pub struct CreatePurchaseOrderRequest {
    pub supplier_id: i64,
    pub order_date: i32,
    pub expected_delivery_date: Option<i32>,
    pub payment_terms: Option<String>,
    pub delivery_address: Option<String>,
    pub remark: String,
    pub currency_code: String,
    pub currency_rate: Dec,
    pub discount_amount: Dec,
    pub items: Vec<CreateOrderItemRequest>,
}

/// The request line that an item line becomes as line `line`: the product id
/// read or 0, the description or empty, quantity and price read or zero, the
/// line's own date when readable, the discount read or zero, and the tax
/// rate id when readable and positive.
pub open spec fn item_request_of(r: CreateOrderItemRequest, it: ItemWeb, line: int) -> bool {
    &&& r.product_id == id_or_zero(it.product_id@)
    &&& r.line_no == line
    &&& r.description@ == match opt_string(it.description) {
        Some(s) => s,
        None => Seq::<char>::empty(),
    }
    &&& r.quantity.parts() == dec_or_zero(it.quantity@)
    &&& r.unit_price.parts() == dec_or_zero(it.unit_price@)
    &&& r.quotation_item_id is None
    &&& r.expected_delivery_date == nonempty_ymd(opt_string(it.item_delivery_date))
    &&& r.discount_pct.parts() == opt_dec_or_zero(opt_string(it.discount_pct))
    &&& r.tax_rate_id == positive_id(opt_string(it.tax_rate_id))
    &&& r.quantity.wf() && r.unit_price.wf() && r.discount_pct.wf()
}

/// Converts an item line into request line `line`.
pub fn order_item_request(it: &ItemWeb, line: i32) -> (r: CreateOrderItemRequest)
    ensures
        item_request_of(r, *it, line as int),
{
    CreateOrderItemRequest {
        product_id: parse_id_or_zero(it.product_id.as_str()),
        line_no: line,
        description: text_or_empty(&it.description),
        quantity: crate::form::parse_dec_or_zero(it.quantity.as_str()),
        unit_price: crate::form::parse_dec_or_zero(it.unit_price.as_str()),
        quotation_item_id: None,
        expected_delivery_date: parse_nonempty_ymd(&it.item_delivery_date),
        discount_pct: parse_opt_dec_or_zero(&it.discount_pct),
        tax_rate_id: parse_positive_id(&it.tax_rate_id),
    }
}

/// The first error of one item line of the create form: quantity unreadable
/// or negative, then price unreadable or negative.
pub open spec fn create_line_error(it: ItemWeb, line: int) -> Option<Seq<char>> {
    let q = decimal_parse(it.quantity@);
    let p = decimal_parse(it.unit_price@);
    if q is None {
        Some(line_message(line, "无效数量"@))
    } else if (q->0).0 < 0 {
        Some(line_message(line, "数量不能为负"@))
    } else if p is None {
        Some(line_message(line, "无效单价"@))
    } else if (p->0).0 < 0 {
        Some(line_message(line, "单价不能为负"@))
    } else {
        None
    }
}

/// The first line error among the first `n` lines.
pub open spec fn first_create_line_error(items: Seq<ItemWeb>, n: int) -> Option<Seq<char>>
    decreases n,
{
    if n <= 0 {
        None
    } else {
        match first_create_line_error(items, n - 1) {
            Some(m) => Some(m),
            None => create_line_error(items[n - 1], n),
        }
    }
}

pub fn check_create_line(it: &ItemWeb, line: i32) -> (r: Option<String>)
    ensures
        crate::query::opt_string(r) == create_line_error(*it, line as int),
{
    let q = parse_decimal(it.quantity.as_str());
    let p = parse_decimal(it.unit_price.as_str());
    match q {
        None => Some(line_error(line, "无效数量")),
        Some(qd) => if qd.is_negative() {
            Some(line_error(line, "数量不能为负"))
        } else {
            match p {
                None => Some(line_error(line, "无效单价")),
                Some(pd) => if pd.is_negative() {
                    Some(line_error(line, "单价不能为负"))
                } else {
                    None
                },
            }
        },
    }
}

/// The view of the item lines the form's JSON was read into, or of the
/// reading error's text.
pub open spec fn items_view(items: Result<Vec<ItemWeb>, String>) -> Result<Seq<ItemWeb>, Seq<char>> {
    match items {
        Ok(v) => Ok(v@),
        Err(e) => Err(e@),
    }
}

pub open spec fn items_or_none(items: Result<Seq<ItemWeb>, Seq<char>>) -> Seq<ItemWeb> {
    match items {
        Ok(v) => v,
        Err(_) => Seq::empty(),
    }
}

/// The supplier field's error: none chosen.
pub open spec fn po_supplier_error(supplier_id: i64) -> Option<Seq<char>> {
    if supplier_id <= 0 {
        Some("请选择供应商"@)
    } else {
        None
    }
}

/// The whole-form error of the create form, as the checks leave it in turn:
/// an unreadable order date; then an unreadable item list (which replaces
/// it); then, when nothing else is wrong, an empty item list; and, when no
/// such error was set, the first line error.
pub open spec fn po_create_all_error(
    order_date: Seq<char>,
    supplier_id: i64,
    items: Result<Seq<ItemWeb>, Seq<char>>,
) -> Option<Seq<char>> {
    let date_err: Option<Seq<char>> = if ymd_parse(order_date) is Err {
        Some("无效订单日期格式"@)
    } else {
        None
    };
    let after_json = match items {
        Err(e) => Some("无效产品数据: "@ + e),
        Ok(_) => date_err,
    };
    let web = items_or_none(items);
    let after_empty = if web.len() == 0 && after_json is None && po_supplier_error(
        supplier_id,
    ) is None {
        Some("请至少添加一个采购产品明细"@)
    } else {
        after_json
    };
    match after_empty {
        Some(m) => Some(m),
        None => first_create_line_error(web, web.len() as int),
    }
}

/// The fields of the create request the form becomes when it has no errors.
pub open spec fn po_request_of(
    r: CreatePurchaseOrderRequest,
    form: POCreateForm,
    web: Seq<ItemWeb>,
) -> bool {
    &&& r.supplier_id == form.supplier_id
    &&& ymd_parse(form.order_date@) == Ok::<i32, Seq<char>>(r.order_date)
    &&& r.expected_delivery_date == nonempty_ymd(opt_string(form.expected_delivery_date))
    &&& opt_string(r.payment_terms) == opt_string(form.payment_terms)
    &&& opt_string(r.delivery_address) == opt_string(form.delivery_address)
    &&& r.remark@ == match opt_string(form.remark) {
        Some(s) => s,
        None => Seq::<char>::empty(),
    }
    &&& r.currency_code@ == match opt_string(form.currency) {
        Some(s) => s,
        None => "CNY"@,
    }
    &&& r.currency_rate.mantissa == 1 && r.currency_rate.scale == 0
    &&& r.discount_amount.mantissa == 0 && r.discount_amount.scale == 0
    &&& r.items@.len() == web.len()
    &&& forall|i: int| 0 <= i < web.len() ==> item_request_of(#[trigger] r.items@[i], web[i], i + 1)
}

/// Reads the create form, given its item lines as read from `items_json`
/// (or the reading error's text). Fails with the field errors exactly when
/// the whole-form error or the supplier error is set, handing the item lines
/// back so that the form can show them again; otherwise gives the create
/// request.
pub fn build_po_create_request(form: &POCreateForm, items: Result<Vec<ItemWeb>, String>) -> (r:
    Result<CreatePurchaseOrderRequest, (FormErrors, Vec<ItemWeb>)>)
    requires
        items matches Ok(v) ==> v.len() < i32::MAX,
    ensures
        ({
            let all = po_create_all_error(form.order_date@, form.supplier_id, items_view(items));
            let sup = po_supplier_error(form.supplier_id);
            match r {
                Err((e, back)) => (all is Some || sup is Some) && e.view3() == (all, sup, None::<
                    Seq<char>,
                >) && back@ == items_or_none(items_view(items)),
                Ok(req) => all is None && sup is None && po_request_of(
                    req,
                    *form,
                    items_or_none(items_view(items)),
                ),
            }
        }),
{
    let mut errors = FormErrors::new();
    let order_date = parse_ymd(form.order_date.as_str());
    if order_date.is_err() {
        errors.all = Some(owned("无效订单日期格式"));
    }
    let expected_delivery_date = parse_nonempty_ymd(&form.expected_delivery_date);
    if form.supplier_id <= 0 {
        errors.supplier_id = Some(owned("请选择供应商"));
    }
    let web: Vec<ItemWeb> = match items {
        Ok(v) => v,
        Err(e) => {
            let mut m = owned("无效产品数据: ");
            push_str(&mut m, e.as_str());
            errors.all = Some(m);
            Vec::new()
        },
    };
    if web.len() == 0 && errors.is_empty() {
        errors.all = Some(owned("请至少添加一个采购产品明细"));
    }
    let ghost all0 = opt_string(errors.all);
    let ghost sup0 = opt_string(errors.supplier_id);
    let mut reqs: Vec<CreateOrderItemRequest> = Vec::new();
    let mut i: usize = 0;
    while i < web.len()
        invariant
            i <= web.len(),
            web.len() < i32::MAX,
            reqs@.len() == i,
            forall|j: int| 0 <= j < i ==> item_request_of(#[trigger] reqs@[j], web@[j], j + 1),
            opt_string(errors.all) == match all0 {
                Some(m) => Some(m),
                None => first_create_line_error(web@, i as int),
            },
            opt_string(errors.supplier_id) == sup0,
            errors.valid_until is None,
        decreases web.len() - i,
    {
        let line: i32 = (i as i32) + 1;
        let e = check_create_line(&web[i], line);
        if errors.all.is_none() {
            errors.all = e;
        }
        reqs.push(order_item_request(&web[i], line));
        i = i + 1;
    }
    if !errors.is_empty() {
        return Err((errors, web));
    }
    let od = match order_date {
        Ok(d) => d,
        Err(_) => 0,
    };
    Ok(CreatePurchaseOrderRequest {
        supplier_id: form.supplier_id,
        order_date: od,
        expected_delivery_date,
        payment_terms: copy_opt(&form.payment_terms),
        delivery_address: copy_opt(&form.delivery_address),
        remark: text_or_empty(&form.remark),
        currency_code: text_or(&form.currency, "CNY"),
        currency_rate: Dec::from_int(1),
        discount_amount: Dec::zero(),
        items: reqs,
    })
}

/// Whether a created order goes back to the list (the form's `draft`
/// action) rather than to the new order's page.
pub fn redirect_to_list(action: Option<&str>) -> (r: bool)
    ensures
        r == (crate::query::opt_str(action) == Some("draft"@)),
{
    match action {
        Some(a) => same_text(a, "draft"),
        None => false,
    }
}

/// The lines the form shows again after a refusal: those whose product id
/// reads as a positive id, with that id and the price read or zero.
pub open spec fn preview_row_of(it: ItemWeb) -> Option<(i64, (i128, u32))> {
    match crate::text::i64_value(it.product_id@) {
        Some(pid) => if pid > 0 {
            Some((pid, dec_or_zero(it.unit_price@)))
        } else {
            None
        },
        None => None,
    }
}

pub open spec fn preview_rows_of(items: Seq<ItemWeb>) -> Seq<(i64, (i128, u32))>
    decreases items.len(),
{
    if items.len() == 0 {
        Seq::empty()
    } else {
        match preview_row_of(items.last()) {
            Some(row) => preview_rows_of(items.drop_last()).push(row),
            None => preview_rows_of(items.drop_last()),
        }
    }
}

/// The product ids and prices of the lines to show again, in order.
pub fn preview_rows(items: &Vec<ItemWeb>) -> (r: Vec<(i64, Dec)>)
    ensures
        r@.map_values(|x: (i64, Dec)| (x.0, x.1.parts())) == preview_rows_of(items@),
{
    let mut r: Vec<(i64, Dec)> = Vec::new();
    let mut i: usize = 0;
    assert(items@.take(0) =~= Seq::<ItemWeb>::empty());
    while i < items.len()
        invariant
            i <= items.len(),
            r@.map_values(|x: (i64, Dec)| (x.0, x.1.parts())) == preview_rows_of(items@.take(i as int)),
        decreases items.len() - i,
    {
        assert(items@.take(i + 1).drop_last() =~= items@.take(i as int));
        assert(items@.take(i + 1).last() == items@[i as int]);
        let ghost before = r@;
        match crate::text::parse_i64_str(items[i].product_id.as_str()) {
            Some(pid) => if pid > 0 {
                let price = crate::form::parse_dec_or_zero(items[i].unit_price.as_str());
                r.push((pid, price));
                assert(r@.map_values(|x: (i64, Dec)| (x.0, x.1.parts())) =~= before.map_values(
                    |x: (i64, Dec)| (x.0, x.1.parts()),
                ).push((pid, price.parts())));
            },
            None => {},
        }
        i = i + 1;
    }
    assert(items@.take(items.len() as int) =~= items@);
    r
}

} // verus!
