//! Creating a purchase quotation: reading the submitted form into a create
//! request, or into the field errors the form is shown again with; and the
//! defaults of the price record form.
use vstd::prelude::*;
use crate::date::{parse_ymd, ymd_parse};
use crate::decimal::{decimal_parse, opt_parts, opt_wf, parse_decimal, Dec};
use crate::form::{
    default_date, FieldValue,dec_or_zero, id_or_zero, line_error, line_message, opt_dec, parse_dec_or_zero, parse_id_or_zero, parse_opt_dec, text_or, text_or_empty, FormErrors};
use crate::query::opt_string;
use crate::text::{i32_value, owned, parse_i32_str, push_str};

verus! {

/// The purchase quotation create form.
#[derive(Clone, Debug)]
pub struct PQCreateForm {
    pub supplier_id: i64,
    pub quotation_date: String,
    pub valid_from: String,
    pub valid_until: String,
    pub currency: Option<String>,
    pub buyer_id: Option<i64>,
    pub supplier_quotation_no: Option<String>,
    pub remark: Option<String>,
    pub items_json: String,
    pub action: Option<String>,
}

/// One quoted line as the form sends it.
#[derive(Clone, Debug)]
pub struct ItemWeb {
    pub product_id: String,
    pub unit_price: String,
    pub min_order_qty: Option<String>,
    pub lead_time_days: Option<String>,
    pub is_preferred: Option<String>,
}

/// Query of one item row: the product, and the supplier chosen so far.
#[derive(Clone, Copy, Debug)]
pub struct ItemRowParams {
    pub product_id: i64,
    pub supplier_id: Option<i64>,
}

/// The supplier whose best price the new row starts with: the chosen one,
/// when it is a positive id.
pub fn price_supplier(p: &ItemRowParams) -> (r: Option<i64>)
    ensures
        r == match p.supplier_id {
            Some(s) => if s > 0 {
                Some(s)
            } else {
                None
            },
            None => None,
        },
{
    match p.supplier_id {
        Some(s) => if s > 0 {
            Some(s)
        } else {
            None
        },
        None => None,
    }
}

/// Query of the supplier's contact fields.
#[derive(Clone, Copy, Debug)]
pub struct SupplierContactParams {
    pub supplier_id: i64,
}

/// One line of a quotation create request.
#[derive(Clone, Debug)]
pub struct CreateQuotationItemRequest {
    pub product_id: i64,
    pub line_no: i32,
    pub unit_price: Dec,
    pub min_order_qty: Option<Dec>,
    pub lead_time_days: Option<i32>,
    pub currency: String,
    pub is_preferred: bool,
}

/// A purchase quotation create request.
#[derive(Clone, Debug)]
pub struct CreatePurchaseQuotationRequest {
    pub supplier_id: i64,
    pub quotation_date: i32,
    pub valid_from: i32,
    pub valid_until: i32,
    pub remark: String,
    pub currency: String,
    pub buyer_id: Option<i64>,
    pub supplier_quotation_no: String,
    pub items: Vec<CreateQuotationItemRequest>,
}

/// An optional whole-number field read when given and readable.
pub open spec fn opt_i32(o: Option<Seq<char>>) -> Option<i32> {
    match o {
        Some(s) => i32_value(s),
        None => None,
    }
}

fn parse_opt_i32(o: &Option<String>) -> (r: Option<i32>)
    ensures
        r == opt_i32(opt_string(*o)),
{
    match o {
        Some(s) => parse_i32_str(s.as_str()),
        None => None,
    }
}

/// The first error of one quoted line: price unreadable or negative, then a
/// negative lead time, then a negative minimum order quantity.
pub open spec fn pq_line_error(it: ItemWeb, line: int) -> Option<Seq<char>> {
    let p = decimal_parse(it.unit_price@);
    let lt = opt_i32(opt_string(it.lead_time_days));
    let moq = opt_dec(opt_string(it.min_order_qty));
    if p is None {
        Some(line_message(line, "无效单价"@))
    } else if (p->0).0 < 0 {
        Some(line_message(line, "单价不能为负"@))
    } else if lt matches Some(d) && d < 0 {
        Some(line_message(line, "交货天数不能为负"@))
    } else if moq matches Some(q) && q.0 < 0 {
        Some(line_message(line, "起订量不能为负"@))
    } else {
        None
    }
}

pub open spec fn first_pq_line_error(items: Seq<ItemWeb>, n: int) -> Option<Seq<char>>
    decreases n,
{
    if n <= 0 {
        None
    } else {
        match first_pq_line_error(items, n - 1) {
            Some(m) => Some(m),
            None => pq_line_error(items[n - 1], n),
        }
    }
}

fn check_pq_line(it: &ItemWeb, line: i32) -> (r: Option<String>)
    ensures
        opt_string(r) == pq_line_error(*it, line as int),
{
    match parse_decimal(it.unit_price.as_str()) {
        None => {
            return Some(line_error(line, "无效单价"));
        },
        Some(p) => if p.is_negative() {
            return Some(line_error(line, "单价不能为负"));
        },
    }
    match parse_opt_i32(&it.lead_time_days) {
        Some(d) => if d < 0 {
            return Some(line_error(line, "交货天数不能为负"));
        },
        None => {},
    }
    match parse_opt_dec(&it.min_order_qty) {
        Some(q) => if q.is_negative() {
            return Some(line_error(line, "起订量不能为负"));
        },
        None => {},
    }
    None
}

/// The request line that a quoted line becomes as line `line`.
pub open spec fn pq_item_of(r: CreateQuotationItemRequest, it: ItemWeb, line: int, currency: Seq<char>) -> bool {
    &&& r.product_id == id_or_zero(it.product_id@)
    &&& r.line_no == line
    &&& r.unit_price.parts() == dec_or_zero(it.unit_price@)
    &&& opt_parts(r.min_order_qty) == opt_dec(opt_string(it.min_order_qty))
    &&& r.lead_time_days == opt_i32(opt_string(it.lead_time_days))
    &&& r.currency@ == currency
    &&& r.is_preferred == (it.is_preferred is Some)
    &&& r.unit_price.wf() && opt_wf(r.min_order_qty)
}

pub open spec fn pq_items_view(items: Result<Vec<ItemWeb>, String>) -> Result<Seq<ItemWeb>, Seq<char>> {
    match items {
        Ok(v) => Ok(v@),
        Err(e) => Err(e@),
    }
}

pub open spec fn pq_items_or_none(items: Result<Seq<ItemWeb>, Seq<char>>) -> Seq<ItemWeb> {
    match items {
        Ok(v) => v,
        Err(_) => Seq::empty(),
    }
}

/// A date field's day, or `today` when it cannot be read (the form falls
/// back to today for the later checks).
pub open spec fn day_or_today(s: Seq<char>, today: i32) -> i32 {
    match ymd_parse(s) {
        Ok(d) => d,
        Err(_) => today,
    }
}

pub open spec fn pq_supplier_error(supplier_id: i64) -> Option<Seq<char>> {
    if supplier_id <= 0 {
        Some("请选择供应商"@)
    } else {
        None
    }
}

/// The validity error: the end of validity is not after its start (each
/// read as a day, or as today when unreadable).
pub open spec fn pq_validity_error(form: PQCreateForm, today: i32) -> Option<Seq<char>> {
    if day_or_today(form.valid_until@, today) <= day_or_today(form.valid_from@, today) {
        Some("失效日期必须晚于生效日期"@)
    } else {
        None
    }
}

/// The whole-form error of the quotation form, as the checks leave it in
/// turn: the first unreadable date (quotation, validity start, validity
/// end); then unreadable lines (which replace it); then, when nothing else
/// is wrong, no lines; and, when no such error was set, the first line
/// error.
pub open spec fn pq_all_error(form: PQCreateForm, items: Result<Seq<ItemWeb>, Seq<char>>, today: i32) -> Option<
    Seq<char>,
> {
    let date_err: Option<Seq<char>> = if ymd_parse(form.quotation_date@) is Err {
        Some("无效报价日期格式"@)
    } else if ymd_parse(form.valid_from@) is Err {
        Some("无效生效日期格式"@)
    } else if ymd_parse(form.valid_until@) is Err {
        Some("无效失效日期格式"@)
    } else {
        None
    };
    let after_json = match items {
        Err(e) => Some("无效产品数据: "@ + e),
        Ok(_) => date_err,
    };
    let web = pq_items_or_none(items);
    let after_empty = if web.len() == 0 && after_json is None && pq_supplier_error(
        form.supplier_id,
    ) is None && pq_validity_error(form, today) is None {
        Some("请至少添加一个报价产品明细"@)
    } else {
        after_json
    };
    match after_empty {
        Some(m) => Some(m),
        None => first_pq_line_error(web, web.len() as int),
    }
}

/// Reads the quotation form, given its lines as read from `items_json` (or
/// the reading error's text) and the current day. Fails with the field
/// errors exactly when one is set, handing the lines back so that the form
/// can show them again; otherwise gives the create request.
pub fn build_pq_create_request(
    form: &PQCreateForm,
    items: Result<Vec<ItemWeb>, String>,
    today: i32,
) -> (r: Result<CreatePurchaseQuotationRequest, (FormErrors, Vec<ItemWeb>)>)
    requires
        items matches Ok(v) ==> v.len() < i32::MAX,
    ensures
        ({
            let all = pq_all_error(*form, pq_items_view(items), today);
            let sup = pq_supplier_error(form.supplier_id);
            let val = pq_validity_error(*form, today);
            let currency = match opt_string(form.currency) {
                Some(c) => c,
                None => "CNY"@,
            };
            match r {
                Err((e, back)) => (all is Some || sup is Some || val is Some) && e.view3() == (
                    all,
                    sup,
                    val,
                ) && back@ == pq_items_or_none(pq_items_view(items)),
                Ok(req) => {
                    let web = pq_items_or_none(pq_items_view(items));
                    &&& all is None && sup is None && val is None
                    &&& req.supplier_id == form.supplier_id
                    &&& ymd_parse(form.quotation_date@) == Ok::<i32, Seq<char>>(req.quotation_date)
                    &&& ymd_parse(form.valid_from@) == Ok::<i32, Seq<char>>(req.valid_from)
                    &&& ymd_parse(form.valid_until@) == Ok::<i32, Seq<char>>(req.valid_until)
                    &&& req.remark@ == match opt_string(form.remark) {
                        Some(s) => s,
                        None => Seq::<char>::empty(),
                    }
                    &&& req.currency@ == currency
                    &&& req.buyer_id == form.buyer_id
                    &&& req.supplier_quotation_no@ == match opt_string(form.supplier_quotation_no) {
                        Some(s) => s,
                        None => Seq::<char>::empty(),
                    }
                    &&& req.items@.len() == web.len()
                    &&& forall|i: int|
                        0 <= i < web.len() ==> pq_item_of(#[trigger] req.items@[i], web[i], i + 1, currency)
                },
            }
        }),
{
    let mut errors = FormErrors::new();
    let qd = parse_ymd(form.quotation_date.as_str());
    if qd.is_err() {
        errors.all = Some(owned("无效报价日期格式"));
    }
    let vf = parse_ymd(form.valid_from.as_str());
    if vf.is_err() && errors.all.is_none() {
        errors.all = Some(owned("无效生效日期格式"));
    }
    let vu = parse_ymd(form.valid_until.as_str());
    if vu.is_err() && errors.all.is_none() {
        errors.all = Some(owned("无效失效日期格式"));
    }
    if form.supplier_id <= 0 {
        errors.supplier_id = Some(owned("请选择供应商"));
    }
    let from_day = match &vf {
        Ok(d) => *d,
        Err(_) => today,
    };
    let until_day = match &vu {
        Ok(d) => *d,
        Err(_) => today,
    };
    if until_day <= from_day {
        errors.valid_until = Some(owned("失效日期必须晚于生效日期"));
    }
    let web: Vec<ItemWeb> = match items {
        Ok(v) => v,
        Err(e) => {
            let mut m = owned("无效产品数据: ");
            push_str(&mut m, e.as_str());
            errors.all = Some(m);
            Vec::new()
        },
    };
    if web.len() == 0 && errors.is_empty() {
        errors.all = Some(owned("请至少添加一个报价产品明细"));
    }
    let main_currency = text_or(&form.currency, "CNY");
    let ghost all0 = opt_string(errors.all);
    let ghost sup0 = opt_string(errors.supplier_id);
    let ghost val0 = opt_string(errors.valid_until);
    let mut reqs: Vec<CreateQuotationItemRequest> = Vec::new();
    let mut i: usize = 0;
    while i < web.len()
        invariant
            i <= web.len(),
            web.len() < i32::MAX,
            reqs@.len() == i,
            forall|j: int|
                0 <= j < i ==> pq_item_of(#[trigger] reqs@[j], web@[j], j + 1, main_currency@),
            opt_string(errors.all) == match all0 {
                Some(m) => Some(m),
                None => first_pq_line_error(web@, i as int),
            },
            opt_string(errors.supplier_id) == sup0,
            opt_string(errors.valid_until) == val0,
        decreases web.len() - i,
    {
        let line: i32 = (i as i32) + 1;
        let it = &web[i];
        let e = check_pq_line(it, line);
        if errors.all.is_none() {
            errors.all = e;
        }
        reqs.push(
            CreateQuotationItemRequest {
                product_id: parse_id_or_zero(it.product_id.as_str()),
                line_no: line,
                unit_price: parse_dec_or_zero(it.unit_price.as_str()),
                min_order_qty: parse_opt_dec(&it.min_order_qty),
                lead_time_days: parse_opt_i32(&it.lead_time_days),
                currency: owned(main_currency.as_str()),
                is_preferred: it.is_preferred.is_some(),
            },
        );
        i = i + 1;
    }
    if !errors.is_empty() {
        return Err((errors, web));
    }
    let (q, f, u) = match (qd, vf, vu) {
        (Ok(q), Ok(f), Ok(u)) => (q, f, u),
        _ => (0, 0, 0),
    };
    Ok(
        CreatePurchaseQuotationRequest {
            supplier_id: form.supplier_id,
            quotation_date: q,
            valid_from: f,
            valid_until: u,
            remark: text_or_empty(&form.remark),
            currency: main_currency,
            buyer_id: form.buyer_id,
            supplier_quotation_no: text_or_empty(&form.supplier_quotation_no),
            items: reqs,
        },
    )
}

// ── The price record form ──

/// Query of the price record form: the supplier and product, and the values
/// it starts with.
#[derive(Clone, Debug)]
pub struct PriceRecordParams {
    pub supplier_id: i64,
    pub product_id: i64,
    pub price: Option<String>,
    pub min_order_qty: Option<String>,
    pub lead_time_days: Option<String>,
    pub currency_code: Option<String>,
}

/// A field's value when given and not empty, else a default.
pub open spec fn nonempty_or(o: Option<Seq<char>>, default: Seq<char>) -> Seq<char> {
    match o {
        Some(s) => if s.len() > 0 {
            s
        } else {
            default
        },
        None => default,
    }
}

fn value_or(o: &Option<String>, default: &str) -> (r: String)
    ensures
        r@ == nonempty_or(opt_string(*o), default@),
{
    match o {
        Some(s) => if s.as_str().unicode_len() > 0 {
            owned(s.as_str())
        } else {
            owned(default)
        },
        None => owned(default),
    }
}

/// The values the price record form starts with: price (else empty),
/// minimum order quantity (else 1), lead time (else 0) and currency (else
/// CNY).
pub fn price_record_defaults(p: &PriceRecordParams) -> (r: (String, String, String, String))
    ensures
        r.0@ == nonempty_or(opt_string(p.price), Seq::empty()),
        r.1@ == nonempty_or(opt_string(p.min_order_qty), "1"@),
        r.2@ == nonempty_or(opt_string(p.lead_time_days), "0"@),
        r.3@ == nonempty_or(opt_string(p.currency_code), "CNY"@),
{
    let price = value_or(&p.price, "");
    proof {
        reveal_strlit("");
    }
    (price, value_or(&p.min_order_qty, "1"), value_or(&p.lead_time_days, "0"), value_or(&p.currency_code, "CNY"))
}

/// The lines the form shows again after a refusal: those whose product id
/// reads as a positive id, with that id, the price read or zero, and the
/// lead time when readable.
pub open spec fn pq_preview_row_of(it: ItemWeb) -> Option<(i64, (i128, u32), Option<i32>)> {
    match crate::text::i64_value(it.product_id@) {
        Some(pid) => if pid > 0 {
            Some((pid, dec_or_zero(it.unit_price@), opt_i32(opt_string(it.lead_time_days))))
        } else {
            None
        },
        None => None,
    }
}

pub open spec fn pq_preview_rows_of(items: Seq<ItemWeb>) -> Seq<(i64, (i128, u32), Option<i32>)>
    decreases items.len(),
{
    if items.len() == 0 {
        Seq::empty()
    } else {
        match pq_preview_row_of(items.last()) {
            Some(row) => pq_preview_rows_of(items.drop_last()).push(row),
            None => pq_preview_rows_of(items.drop_last()),
        }
    }
}

/// The product ids, prices and lead times of the lines to show again.
pub fn preview_rows(items: &Vec<ItemWeb>) -> (r: Vec<(i64, Dec, Option<i32>)>)
    ensures
        r@.map_values(|x: (i64, Dec, Option<i32>)| (x.0, x.1.parts(), x.2)) == pq_preview_rows_of(items@),
{
    let mut r: Vec<(i64, Dec, Option<i32>)> = Vec::new();
    let mut i: usize = 0;
    assert(items@.take(0) =~= Seq::<ItemWeb>::empty());
    while i < items.len()
        invariant
            i <= items.len(),
            r@.map_values(|x: (i64, Dec, Option<i32>)| (x.0, x.1.parts(), x.2)) == pq_preview_rows_of(
                items@.take(i as int),
            ),
        decreases items.len() - i,
    {
        assert(items@.take(i + 1).drop_last() =~= items@.take(i as int));
        assert(items@.take(i + 1).last() == items@[i as int]);
        let ghost before = r@;
        match crate::text::parse_i64_str(items[i].product_id.as_str()) {
            Some(pid) => if pid > 0 {
                let price = parse_dec_or_zero(items[i].unit_price.as_str());
                let lead = parse_opt_i32(&items[i].lead_time_days);
                r.push((pid, price, lead));
                assert(r@.map_values(|x: (i64, Dec, Option<i32>)| (x.0, x.1.parts(), x.2)) =~= before.map_values(
                    |x: (i64, Dec, Option<i32>)| (x.0, x.1.parts(), x.2),
                ).push((pid, price.parts(), lead)));
            },
            None => {},
        }
        i = i + 1;
    }
    assert(items@.take(items.len() as int) =~= items@);
    r
}

/// The values the quotation form starts with.
#[derive(Clone, Debug)]
pub struct PqFormValues {
    pub supplier_id: String,
    pub quotation_date: FieldValue,
    pub valid_from: FieldValue,
    pub valid_until: FieldValue,
    pub currency: String,
}

/// A date field sent back, else its default.
pub open spec fn refilled(v: FieldValue, sent: Option<Seq<char>>, default: Option<i32>) -> bool {
    match sent {
        Some(t) => v.text_of() == Some(t),
        None => match default {
            Some(d) => v matches FieldValue::Day(x) && x == d,
            None => v is Empty,
        },
    }
}

/// The values the quotation form starts with: those of a refused submission
/// when it is shown again, else the defaults — no supplier, today for the
/// quotation date and validity start, the day the local clock reached 30
/// days on (if any) for the validity end, and `CNY` for the currency (also
/// when the submission had none).
pub fn pq_form_values(submitted: Option<&PQCreateForm>, today: i32, valid_until_default: Option<i32>) -> (r:
    PqFormValues)
    ensures
        r.supplier_id@ == match submitted {
            Some(f) => crate::text::int_text(f.supplier_id as int),
            None => Seq::<char>::empty(),
        },
        refilled(r.quotation_date, match submitted { Some(f) => Some(f.quotation_date@), None => None }, Some(today)),
        refilled(r.valid_from, match submitted { Some(f) => Some(f.valid_from@), None => None }, Some(today)),
        refilled(r.valid_until, match submitted { Some(f) => Some(f.valid_until@), None => None }, valid_until_default),
        r.currency@ == match submitted {
            Some(f) => match opt_string(f.currency) {
                Some(c) => c,
                None => "CNY"@,
            },
            None => "CNY"@,
        },
{
    match submitted {
        Some(f) => PqFormValues {
            supplier_id: crate::text::i64_text(f.supplier_id),
            quotation_date: FieldValue::Text(owned(f.quotation_date.as_str())),
            valid_from: FieldValue::Text(owned(f.valid_from.as_str())),
            valid_until: FieldValue::Text(owned(f.valid_until.as_str())),
            currency: text_or(&f.currency, "CNY"),
        },
        None => PqFormValues {
            supplier_id: String::new(),
            quotation_date: FieldValue::Day(today),
            valid_from: FieldValue::Day(today),
            valid_until: default_date(valid_until_default),
            currency: owned("CNY"),
        },
    }
}

} // verus!
