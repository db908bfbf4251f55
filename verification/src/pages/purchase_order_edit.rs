//! Editing a draft purchase order: reading the submitted form into an update
//! request and its item lines, or the first reason to refuse it.
use vstd::prelude::*;
use crate::decimal::{dec_checked_mul, decimal_checked_mul, decimal_parse, opt_parts, opt_wf, parse_decimal, Dec};
use crate::form::{checked_ymd, invalid, invalid_with, parse_checked_ymd, spaced_line_error, spaced_line_message, copy_opt, text_or_empty, Rejection};
use crate::pages::purchase_order_create::{item_request_of, items_view, order_item_request, CreateOrderItemRequest, ItemWeb};
use crate::query::opt_string;
use crate::text::owned;

verus! {

/// The purchase order edit form.
#[derive(Clone, Debug)]
pub struct POEditForm {
    pub supplier_id: i64,
    pub expected_delivery_date: Option<String>,
    pub payment_terms: Option<String>,
    pub delivery_address: Option<String>,
    pub remark: Option<String>,
    pub items_json: String,
}

/// What an update keeps of the order as stored: its currency, rate and
/// discount.
#[derive(Clone, Debug)]
pub struct OrderTerms {
    pub currency_code: String,
    pub currency_rate: Dec,
    pub discount_amount: Dec,
}

/// A purchase order update request (its item lines go beside it).
#[derive(Clone, Debug)]
pub struct UpdatePurchaseOrderRequest {
    pub supplier_id: i64,
    pub expected_delivery_date: Option<i32>,
    pub payment_terms: Option<String>,
    pub delivery_address: Option<String>,
    pub remark: String,
    pub currency_code: String,
    pub currency_rate: Dec,
    pub discount_amount: Dec,
}

/// The texts of the refusals that differ between the edit page and the
/// work center drawer.
pub struct UpdateMessages {
    pub bad_date: &'static str,
    pub bad_items: &'static str,
    pub no_items: &'static str,
}

/// The error of one item line of an update: quantity, then price,
/// unreadable.
pub open spec fn update_line_error(it: ItemWeb, line: int) -> Option<Seq<char>> {
    if decimal_parse(it.quantity@) is None {
        Some(spaced_line_message(line, "无效数量"@))
    } else if decimal_parse(it.unit_price@) is None {
        Some(spaced_line_message(line, "无效单价"@))
    } else {
        None
    }
}

/// The first line error among the first `n` lines.
pub open spec fn first_update_line_error(items: Seq<ItemWeb>, n: int) -> Option<Seq<char>>
    decreases n,
{
    if n <= 0 {
        None
    } else {
        match first_update_line_error(items, n - 1) {
            Some(m) => Some(m),
            None => update_line_error(items[n - 1], n),
        }
    }
}

/// The first reason to refuse an update, checked in turn: no supplier, an
/// unreadable delivery date, unreadable item lines, no item lines, and the
/// first bad line.
pub open spec fn update_error(
    supplier_id: i64,
    date: Option<Seq<char>>,
    items: Result<Seq<ItemWeb>, Seq<char>>,
    bad_date: Seq<char>,
    bad_items: Seq<char>,
    no_items: Seq<char>,
) -> Option<Seq<char>> {
    if supplier_id == 0 {
        Some("请选择供应商"@)
    } else if checked_ymd(date) is Err {
        Some(bad_date + checked_ymd(date)->Err_0)
    } else {
        match items {
            Err(e) => Some(bad_items + e),
            Ok(v) => if v.len() == 0 {
                Some(no_items)
            } else {
                first_update_line_error(v, v.len() as int)
            },
        }
    }
}

/// The update request the fields become, keeping the stored terms.
pub open spec fn update_request_of(
    r: UpdatePurchaseOrderRequest,
    supplier_id: i64,
    date: Option<Seq<char>>,
    payment_terms: Option<Seq<char>>,
    delivery_address: Option<Seq<char>>,
    remark: Option<Seq<char>>,
    terms: OrderTerms,
) -> bool {
    &&& r.supplier_id == supplier_id
    &&& checked_ymd(date) == Ok::<Option<i32>, Seq<char>>(r.expected_delivery_date)
    &&& opt_string(r.payment_terms) == payment_terms
    &&& opt_string(r.delivery_address) == delivery_address
    &&& r.remark@ == match remark {
        Some(s) => s,
        None => Seq::<char>::empty(),
    }
    &&& r.currency_code@ == terms.currency_code@
    &&& r.currency_rate == terms.currency_rate
    &&& r.discount_amount == terms.discount_amount
}

pub open spec fn lines_of(lines: Seq<CreateOrderItemRequest>, web: Seq<ItemWeb>) -> bool {
    &&& lines.len() == web.len()
    &&& forall|i: int| 0 <= i < web.len() ==> item_request_of(#[trigger] lines[i], web[i], i + 1)
}

/// Once a line error is found, it stays the first one.
proof fn lemma_first_update_error_stays(items: Seq<ItemWeb>, k: int, n: int)
    requires
        0 <= k <= n,
        first_update_line_error(items, k) is Some,
    ensures
        first_update_line_error(items, n) == first_update_line_error(items, k),
    decreases n - k,
{
    if n > k {
        lemma_first_update_error_stays(items, k, n - 1);
    }
}

/// Reads the item lines of an update, stopping at the first bad line.
fn update_lines(web: &Vec<ItemWeb>) -> (r: Result<Vec<CreateOrderItemRequest>, String>)
    requires
        web.len() < i32::MAX,
    ensures
        match r {
            Ok(lines) => first_update_line_error(web@, web@.len() as int) is None && lines_of(
                lines@,
                web@,
            ),
            Err(e) => first_update_line_error(web@, web@.len() as int) == Some(e@),
        },
{
    let mut reqs: Vec<CreateOrderItemRequest> = Vec::new();
    let mut i: usize = 0;
    while i < web.len()
        invariant
            i <= web.len(),
            web.len() < i32::MAX,
            first_update_line_error(web@, i as int) is None,
            reqs@.len() == i,
            forall|j: int| 0 <= j < i ==> item_request_of(#[trigger] reqs@[j], web@[j], j + 1),
        decreases web.len() - i,
    {
        let line: i32 = (i as i32) + 1;
        if parse_decimal(web[i].quantity.as_str()).is_none() {
            proof {
                lemma_first_update_error_stays(web@, i + 1, web@.len() as int);
            }
            return Err(spaced_line_error(line as i64, "无效数量"));
        }
        if parse_decimal(web[i].unit_price.as_str()).is_none() {
            proof {
                lemma_first_update_error_stays(web@, i + 1, web@.len() as int);
            }
            return Err(spaced_line_error(line as i64, "无效单价"));
        }
        reqs.push(order_item_request(&web[i], line));
        i = i + 1;
    }
    Ok(reqs)
}

/// Reads an update of a purchase order from its fields and item lines (as
/// read from the form's JSON, or the reading error's text). Refuses, as
/// invalid input, with the first reason `update_error` names; otherwise
/// gives the update request, keeping the stored terms, and the item lines.
pub fn read_po_update(
    supplier_id: i64,
    expected_delivery_date: &Option<String>,
    payment_terms: &Option<String>,
    delivery_address: &Option<String>,
    remark: &Option<String>,
    items: Result<Vec<ItemWeb>, String>,
    terms: &OrderTerms,
    msgs: &UpdateMessages,
) -> (r: Result<(UpdatePurchaseOrderRequest, Vec<CreateOrderItemRequest>), Rejection>)
    requires
        items matches Ok(v) ==> v.len() < i32::MAX,
    ensures
        ({
            let err = update_error(
                supplier_id,
                opt_string(*expected_delivery_date),
                items_view(items),
                msgs.bad_date@,
                msgs.bad_items@,
                msgs.no_items@,
            );
            match r {
                Err(e) => e is Validation && err == Some(e.message()),
                Ok((req, lines)) => err is None && update_request_of(
                    req,
                    supplier_id,
                    opt_string(*expected_delivery_date),
                    opt_string(*payment_terms),
                    opt_string(*delivery_address),
                    opt_string(*remark),
                    *terms,
                ) && lines_of(lines@, items_view(items)->Ok_0),
            }
        }),
{
    if supplier_id == 0 {
        return Err(invalid("请选择供应商"));
    }
    let date = match parse_checked_ymd(expected_delivery_date) {
        Ok(d) => d,
        Err(e) => {
            return Err(invalid_with(msgs.bad_date, e.as_str()));
        },
    };
    let web = match items {
        Ok(v) => v,
        Err(e) => {
            return Err(invalid_with(msgs.bad_items, e.as_str()));
        },
    };
    if web.len() == 0 {
        return Err(invalid(msgs.no_items));
    }
    let lines = match update_lines(&web) {
        Ok(l) => l,
        Err(e) => {
            return Err(Rejection::Validation(e));
        },
    };
    let req = UpdatePurchaseOrderRequest {
        supplier_id,
        expected_delivery_date: date,
        payment_terms: copy_opt(payment_terms),
        delivery_address: copy_opt(delivery_address),
        remark: text_or_empty(remark),
        currency_code: owned(terms.currency_code.as_str()),
        currency_rate: terms.currency_rate,
        discount_amount: terms.discount_amount,
    };
    Ok((req, lines))
}

/// The refusal texts of the edit page.
pub fn edit_page_messages() -> (m: UpdateMessages)
    ensures
        m.bad_date@ == "无效预期交货日期格式: "@,
        m.bad_items@ == "无效产品数据: "@,
        m.no_items@ == "请至少添加一个产品"@,
{
    UpdateMessages {
        bad_date: "无效预期交货日期格式: ",
        bad_items: "无效产品数据: ",
        no_items: "请至少添加一个产品",
    }
}

/// Reads the edit page's form (`update_po`), given its item lines as read
/// from `items_json` and the order's stored terms.
pub fn build_po_update_request(
    form: &POEditForm,
    items: Result<Vec<ItemWeb>, String>,
    terms: &OrderTerms,
) -> (r: Result<(UpdatePurchaseOrderRequest, Vec<CreateOrderItemRequest>), Rejection>)
    requires
        items matches Ok(v) ==> v.len() < i32::MAX,
    ensures
        ({
            let err = update_error(
                form.supplier_id,
                opt_string(form.expected_delivery_date),
                items_view(items),
                "无效预期交货日期格式: "@,
                "无效产品数据: "@,
                "请至少添加一个产品"@,
            );
            match r {
                Err(e) => e is Validation && err == Some(e.message()),
                Ok((req, lines)) => err is None && update_request_of(
                    req,
                    form.supplier_id,
                    opt_string(form.expected_delivery_date),
                    opt_string(form.payment_terms),
                    opt_string(form.delivery_address),
                    opt_string(form.remark),
                    *terms,
                ) && lines_of(lines@, items_view(items)->Ok_0),
            }
        }),
{
    let msgs = edit_page_messages();
    read_po_update(
        form.supplier_id,
        &form.expected_delivery_date,
        &form.payment_terms,
        &form.delivery_address,
        &form.remark,
        items,
        terms,
        &msgs,
    )
}

/// A line's subtotal: quantity times unit price; `None` where that
/// overflows.
pub fn line_subtotal(quantity: &Dec, unit_price: &Dec) -> (r: Option<Dec>)
    requires
        quantity.wf(),
        unit_price.wf(),
    ensures
        opt_parts(r) == decimal_checked_mul(quantity.parts(), unit_price.parts()),
        opt_wf(r),
{
    dec_checked_mul(quantity, unit_price)
}

} // verus!
