//! Creating a purchase return: reading the submitted form into a create
//! request, or the first reason to refuse it.
use vstd::prelude::*;
use crate::date::{parse_ymd, ymd_parse};
use crate::decimal::Dec;
use crate::form::{dec_or_zero, invalid, invalid_with, parse_dec_or_zero, text_or_empty, Rejection};
use crate::query::opt_string;
use crate::status::PurchaseOrderStatus;
use crate::text::owned;

verus! {

/// Query of the lines of the chosen order.
#[derive(Clone, Copy, Debug)]
pub struct OrderItemsParams {
    pub order_id: i64,
}

/// The purchase return create form.
#[derive(Clone, Debug)]
pub struct PRCreateForm {
    pub order_id: i64,
    pub return_date: String,
    pub return_reason: String,
    pub remark: Option<String>,
    pub items_json: String,
}

/// One returned line as the form sends it.
#[derive(Clone, Debug)]
pub struct ReturnItemWeb {
    pub order_item_id: i64,
    pub product_id: i64,
    pub returned_qty: String,
    pub unit_price: String,
}

/// One line of a return create request.
#[derive(Clone, Copy, Debug)]
pub struct CreateReturnItemRequest {
    pub order_item_id: i64,
    pub product_id: i64,
    pub returned_qty: Dec,
    pub unit_price: Dec,
}

/// A purchase return create request.
#[derive(Clone, Debug)]
pub struct CreatePurchaseReturnRequest {
    pub order_id: i64,
    pub supplier_id: i64,
    pub return_date: i32,
    pub return_reason: String,
    pub remark: String,
    pub items: Vec<CreateReturnItemRequest>,
}

/// The order the return is for: refused when none is chosen (id 0).
pub fn chosen_order(form: &PRCreateForm) -> (r: Result<i64, Rejection>)
    ensures
        match r {
            Ok(id) => form.order_id != 0 && id == form.order_id,
            Err(e) => form.order_id == 0 && e is Validation && e.message() == "请选择采购订单"@,
        },
{
    if form.order_id == 0 {
        Err(invalid("请选择采购订单"))
    } else {
        Ok(form.order_id)
    }
}

pub open spec fn return_items_view(items: Result<Vec<ReturnItemWeb>, String>) -> Result<
    Seq<ReturnItemWeb>,
    Seq<char>,
> {
    match items {
        Ok(v) => Ok(v@),
        Err(e) => Err(e@),
    }
}

/// The first reason to refuse the return, checked in turn: an unreadable
/// return date, unreadable lines, no lines.
pub open spec fn return_error(return_date: Seq<char>, items: Result<Seq<ReturnItemWeb>, Seq<char>>) -> Option<
    Seq<char>,
> {
    match ymd_parse(return_date) {
        Err(e) => Some("无效退货日期格式: "@ + e),
        Ok(_) => match items {
            Err(e) => Some("无效退货明细数据: "@ + e),
            Ok(v) => if v.len() == 0 {
                Some("请至少添加一个退货产品"@)
            } else {
                None
            },
        },
    }
}

/// A returned line: its ids as sent, quantity and price read or zero.
pub open spec fn return_line_of(r: CreateReturnItemRequest, it: ReturnItemWeb) -> bool {
    &&& r.order_item_id == it.order_item_id
    &&& r.product_id == it.product_id
    &&& r.returned_qty.parts() == dec_or_zero(it.returned_qty@)
    &&& r.unit_price.parts() == dec_or_zero(it.unit_price@)
}

/// Reads the return form, given the chosen order's supplier and the lines
/// as read from `items_json` (or the reading error's text).
pub fn build_return_request(
    form: &PRCreateForm,
    order_supplier_id: i64,
    items: Result<Vec<ReturnItemWeb>, String>,
) -> (r: Result<CreatePurchaseReturnRequest, Rejection>)
    ensures
        ({
            let err = return_error(form.return_date@, return_items_view(items));
            match r {
                Err(e) => e is Validation && err == Some(e.message()),
                Ok(req) => {
                    let web = return_items_view(items)->Ok_0;
                    &&& err is None
                    &&& req.order_id == form.order_id
                    &&& req.supplier_id == order_supplier_id
                    &&& ymd_parse(form.return_date@) == Ok::<i32, Seq<char>>(req.return_date)
                    &&& req.return_reason@ == form.return_reason@
                    &&& req.remark@ == match opt_string(form.remark) {
                        Some(s) => s,
                        None => Seq::<char>::empty(),
                    }
                    &&& req.items@.len() == web.len()
                    &&& forall|i: int|
                        0 <= i < web.len() ==> return_line_of(#[trigger] req.items@[i], web[i])
                },
            }
        }),
{
    let return_date = match parse_ymd(form.return_date.as_str()) {
        Ok(d) => d,
        Err(e) => {
            return Err(invalid_with("无效退货日期格式: ", e.as_str()));
        },
    };
    let web = match items {
        Ok(v) => v,
        Err(e) => {
            return Err(invalid_with("无效退货明细数据: ", e.as_str()));
        },
    };
    if web.len() == 0 {
        return Err(invalid("请至少添加一个退货产品"));
    }
    let mut lines: Vec<CreateReturnItemRequest> = Vec::new();
    let mut i: usize = 0;
    while i < web.len()
        invariant
            i <= web.len(),
            lines@.len() == i,
            forall|j: int| 0 <= j < i ==> return_line_of(#[trigger] lines@[j], web@[j]),
        decreases web.len() - i,
    {
        let it = &web[i];
        lines.push(
            CreateReturnItemRequest {
                order_item_id: it.order_item_id,
                product_id: it.product_id,
                returned_qty: parse_dec_or_zero(it.returned_qty.as_str()),
                unit_price: parse_dec_or_zero(it.unit_price.as_str()),
            },
        );
        i = i + 1;
    }
    Ok(
        CreatePurchaseReturnRequest {
            order_id: form.order_id,
            supplier_id: order_supplier_id,
            return_date,
            return_reason: owned(form.return_reason.as_str()),
            remark: text_or_empty(&form.remark),
            items: lines,
        },
    )
}

pub open spec fn order_status_word(s: PurchaseOrderStatus) -> Seq<char> {
    match s {
        PurchaseOrderStatus::Draft => "草稿"@,
        PurchaseOrderStatus::Confirmed => "已确认"@,
        PurchaseOrderStatus::PartiallyReceived => "部分收货"@,
        PurchaseOrderStatus::Received => "已收货"@,
        PurchaseOrderStatus::Closed => "已关闭"@,
        PurchaseOrderStatus::Cancelled => "已取消"@,
        PurchaseOrderStatus::PendingApproval => "待审批"@,
    }
}

/// The state of an order as the order select names it.
pub fn order_status_text(s: PurchaseOrderStatus) -> (r: &'static str)
    ensures
        r@ == order_status_word(s),
{
    match s {
        PurchaseOrderStatus::Draft => "草稿",
        PurchaseOrderStatus::Confirmed => "已确认",
        PurchaseOrderStatus::PartiallyReceived => "部分收货",
        PurchaseOrderStatus::Received => "已收货",
        PurchaseOrderStatus::Closed => "已关闭",
        PurchaseOrderStatus::Cancelled => "已取消",
        PurchaseOrderStatus::PendingApproval => "待审批",
    }
}

} // verus!
