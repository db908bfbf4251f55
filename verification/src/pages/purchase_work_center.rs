//! The purchase work center: what each card asks for, the demand-to-order
//! conversions, the order drawer's update, the cached summary, and the
//! small labels and styles of its tables.
use vstd::prelude::*;
use crate::date::{add_days_or_same, valid_day, ymd_parse, MAX_DAY};
use crate::decimal::{all_wf, dec_less, dec_sum, opt_parts, opt_wf, sum_parts, Dec};
use crate::form::{invalid, Rejection};
use crate::pages::purchase_demand_pool_create::CreateOrderFromDemandsReq;
use crate::pages::purchase_order_create::{items_view, CreateOrderItemRequest, ItemWeb};
use crate::pages::purchase_order_edit::{lines_of, read_po_update, update_error, update_request_of, OrderTerms, UpdateMessages, UpdatePurchaseOrderRequest};
use crate::query::{as_deref, opt_string};
use crate::status::{MiscRequestStatus, OrderInvoiceStatus, PaymentStatus, PurchaseOrderStatus, PurchaseQuotationStatus, PurchaseReconStatus, PurchaseReturnStatus};
use crate::text::{id_list_value, int_text, owned, parse_id_list, push_str, same_text, u64_text};

verus! {

// ── Card queries ──

/// Query of the demand card.
#[derive(Clone, Debug)]
pub struct DemandCardParams {
    pub view: Option<String>,
    pub keyword: Option<String>,
    pub supplier_id: Option<i64>,
    pub page: Option<u32>,
}

/// Query of the orders card.
#[derive(Clone, Debug)]
pub struct OrdersCardParams {
    pub status: Option<i16>,
    pub keyword: Option<String>,
    pub page: Option<u32>,
}

/// Query of the settlement card.
#[derive(Clone, Debug)]
pub struct SettlementCardParams {
    pub tab: Option<String>,
    pub status: Option<i16>,
    pub keyword: Option<String>,
    pub page: Option<u32>,
}

/// Query of the returns card.
#[derive(Clone, Debug)]
pub struct ReturnsCardParams {
    pub status: Option<i16>,
    pub keyword: Option<String>,
    pub page: Option<u32>,
}

/// Query of the quotation card.
#[derive(Clone, Copy, Debug)]
pub struct QuotationCardParams {
    pub status: Option<i16>,
    pub page: Option<u32>,
}

/// Query of the miscellaneous requests card.
#[derive(Clone, Copy, Debug)]
pub struct MiscCardParams {
    pub status: Option<i16>,
    pub page: Option<u32>,
}

/// Query of the demand rows of one product.
#[derive(Clone, Copy, Debug)]
pub struct DemandRowsParams {
    pub product_id: i64,
}

/// The page a card shows: the query's, else the first.
pub fn card_page(page: Option<u32>) -> (r: u32)
    ensures
        r == match page {
            Some(p) => p,
            None => 1u32,
        },
{
    match page {
        Some(p) => p,
        None => 1,
    }
}

/// What the demand card lists: the demand lines (the `detail` view,
/// filtered by supplier when one is chosen) or the demands summed by
/// material (any other view, which ignores the supplier).
#[derive(Clone, Debug)]
pub struct DemandCardQuery {
    pub detail: bool,
    pub keyword: Option<String>,
    pub supplier_id: Option<i64>,
    pub page: u32,
}

pub fn demand_card_query(p: &DemandCardParams) -> (r: DemandCardQuery)
    ensures
        r.detail == (opt_string(p.view) == Some("detail"@)),
        opt_string(r.keyword) == opt_string(p.keyword),
        r.supplier_id == if r.detail {
            p.supplier_id
        } else {
            None
        },
        r.page == match p.page {
            Some(n) => n,
            None => 1u32,
        },
{
    let detail = match as_deref(&p.view) {
        Some(v) => same_text(v, "detail"),
        None => false,
    };
    DemandCardQuery {
        detail,
        keyword: crate::form::copy_opt(&p.keyword),
        supplier_id: if detail {
            p.supplier_id
        } else {
            None
        },
        page: card_page(p.page),
    }
}

/// What the settlement card lists: payment requests (the `payment` tab) or
/// reconciliations (any other tab), with the state code read for that kind.
#[derive(Clone, Debug)]
pub enum SettlementQuery {
    Payments { status: Option<PaymentStatus>, keyword: Option<String>, page: u32 },
    Recons { status: Option<PurchaseReconStatus>, page: u32 },
}

pub fn settlement_query(p: &SettlementCardParams) -> (r: SettlementQuery)
    ensures
        ({
            let page = match p.page {
                Some(n) => n,
                None => 1u32,
            };
            if opt_string(p.tab) == Some("payment"@) {
                r matches SettlementQuery::Payments { status, keyword, page: pg } && status
                    == match p.status {
                    Some(c) => PaymentStatus::from_code(c),
                    None => None,
                } && opt_string(keyword) == opt_string(p.keyword) && pg == page
            } else {
                r matches SettlementQuery::Recons { status, page: pg } && status == match p.status {
                    Some(c) => PurchaseReconStatus::from_code(c),
                    None => None,
                } && pg == page
            }
        }),
{
    let payment = match as_deref(&p.tab) {
        Some(t) => same_text(t, "payment"),
        None => false,
    };
    let page = card_page(p.page);
    if payment {
        SettlementQuery::Payments {
            status: match p.status {
                Some(c) => PaymentStatus::from_i16(c),
                None => None,
            },
            keyword: crate::form::copy_opt(&p.keyword),
            page,
        }
    } else {
        SettlementQuery::Recons {
            status: match p.status {
                Some(c) => PurchaseReconStatus::from_i16(c),
                None => None,
            },
            page,
        }
    }
}

// ── Turning demands into orders ──

/// Query of the batch conversion drawer: the chosen demand ids.
#[derive(Clone, Debug)]
pub struct BatchConvertDrawerParams {
    pub demand_ids: String,
}

/// The conversion form: demand ids, supplier, delivery date and remark.
#[derive(Clone, Debug)]
pub struct ConvertPoForm {
    pub demand_ids: String,
    pub supplier_id: i64,
    pub expected_delivery_date: Option<String>,
    pub remark: String,
}

/// The demand ids of a list, refused when none can be read.
pub fn demand_ids_of(list: &str) -> (r: Result<Vec<i64>, Rejection>)
    ensures
        match r {
            Ok(ids) => ids@ == id_list_value(list@) && ids@.len() > 0,
            Err(e) => id_list_value(list@).len() == 0 && e is Validation && e.message()
                == "demand_ids 不能为空"@,
        },
{
    let ids = parse_id_list(list);
    if ids.len() == 0 {
        Err(invalid("demand_ids 不能为空"))
    } else {
        Ok(ids)
    }
}

/// The drawer refuses when none of the chosen demands was found.
pub fn check_demands_found(found: usize) -> (r: Result<(), Rejection>)
    ensures
        r is Ok <==> found > 0,
        r matches Err(e) ==> e is Validation && e.message() == "所选需求不存在或已处理"@,
{
    if found == 0 {
        Err(invalid("所选需求不存在或已处理"))
    } else {
        Ok(())
    }
}

/// The delivery date of a conversion: read when given and readable, else
/// none.
pub open spec fn lenient_ymd(o: Option<Seq<char>>) -> Option<i32> {
    match o {
        Some(s) => match ymd_parse(s) {
            Ok(d) => Some(d),
            Err(_) => None,
        },
        None => None,
    }
}

/// Reads the conversion form: refused when no demand id can be read;
/// otherwise the request.
pub fn convert_request(form: &ConvertPoForm) -> (r: Result<CreateOrderFromDemandsReq, Rejection>)
    ensures
        match r {
            Ok(req) => {
                &&& req.demand_ids@ == id_list_value(form.demand_ids@)
                &&& req.demand_ids@.len() > 0
                &&& req.supplier_id == form.supplier_id
                &&& req.expected_delivery_date == lenient_ymd(opt_string(form.expected_delivery_date))
                &&& req.remark@ == form.remark@
            },
            Err(e) => id_list_value(form.demand_ids@).len() == 0 && e is Validation && e.message()
                == "demand_ids 不能为空"@,
        },
{
    let ids = match demand_ids_of(form.demand_ids.as_str()) {
        Ok(v) => v,
        Err(e) => {
            return Err(e);
        },
    };
    let date = match &form.expected_delivery_date {
        Some(s) => match crate::date::parse_ymd(s.as_str()) {
            Ok(d) => Some(d),
            Err(_) => None,
        },
        None => None,
    };
    Ok(
        CreateOrderFromDemandsReq {
            demand_ids: ids,
            supplier_id: form.supplier_id,
            expected_delivery_date: date,
            remark: owned(form.remark.as_str()),
        },
    )
}

// ── The order drawer ──

/// The order drawer's form.
#[derive(Clone, Debug)]
pub struct PoDrawerForm {
    pub supplier_id: i64,
    pub expected_delivery_date: Option<String>,
    pub payment_terms: Option<String>,
    pub delivery_address: Option<String>,
    pub remark: Option<String>,
    pub items_json: String,
}

/// Reads the drawer's update of an order in the given state: refused, as a
/// business rule, unless the order is a draft; then as the edit page reads
/// its form, with the drawer's own texts.
pub fn drawer_update_request(
    status: PurchaseOrderStatus,
    form: &PoDrawerForm,
    items: Result<Vec<ItemWeb>, String>,
    terms: &OrderTerms,
) -> (r: Result<(UpdatePurchaseOrderRequest, Vec<CreateOrderItemRequest>), Rejection>)
    requires
        items matches Ok(v) ==> v.len() < i32::MAX,
    ensures
        status != PurchaseOrderStatus::Draft ==> (r matches Err(e) && e is BusinessRule
            && e.message() == "仅草稿状态的订单可以编辑"@),
        status == PurchaseOrderStatus::Draft ==> ({
            let err = update_error(
                form.supplier_id,
                opt_string(form.expected_delivery_date),
                items_view(items),
                "无效交货日期: "@,
                "无效明细数据: "@,
                "请至少保留一个明细行"@,
            );
            match r {
                Err(e) => e is Validation && err == Some(e.message()),
                Ok((req, lines)) => err is None && update_request_of(
                    req,
                    form.supplier_id,
                    opt_string(form.expected_delivery_date),
                    opt_string(form.payment_terms),
                    opt_string(form.delivery_address),
                    opt_string(form.remark),
                    *terms,
                ) && lines_of(lines@, items_view(items)->Ok_0),
            }
        }),
{
    if status != PurchaseOrderStatus::Draft {
        return Err(Rejection::BusinessRule(owned("仅草稿状态的订单可以编辑")));
    }
    let msgs = UpdateMessages {
        bad_date: "无效交货日期: ",
        bad_items: "无效明细数据: ",
        no_items: "请至少保留一个明细行",
    };
    read_po_update(
        form.supplier_id,
        &form.expected_delivery_date,
        &form.payment_terms,
        &form.delivery_address,
        &form.remark,
        items,
        terms,
        &msgs,
    )
}

/// The actions of the order drawer.
#[derive(PartialEq, Eq, Structural, Clone, Copy, Debug)]
pub struct DrawerActions {
    pub cancel: bool,
    pub confirm: bool,
    pub submit: bool,
    pub save: bool,
    pub reject: bool,
    pub approve: bool,
}

/// A draft can be cancelled, confirmed, submitted and saved; an order
/// awaiting approval sent back or approved.
pub fn po_drawer_actions(s: PurchaseOrderStatus) -> (a: DrawerActions)
    ensures
        a.cancel == (s == PurchaseOrderStatus::Draft),
        a.confirm == (s == PurchaseOrderStatus::Draft),
        a.submit == (s == PurchaseOrderStatus::Draft),
        a.save == (s == PurchaseOrderStatus::Draft),
        a.reject == (s == PurchaseOrderStatus::PendingApproval),
        a.approve == (s == PurchaseOrderStatus::PendingApproval),
{
    let d = s == PurchaseOrderStatus::Draft;
    let p = s == PurchaseOrderStatus::PendingApproval;
    DrawerActions { cancel: d, confirm: d, submit: d, save: d, reject: p, approve: p }
}

/// Whether the quotation drawer offers its actions: for a draft or an
/// active quotation.
pub fn quotation_can_act(s: PurchaseQuotationStatus) -> (r: bool)
    ensures
        r == (s == PurchaseQuotationStatus::Draft || s == PurchaseQuotationStatus::Active),
{
    s == PurchaseQuotationStatus::Draft || s == PurchaseQuotationStatus::Active
}

// ── The cached summary ──

/// How long the cached summary is used, in seconds.
pub const SUMMARY_TTL_SECS: u64 = 30u64;

/// The summary cache: the summary with the moment (in milliseconds of a
/// monotonic clock) it was computed, or nothing.
pub struct SummaryCache<T> {
    pub entry: Option<(u64, T)>,
}

/// Whether an entry stored at `at` is still used at `now`: fewer than
/// thirty whole seconds have passed (no time passes if the clock reads
/// earlier).
pub open spec fn still_fresh(at: u64, now: u64) -> bool {
    (if now >= at {
        now - at
    } else {
        0
    }) / 1000 < SUMMARY_TTL_SECS
}

/// What a lookup at `now` finds.
pub open spec fn cached_at<T>(entry: Option<(u64, T)>, now: u64) -> Option<T> {
    match entry {
        Some((at, s)) => if still_fresh(at, now) {
            Some(s)
        } else {
            None
        },
        None => None,
    }
}

impl<T> SummaryCache<T> {
    pub fn new() -> (r: SummaryCache<T>)
        ensures
            r.entry is None,
    {
        SummaryCache { entry: None }
    }

    /// The cached summary, when there is one still in use at `now_ms`.
    pub fn lookup(&self, now_ms: u64) -> (r: Option<&T>)
        ensures
            match r {
                Some(s) => cached_at(self.entry, now_ms) == Some(*s),
                None => cached_at(self.entry, now_ms) is None,
            },
    {
        match &self.entry {
            Some((at, s)) => {
                let elapsed: u64 = if now_ms >= *at {
                    now_ms - *at
                } else {
                    0
                };
                if elapsed / 1000 < SUMMARY_TTL_SECS {
                    Some(s)
                } else {
                    None
                }
            },
            None => None,
        }
    }

    /// Keeps a freshly computed summary.
    pub fn store(&mut self, now_ms: u64, s: T)
        ensures
            final(self).entry == Some((now_ms, s)),
    {
        self.entry = Some((now_ms, s));
    }
}

/// Drops the cached summary, so that the next lookup computes it anew.
pub fn invalidate_purchase_summary<T>(cache: &mut SummaryCache<T>)
    ensures
        final(cache).entry is None,
{
    cache.entry = None;
}

/// A summary stored at `t` is found by every lookup in the thirty seconds
/// that follow, and by none after.
pub proof fn lemma_summary_lifetime<T>(t: u64, s: T, now: u64)
    requires
        now >= t,
    ensures
        now < t + 30000 ==> cached_at(Some((t, s)), now) == Some(s),
        now >= t + 30000 ==> cached_at(Some((t, s)), now) is None,
{
}

/// After the cache is dropped no lookup finds anything.
pub proof fn lemma_invalidated_misses<T>(entry: Option<(u64, T)>, now: u64)
    requires
        entry is None,
    ensures
        cached_at(entry, now) is None,
{
}

// ── Labels and styles ──

/// The class of a tab or toggle button, active or not.
pub open spec fn toggle_text(active: bool) -> Seq<char> {
    if active {
        "inline-flex items-center gap-1 px-3.5 py-1.5 text-sm text-accent font-semibold cursor-pointer bg-accent-bg rounded-sm border-none transition-colors"@
    } else {
        "inline-flex items-center gap-1 px-3.5 py-1.5 text-sm text-muted font-medium cursor-pointer bg-transparent border-none rounded-sm hover:text-fg hover:bg-surface transition-colors"@
    }
}

pub fn toggle_cls(active: bool) -> (r: &'static str)
    ensures
        r@ == toggle_text(active),
{
    if active {
        "inline-flex items-center gap-1 px-3.5 py-1.5 text-sm text-accent font-semibold cursor-pointer bg-accent-bg rounded-sm border-none transition-colors"
    } else {
        "inline-flex items-center gap-1 px-3.5 py-1.5 text-sm text-muted font-medium cursor-pointer bg-transparent border-none rounded-sm hover:text-fg hover:bg-surface transition-colors"
    }
}

/// The count badge of a tab: shown only for a count above zero.
pub fn tab_badge(n: u64) -> (r: Option<String>)
    ensures
        match r {
            Some(t) => n > 0 && t@ == int_text(n as int),
            None => n == 0,
        },
{
    if n > 0 {
        Some(u64_text(n))
    } else {
        None
    }
}

/// The colour of a material's total demand: by urgency of its earliest date
/// first (within 3 days danger, within 7 warning), then by size (above 100
/// warning), else the accent.
pub open spec fn qty_class_text(total: Dec, earliest: Option<i32>, today: int) -> Seq<char> {
    let by_date: Option<Seq<char>> = match earliest {
        Some(d) => if d - today <= 3 {
            Some("text-danger"@)
        } else if d - today <= 7 {
            Some("text-warn"@)
        } else {
            None
        },
        None => None,
    };
    match by_date {
        Some(c) => c,
        None => if total.value28() > (Dec { mantissa: 100, scale: 0 }).value28() {
            "text-warn"@
        } else {
            "text-accent"@
        },
    }
}

pub fn demand_qty_class(total: &Dec, earliest: Option<i32>, today: i32) -> (r: &'static str)
    requires
        total.wf(),
    ensures
        r@ == qty_class_text(*total, earliest, today as int),
{
    match earliest {
        Some(d) => {
            let diff: i64 = d as i64 - today as i64;
            if diff <= 3 {
                return "text-danger";
            }
            if diff <= 7 {
                return "text-warn";
            }
        },
        None => {},
    }
    if dec_less(&Dec::from_int(100), total) {
        "text-warn"
    } else {
        "text-accent"
    }
}

/// Whether a due date is overdue or due within the next seven days.
pub fn is_overdue_or_soon(d: Option<i32>, today: i32) -> (r: bool)
    requires
        valid_day(today as int),
    ensures
        r == (d matches Some(x) && x <= add_days_or_same(today as int, 7)),
{
    match d {
        None => false,
        Some(x) => {
            let soon: i32 = if today <= MAX_DAY - 7 {
                today + 7
            } else {
                today
            };
            x <= soon
        },
    }
}

/// The urgency hint of the work center's material rows.
pub open spec fn urgency_text(diff: int) -> Option<(Seq<char>, Seq<char>)> {
    if diff < 0 {
        Some(("⚠ 已逾期 "@ + int_text(-diff) + " 天"@, "text-danger"@))
    } else if diff == 0 {
        Some(("⚠ 今天到期"@, "text-danger"@))
    } else if diff <= 3 {
        Some(("⚠ "@ + int_text(diff) + " 天后到期"@, "text-danger"@))
    } else if diff <= 7 {
        Some((int_text(diff) + " 天后到期"@, "text-warn"@))
    } else {
        None
    }
}

pub fn urgency_hint(earliest: Option<i32>, today: i32) -> (r: Option<(String, &'static str)>)
    ensures
        crate::pages::purchase_demand_pool::hint_view(r) == match earliest {
            Some(d) => urgency_text(d - today),
            None => None,
        },
{
    let d = match earliest {
        Some(d) => d,
        None => {
            return None;
        },
    };
    let diff: i64 = d as i64 - today as i64;
    if diff < 0 {
        let mut t = owned("⚠ 已逾期 ");
        crate::text::push_i64(&mut t, -diff);
        push_str(&mut t, " 天");
        Some((t, "text-danger"))
    } else if diff == 0 {
        Some((owned("⚠ 今天到期"), "text-danger"))
    } else if diff <= 3 {
        let mut t = owned("⚠ ");
        crate::text::push_i64(&mut t, diff);
        push_str(&mut t, " 天后到期");
        Some((t, "text-danger"))
    } else if diff <= 7 {
        let mut t = crate::text::i64_text(diff);
        push_str(&mut t, " 天后到期");
        Some((t, "text-warn"))
    } else {
        None
    }
}

/// The four icons of the work center's material rows.
#[derive(PartialEq, Eq, Structural, Clone, Copy, Debug)]
pub enum RowGlyph {
    Tool,
    Cube,
    Briefcase,
    CheckCircle,
}

pub open spec fn row_icon_spec(product_id: i64) -> (Seq<char>, RowGlyph) {
    let v = crate::pages::purchase_demand_pool::icon_variant(product_id);
    if v == 0 {
        ("bg-warn-bg text-warn"@, RowGlyph::Tool)
    } else if v == 1 {
        ("bg-purple-bg text-purple"@, RowGlyph::Cube)
    } else if v == 2 {
        ("bg-accent-bg text-accent"@, RowGlyph::Briefcase)
    } else {
        ("bg-success-bg text-success"@, RowGlyph::CheckCircle)
    }
}

/// Style class and icon of a material row (by the product id's remainder by
/// four, as the demand pool picks its style).
pub fn material_icon(product_id: i64) -> (r: (&'static str, RowGlyph))
    ensures
        (r.0@, r.1) == row_icon_spec(product_id),
{
    let rem: i64 = product_id % 4;
    if rem == 0 {
        ("bg-warn-bg text-warn", RowGlyph::Tool)
    } else if rem == 1 {
        ("bg-purple-bg text-purple", RowGlyph::Cube)
    } else if rem == 2 {
        ("bg-accent-bg text-accent", RowGlyph::Briefcase)
    } else {
        ("bg-success-bg text-success", RowGlyph::CheckCircle)
    }
}

pub open spec fn po_pill_text(s: PurchaseOrderStatus) -> (Seq<char>, Seq<char>) {
    match s {
        PurchaseOrderStatus::PendingApproval => ("progress"@, "待审批"@),
        PurchaseOrderStatus::Confirmed => ("info"@, "待收货"@),
        PurchaseOrderStatus::PartiallyReceived => ("partial"@, "部分收货"@),
        PurchaseOrderStatus::Received => ("completed"@, "已收货"@),
        PurchaseOrderStatus::Closed => ("completed"@, "已关闭"@),
        PurchaseOrderStatus::Cancelled => ("cancelled"@, "已取消"@),
        PurchaseOrderStatus::Draft => ("draft"@, "草稿"@),
    }
}

/// Pill key and text of an order state in the work center.
pub fn po_status_pill(s: PurchaseOrderStatus) -> (r: (&'static str, &'static str))
    ensures
        (r.0@, r.1@) == po_pill_text(s),
{
    match s {
        PurchaseOrderStatus::PendingApproval => ("progress", "待审批"),
        PurchaseOrderStatus::Confirmed => ("info", "待收货"),
        PurchaseOrderStatus::PartiallyReceived => ("partial", "部分收货"),
        PurchaseOrderStatus::Received => ("completed", "已收货"),
        PurchaseOrderStatus::Closed => ("completed", "已关闭"),
        PurchaseOrderStatus::Cancelled => ("cancelled", "已取消"),
        PurchaseOrderStatus::Draft => ("draft", "草稿"),
    }
}

pub open spec fn invoice_pill_text(s: OrderInvoiceStatus) -> (Seq<char>, Seq<char>) {
    match s {
        OrderInvoiceStatus::NoInvoice => ("draft"@, "未开票"@),
        OrderInvoiceStatus::ToInvoice => ("info"@, "待开票"@),
        OrderInvoiceStatus::FullyInvoiced => ("completed"@, "已开票"@),
    }
}

/// Pill key and text of an order's invoicing state in the work center.
pub fn invoice_status_pill(s: OrderInvoiceStatus) -> (r: (&'static str, &'static str))
    ensures
        (r.0@, r.1@) == invoice_pill_text(s),
{
    match s {
        OrderInvoiceStatus::NoInvoice => ("draft", "未开票"),
        OrderInvoiceStatus::ToInvoice => ("info", "待开票"),
        OrderInvoiceStatus::FullyInvoiced => ("completed", "已开票"),
    }
}

pub open spec fn return_pill_text(s: PurchaseReturnStatus) -> (Seq<char>, Seq<char>) {
    match s {
        PurchaseReturnStatus::Draft => ("draft"@, "草稿"@),
        PurchaseReturnStatus::Confirmed => ("info"@, "已确认"@),
        PurchaseReturnStatus::Shipped => ("progress"@, "已发货"@),
        PurchaseReturnStatus::Settled => ("completed"@, "已结算"@),
        PurchaseReturnStatus::Cancelled => ("cancelled"@, "已取消"@),
    }
}

/// Pill key and text of a return state in the work center.
pub fn return_status_pill(s: PurchaseReturnStatus) -> (r: (&'static str, &'static str))
    ensures
        (r.0@, r.1@) == return_pill_text(s),
{
    match s {
        PurchaseReturnStatus::Draft => ("draft", "草稿"),
        PurchaseReturnStatus::Confirmed => ("info", "已确认"),
        PurchaseReturnStatus::Shipped => ("progress", "已发货"),
        PurchaseReturnStatus::Settled => ("completed", "已结算"),
        PurchaseReturnStatus::Cancelled => ("cancelled", "已取消"),
    }
}

pub open spec fn quotation_pill_text(s: PurchaseQuotationStatus) -> (Seq<char>, Seq<char>) {
    match s {
        PurchaseQuotationStatus::Draft => ("draft"@, "草稿"@),
        PurchaseQuotationStatus::Active => ("completed"@, "已生效"@),
        PurchaseQuotationStatus::Expired => ("cancelled"@, "已过期"@),
        PurchaseQuotationStatus::Cancelled => ("cancelled"@, "已取消"@),
    }
}

/// Pill key and text of a quotation state in the work center.
pub fn quotation_status_pill(s: PurchaseQuotationStatus) -> (r: (&'static str, &'static str))
    ensures
        (r.0@, r.1@) == quotation_pill_text(s),
{
    match s {
        PurchaseQuotationStatus::Draft => ("draft", "草稿"),
        PurchaseQuotationStatus::Active => ("completed", "已生效"),
        PurchaseQuotationStatus::Expired => ("cancelled", "已过期"),
        PurchaseQuotationStatus::Cancelled => ("cancelled", "已取消"),
    }
}

pub open spec fn misc_pill_text(s: MiscRequestStatus) -> (Seq<char>, Seq<char>) {
    match s {
        MiscRequestStatus::Draft => ("draft"@, "草稿"@),
        MiscRequestStatus::Approved => ("info"@, "已核准"@),
        MiscRequestStatus::Purchasing => ("progress"@, "采购中"@),
        MiscRequestStatus::Received => ("partial"@, "已到货"@),
        MiscRequestStatus::Closed => ("completed"@, "已关闭"@),
        MiscRequestStatus::Cancelled => ("cancelled"@, "已取消"@),
    }
}

/// Pill key and text of a miscellaneous request state.
pub fn misc_status_pill(s: MiscRequestStatus) -> (r: (&'static str, &'static str))
    ensures
        (r.0@, r.1@) == misc_pill_text(s),
{
    match s {
        MiscRequestStatus::Draft => ("draft", "草稿"),
        MiscRequestStatus::Approved => ("info", "已核准"),
        MiscRequestStatus::Purchasing => ("progress", "采购中"),
        MiscRequestStatus::Received => ("partial", "已到货"),
        MiscRequestStatus::Closed => ("completed", "已关闭"),
        MiscRequestStatus::Cancelled => ("cancelled", "已取消"),
    }
}

// ── Conversion drawers ──

/// What a conversion drawer shows of the chosen demands: their ids joined
/// with commas (sent back with the form), how many distinct products they
/// cover, and their total quantity (`None` where that sum overflows).
pub fn conversion_summary(demand_ids: &Vec<i64>, product_ids: &Vec<i64>, quantities: &Vec<Dec>) -> (r: (
    String,
    usize,
    Option<Dec>,
))
    requires
        all_wf(quantities@),
    ensures
        r.0@ == crate::text::id_list_text(demand_ids@),
        r.1 == crate::ids::distinct_ids_count(product_ids@),
        opt_parts(r.2) == sum_parts(quantities@),
        opt_wf(r.2),
{
    let ids = crate::text::join_ids(demand_ids);
    let products = crate::ids::distinct_ids(product_ids);
    proof {
        crate::ids::lemma_distinct_count(products@, product_ids@);
    }
    (ids, products.len(), dec_sum(quantities))
}

/// The supplier a single conversion starts with: that of the first
/// preferred quotation, if any.
pub fn preferred_supplier(is_preferred: &Vec<bool>, supplier_ids: &Vec<i64>) -> (r: Option<i64>)
    requires
        is_preferred@.len() == supplier_ids@.len(),
    ensures
        match r {
            Some(s) => exists|i: int|
                0 <= i < is_preferred@.len() && is_preferred@[i] && supplier_ids@[i] == s && forall|j: int|
                    0 <= j < i ==> !is_preferred@[j],
            None => forall|j: int| 0 <= j < is_preferred@.len() ==> !is_preferred@[j],
        },
{
    match crate::pages::purchase_demand_pool_create::primary_contact(is_preferred, false) {
        Some(i) => Some(supplier_ids[i]),
        None => None,
    }
}

} // verus!
