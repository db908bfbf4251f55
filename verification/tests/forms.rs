use abt_purchase::decimal::Dec;
use abt_purchase::form::Rejection;
use abt_purchase::pages::purchase_approval_rules::{parse_rule_form, RuleFormData};
use abt_purchase::pages::purchase_demand_pool_create::{create_order_request, preselected_ids, CreateOrderForm, DemandPoolCreateParams};
use abt_purchase::pages::purchase_order_create::{build_po_create_request, preview_rows, redirect_to_list, ItemWeb, POCreateForm};
use abt_purchase::pages::purchase_order_edit::{build_po_update_request, OrderTerms, POEditForm};
use abt_purchase::pages::purchase_quotation_create::{
    build_pq_create_request, preview_rows as pq_preview_rows, price_record_defaults, ItemWeb as PqItemWeb, PQCreateForm, PriceRecordParams,
};
use abt_purchase::pages::purchase_return_create::{build_return_request, chosen_order, PRCreateForm, ReturnItemWeb};
use abt_purchase::pages::purchase_settings::{settings_request, SettingsForm};
use abt_purchase::pages::purchase_work_center::{convert_request, drawer_update_request, ConvertPoForm, PoDrawerForm};
use abt_purchase::pages::qms_mrb_create::{create_mrb_request, MrbCreateForm};
use abt_purchase::pages::qms_result_create::{plan_result_create, ResultCreateForm};
use abt_purchase::status::{InspectionResultType, InspectionSourceType, MRBDisposition, PurchaseOrderStatus, ResponsibleParty};
use chrono::Datelike;

fn day(y: i32, m: u32, d: u32) -> i32 {
    chrono::NaiveDate::from_ymd_opt(y, m, d).unwrap().num_days_from_ce()
}

fn dec(m: i128, s: u32) -> Dec {
    Dec { mantissa: m, scale: s }
}

fn item(pid: &str, qty: &str, price: &str) -> ItemWeb {
    ItemWeb {
        product_id: pid.into(),
        description: None,
        quantity: qty.into(),
        unit_price: price.into(),
        item_delivery_date: None,
        discount_pct: None,
        tax_rate_id: None,
    }
}

fn po_form(supplier_id: i64, order_date: &str) -> POCreateForm {
    POCreateForm {
        supplier_id,
        order_date: order_date.into(),
        expected_delivery_date: Some("".into()),
        payment_terms: Some("30天".into()),
        currency: None,
        delivery_address: None,
        related_quotation_id: None,
        buyer_id: None,
        remark: None,
        items_json: String::new(),
        action: None,
    }
}

fn message(r: &Rejection) -> String {
    match r {
        Rejection::Validation(m) => m.clone(),
        Rejection::BusinessRule(m) => m.clone(),
    }
}

#[test]
fn po_create_reads_a_good_form() {
    let mut it = item("42", "2.5", "10");
    it.discount_pct = Some("5".into());
    it.tax_rate_id = Some("0".into());
    it.item_delivery_date = Some("2024-06-01".into());
    it.description = Some("螺栓".into());
    let req = build_po_create_request(&po_form(7, "2024-05-20"), Ok(vec![it, item("x", "1", "0")])).unwrap();
    assert_eq!(req.supplier_id, 7);
    assert_eq!(req.order_date, day(2024, 5, 20));
    assert_eq!(req.expected_delivery_date, None);
    assert_eq!(req.payment_terms.as_deref(), Some("30天"));
    assert_eq!(req.currency_code, "CNY");
    assert_eq!(req.remark, "");
    assert_eq!(req.currency_rate, dec(1, 0));
    assert_eq!(req.discount_amount, dec(0, 0));
    assert_eq!(req.items.len(), 2);
    let a = &req.items[0];
    assert_eq!((a.product_id, a.line_no), (42, 1));
    assert_eq!(a.description, "螺栓");
    assert_eq!(a.quantity, dec(25, 1));
    assert_eq!(a.unit_price, dec(10, 0));
    assert_eq!(a.discount_pct, dec(5, 0));
    assert_eq!(a.tax_rate_id, None);
    assert_eq!(a.expected_delivery_date, Some(day(2024, 6, 1)));
    assert_eq!((req.items[1].product_id, req.items[1].line_no), (0, 2));
}

#[test]
fn po_create_reports_field_errors() {
    let e = build_po_create_request(&po_form(0, "bad"), Ok(vec![item("1", "1", "1")])).unwrap_err().0;
    assert_eq!(e.all.as_deref(), Some("无效订单日期格式"));
    assert_eq!(e.supplier_id.as_deref(), Some("请选择供应商"));
    assert_eq!(e.valid_until, None);

    let e = build_po_create_request(&po_form(1, "bad"), Err("expected value".into())).unwrap_err().0;
    assert_eq!(e.all.as_deref(), Some("无效产品数据: expected value"));

    let e = build_po_create_request(&po_form(1, "2024-01-01"), Ok(vec![])).unwrap_err().0;
    assert_eq!(e.all.as_deref(), Some("请至少添加一个采购产品明细"));

    // an empty list is not reported when another error is there
    let e = build_po_create_request(&po_form(0, "2024-01-01"), Ok(vec![])).unwrap_err().0;
    assert_eq!(e.all, None);
    assert_eq!(e.supplier_id.as_deref(), Some("请选择供应商"));

    let items = vec![item("1", "1", "1"), item("2", "x", "-1"), item("3", "-1", "1")];
    let e = build_po_create_request(&po_form(1, "2024-01-01"), Ok(items)).unwrap_err().0;
    assert_eq!(e.all.as_deref(), Some("第2行: 无效数量"));

    let e = build_po_create_request(&po_form(1, "2024-01-01"), Ok(vec![item("1", "-2", "1")])).unwrap_err().0;
    assert_eq!(e.all.as_deref(), Some("第1行: 数量不能为负"));
    let e = build_po_create_request(&po_form(1, "2024-01-01"), Ok(vec![item("1", "2", "?")])).unwrap_err().0;
    assert_eq!(e.all.as_deref(), Some("第1行: 无效单价"));
    let e = build_po_create_request(&po_form(1, "2024-01-01"), Ok(vec![item("1", "2", "-0.5")])).unwrap_err().0;
    assert_eq!(e.all.as_deref(), Some("第1行: 单价不能为负"));
}

#[test]
fn created_draft_goes_back_to_the_list() {
    assert!(redirect_to_list(Some("draft")));
    assert!(!redirect_to_list(Some("submit")));
    assert!(!redirect_to_list(None));
}

fn terms() -> OrderTerms {
    OrderTerms { currency_code: "USD".into(), currency_rate: dec(72, 1), discount_amount: dec(3, 0) }
}

fn edit_form(supplier_id: i64, date: Option<&str>) -> POEditForm {
    POEditForm {
        supplier_id,
        expected_delivery_date: date.map(|s| s.to_string()),
        payment_terms: None,
        delivery_address: Some("A".into()),
        remark: Some("r".into()),
        items_json: String::new(),
    }
}

#[test]
fn po_edit_refuses_in_order() {
    let e = build_po_update_request(&edit_form(0, Some("bad")), Err("x".into()), &terms()).unwrap_err();
    assert_eq!(message(&e), "请选择供应商");
    let e = build_po_update_request(&edit_form(1, Some("abc")), Err("x".into()), &terms()).unwrap_err();
    assert_eq!(message(&e), "无效预期交货日期格式: input contains invalid characters");
    let e = build_po_update_request(&edit_form(1, Some("")), Err("eof".into()), &terms()).unwrap_err();
    assert_eq!(message(&e), "无效产品数据: eof");
    let e = build_po_update_request(&edit_form(1, None), Ok(vec![]), &terms()).unwrap_err();
    assert_eq!(message(&e), "请至少添加一个产品");
    let e = build_po_update_request(&edit_form(1, None), Ok(vec![item("1", "1", "1"), item("1", "1", "p")]), &terms()).unwrap_err();
    assert_eq!(message(&e), "第 2 行无效单价");
    assert!(matches!(e, Rejection::Validation(_)));
}

#[test]
fn po_edit_keeps_stored_terms() {
    let (req, lines) = build_po_update_request(&edit_form(5, Some("2024-07-01")), Ok(vec![item("8", "3", "4.50")]), &terms()).unwrap();
    assert_eq!(req.supplier_id, 5);
    assert_eq!(req.expected_delivery_date, Some(day(2024, 7, 1)));
    assert_eq!(req.currency_code, "USD");
    assert_eq!(req.currency_rate, dec(72, 1));
    assert_eq!(req.discount_amount, dec(3, 0));
    assert_eq!(req.remark, "r");
    assert_eq!(lines.len(), 1);
    assert_eq!(lines[0].unit_price, dec(450, 2));
}

#[test]
fn drawer_update_only_for_drafts() {
    let form = PoDrawerForm {
        supplier_id: 1,
        expected_delivery_date: None,
        payment_terms: None,
        delivery_address: None,
        remark: None,
        items_json: String::new(),
    };
    let e = drawer_update_request(PurchaseOrderStatus::Confirmed, &form, Ok(vec![item("1", "1", "1")]), &terms()).unwrap_err();
    assert!(matches!(e, Rejection::BusinessRule(_)));
    assert_eq!(message(&e), "仅草稿状态的订单可以编辑");
    let e = drawer_update_request(PurchaseOrderStatus::Draft, &form, Ok(vec![]), &terms()).unwrap_err();
    assert_eq!(message(&e), "请至少保留一个明细行");
    let e = drawer_update_request(PurchaseOrderStatus::Draft, &form, Err("bad".into()), &terms()).unwrap_err();
    assert_eq!(message(&e), "无效明细数据: bad");
    assert!(drawer_update_request(PurchaseOrderStatus::Draft, &form, Ok(vec![item("1", "1", "1")]), &terms()).is_ok());
}

fn pq_form(from: &str, until: &str) -> PQCreateForm {
    PQCreateForm {
        supplier_id: 3,
        quotation_date: "2024-01-10".into(),
        valid_from: from.into(),
        valid_until: until.into(),
        currency: Some("USD".into()),
        buyer_id: Some(11),
        supplier_quotation_no: None,
        remark: None,
        items_json: String::new(),
        action: None,
    }
}

fn pq_item(price: &str, moq: Option<&str>, lead: Option<&str>) -> PqItemWeb {
    PqItemWeb {
        product_id: "5".into(),
        unit_price: price.into(),
        min_order_qty: moq.map(|s| s.to_string()),
        lead_time_days: lead.map(|s| s.to_string()),
        is_preferred: Some("on".into()),
    }
}

#[test]
fn pq_create_checks_validity_and_lines() {
    let today = day(2024, 1, 10);
    let e = build_pq_create_request(&pq_form("2024-02-01", "2024-01-31"), Ok(vec![pq_item("1", None, None)]), today).unwrap_err().0;
    assert_eq!(e.valid_until.as_deref(), Some("失效日期必须晚于生效日期"));
    assert_eq!(e.all, None);
    // an unreadable start counts as today for the validity check
    let e = build_pq_create_request(&pq_form("x", "2024-03-01"), Ok(vec![pq_item("1", None, None)]), today).unwrap_err().0;
    assert_eq!(e.all.as_deref(), Some("无效生效日期格式"));
    assert_eq!(e.valid_until, None);
    let e = build_pq_create_request(&pq_form("2024-01-01", "2024-03-01"), Ok(vec![pq_item("1", Some("-1"), Some("-2"))]), today).unwrap_err().0;
    assert_eq!(e.all.as_deref(), Some("第1行: 交货天数不能为负"));
    let e = build_pq_create_request(&pq_form("2024-01-01", "2024-03-01"), Ok(vec![pq_item("1", Some("-1"), Some("x"))]), today).unwrap_err().0;
    assert_eq!(e.all.as_deref(), Some("第1行: 起订量不能为负"));
    let e = build_pq_create_request(&pq_form("2024-01-01", "2024-03-01"), Ok(vec![]), today).unwrap_err().0;
    assert_eq!(e.all.as_deref(), Some("请至少添加一个报价产品明细"));
}

#[test]
fn pq_create_reads_a_good_form() {
    let today = day(2024, 1, 10);
    let req = build_pq_create_request(&pq_form("2024-01-01", "2024-03-01"), Ok(vec![pq_item("9.9", Some("100"), Some("7"))]), today).unwrap();
    assert_eq!(req.currency, "USD");
    assert_eq!(req.buyer_id, Some(11));
    assert_eq!(req.valid_until, day(2024, 3, 1));
    assert_eq!(req.items[0].unit_price, dec(99, 1));
    assert_eq!(req.items[0].min_order_qty, Some(dec(100, 0)));
    assert_eq!(req.items[0].lead_time_days, Some(7));
    assert_eq!(req.items[0].currency, "USD");
    assert!(req.items[0].is_preferred);
}

#[test]
fn price_record_form_defaults() {
    let p = PriceRecordParams { supplier_id: 1, product_id: 2, price: Some("".into()), min_order_qty: None, lead_time_days: Some("3".into()), currency_code: Some("".into()) };
    let (price, moq, lead, cc) = price_record_defaults(&p);
    assert_eq!((price.as_str(), moq.as_str(), lead.as_str(), cc.as_str()), ("", "1", "3", "CNY"));
}

#[test]
fn return_create_refuses_in_order() {
    let form = PRCreateForm { order_id: 0, return_date: "2024-02-30".into(), return_reason: "坏".into(), remark: None, items_json: String::new() };
    assert_eq!(message(&chosen_order(&form).unwrap_err()), "请选择采购订单");
    let form = PRCreateForm { order_id: 4, ..form };
    assert_eq!(chosen_order(&form).unwrap(), 4);
    let e = build_return_request(&form, 8, Ok(vec![])).unwrap_err();
    assert_eq!(message(&e), "无效退货日期格式: input is out of range");
    let form = PRCreateForm { return_date: "2024-02-29".into(), ..form };
    let e = build_return_request(&form, 8, Err("oops".into())).unwrap_err();
    assert_eq!(message(&e), "无效退货明细数据: oops");
    let e = build_return_request(&form, 8, Ok(vec![])).unwrap_err();
    assert_eq!(message(&e), "请至少添加一个退货产品");
    let items = vec![ReturnItemWeb { order_item_id: 1, product_id: 2, returned_qty: "x".into(), unit_price: "3.5".into() }];
    let req = build_return_request(&form, 8, Ok(items)).unwrap();
    assert_eq!(req.supplier_id, 8);
    assert_eq!(req.return_date, day(2024, 2, 29));
    assert_eq!(req.items[0].returned_qty, dec(0, 0));
    assert_eq!(req.items[0].unit_price, dec(35, 1));
}

#[test]
fn rule_form_is_read() {
    let form = RuleFormData {
        name: "大额".into(),
        min_amount: "10000".into(),
        max_amount: Some("".into()),
        approver_role: "CFO".into(),
        approver_id: Some("12".into()),
        sort_order: "2".into(),
        is_active: Some("on".into()),
    };
    let req = parse_rule_form(&form).unwrap();
    assert_eq!(req.min_amount, dec(10000, 0));
    assert_eq!(req.max_amount, None);
    assert_eq!(req.approver_id, Some(12));
    assert_eq!(req.sort_order, 2);
    assert!(req.is_active);
    let bad_min = RuleFormData { min_amount: "abc".into(), sort_order: "x".into(), ..form.clone() };
    assert_eq!(message(&parse_rule_form(&bad_min).unwrap_err()), "无效最低金额");
    let bad_sort = RuleFormData { sort_order: "1.5".into(), is_active: None, ..form };
    assert_eq!(message(&parse_rule_form(&bad_sort).unwrap_err()), "无效排序值");
}

#[test]
fn settings_form_is_read() {
    let form = SettingsForm {
        over_delivery_allowance_pct: Some("5.5".into()),
        over_shortage_allowance_pct: Some("x".into()),
        maintain_same_rate: Some("on".into()),
        po_required_for_receipt: None,
        receipt_required_for_invoice: Some("".into()),
        default_currency_code: Some("CNY".into()),
        default_tax_rate_id: Some("".into()),
    };
    let r = settings_request(&form);
    assert_eq!(r.over_delivery_allowance_pct, Some(dec(55, 1)));
    assert_eq!(r.over_shortage_allowance_pct, None);
    assert_eq!(r.maintain_same_rate, Some(true));
    assert_eq!(r.po_required_for_receipt, None);
    assert_eq!(r.receipt_required_for_invoice, Some(true));
    assert_eq!(r.default_tax_rate_id, Some(None));
    let r = settings_request(&SettingsForm { default_tax_rate_id: Some("4".into()), ..form });
    assert_eq!(r.default_tax_rate_id, Some(Some(4)));
}

#[test]
fn demand_order_forms_are_read() {
    let form = CreateOrderForm { supplier_id: 2, expected_delivery_date: Some("".into()), remark: "急".into(), demand_ids: "x, ,".into() };
    assert_eq!(message(&create_order_request(&form).unwrap_err()), "请至少选择一条采购需求");
    let form = CreateOrderForm { demand_ids: "3,4".into(), expected_delivery_date: Some("2024-13-01".into()), ..form };
    assert_eq!(message(&create_order_request(&form).unwrap_err()), "无效预期交货日期格式: input is out of range");
    let form = CreateOrderForm { expected_delivery_date: Some("".into()), ..form };
    let req = create_order_request(&form).unwrap();
    assert_eq!(req.demand_ids, vec![3, 4]);
    assert_eq!(req.expected_delivery_date, None);

    let c = ConvertPoForm { demand_ids: "".into(), supplier_id: 1, expected_delivery_date: None, remark: String::new() };
    assert_eq!(message(&convert_request(&c).unwrap_err()), "demand_ids 不能为空");
    let c = ConvertPoForm { demand_ids: "7".into(), expected_delivery_date: Some("bad".into()), ..c };
    let req = convert_request(&c).unwrap();
    assert_eq!(req.expected_delivery_date, None);
    assert_eq!(req.demand_ids, vec![7]);

    let p = DemandPoolCreateParams { product_id: Some(1), product_code: None, product_name: None, demand_ids: Some("5, 6".into()) };
    assert_eq!(preselected_ids(&p), vec![5, 6]);
    assert_eq!(preselected_ids(&DemandPoolCreateParams { demand_ids: None, ..p }), Vec::<i64>::new());
}

#[test]
fn mrb_form_is_read() {
    let form = MrbCreateForm {
        inspection_result_id: 1,
        product_id: 2,
        defect_description: "划伤".into(),
        disposition: 9,
        responsible_party: 9,
        cost_impact: "oops".into(),
        remark: String::new(),
    };
    assert_eq!(message(&create_mrb_request(&form).unwrap_err()), "无效处置方式");
    let form = MrbCreateForm { disposition: 1, ..form };
    assert_eq!(message(&create_mrb_request(&form).unwrap_err()), "无效责任方");
    let form = MrbCreateForm { responsible_party: 2, ..form };
    let req = create_mrb_request(&form).unwrap();
    assert_eq!(req.disposition, MRBDisposition::Scrap);
    assert_eq!(req.responsible_party, ResponsibleParty::Supplier);
    assert_eq!(req.cost_impact, dec(0, 0));
}

#[test]
fn result_form_plans_create_and_record() {
    let form = ResultCreateForm {
        spec_id: 1,
        source_type: 0,
        source_id: 9,
        batch_no: "B1".into(),
        sample_qty: "5".into(),
        result: 2,
        qualified_qty: "3".into(),
        unqualified_qty: "2".into(),
        inspector_id: None,
        inspection_date: "2024-04-01".into(),
        check_results_json: String::new(),
    };
    assert_eq!(message(&plan_result_create(&form).unwrap_err()), "无效来源类型");
    let form = ResultCreateForm { source_type: 1, ..form };
    let plan = plan_result_create(&form).unwrap();
    assert_eq!(plan.create.source_type, InspectionSourceType::ArrivalNotice);
    assert_eq!(plan.create.sample_qty, dec(5, 0));
    let rec = plan.record.unwrap();
    assert_eq!(rec.result, InspectionResultType::Fail);
    assert_eq!(rec.inspector_id, 1);
    assert_eq!(rec.inspection_date, day(2024, 4, 1));
    assert!(!rec.has_check_results);
    let plan = plan_result_create(&ResultCreateForm { inspection_date: "".into(), ..form.clone() }).unwrap();
    assert!(plan.record.is_none());
    let plan = plan_result_create(&ResultCreateForm { result: 0, ..form }).unwrap();
    assert!(plan.record.is_none());
}

#[test]
fn refused_forms_hand_their_lines_back() {
    let items = vec![item("4", "x", "2.5"), item("0", "1", "1"), item("abc", "1", "1"), item("6", "1", "?")];
    let (e, back) = build_po_create_request(&po_form(1, "2024-01-01"), Ok(items)).unwrap_err();
    assert_eq!(e.all.as_deref(), Some("第1行: 无效数量"));
    assert_eq!(back.len(), 4);
    assert_eq!(back[0].product_id, "4");
    let rows = preview_rows(&back);
    assert_eq!(rows, vec![(4, dec(25, 1)), (6, dec(0, 0))]);
    let (_, back) = build_po_create_request(&po_form(1, "2024-01-01"), Err("bad json".into())).unwrap_err();
    assert!(back.is_empty());

    let today = day(2024, 1, 10);
    let (e, back) = build_pq_create_request(&pq_form("2024-01-01", "2023-01-01"), Ok(vec![pq_item("3", None, Some("4"))]), today).unwrap_err();
    assert!(e.valid_until.is_some());
    assert_eq!(pq_preview_rows(&back), vec![(5, dec(3, 0), Some(4))]);
}
