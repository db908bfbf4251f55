use abt_purchase::pages::purchase_demand_pool_create::{chosen_summary, is_checked};
use abt_purchase::date::MAX_DAY;
use abt_purchase::form::{default_date, form_dates, FieldValue};
use abt_purchase::pages::purchase_quotation_create::{pq_form_values, PQCreateForm};
use abt_purchase::pages::qms_mrb_detail;
use abt_purchase::pages::{purchase_order_detail, purchase_quotation_detail, purchase_return_detail};
use abt_purchase::pages::purchase_quotation_create::{price_supplier, ItemRowParams};
use abt_purchase::date::parse_date_range;
use abt_purchase::decimal::Dec;
use abt_purchase::pages::purchase_approval_rules::{ladder_bar, ladder_scale, RuleBand};
use abt_purchase::pages::purchase_dashboard::{dashboard_stats, todo_items, DashboardCounts};
use abt_purchase::pages::purchase_demand_pool::{
    demand_status_label, due_date_range, is_detail_view, material_icon, priority_chip,
    urgency_hint, MaterialGlyph,
};
use abt_purchase::pages::purchase_demand_pool_create::{coop_years, primary_contact, priority_label, shown_or_first};
use abt_purchase::pages::purchase_invoice_list::{build_filter as invoice_filter, status_label as invoice_label, supplier_display, InvoiceQueryParams};
use abt_purchase::pages::purchase_order_detail::{
    fmt_pct_str, fmt_pct_style, invoice_status_label, merge_order_ids, order_actions,
    order_progress, read_item_changes, received_amount, status_label, workflow_steps, ChangeItem,
    LineQuantities, MergeForm, PoItemChange, ReceivedLine,
};
use abt_purchase::pages::purchase_order_edit::line_subtotal;
use abt_purchase::pages::purchase_order_list::{build_filter as po_filter, row_can_delete, status_label as po_list_label, POQueryParams};
use abt_purchase::pages::purchase_quotation_detail::{quotation_actions, workflow_steps as pq_steps};
use abt_purchase::pages::purchase_recon_create::{line_payable, preview_step, preview_totals, PreviewQuery, PreviewStep};
use abt_purchase::pages::purchase_recon_detail::workflow_steps as recon_steps;
use abt_purchase::pages::purchase_recon_list::{generate_periods, period_of};
use abt_purchase::pages::purchase_return_create::order_status_text;
use abt_purchase::pages::purchase_return_detail::workflow_steps as pr_steps;
use abt_purchase::pages::purchase_work_center::{
    demand_card_query, demand_qty_class, invalidate_purchase_summary, is_overdue_or_soon,
    conversion_summary, material_icon as wc_icon, preferred_supplier, quotation_can_act, settlement_query, tab_badge, toggle_cls,
    urgency_hint as wc_urgency, DemandCardParams, RowGlyph, SettlementCardParams,
    SettlementQuery, SummaryCache,
};
use abt_purchase::pages::qms_dashboard::pending_inspections;
use abt_purchase::pages::qms_mrb_detail::fmt_cost;
use abt_purchase::pages::qms_mrb_list::{build_filter as mrb_filter, parse_status as mrb_parse_status, MrbQueryParams};
use abt_purchase::pages::qms_result_list::{build_filter as result_filter, ResultQueryParams};
use abt_purchase::status::{
    InvoiceStatus, MRBStatus, OrderInvoiceStatus, PaymentStatus, PurchaseOrderStatus,
    PurchaseQuotationStatus, PurchaseReconStatus, PurchaseReturnStatus, InspectionType,
};
use abt_purchase::workflow::StepState;
use chrono::Datelike;

fn day(y: i32, m: u32, d: u32) -> i32 {
    chrono::NaiveDate::from_ymd_opt(y, m, d).unwrap().num_days_from_ce()
}

fn dec(m: i128, s: u32) -> Dec {
    Dec { mantissa: m, scale: s }
}

#[test]
fn demand_labels_and_chips() {
    assert_eq!(demand_status_label(1), ("待处理", "status-draft"));
    assert_eq!(demand_status_label(4), ("已取消", "status-cancelled"));
    assert_eq!(demand_status_label(0), ("未知", "status-draft"));
    assert_eq!(priority_chip(1), ("紧急", "background:#fee2e2;color:#dc2626"));
    assert_eq!(priority_chip(9), ("—", "background:#f1f5f9;color:#94a3b8"));
    assert_eq!(priority_label(2), priority_chip(2));
}

#[test]
fn urgency_hints_by_days_left() {
    let today = day(2024, 5, 10);
    assert_eq!(urgency_hint(None, today), None);
    assert_eq!(urgency_hint(Some(today - 3), today), Some(("已逾期3天".to_string(), "text-danger")));
    assert_eq!(urgency_hint(Some(today), today), Some(("今天到期".to_string(), "text-danger")));
    assert_eq!(urgency_hint(Some(today + 3), today), Some(("3天后到期".to_string(), "text-danger")));
    assert_eq!(urgency_hint(Some(today + 7), today), Some(("7天后到期".to_string(), "text-warn")));
    assert_eq!(urgency_hint(Some(today + 8), today), None);
    assert_eq!(wc_urgency(Some(today - 1), today), Some(("⚠ 已逾期 1 天".to_string(), "text-danger")));
    assert_eq!(wc_urgency(Some(today + 2), today), Some(("⚠ 2 天后到期".to_string(), "text-danger")));
    assert_eq!(wc_urgency(Some(today + 5), today), Some(("5 天后到期".to_string(), "text-warn")));
}

#[test]
fn material_icons_follow_remainder_by_four() {
    assert_eq!(material_icon(8), ("#ede9fe", "#7c3aed", MaterialGlyph::Tool));
    assert_eq!(material_icon(9).2, MaterialGlyph::ClipboardDocument);
    assert_eq!(material_icon(10).2, MaterialGlyph::Cube);
    assert_eq!(material_icon(11).2, MaterialGlyph::Activity);
    // a negative id has a negative remainder and falls to the last style
    assert_eq!(material_icon(-1).2, MaterialGlyph::Activity);
    assert_eq!(material_icon(-4).2, MaterialGlyph::Tool);
    assert_eq!(wc_icon(6), ("bg-accent-bg text-accent", RowGlyph::Briefcase));
    assert_eq!(wc_icon(-2).1, RowGlyph::CheckCircle);
}

#[test]
fn due_date_filter_bounds() {
    let today = day(2024, 5, 10);
    assert_eq!(due_date_range(Some("3days"), today), (None, Some(today + 3)));
    assert_eq!(due_date_range(Some("30days"), today), (None, Some(today + 30)));
    assert_eq!(due_date_range(Some("overdue"), today), (None, Some(today)));
    assert_eq!(due_date_range(Some("soon"), today), (None, None));
    assert_eq!(due_date_range(None, today), (None, None));
    assert!(is_detail_view(Some("detail")));
    assert!(!is_detail_view(Some("material")));
    assert!(!is_detail_view(None));
}

#[test]
fn date_range_reaches_back_from_today() {
    let today = day(2024, 5, 31);
    assert_eq!(parse_date_range("7d", today), (Some(today - 7), None));
    assert_eq!(parse_date_range("30d", today), (Some(today - 30), None));
    // three calendar months back, clamped to the end of February
    assert_eq!(parse_date_range("3m", today), (Some(day(2024, 2, 29)), None));
    assert_eq!(parse_date_range("1y", today), (None, None));
}

#[test]
fn order_list_filter_reads_in_transit() {
    let today = day(2024, 5, 31);
    let p = POQueryParams { keyword: None, status: Some(2), supplier_id: Some(4), date_range: Some("7d".into()), page: None };
    let f = po_filter(&p, today);
    assert_eq!(f.status, None);
    assert_eq!(f.statuses, Some(vec![PurchaseOrderStatus::Confirmed, PurchaseOrderStatus::PartiallyReceived]));
    assert_eq!(f.order_date_start, Some(today - 7));
    assert_eq!(f.supplier_id, Some(4));
    let f = po_filter(&POQueryParams { status: Some(7), date_range: None, ..p.clone() }, today);
    assert_eq!(f.status, Some(PurchaseOrderStatus::PendingApproval));
    assert_eq!(f.statuses, None);
    assert_eq!(f.order_date_start, None);
    let f = po_filter(&POQueryParams { status: Some(99), ..p }, today);
    assert_eq!(f.status, None);
    assert_eq!(po_list_label(PurchaseOrderStatus::Confirmed), ("在途", "status-confirmed"));
    assert!(row_can_delete(PurchaseOrderStatus::Draft, true));
    assert!(!row_can_delete(PurchaseOrderStatus::Draft, false));
    assert!(!row_can_delete(PurchaseOrderStatus::Closed, true));
}

#[test]
fn order_page_labels_and_actions() {
    assert_eq!(status_label(PurchaseOrderStatus::Received), ("已收货", "status-shipped"));
    assert_eq!(invoice_status_label(OrderInvoiceStatus::ToInvoice), ("待开票", "status-pending"));
    let a = order_actions(PurchaseOrderStatus::Draft);
    assert!(a.edit && a.submit && a.confirm && a.cancel && !a.approve && !a.reject);
    let a = order_actions(PurchaseOrderStatus::PendingApproval);
    assert!(!a.edit && a.approve && a.reject);
    let a = order_actions(PurchaseOrderStatus::Closed);
    assert!(!a.edit && !a.submit && !a.approve);
}

#[test]
fn order_step_bar_has_one_current_step() {
    let b = workflow_steps(PurchaseOrderStatus::PartiallyReceived);
    assert_eq!(b.steps, vec![StepState::Done, StepState::Done, StepState::Current, StepState::Todo, StepState::Todo]);
    assert_eq!(b.lines, vec![true, true, false, false]);
    let b = workflow_steps(PurchaseOrderStatus::Cancelled);
    assert!(b.steps.iter().all(|s| *s == StepState::Muted));
    assert!(b.lines.iter().all(|l| !*l));
    // awaiting approval counts as the first step
    assert_eq!(workflow_steps(PurchaseOrderStatus::PendingApproval).steps[0], StepState::Current);
}

#[test]
fn other_step_bars() {
    let b = pq_steps(PurchaseQuotationStatus::Expired);
    assert_eq!(b.steps, vec![StepState::Muted, StepState::Muted]);
    assert_eq!(b.lines, vec![false]);
    let b = pq_steps(PurchaseQuotationStatus::Active);
    assert_eq!(b.steps, vec![StepState::Done, StepState::Current]);
    assert_eq!(b.lines, vec![true]);
    let b = recon_steps(PurchaseReconStatus::Settled);
    assert_eq!(b.steps, vec![StepState::Done, StepState::Done, StepState::Current]);
    let b = pr_steps(PurchaseReturnStatus::Cancelled);
    assert_eq!(b.steps.len(), 4);
    assert!(b.steps.iter().all(|s| *s == StepState::Muted));
    let a = quotation_actions(PurchaseQuotationStatus::Active, true);
    assert!(a.convert && !a.activate && !a.delete);
    let a = quotation_actions(PurchaseQuotationStatus::Draft, true);
    assert!(a.activate && a.cancel && a.delete);
    assert!(quotation_can_act(PurchaseQuotationStatus::Draft));
    assert!(!quotation_can_act(PurchaseQuotationStatus::Expired));
}

#[test]
fn percentages_of_a_total() {
    assert_eq!(fmt_pct_str(&dec(1, 0), &dec(3, 0)).as_deref(), Some("33.3%"));
    assert_eq!(fmt_pct_str(&dec(1, 0), &dec(2, 0)).as_deref(), Some("50%"));
    assert_eq!(fmt_pct_str(&dec(5, 0), &dec(0, 0)).as_deref(), Some("0%"));
    assert_eq!(fmt_pct_str(&dec(5, 0), &dec(-1, 0)).as_deref(), Some("0%"));
    assert_eq!(fmt_pct_style(&dec(1, 0), &dec(2, 0)).as_deref(), Some("width:50.0%"));
    assert_eq!(fmt_pct_style(&dec(1, 0), &dec(0, 2)).as_deref(), Some("width:0%"));
}

#[test]
fn receiving_progress_sums_the_lines() {
    let lines = vec![
        LineQuantities { quantity: dec(10, 0), received_qty: dec(4, 0), inspected_qty: dec(3, 0), returned_qty: dec(1, 0) },
        LineQuantities { quantity: dec(55, 1), received_qty: dec(0, 0), inspected_qty: dec(0, 0), returned_qty: dec(5, 1) },
    ];
    let p = order_progress(&lines).unwrap();
    assert_eq!(p.total, dec(155, 1));
    assert_eq!(p.received, dec(4, 0));
    assert_eq!(p.returned, dec(15, 1));
    assert_eq!(p.pending, dec(100, 1));
    let p = order_progress(&vec![]).unwrap();
    assert_eq!(p.total, dec(0, 0));
}

#[test]
fn item_changes_are_read_and_filtered() {
    let base = ChangeItem {
        change_type: "add".into(),
        item_id: None,
        product_id: Some(3),
        quantity: Some("2".into()),
        unit_price: Some("1.5".into()),
        description: None,
        discount_pct: None,
        tax_rate_id: Some("-1".into()),
    };
    let raw = vec![
        base.clone(),
        ChangeItem { quantity: Some("x".into()), ..base.clone() },
        ChangeItem { change_type: "update".into(), item_id: Some(8), quantity: None, tax_rate_id: Some("x".into()), ..base.clone() },
        ChangeItem { change_type: "remove".into(), item_id: None, ..base.clone() },
        ChangeItem { change_type: "remove".into(), item_id: Some(9), ..base.clone() },
        ChangeItem { change_type: "rename".into(), item_id: Some(1), ..base },
    ];
    let out = read_item_changes(&raw);
    assert_eq!(out.len(), 3);
    match &out[0] {
        PoItemChange::AddItem(r) => {
            assert_eq!((r.product_id, r.line_no), (3, 0));
            assert_eq!(r.quantity, dec(2, 0));
            assert_eq!(r.unit_price, dec(15, 1));
            assert_eq!(r.tax_rate_id, None);
            assert_eq!(r.discount_pct, dec(0, 0));
        }
        _ => panic!("expected an added line"),
    }
    match &out[1] {
        PoItemChange::UpdateItem { item_id, quantity, unit_price, tax_rate_id, .. } => {
            assert_eq!(*item_id, 8);
            assert_eq!(*quantity, None);
            assert_eq!(*unit_price, Some(dec(15, 1)));
            assert_eq!(*tax_rate_id, Some(None));
        }
        _ => panic!("expected an updated line"),
    }
    assert!(matches!(out[2], PoItemChange::RemoveItem { item_id: 9 }));
    assert_eq!(merge_order_ids(&MergeForm { order_ids: "1, 2,x,3".into() }), vec![1, 2, 3]);
}

#[test]
fn approval_ladder_layout() {
    let rules = vec![
        RuleBand { min_amount: dec(1000, 0), max_amount: Some(dec(5000, 0)), is_active: true },
        RuleBand { min_amount: dec(0, 0), max_amount: Some(dec(1000, 0)), is_active: true },
        RuleBand { min_amount: dec(5000, 0), max_amount: None, is_active: false },
    ];
    let (lo, span) = ladder_scale(&rules).unwrap();
    assert_eq!(lo, dec(0, 0));
    assert_eq!(span, dec(5000, 0));
    let (left, width, color) = ladder_bar(&rules[0], 0, &lo, &span).unwrap();
    assert_eq!((left.as_str(), width.as_str(), color), ("20.00", "80.00", "#165DFF"));
    let (_, width, color) = ladder_bar(&rules[2], 7, &lo, &span).unwrap();
    assert_eq!((width.as_str(), color), ("5", "#0FC6C2"));
    // with no highest amount above the lowest the span is one
    let only_open = vec![RuleBand { min_amount: dec(200, 0), max_amount: None, is_active: true }];
    assert_eq!(ladder_scale(&only_open).unwrap(), (dec(200, 0), dec(1, 0)));
    assert_eq!(ladder_scale(&vec![]).unwrap(), (dec(0, 0), dec(1, 0)));
}

#[test]
fn dashboard_figures_and_todo_list() {
    let c = DashboardCounts {
        active_suppliers: 12,
        pending_quotations: 2,
        draft_orders: 1,
        confirmed_orders: 2,
        partial_orders: 3,
        draft_returns: 0,
        confirmed_returns: 0,
        shipped_returns: 0,
        draft_recons: 0,
        pending_misc: 4,
        draft_payments: 0,
    };
    let s = dashboard_stats(&c, &vec![dec(100, 0), dec(25, 1)], &vec![dec(1, 0)]).unwrap();
    assert_eq!(s.in_progress_orders, 6);
    assert_eq!(s.returns_in_progress, 0);
    assert_eq!(s.pending_payment_total, dec(1035, 1));
    let todo = todo_items(&s);
    let texts: Vec<(&str, String)> = todo.iter().map(|t| (t.status_text, t.desc.clone())).collect();
    assert_eq!(
        texts,
        vec![
            ("待比价", "2 份采购报价待比价".to_string()),
            ("待确认", "6 笔采购订单待确认".to_string()),
            ("待审批", "4 笔零星请购待审批".to_string()),
        ]
    );
    assert!(todo.iter().all(|t| !t.last && t.time == "需处理"));
}

#[test]
fn nothing_to_do_when_every_count_is_zero() {
    let c = DashboardCounts {
        active_suppliers: 3,
        pending_quotations: 0,
        draft_orders: 0,
        confirmed_orders: 0,
        partial_orders: 0,
        draft_returns: 0,
        confirmed_returns: 0,
        shipped_returns: 0,
        draft_recons: 0,
        pending_misc: 0,
        draft_payments: 0,
    };
    let s = dashboard_stats(&c, &vec![], &vec![]).unwrap();
    let todo = todo_items(&s);
    assert_eq!(todo.len(), 1);
    assert_eq!((todo[0].status_key, todo[0].status_text, todo[0].desc.as_str(), todo[0].time, todo[0].last),
        ("status-completed", "无待办", "所有采购事项已处理完毕", "", true));
}

#[test]
fn summary_cache_lives_thirty_seconds() {
    let mut cache: SummaryCache<u64> = SummaryCache::new();
    assert_eq!(cache.lookup(0), None);
    cache.store(10_000, 42);
    assert_eq!(cache.lookup(10_000), Some(&42));
    assert_eq!(cache.lookup(39_999), Some(&42));
    assert_eq!(cache.lookup(40_000), None);
    invalidate_purchase_summary(&mut cache);
    assert_eq!(cache.lookup(10_001), None);
}

#[test]
fn work_center_small_rules() {
    assert!(toggle_cls(true).contains("text-accent font-semibold"));
    assert!(toggle_cls(false).contains("text-muted font-medium"));
    assert_eq!(tab_badge(0), None);
    assert_eq!(tab_badge(12).as_deref(), Some("12"));
    let today = day(2024, 5, 10);
    assert_eq!(demand_qty_class(&dec(5, 0), Some(today + 3), today), "text-danger");
    assert_eq!(demand_qty_class(&dec(5, 0), Some(today + 6), today), "text-warn");
    assert_eq!(demand_qty_class(&dec(1001, 1), Some(today + 30), today), "text-warn");
    assert_eq!(demand_qty_class(&dec(100, 0), None, today), "text-accent");
    assert!(is_overdue_or_soon(Some(today + 7), today));
    assert!(is_overdue_or_soon(Some(today - 100), today));
    assert!(!is_overdue_or_soon(Some(today + 8), today));
    assert!(!is_overdue_or_soon(None, today));
}

#[test]
fn card_queries() {
    let q = demand_card_query(&DemandCardParams { view: Some("detail".into()), keyword: Some("k".into()), supplier_id: Some(5), page: None });
    assert!(q.detail);
    assert_eq!((q.supplier_id, q.page), (Some(5), 1));
    let q = demand_card_query(&DemandCardParams { view: None, keyword: None, supplier_id: Some(5), page: Some(3) });
    assert!(!q.detail);
    assert_eq!((q.supplier_id, q.page), (None, 3));
    match settlement_query(&SettlementCardParams { tab: Some("payment".into()), status: Some(2), keyword: None, page: None }) {
        SettlementQuery::Payments { status, page, .. } => {
            assert_eq!(status, Some(PaymentStatus::Approved));
            assert_eq!(page, 1);
        }
        _ => panic!("expected payments"),
    }
    match settlement_query(&SettlementCardParams { tab: None, status: Some(3), keyword: None, page: Some(2) }) {
        SettlementQuery::Recons { status, page } => {
            assert_eq!(status, Some(PurchaseReconStatus::Settled));
            assert_eq!(page, 2);
        }
        _ => panic!("expected reconciliations"),
    }
}

#[test]
fn reconciliation_preview_and_periods() {
    assert!(matches!(preview_step(&PreviewQuery { supplier_id: Some(0), period: Some("2024-05".into()) }), PreviewStep::NeedSupplier));
    assert!(matches!(preview_step(&PreviewQuery { supplier_id: Some(2), period: Some("".into()) }), PreviewStep::NeedPeriod));
    match preview_step(&PreviewQuery { supplier_id: Some(2), period: Some("2024-05".into()) }) {
        PreviewStep::Lookup { supplier_id, period } => assert_eq!((supplier_id, period.as_str()), (2, "2024-05")),
        _ => panic!("expected a lookup"),
    }
    assert_eq!(PreviewStep::NeedSupplier.prompt_text(), Some("请先选择供应商"));
    assert_eq!(generate_periods(2024, 2, &vec![true; 3]), vec!["2024-02", "2024-01", "2023-12"]);
    assert_eq!(generate_periods(2024, 2, &vec![]), Vec::<String>::new());
    assert_eq!(period_of(0), "0000-01");
    assert_eq!(period_of(-1), "-0001-12");
    assert_eq!(period_of(12345 * 12 + 5), "+12345-06");
    let (t, x, n) = preview_totals(&vec![dec(100, 0), dec(50, 0)], &vec![dec(20, 0)]).unwrap();
    assert_eq!((t, x, n), (dec(150, 0), dec(20, 0), dec(130, 0)));
    assert_eq!(line_payable(&dec(10, 0), &dec(25, 1)), Some(dec(75, 1)));
}

#[test]
fn periods_match_chrono_formatting() {
    for (y, m) in [(2024, 1), (1999, 12), (5, 3)] {
        let expected = chrono::NaiveDate::from_ymd_opt(y, m, 1).unwrap().format("%Y-%m").to_string();
        assert_eq!(generate_periods(y, m, &vec![true])[0], expected);
    }
}

#[test]
fn invoice_list_filter_and_labels() {
    let f = invoice_filter(&InvoiceQueryParams { supplier_id: Some(1), status: Some(2), period: Some("2024-01".into()), page: None });
    assert_eq!(f.status, Some(InvoiceStatus::Posted));
    assert_eq!(f.period.as_deref(), Some("2024-01"));
    assert_eq!(invoice_label(&InvoiceStatus::Cancelled), ("Cancelled", "rgba(220,38,38,0.08)", "#dc2626"));
    assert_eq!(supplier_display(Some("甲"), 3), "甲");
    assert_eq!(supplier_display(None, 3), "#3");
}

#[test]
fn quality_lists_and_figures() {
    let f = mrb_filter(&MrbQueryParams { keyword: None, disposition: Some(3), responsible_party: Some(7), status: Some("UnderReview".into()), date_from: None, date_to: None, page: None });
    assert_eq!(f.status, Some(MRBStatus::UnderReview));
    assert_eq!(f.responsible_party, None);
    assert_eq!(mrb_parse_status("draft"), None);
    let f = result_filter(&ResultQueryParams {
        keyword: None,
        inspection_type: Some("Oqc".into()),
        result: Some("pass".into()),
        source_type: Some(5),
        status: None,
        date_from: Some("2024-03-05".into()),
        date_to: Some("yesterday".into()),
        page: None,
    });
    assert_eq!(f.inspection_type, Some(InspectionType::Oqc));
    assert_eq!(f.result, None);
    assert_eq!(f.date_from, Some(day(2024, 3, 5)));
    assert_eq!(f.date_to, None);
    assert_eq!(pending_inspections(10, 6, 3), 1);
    assert_eq!(pending_inspections(5, 6, 3), 0);
    assert_eq!(fmt_cost(&dec(0, 2)), "—");
    assert_eq!(fmt_cost(&dec(12050, 2)), "¥120.50");
}

#[test]
fn supplier_panel_rules() {
    assert_eq!(primary_contact(&vec![false, true, true], false), Some(1));
    assert_eq!(primary_contact(&vec![false, false], false), None);
    assert_eq!(primary_contact(&vec![false, false], true), Some(0));
    assert_eq!(primary_contact(&vec![], true), None);
    assert_eq!(coop_years(800), 2);
    assert_eq!(coop_years(-400), -1);
    assert_eq!(shown_or_first(None, Some("螺母")), "螺母");
    assert_eq!(shown_or_first(None, None), "—");
    assert_eq!(order_status_text(PurchaseOrderStatus::PendingApproval), "待审批");
}

#[test]
fn conversion_drawer_summary() {
    let (ids, products, total) = conversion_summary(&vec![11, 12, 13], &vec![5, 6, 5], &vec![dec(2, 0), dec(5, 1), dec(1, 0)]);
    assert_eq!(ids, "11,12,13");
    assert_eq!(products, 2);
    assert_eq!(total, Some(dec(35, 1)));
    assert_eq!(preferred_supplier(&vec![false, true, true], &vec![1, 2, 3]), Some(2));
    assert_eq!(preferred_supplier(&vec![false], &vec![1]), None);
}

#[test]
fn received_value_and_line_subtotals() {
    let lines = vec![
        ReceivedLine { received_qty: dec(2, 0), unit_price: dec(150, 2) },
        ReceivedLine { received_qty: dec(0, 0), unit_price: dec(9, 0) },
    ];
    assert_eq!(received_amount(&lines), Some(dec(300, 2)));
    assert_eq!(received_amount(&vec![]), Some(dec(0, 0)));
    assert_eq!(line_subtotal(&dec(3, 0), &dec(25, 1)), Some(dec(75, 1)));
}

#[test]
fn demand_create_page_summary() {
    let ids = vec![7, 8, 9];
    let qty = vec![dec(1, 0), dec(2, 0), dec(35, 1)];
    let (n, text, total) = chosen_summary(&ids, &qty, &vec![]);
    assert_eq!((n, text.as_str(), total), (3, "7,8,9", Some(dec(65, 1))));
    let (n, text, total) = chosen_summary(&ids, &qty, &vec![9, 7]);
    assert_eq!((n, text.as_str(), total), (2, "9,7", Some(dec(45, 1))));
    let (n, text, total) = chosen_summary(&vec![], &vec![], &vec![]);
    assert_eq!((n, text.as_str(), total), (0, "", Some(dec(0, 0))));
    assert!(is_checked(5, &vec![]));
    assert!(is_checked(5, &vec![1, 5]));
    assert!(!is_checked(5, &vec![1]));
}

#[test]
fn default_dates_and_the_first_period() {
    assert_eq!(chrono::NaiveDate::MAX.num_days_from_ce(), MAX_DAY);
    assert_eq!(chrono::NaiveDate::MIN.num_days_from_ce(), abt_purchase::date::MIN_DAY);
    // nothing is offered before the first month chrono holds
    assert_eq!(generate_periods(-262143, 2, &vec![true, true, true]), vec!["-262143-02", "-262143-01"]);
}

#[test]
fn periods_skip_months_the_clock_cannot_reach() {
    assert_eq!(generate_periods(2024, 3, &vec![true, false, true]), vec!["2024-03", "2024-01"]);
    assert_eq!(generate_periods(2024, 3, &vec![false, false]), Vec::<String>::new());
}

#[test]
fn form_default_dates() {
    let today = day(2024, 12, 20);
    let (a, b) = form_dates(today, Some(day(2025, 1, 4)));
    assert!(matches!(a, FieldValue::Day(t) if t == today));
    assert!(matches!(b, FieldValue::Day(t) if t == day(2025, 1, 4)));
    let (_, b) = form_dates(today, None);
    assert!(matches!(b, FieldValue::Empty));
    assert!(matches!(default_date(Some(7)), FieldValue::Day(7)));
    assert!(matches!(default_date(None), FieldValue::Empty));
}

fn pq_form(currency: Option<&str>) -> PQCreateForm {
    PQCreateForm {
        supplier_id: 42,
        quotation_date: "2024-05-01".to_string(),
        valid_from: "2024-05-02".to_string(),
        valid_until: "".to_string(),
        currency: currency.map(|c| c.to_string()),
        buyer_id: None,
        supplier_quotation_no: None,
        remark: None,
        items_json: "[]".to_string(),
        action: None,
    }
}

#[test]
fn quotation_form_values() {
    let today = day(2024, 12, 20);
    let v = pq_form_values(None, today, Some(today + 30));
    assert_eq!(v.supplier_id, "");
    assert!(matches!(v.quotation_date, FieldValue::Day(t) if t == today));
    assert!(matches!(v.valid_from, FieldValue::Day(t) if t == today));
    assert!(matches!(v.valid_until, FieldValue::Day(t) if t == today + 30));
    assert_eq!(v.currency, "CNY");
    let v = pq_form_values(None, today, None);
    assert!(matches!(v.valid_until, FieldValue::Empty));
    let f = pq_form(Some("USD"));
    let v = pq_form_values(Some(&f), today, Some(today + 30));
    assert_eq!(v.supplier_id, "42");
    assert!(matches!(&v.quotation_date, FieldValue::Text(t) if t == "2024-05-01"));
    assert!(matches!(&v.valid_from, FieldValue::Text(t) if t == "2024-05-02"));
    assert!(matches!(&v.valid_until, FieldValue::Text(t) if t.is_empty()));
    assert_eq!(v.currency, "USD");
    let f = pq_form(None);
    assert_eq!(pq_form_values(Some(&f), today, None).currency, "CNY");
}

#[test]
fn detail_fallbacks() {
    assert_eq!(purchase_quotation_detail::remark_text(""), "—");
    assert_eq!(purchase_quotation_detail::remark_text("加急"), "加急");
    assert_eq!(purchase_quotation_detail::quotation_currency(Some("USD")), "USD");
    assert_eq!(purchase_quotation_detail::quotation_currency(None), "CNY");
    assert_eq!(qms_mrb_detail::remark_text(""), "—");
    assert_eq!(qms_mrb_detail::remark_text("x"), "x");
    assert_eq!(qms_mrb_detail::name_or_dash(Some("张三")), "张三");
    assert_eq!(qms_mrb_detail::name_or_dash(None), "—");
}

#[test]
fn step_labels_and_tails() {
    assert_eq!(purchase_order_detail::workflow_labels(), vec!["草稿", "已确认", "部分收货", "已收货", "已关闭"]);
    assert_eq!(purchase_order_detail::workflow_tail(PurchaseOrderStatus::Cancelled), Some("已取消"));
    assert_eq!(purchase_order_detail::workflow_tail(PurchaseOrderStatus::Draft), None);
    assert_eq!(purchase_quotation_detail::workflow_tail(PurchaseQuotationStatus::Expired), Some("已过期"));
    assert_eq!(purchase_return_detail::workflow_labels().len(), 4);
}

#[test]
fn quotation_row_price_supplier() {
    assert_eq!(price_supplier(&ItemRowParams { product_id: 1, supplier_id: Some(4) }), Some(4));
    assert_eq!(price_supplier(&ItemRowParams { product_id: 1, supplier_id: Some(0) }), None);
    assert_eq!(price_supplier(&ItemRowParams { product_id: 1, supplier_id: None }), None);
}
