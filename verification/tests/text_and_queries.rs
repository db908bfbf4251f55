use abt_purchase::ids::{distinct_ids, sorted_unique};
use abt_purchase::pages::purchase_demand_pool::{detail_query_string, material_query_string};
use abt_purchase::pages::purchase_invoice_list::{build_query_string as invoice_query, InvoiceQueryParams};
use abt_purchase::pages::purchase_quotation_list::{build_query_string as pq_query, PQQueryParams};
use abt_purchase::pages::purchase_recon_list::{build_query_string as precon_query, PreconQueryParams};
use abt_purchase::pages::purchase_return_list::{build_query_string as pr_query, PRQueryParams};
use abt_purchase::pages::qms_mrb_list::{build_query_string as mrb_query, MrbQueryParams};
use abt_purchase::pages::qms_result_list::{build_query_string as result_query, ResultQueryParams};
use abt_purchase::text::{
    i64_text, join_ids, join_with, parse_i32_str, parse_i64_str, parse_id_list, same_text,
    trim_chars,
};

#[test]
fn id_list_skips_unreadable_pieces_and_trims() {
    assert_eq!(parse_id_list(" 1, x,3 ,").to_vec(), vec![1, 3]);
    assert_eq!(parse_id_list("").to_vec(), Vec::<i64>::new());
    assert_eq!(parse_id_list("-7,+8").to_vec(), vec![-7, 8]);
    assert_eq!(parse_id_list("9223372036854775808,5").to_vec(), vec![5]);
}

#[test]
fn id_list_round_trips_through_its_text() {
    let ids = vec![12, -3, 0, 9223372036854775807];
    let text = join_ids(&ids);
    assert_eq!(text, "12,-3,0,9223372036854775807");
    assert_eq!(parse_id_list(&text), ids);
}

#[test]
fn integers_read_as_rust_reads_them() {
    assert_eq!(parse_i64_str("+5"), Some(5));
    assert_eq!(parse_i64_str("-0"), Some(0));
    assert_eq!(parse_i64_str("12a"), None);
    assert_eq!(parse_i64_str(""), None);
    assert_eq!(parse_i64_str("-"), None);
    assert_eq!(parse_i32_str("2147483648"), None);
    assert_eq!(parse_i32_str("-2147483648"), Some(i32::MIN));
    assert_eq!(i64_text(i64::MIN), "-9223372036854775808");
}

#[test]
fn trimming_and_comparing_texts() {
    let t: Vec<char> = " \t a b \n".chars().collect();
    assert_eq!(trim_chars(&t).iter().collect::<String>(), "a b");
    assert!(same_text("detail", "detail"));
    assert!(!same_text("detail", "details"));
    assert_eq!(join_with(&vec!["a".to_string(), "b".to_string()], "&"), "a&b");
    assert_eq!(join_with(&vec![], "&"), "");
}

#[test]
fn material_and_detail_query_strings() {
    assert_eq!(material_query_string(Some("bolt"), Some("7days")), "keyword=bolt&date_filter=7days");
    assert_eq!(material_query_string(Some(""), Some("overdue")), "date_filter=overdue");
    assert_eq!(material_query_string(None, None), "");
    assert_eq!(detail_query_string(None, None), "view=detail");
    assert_eq!(detail_query_string(Some("nut"), Some("")), "view=detail&keyword=nut");
}

#[test]
fn invoice_query_string_has_a_question_mark_and_skips_page_one() {
    let p = InvoiceQueryParams { supplier_id: Some(3), status: Some(2), period: Some("2024-05".into()), page: Some(1) };
    assert_eq!(invoice_query(&p), "?supplier_id=3&status=2&period=2024-05");
    let p = InvoiceQueryParams { supplier_id: None, status: None, period: None, page: Some(4) };
    assert_eq!(invoice_query(&p), "?page=4");
    let p = InvoiceQueryParams { supplier_id: None, status: None, period: None, page: None };
    assert_eq!(invoice_query(&p), "");
}

#[test]
fn list_query_strings_keep_their_order() {
    let p = PQQueryParams { keyword: Some("k".into()), status: Some(1), supplier_id: Some(9), date_range: Some("7d".into()), page: Some(2) };
    assert_eq!(pq_query(&p), "keyword=k&status=1&supplier_id=9&date_range=7d");
    let p = PRQueryParams { keyword: None, status: Some(5), supplier_id: None, date_range: Some("3m".into()), page: None };
    assert_eq!(pr_query(&p), "status=5&date_range=3m");
    let p = PreconQueryParams { keyword: Some("".into()), status: None, supplier_id: Some(2), period: Some("2024-01".into()), page: None };
    assert_eq!(precon_query(&p), "keyword=&supplier_id=2&period=2024-01");
}

#[test]
fn mrb_query_string_lists_every_given_field() {
    let p = MrbQueryParams {
        keyword: Some("bad".into()),
        disposition: Some(1),
        responsible_party: Some(2),
        status: Some("Draft".into()),
        date_from: Some("2024-01-01".into()),
        date_to: Some("2024-02-01".into()),
        page: Some(3),
    };
    assert_eq!(
        mrb_query(&p),
        "keyword=bad&disposition=1&responsible_party=2&status=Draft&date_from=2024-01-01&date_to=2024-02-01"
    );
}

#[test]
fn result_query_string_drops_an_empty_keyword() {
    let p = ResultQueryParams {
        keyword: Some("".into()),
        inspection_type: Some("Iqc".into()),
        result: None,
        source_type: Some(3),
        status: Some("Pending".into()),
        date_from: None,
        date_to: Some("2024-03-01".into()),
        page: None,
    };
    assert_eq!(result_query(&p), "inspection_type=Iqc&source_type=3&status=Pending&date_to=2024-03-01");
}

#[test]
fn sorted_unique_ids() {
    assert_eq!(sorted_unique(&vec![5, 1, 5, 3, 1]), vec![1, 3, 5]);
    assert_eq!(sorted_unique(&vec![]), Vec::<i64>::new());
    assert_eq!(sorted_unique(&vec![-2, 7, -2]), vec![-2, 7]);
}

#[test]
fn distinct_ids_keep_first_occurrence() {
    assert_eq!(distinct_ids(&vec![4, 2, 4, 9, 2]), vec![4, 2, 9]);
    assert_eq!(distinct_ids(&vec![1]), vec![1]);
}
