//! The decisions of each purchase and quality page, one module per page.

pub mod purchase_approval_rules;
pub mod purchase_dashboard;
pub mod purchase_demand_pool;
pub mod purchase_demand_pool_create;
pub mod purchase_invoice_list;
pub mod purchase_order_create;
pub mod purchase_order_detail;
pub mod purchase_order_edit;
pub mod purchase_order_list;
pub mod purchase_quotation_create;
pub mod purchase_quotation_detail;
pub mod purchase_quotation_list;
pub mod purchase_recon_create;
pub mod purchase_recon_detail;
pub mod purchase_recon_list;
pub mod purchase_return_create;
pub mod purchase_return_detail;
pub mod purchase_return_list;
pub mod purchase_settings;
pub mod purchase_work_center;
pub mod qms_dashboard;
pub mod qms_mrb_create;
pub mod qms_mrb_detail;
pub mod qms_mrb_list;
pub mod qms_result_create;
pub mod qms_result_detail;
pub mod qms_result_list;
