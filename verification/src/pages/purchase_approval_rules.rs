//! Purchase approval rules: reading the rule form, and laying the rules'
//! amount bands out on one scale.
use vstd::prelude::*;
use crate::decimal::{
    dec_checked_div, dec_checked_mul, dec_checked_sub, dec_less, dec_text, decimal_checked_div,
    decimal_checked_mul, decimal_checked_sub, decimal_parse, decimal_text, opt_parts, opt_wf,
    parse_decimal, Dec,
};
use crate::form::{invalid, nonempty_id, parse_nonempty_id, Rejection};
use crate::query::{opt_string};
use crate::text::{i32_value, owned, parse_i32_str, same_text};

verus! {

/// The rule form.
#[derive(Clone, Debug)]
pub struct RuleFormData {
    pub name: String,
    pub min_amount: String,
    pub max_amount: Option<String>,
    pub approver_role: String,
    pub approver_id: Option<String>,
    pub sort_order: String,
    pub is_active: Option<String>,
}

/// A rule create or update request.
#[derive(Clone, Debug)]
pub struct RuleUpsertRequest {
    pub name: String,
    pub min_amount: Dec,
    pub max_amount: Option<Dec>,
    pub approver_role: String,
    pub approver_id: Option<i64>,
    pub sort_order: i32,
    pub is_active: bool,
}

/// An optional amount read when given, not empty and readable.
pub open spec fn nonempty_dec(o: Option<Seq<char>>) -> Option<(i128, u32)> {
    match o {
        Some(s) => if s.len() > 0 {
            decimal_parse(s)
        } else {
            None
        },
        None => None,
    }
}

fn parse_nonempty_dec(o: &Option<String>) -> (r: Option<Dec>)
    ensures
        opt_parts(r) == nonempty_dec(opt_string(*o)),
        opt_wf(r),
{
    match o {
        Some(s) => if s.as_str().unicode_len() > 0 {
            parse_decimal(s.as_str())
        } else {
            None
        },
        None => None,
    }
}

/// Reads the rule form: refused when the lowest amount, then the sort order,
/// cannot be read; otherwise the request, with the highest amount and the
/// approver read when given and readable, and the rule active exactly when
/// its box was ticked (`on`).
pub fn parse_rule_form(form: &RuleFormData) -> (r: Result<RuleUpsertRequest, Rejection>)
    ensures
        match r {
            Err(e) => e is Validation && if decimal_parse(form.min_amount@) is None {
                e.message() == "无效最低金额"@
            } else {
                i32_value(form.sort_order@) is None && e.message() == "无效排序值"@
            },
            Ok(req) => {
                &&& decimal_parse(form.min_amount@) == Some(req.min_amount.parts())
                &&& i32_value(form.sort_order@) == Some(req.sort_order)
                &&& req.name@ == form.name@
                &&& opt_parts(req.max_amount) == nonempty_dec(opt_string(form.max_amount))
                &&& req.approver_role@ == form.approver_role@
                &&& req.approver_id == nonempty_id(opt_string(form.approver_id))
                &&& req.is_active == (opt_string(form.is_active) == Some("on"@))
                &&& req.min_amount.wf() && opt_wf(req.max_amount)
            },
        },
{
    let min_amount = match parse_decimal(form.min_amount.as_str()) {
        Some(d) => d,
        None => {
            return Err(invalid("无效最低金额"));
        },
    };
    let max_amount = parse_nonempty_dec(&form.max_amount);
    let approver_id = parse_nonempty_id(&form.approver_id);
    let sort_order = match parse_i32_str(form.sort_order.as_str()) {
        Some(v) => v,
        None => {
            return Err(invalid("无效排序值"));
        },
    };
    let is_active = match &form.is_active {
        Some(s) => same_text(s.as_str(), "on"),
        None => false,
    };
    Ok(
        RuleUpsertRequest {
            name: owned(form.name.as_str()),
            min_amount,
            max_amount,
            approver_role: owned(form.approver_role.as_str()),
            approver_id,
            sort_order,
            is_active,
        },
    )
}

// ── The amount ladder ──

/// The amount band of one rule.
#[derive(PartialEq, Eq, Structural, Clone, Copy, Debug)]
pub struct RuleBand {
    pub min_amount: Dec,
    pub max_amount: Option<Dec>,
    pub is_active: bool,
}

pub open spec fn bands_wf(rules: Seq<RuleBand>) -> bool {
    forall|i: int|
        0 <= i < rules.len() ==> (#[trigger] rules[i]).min_amount.wf() && opt_wf(
            rules[i].max_amount,
        )
}

/// The least lowest amount among the first `n` rules (the first of equal
/// ones, as `Iterator::min` keeps), zero when there is none.
pub open spec fn min_all(rules: Seq<RuleBand>, n: int) -> Dec
    decreases n,
{
    if n <= 0 {
        Dec { mantissa: 0, scale: 0 }
    } else if n == 1 {
        rules[0].min_amount
    } else {
        let m = min_all(rules, n - 1);
        if rules[n - 1].min_amount.value28() < m.value28() {
            rules[n - 1].min_amount
        } else {
            m
        }
    }
}

/// The greatest highest amount among the first `n` rules, starting from
/// zero (rules without one are passed over).
pub open spec fn max_all(rules: Seq<RuleBand>, n: int) -> Dec
    decreases n,
{
    if n <= 0 {
        Dec { mantissa: 0, scale: 0 }
    } else {
        let m = max_all(rules, n - 1);
        match rules[n - 1].max_amount {
            Some(b) => if b.value28() > m.value28() {
                b
            } else {
                m
            },
            None => m,
        }
    }
}

/// The ladder's scale: its lowest amount, and its span (the greatest
/// highest amount less the lowest when greater, else one); `None` where
/// the span overflows.
pub open spec fn ladder_scale_of(rules: Seq<RuleBand>) -> Option<(Dec, (i128, u32))> {
    let lo = min_all(rules, rules.len() as int);
    let hi = max_all(rules, rules.len() as int);
    if hi.value28() > lo.value28() {
        match decimal_checked_sub(hi.parts(), lo.parts()) {
            Some(r) => Some((lo, r)),
            None => None,
        }
    } else {
        Some((lo, (1i128, 0u32)))
    }
}

/// The ladder's lowest amount and span.
pub fn ladder_scale(rules: &Vec<RuleBand>) -> (r: Option<(Dec, Dec)>)
    requires
        bands_wf(rules@),
    ensures
        match r {
            Some((lo, span)) => ladder_scale_of(rules@) == Some((lo, span.parts())) && lo.wf()
                && span.wf(),
            None => ladder_scale_of(rules@) is None,
        },
{
    let mut lo = Dec::zero();
    let mut hi = Dec::zero();
    let mut i: usize = 0;
    while i < rules.len()
        invariant
            i <= rules.len(),
            bands_wf(rules@),
            lo == min_all(rules@, i as int),
            hi == max_all(rules@, i as int),
            lo.wf(),
            hi.wf(),
        decreases rules.len() - i,
    {
        let b = rules[i];
        assert(b == rules@[i as int]);
        if i == 0 {
            lo = b.min_amount;
        } else if dec_less(&b.min_amount, &lo) {
            lo = b.min_amount;
        }
        match b.max_amount {
            Some(m) => {
                if dec_less(&hi, &m) {
                    hi = m;
                }
            },
            None => {},
        }
        i = i + 1;
    }
    if dec_less(&lo, &hi) {
        match dec_checked_sub(&hi, &lo) {
            Some(span) => Some((lo, span)),
            None => None,
        }
    } else {
        Some((lo, Dec::from_int(1)))
    }
}

/// The bar colours, taken in turn.
pub open spec fn ladder_color(i: int) -> Seq<char> {
    let k = i % 6;
    if k == 0 {
        "#165DFF"@
    } else if k == 1 {
        "#0FC6C2"@
    } else if k == 2 {
        "#FF7D00"@
    } else if k == 3 {
        "#F53F3F"@
    } else if k == 4 {
        "#722ED1"@
    } else {
        "#14C9C9"@
    }
}

/// `(a - b) / span * 100` as `rust_decimal` computes it.
pub open spec fn scaled(a: Dec, b: Dec, span: Dec) -> Option<(i128, u32)> {
    match decimal_checked_sub(a.parts(), b.parts()) {
        Some(d) => match decimal_checked_div(d, span.parts()) {
            Some(q) => decimal_checked_mul(q, (100i128, 0u32)),
            None => None,
        },
        None => None,
    }
}

fn scale_of(a: &Dec, b: &Dec, span: &Dec) -> (r: Option<Dec>)
    requires
        a.wf(),
        b.wf(),
        span.wf(),
    ensures
        opt_parts(r) == scaled(*a, *b, *span),
        opt_wf(r),
{
    match dec_checked_sub(a, b) {
        Some(d) => match dec_checked_div(&d, span) {
            Some(q) => dec_checked_mul(&q, &Dec::from_int(100)),
            None => None,
        },
        None => None,
    }
}

/// Where the bar of rule `i` stands on the ladder: its left edge and width
/// in percent of the span (a rule without a highest amount gets a narrow
/// bar of 5) and its colour; `None` where the arithmetic overflows.
pub fn ladder_bar(rule: &RuleBand, i: usize, lo: &Dec, span: &Dec) -> (r: Option<(String, String, &'static str)>)
    requires
        rule.min_amount.wf(),
        opt_wf(rule.max_amount),
        lo.wf(),
        span.wf(),
    ensures
        match r {
            Some((left, width, color)) => {
                &&& scaled(rule.min_amount, *lo, *span) matches Some(l) && left@ == decimal_text(l)
                &&& match rule.max_amount {
                    Some(m) => scaled(m, rule.min_amount, *span) matches Some(w) && width@
                        == decimal_text(w),
                    None => width@ == "5"@,
                }
                &&& color@ == ladder_color(i as int)
            },
            None => scaled(rule.min_amount, *lo, *span) is None || (rule.max_amount matches Some(
                m,
            ) && scaled(m, rule.min_amount, *span) is None),
        },
{
    let left = match scale_of(&rule.min_amount, lo, span) {
        Some(v) => dec_text(&v),
        None => {
            return None;
        },
    };
    let width = match rule.max_amount {
        Some(m) => match scale_of(&m, &rule.min_amount, span) {
            Some(v) => dec_text(&v),
            None => {
                return None;
            },
        },
        None => owned("5"),
    };
    let k = i % 6;
    let color = if k == 0 {
        "#165DFF"
    } else if k == 1 {
        "#0FC6C2"
    } else if k == 2 {
        "#FF7D00"
    } else if k == 3 {
        "#F53F3F"
    } else if k == 4 {
        "#722ED1"
    } else {
        "#14C9C9"
    };
    Some((left, width, color))
}

} // verus!
